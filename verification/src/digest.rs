//! SHA-256 digests of files and directories.
//!
//! A directory's digest covers, file by file in the order of the names: the
//! name's bytes, a zero byte, the length of the content as little-endian
//! bytes, and the content.
use sha2::Digest;
use vstd::prelude::*;
use vstd::string::*;

verus! {

// ---------------------------------------------------------------------------
// Hexadecimal text
// ---------------------------------------------------------------------------
/// The lower-case hexadecimal digit of `n`.
pub open spec fn hex_digit(n: int) -> char {
    if n < 10 {
        (48 + n) as char
    } else {
        (87 + n) as char
    }
}

/// Two lower-case hexadecimal digits per byte.
pub open spec fn hex_text(bytes: Seq<u8>) -> Seq<char> {
    Seq::new(
        2 * bytes.len(),
        |i: int|
            if i % 2 == 0 {
                hex_digit(bytes[i / 2] as int / 16)
            } else {
                hex_digit(bytes[i / 2] as int % 16)
            },
    )
}

fn hex_char(n: u8) -> (c: char)
    requires
        n < 16,
    ensures
        c == hex_digit(n as int),
{
    if n < 10 {
        (48 + n) as char
    } else {
        (87 + n) as char
    }
}

/// Writes bytes as lower-case hexadecimal text.
pub fn encode_hex(bytes: &[u8]) -> (text: String)
    ensures
        text@ == hex_text(bytes@),
{
    let mut text: String = String::new();
    let mut i: usize = 0;
    while i < bytes.len()
        invariant
            i <= bytes@.len(),
            text@ == hex_text(bytes@.take(i as int)),
        decreases bytes@.len() - i,
    {
        let byte: u8 = bytes[i];
        let ghost before = text@;
        text.push(hex_char(byte / 16));
        text.push(hex_char(byte % 16));
        proof {
            let all = hex_text(bytes@.take(i + 1));
            assert forall|k: int| 0 <= k < all.len() implies all[k] == text@[k] by {
                if k < before.len() {
                    assert(bytes@.take(i + 1)[k / 2] == bytes@.take(i as int)[k / 2]);
                }
            }
            assert(text@ =~= all);
        }
        i = i + 1;
    }
    proof {
        assert(bytes@.take(bytes@.len() as int) =~= bytes@);
    }
    text
}

/// Different bytes have different hexadecimal text.
pub proof fn law_hex_is_injective(left: Seq<u8>, right: Seq<u8>)
    requires
        hex_text(left) == hex_text(right),
    ensures
        left == right,
{
    assert(hex_text(left).len() == 2 * left.len());
    assert(hex_text(right).len() == 2 * right.len());
    assert forall|i: int| 0 <= i < left.len() implies left[i] == right[i] by {
        let a = left[i] as int;
        let b = right[i] as int;
        assert((2 * i) / 2 == i && (2 * i) % 2 == 0);
        assert((2 * i + 1) / 2 == i && (2 * i + 1) % 2 == 1);
        assert(hex_text(left)[2 * i] == hex_digit(a / 16));
        assert(hex_text(right)[2 * i] == hex_digit(b / 16));
        assert(hex_text(left)[2 * i + 1] == hex_digit(a % 16));
        assert(hex_text(right)[2 * i + 1] == hex_digit(b % 16));
        assert(hex_digit(a / 16) as int == hex_digit(b / 16) as int);
        assert(hex_digit(a % 16) as int == hex_digit(b % 16) as int);
        assert(a / 16 == b / 16 && a % 16 == b % 16);
    }
    assert(left =~= right);
}

// ---------------------------------------------------------------------------
// Digests of bytes
// ---------------------------------------------------------------------------
/// The SHA-256 digest of a message.
pub uninterp spec fn sha256(message: Seq<u8>) -> Seq<u8>;

/// `sha2::Sha256::digest` hashes the message in one go. Its result is a
/// function of the message alone and has 32 bytes.
#[verifier::external_body]
fn sha256_digest(message: &[u8]) -> (digest: Vec<u8>)
    ensures
        digest@ == sha256(message@),
        digest@.len() == 32,
{
    sha2::Sha256::digest(message).to_vec()
}

/// The SHA-256 digest of bytes, as hexadecimal text.
pub fn sha256_bytes(bytes: &[u8]) -> (text: String)
    ensures
        text@ == hex_text(sha256(bytes@)),
        text@.len() == 64,
{
    let digest: Vec<u8> = sha256_digest(bytes);
    encode_hex(digest.as_slice())
}

// ---------------------------------------------------------------------------
// Digests of directories
// ---------------------------------------------------------------------------
/// A file of a directory: its path below the directory, and its content.
#[derive(Debug)]
pub struct FileEntry {
    pub relative: String,
    pub bytes: Vec<u8>,
}

/// A file as the digest sees it.
pub struct FileView {
    pub name: Seq<u8>,
    pub content: Seq<u8>,
}

impl View for FileEntry {
    type V = FileView;

    open spec fn view(&self) -> FileView {
        FileView { name: vstd::utf8::encode_utf8(self.relative@), content: self.bytes@ }
    }
}

/// The files of a list, in its order.
pub open spec fn file_views(files: Seq<FileEntry>) -> Seq<FileView> {
    Seq::new(files.len(), |i: int| files[i]@)
}

/// `a` comes before `b` in the order of bytes.
pub open spec fn bytes_less(a: Seq<u8>, b: Seq<u8>) -> bool
    decreases a.len(),
{
    if b.len() == 0 {
        false
    } else if a.len() == 0 {
        true
    } else {
        a[0] < b[0] || (a[0] == b[0] && bytes_less(a.drop_first(), b.drop_first()))
    }
}

/// `file` put before the first file of `sorted` that does not come before it.
pub open spec fn placed(file: FileView, sorted: Seq<FileView>) -> Seq<FileView>
    decreases sorted.len(),
{
    if sorted.len() == 0 || !bytes_less(sorted[0].name, file.name) {
        seq![file] + sorted
    } else {
        seq![sorted[0]] + placed(file, sorted.drop_first())
    }
}

/// The files in the order of their names; files of the same name keep theirs.
pub open spec fn in_name_order(files: Seq<FileView>) -> Seq<FileView>
    decreases files.len(),
{
    if files.len() == 0 {
        files
    } else {
        placed(files[0], in_name_order(files.drop_first()))
    }
}

/// `n` in `width` little-endian bytes.
pub open spec fn le_bytes(n: nat, width: nat) -> Seq<u8>
    decreases width,
{
    if width == 0 {
        Seq::empty()
    } else {
        seq![(n % 256) as u8] + le_bytes(n / 256, (width - 1) as nat)
    }
}

/// The number of bytes of a length.
pub open spec fn length_width() -> nat {
    usize::BITS as nat / 8
}

/// What one file contributes to a directory digest.
pub open spec fn framed(file: FileView) -> Seq<u8> {
    file.name + seq![0u8] + le_bytes(file.content.len(), length_width()) + file.content
}

/// What a list of files contributes, in its order.
pub open spec fn framed_all(files: Seq<FileView>) -> Seq<u8>
    decreases files.len(),
{
    if files.len() == 0 {
        Seq::empty()
    } else {
        framed(files[0]) + framed_all(files.drop_first())
    }
}

/// The digest text of a directory with these files.
pub open spec fn dir_digest(files: Seq<FileView>) -> Seq<char> {
    hex_text(sha256(framed_all(in_name_order(files))))
}

/// The name that a file is digested under: backslashes become slashes.
pub open spec fn portable_name(path: Seq<char>) -> Seq<char> {
    Seq::new(
        path.len(),
        |i: int|
            if path[i] == '\\' {
                '/'
            } else {
                path[i]
            },
    )
}

proof fn lemma_placed_at(file: FileView, sorted: Seq<FileView>, at: int)
    requires
        0 <= at <= sorted.len(),
        forall|i: int| 0 <= i < at ==> bytes_less((#[trigger] sorted[i]).name, file.name),
        at < sorted.len() ==> !bytes_less(sorted[at].name, file.name),
    ensures
        placed(file, sorted) == sorted.insert(at, file),
    decreases at,
{
    if at == 0 {
        assert(seq![file] + sorted =~= sorted.insert(0, file));
    } else {
        assert(bytes_less(sorted[0].name, file.name));
        lemma_placed_at(file, sorted.drop_first(), at - 1);
        assert(seq![sorted[0]] + sorted.drop_first().insert(at - 1, file) =~= sorted.insert(
            at,
            file,
        ));
    }
}

proof fn lemma_framed_push(files: Seq<FileView>, file: FileView)
    ensures
        framed_all(files.push(file)) == framed_all(files) + framed(file),
    decreases files.len(),
{
    let all = files.push(file);
    if files.len() == 0 {
        assert(all.drop_first() =~= files);
        assert(framed_all(all) =~= framed_all(files) + framed(file));
    } else {
        assert(all.drop_first() =~= files.drop_first().push(file));
        lemma_framed_push(files.drop_first(), file);
        assert(framed_all(all) =~= framed_all(files) + framed(file));
    }
}

/// Whether the name `left` comes before the name `right`.
fn name_before(left: &[u8], right: &[u8]) -> (before: bool)
    ensures
        before == bytes_less(left@, right@),
{
    let mut i: usize = 0;
    proof {
        assert(left@.skip(0) =~= left@);
        assert(right@.skip(0) =~= right@);
    }
    while i < left.len() && i < right.len()
        invariant
            i <= left@.len(),
            i <= right@.len(),
            bytes_less(left@, right@) == bytes_less(left@.skip(i as int), right@.skip(i as int)),
        decreases left@.len() - i,
    {
        if left[i] != right[i] {
            return left[i] < right[i];
        }
        proof {
            assert(left@.skip(i as int).drop_first() =~= left@.skip(i + 1));
            assert(right@.skip(i as int).drop_first() =~= right@.skip(i + 1));
        }
        i = i + 1;
    }
    i < right.len()
}

/// The files in the order of their names.
fn ordered(files: &Vec<FileEntry>) -> (sorted: Vec<&FileEntry>)
    ensures
        Seq::new(sorted@.len(), |i: int| sorted@[i]@) == in_name_order(file_views(files@)),
{
    let ghost views = file_views(files@);
    let mut sorted: Vec<&FileEntry> = Vec::new();
    let mut i: usize = files.len();
    proof {
        assert(views.skip(i as int) =~= Seq::empty());
        assert(Seq::new(sorted@.len(), |k: int| sorted@[k]@) =~= in_name_order(
            views.skip(i as int),
        ));
    }
    while i > 0
        invariant
            i <= files@.len(),
            views == file_views(files@),
            Seq::new(sorted@.len(), |k: int| sorted@[k]@) == in_name_order(views.skip(i as int)),
        decreases i,
    {
        let file: &FileEntry = &files[i - 1];
        let ghost before = Seq::new(sorted@.len(), |k: int| sorted@[k]@);
        let mut at: usize = 0;
        while at < sorted.len() && name_before(
            sorted[at].relative.as_str().as_bytes(),
            file.relative.as_str().as_bytes(),
        )
            invariant
                at <= sorted@.len(),
                before == Seq::new(sorted@.len(), |k: int| sorted@[k]@),
                forall|k: int| 0 <= k < at ==> bytes_less((#[trigger] before[k]).name, file@.name),
            decreases sorted@.len() - at,
        {
            proof {
                assert(before[at as int].name == sorted@[at as int]@.name);
            }
            at = at + 1;
        }
        proof {
            if at < sorted@.len() {
                assert(before[at as int] == sorted@[at as int]@);
            }
            lemma_placed_at(file@, before, at as int);
            assert(views.skip(i - 1).drop_first() =~= views.skip(i as int));
            assert(views.skip(i - 1)[0] == file@);
        }
        sorted.insert(at, file);
        proof {
            assert(Seq::new(sorted@.len(), |k: int| sorted@[k]@) =~= before.insert(
                at as int,
                file@,
            ));
        }
        i = i - 1;
    }
    proof {
        assert(views.skip(0) =~= views);
    }
    sorted
}

/// Appends a length as little-endian bytes.
fn append_length(out: &mut Vec<u8>, length: usize)
    ensures
        final(out)@ == old(out)@ + le_bytes(length as nat, length_width()),
{
    let width: u32 = usize::BITS / 8;
    let mut rest: usize = length;
    let mut k: u32 = 0;
    let ghost start = out@;
    let ghost all = le_bytes(length as nat, length_width());
    proof {
        assert(start + all =~= out@ + le_bytes(rest as nat, (width - k) as nat));
    }
    while k < width
        invariant
            k <= width,
            start + all == out@ + le_bytes(rest as nat, (width - k) as nat),
        decreases width - k,
    {
        let ghost before = out@;
        out.push((rest % 256) as u8);
        proof {
            let tail = le_bytes((rest / 256) as nat, (width - k - 1) as nat);
            assert(before + (seq![(rest % 256) as u8] + tail) =~= out@ + tail);
        }
        rest = rest / 256;
        k = k + 1;
    }
    proof {
        assert(out@ + Seq::<u8>::empty() =~= out@);
    }
}

/// Appends bytes.
pub(crate) fn append_bytes(out: &mut Vec<u8>, more: &[u8])
    ensures
        final(out)@ == old(out)@ + more@,
{
    let ghost start = out@;
    let mut i: usize = 0;
    while i < more.len()
        invariant
            i <= more@.len(),
            out@ == start + more@.take(i as int),
        decreases more@.len() - i,
    {
        out.push(more[i]);
        proof {
            assert(more@.take(i + 1) =~= more@.take(i as int).push(more@[i as int]));
            assert(out@ =~= start + more@.take(i + 1));
        }
        i = i + 1;
    }
    proof {
        assert(more@.take(more@.len() as int) =~= more@);
    }
}

/// The bytes that the digest of a directory's files is made over.
pub fn dir_message(files: &Vec<FileEntry>) -> (message: Vec<u8>)
    ensures
        message@ == framed_all(in_name_order(file_views(files@))),
{
    let sorted: Vec<&FileEntry> = ordered(files);
    let ghost views = Seq::new(sorted@.len(), |i: int| sorted@[i]@);
    let mut message: Vec<u8> = Vec::new();
    let mut i: usize = 0;
    proof {
        assert(views.take(0) =~= Seq::empty());
    }
    while i < sorted.len()
        invariant
            i <= sorted@.len(),
            views == Seq::new(sorted@.len(), |k: int| sorted@[k]@),
            message@ == framed_all(views.take(i as int)),
        decreases sorted@.len() - i,
    {
        let file: &FileEntry = sorted[i];
        let ghost before = message@;
        append_bytes(&mut message, file.relative.as_str().as_bytes());
        message.push(0);
        append_length(&mut message, file.bytes.len());
        append_bytes(&mut message, file.bytes.as_slice());
        proof {
            lemma_framed_push(views.take(i as int), file@);
            assert(views.take(i + 1) =~= views.take(i as int).push(file@));
            assert(message@ =~= before + framed(file@));
        }
        i = i + 1;
    }
    proof {
        assert(views.take(views.len() as int) =~= views);
    }
    message
}

/// The digest of a directory's files, as hexadecimal text. The order of the
/// list matters only among files of the same name.
pub fn sha256_dir(files: &Vec<FileEntry>) -> (text: String)
    ensures
        text@ == dir_digest(file_views(files@)),
        text@.len() == 64,
{
    let message: Vec<u8> = dir_message(files);
    sha256_bytes(message.as_slice())
}

/// The name that a file is digested under, from its path below the directory.
pub fn portable_file_name(path: &str) -> (name: String)
    ensures
        name@ == portable_name(path@),
{
    let chars: Vec<char> = crate::text::chars_of(path);
    let mut name: String = String::new();
    let mut i: usize = 0;
    while i < chars.len()
        invariant
            chars@ == path@,
            i <= chars@.len(),
            name@ == portable_name(path@).take(i as int),
        decreases chars@.len() - i,
    {
        let c: char = if chars[i] == '\\' {
            '/'
        } else {
            chars[i]
        };
        name.push(c);
        proof {
            assert(portable_name(path@).take(i + 1) =~= portable_name(path@).take(i as int).push(c));
        }
        i = i + 1;
    }
    proof {
        assert(portable_name(path@).take(path@.len() as int) =~= portable_name(path@));
    }
    name
}

} // verus!
