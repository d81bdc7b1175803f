//! What digests are taken of, and how they are written.
use vstd::prelude::*;
use vstd::string::*;
use vstd::utf8::{encode_utf8, encode_utf8_decode_utf8};

use crate::digest::{
    bytes_less, dir_message, encode_hex, file_views, framed, framed_all, hex_digit, in_name_order,
    le_bytes, length_width, placed, portable_file_name, sha256, sha256_bytes, sha256_dir, FileEntry,
    FileView,
};
use crate::digest_laws::{all_files, is_file, law_digested_bytes_determine_files};

verus! {

/// The lower-case hexadecimal digit of a number below sixteen.
pub open spec fn is_lower_digit(c: char, number: int) -> bool {
    ||| 0 <= number <= 9 && c as int == '0' as int + number
    ||| 10 <= number <= 15 && c as int == 'a' as int + (number - 10)
}

/// Bytes are written with two lower-case digits each, the higher one first.
pub proof fn law_bytes_are_written_as_digit_pairs(bytes: &[u8], text: String, i: int)
    requires
        call_ensures(encode_hex, (bytes,), text),
    ensures
        text@.len() == 2 * bytes@.len(),
        0 <= i < bytes@.len() ==> is_lower_digit(text@[2 * i], bytes@[i] as int / 16)
            && is_lower_digit(text@[2 * i + 1], bytes@[i] as int % 16),
{
    if 0 <= i < bytes@.len() {
        assert((2 * i) / 2 == i && (2 * i) % 2 == 0);
        assert((2 * i + 1) / 2 == i && (2 * i + 1) % 2 == 1);
        assert(text@[2 * i] == hex_digit(bytes@[i] as int / 16));
        assert(text@[2 * i + 1] == hex_digit(bytes@[i] as int % 16));
    }
}

/// The digest text of bytes is their digest, written as bytes are.
pub proof fn law_digest_texts_are_of_the_bytes(
    bytes: &[u8],
    text: String,
    digest: &[u8],
    written: String,
)
    requires
        call_ensures(sha256_bytes, (bytes,), text),
        call_ensures(encode_hex, (digest,), written),
        digest@ == sha256(bytes@),
    ensures
        text@ == written@,
        text@.len() == 64,
{
}

/// The digest text of a directory is that of the bytes that its files are
/// strung together to.
pub proof fn law_directory_digests_are_of_the_message(
    files: Vec<FileEntry>,
    text: String,
    message: Vec<u8>,
    bytes: &[u8],
    written: String,
)
    requires
        call_ensures(sha256_dir, (&files,), text),
        call_ensures(dir_message, (&files,), message),
        call_ensures(sha256_bytes, (bytes,), written),
        bytes@ == message@,
    ensures
        text@ == written@,
{
}

/// The number that little-endian bytes stand for.
pub open spec fn le_value(bytes: Seq<u8>) -> int
    decreases bytes.len(),
{
    if bytes.len() == 0 {
        0
    } else {
        bytes[0] as int + 256 * le_value(bytes.drop_first())
    }
}

/// Two hundred and fifty-six to the power of `width`.
pub open spec fn le_limit(width: nat) -> int
    decreases width,
{
    if width == 0 {
        1
    } else {
        256 * le_limit((width - 1) as nat)
    }
}

proof fn lemma_le_value(n: nat, width: nat)
    requires
        n < le_limit(width),
    ensures
        le_bytes(n, width).len() == width,
        le_value(le_bytes(n, width)) == n,
    decreases width,
{
    if width > 0 {
        lemma_le_value(n / 256, (width - 1) as nat);
        let bytes = le_bytes(n, width);
        assert(bytes.drop_first() =~= le_bytes(n / 256, (width - 1) as nat));
        assert(bytes[0] as int == n % 256);
    }
}

proof fn lemma_lengths_fit(length: usize)
    ensures
        length < le_limit(length_width()),
{
    broadcast use vstd::layout::layout_of_primitives;

    vstd::layout::unsigned_int_max_values();
    reveal_with_fuel(le_limit, 9);
    assert(length_width() == 4 || length_width() == 8);
    assert(le_limit(4) == 0x1_0000_0000);
    assert(le_limit(8) == 0x1_0000_0000_0000_0000);
}

/// What a directory of one file is strung together to: its name, a zero byte,
/// the length of its content in as many little-endian bytes as a length has,
/// and the content.
pub proof fn law_one_file_is_framed_by_name_and_length(files: Vec<FileEntry>, message: Vec<u8>)
    requires
        call_ensures(dir_message, (&files,), message),
        files@.len() == 1,
    ensures
        ({
            let name = encode_utf8(files@[0].relative@);
            let content = files@[0].bytes@;
            let width = usize::BITS as int / 8;
            &&& message@.len() == name.len() + 1 + width + content.len()
            &&& message@.take(name.len() as int) == name
            &&& message@[name.len() as int] == 0
            &&& le_value(message@.subrange(name.len() as int + 1, name.len() + 1 + width))
                == content.len()
            &&& message@.skip(name.len() + 1 + width) == content
        }),
{
    let views = file_views(files@);
    let file = files@[0]@;
    assert(views.drop_first() =~= Seq::empty());
    assert(in_name_order(views.drop_first()) =~= Seq::<FileView>::empty());
    assert(in_name_order(views) == placed(views[0], Seq::empty()));
    assert(in_name_order(views) =~= seq![file]);
    assert(seq![file].drop_first() =~= Seq::<FileView>::empty());
    assert(framed_all(Seq::<FileView>::empty()) =~= Seq::<u8>::empty());
    assert(framed_all(seq![file]) =~= framed(file));
    let content = files@[0].bytes@;
    assert(content.len() == files@[0].bytes.len());
    lemma_lengths_fit(files@[0].bytes.len());
    lemma_le_value(content.len(), length_width());
    let name = encode_utf8(files@[0].relative@);
    let width = usize::BITS as int / 8;
    assert(message@ == name + seq![0u8] + le_bytes(content.len(), length_width()) + content);
    assert(message@.take(name.len() as int) =~= name);
    assert(message@.subrange(name.len() as int + 1, name.len() + 1 + width) =~= le_bytes(
        content.len(),
        length_width(),
    ));
    assert(message@.skip(name.len() + 1 + width) =~= content);
}

/// The name of one file comes before that of another: at the first place where
/// their bytes differ it has the lower one, or it ends there.
pub open spec fn name_precedes(left: Seq<char>, right: Seq<char>) -> bool {
    let a = encode_utf8(left);
    let b = encode_utf8(right);
    exists|at: int|
        #![trigger a.take(at)]
        {
            &&& 0 <= at <= a.len() && at < b.len()
            &&& a.take(at) == b.take(at)
            &&& at < a.len() ==> a[at] < b[at]
        }
}

proof fn lemma_less_at(a: Seq<u8>, b: Seq<u8>, at: int)
    requires
        0 <= at <= a.len(),
        at < b.len(),
        a.take(at) == b.take(at),
        at < a.len() ==> a[at] < b[at],
    ensures
        bytes_less(a, b),
    decreases at,
{
    if at > 0 {
        let prefix = a.take(at);
        assert(prefix == b.take(at));
        assert(prefix[0] == a[0]);
        assert(b.take(at)[0] == b[0]);
        let x = a.drop_first();
        let y = b.drop_first();
        assert forall|i: int| 0 <= i < at - 1 implies #[trigger] x[i] == y[i] by {
            assert(prefix[i + 1] == a[i + 1]);
            assert(b.take(at)[i + 1] == b[i + 1]);
        }
        assert(x.take(at - 1) =~= y.take(at - 1));
        lemma_less_at(x, y, at - 1);
    }
}

proof fn lemma_less_is_asymmetric(a: Seq<u8>, b: Seq<u8>)
    requires
        bytes_less(a, b),
    ensures
        !bytes_less(b, a),
    decreases a.len(),
{
    if a.len() > 0 && b.len() > 0 && a[0] == b[0] {
        lemma_less_is_asymmetric(a.drop_first(), b.drop_first());
    }
}

/// Two files are strung together in the order of their names, however they are
/// listed: the message of both is that of the one with the lower name, followed
/// by that of the other.
pub proof fn law_two_files_are_strung_in_name_order(
    both: Vec<FileEntry>,
    first: Vec<FileEntry>,
    second: Vec<FileEntry>,
    message: Vec<u8>,
    first_message: Vec<u8>,
    second_message: Vec<u8>,
)
    requires
        call_ensures(dir_message, (&both,), message),
        call_ensures(dir_message, (&first,), first_message),
        call_ensures(dir_message, (&second,), second_message),
        first@.len() == 1,
        second@.len() == 1,
        both@ == first@ + second@ || both@ == second@ + first@,
        name_precedes(first@[0].relative@, second@[0].relative@),
    ensures
        message@ == first_message@ + second_message@,
{
    let f = first@[0]@;
    let g = second@[0]@;
    let at = choose|at: int|
        #![trigger f.name.take(at)]
        {
            &&& 0 <= at <= f.name.len() && at < g.name.len()
            &&& f.name.take(at) == g.name.take(at)
            &&& at < f.name.len() ==> f.name[at] < g.name[at]
        };
    lemma_less_at(f.name, g.name, at);
    lemma_less_is_asymmetric(f.name, g.name);
    let none = Seq::<FileView>::empty();
    assert(framed_all(none) =~= Seq::<u8>::empty());
    assert(in_name_order(none) =~= none);
    lemma_single(first@, f);
    lemma_single(second@, g);
    let views = file_views(both@);
    assert(views.len() == 2);
    assert(views.drop_first() =~= seq![views[1]]);
    assert(in_name_order(seq![views[1]]) =~= seq![views[1]]) by {
        assert(seq![views[1]].drop_first() =~= none);
    }
    assert(in_name_order(views) == placed(views[0], seq![views[1]]));
    if both@ == first@ + second@ {
        assert(views[0] == f && views[1] == g);
        assert(in_name_order(views) =~= seq![f, g]);
    } else {
        assert(views[0] == g && views[1] == f);
        assert(seq![f].drop_first() =~= none);
        assert(placed(g, none) =~= seq![g]);
        assert(in_name_order(views) =~= seq![f, g]);
    }
    assert(seq![f, g].drop_first() =~= seq![g]);
    assert(seq![g].drop_first() =~= none);
    assert(framed_all(seq![g]) =~= framed(g));
    assert(framed_all(seq![f, g]) =~= framed(f) + framed(g));
}

proof fn lemma_single(files: Seq<FileEntry>, file: FileView)
    requires
        files.len() == 1,
        files[0]@ == file,
    ensures
        framed_all(in_name_order(file_views(files))) == framed(file),
{
    let none = Seq::<FileView>::empty();
    let views = file_views(files);
    assert(views.drop_first() =~= none);
    assert(in_name_order(none) =~= none);
    assert(placed(file, none) =~= seq![file]);
    assert(in_name_order(views) =~= seq![file]);
    assert(seq![file].drop_first() =~= none);
    assert(framed_all(none) =~= Seq::<u8>::empty());
    assert(framed_all(seq![file]) =~= framed(file));
}

/// No name of the files has a zero byte in it.
pub open spec fn have_plain_names(files: Seq<FileEntry>) -> bool {
    forall|i: int, k: int|
        0 <= i < files.len() && 0 <= k < encode_utf8(files[i].relative@).len()
            ==> #[trigger] encode_utf8(files[i].relative@)[k] != 0
}

proof fn lemma_plain_names(files: Seq<FileEntry>)
    requires
        have_plain_names(files),
    ensures
        all_files(file_views(files)),
{
    let views = file_views(files);
    assert forall|i: int| 0 <= i < views.len() implies is_file(#[trigger] views[i]) by {
        assert(views[i].name == encode_utf8(files[i].relative@));
        assert(files[i].bytes@.len() == files[i].bytes.len());
    }
}

/// Directories that are strung together to the same bytes hold the same files:
/// each file of the one is in the other, with its name and its content, and
/// there are as many.
pub proof fn law_messages_tell_the_files(
    left: Vec<FileEntry>,
    right: Vec<FileEntry>,
    left_message: Vec<u8>,
    right_message: Vec<u8>,
    i: int,
)
    requires
        call_ensures(dir_message, (&left,), left_message),
        call_ensures(dir_message, (&right,), right_message),
        have_plain_names(left@),
        have_plain_names(right@),
        left_message@ == right_message@,
        0 <= i < left@.len(),
    ensures
        left@.len() == right@.len(),
        exists|j: int|
            0 <= j < right@.len() && (#[trigger] right@[j]).relative@ == left@[i].relative@
                && right@[j].bytes@ == left@[i].bytes@,
{
    broadcast use vstd::seq_lib::group_to_multiset_ensures;

    let a = file_views(left@);
    let b = file_views(right@);
    lemma_plain_names(left@);
    lemma_plain_names(right@);
    law_digested_bytes_determine_files(a, b);
    assert(a.len() == a.to_multiset().len());
    assert(b.len() == b.to_multiset().len());
    assert(a.contains(a[i]));
    assert(b.to_multiset().count(a[i]) > 0);
    assert(b.contains(a[i]));
    let j = choose|j: int| 0 <= j < b.len() && b[j] == a[i];
    encode_utf8_decode_utf8(left@[i].relative@);
    encode_utf8_decode_utf8(right@[j].relative@);
    assert(right@[j].relative@ == left@[i].relative@);
}

/// A file is digested under its path with slashes for backslashes; every other
/// character is kept.
pub proof fn law_names_are_digested_with_slashes(path: &str, name: String, i: int)
    requires
        call_ensures(portable_file_name, (path,), name),
    ensures
        name@.len() == path@.len(),
        0 <= i < path@.len() ==> (path@[i] == '\\' ==> name@[i] == '/') && (path@[i] != '\\'
            ==> name@[i] == path@[i]),
{
}

} // verus!
