//! What holds of every directory digest.
use vstd::arithmetic::power::{lemma_pow0, pow};
use vstd::prelude::*;
use vstd::relations::{sorted_by, total_ordering};

use crate::digest::{
    bytes_less, dir_digest, framed, framed_all, in_name_order, le_bytes, length_width, placed,
    FileView,
};

verus! {

// ---------------------------------------------------------------------------
// The order of names
// ---------------------------------------------------------------------------
proof fn lemma_less_irreflexive(a: Seq<u8>)
    ensures
        !bytes_less(a, a),
    decreases a.len(),
{
    if a.len() > 0 {
        lemma_less_irreflexive(a.drop_first());
    }
}

proof fn lemma_less_transitive(a: Seq<u8>, b: Seq<u8>, c: Seq<u8>)
    requires
        bytes_less(a, b),
        bytes_less(b, c),
    ensures
        bytes_less(a, c),
    decreases a.len(),
{
    if a.len() > 0 && a[0] == b[0] && b[0] == c[0] {
        lemma_less_transitive(a.drop_first(), b.drop_first(), c.drop_first());
    }
}

proof fn lemma_less_total(a: Seq<u8>, b: Seq<u8>)
    ensures
        a == b || bytes_less(a, b) || bytes_less(b, a),
    decreases a.len(),
{
    if a.len() == 0 || b.len() == 0 {
        if a.len() == 0 && b.len() == 0 {
            assert(a =~= b);
        }
    } else if a[0] == b[0] {
        lemma_less_total(a.drop_first(), b.drop_first());
        if a.drop_first() == b.drop_first() {
            assert(a =~= seq![a[0]] + a.drop_first());
            assert(b =~= seq![b[0]] + b.drop_first());
        }
    }
}

/// Files by name, then by content.
spec fn file_leq(f: FileView, g: FileView) -> bool {
    bytes_less(f.name, g.name) || (f.name == g.name && (f.content == g.content || bytes_less(
        f.content,
        g.content,
    )))
}

proof fn lemma_file_leq_is_total()
    ensures
        total_ordering(|f: FileView, g: FileView| file_leq(f, g)),
{
    let leq = |f: FileView, g: FileView| file_leq(f, g);
    assert forall|f: FileView, g: FileView| #[trigger]
        leq(f, g) && #[trigger] leq(g, f) implies f == g by {
        if bytes_less(f.name, g.name) {
            if bytes_less(g.name, f.name) {
                lemma_less_transitive(f.name, g.name, f.name);
            }
            lemma_less_irreflexive(f.name);
        } else if bytes_less(g.name, f.name) {
            lemma_less_irreflexive(f.name);
        } else if f.content != g.content {
            lemma_less_transitive(f.content, g.content, f.content);
            lemma_less_irreflexive(f.content);
        }
    }
    assert forall|f: FileView, g: FileView, h: FileView|
        #![trigger leq(f, g), leq(g, h)]
        leq(f, g) && leq(g, h) implies leq(f, h) by {
        if bytes_less(f.name, g.name) && bytes_less(g.name, h.name) {
            lemma_less_transitive(f.name, g.name, h.name);
        } else if f.name == g.name && g.name == h.name {
            if f.content != g.content && g.content != h.content {
                lemma_less_transitive(f.content, g.content, h.content);
            }
        }
    }
    assert forall|f: FileView, g: FileView| #[trigger] leq(f, g) || leq(g, f) by {
        lemma_less_total(f.name, g.name);
        lemma_less_total(f.content, g.content);
    }
}

// ---------------------------------------------------------------------------
// Sorting
// ---------------------------------------------------------------------------
/// No two files have the same name.
pub open spec fn names_differ(files: Seq<FileView>) -> bool {
    forall|i: int, j: int|
        0 <= i < files.len() && 0 <= j < files.len() && i != j ==> (#[trigger] files[i]).name != (
        #[trigger] files[j]).name
}

/// Every file comes before every later one, by name.
pub open spec fn ascending(files: Seq<FileView>) -> bool {
    forall|i: int, j: int|
        0 <= i < j < files.len() ==> bytes_less(
            (#[trigger] files[i]).name,
            (#[trigger] files[j]).name,
        )
}

proof fn lemma_placed_multiset(file: FileView, sorted: Seq<FileView>)
    ensures
        placed(file, sorted).to_multiset() == sorted.to_multiset().insert(file),
        placed(file, sorted).len() == sorted.len() + 1,
    decreases sorted.len(),
{
    broadcast use vstd::seq_lib::group_to_multiset_ensures;
    broadcast use vstd::multiset::group_multiset_axioms;

    let result = placed(file, sorted);
    if sorted.len() == 0 || !bytes_less(sorted[0].name, file.name) {
        vstd::seq_lib::lemma_multiset_commutative(seq![file], sorted);
        assert(seq![file] =~= Seq::<FileView>::empty().push(file));
        assert(result.to_multiset() =~= sorted.to_multiset().insert(file));
    } else {
        let rest = sorted.drop_first();
        lemma_placed_multiset(file, rest);
        vstd::seq_lib::lemma_multiset_commutative(seq![sorted[0]], placed(file, rest));
        vstd::seq_lib::lemma_multiset_commutative(seq![sorted[0]], rest);
        assert(seq![sorted[0]] + rest =~= sorted);
        assert(seq![sorted[0]] =~= Seq::<FileView>::empty().push(sorted[0]));
        assert(result.to_multiset() =~= sorted.to_multiset().insert(file));
    }
}

/// Ordering by name keeps the files.
proof fn lemma_order_keeps_files(files: Seq<FileView>)
    ensures
        in_name_order(files).to_multiset() == files.to_multiset(),
        in_name_order(files).len() == files.len(),
    decreases files.len(),
{
    broadcast use vstd::seq_lib::group_to_multiset_ensures;
    broadcast use vstd::multiset::group_multiset_axioms;

    if files.len() > 0 {
        let rest = files.drop_first();
        lemma_order_keeps_files(rest);
        lemma_placed_multiset(files[0], in_name_order(rest));
        vstd::seq_lib::lemma_multiset_commutative(seq![files[0]], rest);
        assert(seq![files[0]] + rest =~= files);
        assert(seq![files[0]] =~= Seq::<FileView>::empty().push(files[0]));
        assert(in_name_order(files).to_multiset() =~= files.to_multiset());
    }
}

proof fn lemma_placed_ascending(file: FileView, sorted: Seq<FileView>)
    requires
        ascending(sorted),
        forall|i: int| 0 <= i < sorted.len() ==> (#[trigger] sorted[i]).name != file.name,
    ensures
        ascending(placed(file, sorted)),
        forall|k: int|
            0 <= k < placed(file, sorted).len() ==> (#[trigger] placed(file, sorted)[k]) == file
                || exists|i: int| 0 <= i < sorted.len() && sorted[i] == placed(file, sorted)[k],
    decreases sorted.len(),
{
    let result = placed(file, sorted);
    if sorted.len() == 0 || !bytes_less(sorted[0].name, file.name) {
        assert forall|i: int, j: int| 0 <= i < j < result.len() implies bytes_less(
            (#[trigger] result[i]).name,
            (#[trigger] result[j]).name,
        ) by {
            assert(result[j] == sorted[j - 1]);
            if i == 0 {
                lemma_less_total(sorted[0].name, file.name);
                if j > 1 {
                    lemma_less_transitive(file.name, sorted[0].name, sorted[j - 1].name);
                }
            } else {
                assert(result[i] == sorted[i - 1]);
            }
        }
        assert forall|k: int| 0 <= k < result.len() implies (#[trigger] result[k]) == file
            || exists|i: int| 0 <= i < sorted.len() && sorted[i] == result[k] by {
            if k > 0 {
                assert(sorted[k - 1] == result[k]);
            }
        }
    } else {
        let rest = sorted.drop_first();
        assert forall|i: int| 0 <= i < rest.len() implies (#[trigger] rest[i]).name
            != file.name by {
            assert(rest[i] == sorted[i + 1]);
        }
        lemma_placed_ascending(file, rest);
        let tail = placed(file, rest);
        assert forall|k: int| 0 <= k < tail.len() implies bytes_less(
            sorted[0].name,
            (#[trigger] tail[k]).name,
        ) by {
            if tail[k] != file {
                let i = choose|i: int| 0 <= i < rest.len() && rest[i] == tail[k];
                assert(sorted[i + 1] == tail[k]);
            }
        }
        assert forall|i: int, j: int| 0 <= i < j < result.len() implies bytes_less(
            (#[trigger] result[i]).name,
            (#[trigger] result[j]).name,
        ) by {
            assert(result[j] == tail[j - 1]);
            if i > 0 {
                assert(result[i] == tail[i - 1]);
            }
        }
        assert forall|k: int| 0 <= k < result.len() implies (#[trigger] result[k]) == file
            || exists|i: int| 0 <= i < sorted.len() && sorted[i] == result[k] by {
            if k == 0 {
                assert(sorted[0] == result[k]);
            } else {
                assert(result[k] == tail[k - 1]);
                if tail[k - 1] != file {
                    let i = choose|i: int| 0 <= i < rest.len() && rest[i] == tail[k - 1];
                    assert(sorted[i + 1] == result[k]);
                }
            }
        }
    }
}

proof fn lemma_order_ascends(files: Seq<FileView>)
    requires
        names_differ(files),
    ensures
        ascending(in_name_order(files)),
        forall|k: int|
            0 <= k < in_name_order(files).len() ==> exists|i: int|
                0 <= i < files.len() && files[i] == #[trigger] in_name_order(files)[k],
    decreases files.len(),
{
    if files.len() > 0 {
        let rest = files.drop_first();
        assert(names_differ(rest)) by {
            assert forall|i: int, j: int|
                0 <= i < rest.len() && 0 <= j < rest.len() && i != j implies (
            #[trigger] rest[i]).name != (#[trigger] rest[j]).name by {
                assert(rest[i] == files[i + 1]);
                assert(rest[j] == files[j + 1]);
            }
        }
        lemma_order_ascends(rest);
        let sorted = in_name_order(rest);
        assert forall|i: int| 0 <= i < sorted.len() implies (#[trigger] sorted[i]).name
            != files[0].name by {
            let k = choose|k: int| 0 <= k < rest.len() && rest[k] == sorted[i];
            assert(files[k + 1] == sorted[i]);
        }
        lemma_placed_ascending(files[0], sorted);
        let result = in_name_order(files);
        assert forall|k: int| 0 <= k < result.len() implies exists|i: int|
            0 <= i < files.len() && files[i] == #[trigger] result[k] by {
            if result[k] == files[0] {
            } else {
                let s = choose|s: int| 0 <= s < sorted.len() && sorted[s] == result[k];
                let i = choose|i: int| 0 <= i < rest.len() && rest[i] == sorted[s];
                assert(files[i + 1] == result[k]);
            }
        }
    }
}

/// The files of a directory are digested in the ascending order of their names:
/// that order keeps all files, it ascends, and no other arrangement does both.
pub proof fn law_files_are_digested_in_name_order(files: Seq<FileView>, other: Seq<FileView>)
    requires
        names_differ(files),
    ensures
        in_name_order(files).to_multiset() == files.to_multiset(),
        ascending(in_name_order(files)),
        ascending(other) && other.to_multiset() == files.to_multiset() ==> other
            == in_name_order(files),
{
    let leq = |f: FileView, g: FileView| file_leq(f, g);
    let sorted = in_name_order(files);
    lemma_order_keeps_files(files);
    lemma_order_ascends(files);
    if ascending(other) && other.to_multiset() == files.to_multiset() {
        lemma_file_leq_is_total();
        assert(sorted_by(sorted, leq));
        assert(sorted_by(other, leq));
        vstd::seq_lib::lemma_sorted_unique(other, sorted, leq);
    }
}

/// The digest of a directory does not depend on the order in which its files
/// are listed.
pub proof fn law_digest_ignores_listing_order(left: Seq<FileView>, right: Seq<FileView>)
    requires
        names_differ(left),
        names_differ(right),
        left.to_multiset() == right.to_multiset(),
    ensures
        dir_digest(left) == dir_digest(right),
{
    let leq = |f: FileView, g: FileView| file_leq(f, g);
    let a = in_name_order(left);
    let b = in_name_order(right);
    lemma_order_keeps_files(left);
    lemma_order_keeps_files(right);
    lemma_order_ascends(left);
    lemma_order_ascends(right);
    lemma_file_leq_is_total();
    assert(sorted_by(a, leq));
    assert(sorted_by(b, leq));
    vstd::seq_lib::lemma_sorted_unique(a, b, leq);
}

// ---------------------------------------------------------------------------
// Framing
// ---------------------------------------------------------------------------
/// The file can stand on a disk: its name has no zero byte, and its length
/// fits a machine word.
pub open spec fn is_file(file: FileView) -> bool {
    &&& forall|i: int| 0 <= i < file.name.len() ==> #[trigger] file.name[i] != 0
    &&& file.content.len() <= usize::MAX
}

pub open spec fn all_files(files: Seq<FileView>) -> bool {
    forall|i: int| 0 <= i < files.len() ==> is_file(#[trigger] files[i])
}

proof fn lemma_le_bytes_len(n: nat, width: nat)
    ensures
        le_bytes(n, width).len() == width,
    decreases width,
{
    if width > 0 {
        lemma_le_bytes_len(n / 256, (width - 1) as nat);
    }
}

proof fn lemma_le_bytes_injective(m: nat, n: nat, width: nat)
    requires
        m < pow(256, width),
        n < pow(256, width),
        le_bytes(m, width) == le_bytes(n, width),
    ensures
        m == n,
    decreases width,
{
    if width == 0 {
        lemma_pow0(256);
    } else {
        let w = (width - 1) as nat;
        assert(pow(256, width) == 256 * pow(256, w)) by {
            reveal(pow);
        }
        let a = le_bytes(m, width);
        let b = le_bytes(n, width);
        assert(a[0] == (m % 256) as u8 && b[0] == (n % 256) as u8);
        assert(a.drop_first() =~= le_bytes(m / 256, w));
        assert(b.drop_first() =~= le_bytes(n / 256, w));
        lemma_le_bytes_injective(m / 256, n / 256, w);
    }
}

proof fn lemma_length_fits(n: nat)
    requires
        n <= usize::MAX,
    ensures
        n < pow(256, length_width()),
{
    broadcast use vstd::layout::layout_of_primitives;

    vstd::layout::unsigned_int_max_values();
}

/// The first file can be told from what follows it.
proof fn lemma_framed_prefix(f: FileView, x: Seq<u8>, g: FileView, y: Seq<u8>)
    requires
        is_file(f),
        is_file(g),
        framed(f) + x == framed(g) + y,
    ensures
        f == g,
        x == y,
{
    let s = framed(f) + x;
    let t = framed(g) + y;
    let w = length_width();
    let m = f.name.len() as int;
    let n = g.name.len() as int;
    lemma_le_bytes_len(f.content.len(), w);
    lemma_le_bytes_len(g.content.len(), w);
    assert(s[m] == 0);
    assert(t[n] == 0);
    if m < n {
        assert(t[m] == g.name[m]);
    }
    if n < m {
        assert(s[n] == f.name[n]);
    }
    assert(m == n);
    assert(s.subrange(0, m) =~= f.name);
    assert(t.subrange(0, m) =~= g.name);
    let lf = le_bytes(f.content.len(), w);
    let lg = le_bytes(g.content.len(), w);
    assert(s.subrange(m + 1, m + 1 + w) =~= lf);
    assert(t.subrange(m + 1, m + 1 + w) =~= lg);
    lemma_length_fits(f.content.len());
    lemma_length_fits(g.content.len());
    lemma_le_bytes_injective(f.content.len(), g.content.len(), w);
    let c = f.content.len() as int;
    let start = m + 1 + w;
    assert(s.subrange(start, start + c) =~= f.content);
    assert(t.subrange(start, start + c) =~= g.content);
    assert(s.skip(start + c) =~= x);
    assert(t.skip(start + c) =~= y);
}

proof fn lemma_framed_all_injective(left: Seq<FileView>, right: Seq<FileView>)
    requires
        all_files(left),
        all_files(right),
        framed_all(left) == framed_all(right),
    ensures
        left == right,
    decreases left.len(),
{
    if left.len() == 0 {
        if right.len() > 0 {
            assert(framed(right[0]).len() > 0);
        }
        assert(left =~= right);
    } else if right.len() == 0 {
        assert(framed(left[0]).len() > 0);
    } else {
        assert(is_file(left[0]));
        assert(is_file(right[0]));
        lemma_framed_prefix(
            left[0],
            framed_all(left.drop_first()),
            right[0],
            framed_all(right.drop_first()),
        );
        assert forall|i: int| 0 <= i < left.drop_first().len() implies is_file(
            #[trigger] left.drop_first()[i],
        ) by {
            assert(left.drop_first()[i] == left[i + 1]);
        }
        assert forall|i: int| 0 <= i < right.drop_first().len() implies is_file(
            #[trigger] right.drop_first()[i],
        ) by {
            assert(right.drop_first()[i] == right[i + 1]);
        }
        lemma_framed_all_injective(left.drop_first(), right.drop_first());
        assert(left =~= seq![left[0]] + left.drop_first());
        assert(right =~= seq![right[0]] + right.drop_first());
    }
}

proof fn lemma_order_keeps_all_files(files: Seq<FileView>)
    requires
        all_files(files),
    ensures
        all_files(in_name_order(files)),
{
    broadcast use vstd::seq_lib::group_to_multiset_ensures;

    let sorted = in_name_order(files);
    lemma_order_keeps_files(files);
    assert forall|i: int| 0 <= i < sorted.len() implies is_file(#[trigger] sorted[i]) by {
        assert(sorted.contains(sorted[i]));
        assert(sorted.to_multiset().count(sorted[i]) > 0);
        assert(files.contains(sorted[i]));
    }
}

/// Two directories are digested from the same bytes only if they hold the same
/// files.
pub proof fn law_digested_bytes_determine_files(left: Seq<FileView>, right: Seq<FileView>)
    requires
        all_files(left),
        all_files(right),
        framed_all(in_name_order(left)) == framed_all(in_name_order(right)),
    ensures
        left.to_multiset() == right.to_multiset(),
{
    lemma_order_keeps_files(left);
    lemma_order_keeps_files(right);
    lemma_order_keeps_all_files(left);
    lemma_order_keeps_all_files(right);
    lemma_framed_all_injective(in_name_order(left), in_name_order(right));
}

} // verus!
