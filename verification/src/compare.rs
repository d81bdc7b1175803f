//! Strict comparison of committed and rebuilt artifacts.
use vstd::prelude::*;
use vstd::string::*;

use crate::digest::{dir_digest, file_views, sha256_dir, FileEntry};
use crate::error::{BundleError, ErrorClass};
use crate::text::{decimal, decimal_text, same_text};

verus! {

/// The sequences agree before `at`, and there they differ or one ends.
pub open spec fn is_first_difference(left: Seq<u8>, right: Seq<u8>, at: int) -> bool {
    &&& 0 <= at <= left.len()
    &&& at <= right.len()
    &&& forall|i: int| 0 <= i < at ==> #[trigger] left[i] == right[i]
    &&& at == left.len() || at == right.len() || left[at] != right[at]
}

/// How a difference at byte `at` is reported.
pub open spec fn bytes_detail(
    label: Seq<char>,
    at: nat,
    expected_len: nat,
    actual_len: nat,
) -> Seq<char> {
    label + " diverged at byte "@ + decimal(at) + " (expected len "@ + decimal(expected_len)
        + ", actual len "@ + decimal(actual_len) + ")"@
}

/// How different directory digests are reported.
pub open spec fn dirs_detail(
    label: Seq<char>,
    expected: Seq<char>,
    actual: Seq<char>,
) -> Seq<char> {
    label + " directory hash diverged (expected "@ + expected + ", actual "@ + actual + ")"@
}

/// Accepts rebuilt bytes that equal the committed ones; otherwise reports the
/// first difference.
pub fn compare_bytes(label: &str, expected: &[u8], actual: &[u8]) -> (result: Result<
    (),
    BundleError,
>)
    ensures
        result is Ok <==> expected@ == actual@,
        result matches Err(e) ==> exists|at: int| #[trigger]
            is_first_difference(expected@, actual@, at) && e.says(
                ErrorClass::RebuildMismatch,
                bytes_detail(label@, at as nat, expected@.len(), actual@.len()),
            ),
{
    let mut at: usize = 0;
    while at < expected.len() && at < actual.len() && expected[at] == actual[at]
        invariant
            at <= expected@.len(),
            at <= actual@.len(),
            forall|i: int| 0 <= i < at ==> #[trigger] expected@[i] == actual@[i],
        decreases expected@.len() - at,
    {
        at = at + 1;
    }
    if at == expected.len() && at == actual.len() {
        proof {
            assert(expected@ =~= actual@);
        }
        return Ok(());
    }
    let mut detail: String = String::from_str(label);
    detail.append(" diverged at byte ");
    let position: String = decimal_text(at as u64);
    detail.append(position.as_str());
    detail.append(" (expected len ");
    let expected_len: String = decimal_text(expected.len() as u64);
    detail.append(expected_len.as_str());
    detail.append(", actual len ");
    let actual_len: String = decimal_text(actual.len() as u64);
    detail.append(actual_len.as_str());
    detail.append(")");
    proof {
        assert(is_first_difference(expected@, actual@, at as int));
    }
    Err(BundleError::new(ErrorClass::RebuildMismatch, detail.as_str()))
}

/// Accepts a rebuilt directory digest that equals the committed one.
pub fn compare_digests(label: &str, expected: &str, actual: &str) -> (result: Result<
    (),
    BundleError,
>)
    ensures
        match result {
            Ok(_) => expected@ == actual@,
            Err(e) => expected@ != actual@ && e.says(
                ErrorClass::RebuildMismatch,
                dirs_detail(label@, expected@, actual@),
            ),
        },
{
    if same_text(expected, actual) {
        return Ok(());
    }
    let mut detail: String = String::from_str(label);
    detail.append(" directory hash diverged (expected ");
    detail.append(expected);
    detail.append(", actual ");
    detail.append(actual);
    detail.append(")");
    Err(BundleError::new(ErrorClass::RebuildMismatch, detail.as_str()))
}

/// Accepts a rebuilt directory whose digest equals the committed one's.
pub fn compare_dirs(label: &str, expected: &Vec<FileEntry>, actual: &Vec<FileEntry>) -> (result:
    Result<(), BundleError>)
    ensures
        result is Ok <==> dir_digest(file_views(expected@)) == dir_digest(file_views(actual@)),
        result matches Err(e) ==> e.says(
            ErrorClass::RebuildMismatch,
            dirs_detail(
                label@,
                dir_digest(file_views(expected@)),
                dir_digest(file_views(actual@)),
            ),
        ),
{
    let expected_hash: String = sha256_dir(expected);
    let actual_hash: String = sha256_dir(actual);
    compare_digests(label, expected_hash.as_str(), actual_hash.as_str())
}

/// Two byte sequences have one first difference.
pub proof fn law_first_difference_is_unique(left: Seq<u8>, right: Seq<u8>, i: int, j: int)
    requires
        left != right,
        is_first_difference(left, right, i),
        is_first_difference(left, right, j),
    ensures
        i == j,
{
    if i < j {
        assert(left[i] == right[i]);
    }
    if j < i {
        assert(left[j] == right[j]);
    }
}

} // verus!
