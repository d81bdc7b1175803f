use corvid_bundle::compare::{compare_bytes, compare_digests, compare_dirs};
use corvid_bundle::digest::{
    dir_message, encode_hex, portable_file_name, sha256_bytes, sha256_dir, FileEntry,
};
use corvid_bundle::error::ErrorClass;
use corvid_bundle::text::{
    contains_word, decimal_text, join, same_bytes, same_text, signed_text, to_ascii_lower,
};

fn file(relative: &str, bytes: &[u8]) -> FileEntry {
    FileEntry { relative: relative.to_string(), bytes: bytes.to_vec() }
}

#[test]
fn hex_is_lower_case_and_two_digits_per_byte() {
    assert_eq!(encode_hex(&[]), "");
    assert_eq!(encode_hex(&[0x00, 0x0f, 0xa0, 0xff, 0x10]), "000fa0ff10");
}

#[test]
fn hex_tells_every_byte_apart() {
    let all: Vec<String> = (0..=255u8).map(|byte| encode_hex(&[byte])).collect();
    for (i, left) in all.iter().enumerate() {
        for right in &all[i + 1..] {
            assert_ne!(left, right);
        }
    }
}

#[test]
fn bytes_have_their_published_digests() {
    assert_eq!(
        sha256_bytes(b""),
        "e3b0c44298fc1c149afbf4c8996fb92427ae41e4649b934ca495991b7852b855"
    );
    assert_eq!(
        sha256_bytes(b"abc"),
        "ba7816bf8f01cfea414140de5dae2223b00361a396177a9cb410ff61f20015ad"
    );
}

#[test]
fn directory_digest_covers_names_lengths_and_contents() {
    assert_eq!(
        sha256_dir(&vec![file("README.md", b"hello\n"), file("src/lib.rs", b"pub fn f() {}\n")]),
        "fa407e70dd23954c2725e0d287804840d9472fa930a96eae117fc44753b1fcc5"
    );
    assert_eq!(
        sha256_dir(&vec![file("a", b"x"), file("b", b"")]),
        "ec83637240ceaafb16aca0c8ad9b3f18a826061b82504648c7df65ef63e6eb06"
    );
    assert_eq!(
        sha256_dir(&Vec::new()),
        "e3b0c44298fc1c149afbf4c8996fb92427ae41e4649b934ca495991b7852b855"
    );
}

#[test]
fn directory_digest_ignores_listing_order() {
    let one = vec![file("a", b"1"), file("a/b", b"2"), file("B", b"3"), file("", b"4")];
    let other = vec![file("B", b"3"), file("", b"4"), file("a/b", b"2"), file("a", b"1")];
    assert_eq!(sha256_dir(&one), sha256_dir(&other));
}

#[test]
fn directory_digest_tells_moved_bytes_apart() {
    let one = vec![file("a", b"xy"), file("b", b"")];
    let other = vec![file("a", b"x"), file("b", b"y")];
    assert_ne!(sha256_dir(&one), sha256_dir(&other));
}

#[test]
fn file_names_use_forward_slashes() {
    assert_eq!(portable_file_name("src\\bin\\main.rs"), "src/bin/main.rs");
    assert_eq!(portable_file_name("src/lib.rs"), "src/lib.rs");
}

#[test]
fn equal_bytes_compare_equal() {
    assert!(compare_bytes("descriptor", b"same", b"same").is_ok());
    assert!(compare_bytes("descriptor", b"", b"").is_ok());
}

#[test]
fn differing_bytes_name_the_first_difference() {
    let e = compare_bytes("library", b"abcd", b"abXdY").unwrap_err();
    assert_eq!(e.class, ErrorClass::RebuildMismatch);
    assert_eq!(
        e.message,
        "BundleRebuildMismatch: library diverged at byte 2 (expected len 4, actual len 5)"
    );
}

#[test]
fn a_prefix_differs_where_it_ends() {
    let e = compare_bytes("header", b"abc", b"abcdef").unwrap_err();
    assert_eq!(
        e.message,
        "BundleRebuildMismatch: header diverged at byte 3 (expected len 3, actual len 6)"
    );
}

#[test]
fn directories_compare_by_digest() {
    let left = vec![file("a", b"1"), file("b", b"2")];
    let right = vec![file("b", b"2"), file("a", b"1")];
    assert!(compare_dirs("bindings_rust", &left, &right).is_ok());
    let tampered = vec![file("a", b"1"), file("b", b"!")];
    let e = compare_dirs("bindings_rust", &left, &tampered).unwrap_err();
    assert_eq!(
        e.message,
        format!(
            "BundleRebuildMismatch: bindings_rust directory hash diverged (expected {}, actual {})",
            sha256_dir(&left),
            sha256_dir(&tampered)
        )
    );
}

#[test]
fn numbers_are_written_in_base_ten() {
    assert_eq!(decimal_text(0), "0");
    assert_eq!(decimal_text(907), "907");
    assert_eq!(decimal_text(u64::MAX), u64::MAX.to_string());
    assert_eq!(signed_text(-42), "-42");
    assert_eq!(signed_text(7), "7");
    assert_eq!(signed_text(i128::MIN), i128::MIN.to_string());
    assert_eq!(signed_text(i128::MAX), i128::MAX.to_string());
}

#[test]
fn texts_compare_and_search() {
    assert!(same_text("Gruß", "Gruß"));
    assert!(!same_text("Gruß", "Gruss"));
    assert!(!same_text("a", "ab"));
    assert!(same_bytes(b"ab", b"ab"));
    assert!(!same_bytes(b"ab", b"ac"));
    assert_eq!(to_ascii_lower("ÄBC Signature"), "Äbc signature");
    assert!(contains_word("the signature status", "signature"));
    assert!(!contains_word("the sign", "signature"));
    assert!(contains_word("", ""));
    assert_eq!(join(&vec!["a".to_string(), "b".to_string(), "c".to_string()], ", "), "a, b, c");
    assert_eq!(join(&Vec::new(), ", "), "");
}

#[test]
fn directory_messages_frame_each_file() {
    let mut expected = b"a\0".to_vec();
    expected.extend_from_slice(&1usize.to_le_bytes());
    expected.extend_from_slice(b"xb\0");
    expected.extend_from_slice(&300usize.to_le_bytes());
    expected.extend_from_slice(&[7u8; 300]);
    assert_eq!(dir_message(&vec![file("b", &[7u8; 300]), file("a", b"x")]), expected);
    assert!(dir_message(&Vec::new()).is_empty());
}

#[test]
fn files_are_digested_in_name_order() {
    let names = ["b", "a/c", "", "a", "B"];
    let files: Vec<FileEntry> = names.iter().map(|name| file(name, b"")).collect();
    let mut sorted = names.to_vec();
    sorted.sort();
    let mut expected = Vec::new();
    for name in sorted {
        expected.extend_from_slice(name.as_bytes());
        expected.push(0);
        expected.extend_from_slice(&0usize.to_le_bytes());
    }
    assert_eq!(dir_message(&files), expected);
}

#[test]
fn digests_compare_as_texts() {
    assert!(compare_digests("d", "ab", "ab").is_ok());
    assert_eq!(
        compare_digests("d", "ab", "cd").unwrap_err().message,
        "BundleRebuildMismatch: d directory hash diverged (expected ab, actual cd)"
    );
}
