//! Files that hold an ed25519 verifying key.
//!
//! A key file holds the 32 bytes of the key, or their 64 hexadecimal digits
//! with any white space between them.
use vstd::prelude::*;
use vstd::string::*;
use vstd::utf8::{encode_utf8, is_ascii_chars, is_ascii_chars_encode_utf8};

use crate::digest::{hex_digit, hex_text};
use crate::error::{BundleError, ErrorClass};

verus! {

/// Space, tab, line feed, form feed or carriage return.
pub open spec fn is_ascii_space(byte: u8) -> bool {
    byte == 32 || byte == 9 || byte == 10 || byte == 12 || byte == 13
}

/// The bytes of a file without its white space.
pub open spec fn without_spaces(raw: Seq<u8>) -> Seq<u8> {
    raw.filter(|byte: u8| !is_ascii_space(byte))
}

/// The value of a hexadecimal digit of either case.
pub open spec fn hex_value(byte: u8) -> Option<int> {
    if 48 <= byte <= 57 {
        Some(byte - 48)
    } else if 65 <= byte <= 70 {
        Some(byte - 55)
    } else if 97 <= byte <= 102 {
        Some(byte - 87)
    } else {
        None
    }
}

/// Every byte is a hexadecimal digit.
pub open spec fn all_hex(text: Seq<u8>) -> bool {
    forall|i: int| 0 <= i < text.len() ==> hex_value(#[trigger] text[i]) is Some
}

/// The bytes that pairs of hexadecimal digits stand for.
pub open spec fn hex_decoded(text: Seq<u8>) -> Seq<u8> {
    Seq::new(
        text.len() / 2,
        |i: int| (16 * hex_value(text[2 * i])->Some_0 + hex_value(text[2 * i + 1])->Some_0) as u8,
    )
}

/// The key bytes that a key file holds.
pub open spec fn key_bytes(raw: Seq<u8>) -> Option<Seq<u8>> {
    let text = without_spaces(raw);
    if text.len() == 64 && all_hex(text) {
        Some(hex_decoded(text))
    } else if raw.len() == 32 {
        Some(raw)
    } else {
        None
    }
}

/// The 32 bytes encode a point of the curve.
pub uninterp spec fn is_verifying_key(bytes: Seq<u8>) -> bool;

/// `hex::decode_to_slice` into 32 bytes. It succeeds on 64 hexadecimal digits
/// of either case and on nothing else, and gives the byte of each pair.
#[verifier::external_body]
fn decode_hex_key(text: &[u8]) -> (key: Option<[u8; 32]>)
    ensures
        (key is Some) == (text@.len() == 64 && all_hex(text@)),
        key is Some ==> key->Some_0@ == hex_decoded(text@),
{
    let mut out = [0u8; 32];
    match hex::decode_to_slice(text, &mut out) {
        Ok(()) => Some(out),
        Err(_) => None,
    }
}

/// `ed25519_dalek::VerifyingKey::from_bytes`. Whether it accepts the bytes is
/// a function of the bytes alone.
#[verifier::external_body]
fn key_parses(bytes: &[u8; 32]) -> (parses: bool)
    ensures
        parses == is_verifying_key(bytes@),
{
    ed25519_dalek::VerifyingKey::from_bytes(bytes).is_ok()
}

fn is_space(byte: u8) -> (space: bool)
    ensures
        space == is_ascii_space(byte),
{
    byte == 32 || byte == 9 || byte == 10 || byte == 12 || byte == 13
}

fn is_hex_digit(byte: u8) -> (digit: bool)
    ensures
        digit == hex_value(byte) is Some,
{
    (48 <= byte && byte <= 57) || (65 <= byte && byte <= 70) || (97 <= byte && byte <= 102)
}

fn strip_spaces(raw: &[u8]) -> (text: Vec<u8>)
    ensures
        text@ == without_spaces(raw@),
{
    let ghost keep = |byte: u8| !is_ascii_space(byte);
    let mut text: Vec<u8> = Vec::new();
    let mut i: usize = 0;
    proof {
        reveal(Seq::filter);
        assert(raw@.take(0).filter(keep) =~= Seq::empty());
    }
    while i < raw.len()
        invariant
            i <= raw@.len(),
            keep == (|byte: u8| !is_ascii_space(byte)),
            text@ == raw@.take(i as int).filter(keep),
        decreases raw@.len() - i,
    {
        proof {
            reveal(Seq::filter);
            assert(raw@.take(i + 1).drop_last() =~= raw@.take(i as int));
            assert(raw@.take(i + 1).last() == raw@[i as int]);
        }
        if !is_space(raw[i]) {
            text.push(raw[i]);
        }
        i = i + 1;
    }
    proof {
        assert(raw@.take(raw@.len() as int) =~= raw@);
    }
    text
}

fn is_hex_text(text: &[u8]) -> (hex: bool)
    ensures
        hex == all_hex(text@),
{
    let mut i: usize = 0;
    while i < text.len()
        invariant
            i <= text@.len(),
            forall|k: int| 0 <= k < i ==> hex_value(#[trigger] text@[k]) is Some,
        decreases text@.len() - i,
    {
        if !is_hex_digit(text[i]) {
            return false;
        }
        i = i + 1;
    }
    true
}

fn key_array(raw: &[u8]) -> (key: [u8; 32])
    requires
        raw@.len() == 32,
    ensures
        key@ == raw@,
{
    let mut key: [u8; 32] = [0u8; 32];
    let mut i: usize = 0;
    while i < 32
        invariant
            i <= 32,
            raw@.len() == 32,
            key@.len() == 32,
            forall|k: int| 0 <= k < i ==> #[trigger] key@[k] == raw@[k],
        decreases 32 - i,
    {
        key[i] = raw[i];
        i = i + 1;
    }
    proof {
        assert(key@ =~= raw@);
    }
    key
}

/// Accepts key bytes, given whether they encode a point of the curve.
pub fn accept_key(key: [u8; 32], parses: bool) -> (result: Result<[u8; 32], BundleError>)
    ensures
        if parses {
            result == Ok::<[u8; 32], BundleError>(key)
        } else {
            result matches Err(e) && e.says(ErrorClass::Other, "parse verifying key"@)
        },
{
    if parses {
        Ok(key)
    } else {
        Err(BundleError::new(ErrorClass::Other, "parse verifying key"))
    }
}

/// Reads a verifying key out of the content of the key file at `path`.
pub fn load_verifying_key(raw: &[u8], path: &str) -> (result: Result<[u8; 32], BundleError>)
    ensures
        match key_bytes(raw@) {
            Some(bytes) => if is_verifying_key(bytes) {
                result matches Ok(key) && key@ == bytes
            } else {
                result matches Err(e) && e.says(ErrorClass::Other, "parse verifying key"@)
            },
            None => result matches Err(e) && e.says(
                ErrorClass::SignatureVerifyFailed,
                "`"@ + path@ + "` is not a 32-byte ed25519 verifying key"@,
            ),
        },
{
    let text: Vec<u8> = strip_spaces(raw);
    let key: [u8; 32] = if is_hex_text(text.as_slice()) && text.len() == 64 {
        match decode_hex_key(text.as_slice()) {
            Some(key) => key,
            None => {
                return Err(BundleError::new(ErrorClass::Other, "hex decode verifying key"));
            },
        }
    } else if raw.len() == 32 {
        key_array(raw)
    } else {
        let mut detail: String = String::from_str("`");
        detail.append(path);
        detail.append("` is not a 32-byte ed25519 verifying key");
        return Err(BundleError::new(ErrorClass::SignatureVerifyFailed, detail.as_str()));
    };
    let parses: bool = key_parses(&key);
    accept_key(key, parses)
}

/// A file of 32 bytes holds the key of those bytes.
pub proof fn law_raw_key_files_hold_the_key(raw: Seq<u8>)
    requires
        raw.len() == 32,
    ensures
        key_bytes(raw) == Some(raw),
{
    raw.lemma_filter_len(|byte: u8| !is_ascii_space(byte));
}

/// A file that holds the 64 hexadecimal digits of a key, in either case and
/// with white space anywhere between them, holds that key.
pub proof fn law_hex_key_files_hold_the_key(key: Seq<u8>, raw: Seq<u8>)
    requires
        key.len() == 32,
        without_spaces(raw).len() == 64,
        forall|i: int|
            0 <= i < 32 ==> hex_value(without_spaces(raw)[2 * i]) == Some(#[trigger] key[i] as int / 16)
                && hex_value(without_spaces(raw)[2 * i + 1]) == Some(key[i] as int % 16),
    ensures
        key_bytes(raw) == Some(key),
{
    let text = without_spaces(raw);
    assert forall|i: int| 0 <= i < text.len() implies hex_value(#[trigger] text[i]) is Some by {
        let k = i / 2;
        assert(hex_value(text[2 * k]) == Some(key[k] as int / 16));
        assert(i == 2 * k || i == 2 * k + 1);
    }
    assert forall|i: int| 0 <= i < 32 implies #[trigger] hex_decoded(text)[i] == key[i] by {
        assert(hex_value(text[2 * i]) == Some(key[i] as int / 16));
    }
    assert(hex_decoded(text) =~= key);
}

/// A file that holds what `encode_hex` writes of a key, with white space
/// anywhere in it, holds that key.
pub proof fn law_written_keys_are_read_back(key: Seq<u8>, raw: Seq<u8>)
    requires
        key.len() == 32,
        without_spaces(raw) == encode_utf8(hex_text(key)),
    ensures
        key_bytes(raw) == Some(key),
{
    let chars = hex_text(key);
    let text = without_spaces(raw);
    assert(is_ascii_chars(chars));
    is_ascii_chars_encode_utf8(chars);
    assert forall|i: int| 0 <= i < 32 implies hex_value(text[2 * i]) == Some(
        #[trigger] key[i] as int / 16,
    ) && hex_value(text[2 * i + 1]) == Some(key[i] as int % 16) by {
        let byte = key[i] as int;
        assert((2 * i) / 2 == i && (2 * i) % 2 == 0);
        assert((2 * i + 1) / 2 == i && (2 * i + 1) % 2 == 1);
        assert(text[2 * i] == hex_digit(byte / 16) as u8);
        assert(text[2 * i + 1] == hex_digit(byte % 16) as u8);
    }
    law_hex_key_files_hold_the_key(key, raw);
}

} // verus!
