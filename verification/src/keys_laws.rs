//! Which files hold a verifying key, and which key.
use vstd::prelude::*;
use vstd::string::*;

use crate::error::{BundleError, ErrorClass};
use crate::keys::{
    accept_key, all_hex, hex_decoded, hex_value, is_ascii_space, is_verifying_key,
    load_verifying_key, without_spaces,
};

verus! {

/// A space, a tab, a line feed, a form feed or a carriage return.
pub open spec fn is_white(byte: u8) -> bool {
    byte == ' ' as u8 || byte == 9 || byte == 10 || byte == 12 || byte == 13
}

/// The bytes that are not white space, in their order.
pub open spec fn without_white(raw: Seq<u8>) -> Seq<u8>
    decreases raw.len(),
{
    if raw.len() == 0 {
        Seq::empty()
    } else if is_white(raw.last()) {
        without_white(raw.drop_last())
    } else {
        without_white(raw.drop_last()).push(raw.last())
    }
}

/// The byte is the hexadecimal digit of the number, in either case.
pub open spec fn is_digit_of(byte: u8, number: int) -> bool {
    ||| 0 <= number <= 9 && byte == '0' as u8 + number
    ||| 10 <= number <= 15 && (byte == 'a' as u8 + (number - 10) || byte == 'A' as u8 + (number
        - 10))
}

/// The text is 64 digits, two for each byte of the key, the higher one first.
pub open spec fn are_digits_of(text: Seq<u8>, key: Seq<u8>) -> bool {
    &&& key.len() == 32
    &&& text.len() == 64
    &&& forall|i: int|
        0 <= i < 32 ==> is_digit_of(text[2 * i], #[trigger] key[i] as int / 16) && is_digit_of(
            text[2 * i + 1],
            key[i] as int % 16,
        )
}

proof fn lemma_without_white(raw: Seq<u8>)
    ensures
        without_white(raw) == without_spaces(raw),
    decreases raw.len(),
{
    reveal(Seq::filter);
    if raw.len() > 0 {
        lemma_without_white(raw.drop_last());
    }
}

proof fn lemma_digits(text: Seq<u8>, key: Seq<u8>)
    ensures
        are_digits_of(text, key) <==> text.len() == 64 && all_hex(text) && hex_decoded(text) == key,
{
    if are_digits_of(text, key) {
        assert forall|i: int| 0 <= i < text.len() implies hex_value(#[trigger] text[i]) is Some by {
            let k = i / 2;
            assert(is_digit_of(text[2 * k], key[k] as int / 16));
            assert(i == 2 * k || i == 2 * k + 1);
        }
        assert forall|i: int| 0 <= i < 32 implies #[trigger] hex_decoded(text)[i] == key[i] by {
            assert(is_digit_of(text[2 * i], key[i] as int / 16));
            assert(hex_value(text[2 * i]) == Some(key[i] as int / 16));
            assert(hex_value(text[2 * i + 1]) == Some(key[i] as int % 16));
        }
        assert(hex_decoded(text) =~= key);
    }
    if text.len() == 64 && all_hex(text) && hex_decoded(text) == key {
        assert forall|i: int| 0 <= i < 32 implies is_digit_of(
            text[2 * i],
            #[trigger] key[i] as int / 16,
        ) && is_digit_of(text[2 * i + 1], key[i] as int % 16) by {
            let high = hex_value(text[2 * i])->Some_0;
            let low = hex_value(text[2 * i + 1])->Some_0;
            assert(hex_value(text[2 * i]) is Some);
            assert(hex_value(text[2 * i + 1]) is Some);
            assert(0 <= high < 16 && 0 <= low < 16);
            assert(key[i] == 16 * high + low);
        }
    }
}

/// A key is read exactly out of a file that holds its 64 hexadecimal digits in
/// either case, with white space anywhere, or its 32 bytes; and only if it is a
/// key of the signature scheme.
pub proof fn law_keys_are_read_as_written(
    raw: &[u8],
    path: &str,
    result: Result<[u8; 32], BundleError>,
    key: Seq<u8>,
)
    requires
        call_ensures(load_verifying_key, (raw, path), result),
    ensures
        result matches Ok(found) ==> is_verifying_key(found@) && (are_digits_of(
            without_white(raw@),
            found@,
        ) || raw@ == found@),
        are_digits_of(without_white(raw@), key) && is_verifying_key(key) ==> (result matches Ok(
            found,
        ) && found@ == key),
        raw@.len() == 32 && is_verifying_key(raw@) ==> (result matches Ok(found) && found@ == raw@),
{
    lemma_without_white(raw@);
    let text = without_white(raw@);
    lemma_digits(text, key);
    if let Ok(found) = result {
        lemma_digits(text, found@);
    }
    raw@.lemma_filter_len(|byte: u8| !is_ascii_space(byte));
}

/// What is no key of either form is refused as such, with the path; a key that
/// is none of the scheme fails to parse.
pub proof fn law_other_files_hold_no_key(
    raw: &[u8],
    path: &str,
    e: BundleError,
)
    requires
        call_ensures(load_verifying_key, (raw, path), Err(e)),
    ensures
        raw@.len() != 32 && without_white(raw@).len() != 64 ==> e.class
            == ErrorClass::SignatureVerifyFailed && e.message@ == "BundleSignatureVerifyFailed: "@
            + ("`"@ + path@ + "` is not a 32-byte ed25519 verifying key"@),
        raw@.len() == 32 || (exists|key: Seq<u8>| #[trigger]
            are_digits_of(without_white(raw@), key)) ==> e.class == ErrorClass::Other && e.message@
            == "parse verifying key"@,
{
    lemma_without_white(raw@);
    raw@.lemma_filter_len(|byte: u8| !is_ascii_space(byte));
    if exists|key: Seq<u8>| #[trigger] are_digits_of(without_white(raw@), key) {
        let key = choose|key: Seq<u8>| #[trigger] are_digits_of(without_white(raw@), key);
        lemma_digits(without_white(raw@), key);
    }
    reveal_strlit("");
    assert(""@ + "parse verifying key"@ =~= "parse verifying key"@);
}

/// Key bytes are accepted unchanged exactly if they parse.
pub proof fn law_parsing_decides_on_keys(
    key: [u8; 32],
    parses: bool,
    result: Result<[u8; 32], BundleError>,
)
    requires
        call_ensures(accept_key, (key, parses), result),
    ensures
        result is Ok <==> parses,
        result matches Ok(found) ==> found == key,
        result matches Err(e) ==> e.class == ErrorClass::Other && e.message@
            == "parse verifying key"@,
{
    reveal_strlit("");
    assert(""@ + "parse verifying key"@ =~= "parse verifying key"@);
}

} // verus!
