use base64::Engine;
use corvid_bundle::dsse::{
    judge_signatures, pae, verify_dsse_envelope, DsseEnvelope, DsseSignature, EnvelopeVerdict,
    SignatureOutcome,
};
use corvid_bundle::error::ErrorClass;
use corvid_bundle::keys::{accept_key, load_verifying_key};
use ed25519_dalek::{Signer, SigningKey};

const PAYLOAD_TYPE: &str = "application/vnd.corvid-receipt+json";

fn signing_key() -> SigningKey {
    SigningKey::from_bytes(&[7u8; 32])
}

fn base64_text(bytes: &[u8]) -> String {
    base64::engine::general_purpose::STANDARD.encode(bytes)
}

fn signature(text: String) -> DsseSignature {
    DsseSignature { keyid: "k".to_string(), sig: text }
}

fn signed(payload: &[u8]) -> DsseSignature {
    signature(base64_text(&signing_key().sign(&pae(PAYLOAD_TYPE, payload)).to_bytes()))
}

fn envelope(payload: &[u8], signatures: Vec<DsseSignature>) -> DsseEnvelope {
    DsseEnvelope {
        payload_type: PAYLOAD_TYPE.to_string(),
        payload: base64_text(payload),
        signatures,
    }
}

fn key_bytes() -> [u8; 32] {
    signing_key().verifying_key().to_bytes()
}

fn check(envelope: &DsseEnvelope, key: &[u8]) -> Result<(), String> {
    verify_dsse_envelope(envelope, key, "receipt.json", "verify.hex").map_err(|e| e.message)
}

#[test]
fn encoding_frames_type_and_payload() {
    assert_eq!(pae("http://example.com/HelloWorld", b"hello world"),
        b"DSSEv1 29 http://example.com/HelloWorld 11 hello world".to_vec());
    assert_eq!(pae("", b""), b"DSSEv1 0  0 ".to_vec());
    assert_eq!(pae("ü", b"x"), "DSSEv1 2 ü 1 x".as_bytes().to_vec());
}

#[test]
fn encoding_tells_type_and_payload_apart() {
    assert_ne!(pae("a", b"b c"), pae("a b", b"c"));
}

#[test]
fn hex_and_raw_keys_are_loaded() {
    let key = key_bytes();
    let hex: String = key.iter().map(|byte| format!("{byte:02x}")).collect();
    assert_eq!(load_verifying_key(&key, "k").unwrap(), key);
    assert_eq!(load_verifying_key(hex.as_bytes(), "k").unwrap(), key);
    assert_eq!(load_verifying_key(hex.to_uppercase().as_bytes(), "k").unwrap(), key);
    let mixed: String = hex
        .chars()
        .enumerate()
        .map(|(i, c)| if i % 3 == 0 { c.to_ascii_uppercase() } else { c })
        .collect();
    assert_eq!(load_verifying_key(mixed.as_bytes(), "k").unwrap(), key);
    let spaced = format!("  {}\n{}\r\n", &hex[..20], &hex[20..]);
    assert_eq!(load_verifying_key(spaced.as_bytes(), "k").unwrap(), key);
}

#[test]
fn other_key_files_are_refused() {
    let e = load_verifying_key(b"not a key", "keys/verify.hex").unwrap_err();
    assert_eq!(e.class, ErrorClass::SignatureVerifyFailed);
    assert_eq!(
        e.message,
        "BundleSignatureVerifyFailed: `keys/verify.hex` is not a 32-byte ed25519 verifying key"
    );
    assert!(load_verifying_key(&[0u8; 31], "k").is_err());
    let mut not_on_curve = [0u8; 32];
    not_on_curve[0] = 2;
    let e = load_verifying_key(&not_on_curve, "k").unwrap_err();
    assert_eq!(e.class, ErrorClass::Other);
    assert_eq!(e.message, "parse verifying key");
}

#[test]
fn a_signed_receipt_is_accepted() {
    assert_eq!(check(&envelope(b"{}", vec![signed(b"{}")]), &key_bytes()), Ok(()));
}

#[test]
fn a_later_signature_can_verify() {
    let short = signature(base64_text(b"short"));
    let wrong = signature(base64_text(&[1u8; 64]));
    assert_eq!(check(&envelope(b"{}", vec![short, wrong, signed(b"{}")]), &key_bytes()), Ok(()));
}

#[test]
fn an_undecodable_signature_before_the_valid_one_is_an_error() {
    let bad = signature("***".to_string());
    assert_eq!(
        check(&envelope(b"{}", vec![bad, signed(b"{}")]), &key_bytes()),
        Err("decode envelope signature".to_string())
    );
    let bad = signature("***".to_string());
    assert_eq!(check(&envelope(b"{}", vec![signed(b"{}"), bad]), &key_bytes()), Ok(()));
}

#[test]
fn a_receipt_for_other_content_is_refused() {
    let refused = Err(
        "BundleSignatureVerifyFailed: `receipt.json` did not verify against `verify.hex`"
            .to_string(),
    );
    assert_eq!(check(&envelope(b"{\"a\":1}", vec![signed(b"{}")]), &key_bytes()), refused);
    let mut other_type = envelope(b"{}", vec![signed(b"{}")]);
    other_type.payload_type = "text/plain".to_string();
    assert_eq!(check(&other_type, &key_bytes()), refused);
    let other_key = SigningKey::from_bytes(&[9u8; 32]).verifying_key().to_bytes();
    assert_eq!(check(&envelope(b"{}", vec![signed(b"{}")]), &other_key), refused);
}

#[test]
fn refusals_come_in_order() {
    let mut unsigned = envelope(b"{}", vec![]);
    unsigned.payload = "***".to_string();
    assert_eq!(
        check(&unsigned, b"no key"),
        Err("BundleSignatureVerifyFailed: `receipt.json` contains no signatures".to_string())
    );
    let mut undecodable = envelope(b"{}", vec![signed(b"{}")]);
    undecodable.payload = "***".to_string();
    assert_eq!(
        check(&undecodable, b"no key"),
        Err("BundleSignatureVerifyFailed: `verify.hex` is not a 32-byte ed25519 verifying key"
            .to_string())
    );
    assert_eq!(check(&undecodable, &key_bytes()), Err("decode envelope payload".to_string()));
}

#[test]
fn the_first_decisive_signature_counts() {
    let rejected = SignatureOutcome::Rejected;
    let accepted = SignatureOutcome::Accepted;
    let undecodable = SignatureOutcome::Undecodable;
    assert!(matches!(judge_signatures(&vec![]), EnvelopeVerdict::NoneVerifies));
    assert!(matches!(judge_signatures(&vec![rejected]), EnvelopeVerdict::NoneVerifies));
    assert!(matches!(judge_signatures(&vec![rejected, accepted]), EnvelopeVerdict::Verified));
    assert!(matches!(
        judge_signatures(&vec![rejected, undecodable, accepted]),
        EnvelopeVerdict::SignatureUndecodable
    ));
    assert!(matches!(
        judge_signatures(&vec![accepted, undecodable]),
        EnvelopeVerdict::Verified
    ));
}

#[test]
fn keys_are_accepted_when_they_parse() {
    assert_eq!(accept_key([5u8; 32], true).unwrap(), [5u8; 32]);
    assert_eq!(accept_key([5u8; 32], false).unwrap_err().message, "parse verifying key");
}
