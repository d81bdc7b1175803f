//! Signed receipts: DSSE envelopes.
use base64::Engine;
use ed25519_dalek::Verifier;
use vstd::prelude::*;
use vstd::string::*;
use vstd::utf8::{
    encode_utf8, encode_utf8_decode_utf8, is_ascii_chars, is_ascii_chars_encode_utf8,
};

use crate::digest::append_bytes;
use crate::error::{BundleError, ErrorClass};
use crate::keys::{is_verifying_key, key_bytes, load_verifying_key};
use crate::text::{
    decimal, decimal_text, lemma_decimal_digits, lemma_decimal_injective,
};

verus! {

/// A DSSE envelope. Payload and signatures are base64 text.
#[derive(Debug)]
pub struct DsseEnvelope {
    pub payload_type: String,
    pub payload: String,
    pub signatures: Vec<DsseSignature>,
}

/// A signature of an envelope.
#[derive(Debug)]
pub struct DsseSignature {
    pub keyid: String,
    pub sig: String,
}

// ---------------------------------------------------------------------------
// Pre-authentication encoding
// ---------------------------------------------------------------------------
/// The bytes that the signatures of an envelope are made over.
pub open spec fn pae_bytes(payload_type: Seq<char>, payload: Seq<u8>) -> Seq<u8> {
    let kind = encode_utf8(payload_type);
    encode_utf8("DSSEv1 "@) + encode_utf8(decimal(kind.len())) + seq![32u8] + kind + seq![32u8]
        + encode_utf8(decimal(payload.len())) + seq![32u8] + payload
}

/// Encodes a payload with its type for signing.
pub fn pae(payload_type: &str, payload: &[u8]) -> (out: Vec<u8>)
    ensures
        out@ == pae_bytes(payload_type@, payload@),
{
    let mut out: Vec<u8> = Vec::new();
    append_bytes(&mut out, "DSSEv1 ".as_bytes());
    proof {
        assert(out@ =~= encode_utf8("DSSEv1 "@));
    }
    let kind: &[u8] = payload_type.as_bytes();
    let kind_len: String = decimal_text(kind.len() as u64);
    append_bytes(&mut out, kind_len.as_str().as_bytes());
    append_bytes(&mut out, &[32u8]);
    append_bytes(&mut out, kind);
    append_bytes(&mut out, &[32u8]);
    let payload_len: String = decimal_text(payload.len() as u64);
    append_bytes(&mut out, payload_len.as_str().as_bytes());
    append_bytes(&mut out, &[32u8]);
    append_bytes(&mut out, payload);
    proof {
        assert(out@ =~= pae_bytes(payload_type@, payload@));
    }
    out
}

/// A numeral in bytes has no space, and tells its number.
proof fn lemma_numeral_bytes(n: nat)
    ensures
        encode_utf8(decimal(n)).len() >= 1,
        forall|i: int|
            0 <= i < encode_utf8(decimal(n)).len() ==> #[trigger] encode_utf8(decimal(n))[i] != 32,
{
    lemma_decimal_digits(n);
    assert(is_ascii_chars(decimal(n)));
    is_ascii_chars_encode_utf8(decimal(n));
}

/// Of two texts that start with a numeral and a space, equal ones start with
/// the same numeral.
proof fn lemma_numeral_prefix(m: nat, x: Seq<u8>, n: nat, y: Seq<u8>)
    requires
        encode_utf8(decimal(m)) + seq![32u8] + x == encode_utf8(decimal(n)) + seq![32u8] + y,
    ensures
        m == n,
        x == y,
{
    let a = encode_utf8(decimal(m));
    let b = encode_utf8(decimal(n));
    let s = a + seq![32u8] + x;
    let t = b + seq![32u8] + y;
    lemma_numeral_bytes(m);
    lemma_numeral_bytes(n);
    assert(s[a.len() as int] == 32);
    assert(t[b.len() as int] == 32);
    if a.len() < b.len() {
        assert(t[a.len() as int] == b[a.len() as int]);
    }
    if b.len() < a.len() {
        assert(s[b.len() as int] == a[b.len() as int]);
    }
    assert(s.take(a.len() as int) =~= a);
    assert(t.take(b.len() as int) =~= b);
    encode_utf8_decode_utf8(decimal(m));
    encode_utf8_decode_utf8(decimal(n));
    lemma_decimal_injective(m, n);
    assert(s.skip(a.len() as int + 1) =~= x);
    assert(t.skip(b.len() as int + 1) =~= y);
}

proof fn lemma_regroup(
    head: Seq<u8>,
    a: Seq<u8>,
    kind: Seq<u8>,
    b: Seq<u8>,
    payload: Seq<u8>,
)
    ensures
        head + a + seq![32u8] + kind + seq![32u8] + b + seq![32u8] + payload == head + (a
            + seq![32u8] + (kind + seq![32u8] + (b + seq![32u8] + payload))),
{
    assert(head + a + seq![32u8] + kind + seq![32u8] + b + seq![32u8] + payload =~= head + (a
        + seq![32u8] + (kind + seq![32u8] + (b + seq![32u8] + payload))));
}

/// Equal texts with equally long first parts have equal parts.
proof fn lemma_split(a: Seq<u8>, x: Seq<u8>, b: Seq<u8>, y: Seq<u8>)
    requires
        a + x == b + y,
        a.len() == b.len(),
    ensures
        a == b,
        x == y,
{
    assert((a + x).take(a.len() as int) =~= a);
    assert((b + y).take(b.len() as int) =~= b);
    assert((a + x).skip(a.len() as int) =~= x);
    assert((b + y).skip(b.len() as int) =~= y);
}

/// The signed bytes tell the payload and its type apart from every other pair.
pub proof fn law_signed_bytes_determine_the_receipt(
    type1: Seq<char>,
    payload1: Seq<u8>,
    type2: Seq<char>,
    payload2: Seq<u8>,
)
    requires
        pae_bytes(type1, payload1) == pae_bytes(type2, payload2),
    ensures
        type1 == type2,
        payload1 == payload2,
{
    let head = encode_utf8("DSSEv1 "@);
    let k1 = encode_utf8(type1);
    let k2 = encode_utf8(type2);
    let tail1 = encode_utf8(decimal(payload1.len())) + seq![32u8] + payload1;
    let tail2 = encode_utf8(decimal(payload2.len())) + seq![32u8] + payload2;
    let rest1 = k1 + seq![32u8] + tail1;
    let rest2 = k2 + seq![32u8] + tail2;
    let body1 = encode_utf8(decimal(k1.len())) + seq![32u8] + rest1;
    let body2 = encode_utf8(decimal(k2.len())) + seq![32u8] + rest2;
    lemma_regroup(
        head,
        encode_utf8(decimal(k1.len())),
        k1,
        encode_utf8(decimal(payload1.len())),
        payload1,
    );
    lemma_regroup(
        head,
        encode_utf8(decimal(k2.len())),
        k2,
        encode_utf8(decimal(payload2.len())),
        payload2,
    );
    lemma_split(head, body1, head, body2);
    lemma_numeral_prefix(k1.len(), rest1, k2.len(), rest2);
    lemma_split(k1 + seq![32u8], tail1, k2 + seq![32u8], tail2);
    lemma_split(k1, seq![32u8], k2, seq![32u8]);
    lemma_numeral_prefix(payload1.len(), payload1, payload2.len(), payload2);
    encode_utf8_decode_utf8(type1);
    encode_utf8_decode_utf8(type2);
}

// ---------------------------------------------------------------------------
// Verification
// ---------------------------------------------------------------------------
/// The bytes that standard base64 text with padding stands for.
pub uninterp spec fn base64_decoded(text: Seq<u8>) -> Option<Seq<u8>>;

/// The signature bytes are a signature of the message under the key.
pub uninterp spec fn signature_verifies(
    key: Seq<u8>,
    message: Seq<u8>,
    signature: Seq<u8>,
) -> bool;

/// `base64::engine::general_purpose::STANDARD.decode`. Its result is a
/// function of the text alone; an error is reported as `None`.
#[verifier::external_body]
fn base64_decode(text: &[u8]) -> (bytes: Option<Vec<u8>>)
    ensures
        match bytes {
            Some(b) => base64_decoded(text@) == Some(b@),
            None => base64_decoded(text@) is None,
        },
{
    base64::engine::general_purpose::STANDARD.decode(text).ok()
}

/// `ed25519_dalek::VerifyingKey::verify` with the key and the signature given
/// as bytes. Its result is a function of the key, the message and the
/// signature alone; bytes that are no key or no signature verify nothing.
#[verifier::external_body]
fn verify_signature(key: &[u8; 32], message: &[u8], signature: &[u8]) -> (valid: bool)
    ensures
        valid == signature_verifies(key@, message@, signature@),
{
    let key = ed25519_dalek::VerifyingKey::from_bytes(key);
    let signature = ed25519_dalek::Signature::from_slice(signature);
    match (key, signature) {
        (Ok(key), Ok(signature)) => key.verify(message, &signature).is_ok(),
        _ => false,
    }
}

/// What checking an envelope comes to.
#[derive(Clone, Copy, Debug, PartialEq, Eq, Structural)]
pub enum EnvelopeVerdict {
    NoSignatures,
    NotAKey,
    KeyRefused,
    PayloadUndecodable,
    SignatureUndecodable,
    NoneVerifies,
    Verified,
}

/// What checking one signature comes to.
#[derive(Clone, Copy, Debug, PartialEq, Eq, Structural)]
pub enum SignatureOutcome {
    Undecodable,
    Rejected,
    Accepted,
}

/// The outcome of a signature of this base64 text: only 64 bytes that verify
/// are accepted.
pub open spec fn signature_outcome(
    key: Seq<u8>,
    message: Seq<u8>,
    text: Seq<char>,
) -> SignatureOutcome {
    match base64_decoded(encode_utf8(text)) {
        None => SignatureOutcome::Undecodable,
        Some(bytes) => if bytes.len() == 64 && signature_verifies(key, message, bytes) {
            SignatureOutcome::Accepted
        } else {
            SignatureOutcome::Rejected
        },
    }
}

/// The outcomes of the signatures, in their order.
pub open spec fn signature_outcomes(
    key: Seq<u8>,
    message: Seq<u8>,
    signatures: Seq<DsseSignature>,
) -> Seq<SignatureOutcome> {
    Seq::new(signatures.len(), |i: int| signature_outcome(key, message, signatures[i].sig@))
}

/// The verdict that the outcomes come to: the first one that is not a
/// rejection decides.
pub open spec fn outcomes_verdict(outcomes: Seq<SignatureOutcome>) -> EnvelopeVerdict
    decreases outcomes.len(),
{
    if outcomes.len() == 0 {
        EnvelopeVerdict::NoneVerifies
    } else {
        match outcomes[0] {
            SignatureOutcome::Undecodable => EnvelopeVerdict::SignatureUndecodable,
            SignatureOutcome::Accepted => EnvelopeVerdict::Verified,
            SignatureOutcome::Rejected => outcomes_verdict(outcomes.skip(1)),
        }
    }
}

/// The verdict on an envelope, with the content of the key file.
pub open spec fn envelope_verdict(envelope: DsseEnvelope, key_file: Seq<u8>) -> EnvelopeVerdict {
    if envelope.signatures@.len() == 0 {
        EnvelopeVerdict::NoSignatures
    } else {
        match key_bytes(key_file) {
            None => EnvelopeVerdict::NotAKey,
            Some(key) => if !is_verifying_key(key) {
                EnvelopeVerdict::KeyRefused
            } else {
                match base64_decoded(encode_utf8(envelope.payload@)) {
                    None => EnvelopeVerdict::PayloadUndecodable,
                    Some(payload) => outcomes_verdict(
                        signature_outcomes(
                            key,
                            pae_bytes(envelope.payload_type@, payload),
                            envelope.signatures@,
                        ),
                    ),
                }
            },
        }
    }
}

/// The class of the failure that a verdict is reported as.
pub open spec fn verdict_class(verdict: EnvelopeVerdict) -> ErrorClass {
    match verdict {
        EnvelopeVerdict::NoSignatures | EnvelopeVerdict::NotAKey
        | EnvelopeVerdict::NoneVerifies => ErrorClass::SignatureVerifyFailed,
        _ => ErrorClass::Other,
    }
}

/// The message of the failure that a verdict is reported as.
pub open spec fn verdict_detail(
    verdict: EnvelopeVerdict,
    envelope_path: Seq<char>,
    key_path: Seq<char>,
) -> Seq<char> {
    match verdict {
        EnvelopeVerdict::NoSignatures => "`"@ + envelope_path + "` contains no signatures"@,
        EnvelopeVerdict::NotAKey => "`"@ + key_path
            + "` is not a 32-byte ed25519 verifying key"@,
        EnvelopeVerdict::KeyRefused => "parse verifying key"@,
        EnvelopeVerdict::PayloadUndecodable => "decode envelope payload"@,
        EnvelopeVerdict::SignatureUndecodable => "decode envelope signature"@,
        _ => "`"@ + envelope_path + "` did not verify against `"@ + key_path + "`"@,
    }
}

/// Checks the signatures one by one.
fn check_signatures(key: &[u8; 32], message: &[u8], signatures: &Vec<DsseSignature>) -> (outcomes:
    Vec<SignatureOutcome>)
    ensures
        outcomes@ == signature_outcomes(key@, message@, signatures@),
{
    let mut outcomes: Vec<SignatureOutcome> = Vec::new();
    let mut i: usize = 0;
    while i < signatures.len()
        invariant
            i <= signatures@.len(),
            outcomes@ == signature_outcomes(key@, message@, signatures@).take(i as int),
        decreases signatures@.len() - i,
    {
        let outcome: SignatureOutcome = match base64_decode(signatures[i].sig.as_str().as_bytes()) {
            None => SignatureOutcome::Undecodable,
            Some(bytes) => if bytes.len() == 64 && verify_signature(
                key,
                message,
                bytes.as_slice(),
            ) {
                SignatureOutcome::Accepted
            } else {
                SignatureOutcome::Rejected
            },
        };
        proof {
            let all = signature_outcomes(key@, message@, signatures@);
            assert(all.take(i + 1) =~= all.take(i as int).push(all[i as int]));
        }
        outcomes.push(outcome);
        i = i + 1;
    }
    proof {
        let all = signature_outcomes(key@, message@, signatures@);
        assert(all.take(i as int) =~= all);
    }
    outcomes
}

/// The verdict that the outcomes of an envelope's signatures come to.
pub fn judge_signatures(outcomes: &Vec<SignatureOutcome>) -> (verdict: EnvelopeVerdict)
    ensures
        verdict == outcomes_verdict(outcomes@),
{
    let mut i: usize = 0;
    proof {
        assert(outcomes@.skip(0) =~= outcomes@);
    }
    while i < outcomes.len()
        invariant
            i <= outcomes@.len(),
            outcomes_verdict(outcomes@) == outcomes_verdict(outcomes@.skip(i as int)),
        decreases outcomes@.len() - i,
    {
        match outcomes[i] {
            SignatureOutcome::Undecodable => {
                return EnvelopeVerdict::SignatureUndecodable;
            },
            SignatureOutcome::Accepted => {
                return EnvelopeVerdict::Verified;
            },
            SignatureOutcome::Rejected => {},
        }
        proof {
            assert(outcomes@.skip(i as int).skip(1) =~= outcomes@.skip(i + 1));
        }
        i = i + 1;
    }
    EnvelopeVerdict::NoneVerifies
}

/// Checks a receipt: some signature of the envelope must verify under the key
/// in the key file.
pub fn verify_dsse_envelope(
    envelope: &DsseEnvelope,
    key_file: &[u8],
    envelope_path: &str,
    key_path: &str,
) -> (result: Result<(), BundleError>)
    ensures
        ({
            let verdict = envelope_verdict(*envelope, key_file@);
            match result {
                Ok(_) => verdict is Verified,
                Err(e) => !(verdict is Verified) && e.says(
                    verdict_class(verdict),
                    verdict_detail(verdict, envelope_path@, key_path@),
                ),
            }
        }),
{
    if envelope.signatures.len() == 0 {
        let mut detail: String = String::from_str("`");
        detail.append(envelope_path);
        detail.append("` contains no signatures");
        return Err(BundleError::new(ErrorClass::SignatureVerifyFailed, detail.as_str()));
    }
    let key: [u8; 32] = match load_verifying_key(key_file, key_path) {
        Ok(key) => key,
        Err(e) => {
            return Err(e);
        },
    };
    let payload: Vec<u8> = match base64_decode(envelope.payload.as_str().as_bytes()) {
        Some(payload) => payload,
        None => {
            return Err(BundleError::new(ErrorClass::Other, "decode envelope payload"));
        },
    };
    let message: Vec<u8> = pae(envelope.payload_type.as_str(), payload.as_slice());
    let outcomes: Vec<SignatureOutcome> = check_signatures(
        &key,
        message.as_slice(),
        &envelope.signatures,
    );
    match judge_signatures(&outcomes) {
        EnvelopeVerdict::Verified => Ok(()),
        EnvelopeVerdict::SignatureUndecodable => Err(
            BundleError::new(ErrorClass::Other, "decode envelope signature"),
        ),
        _ => {
            proof {
                lemma_outcomes_verdict(outcomes@);
            }
            let mut detail: String = String::from_str("`");
            detail.append(envelope_path);
            detail.append("` did not verify against `");
            detail.append(key_path);
            detail.append("`");
            Err(BundleError::new(ErrorClass::SignatureVerifyFailed, detail.as_str()))
        },
    }
}

/// Signature `n` is accepted and those before it are rejected.
pub open spec fn first_accepted(outcomes: Seq<SignatureOutcome>, n: int) -> bool {
    &&& 0 <= n < outcomes.len()
    &&& outcomes[n] is Accepted
    &&& forall|m: int| 0 <= m < n ==> #[trigger] outcomes[m] is Rejected
}

/// The outcomes come to acceptance exactly when one accepts and those before
/// it reject.
proof fn lemma_outcomes_verdict(outcomes: Seq<SignatureOutcome>)
    ensures
        outcomes_verdict(outcomes) is Verified <==> exists|n: int| #[trigger]
            first_accepted(outcomes, n),
        outcomes_verdict(outcomes) is Verified || outcomes_verdict(outcomes) is NoneVerifies
            || outcomes_verdict(outcomes) is SignatureUndecodable,
    decreases outcomes.len(),
{
    if outcomes.len() > 0 && outcomes[0] is Rejected {
        let rest = outcomes.skip(1);
        lemma_outcomes_verdict(rest);
        if outcomes_verdict(rest) is Verified {
            let n = choose|n: int| #[trigger] first_accepted(rest, n);
            assert forall|m: int| 0 <= m < n + 1 implies #[trigger] outcomes[m] is Rejected by {
                if m > 0 {
                    assert(rest[m - 1] is Rejected);
                }
            }
            assert(first_accepted(outcomes, n + 1));
        }
        if exists|n: int| #[trigger] first_accepted(outcomes, n) {
            let n = choose|n: int| #[trigger] first_accepted(outcomes, n);
            assert forall|m: int| 0 <= m < n - 1 implies #[trigger] rest[m] is Rejected by {
                assert(outcomes[m + 1] is Rejected);
            }
            assert(first_accepted(rest, n - 1));
        }
    } else if outcomes.len() > 0 {
        if outcomes[0] is Accepted {
            assert(first_accepted(outcomes, 0));
        }
        assert forall|n: int| #[trigger] first_accepted(outcomes, n) implies outcomes[0] is Accepted by {
            assert(n == 0 || outcomes[0] is Rejected);
        }
    }
}

/// A receipt is accepted exactly when the key file holds a usable key, the
/// payload decodes, and some signature of 64 bytes over the payload and its
/// type verifies, after signatures that decode and do not.
pub proof fn law_accepted_receipts_are_signed(envelope: DsseEnvelope, key_file: Seq<u8>)
    ensures
        envelope_verdict(envelope, key_file) is Verified <==> {
            &&& key_bytes(key_file) matches Some(key)
            &&& is_verifying_key(key)
            &&& base64_decoded(encode_utf8(envelope.payload@)) matches Some(payload)
            &&& exists|n: int| #[trigger]
                first_accepted(
                    signature_outcomes(
                        key,
                        pae_bytes(envelope.payload_type@, payload),
                        envelope.signatures@,
                    ),
                    n,
                )
        },
{
    if let Some(key) = key_bytes(key_file) {
        if let Some(payload) = base64_decoded(encode_utf8(envelope.payload@)) {
            let outcomes = signature_outcomes(
                key,
                pae_bytes(envelope.payload_type@, payload),
                envelope.signatures@,
            );
            lemma_outcomes_verdict(outcomes);
        }
    }
}

} // verus!
