//! Which receipts are accepted, in terms of their signatures.
use vstd::prelude::*;
use vstd::string::*;
use vstd::utf8::encode_utf8;

use crate::dsse::{
    base64_decoded, envelope_verdict, judge_signatures, outcomes_verdict, pae, pae_bytes,
    signature_outcome, signature_outcomes, signature_verifies, verify_dsse_envelope, DsseEnvelope,
    DsseSignature, EnvelopeVerdict, SignatureOutcome,
};
use crate::error::{BundleError, ErrorClass};
use crate::keys::{is_verifying_key, key_bytes, load_verifying_key};
use crate::text::decimal;

verus! {

/// What is signed: a tag, then the type and the payload, each behind its length
/// in bytes, with one space between neighbours.
pub open spec fn signed_message(payload_type: Seq<char>, payload: Seq<u8>) -> Seq<u8> {
    let space = seq![' ' as u8];
    let kind = encode_utf8(payload_type);
    encode_utf8("DSSEv1 "@) + encode_utf8(decimal(kind.len())) + space + kind + space + encode_utf8(
        decimal(payload.len()),
    ) + space + payload
}

/// Payload and type are encoded for signing with their lengths.
pub proof fn law_signed_messages_hold_type_and_payload(
    payload_type: &str,
    payload: &[u8],
    out: Vec<u8>,
)
    requires
        call_ensures(pae, (payload_type, payload), out),
    ensures
        out@ == signed_message(payload_type@, payload@),
{
}

/// The base64 text is a signature of the message under the key.
pub open spec fn signs(key: Seq<u8>, message: Seq<u8>, sig: Seq<char>) -> bool {
    &&& base64_decoded(encode_utf8(sig)) matches Some(bytes)
    &&& bytes.len() == 64
    &&& signature_verifies(key, message, bytes)
}

/// Signature `n` signs the message; those before it decode and do not.
pub open spec fn is_first_signing(
    key: Seq<u8>,
    message: Seq<u8>,
    signatures: Seq<DsseSignature>,
    n: int,
) -> bool {
    &&& 0 <= n < signatures.len()
    &&& signs(key, message, signatures[n].sig@)
    &&& forall|m: int|
        0 <= m < n ==> base64_decoded(encode_utf8((#[trigger] signatures[m]).sig@)) is Some
            && !signs(key, message, signatures[m].sig@)
}

/// Signature `n` does not decode; those before it decode and do not sign the
/// message.
pub open spec fn is_first_garbled(
    key: Seq<u8>,
    message: Seq<u8>,
    signatures: Seq<DsseSignature>,
    n: int,
) -> bool {
    &&& 0 <= n < signatures.len()
    &&& base64_decoded(encode_utf8(signatures[n].sig@)) is None
    &&& forall|m: int|
        0 <= m < n ==> base64_decoded(encode_utf8((#[trigger] signatures[m]).sig@)) is Some
            && !signs(key, message, signatures[m].sig@)
}

/// The envelope is signed with the key: its payload decodes, and one of its
/// signatures, behind none that is garbled, signs payload and type.
pub open spec fn is_signed(envelope: DsseEnvelope, key: Seq<u8>) -> bool {
    &&& base64_decoded(encode_utf8(envelope.payload@)) matches Some(payload)
    &&& exists|n: int| #[trigger]
        is_first_signing(
            key,
            signed_message(envelope.payload_type@, payload),
            envelope.signatures@,
            n,
        )
}

/// Outcome `n` is the first that is no rejection.
pub open spec fn is_deciding(outcomes: Seq<SignatureOutcome>, n: int) -> bool {
    &&& 0 <= n < outcomes.len()
    &&& outcomes[n] != SignatureOutcome::Rejected
    &&& forall|m: int| 0 <= m < n ==> #[trigger] outcomes[m] == SignatureOutcome::Rejected
}

proof fn lemma_deciding(outcomes: Seq<SignatureOutcome>)
    ensures
        outcomes_verdict(outcomes) == EnvelopeVerdict::NoneVerifies <==> forall|n: int|
            0 <= n < outcomes.len() ==> #[trigger] outcomes[n] == SignatureOutcome::Rejected,
        outcomes_verdict(outcomes) == EnvelopeVerdict::Verified <==> exists|n: int| #[trigger]
            is_deciding(outcomes, n) && outcomes[n] == SignatureOutcome::Accepted,
        outcomes_verdict(outcomes) == EnvelopeVerdict::SignatureUndecodable <==> exists|n: int|
            #[trigger] is_deciding(outcomes, n) && outcomes[n] == SignatureOutcome::Undecodable,
        outcomes_verdict(outcomes) == EnvelopeVerdict::NoneVerifies || outcomes_verdict(outcomes)
            == EnvelopeVerdict::Verified || outcomes_verdict(outcomes)
            == EnvelopeVerdict::SignatureUndecodable,
    decreases outcomes.len(),
{
    if outcomes.len() > 0 {
        if outcomes[0] != SignatureOutcome::Rejected {
            assert(is_deciding(outcomes, 0));
            assert forall|n: int| #[trigger] is_deciding(outcomes, n) implies n == 0 by {
                if n > 0 {
                    assert(outcomes[0] == SignatureOutcome::Rejected);
                }
            }
        } else {
            let rest = outcomes.skip(1);
            lemma_deciding(rest);
            assert forall|n: int| #[trigger] is_deciding(rest, n) implies is_deciding(
                outcomes,
                n + 1,
            ) && outcomes[n + 1] == rest[n] by {
                assert forall|m: int| 0 <= m < n + 1 implies #[trigger] outcomes[m]
                    == SignatureOutcome::Rejected by {
                    if m > 0 {
                        assert(rest[m - 1] == SignatureOutcome::Rejected);
                    }
                }
            }
            assert forall|n: int| #[trigger] is_deciding(outcomes, n) implies n > 0 && is_deciding(
                rest,
                n - 1,
            ) && outcomes[n] == rest[n - 1] by {
                assert forall|m: int| 0 <= m < n - 1 implies #[trigger] rest[m]
                    == SignatureOutcome::Rejected by {
                    assert(outcomes[m + 1] == SignatureOutcome::Rejected);
                }
            }
            if forall|n: int|
                0 <= n < rest.len() ==> #[trigger] rest[n] == SignatureOutcome::Rejected {
                assert forall|n: int| 0 <= n < outcomes.len() implies #[trigger] outcomes[n]
                    == SignatureOutcome::Rejected by {
                    if n > 0 {
                        assert(rest[n - 1] == SignatureOutcome::Rejected);
                    }
                }
            }
            if forall|n: int|
                0 <= n < outcomes.len() ==> #[trigger] outcomes[n] == SignatureOutcome::Rejected {
                assert forall|n: int| 0 <= n < rest.len() implies #[trigger] rest[n]
                    == SignatureOutcome::Rejected by {
                    assert(outcomes[n + 1] == SignatureOutcome::Rejected);
                }
            }
        }
    }
}

/// Of the outcomes the first that is no rejection decides; without one nothing
/// verifies.
pub proof fn law_the_first_outcome_that_is_no_rejection_decides(
    outcomes: Vec<SignatureOutcome>,
    verdict: EnvelopeVerdict,
)
    requires
        call_ensures(judge_signatures, (&outcomes,), verdict),
    ensures
        verdict == EnvelopeVerdict::NoneVerifies <==> forall|n: int|
            0 <= n < outcomes@.len() ==> #[trigger] outcomes@[n] == SignatureOutcome::Rejected,
        verdict == EnvelopeVerdict::Verified <==> exists|n: int| #[trigger]
            is_deciding(outcomes@, n) && outcomes@[n] == SignatureOutcome::Accepted,
        verdict == EnvelopeVerdict::SignatureUndecodable <==> exists|n: int| #[trigger]
            is_deciding(outcomes@, n) && outcomes@[n] == SignatureOutcome::Undecodable,
{
    lemma_deciding(outcomes@);
}

proof fn lemma_outcomes_of(key: Seq<u8>, message: Seq<u8>, signatures: Seq<DsseSignature>, n: int)
    ensures
        ({
            let outcomes = signature_outcomes(key, message, signatures);
            &&& is_deciding(outcomes, n) && outcomes[n] == SignatureOutcome::Accepted
                <==> is_first_signing(key, message, signatures, n)
            &&& is_deciding(outcomes, n) && outcomes[n] == SignatureOutcome::Undecodable
                <==> is_first_garbled(key, message, signatures, n)
        }),
{
    let outcomes = signature_outcomes(key, message, signatures);
    assert forall|m: int| 0 <= m < signatures.len() implies outcomes[m] == signature_outcome(
        key,
        message,
        (#[trigger] signatures[m]).sig@,
    ) by {}
    if is_deciding(outcomes, n) {
        assert forall|m: int| 0 <= m < n implies base64_decoded(
            encode_utf8((#[trigger] signatures[m]).sig@),
        ) is Some && !signs(key, message, signatures[m].sig@) by {
            assert(outcomes[m] == SignatureOutcome::Rejected);
        }
    }
    if is_first_signing(key, message, signatures, n) || is_first_garbled(
        key,
        message,
        signatures,
        n,
    ) {
        assert forall|m: int| 0 <= m < n implies #[trigger] outcomes[m]
            == SignatureOutcome::Rejected by {
            assert(base64_decoded(encode_utf8(signatures[m].sig@)) is Some);
        }
    }
}

/// The verdict on an envelope by its signatures.
pub proof fn lemma_verdict_by_signatures(envelope: DsseEnvelope, key_file: Seq<u8>)
    ensures
        envelope_verdict(envelope, key_file) is Verified <==> {
            &&& key_bytes(key_file) matches Some(key)
            &&& is_verifying_key(key)
            &&& is_signed(envelope, key)
        },
        match (key_bytes(key_file), base64_decoded(encode_utf8(envelope.payload@))) {
            (Some(key), Some(payload)) => is_verifying_key(key) && envelope.signatures@.len() > 0
                ==> (envelope_verdict(envelope, key_file) is SignatureUndecodable <==> exists|
                n: int,
            |
                #[trigger] is_first_garbled(
                    key,
                    signed_message(envelope.payload_type@, payload),
                    envelope.signatures@,
                    n,
                )),
            _ => true,
        },
{
    if let Some(key) = key_bytes(key_file) {
        if let Some(payload) = base64_decoded(encode_utf8(envelope.payload@)) {
            let message = signed_message(envelope.payload_type@, payload);
            assert(message == pae_bytes(envelope.payload_type@, payload));
            let outcomes = signature_outcomes(key, message, envelope.signatures@);
            lemma_deciding(outcomes);
            if exists|n: int| #[trigger]
                is_deciding(outcomes, n) && outcomes[n] == SignatureOutcome::Accepted {
                let n = choose|n: int| #[trigger]
                    is_deciding(outcomes, n) && outcomes[n] == SignatureOutcome::Accepted;
                lemma_outcomes_of(key, message, envelope.signatures@, n);
                assert(is_first_signing(key, message, envelope.signatures@, n));
            }
            if exists|n: int| #[trigger]
                is_first_signing(key, message, envelope.signatures@, n) {
                let n = choose|n: int| #[trigger]
                    is_first_signing(key, message, envelope.signatures@, n);
                lemma_outcomes_of(key, message, envelope.signatures@, n);
                assert(is_deciding(outcomes, n));
            }
            if exists|n: int| #[trigger]
                is_deciding(outcomes, n) && outcomes[n] == SignatureOutcome::Undecodable {
                let n = choose|n: int| #[trigger]
                    is_deciding(outcomes, n) && outcomes[n] == SignatureOutcome::Undecodable;
                lemma_outcomes_of(key, message, envelope.signatures@, n);
                assert(is_first_garbled(key, message, envelope.signatures@, n));
            }
            if exists|n: int| #[trigger]
                is_first_garbled(key, message, envelope.signatures@, n) {
                let n = choose|n: int| #[trigger]
                    is_first_garbled(key, message, envelope.signatures@, n);
                lemma_outcomes_of(key, message, envelope.signatures@, n);
                assert(is_deciding(outcomes, n));
            }
        }
    }
}

/// A receipt is accepted exactly if its key file holds a key and the envelope
/// is signed with that key.
pub proof fn law_receipts_are_accepted_for_their_signature(
    envelope: DsseEnvelope,
    key_file: &[u8],
    envelope_path: &str,
    key_path: &str,
    result: Result<(), BundleError>,
    loaded: Result<[u8; 32], BundleError>,
)
    requires
        call_ensures(
            verify_dsse_envelope,
            (&envelope, key_file, envelope_path, key_path),
            result,
        ),
        call_ensures(load_verifying_key, (key_file, key_path), loaded),
    ensures
        result is Ok <==> (loaded matches Ok(key) && is_signed(envelope, key@)),
{
    lemma_verdict_by_signatures(envelope, key_file@);
}

/// A refused receipt is reported with the first thing that is wrong: that there
/// are no signatures, the key, the payload, a garbled signature; or that none
/// of the signatures verifies.
pub proof fn law_refused_receipts_name_the_fault(
    envelope: DsseEnvelope,
    key_file: &[u8],
    envelope_path: &str,
    key_path: &str,
    e: BundleError,
    loaded: Result<[u8; 32], BundleError>,
)
    requires
        call_ensures(
            verify_dsse_envelope,
            (&envelope, key_file, envelope_path, key_path),
            Err(e),
        ),
        call_ensures(load_verifying_key, (key_file, key_path), loaded),
    ensures
        envelope.signatures@.len() == 0 ==> e.class == ErrorClass::SignatureVerifyFailed
            && e.message@ == "BundleSignatureVerifyFailed: "@ + ("`"@ + envelope_path@
            + "` contains no signatures"@),
        envelope.signatures@.len() > 0 ==> match (
            loaded,
            base64_decoded(encode_utf8(envelope.payload@)),
        ) {
            (Err(failure), _) => e.class == failure.class && e.message@ == failure.message@,
            (Ok(_), None) => e.class == ErrorClass::Other && e.message@
                == "decode envelope payload"@,
            (Ok(key), Some(payload)) => if exists|n: int| #[trigger]
                is_first_garbled(
                    key@,
                    signed_message(envelope.payload_type@, payload),
                    envelope.signatures@,
                    n,
                ) {
                e.class == ErrorClass::Other && e.message@ == "decode envelope signature"@
            } else {
                e.class == ErrorClass::SignatureVerifyFailed && e.message@
                    == "BundleSignatureVerifyFailed: "@ + ("`"@ + envelope_path@
                    + "` did not verify against `"@ + key_path@ + "`"@)
            },
        },
{
    lemma_verdict_by_signatures(envelope, key_file@);
    reveal_strlit("");
    assert(""@ + "decode envelope payload"@ =~= "decode envelope payload"@);
    assert(""@ + "decode envelope signature"@ =~= "decode envelope signature"@);
    assert(""@ + "parse verifying key"@ =~= "parse verifying key"@);
    if let Some(key) = key_bytes(key_file@) {
        if let Some(payload) = base64_decoded(encode_utf8(envelope.payload@)) {
            let message = signed_message(envelope.payload_type@, payload);
            assert(message == pae_bytes(envelope.payload_type@, payload));
            lemma_deciding(signature_outcomes(key, message, envelope.signatures@));
        }
    }
}

} // verus!
