//! What is read for the checks of a bundle, from which field of the manifest,
//! and what of it is accepted.
use vstd::prelude::*;
use vstd::string::*;

use crate::committed::{
    action_passes, carries_out, committed_actions, committed_checks, first_failing, hash_checks,
    law_actions_stand_for_their_checks, optional_check, passes, receipt_check, settle, trace_check,
    trace_checks, verify_committed, verify_digest, verify_hash, verify_trace_agent, Artifact,
    CommittedAction, Evidence, PlannedCheck,
};
use crate::committed_laws::law_checks_are_those_declared;
use crate::digest::{dir_digest, file_views, hex_text, sha256};
use crate::dsse::{verify_dsse_envelope, DsseEnvelope};
use crate::dsse_laws::{is_signed, lemma_verdict_by_signatures};
use crate::error::{BundleError, ErrorClass};
use crate::keys::{is_verifying_key, key_bytes};
use crate::manifest::{BundleManifest, BundleTrace, LoadedManifest};
use crate::manifest_laws::leads;
use crate::trace::{run_started, TraceEvent};
use crate::trace_laws::{is_first_run, lemma_first_run};

verus! {

// ---------------------------------------------------------------------------
// The planned checks
// ---------------------------------------------------------------------------
/// Every trace that the manifest lists is checked twice: its file for its
/// digest, and the agent that the same file records.
pub proof fn law_every_trace_is_checked(m: BundleManifest, i: int)
    requires
        0 <= i < m.traces@.len(),
    ensures
        committed_checks(m).contains(
            PlannedCheck::Hash {
                label: "trace `"@ + m.traces@[i].name@ + "`"@,
                relative: m.traces@[i].path@,
                expected: m.traces@[i].sha256@,
                is_dir: false,
            },
        ),
        committed_checks(m).contains(
            PlannedCheck::Trace {
                name: m.traces@[i].name@,
                relative: m.traces@[i].path@,
                expected_agent: m.traces@[i].expected_agent@,
            },
        ),
{
    lemma_places(m);
    lemma_trace_places(m, i);
    let base = artifact_count(m);
    assert(committed_checks(m)[base + 2 * i] == trace_check(m.traces@[i])[0]);
    assert(committed_checks(m)[base + 2 * i + 1] == trace_check(m.traces@[i])[1]);
}

/// Every planned check of an agent is that of a trace that the manifest lists,
/// and so is every planned check of a digest that is of no other artifact.
pub proof fn law_only_listed_traces_are_checked(m: BundleManifest, check: PlannedCheck)
    requires
        committed_checks(m).contains(check),
    ensures
        check matches PlannedCheck::Trace { name, relative, expected_agent } ==> exists|i: int|
            0 <= i < m.traces@.len() && name == (#[trigger] m.traces@[i]).name@ && relative
                == m.traces@[i].path@ && expected_agent == m.traces@[i].expected_agent@,
        check matches PlannedCheck::Hash { label, relative, expected, is_dir } ==> {
            ||| !is_dir && label == "library"@ && relative == m.library_path@ && expected
                == m.hashes.library@
            ||| !is_dir && label == "descriptor"@ && relative == m.descriptor_path@ && expected
                == m.hashes.descriptor@
            ||| is_dir && label == "bindings_rust"@ && relative == m.bindings_rust_dir@ && expected
                == m.hashes.bindings_rust@
            ||| is_dir && label == "bindings_python"@ && relative == m.bindings_python_dir@
                && expected == m.hashes.bindings_python@
            ||| !is_dir && label == "header"@ && is_text(m.header_path, relative) && is_text(
                m.hashes.header,
                expected,
            )
            ||| !is_dir && label == "tools_staticlib"@ && is_text(m.tools_staticlib_path, relative)
                && is_text(m.hashes.tools_staticlib, expected)
            ||| !is_dir && label == "capsule"@ && is_text(m.capsule_path, relative) && is_text(
                m.hashes.capsule,
                expected,
            )
            ||| !is_dir && label == "receipt_envelope"@ && is_text(
                m.receipt_envelope_path,
                relative,
            ) && is_text(m.hashes.receipt_envelope, expected)
            ||| !is_dir && label == "receipt_verify_key"@ && is_text(
                m.receipt_verify_key_path,
                relative,
            ) && is_text(m.hashes.receipt_verify_key, expected)
            ||| !is_dir && exists|i: int|
                0 <= i < m.traces@.len() && label == "trace `"@ + (#[trigger] m.traces@[i]).name@
                    + "`"@ && relative == m.traces@[i].path@ && expected == m.traces@[i].sha256@
        },
        check matches PlannedCheck::Receipt { envelope, key } ==> is_text(
            m.receipt_envelope_path,
            envelope,
        ) && is_text(m.receipt_verify_key_path, key),
{
    law_checks_are_those_declared(m, check);
    if crate::committed_laws::declares_trace(m.traces@, check) {
        let i = choose|i: int|
            0 <= i < m.traces@.len() && (#[trigger] trace_check(m.traces@[i])).contains(check);
        let both = trace_check(m.traces@[i]);
        let k = choose|k: int| 0 <= k < both.len() && both[k] == check;
        assert(k == 0 || k == 1);
        assert(m.traces@[i].name@ == m.traces@[i].name@);
    }
}

/// The optional text is given and is this one.
pub open spec fn is_text(given: Option<String>, text: Seq<char>) -> bool {
    given matches Some(found) && found@ == text
}

/// One if both texts are given.
pub open spec fn both(left: Option<String>, right: Option<String>) -> int {
    if left is Some && right is Some {
        1
    } else {
        0
    }
}

/// How many artifacts apart from traces have a digest in the manifest.
pub open spec fn artifact_count(m: BundleManifest) -> int {
    4 + both(m.header_path, m.hashes.header) + both(
        m.tools_staticlib_path,
        m.hashes.tools_staticlib,
    ) + both(m.capsule_path, m.hashes.capsule) + both(
        m.receipt_envelope_path,
        m.hashes.receipt_envelope,
    ) + both(m.receipt_verify_key_path, m.hashes.receipt_verify_key)
}

proof fn lemma_traces_in_pairs(traces: Seq<BundleTrace>, i: int)
    ensures
        trace_checks(traces).len() == 2 * traces.len(),
        0 <= i < traces.len() ==> trace_checks(traces)[2 * i] == trace_check(traces[i])[0]
            && trace_checks(traces)[2 * i + 1] == trace_check(traces[i])[1],
    decreases traces.len(),
{
    if traces.len() > 0 {
        lemma_traces_in_pairs(traces.drop_last(), i);
        assert(trace_check(traces.last()).len() == 2);
    }
}

proof fn lemma_optional_len(label: Seq<char>, relative: Option<String>, expected: Option<String>)
    ensures
        optional_check(label, relative, expected).len() == both(relative, expected),
{
}

proof fn lemma_places(m: BundleManifest)
    ensures
        hash_checks(m).len() == artifact_count(m),
        committed_checks(m).len() == artifact_count(m) + 2 * m.traces@.len() + both(
            m.receipt_envelope_path,
            m.receipt_verify_key_path,
        ),
{
    lemma_optional_len("header"@, m.header_path, m.hashes.header);
    lemma_optional_len("tools_staticlib"@, m.tools_staticlib_path, m.hashes.tools_staticlib);
    lemma_optional_len("capsule"@, m.capsule_path, m.hashes.capsule);
    lemma_optional_len("receipt_envelope"@, m.receipt_envelope_path, m.hashes.receipt_envelope);
    lemma_optional_len(
        "receipt_verify_key"@,
        m.receipt_verify_key_path,
        m.hashes.receipt_verify_key,
    );
    lemma_traces_in_pairs(m.traces@, 0);
}

proof fn lemma_trace_places(m: BundleManifest, i: int)
    requires
        0 <= i < m.traces@.len(),
    ensures
        committed_checks(m)[artifact_count(m) + 2 * i] == trace_check(m.traces@[i])[0],
        committed_checks(m)[artifact_count(m) + 2 * i + 1] == trace_check(m.traces@[i])[1],
{
    lemma_places(m);
    lemma_traces_in_pairs(m.traces@, i);
}

// ---------------------------------------------------------------------------
// What is read
// ---------------------------------------------------------------------------
/// The action takes the digest of what the manifest path leads to, under the
/// label, and compares it with the given one.
pub open spec fn hashes(
    loaded: LoadedManifest,
    action: CommittedAction,
    label: Seq<char>,
    relative: Seq<char>,
    expected: Seq<char>,
    is_dir: bool,
) -> bool {
    &&& action matches CommittedAction::Hash { label: l, path, expected: h, is_dir: d }
    &&& l@ == label
    &&& leads(loaded.bundle_dir@, relative, path@)
    &&& h@ == expected
    &&& d == is_dir
}

/// The same for an artifact that the manifest may leave out.
pub open spec fn hashes_optional(
    loaded: LoadedManifest,
    action: CommittedAction,
    label: Seq<char>,
    relative: Option<String>,
    expected: Option<String>,
) -> bool {
    both(relative, expected) == 1 ==> hashes(
        loaded,
        action,
        label,
        relative->Some_0@,
        expected->Some_0@,
        false,
    )
}

/// The digests of the artifacts are taken first: of the library, the
/// descriptor, the header, the static library, the Rust bindings, the Python
/// bindings, the capsule, the receipt and its key, each where the manifest
/// field of that artifact leads and against the digest of that artifact. What
/// the manifest leaves out is passed over.
pub proof fn law_artifacts_are_hashed_in_order(loaded: LoadedManifest, actions: Vec<CommittedAction>)
    requires
        call_ensures(committed_actions, (&loaded,), actions),
    ensures
        ({
            let m = loaded.manifest;
            let h = both(m.header_path, m.hashes.header);
            let t = both(m.tools_staticlib_path, m.hashes.tools_staticlib);
            let c = both(m.capsule_path, m.hashes.capsule);
            let e = both(m.receipt_envelope_path, m.hashes.receipt_envelope);
            &&& hashes(
                loaded,
                actions@[0],
                "library"@,
                m.library_path@,
                m.hashes.library@,
                false,
            )
            &&& hashes(
                loaded,
                actions@[1],
                "descriptor"@,
                m.descriptor_path@,
                m.hashes.descriptor@,
                false,
            )
            &&& hashes_optional(loaded, actions@[2], "header"@, m.header_path, m.hashes.header)
            &&& hashes_optional(
                loaded,
                actions@[2 + h],
                "tools_staticlib"@,
                m.tools_staticlib_path,
                m.hashes.tools_staticlib,
            )
            &&& hashes(
                loaded,
                actions@[2 + h + t],
                "bindings_rust"@,
                m.bindings_rust_dir@,
                m.hashes.bindings_rust@,
                true,
            )
            &&& hashes(
                loaded,
                actions@[3 + h + t],
                "bindings_python"@,
                m.bindings_python_dir@,
                m.hashes.bindings_python@,
                true,
            )
            &&& hashes_optional(
                loaded,
                actions@[4 + h + t],
                "capsule"@,
                m.capsule_path,
                m.hashes.capsule,
            )
            &&& hashes_optional(
                loaded,
                actions@[4 + h + t + c],
                "receipt_envelope"@,
                m.receipt_envelope_path,
                m.hashes.receipt_envelope,
            )
            &&& hashes_optional(
                loaded,
                actions@[4 + h + t + c + e],
                "receipt_verify_key"@,
                m.receipt_verify_key_path,
                m.hashes.receipt_verify_key,
            )
        }),
{
    let m = loaded.manifest;
    let checks = committed_checks(m);
    let h = both(m.header_path, m.hashes.header);
    let t = both(m.tools_staticlib_path, m.hashes.tools_staticlib);
    let c = both(m.capsule_path, m.hashes.capsule);
    let e = both(m.receipt_envelope_path, m.hashes.receipt_envelope);
    lemma_places(m);
    lemma_artifact_places(m);
    assert(carries_out(loaded, checks[0], actions@[0]));
    assert(carries_out(loaded, checks[1], actions@[1]));
    assert(carries_out(loaded, checks[2], actions@[2]));
    assert(carries_out(loaded, checks[2 + h], actions@[2 + h]));
    assert(carries_out(loaded, checks[2 + h + t], actions@[2 + h + t]));
    assert(carries_out(loaded, checks[3 + h + t], actions@[3 + h + t]));
    if both(m.capsule_path, m.hashes.capsule) == 1 {
        assert(carries_out(loaded, checks[4 + h + t], actions@[4 + h + t]));
    }
    if e == 1 {
        assert(carries_out(loaded, checks[4 + h + t + c], actions@[4 + h + t + c]));
    }
    if both(m.receipt_verify_key_path, m.hashes.receipt_verify_key) == 1 {
        assert(carries_out(loaded, checks[4 + h + t + c + e], actions@[4 + h + t + c + e]));
    }
}

proof fn lemma_artifact_places(m: BundleManifest)
    ensures
        ({
            let checks = committed_checks(m);
            let h = both(m.header_path, m.hashes.header);
            let t = both(m.tools_staticlib_path, m.hashes.tools_staticlib);
            let c = both(m.capsule_path, m.hashes.capsule);
            let e = both(m.receipt_envelope_path, m.hashes.receipt_envelope);
            let k = both(m.receipt_verify_key_path, m.hashes.receipt_verify_key);
            &&& checks[0] == PlannedCheck::Hash {
                label: "library"@,
                relative: m.library_path@,
                expected: m.hashes.library@,
                is_dir: false,
            }
            &&& checks[1] == PlannedCheck::Hash {
                label: "descriptor"@,
                relative: m.descriptor_path@,
                expected: m.hashes.descriptor@,
                is_dir: false,
            }
            &&& h == 1 ==> checks[2] == optional_check("header"@, m.header_path, m.hashes.header)[0]
            &&& t == 1 ==> checks[2 + h] == optional_check(
                "tools_staticlib"@,
                m.tools_staticlib_path,
                m.hashes.tools_staticlib,
            )[0]
            &&& checks[2 + h + t] == PlannedCheck::Hash {
                label: "bindings_rust"@,
                relative: m.bindings_rust_dir@,
                expected: m.hashes.bindings_rust@,
                is_dir: true,
            }
            &&& checks[3 + h + t] == PlannedCheck::Hash {
                label: "bindings_python"@,
                relative: m.bindings_python_dir@,
                expected: m.hashes.bindings_python@,
                is_dir: true,
            }
            &&& c == 1 ==> checks[4 + h + t] == optional_check(
                "capsule"@,
                m.capsule_path,
                m.hashes.capsule,
            )[0]
            &&& e == 1 ==> checks[4 + h + t + c] == optional_check(
                "receipt_envelope"@,
                m.receipt_envelope_path,
                m.hashes.receipt_envelope,
            )[0]
            &&& k == 1 ==> checks[4 + h + t + c + e] == optional_check(
                "receipt_verify_key"@,
                m.receipt_verify_key_path,
                m.hashes.receipt_verify_key,
            )[0]
        }),
{
    lemma_places(m);
    let checks = committed_checks(m);
    let hashes = hash_checks(m);
    lemma_optional_len("header"@, m.header_path, m.hashes.header);
    lemma_optional_len("tools_staticlib"@, m.tools_staticlib_path, m.hashes.tools_staticlib);
    lemma_optional_len("capsule"@, m.capsule_path, m.hashes.capsule);
    lemma_optional_len("receipt_envelope"@, m.receipt_envelope_path, m.hashes.receipt_envelope);
    lemma_optional_len(
        "receipt_verify_key"@,
        m.receipt_verify_key_path,
        m.hashes.receipt_verify_key,
    );
    assert forall|i: int| 0 <= i < hashes.len() implies checks[i] == hashes[i] by {}
}

/// Behind the artifacts the traces come in the order of the manifest, each with
/// its digest before its agent, both read where the trace's own path leads; the
/// receipt comes last, read where the paths of envelope and key lead. Nothing
/// else is read.
pub proof fn law_traces_and_receipt_follow(
    loaded: LoadedManifest,
    actions: Vec<CommittedAction>,
    i: int,
)
    requires
        call_ensures(committed_actions, (&loaded,), actions),
    ensures
        ({
            let m = loaded.manifest;
            let base = artifact_count(m);
            &&& actions@.len() == base + 2 * m.traces@.len() + both(
                m.receipt_envelope_path,
                m.receipt_verify_key_path,
            )
            &&& 0 <= i < m.traces@.len() ==> hashes(
                loaded,
                actions@[base + 2 * i],
                "trace `"@ + m.traces@[i].name@ + "`"@,
                m.traces@[i].path@,
                m.traces@[i].sha256@,
                false,
            )
            &&& 0 <= i < m.traces@.len() ==> {
                &&& actions@[base + 2 * i + 1] matches CommittedAction::Trace {
                    name,
                    path,
                    expected_agent,
                }
                &&& name@ == m.traces@[i].name@
                &&& leads(loaded.bundle_dir@, m.traces@[i].path@, path@)
                &&& expected_agent@ == m.traces@[i].expected_agent@
            }
            &&& match (m.receipt_envelope_path, m.receipt_verify_key_path) {
                (Some(envelope), Some(key)) => {
                    &&& actions@[base + 2 * m.traces@.len()] matches CommittedAction::Receipt {
                        envelope_path,
                        key_path,
                    }
                    &&& leads(loaded.bundle_dir@, envelope@, envelope_path@)
                    &&& leads(loaded.bundle_dir@, key@, key_path@)
                },
                _ => true,
            }
        }),
{
    let m = loaded.manifest;
    let checks = committed_checks(m);
    let base = artifact_count(m);
    lemma_places(m);
    if 0 <= i < m.traces@.len() {
        lemma_trace_places(m, i);
        assert(carries_out(loaded, checks[base + 2 * i], actions@[base + 2 * i]));
        assert(carries_out(loaded, checks[base + 2 * i + 1], actions@[base + 2 * i + 1]));
    }
    lemma_traces_in_pairs(m.traces@, 0);
    if both(m.receipt_envelope_path, m.receipt_verify_key_path) == 1 {
        let last = base + 2 * m.traces@.len();
        assert(checks[last] == receipt_check(m)[0]);
        assert(carries_out(loaded, checks[last], actions@[last]));
    }
}

// ---------------------------------------------------------------------------
// What is accepted
// ---------------------------------------------------------------------------
/// What was read is what the action asks for: a file or a directory of the
/// expected digest, a trace whose first run is of the expected agent, or an
/// envelope that is signed with the key of the key file.
pub open spec fn satisfies(action: CommittedAction, evidence: Evidence) -> bool {
    match (action, evidence) {
        (
            CommittedAction::Hash { expected, is_dir, .. },
            Evidence::Read(Artifact::File(bytes)),
        ) => !is_dir && hex_text(sha256(bytes@)) == expected@,
        (
            CommittedAction::Hash { expected, is_dir, .. },
            Evidence::Read(Artifact::Dir(files)),
        ) => is_dir && dir_digest(file_views(files@)) == expected@,
        (
            CommittedAction::Trace { expected_agent, .. },
            Evidence::Events(events),
        ) => exists|n: int| #[trigger]
            is_first_run(events@, n) && events@[n]->agent@ == expected_agent@,
        (
            CommittedAction::Receipt { .. },
            Evidence::Receipt { envelope, key_file: Ok(bytes) },
        ) => key_bytes(bytes@) matches Some(key) && is_verifying_key(key) && is_signed(
            envelope,
            key,
        ),
        _ => false,
    }
}

proof fn lemma_satisfies(action: CommittedAction, evidence: Evidence)
    ensures
        action_passes(action, evidence) == satisfies(action, evidence),
{
    match (action, evidence) {
        (CommittedAction::Trace { expected_agent, .. }, Evidence::Events(events)) => {
            lemma_first_run(events@);
            assert forall|n: int, m: int|
                #[trigger] is_first_run(events@, n) && #[trigger] is_first_run(
                    events@,
                    m,
                ) implies n == m by {
                if n < m {
                    assert(!(events@[n] is RunStarted));
                }
                if m < n {
                    assert(!(events@[m] is RunStarted));
                }
            }
        },
        (
            CommittedAction::Receipt { .. },
            Evidence::Receipt { envelope, key_file: Ok(bytes) },
        ) => {
            lemma_verdict_by_signatures(envelope, bytes@);
        },
        _ => {},
    }
}

/// A check is satisfied exactly by what it asks for.
pub proof fn law_checks_accept_what_they_ask_for(
    action: CommittedAction,
    evidence: Evidence,
    result: Result<(), BundleError>,
)
    requires
        call_ensures(settle, (&action, &evidence), result),
    ensures
        result is Ok <==> satisfies(action, evidence),
{
    lemma_satisfies(action, evidence);
}

/// How a check that is not satisfied is reported: a reading that failed with
/// its own failure, a digest as a mismatch under the label, with the expected
/// digest before the found one and the path, another agent with the recorded
/// one before the expected one, a trace without a run as such, and a receipt
/// without signatures before its key is looked at.
pub proof fn law_unsatisfied_checks_are_reported(
    action: CommittedAction,
    evidence: Evidence,
    e: BundleError,
)
    requires
        call_ensures(settle, (&action, &evidence), Err(e)),
    ensures
        evidence matches Evidence::Failed(failure) ==> e.class == failure.class && e.message@
            == failure.message@,
        match (action, evidence) {
            (
                CommittedAction::Hash { label, path, expected, is_dir },
                Evidence::Read(Artifact::File(bytes)),
            ) => !is_dir ==> e.class == ErrorClass::HashMismatch && e.message@
                == "BundleHashMismatch: "@ + (label@ + " expected "@ + expected@ + " but found "@
                + hex_text(sha256(bytes@)) + " for `"@ + path@ + "`"@),
            (
                CommittedAction::Hash { label, path, expected, is_dir },
                Evidence::Read(Artifact::Dir(files)),
            ) => is_dir ==> e.class == ErrorClass::HashMismatch && e.message@
                == "BundleHashMismatch: "@ + (label@ + " expected "@ + expected@ + " but found "@
                + dir_digest(file_views(files@)) + " for `"@ + path@ + "`"@),
            (
                CommittedAction::Trace { name, expected_agent, .. },
                Evidence::Events(events),
            ) => {
                &&& forall|n: int| #[trigger]
                    is_first_run(events@, n) ==> e.class == ErrorClass::TraceAgentMismatch
                        && e.message@ == "BundleTraceAgentMismatch: "@ + ("trace `"@ + name@
                        + "` recorded `"@ + events@[n]->agent@ + "` but manifest expected `"@
                        + expected_agent@ + "`"@)
                &&& (forall|n: int| !#[trigger] is_first_run(events@, n)) ==> e.class
                    == ErrorClass::Other && e.message@ == "trace had no run_started event"@
            },
            (
                CommittedAction::Receipt { envelope_path, .. },
                Evidence::Receipt { envelope, key_file },
            ) => if envelope.signatures@.len() == 0 {
                &&& e.class == ErrorClass::SignatureVerifyFailed
                &&& e.message@ == "BundleSignatureVerifyFailed: "@ + ("`"@ + envelope_path@
                    + "` contains no signatures"@)
            } else {
                key_file matches Err(failure) ==> e.class == failure.class && e.message@
                    == failure.message@
            },
            _ => true,
        },
{
    reveal_strlit("");
    assert(""@ + "trace had no run_started event"@ =~= "trace had no run_started event"@);
    match (action, evidence) {
        (CommittedAction::Trace { .. }, Evidence::Events(events)) => {
            lemma_first_run(events@);
            assert forall|n: int, m: int|
                #[trigger] is_first_run(events@, n) && #[trigger] is_first_run(
                    events@,
                    m,
                ) implies n == m by {
                if n < m {
                    assert(!(events@[n] is RunStarted));
                }
                if m < n {
                    assert(!(events@[m] is RunStarted));
                }
            }
        },
        _ => {},
    }
}

/// A signed receipt whose key was read is reported as verifying its envelope
/// with that key is.
pub proof fn law_receipts_are_reported_as_their_verification(
    envelope_path: String,
    key_path: String,
    envelope: DsseEnvelope,
    bytes: Vec<u8>,
    result: Result<(), BundleError>,
    key_file: &[u8],
    envelope_name: &str,
    key_name: &str,
    verified: Result<(), BundleError>,
)
    requires
        call_ensures(
            settle,
            (
                &CommittedAction::Receipt { envelope_path, key_path },
                &Evidence::Receipt { envelope, key_file: Ok(bytes) },
            ),
            result,
        ),
        key_file@ == bytes@,
        envelope_name@ == envelope_path@,
        key_name@ == key_path@,
        call_ensures(
            verify_dsse_envelope,
            (&envelope, key_file, envelope_name, key_name),
            verified,
        ),
    ensures
        match (result, verified) {
            (Ok(_), Ok(_)) => true,
            (Err(e), Err(f)) => e.class == f.class && e.message@ == f.message@,
            _ => false,
        },
{
}

/// Evidence of another sort than the check reads is refused as such, and so is
/// evidence of another number than the checks.
pub proof fn law_unfit_evidence_is_refused(
    action: CommittedAction,
    evidence: Evidence,
    result: Result<(), BundleError>,
    loaded: LoadedManifest,
    actions: Vec<CommittedAction>,
    all: Vec<Evidence>,
    outcome: Result<(), BundleError>,
)
    requires
        call_ensures(settle, (&action, &evidence), result),
        call_ensures(committed_actions, (&loaded,), actions),
        call_ensures(verify_committed, (&loaded, &all), outcome),
    ensures
        !(evidence is Failed) && !match action {
            CommittedAction::Hash { is_dir, .. } => evidence matches Evidence::Read(artifact)
                && artifact is Dir == is_dir,
            CommittedAction::Trace { .. } => evidence is Events,
            CommittedAction::Receipt { .. } => evidence is Receipt,
        } ==> (result matches Err(e) && e.class == ErrorClass::Other && e.message@
            == "evidence does not answer the check"@),
        all@.len() != actions@.len() ==> (outcome matches Err(e) && e.class == ErrorClass::Other
            && e.message@ == "evidence does not match the checks in number"@),
{
    reveal_strlit("");
    assert(""@ + "evidence does not answer the check"@ =~= "evidence does not answer the check"@);
    assert(""@ + "evidence does not match the checks in number"@
        =~= "evidence does not match the checks in number"@);
}

/// A bundle is accepted exactly if there is evidence for every action that
/// reads for its checks, and each is satisfied.
pub proof fn law_bundles_are_accepted_check_by_check(
    loaded: LoadedManifest,
    actions: Vec<CommittedAction>,
    evidence: Vec<Evidence>,
    result: Result<(), BundleError>,
)
    requires
        call_ensures(committed_actions, (&loaded,), actions),
        call_ensures(verify_committed, (&loaded, &evidence), result),
    ensures
        result is Ok <==> evidence@.len() == actions@.len() && forall|i: int|
            0 <= i < actions@.len() ==> satisfies(#[trigger] actions@[i], evidence@[i]),
{
    let checks = committed_checks(loaded.manifest);
    if evidence@.len() == actions@.len() {
        assert forall|i: int| 0 <= i < actions@.len() implies satisfies(
            #[trigger] actions@[i],
            evidence@[i],
        ) == passes(checks[i], evidence@[i]) by {
            assert(carries_out(loaded, checks[i], actions@[i]));
            law_actions_stand_for_their_checks(loaded, checks[i], actions@[i], evidence@[i]);
            lemma_satisfies(actions@[i], evidence@[i]);
        }
        if result is Ok {
            assert forall|i: int| 0 <= i < actions@.len() implies satisfies(
                #[trigger] actions@[i],
                evidence@[i],
            ) by {
                assert(passes(checks[i], evidence@[i]));
            }
        }
        if forall|i: int|
            0 <= i < actions@.len() ==> satisfies(#[trigger] actions@[i], evidence@[i]) {
            assert forall|i: int| 0 <= i < evidence@.len() implies passes(
                checks[i],
                #[trigger] evidence@[i],
            ) by {
                assert(satisfies(actions@[i], evidence@[i]));
            }
        }
    }
}

/// A bundle that is refused is refused for the first of its checks that is not
/// satisfied: a reading that failed, or that reads another digest, or another
/// agent, is reported as such.
pub proof fn law_the_first_unsatisfied_check_is_reported(
    loaded: LoadedManifest,
    actions: Vec<CommittedAction>,
    evidence: Vec<Evidence>,
    e: BundleError,
    n: int,
)
    requires
        call_ensures(committed_actions, (&loaded,), actions),
        call_ensures(verify_committed, (&loaded, &evidence), Err(e)),
        evidence@.len() == actions@.len(),
        0 <= n < actions@.len(),
        !satisfies(actions@[n], evidence@[n]),
        forall|i: int| 0 <= i < n ==> satisfies(#[trigger] actions@[i], evidence@[i]),
    ensures
        evidence@[n] matches Evidence::Failed(failure) ==> e.class == failure.class && e.message@
            == failure.message@,
        actions@[n] is Hash && evidence@[n] is Read && (evidence@[n]->Read_0 is Dir
            == actions@[n]->is_dir) ==> e.class == ErrorClass::HashMismatch,
        evidence@[n] matches Evidence::Events(events) ==> actions@[n] is Trace && run_started(
            events@,
        ) is Some ==> e.class == ErrorClass::TraceAgentMismatch,
{
    let checks = committed_checks(loaded.manifest);
    assert forall|i: int| 0 <= i < actions@.len() implies satisfies(
        #[trigger] actions@[i],
        evidence@[i],
    ) == passes(checks[i], evidence@[i]) by {
        assert(carries_out(loaded, checks[i], actions@[i]));
        law_actions_stand_for_their_checks(loaded, checks[i], actions@[i], evidence@[i]);
        lemma_satisfies(actions@[i], evidence@[i]);
    }
    let k = choose|k: int|
        first_failing(checks, evidence@, k) && #[trigger] crate::committed::check_failure(
            loaded,
            checks[k],
            evidence@[k],
            e,
        );
    assert(k == n) by {
        if k < n {
            assert(satisfies(actions@[k], evidence@[k]));
        }
        if n < k {
            assert(passes(checks[n], evidence@[n]));
            assert(satisfies(actions@[n], evidence@[n]));
        }
    }
    assert(carries_out(loaded, checks[n], actions@[n]));
}

/// Digests, artifacts and agents are compared as they are, in the order in
/// which they are given.
pub proof fn law_single_checks_compare(
    label: &str,
    path: &str,
    actual: &str,
    expected: &str,
    compared: Result<(), BundleError>,
    artifact: Artifact,
    hashed: Result<(), BundleError>,
    events: Vec<TraceEvent>,
    named: Result<(), BundleError>,
)
    requires
        call_ensures(verify_digest, (label, path, actual, expected), compared),
        call_ensures(verify_hash, (label, path, &artifact, expected), hashed),
        call_ensures(verify_trace_agent, (label, &events, expected), named),
    ensures
        compared is Ok <==> actual@ == expected@,
        compared matches Err(e) ==> e.class == ErrorClass::HashMismatch && e.message@
            == "BundleHashMismatch: "@ + (label@ + " expected "@ + expected@ + " but found "@
            + actual@ + " for `"@ + path@ + "`"@),
        hashed is Ok <==> match artifact {
            Artifact::File(bytes) => hex_text(sha256(bytes@)) == expected@,
            Artifact::Dir(files) => dir_digest(file_views(files@)) == expected@,
        },
        hashed matches Err(e) ==> e.class == ErrorClass::HashMismatch && match artifact {
            Artifact::File(bytes) => e.message@ == "BundleHashMismatch: "@ + (label@ + " expected "@
                + expected@ + " but found "@ + hex_text(sha256(bytes@)) + " for `"@ + path@ + "`"@),
            Artifact::Dir(files) => e.message@ == "BundleHashMismatch: "@ + (label@ + " expected "@
                + expected@ + " but found "@ + dir_digest(file_views(files@)) + " for `"@ + path@
                + "`"@),
        },
        named is Ok <==> exists|n: int| #[trigger]
            is_first_run(events@, n) && events@[n]->agent@ == expected@,
{
    lemma_first_run(events@);
    assert forall|n: int, m: int|
        #[trigger] is_first_run(events@, n) && #[trigger] is_first_run(events@, m) implies n
        == m by {
        if n < m {
            assert(!(events@[n] is RunStarted));
        }
        if m < n {
            assert(!(events@[m] is RunStarted));
        }
    }
}

} // verus!
