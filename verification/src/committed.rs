//! Verification of the committed artifacts of a bundle.
//!
//! The manifest fixes a list of checks. Whoever runs the verification carries
//! out the reading that each check asks for and hands back what was read.
use vstd::prelude::*;
use vstd::string::*;

use crate::digest::{
    dir_digest, file_views, hex_text, sha256, sha256_bytes, sha256_dir, FileEntry,
};
use crate::dsse::{
    envelope_verdict, verdict_class, verdict_detail, verify_dsse_envelope, DsseEnvelope,
    EnvelopeVerdict,
};
use crate::error::{BundleError, ErrorClass};
use crate::manifest::{BundleManifest, BundleTrace, LoadedManifest};
use crate::text::same_text;
use crate::trace::{last_run_started, run_started, TraceEvent};

verus! {

// ---------------------------------------------------------------------------
// The checks
// ---------------------------------------------------------------------------
/// A check that a manifest asks for, with the paths as the manifest has them.
pub enum PlannedCheck {
    Hash { label: Seq<char>, relative: Seq<char>, expected: Seq<char>, is_dir: bool },
    Trace { name: Seq<char>, relative: Seq<char>, expected_agent: Seq<char> },
    Receipt { envelope: Seq<char>, key: Seq<char> },
}

/// A check with the places that it reads from.
#[derive(Debug)]
pub enum CommittedAction {
    Hash { label: String, path: String, expected: String, is_dir: bool },
    Trace { name: String, path: String, expected_agent: String },
    Receipt { envelope_path: String, key_path: String },
}

/// The check of a digest that the manifest may leave out.
pub open spec fn optional_check(
    label: Seq<char>,
    relative: Option<String>,
    expected: Option<String>,
) -> Seq<PlannedCheck> {
    match (relative, expected) {
        (Some(r), Some(h)) => seq![
            PlannedCheck::Hash { label, relative: r@, expected: h@, is_dir: false },
        ],
        _ => Seq::empty(),
    }
}

/// The digest checks of a manifest, in their order.
pub open spec fn hash_checks(m: BundleManifest) -> Seq<PlannedCheck> {
    Seq::empty() + seq![
        PlannedCheck::Hash {
            label: "library"@,
            relative: m.library_path@,
            expected: m.hashes.library@,
            is_dir: false,
        },
    ] + seq![
        PlannedCheck::Hash {
            label: "descriptor"@,
            relative: m.descriptor_path@,
            expected: m.hashes.descriptor@,
            is_dir: false,
        },
    ] + optional_check("header"@, m.header_path, m.hashes.header) + optional_check(
        "tools_staticlib"@,
        m.tools_staticlib_path,
        m.hashes.tools_staticlib,
    ) + seq![
        PlannedCheck::Hash {
            label: "bindings_rust"@,
            relative: m.bindings_rust_dir@,
            expected: m.hashes.bindings_rust@,
            is_dir: true,
        },
    ] + seq![
        PlannedCheck::Hash {
            label: "bindings_python"@,
            relative: m.bindings_python_dir@,
            expected: m.hashes.bindings_python@,
            is_dir: true,
        },
    ] + optional_check("capsule"@, m.capsule_path, m.hashes.capsule) + optional_check(
        "receipt_envelope"@,
        m.receipt_envelope_path,
        m.hashes.receipt_envelope,
    ) + optional_check(
        "receipt_verify_key"@,
        m.receipt_verify_key_path,
        m.hashes.receipt_verify_key,
    )
}

/// The checks of one trace: its digest, then the agent that it records.
pub open spec fn trace_check(trace: BundleTrace) -> Seq<PlannedCheck> {
    seq![
        PlannedCheck::Hash {
            label: "trace `"@ + trace.name@ + "`"@,
            relative: trace.path@,
            expected: trace.sha256@,
            is_dir: false,
        },
        PlannedCheck::Trace {
            name: trace.name@,
            relative: trace.path@,
            expected_agent: trace.expected_agent@,
        },
    ]
}

/// The checks of the traces, in their order.
pub open spec fn trace_checks(traces: Seq<BundleTrace>) -> Seq<PlannedCheck>
    decreases traces.len(),
{
    if traces.len() == 0 {
        Seq::empty()
    } else {
        trace_checks(traces.drop_last()) + trace_check(traces.last())
    }
}

/// The check of the signed receipt, if the manifest names receipt and key.
pub open spec fn receipt_check(m: BundleManifest) -> Seq<PlannedCheck> {
    match (m.receipt_envelope_path, m.receipt_verify_key_path) {
        (Some(envelope), Some(key)) => seq![
            PlannedCheck::Receipt { envelope: envelope@, key: key@ },
        ],
        _ => Seq::empty(),
    }
}

/// All checks of a manifest, in the order in which the first failure counts.
pub open spec fn committed_checks(m: BundleManifest) -> Seq<PlannedCheck> {
    hash_checks(m) + trace_checks(m.traces@) + receipt_check(m)
}

/// The action carries out the check on the loaded bundle.
pub open spec fn carries_out(
    loaded: LoadedManifest,
    check: PlannedCheck,
    action: CommittedAction,
) -> bool {
    match (check, action) {
        (
            PlannedCheck::Hash { label, relative, expected, is_dir },
            CommittedAction::Hash { label: l, path, expected: h, is_dir: d },
        ) => l@ == label && loaded.resolves(relative, path@) && h@ == expected && d == is_dir,
        (
            PlannedCheck::Trace { name, relative, expected_agent },
            CommittedAction::Trace { name: n, path, expected_agent: a },
        ) => n@ == name && loaded.resolves(relative, path@) && a@ == expected_agent,
        (
            PlannedCheck::Receipt { envelope, key },
            CommittedAction::Receipt { envelope_path, key_path },
        ) => loaded.resolves(envelope, envelope_path@) && loaded.resolves(key, key_path@),
        _ => false,
    }
}

/// The actions carry out the checks one by one.
pub open spec fn carry_out(
    loaded: LoadedManifest,
    checks: Seq<PlannedCheck>,
    actions: Seq<CommittedAction>,
) -> bool {
    &&& actions.len() == checks.len()
    &&& forall|i: int|
        0 <= i < checks.len() ==> carries_out(loaded, #[trigger] checks[i], actions[i])
}

fn push_hash(
    loaded: &LoadedManifest,
    actions: &mut Vec<CommittedAction>,
    label: &str,
    relative: &str,
    expected: &str,
    is_dir: bool,
    Ghost(checks): Ghost<Seq<PlannedCheck>>,
)
    requires
        carry_out(*loaded, checks, old(actions)@),
    ensures
        carry_out(
            *loaded,
            checks + seq![
                PlannedCheck::Hash {
                    label: label@,
                    relative: relative@,
                    expected: expected@,
                    is_dir,
                },
            ],
            final(actions)@,
        ),
{
    let path: String = loaded.resolve(relative);
    actions.push(
        CommittedAction::Hash {
            label: String::from_str(label),
            path,
            expected: String::from_str(expected),
            is_dir,
        },
    );
}

fn push_optional(
    loaded: &LoadedManifest,
    actions: &mut Vec<CommittedAction>,
    label: &str,
    relative: &Option<String>,
    expected: &Option<String>,
    Ghost(checks): Ghost<Seq<PlannedCheck>>,
)
    requires
        carry_out(*loaded, checks, old(actions)@),
    ensures
        carry_out(*loaded, checks + optional_check(label@, *relative, *expected), final(actions)@),
{
    match (relative, expected) {
        (Some(relative), Some(expected)) => {
            push_hash(
                loaded,
                actions,
                label,
                relative.as_str(),
                expected.as_str(),
                false,
                Ghost(checks),
            );
        },
        _ => {
            proof {
                assert(checks + optional_check(label@, *relative, *expected) =~= checks);
            }
        },
    }
}

fn push_trace(
    loaded: &LoadedManifest,
    actions: &mut Vec<CommittedAction>,
    trace: &BundleTrace,
    Ghost(checks): Ghost<Seq<PlannedCheck>>,
)
    requires
        carry_out(*loaded, checks, old(actions)@),
    ensures
        carry_out(*loaded, checks + trace_check(*trace), final(actions)@),
{
    let mut label: String = String::from_str("trace `");
    label.append(trace.name.as_str());
    label.append("`");
    push_hash(
        loaded,
        actions,
        label.as_str(),
        trace.path.as_str(),
        trace.sha256.as_str(),
        false,
        Ghost(checks),
    );
    let path: String = loaded.resolve(trace.path.as_str());
    actions.push(
        CommittedAction::Trace {
            name: trace.name.clone(),
            path,
            expected_agent: trace.expected_agent.clone(),
        },
    );
    proof {
        let both = trace_check(*trace);
        assert(checks + both =~= (checks + seq![both[0]]) + seq![both[1]]);
    }
}

/// The actions that carry out the digest checks of a bundle.
fn hash_actions(loaded: &LoadedManifest) -> (actions: Vec<CommittedAction>)
    ensures
        carry_out(*loaded, hash_checks(loaded.manifest), actions@),
{
    let m: &BundleManifest = &loaded.manifest;
    let mut actions: Vec<CommittedAction> = Vec::new();
    let ghost mut checks: Seq<PlannedCheck> = Seq::empty();
    push_hash(
        loaded,
        &mut actions,
        "library",
        m.library_path.as_str(),
        m.hashes.library.as_str(),
        false,
        Ghost(checks),
    );
    proof {
        checks = checks + seq![
            PlannedCheck::Hash {
                label: "library"@,
                relative: m.library_path@,
                expected: m.hashes.library@,
                is_dir: false,
            },
        ];
    }
    push_hash(
        loaded,
        &mut actions,
        "descriptor",
        m.descriptor_path.as_str(),
        m.hashes.descriptor.as_str(),
        false,
        Ghost(checks),
    );
    proof {
        checks = checks + seq![
            PlannedCheck::Hash {
                label: "descriptor"@,
                relative: m.descriptor_path@,
                expected: m.hashes.descriptor@,
                is_dir: false,
            },
        ];
    }
    push_optional(
        loaded,
        &mut actions,
        "header",
        &m.header_path,
        &m.hashes.header,
        Ghost(checks),
    );
    proof {
        checks = checks + optional_check("header"@, m.header_path, m.hashes.header);
    }
    push_optional(
        loaded,
        &mut actions,
        "tools_staticlib",
        &m.tools_staticlib_path,
        &m.hashes.tools_staticlib,
        Ghost(checks),
    );
    proof {
        checks = checks + optional_check(
            "tools_staticlib"@,
            m.tools_staticlib_path,
            m.hashes.tools_staticlib,
        );
    }
    push_hash(
        loaded,
        &mut actions,
        "bindings_rust",
        m.bindings_rust_dir.as_str(),
        m.hashes.bindings_rust.as_str(),
        true,
        Ghost(checks),
    );
    proof {
        checks = checks + seq![
            PlannedCheck::Hash {
                label: "bindings_rust"@,
                relative: m.bindings_rust_dir@,
                expected: m.hashes.bindings_rust@,
                is_dir: true,
            },
        ];
    }
    push_hash(
        loaded,
        &mut actions,
        "bindings_python",
        m.bindings_python_dir.as_str(),
        m.hashes.bindings_python.as_str(),
        true,
        Ghost(checks),
    );
    proof {
        checks = checks + seq![
            PlannedCheck::Hash {
                label: "bindings_python"@,
                relative: m.bindings_python_dir@,
                expected: m.hashes.bindings_python@,
                is_dir: true,
            },
        ];
    }
    push_optional(
        loaded,
        &mut actions,
        "capsule",
        &m.capsule_path,
        &m.hashes.capsule,
        Ghost(checks),
    );
    proof {
        checks = checks + optional_check("capsule"@, m.capsule_path, m.hashes.capsule);
    }
    push_optional(
        loaded,
        &mut actions,
        "receipt_envelope",
        &m.receipt_envelope_path,
        &m.hashes.receipt_envelope,
        Ghost(checks),
    );
    proof {
        checks = checks + optional_check(
            "receipt_envelope"@,
            m.receipt_envelope_path,
            m.hashes.receipt_envelope,
        );
    }
    push_optional(
        loaded,
        &mut actions,
        "receipt_verify_key",
        &m.receipt_verify_key_path,
        &m.hashes.receipt_verify_key,
        Ghost(checks),
    );
    actions
}

/// The actions that carry out the checks of a bundle.
pub fn committed_actions(loaded: &LoadedManifest) -> (actions: Vec<CommittedAction>)
    ensures
        carry_out(*loaded, committed_checks(loaded.manifest), actions@),
{
    let m: &BundleManifest = &loaded.manifest;
    let mut actions: Vec<CommittedAction> = hash_actions(loaded);
    let ghost hashes: Seq<PlannedCheck> = hash_checks(loaded.manifest);
    let mut i: usize = 0;
    proof {
        assert(hashes + trace_checks(m.traces@.take(0)) =~= hashes);
    }
    while i < m.traces.len()
        invariant
            i <= m.traces@.len(),
            m == loaded.manifest,
            carry_out(*loaded, hashes + trace_checks(m.traces@.take(i as int)), actions@),
        decreases m.traces@.len() - i,
    {
        push_trace(
            loaded,
            &mut actions,
            &m.traces[i],
            Ghost(hashes + trace_checks(m.traces@.take(i as int))),
        );
        proof {
            let done = m.traces@.take(i + 1);
            assert(done.drop_last() =~= m.traces@.take(i as int));
            assert(hashes + trace_checks(done) =~= hashes + trace_checks(m.traces@.take(i as int))
                + trace_check(m.traces@[i as int]));
        }
        i = i + 1;
    }
    proof {
        assert(m.traces@.take(i as int) =~= m.traces@);
    }
    match (loaded.receipt_envelope_path(), loaded.receipt_verify_key_path()) {
        (Some(envelope_path), Some(key_path)) => {
            actions.push(CommittedAction::Receipt { envelope_path, key_path });
        },
        _ => {},
    }
    actions
}

// ---------------------------------------------------------------------------
// The evidence
// ---------------------------------------------------------------------------
/// What is reported of evidence of another sort than a check asks for.
pub const UNFIT_EVIDENCE: &'static str = "evidence does not answer the check";

/// What is reported of evidence that is not one piece for each check.
pub const UNFIT_COUNT: &'static str = "evidence does not match the checks in number";

/// A committed artifact that was read.
#[derive(Debug)]
pub enum Artifact {
    File(Vec<u8>),
    Dir(Vec<FileEntry>),
}

/// What came of the reading that a check asks for. The events of a trace are
/// handed over once its schema was found to be supported.
#[derive(Debug)]
pub enum Evidence {
    Read(Artifact),
    Events(Vec<TraceEvent>),
    Receipt { envelope: DsseEnvelope, key_file: Result<Vec<u8>, BundleError> },
    Failed(BundleError),
}

/// The digest of an artifact.
pub open spec fn artifact_digest(artifact: Artifact) -> Seq<char> {
    match artifact {
        Artifact::File(bytes) => hex_text(sha256(bytes@)),
        Artifact::Dir(files) => dir_digest(file_views(files@)),
    }
}

/// The evidence satisfies the check.
pub open spec fn passes(check: PlannedCheck, evidence: Evidence) -> bool {
    match (check, evidence) {
        (
            PlannedCheck::Hash { expected, is_dir, .. },
            Evidence::Read(artifact),
        ) => artifact is Dir == is_dir && artifact_digest(artifact) == expected,
        (PlannedCheck::Trace { expected_agent, .. }, Evidence::Events(events)) => run_started(
            events@,
        ) matches Some(run) && run.0@ == expected_agent,
        (
            PlannedCheck::Receipt { .. },
            Evidence::Receipt { envelope, key_file },
        ) => key_file matches Ok(bytes) && envelope_verdict(envelope, bytes@) is Verified,
        _ => false,
    }
}

/// How a digest that is not the committed one is reported.
pub open spec fn hash_detail(
    label: Seq<char>,
    expected: Seq<char>,
    actual: Seq<char>,
    path: Seq<char>,
) -> Seq<char> {
    label + " expected "@ + expected + " but found "@ + actual + " for `"@ + path + "`"@
}

/// How a trace of another agent is reported.
pub open spec fn agent_detail(
    name: Seq<char>,
    recorded: Seq<char>,
    expected: Seq<char>,
) -> Seq<char> {
    "trace `"@ + name + "` recorded `"@ + recorded + "` but manifest expected `"@ + expected + "`"@
}

/// The errors are of one class and say the same.
pub open spec fn same_failure(left: BundleError, right: BundleError) -> bool {
    left.class == right.class && left.message@ == right.message@
}

/// How a receipt that is refused is reported, for the places it was read from.
pub open spec fn receipt_failure(
    envelope: DsseEnvelope,
    key_file: Result<Vec<u8>, BundleError>,
    envelope_path: Seq<char>,
    key_path: Seq<char>,
    e: BundleError,
) -> bool {
    if envelope.signatures@.len() == 0 {
        e.says(
            verdict_class(EnvelopeVerdict::NoSignatures),
            verdict_detail(EnvelopeVerdict::NoSignatures, envelope_path, key_path),
        )
    } else {
        match key_file {
            Err(failure) => same_failure(e, failure),
            Ok(bytes) => e.says(
                verdict_class(envelope_verdict(envelope, bytes@)),
                verdict_detail(envelope_verdict(envelope, bytes@), envelope_path, key_path),
            ),
        }
    }
}

/// The evidence satisfies the action's check.
pub open spec fn action_passes(action: CommittedAction, evidence: Evidence) -> bool {
    match (action, evidence) {
        (
            CommittedAction::Hash { expected, is_dir, .. },
            Evidence::Read(artifact),
        ) => artifact is Dir == is_dir && artifact_digest(artifact) == expected@,
        (CommittedAction::Trace { expected_agent, .. }, Evidence::Events(events)) => run_started(
            events@,
        ) matches Some(run) && run.0@ == expected_agent@,
        (
            CommittedAction::Receipt { .. },
            Evidence::Receipt { envelope, key_file },
        ) => key_file matches Ok(bytes) && envelope_verdict(envelope, bytes@) is Verified,
        _ => false,
    }
}

/// `e` reports that the evidence does not satisfy the action's check, or is of
/// another sort than the check asks for.
pub open spec fn action_failure(
    action: CommittedAction,
    evidence: Evidence,
    e: BundleError,
) -> bool {
    match (action, evidence) {
        (_, Evidence::Failed(failure)) => same_failure(e, failure),
        (
            CommittedAction::Hash { label, path, expected, is_dir },
            Evidence::Read(artifact),
        ) => if artifact is Dir == is_dir {
            e.says(
                ErrorClass::HashMismatch,
                hash_detail(label@, expected@, artifact_digest(artifact), path@),
            )
        } else {
            e.says(ErrorClass::Other, UNFIT_EVIDENCE@)
        },
        (
            CommittedAction::Trace { name, expected_agent, .. },
            Evidence::Events(events),
        ) => match run_started(events@) {
            None => e.says(ErrorClass::Other, "trace had no run_started event"@),
            Some(run) => e.says(
                ErrorClass::TraceAgentMismatch,
                agent_detail(name@, run.0@, expected_agent@),
            ),
        },
        (
            CommittedAction::Receipt { envelope_path, key_path },
            Evidence::Receipt { envelope, key_file },
        ) => receipt_failure(envelope, key_file, envelope_path@, key_path@, e),
        _ => e.says(ErrorClass::Other, UNFIT_EVIDENCE@),
    }
}

/// `e` reports that the evidence does not satisfy the check on the bundle.
pub open spec fn check_failure(
    loaded: LoadedManifest,
    check: PlannedCheck,
    evidence: Evidence,
    e: BundleError,
) -> bool {
    exists|action: CommittedAction| #[trigger]
        carries_out(loaded, check, action) && action_failure(action, evidence, e)
}

/// Check `n` is the first that the evidence does not satisfy.
pub open spec fn first_failing(
    checks: Seq<PlannedCheck>,
    evidence: Seq<Evidence>,
    n: int,
) -> bool {
    &&& 0 <= n < checks.len()
    &&& !passes(checks[n], evidence[n])
    &&& forall|m: int| 0 <= m < n ==> passes(#[trigger] checks[m], evidence[m])
}

/// Action `n` is the first whose check the evidence does not satisfy.
pub open spec fn first_refused(
    actions: Seq<CommittedAction>,
    evidence: Seq<Evidence>,
    n: int,
) -> bool {
    &&& 0 <= n < actions.len()
    &&& !action_passes(actions[n], evidence[n])
    &&& forall|m: int| 0 <= m < n ==> action_passes(#[trigger] actions[m], evidence[m])
}

/// The evidence holds one piece for each check of the manifest, and satisfies
/// every one.
pub open spec fn all_pass(m: BundleManifest, evidence: Seq<Evidence>) -> bool {
    &&& evidence.len() == committed_checks(m).len()
    &&& forall|i: int|
        0 <= i < evidence.len() ==> passes(committed_checks(m)[i], #[trigger] evidence[i])
}

/// The result is that of settling the actions in their order: acceptance when
/// there is evidence for each and every check is satisfied, otherwise the
/// report of the first that is not.
pub open spec fn is_settlement(
    actions: Seq<CommittedAction>,
    evidence: Seq<Evidence>,
    result: Result<(), BundleError>,
) -> bool {
    if evidence.len() != actions.len() {
        result matches Err(e) && e.says(ErrorClass::Other, UNFIT_COUNT@)
    } else {
        match result {
            Ok(_) => forall|i: int|
                0 <= i < actions.len() ==> action_passes(#[trigger] actions[i], evidence[i]),
            Err(e) => exists|n: int| #[trigger]
                first_refused(actions, evidence, n) && action_failure(actions[n], evidence[n], e),
        }
    }
}

/// The result is that of settling the bundle's checks, each carried out at the
/// place that the manifest names for it.
pub open spec fn is_verdict(
    loaded: LoadedManifest,
    evidence: Seq<Evidence>,
    result: Result<(), BundleError>,
) -> bool {
    exists|actions: Seq<CommittedAction>| #[trigger]
        carry_out(loaded, committed_checks(loaded.manifest), actions) && is_settlement(
            actions,
            evidence,
            result,
        )
}

fn same_error(failure: &BundleError) -> (e: BundleError)
    ensures
        same_failure(e, *failure),
{
    BundleError { class: failure.class, message: failure.message.clone() }
}

/// Accepts a digest that is the committed one.
pub fn verify_digest(label: &str, path: &str, actual: &str, expected: &str) -> (result: Result<
    (),
    BundleError,
>)
    ensures
        match result {
            Ok(_) => actual@ == expected@,
            Err(e) => actual@ != expected@ && e.says(
                ErrorClass::HashMismatch,
                hash_detail(label@, expected@, actual@, path@),
            ),
        },
{
    if same_text(actual, expected) {
        return Ok(());
    }
    let mut detail: String = String::from_str(label);
    detail.append(" expected ");
    detail.append(expected);
    detail.append(" but found ");
    detail.append(actual);
    detail.append(" for `");
    detail.append(path);
    detail.append("`");
    Err(BundleError::new(ErrorClass::HashMismatch, detail.as_str()))
}

/// Accepts an artifact that has the committed digest.
pub fn verify_hash(label: &str, path: &str, artifact: &Artifact, expected: &str) -> (result: Result<
    (),
    BundleError,
>)
    ensures
        match result {
            Ok(_) => artifact_digest(*artifact) == expected@,
            Err(e) => artifact_digest(*artifact) != expected@ && e.says(
                ErrorClass::HashMismatch,
                hash_detail(label@, expected@, artifact_digest(*artifact), path@),
            ),
        },
{
    let actual: String = match artifact {
        Artifact::File(bytes) => sha256_bytes(bytes.as_slice()),
        Artifact::Dir(files) => sha256_dir(files),
    };
    verify_digest(label, path, actual.as_str(), expected)
}

/// Accepts a trace whose first run is of the expected agent.
pub fn verify_trace_agent(name: &str, events: &Vec<TraceEvent>, expected_agent: &str) -> (result:
    Result<(), BundleError>)
    ensures
        match run_started(events@) {
            None => result matches Err(e) && e.says(
                ErrorClass::Other,
                "trace had no run_started event"@,
            ),
            Some(run) => match result {
                Ok(_) => run.0@ == expected_agent@,
                Err(e) => run.0@ != expected_agent@ && e.says(
                    ErrorClass::TraceAgentMismatch,
                    agent_detail(name@, run.0@, expected_agent@),
                ),
            },
        },
{
    let agent: &String = match last_run_started(events) {
        Ok((agent, _)) => agent,
        Err(e) => {
            return Err(e);
        },
    };
    if same_text(agent.as_str(), expected_agent) {
        return Ok(());
    }
    let mut detail: String = String::from_str("trace `");
    detail.append(name);
    detail.append("` recorded `");
    detail.append(agent.as_str());
    detail.append("` but manifest expected `");
    detail.append(expected_agent);
    detail.append("`");
    Err(BundleError::new(ErrorClass::TraceAgentMismatch, detail.as_str()))
}

/// Accepts a signed receipt. A receipt without signatures is refused before
/// its key file is looked at.
fn verify_receipt(
    envelope: &DsseEnvelope,
    key_file: &Result<Vec<u8>, BundleError>,
    envelope_path: &str,
    key_path: &str,
) -> (result: Result<(), BundleError>)
    ensures
        match result {
            Ok(_) => *key_file matches Ok(bytes) && envelope_verdict(*envelope, bytes@) is Verified,
            Err(e) => !(*key_file matches Ok(bytes) && envelope_verdict(*envelope, bytes@) is Verified)
                && receipt_failure(*envelope, *key_file, envelope_path@, key_path@, e),
        },
{
    match key_file {
        Ok(bytes) => verify_dsse_envelope(envelope, bytes.as_slice(), envelope_path, key_path),
        Err(failure) => if envelope.signatures.len() == 0 {
            verify_dsse_envelope(envelope, &[], envelope_path, key_path)
        } else {
            Err(same_error(failure))
        },
    }
}

/// Settles one check with the evidence for it.
pub fn settle(action: &CommittedAction, evidence: &Evidence) -> (result: Result<(), BundleError>)
    ensures
        match result {
            Ok(_) => action_passes(*action, *evidence),
            Err(e) => !action_passes(*action, *evidence) && action_failure(*action, *evidence, e),
        },
{
    match (action, evidence) {
        (_, Evidence::Failed(failure)) => Err(same_error(failure)),
        (CommittedAction::Hash { label, path, expected, is_dir }, Evidence::Read(artifact)) => {
            let read_dir: bool = match artifact {
                Artifact::Dir(_) => true,
                Artifact::File(_) => false,
            };
            if read_dir != *is_dir {
                return Err(BundleError::new(ErrorClass::Other, UNFIT_EVIDENCE));
            }
            verify_hash(label.as_str(), path.as_str(), artifact, expected.as_str())
        },
        (CommittedAction::Trace { name, expected_agent, .. }, Evidence::Events(events)) => {
            verify_trace_agent(name.as_str(), events, expected_agent.as_str())
        },
        (
            CommittedAction::Receipt { envelope_path, key_path },
            Evidence::Receipt { envelope, key_file },
        ) => verify_receipt(envelope, key_file, envelope_path.as_str(), key_path.as_str()),
        _ => Err(BundleError::new(ErrorClass::Other, UNFIT_EVIDENCE)),
    }
}

/// Settles the actions in their order, up to the first whose check is not
/// satisfied. `evidence` holds what came of the reading for each of them.
fn settle_all(actions: &Vec<CommittedAction>, evidence: &Vec<Evidence>) -> (result: Result<
    (),
    BundleError,
>)
    ensures
        is_settlement(actions@, evidence@, result),
{
    if evidence.len() != actions.len() {
        return Err(BundleError::new(ErrorClass::Other, UNFIT_COUNT));
    }
    let mut i: usize = 0;
    while i < actions.len()
        invariant
            i <= actions@.len(),
            evidence@.len() == actions@.len(),
            forall|k: int| 0 <= k < i ==> action_passes(#[trigger] actions@[k], evidence@[k]),
        decreases actions@.len() - i,
    {
        if let Err(e) = settle(&actions[i], &evidence[i]) {
            proof {
                assert(first_refused(actions@, evidence@, i as int));
            }
            return Err(e);
        }
        i = i + 1;
    }
    Ok(())
}

/// Verifies the committed artifacts of a bundle. `evidence` holds what came of
/// the reading for each of the bundle's checks, in their order. The bundle is
/// accepted when every check is satisfied; otherwise the first one that is not
/// is reported.
pub fn verify_committed(loaded: &LoadedManifest, evidence: &Vec<Evidence>) -> (result: Result<
    (),
    BundleError,
>)
    ensures
        is_verdict(*loaded, evidence@, result),
        result is Ok <==> all_pass(loaded.manifest, evidence@),
        result matches Err(e) ==> if evidence@.len() != committed_checks(loaded.manifest).len() {
            e.says(ErrorClass::Other, UNFIT_COUNT@)
        } else {
            exists|n: int|
                first_failing(committed_checks(loaded.manifest), evidence@, n) && #[trigger]
                check_failure(*loaded, committed_checks(loaded.manifest)[n], evidence@[n], e)
        },
{
    let actions: Vec<CommittedAction> = committed_actions(loaded);
    let result: Result<(), BundleError> = settle_all(&actions, evidence);
    proof {
        law_settlements_tell_of_the_checks(*loaded, actions@, evidence@, result);
    }
    result
}

/// An action that carries out a check is satisfied by the same evidence.
pub proof fn law_actions_stand_for_their_checks(
    loaded: LoadedManifest,
    check: PlannedCheck,
    action: CommittedAction,
    evidence: Evidence,
)
    requires
        carries_out(loaded, check, action),
    ensures
        action_passes(action, evidence) == passes(check, evidence),
{
}

/// A settlement of the actions tells which checks are satisfied.
pub proof fn law_settlements_tell_of_the_checks(
    loaded: LoadedManifest,
    actions: Seq<CommittedAction>,
    evidence: Seq<Evidence>,
    result: Result<(), BundleError>,
)
    requires
        carry_out(loaded, committed_checks(loaded.manifest), actions),
        is_settlement(actions, evidence, result),
    ensures
        result is Ok <==> all_pass(loaded.manifest, evidence),
        result matches Err(e) ==> evidence.len() == actions.len() ==> exists|n: int|
            first_failing(committed_checks(loaded.manifest), evidence, n) && #[trigger]
            check_failure(loaded, committed_checks(loaded.manifest)[n], evidence[n], e),
{
    let checks = committed_checks(loaded.manifest);
    if evidence.len() == actions.len() {
        assert forall|i: int| 0 <= i < checks.len() implies action_passes(
            #[trigger] actions[i],
            evidence[i],
        ) == passes(checks[i], evidence[i]) by {
            law_actions_stand_for_their_checks(loaded, checks[i], actions[i], evidence[i]);
        }
        match result {
            Ok(_) => {
                assert forall|i: int| 0 <= i < evidence.len() implies passes(
                    checks[i],
                    #[trigger] evidence[i],
                ) by {
                    assert(action_passes(actions[i], evidence[i]));
                }
            },
            Err(e) => {
                let n = choose|n: int| #[trigger]
                    first_refused(actions, evidence, n) && action_failure(
                        actions[n],
                        evidence[n],
                        e,
                    );
                assert(carries_out(loaded, checks[n], actions[n]));
                assert(!passes(checks[n], evidence[n]));
                assert forall|m: int| 0 <= m < n implies passes(
                    #[trigger] checks[m],
                    evidence[m],
                ) by {
                    assert(action_passes(actions[m], evidence[m]));
                }
                assert(first_failing(checks, evidence, n));
                assert(check_failure(loaded, checks[n], evidence[n], e));
            },
        }
    }
}

} // verus!
