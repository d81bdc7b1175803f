//! What an accepted bundle guarantees.
use vstd::prelude::*;
use vstd::string::*;

use crate::committed::{
    action_failure, action_passes, all_pass, carries_out, carry_out, committed_checks, first_refused,
    hash_checks, is_settlement, is_verdict, optional_check, passes, receipt_check, same_failure,
    trace_check, trace_checks, CommittedAction, Evidence, PlannedCheck,
};
use crate::dsse::DsseEnvelope;
use crate::error::BundleError;
use crate::manifest::{joined_path, BundleManifest, BundleTrace, LoadedManifest};

verus! {

/// The check is the digest check of an artifact that the manifest names
/// together with its digest.
pub open spec fn declares_hash(m: BundleManifest, check: PlannedCheck) -> bool {
    ||| check == PlannedCheck::Hash {
        label: "library"@,
        relative: m.library_path@,
        expected: m.hashes.library@,
        is_dir: false,
    }
    ||| check == PlannedCheck::Hash {
        label: "descriptor"@,
        relative: m.descriptor_path@,
        expected: m.hashes.descriptor@,
        is_dir: false,
    }
    ||| check == PlannedCheck::Hash {
        label: "bindings_rust"@,
        relative: m.bindings_rust_dir@,
        expected: m.hashes.bindings_rust@,
        is_dir: true,
    }
    ||| check == PlannedCheck::Hash {
        label: "bindings_python"@,
        relative: m.bindings_python_dir@,
        expected: m.hashes.bindings_python@,
        is_dir: true,
    }
    ||| declares_optional("header"@, m.header_path, m.hashes.header, check)
    ||| declares_optional("tools_staticlib"@, m.tools_staticlib_path, m.hashes.tools_staticlib, check)
    ||| declares_optional("capsule"@, m.capsule_path, m.hashes.capsule, check)
    ||| declares_optional(
        "receipt_envelope"@,
        m.receipt_envelope_path,
        m.hashes.receipt_envelope,
        check,
    )
    ||| declares_optional(
        "receipt_verify_key"@,
        m.receipt_verify_key_path,
        m.hashes.receipt_verify_key,
        check,
    )
}

/// The check is that of an artifact with path and digest both given.
pub open spec fn declares_optional(
    label: Seq<char>,
    relative: Option<String>,
    expected: Option<String>,
    check: PlannedCheck,
) -> bool {
    &&& relative matches Some(r)
    &&& expected matches Some(h)
    &&& check == PlannedCheck::Hash { label, relative: r@, expected: h@, is_dir: false }
}

/// The check is one of those of a trace that the manifest lists.
pub open spec fn declares_trace(traces: Seq<BundleTrace>, check: PlannedCheck) -> bool {
    exists|i: int| 0 <= i < traces.len() && (#[trigger] trace_check(traces[i])).contains(check)
}

/// The check is that of the receipt that the manifest names with its key.
pub open spec fn declares_receipt(m: BundleManifest, check: PlannedCheck) -> bool {
    &&& m.receipt_envelope_path matches Some(envelope)
    &&& m.receipt_verify_key_path matches Some(key)
    &&& check == PlannedCheck::Receipt { envelope: envelope@, key: key@ }
}

proof fn lemma_contains_concat(a: Seq<PlannedCheck>, b: Seq<PlannedCheck>, check: PlannedCheck)
    ensures
        (a + b).contains(check) <==> a.contains(check) || b.contains(check),
{
    if a.contains(check) {
        let i = choose|i: int| 0 <= i < a.len() && a[i] == check;
        assert((a + b)[i] == check);
    }
    if b.contains(check) {
        let i = choose|i: int| 0 <= i < b.len() && b[i] == check;
        assert((a + b)[a.len() + i] == check);
    }
    if (a + b).contains(check) {
        let i = choose|i: int| 0 <= i < (a + b).len() && (a + b)[i] == check;
        if i < a.len() {
            assert(a[i] == check);
        } else {
            assert(b[i - a.len()] == check);
        }
    }
}

proof fn lemma_contains_one(only: PlannedCheck, check: PlannedCheck)
    ensures
        seq![only].contains(check) <==> only == check,
{
    assert(seq![only][0] == only);
}

proof fn lemma_contains_optional(
    label: Seq<char>,
    relative: Option<String>,
    expected: Option<String>,
    check: PlannedCheck,
)
    ensures
        optional_check(label, relative, expected).contains(check) <==> declares_optional(
            label,
            relative,
            expected,
            check,
        ),
{
    match (relative, expected) {
        (Some(r), Some(h)) => {
            lemma_contains_one(
                PlannedCheck::Hash { label, relative: r@, expected: h@, is_dir: false },
                check,
            );
        },
        _ => {},
    }
}

proof fn lemma_hash_checks(m: BundleManifest, check: PlannedCheck)
    ensures
        hash_checks(m).contains(check) <==> declares_hash(m, check),
{
    let library = PlannedCheck::Hash {
        label: "library"@,
        relative: m.library_path@,
        expected: m.hashes.library@,
        is_dir: false,
    };
    let descriptor = PlannedCheck::Hash {
        label: "descriptor"@,
        relative: m.descriptor_path@,
        expected: m.hashes.descriptor@,
        is_dir: false,
    };
    let header = optional_check("header"@, m.header_path, m.hashes.header);
    let tools = optional_check(
        "tools_staticlib"@,
        m.tools_staticlib_path,
        m.hashes.tools_staticlib,
    );
    let rust = PlannedCheck::Hash {
        label: "bindings_rust"@,
        relative: m.bindings_rust_dir@,
        expected: m.hashes.bindings_rust@,
        is_dir: true,
    };
    let python = PlannedCheck::Hash {
        label: "bindings_python"@,
        relative: m.bindings_python_dir@,
        expected: m.hashes.bindings_python@,
        is_dir: true,
    };
    let capsule = optional_check("capsule"@, m.capsule_path, m.hashes.capsule);
    let envelope = optional_check(
        "receipt_envelope"@,
        m.receipt_envelope_path,
        m.hashes.receipt_envelope,
    );
    let key = optional_check(
        "receipt_verify_key"@,
        m.receipt_verify_key_path,
        m.hashes.receipt_verify_key,
    );
    let none = Seq::<PlannedCheck>::empty();
    let s1 = none + seq![library];
    let s2 = s1 + seq![descriptor];
    let s3 = s2 + header;
    let s4 = s3 + tools;
    let s5 = s4 + seq![rust];
    let s6 = s5 + seq![python];
    let s7 = s6 + capsule;
    let s8 = s7 + envelope;
    lemma_contains_concat(none, seq![library], check);
    lemma_contains_concat(s1, seq![descriptor], check);
    lemma_contains_concat(s2, header, check);
    lemma_contains_concat(s3, tools, check);
    lemma_contains_concat(s4, seq![rust], check);
    lemma_contains_concat(s5, seq![python], check);
    lemma_contains_concat(s6, capsule, check);
    lemma_contains_concat(s7, envelope, check);
    lemma_contains_concat(s8, key, check);
    lemma_contains_one(library, check);
    lemma_contains_one(descriptor, check);
    lemma_contains_one(rust, check);
    lemma_contains_one(python, check);
    lemma_contains_optional("header"@, m.header_path, m.hashes.header, check);
    lemma_contains_optional(
        "tools_staticlib"@,
        m.tools_staticlib_path,
        m.hashes.tools_staticlib,
        check,
    );
    lemma_contains_optional("capsule"@, m.capsule_path, m.hashes.capsule, check);
    lemma_contains_optional(
        "receipt_envelope"@,
        m.receipt_envelope_path,
        m.hashes.receipt_envelope,
        check,
    );
    lemma_contains_optional(
        "receipt_verify_key"@,
        m.receipt_verify_key_path,
        m.hashes.receipt_verify_key,
        check,
    );
}

proof fn lemma_trace_checks(traces: Seq<BundleTrace>, check: PlannedCheck)
    ensures
        trace_checks(traces).contains(check) <==> declares_trace(traces, check),
    decreases traces.len(),
{
    if traces.len() > 0 {
        let before = traces.drop_last();
        lemma_trace_checks(before, check);
        lemma_contains_concat(trace_checks(before), trace_check(traces.last()), check);
        if declares_trace(before, check) {
            let i = choose|i: int|
                0 <= i < before.len() && (#[trigger] trace_check(before[i])).contains(check);
            assert(trace_check(traces[i]).contains(check));
        }
        if declares_trace(traces, check) {
            let i = choose|i: int|
                0 <= i < traces.len() && (#[trigger] trace_check(traces[i])).contains(check);
            if i < before.len() {
                assert(trace_check(before[i]).contains(check));
            }
        }
        if trace_check(traces.last()).contains(check) {
            assert(trace_check(traces[traces.len() - 1]).contains(check));
        }
    }
}

/// The checks of a bundle are those that its manifest declares: the digest of
/// every artifact that has one, the digest and agent of every trace, and the
/// receipt.
pub proof fn law_checks_are_those_declared(m: BundleManifest, check: PlannedCheck)
    ensures
        committed_checks(m).contains(check) <==> declares_hash(m, check) || declares_trace(
            m.traces@,
            check,
        ) || declares_receipt(m, check),
{
    lemma_hash_checks(m, check);
    lemma_trace_checks(m.traces@, check);
    lemma_contains_concat(hash_checks(m), trace_checks(m.traces@), check);
    lemma_contains_concat(hash_checks(m) + trace_checks(m.traces@), receipt_check(m), check);
    match (m.receipt_envelope_path, m.receipt_verify_key_path) {
        (Some(envelope), Some(key)) => {
            lemma_contains_one(PlannedCheck::Receipt { envelope: envelope@, key: key@ }, check);
        },
        _ => {},
    }
}

/// In an accepted bundle everything that the manifest declares was read and
/// satisfies its check.
pub proof fn law_accepted_bundles_hold_what_they_declare(
    m: BundleManifest,
    evidence: Seq<Evidence>,
    check: PlannedCheck,
)
    requires
        all_pass(m, evidence),
        declares_hash(m, check) || declares_trace(m.traces@, check) || declares_receipt(m, check),
    ensures
        exists|i: int| 0 <= i < evidence.len() && passes(check, #[trigger] evidence[i]),
{
    law_checks_are_those_declared(m, check);
    let checks = committed_checks(m);
    let i = choose|i: int| 0 <= i < checks.len() && checks[i] == check;
    assert(passes(check, evidence[i]));
}

/// A receipt without signatures is never accepted.
pub proof fn law_unsigned_receipts_are_refused(
    check: PlannedCheck,
    envelope: DsseEnvelope,
    key_file: Result<Vec<u8>, BundleError>,
)
    requires
        envelope.signatures@.len() == 0,
    ensures
        !passes(check, Evidence::Receipt { envelope, key_file }),
{
}

// ---------------------------------------------------------------------------
// What plain verification looks at
// ---------------------------------------------------------------------------
/// Both texts are left out, or both are given and equal.
pub open spec fn same_option(left: Option<String>, right: Option<String>) -> bool {
    match (left, right) {
        (Some(l), Some(r)) => l@ == r@,
        (None, None) => true,
        _ => false,
    }
}

/// The traces have the same name, file, digest and agent. Their sources and
/// what a replay must give may differ.
pub open spec fn same_trace_files(left: Seq<BundleTrace>, right: Seq<BundleTrace>) -> bool {
    &&& left.len() == right.len()
    &&& forall|i: int|
        0 <= i < left.len() ==> {
            &&& (#[trigger] left[i]).name@ == right[i].name@
            &&& left[i].path@ == right[i].path@
            &&& left[i].sha256@ == right[i].sha256@
            &&& left[i].expected_agent@ == right[i].expected_agent@
        }
}

/// The manifests name the same artifacts with the same digests. They may
/// differ in the bundle's name, its target, its source, unknown fields, and in
/// what replays must give.
pub open spec fn same_artifacts(left: BundleManifest, right: BundleManifest) -> bool {
    &&& left.library_path@ == right.library_path@
    &&& left.descriptor_path@ == right.descriptor_path@
    &&& left.bindings_rust_dir@ == right.bindings_rust_dir@
    &&& left.bindings_python_dir@ == right.bindings_python_dir@
    &&& same_option(left.header_path, right.header_path)
    &&& same_option(left.tools_staticlib_path, right.tools_staticlib_path)
    &&& same_option(left.capsule_path, right.capsule_path)
    &&& same_option(left.receipt_envelope_path, right.receipt_envelope_path)
    &&& same_option(left.receipt_verify_key_path, right.receipt_verify_key_path)
    &&& left.hashes.library@ == right.hashes.library@
    &&& left.hashes.descriptor@ == right.hashes.descriptor@
    &&& left.hashes.bindings_rust@ == right.hashes.bindings_rust@
    &&& left.hashes.bindings_python@ == right.hashes.bindings_python@
    &&& same_option(left.hashes.header, right.hashes.header)
    &&& same_option(left.hashes.tools_staticlib, right.hashes.tools_staticlib)
    &&& same_option(left.hashes.capsule, right.hashes.capsule)
    &&& same_option(left.hashes.receipt_envelope, right.hashes.receipt_envelope)
    &&& same_option(left.hashes.receipt_verify_key, right.hashes.receipt_verify_key)
    &&& same_trace_files(left.traces@, right.traces@)
}

proof fn lemma_same_trace_checks(left: Seq<BundleTrace>, right: Seq<BundleTrace>)
    requires
        same_trace_files(left, right),
    ensures
        trace_checks(left) == trace_checks(right),
    decreases left.len(),
{
    if left.len() > 0 {
        lemma_same_trace_checks(left.drop_last(), right.drop_last());
        let n = left.len() - 1;
        assert(left[n].name@ == right[n].name@);
        assert(trace_check(left[n]) =~= trace_check(right[n]));
    }
}

/// Manifests that name the same artifacts with the same digests have the same
/// checks, whatever they say of name, target, source and replays.
pub proof fn law_checks_come_from_the_artifacts(left: BundleManifest, right: BundleManifest)
    requires
        same_artifacts(left, right),
    ensures
        committed_checks(left) == committed_checks(right),
{
    lemma_same_trace_checks(left.traces@, right.traces@);
    assert(hash_checks(left) =~= hash_checks(right));
    assert(receipt_check(left) =~= receipt_check(right));
}

proof fn lemma_same_verdicts(
    left: LoadedManifest,
    right: LoadedManifest,
    evidence: Seq<Evidence>,
    result: Result<(), BundleError>,
)
    requires
        left.bundle_dir@ == right.bundle_dir@,
        same_artifacts(left.manifest, right.manifest),
        is_verdict(left, evidence, result),
    ensures
        is_verdict(right, evidence, result),
{
    let checks = committed_checks(left.manifest);
    law_checks_come_from_the_artifacts(left.manifest, right.manifest);
    let actions = choose|actions: Seq<CommittedAction>| #[trigger]
        carry_out(left, checks, actions) && is_settlement(actions, evidence, result);
    assert forall|i: int| 0 <= i < checks.len() implies carries_out(
        right,
        #[trigger] checks[i],
        actions[i],
    ) by {
        assert(carries_out(left, checks[i], actions[i]));
    }
    assert(carry_out(right, checks, actions));
}

/// Plain verification looks at the committed artifacts and signatures only: two
/// bundles in one place that name the same artifacts with the same digests
/// come to the same result, whatever they say of name, target, source and
/// replays.
pub proof fn law_plain_verification_looks_at_artifacts_only(
    left: LoadedManifest,
    right: LoadedManifest,
    evidence: Seq<Evidence>,
    result: Result<(), BundleError>,
)
    requires
        left.bundle_dir@ == right.bundle_dir@,
        same_artifacts(left.manifest, right.manifest),
    ensures
        is_verdict(left, evidence, result) <==> is_verdict(right, evidence, result),
{
    if is_verdict(left, evidence, result) {
        lemma_same_verdicts(left, right, evidence, result);
    }
    if is_verdict(right, evidence, result) {
        assert(same_artifacts(right.manifest, left.manifest));
        lemma_same_verdicts(right, left, evidence, result);
    }
}

/// Both were accepted, or both refused with the same report.
pub open spec fn same_result(left: Result<(), BundleError>, right: Result<(), BundleError>) -> bool {
    match (left, right) {
        (Ok(_), Ok(_)) => true,
        (Err(e), Err(f)) => same_failure(e, f),
        _ => false,
    }
}

/// The actions ask for the same of the same places.
pub open spec fn same_action(left: CommittedAction, right: CommittedAction) -> bool {
    match (left, right) {
        (
            CommittedAction::Hash { label: l, path: p, expected: h, is_dir: d },
            CommittedAction::Hash { label, path, expected, is_dir },
        ) => l@ == label@ && p@ == path@ && h@ == expected@ && d == is_dir,
        (
            CommittedAction::Trace { name: n, path: p, expected_agent: a },
            CommittedAction::Trace { name, path, expected_agent },
        ) => n@ == name@ && p@ == path@ && a@ == expected_agent@,
        (
            CommittedAction::Receipt { envelope_path: e, key_path: k },
            CommittedAction::Receipt { envelope_path, key_path },
        ) => e@ == envelope_path@ && k@ == key_path@,
        _ => false,
    }
}

/// The actions ask one by one for the same of the same places.
pub open spec fn same_actions(left: Seq<CommittedAction>, right: Seq<CommittedAction>) -> bool {
    &&& left.len() == right.len()
    &&& forall|i: int| 0 <= i < left.len() ==> same_action(#[trigger] left[i], right[i])
}

/// What actions ask for and the evidence decide the result, down to the words
/// of the report.
pub proof fn law_settlements_are_determined(
    lefts: Seq<CommittedAction>,
    rights: Seq<CommittedAction>,
    evidence: Seq<Evidence>,
    first: Result<(), BundleError>,
    second: Result<(), BundleError>,
)
    requires
        same_actions(lefts, rights),
        is_settlement(lefts, evidence, first),
        is_settlement(rights, evidence, second),
    ensures
        same_result(first, second),
{
    if evidence.len() == lefts.len() {
        assert forall|i: int| 0 <= i < lefts.len() implies action_passes(
            #[trigger] lefts[i],
            evidence[i],
        ) == action_passes(rights[i], evidence[i]) by {
            assert(same_action(lefts[i], rights[i]));
        }
        lemma_refused_at_the_same_check(lefts, rights, evidence, first, second);
        if let (Err(e), Err(f)) = (first, second) {
            let n = choose|n: int|
                #![trigger first_refused(lefts, evidence, n)]
                first_refused(lefts, evidence, n) && action_failure(lefts[n], evidence[n], e)
                    && action_failure(rights[n], evidence[n], f);
            assert(same_action(lefts[n], rights[n]));
        }
    }
}

/// Actions that the same evidence satisfies are refused at the same place.
proof fn lemma_refused_at_the_same_check(
    lefts: Seq<CommittedAction>,
    rights: Seq<CommittedAction>,
    evidence: Seq<Evidence>,
    first: Result<(), BundleError>,
    second: Result<(), BundleError>,
)
    requires
        lefts.len() == rights.len(),
        evidence.len() == lefts.len(),
        is_settlement(lefts, evidence, first),
        is_settlement(rights, evidence, second),
        forall|i: int|
            0 <= i < lefts.len() ==> action_passes(#[trigger] lefts[i], evidence[i])
                == action_passes(rights[i], evidence[i]),
    ensures
        first is Ok <==> second is Ok,
        first matches Err(e) ==> second matches Err(f) ==> exists|n: int|
            #![trigger first_refused(lefts, evidence, n)]
            first_refused(lefts, evidence, n) && action_failure(lefts[n], evidence[n], e)
                && action_failure(rights[n], evidence[n], f),
{
    if let Err(e) = first {
        let n = choose|n: int| #[trigger]
            first_refused(lefts, evidence, n) && action_failure(lefts[n], evidence[n], e);
        assert(!action_passes(rights[n], evidence[n]));
        if let Err(f) = second {
            let m = choose|m: int| #[trigger]
                first_refused(rights, evidence, m) && action_failure(rights[m], evidence[m], f);
            assert(m == n) by {
                if m < n {
                    assert(action_passes(lefts[m], evidence[m]));
                }
                if n < m {
                    assert(action_passes(rights[n], evidence[n]));
                }
            }
        }
    }
    if let Err(f) = second {
        let m = choose|m: int| #[trigger]
            first_refused(rights, evidence, m) && action_failure(rights[m], evidence[m], f);
        assert(!action_passes(lefts[m], evidence[m]));
    }
}

/// The class of a report is decided by the check and the evidence.
proof fn lemma_same_class(
    left: CommittedAction,
    right: CommittedAction,
    loaded: LoadedManifest,
    other: LoadedManifest,
    check: PlannedCheck,
    evidence: Evidence,
    e: BundleError,
    f: BundleError,
)
    requires
        carries_out(loaded, check, left),
        carries_out(other, check, right),
        action_failure(left, evidence, e),
        action_failure(right, evidence, f),
    ensures
        e.class == f.class,
{
}

/// Two bundles in one place that name the same artifacts with the same digests
/// are both accepted, or both refused with a failure of the same class, even
/// if they are verified on different platforms.
pub proof fn law_verdicts_of_the_same_artifacts_agree(
    left: LoadedManifest,
    right: LoadedManifest,
    evidence: Seq<Evidence>,
    first: Result<(), BundleError>,
    second: Result<(), BundleError>,
)
    requires
        left.bundle_dir@ == right.bundle_dir@,
        same_artifacts(left.manifest, right.manifest),
        is_verdict(left, evidence, first),
        is_verdict(right, evidence, second),
    ensures
        match (first, second) {
            (Ok(_), Ok(_)) => true,
            (Err(e), Err(f)) => e.class == f.class,
            _ => false,
        },
{
    let checks = committed_checks(left.manifest);
    law_checks_come_from_the_artifacts(left.manifest, right.manifest);
    let lefts = choose|actions: Seq<CommittedAction>| #[trigger]
        carry_out(left, checks, actions) && is_settlement(actions, evidence, first);
    let rights = choose|actions: Seq<CommittedAction>| #[trigger]
        carry_out(right, checks, actions) && is_settlement(actions, evidence, second);
    if evidence.len() == checks.len() {
        assert forall|i: int| 0 <= i < checks.len() implies action_passes(
            #[trigger] lefts[i],
            evidence[i],
        ) == action_passes(rights[i], evidence[i]) by {
            assert(carries_out(left, checks[i], lefts[i]));
            assert(carries_out(right, checks[i], rights[i]));
        }
        lemma_refused_at_the_same_check(lefts, rights, evidence, first, second);
        if let (Err(e), Err(f)) = (first, second) {
            let n = choose|n: int|
                #![trigger first_refused(lefts, evidence, n)]
                first_refused(lefts, evidence, n) && action_failure(lefts[n], evidence[n], e)
                    && action_failure(rights[n], evidence[n], f);
            assert(carries_out(left, checks[n], lefts[n]));
            assert(carries_out(right, checks[n], rights[n]));
            lemma_same_class(
                lefts[n],
                rights[n],
                left,
                right,
                checks[n],
                evidence[n],
                e,
                f,
            );
        }
    }
}

/// The action reads the check's artifacts where the path rules of the platform
/// with this separator put them.
pub open spec fn is_placed_by(
    separator: char,
    dir: Seq<char>,
    check: PlannedCheck,
    action: CommittedAction,
) -> bool {
    match (check, action) {
        (
            PlannedCheck::Hash { relative, .. },
            CommittedAction::Hash { path, .. },
        ) => path@ == joined_path(separator, dir, relative),
        (
            PlannedCheck::Trace { relative, .. },
            CommittedAction::Trace { path, .. },
        ) => path@ == joined_path(separator, dir, relative),
        (
            PlannedCheck::Receipt { envelope, key },
            CommittedAction::Receipt { envelope_path, key_path },
        ) => envelope_path@ == joined_path(separator, dir, envelope) && key_path@ == joined_path(
            separator,
            dir,
            key,
        ),
        _ => false,
    }
}

/// The result is a verdict on the bundle's artifacts, all of which are found by
/// the path rules of the platform with this separator.
pub open spec fn is_verdict_on(
    separator: char,
    loaded: LoadedManifest,
    evidence: Seq<Evidence>,
    result: Result<(), BundleError>,
) -> bool {
    let checks = committed_checks(loaded.manifest);
    exists|actions: Seq<CommittedAction>|
        {
            &&& #[trigger] carry_out(loaded, checks, actions)
            &&& forall|i: int|
                0 <= i < checks.len() ==> is_placed_by(
                    separator,
                    loaded.bundle_dir@,
                    #[trigger] checks[i],
                    actions[i],
                )
            &&& is_settlement(actions, evidence, result)
        }
}

/// On one platform two bundles in one place that name the same artifacts with
/// the same digests come to the same result, down to the words of the report.
pub proof fn law_verdicts_on_one_platform_are_the_same(
    separator: char,
    left: LoadedManifest,
    right: LoadedManifest,
    evidence: Seq<Evidence>,
    first: Result<(), BundleError>,
    second: Result<(), BundleError>,
)
    requires
        left.bundle_dir@ == right.bundle_dir@,
        same_artifacts(left.manifest, right.manifest),
        is_verdict_on(separator, left, evidence, first),
        is_verdict_on(separator, right, evidence, second),
    ensures
        same_result(first, second),
{
    let checks = committed_checks(left.manifest);
    let dir = left.bundle_dir@;
    law_checks_come_from_the_artifacts(left.manifest, right.manifest);
    let lefts = choose|actions: Seq<CommittedAction>|
        {
            &&& #[trigger] carry_out(left, checks, actions)
            &&& forall|i: int|
                0 <= i < checks.len() ==> is_placed_by(
                    separator,
                    dir,
                    #[trigger] checks[i],
                    actions[i],
                )
            &&& is_settlement(actions, evidence, first)
        };
    let rights = choose|actions: Seq<CommittedAction>|
        {
            &&& #[trigger] carry_out(right, checks, actions)
            &&& forall|i: int|
                0 <= i < checks.len() ==> is_placed_by(
                    separator,
                    dir,
                    #[trigger] checks[i],
                    actions[i],
                )
            &&& is_settlement(actions, evidence, second)
        };
    assert forall|i: int| 0 <= i < lefts.len() implies same_action(
        #[trigger] lefts[i],
        rights[i],
    ) by {
        assert(carries_out(left, checks[i], lefts[i]));
        assert(carries_out(right, checks[i], rights[i]));
        assert(is_placed_by(separator, dir, checks[i], lefts[i]));
        assert(is_placed_by(separator, dir, checks[i], rights[i]));
    }
    law_settlements_are_determined(lefts, rights, evidence, first, second);
}

} // verus!
