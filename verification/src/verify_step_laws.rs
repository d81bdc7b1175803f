//! What each step of a verification leads to, in terms of its parts.
use vstd::prelude::*;
use vstd::string::*;
use vstd::utf8::encode_utf8;

use crate::committed::{
    carries_out, committed_actions, committed_checks, settle, CommittedAction, Evidence,
};
use crate::compare::{bytes_detail, is_first_difference, law_first_difference_is_unique};
use crate::error::{BundleError, ErrorClass};
use crate::manifest::{BundleManifest, LoadedManifest};
use crate::rebuild;
use crate::rebuild::{bytes_failure, RebuildAction, RebuildEvent, RebuildState};
use crate::verify::{
    advance, conclude, next_action, verified_line, VerifyAction, VerifyEvent, VerifyState,
};

verus! {

/// The actions check the same thing for the same outcome, wherever they find it.
pub open spec fn check_alike(left: CommittedAction, right: CommittedAction) -> bool {
    match (left, right) {
        (
            CommittedAction::Hash { label: l, expected: h, is_dir: d, .. },
            CommittedAction::Hash { label, expected, is_dir, .. },
        ) => l@ == label@ && h@ == expected@ && d == is_dir,
        (
            CommittedAction::Trace { name: n, expected_agent: a, .. },
            CommittedAction::Trace { name, expected_agent, .. },
        ) => n@ == name@ && a@ == expected_agent@,
        (CommittedAction::Receipt { .. }, CommittedAction::Receipt { .. }) => true,
        _ => false,
    }
}

/// The state is before the first check of the bundle, with the checks that
/// verifying its committed artifacts has.
pub open spec fn is_before_checks(
    state: VerifyState,
    loaded: LoadedManifest,
    wanted: Seq<CommittedAction>,
) -> bool {
    &&& state matches VerifyState::Checking { loaded: kept, actions, next }
    &&& kept == loaded
    &&& next == 0
    &&& actions@.len() == wanted.len()
    &&& forall|i: int| 0 <= i < wanted.len() ==> check_alike(#[trigger] actions@[i], wanted[i])
}

proof fn lemma_before_checks(
    state: VerifyState,
    loaded: LoadedManifest,
    wanted: Vec<CommittedAction>,
)
    requires
        crate::verify::starts_checks(loaded, state),
        call_ensures(committed_actions, (&loaded,), wanted),
    ensures
        is_before_checks(state, loaded, wanted@),
{
    if let VerifyState::Checking { actions, .. } = state {
        let checks = committed_checks(loaded.manifest);
        assert forall|i: int| 0 <= i < wanted@.len() implies check_alike(
            #[trigger] actions@[i],
            wanted@[i],
        ) by {
            assert(carries_out(loaded, checks[i], actions@[i]));
            assert(carries_out(loaded, checks[i], wanted@[i]));
        }
    }
}

/// A manifest that was read is loaded or refused. A strict verification then
/// starts a rebuild, a plain one the checks of the committed artifacts.
pub proof fn law_manifests_lead_to_rebuild_or_checks(
    rebuild: bool,
    bundle_dir: String,
    manifest_path: String,
    manifest: BundleManifest,
    result: Result<VerifyState, BundleError>,
    loading: Result<LoadedManifest, BundleError>,
    wanted: Vec<CommittedAction>,
)
    requires
        call_ensures(
            advance,
            (
                VerifyState::Start { rebuild },
                VerifyEvent::ManifestRead { bundle_dir, manifest_path, manifest },
            ),
            result,
        ),
        call_ensures(LoadedManifest::load, (bundle_dir, manifest_path, manifest), loading),
        loading matches Ok(loaded) ==> call_ensures(committed_actions, (&loaded,), wanted),
    ensures
        match (result, loading) {
            (Ok(next), Ok(loaded)) => if rebuild {
                next == (VerifyState::Rebuilding { loaded, state: RebuildState::Start })
            } else {
                is_before_checks(next, loaded, wanted@)
            },
            (Err(e), Err(f)) => e.class == f.class && e.message@ == f.message@,
            _ => false,
        },
{
    match (result, loading) {
        (Ok(next), Ok(loaded)) => {
            if !rebuild {
                lemma_before_checks(next, loaded, wanted);
            }
        },
        _ => {},
    }
}

proof fn lemma_one_report(
    label: Seq<char>,
    committed: Seq<u8>,
    rebuilt: Seq<u8>,
    e: BundleError,
    f: BundleError,
)
    requires
        committed != rebuilt,
        bytes_failure(label, committed, rebuilt, e),
        bytes_failure(label, committed, rebuilt, f),
    ensures
        e.class == f.class,
        e.message@ == f.message@,
{
    let i = choose|i: int|
        #[trigger] is_first_difference(committed, rebuilt, i) && e.says(
            ErrorClass::RebuildMismatch,
            bytes_detail(label, i as nat, committed.len(), rebuilt.len()),
        );
    let j = choose|j: int|
        #[trigger] is_first_difference(committed, rebuilt, j) && f.says(
            ErrorClass::RebuildMismatch,
            bytes_detail(label, j as nat, committed.len(), rebuilt.len()),
        );
    law_first_difference_is_unique(committed, rebuilt, i, j);
}

/// A step of the rebuild leads on exactly as the rebuild does; once that is
/// verified, to the checks of the committed artifacts.
pub proof fn law_verified_rebuilds_lead_to_the_checks(
    loaded: LoadedManifest,
    state: RebuildState,
    event: RebuildEvent,
    result: Result<VerifyState, BundleError>,
    step: Result<RebuildState, BundleError>,
    wanted: Vec<CommittedAction>,
)
    requires
        call_ensures(
            advance,
            (VerifyState::Rebuilding { loaded, state }, VerifyEvent::Rebuilt { event }),
            result,
        ),
        call_ensures(rebuild::advance, (&loaded, state, event), step),
        call_ensures(committed_actions, (&loaded,), wanted),
    ensures
        match (result, step) {
            (Ok(next), Ok(after)) => if after is Verified {
                is_before_checks(next, loaded, wanted@)
            } else {
                next == (VerifyState::Rebuilding { loaded, state: after })
            },
            (Err(e), Err(f)) => e.class == f.class && e.message@ == f.message@,
            _ => false,
        },
{
    match (result, step) {
        (Ok(next), Ok(after)) => {
            if after is Verified {
                lemma_before_checks(next, loaded, wanted);
            }
        },
        (Err(e), Err(f)) => {
            match (state, event) {
                (
                    RebuildState::CommittedDescriptor { descriptor },
                    RebuildEvent::FileRead { bytes },
                ) => {
                    lemma_one_report("descriptor"@, bytes@, encode_utf8(descriptor@), e, f);
                },
                (
                    RebuildState::LibraryBytes { .. },
                    RebuildEvent::PairRead { committed, rebuilt },
                ) => {
                    lemma_one_report("library"@, committed@, rebuilt@, e, f);
                },
                (
                    RebuildState::HeaderBytes { .. },
                    RebuildEvent::PairRead { committed, rebuilt },
                ) => {
                    lemma_one_report("header"@, committed@, rebuilt@, e, f);
                },
                _ => {},
            }
        },
        _ => {},
    }
}

/// The checks are settled one after the other, none is passed over, and behind
/// the last the bundle is verified. The first that is not satisfied ends the
/// verification with its own report.
pub proof fn law_checks_are_settled_in_turn(
    loaded: LoadedManifest,
    actions: Vec<CommittedAction>,
    next: usize,
    evidence: Evidence,
    result: Result<VerifyState, BundleError>,
    settled: Result<(), BundleError>,
)
    requires
        next < actions@.len(),
        call_ensures(
            advance,
            (
                VerifyState::Checking { loaded, actions, next },
                VerifyEvent::Gathered { evidence },
            ),
            result,
        ),
        call_ensures(settle, (&actions@[next as int], &evidence), settled),
    ensures
        result is Ok <==> settled is Ok,
        result matches Ok(after) ==> if next + 1 < actions@.len() {
            after == (VerifyState::Checking { loaded, actions, next: (next + 1) as usize })
        } else {
            after == (VerifyState::Verified { loaded })
        },
        match (result, settled) {
            (Err(e), Err(f)) => e.class == f.class && e.message@ == f.message@,
            _ => true,
        },
{
    crate::committed_plan_laws::law_checks_accept_what_they_ask_for(
        actions@[next as int],
        evidence,
        settled,
    );
}

/// The actions ask for the same work, wherever they find what is committed.
pub open spec fn ask_alike(left: RebuildAction, right: RebuildAction) -> bool {
    match (left, right) {
        (RebuildAction::IdentifyHost, RebuildAction::IdentifyHost) => true,
        (RebuildAction::BuildDescriptor { .. }, RebuildAction::BuildDescriptor { .. }) => true,
        (RebuildAction::ReadFile { .. }, RebuildAction::ReadFile { .. }) => true,
        (
            RebuildAction::BuildLibrary { tools_staticlib: t, emit_header: e, .. },
            RebuildAction::BuildLibrary { tools_staticlib, emit_header, .. },
        ) => t is Some == tools_staticlib is Some && e == emit_header,
        (
            RebuildAction::ReadPair { rebuilt: r, .. },
            RebuildAction::ReadPair { rebuilt, .. },
        ) => r@ == rebuilt@,
        (
            RebuildAction::GenerateBindings { language: l, descriptor: d, .. },
            RebuildAction::GenerateBindings { language, descriptor, .. },
        ) => l == language && d@ == descriptor@,
        (
            RebuildAction::ReplayTrace { library: l, .. },
            RebuildAction::ReplayTrace { library, .. },
        ) => l@ == library@,
        _ => false,
    }
}

/// While it rebuilds, a verification asks for what the rebuild asks for.
pub proof fn law_rebuilding_asks_as_the_rebuild_does(
    loaded: LoadedManifest,
    state: RebuildState,
    action: Option<VerifyAction<'_>>,
    wanted: Option<RebuildAction>,
)
    requires
        call_ensures(next_action, (&VerifyState::Rebuilding { loaded, state },), action),
        call_ensures(rebuild::next_action, (&loaded, &state), wanted),
    ensures
        match (action, wanted) {
            (Some(given), Some(asked)) => given matches VerifyAction::Rebuild { action: inner }
                && ask_alike(inner, asked),
            (None, None) => true,
            _ => false,
        },
{
}

/// A verification asks for the manifest, then for what the rebuild asks for,
/// then for what its next check reads; and then for nothing.
pub proof fn law_verifications_ask_for_one_thing_at_a_time(
    state: VerifyState,
    action: Option<VerifyAction<'_>>,
)
    requires
        call_ensures(next_action, (&state,), action),
    ensures
        match state {
            VerifyState::Start { .. } => action == Some(VerifyAction::ReadManifest),
            VerifyState::Rebuilding { .. } => action is None || (action matches Some(
                VerifyAction::Rebuild { .. },
            )),
            VerifyState::Checking { actions, next, .. } => next < actions@.len() ==> action == Some(
                VerifyAction::Gather { action: &actions@[next as int] },
            ),
            VerifyState::Verified { .. } => action is None,
        },
{
}

/// Only a verified bundle has a report: exit code zero, and a line with its
/// name and its target.
pub proof fn law_only_verified_bundles_are_reported(
    state: VerifyState,
    report: Option<(u8, String)>,
    loaded: LoadedManifest,
    line: String,
)
    requires
        call_ensures(conclude, (&state,), report),
        call_ensures(verified_line, (&loaded,), line),
    ensures
        report is Some <==> state is Verified,
        report matches Some(given) ==> given.0 == 0,
        state matches VerifyState::Verified { loaded: found } ==> (report matches Some(given)
            && given.1@ == "bundle OK: "@ + found.manifest.name@ + " ("@
            + found.manifest.target_triple@ + ")"@),
        line@ == "bundle OK: "@ + loaded.manifest.name@ + " ("@ + loaded.manifest.target_triple@
            + ")"@,
{
}

/// Failed work, and an event that was not asked for, never lead on.
pub proof fn law_nothing_else_continues_a_verification(
    state: VerifyState,
    event: VerifyEvent,
    result: Result<VerifyState, BundleError>,
)
    requires
        call_ensures(advance, (state, event), result),
    ensures
        event matches VerifyEvent::Failed { failure } ==> (result matches Err(e) && e.class
            == failure.class && e.message@ == failure.message@),
        result is Ok ==> match event {
            VerifyEvent::ManifestRead { .. } => state is Start,
            VerifyEvent::Rebuilt { .. } => state is Rebuilding,
            VerifyEvent::Gathered { .. } => state is Checking,
            VerifyEvent::Failed { .. } => false,
        },
        !match event {
            VerifyEvent::ManifestRead { .. } => state is Start,
            VerifyEvent::Rebuilt { .. } => state is Rebuilding,
            VerifyEvent::Gathered { .. } => state matches VerifyState::Checking {
                actions,
                next,
                ..
            } && next < actions@.len(),
            VerifyEvent::Failed { .. } => true,
        } ==> (result matches Err(e) && e.class == ErrorClass::Other && e.message@
            == "event does not answer what the verification asked for"@),
{
    reveal_strlit("");
    assert(""@ + "event does not answer what the verification asked for"@
        =~= "event does not answer what the verification asked for"@);
}

} // verus!
