//! The verification of a bundle from its manifest to its report, as a machine.
//!
//! A state asks for one piece of outside work; what came of it is the event
//! that leads to the next state or ends the verification with a failure. A
//! strict verification rebuilds the bundle before it checks the committed
//! artifacts, so that what the rebuild finds is reported as a rebuild mismatch.
use vstd::prelude::*;
use vstd::string::*;

use crate::committed::{
    action_failure, action_passes, carry_out, committed_actions, committed_checks, same_failure,
    settle, CommittedAction, Evidence,
};
use crate::error::{BundleError, ErrorClass};
use crate::manifest::{
    schema_detail, BundleManifest, LoadedManifest, BUNDLE_SCHEMA_VERSION,
};
use crate::rebuild;
use crate::rebuild::{RebuildAction, RebuildEvent, RebuildState};

verus! {

/// What is reported of an event that the state did not ask for.
pub const UNAWAITED_EVENT: &'static str = "event does not answer what the verification asked for";

/// How far a verification has come.
#[derive(Debug)]
pub enum VerifyState {
    Start { rebuild: bool },
    /// The bundle is being rebuilt.
    Rebuilding { loaded: LoadedManifest, state: RebuildState },
    /// The checks before `next` are satisfied.
    Checking { loaded: LoadedManifest, actions: Vec<CommittedAction>, next: usize },
    Verified { loaded: LoadedManifest },
}

/// The outside work that a state asks for.
#[derive(Debug)]
pub enum VerifyAction<'a> {
    /// Read the manifest.
    ReadManifest,
    /// Do what the rebuild asks for.
    Rebuild { action: RebuildAction },
    /// Read what the check asks for.
    Gather { action: &'a CommittedAction },
}

/// What came of the outside work.
#[derive(Debug)]
pub enum VerifyEvent {
    ManifestRead { bundle_dir: String, manifest_path: String, manifest: BundleManifest },
    Rebuilt { event: RebuildEvent },
    Gathered { evidence: Evidence },
    Failed { failure: BundleError },
}

// ---------------------------------------------------------------------------
// Transitions
// ---------------------------------------------------------------------------
/// `state` is the first of the checks of the bundle's committed artifacts.
pub open spec fn starts_checks(loaded: LoadedManifest, state: VerifyState) -> bool {
    &&& state matches VerifyState::Checking { loaded: kept, actions, next }
    &&& kept == loaded
    &&& carry_out(loaded, committed_checks(loaded.manifest), actions@)
    &&& next == 0
}

/// The event leads on from the state.
pub open spec fn accepts(state: VerifyState, event: VerifyEvent) -> bool {
    match (state, event) {
        (
            VerifyState::Start { .. },
            VerifyEvent::ManifestRead { manifest, .. },
        ) => manifest.bundle_schema_version == BUNDLE_SCHEMA_VERSION,
        (
            VerifyState::Rebuilding { loaded, state },
            VerifyEvent::Rebuilt { event },
        ) => rebuild::next_state(loaded, state, event) is Some,
        (
            VerifyState::Checking { actions, next, .. },
            VerifyEvent::Gathered { evidence },
        ) => next < actions@.len() && action_passes(actions@[next as int], evidence),
        _ => false,
    }
}

/// `next` is the state that an accepted event leads to.
pub open spec fn follows(state: VerifyState, event: VerifyEvent, next: VerifyState) -> bool {
    match (state, event) {
        (
            VerifyState::Start { rebuild },
            VerifyEvent::ManifestRead { bundle_dir, manifest_path, manifest },
        ) => {
            let loaded = LoadedManifest { bundle_dir, manifest_path, manifest };
            if rebuild {
                next == (VerifyState::Rebuilding { loaded, state: RebuildState::Start })
            } else {
                starts_checks(loaded, next)
            }
        },
        (
            VerifyState::Rebuilding { loaded, state },
            VerifyEvent::Rebuilt { event },
        ) => match rebuild::next_state(loaded, state, event) {
            Some(RebuildState::Verified) => starts_checks(loaded, next),
            Some(after) => next == (VerifyState::Rebuilding { loaded, state: after }),
            None => false,
        },
        (
            VerifyState::Checking { loaded, actions, next: checked },
            VerifyEvent::Gathered { .. },
        ) => if checked + 1 < actions@.len() {
            next == (VerifyState::Checking { loaded, actions, next: (checked + 1) as usize })
        } else {
            next == (VerifyState::Verified { loaded })
        },
        _ => false,
    }
}

/// `e` reports why the event does not lead on from the state.
pub open spec fn refuses(state: VerifyState, event: VerifyEvent, e: BundleError) -> bool {
    match (state, event) {
        (_, VerifyEvent::Failed { failure }) => same_failure(e, failure),
        (
            VerifyState::Start { .. },
            VerifyEvent::ManifestRead { manifest_path, manifest, .. },
        ) => e.says(
            ErrorClass::SchemaVersionMismatch,
            schema_detail(manifest_path@, manifest.bundle_schema_version),
        ),
        (
            VerifyState::Rebuilding { loaded, state },
            VerifyEvent::Rebuilt { event },
        ) => rebuild::step_failure(loaded, state, event, e),
        (
            VerifyState::Checking { actions, next, .. },
            VerifyEvent::Gathered { evidence },
        ) => if next < actions@.len() {
            action_failure(actions@[next as int], evidence, e)
        } else {
            e.says(ErrorClass::Other, UNAWAITED_EVENT@)
        },
        _ => e.says(ErrorClass::Other, UNAWAITED_EVENT@),
    }
}

fn enter_checks(loaded: LoadedManifest) -> (state: VerifyState)
    ensures
        starts_checks(loaded, state),
{
    let actions: Vec<CommittedAction> = committed_actions(&loaded);
    VerifyState::Checking { loaded, actions, next: 0 }
}

/// Takes the event that the state asked for. Any other event ends the
/// verification.
pub fn advance(state: VerifyState, event: VerifyEvent) -> (result: Result<
    VerifyState,
    BundleError,
>)
    ensures
        match result {
            Ok(next) => accepts(state, event) && follows(state, event, next),
            Err(e) => !accepts(state, event) && refuses(state, event, e),
        },
{
    if let VerifyEvent::Failed { failure } = event {
        return Err(failure);
    }
    match (state, event) {
        (
            VerifyState::Start { rebuild },
            VerifyEvent::ManifestRead { bundle_dir, manifest_path, manifest },
        ) => match LoadedManifest::load(bundle_dir, manifest_path, manifest) {
            Ok(loaded) => if rebuild {
                Ok(VerifyState::Rebuilding { loaded, state: RebuildState::Start })
            } else {
                Ok(enter_checks(loaded))
            },
            Err(e) => Err(e),
        },
        (
            VerifyState::Rebuilding { loaded, state },
            VerifyEvent::Rebuilt { event },
        ) => match rebuild::advance(&loaded, state, event) {
            Ok(RebuildState::Verified) => Ok(enter_checks(loaded)),
            Ok(after) => Ok(VerifyState::Rebuilding { loaded, state: after }),
            Err(e) => Err(e),
        },
        (
            VerifyState::Checking { loaded, actions, next },
            VerifyEvent::Gathered { evidence },
        ) => {
            if next >= actions.len() {
                return Err(BundleError::new(ErrorClass::Other, UNAWAITED_EVENT));
            }
            if let Err(e) = settle(&actions[next], &evidence) {
                return Err(e);
            }
            if next + 1 < actions.len() {
                Ok(VerifyState::Checking { loaded, actions, next: next + 1 })
            } else {
                Ok(VerifyState::Verified { loaded })
            }
        },
        _ => Err(BundleError::new(ErrorClass::Other, UNAWAITED_EVENT)),
    }
}

// ---------------------------------------------------------------------------
// Actions and report
// ---------------------------------------------------------------------------
/// The action is the outside work that the state of the verification asks for.
pub open spec fn asks_for(state: VerifyState, action: Option<VerifyAction>) -> bool {
    match state {
        VerifyState::Start { .. } => action == Some(VerifyAction::ReadManifest),
        VerifyState::Rebuilding { loaded, state } => match action {
            Some(VerifyAction::Rebuild { action }) => rebuild::asks_for(
                loaded,
                state,
                Some(action),
            ),
            Some(_) => false,
            None => rebuild::asks_for(loaded, state, None),
        },
        VerifyState::Checking { actions, next, .. } => if next < actions@.len() {
            action == Some(VerifyAction::Gather { action: &actions@[next as int] })
        } else {
            action is None
        },
        VerifyState::Verified { .. } => action is None,
    }
}

/// The outside work that the state asks for. A verified bundle asks for none.
pub fn next_action(state: &VerifyState) -> (action: Option<VerifyAction<'_>>)
    ensures
        asks_for(*state, action),
{
    match state {
        VerifyState::Start { .. } => Some(VerifyAction::ReadManifest),
        VerifyState::Rebuilding { loaded, state } => match rebuild::next_action(loaded, state) {
            Some(action) => Some(VerifyAction::Rebuild { action }),
            None => None,
        },
        VerifyState::Checking { actions, next, .. } => if *next < actions.len() {
            Some(VerifyAction::Gather { action: &actions[*next] })
        } else {
            None
        },
        VerifyState::Verified { .. } => None,
    }
}

/// How a verified bundle is reported.
pub open spec fn verified_text(m: BundleManifest) -> Seq<char> {
    "bundle OK: "@ + m.name@ + " ("@ + m.target_triple@ + ")"@
}

/// The line that reports a verified bundle.
pub fn verified_line(loaded: &LoadedManifest) -> (line: String)
    ensures
        line@ == verified_text(loaded.manifest),
{
    let mut line: String = String::from_str("bundle OK: ");
    line.append(loaded.manifest.name.as_str());
    line.append(" (");
    line.append(loaded.manifest.target_triple.as_str());
    line.append(")");
    line
}

/// The exit code and the report of a verification that ended in the state. Only
/// a verified bundle has one; its code is zero.
pub fn conclude(state: &VerifyState) -> (report: Option<(u8, String)>)
    ensures
        match *state {
            VerifyState::Verified { loaded } => report matches Some(given) && given.0 == 0
                && given.1@ == verified_text(loaded.manifest),
            _ => report is None,
        },
{
    match state {
        VerifyState::Verified { loaded } => Some((0, verified_line(loaded))),
        _ => None,
    }
}

} // verus!
