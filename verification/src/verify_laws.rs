//! What a verified bundle guarantees, plainly or strictly verified.
use vstd::prelude::*;
use vstd::string::*;

use crate::committed::{
    all_pass, carries_out, carry_out, committed_checks, hash_checks, is_settlement, is_verdict,
    law_actions_stand_for_their_checks, law_settlements_tell_of_the_checks, passes,
    CommittedAction, Evidence,
};
use crate::error::BundleError;
use crate::manifest::{BundleManifest, LoadedManifest, BUNDLE_SCHEMA_VERSION};
use crate::rebuild;
use crate::rebuild::{RebuildEvent, RebuildState};
use crate::rebuild_laws::{law_a_rebuild_waits_until_verified, reached, verifies};
use crate::verify::{accepts, asks_for, follows, VerifyAction, VerifyEvent, VerifyState};

verus! {

/// The states are those of a verification, one behind each event.
pub open spec fn is_run(
    rebuild: bool,
    states: Seq<VerifyState>,
    events: Seq<VerifyEvent>,
) -> bool {
    &&& states.len() == events.len() + 1
    &&& states[0] == VerifyState::Start { rebuild }
    &&& forall|i: int|
        #![trigger events[i]]
        0 <= i < events.len() ==> accepts(states[i], events[i]) && follows(
            states[i],
            events[i],
            states[i + 1],
        )
}

/// The event in which the manifest was read.
pub open spec fn manifest_read(loaded: LoadedManifest) -> VerifyEvent {
    VerifyEvent::ManifestRead {
        bundle_dir: loaded.bundle_dir,
        manifest_path: loaded.manifest_path,
        manifest: loaded.manifest,
    }
}

/// The events of a verification that reads the manifest, rebuilds, and checks
/// the committed artifacts.
pub open spec fn events_of(
    loaded: LoadedManifest,
    rebuilt: Seq<RebuildEvent>,
    evidence: Seq<Evidence>,
) -> Seq<VerifyEvent> {
    Seq::new(
        1 + rebuilt.len() + evidence.len(),
        |i: int|
            if i == 0 {
                manifest_read(loaded)
            } else if i <= rebuilt.len() {
                VerifyEvent::Rebuilt { event: rebuilt[i - 1] }
            } else {
                VerifyEvent::Gathered { evidence: evidence[i - 1 - rebuilt.len()] }
            },
    )
}

/// The rebuild that the verification asks for is verified: a plain one asks for
/// none.
pub open spec fn rebuild_accepted(
    rebuild: bool,
    loaded: LoadedManifest,
    rebuilt: Seq<RebuildEvent>,
) -> bool {
    if rebuild {
        verifies(loaded, rebuilt)
    } else {
        rebuilt.len() == 0
    }
}

/// The bundle is accepted on what was rebuilt and read: its manifest is of the
/// schema version that is read, the rebuild is verified if one is asked for,
/// and every check of the committed artifacts is satisfied.
pub open spec fn accepted(
    rebuild: bool,
    loaded: LoadedManifest,
    rebuilt: Seq<RebuildEvent>,
    evidence: Seq<Evidence>,
) -> bool {
    &&& loaded.manifest.bundle_schema_version == BUNDLE_SCHEMA_VERSION
    &&& rebuild_accepted(rebuild, loaded, rebuilt)
    &&& all_pass(loaded.manifest, evidence)
}

proof fn lemma_there_are_checks(m: BundleManifest)
    ensures
        committed_checks(m).len() > 0,
{
    assert(hash_checks(m).len() > 0);
}

proof fn lemma_reached_push(
    loaded: LoadedManifest,
    state: RebuildState,
    events: Seq<RebuildEvent>,
    event: RebuildEvent,
    i: int,
)
    requires
        0 <= i <= events.len(),
    ensures
        reached(loaded, state, events.push(event), i) == (match reached(loaded, state, events, i) {
            Some(last) => rebuild::next_state(loaded, last, event),
            None => None,
        }),
    decreases events.len() - i,
{
    let more = events.push(event);
    if i < events.len() {
        assert(more[i] == events[i]);
        if let Some(next) = rebuild::next_state(loaded, state, events[i]) {
            lemma_reached_push(loaded, next, events, event, i + 1);
        }
    } else {
        assert(more[i] == event);
        if let Some(next) = rebuild::next_state(loaded, state, event) {
            assert(reached(loaded, next, more, i + 1) == Some(next));
        }
    }
}

// ---------------------------------------------------------------------------
// Accepted bundles are verified
// ---------------------------------------------------------------------------
/// The state of an accepted verification behind `k` of its events.
spec fn is_behind(
    rebuild: bool,
    loaded: LoadedManifest,
    rebuilt: Seq<RebuildEvent>,
    k: int,
    state: VerifyState,
) -> bool {
    let checks = committed_checks(loaded.manifest);
    let checked = k - 1 - rebuilt.len();
    if k == 0 {
        state == VerifyState::Start { rebuild }
    } else if checked < 0 {
        &&& state matches VerifyState::Rebuilding { loaded: kept, state: rebuilding }
        &&& kept == loaded
        &&& reached(loaded, rebuilding, rebuilt, k - 1) == Some(RebuildState::Verified)
    } else if checked < checks.len() {
        &&& state matches VerifyState::Checking { loaded: kept, actions, next }
        &&& kept == loaded
        &&& carry_out(loaded, checks, actions@)
        &&& next == checked
    } else {
        state == VerifyState::Verified { loaded }
    }
}

proof fn lemma_accepted_step(
    rebuild: bool,
    loaded: LoadedManifest,
    rebuilt: Seq<RebuildEvent>,
    evidence: Seq<Evidence>,
    k: int,
    state: VerifyState,
)
    requires
        accepted(rebuild, loaded, rebuilt, evidence),
        0 <= k < events_of(loaded, rebuilt, evidence).len(),
        is_behind(rebuild, loaded, rebuilt, k, state),
    ensures
        accepts(state, events_of(loaded, rebuilt, evidence)[k]),
        forall|next: VerifyState|
            follows(state, events_of(loaded, rebuilt, evidence)[k], next) ==> #[trigger] is_behind(
                rebuild,
                loaded,
                rebuilt,
                k + 1,
                next,
            ),
{
    let event = events_of(loaded, rebuilt, evidence)[k];
    let checks = committed_checks(loaded.manifest);
    let checked = k - 1 - rebuilt.len();
    lemma_there_are_checks(loaded.manifest);
    if k == 0 {
        assert(event == manifest_read(loaded));
        assert(loaded == LoadedManifest {
            bundle_dir: loaded.bundle_dir,
            manifest_path: loaded.manifest_path,
            manifest: loaded.manifest,
        });
    } else if checked < 0 {
        assert(event == VerifyEvent::Rebuilt { event: rebuilt[k - 1] });
        if let VerifyState::Rebuilding { state: rebuilding, .. } = state {
            let after = rebuild::next_state(loaded, rebuilding, rebuilt[k - 1])->Some_0;
            assert(reached(loaded, after, rebuilt, k) == Some(RebuildState::Verified));
            if k < rebuilt.len() && after is Verified {
                assert(rebuild::next_state(loaded, after, rebuilt[k]) is None);
            }
        }
    } else {
        assert(event == VerifyEvent::Gathered { evidence: evidence[checked] });
        if let VerifyState::Checking { actions, .. } = state {
            assert(actions@.len() == actions.len());
            assert(carries_out(loaded, checks[checked], actions@[checked]));
            law_actions_stand_for_their_checks(
                loaded,
                checks[checked],
                actions@[checked],
                evidence[checked],
            );
            assert(passes(checks[checked], evidence[checked]));
        }
    }
}

proof fn lemma_accepted_run(
    rebuild: bool,
    loaded: LoadedManifest,
    rebuilt: Seq<RebuildEvent>,
    evidence: Seq<Evidence>,
    states: Seq<VerifyState>,
    k: int,
)
    requires
        accepted(rebuild, loaded, rebuilt, evidence),
        0 <= k < states.len() <= events_of(loaded, rebuilt, evidence).len() + 1,
        is_run(rebuild, states, events_of(loaded, rebuilt, evidence).take(states.len() - 1)),
    ensures
        is_behind(rebuild, loaded, rebuilt, k, states[k]),
    decreases k,
{
    if k > 0 {
        let events = events_of(loaded, rebuilt, evidence);
        let taken = events.take(states.len() - 1);
        lemma_accepted_run(rebuild, loaded, rebuilt, evidence, states, k - 1);
        lemma_accepted_step(rebuild, loaded, rebuilt, evidence, k - 1, states[k - 1]);
        assert(taken[k - 1] == events[k - 1]);
        assert(follows(states[k - 1], taken[k - 1], states[k]));
    }
}

/// A verification of a bundle that is to be accepted goes on with each of its
/// events, and after the last of them the bundle is verified.
pub proof fn law_accepted_bundles_are_verified(
    rebuild: bool,
    loaded: LoadedManifest,
    rebuilt: Seq<RebuildEvent>,
    evidence: Seq<Evidence>,
    states: Seq<VerifyState>,
)
    requires
        accepted(rebuild, loaded, rebuilt, evidence),
        0 < states.len() <= events_of(loaded, rebuilt, evidence).len() + 1,
        is_run(rebuild, states, events_of(loaded, rebuilt, evidence).take(states.len() - 1)),
    ensures
        states.len() <= events_of(loaded, rebuilt, evidence).len() ==> accepts(
            states.last(),
            events_of(loaded, rebuilt, evidence)[states.len() - 1],
        ),
        states.len() == events_of(loaded, rebuilt, evidence).len() + 1 ==> states.last()
            == (VerifyState::Verified { loaded }),
{
    let k = states.len() - 1;
    lemma_accepted_run(rebuild, loaded, rebuilt, evidence, states, k);
    if k < events_of(loaded, rebuilt, evidence).len() {
        lemma_accepted_step(rebuild, loaded, rebuilt, evidence, k, states[k]);
    }
}

// ---------------------------------------------------------------------------
// Verified bundles are accepted
// ---------------------------------------------------------------------------
/// What a state behind the start tells of the events that led to it.
spec fn tells(
    rebuild: bool,
    loaded: LoadedManifest,
    rebuilt: Seq<RebuildEvent>,
    evidence: Seq<Evidence>,
    state: VerifyState,
) -> bool {
    let checks = committed_checks(loaded.manifest);
    &&& loaded.manifest.bundle_schema_version == BUNDLE_SCHEMA_VERSION
    &&& match state {
        VerifyState::Start { .. } => false,
        VerifyState::Rebuilding { loaded: kept, state: rebuilding } => {
            &&& kept == loaded
            &&& rebuild
            &&& reached(loaded, RebuildState::Start, rebuilt, 0) == Some(rebuilding)
            &&& evidence.len() == 0
        },
        VerifyState::Checking { loaded: kept, actions, next } => {
            &&& kept == loaded
            &&& rebuild_accepted(rebuild, loaded, rebuilt)
            &&& carry_out(loaded, checks, actions@)
            &&& evidence.len() == next < checks.len()
            &&& forall|i: int|
                0 <= i < evidence.len() ==> passes(checks[i], #[trigger] evidence[i])
        },
        VerifyState::Verified { loaded: kept } => {
            &&& kept == loaded
            &&& rebuild_accepted(rebuild, loaded, rebuilt)
            &&& all_pass(loaded.manifest, evidence)
        },
    }
}

/// One more event tells one thing more.
proof fn lemma_tells_more(
    rebuild: bool,
    loaded: LoadedManifest,
    rebuilt: Seq<RebuildEvent>,
    evidence: Seq<Evidence>,
    state: VerifyState,
    event: VerifyEvent,
    next: VerifyState,
) -> (parts: (Seq<RebuildEvent>, Seq<Evidence>))
    requires
        tells(rebuild, loaded, rebuilt, evidence, state),
        accepts(state, event),
        follows(state, event, next),
    ensures
        tells(rebuild, loaded, parts.0, parts.1, next),
        events_of(loaded, parts.0, parts.1) == events_of(loaded, rebuilt, evidence).push(event),
{
    let checks = committed_checks(loaded.manifest);
    lemma_there_are_checks(loaded.manifest);
    match (state, event) {
        (VerifyState::Rebuilding { .. }, VerifyEvent::Rebuilt { event: step }) => {
            let more = rebuilt.push(step);
            lemma_reached_push(loaded, RebuildState::Start, rebuilt, step, 0);
            assert(events_of(loaded, more, evidence) =~= events_of(loaded, rebuilt, evidence).push(
                event,
            ));
            (more, evidence)
        },
        (
            VerifyState::Checking { actions, next: checked, .. },
            VerifyEvent::Gathered { evidence: piece },
        ) => {
            let more = evidence.push(piece);
            assert(actions@.len() == actions.len());
            assert(carries_out(loaded, checks[checked as int], actions@[checked as int]));
            law_actions_stand_for_their_checks(
                loaded,
                checks[checked as int],
                actions@[checked as int],
                piece,
            );
            assert forall|i: int| 0 <= i < more.len() implies passes(
                checks[i],
                #[trigger] more[i],
            ) by {
                if i < evidence.len() {
                    assert(more[i] == evidence[i]);
                }
            }
            assert(events_of(loaded, rebuilt, more) =~= events_of(loaded, rebuilt, evidence).push(
                event,
            ));
            (rebuilt, more)
        },
        _ => (rebuilt, evidence),
    }
}

/// The manifest that a verification read first.
spec fn loaded_by(event: VerifyEvent) -> LoadedManifest {
    match event {
        VerifyEvent::ManifestRead { bundle_dir, manifest_path, manifest } => LoadedManifest {
            bundle_dir,
            manifest_path,
            manifest,
        },
        _ => arbitrary(),
    }
}

proof fn lemma_run_tells(
    rebuild: bool,
    states: Seq<VerifyState>,
    events: Seq<VerifyEvent>,
    k: int,
) -> (parts: (Seq<RebuildEvent>, Seq<Evidence>))
    requires
        is_run(rebuild, states, events),
        1 <= k <= events.len(),
    ensures
        tells(rebuild, loaded_by(events[0]), parts.0, parts.1, states[k]),
        events_of(loaded_by(events[0]), parts.0, parts.1) == events.take(k),
    decreases k,
{
    let loaded = loaded_by(events[0]);
    assert(accepts(states[0], events[0]));
    assert(follows(states[0], events[0], states[1]));
    if k == 1 {
        lemma_there_are_checks(loaded.manifest);
        let none = Seq::<RebuildEvent>::empty();
        let nothing = Seq::<Evidence>::empty();
        assert(events_of(loaded, none, nothing) =~= events.take(1));
        (none, nothing)
    } else {
        let before = lemma_run_tells(rebuild, states, events, k - 1);
        assert(accepts(states[k - 1], events[k - 1]));
        assert(follows(states[k - 1], events[k - 1], states[k]));
        let parts = lemma_tells_more(
            rebuild,
            loaded,
            before.0,
            before.1,
            states[k - 1],
            events[k - 1],
            states[k],
        );
        assert(events.take(k) =~= events.take(k - 1).push(events[k - 1]));
        parts
    }
}

/// A verified bundle was accepted: its manifest was read, then it was rebuilt
/// if that was asked for, then every check of its committed artifacts was
/// satisfied, and nothing else was done.
pub proof fn law_verified_bundles_were_accepted(
    rebuild: bool,
    states: Seq<VerifyState>,
    events: Seq<VerifyEvent>,
    loaded: LoadedManifest,
)
    requires
        is_run(rebuild, states, events),
        states.last() == (VerifyState::Verified { loaded }),
    ensures
        exists|rebuilt: Seq<RebuildEvent>, evidence: Seq<Evidence>|
            events == #[trigger] events_of(loaded, rebuilt, evidence) && accepted(
                rebuild,
                loaded,
                rebuilt,
                evidence,
            ),
{
    assert(events.len() > 0);
    let parts = lemma_run_tells(rebuild, states, events, events.len() as int);
    assert(events.take(events.len() as int) =~= events);
    assert(events == events_of(loaded, parts.0, parts.1));
}

// ---------------------------------------------------------------------------
// Plain and strict verification
// ---------------------------------------------------------------------------
/// A strict verification adds the rebuild to the checks of a plain one: what it
/// accepts a plain one accepts on the same evidence.
pub proof fn law_strict_verification_implies_plain(
    loaded: LoadedManifest,
    rebuilt: Seq<RebuildEvent>,
    evidence: Seq<Evidence>,
)
    ensures
        accepted(true, loaded, rebuilt, evidence) <==> accepted(
            false,
            loaded,
            Seq::empty(),
            evidence,
        ) && verifies(loaded, rebuilt),
{
}

/// A bundle that a strict verification verified is also verified by a plain one
/// that reads the same of the committed artifacts.
pub proof fn law_strictly_verified_bundles_are_plainly_verified(
    states: Seq<VerifyState>,
    events: Seq<VerifyEvent>,
    loaded: LoadedManifest,
)
    requires
        is_run(true, states, events),
        states.last() == (VerifyState::Verified { loaded }),
    ensures
        exists|rebuilt: Seq<RebuildEvent>, evidence: Seq<Evidence>|
            events == #[trigger] events_of(loaded, rebuilt, evidence) && forall|
                plain: Seq<VerifyState>,
            |
                #[trigger] is_run(false, plain, events_of(loaded, Seq::empty(), evidence))
                    ==> plain.last() == (VerifyState::Verified { loaded }),
{
    law_verified_bundles_were_accepted(true, states, events, loaded);
    let (rebuilt, evidence) = choose|rebuilt: Seq<RebuildEvent>, evidence: Seq<Evidence>|
        events == #[trigger] events_of(loaded, rebuilt, evidence) && accepted(
            true,
            loaded,
            rebuilt,
            evidence,
        );
    law_strict_verification_implies_plain(loaded, rebuilt, evidence);
    let plain_events = events_of(loaded, Seq::empty(), evidence);
    assert forall|plain: Seq<VerifyState>| #[trigger]
        is_run(false, plain, plain_events) implies plain.last() == (VerifyState::Verified {
        loaded,
    }) by {
        assert(plain_events.take(plain.len() - 1) =~= plain_events);
        law_accepted_bundles_are_verified(false, loaded, Seq::empty(), evidence, plain);
    }
    assert(events == events_of(loaded, rebuilt, evidence));
}

/// A plain verification accepts a bundle exactly when its manifest is of the
/// schema version that is read and its committed artifacts are verified.
pub proof fn law_plain_verification_is_of_the_committed_artifacts(
    loaded: LoadedManifest,
    evidence: Seq<Evidence>,
    verdict: Result<(), BundleError>,
)
    requires
        is_verdict(loaded, evidence, verdict),
    ensures
        accepted(false, loaded, Seq::empty(), evidence) <==> (
        loaded.manifest.bundle_schema_version == BUNDLE_SCHEMA_VERSION && verdict is Ok),
{
    let actions = choose|actions: Seq<CommittedAction>| #[trigger]
        carry_out(loaded, committed_checks(loaded.manifest), actions) && is_settlement(
            actions,
            evidence,
            verdict,
        );
    law_settlements_tell_of_the_checks(loaded, actions, evidence, verdict);
}

// ---------------------------------------------------------------------------
// Progress
// ---------------------------------------------------------------------------
/// The state is one that a verification comes to.
pub open spec fn is_state(state: VerifyState) -> bool {
    match state {
        VerifyState::Start { .. } => true,
        VerifyState::Rebuilding { loaded, state: rebuilding } => !(rebuilding is Verified)
            && rebuild::is_state_of(loaded, rebuilding),
        VerifyState::Checking { loaded, actions, next } => carry_out(
            loaded,
            committed_checks(loaded.manifest),
            actions@,
        ) && next < actions@.len(),
        VerifyState::Verified { .. } => true,
    }
}

/// A verification asks for outside work until the bundle is verified, and goes
/// from state to state.
pub proof fn law_a_verification_waits_until_verified(
    state: VerifyState,
    action: Option<VerifyAction>,
    event: VerifyEvent,
    next: VerifyState,
)
    requires
        is_state(state),
        asks_for(state, action),
    ensures
        action is None <==> state is Verified,
        accepts(state, event) && follows(state, event, next) ==> is_state(next),
{
    match state {
        VerifyState::Rebuilding { loaded, state: rebuilding } => {
            lemma_there_are_checks(loaded.manifest);
            let asked = match action {
                Some(VerifyAction::Rebuild { action }) => Some(action),
                _ => None,
            };
            let step = match event {
                VerifyEvent::Rebuilt { event } => event,
                _ => arbitrary(),
            };
            law_a_rebuild_waits_until_verified(loaded, rebuilding, asked, step);
        },
        VerifyState::Start { .. } => {
            lemma_there_are_checks(loaded_by(event).manifest);
        },
        _ => {},
    }
}

/// Outside work that failed never leads on.
pub proof fn law_failures_end_the_verification(state: VerifyState, failure: BundleError)
    ensures
        !accepts(state, VerifyEvent::Failed { failure }),
{
}

} // verus!
