//! What a verified rebuild guarantees.
use vstd::prelude::*;
use vstd::string::*;
use vstd::utf8::encode_utf8;

use crate::error::BundleError;
use crate::manifest::LoadedManifest;
use crate::platform::can_rebuild;
use crate::rebuild::{
    asks_for, is_awaited, is_state_of, next_state, replays_from, same_dirs, RebuildAction,
    RebuildEvent, RebuildState,
};
use crate::replay::replay_matches;

verus! {

/// The state that the events from number `i` on lead to, if none of them ends
/// the rebuild.
pub open spec fn reached(
    loaded: LoadedManifest,
    state: RebuildState,
    events: Seq<RebuildEvent>,
    i: int,
) -> Option<RebuildState>
    decreases events.len() - i,
{
    if i < 0 || i >= events.len() {
        Some(state)
    } else {
        match next_state(loaded, state, events[i]) {
            Some(next) => reached(loaded, next, events, i + 1),
            None => None,
        }
    }
}

/// The events lead from the start of a rebuild to its end.
pub open spec fn verifies(loaded: LoadedManifest, events: Seq<RebuildEvent>) -> bool {
    reached(loaded, RebuildState::Start, events, 0) == Some(RebuildState::Verified)
}

/// Event `i` shows that a committed file and the rebuilt one are equal.
pub open spec fn pair_agrees(events: Seq<RebuildEvent>, i: int) -> bool {
    &&& 0 <= i < events.len()
    &&& events[i] matches RebuildEvent::PairRead { committed, rebuilt }
    &&& committed@ == rebuilt@
}

/// Event `i` shows that committed and regenerated bindings have one digest.
pub open spec fn dirs_agree(events: Seq<RebuildEvent>, i: int) -> bool {
    &&& 0 <= i < events.len()
    &&& events[i] matches RebuildEvent::DirsRead { committed_files, rebuilt_files }
    &&& same_dirs(committed_files, rebuilt_files)
}

/// Event `i` shows that the trace was replayed to what the manifest expects.
pub open spec fn replay_agrees(
    loaded: LoadedManifest,
    trace: int,
    events: Seq<RebuildEvent>,
    i: int,
) -> bool {
    &&& 0 <= i < events.len()
    &&& events[i] matches RebuildEvent::Replayed { output }
    &&& replay_matches(loaded.manifest.traces@[trace], output)
}

/// From number `i` on the events are the agreeing replays of the traces from
/// `next` on.
pub open spec fn replays_agree(
    loaded: LoadedManifest,
    next: int,
    events: Seq<RebuildEvent>,
    i: int,
) -> bool {
    let count = loaded.manifest.traces@.len();
    &&& events.len() - i == count - next
    &&& forall|k: int|
        next <= k < count ==> #[trigger] replay_agrees(loaded, k, events, i + (k - next))
}

/// From number `i` on the events are the agreeing bindings and replays.
pub open spec fn projections_agree(
    loaded: LoadedManifest,
    events: Seq<RebuildEvent>,
    i: int,
) -> bool {
    dirs_agree(events, i) && dirs_agree(events, i + 1) && replays_agree(loaded, 0, events, i + 2)
}

/// The events are those of a rebuild in which everything agrees: the host, the
/// descriptor, the library, the header if there is one on both sides, the
/// bindings, and every replay.
pub open spec fn all_agree(loaded: LoadedManifest, events: Seq<RebuildEvent>) -> bool {
    &&& events.len() > 4
    &&& events[0] matches RebuildEvent::Host { arch, os }
    &&& can_rebuild(loaded.manifest.target_triple@, arch@, os@)
    &&& events[1] matches RebuildEvent::DescriptorBuilt { diagnostics, json: Some(descriptor) }
    &&& diagnostics@.len() == 0
    &&& events[2] matches RebuildEvent::FileRead { bytes }
    &&& bytes@ == encode_utf8(descriptor@)
    &&& events[3] matches RebuildEvent::LibraryBuilt {
        diagnostics: more,
        output_path: Some(_),
        header_path,
    }
    &&& more@.len() == 0
    &&& pair_agrees(events, 4)
    &&& if header_path is Some && loaded.manifest.header_path is Some {
        pair_agrees(events, 5) && projections_agree(loaded, events, 6)
    } else {
        projections_agree(loaded, events, 5)
    }
}

proof fn lemma_replays(
    loaded: LoadedManifest,
    library: String,
    next: int,
    events: Seq<RebuildEvent>,
    i: int,
)
    requires
        0 <= next <= loaded.manifest.traces@.len(),
        0 <= i <= events.len(),
    ensures
        reached(loaded, replays_from(loaded, library, next), events, i) == Some(
            RebuildState::Verified,
        ) <==> replays_agree(loaded, next, events, i),
    decreases events.len() - i,
{
    let count = loaded.manifest.traces@.len();
    assert(count == loaded.manifest.traces.len());
    if next < count && i < events.len() {
        let state = replays_from(loaded, library, next);
        assert(state == RebuildState::Replay { library, next: next as usize });
        if replay_agrees(loaded, next, events, i) {
            lemma_replays(loaded, library, next + 1, events, i + 1);
            assert(next_state(loaded, state, events[i]) == Some(
                replays_from(loaded, library, next + 1),
            ));
            if replays_agree(loaded, next + 1, events, i + 1) {
                assert forall|k: int| next <= k < count implies #[trigger] replay_agrees(
                    loaded,
                    k,
                    events,
                    i + (k - next),
                ) by {
                    if k > next {
                        assert(replay_agrees(loaded, k, events, (i + 1) + (k - (next + 1))));
                    }
                }
            }
            if replays_agree(loaded, next, events, i) {
                assert forall|k: int| next + 1 <= k < count implies #[trigger] replay_agrees(
                    loaded,
                    k,
                    events,
                    (i + 1) + (k - (next + 1)),
                ) by {
                    assert(replay_agrees(loaded, k, events, i + (k - next)));
                }
            }
        } else {
            assert(next_state(loaded, state, events[i]) is None);
            assert(!replay_agrees(loaded, next, events, i + (next - next)));
        }
    } else if next < count {
        assert(replays_from(loaded, library, next) is Replay);
    } else if i < events.len() {
        assert(next_state(loaded, RebuildState::Verified, events[i]) is None);
    }
}

proof fn lemma_projections(
    loaded: LoadedManifest,
    descriptor: String,
    library: String,
    events: Seq<RebuildEvent>,
    i: int,
)
    requires
        0 <= i <= events.len(),
    ensures
        reached(loaded, RebuildState::RustBindings { descriptor, library }, events, i) == Some(
            RebuildState::Verified,
        ) <==> projections_agree(loaded, events, i),
{
    let rust = RebuildState::RustBindings { descriptor, library };
    let python = RebuildState::PythonBindings { descriptor, library };
    if dirs_agree(events, i) {
        assert(next_state(loaded, rust, events[i]) == Some(python));
        assert(reached(loaded, rust, events, i) == reached(loaded, python, events, i + 1));
        if dirs_agree(events, i + 1) {
            let replay = replays_from(loaded, library, 0);
            assert(next_state(loaded, python, events[i + 1]) == Some(replay));
            assert(reached(loaded, python, events, i + 1) == reached(
                loaded,
                replay,
                events,
                i + 2,
            ));
            lemma_replays(loaded, library, 0, events, i + 2);
        } else if i + 1 < events.len() {
            assert(next_state(loaded, python, events[i + 1]) is None);
        }
    } else if i < events.len() {
        assert(next_state(loaded, rust, events[i]) is None);
    }
}

/// A rebuild is verified exactly when everything that it compares agrees.
pub proof fn law_verified_rebuilds_agree(loaded: LoadedManifest, events: Seq<RebuildEvent>)
    ensures
        verifies(loaded, events) <==> all_agree(loaded, events),
{
    let s0 = RebuildState::Start;
    if events.len() > 0 {
        if let Some(s1) = next_state(loaded, s0, events[0]) {
            assert(reached(loaded, s0, events, 0) == reached(loaded, s1, events, 1));
            if events.len() > 1 {
                if let Some(s2) = next_state(loaded, s1, events[1]) {
                    assert(reached(loaded, s1, events, 1) == reached(loaded, s2, events, 2));
                    if events.len() > 2 {
                        if let Some(s3) = next_state(loaded, s2, events[2]) {
                            assert(reached(loaded, s2, events, 2) == reached(
                                loaded,
                                s3,
                                events,
                                3,
                            ));
                            lemma_from_library(loaded, s3, events);
                        }
                    }
                }
            }
        }
    }
}

proof fn lemma_from_library(
    loaded: LoadedManifest,
    state: RebuildState,
    events: Seq<RebuildEvent>,
)
    requires
        events.len() > 2,
        state is Library,
    ensures
        reached(loaded, state, events, 3) == Some(RebuildState::Verified) <==> {
            &&& events.len() > 4
            &&& events[3] matches RebuildEvent::LibraryBuilt {
                diagnostics,
                output_path: Some(_),
                header_path,
            }
            &&& diagnostics@.len() == 0
            &&& pair_agrees(events, 4)
            &&& if header_path is Some && loaded.manifest.header_path is Some {
                pair_agrees(events, 5) && projections_agree(loaded, events, 6)
            } else {
                projections_agree(loaded, events, 5)
            }
        },
{
    if events.len() > 3 {
        if let Some(s4) = next_state(loaded, state, events[3]) {
            assert(reached(loaded, state, events, 3) == reached(loaded, s4, events, 4));
            if events.len() > 4 {
                if let Some(s5) = next_state(loaded, s4, events[4]) {
                    assert(reached(loaded, s4, events, 4) == reached(loaded, s5, events, 5));
                    match s5 {
                        RebuildState::HeaderBytes { descriptor, library, .. } => {
                            if events.len() > 5 {
                                if let Some(s6) = next_state(loaded, s5, events[5]) {
                                    assert(reached(loaded, s5, events, 5) == reached(
                                        loaded,
                                        s6,
                                        events,
                                        6,
                                    ));
                                    lemma_projections(loaded, descriptor, library, events, 6);
                                }
                            }
                        },
                        RebuildState::RustBindings { descriptor, library } => {
                            lemma_projections(loaded, descriptor, library, events, 5);
                        },
                        _ => {},
                    }
                }
            }
        }
    }
}

/// On a host that cannot rebuild the bundle nothing is built: the first state
/// asks only who the host is, and the answer ends the rebuild.
pub proof fn law_nothing_is_built_on_another_platform(
    loaded: LoadedManifest,
    arch: String,
    os: String,
    action: Option<RebuildAction>,
)
    requires
        !can_rebuild(loaded.manifest.target_triple@, arch@, os@),
        asks_for(loaded, RebuildState::Start, action),
    ensures
        action == Some(RebuildAction::IdentifyHost),
        next_state(loaded, RebuildState::Start, RebuildEvent::Host { arch, os }) is None,
{
}

/// Outside work that failed never leads on.
pub proof fn law_failures_end_the_rebuild(
    loaded: LoadedManifest,
    state: RebuildState,
    failure: BundleError,
)
    ensures
        next_state(loaded, state, RebuildEvent::Failed { failure }) is None,
{
}

/// Every state but the last asks for outside work, and awaits what comes of it.
pub proof fn law_a_rebuild_waits_until_verified(
    loaded: LoadedManifest,
    state: RebuildState,
    action: Option<RebuildAction>,
    event: RebuildEvent,
)
    requires
        is_state_of(loaded, state),
        asks_for(loaded, state, action),
    ensures
        action is None <==> state is Verified,
        next_state(loaded, state, event) is Some ==> is_awaited(state, event),
        next_state(loaded, state, event) matches Some(next) ==> is_state_of(loaded, next),
{
    assert(loaded.manifest.traces@.len() == loaded.manifest.traces.len());
}

} // verus!
