//! What of a trace is replayed, in terms of its events.
use vstd::prelude::*;
use vstd::string::*;

use crate::error::{BundleError, ErrorClass};
use crate::json::json_string;
use crate::text::{joined, joined_first};
use crate::trace::{
    arg_texts, args_json, default_seed, derive_deterministic_seed, event_model, header_time,
    last_recorded_model, last_run_started, recorded_model, run_started, TraceArg, TraceEvent,
};

verus! {

/// Event `n` is the first that starts a run.
pub open spec fn is_first_run(events: Seq<TraceEvent>, n: int) -> bool {
    &&& 0 <= n < events.len()
    &&& events[n] is RunStarted
    &&& forall|m: int| 0 <= m < n ==> !(#[trigger] events[m] is RunStarted)
}

/// The run that is found is the one that the first starting event records.
pub proof fn lemma_first_run(events: Seq<TraceEvent>)
    ensures
        run_started(events) is None <==> forall|n: int|
            0 <= n < events.len() ==> !(#[trigger] events[n] is RunStarted),
        run_started(events) matches Some(run) ==> exists|n: int| #[trigger]
            is_first_run(events, n) && events[n] == (TraceEvent::RunStarted {
                agent: run.0,
                args: run.1,
            }),
    decreases events.len(),
{
    if events.len() > 0 {
        if events[0] is RunStarted {
            assert(is_first_run(events, 0));
        } else {
            let rest = events.skip(1);
            lemma_first_run(rest);
            if let Some(run) = run_started(rest) {
                let n = choose|n: int| #[trigger]
                    is_first_run(rest, n) && rest[n] == (TraceEvent::RunStarted {
                        agent: run.0,
                        args: run.1,
                    });
                assert forall|m: int| 0 <= m < n + 1 implies !(#[trigger] events[m] is RunStarted) by {
                    if m > 0 {
                        assert(!(rest[m - 1] is RunStarted));
                    }
                }
                assert(is_first_run(events, n + 1));
            } else {
                assert forall|m: int| 0 <= m < events.len() implies !(
                #[trigger] events[m] is RunStarted) by {
                    if m > 0 {
                        assert(!(rest[m - 1] is RunStarted));
                    }
                }
            }
        }
    }
}

/// The run that is replayed is that of the first event that starts one; without
/// such an event there is none.
pub proof fn law_the_first_starting_event_is_replayed(
    events: Vec<TraceEvent>,
    result: Result<(&String, &Vec<TraceArg>), BundleError>,
)
    requires
        call_ensures(last_run_started, (&events,), result),
    ensures
        result matches Ok(run) ==> exists|n: int| #[trigger]
            is_first_run(events@, n) && events@[n] == (TraceEvent::RunStarted {
                agent: *run.0,
                args: *run.1,
            }),
        result matches Err(e) ==> {
            &&& forall|n: int| 0 <= n < events@.len() ==> !(#[trigger] events@[n] is RunStarted)
            &&& e.class == ErrorClass::Other
            &&& e.message@ == "trace had no run_started event"@
        },
{
    lemma_first_run(events@);
    if let Err(e) = result {
        reveal_strlit("");
        assert(e.message@ =~= "trace had no run_started event"@);
    }
}

/// Event `n` is the last that records a default seed.
pub open spec fn is_last_seed(events: Seq<TraceEvent>, n: int) -> bool {
    &&& 0 <= n < events.len()
    &&& is_default_seed(events[n])
    &&& forall|m: int| n < m < events.len() ==> !is_default_seed(#[trigger] events[m])
}

/// The event records the seed of the purpose `rollout_default_seed`.
pub open spec fn is_default_seed(event: TraceEvent) -> bool {
    event matches TraceEvent::SeedRead { purpose, .. } && purpose@ == "rollout_default_seed"@
}

/// Event `n` is the first schema header.
pub open spec fn is_first_header(events: Seq<TraceEvent>, n: int) -> bool {
    &&& 0 <= n < events.len()
    &&& events[n] is SchemaHeader
    &&& forall|m: int| 0 <= m < n ==> !(#[trigger] events[m] is SchemaHeader)
}

proof fn lemma_last_seed(events: Seq<TraceEvent>)
    ensures
        match default_seed(events) {
            Some(seed) => exists|n: int| #[trigger]
                is_last_seed(events, n) && events[n]->value == seed,
            None => forall|n: int| 0 <= n < events.len() ==> !is_default_seed(#[trigger] events[n]),
        },
    decreases events.len(),
{
    if events.len() > 0 {
        let before = events.drop_last();
        if is_default_seed(events.last()) {
            assert(is_last_seed(events, events.len() - 1));
        } else {
            lemma_last_seed(before);
            if let Some(seed) = default_seed(before) {
                let n = choose|n: int| #[trigger]
                    is_last_seed(before, n) && before[n]->value == seed;
                assert forall|m: int| n < m < events.len() implies !is_default_seed(
                    #[trigger] events[m],
                ) by {
                    if m < before.len() {
                        assert(!is_default_seed(before[m]));
                    }
                }
                assert(is_last_seed(events, n));
            } else {
                assert forall|n: int| 0 <= n < events.len() implies !is_default_seed(
                    #[trigger] events[n],
                ) by {
                    if n < before.len() {
                        assert(!is_default_seed(before[n]));
                    }
                }
            }
        }
    }
}

proof fn lemma_first_header(events: Seq<TraceEvent>)
    ensures
        match header_time(events) {
            Some(time) => exists|n: int| #[trigger]
                is_first_header(events, n) && events[n]->ts_ms == time,
            None => forall|n: int| 0 <= n < events.len() ==> !(#[trigger] events[n] is SchemaHeader),
        },
    decreases events.len(),
{
    if events.len() > 0 {
        if events[0] is SchemaHeader {
            assert(is_first_header(events, 0));
        } else {
            let rest = events.skip(1);
            lemma_first_header(rest);
            if let Some(time) = header_time(rest) {
                let n = choose|n: int| #[trigger]
                    is_first_header(rest, n) && rest[n]->ts_ms == time;
                assert forall|m: int| 0 <= m < n + 1 implies !(
                #[trigger] events[m] is SchemaHeader) by {
                    if m > 0 {
                        assert(!(rest[m - 1] is SchemaHeader));
                    }
                }
                assert(is_first_header(events, n + 1));
            } else {
                assert forall|m: int| 0 <= m < events.len() implies !(
                #[trigger] events[m] is SchemaHeader) by {
                    if m > 0 {
                        assert(!(rest[m - 1] is SchemaHeader));
                    }
                }
            }
        }
    }
}

/// A replay runs with the value of the last event that records a default seed;
/// where there is none, with the time of the first schema header; where there
/// is neither, with zero.
pub proof fn law_the_seed_is_recorded(events: Vec<TraceEvent>, seed: u64)
    requires
        call_ensures(derive_deterministic_seed, (&events,), seed),
    ensures
        ({
            ||| exists|n: int| #[trigger]
                is_last_seed(events@, n) && events@[n]->value == seed
            ||| {
                &&& forall|n: int|
                    0 <= n < events@.len() ==> !is_default_seed(#[trigger] events@[n])
                &&& exists|n: int| #[trigger]
                    is_first_header(events@, n) && events@[n]->ts_ms == seed
            }
            ||| {
                &&& forall|n: int|
                    0 <= n < events@.len() ==> !is_default_seed(#[trigger] events@[n])
                &&& forall|n: int|
                    0 <= n < events@.len() ==> !(#[trigger] events@[n] is SchemaHeader)
                &&& seed == 0
            }
        }),
{
    lemma_last_seed(events@);
    lemma_first_header(events@);
}

/// The event is a call of a model or its result, and names the model.
pub open spec fn names_model(event: TraceEvent) -> bool {
    ||| event matches TraceEvent::LlmCall { model } && model is Some
    ||| event matches TraceEvent::LlmResult { model } && model is Some
}

/// Event `n` names the model and none behind it names one.
pub open spec fn is_last_model(events: Seq<TraceEvent>, n: int, name: Seq<char>) -> bool {
    &&& 0 <= n < events.len()
    &&& match events[n] {
        TraceEvent::LlmCall { model } => model matches Some(given) && given@ == name,
        TraceEvent::LlmResult { model } => model matches Some(given) && given@ == name,
        _ => false,
    }
    &&& forall|m: int| n < m < events.len() ==> !names_model(#[trigger] events[m])
}

proof fn lemma_last_model(events: Seq<TraceEvent>)
    ensures
        match recorded_model(events) {
            Some(model) => exists|n: int| #[trigger] is_last_model(events, n, model@),
            None => forall|n: int| 0 <= n < events.len() ==> !names_model(#[trigger] events[n]),
        },
    decreases events.len(),
{
    if events.len() > 0 {
        let before = events.drop_last();
        if let Some(model) = event_model(events.last()) {
            assert(is_last_model(events, events.len() - 1, model@));
        } else {
            lemma_last_model(before);
            if let Some(model) = recorded_model(before) {
                let n = choose|n: int| #[trigger] is_last_model(before, n, model@);
                assert forall|m: int| n < m < events.len() implies !names_model(
                    #[trigger] events[m],
                ) by {
                    if m < before.len() {
                        assert(!names_model(before[m]));
                    }
                }
                assert(is_last_model(events, n, model@));
            } else {
                assert forall|n: int| 0 <= n < events.len() implies !names_model(
                    #[trigger] events[n],
                ) by {
                    if n < before.len() {
                        assert(!names_model(before[n]));
                    }
                }
            }
        }
    }
}

/// The model of a replay is the one that the last call or result with a model
/// names.
pub proof fn law_the_model_is_recorded(events: Vec<TraceEvent>, model: Option<&String>)
    requires
        call_ensures(last_recorded_model, (&events,), model),
    ensures
        match model {
            Some(name) => exists|n: int| #[trigger] is_last_model(events@, n, name@),
            None => forall|n: int| 0 <= n < events@.len() ==> !names_model(#[trigger] events@[n]),
        },
{
    lemma_last_model(events@);
    if let Some(found) = recorded_model(events@) {
        let n = choose|n: int| #[trigger] is_last_model(events@, n, found@);
        assert(model->Some_0@ == found@);
        assert(is_last_model(events@, n, model->Some_0@));
    }
}

proof fn lemma_joined_first_same(
    list: Seq<Seq<char>>,
    other: Seq<Seq<char>>,
    n: nat,
)
    requires
        n <= list.len(),
        n <= other.len(),
        forall|i: int| 0 <= i < n ==> list[i] == other[i],
    ensures
        joined_first(list, ","@, n) == joined_first(other, ","@, n),
    decreases n,
{
    if n > 1 {
        lemma_joined_first_same(list, other, (n - 1) as nat);
    }
}

/// The arguments are written as a JSON array: none as an empty one, and one
/// more behind a comma, unless it is the first. A string is written as a JSON
/// string, every other value as it was recorded.
pub proof fn law_arguments_are_written_as_an_array(
    args: Vec<TraceArg>,
    more: Vec<TraceArg>,
    text: String,
    longer: String,
)
    requires
        call_ensures(args_json, (&args,), text),
        call_ensures(args_json, (&more,), longer),
        more@.len() == args@.len() + 1,
        forall|i: int| 0 <= i < args@.len() ==> args@[i] == more@[i],
    ensures
        args@.len() == 0 ==> text@ == seq!['[', ']'],
        text@.len() >= 2,
        text@.first() == '[' && text@.last() == ']',
        ({
            let item = match more@.last() {
                TraceArg::Text { text } => json_string(text@),
                TraceArg::Other { json } => json@,
            };
            let comma = if args@.len() == 0 {
                Seq::<char>::empty()
            } else {
                seq![',']
            };
            longer@ == text@.drop_last() + comma + item + seq![']']
        }),
{
    reveal_strlit("[");
    reveal_strlit("]");
    reveal_strlit(",");
    let before = joined(arg_texts(args@), ","@);
    lemma_joined_first_same(arg_texts(args@), arg_texts(more@), args@.len());
    assert(text@ == "["@ + before + "]"@);
    assert("["@ =~= seq!['[']);
    assert("]"@ =~= seq![']']);
    assert(","@ =~= seq![',']);
    assert(text@.drop_last() =~= seq!['['] + before);
    if args@.len() == 0 {
        assert(text@ =~= seq!['[', ']']);
    }
    let item = match more@.last() {
        TraceArg::Text { text } => json_string(text@),
        TraceArg::Other { json } => json@,
    };
    assert(arg_texts(more@)[args@.len() as int] == item);
    let comma = if args@.len() == 0 {
        Seq::<char>::empty()
    } else {
        seq![',']
    };
    assert(joined(arg_texts(more@), ","@) =~= before + comma + item);
    assert(longer@ =~= text@.drop_last() + comma + item + seq![']']);
}

} // verus!
