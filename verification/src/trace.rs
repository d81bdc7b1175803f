//! Recorded traces: what a replay needs to know of them.
use vstd::prelude::*;
use vstd::string::*;

use crate::error::{BundleError, ErrorClass};
use crate::json::{json_string, quote_json};
use crate::text::{join, joined, same_text, texts};

verus! {

/// The purpose under which a run records its default seed.
pub const DEFAULT_SEED_PURPOSE: &'static str = "rollout_default_seed";

/// An argument of a recorded run.
#[derive(Debug)]
pub enum TraceArg {
    /// A string.
    Text { text: String },
    /// Any other value, as compact JSON.
    Other { json: String },
}

/// An event of a trace, as far as verification and replay look into it.
#[derive(Debug)]
pub enum TraceEvent {
    SchemaHeader { ts_ms: u64 },
    RunStarted { agent: String, args: Vec<TraceArg> },
    SeedRead { purpose: String, value: u64 },
    LlmCall { model: Option<String> },
    LlmResult { model: Option<String> },
    Other,
}

/// The agent and arguments of the first run that the events record.
pub open spec fn run_started(events: Seq<TraceEvent>) -> Option<(String, Vec<TraceArg>)>
    decreases events.len(),
{
    if events.len() == 0 {
        None
    } else {
        match events[0] {
            TraceEvent::RunStarted { agent, args } => Some((agent, args)),
            _ => run_started(events.skip(1)),
        }
    }
}

/// The last default seed that the events record.
pub open spec fn default_seed(events: Seq<TraceEvent>) -> Option<u64>
    decreases events.len(),
{
    if events.len() == 0 {
        None
    } else {
        match events.last() {
            TraceEvent::SeedRead { purpose, value } => if purpose@ == DEFAULT_SEED_PURPOSE@ {
                Some(value)
            } else {
                default_seed(events.drop_last())
            },
            _ => default_seed(events.drop_last()),
        }
    }
}

/// The time of the first schema header.
pub open spec fn header_time(events: Seq<TraceEvent>) -> Option<u64>
    decreases events.len(),
{
    if events.len() == 0 {
        None
    } else {
        match events[0] {
            TraceEvent::SchemaHeader { ts_ms } => Some(ts_ms),
            _ => header_time(events.skip(1)),
        }
    }
}

/// The seed that a replay of the events runs with.
pub open spec fn replay_seed(events: Seq<TraceEvent>) -> u64 {
    match default_seed(events) {
        Some(seed) => seed,
        None => match header_time(events) {
            Some(time) => time,
            None => 0,
        },
    }
}

/// The model that an event names.
pub open spec fn event_model(event: TraceEvent) -> Option<String> {
    match event {
        TraceEvent::LlmCall { model } => model,
        TraceEvent::LlmResult { model } => model,
        _ => None,
    }
}

/// The last model that the events name.
pub open spec fn recorded_model(events: Seq<TraceEvent>) -> Option<String>
    decreases events.len(),
{
    if events.len() == 0 {
        None
    } else {
        match event_model(events.last()) {
            Some(model) => Some(model),
            None => recorded_model(events.drop_last()),
        }
    }
}

/// An argument as compact JSON.
pub open spec fn arg_json(arg: TraceArg) -> Seq<char> {
    match arg {
        TraceArg::Text { text } => json_string(text@),
        TraceArg::Other { json } => json@,
    }
}

/// The JSON texts of the arguments.
pub open spec fn arg_texts(args: Seq<TraceArg>) -> Seq<Seq<char>> {
    Seq::new(args.len(), |i: int| arg_json(args[i]))
}

/// The arguments as one JSON array.
pub open spec fn args_array(args: Seq<TraceArg>) -> Seq<char> {
    "["@ + joined(arg_texts(args), ","@) + "]"@
}

/// The run that a trace is replayed from: the first that it records.
pub fn last_run_started(events: &Vec<TraceEvent>) -> (result: Result<
    (&String, &Vec<TraceArg>),
    BundleError,
>)
    ensures
        match run_started(events@) {
            Some(run) => result matches Ok(found) && *found.0 == run.0 && *found.1 == run.1,
            None => result matches Err(e) && e.says(
                ErrorClass::Other,
                "trace had no run_started event"@,
            ),
        },
{
    let mut i: usize = 0;
    proof {
        assert(events@.skip(0) =~= events@);
    }
    while i < events.len()
        invariant
            i <= events@.len(),
            run_started(events@) == run_started(events@.skip(i as int)),
        decreases events@.len() - i,
    {
        if let TraceEvent::RunStarted { agent, args } = &events[i] {
            return Ok((agent, args));
        }
        proof {
            assert(events@.skip(i as int).skip(1) =~= events@.skip(i + 1));
        }
        i = i + 1;
    }
    Err(BundleError::new(ErrorClass::Other, "trace had no run_started event"))
}

/// The seed that a replay runs with: the last recorded default seed, without
/// one the time of the schema header, without either zero.
pub fn derive_deterministic_seed(events: &Vec<TraceEvent>) -> (seed: u64)
    ensures
        seed == replay_seed(events@),
{
    let mut i: usize = events.len();
    proof {
        assert(events@.take(i as int) =~= events@);
    }
    while i > 0
        invariant
            i <= events@.len(),
            default_seed(events@) == default_seed(events@.take(i as int)),
        decreases i,
    {
        proof {
            assert(events@.take(i as int).drop_last() =~= events@.take(i - 1));
        }
        i = i - 1;
        if let TraceEvent::SeedRead { purpose, value } = &events[i] {
            if same_text(purpose.as_str(), DEFAULT_SEED_PURPOSE) {
                return *value;
            }
        }
    }
    proof {
        assert(events@.skip(0) =~= events@);
    }
    while i < events.len()
        invariant
            i <= events@.len(),
            default_seed(events@) is None,
            header_time(events@) == header_time(events@.skip(i as int)),
        decreases events@.len() - i,
    {
        if let TraceEvent::SchemaHeader { ts_ms } = &events[i] {
            return *ts_ms;
        }
        proof {
            assert(events@.skip(i as int).skip(1) =~= events@.skip(i + 1));
        }
        i = i + 1;
    }
    0
}

/// The model that a replay runs with: the last one recorded.
pub fn last_recorded_model(events: &Vec<TraceEvent>) -> (model: Option<&String>)
    ensures
        match recorded_model(events@) {
            Some(name) => model == Some(&name),
            None => model is None,
        },
{
    let mut i: usize = events.len();
    proof {
        assert(events@.take(i as int) =~= events@);
    }
    while i > 0
        invariant
            i <= events@.len(),
            recorded_model(events@) == recorded_model(events@.take(i as int)),
        decreases i,
    {
        proof {
            assert(events@.take(i as int).drop_last() =~= events@.take(i - 1));
        }
        i = i - 1;
        match &events[i] {
            TraceEvent::LlmCall { model: Some(model) } => {
                return Some(model);
            },
            TraceEvent::LlmResult { model: Some(model) } => {
                return Some(model);
            },
            _ => {},
        }
    }
    None
}

/// The text of an argument in the JSON array of the arguments.
fn arg_item(arg: &TraceArg) -> (item: String)
    ensures
        item@ == arg_json(*arg),
{
    match arg {
        TraceArg::Text { text } => match quote_json(text.as_str()) {
            Some(quoted) => quoted,
            None => String::new(),
        },
        TraceArg::Other { json } => json.clone(),
    }
}

/// The arguments of a run as the JSON array that the library is called with.
pub fn args_json(args: &Vec<TraceArg>) -> (text: String)
    ensures
        text@ == args_array(args@),
{
    let mut items: Vec<String> = Vec::new();
    let mut i: usize = 0;
    while i < args.len()
        invariant
            i <= args@.len(),
            items@.len() == i,
            forall|k: int| 0 <= k < i ==> (#[trigger] items@[k])@ == arg_json(args@[k]),
        decreases args@.len() - i,
    {
        items.push(arg_item(&args[i]));
        i = i + 1;
    }
    proof {
        assert(texts(items@) =~= arg_texts(args@));
    }
    let list: String = join(&items, ",");
    let mut text: String = String::from_str("[");
    text.append(list.as_str());
    text.append("]");
    text
}

/// Events after the first recorded run do not change the run that is replayed.
pub proof fn law_the_first_run_is_replayed(events: Seq<TraceEvent>, later: Seq<TraceEvent>)
    requires
        run_started(events) is Some,
    ensures
        run_started(events + later) == run_started(events),
    decreases events.len(),
{
    assert((events + later)[0] == events[0]);
    if !(events[0] is RunStarted) {
        law_the_first_run_is_replayed(events.skip(1), later);
        assert((events + later).skip(1) =~= events.skip(1) + later);
    }
}

/// A later default seed or model replaces an earlier one.
pub proof fn law_the_last_seed_and_model_are_replayed(
    events: Seq<TraceEvent>,
    purpose: String,
    seed: u64,
    model: String,
)
    requires
        purpose@ == DEFAULT_SEED_PURPOSE@,
    ensures
        replay_seed(events.push(TraceEvent::SeedRead { purpose, value: seed })) == seed,
        recorded_model(events.push(TraceEvent::LlmCall { model: Some(model) })) == Some(model),
        recorded_model(events.push(TraceEvent::LlmResult { model: Some(model) })) == Some(model),
{
}

} // verus!
