//! The replay of a trace, as a machine.
//!
//! A state asks for one piece of outside work: reading the trace, or a call
//! into the rebuilt library. What came of it leads to the next state or ends
//! the replay with a failure.
use vstd::prelude::*;
use vstd::string::*;
use vstd::utf8::{decode_utf8, encode_utf8_decode_utf8, encode_utf8_valid_utf8, valid_utf8};

use crate::abi::{agent_named, find_agent, is_grounded_string_agent, AbiAgent, CorvidAbi};
use crate::committed::same_failure;
use crate::error::{BundleError, ErrorClass};
use crate::json::json_string;
use crate::replay::{
    are_texts_of, argument_detail, called_output, direct_argument, direct_output, direct_text,
    direct_value, env_views, first_bad_source, is_plan_of, is_source, judge_status,
    law_both_calls_get_the_same_argument, lossy_text,
    next_sources_step, no_sources_detail, plan_replay, read_grounded_sources, sources_failure,
    status_detail, value_failure, CallOutcome, ReplayOutput, ReplayPlan, SourcesStep,
    STATUS_TRY_DIRECT,
};
use crate::trace::{last_run_started, run_started, TraceEvent};

verus! {

/// What is reported of an event that the state did not ask for.
pub const UNAWAITED_EVENT: &'static str = "event does not answer what the replay asked for";

/// How far a replay has come.
#[derive(Debug)]
pub enum ReplayState {
    Start,
    /// The call of the generic entry point is planned.
    Ready { plan: ReplayPlan, events: Vec<TraceEvent> },
    /// The agent is to be called through its own symbol.
    Direct { plan: ReplayPlan, symbol: String, argument: String },
    /// The sources of the value are to be read. `count` is what the library
    /// said of their number, once it was asked.
    Sources {
        agent: String,
        value: String,
        observation_handle: u64,
        grounded_handle: u64,
        count: Option<i32>,
    },
    Finished { output: ReplayOutput },
}

/// The outside work that a state asks for.
#[derive(Debug)]
pub enum ReplayAction {
    /// Read the events of the trace.
    ReadTrace,
    /// Call the generic entry point with these variables set, and read the
    /// descriptor of the library.
    Call { agent: String, args_json: String, env: Vec<(String, String)> },
    /// Call the symbol with these variables set.
    CallDirectly { symbol: String, argument: String, env: Vec<(String, String)> },
    /// Ask how many sources there are.
    CountSources { handle: u64 },
    /// Ask for the sources.
    FetchSources { handle: u64, wanted: usize },
}

/// What came of the outside work.
#[derive(Debug)]
pub enum ReplayEvent {
    TraceRead { events: Vec<TraceEvent> },
    Called { status: u32, abi: CorvidAbi, result: Option<Vec<u8>>, observation_handle: u64 },
    CalledDirectly { value: Option<Vec<u8>>, grounded_handle: u64, observation_handle: u64 },
    Counted { number: i32 },
    Fetched { filled: i32, sources: Vec<Option<Vec<u8>>> },
    Failed { failure: BundleError },
}

// ---------------------------------------------------------------------------
// Transitions
// ---------------------------------------------------------------------------
/// The state belongs to a replay of the trace at the path.
pub open spec fn is_state_of(trace_path: Seq<char>, state: ReplayState) -> bool {
    match state {
        ReplayState::Ready { plan, events } => is_plan_of(plan, events@, trace_path),
        ReplayState::Sources { grounded_handle, count, .. } => grounded_handle != 0 && (count
            matches Some(n) ==> n > 0),
        _ => true,
    }
}

/// The event is of the sort that the state asks for.
pub open spec fn is_awaited(state: ReplayState, event: ReplayEvent) -> bool {
    match (state, event) {
        (ReplayState::Finished { .. }, _) => false,
        (_, ReplayEvent::Failed { .. }) => true,
        (ReplayState::Start, ReplayEvent::TraceRead { .. }) => true,
        (ReplayState::Ready { .. }, ReplayEvent::Called { .. }) => true,
        (ReplayState::Direct { .. }, ReplayEvent::CalledDirectly { .. }) => true,
        (ReplayState::Sources { count, .. }, ReplayEvent::Counted { .. }) => count is None,
        (ReplayState::Sources { count, .. }, ReplayEvent::Fetched { .. }) => count is Some,
        _ => false,
    }
}

/// The agent that the descriptor has under the planned name, if it is one that
/// can be called directly.
pub open spec fn direct_agent(abi: CorvidAbi, name: Seq<char>) -> Option<AbiAgent> {
    match agent_named(abi.agents@, name) {
        Some(agent) => if is_grounded_string_agent(agent) {
            Some(agent)
        } else {
            None
        },
        None => None,
    }
}

/// The single string argument of the run that the events record.
pub open spec fn recorded_text(events: Seq<TraceEvent>) -> Option<String> {
    match run_started(events) {
        Some(run) => direct_text(run.1@),
        None => None,
    }
}

/// The library was asked for `n` sources under the handle, and hands out that
/// many if it says so.
pub open spec fn are_handed_out(
    grounded_handle: u64,
    n: i32,
    filled: i32,
    sources: Seq<Option<Vec<u8>>>,
) -> bool {
    grounded_handle != 0 && n > 0 && (filled == n ==> sources.len() == n)
}

/// The event leads on from the state.
pub open spec fn accepts(state: ReplayState, event: ReplayEvent) -> bool {
    match (state, event) {
        (ReplayState::Start, ReplayEvent::TraceRead { events }) => run_started(events@) is Some,
        (ReplayState::Ready { plan, events }, ReplayEvent::Called { status, abi, .. }) => status
            == 0 || (status == STATUS_TRY_DIRECT && direct_agent(abi, plan.agent@) is Some
            && recorded_text(events@) is Some),
        (ReplayState::Direct { .. }, ReplayEvent::CalledDirectly { value, .. }) => value matches Some(
            bytes,
        ) && valid_utf8(bytes@),
        (
            ReplayState::Sources { grounded_handle, count: None, .. },
            ReplayEvent::Counted { number },
        ) => grounded_handle != 0 && number >= 0,
        (
            ReplayState::Sources { grounded_handle, count: Some(n), .. },
            ReplayEvent::Fetched { filled, sources },
        ) => are_handed_out(grounded_handle, n, filled, sources@) && filled == n && forall|i: int|
            0 <= i < sources@.len() ==> is_source(#[trigger] sources@[i]),
        _ => false,
    }
}

/// The output of a call of the generic entry point.
pub open spec fn is_called_output(
    output: ReplayOutput,
    agent: Seq<char>,
    result: Option<Vec<u8>>,
    observation_handle: u64,
) -> bool {
    &&& output.agent@ == agent
    &&& output.result_json@ == (match result {
        Some(bytes) => lossy_text(bytes@),
        None => "null"@,
    })
    &&& result matches Some(bytes) ==> valid_utf8(bytes@) ==> output.result_json@ == decode_utf8(
        bytes@,
    )
    &&& output.observation_present == (observation_handle != 0)
    &&& output.grounded_sources@.len() == 0
}

/// The output of a direct call, apart from the sources.
pub open spec fn is_direct_output(
    output: ReplayOutput,
    agent: Seq<char>,
    value: Seq<char>,
    observation_handle: u64,
) -> bool {
    &&& output.agent@ == agent
    &&& output.result_json@ == json_string(value)
    &&& output.observation_present == (observation_handle != 0)
}

/// `next` is the state that an accepted event leads to.
pub open spec fn follows(
    trace_path: Seq<char>,
    state: ReplayState,
    event: ReplayEvent,
    next: ReplayState,
) -> bool {
    match (state, event) {
        (ReplayState::Start, ReplayEvent::TraceRead { events }) => {
            &&& next matches ReplayState::Ready { plan, events: kept }
            &&& kept == events
            &&& is_plan_of(plan, events@, trace_path)
        },
        (
            ReplayState::Ready { plan, events },
            ReplayEvent::Called { status, abi, result, observation_handle },
        ) => if status == 0 {
            &&& next matches ReplayState::Finished { output }
            &&& is_called_output(output, plan.agent@, result, observation_handle)
        } else {
            &&& next matches ReplayState::Direct { plan: kept, symbol, argument }
            &&& kept == plan
            &&& direct_agent(abi, plan.agent@) matches Some(agent)
            &&& symbol@ == agent.symbol@
            &&& recorded_text(events@) matches Some(text)
            &&& argument@ == text@
        },
        (
            ReplayState::Direct { plan, .. },
            ReplayEvent::CalledDirectly { value: Some(bytes), grounded_handle, observation_handle },
        ) => if grounded_handle == 0 {
            &&& next matches ReplayState::Finished { output }
            &&& is_direct_output(
                output,
                plan.agent@,
                decode_utf8(bytes@),
                observation_handle,
            )
            &&& output.grounded_sources@.len() == 0
        } else {
            &&& next matches ReplayState::Sources {
                agent,
                value,
                observation_handle: observation,
                grounded_handle: grounded,
                count,
            }
            &&& agent@ == plan.agent@
            &&& value@ == decode_utf8(bytes@)
            &&& observation == observation_handle
            &&& grounded == grounded_handle
            &&& count is None
        },
        (
            ReplayState::Sources {
                agent,
                value,
                observation_handle,
                grounded_handle,
                count: None,
            },
            ReplayEvent::Counted { number },
        ) => if number == 0 {
            &&& next matches ReplayState::Finished { output }
            &&& is_direct_output(output, agent@, value@, observation_handle)
            &&& output.grounded_sources@.len() == 0
        } else {
            next == (ReplayState::Sources {
                agent,
                value,
                observation_handle,
                grounded_handle,
                count: Some(number),
            })
        },
        (
            ReplayState::Sources { agent, value, observation_handle, .. },
            ReplayEvent::Fetched { sources, .. },
        ) => {
            &&& next matches ReplayState::Finished { output }
            &&& is_direct_output(output, agent@, value@, observation_handle)
            &&& are_texts_of(output.grounded_sources@, sources@)
        },
        _ => false,
    }
}

/// `e` reports why the event does not lead on from the state.
pub open spec fn refuses(
    trace_path: Seq<char>,
    state: ReplayState,
    event: ReplayEvent,
    e: BundleError,
) -> bool {
    match (state, event) {
        (_, ReplayEvent::Failed { failure }) => same_failure(e, failure),
        (ReplayState::Start, ReplayEvent::TraceRead { .. }) => e.says(
            ErrorClass::Other,
            "trace had no run_started event"@,
        ),
        (ReplayState::Ready { plan, events }, ReplayEvent::Called { status, abi, .. }) => if status
            == STATUS_TRY_DIRECT && direct_agent(abi, plan.agent@) is Some {
            match run_started(events@) {
                Some(run) => e.says(
                    ErrorClass::ReplayUnsupported,
                    argument_detail(plan.agent@, run.1@),
                ),
                None => e.says(ErrorClass::Other, "trace had no run_started event"@),
            }
        } else {
            e.says(ErrorClass::ReplayMismatch, status_detail(status, trace_path))
        },
        (ReplayState::Direct { plan, .. }, ReplayEvent::CalledDirectly { value, .. }) => {
            value_failure(
                plan.agent@,
                match value {
                    Some(bytes) => Some(bytes@),
                    None => None,
                },
                e,
            )
        },
        (
            ReplayState::Sources { grounded_handle, count: None, .. },
            ReplayEvent::Counted { .. },
        ) => if grounded_handle != 0 {
            e.says(ErrorClass::ReplayMismatch, no_sources_detail(grounded_handle))
        } else {
            e.says(ErrorClass::Other, UNAWAITED_EVENT@)
        },
        (
            ReplayState::Sources { grounded_handle, count: Some(n), .. },
            ReplayEvent::Fetched { filled, sources },
        ) => if are_handed_out(grounded_handle, n, filled, sources@) {
            sources_failure(n, filled, sources@, e)
        } else {
            e.says(ErrorClass::Other, UNAWAITED_EVENT@)
        },
        _ => e.says(ErrorClass::Other, UNAWAITED_EVENT@),
    }
}

/// An agent name that an entry of the descriptor has is that entry's name.
proof fn lemma_named(agents: Seq<AbiAgent>, name: Seq<char>)
    ensures
        agent_named(agents, name) matches Some(agent) ==> agent.name@ == name,
    decreases agents.len(),
{
    if agents.len() > 0 && agents[0].name@ != name {
        lemma_named(agents.skip(1), name);
    }
}

/// Takes what the generic entry point gave.
fn take_call(
    trace_path: &str,
    plan: ReplayPlan,
    events: &Vec<TraceEvent>,
    status: u32,
    abi: &CorvidAbi,
    result: &Option<Vec<u8>>,
    observation_handle: u64,
) -> (taken: Result<ReplayState, BundleError>)
    ensures
        ({
            let state = ReplayState::Ready { plan, events: *events };
            let event = ReplayEvent::Called {
                status,
                abi: *abi,
                result: *result,
                observation_handle,
            };
            match taken {
                Ok(next) => accepts(state, event) && follows(trace_path@, state, event, next),
                Err(e) => !accepts(state, event) && refuses(trace_path@, state, event, e),
            }
        }),
{
    let agent: Option<&AbiAgent> = find_agent(&abi.agents, plan.agent.as_str());
    proof {
        lemma_named(abi.agents@, plan.agent@);
    }
    match judge_status(status, agent, trace_path) {
        Err(e) => Err(e),
        Ok(CallOutcome::Finished) => {
            let bytes: Option<&[u8]> = match result {
                Some(bytes) => Some(bytes.as_slice()),
                None => None,
            };
            let output: ReplayOutput = called_output(plan.agent.as_str(), bytes, observation_handle);
            Ok(ReplayState::Finished { output })
        },
        Ok(CallOutcome::Direct) => match agent {
            // Only an agent of the descriptor is called directly.
            None => Err(BundleError::new(ErrorClass::Other, "")),
            Some(agent) => {
                let (_, args) = match last_run_started(events) {
                    Ok(run) => run,
                    Err(e) => {
                        return Err(e);
                    },
                };
                match direct_argument(agent, args) {
                    Err(e) => Err(e),
                    Ok(argument) => Ok(
                        ReplayState::Direct {
                            plan,
                            symbol: agent.symbol.clone(),
                            argument: argument.clone(),
                        },
                    ),
                }
            },
        },
    }
}

/// Finishes a direct call with its sources.
fn finish_direct(
    agent: &str,
    value: &str,
    observation_handle: u64,
    sources: Vec<String>,
) -> (result: Result<ReplayState, BundleError>)
    ensures
        result matches Ok(ReplayState::Finished { output }) && is_direct_output(
            output,
            agent@,
            value@,
            observation_handle,
        ) && output.grounded_sources == sources,
{
    match direct_output(agent, value, observation_handle, sources) {
        Ok(output) => Ok(ReplayState::Finished { output }),
        Err(e) => Err(e),
    }
}

/// Takes what the direct call gave.
fn take_direct_call(
    trace_path: &str,
    plan: ReplayPlan,
    symbol: String,
    argument: String,
    value: &Option<Vec<u8>>,
    grounded_handle: u64,
    observation_handle: u64,
) -> (taken: Result<ReplayState, BundleError>)
    ensures
        ({
            let state = ReplayState::Direct { plan, symbol, argument };
            let event = ReplayEvent::CalledDirectly {
                value: *value,
                grounded_handle,
                observation_handle,
            };
            match taken {
                Ok(next) => accepts(state, event) && follows(trace_path@, state, event, next)
                    && is_state_of(trace_path@, next),
                Err(e) => !accepts(state, event) && refuses(trace_path@, state, event, e),
            }
        }),
{
    let bytes: Option<&[u8]> = match value {
        Some(bytes) => Some(bytes.as_slice()),
        None => None,
    };
    let text: String = match direct_value(plan.agent.as_str(), bytes) {
        Ok(text) => text,
        Err(e) => {
            return Err(e);
        },
    };
    proof {
        encode_utf8_valid_utf8(text@);
        encode_utf8_decode_utf8(text@);
    }
    if grounded_handle == 0 {
        return finish_direct(
            plan.agent.as_str(),
            text.as_str(),
            observation_handle,
            Vec::new(),
        );
    }
    Ok(
        ReplayState::Sources {
            agent: plan.agent,
            value: text,
            observation_handle,
            grounded_handle,
            count: None,
        },
    )
}

/// Takes the event that the state asked for, in the replay of the trace at the
/// path. Any other event ends the replay.
pub fn advance(trace_path: &str, state: ReplayState, event: ReplayEvent) -> (result: Result<
    ReplayState,
    BundleError,
>)
    ensures
        match result {
            Ok(next) => accepts(state, event) && is_awaited(state, event) && follows(
                trace_path@,
                state,
                event,
                next,
            ) && is_state_of(trace_path@, next),
            Err(e) => !accepts(state, event) && refuses(trace_path@, state, event, e),
        },
{
    if let ReplayEvent::Failed { failure } = event {
        return Err(failure);
    }
    match (state, event) {
        (ReplayState::Start, ReplayEvent::TraceRead { events }) => match plan_replay(
            &events,
            trace_path,
        ) {
            Ok(plan) => Ok(ReplayState::Ready { plan, events }),
            Err(e) => Err(e),
        },
        (
            ReplayState::Ready { plan, events },
            ReplayEvent::Called { status, abi, result, observation_handle },
        ) => take_call(trace_path, plan, &events, status, &abi, &result, observation_handle),
        (
            ReplayState::Direct { plan, symbol, argument },
            ReplayEvent::CalledDirectly { value, grounded_handle, observation_handle },
        ) => take_direct_call(
            trace_path,
            plan,
            symbol,
            argument,
            &value,
            grounded_handle,
            observation_handle,
        ),
        (
            ReplayState::Sources {
                agent,
                value,
                observation_handle,
                grounded_handle,
                count: None,
            },
            ReplayEvent::Counted { number },
        ) => {
            if grounded_handle == 0 {
                return Err(BundleError::new(ErrorClass::Other, UNAWAITED_EVENT));
            }
            match next_sources_step(grounded_handle, Some(number)) {
                Err(e) => Err(e),
                Ok(SourcesStep::Done) => finish_direct(
                    agent.as_str(),
                    value.as_str(),
                    observation_handle,
                    Vec::new(),
                ),
                Ok(_) => Ok(
                    ReplayState::Sources {
                        agent,
                        value,
                        observation_handle,
                        grounded_handle,
                        count: Some(number),
                    },
                ),
            }
        },
        (
            ReplayState::Sources {
                agent,
                value,
                observation_handle,
                grounded_handle,
                count: Some(count),
            },
            ReplayEvent::Fetched { filled, sources },
        ) => {
            if grounded_handle == 0 || count <= 0 || (filled == count && sources.len()
                != count as usize) {
                return Err(BundleError::new(ErrorClass::Other, UNAWAITED_EVENT));
            }
            match read_grounded_sources(count, filled, &sources) {
                Err(e) => {
                    proof {
                        if filled == count {
                            let n = choose|n: int| #[trigger] first_bad_source(sources@, n);
                            assert(!is_source(sources@[n]));
                        }
                    }
                    Err(e)
                },
                Ok(list) => {
                    proof {
                        assert forall|i: int| 0 <= i < sources@.len() implies is_source(
                            #[trigger] sources@[i],
                        ) by {
                            encode_utf8_valid_utf8(list@[i]@);
                        }
                    }
                    finish_direct(agent.as_str(), value.as_str(), observation_handle, list)
                },
            }
        },
        _ => Err(BundleError::new(ErrorClass::Other, UNAWAITED_EVENT)),
    }
}

// ---------------------------------------------------------------------------
// Actions
// ---------------------------------------------------------------------------
/// The action is the outside work that the state of the replay asks for.
pub open spec fn asks_for(state: ReplayState, action: Option<ReplayAction>) -> bool {
    match state {
        ReplayState::Start => action == Some(ReplayAction::ReadTrace),
        ReplayState::Ready { plan, .. } => action matches Some(
            ReplayAction::Call { agent, args_json, env },
        ) && agent@ == plan.agent@ && args_json@ == plan.args_json@ && env_views(env@)
            == env_views(plan.env@),
        ReplayState::Direct { plan, symbol, argument } => action matches Some(
            ReplayAction::CallDirectly { symbol: called, argument: given, env },
        ) && called@ == symbol@ && given@ == argument@ && env_views(env@) == env_views(plan.env@),
        ReplayState::Sources { grounded_handle, count: None, .. } => action == Some(
            ReplayAction::CountSources { handle: grounded_handle },
        ),
        ReplayState::Sources { grounded_handle, count: Some(n), .. } => if n > 0 {
            action == Some(
                ReplayAction::FetchSources { handle: grounded_handle, wanted: n as usize },
            )
        } else {
            action is None
        },
        ReplayState::Finished { .. } => action is None,
    }
}

fn copy_env(env: &Vec<(String, String)>) -> (copy: Vec<(String, String)>)
    ensures
        env_views(copy@) == env_views(env@),
{
    let mut copy: Vec<(String, String)> = Vec::new();
    let mut i: usize = 0;
    while i < env.len()
        invariant
            i <= env@.len(),
            copy@.len() == i,
            forall|k: int|
                0 <= k < i ==> (#[trigger] copy@[k]).0@ == env@[k].0@ && copy@[k].1@ == env@[k].1@,
        decreases env@.len() - i,
    {
        copy.push((env[i].0.clone(), env[i].1.clone()));
        i = i + 1;
    }
    proof {
        assert(env_views(copy@) =~= env_views(env@));
    }
    copy
}

/// The outside work that the state asks for. A finished replay asks for none,
/// nor does one that there are no sources for.
pub fn next_action(state: &ReplayState) -> (action: Option<ReplayAction>)
    ensures
        asks_for(*state, action),
{
    match state {
        ReplayState::Start => Some(ReplayAction::ReadTrace),
        ReplayState::Ready { plan, .. } => Some(
            ReplayAction::Call {
                agent: plan.agent.clone(),
                args_json: plan.args_json.clone(),
                env: copy_env(&plan.env),
            },
        ),
        ReplayState::Direct { plan, symbol, argument } => Some(
            ReplayAction::CallDirectly {
                symbol: symbol.clone(),
                argument: argument.clone(),
                env: copy_env(&plan.env),
            },
        ),
        ReplayState::Sources { grounded_handle, count: None, .. } => Some(
            ReplayAction::CountSources { handle: *grounded_handle },
        ),
        ReplayState::Sources { grounded_handle, count: Some(count), .. } => if *count > 0 {
            Some(ReplayAction::FetchSources { handle: *grounded_handle, wanted: *count as usize })
        } else {
            None
        },
        ReplayState::Finished { .. } => None,
    }
}

// ---------------------------------------------------------------------------
// Laws
// ---------------------------------------------------------------------------
/// The states are those of a replay from its start, one behind each event.
pub open spec fn is_run(
    trace_path: Seq<char>,
    states: Seq<ReplayState>,
    events: Seq<ReplayEvent>,
) -> bool {
    &&& states.len() == events.len() + 1
    &&& states[0] is Start
    &&& forall|i: int|
        #![trigger events[i]]
        0 <= i < events.len() ==> accepts(states[i], events[i]) && follows(
            trace_path,
            states[i],
            events[i],
            states[i + 1],
        )
}

/// The agent that a state after the start is about.
pub open spec fn agent_of(state: ReplayState) -> Seq<char> {
    match state {
        ReplayState::Start => Seq::empty(),
        ReplayState::Ready { plan, .. } => plan.agent@,
        ReplayState::Direct { plan, .. } => plan.agent@,
        ReplayState::Sources { agent, .. } => agent@,
        ReplayState::Finished { output } => output.agent@,
    }
}

proof fn lemma_agent_is_kept(
    trace_path: Seq<char>,
    states: Seq<ReplayState>,
    events: Seq<ReplayEvent>,
    i: int,
)
    requires
        is_run(trace_path, states, events),
        1 <= i < states.len(),
    ensures
        !(states[i] is Start),
        events[0] matches ReplayEvent::TraceRead { events: recorded } && run_started(
            recorded@,
        ) matches Some(run) && agent_of(states[i]) == run.0@,
    decreases i,
{
    assert(accepts(states[0], events[0]));
    assert(follows(trace_path, states[0], events[0], states[1]));
    if i > 1 {
        lemma_agent_is_kept(trace_path, states, events, i - 1);
        assert(accepts(states[i - 1], events[i - 1]));
        assert(follows(trace_path, states[i - 1], events[i - 1], states[i]));
    }
}

/// A finished replay reports the agent whose run the trace recorded first,
/// whichever way the agent was called.
pub proof fn law_a_replay_reports_the_recorded_agent(
    trace_path: Seq<char>,
    states: Seq<ReplayState>,
    events: Seq<ReplayEvent>,
    output: ReplayOutput,
)
    requires
        is_run(trace_path, states, events),
        states.last() == (ReplayState::Finished { output }),
    ensures
        events.len() > 0,
        events[0] matches ReplayEvent::TraceRead { events: recorded } && run_started(
            recorded@,
        ) matches Some(run) && output.agent@ == run.0@,
{
    assert(states.len() > 1);
    lemma_agent_is_kept(trace_path, states, events, states.len() - 1);
}

/// An agent that is called directly gets the string that the generic entry
/// point was given.
pub proof fn law_a_direct_call_repeats_the_argument(
    trace_path: Seq<char>,
    state: ReplayState,
    event: ReplayEvent,
    plan: ReplayPlan,
    symbol: String,
    argument: String,
)
    requires
        is_state_of(trace_path, state),
        accepts(state, event),
        follows(trace_path, state, event, ReplayState::Direct { plan, symbol, argument }),
    ensures
        plan.args_json@ == "["@ + json_string(argument@) + "]"@,
{
    if let ReplayState::Ready { events, .. } = state {
        if let Some(run) = run_started(events@) {
            if let Some(text) = direct_text(run.1@) {
                law_both_calls_get_the_same_argument(run.1@, text);
            }
        }
    }
}

/// A replay is over after at most five pieces of outside work.
pub proof fn law_a_replay_is_short(
    trace_path: Seq<char>,
    states: Seq<ReplayState>,
    events: Seq<ReplayEvent>,
)
    requires
        is_run(trace_path, states, events),
    ensures
        events.len() <= 5,
        events.len() == 5 ==> states.last() is Finished,
{
    if events.len() > 0 {
        assert(follows(trace_path, states[0], events[0], states[1]));
        assert(states[1] is Ready);
    }
    if events.len() > 1 {
        assert(accepts(states[1], events[1]));
        assert(follows(trace_path, states[1], events[1], states[2]));
        assert(states[2] is Direct || states[2] is Finished);
    }
    if events.len() > 2 {
        assert(accepts(states[2], events[2]));
        assert(follows(trace_path, states[2], events[2], states[3]));
        assert(states[3] is Finished || (states[3] matches ReplayState::Sources { count, .. }
            && count is None));
    }
    if events.len() > 3 {
        assert(accepts(states[3], events[3]));
        assert(follows(trace_path, states[3], events[3], states[4]));
        assert(states[4] is Finished || (states[4] matches ReplayState::Sources { count, .. }
            && count is Some));
    }
    if events.len() > 4 {
        assert(accepts(states[4], events[4]));
        assert(follows(trace_path, states[4], events[4], states[5]));
        assert(states[5] is Finished);
    }
    if events.len() > 5 {
        assert(accepts(states[5], events[5]));
    }
}

/// Every state but the last asks for outside work, and awaits what comes of it.
pub proof fn law_a_replay_waits_until_finished(
    trace_path: Seq<char>,
    state: ReplayState,
    action: Option<ReplayAction>,
    event: ReplayEvent,
)
    requires
        is_state_of(trace_path, state),
        asks_for(state, action),
    ensures
        action is None <==> state is Finished,
        accepts(state, event) ==> is_awaited(state, event),
{
}

} // verus!
