//! What each step of a replay asks for and leads to.
use vstd::prelude::*;
use vstd::string::*;
use vstd::utf8::{decode_utf8, encode_utf8_decode_utf8};

use crate::abi::{agent_named, find_agent, AbiAgent, CorvidAbi};
use crate::error::{BundleError, ErrorClass};
use crate::json::json_string;
use crate::replay::{
    bad_source, direct_argument, env_views, first_bad_source, is_source, judge_status,
    next_sources_step, plan_replay, read_grounded_sources, CallOutcome, ReplayOutput, ReplayPlan,
    SourcesStep,
};
use crate::replay_run::{advance, next_action, ReplayAction, ReplayEvent, ReplayState};
use crate::trace::{last_run_started, TraceArg, TraceEvent};

verus! {

/// The variables are the same, one by one.
pub open spec fn same_env(left: Seq<(String, String)>, right: Seq<(String, String)>) -> bool {
    &&& left.len() == right.len()
    &&& forall|i: int|
        0 <= i < left.len() ==> (#[trigger] left[i]).0@ == right[i].0@ && left[i].1@ == right[i].1@
}

proof fn lemma_same_env(left: Seq<(String, String)>, right: Seq<(String, String)>)
    requires
        env_views(left) == env_views(right),
    ensures
        same_env(left, right),
{
    assert(left.len() == env_views(left).len() && right.len() == env_views(right).len());
    assert forall|i: int| 0 <= i < left.len() implies (#[trigger] left[i]).0@ == right[i].0@
        && left[i].1@ == right[i].1@ by {
        assert(env_views(left)[i] == (left[i].0@, left[i].1@));
        assert(env_views(right)[i] == (right[i].0@, right[i].1@));
    }
}

/// The failures say the same.
pub open spec fn alike(e: BundleError, f: BundleError) -> bool {
    e.class == f.class && e.message@ == f.message@
}

/// A replay asks for the trace, then for the planned call, then, where the agent
/// is called directly, for a call of its symbol with the recorded string and
/// the same variables; then for the number of sources behind the handle and for
/// as many sources; and then for nothing.
pub proof fn law_replays_ask_for_what_is_planned(
    state: ReplayState,
    action: Option<ReplayAction>,
)
    requires
        call_ensures(next_action, (&state,), action),
    ensures
        match state {
            ReplayState::Start => action == Some(ReplayAction::ReadTrace),
            ReplayState::Ready { plan, .. } => {
                &&& action matches Some(ReplayAction::Call { agent, args_json, env })
                &&& agent@ == plan.agent@
                &&& args_json@ == plan.args_json@
                &&& same_env(env@, plan.env@)
            },
            ReplayState::Direct { plan, symbol, argument } => {
                &&& action matches Some(
                    ReplayAction::CallDirectly { symbol: called, argument: given, env },
                )
                &&& called@ == symbol@
                &&& given@ == argument@
                &&& same_env(env@, plan.env@)
            },
            ReplayState::Sources { grounded_handle, count, .. } => match count {
                None => action matches Some(ReplayAction::CountSources { handle }) && handle
                    == grounded_handle,
                Some(n) => n > 0 ==> (action matches Some(
                    ReplayAction::FetchSources { handle, wanted },
                ) && handle == grounded_handle && wanted == n),
            },
            ReplayState::Finished { .. } => action is None,
        },
{
    match (state, action) {
        (ReplayState::Ready { plan, .. }, Some(ReplayAction::Call { env, .. })) => {
            lemma_same_env(env@, plan.env@);
        },
        (ReplayState::Direct { plan, .. }, Some(ReplayAction::CallDirectly { env, .. })) => {
            lemma_same_env(env@, plan.env@);
        },
        _ => {},
    }
}

/// A trace that was read leads on exactly if its replay can be planned, with
/// that plan and the events that were read.
pub proof fn law_read_traces_are_planned(
    trace_path: &str,
    events: Vec<TraceEvent>,
    result: Result<ReplayState, BundleError>,
    planned: Result<ReplayPlan, BundleError>,
)
    requires
        call_ensures(
            advance,
            (trace_path, ReplayState::Start, ReplayEvent::TraceRead { events }),
            result,
        ),
        call_ensures(plan_replay, (&events, trace_path), planned),
    ensures
        match (result, planned) {
            (Ok(next), Ok(wanted)) => {
                &&& next matches ReplayState::Ready { plan, events: kept }
                &&& kept == events
                &&& plan.agent@ == wanted.agent@
                &&& plan.args_json@ == wanted.args_json@
                &&& same_env(plan.env@, wanted.env@)
            },
            (Err(e), Err(f)) => alike(e, f),
            _ => false,
        },
{
    match (result, planned) {
        (Ok(ReplayState::Ready { plan, .. }), Ok(wanted)) => {
            lemma_same_env(plan.env@, wanted.env@);
        },
        _ => {},
    }
}

/// What follows the planned call goes by its status, for the agent of the
/// descriptor that has the planned name: a finished call gives the output of
/// that call, a direct one goes on with that agent's symbol and the recorded
/// string, and what is refused is reported as the status or the arguments are.
pub proof fn law_the_status_of_the_call_leads_on(
    trace_path: &str,
    plan: ReplayPlan,
    events: Vec<TraceEvent>,
    status: u32,
    abi: CorvidAbi,
    bytes: Option<Vec<u8>>,
    handle: u64,
    result: Result<ReplayState, BundleError>,
    name: &str,
    found: Option<&AbiAgent>,
    judged: Result<CallOutcome, BundleError>,
    run: Result<(&String, &Vec<TraceArg>), BundleError>,
    argument: Result<&String, BundleError>,
)
    requires
        call_ensures(
            advance,
            (
                trace_path,
                ReplayState::Ready { plan, events },
                ReplayEvent::Called { status, abi, result: bytes, observation_handle: handle },
            ),
            result,
        ),
        name@ == plan.agent@,
        call_ensures(find_agent, (&abi.agents, name), found),
        call_ensures(judge_status, (status, found, trace_path), judged),
        call_ensures(last_run_started, (&events,), run),
        match (found, run) {
            (Some(agent), Ok(recorded)) => call_ensures(
                direct_argument,
                (agent, recorded.1),
                argument,
            ),
            _ => true,
        },
    ensures
        judged matches Err(f) ==> (result matches Err(e) && alike(e, f)),
        judged == Ok::<CallOutcome, BundleError>(CallOutcome::Finished) ==> {
            &&& result matches Ok(ReplayState::Finished { output })
            &&& output.agent@ == plan.agent@
            &&& output.observation_present <==> handle != 0
            &&& output.grounded_sources@.len() == 0
            &&& bytes is None ==> output.result_json@ == "null"@
            &&& bytes matches Some(given) ==> output.result_json@ == crate::replay::lossy_text(
                given@,
            )
        },
        judged == Ok::<CallOutcome, BundleError>(CallOutcome::Direct) ==> match run {
            Err(f) => result matches Err(e) && alike(e, f),
            Ok(_) => match (result, argument) {
                (Ok(next), Ok(text)) => {
                    &&& next matches ReplayState::Direct { plan: kept, symbol, argument: given }
                    &&& kept == plan
                    &&& found matches Some(agent)
                    &&& symbol@ == agent.symbol@
                    &&& given@ == text@
                },
                (Err(e), Err(f)) => alike(e, f),
                _ => false,
            },
        },
{
    lemma_found_name(abi.agents@, plan.agent@);
}

proof fn lemma_found_name(agents: Seq<AbiAgent>, name: Seq<char>)
    ensures
        agent_named(agents, name) matches Some(agent) ==> agent.name@ == name,
    decreases agents.len(),
{
    if agents.len() > 0 && agents[0].name@ != name {
        lemma_found_name(agents.skip(1), name);
    }
}

/// The output is that of a direct call.
pub open spec fn reports_direct_call(
    output: ReplayOutput,
    agent: Seq<char>,
    value: Seq<char>,
    observation_handle: u64,
) -> bool {
    &&& output.agent@ == agent
    &&& output.result_json@ == json_string(value)
    &&& output.observation_present <==> observation_handle != 0
}

/// A direct call leads on exactly if it gave a text. Without a handle for
/// sources the replay is finished; with one the sources are read for that text.
pub proof fn law_direct_calls_lead_to_their_sources(
    trace_path: &str,
    plan: ReplayPlan,
    symbol: String,
    argument: String,
    value: Option<Vec<u8>>,
    grounded_handle: u64,
    observation_handle: u64,
    result: Result<ReplayState, BundleError>,
)
    requires
        call_ensures(
            advance,
            (
                trace_path,
                ReplayState::Direct { plan, symbol, argument },
                ReplayEvent::CalledDirectly { value, grounded_handle, observation_handle },
            ),
            result,
        ),
    ensures
        result is Ok <==> (value matches Some(bytes) && vstd::utf8::valid_utf8(bytes@)),
        result matches Ok(next) ==> if grounded_handle == 0 {
            &&& next matches ReplayState::Finished { output }
            &&& reports_direct_call(
                output,
                plan.agent@,
                decode_utf8(value->Some_0@),
                observation_handle,
            )
            &&& output.grounded_sources@.len() == 0
        } else {
            &&& next matches ReplayState::Sources {
                agent,
                value: text,
                observation_handle: observation,
                grounded_handle: grounded,
                count,
            }
            &&& agent@ == plan.agent@
            &&& text@ == decode_utf8(value->Some_0@)
            &&& observation == observation_handle
            &&& grounded == grounded_handle
            &&& count is None
        },
        result matches Err(e) ==> if value is None {
            e.class == ErrorClass::ReplayMismatch && e.message@ == "BundleReplayMismatch: "@ + (
            "grounded export `"@ + plan.agent@ + "` returned null String pointer"@)
        } else {
            e.class == ErrorClass::Other && e.message@ == "grounded replay result was not UTF-8"@
        },
{
    if let Err(e) = result {
        reveal_strlit("");
        if value is Some {
            assert(e.message@ =~= "grounded replay result was not UTF-8"@);
        }
    }
}

/// The sources are counted, and then fetched in that number; without any the
/// replay is finished without. The finished output has the sources that were
/// read, and the text and observation of the direct call.
pub proof fn law_counted_sources_are_fetched(
    trace_path: &str,
    agent: String,
    value: String,
    observation_handle: u64,
    grounded_handle: u64,
    number: i32,
    result: Result<ReplayState, BundleError>,
    step: Result<SourcesStep, BundleError>,
)
    requires
        grounded_handle != 0,
        call_ensures(next_sources_step, (grounded_handle, Some(number)), step),
        call_ensures(
            advance,
            (
                trace_path,
                ReplayState::Sources {
                    agent,
                    value,
                    observation_handle,
                    grounded_handle,
                    count: None,
                },
                ReplayEvent::Counted { number },
            ),
            result,
        ),
    ensures
        result is Ok <==> number >= 0,
        number == 0 ==> {
            &&& result matches Ok(ReplayState::Finished { output })
            &&& reports_direct_call(output, agent@, value@, observation_handle)
            &&& output.grounded_sources@.len() == 0
        },
        number > 0 ==> (result matches Ok(next) && next == (ReplayState::Sources {
            agent,
            value,
            observation_handle,
            grounded_handle,
            count: Some(number),
        })),
        result matches Err(e) ==> (step matches Err(f) && alike(e, f)),
{
}

/// Fetched sources finish the replay exactly if they can be read.
pub proof fn law_fetched_sources_finish_the_replay(
    trace_path: &str,
    agent: String,
    value: String,
    observation_handle: u64,
    grounded_handle: u64,
    count: i32,
    filled: i32,
    sources: Vec<Option<Vec<u8>>>,
    result: Result<ReplayState, BundleError>,
    read: Result<Vec<String>, BundleError>,
)
    requires
        grounded_handle != 0,
        count > 0,
        filled == count ==> sources@.len() == count,
        call_ensures(
            advance,
            (
                trace_path,
                ReplayState::Sources {
                    agent,
                    value,
                    observation_handle,
                    grounded_handle,
                    count: Some(count),
                },
                ReplayEvent::Fetched { filled, sources },
            ),
            result,
        ),
        call_ensures(read_grounded_sources, (count, filled, &sources), read),
    ensures
        result is Ok <==> read is Ok,
        match (result, read) {
            (Ok(next), Ok(list)) => {
                &&& next matches ReplayState::Finished { output }
                &&& reports_direct_call(output, agent@, value@, observation_handle)
                &&& output.grounded_sources@.len() == list@.len()
                &&& forall|i: int|
                    0 <= i < list@.len() ==> (#[trigger] list@[i])@ == output.grounded_sources@[i]@
            },
            (Err(e), Err(f)) => alike(e, f),
            _ => false,
        },
{
    crate::replay_laws::law_sources_are_read_in_full(count, filled, sources, read);
    match (result, read) {
        (Ok(ReplayState::Finished { output }), Ok(list)) => {
            assert forall|i: int| 0 <= i < list@.len() implies (#[trigger] list@[i])@
                == output.grounded_sources@[i]@ by {
                assert(sources@[i] is Some);
                encode_utf8_decode_utf8(list@[i]@);
                encode_utf8_decode_utf8(output.grounded_sources@[i]@);
            }
        },
        (Err(e), Err(f)) => {
            if filled == count {
                let n = choose|n: int|
                    #[trigger] first_bad_source(sources@, n) && bad_source(sources@[n], e);
                let m = choose|m: int|
                    #[trigger] first_bad_source(sources@, m) && bad_source(sources@[m], f);
                if n < m {
                    assert(is_source(sources@[n]));
                }
                if m < n {
                    assert(is_source(sources@[m]));
                }
            }
        },
        _ => {},
    }
}

/// Failed work, and an event that was not asked for, never lead on.
pub proof fn law_nothing_else_continues_a_replay(
    trace_path: &str,
    state: ReplayState,
    event: ReplayEvent,
    result: Result<ReplayState, BundleError>,
)
    requires
        call_ensures(advance, (trace_path, state, event), result),
    ensures
        event matches ReplayEvent::Failed { failure } ==> (result matches Err(e) && alike(
            e,
            failure,
        )),
        result is Ok ==> match event {
            ReplayEvent::TraceRead { .. } => state is Start,
            ReplayEvent::Called { .. } => state is Ready,
            ReplayEvent::CalledDirectly { .. } => state is Direct,
            ReplayEvent::Counted { .. } => state matches ReplayState::Sources { count, .. }
                && count is None,
            ReplayEvent::Fetched { .. } => state matches ReplayState::Sources { count, .. }
                && count is Some,
            ReplayEvent::Failed { .. } => false,
        },
        !match event {
            ReplayEvent::TraceRead { .. } => state is Start,
            ReplayEvent::Called { .. } => state is Ready,
            ReplayEvent::CalledDirectly { .. } => state is Direct,
            ReplayEvent::Counted { .. } => state is Sources,
            ReplayEvent::Fetched { .. } => state is Sources,
            ReplayEvent::Failed { .. } => true,
        } ==> (result matches Err(e) && e.class == ErrorClass::Other && e.message@
            == "event does not answer what the replay asked for"@),
{
    reveal_strlit("");
    assert(""@ + "event does not answer what the replay asked for"@
        =~= "event does not answer what the replay asked for"@);
}

} // verus!
