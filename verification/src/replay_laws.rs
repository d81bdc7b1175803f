//! What a replay is called with, and when it is accepted.
use vstd::prelude::*;
use vstd::string::*;
use vstd::utf8::{decode_utf8, encode_utf8, encode_utf8_valid_utf8, valid_utf8};

use crate::abi::{AbiAgent, ScalarTypeName, TypeDescription};
use crate::error::{BundleError, ErrorClass};
use crate::json::json_string;
use crate::manifest::BundleTrace;
use crate::replay::{
    bad_source, called_output, check_replay, debug_list, direct_argument, direct_output,
    direct_value, env_views, finished_output, first_bad_source, is_source, judge_status, lossy_text,
    next_sources_step, plan_replay, read_grounded_sources, CallOutcome, ReplayOutput, ReplayPlan,
    SourcesStep,
};
use crate::text::{decimal, signed_decimal, texts};
use crate::trace::{
    args_json, derive_deterministic_seed, last_recorded_model, last_run_started, TraceArg,
    TraceEvent,
};
use crate::trace_laws::lemma_first_run;

verus! {

// ---------------------------------------------------------------------------
// Accepted replays
// ---------------------------------------------------------------------------
/// The lists hold the same texts, one by one.
pub open spec fn same_list(left: Seq<String>, right: Seq<String>) -> bool {
    &&& left.len() == right.len()
    &&& forall|i: int| 0 <= i < left.len() ==> (#[trigger] left[i])@ == right[i]@
}

proof fn lemma_same_list(left: Seq<String>, right: Seq<String>)
    ensures
        texts(left) == texts(right) <==> same_list(left, right),
{
    if texts(left) == texts(right) {
        assert(texts(left).len() == texts(right).len());
        assert forall|i: int| 0 <= i < left.len() implies (#[trigger] left[i])@ == right[i]@ by {
            assert(texts(left)[i] == texts(right)[i]);
        }
    }
    if same_list(left, right) {
        assert forall|i: int| 0 <= i < left.len() implies texts(left)[i] == texts(right)[i] by {
            assert(left[i]@ == right[i]@);
        }
        assert(texts(left) =~= texts(right));
    }
}

/// A replay is accepted exactly if it gave the agent, the result and the
/// sources that the manifest expects, and, where the manifest says whether
/// there is an observation, there is one exactly then.
pub proof fn law_accepted_replays_give_what_is_expected(
    trace: BundleTrace,
    output: ReplayOutput,
    result: Result<(), BundleError>,
)
    requires
        call_ensures(check_replay, (&trace, &output), result),
    ensures
        result is Ok <==> {
            &&& output.agent@ == trace.expected_agent@
            &&& output.result_json@ == trace.expected_result_json@
            &&& trace.expected_observation == Some(true) ==> output.observation_present
            &&& trace.expected_observation == Some(false) ==> !output.observation_present
            &&& same_list(output.grounded_sources@, trace.expected_grounded_sources@)
        },
{
    lemma_same_list(output.grounded_sources@, trace.expected_grounded_sources@);
}

/// Where the manifest says whether there is an observation, of two outputs that
/// differ in nothing else at most one is accepted; where it says nothing, both
/// are or neither is.
pub proof fn law_stated_observations_decide(
    trace: BundleTrace,
    output: ReplayOutput,
    other: ReplayOutput,
    result: Result<(), BundleError>,
    other_result: Result<(), BundleError>,
)
    requires
        call_ensures(check_replay, (&trace, &output), result),
        call_ensures(check_replay, (&trace, &other), other_result),
        other == (ReplayOutput { observation_present: !output.observation_present, ..output }),
    ensures
        trace.expected_observation is Some ==> result is Err || other_result is Err,
        trace.expected_observation is None ==> (result is Ok <==> other_result is Ok),
{
    law_accepted_replays_give_what_is_expected(trace, output, result);
    law_accepted_replays_give_what_is_expected(trace, other, other_result);
}

/// What is accepted for one trace is accepted for another with the same
/// expectations: its name, place, source and digest do not matter.
pub proof fn law_only_expectations_decide(
    trace: BundleTrace,
    other: BundleTrace,
    output: ReplayOutput,
    result: Result<(), BundleError>,
    other_result: Result<(), BundleError>,
)
    requires
        call_ensures(check_replay, (&trace, &output), result),
        call_ensures(check_replay, (&other, &output), other_result),
        other.expected_agent@ == trace.expected_agent@,
        other.expected_result_json@ == trace.expected_result_json@,
        other.expected_observation == trace.expected_observation,
        same_list(other.expected_grounded_sources@, trace.expected_grounded_sources@),
    ensures
        result is Ok <==> other_result is Ok,
{
    law_accepted_replays_give_what_is_expected(trace, output, result);
    law_accepted_replays_give_what_is_expected(other, output, other_result);
    assert(same_list(output.grounded_sources@, trace.expected_grounded_sources@) <==> same_list(
        output.grounded_sources@,
        other.expected_grounded_sources@,
    )) by {
        lemma_same_list(output.grounded_sources@, trace.expected_grounded_sources@);
        lemma_same_list(output.grounded_sources@, other.expected_grounded_sources@);
        lemma_same_list(other.expected_grounded_sources@, trace.expected_grounded_sources@);
    }
}

/// A refused replay is reported with the first thing that is not as expected:
/// the agent, the result, the observation, the sources; with what was expected
/// before what was given, but for the agent.
pub proof fn law_refused_replays_name_the_first_difference(
    trace: BundleTrace,
    output: ReplayOutput,
    e: BundleError,
)
    requires
        call_ensures(check_replay, (&trace, &output), Err(e)),
    ensures
        e.class == ErrorClass::ReplayMismatch,
        output.agent@ != trace.expected_agent@ ==> e.message@ == "BundleReplayMismatch: "@ + (
        "trace `"@ + trace.name@ + "` replayed agent `"@ + output.agent@ + "` instead of `"@
            + trace.expected_agent@ + "`"@),
        output.agent@ == trace.expected_agent@ && output.result_json@
            != trace.expected_result_json@ ==> e.message@ == "BundleReplayMismatch: "@ + ("trace `"@
            + trace.name@ + "` result diverged (expected "@ + trace.expected_result_json@
            + ", got "@ + output.result_json@ + ")"@),
        output.agent@ == trace.expected_agent@ && output.result_json@
            == trace.expected_result_json@ ==> match trace.expected_observation {
            Some(true) => !output.observation_present ==> e.message@
                == "BundleReplayMismatch: "@ + ("trace `"@ + trace.name@
                + "` observation presence diverged (expected "@ + "true"@ + ", got "@ + "false"@
                + ")"@),
            Some(false) => output.observation_present ==> e.message@
                == "BundleReplayMismatch: "@ + ("trace `"@ + trace.name@
                + "` observation presence diverged (expected "@ + "false"@ + ", got "@ + "true"@
                + ")"@),
            None => true,
        },
        output.agent@ == trace.expected_agent@ && output.result_json@
            == trace.expected_result_json@ && (trace.expected_observation is None
            || trace.expected_observation == Some(output.observation_present)) ==> e.message@
            == "BundleReplayMismatch: "@ + ("trace `"@ + trace.name@
            + "` grounded sources diverged (expected "@ + debug_list(
            texts(trace.expected_grounded_sources@),
        ) + ", got "@ + debug_list(texts(output.grounded_sources@)) + ")"@),
{
}

// ---------------------------------------------------------------------------
// Before the call
// ---------------------------------------------------------------------------
/// A replay is planned exactly for a trace that records a run. It calls the
/// agent of that run with its arguments.
pub proof fn law_planned_calls_repeat_the_recorded_run(
    events: Vec<TraceEvent>,
    trace_path: &str,
    result: Result<ReplayPlan, BundleError>,
    run: Result<(&String, &Vec<TraceArg>), BundleError>,
    args: String,
)
    requires
        call_ensures(plan_replay, (&events, trace_path), result),
        call_ensures(last_run_started, (&events,), run),
        run matches Ok(found) ==> call_ensures(args_json, (found.1,), args),
    ensures
        result is Ok <==> run is Ok,
        result matches Ok(plan) ==> plan.agent@ == run->Ok_0.0@ && plan.args_json@ == args@,
        result matches Err(e) ==> e.class == ErrorClass::Other && e.message@
            == "trace had no run_started event"@,
{
    lemma_first_run(events@);
    if let Err(e) = result {
        reveal_strlit("");
        assert(e.message@ =~= "trace had no run_started event"@);
    }
}

/// Around a replay the trace is named, recording is switched off, and the seed
/// is set to that of the trace; the model is set exactly where the trace names
/// one. Nothing else is set.
pub proof fn law_planned_variables_come_from_the_trace(
    events: Vec<TraceEvent>,
    trace_path: &str,
    plan: ReplayPlan,
    seed: u64,
    model: Option<&String>,
)
    requires
        call_ensures(plan_replay, (&events, trace_path), Ok(plan)),
        call_ensures(derive_deterministic_seed, (&events,), seed),
        call_ensures(last_recorded_model, (&events,), model),
    ensures
        plan.env@.len() == if model is Some {
            4int
        } else {
            3int
        },
        plan.env@[0].0@ == "CORVID_REPLAY_TRACE_PATH"@ && plan.env@[0].1@ == trace_path@,
        plan.env@[1].0@ == "CORVID_TRACE_DISABLE"@ && plan.env@[1].1@ == "1"@,
        plan.env@[2].0@ == "CORVID_DETERMINISTIC_SEED"@ && plan.env@[2].1@ == decimal(seed as nat),
        model matches Some(name) ==> plan.env@[3].0@ == "CORVID_MODEL"@ && plan.env@[3].1@ == name@,
{
    let views = env_views(plan.env@);
    assert(views.len() == plan.env@.len());
    assert(views[0] == (plan.env@[0].0@, plan.env@[0].1@));
    assert(views[1] == (plan.env@[1].0@, plan.env@[1].1@));
    assert(views[2] == (plan.env@[2].0@, plan.env@[2].1@));
    if model is Some {
        assert(views[3] == (plan.env@[3].0@, plan.env@[3].1@));
    }
}

// ---------------------------------------------------------------------------
// After the call
// ---------------------------------------------------------------------------
/// The agent takes exactly one parameter, which is a string, and gives a
/// grounded string.
pub open spec fn takes_and_grounds_a_string(agent: AbiAgent) -> bool {
    &&& agent.params@.len() == 1
    &&& agent.params@[0].ty == (TypeDescription::Scalar { scalar: ScalarTypeName::String })
    &&& agent.return_type matches TypeDescription::Grounded { inner }
    &&& *inner == (TypeDescription::Scalar { scalar: ScalarTypeName::String })
}

/// Status zero finishes a replay. Status three leads to the direct call of an
/// agent that takes a string and grounds one. Everything else fails with the
/// status and the trace.
pub proof fn law_the_status_decides(
    status: u32,
    agent: Option<&AbiAgent>,
    trace_path: &str,
    result: Result<CallOutcome, BundleError>,
)
    requires
        call_ensures(judge_status, (status, agent, trace_path), result),
    ensures
        result == Ok::<CallOutcome, BundleError>(CallOutcome::Finished) <==> status == 0,
        result == Ok::<CallOutcome, BundleError>(CallOutcome::Direct) <==> {
            &&& status == 3
            &&& agent matches Some(a)
            &&& takes_and_grounds_a_string(*a)
        },
        result matches Err(e) ==> e.class == ErrorClass::ReplayMismatch && e.message@
            == "BundleReplayMismatch: "@ + ("replayed library returned status "@ + decimal(
            status as nat,
        ) + " for trace `"@ + trace_path@ + "`"@),
{
}

/// The output of a finished call names the agent, has an observation exactly if
/// the library gave a handle for one, and has no sources. Its result is what
/// the library wrote, and `null` where it wrote nothing.
pub proof fn law_outputs_report_the_call(
    agent: &str,
    result: Option<&[u8]>,
    observation_handle: u64,
    output: ReplayOutput,
    given: String,
    finished: ReplayOutput,
)
    requires
        call_ensures(called_output, (agent, result, observation_handle), output),
        call_ensures(finished_output, (agent, given, observation_handle), finished),
    ensures
        output.agent@ == agent@,
        output.observation_present <==> observation_handle != 0,
        output.grounded_sources@ =~= Seq::empty(),
        result is None ==> output.result_json@ == "null"@,
        result matches Some(bytes) ==> output.result_json@ == lossy_text(bytes@),
        result matches Some(bytes) ==> valid_utf8(bytes@) ==> output.result_json@ == decode_utf8(
            bytes@,
        ),
        finished.agent@ == agent@,
        finished.result_json == given,
        finished.observation_present <==> observation_handle != 0,
        finished.grounded_sources@ =~= Seq::empty(),
{
}

/// The output of a direct call names the agent, holds the value as a JSON
/// string, has an observation exactly if the library gave a handle for one, and
/// keeps the sources.
pub proof fn law_direct_outputs_report_the_call(
    agent: &str,
    value: &str,
    observation_handle: u64,
    sources: Vec<String>,
    result: Result<ReplayOutput, BundleError>,
)
    requires
        call_ensures(direct_output, (agent, value, observation_handle, sources), result),
    ensures
        result matches Ok(output) && {
            &&& output.agent@ == agent@
            &&& output.result_json@ == json_string(value@)
            &&& output.observation_present <==> observation_handle != 0
            &&& output.grounded_sources == sources
        },
{
}

/// A direct call takes exactly one argument, and only a string.
pub proof fn law_direct_calls_take_one_string(
    agent: AbiAgent,
    args: Vec<TraceArg>,
    result: Result<&String, BundleError>,
)
    requires
        call_ensures(direct_argument, (&agent, &args), result),
    ensures
        result matches Ok(text) ==> args@ =~= seq![TraceArg::Text { text: *text }],
        result matches Err(e) ==> {
            &&& !(args@.len() == 1 && args@[0] is Text)
            &&& e.class == ErrorClass::ReplayUnsupported
            &&& args@.len() != 1 ==> e.message@ == "BundleReplayUnsupported: "@ + (
            "grounded direct replay for `"@ + agent.name@ + "` expected one argument, got "@
                + decimal(args@.len()))
            &&& args@.len() == 1 ==> e.message@ == "BundleReplayUnsupported: "@ + (
            "grounded direct replay for `"@ + agent.name@ + "` expects one String argument"@)
        },
{
}

/// The value of a direct call is the text whose encoding was returned; a null
/// pointer and bytes that are no text are refused, and nothing else.
pub proof fn law_direct_values_are_texts(
    agent: &str,
    value: Option<&[u8]>,
    result: Result<String, BundleError>,
)
    requires
        call_ensures(direct_value, (agent, value), result),
    ensures
        result is Ok <==> (value matches Some(bytes) && valid_utf8(bytes@)),
        result matches Ok(text) ==> (value matches Some(bytes) && encode_utf8(text@) == bytes@),
        result matches Err(e) ==> match value {
            None => e.class == ErrorClass::ReplayMismatch && e.message@
                == "BundleReplayMismatch: "@ + ("grounded export `"@ + agent@
                + "` returned null String pointer"@),
            Some(_) => e.class == ErrorClass::Other && e.message@
                == "grounded replay result was not UTF-8"@,
        },
{
    if let Ok(text) = result {
        encode_utf8_valid_utf8(text@);
    }
    if let Err(e) = result {
        reveal_strlit("");
        if value is Some {
            assert(e.message@ =~= "grounded replay result was not UTF-8"@);
        }
    }
}

/// Without a handle there are no sources to read. With one the library is first
/// asked for their number, and then for as many as it said, unless it said
/// none; a negative number is refused.
pub proof fn law_sources_are_counted_before_they_are_fetched(
    handle: u64,
    count: Option<i32>,
    result: Result<SourcesStep, BundleError>,
)
    requires
        call_ensures(next_sources_step, (handle, count), result),
    ensures
        result == Ok::<SourcesStep, BundleError>(SourcesStep::Done) <==> handle == 0 || count
            == Some(0i32),
        result == Ok::<SourcesStep, BundleError>(SourcesStep::Count) <==> handle != 0
            && count is None,
        result matches Ok(SourcesStep::Fetch(n)) ==> handle != 0 && n > 0 && count == Some(
            n as i32,
        ) && n as i32 == n,
        result matches Err(e) ==> {
            &&& handle != 0
            &&& count matches Some(c)
            &&& c < 0
            &&& e.class == ErrorClass::ReplayMismatch
            &&& e.message@ == "BundleReplayMismatch: "@ + ("grounded handle "@ + decimal(
                handle as nat,
            ) + " exposed no sources"@)
        },
{
}

/// The sources are read exactly if the library handed out as many as it had
/// said and each is there and a text. They are those texts, in their order.
pub proof fn law_sources_are_read_in_full(
    count: i32,
    filled: i32,
    sources: Vec<Option<Vec<u8>>>,
    result: Result<Vec<String>, BundleError>,
)
    requires
        call_ensures(read_grounded_sources, (count, filled, &sources), result),
    ensures
        result is Ok <==> filled == count && forall|i: int|
            0 <= i < sources@.len() ==> (#[trigger] sources@[i] matches Some(bytes) && valid_utf8(
                bytes@,
            )),
        result matches Ok(list) ==> list@.len() == sources@.len() && forall|i: int|
            0 <= i < list@.len() ==> encode_utf8((#[trigger] list@[i])@) == sources@[i]->Some_0@,
        result matches Err(e) ==> filled != count ==> e.class == ErrorClass::ReplayMismatch
            && e.message@ == "BundleReplayMismatch: "@ + (
        "grounded sources count changed during read ("@ + signed_decimal(count as int) + " -> "@
            + signed_decimal(filled as int) + ")"@),
{
    if let Ok(list) = result {
        assert forall|i: int| 0 <= i < sources@.len() implies (#[trigger] sources@[i] matches Some(
            bytes,
        ) && valid_utf8(bytes@)) by {
            encode_utf8_valid_utf8(list@[i]@);
        }
        assert forall|i: int| 0 <= i < list@.len() implies encode_utf8((#[trigger] list@[i])@)
            == sources@[i]->Some_0@ by {
            assert(sources@[i] is Some);
        }
    } else {
        if filled == count {
            let n = choose|n: int| #[trigger] first_bad_source(sources@, n);
            assert(!is_source(sources@[n]));
        }
    }
}

/// Of the sources that were handed out in full, the first that cannot be read is
/// reported: a null pointer as a mismatch, anything else as no UTF-8.
pub proof fn law_the_first_bad_source_is_reported(
    count: i32,
    sources: Vec<Option<Vec<u8>>>,
    e: BundleError,
    n: int,
)
    requires
        call_ensures(read_grounded_sources, (count, count, &sources), Err(e)),
        0 <= n < sources@.len(),
        !(sources@[n] matches Some(bytes) && valid_utf8(bytes@)),
        forall|m: int|
            0 <= m < n ==> (#[trigger] sources@[m] matches Some(bytes) && valid_utf8(bytes@)),
    ensures
        sources@[n] is None ==> e.class == ErrorClass::ReplayMismatch && e.message@
            == "BundleReplayMismatch: "@ + "grounded source pointer was null"@,
        sources@[n] is Some ==> e.class == ErrorClass::Other && e.message@
            == "grounded source was not UTF-8"@,
{
    reveal_strlit("");
    assert(""@ + "grounded source was not UTF-8"@ =~= "grounded source was not UTF-8"@);
    let first = choose|first: int|
        #[trigger] first_bad_source(sources@, first) && bad_source(
            sources@[first],
            e,
        );
    if first < n {
        assert(!is_source(sources@[first]));
    }
    if n < first {
        assert(is_source(sources@[n]));
    }
}

} // verus!
