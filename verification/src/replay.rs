//! Replaying a trace against a rebuilt library: what to call it with, what to
//! make of what it gives back, and whether that is what the manifest expects.
use vstd::prelude::*;
use vstd::string::*;
use vstd::utf8::{decode_utf8, encode_utf8, encode_utf8_valid_utf8, valid_utf8};

use crate::abi::{is_grounded_string_agent, matches_grounded_string_signature, AbiAgent};
use crate::error::{BundleError, ErrorClass};
use crate::json::{json_string, quote_json};
use crate::manifest::BundleTrace;
use crate::text::{
    decimal, decimal_text, flag, flag_text, joined, same_text, signed_decimal, signed_text, texts,
};
use crate::trace::{
    arg_texts, args_array, args_json, derive_deterministic_seed, last_recorded_model, last_run_started,
    recorded_model, replay_seed, run_started, TraceArg, TraceEvent,
};

verus! {

/// The status after which a grounded string agent is called through its own
/// symbol.
pub const STATUS_TRY_DIRECT: u32 = 3;

/// What a replayed run gave.
#[derive(Debug)]
pub struct ReplayOutput {
    pub agent: String,
    pub result_json: String,
    pub observation_present: bool,
    pub grounded_sources: Vec<String>,
}

// ---------------------------------------------------------------------------
// Before the call
// ---------------------------------------------------------------------------
/// The call that replays a trace: agent, arguments, and the environment
/// variables that are set around it.
#[derive(Debug)]
pub struct ReplayPlan {
    pub agent: String,
    pub args_json: String,
    pub env: Vec<(String, String)>,
}

/// The environment entries as texts.
pub open spec fn env_views(env: Seq<(String, String)>) -> Seq<(Seq<char>, Seq<char>)> {
    Seq::new(env.len(), |i: int| (env[i].0@, env[i].1@))
}

/// The variables that are set around the replay of a trace.
pub open spec fn replay_env(events: Seq<TraceEvent>, trace_path: Seq<char>) -> Seq<
    (Seq<char>, Seq<char>),
> {
    let always = seq![
        ("CORVID_REPLAY_TRACE_PATH"@, trace_path),
        ("CORVID_TRACE_DISABLE"@, "1"@),
        ("CORVID_DETERMINISTIC_SEED"@, decimal(replay_seed(events) as nat)),
    ];
    match recorded_model(events) {
        Some(model) => always.push(("CORVID_MODEL"@, model@)),
        None => always,
    }
}

/// The plan replays the first run that the events record.
pub open spec fn is_plan_of(
    plan: ReplayPlan,
    events: Seq<TraceEvent>,
    trace_path: Seq<char>,
) -> bool {
    &&& run_started(events) matches Some(run)
    &&& plan.agent@ == run.0@
    &&& plan.args_json@ == args_array(run.1@)
    &&& env_views(plan.env@) == replay_env(events, trace_path)
}

/// Plans the replay of a trace.
pub fn plan_replay(events: &Vec<TraceEvent>, trace_path: &str) -> (result: Result<
    ReplayPlan,
    BundleError,
>)
    ensures
        match run_started(events@) {
            Some(_) => result matches Ok(plan) && is_plan_of(plan, events@, trace_path@),
            None => result matches Err(e) && e.says(
                ErrorClass::Other,
                "trace had no run_started event"@,
            ),
        },
{
    let (agent, args) = match last_run_started(events) {
        Ok(run) => run,
        Err(e) => {
            return Err(e);
        },
    };
    let seed: String = decimal_text(derive_deterministic_seed(events));
    let mut env: Vec<(String, String)> = Vec::new();
    env.push((String::from_str("CORVID_REPLAY_TRACE_PATH"), String::from_str(trace_path)));
    env.push((String::from_str("CORVID_TRACE_DISABLE"), String::from_str("1")));
    env.push((String::from_str("CORVID_DETERMINISTIC_SEED"), seed));
    if let Some(model) = last_recorded_model(events) {
        env.push((String::from_str("CORVID_MODEL"), model.clone()));
    }
    proof {
        assert(env_views(env@) =~= replay_env(events@, trace_path@));
    }
    Ok(ReplayPlan { agent: agent.clone(), args_json: args_json(args), env })
}

// ---------------------------------------------------------------------------
// After the call through the generic entry point
// ---------------------------------------------------------------------------
/// How a replay goes on after the call.
#[derive(Clone, Copy, Debug, PartialEq, Eq, Structural)]
pub enum CallOutcome {
    /// The call gave a result.
    Finished,
    /// The agent is called through its own symbol instead.
    Direct,
}

/// The agent is there and is a grounded string agent.
pub open spec fn is_direct(agent: Option<&AbiAgent>) -> bool {
    agent matches Some(a) && is_grounded_string_agent(*a)
}

/// How a call that failed is reported.
pub open spec fn status_detail(status: u32, trace_path: Seq<char>) -> Seq<char> {
    "replayed library returned status "@ + decimal(status as nat) + " for trace `"@ + trace_path
        + "`"@
}

/// Judges the status of the call.
pub fn judge_status(status: u32, agent: Option<&AbiAgent>, trace_path: &str) -> (result: Result<
    CallOutcome,
    BundleError,
>)
    ensures
        match result {
            Ok(CallOutcome::Direct) => status == STATUS_TRY_DIRECT && is_direct(agent),
            Ok(CallOutcome::Finished) => status == 0,
            Err(e) => status != 0 && !(status == STATUS_TRY_DIRECT && is_direct(agent)) && e.says(
                ErrorClass::ReplayMismatch,
                status_detail(status, trace_path@),
            ),
        },
{
    if status == STATUS_TRY_DIRECT {
        if let Some(agent) = agent {
            if matches_grounded_string_signature(agent) {
                return Ok(CallOutcome::Direct);
            }
        }
    }
    if status != 0 {
        let mut detail: String = String::from_str("replayed library returned status ");
        let number: String = decimal_text(status as u64);
        detail.append(number.as_str());
        detail.append(" for trace `");
        detail.append(trace_path);
        detail.append("`");
        return Err(BundleError::new(ErrorClass::ReplayMismatch, detail.as_str()));
    }
    Ok(CallOutcome::Finished)
}

/// The text that bytes stand for when what is no UTF-8 in them is replaced.
pub uninterp spec fn lossy_text(bytes: Seq<u8>) -> Seq<char>;

/// `String::from_utf8_lossy`. Its result is a function of the bytes alone;
/// valid UTF-8 is kept as it is.
#[verifier::external_body]
fn text_from_utf8_lossy(bytes: &[u8]) -> (text: String)
    ensures
        text@ == lossy_text(bytes@),
        valid_utf8(bytes@) ==> text@ == decode_utf8(bytes@),
{
    std::string::String::from_utf8_lossy(bytes).into_owned()
}

/// The output of a finished run with this result.
pub fn finished_output(agent: &str, result_json: String, observation_handle: u64) -> (output:
    ReplayOutput)
    ensures
        output.agent@ == agent@,
        output.result_json == result_json,
        output.observation_present == (observation_handle != 0),
        output.grounded_sources@.len() == 0,
{
    ReplayOutput {
        agent: String::from_str(agent),
        result_json,
        observation_present: observation_handle != 0,
        grounded_sources: Vec::new(),
    }
}

/// The output of a run that the generic entry point finished. Without result
/// bytes the result is JSON's `null`.
pub fn called_output(agent: &str, result: Option<&[u8]>, observation_handle: u64) -> (output:
    ReplayOutput)
    ensures
        output.agent@ == agent@,
        match result {
            Some(bytes) => output.result_json@ == lossy_text(bytes@) && (valid_utf8(bytes@)
                ==> output.result_json@ == decode_utf8(bytes@)),
            None => output.result_json@ == "null"@,
        },
        output.observation_present == (observation_handle != 0),
        output.grounded_sources@.len() == 0,
{
    let result_json: String = match result {
        Some(bytes) => text_from_utf8_lossy(bytes),
        None => String::from_str("null"),
    };
    finished_output(agent, result_json, observation_handle)
}

// ---------------------------------------------------------------------------
// The direct call of a grounded string agent
// ---------------------------------------------------------------------------
/// The argument of the direct call: the only one, if it is a string.
pub open spec fn direct_text(args: Seq<TraceArg>) -> Option<String> {
    if args.len() == 1 {
        match args[0] {
            TraceArg::Text { text } => Some(text),
            TraceArg::Other { .. } => None,
        }
    } else {
        None
    }
}

/// The string that a direct call is made with is the one that the generic entry
/// point is given, there as the only item of a JSON array.
pub proof fn law_both_calls_get_the_same_argument(args: Seq<TraceArg>, text: String)
    requires
        direct_text(args) == Some(text),
    ensures
        args_array(args) == "["@ + json_string(text@) + "]"@,
{
    assert(joined(arg_texts(args), ","@) =~= json_string(text@));
}

/// How arguments that a direct call does not take are reported.
pub open spec fn argument_detail(agent: Seq<char>, args: Seq<TraceArg>) -> Seq<char> {
    if args.len() != 1 {
        "grounded direct replay for `"@ + agent + "` expected one argument, got "@ + decimal(
            args.len(),
        )
    } else {
        "grounded direct replay for `"@ + agent + "` expects one String argument"@
    }
}

/// The argument of the direct call.
pub fn direct_argument<'a>(agent: &AbiAgent, args: &'a Vec<TraceArg>) -> (result: Result<
    &'a String,
    BundleError,
>)
    ensures
        match direct_text(args@) {
            Some(text) => result matches Ok(found) && *found == text,
            None => result matches Err(e) && e.says(
                ErrorClass::ReplayUnsupported,
                argument_detail(agent.name@, args@),
            ),
        },
{
    let mut detail: String = String::from_str("grounded direct replay for `");
    detail.append(agent.name.as_str());
    if args.len() != 1 {
        detail.append("` expected one argument, got ");
        let count: String = decimal_text(args.len() as u64);
        detail.append(count.as_str());
        return Err(BundleError::new(ErrorClass::ReplayUnsupported, detail.as_str()));
    }
    match &args[0] {
        TraceArg::Text { text } => Ok(text),
        TraceArg::Other { .. } => {
            detail.append("` expects one String argument");
            Err(BundleError::new(ErrorClass::ReplayUnsupported, detail.as_str()))
        },
    }
}

/// `std::str::from_utf8`: gives the text of which the bytes are the UTF-8
/// encoding, and nothing for bytes that are not valid UTF-8.
#[verifier::external_body]
fn text_from_utf8(bytes: &[u8]) -> (text: Option<String>)
    ensures
        match text {
            Some(t) => encode_utf8(t@) == bytes@,
            None => !valid_utf8(bytes@),
        },
{
    std::str::from_utf8(bytes).ok().map(String::from)
}

/// `e` reports that the direct call gave no text.
pub open spec fn value_failure(agent: Seq<char>, value: Option<Seq<u8>>, e: BundleError) -> bool {
    match value {
        None => e.says(
            ErrorClass::ReplayMismatch,
            "grounded export `"@ + agent + "` returned null String pointer"@,
        ),
        Some(_) => e.says(ErrorClass::Other, "grounded replay result was not UTF-8"@),
    }
}

/// The value that the direct call gave. `value` holds the bytes that the
/// returned pointer leads to, and nothing for a null pointer.
pub fn direct_value(agent: &str, value: Option<&[u8]>) -> (result: Result<String, BundleError>)
    ensures
        match value {
            None => result matches Err(e) && value_failure(agent@, None, e),
            Some(bytes) => match result {
                Ok(text) => encode_utf8(text@) == bytes@,
                Err(e) => !valid_utf8(bytes@) && value_failure(agent@, Some(bytes@), e),
            },
        },
{
    match value {
        None => {
            let mut detail: String = String::from_str("grounded export `");
            detail.append(agent);
            detail.append("` returned null String pointer");
            Err(BundleError::new(ErrorClass::ReplayMismatch, detail.as_str()))
        },
        Some(bytes) => match text_from_utf8(bytes) {
            Some(text) => Ok(text),
            None => Err(
                BundleError::new(ErrorClass::Other, "grounded replay result was not UTF-8"),
            ),
        },
    }
}

/// What reading the sources of a grounded value takes next.
#[derive(Clone, Copy, Debug, PartialEq, Eq, Structural)]
pub enum SourcesStep {
    /// There are no sources to read.
    Done,
    /// The library is asked how many sources there are.
    Count,
    /// The library is asked for this many sources.
    Fetch(usize),
}

/// How a handle without sources is reported.
pub open spec fn no_sources_detail(handle: u64) -> Seq<char> {
    "grounded handle "@ + decimal(handle as nat) + " exposed no sources"@
}

/// The next step of reading the sources behind a handle. `count` is what the
/// library said of their number, once it was asked.
pub fn next_sources_step(handle: u64, count: Option<i32>) -> (result: Result<
    SourcesStep,
    BundleError,
>)
    ensures
        if handle == 0 {
            result == Ok::<SourcesStep, BundleError>(SourcesStep::Done)
        } else {
            match count {
                None => result == Ok::<SourcesStep, BundleError>(SourcesStep::Count),
                Some(n) => if n < 0 {
                    result matches Err(e) && e.says(
                        ErrorClass::ReplayMismatch,
                        no_sources_detail(handle),
                    )
                } else if n == 0 {
                    result == Ok::<SourcesStep, BundleError>(SourcesStep::Done)
                } else {
                    result == Ok::<SourcesStep, BundleError>(SourcesStep::Fetch(n as usize))
                },
            }
        },
{
    if handle == 0 {
        return Ok(SourcesStep::Done);
    }
    match count {
        None => Ok(SourcesStep::Count),
        Some(n) => {
            if n < 0 {
                let mut detail: String = String::from_str("grounded handle ");
                let number: String = decimal_text(handle);
                detail.append(number.as_str());
                detail.append(" exposed no sources");
                return Err(BundleError::new(ErrorClass::ReplayMismatch, detail.as_str()));
            }
            if n == 0 {
                return Ok(SourcesStep::Done);
            }
            Ok(SourcesStep::Fetch(n as usize))
        },
    }
}

/// The source is there and is valid UTF-8.
pub open spec fn is_source(source: Option<Vec<u8>>) -> bool {
    source matches Some(bytes) && valid_utf8(bytes@)
}

/// Source `n` is the first that is not there or no UTF-8.
pub open spec fn first_bad_source(sources: Seq<Option<Vec<u8>>>, n: int) -> bool {
    &&& 0 <= n < sources.len()
    &&& !is_source(sources[n])
    &&& forall|m: int| 0 <= m < n ==> is_source(#[trigger] sources[m])
}

/// How a bad source is reported.
pub open spec fn bad_source(source: Option<Vec<u8>>, e: BundleError) -> bool {
    match source {
        None => e.says(ErrorClass::ReplayMismatch, "grounded source pointer was null"@),
        Some(_) => e.says(ErrorClass::Other, "grounded source was not UTF-8"@),
    }
}

/// The list holds the texts of the sources.
pub open spec fn are_texts_of(list: Seq<String>, sources: Seq<Option<Vec<u8>>>) -> bool {
    &&& list.len() == sources.len()
    &&& forall|i: int|
        0 <= i < sources.len() ==> (#[trigger] sources[i] matches Some(bytes) && encode_utf8(
            list[i]@,
        ) == bytes@)
}

/// `e` reports why the sources cannot be read.
pub open spec fn sources_failure(
    count: i32,
    filled: i32,
    sources: Seq<Option<Vec<u8>>>,
    e: BundleError,
) -> bool {
    if filled != count {
        e.says(
            ErrorClass::ReplayMismatch,
            "grounded sources count changed during read ("@ + signed_decimal(count as int)
                + " -> "@ + signed_decimal(filled as int) + ")"@,
        )
    } else {
        exists|n: int| #[trigger] first_bad_source(sources, n) && bad_source(sources[n], e)
    }
}

/// The sources that the library handed out. `filled` is how many it said it
/// did, after it had said that there are `count`; a source is missing where it
/// gave a null pointer.
pub fn read_grounded_sources(count: i32, filled: i32, sources: &Vec<Option<Vec<u8>>>) -> (result:
    Result<Vec<String>, BundleError>)
    ensures
        match result {
            Ok(list) => filled == count && are_texts_of(list@, sources@),
            Err(e) => sources_failure(count, filled, sources@, e),
        },
{
    if filled != count {
        let mut detail: String = String::from_str("grounded sources count changed during read (");
        let before: String = signed_text(count as i128);
        detail.append(before.as_str());
        detail.append(" -> ");
        let after: String = signed_text(filled as i128);
        detail.append(after.as_str());
        detail.append(")");
        return Err(BundleError::new(ErrorClass::ReplayMismatch, detail.as_str()));
    }
    let mut list: Vec<String> = Vec::new();
    let mut i: usize = 0;
    while i < sources.len()
        invariant
            i <= sources@.len(),
            filled == count,
            list@.len() == i,
            forall|k: int|
                0 <= k < i ==> (#[trigger] sources@[k] matches Some(bytes) && encode_utf8(
                    list@[k]@,
                ) == bytes@),
            forall|k: int| 0 <= k < i ==> is_source(#[trigger] sources@[k]),
        decreases sources@.len() - i,
    {
        match &sources[i] {
            None => {
                proof {
                    assert(first_bad_source(sources@, i as int));
                }
                return Err(
                    BundleError::new(
                        ErrorClass::ReplayMismatch,
                        "grounded source pointer was null",
                    ),
                );
            },
            Some(bytes) => match text_from_utf8(bytes.as_slice()) {
                Some(text) => {
                    proof {
                        encode_utf8_valid_utf8(text@);
                    }
                    list.push(text);
                },
                None => {
                    proof {
                        assert(first_bad_source(sources@, i as int));
                    }
                    return Err(BundleError::new(ErrorClass::Other, "grounded source was not UTF-8"));
                },
            },
        }
        i = i + 1;
    }
    Ok(list)
}

/// The output of a run that was called directly.
pub fn direct_output(
    agent: &str,
    value: &str,
    observation_handle: u64,
    grounded_sources: Vec<String>,
) -> (result: Result<ReplayOutput, BundleError>)
    ensures
        result matches Ok(output) && output.agent@ == agent@ && output.result_json@ == json_string(
            value@,
        ) && output.observation_present == (observation_handle != 0) && output.grounded_sources
            == grounded_sources,
{
    match quote_json(value) {
        Some(result_json) => Ok(
            ReplayOutput {
                agent: String::from_str(agent),
                result_json,
                observation_present: observation_handle != 0,
                grounded_sources,
            },
        ),
        None => Err(BundleError::new(ErrorClass::Other, "serialize grounded replay result")),
    }
}

// ---------------------------------------------------------------------------
// Comparison with the manifest
// ---------------------------------------------------------------------------
/// A list of strings in the form that is meant for diagnostics.
pub uninterp spec fn debug_list(list: Seq<Seq<char>>) -> Seq<char>;

/// The `Debug` form of a list of strings. It is a function of the strings
/// alone.
#[verifier::external_body]
fn debug_text(list: &Vec<String>) -> (text: String)
    ensures
        text@ == debug_list(texts(list@)),
{
    format!("{:?}", list)
}

/// The replay gave what the manifest expects of the trace.
pub open spec fn replay_matches(trace: BundleTrace, output: ReplayOutput) -> bool {
    &&& output.agent@ == trace.expected_agent@
    &&& output.result_json@ == trace.expected_result_json@
    &&& trace.expected_observation matches Some(expected) ==> output.observation_present == expected
    &&& texts(output.grounded_sources@) == texts(trace.expected_grounded_sources@)
}

/// How a replay that gave something else is reported: the agent comes first,
/// then the result, the observation and the sources.
pub open spec fn replay_detail(trace: BundleTrace, output: ReplayOutput) -> Seq<char> {
    if output.agent@ != trace.expected_agent@ {
        "trace `"@ + trace.name@ + "` replayed agent `"@ + output.agent@ + "` instead of `"@
            + trace.expected_agent@ + "`"@
    } else if output.result_json@ != trace.expected_result_json@ {
        "trace `"@ + trace.name@ + "` result diverged (expected "@ + trace.expected_result_json@
            + ", got "@ + output.result_json@ + ")"@
    } else if trace.expected_observation matches Some(expected) && output.observation_present
        != expected {
        "trace `"@ + trace.name@ + "` observation presence diverged (expected "@ + flag(
            trace.expected_observation->Some_0,
        ) + ", got "@ + flag(output.observation_present) + ")"@
    } else {
        "trace `"@ + trace.name@ + "` grounded sources diverged (expected "@ + debug_list(
            texts(trace.expected_grounded_sources@),
        ) + ", got "@ + debug_list(texts(output.grounded_sources@)) + ")"@
    }
}

/// Compares two lists of strings.
fn same_texts(left: &Vec<String>, right: &Vec<String>) -> (same: bool)
    ensures
        same == (texts(left@) == texts(right@)),
{
    if left.len() != right.len() {
        proof {
            assert(texts(left@).len() != texts(right@).len());
        }
        return false;
    }
    let mut i: usize = 0;
    while i < left.len()
        invariant
            i <= left@.len(),
            left@.len() == right@.len(),
            forall|k: int| 0 <= k < i ==> (#[trigger] left@[k])@ == right@[k]@,
        decreases left@.len() - i,
    {
        if !same_text(left[i].as_str(), right[i].as_str()) {
            proof {
                assert(texts(left@)[i as int] != texts(right@)[i as int]);
            }
            return false;
        }
        i = i + 1;
    }
    proof {
        assert(texts(left@) =~= texts(right@));
    }
    true
}

/// Accepts a replay that gave what the manifest expects.
pub fn check_replay(trace: &BundleTrace, output: &ReplayOutput) -> (result: Result<
    (),
    BundleError,
>)
    ensures
        match result {
            Ok(_) => replay_matches(*trace, *output),
            Err(e) => !replay_matches(*trace, *output) && e.says(
                ErrorClass::ReplayMismatch,
                replay_detail(*trace, *output),
            ),
        },
{
    let mut detail: String = String::from_str("trace `");
    detail.append(trace.name.as_str());
    if !same_text(output.agent.as_str(), trace.expected_agent.as_str()) {
        detail.append("` replayed agent `");
        detail.append(output.agent.as_str());
        detail.append("` instead of `");
        detail.append(trace.expected_agent.as_str());
        detail.append("`");
        return Err(BundleError::new(ErrorClass::ReplayMismatch, detail.as_str()));
    }
    if !same_text(output.result_json.as_str(), trace.expected_result_json.as_str()) {
        detail.append("` result diverged (expected ");
        detail.append(trace.expected_result_json.as_str());
        detail.append(", got ");
        detail.append(output.result_json.as_str());
        detail.append(")");
        return Err(BundleError::new(ErrorClass::ReplayMismatch, detail.as_str()));
    }
    if let Some(expected) = trace.expected_observation {
        if output.observation_present != expected {
            detail.append("` observation presence diverged (expected ");
            detail.append(flag_text(expected));
            detail.append(", got ");
            detail.append(flag_text(output.observation_present));
            detail.append(")");
            return Err(BundleError::new(ErrorClass::ReplayMismatch, detail.as_str()));
        }
    }
    if !same_texts(&output.grounded_sources, &trace.expected_grounded_sources) {
        detail.append("` grounded sources diverged (expected ");
        let wanted: String = debug_text(&trace.expected_grounded_sources);
        detail.append(wanted.as_str());
        detail.append(", got ");
        let found: String = debug_text(&output.grounded_sources);
        detail.append(found.as_str());
        detail.append(")");
        return Err(BundleError::new(ErrorClass::ReplayMismatch, detail.as_str()));
    }
    Ok(())
}

} // verus!
