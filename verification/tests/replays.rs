use corvid_bundle::abi::{
    find_agent, matches_grounded_string_signature, AbiAgent, AbiParam, CorvidAbi, ScalarTypeName,
    TypeDescription,
};
use corvid_bundle::env_guard::EnvGuard;
use corvid_bundle::error::{BundleError, ErrorClass};
use corvid_bundle::manifest::BundleTrace;
use corvid_bundle::replay::{
    called_output, check_replay, direct_argument, direct_output, direct_value, finished_output,
    judge_status, next_sources_step, plan_replay, read_grounded_sources, CallOutcome, ReplayOutput, SourcesStep,
};
use corvid_bundle::replay_run::{
    advance, next_action, ReplayAction, ReplayEvent, ReplayState, UNAWAITED_EVENT,
};
use corvid_bundle::trace::{
    args_json, derive_deterministic_seed, last_recorded_model, last_run_started, TraceArg,
    TraceEvent,
};
use std::collections::BTreeMap;

fn text(text: &str) -> TraceArg {
    TraceArg::Text { text: text.to_string() }
}

fn value(json: &str) -> TraceArg {
    TraceArg::Other { json: json.to_string() }
}

fn run(agent: &str, args: Vec<TraceArg>) -> TraceEvent {
    TraceEvent::RunStarted { agent: agent.to_string(), args }
}

fn seed(purpose: &str, value: u64) -> TraceEvent {
    TraceEvent::SeedRead { purpose: purpose.to_string(), value }
}

fn model(name: &str) -> Option<String> {
    Some(name.to_string())
}

fn string_type() -> TypeDescription {
    TypeDescription::Scalar { scalar: ScalarTypeName::String }
}

fn agent(name: &str, params: Vec<TypeDescription>, return_type: TypeDescription) -> AbiAgent {
    AbiAgent {
        name: name.to_string(),
        symbol: format!("{name}_symbol"),
        params: params.into_iter().map(|ty| AbiParam { ty, ownership: None }).collect(),
        return_type,
        return_ownership: None,
        dangerous: false,
        approval_required: false,
    }
}

fn grounded_agent() -> AbiAgent {
    agent(
        "grounded_tag",
        vec![string_type()],
        TypeDescription::Grounded { inner: Box::new(string_type()) },
    )
}

fn trace(sources: &[&str], observation: Option<bool>) -> BundleTrace {
    BundleTrace {
        name: "safe".to_string(),
        path: "traces/safe.jsonl".to_string(),
        source: "src/classify.cor".to_string(),
        sha256: String::new(),
        expected_agent: "classify".to_string(),
        expected_result_json: "\"positive\"".to_string(),
        expected_grounded_sources: sources.iter().map(|s| s.to_string()).collect(),
        expected_observation: observation,
    }
}

fn output(sources: &[&str]) -> ReplayOutput {
    ReplayOutput {
        agent: "classify".to_string(),
        result_json: "\"positive\"".to_string(),
        observation_present: true,
        grounded_sources: sources.iter().map(|s| s.to_string()).collect(),
    }
}

#[test]
fn the_first_run_is_replayed() {
    let events = vec![
        TraceEvent::SchemaHeader { ts_ms: 5 },
        run("first", vec![value("1")]),
        run("second", vec![]),
    ];
    let (agent, args) = last_run_started(&events).unwrap();
    assert_eq!(agent, "first");
    assert_eq!(args.len(), 1);
    let e = last_run_started(&vec![TraceEvent::Other]).unwrap_err();
    assert_eq!(e.class, ErrorClass::Other);
    assert_eq!(e.message, "trace had no run_started event");
}

#[test]
fn the_last_default_seed_wins() {
    let header = || TraceEvent::SchemaHeader { ts_ms: 77 };
    assert_eq!(
        derive_deterministic_seed(&vec![
            header(),
            seed("rollout_default_seed", 1),
            seed("rollout_default_seed", 2),
            seed("other", 3),
        ]),
        2
    );
    assert_eq!(derive_deterministic_seed(&vec![seed("other", 3), header()]), 77);
    assert_eq!(
        derive_deterministic_seed(&vec![header(), TraceEvent::SchemaHeader { ts_ms: 78 }]),
        77
    );
    assert_eq!(derive_deterministic_seed(&vec![]), 0);
}

#[test]
fn the_last_model_wins() {
    let events = vec![
        TraceEvent::LlmCall { model: model("a") },
        TraceEvent::LlmResult { model: model("b") },
        TraceEvent::LlmCall { model: None },
        TraceEvent::Other,
    ];
    assert_eq!(last_recorded_model(&events), Some(&"b".to_string()));
    assert_eq!(last_recorded_model(&vec![TraceEvent::LlmResult { model: None }]), None);
}

#[test]
fn arguments_form_a_json_array() {
    assert_eq!(args_json(&vec![]), "[]");
    assert_eq!(args_json(&vec![value("true"), text("vip")]), "[true,\"vip\"]");
}

#[test]
fn a_replay_is_planned_from_its_events() {
    let events = vec![
        TraceEvent::SchemaHeader { ts_ms: 9 },
        run("classify", vec![text("great service")]),
        TraceEvent::LlmCall { model: model("mock-1") },
    ];
    let plan = plan_replay(&events, "traces/safe.jsonl").unwrap();
    assert_eq!(plan.agent, "classify");
    assert_eq!(plan.args_json, "[\"great service\"]");
    let env: Vec<(&str, &str)> =
        plan.env.iter().map(|(key, value)| (key.as_str(), value.as_str())).collect();
    assert_eq!(
        env,
        vec![
            ("CORVID_REPLAY_TRACE_PATH", "traces/safe.jsonl"),
            ("CORVID_TRACE_DISABLE", "1"),
            ("CORVID_DETERMINISTIC_SEED", "9"),
            ("CORVID_MODEL", "mock-1"),
        ]
    );
    assert!(plan_replay(&vec![], "t").is_err());
    assert_eq!(plan_replay(&vec![run("a", vec![])], "t").unwrap().env.len(), 3);
}

#[test]
fn agents_are_found_by_name() {
    let agents = vec![agent("a", vec![], TypeDescription::Other), grounded_agent()];
    assert_eq!(find_agent(&agents, "grounded_tag").unwrap().symbol, "grounded_tag_symbol");
    assert!(find_agent(&agents, "missing").is_none());
}

#[test]
fn grounded_string_agents_are_recognised() {
    assert!(matches_grounded_string_signature(&grounded_agent()));
    let grounded = || TypeDescription::Grounded { inner: Box::new(string_type()) };
    assert!(!matches_grounded_string_signature(&agent("a", vec![], grounded())));
    assert!(!matches_grounded_string_signature(&agent(
        "a",
        vec![TypeDescription::Scalar { scalar: ScalarTypeName::Other }],
        grounded()
    )));
    assert!(!matches_grounded_string_signature(&agent("a", vec![string_type()], string_type())));
    assert!(!matches_grounded_string_signature(&agent(
        "a",
        vec![string_type()],
        TypeDescription::Grounded { inner: Box::new(grounded()) }
    )));
}

#[test]
fn statuses_decide_how_a_replay_goes_on() {
    let grounded = grounded_agent();
    let plain = agent("a", vec![], TypeDescription::Other);
    assert_eq!(judge_status(0, None, "t").unwrap(), CallOutcome::Finished);
    assert_eq!(judge_status(0, Some(&grounded), "t").unwrap(), CallOutcome::Finished);
    assert_eq!(judge_status(3, Some(&grounded), "t").unwrap(), CallOutcome::Direct);
    let e = judge_status(3, Some(&plain), "traces/t.jsonl").unwrap_err();
    assert_eq!(e.class, ErrorClass::ReplayMismatch);
    assert_eq!(
        e.message,
        "BundleReplayMismatch: replayed library returned status 3 for trace `traces/t.jsonl`"
    );
    assert!(judge_status(3, None, "t").is_err());
    assert!(judge_status(1, Some(&grounded), "t").is_err());
}

#[test]
fn results_are_read_as_text() {
    let given = called_output("classify", Some(b"\"positive\""), 4);
    assert_eq!(given.agent, "classify");
    assert_eq!(given.result_json, "\"positive\"");
    assert!(given.observation_present);
    assert!(given.grounded_sources.is_empty());
    let none = called_output("classify", None, 0);
    assert_eq!(none.result_json, "null");
    assert!(!none.observation_present);
    assert_eq!(called_output("a", Some(&[b'x', 0xff]), 0).result_json, "x\u{fffd}");
    let finished = finished_output("a", "1".to_string(), 3);
    assert_eq!((finished.result_json.as_str(), finished.observation_present), ("1", true));
}

#[test]
fn direct_calls_take_one_string() {
    let grounded = grounded_agent();
    let args = vec![text("p")];
    assert_eq!(direct_argument(&grounded, &args).unwrap(), "p");
    let e = direct_argument(&grounded, &vec![]).unwrap_err();
    assert_eq!(e.class, ErrorClass::ReplayUnsupported);
    assert_eq!(
        e.message,
        "BundleReplayUnsupported: grounded direct replay for `grounded_tag` expected one argument, got 0"
    );
    let e = direct_argument(&grounded, &vec![value("1")]).unwrap_err();
    assert_eq!(
        e.message,
        "BundleReplayUnsupported: grounded direct replay for `grounded_tag` expects one String argument"
    );
}

#[test]
fn direct_values_must_be_utf8() {
    assert_eq!(direct_value("g", Some("ü".as_bytes())).unwrap(), "ü");
    let e = direct_value("g", None).unwrap_err();
    assert_eq!(
        e.message,
        "BundleReplayMismatch: grounded export `g` returned null String pointer"
    );
    let e = direct_value("g", Some(&[0xc3])).unwrap_err();
    assert_eq!(e.message, "grounded replay result was not UTF-8");
}

#[test]
fn direct_results_are_json_strings() {
    let text = "say \"hi\"\\\n\t\u{1}\u{1f}\u{8}\u{c}\r/ü\u{7f}";
    let given = direct_output("g", text, 0, vec!["s".to_string()]).unwrap();
    assert_eq!(
        given.result_json,
        "\"say \\\"hi\\\"\\\\\\n\\t\\u0001\\u001f\\b\\f\\r/ü\u{7f}\""
    );
    assert_eq!(given.grounded_sources, vec!["s".to_string()]);
    assert!(!given.observation_present);
    assert_eq!(direct_output("g", "positive", 1, vec![]).unwrap().result_json, "\"positive\"");
}

#[test]
fn sources_are_counted_before_they_are_fetched() {
    assert_eq!(next_sources_step(0, None).unwrap(), SourcesStep::Done);
    assert_eq!(next_sources_step(0, Some(-1)).unwrap(), SourcesStep::Done);
    assert_eq!(next_sources_step(8, None).unwrap(), SourcesStep::Count);
    assert_eq!(next_sources_step(8, Some(0)).unwrap(), SourcesStep::Done);
    assert_eq!(next_sources_step(8, Some(2)).unwrap(), SourcesStep::Fetch(2));
    let e = next_sources_step(8, Some(-1)).unwrap_err();
    assert_eq!(e.message, "BundleReplayMismatch: grounded handle 8 exposed no sources");
}

#[test]
fn sources_must_all_be_there() {
    let named = |bytes: &[u8]| Some(bytes.to_vec());
    assert_eq!(
        read_grounded_sources(1, 1, &vec![named(b"grounded_echo")]).unwrap(),
        vec!["grounded_echo".to_string()]
    );
    let e = read_grounded_sources(2, -1, &vec![]).unwrap_err();
    assert_eq!(
        e.message,
        "BundleReplayMismatch: grounded sources count changed during read (2 -> -1)"
    );
    let e = read_grounded_sources(2, 2, &vec![None, named(&[0xff])]).unwrap_err();
    assert_eq!(e.message, "BundleReplayMismatch: grounded source pointer was null");
    let e = read_grounded_sources(2, 2, &vec![named(&[0xff]), None]).unwrap_err();
    assert_eq!(e.message, "grounded source was not UTF-8");
}

#[test]
fn replays_must_give_what_is_expected() {
    assert!(check_replay(&trace(&["a"], Some(true)), &output(&["a"])).is_ok());
    assert!(check_replay(&trace(&[], None), &output(&[])).is_ok());

    let mut other = output(&[]);
    other.agent = "other".to_string();
    other.result_json = "null".to_string();
    assert_eq!(
        check_replay(&trace(&[], None), &other).unwrap_err().message,
        "BundleReplayMismatch: trace `safe` replayed agent `other` instead of `classify`"
    );
    let mut other = output(&["x"]);
    other.result_json = "null".to_string();
    assert_eq!(
        check_replay(&trace(&[], None), &other).unwrap_err().message,
        "BundleReplayMismatch: trace `safe` result diverged (expected \"positive\", got null)"
    );
    assert_eq!(
        check_replay(&trace(&[], Some(false)), &output(&[])).unwrap_err().message,
        "BundleReplayMismatch: trace `safe` observation presence diverged (expected false, got true)"
    );
    assert_eq!(
        check_replay(&trace(&["a"], None), &output(&["b", "\"c\""])).unwrap_err().message,
        "BundleReplayMismatch: trace `safe` grounded sources diverged (expected [\"a\"], got [\"b\", \"\\\"c\\\"\"])"
    );
}

#[test]
fn putting_back_undoes_changes() {
    let mut env: BTreeMap<String, u8> = BTreeMap::new();
    env.insert("A".to_string(), 1);
    let before = env.clone();
    let mut guard: EnvGuard<u8> = EnvGuard::new();
    for (key, value) in [("A", Some(2)), ("B", Some(3)), ("A", None), ("B", Some(4))] {
        guard.save(key, env.get(key).copied());
        match value {
            Some(value) => env.insert(key.to_string(), value),
            None => env.remove(key),
        };
    }
    assert_ne!(env, before);
    while let Some((key, value)) = guard.take() {
        match value {
            Some(value) => env.insert(key, value),
            None => env.remove(&key),
        };
    }
    assert_eq!(env, before);
}

fn trace_of(agent: &str, args: Vec<TraceArg>) -> ReplayEvent {
    ReplayEvent::TraceRead {
        events: vec![TraceEvent::SchemaHeader { ts_ms: 5 }, run(agent, args)],
    }
}

fn ready(agent: &str, args: Vec<TraceArg>) -> ReplayState {
    advance("t.jsonl", ReplayState::Start, trace_of(agent, args)).unwrap()
}

fn called(status: u32, agents: Vec<AbiAgent>, result: Option<&[u8]>) -> ReplayEvent {
    ReplayEvent::Called {
        status,
        abi: CorvidAbi { agents },
        result: result.map(<[u8]>::to_vec),
        observation_handle: 6,
    }
}

#[test]
fn a_replay_through_the_generic_entry_point() {
    assert!(matches!(next_action(&ReplayState::Start), Some(ReplayAction::ReadTrace)));
    let state = ready("classify", vec![value("true")]);
    match next_action(&state) {
        Some(ReplayAction::Call { agent, args_json, env }) => {
            assert_eq!(agent, "classify");
            assert_eq!(args_json, "[true]");
            assert_eq!(env[0], ("CORVID_REPLAY_TRACE_PATH".to_string(), "t.jsonl".to_string()));
            assert_eq!(env.len(), 3);
        }
        other => panic!("unexpected action {other:?}"),
    }
    let state = advance("t.jsonl", state, called(0, vec![], Some(b"\"positive\""))).unwrap();
    assert!(next_action(&state).is_none());
    match state {
        ReplayState::Finished { output } => {
            assert_eq!(output.agent, "classify");
            assert_eq!(output.result_json, "\"positive\"");
            assert!(output.observation_present);
            assert!(output.grounded_sources.is_empty());
        }
        other => panic!("unexpected state {other:?}"),
    }
}

#[test]
fn a_replay_through_a_direct_call() {
    let state = ready("grounded_tag", vec![text("p")]);
    let state = advance("t.jsonl", state, called(3, vec![grounded_agent()], None)).unwrap();
    match next_action(&state) {
        Some(ReplayAction::CallDirectly { symbol, argument, env }) => {
            assert_eq!(symbol, "grounded_tag_symbol");
            assert_eq!(argument, "p");
            assert_eq!(env.len(), 3);
        }
        other => panic!("unexpected action {other:?}"),
    }
    let direct = ReplayEvent::CalledDirectly {
        value: Some(b"catalog-proof".to_vec()),
        grounded_handle: 9,
        observation_handle: 0,
    };
    let state = advance("t.jsonl", state, direct).unwrap();
    assert!(matches!(next_action(&state), Some(ReplayAction::CountSources { handle: 9 })));
    let state = advance("t.jsonl", state, ReplayEvent::Counted { number: 1 }).unwrap();
    assert!(matches!(
        next_action(&state),
        Some(ReplayAction::FetchSources { handle: 9, wanted: 1 })
    ));
    let fetched =
        ReplayEvent::Fetched { filled: 1, sources: vec![Some(b"grounded_echo".to_vec())] };
    match advance("t.jsonl", state, fetched).unwrap() {
        ReplayState::Finished { output } => {
            assert_eq!(output.agent, "grounded_tag");
            assert_eq!(output.result_json, "\"catalog-proof\"");
            assert!(!output.observation_present);
            assert_eq!(output.grounded_sources, vec!["grounded_echo".to_string()]);
        }
        other => panic!("unexpected state {other:?}"),
    }
}

#[test]
fn a_direct_call_without_sources_is_finished_early() {
    let direct = |grounded_handle: u64| {
        let state = ready("grounded_tag", vec![text("p")]);
        let state = advance("t", state, called(3, vec![grounded_agent()], None)).unwrap();
        let event = ReplayEvent::CalledDirectly {
            value: Some(b"v".to_vec()),
            grounded_handle,
            observation_handle: 1,
        };
        advance("t", state, event).unwrap()
    };
    assert!(matches!(direct(0), ReplayState::Finished { .. }));
    let counted = advance("t", direct(2), ReplayEvent::Counted { number: 0 }).unwrap();
    assert!(matches!(counted, ReplayState::Finished { .. }));
    let e = advance("t", direct(2), ReplayEvent::Counted { number: -1 }).unwrap_err();
    assert_eq!(e.message, "BundleReplayMismatch: grounded handle 2 exposed no sources");
}

#[test]
fn replays_end_with_the_first_failure() {
    let message = |state: ReplayState, event: ReplayEvent| {
        advance("t.jsonl", state, event).unwrap_err().message
    };
    assert_eq!(
        message(ReplayState::Start, ReplayEvent::TraceRead { events: vec![] }),
        "trace had no run_started event"
    );
    assert_eq!(
        message(
            ReplayState::Start,
            ReplayEvent::Failed { failure: BundleError::new(ErrorClass::Other, "read trace `t`") }
        ),
        "read trace `t`"
    );
    assert_eq!(
        message(ready("a", vec![]), called(1, vec![], None)),
        "BundleReplayMismatch: replayed library returned status 1 for trace `t.jsonl`"
    );
    assert_eq!(
        message(ready("grounded_tag", vec![]), called(3, vec![grounded_agent()], None)),
        "BundleReplayUnsupported: grounded direct replay for `grounded_tag` expected one argument, got 0"
    );
    let state = ready("grounded_tag", vec![text("p")]);
    let state = advance("t.jsonl", state, called(3, vec![grounded_agent()], None)).unwrap();
    assert_eq!(
        message(
            state,
            ReplayEvent::CalledDirectly {
                value: None,
                grounded_handle: 0,
                observation_handle: 0
            }
        ),
        "BundleReplayMismatch: grounded export `grounded_tag` returned null String pointer"
    );
}

#[test]
fn different_values_have_different_json() {
    let values = ["", "\"", "\\", "\\\"", "\n", "\\n", "\u{1}", "\\u0001", "a", "b"];
    let quoted: Vec<String> = values
        .iter()
        .map(|value| direct_output("g", value, 0, vec![]).unwrap().result_json)
        .collect();
    for (i, left) in quoted.iter().enumerate() {
        for right in &quoted[i + 1..] {
            assert_ne!(left, right);
        }
    }
}

#[test]
fn putting_back_leaves_other_variables_alone() {
    let mut env: BTreeMap<String, u8> = BTreeMap::new();
    env.insert("A".to_string(), 1);
    let mut guard: EnvGuard<u8> = EnvGuard::new();
    for (key, value) in [("A", 2), ("B", 3)] {
        guard.save(key, env.get(key).copied());
        env.insert(key.to_string(), value);
    }
    env.insert("A".to_string(), 9);
    env.remove("B");
    env.insert("C".to_string(), 7);
    while let Some((key, value)) = guard.take() {
        match value {
            Some(value) => env.insert(key, value),
            None => env.remove(&key),
        };
    }
    let left: Vec<(&str, u8)> = env.iter().map(|(key, value)| (key.as_str(), *value)).collect();
    assert_eq!(left, vec![("A", 1), ("C", 7)]);
}

#[test]
fn both_calls_get_the_same_argument() {
    let recorded = "say \"hi\"\n\u{1}\\";
    let state = ready("grounded_tag", vec![text(recorded)]);
    match next_action(&state) {
        Some(ReplayAction::Call { args_json, .. }) => {
            assert_eq!(args_json, "[\"say \\\"hi\\\"\\n\\u0001\\\\\"]");
            assert_eq!(
                serde_json::from_str::<Vec<String>>(&args_json).unwrap(),
                vec![recorded.to_string()]
            );
        }
        other => panic!("unexpected action {other:?}"),
    }
    let state = advance("t.jsonl", state, called(3, vec![grounded_agent()], None)).unwrap();
    match next_action(&state) {
        Some(ReplayAction::CallDirectly { argument, .. }) => assert_eq!(argument, recorded),
        other => panic!("unexpected action {other:?}"),
    }
}

#[test]
fn events_that_were_not_asked_for_end_a_replay() {
    let unawaited = |state: ReplayState, event: ReplayEvent| {
        let e = advance("t.jsonl", state, event).unwrap_err();
        assert_eq!(e.class, ErrorClass::Other);
        assert_eq!(e.message, UNAWAITED_EVENT);
    };
    let sources = |grounded_handle: u64, count: Option<i32>| ReplayState::Sources {
        agent: "a".to_string(),
        value: "v".to_string(),
        observation_handle: 0,
        grounded_handle,
        count,
    };
    let fetched = |filled: i32, sources: Vec<Option<Vec<u8>>>| {
        ReplayEvent::Fetched { filled, sources }
    };
    let finished = || {
        advance("t.jsonl", ready("a", vec![]), called(0, vec![], None)).unwrap()
    };
    unawaited(ReplayState::Start, ReplayEvent::Counted { number: 0 });
    unawaited(ready("a", vec![]), trace_of("a", vec![]));
    unawaited(finished(), called(0, vec![], None));
    unawaited(sources(1, None), fetched(0, vec![]));
    unawaited(sources(1, Some(1)), ReplayEvent::Counted { number: 0 });
    unawaited(sources(0, None), ReplayEvent::Counted { number: 0 });
    unawaited(sources(1, Some(0)), fetched(0, vec![]));
    unawaited(sources(1, Some(-1)), fetched(-1, vec![]));
    unawaited(sources(1, Some(2)), fetched(2, vec![Some(vec![])]));
    assert!(next_action(&sources(1, Some(-1))).is_none());
    let failed = ReplayEvent::Failed { failure: BundleError::new(ErrorClass::Other, "late") };
    assert_eq!(advance("t.jsonl", finished(), failed).unwrap_err().message, "late");
}
