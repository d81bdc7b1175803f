use corvid_bundle::abi::{
    list_gated, render_ownership, AbiAgent, AbiOwnership, AbiOwnershipMode, AbiParam, CorvidAbi,
    TypeDescription,
};
use corvid_bundle::audit::{
    answer_from, answer_lines, answer_question, asked_question, topic_of, Topic,
};
use corvid_bundle::diff::{diff_bundles, diff_lines, BundleSide};
use corvid_bundle::digest::FileEntry;
use corvid_bundle::error::ErrorClass;
use corvid_bundle::explain::{explain_bundle, explanation_lines};
use corvid_bundle::manifest::{BundleHashes, BundleManifest, BundleTrace, LoadedManifest};
use corvid_bundle::report::{check_format, report_bundle, report_lines};
use std::path::Path;

fn joined(relative: &str) -> String {
    Path::new("bundle").join(relative).to_string_lossy().into_owned()
}

fn loaded(name: &str, signed: bool, traces: usize) -> LoadedManifest {
    LoadedManifest::load(
        "bundle".to_string(),
        "bundle/corvid-bundle.toml".to_string(),
        BundleManifest {
            bundle_schema_version: 1,
            name: name.to_string(),
            target_triple: "x86_64-unknown-linux-gnu".to_string(),
            primary_source: "src/a.cor".to_string(),
            tools_staticlib_path: None,
            library_path: "liba.so".to_string(),
            descriptor_path: "a.json".to_string(),
            header_path: None,
            bindings_rust_dir: "rust".to_string(),
            bindings_python_dir: "python".to_string(),
            capsule_path: None,
            receipt_envelope_path: if signed { Some("r.json".to_string()) } else { None },
            receipt_verify_key_path: if signed { Some("k.hex".to_string()) } else { None },
            traces: (0..traces)
                .map(|i| BundleTrace {
                    name: format!("t{i}"),
                    path: format!("t{i}.jsonl"),
                    source: String::new(),
                    sha256: String::new(),
                    expected_agent: String::new(),
                    expected_result_json: String::new(),
                    expected_grounded_sources: vec![],
                    expected_observation: None,
                })
                .collect(),
            hashes: BundleHashes {
                library: String::new(),
                descriptor: String::new(),
                header: None,
                bindings_rust: String::new(),
                bindings_python: String::new(),
                capsule: None,
                receipt_envelope: None,
                receipt_verify_key: None,
                tools_staticlib: None,
            },
            extra: vec![],
        },
    )
    .unwrap()
}

fn ownership(mode: AbiOwnershipMode, lifetime: Option<&str>) -> Option<AbiOwnership> {
    Some(AbiOwnership { mode, lifetime: lifetime.map(str::to_string) })
}

fn agent(name: &str, returns_with: Option<AbiOwnership>, params: Vec<Option<AbiOwnership>>) -> AbiAgent {
    AbiAgent {
        name: name.to_string(),
        symbol: name.to_string(),
        params: params
            .into_iter()
            .map(|ownership| AbiParam { ty: TypeDescription::Other, ownership })
            .collect(),
        return_type: TypeDescription::Other,
        return_ownership: returns_with,
        dangerous: name.starts_with("danger"),
        approval_required: name.starts_with("ask"),
    }
}

fn side(name: &str, traces: usize, agents: Vec<AbiAgent>, library: &[u8], rust: &[u8]) -> BundleSide {
    BundleSide {
        loaded: loaded(name, true, traces),
        abi: CorvidAbi { agents },
        descriptor: b"{}".to_vec(),
        library: library.to_vec(),
        bindings_rust: vec![FileEntry { relative: "a".to_string(), bytes: rust.to_vec() }],
        bindings_python: vec![],
    }
}

#[test]
fn ownership_is_annotated() {
    assert_eq!(render_ownership(&None), "@owned");
    assert_eq!(render_ownership(&ownership(AbiOwnershipMode::Owned, Some("x"))), "@owned");
    assert_eq!(render_ownership(&ownership(AbiOwnershipMode::Borrowed, None)), "@borrowed");
    assert_eq!(render_ownership(&ownership(AbiOwnershipMode::Borrowed, Some("call"))), "@borrowed");
    assert_eq!(
        render_ownership(&ownership(AbiOwnershipMode::Borrowed, Some("session"))),
        "@borrowed<'session>"
    );
    assert_eq!(render_ownership(&ownership(AbiOwnershipMode::Shared, None)), "@shared");
    assert_eq!(render_ownership(&ownership(AbiOwnershipMode::Static, None)), "@static");
}

#[test]
fn a_bundle_does_not_differ_from_itself() {
    let agents = || {
        vec![
            agent("a", ownership(AbiOwnershipMode::Shared, None), vec![None]),
            agent("b", None, vec![]),
        ]
    };
    let one = side("demo", 2, agents(), b"lib", b"rust");
    let same = side("demo", 2, agents(), b"lib", b"rust");
    let diff = diff_bundles(&one, &same);
    assert_eq!(
        diff_lines(&diff),
        vec![
            "bundle diff: demo -> demo",
            "target_changed=false",
            "descriptor_hash_changed=false",
            "library_hash_changed=false",
            "rust_bindings_hash_changed=false",
            "python_bindings_hash_changed=false",
            "trace_count_delta=0",
            "ownership_changes=none",
        ]
    );
}

#[test]
fn differences_are_listed_in_order() {
    let old_side = side(
        "old",
        3,
        vec![
            agent("gone", None, vec![]),
            agent(
                "kept",
                None,
                vec![None, ownership(AbiOwnershipMode::Shared, None), None],
            ),
        ],
        b"lib",
        b"rust",
    );
    let mut new_side = side(
        "new",
        1,
        vec![agent(
            "kept",
            ownership(AbiOwnershipMode::Borrowed, Some("session")),
            vec![None, ownership(AbiOwnershipMode::Static, None)],
        )],
        b"other",
        b"other",
    );
    new_side.loaded.manifest.target_triple = "aarch64-unknown-linux-gnu".to_string();
    let diff = diff_bundles(&old_side, &new_side);
    assert_eq!(diff.trace_count_delta, -2);
    assert_eq!(
        diff_lines(&diff),
        vec![
            "bundle diff: old -> new",
            "target_changed=true",
            "descriptor_hash_changed=false",
            "library_hash_changed=true",
            "rust_bindings_hash_changed=true",
            "python_bindings_hash_changed=false",
            "trace_count_delta=-2",
            "ownership_changes:",
            "  - kept return: @owned -> @borrowed<'session>",
            "  - kept arg[1]: @shared -> @static",
        ]
    );
    let reverse = diff_bundles(&new_side, &old_side);
    assert_eq!(reverse.trace_count_delta, 2);
    assert_eq!(reverse.old_name, "new");
    let mut there: Vec<[String; 4]> = diff
        .ownership_changes
        .into_iter()
        .map(|change| [change.agent, change.position, change.to, change.from])
        .collect();
    let mut back: Vec<[String; 4]> = reverse
        .ownership_changes
        .into_iter()
        .map(|change| [change.agent, change.position, change.from, change.to])
        .collect();
    there.sort();
    back.sort();
    assert_eq!(there, back);
    assert!(reverse.library_hash_changed);
}

#[test]
fn gated_agents_are_listed() {
    let agents = vec![agent("plain", None, vec![]), agent("danger", None, vec![]), agent("ask", None, vec![])];
    assert_eq!(list_gated(&agents), vec!["danger".to_string(), "ask".to_string()]);
}

#[test]
fn questions_have_topics() {
    assert_eq!(topic_of("Which agents are DANGEROUS?"), Topic::Approval);
    assert_eq!(topic_of("approval and signature"), Topic::Approval);
    assert_eq!(topic_of("Signature or ownership"), Topic::Signature);
    assert_eq!(topic_of("OWNERSHIP"), Topic::Ownership);
    assert_eq!(topic_of("what is this"), Topic::Overview);
    assert_eq!(topic_of(&asked_question(None)), Topic::Approval);
    assert_eq!(asked_question(Some("why")), "why");
    assert_eq!(
        asked_question(None),
        "summarize the approval, ownership, and signature status"
    );
}

#[test]
fn approval_questions_are_answered() {
    let bundle = loaded("demo", true, 0);
    let none = CorvidAbi { agents: vec![agent("plain", None, vec![])] };
    let answer = answer_question(&bundle, &none, "approval?");
    assert_eq!(
        answer.answer,
        "no exported agents require approval or expose dangerous behavior"
    );
    let some = CorvidAbi { agents: vec![agent("danger", None, vec![]), agent("ask", None, vec![])] };
    let answer = answer_question(&bundle, &some, "approval?");
    assert_eq!(
        answer_lines(&answer),
        vec![
            "question: approval?".to_string(),
            "answer: approval-gated agents: danger, ask".to_string(),
            "citations:".to_string(),
            format!("  - {}", joined("a.json")),
            "  - bundle/corvid-bundle.toml".to_string(),
        ]
    );
}

#[test]
fn questions_of_one_topic_get_one_answer() {
    let bundle = loaded("demo", true, 0);
    let abi = CorvidAbi { agents: vec![agent("ask", None, vec![])] };
    let questions = ["APPROVAL?", "approval?", "anything Dangerous about its signature"];
    for question in questions {
        let answer = answer_question(&bundle, &abi, question);
        assert_eq!(answer.question, question);
        assert_eq!(answer.answer, "approval-gated agents: ask");
        assert_eq!(answer.citations.len(), 2);
    }
    let answer = answer_from(&bundle, &abi, "ownership", "elsewhere.json");
    assert_eq!(answer.citations, vec!["elsewhere.json".to_string()]);
}

#[test]
fn signature_questions_are_answered() {
    let abi = CorvidAbi { agents: vec![] };
    let answer = answer_question(&loaded("demo", true, 0), &abi, "signature?");
    assert_eq!(
        answer.answer,
        "bundle includes a signed receipt envelope and a verifying key for offline signature validation"
    );
    assert_eq!(answer.citations, vec!["bundle/corvid-bundle.toml".to_string()]);
    let answer = answer_question(&loaded("demo", false, 0), &abi, "signature?");
    assert_eq!(answer.answer, "bundle has no signed receipt configured in its manifest");
}

#[test]
fn ownership_questions_are_answered() {
    let bundle = loaded("demo", true, 0);
    let answer = answer_question(&bundle, &CorvidAbi { agents: vec![agent("a", None, vec![])] }, "ownership");
    assert_eq!(answer.answer, "no explicit ownership annotations found in exported returns");
    let abi = CorvidAbi {
        agents: vec![
            agent("a", ownership(AbiOwnershipMode::Borrowed, Some("session")), vec![]),
            agent("b", None, vec![]),
            agent("c", ownership(AbiOwnershipMode::Static, None), vec![]),
        ],
    };
    let answer = answer_question(&bundle, &abi, "ownership");
    assert_eq!(answer.answer, "a return @borrowed; c return @static");
    assert_eq!(answer.citations, vec![joined("a.json")]);
}

#[test]
fn other_questions_get_an_overview() {
    let abi = CorvidAbi { agents: vec![agent("a", None, vec![])] };
    let answer = answer_question(&loaded("demo", true, 2), &abi, "what?");
    assert_eq!(
        answer.answer,
        "bundle `demo` targets x86_64-unknown-linux-gnu and ships 2 traces, 1 exported agents, and 1 signed receipt(s)"
    );
    assert_eq!(
        answer.citations,
        vec!["bundle/corvid-bundle.toml".to_string(), joined("a.json")]
    );
    let answer = answer_question(&loaded("demo", false, 0), &abi, "what?");
    assert!(answer.answer.ends_with("and 0 signed receipt(s)"));
}

#[test]
fn bundles_are_explained() {
    let abi = CorvidAbi { agents: vec![agent("a", None, vec![]), agent("b", None, vec![])] };
    let explanation = explain_bundle(&loaded("demo", true, 2), &abi);
    assert_eq!(
        explanation_lines(&explanation),
        vec![
            "bundle: demo".to_string(),
            "target: x86_64-unknown-linux-gnu".to_string(),
            "traces: 2".to_string(),
            "exported agents: a, b".to_string(),
            "signed receipt: true".to_string(),
            "citations:".to_string(),
            "  - bundle/corvid-bundle.toml".to_string(),
            format!("  - {}", joined("a.json")),
        ]
    );
}

#[test]
fn controls_are_reported() {
    let abi = CorvidAbi { agents: vec![agent("danger", None, vec![])] };
    let report = report_bundle(&loaded("demo", true, 0), &abi);
    assert_eq!(
        report_lines(&report),
        vec![
            "# SOC2-style control mapping".to_string(),
            String::new(),
            "bundle: demo".to_string(),
            String::new(),
            "## CC7.2 Change management and signed evidence".to_string(),
            format!("- {}", joined("a.json")),
            format!("- {}", joined("r.json")),
            String::new(),
            "## CC6.1 Approval-gated dangerous behavior".to_string(),
            "- danger".to_string(),
            String::new(),
            "## A1.2 Deterministic rebuild and binding projection".to_string(),
            "- corvid bundle verify --rebuild".to_string(),
            format!("- {}", joined("liba.so")),
            format!("- {}", joined("rust")),
            format!("- {}", joined("python")),
            String::new(),
        ]
    );
    let report = report_bundle(&loaded("demo", false, 0), &CorvidAbi { agents: vec![] });
    assert_eq!(report.controls[0].evidence[1], "manifest has no signed receipt");
    assert_eq!(report.controls[1].evidence, vec!["no exported dangerous agents".to_string()]);
}

#[test]
fn only_one_report_format_is_known() {
    assert!(check_format("soc2").is_ok());
    let e = check_format("SOC2").unwrap_err();
    assert_eq!(e.class, ErrorClass::Other);
    assert_eq!(e.message, "unsupported bundle report format `SOC2`; valid: soc2");
}
