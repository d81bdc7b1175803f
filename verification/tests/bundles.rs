use base64::Engine;
use corvid_bundle::committed::{
    committed_actions, settle, verify_committed, verify_digest, verify_hash, verify_trace_agent,
    Artifact, CommittedAction, Evidence, UNFIT_COUNT, UNFIT_EVIDENCE,
};
use corvid_bundle::digest::{sha256_bytes, sha256_dir, FileEntry};
use corvid_bundle::dsse::{pae, DsseEnvelope, DsseSignature};
use corvid_bundle::error::{BundleError, ErrorClass};
use corvid_bundle::manifest::{
    locate, BundleHashes, BundleManifest, BundleTrace, LoadedManifest, BUNDLE_SCHEMA_VERSION,
    MANIFEST_FILE,
};
use corvid_bundle::platform::{check_platform, current_target_triple};
use corvid_bundle::rebuild::{
    self, advance, next_action, BindLanguage, RebuildAction, RebuildEvent, RebuildState,
};
use corvid_bundle::replay::ReplayOutput;
use corvid_bundle::trace::{TraceArg, TraceEvent};
use corvid_bundle::verify::{self, conclude, verified_line, VerifyAction, VerifyEvent, VerifyState};
use ed25519_dalek::{Signer, SigningKey};
use std::path::Path;

const PAYLOAD_TYPE: &str = "application/vnd.corvid-receipt+json";

/// A bundle in memory: the manifest and what its files hold.
struct Fixture {
    loaded: LoadedManifest,
    library: Vec<u8>,
    descriptor: Vec<u8>,
    header: Vec<u8>,
    rust: Vec<(String, Vec<u8>)>,
    python: Vec<(String, Vec<u8>)>,
    trace: Vec<u8>,
    agent: String,
    envelope: Vec<u8>,
    signatures: Vec<String>,
    key: Vec<u8>,
}

fn entries(files: &[(String, Vec<u8>)]) -> Vec<FileEntry> {
    files
        .iter()
        .map(|(name, bytes)| FileEntry { relative: name.clone(), bytes: bytes.clone() })
        .collect()
}

fn joined(relative: &str) -> String {
    Path::new("bundle").join(relative).to_string_lossy().into_owned()
}

fn create_fixture() -> Fixture {
    let signing = SigningKey::from_bytes(&[3u8; 32]);
    let library = b"\x7fELF library".to_vec();
    let descriptor = b"{\"agents\":[\"classify\"]}".to_vec();
    let header = b"const char *classify(const char *);\n".to_vec();
    let rust = vec![("README.md".to_string(), b"rust binding\n".to_vec())];
    let python = vec![("pkg/__init__.py".to_string(), b"".to_vec())];
    let trace = b"{\"kind\":\"schema_header\"}\n".to_vec();
    let envelope = b"{\"payload\":\"Zm9v\"}".to_vec();
    let key: String = signing
        .verifying_key()
        .to_bytes()
        .iter()
        .map(|byte| format!("{byte:02x}"))
        .collect();
    let key = key.into_bytes();
    let sig = signing.sign(&pae(PAYLOAD_TYPE, b"foo")).to_bytes();
    let manifest = BundleManifest {
        bundle_schema_version: 1,
        name: "phase22-demo".to_string(),
        target_triple: "x86_64-unknown-linux-gnu".to_string(),
        primary_source: "src/classify.cor".to_string(),
        tools_staticlib_path: None,
        library_path: "artifacts/libclassify.so".to_string(),
        descriptor_path: "artifacts/classify.corvid-abi.json".to_string(),
        header_path: Some("artifacts/lib_classify.h".to_string()),
        bindings_rust_dir: "bindings_rust".to_string(),
        bindings_python_dir: "bindings_python".to_string(),
        capsule_path: None,
        receipt_envelope_path: Some("keys/receipt.envelope.json".to_string()),
        receipt_verify_key_path: Some("keys/verify.hex".to_string()),
        traces: vec![BundleTrace {
            name: "safe".to_string(),
            path: "traces/safe.jsonl".to_string(),
            source: "src/classify.cor".to_string(),
            sha256: sha256_bytes(&trace),
            expected_agent: "classify".to_string(),
            expected_result_json: "\"positive\"".to_string(),
            expected_grounded_sources: vec![],
            expected_observation: Some(true),
        }],
        hashes: BundleHashes {
            library: sha256_bytes(&library),
            descriptor: sha256_bytes(&descriptor),
            header: Some(sha256_bytes(&header)),
            bindings_rust: sha256_dir(&entries(&rust)),
            bindings_python: sha256_dir(&entries(&python)),
            capsule: None,
            receipt_envelope: Some(sha256_bytes(&envelope)),
            receipt_verify_key: Some(sha256_bytes(&key)),
            tools_staticlib: None,
        },
        extra: vec![("owner".to_string(), "\"team\"".to_string())],
    };
    let loaded = LoadedManifest::load(
        "bundle".to_string(),
        joined(MANIFEST_FILE),
        manifest,
    )
    .unwrap();
    Fixture {
        loaded,
        library,
        descriptor,
        header,
        rust,
        python,
        trace,
        agent: "classify".to_string(),
        envelope,
        signatures: vec![base64::engine::general_purpose::STANDARD.encode(sig)],
        key,
    }
}

impl Fixture {
    fn envelope(&self) -> DsseEnvelope {
        DsseEnvelope {
            payload_type: PAYLOAD_TYPE.to_string(),
            payload: "Zm9v".to_string(),
            signatures: self
                .signatures
                .iter()
                .map(|sig| DsseSignature { keyid: String::new(), sig: sig.clone() })
                .collect(),
        }
    }

    fn events(&self) -> Vec<TraceEvent> {
        vec![
            TraceEvent::SchemaHeader { ts_ms: 1 },
            TraceEvent::RunStarted {
                agent: self.agent.clone(),
                args: vec![TraceArg::Text { text: "great service".to_string() }],
            },
        ]
    }

    fn read(&self, action: &CommittedAction) -> Evidence {
        match action {
            CommittedAction::Hash { label, is_dir, .. } => {
                let artifact = match label.as_str() {
                    "library" => Artifact::File(self.library.clone()),
                    "descriptor" => Artifact::File(self.descriptor.clone()),
                    "header" => Artifact::File(self.header.clone()),
                    "bindings_rust" => Artifact::Dir(entries(&self.rust)),
                    "bindings_python" => Artifact::Dir(entries(&self.python)),
                    "receipt_envelope" => Artifact::File(self.envelope.clone()),
                    "receipt_verify_key" => Artifact::File(self.key.clone()),
                    "trace `safe`" => Artifact::File(self.trace.clone()),
                    other => panic!("no artifact {other}"),
                };
                assert_eq!(*is_dir, matches!(artifact, Artifact::Dir(_)));
                Evidence::Read(artifact)
            }
            CommittedAction::Trace { .. } => Evidence::Events(self.events()),
            CommittedAction::Receipt { .. } => Evidence::Receipt {
                envelope: self.envelope(),
                key_file: Ok(self.key.clone()),
            },
        }
    }

    fn evidence(&self) -> Vec<Evidence> {
        committed_actions(&self.loaded).iter().map(|action| self.read(action)).collect()
    }

    fn verify(&self) -> Result<(), BundleError> {
        verify_committed(&self.loaded, &self.evidence())
    }

    /// What comes of the work of a rebuild from a source that gives the given
    /// Rust binding.
    fn build(
        &self,
        arch: &str,
        os: &str,
        rust_binding: &[u8],
        action: RebuildAction,
    ) -> RebuildEvent {
        match action {
            RebuildAction::IdentifyHost => {
                RebuildEvent::Host { arch: arch.to_string(), os: os.to_string() }
            }
            RebuildAction::BuildDescriptor { source } => {
                assert_eq!(source, joined("src/classify.cor"));
                RebuildEvent::DescriptorBuilt {
                    diagnostics: vec![],
                    json: Some("{\"agents\":[\"classify\"]}".to_string()),
                }
            }
            RebuildAction::ReadFile { path } => {
                assert_eq!(path, joined("artifacts/classify.corvid-abi.json"));
                RebuildEvent::FileRead { bytes: self.descriptor.clone() }
            }
            RebuildAction::BuildLibrary { tools_staticlib, emit_header, .. } => {
                assert_eq!(tools_staticlib, None);
                assert!(emit_header);
                RebuildEvent::LibraryBuilt {
                    diagnostics: vec![],
                    output_path: Some("target/libclassify.so".to_string()),
                    header_path: Some("target/lib_classify.h".to_string()),
                }
            }
            RebuildAction::ReadPair { committed, rebuilt } => {
                if rebuilt == "target/libclassify.so" {
                    assert_eq!(committed, joined("artifacts/libclassify.so"));
                    RebuildEvent::PairRead {
                        committed: self.library.clone(),
                        rebuilt: b"\x7fELF library".to_vec(),
                    }
                } else {
                    assert_eq!(committed, joined("artifacts/lib_classify.h"));
                    RebuildEvent::PairRead {
                        committed: self.header.clone(),
                        rebuilt: b"const char *classify(const char *);\n".to_vec(),
                    }
                }
            }
            RebuildAction::GenerateBindings { language: BindLanguage::Rust, .. } => {
                RebuildEvent::DirsRead {
                    committed_files: entries(&self.rust),
                    rebuilt_files: entries(&[("README.md".to_string(), rust_binding.to_vec())]),
                }
            }
            RebuildAction::GenerateBindings { descriptor, committed, .. } => {
                assert_eq!(descriptor, "{\"agents\":[\"classify\"]}");
                assert_eq!(committed, joined("bindings_python"));
                RebuildEvent::DirsRead {
                    committed_files: entries(&self.python),
                    rebuilt_files: entries(&[("pkg/__init__.py".to_string(), vec![])]),
                }
            }
            RebuildAction::ReplayTrace { library, path } => {
                assert_eq!(library, "target/libclassify.so");
                assert_eq!(path, joined("traces/safe.jsonl"));
                RebuildEvent::Replayed {
                    output: ReplayOutput {
                        agent: "classify".to_string(),
                        result_json: "\"positive\"".to_string(),
                        observation_present: true,
                        grounded_sources: vec![],
                    },
                }
            }
        }
    }

    /// Rebuilds from a source that gives the given Rust binding.
    fn rebuild(&self, arch: &str, os: &str, rust_binding: &[u8]) -> Result<usize, BundleError> {
        let mut state = RebuildState::Start;
        let mut steps = 0;
        while let Some(action) = next_action(&self.loaded, &state) {
            let event = self.build(arch, os, rust_binding, action);
            state = advance(&self.loaded, state, event)?;
            steps += 1;
        }
        assert!(matches!(state, RebuildState::Verified));
        Ok(steps)
    }

    fn manifest_read(&self) -> VerifyEvent {
        VerifyEvent::ManifestRead {
            bundle_dir: self.loaded.bundle_dir.clone(),
            manifest_path: self.loaded.manifest_path.clone(),
            manifest: self.loaded.manifest.clone(),
        }
    }

    /// Runs a verification; gives its exit code, its report and how many events
    /// it took.
    fn run(&self, rebuild: bool) -> Result<(u8, String, usize), BundleError> {
        let mut state = VerifyState::Start { rebuild };
        let mut steps = 0;
        while let Some(action) = verify::next_action(&state) {
            assert!(conclude(&state).is_none());
            let event = match action {
                VerifyAction::ReadManifest => self.manifest_read(),
                VerifyAction::Rebuild { action } => VerifyEvent::Rebuilt {
                    event: self.build("x86_64", "linux", b"rust binding\n", action),
                },
                VerifyAction::Gather { action } => {
                    VerifyEvent::Gathered { evidence: self.read(action) }
                }
            };
            state = verify::advance(state, event)?;
            steps += 1;
        }
        let (code, line) = conclude(&state).unwrap();
        Ok((code, line, steps))
    }

    /// What a verification reports first.
    fn report(&self, rebuild: bool) -> Result<String, String> {
        match self.run(rebuild) {
            Ok((code, line, _)) => {
                assert_eq!(code, 0);
                assert_eq!(line, verified_line(&self.loaded));
                Ok(line)
            }
            Err(e) => Err(e.message),
        }
    }
}

#[test]
fn bundle_verify_accepts_happy_path_and_rejects_hash_or_signature_tampering() {
    let mut fixture = create_fixture();
    assert_eq!(
        fixture.report(false),
        Ok("bundle OK: phase22-demo (x86_64-unknown-linux-gnu)".to_string())
    );

    fixture.library = b"tampered".to_vec();
    let bad_hash = fixture.verify().unwrap_err();
    assert_eq!(bad_hash.class, ErrorClass::HashMismatch);
    assert_eq!(
        bad_hash.message,
        format!(
            "BundleHashMismatch: library expected {} but found {} for `{}`",
            fixture.loaded.manifest.hashes.library,
            sha256_bytes(b"tampered"),
            joined("artifacts/libclassify.so")
        )
    );
}

#[test]
fn bundle_verify_rejects_signature_tampering() {
    let mut fixture = create_fixture();
    fixture.envelope = b"{\"payloadType\":\"application/vnd.corvid-receipt+json\",\"payload\":\"Zm9v\",\"signatures\":[]}".to_vec();
    fixture.signatures.clear();
    fixture.loaded.manifest.hashes.receipt_envelope = Some(sha256_bytes(&fixture.envelope));
    let refused = fixture.report(false).unwrap_err();
    assert!(refused.contains("BundleSignatureVerifyFailed"), "report was: {refused}");
}

#[test]
fn bundle_verify_rebuild_accepts_happy_path_and_catches_binding_or_platform_drift() {
    let mut fixture = create_fixture();
    assert_eq!(
        fixture.report(true),
        Ok("bundle OK: phase22-demo (x86_64-unknown-linux-gnu)".to_string())
    );

    fixture.rust[0].1 = b"tampered binding\n".to_vec();
    let mismatch = fixture.report(true).unwrap_err();
    assert!(mismatch.contains("BundleRebuildMismatch"), "report was: {mismatch}");

    let unsupported = fixture.rebuild("x86_64", "macos", b"rust binding\n").unwrap_err();
    assert!(unsupported.message.contains("BundlePlatformUnsupported"));
}

#[test]
fn bundle_verify_rebuild_rejects_target_mismatch() {
    let mut fixture = create_fixture();
    fixture.loaded.manifest.target_triple = "x86_64-pc-windows-msvc".to_string();
    let refused = fixture.report(true).unwrap_err();
    assert!(refused.contains("BundlePlatformUnsupported"), "report was: {refused}");
    assert_eq!(
        refused,
        "BundlePlatformUnsupported: bundle target `x86_64-pc-windows-msvc` cannot be rebuilt on host `x86_64-unknown-linux-gnu`"
    );
}

#[test]
fn rebuild_takes_one_step_per_comparison() {
    assert_eq!(create_fixture().rebuild("x86_64", "linux", b"rust binding\n").unwrap(), 9);
}

#[test]
fn every_declared_hash_is_checked() {
    let fixture = create_fixture();
    let labels: Vec<String> = committed_actions(&fixture.loaded)
        .into_iter()
        .map(|action| match action {
            CommittedAction::Hash { label, .. } => label,
            CommittedAction::Trace { name, .. } => format!("agent of {name}"),
            CommittedAction::Receipt { .. } => "receipt".to_string(),
        })
        .collect();
    assert_eq!(
        labels,
        vec![
            "library",
            "descriptor",
            "header",
            "bindings_rust",
            "bindings_python",
            "receipt_envelope",
            "receipt_verify_key",
            "trace `safe`",
            "agent of safe",
            "receipt",
        ]
    );
}

#[test]
fn optional_artifacts_need_path_and_hash() {
    let mut fixture = create_fixture();
    fixture.loaded.manifest.hashes.header = None;
    fixture.loaded.manifest.receipt_verify_key_path = None;
    fixture.loaded.manifest.hashes.capsule = Some("hash without a path".to_string());
    fixture.loaded.manifest.tools_staticlib_path = Some("path without a hash".to_string());
    assert_eq!(committed_actions(&fixture.loaded).len(), 7);
    assert!(fixture.verify().is_ok());
}

#[test]
fn extra_fields_change_nothing() {
    let mut fixture = create_fixture();
    fixture.loaded.manifest.extra.clear();
    assert!(fixture.verify().is_ok());
    assert!(fixture.rebuild("x86_64", "linux", b"rust binding\n").is_ok());
}

#[test]
fn the_first_failing_check_is_reported() {
    let mut fixture = create_fixture();
    fixture.header = b"tampered".to_vec();
    fixture.key = b"tampered".to_vec();
    fixture.agent = "other".to_string();
    let e = fixture.verify().unwrap_err();
    assert!(e.message.starts_with("BundleHashMismatch: header expected "));
}

#[test]
fn traces_of_other_agents_are_refused() {
    let mut fixture = create_fixture();
    fixture.agent = "other".to_string();
    let e = fixture.verify().unwrap_err();
    assert_eq!(e.class, ErrorClass::TraceAgentMismatch);
    assert_eq!(
        e.message,
        "BundleTraceAgentMismatch: trace `safe` recorded `other` but manifest expected `classify`"
    );
    let e = verify_trace_agent("safe", &vec![TraceEvent::Other], "classify").unwrap_err();
    assert_eq!(e.message, "trace had no run_started event");
}

#[test]
fn failed_readings_are_reported_in_their_turn() {
    let fixture = create_fixture();
    let mut evidence = fixture.evidence();
    evidence[1] = Evidence::Failed(BundleError::new(ErrorClass::Other, "read `x` for hashing"));
    assert_eq!(
        verify_committed(&fixture.loaded, &evidence).unwrap_err().message,
        "read `x` for hashing"
    );
    evidence[0] = Evidence::Read(Artifact::File(b"tampered".to_vec()));
    assert_eq!(
        verify_committed(&fixture.loaded, &evidence).unwrap_err().class,
        ErrorClass::HashMismatch
    );
}

#[test]
fn a_missing_key_file_counts_only_for_signed_receipts() {
    let mut fixture = create_fixture();
    let missing = || Err(BundleError::new(ErrorClass::Other, "read verifying key `k`"));
    let mut evidence = fixture.evidence();
    *evidence.last_mut().unwrap() =
        Evidence::Receipt { envelope: fixture.envelope(), key_file: missing() };
    assert_eq!(
        verify_committed(&fixture.loaded, &evidence).unwrap_err().message,
        "read verifying key `k`"
    );
    fixture.signatures.clear();
    *evidence.last_mut().unwrap() =
        Evidence::Receipt { envelope: fixture.envelope(), key_file: missing() };
    assert_eq!(
        verify_committed(&fixture.loaded, &evidence).unwrap_err().message,
        format!(
            "BundleSignatureVerifyFailed: `{}` contains no signatures",
            joined("keys/receipt.envelope.json")
        )
    );
}

#[test]
fn hashes_of_directories_are_checked() {
    let files = vec![FileEntry { relative: "a".to_string(), bytes: vec![1] }];
    let digest = sha256_dir(&files);
    assert!(verify_hash("d", "p", &Artifact::Dir(files), &digest).is_ok());
    assert!(verify_hash("f", "p", &Artifact::File(vec![1]), &digest).is_err());
    assert!(verify_digest("f", "p", "ab", "ab").is_ok());
    assert_eq!(
        verify_digest("f", "p", "ab", "cd").unwrap_err().message,
        "BundleHashMismatch: f expected cd but found ab for `p`"
    );
}

#[test]
fn only_the_known_schema_version_is_loaded() {
    let mut manifest = create_fixture().loaded.manifest;
    manifest.bundle_schema_version = 2;
    let e = LoadedManifest::load("b".to_string(), "b/m.toml".to_string(), manifest).unwrap_err();
    assert_eq!(e.class, ErrorClass::SchemaVersionMismatch);
    assert_eq!(
        e.message,
        "BundleSchemaVersionMismatch: `b/m.toml` declares schema version 2, expected 1"
    );
    assert_eq!(BUNDLE_SCHEMA_VERSION, 1);
}

#[test]
fn unknown_fields_are_kept() {
    let loaded = create_fixture().loaded;
    assert_eq!(loaded.manifest.extra, vec![("owner".to_string(), "\"team\"".to_string())]);
}

#[test]
fn bundles_are_located_by_directory_or_manifest() {
    assert_eq!(
        locate("bundle", true, None).unwrap(),
        ("bundle".to_string(), joined("corvid-bundle.toml"))
    );
    assert_eq!(
        locate("bundle/other.toml", false, Some("bundle")).unwrap(),
        ("bundle".to_string(), "bundle/other.toml".to_string())
    );
    let e = locate("", false, None).unwrap_err();
    assert_eq!(e.class, ErrorClass::Other);
    assert_eq!(e.message, "bundle path `` has no parent");
}

#[test]
fn paths_are_resolved_like_the_platform_does() {
    let loaded = create_fixture().loaded;
    for relative in ["a", "a/b.txt", "", "..", "/abs/olute", "a/", "ü ß"] {
        assert_eq!(loaded.resolve(relative), joined(relative));
    }
    assert_eq!(loaded.primary_source_path(), joined("src/classify.cor"));
    assert_eq!(loaded.descriptor_path(), joined("artifacts/classify.corvid-abi.json"));
    assert_eq!(loaded.library_path(), joined("artifacts/libclassify.so"));
    assert_eq!(loaded.header_path(), Some(joined("artifacts/lib_classify.h")));
    assert_eq!(loaded.tools_staticlib_path(), None);
    assert_eq!(loaded.bindings_rust_dir(), joined("bindings_rust"));
    assert_eq!(loaded.bindings_python_dir(), joined("bindings_python"));
    assert_eq!(loaded.capsule_path(), None);
    assert_eq!(loaded.receipt_envelope_path(), Some(joined("keys/receipt.envelope.json")));
    assert_eq!(loaded.receipt_verify_key_path(), Some(joined("keys/verify.hex")));
}

#[test]
fn hosts_have_target_triples() {
    assert_eq!(current_target_triple("x86_64", "linux"), "x86_64-unknown-linux-gnu");
    assert_eq!(current_target_triple("aarch64", "linux"), "aarch64-unknown-linux-gnu");
    assert_eq!(current_target_triple("x86_64", "windows"), "x86_64-pc-windows-msvc");
    assert_eq!(current_target_triple("aarch64", "windows"), "aarch64-pc-windows-msvc");
    assert_eq!(current_target_triple("x86_64", "macos"), "x86_64-apple-darwin");
    assert_eq!(current_target_triple("aarch64", "macos"), "aarch64-apple-darwin");
    assert_eq!(current_target_triple("riscv64", "linux"), "unknown-target");
}

#[test]
fn rebuilds_are_for_linux_hosts_of_the_target() {
    assert!(check_platform("aarch64-unknown-linux-gnu", "aarch64", "linux").is_ok());
    let e = check_platform("x86_64-pc-windows-msvc", "x86_64", "windows").unwrap_err();
    assert_eq!(e.class, ErrorClass::PlatformUnsupported);
    assert_eq!(
        e.message,
        "BundlePlatformUnsupported: strict --rebuild verification is only supported on Linux in v1; host `x86_64-pc-windows-msvc` cannot rebuild bundle target `x86_64-pc-windows-msvc` byte-identically"
    );
}

#[test]
fn builds_must_be_clean_and_give_something() {
    let loaded = create_fixture().loaded;
    let descriptor = |diagnostics: Vec<String>, json: Option<String>| {
        advance(
            &loaded,
            RebuildState::Descriptor,
            RebuildEvent::DescriptorBuilt { diagnostics, json },
        )
        .map_err(|e| (e.class, e.message))
    };
    assert_eq!(
        descriptor(vec!["E1".to_string(), "E2".to_string()], None).unwrap_err(),
        (
            ErrorClass::RebuildFailed,
            "BundleRebuildFailed: descriptor rebuild surfaced 2 diagnostic(s); first: E1"
                .to_string()
        )
    );
    assert_eq!(
        descriptor(vec![], None).unwrap_err().1,
        "BundleRebuildFailed: descriptor rebuild produced no JSON"
    );
    let library = |diagnostics: Vec<String>| {
        advance(
            &loaded,
            RebuildState::Library { descriptor: "{}".to_string() },
            RebuildEvent::LibraryBuilt { diagnostics, output_path: None, header_path: None },
        )
        .unwrap_err()
        .message
    };
    assert_eq!(
        library(vec!["E1".to_string()]),
        "BundleRebuildFailed: library rebuild surfaced 1 diagnostic(s); first: E1"
    );
    assert_eq!(library(vec![]), "BundleRebuildFailed: library rebuild produced no output");
}

#[test]
fn rebuilt_files_must_be_byte_identical() {
    let loaded = create_fixture().loaded;
    let e = advance(
        &loaded,
        RebuildState::CommittedDescriptor { descriptor: "{}".to_string() },
        RebuildEvent::FileRead { bytes: b"{ }".to_vec() },
    )
    .unwrap_err();
    assert_eq!(
        e.message,
        "BundleRebuildMismatch: descriptor diverged at byte 1 (expected len 3, actual len 2)"
    );
    let e = advance(
        &loaded,
        RebuildState::LibraryBytes {
            descriptor: String::new(),
            library: String::new(),
            built_header: None,
        },
        RebuildEvent::PairRead { committed: vec![1], rebuilt: vec![2] },
    )
    .unwrap_err();
    assert!(e.message.starts_with("BundleRebuildMismatch: library diverged at byte 0"));
    let e = advance(
        &loaded,
        RebuildState::HeaderBytes {
            descriptor: String::new(),
            library: String::new(),
            header: String::new(),
        },
        RebuildEvent::PairRead { committed: vec![], rebuilt: vec![2] },
    )
    .unwrap_err();
    assert!(e.message.starts_with("BundleRebuildMismatch: header diverged at byte 0"));
}

#[test]
fn a_header_is_compared_only_when_both_sides_have_one() {
    let mut loaded = create_fixture().loaded;
    let after = |loaded: &LoadedManifest, built_header: Option<String>| {
        advance(
            loaded,
            RebuildState::LibraryBytes {
                descriptor: String::new(),
                library: String::new(),
                built_header,
            },
            RebuildEvent::PairRead { committed: vec![], rebuilt: vec![] },
        )
        .unwrap()
    };
    assert!(matches!(
        after(&loaded, Some("h".to_string())),
        RebuildState::HeaderBytes { .. }
    ));
    assert!(matches!(after(&loaded, None), RebuildState::RustBindings { .. }));
    loaded.manifest.header_path = None;
    assert!(matches!(
        after(&loaded, Some("h".to_string())),
        RebuildState::RustBindings { .. }
    ));
}

#[test]
fn failed_work_ends_a_rebuild() {
    let loaded = create_fixture().loaded;
    let e = advance(
        &loaded,
        RebuildState::Descriptor,
        RebuildEvent::Failed { failure: BundleError::new(ErrorClass::Other, "rebuild descriptor") },
    )
    .unwrap_err();
    assert_eq!(e.message, "rebuild descriptor");
}

#[test]
fn a_bundle_without_traces_is_verified_after_the_bindings() {
    let mut fixture = create_fixture();
    fixture.loaded.manifest.traces.clear();
    assert_eq!(fixture.rebuild("x86_64", "linux", b"rust binding\n").unwrap(), 8);
}

#[test]
fn plain_verification_looks_at_artifacts_only() {
    let mut fixture = create_fixture();
    let unchanged = fixture.loaded.clone();
    fixture.loaded.manifest.name = "renamed".to_string();
    fixture.loaded.manifest.target_triple = "aarch64-apple-darwin".to_string();
    fixture.loaded.manifest.primary_source = "elsewhere.cor".to_string();
    fixture.loaded.manifest.traces[0].source = "elsewhere.cor".to_string();
    fixture.loaded.manifest.traces[0].expected_result_json = "null".to_string();
    fixture.loaded.manifest.traces[0].expected_grounded_sources = vec!["s".to_string()];
    fixture.loaded.manifest.traces[0].expected_observation = None;
    assert!(fixture.verify().is_ok());
    fixture.header = b"tampered".to_vec();
    let evidence = fixture.evidence();
    assert_eq!(
        verify_committed(&fixture.loaded, &evidence).unwrap_err().message,
        verify_committed(&unchanged, &evidence).unwrap_err().message
    );
}

#[test]
fn checks_are_settled_one_by_one() {
    let mut fixture = create_fixture();
    fixture.header = b"tampered".to_vec();
    let actions = committed_actions(&fixture.loaded);
    let evidence = fixture.evidence();
    let settled: Vec<bool> = actions
        .iter()
        .zip(&evidence)
        .map(|(action, evidence)| settle(action, evidence).is_ok())
        .collect();
    assert_eq!(settled.iter().position(|accepted| !accepted), Some(2));
    assert_eq!(
        verify_committed(&fixture.loaded, &evidence).unwrap_err().message,
        settle(&actions[2], &evidence[2]).unwrap_err().message
    );
}

#[test]
fn evidence_that_does_not_fit_is_refused() {
    let fixture = create_fixture();
    let actions = committed_actions(&fixture.loaded);
    for action in &actions {
        let others = match action {
            CommittedAction::Hash { is_dir: true, .. } => {
                vec![Evidence::Read(Artifact::File(vec![])), Evidence::Events(vec![])]
            }
            CommittedAction::Hash { is_dir: false, .. } => {
                vec![Evidence::Read(Artifact::Dir(vec![])), Evidence::Events(vec![])]
            }
            CommittedAction::Trace { .. } => vec![Evidence::Read(Artifact::File(vec![]))],
            CommittedAction::Receipt { .. } => vec![Evidence::Events(vec![])],
        };
        for evidence in others {
            let e = settle(action, &evidence).unwrap_err();
            assert_eq!(e.class, ErrorClass::Other);
            assert_eq!(e.message, UNFIT_EVIDENCE);
        }
    }
    let mut evidence = fixture.evidence();
    evidence.pop();
    assert_eq!(
        verify_committed(&fixture.loaded, &evidence).unwrap_err().message,
        UNFIT_COUNT
    );
}

#[test]
fn events_that_were_not_asked_for_end_a_rebuild() {
    let loaded = create_fixture().loaded;
    let unawaited = |state: RebuildState, event: RebuildEvent| {
        let e = advance(&loaded, state, event).unwrap_err();
        assert_eq!(e.class, ErrorClass::Other);
        assert_eq!(e.message, rebuild::UNAWAITED_EVENT);
    };
    let read = || RebuildEvent::FileRead { bytes: vec![] };
    let replayed = || RebuildEvent::Replayed {
        output: ReplayOutput {
            agent: "classify".to_string(),
            result_json: "\"positive\"".to_string(),
            observation_present: true,
            grounded_sources: vec![],
        },
    };
    let beyond = || RebuildState::Replay { library: "l".to_string(), next: 1 };
    unawaited(RebuildState::Start, read());
    unawaited(RebuildState::Verified, read());
    unawaited(RebuildState::Descriptor, replayed());
    unawaited(beyond(), replayed());
    assert!(next_action(&loaded, &beyond()).is_none());
    assert!(matches!(
        advance(&loaded, RebuildState::Replay { library: "l".to_string(), next: 0 }, replayed()),
        Ok(RebuildState::Verified)
    ));
}

#[test]
fn a_strict_verification_adds_the_rebuild_to_a_plain_one() {
    let mut fixture = create_fixture();
    let checks = committed_actions(&fixture.loaded).len();
    let (code, line, steps) = fixture.run(false).unwrap();
    assert_eq!((code, line.as_str()), (0, "bundle OK: phase22-demo (x86_64-unknown-linux-gnu)"));
    assert_eq!(steps, 1 + checks);
    let rebuilding = fixture.rebuild("x86_64", "linux", b"rust binding\n").unwrap();
    assert_eq!(fixture.run(true).unwrap(), (0, line, 1 + rebuilding + checks));

    fixture.key = b"tampered".to_vec();
    let plain = fixture.run(false).unwrap_err();
    let strict = fixture.run(true).unwrap_err();
    assert_eq!(plain.class, ErrorClass::HashMismatch);
    assert_eq!(strict.message, plain.message);
    assert_eq!(fixture.verify().unwrap_err().message, plain.message);

    fixture = create_fixture();
    fixture.loaded.manifest.target_triple = "wasm32-unknown-unknown".to_string();
    assert!(fixture.run(false).is_ok());
    assert_eq!(fixture.run(true).unwrap_err().class, ErrorClass::PlatformUnsupported);

    fixture = create_fixture();
    fixture.loaded.manifest.bundle_schema_version = 2;
    for rebuild in [false, true] {
        assert_eq!(fixture.run(rebuild).unwrap_err().class, ErrorClass::SchemaVersionMismatch);
    }
    assert!(fixture.verify().is_ok());
}

#[test]
fn events_that_were_not_asked_for_end_a_verification() {
    let fixture = create_fixture();
    let unawaited = |state: VerifyState, event: VerifyEvent| {
        let e = verify::advance(state, event).unwrap_err();
        assert_eq!(e.class, ErrorClass::Other);
        assert_eq!(e.message, verify::UNAWAITED_EVENT);
    };
    let gathered = || VerifyEvent::Gathered { evidence: Evidence::Events(vec![]) };
    let verified = || VerifyState::Verified { loaded: fixture.loaded.clone() };
    let unchecked = || VerifyState::Checking {
        loaded: fixture.loaded.clone(),
        actions: vec![],
        next: 0,
    };
    unawaited(VerifyState::Start { rebuild: false }, gathered());
    unawaited(verified(), fixture.manifest_read());
    unawaited(unchecked(), gathered());
    assert!(verify::next_action(&unchecked()).is_none());
    assert!(conclude(&unchecked()).is_none());
    let failed = VerifyEvent::Failed { failure: BundleError::new(ErrorClass::Other, "read it") };
    assert_eq!(
        verify::advance(VerifyState::Start { rebuild: true }, failed).unwrap_err().message,
        "read it"
    );
}
