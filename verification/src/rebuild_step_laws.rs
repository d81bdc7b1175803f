//! What each step of a rebuild asks for, compares and carries along.
use vstd::prelude::*;
use vstd::string::*;
use vstd::utf8::encode_utf8;

use crate::committed::{committed_checks, PlannedCheck};
use crate::committed_laws::law_checks_are_those_declared;
use crate::compare::{compare_bytes, compare_digests, compare_dirs, is_first_difference};
use crate::digest::{dir_digest, file_views, FileEntry};
use crate::error::{BundleError, ErrorClass};
use crate::manifest::LoadedManifest;
use crate::manifest_laws::{leads, leads_optional};
use crate::platform::{check_platform, current_target_triple};
use crate::rebuild::{advance, next_action, RebuildAction, RebuildEvent, RebuildState};
use crate::rebuild_laws::{dirs_agree, law_verified_rebuilds_agree, replay_agrees, verifies};
use crate::replay::{check_replay, ReplayOutput};
use crate::text::{decimal, texts};

verus! {

// ---------------------------------------------------------------------------
// What is asked for
// ---------------------------------------------------------------------------
/// The manifest has a digest for the artifact under the label, and the path is
/// where the checked artifact is.
pub open spec fn is_checked_place(
    loaded: LoadedManifest,
    label: Seq<char>,
    expected: Seq<char>,
    is_dir: bool,
    path: Seq<char>,
) -> bool {
    exists|relative: Seq<char>|
        #![trigger leads(loaded.bundle_dir@, relative, path)]
        leads(loaded.bundle_dir@, relative, path) && committed_checks(loaded.manifest).contains(
            PlannedCheck::Hash { label, relative, expected, is_dir },
        )
}

/// Regenerated bindings are compared with the committed bindings of the same
/// language: with the directory whose digest is checked as `bindings_rust` or
/// `bindings_python`, which is where the manifest's directory for that language
/// leads. Each language has its step.
pub proof fn law_bindings_are_compared_with_those_of_their_language(
    loaded: LoadedManifest,
    state: RebuildState,
    action: Option<RebuildAction>,
)
    requires
        call_ensures(next_action, (&loaded, &state), action),
    ensures
        action matches Some(RebuildAction::GenerateBindings { language, committed, .. }) ==> {
            let m = loaded.manifest;
            &&& language is Rust ==> state is RustBindings && leads(
                loaded.bundle_dir@,
                m.bindings_rust_dir@,
                committed@,
            ) && is_checked_place(
                loaded,
                "bindings_rust"@,
                m.hashes.bindings_rust@,
                true,
                committed@,
            )
            &&& language is Python ==> state is PythonBindings && leads(
                loaded.bundle_dir@,
                m.bindings_python_dir@,
                committed@,
            ) && is_checked_place(
                loaded,
                "bindings_python"@,
                m.hashes.bindings_python@,
                true,
                committed@,
            )
        },
        state is RustBindings ==> (action matches Some(
            RebuildAction::GenerateBindings { language, .. },
        ) && language is Rust),
        state is PythonBindings ==> (action matches Some(
            RebuildAction::GenerateBindings { language, .. },
        ) && language is Python),
{
    let m = loaded.manifest;
    law_checks_are_those_declared(
        m,
        PlannedCheck::Hash {
            label: "bindings_rust"@,
            relative: m.bindings_rust_dir@,
            expected: m.hashes.bindings_rust@,
            is_dir: true,
        },
    );
    law_checks_are_those_declared(
        m,
        PlannedCheck::Hash {
            label: "bindings_python"@,
            relative: m.bindings_python_dir@,
            expected: m.hashes.bindings_python@,
            is_dir: true,
        },
    );
    if let Some(RebuildAction::GenerateBindings { language, committed, .. }) = action {
        if language is Rust {
            assert(leads(loaded.bundle_dir@, m.bindings_rust_dir@, committed@));
        } else {
            assert(leads(loaded.bundle_dir@, m.bindings_python_dir@, committed@));
        }
    }
}

/// Bindings are generated from the descriptor that was built, under the name of
/// the committed descriptor.
pub proof fn law_bindings_are_generated_from_the_built_descriptor(
    loaded: LoadedManifest,
    state: RebuildState,
    action: Option<RebuildAction>,
)
    requires
        call_ensures(next_action, (&loaded, &state), action),
    ensures
        action matches Some(
            RebuildAction::GenerateBindings { descriptor, descriptor_path, .. },
        ) ==> leads(loaded.bundle_dir@, loaded.manifest.descriptor_path@, descriptor_path@)
            && match state {
            RebuildState::RustBindings { descriptor: built, .. } => descriptor@ == built@,
            RebuildState::PythonBindings { descriptor: built, .. } => descriptor@ == built@,
            _ => false,
        },
{
}

/// Every committed file that a rebuild compares is read where its digest is
/// checked: the descriptor, the library, and the header. The built one beside
/// it is the one that the state carries.
pub proof fn law_files_are_compared_with_their_own(
    loaded: LoadedManifest,
    state: RebuildState,
    action: Option<RebuildAction>,
)
    requires
        call_ensures(next_action, (&loaded, &state), action),
    ensures
        ({
            let m = loaded.manifest;
            match state {
                RebuildState::CommittedDescriptor { .. } => {
                    &&& action matches Some(RebuildAction::ReadFile { path })
                    &&& leads(loaded.bundle_dir@, m.descriptor_path@, path@)
                    &&& is_checked_place(
                        loaded,
                        "descriptor"@,
                        m.hashes.descriptor@,
                        false,
                        path@,
                    )
                },
                RebuildState::LibraryBytes { library, .. } => {
                    &&& action matches Some(RebuildAction::ReadPair { committed, rebuilt })
                    &&& rebuilt@ == library@
                    &&& leads(loaded.bundle_dir@, m.library_path@, committed@)
                    &&& is_checked_place(
                        loaded,
                        "library"@,
                        m.hashes.library@,
                        false,
                        committed@,
                    )
                },
                RebuildState::HeaderBytes { header, .. } => match m.header_path {
                    Some(path) => {
                        &&& action matches Some(RebuildAction::ReadPair { committed, rebuilt })
                        &&& rebuilt@ == header@
                        &&& leads(loaded.bundle_dir@, path@, committed@)
                    },
                    None => action is None,
                },
                _ => !(action matches Some(RebuildAction::ReadFile { .. })) && !(
                action matches Some(RebuildAction::ReadPair { .. })),
            }
        }),
{
    let m = loaded.manifest;
    law_checks_are_those_declared(
        m,
        PlannedCheck::Hash {
            label: "descriptor"@,
            relative: m.descriptor_path@,
            expected: m.hashes.descriptor@,
            is_dir: false,
        },
    );
    law_checks_are_those_declared(
        m,
        PlannedCheck::Hash {
            label: "library"@,
            relative: m.library_path@,
            expected: m.hashes.library@,
            is_dir: false,
        },
    );
    match (state, action) {
        (RebuildState::CommittedDescriptor { .. }, Some(RebuildAction::ReadFile { path })) => {
            assert(leads(loaded.bundle_dir@, m.descriptor_path@, path@));
        },
        (
            RebuildState::LibraryBytes { .. },
            Some(RebuildAction::ReadPair { committed, .. }),
        ) => {
            assert(leads(loaded.bundle_dir@, m.library_path@, committed@));
        },
        _ => {},
    }
}

/// Descriptor and library are built from the primary source; the library with
/// the static library of the manifest, and with a header exactly if the bundle
/// has one.
pub proof fn law_builds_start_from_the_primary_source(
    loaded: LoadedManifest,
    state: RebuildState,
    action: Option<RebuildAction>,
)
    requires
        call_ensures(next_action, (&loaded, &state), action),
    ensures
        state is Start <==> action == Some(RebuildAction::IdentifyHost),
        state is Descriptor <==> action matches Some(RebuildAction::BuildDescriptor { .. }),
        state is Library <==> action matches Some(RebuildAction::BuildLibrary { .. }),
        action matches Some(RebuildAction::BuildDescriptor { source }) ==> leads(
            loaded.bundle_dir@,
            loaded.manifest.primary_source@,
            source@,
        ),
        action matches Some(
            RebuildAction::BuildLibrary { source, tools_staticlib, emit_header },
        ) ==> {
            &&& leads(loaded.bundle_dir@, loaded.manifest.primary_source@, source@)
            &&& leads_optional(
                loaded.bundle_dir@,
                loaded.manifest.tools_staticlib_path,
                tools_staticlib,
            )
            &&& emit_header <==> loaded.manifest.header_path is Some
        },
{
}

/// Each trace is replayed from its own file, against the library that was
/// built.
pub proof fn law_traces_are_replayed_from_their_files(
    loaded: LoadedManifest,
    state: RebuildState,
    action: Option<RebuildAction>,
)
    requires
        call_ensures(next_action, (&loaded, &state), action),
    ensures
        action matches Some(RebuildAction::ReplayTrace { library, path }) ==> {
            &&& state matches RebuildState::Replay { library: built, next }
            &&& next < loaded.manifest.traces@.len()
            &&& library@ == built@
            &&& leads(
                loaded.bundle_dir@,
                loaded.manifest.traces@[next as int].path@,
                path@,
            )
        },
        state matches RebuildState::Replay { next, .. } ==> next < loaded.manifest.traces@.len()
            ==> action matches Some(RebuildAction::ReplayTrace { .. }),
        state is Verified ==> action is None,
{
}

// ---------------------------------------------------------------------------
// What leads on
// ---------------------------------------------------------------------------
/// A host may rebuild exactly the bundles for its own target, and only if it
/// runs Linux.
pub proof fn law_rebuilds_need_the_bundles_own_platform(
    target: &str,
    arch: &str,
    os: &str,
    result: Result<(), BundleError>,
    host: &'static str,
)
    requires
        call_ensures(check_platform, (target, arch, os), result),
        call_ensures(current_target_triple, (arch, os), host),
    ensures
        result is Ok <==> os@ == "linux"@ && target@ == host@,
        result matches Err(e) ==> e.class == ErrorClass::PlatformUnsupported,
        result matches Err(e) ==> e.message@ == "BundlePlatformUnsupported: "@ + if os@
            != "linux"@ {
            "strict --rebuild verification is only supported on Linux in v1; host `"@ + host@
                + "` cannot rebuild bundle target `"@ + target@ + "` byte-identically"@
        } else {
            "bundle target `"@ + target@ + "` cannot be rebuilt on host `"@ + host@ + "`"@
        },
{
}

/// The target of a host by its architecture and operating system; hosts that
/// are not known have none of the known targets.
pub proof fn law_known_hosts_have_their_target(arch: &str, os: &str, host: &'static str)
    requires
        call_ensures(current_target_triple, (arch, os), host),
    ensures
        host@ == "x86_64-unknown-linux-gnu"@ <==> arch@ == "x86_64"@ && os@ == "linux"@,
        host@ == "aarch64-unknown-linux-gnu"@ <==> arch@ == "aarch64"@ && os@ == "linux"@,
        host@ == "x86_64-pc-windows-msvc"@ <==> arch@ == "x86_64"@ && os@ == "windows"@,
        host@ == "aarch64-pc-windows-msvc"@ <==> arch@ == "aarch64"@ && os@ == "windows"@,
        host@ == "x86_64-apple-darwin"@ <==> arch@ == "x86_64"@ && os@ == "macos"@,
        host@ == "aarch64-apple-darwin"@ <==> arch@ == "aarch64"@ && os@ == "macos"@,
        !(arch@ == "x86_64"@ || arch@ == "aarch64"@) || !(os@ == "linux"@ || os@ == "windows"@
            || os@ == "macos"@) ==> host@ == "unknown-target"@,
{
    reveal_strlit("x86_64");
    reveal_strlit("aarch64");
    reveal_strlit("linux");
    reveal_strlit("windows");
    reveal_strlit("macos");
    reveal_strlit("x86_64-unknown-linux-gnu");
    reveal_strlit("aarch64-unknown-linux-gnu");
    reveal_strlit("x86_64-pc-windows-msvc");
    reveal_strlit("aarch64-pc-windows-msvc");
    reveal_strlit("x86_64-apple-darwin");
    reveal_strlit("aarch64-apple-darwin");
    reveal_strlit("unknown-target");
    assert("x86_64"@[0] != "aarch64"@[0]);
    assert("linux"@.len() != "windows"@.len());
    assert("linux"@[0] != "macos"@[0]);
    assert("macos"@.len() != "windows"@.len());
    assert("x86_64-unknown-linux-gnu"@.len() == 24);
    assert("aarch64-unknown-linux-gnu"@.len() == 25);
    assert("x86_64-pc-windows-msvc"@.len() == 22);
    assert("aarch64-pc-windows-msvc"@.len() == 23);
    assert("x86_64-apple-darwin"@.len() == 19);
    assert("aarch64-apple-darwin"@.len() == 20);
    assert("unknown-target"@.len() == 14);
}

/// The start leads to building the descriptor exactly on a host that may
/// rebuild the bundle.
pub proof fn law_only_an_able_host_goes_on(
    loaded: LoadedManifest,
    arch: String,
    os: String,
    result: Result<RebuildState, BundleError>,
    host: &'static str,
    arch_name: &str,
    os_name: &str,
)
    requires
        call_ensures(
            advance,
            (&loaded, RebuildState::Start, RebuildEvent::Host { arch, os }),
            result,
        ),
        call_ensures(current_target_triple, (arch_name, os_name), host),
        arch_name@ == arch@,
        os_name@ == os@,
    ensures
        result is Ok <==> os@ == "linux"@ && loaded.manifest.target_triple@ == host@,
        result matches Ok(next) ==> next is Descriptor,
        result matches Err(e) ==> e.class == ErrorClass::PlatformUnsupported,
{
}

/// A build leads on exactly if it has no diagnostics and gave something, and
/// what it gave is carried along: the descriptor that is compared and that
/// bindings are generated from, the library that is compared and replayed, the
/// header that is compared.
pub proof fn law_what_was_built_is_carried_along(
    loaded: LoadedManifest,
    state: RebuildState,
    event: RebuildEvent,
    result: Result<RebuildState, BundleError>,
)
    requires
        call_ensures(advance, (&loaded, state, event), result),
    ensures
        match (state, event) {
            (RebuildState::Descriptor, RebuildEvent::DescriptorBuilt { diagnostics, json }) => {
                &&& result is Ok <==> diagnostics@.len() == 0 && json is Some
                &&& result matches Ok(next) ==> (next matches RebuildState::CommittedDescriptor {
                    descriptor,
                } && json == Some(descriptor))
                &&& result matches Err(e) ==> e.class == ErrorClass::RebuildFailed
                &&& result matches Err(e) ==> e.message@ == "BundleRebuildFailed: "@
                    + if diagnostics@.len() > 0 {
                    "descriptor"@ + " rebuild surfaced "@ + decimal(diagnostics@.len())
                        + " diagnostic(s); first: "@ + diagnostics@[0]@
                } else {
                    "descriptor rebuild produced no JSON"@
                }
            },
            (
                RebuildState::Library { descriptor },
                RebuildEvent::LibraryBuilt { diagnostics, output_path, header_path },
            ) => {
                &&& result is Ok <==> diagnostics@.len() == 0 && output_path is Some
                &&& result matches Ok(next) ==> (next matches RebuildState::LibraryBytes {
                    descriptor: kept,
                    library,
                    built_header,
                } && kept == descriptor && output_path == Some(library) && built_header
                    == header_path)
                &&& result matches Err(e) ==> e.class == ErrorClass::RebuildFailed
                &&& result matches Err(e) ==> e.message@ == "BundleRebuildFailed: "@
                    + if diagnostics@.len() > 0 {
                    "library"@ + " rebuild surfaced "@ + decimal(diagnostics@.len())
                        + " diagnostic(s); first: "@ + diagnostics@[0]@
                } else {
                    "library rebuild produced no output"@
                }
            },
            _ => true,
        },
{
}

/// Compared bytes lead on exactly if they are equal. Behind the library comes
/// the header, if one was built and the bundle has one; behind both come the
/// bindings. A difference is reported under the name of what was compared.
pub proof fn law_equal_bytes_lead_on(
    loaded: LoadedManifest,
    state: RebuildState,
    event: RebuildEvent,
    result: Result<RebuildState, BundleError>,
)
    requires
        call_ensures(advance, (&loaded, state, event), result),
    ensures
        match (state, event) {
            (
                RebuildState::CommittedDescriptor { descriptor },
                RebuildEvent::FileRead { bytes },
            ) => {
                &&& result is Ok <==> bytes@ == encode_utf8(descriptor@)
                &&& result matches Ok(next) ==> next == (RebuildState::Library { descriptor })
                &&& result matches Err(e) ==> is_byte_report(
                    "descriptor"@,
                    bytes@,
                    encode_utf8(descriptor@),
                    e,
                )
            },
            (
                RebuildState::LibraryBytes { descriptor, library, built_header },
                RebuildEvent::PairRead { committed, rebuilt },
            ) => {
                &&& result is Ok <==> committed@ == rebuilt@
                &&& result matches Ok(next) ==> next == match (
                    built_header,
                    loaded.manifest.header_path,
                ) {
                    (Some(header), Some(_)) => RebuildState::HeaderBytes {
                        descriptor,
                        library,
                        header,
                    },
                    _ => RebuildState::RustBindings { descriptor, library },
                }
                &&& result matches Err(e) ==> is_byte_report("library"@, committed@, rebuilt@, e)
            },
            (
                RebuildState::HeaderBytes { descriptor, library, .. },
                RebuildEvent::PairRead { committed, rebuilt },
            ) => {
                &&& result is Ok <==> committed@ == rebuilt@
                &&& result matches Ok(next) ==> next == (RebuildState::RustBindings {
                    descriptor,
                    library,
                })
                &&& result matches Err(e) ==> is_byte_report("header"@, committed@, rebuilt@, e)
            },
            _ => true,
        },
{
    if let Err(e) = result {
        match (state, event) {
            (
                RebuildState::CommittedDescriptor { descriptor },
                RebuildEvent::FileRead { bytes },
            ) => {
                lemma_byte_report("descriptor"@, bytes@, encode_utf8(descriptor@), e);
            },
            (
                RebuildState::LibraryBytes { .. },
                RebuildEvent::PairRead { committed, rebuilt },
            ) => {
                lemma_byte_report("library"@, committed@, rebuilt@, e);
            },
            (RebuildState::HeaderBytes { .. }, RebuildEvent::PairRead { committed, rebuilt }) => {
                lemma_byte_report("header"@, committed@, rebuilt@, e);
            },
            _ => {},
        }
    }
}

/// The failure is a rebuild mismatch that names the artifact, the number of
/// bytes before the first difference, and the two lengths, the committed one
/// first.
pub open spec fn is_byte_report(
    label: Seq<char>,
    committed: Seq<u8>,
    rebuilt: Seq<u8>,
    e: BundleError,
) -> bool {
    &&& e.class == ErrorClass::RebuildMismatch
    &&& exists|at: int|
        #![trigger committed.take(at)]
        {
            &&& 0 <= at <= committed.len() && at <= rebuilt.len()
            &&& committed.take(at) == rebuilt.take(at)
            &&& at < committed.len() && at < rebuilt.len() ==> committed[at] != rebuilt[at]
            &&& e.message@ == "BundleRebuildMismatch: "@ + (label + " diverged at byte "@ + decimal(
                at as nat,
            ) + " (expected len "@ + decimal(committed.len()) + ", actual len "@ + decimal(
                rebuilt.len(),
            ) + ")"@)
        }
}

proof fn lemma_byte_report(
    label: Seq<char>,
    committed: Seq<u8>,
    rebuilt: Seq<u8>,
    e: BundleError,
)
    requires
        crate::rebuild::bytes_failure(label, committed, rebuilt, e),
    ensures
        is_byte_report(label, committed, rebuilt, e),
{
    let at = choose|at: int| #[trigger]
        is_first_difference(committed, rebuilt, at) && e.says(
            ErrorClass::RebuildMismatch,
            crate::compare::bytes_detail(label, at as nat, committed.len(), rebuilt.len()),
        );
    assert(committed.take(at) =~= rebuilt.take(at));
}

/// Compared bindings lead on exactly if they have one digest: the Rust ones to
/// the Python ones, and these to the first replay, or to the end where there
/// are no traces.
pub proof fn law_equal_bindings_lead_on(
    loaded: LoadedManifest,
    state: RebuildState,
    event: RebuildEvent,
    result: Result<RebuildState, BundleError>,
)
    requires
        call_ensures(advance, (&loaded, state, event), result),
    ensures
        match (state, event) {
            (
                RebuildState::RustBindings { descriptor, library },
                RebuildEvent::DirsRead { committed_files, rebuilt_files },
            ) => {
                let old = dir_digest(file_views(committed_files@));
                let new = dir_digest(file_views(rebuilt_files@));
                &&& result is Ok <==> old == new
                &&& result matches Ok(next) ==> next == (RebuildState::PythonBindings {
                    descriptor,
                    library,
                })
                &&& result matches Err(e) ==> is_dir_report("bindings_rust"@, old, new, e)
            },
            (
                RebuildState::PythonBindings { library, .. },
                RebuildEvent::DirsRead { committed_files, rebuilt_files },
            ) => {
                let old = dir_digest(file_views(committed_files@));
                let new = dir_digest(file_views(rebuilt_files@));
                &&& result is Ok <==> old == new
                &&& result matches Ok(next) ==> next == if loaded.manifest.traces@.len() == 0 {
                    RebuildState::Verified
                } else {
                    RebuildState::Replay { library, next: 0 }
                }
                &&& result matches Err(e) ==> is_dir_report("bindings_python"@, old, new, e)
            },
            _ => true,
        },
{
}

/// The failure is a rebuild mismatch that names the directory and the two
/// digests, the committed one first.
pub open spec fn is_dir_report(
    label: Seq<char>,
    committed: Seq<char>,
    rebuilt: Seq<char>,
    e: BundleError,
) -> bool {
    &&& e.class == ErrorClass::RebuildMismatch
    &&& e.message@ == "BundleRebuildMismatch: "@ + (label + " directory hash diverged (expected "@
        + committed + ", actual "@ + rebuilt + ")"@)
}

/// A replay leads on exactly if it is accepted for the trace that was replayed:
/// to the next trace, or to the end behind the last.
pub proof fn law_accepted_replays_lead_on(
    loaded: LoadedManifest,
    library: String,
    next: usize,
    output: ReplayOutput,
    result: Result<RebuildState, BundleError>,
    accepted: Result<(), BundleError>,
)
    requires
        next < loaded.manifest.traces@.len(),
        call_ensures(
            advance,
            (
                &loaded,
                RebuildState::Replay { library, next },
                RebuildEvent::Replayed { output },
            ),
            result,
        ),
        call_ensures(
            check_replay,
            (&loaded.manifest.traces@[next as int], &output),
            accepted,
        ),
    ensures
        result is Ok <==> accepted is Ok,
        result matches Ok(after) ==> if next + 1 < loaded.manifest.traces@.len() {
            after matches RebuildState::Replay { library: kept, next: following } && kept == library
                && following == next + 1
        } else {
            after is Verified
        },
        match (result, accepted) {
            (Err(e), Err(failure)) => e.class == failure.class && e.message@ == failure.message@,
            _ => true,
        },
{
    assert(loaded.manifest.traces@.len() == loaded.manifest.traces.len());
}

/// Failed work, and an event that was not asked for, never lead on.
pub proof fn law_nothing_else_leads_on(
    loaded: LoadedManifest,
    state: RebuildState,
    event: RebuildEvent,
    result: Result<RebuildState, BundleError>,
)
    requires
        call_ensures(advance, (&loaded, state, event), result),
    ensures
        event matches RebuildEvent::Failed { failure } ==> (result matches Err(e) && e.class
            == failure.class && e.message@ == failure.message@),
        result is Ok ==> match event {
            RebuildEvent::Host { .. } => state is Start,
            RebuildEvent::DescriptorBuilt { .. } => state is Descriptor,
            RebuildEvent::FileRead { .. } => state is CommittedDescriptor,
            RebuildEvent::LibraryBuilt { .. } => state is Library,
            RebuildEvent::PairRead { .. } => state is LibraryBytes || state is HeaderBytes,
            RebuildEvent::DirsRead { .. } => state is RustBindings || state is PythonBindings,
            RebuildEvent::Replayed { .. } => state is Replay,
            RebuildEvent::Failed { .. } => false,
        },
        !match event {
            RebuildEvent::Host { .. } => state is Start,
            RebuildEvent::DescriptorBuilt { .. } => state is Descriptor,
            RebuildEvent::FileRead { .. } => state is CommittedDescriptor,
            RebuildEvent::LibraryBuilt { .. } => state is Library,
            RebuildEvent::PairRead { .. } => state is LibraryBytes || state is HeaderBytes,
            RebuildEvent::DirsRead { .. } => state is RustBindings || state is PythonBindings,
            RebuildEvent::Replayed { .. } => state matches RebuildState::Replay { next, .. } && next
                < loaded.manifest.traces@.len(),
            RebuildEvent::Failed { .. } => true,
        } ==> (result matches Err(e) && e.class == ErrorClass::Other && e.message@
            == "event does not answer what the rebuild asked for"@),
{
    reveal_strlit("");
    assert(""@ + "event does not answer what the rebuild asked for"@
        =~= "event does not answer what the rebuild asked for"@);
}

/// In a verified rebuild every listed trace was replayed, in the order of the
/// manifest and behind everything else, to the agent, result, observation and
/// sources that the manifest expects of it; and the two events before the
/// replays show bindings of one digest each.
pub proof fn law_verified_rebuilds_replayed_every_trace(
    loaded: LoadedManifest,
    events: Seq<RebuildEvent>,
    i: int,
)
    requires
        verifies(loaded, events),
        0 <= i < loaded.manifest.traces@.len(),
    ensures
        ({
            let first = events.len() - loaded.manifest.traces@.len();
            let trace = loaded.manifest.traces@[i];
            &&& first >= 7
            &&& events[first + i] matches RebuildEvent::Replayed { output }
            &&& output.agent@ == trace.expected_agent@
            &&& output.result_json@ == trace.expected_result_json@
            &&& trace.expected_observation is Some ==> trace.expected_observation == Some(
                output.observation_present,
            )
            &&& texts(output.grounded_sources@) == texts(trace.expected_grounded_sources@)
        }),
{
    law_verified_rebuilds_agree(loaded, events);
    let first = events.len() - loaded.manifest.traces@.len();
    assert(replay_agrees(loaded, i, events, first + (i - 0)));
}

/// A verified rebuild began on a Linux host whose target is the bundle's, and
/// compared the bindings of both languages right before the replays.
pub proof fn law_verified_rebuilds_compared_everything(
    loaded: LoadedManifest,
    events: Seq<RebuildEvent>,
    arch_name: &str,
    os_name: &str,
    host: &'static str,
)
    requires
        verifies(loaded, events),
        call_ensures(current_target_triple, (arch_name, os_name), host),
        events[0] matches RebuildEvent::Host { arch, os } ==> arch_name@ == arch@ && os_name@
            == os@,
    ensures
        ({
            let first = events.len() - loaded.manifest.traces@.len();
            &&& first >= 7
            &&& events[0] is Host
            &&& os_name@ == "linux"@
            &&& loaded.manifest.target_triple@ == host@
            &&& events[1] matches RebuildEvent::DescriptorBuilt { diagnostics, json }
            &&& diagnostics@.len() == 0 && json is Some
            &&& events[2] matches RebuildEvent::FileRead { bytes }
            &&& bytes@ == encode_utf8(json->Some_0@)
            &&& events[3] matches RebuildEvent::LibraryBuilt {
                diagnostics: more,
                output_path,
                header_path,
            }
            &&& more@.len() == 0 && output_path is Some
            &&& events[4] matches RebuildEvent::PairRead { committed, rebuilt }
            &&& committed@ == rebuilt@
            &&& header_path is Some && loaded.manifest.header_path is Some <==> first == 8
            &&& first == 8 ==> (events[5] matches RebuildEvent::PairRead {
                committed: header,
                rebuilt: built,
            } && header@ == built@)
            &&& events[first - 2] matches RebuildEvent::DirsRead {
                committed_files: rust,
                rebuilt_files: new_rust,
            }
            &&& dir_digest(file_views(rust@)) == dir_digest(file_views(new_rust@))
            &&& events[first - 1] matches RebuildEvent::DirsRead {
                committed_files: python,
                rebuilt_files: new_python,
            }
            &&& dir_digest(file_views(python@)) == dir_digest(file_views(new_python@))
        }),
{
    law_verified_rebuilds_agree(loaded, events);
    let first = events.len() - loaded.manifest.traces@.len();
    assert(dirs_agree(events, first - 2));
    assert(dirs_agree(events, first - 1));
}

// ---------------------------------------------------------------------------
// Single comparisons
// ---------------------------------------------------------------------------
/// Bytes and directories are accepted exactly if they are equal, directories by
/// their digest.
pub proof fn law_comparisons_accept_equals(
    label: &str,
    expected: &[u8],
    actual: &[u8],
    bytes: Result<(), BundleError>,
    expected_digest: &str,
    actual_digest: &str,
    digests: Result<(), BundleError>,
    old: Vec<FileEntry>,
    new: Vec<FileEntry>,
    dirs: Result<(), BundleError>,
)
    requires
        call_ensures(compare_bytes, (label, expected, actual), bytes),
        call_ensures(compare_digests, (label, expected_digest, actual_digest), digests),
        call_ensures(compare_dirs, (label, &old, &new), dirs),
    ensures
        bytes is Ok <==> expected@ == actual@,
        bytes matches Err(e) ==> is_byte_report(label@, expected@, actual@, e),
        digests is Ok <==> expected_digest@ == actual_digest@,
        digests matches Err(e) ==> is_dir_report(label@, expected_digest@, actual_digest@, e),
        dirs is Ok <==> dir_digest(file_views(old@)) == dir_digest(file_views(new@)),
        dirs matches Err(e) ==> is_dir_report(
            label@,
            dir_digest(file_views(old@)),
            dir_digest(file_views(new@)),
            e,
        ),
{
    if let Err(e) = bytes {
        lemma_byte_report(label@, expected@, actual@, e);
    }
}

} // verus!
