//! Strict rebuild verification, as a machine.
//!
//! A state asks for one piece of outside work; what came of it is the event
//! that leads to the next state or ends the verification with a failure.
use vstd::prelude::*;
use vstd::string::*;
use vstd::utf8::encode_utf8;

use crate::committed::same_failure;
use crate::compare::{
    bytes_detail, compare_bytes, compare_dirs, dirs_detail, is_first_difference,
};
use crate::digest::{dir_digest, file_views, FileEntry};
use crate::error::{BundleError, ErrorClass};
use crate::manifest::LoadedManifest;
use crate::platform::{can_rebuild, check_platform, platform_detail};
use crate::replay::{check_replay, replay_detail, replay_matches, ReplayOutput};
use crate::text::{decimal, decimal_text};

verus! {

/// A language that bindings are generated for.
#[derive(Clone, Copy, Debug, PartialEq, Eq, Structural)]
pub enum BindLanguage {
    Rust,
    Python,
}

/// What is reported of an event that the state did not ask for.
pub const UNAWAITED_EVENT: &'static str = "event does not answer what the rebuild asked for";

/// How far a rebuild has come.
#[derive(Debug)]
pub enum RebuildState {
    Start,
    Descriptor,
    CommittedDescriptor { descriptor: String },
    Library { descriptor: String },
    LibraryBytes { descriptor: String, library: String, built_header: Option<String> },
    HeaderBytes { descriptor: String, library: String, header: String },
    RustBindings { descriptor: String, library: String },
    PythonBindings { descriptor: String, library: String },
    Replay { library: String, next: usize },
    Verified,
}

/// The outside work that a state asks for.
#[derive(Debug)]
pub enum RebuildAction {
    /// Tell the names of the host's architecture and operating system.
    IdentifyHost,
    /// Build the descriptor from the source.
    BuildDescriptor { source: String },
    /// Read a committed file.
    ReadFile { path: String },
    /// Build the library from the source.
    BuildLibrary { source: String, tools_staticlib: Option<String>, emit_header: bool },
    /// Read a committed file and the rebuilt one.
    ReadPair { committed: String, rebuilt: String },
    /// Generate bindings from the rebuilt descriptor, under the file name of
    /// the committed one, and read both directories.
    GenerateBindings {
        language: BindLanguage,
        descriptor: String,
        descriptor_path: String,
        committed: String,
    },
    /// Replay a trace against the rebuilt library.
    ReplayTrace { library: String, path: String },
}

/// What came of the outside work.
#[derive(Debug)]
pub enum RebuildEvent {
    Host { arch: String, os: String },
    DescriptorBuilt { diagnostics: Vec<String>, json: Option<String> },
    FileRead { bytes: Vec<u8> },
    LibraryBuilt {
        diagnostics: Vec<String>,
        output_path: Option<String>,
        header_path: Option<String>,
    },
    PairRead { committed: Vec<u8>, rebuilt: Vec<u8> },
    DirsRead { committed_files: Vec<FileEntry>, rebuilt_files: Vec<FileEntry> },
    Replayed { output: ReplayOutput },
    Failed { failure: BundleError },
}

// ---------------------------------------------------------------------------
// Transitions
// ---------------------------------------------------------------------------
/// The state belongs to a rebuild of the bundle.
pub open spec fn is_state_of(loaded: LoadedManifest, state: RebuildState) -> bool {
    match state {
        RebuildState::HeaderBytes { .. } => loaded.manifest.header_path is Some,
        RebuildState::Replay { next, .. } => next < loaded.manifest.traces@.len(),
        _ => true,
    }
}

/// The event is of the sort that the state asks for.
pub open spec fn is_awaited(state: RebuildState, event: RebuildEvent) -> bool {
    match (state, event) {
        (RebuildState::Verified, _) => false,
        (_, RebuildEvent::Failed { .. }) => true,
        (RebuildState::Start, RebuildEvent::Host { .. }) => true,
        (RebuildState::Descriptor, RebuildEvent::DescriptorBuilt { .. }) => true,
        (RebuildState::CommittedDescriptor { .. }, RebuildEvent::FileRead { .. }) => true,
        (RebuildState::Library { .. }, RebuildEvent::LibraryBuilt { .. }) => true,
        (RebuildState::LibraryBytes { .. }, RebuildEvent::PairRead { .. }) => true,
        (RebuildState::HeaderBytes { .. }, RebuildEvent::PairRead { .. }) => true,
        (RebuildState::RustBindings { .. }, RebuildEvent::DirsRead { .. }) => true,
        (RebuildState::PythonBindings { .. }, RebuildEvent::DirsRead { .. }) => true,
        (RebuildState::Replay { .. }, RebuildEvent::Replayed { .. }) => true,
        _ => false,
    }
}

/// The state once the traces before `next` were replayed.
pub open spec fn replays_from(
    loaded: LoadedManifest,
    library: String,
    next: int,
) -> RebuildState {
    if next < loaded.manifest.traces@.len() {
        RebuildState::Replay { library, next: next as usize }
    } else {
        RebuildState::Verified
    }
}

/// The directories have the same digest.
pub open spec fn same_dirs(committed: Vec<FileEntry>, rebuilt: Vec<FileEntry>) -> bool {
    dir_digest(file_views(committed@)) == dir_digest(file_views(rebuilt@))
}

/// The state that an event leads to, if the event is awaited and shows no
/// difference.
pub open spec fn next_state(
    loaded: LoadedManifest,
    state: RebuildState,
    event: RebuildEvent,
) -> Option<RebuildState> {
    match (state, event) {
        (RebuildState::Start, RebuildEvent::Host { arch, os }) => if can_rebuild(
            loaded.manifest.target_triple@,
            arch@,
            os@,
        ) {
            Some(RebuildState::Descriptor)
        } else {
            None
        },
        (
            RebuildState::Descriptor,
            RebuildEvent::DescriptorBuilt { diagnostics, json },
        ) => match json {
            Some(descriptor) => if diagnostics@.len() == 0 {
                Some(RebuildState::CommittedDescriptor { descriptor })
            } else {
                None
            },
            None => None,
        },
        (
            RebuildState::CommittedDescriptor { descriptor },
            RebuildEvent::FileRead { bytes },
        ) => if bytes@ == encode_utf8(descriptor@) {
            Some(RebuildState::Library { descriptor })
        } else {
            None
        },
        (
            RebuildState::Library { descriptor },
            RebuildEvent::LibraryBuilt { diagnostics, output_path, header_path },
        ) => match output_path {
            Some(library) => if diagnostics@.len() == 0 {
                Some(RebuildState::LibraryBytes { descriptor, library, built_header: header_path })
            } else {
                None
            },
            None => None,
        },
        (
            RebuildState::LibraryBytes { descriptor, library, built_header },
            RebuildEvent::PairRead { committed, rebuilt },
        ) => if committed@ == rebuilt@ {
            match built_header {
                Some(header) => if loaded.manifest.header_path is Some {
                    Some(RebuildState::HeaderBytes { descriptor, library, header })
                } else {
                    Some(RebuildState::RustBindings { descriptor, library })
                },
                None => Some(RebuildState::RustBindings { descriptor, library }),
            }
        } else {
            None
        },
        (
            RebuildState::HeaderBytes { descriptor, library, .. },
            RebuildEvent::PairRead { committed, rebuilt },
        ) => if committed@ == rebuilt@ {
            Some(RebuildState::RustBindings { descriptor, library })
        } else {
            None
        },
        (
            RebuildState::RustBindings { descriptor, library },
            RebuildEvent::DirsRead { committed_files, rebuilt_files },
        ) => if same_dirs(committed_files, rebuilt_files) {
            Some(RebuildState::PythonBindings { descriptor, library })
        } else {
            None
        },
        (
            RebuildState::PythonBindings { library, .. },
            RebuildEvent::DirsRead { committed_files, rebuilt_files },
        ) => if same_dirs(committed_files, rebuilt_files) {
            Some(replays_from(loaded, library, 0))
        } else {
            None
        },
        (
            RebuildState::Replay { library, next },
            RebuildEvent::Replayed { output },
        ) => if next < loaded.manifest.traces@.len() && replay_matches(
            loaded.manifest.traces@[next as int],
            output,
        ) {
            Some(replays_from(loaded, library, next + 1))
        } else {
            None
        },
        _ => None,
    }
}

/// How a build with diagnostics is reported.
pub open spec fn diagnostics_detail(what: Seq<char>, diagnostics: Seq<String>) -> Seq<char> {
    what + " rebuild surfaced "@ + decimal(diagnostics.len()) + " diagnostic(s); first: "@
        + diagnostics[0]@
}

/// `e` reports the first difference of the bytes.
pub open spec fn bytes_failure(
    label: Seq<char>,
    committed: Seq<u8>,
    rebuilt: Seq<u8>,
    e: BundleError,
) -> bool {
    exists|at: int| #[trigger]
        is_first_difference(committed, rebuilt, at) && e.says(
            ErrorClass::RebuildMismatch,
            bytes_detail(label, at as nat, committed.len(), rebuilt.len()),
        )
}

/// `e` reports that the directories differ.
pub open spec fn dirs_failure(
    label: Seq<char>,
    committed: Vec<FileEntry>,
    rebuilt: Vec<FileEntry>,
    e: BundleError,
) -> bool {
    e.says(
        ErrorClass::RebuildMismatch,
        dirs_detail(
            label,
            dir_digest(file_views(committed@)),
            dir_digest(file_views(rebuilt@)),
        ),
    )
}

/// `e` reports why the event does not lead on from the state.
pub open spec fn step_failure(
    loaded: LoadedManifest,
    state: RebuildState,
    event: RebuildEvent,
    e: BundleError,
) -> bool {
    match (state, event) {
        (_, RebuildEvent::Failed { failure }) => same_failure(e, failure),
        (RebuildState::Start, RebuildEvent::Host { arch, os }) => e.says(
            ErrorClass::PlatformUnsupported,
            platform_detail(loaded.manifest.target_triple@, arch@, os@),
        ),
        (RebuildState::Descriptor, RebuildEvent::DescriptorBuilt { diagnostics, .. }) => e.says(
            ErrorClass::RebuildFailed,
            if diagnostics@.len() > 0 {
                diagnostics_detail("descriptor"@, diagnostics@)
            } else {
                "descriptor rebuild produced no JSON"@
            },
        ),
        (
            RebuildState::CommittedDescriptor { descriptor },
            RebuildEvent::FileRead { bytes },
        ) => bytes_failure("descriptor"@, bytes@, encode_utf8(descriptor@), e),
        (RebuildState::Library { .. }, RebuildEvent::LibraryBuilt { diagnostics, .. }) => e.says(
            ErrorClass::RebuildFailed,
            if diagnostics@.len() > 0 {
                diagnostics_detail("library"@, diagnostics@)
            } else {
                "library rebuild produced no output"@
            },
        ),
        (
            RebuildState::LibraryBytes { .. },
            RebuildEvent::PairRead { committed, rebuilt },
        ) => bytes_failure("library"@, committed@, rebuilt@, e),
        (
            RebuildState::HeaderBytes { .. },
            RebuildEvent::PairRead { committed, rebuilt },
        ) => bytes_failure("header"@, committed@, rebuilt@, e),
        (
            RebuildState::RustBindings { .. },
            RebuildEvent::DirsRead { committed_files, rebuilt_files },
        ) => dirs_failure("bindings_rust"@, committed_files, rebuilt_files, e),
        (
            RebuildState::PythonBindings { .. },
            RebuildEvent::DirsRead { committed_files, rebuilt_files },
        ) => dirs_failure("bindings_python"@, committed_files, rebuilt_files, e),
        (RebuildState::Replay { next, .. }, RebuildEvent::Replayed { output }) => if next
            < loaded.manifest.traces@.len() {
            e.says(
                ErrorClass::ReplayMismatch,
                replay_detail(loaded.manifest.traces@[next as int], output),
            )
        } else {
            e.says(ErrorClass::Other, UNAWAITED_EVENT@)
        },
        _ => e.says(ErrorClass::Other, UNAWAITED_EVENT@),
    }
}

/// Accepts a build that has no diagnostics.
fn check_diagnostics(what: &str, diagnostics: &Vec<String>) -> (result: Result<(), BundleError>)
    ensures
        match result {
            Ok(_) => diagnostics@.len() == 0,
            Err(e) => diagnostics@.len() > 0 && e.says(
                ErrorClass::RebuildFailed,
                diagnostics_detail(what@, diagnostics@),
            ),
        },
{
    if diagnostics.len() == 0 {
        return Ok(());
    }
    let mut detail: String = String::from_str(what);
    detail.append(" rebuild surfaced ");
    let count: String = decimal_text(diagnostics.len() as u64);
    detail.append(count.as_str());
    detail.append(" diagnostic(s); first: ");
    detail.append(diagnostics[0].as_str());
    Err(BundleError::new(ErrorClass::RebuildFailed, detail.as_str()))
}

/// The outcome of building the descriptor: the descriptor's JSON text.
fn take_descriptor(diagnostics: &Vec<String>, json: Option<String>) -> (result: Result<
    String,
    BundleError,
>)
    ensures
        match result {
            Ok(descriptor) => diagnostics@.len() == 0 && json == Some(descriptor),
            Err(e) => (diagnostics@.len() > 0 || json is None) && e.says(
                ErrorClass::RebuildFailed,
                if diagnostics@.len() > 0 {
                    diagnostics_detail("descriptor"@, diagnostics@)
                } else {
                    "descriptor rebuild produced no JSON"@
                },
            ),
        },
{
    if let Err(e) = check_diagnostics("descriptor", diagnostics) {
        return Err(e);
    }
    match json {
        Some(descriptor) => Ok(descriptor),
        None => Err(
            BundleError::new(ErrorClass::RebuildFailed, "descriptor rebuild produced no JSON"),
        ),
    }
}

/// The outcome of building the library: where it is.
fn take_library(diagnostics: &Vec<String>, output_path: Option<String>) -> (result: Result<
    String,
    BundleError,
>)
    ensures
        match result {
            Ok(library) => diagnostics@.len() == 0 && output_path == Some(library),
            Err(e) => (diagnostics@.len() > 0 || output_path is None) && e.says(
                ErrorClass::RebuildFailed,
                if diagnostics@.len() > 0 {
                    diagnostics_detail("library"@, diagnostics@)
                } else {
                    "library rebuild produced no output"@
                },
            ),
        },
{
    if let Err(e) = check_diagnostics("library", diagnostics) {
        return Err(e);
    }
    match output_path {
        Some(library) => Ok(library),
        None => Err(
            BundleError::new(ErrorClass::RebuildFailed, "library rebuild produced no output"),
        ),
    }
}

fn enter_replay(loaded: &LoadedManifest, library: String, next: usize) -> (state: RebuildState)
    ensures
        state == replays_from(*loaded, library, next as int),
{
    if next < loaded.manifest.traces.len() {
        RebuildState::Replay { library, next }
    } else {
        RebuildState::Verified
    }
}

/// Takes the event that the state asked for. Any other event ends the rebuild.
pub fn advance(loaded: &LoadedManifest, state: RebuildState, event: RebuildEvent) -> (result:
    Result<RebuildState, BundleError>)
    ensures
        match result {
            Ok(next) => next_state(*loaded, state, event) == Some(next) && is_awaited(state, event)
                && is_state_of(*loaded, next),
            Err(e) => next_state(*loaded, state, event) is None && step_failure(
                *loaded,
                state,
                event,
                e,
            ),
        },
{
    if let RebuildEvent::Failed { failure } = event {
        return Err(failure);
    }
    match (state, event) {
        (RebuildState::Start, RebuildEvent::Host { arch, os }) => {
            if let Err(e) = check_platform(
                loaded.manifest.target_triple.as_str(),
                arch.as_str(),
                os.as_str(),
            ) {
                return Err(e);
            }
            Ok(RebuildState::Descriptor)
        },
        (
            RebuildState::Descriptor,
            RebuildEvent::DescriptorBuilt { diagnostics, json },
        ) => match take_descriptor(&diagnostics, json) {
            Ok(descriptor) => Ok(RebuildState::CommittedDescriptor { descriptor }),
            Err(e) => Err(e),
        },
        (RebuildState::CommittedDescriptor { descriptor }, RebuildEvent::FileRead { bytes }) => {
            if let Err(e) = compare_bytes(
                "descriptor",
                bytes.as_slice(),
                descriptor.as_str().as_bytes(),
            ) {
                return Err(e);
            }
            Ok(RebuildState::Library { descriptor })
        },
        (
            RebuildState::Library { descriptor },
            RebuildEvent::LibraryBuilt { diagnostics, output_path, header_path },
        ) => match take_library(&diagnostics, output_path) {
            Ok(library) => Ok(
                RebuildState::LibraryBytes { descriptor, library, built_header: header_path },
            ),
            Err(e) => Err(e),
        },
        (
            RebuildState::LibraryBytes { descriptor, library, built_header },
            RebuildEvent::PairRead { committed, rebuilt },
        ) => {
            if let Err(e) = compare_bytes("library", committed.as_slice(), rebuilt.as_slice()) {
                return Err(e);
            }
            match built_header {
                Some(header) => if loaded.manifest.header_path.is_some() {
                    Ok(RebuildState::HeaderBytes { descriptor, library, header })
                } else {
                    Ok(RebuildState::RustBindings { descriptor, library })
                },
                None => Ok(RebuildState::RustBindings { descriptor, library }),
            }
        },
        (
            RebuildState::HeaderBytes { descriptor, library, .. },
            RebuildEvent::PairRead { committed, rebuilt },
        ) => {
            if let Err(e) = compare_bytes("header", committed.as_slice(), rebuilt.as_slice()) {
                return Err(e);
            }
            Ok(RebuildState::RustBindings { descriptor, library })
        },
        (
            RebuildState::RustBindings { descriptor, library },
            RebuildEvent::DirsRead { committed_files, rebuilt_files },
        ) => {
            if let Err(e) = compare_dirs("bindings_rust", &committed_files, &rebuilt_files) {
                return Err(e);
            }
            Ok(RebuildState::PythonBindings { descriptor, library })
        },
        (
            RebuildState::PythonBindings { library, .. },
            RebuildEvent::DirsRead { committed_files, rebuilt_files },
        ) => {
            if let Err(e) = compare_dirs("bindings_python", &committed_files, &rebuilt_files) {
                return Err(e);
            }
            Ok(enter_replay(loaded, library, 0))
        },
        (RebuildState::Replay { library, next }, RebuildEvent::Replayed { output }) => {
            if next >= loaded.manifest.traces.len() {
                return Err(BundleError::new(ErrorClass::Other, UNAWAITED_EVENT));
            }
            if let Err(e) = check_replay(&loaded.manifest.traces[next], &output) {
                return Err(e);
            }
            Ok(enter_replay(loaded, library, next + 1))
        },
        _ => Err(BundleError::new(ErrorClass::Other, UNAWAITED_EVENT)),
    }
}

// ---------------------------------------------------------------------------
// Actions
// ---------------------------------------------------------------------------
/// The action is the outside work that the state of the rebuild asks for.
pub open spec fn asks_for(
    loaded: LoadedManifest,
    state: RebuildState,
    action: Option<RebuildAction>,
) -> bool {
    let m = loaded.manifest;
    match state {
        RebuildState::Start => action == Some(RebuildAction::IdentifyHost),
        RebuildState::Descriptor => action matches Some(RebuildAction::BuildDescriptor { source })
            && loaded.resolves(m.primary_source@, source@),
        RebuildState::CommittedDescriptor { .. } => action matches Some(
            RebuildAction::ReadFile { path },
        ) && loaded.resolves(m.descriptor_path@, path@),
        RebuildState::Library { .. } => action matches Some(
            RebuildAction::BuildLibrary { source, tools_staticlib, emit_header },
        ) && loaded.resolves(m.primary_source@, source@) && loaded.resolves_optional(
            m.tools_staticlib_path,
            tools_staticlib,
        ) && emit_header == (m.header_path is Some),
        RebuildState::LibraryBytes { library, .. } => action matches Some(
            RebuildAction::ReadPair { committed, rebuilt },
        ) && loaded.resolves(m.library_path@, committed@) && rebuilt@ == library@,
        RebuildState::HeaderBytes { header, .. } => match m.header_path {
            Some(path) => action matches Some(RebuildAction::ReadPair { committed, rebuilt })
                && loaded.resolves(path@, committed@) && rebuilt@ == header@,
            None => action is None,
        },
        RebuildState::RustBindings { descriptor, .. } => action matches Some(
            RebuildAction::GenerateBindings {
                language,
                descriptor: json,
                descriptor_path,
                committed,
            },
        ) && language is Rust && json@ == descriptor@ && loaded.resolves(
            m.descriptor_path@,
            descriptor_path@,
        ) && loaded.resolves(m.bindings_rust_dir@, committed@),
        RebuildState::PythonBindings { descriptor, .. } => action matches Some(
            RebuildAction::GenerateBindings {
                language,
                descriptor: json,
                descriptor_path,
                committed,
            },
        ) && language is Python && json@ == descriptor@ && loaded.resolves(
            m.descriptor_path@,
            descriptor_path@,
        ) && loaded.resolves(m.bindings_python_dir@, committed@),
        RebuildState::Replay { library, next } => if next < m.traces@.len() {
            action matches Some(RebuildAction::ReplayTrace { library: lib, path }) && lib@
                == library@ && loaded.resolves(m.traces@[next as int].path@, path@)
        } else {
            action is None
        },
        RebuildState::Verified => action is None,
    }
}

/// The outside work that the state asks for. A verified rebuild asks for none,
/// nor does a state that belongs to no rebuild of the bundle.
pub fn next_action(loaded: &LoadedManifest, state: &RebuildState) -> (action: Option<
    RebuildAction,
>)
    ensures
        asks_for(*loaded, *state, action),
{
    match state {
        RebuildState::Start => Some(RebuildAction::IdentifyHost),
        RebuildState::Descriptor => Some(
            RebuildAction::BuildDescriptor { source: loaded.primary_source_path() },
        ),
        RebuildState::CommittedDescriptor { .. } => Some(
            RebuildAction::ReadFile { path: loaded.descriptor_path() },
        ),
        RebuildState::Library { .. } => Some(
            RebuildAction::BuildLibrary {
                source: loaded.primary_source_path(),
                tools_staticlib: loaded.tools_staticlib_path(),
                emit_header: loaded.manifest.header_path.is_some(),
            },
        ),
        RebuildState::LibraryBytes { library, .. } => Some(
            RebuildAction::ReadPair { committed: loaded.library_path(), rebuilt: library.clone() },
        ),
        RebuildState::HeaderBytes { header, .. } => match loaded.header_path() {
            Some(committed) => Some(RebuildAction::ReadPair { committed, rebuilt: header.clone() }),
            None => None,
        },
        RebuildState::RustBindings { descriptor, .. } => Some(
            RebuildAction::GenerateBindings {
                language: BindLanguage::Rust,
                descriptor: descriptor.clone(),
                descriptor_path: loaded.descriptor_path(),
                committed: loaded.bindings_rust_dir(),
            },
        ),
        RebuildState::PythonBindings { descriptor, .. } => Some(
            RebuildAction::GenerateBindings {
                language: BindLanguage::Python,
                descriptor: descriptor.clone(),
                descriptor_path: loaded.descriptor_path(),
                committed: loaded.bindings_python_dir(),
            },
        ),
        RebuildState::Replay { library, next } => if *next < loaded.manifest.traces.len() {
            Some(
                RebuildAction::ReplayTrace {
                    library: library.clone(),
                    path: loaded.resolve(loaded.manifest.traces[*next].path.as_str()),
                },
            )
        } else {
            None
        },
        RebuildState::Verified => None,
    }
}

} // verus!
