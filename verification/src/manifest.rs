//! The bundle manifest and the paths that it names.
use std::path::Path;
use vstd::prelude::*;
use vstd::string::*;

use crate::error::{BundleError, ErrorClass};
use crate::text::{decimal, decimal_text};

verus! {

/// The schema version that this library reads.
pub const BUNDLE_SCHEMA_VERSION: u32 = 1;

/// The name of the manifest inside a bundle directory.
pub const MANIFEST_FILE: &'static str = "corvid-bundle.toml";

/// A bundle manifest. Fields that the schema does not know are kept in `extra`
/// as a key and the text of the value.
#[derive(Clone, Debug)]
pub struct BundleManifest {
    pub bundle_schema_version: u32,
    pub name: String,
    pub target_triple: String,
    pub primary_source: String,
    pub tools_staticlib_path: Option<String>,
    pub library_path: String,
    pub descriptor_path: String,
    pub header_path: Option<String>,
    pub bindings_rust_dir: String,
    pub bindings_python_dir: String,
    pub capsule_path: Option<String>,
    pub receipt_envelope_path: Option<String>,
    pub receipt_verify_key_path: Option<String>,
    pub traces: Vec<BundleTrace>,
    pub hashes: BundleHashes,
    pub extra: Vec<(String, String)>,
}

/// The committed digests of a bundle's artifacts.
#[derive(Clone, Debug)]
pub struct BundleHashes {
    pub library: String,
    pub descriptor: String,
    pub header: Option<String>,
    pub bindings_rust: String,
    pub bindings_python: String,
    pub capsule: Option<String>,
    pub receipt_envelope: Option<String>,
    pub receipt_verify_key: Option<String>,
    pub tools_staticlib: Option<String>,
}

/// A recorded trace of a bundle and what its replay must give.
#[derive(Clone, Debug)]
pub struct BundleTrace {
    pub name: String,
    pub path: String,
    pub source: String,
    pub sha256: String,
    pub expected_agent: String,
    pub expected_result_json: String,
    pub expected_grounded_sources: Vec<String>,
    pub expected_observation: Option<bool>,
}

/// A manifest with the place it was loaded from.
#[derive(Clone, Debug)]
pub struct LoadedManifest {
    pub bundle_dir: String,
    pub manifest_path: String,
    pub manifest: BundleManifest,
}

/// What joining `relative` to `dir` gives under the path rules whose main
/// separator is `separator`.
pub uninterp spec fn joined_path(
    separator: char,
    dir: Seq<char>,
    relative: Seq<char>,
) -> Seq<char>;

/// An ASCII letter or digit, `_`, `-`, `.` or `/`.
pub open spec fn is_plain_char(c: char) -> bool {
    ('a' <= c && c <= 'z') || ('A' <= c && c <= 'Z') || ('0' <= c && c <= '9') || c == '_' || c
        == '-' || c == '.' || c == '/'
}

/// A path of plain characters that does not end in a separator.
pub open spec fn is_plain_dir(dir: Seq<char>) -> bool {
    &&& dir.len() > 0
    &&& dir.last() != '/'
    &&& forall|i: int| 0 <= i < dir.len() ==> is_plain_char(#[trigger] dir[i])
}

/// A path of plain characters that does not start with a separator.
pub open spec fn is_plain_relative(relative: Seq<char>) -> bool {
    &&& relative.len() > 0
    &&& relative[0] != '/'
    &&& forall|i: int| 0 <= i < relative.len() ==> is_plain_char(#[trigger] relative[i])
}

/// `path` is `relative` joined to `dir` under the path rules of some platform.
pub open spec fn is_joined(dir: Seq<char>, relative: Seq<char>, path: Seq<char>) -> bool {
    exists|separator: char| #[trigger]
        joined_path(separator, dir, relative) == path && (is_plain_dir(dir) && is_plain_relative(
            relative,
        ) ==> path == dir.push(separator) + relative)
}

/// `std::path::Path::join`, with the platform's main separator. The joined
/// path is a function of the two paths and of the platform's path rules. A
/// plain relative path is put behind the directory and one separator.
/// Which separator that is depends on the platform; that two calls give the
/// same one is not claimed.
#[verifier::external_body]
fn join_path(dir: &str, relative: &str) -> (joined: (char, String))
    ensures
        joined.1@ == joined_path(joined.0, dir@, relative@),
        is_plain_dir(dir@) && is_plain_relative(relative@) ==> joined.1@ == dir@.push(joined.0)
            + relative@,
{
    let path = Path::new(dir).join(relative);
    (std::path::MAIN_SEPARATOR, path.to_string_lossy().into_owned())
}

/// Joins a path of the manifest to a directory.
fn resolve_in(dir: &str, relative: &str) -> (path: String)
    ensures
        is_joined(dir@, relative@, path@),
{
    let (separator, path) = join_path(dir, relative);
    proof {
        assert(joined_path(separator, dir@, relative@) == path@);
    }
    path
}

/// The directory of a bundle and the path of its manifest. `parent` is the
/// parent of the given path, `is_dir` tells whether the path is a directory.
pub fn locate(bundle_path: &str, is_dir: bool, parent: Option<&str>) -> (result: Result<
    (String, String),
    BundleError,
>)
    ensures
        result is Ok <==> is_dir || parent is Some,
        result matches Ok(place) ==> if is_dir {
            &&& place.0@ == bundle_path@
            &&& is_joined(bundle_path@, MANIFEST_FILE@, place.1@)
        } else {
            &&& place.0@ == parent->Some_0@
            &&& place.1@ == bundle_path@
        },
        result matches Err(e) ==> e.says(
            ErrorClass::Other,
            "bundle path `"@ + bundle_path@ + "` has no parent"@,
        ),
{
    if is_dir {
        return Ok((String::from_str(bundle_path), resolve_in(bundle_path, MANIFEST_FILE)));
    }
    match parent {
        Some(dir) => Ok((String::from_str(dir), String::from_str(bundle_path))),
        None => {
            let mut detail: String = String::from_str("bundle path `");
            detail.append(bundle_path);
            detail.append("` has no parent");
            Err(BundleError::new(ErrorClass::Other, detail.as_str()))
        },
    }
}

/// How a manifest of another schema version is reported.
pub open spec fn schema_detail(manifest_path: Seq<char>, version: u32) -> Seq<char> {
    "`"@ + manifest_path + "` declares schema version "@ + decimal(version as nat)
        + ", expected "@ + decimal(BUNDLE_SCHEMA_VERSION as nat)
}

impl LoadedManifest {
    /// `path` is where the manifest path `relative` leads.
    pub open spec fn resolves(self, relative: Seq<char>, path: Seq<char>) -> bool {
        is_joined(self.bundle_dir@, relative, path)
    }

    /// `path` is where the optional manifest path leads, if it is there.
    pub open spec fn resolves_optional(
        self,
        relative: Option<String>,
        path: Option<String>,
    ) -> bool {
        match relative {
            Some(r) => path matches Some(p) && self.resolves(r@, p@),
            None => path is None,
        }
    }

    /// Takes a parsed manifest of the one schema version that is read.
    pub fn load(bundle_dir: String, manifest_path: String, manifest: BundleManifest) -> (result:
        Result<LoadedManifest, BundleError>)
        ensures
            result is Ok <==> manifest.bundle_schema_version == BUNDLE_SCHEMA_VERSION,
            result matches Ok(loaded) ==> loaded == (LoadedManifest {
                bundle_dir,
                manifest_path,
                manifest,
            }),
            result matches Err(e) ==> e.says(
                ErrorClass::SchemaVersionMismatch,
                schema_detail(manifest_path@, manifest.bundle_schema_version),
            ),
    {
        if manifest.bundle_schema_version != BUNDLE_SCHEMA_VERSION {
            let mut detail: String = String::from_str("`");
            detail.append(manifest_path.as_str());
            detail.append("` declares schema version ");
            let found: String = decimal_text(manifest.bundle_schema_version as u64);
            detail.append(found.as_str());
            detail.append(", expected ");
            let wanted: String = decimal_text(BUNDLE_SCHEMA_VERSION as u64);
            detail.append(wanted.as_str());
            return Err(BundleError::new(ErrorClass::SchemaVersionMismatch, detail.as_str()));
        }
        Ok(LoadedManifest { bundle_dir, manifest_path, manifest })
    }

    /// Where a path of the manifest leads.
    pub fn resolve(&self, relative: &str) -> (path: String)
        ensures
            self.resolves(relative@, path@),
    {
        resolve_in(self.bundle_dir.as_str(), relative)
    }

    fn resolve_optional(&self, relative: &Option<String>) -> (path: Option<String>)
        ensures
            self.resolves_optional(*relative, path),
    {
        match relative {
            Some(relative) => Some(self.resolve(relative.as_str())),
            None => None,
        }
    }

    /// Where the source that the bundle is rebuilt from is.
    pub fn primary_source_path(&self) -> (path: String)
        ensures
            self.resolves(self.manifest.primary_source@, path@),
    {
        self.resolve(self.manifest.primary_source.as_str())
    }

    /// Where the ABI descriptor is.
    pub fn descriptor_path(&self) -> (path: String)
        ensures
            self.resolves(self.manifest.descriptor_path@, path@),
    {
        self.resolve(self.manifest.descriptor_path.as_str())
    }

    /// Where the built library is.
    pub fn library_path(&self) -> (path: String)
        ensures
            self.resolves(self.manifest.library_path@, path@),
    {
        self.resolve(self.manifest.library_path.as_str())
    }

    /// Where the C header is, if the bundle has one.
    pub fn header_path(&self) -> (path: Option<String>)
        ensures
            self.resolves_optional(self.manifest.header_path, path),
    {
        self.resolve_optional(&self.manifest.header_path)
    }

    /// Where the static library that is linked into rebuilds is, if there is one.
    pub fn tools_staticlib_path(&self) -> (path: Option<String>)
        ensures
            self.resolves_optional(self.manifest.tools_staticlib_path, path),
    {
        self.resolve_optional(&self.manifest.tools_staticlib_path)
    }

    /// Where the Rust bindings are.
    pub fn bindings_rust_dir(&self) -> (path: String)
        ensures
            self.resolves(self.manifest.bindings_rust_dir@, path@),
    {
        self.resolve(self.manifest.bindings_rust_dir.as_str())
    }

    /// Where the Python bindings are.
    pub fn bindings_python_dir(&self) -> (path: String)
        ensures
            self.resolves(self.manifest.bindings_python_dir@, path@),
    {
        self.resolve(self.manifest.bindings_python_dir.as_str())
    }

    /// Where the replay capsule is, if the bundle has one.
    pub fn capsule_path(&self) -> (path: Option<String>)
        ensures
            self.resolves_optional(self.manifest.capsule_path, path),
    {
        self.resolve_optional(&self.manifest.capsule_path)
    }

    /// Where the signed receipt is, if the bundle has one.
    pub fn receipt_envelope_path(&self) -> (path: Option<String>)
        ensures
            self.resolves_optional(self.manifest.receipt_envelope_path, path),
    {
        self.resolve_optional(&self.manifest.receipt_envelope_path)
    }

    /// Where the key to the receipt is, if the bundle has one.
    pub fn receipt_verify_key_path(&self) -> (path: Option<String>)
        ensures
            self.resolves_optional(self.manifest.receipt_verify_key_path, path),
    {
        self.resolve_optional(&self.manifest.receipt_verify_key_path)
    }
}

/// A plain manifest path is written behind the bundle's directory and one
/// separator.
pub proof fn law_plain_paths_follow_the_directory(
    loaded: LoadedManifest,
    relative: Seq<char>,
    path: Seq<char>,
)
    requires
        loaded.resolves(relative, path),
        is_plain_dir(loaded.bundle_dir@),
        is_plain_relative(relative),
    ensures
        loaded.bundle_dir@.is_prefix_of(path),
        relative.is_suffix_of(path),
        path.len() == loaded.bundle_dir@.len() + 1 + relative.len(),
{
    let dir = loaded.bundle_dir@;
    let separator = choose|separator: char| #[trigger]
        joined_path(separator, dir, relative) == path && path == dir.push(separator) + relative;
    assert(path.subrange(0, dir.len() as int) =~= dir);
    assert(path.subrange(path.len() - relative.len(), path.len() as int) =~= relative);
}

} // verus!
