//! Where the paths of a manifest lead, and which manifests are read.
use vstd::prelude::*;
use vstd::string::*;

use crate::error::{BundleError, ErrorClass};
use crate::manifest::{
    is_plain_dir, is_plain_relative, joined_path, locate, BundleManifest, LoadedManifest,
};
use crate::text::decimal;

verus! {

/// `path` is where `relative` leads from the directory, by the path rules of
/// some platform.
pub open spec fn leads(dir: Seq<char>, relative: Seq<char>, path: Seq<char>) -> bool {
    exists|separator: char| #[trigger] joined_path(separator, dir, relative) == path
}

/// `path` is where the optional `relative` leads from the directory, and is left
/// out where that is.
pub open spec fn leads_optional(
    dir: Seq<char>,
    relative: Option<String>,
    path: Option<String>,
) -> bool {
    match (relative, path) {
        (Some(relative), Some(path)) => leads(dir, relative@, path@),
        (None, None) => true,
        _ => false,
    }
}

/// The place of each artifact is where the manifest field of that artifact
/// leads from the bundle's directory.
pub proof fn law_places_come_from_their_own_fields(loaded: LoadedManifest, path: String)
    ensures
        call_ensures(LoadedManifest::primary_source_path, (&loaded,), path) ==> leads(
            loaded.bundle_dir@,
            loaded.manifest.primary_source@,
            path@,
        ),
        call_ensures(LoadedManifest::descriptor_path, (&loaded,), path) ==> leads(
            loaded.bundle_dir@,
            loaded.manifest.descriptor_path@,
            path@,
        ),
        call_ensures(LoadedManifest::library_path, (&loaded,), path) ==> leads(
            loaded.bundle_dir@,
            loaded.manifest.library_path@,
            path@,
        ),
        call_ensures(LoadedManifest::bindings_rust_dir, (&loaded,), path) ==> leads(
            loaded.bundle_dir@,
            loaded.manifest.bindings_rust_dir@,
            path@,
        ),
        call_ensures(LoadedManifest::bindings_python_dir, (&loaded,), path) ==> leads(
            loaded.bundle_dir@,
            loaded.manifest.bindings_python_dir@,
            path@,
        ),
{
}

/// The place of each optional artifact is where the manifest field of that
/// artifact leads; without the field there is no place.
pub proof fn law_optional_places_come_from_their_own_fields(
    loaded: LoadedManifest,
    path: Option<String>,
)
    ensures
        call_ensures(LoadedManifest::header_path, (&loaded,), path) ==> leads_optional(
            loaded.bundle_dir@,
            loaded.manifest.header_path,
            path,
        ),
        call_ensures(LoadedManifest::tools_staticlib_path, (&loaded,), path) ==> leads_optional(
            loaded.bundle_dir@,
            loaded.manifest.tools_staticlib_path,
            path,
        ),
        call_ensures(LoadedManifest::capsule_path, (&loaded,), path) ==> leads_optional(
            loaded.bundle_dir@,
            loaded.manifest.capsule_path,
            path,
        ),
        call_ensures(LoadedManifest::receipt_envelope_path, (&loaded,), path) ==> leads_optional(
            loaded.bundle_dir@,
            loaded.manifest.receipt_envelope_path,
            path,
        ),
        call_ensures(LoadedManifest::receipt_verify_key_path, (&loaded,), path) ==> leads_optional(
            loaded.bundle_dir@,
            loaded.manifest.receipt_verify_key_path,
            path,
        ),
{
}

/// Any path is resolved from the bundle's directory; a plain one is written
/// behind it and one separator.
pub proof fn law_paths_are_resolved_from_the_directory(
    loaded: LoadedManifest,
    relative: &str,
    path: String,
)
    requires
        call_ensures(LoadedManifest::resolve, (&loaded, relative), path),
    ensures
        leads(loaded.bundle_dir@, relative@, path@),
        is_plain_dir(loaded.bundle_dir@) && is_plain_relative(relative@) ==> exists|separator: char|
            path@ == #[trigger] loaded.bundle_dir@.push(separator) + relative@,
{
    if is_plain_dir(loaded.bundle_dir@) && is_plain_relative(relative@) {
        let separator = choose|separator: char| #[trigger]
            joined_path(separator, loaded.bundle_dir@, relative@) == path@ && path@
                == loaded.bundle_dir@.push(separator) + relative@;
        assert(path@ == loaded.bundle_dir@.push(separator) + relative@);
    }
}

/// A bundle is given by its directory, in which the manifest is then
/// `corvid-bundle.toml`, or by its manifest, whose parent is then the
/// directory.
pub proof fn law_bundles_are_located(
    given: &str,
    is_dir: bool,
    parent: Option<&str>,
    result: Result<(String, String), BundleError>,
)
    requires
        call_ensures(locate, (given, is_dir, parent), result),
    ensures
        is_dir ==> (result matches Ok(place) && place.0@ == given@ && leads(
            given@,
            "corvid-bundle.toml"@,
            place.1@,
        )),
        !is_dir ==> match parent {
            Some(dir) => result matches Ok(place) && place.0@ == dir@ && place.1@ == given@,
            None => result matches Err(e) && e.class == ErrorClass::Other && e.message@
                == "bundle path `"@ + given@ + "` has no parent"@,
        },
{
    if let Err(e) = result {
        reveal_strlit("");
        assert(e.message@ =~= "bundle path `"@ + given@ + "` has no parent"@);
    }
}

/// A manifest of schema version one is taken over as it is; every other is
/// refused with the two versions.
pub proof fn law_one_schema_version_is_read(
    bundle_dir: String,
    manifest_path: String,
    manifest: BundleManifest,
    result: Result<LoadedManifest, BundleError>,
)
    requires
        call_ensures(LoadedManifest::load, (bundle_dir, manifest_path, manifest), result),
    ensures
        manifest.bundle_schema_version == 1 ==> (result matches Ok(loaded) && loaded.bundle_dir
            == bundle_dir && loaded.manifest_path == manifest_path && loaded.manifest == manifest),
        manifest.bundle_schema_version != 1 ==> (result matches Err(e) && e.class
            == ErrorClass::SchemaVersionMismatch && e.message@ == "BundleSchemaVersionMismatch: "@
            + ("`"@ + manifest_path@ + "` declares schema version "@ + decimal(
            manifest.bundle_schema_version as nat,
        ) + ", expected "@ + decimal(1))),
{
}

} // verus!
