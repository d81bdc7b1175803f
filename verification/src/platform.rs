//! The platforms that bundles are built for and rebuilt on.
use vstd::prelude::*;
use vstd::string::*;

use crate::error::{BundleError, ErrorClass};
use crate::text::same_text;

verus! {

/// The target triple of a host, by the names of its architecture and
/// operating system.
pub open spec fn host_triple(arch: Seq<char>, os: Seq<char>) -> Seq<char> {
    if arch == "x86_64"@ && os == "linux"@ {
        "x86_64-unknown-linux-gnu"@
    } else if arch == "aarch64"@ && os == "linux"@ {
        "aarch64-unknown-linux-gnu"@
    } else if arch == "x86_64"@ && os == "windows"@ {
        "x86_64-pc-windows-msvc"@
    } else if arch == "aarch64"@ && os == "windows"@ {
        "aarch64-pc-windows-msvc"@
    } else if arch == "x86_64"@ && os == "macos"@ {
        "x86_64-apple-darwin"@
    } else if arch == "aarch64"@ && os == "macos"@ {
        "aarch64-apple-darwin"@
    } else {
        "unknown-target"@
    }
}

/// The target triple of a host.
pub fn current_target_triple(arch: &str, os: &str) -> (triple: &'static str)
    ensures
        triple@ == host_triple(arch@, os@),
{
    let is_x86: bool = same_text(arch, "x86_64");
    let is_arm: bool = same_text(arch, "aarch64");
    if is_x86 && same_text(os, "linux") {
        "x86_64-unknown-linux-gnu"
    } else if is_arm && same_text(os, "linux") {
        "aarch64-unknown-linux-gnu"
    } else if is_x86 && same_text(os, "windows") {
        "x86_64-pc-windows-msvc"
    } else if is_arm && same_text(os, "windows") {
        "aarch64-pc-windows-msvc"
    } else if is_x86 && same_text(os, "macos") {
        "x86_64-apple-darwin"
    } else if is_arm && same_text(os, "macos") {
        "aarch64-apple-darwin"
    } else {
        "unknown-target"
    }
}

/// A bundle for the target can be rebuilt on the host.
pub open spec fn can_rebuild(target: Seq<char>, arch: Seq<char>, os: Seq<char>) -> bool {
    os == "linux"@ && target == host_triple(arch, os)
}

/// How a host that cannot rebuild a bundle is reported.
pub open spec fn platform_detail(
    target: Seq<char>,
    arch: Seq<char>,
    os: Seq<char>,
) -> Seq<char> {
    if os != "linux"@ {
        "strict --rebuild verification is only supported on Linux in v1; host `"@ + host_triple(
            arch,
            os,
        ) + "` cannot rebuild bundle target `"@ + target + "` byte-identically"@
    } else {
        "bundle target `"@ + target + "` cannot be rebuilt on host `"@ + host_triple(arch, os)
            + "`"@
    }
}

/// Accepts a host on which bundles for the target can be rebuilt strictly.
pub fn check_platform(target: &str, arch: &str, os: &str) -> (result: Result<(), BundleError>)
    ensures
        match result {
            Ok(_) => can_rebuild(target@, arch@, os@),
            Err(e) => !can_rebuild(target@, arch@, os@) && e.says(
                ErrorClass::PlatformUnsupported,
                platform_detail(target@, arch@, os@),
            ),
        },
{
    let host: &'static str = current_target_triple(arch, os);
    if !same_text(os, "linux") {
        let mut detail: String = String::from_str(
            "strict --rebuild verification is only supported on Linux in v1; host `",
        );
        detail.append(host);
        detail.append("` cannot rebuild bundle target `");
        detail.append(target);
        detail.append("` byte-identically");
        return Err(BundleError::new(ErrorClass::PlatformUnsupported, detail.as_str()));
    }
    if !same_text(target, host) {
        let mut detail: String = String::from_str("bundle target `");
        detail.append(target);
        detail.append("` cannot be rebuilt on host `");
        detail.append(host);
        detail.append("`");
        return Err(BundleError::new(ErrorClass::PlatformUnsupported, detail.as_str()));
    }
    Ok(())
}

} // verus!
