//! Which release archive of the load-testing tool fits a platform, and
//! where it is downloaded from.

use vstd::prelude::*;
use crate::text::{join_text, same_text};

verus! {

/// The archive suffix for an operating system and a processor architecture,
/// named as `std::env::consts` names them.
pub open spec fn archive_suffix_of(os: Seq<char>, arch: Seq<char>) -> Option<Seq<char>> {
    if os == "macos"@ && arch == "aarch64"@ {
        Some("macos-arm64.zip"@)
    } else if os == "macos"@ && arch == "x86_64"@ {
        Some("macos-amd64.zip"@)
    } else if os == "windows"@ {
        Some("windows-amd64.zip"@)
    } else if os == "linux"@ && arch == "aarch64"@ {
        Some("linux-arm64.tar.gz"@)
    } else if os == "linux"@ && arch == "x86_64"@ {
        Some("linux-amd64.tar.gz"@)
    } else {
        None
    }
}

/// The release archive that fits the platform, if one is published.
pub fn archive_suffix(os: &str, arch: &str) -> (r: Option<String>)
    ensures
        match r {
            Some(s) => archive_suffix_of(os@, arch@) == Some(s@),
            None => archive_suffix_of(os@, arch@) is None,
        },
{
    if same_text(os, "macos") && same_text(arch, "aarch64") {
        Some(String::from_str("macos-arm64.zip"))
    } else if same_text(os, "macos") && same_text(arch, "x86_64") {
        Some(String::from_str("macos-amd64.zip"))
    } else if same_text(os, "windows") {
        Some(String::from_str("windows-amd64.zip"))
    } else if same_text(os, "linux") && same_text(arch, "aarch64") {
        Some(String::from_str("linux-arm64.tar.gz"))
    } else if same_text(os, "linux") && same_text(arch, "x86_64") {
        Some(String::from_str("linux-amd64.tar.gz"))
    } else {
        None
    }
}

/// Where the release archive with this suffix is downloaded from.
pub fn download_url(suffix: &str) -> (r: String)
    ensures
        r@ == "https://github.com/grafana/k6/releases/download/v0.50.0/k6-v0.50.0-"@ + suffix@,
{
    join_text("https://github.com/grafana/k6/releases/download/v0.50.0/k6-v0.50.0-", suffix)
}

/// Whether an archive with this suffix is a gzip-compressed tarball rather
/// than a zip archive.
pub fn is_tarball(suffix: &str) -> (r: bool)
    ensures
        r == crate::text::has_infix(suffix@, ".tar.gz"@),
{
    crate::text::contains_text(suffix, ".tar.gz")
}

} // verus!
