use vstd::prelude::*;

verus! {

use crate::strutil::{is_prefix_of, str_starts_with, str_concat};

/// The source toolchains are fetched from when the caller names none.
pub fn default_toolchain_source() -> (r: String)
    ensures
        r@ == "https://static.redox-os.org"@,
{
    String::from_str("https://static.redox-os.org")
}

/// A source URL is remote when it speaks a web protocol; anything else is a
/// local path that the toolchain is copied from.
pub open spec fn spec_source_is_remote(s: Seq<char>) -> bool {
    is_prefix_of("http://"@, s) || is_prefix_of("https://"@, s)
}

/// The directory under a source that holds the toolchain for a target:
/// remote sources serve it under `toolchain`, local ones under `prefix`.
pub open spec fn spec_toolchain_url(source: Seq<char>, target: Seq<char>) -> Seq<char> {
    if spec_source_is_remote(source) {
        source + "/toolchain/"@ + target
    } else {
        source + "/prefix/"@ + target
    }
}

/// Builds the toolchain location for a source and target, and says whether
/// the source is remote.
pub fn toolchain_url(source: &str, target: &str) -> (r: (bool, String))
    ensures
        r.0 == spec_source_is_remote(source@),
        r.1@ == spec_toolchain_url(source@, target@),
{
    let remote = str_starts_with(source, "http://") || str_starts_with(source, "https://");
    let middle = if remote {
        "/toolchain/"
    } else {
        "/prefix/"
    };
    let base = str_concat(source, middle);
    (remote, base.concat(target))
}

/// What one toolchain invocation does to the cached toolchain directory.
pub enum ToolchainPlan {
    /// A caller-configured toolchain path is used as it is.
    UseConfigured { path: String },
    /// The cached toolchain directory is reused.
    UseCached,
    /// A toolchain is unpacked into a partial directory and renamed into
    /// place, after the old directory is removed when updating.
    Fetch { remove_old: bool, remote: bool, url: String },
}

/// Decides how the toolchain is obtained.  A configured path always wins; an
/// existing directory is reused unless an update was asked for; otherwise
/// the toolchain is fetched from the source, removing the old directory
/// first when updating.
pub fn toolchain(
    configured: Option<&str>,
    is_update: bool,
    dir_exists: bool,
    source: &str,
    target: &str,
) -> (r: ToolchainPlan)
    ensures
        (match r {
            ToolchainPlan::UseConfigured { path } => {
                &&& configured matches Some(p) && path@ == p@
            },
            ToolchainPlan::UseCached => {
                &&& configured is None
                &&& !is_update
                &&& dir_exists
            },
            ToolchainPlan::Fetch { remove_old, remote, url } => {
                &&& configured is None
                &&& is_update || !dir_exists
                &&& remove_old == (is_update && dir_exists)
                &&& remote == spec_source_is_remote(source@)
                &&& url@ == spec_toolchain_url(source@, target@)
            },
        }),
{
    match configured {
        Some(p) => ToolchainPlan::UseConfigured { path: String::from_str(p) },
        None => {
            if !is_update && dir_exists {
                ToolchainPlan::UseCached
            } else {
                let (remote, url) = toolchain_url(source, target);
                ToolchainPlan::Fetch { remove_old: is_update && dir_exists, remote, url }
            }
        },
    }
}

} // verus!
