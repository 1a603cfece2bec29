use vstd::prelude::*;

verus! {

use crate::strutil::str_concat;

/// The package source used when the caller configures none.
pub fn default_pkg_source() -> (r: String)
    ensures
        r@ == "https://static.redox-os.org/pkg"@,
{
    String::from_str("https://static.redox-os.org/pkg")
}

/// The sysroot a cargo project keeps per target.
pub open spec fn spec_cargo_sysroot_path(target: Seq<char>) -> Seq<char> {
    "target/"@ + target + "/sysroot"@
}

/// The default sysroot location: inside the project's target directory, and
/// only when a cargo manifest is present in the working directory.
pub fn get_cargo_sysroot_default_path(has_cargo_manifest: bool, target: &str) -> (r: Option<
    String,
>)
    ensures
        (match r {
            Some(p) => has_cargo_manifest && p@ == spec_cargo_sysroot_path(target@),
            None => !has_cargo_manifest,
        }),
{
    if has_cargo_manifest {
        let base = str_concat("target/", target);
        Some(base.concat("/sysroot"))
    } else {
        None
    }
}

/// The sysroot native dependencies are installed into: a configured path
/// always wins, and the cargo default only counts when it already holds a
/// `lib` directory.
pub fn get_sysroot(
    configured: Option<&str>,
    cargo_default: Option<&str>,
    cargo_default_has_lib: bool,
) -> (r: Option<String>)
    ensures
        (match r {
            Some(p) => {
                ||| (configured matches Some(c) && p@ == c@)
                ||| (configured is None && (cargo_default matches Some(d) && p@ == d@)
                    && cargo_default_has_lib)
            },
            None => configured is None && (cargo_default is None || !cargo_default_has_lib),
        }),
        configured matches Some(c) ==> (r matches Some(p) && p@ == c@),
{
    match configured {
        Some(c) => Some(String::from_str(c)),
        None => match cargo_default {
            Some(d) => {
                if cargo_default_has_lib {
                    Some(String::from_str(d))
                } else {
                    None
                }
            },
            None => None,
        },
    }
}

} // verus!
