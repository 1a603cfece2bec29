use vstd::prelude::*;

verus! {

use crate::strutil::{str_eq, str_concat};

/// The cross tools the build environment points at, as environment variable
/// names paired with tool names derived from the GNU target triple.
pub open spec fn spec_gnu_tool(gnu_target: Seq<char>, suffix: Seq<char>) -> Seq<char> {
    gnu_target + suffix
}

/// The compiler a tool entry names, with an optional wrapper put in front.
pub open spec fn spec_wrapped_tool(tool: Seq<char>, wrapper: Option<Seq<char>>) -> Seq<char> {
    match wrapper {
        Some(w) => if w.len() > 0 {
            w + " "@ + tool
        } else {
            tool
        },
        None => tool,
    }
}

/// Builds one tool name from the GNU target triple and a suffix.
fn gnu_tool(gnu_target: &str, suffix: &str) -> (r: String)
    ensures
        r@ == spec_gnu_tool(gnu_target@, suffix@),
{
    str_concat(gnu_target, suffix)
}

/// Puts the compiler wrapper in front of a tool name when one is set.
fn wrapped_tool(tool: String, wrapper: Option<&str>) -> (r: String)
    ensures
        r@ == spec_wrapped_tool(tool@, crate::writer::opt_str_view(wrapper)),
{
    match wrapper {
        Some(w) => {
            if w.unicode_len() > 0 {
                let mut out = String::from_str(w);
                out.append(" ");
                out.append(tool.as_str());
                out
            } else {
                tool
            }
        },
        None => tool,
    }
}

/// The table of cross tools for a GNU target triple: each entry pairs the
/// environment variable the build system reads with the tool it should run.
/// The C and C++ compilers carry the caller's compiler wrapper when one is
/// set.
pub fn gnu_tool_table(gnu_target: &str, cc_wrapper: Option<&str>) -> (r: Vec<(String, String)>)
    ensures
        ({
            let g = gnu_target@;
            let w = crate::writer::opt_str_view(cc_wrapper);
            &&& r@.len() == 11
            &&& r@[0].0@ == "AR"@ && r@[0].1@ == spec_gnu_tool(g, "-gcc-ar"@)
            &&& r@[1].0@ == "AS"@ && r@[1].1@ == spec_gnu_tool(g, "-as"@)
            &&& r@[2].0@ == "CC"@ && r@[2].1@ == spec_wrapped_tool(spec_gnu_tool(g, "-gcc"@), w)
            &&& r@[3].0@ == "CXX"@ && r@[3].1@ == spec_wrapped_tool(spec_gnu_tool(g, "-g++"@), w)
            &&& r@[4].0@ == "LD"@ && r@[4].1@ == spec_gnu_tool(g, "-ld"@)
            &&& r@[5].0@ == "OBJCOPY"@ && r@[5].1@ == spec_gnu_tool(g, "-objcopy"@)
            &&& r@[6].0@ == "OBJDUMP"@ && r@[6].1@ == spec_gnu_tool(g, "-objdump"@)
            &&& r@[7].0@ == "PKG_CONFIG"@ && r@[7].1@ == spec_gnu_tool(g, "-pkg-config"@)
            &&& r@[8].0@ == "RANLIB"@ && r@[8].1@ == spec_gnu_tool(g, "-ranlib"@)
            &&& r@[9].0@ == "READELF"@ && r@[9].1@ == spec_gnu_tool(g, "-readelf"@)
            &&& r@[10].0@ == "STRIP"@ && r@[10].1@ == spec_gnu_tool(g, "-strip"@)
        }),
{
    let mut v: Vec<(String, String)> = Vec::new();
    v.push((String::from_str("AR"), gnu_tool(gnu_target, "-gcc-ar")));
    v.push((String::from_str("AS"), gnu_tool(gnu_target, "-as")));
    v.push((String::from_str("CC"), wrapped_tool(gnu_tool(gnu_target, "-gcc"), cc_wrapper)));
    v.push((String::from_str("CXX"), wrapped_tool(gnu_tool(gnu_target, "-g++"), cc_wrapper)));
    v.push((String::from_str("LD"), gnu_tool(gnu_target, "-ld")));
    v.push((String::from_str("OBJCOPY"), gnu_tool(gnu_target, "-objcopy")));
    v.push((String::from_str("OBJDUMP"), gnu_tool(gnu_target, "-objdump")));
    v.push((String::from_str("PKG_CONFIG"), gnu_tool(gnu_target, "-pkg-config")));
    v.push((String::from_str("RANLIB"), gnu_tool(gnu_target, "-ranlib")));
    v.push((String::from_str("READELF"), gnu_tool(gnu_target, "-readelf")));
    v.push((String::from_str("STRIP"), gnu_tool(gnu_target, "-strip")));
    v
}

/// The program an environment subcommand stands for: `env` runs the plain
/// environment, and `ar`, `cc` and `cxx` run the matching GNU tool for the
/// target; anything else is unknown.
pub open spec fn spec_env_program(sub: Seq<char>, gnu_target: Seq<char>) -> Option<Seq<char>> {
    if sub == "env"@ {
        Some("env"@)
    } else if sub == "ar"@ {
        Some(gnu_target + "-ar"@)
    } else if sub == "cc"@ {
        Some(gnu_target + "-gcc"@)
    } else if sub == "cxx"@ {
        Some(gnu_target + "-g++"@)
    } else {
        None
    }
}

/// Names the program an environment subcommand runs.
pub fn env_program(sub: &str, gnu_target: &str) -> (r: Option<String>)
    ensures
        (match r {
            Some(p) => spec_env_program(sub@, gnu_target@) == Some(p@),
            None => spec_env_program(sub@, gnu_target@) is None,
        }),
{
    if str_eq(sub, "env") {
        Some(String::from_str("env"))
    } else if str_eq(sub, "ar") {
        Some(str_concat(gnu_target, "-ar"))
    } else if str_eq(sub, "cc") {
        Some(str_concat(gnu_target, "-gcc"))
    } else if str_eq(sub, "cxx") {
        Some(str_concat(gnu_target, "-g++"))
    } else {
        None
    }
}

} // verus!
