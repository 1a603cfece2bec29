use vstd::prelude::*;

pub mod daemon;
pub mod disk;
pub mod env;
pub mod exec;
pub mod image;
pub mod pkg;
pub mod redoxfs;
pub mod strutil;
pub mod toolchain;
pub mod writer;

verus! {

use crate::strutil::str_eq;

/// The Redox target triples the harness supports, in preference order; the
/// first entry is the default when nothing supported is requested.
pub open spec fn spec_supported_targets() -> Seq<Seq<char>> {
    seq![
        "x86_64-unknown-redox"@,
        "aarch64-unknown-redox"@,
        "i586-unknown-redox"@,
        "i686-unknown-redox"@,
        "riscv64gc-unknown-redox"@,
    ]
}

/// The triple the harness builds for: the host triple when that is exactly
/// what was requested, the requested triple when it is a supported Redox
/// target, and the default Redox target otherwise.
pub open spec fn spec_target(requested: Seq<char>, host: Seq<char>) -> Seq<char> {
    if requested == host {
        host
    } else if spec_supported_targets().contains(requested) {
        requested
    } else {
        spec_supported_targets()[0]
    }
}

/// The GNU toolchain triple corresponding to a Rust target triple.
pub open spec fn spec_gnu_target(t: Seq<char>) -> Seq<char> {
    if t == "riscv64gc-unknown-redox"@ {
        "riscv64-unknown-redox"@
    } else if t == "aarch64-unknown-linux-gnu"@ {
        "aarch64-linux-gnu"@
    } else if t == "x86_64-unknown-linux-gnu"@ {
        "x86_64-linux-gnu"@
    } else {
        t
    }
}

/// The supported target triples as owned strings.
pub fn supported_targets() -> (r: Vec<String>)
    ensures
        r.deep_view() == spec_supported_targets(),
{
    let mut v: Vec<String> = Vec::new();
    v.push(String::from_str("x86_64-unknown-redox"));
    v.push(String::from_str("aarch64-unknown-redox"));
    v.push(String::from_str("i586-unknown-redox"));
    v.push(String::from_str("i686-unknown-redox"));
    v.push(String::from_str("riscv64gc-unknown-redox"));
    proof {
        assert(v.deep_view() =~= spec_supported_targets());
    }
    v
}

/// Picks the build target from the requested triple, given the host triple.
pub fn target(requested: &str, host: &str) -> (r: String)
    ensures
        r@ == spec_target(requested@, host@),
{
    if str_eq(requested, host) {
        return String::from_str(host);
    }
    let supported = supported_targets();
    let n: usize = supported.len();
    let mut i: usize = 0;
    while i < n
        invariant
            supported.deep_view() == spec_supported_targets(),
            n == supported.len(),
            i <= n,
            requested@ != host@,
            forall|j: int| 0 <= j < i ==> spec_supported_targets()[j] != requested@,
        decreases n - i,
    {
        if str_eq(supported[i].as_str(), requested) {
            proof {
                assert(supported.deep_view()[i as int] == requested@);
                assert(spec_supported_targets().contains(requested@));
            }
            return supported[i].clone();
        }
        proof {
            assert(supported.deep_view()[i as int] != requested@);
        }
        i = i + 1;
    }
    proof {
        assert(!spec_supported_targets().contains(requested@)) by {
            assert(forall|j: int|
                0 <= j < spec_supported_targets().len()
                    ==> spec_supported_targets()[j] != requested@);
        }
        assert(supported.deep_view()[0] == spec_supported_targets()[0]);
    }
    supported[0].clone()
}

/// Maps a Rust target triple to the matching GNU toolchain triple.
pub fn gnu_target(t: &str) -> (r: String)
    ensures
        r@ == spec_gnu_target(t@),
{
    if str_eq(t, "riscv64gc-unknown-redox") {
        String::from_str("riscv64-unknown-redox")
    } else if str_eq(t, "aarch64-unknown-linux-gnu") {
        String::from_str("aarch64-linux-gnu")
    } else if str_eq(t, "x86_64-unknown-linux-gnu") {
        String::from_str("x86_64-linux-gnu")
    } else {
        String::from_str(t)
    }
}

/// Host processor architectures the harness recognises.
#[derive(Clone, Copy, PartialEq, Eq, Structural, Debug)]
pub enum HostArch {
    X86_64,
    Aarch64,
}

/// Host operating systems the harness recognises.
#[derive(Clone, Copy, PartialEq, Eq, Structural, Debug)]
pub enum HostOs {
    LinuxGnu,
    Redox,
    Macos,
    Freebsd,
}

/// The triple that describes a recognised host.
pub open spec fn spec_host_target(arch: HostArch, os: HostOs) -> Seq<char> {
    match (arch, os) {
        (HostArch::X86_64, HostOs::LinuxGnu) => "x86_64-unknown-linux-gnu"@,
        (HostArch::Aarch64, HostOs::LinuxGnu) => "aarch64-unknown-linux-gnu"@,
        (HostArch::X86_64, HostOs::Redox) => "x86_64-unknown-redox"@,
        (HostArch::Aarch64, HostOs::Redox) => "aarch64-unknown-redox"@,
        (HostArch::X86_64, HostOs::Macos) => "x86_64-apple-darwin"@,
        (HostArch::Aarch64, HostOs::Macos) => "aarch64-apple-darwin"@,
        (HostArch::X86_64, HostOs::Freebsd) => "x86_64-unknown-freebsd"@,
        (HostArch::Aarch64, HostOs::Freebsd) => "aarch64-unknown-freebsd"@,
    }
}

/// The triple of the host the harness runs on.
pub fn host_target(arch: HostArch, os: HostOs) -> (r: String)
    ensures
        r@ == spec_host_target(arch, os),
{
    match (arch, os) {
        (HostArch::X86_64, HostOs::LinuxGnu) => String::from_str("x86_64-unknown-linux-gnu"),
        (HostArch::Aarch64, HostOs::LinuxGnu) => String::from_str("aarch64-unknown-linux-gnu"),
        (HostArch::X86_64, HostOs::Redox) => String::from_str("x86_64-unknown-redox"),
        (HostArch::Aarch64, HostOs::Redox) => String::from_str("aarch64-unknown-redox"),
        (HostArch::X86_64, HostOs::Macos) => String::from_str("x86_64-apple-darwin"),
        (HostArch::Aarch64, HostOs::Macos) => String::from_str("aarch64-apple-darwin"),
        (HostArch::X86_64, HostOs::Freebsd) => String::from_str("x86_64-unknown-freebsd"),
        (HostArch::Aarch64, HostOs::Freebsd) => String::from_str("aarch64-unknown-freebsd"),
    }
}

} // verus!
