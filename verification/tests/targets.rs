use redoxer::env::{env_program, gnu_tool_table};
use redoxer::pkg::{get_cargo_sysroot_default_path, get_sysroot};
use redoxer::redoxfs::{
    mount_poll, mount_precheck, unmount_check, MountError, MountPoll, RedoxFs, WorkerReport,
};
use redoxer::strutil::split_char;
use redoxer::toolchain::{default_toolchain_source, toolchain, toolchain_url, ToolchainPlan};
use redoxer::{gnu_target, host_target, supported_targets, target, HostArch, HostOs};

#[test]
fn requested_supported_target_is_kept() {
    let host = "x86_64-unknown-linux-gnu";
    assert_eq!(target("aarch64-unknown-redox", host), "aarch64-unknown-redox");
    assert_eq!(target("i586-unknown-redox", host), "i586-unknown-redox");
}

#[test]
fn host_triple_may_be_requested_explicitly() {
    let host = "x86_64-unknown-linux-gnu";
    assert_eq!(target(host, host), host);
}

#[test]
fn unsupported_request_falls_back_to_default() {
    let host = "x86_64-unknown-linux-gnu";
    assert_eq!(target("", host), "x86_64-unknown-redox");
    assert_eq!(target("sparc-unknown-none", host), "x86_64-unknown-redox");
}

#[test]
fn supported_target_list() {
    let t = supported_targets();
    assert_eq!(t.len(), 5);
    assert_eq!(t[0], "x86_64-unknown-redox");
    assert_eq!(t[4], "riscv64gc-unknown-redox");
}

#[test]
fn gnu_target_mappings() {
    assert_eq!(gnu_target("riscv64gc-unknown-redox"), "riscv64-unknown-redox");
    assert_eq!(gnu_target("aarch64-unknown-linux-gnu"), "aarch64-linux-gnu");
    assert_eq!(gnu_target("x86_64-unknown-linux-gnu"), "x86_64-linux-gnu");
    assert_eq!(gnu_target("x86_64-unknown-redox"), "x86_64-unknown-redox");
}

#[test]
fn host_target_combinations() {
    assert_eq!(host_target(HostArch::X86_64, HostOs::LinuxGnu), "x86_64-unknown-linux-gnu");
    assert_eq!(host_target(HostArch::Aarch64, HostOs::Macos), "aarch64-apple-darwin");
    assert_eq!(host_target(HostArch::X86_64, HostOs::Freebsd), "x86_64-unknown-freebsd");
    assert_eq!(host_target(HostArch::Aarch64, HostOs::Redox), "aarch64-unknown-redox");
}

#[test]
fn splitting_keeps_empty_pieces() {
    let parts = split_char("a:b::c", ':');
    assert_eq!(parts, vec!["a", "b", "", "c"]);
    assert_eq!(split_char("", ':'), vec![""]);
}

#[test]
fn toolchain_url_depends_on_source_kind() {
    let (remote, url) = toolchain_url("https://static.redox-os.org", "x86_64-unknown-redox");
    assert!(remote);
    assert_eq!(url, "https://static.redox-os.org/toolchain/x86_64-unknown-redox");
    let (remote, url) = toolchain_url("/opt/prefixes", "x86_64-unknown-redox");
    assert!(!remote);
    assert_eq!(url, "/opt/prefixes/prefix/x86_64-unknown-redox");
}

#[test]
fn toolchain_plan_choices() {
    let src = default_toolchain_source();
    let tgt = "x86_64-unknown-redox";
    match toolchain(Some("/env/toolchain"), false, true, src.as_str(), tgt) {
        ToolchainPlan::UseConfigured { path } => assert_eq!(path, "/env/toolchain"),
        _ => panic!("configured path must win"),
    }
    assert!(matches!(
        toolchain(None, false, true, src.as_str(), tgt),
        ToolchainPlan::UseCached
    ));
    match toolchain(None, true, true, src.as_str(), tgt) {
        ToolchainPlan::Fetch { remove_old, remote, url } => {
            assert!(remove_old);
            assert!(remote);
            assert_eq!(url, "https://static.redox-os.org/toolchain/x86_64-unknown-redox");
        },
        _ => panic!("update must fetch"),
    }
    match toolchain(None, false, false, "/local", tgt) {
        ToolchainPlan::Fetch { remove_old, remote, url } => {
            assert!(!remove_old);
            assert!(!remote);
            assert_eq!(url, "/local/prefix/x86_64-unknown-redox");
        },
        _ => panic!("missing directory must fetch"),
    }
}

#[test]
fn env_subcommands_name_gnu_tools() {
    let g = "x86_64-unknown-redox";
    assert_eq!(env_program("env", g), Some("env".to_string()));
    assert_eq!(env_program("ar", g), Some("x86_64-unknown-redox-ar".to_string()));
    assert_eq!(env_program("cc", g), Some("x86_64-unknown-redox-gcc".to_string()));
    assert_eq!(env_program("cxx", g), Some("x86_64-unknown-redox-g++".to_string()));
    assert_eq!(env_program("link", g), None);
}

#[test]
fn tool_table_entries() {
    let t = gnu_tool_table("x86_64-unknown-redox", None);
    assert_eq!(t.len(), 11);
    assert_eq!(t[0], ("AR".to_string(), "x86_64-unknown-redox-gcc-ar".to_string()));
    assert_eq!(t[2], ("CC".to_string(), "x86_64-unknown-redox-gcc".to_string()));
    assert_eq!(t[10], ("STRIP".to_string(), "x86_64-unknown-redox-strip".to_string()));
    let wrapped = gnu_tool_table("x86_64-unknown-redox", Some("ccache"));
    assert_eq!(wrapped[2], ("CC".to_string(), "ccache x86_64-unknown-redox-gcc".to_string()));
    assert_eq!(wrapped[3], ("CXX".to_string(), "ccache x86_64-unknown-redox-g++".to_string()));
    let empty = gnu_tool_table("x86_64-unknown-redox", Some(""));
    assert_eq!(empty[2], ("CC".to_string(), "x86_64-unknown-redox-gcc".to_string()));
}

#[test]
fn sysroot_paths() {
    assert_eq!(
        get_cargo_sysroot_default_path(true, "x86_64-unknown-redox"),
        Some("target/x86_64-unknown-redox/sysroot".to_string())
    );
    assert_eq!(get_cargo_sysroot_default_path(false, "x86_64-unknown-redox"), None);
    assert_eq!(get_sysroot(Some("/sys"), None, false), Some("/sys".to_string()));
    assert_eq!(get_sysroot(None, Some("target/x/sysroot"), true), Some("target/x/sysroot".to_string()));
    assert_eq!(get_sysroot(None, Some("target/x/sysroot"), false), None);
    assert_eq!(get_sysroot(None, None, true), None);
}

#[test]
fn mount_decisions() {
    let fs = RedoxFs::new("/tmp/img.bin", "/tmp/mnt");
    assert_eq!(fs.image, "/tmp/img.bin");
    assert_eq!(fs.dir, "/tmp/mnt");

    assert_eq!(mount_precheck(true), Err(MountError::AlreadyMounted));
    assert_eq!(mount_precheck(false), Ok(()));

    assert_eq!(mount_poll(true, WorkerReport::Pending), MountPoll::Mounted);
    assert_eq!(mount_poll(false, WorkerReport::Pending), MountPoll::KeepWaiting);
    assert_eq!(
        mount_poll(false, WorkerReport::FinishedOk),
        MountPoll::Failed { reason: MountError::ExitedEarly }
    );
    assert_eq!(
        mount_poll(false, WorkerReport::FinishedErr),
        MountPoll::Failed { reason: MountError::WorkerFailed }
    );
    assert_eq!(
        mount_poll(false, WorkerReport::Disconnected),
        MountPoll::Failed { reason: MountError::NoResult }
    );

    assert_eq!(unmount_check(true, true), Err(MountError::StillMounted));
    assert_eq!(unmount_check(true, false), Ok(()));
    assert_eq!(unmount_check(false, false), Ok(()));
}
