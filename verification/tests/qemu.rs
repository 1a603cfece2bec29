use redoxer::exec::{
    launch_extra_args, qemu_default_args, qemu_disk_size, qemu_executable, qemu_has_kvm,
    qemu_use_live_disk, qemu_use_uefi, run_result_code, target_arch, Aarch64Firmware,
    TargetArch,
};

fn strings(v: &[&str]) -> Vec<String> {
    v.iter().map(|s| s.to_string()).collect()
}

#[test]
fn executable_per_architecture() {
    assert_eq!(qemu_executable(TargetArch::X86_64), "qemu-system-x86_64");
    assert_eq!(qemu_executable(TargetArch::I586), "qemu-system-i386");
    assert_eq!(qemu_executable(TargetArch::I686), "qemu-system-i386");
    assert_eq!(qemu_executable(TargetArch::Aarch64), "qemu-system-aarch64");
    assert_eq!(qemu_executable(TargetArch::Riscv64gc), "qemu-system-riscv64");
}

#[test]
fn triple_parsing() {
    assert_eq!(target_arch("x86_64-unknown-redox"), Some(TargetArch::X86_64));
    assert_eq!(target_arch("i586-unknown-redox"), Some(TargetArch::I586));
    assert_eq!(target_arch("i686-unknown-redox"), Some(TargetArch::I686));
    assert_eq!(target_arch("aarch64-unknown-redox"), Some(TargetArch::Aarch64));
    assert_eq!(target_arch("riscv64gc-unknown-redox"), Some(TargetArch::Riscv64gc));
    assert_eq!(target_arch("x86_64-unknown-linux-gnu"), None);
}

#[test]
fn uefi_and_live_disk_by_architecture() {
    assert!(!qemu_use_uefi(TargetArch::X86_64));
    assert!(!qemu_use_uefi(TargetArch::I686));
    assert!(qemu_use_uefi(TargetArch::Aarch64));
    assert!(qemu_use_uefi(TargetArch::Riscv64gc));
    assert!(!qemu_use_live_disk(TargetArch::X86_64));
    assert!(qemu_use_live_disk(TargetArch::Aarch64));
}

#[test]
fn disk_size_bands() {
    assert_eq!(qemu_disk_size(TargetArch::X86_64), 3 * 1024 * 1024 * 1024);
    assert_eq!(qemu_disk_size(TargetArch::Aarch64), 1 * 1024 * 1024 * 1024);
}

#[test]
fn kvm_needs_device_and_matching_arch() {
    assert!(qemu_has_kvm("x86_64-unknown-linux-gnu", "x86_64-unknown-redox", true));
    assert!(qemu_has_kvm("x86_64-unknown-linux-gnu", "i686-unknown-redox", true));
    assert!(!qemu_has_kvm("x86_64-unknown-linux-gnu", "x86_64-unknown-redox", false));
    assert!(!qemu_has_kvm("aarch64-unknown-linux-gnu", "aarch64-unknown-redox", true));
    assert!(!qemu_has_kvm("x86_64-unknown-linux-gnu", "aarch64-unknown-redox", true));
}

#[test]
fn default_args_for_x86_64() {
    let args = qemu_default_args(TargetArch::X86_64, Aarch64Firmware::Aavmf);
    assert_eq!(
        args,
        strings(&[
            "-cpu", "max", "-m", "2048", "-smp", "4", "-netdev", "user,id=net0", "-device",
            "e1000,netdev=net0", "-machine", "q35", "-serial", "mon:stdio", "-device",
            "isa-debugcon,chardev=log", "-device", "isa-debug-exit",
        ])
    );
}

#[test]
fn default_args_for_riscv() {
    let args = qemu_default_args(TargetArch::Riscv64gc, Aarch64Firmware::Aavmf);
    assert_eq!(
        args,
        strings(&[
            "-cpu", "max", "-m", "2048", "-smp", "4", "-netdev", "user,id=net0", "-device",
            "e1000,netdev=net0", "-machine", "virt", "-semihosting-config",
            "enable=on,target=native,userspace=on",
        ])
    );
}

#[test]
fn default_args_for_aarch64_firmware_choice() {
    let aavmf = qemu_default_args(TargetArch::Aarch64, Aarch64Firmware::Aavmf);
    assert!(aavmf.contains(&"-bios".to_string()));
    assert!(aavmf.contains(&"/usr/share/AAVMF/AAVMF_CODE.fd".to_string()));
    let edk2 = qemu_default_args(TargetArch::Aarch64, Aarch64Firmware::Edk2);
    assert!(!edk2.contains(&"-bios".to_string()));
    assert!(edk2.iter().any(|s| s.contains("edk2-aarch64-code.fd")));
}

#[test]
fn launch_args_wire_log_and_disk() {
    let args = launch_extra_args("/tmp/run.log", "/tmp/run.bin", true, false);
    assert_eq!(
        args,
        strings(&[
            "-chardev",
            "file,id=log,path=/tmp/run.log",
            "-drive",
            "file=/tmp/run.bin,format=raw,if=virtio",
            "-accel",
            "kvm",
            "-nographic",
            "-vga",
            "none",
        ])
    );
    let gui = launch_extra_args("l", "d", false, true);
    assert_eq!(
        gui,
        strings(&["-chardev", "file,id=log,path=l", "-drive", "file=d,format=raw,if=virtio"])
    );
}

#[test]
fn exit_status_bands() {
    assert_eq!(run_result_code(Some(51)), 0);
    assert_eq!(run_result_code(Some(53)), 1);
    assert_eq!(run_result_code(Some(0)), 2);
    assert_eq!(run_result_code(Some(1)), 2);
    assert_eq!(run_result_code(None), 2);
}

#[test]
fn execution_result_keeps_code_and_log() {
    let ok = redoxer::exec::ExecutionResult::new(Some(51), "hello guest\n".to_string());
    assert_eq!(ok.code, 0);
    assert!(ok.success());
    assert_eq!(ok.log, "hello guest\n");
    let odd = redoxer::exec::ExecutionResult::new(Some(139), String::new());
    assert_eq!(odd.code, 2);
    assert!(!odd.success());
}
