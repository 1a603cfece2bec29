use vstd::prelude::*;

verus! {

use crate::strutil::{str_eq, str_concat};

/// Extra disk space so large projects fit on the run image.
pub const DISK_SIZE: u64 = 3 * 1024 * 1024 * 1024;

/// Live images must fit under the default guest RAM.
pub const DISK_SIZE_LIVE: u64 = 1 * 1024 * 1024 * 1024;

/// The guest processor architectures an emulator can be launched for.
#[derive(Clone, Copy, PartialEq, Eq, Structural, Debug)]
pub enum TargetArch {
    X86_64,
    I586,
    I686,
    Aarch64,
    Riscv64gc,
}

/// Which UEFI firmware image the host offers for aarch64 guests.
#[derive(Clone, Copy, PartialEq, Eq, Structural, Debug)]
pub enum Aarch64Firmware {
    Aavmf,
    Edk2,
}

/// The architecture a supported Redox triple names, if any.
pub open spec fn spec_target_arch(t: Seq<char>) -> Option<TargetArch> {
    if t == "x86_64-unknown-redox"@ {
        Some(TargetArch::X86_64)
    } else if t == "i586-unknown-redox"@ {
        Some(TargetArch::I586)
    } else if t == "i686-unknown-redox"@ {
        Some(TargetArch::I686)
    } else if t == "aarch64-unknown-redox"@ {
        Some(TargetArch::Aarch64)
    } else if t == "riscv64gc-unknown-redox"@ {
        Some(TargetArch::Riscv64gc)
    } else {
        None
    }
}

/// Parses a target triple into the guest architecture it names.
pub fn target_arch(t: &str) -> (r: Option<TargetArch>)
    ensures
        r == spec_target_arch(t@),
{
    if str_eq(t, "x86_64-unknown-redox") {
        Some(TargetArch::X86_64)
    } else if str_eq(t, "i586-unknown-redox") {
        Some(TargetArch::I586)
    } else if str_eq(t, "i686-unknown-redox") {
        Some(TargetArch::I686)
    } else if str_eq(t, "aarch64-unknown-redox") {
        Some(TargetArch::Aarch64)
    } else if str_eq(t, "riscv64gc-unknown-redox") {
        Some(TargetArch::Riscv64gc)
    } else {
        None
    }
}

/// The emulator binary that runs guests of the given architecture.
pub open spec fn spec_qemu_executable(arch: TargetArch) -> Seq<char> {
    match arch {
        TargetArch::X86_64 => "qemu-system-x86_64"@,
        TargetArch::I586 => "qemu-system-i386"@,
        TargetArch::I686 => "qemu-system-i386"@,
        TargetArch::Aarch64 => "qemu-system-aarch64"@,
        TargetArch::Riscv64gc => "qemu-system-riscv64"@,
    }
}

/// Names the emulator binary for a guest architecture.
pub fn qemu_executable(arch: TargetArch) -> (r: String)
    ensures
        r@ == spec_qemu_executable(arch),
{
    match arch {
        TargetArch::X86_64 => String::from_str("qemu-system-x86_64"),
        TargetArch::I586 => String::from_str("qemu-system-i386"),
        TargetArch::I686 => String::from_str("qemu-system-i386"),
        TargetArch::Aarch64 => String::from_str("qemu-system-aarch64"),
        TargetArch::Riscv64gc => String::from_str("qemu-system-riscv64"),
    }
}

/// Whether the guest boots through UEFI firmware rather than a boot sector.
pub open spec fn spec_qemu_use_uefi(arch: TargetArch) -> bool {
    match arch {
        TargetArch::X86_64 => false,
        TargetArch::I586 => false,
        TargetArch::I686 => false,
        TargetArch::Aarch64 => true,
        TargetArch::Riscv64gc => true,
    }
}

/// Decides whether the guest image carries a UEFI bootloader.
pub fn qemu_use_uefi(arch: TargetArch) -> (r: bool)
    ensures
        r == spec_qemu_use_uefi(arch),
{
    match arch {
        TargetArch::X86_64 => false,
        TargetArch::I586 => false,
        TargetArch::I686 => false,
        TargetArch::Aarch64 => true,
        TargetArch::Riscv64gc => true,
    }
}

/// Whether the guest boots a live (RAM-resident) disk image.
pub open spec fn spec_qemu_use_live_disk(arch: TargetArch) -> bool {
    match arch {
        TargetArch::X86_64 => false,
        TargetArch::I586 => false,
        TargetArch::I686 => false,
        TargetArch::Aarch64 => true,
        TargetArch::Riscv64gc => true,
    }
}

/// Decides whether the guest image is built as a live disk.
pub fn qemu_use_live_disk(arch: TargetArch) -> (r: bool)
    ensures
        r == spec_qemu_use_live_disk(arch),
{
    match arch {
        TargetArch::X86_64 => false,
        TargetArch::I586 => false,
        TargetArch::I686 => false,
        TargetArch::Aarch64 => true,
        TargetArch::Riscv64gc => true,
    }
}

/// The disk image size for a guest architecture: live images stay small
/// enough to fit under the default guest RAM.
pub fn qemu_disk_size(arch: TargetArch) -> (r: u64)
    ensures
        r == if spec_qemu_use_live_disk(arch) {
            DISK_SIZE_LIVE
        } else {
            DISK_SIZE
        },
{
    if qemu_use_live_disk(arch) {
        DISK_SIZE_LIVE
    } else {
        DISK_SIZE
    }
}

/// The processor name at the front of a target triple: everything before the
/// first dash.
pub open spec fn spec_arch_prefix(s: Seq<char>) -> Seq<char> {
    crate::strutil::spec_prefix_until(s, '-')
}

/// Extracts the processor name from a target triple.
pub fn arch_prefix(s: &str) -> (r: String)
    ensures
        r@ == spec_arch_prefix(s@),
{
    let n: usize = s.unicode_len();
    let mut k: usize = 0;
    while k < n
        invariant
            k <= n,
            n == s@.len(),
            forall|j: int| 0 <= j < k ==> s@[j] != '-',
        decreases n - k,
    {
        if s.get_char(k) == '-' {
            let r = String::from_str(s.substring_char(0, k));
            proof {
                crate::strutil::lemma_prefix_until_characterisation(s@, '-', k as int);
            }
            return r;
        }
        k = k + 1;
    }
    let r = String::from_str(s.substring_char(0, n));
    proof {
        crate::strutil::lemma_prefix_until_characterisation(s@, '-', n as int);
    }
    r
}

/// Hardware acceleration is only trusted for x86 guests on x86 hosts.
pub open spec fn spec_kvm_pair(host_arch: Seq<char>, target_arch: Seq<char>) -> bool {
    host_arch == "x86_64"@ && (target_arch == "x86_64"@ || target_arch == "i586"@
        || target_arch == "i686"@)
}

/// Decides whether the emulator may use hardware virtualisation, given the
/// host and target triples and whether the host exposes a virtualisation
/// device.
pub fn qemu_has_kvm(host: &str, target: &str, kvm_device_present: bool) -> (r: bool)
    ensures
        r == (kvm_device_present && spec_kvm_pair(
            spec_arch_prefix(host@),
            spec_arch_prefix(target@),
        )),
{
    if !kvm_device_present {
        return false;
    }
    let host_arch = arch_prefix(host);
    let target_arch_name = arch_prefix(target);
    if !str_eq(host_arch.as_str(), "x86_64") {
        return false;
    }
    str_eq(target_arch_name.as_str(), "x86_64") || str_eq(target_arch_name.as_str(), "i586")
        || str_eq(target_arch_name.as_str(), "i686")
}

/// The arguments shared by every emulator invocation: processor, memory,
/// cores and the network device.
pub open spec fn spec_common_qemu_args() -> Seq<Seq<char>> {
    seq![
        "-cpu"@,
        "max"@,
        "-m"@,
        "2048"@,
        "-smp"@,
        "4"@,
        "-netdev"@,
        "user,id=net0"@,
        "-device"@,
        "e1000,netdev=net0"@,
    ]
}

/// The architecture-specific tail of the default argument set: machine type,
/// firmware and console wiring.
pub open spec fn spec_arch_qemu_args(arch: TargetArch, firmware: Aarch64Firmware) -> Seq<
    Seq<char>,
> {
    match arch {
        TargetArch::X86_64 | TargetArch::I586 | TargetArch::I686 => seq![
            "-machine"@,
            "q35"@,
            "-serial"@,
            "mon:stdio"@,
            "-device"@,
            "isa-debugcon,chardev=log"@,
            "-device"@,
            "isa-debug-exit"@,
        ],
        TargetArch::Aarch64 => {
            let bios: Seq<Seq<char>> = match firmware {
                Aarch64Firmware::Aavmf => seq!["-bios"@, "/usr/share/AAVMF/AAVMF_CODE.fd"@],
                Aarch64Firmware::Edk2 => seq![
                    "-drive"@,
                    "if=pflash,format=raw,unit=0,file=/usr/share/qemu/edk2-aarch64-code.fd,readonly=on"@,
                ],
            };
            seq!["-machine"@, "virt"@, "-serial"@, "chardev:debug"@, "-mon"@, "chardev=debug"@]
                + bios
                + seq![
                "-chardev"@,
                "stdio,id=debug,signal=off,mux=on"@,
                "-semihosting-config"@,
                "enable=on,target=native,userspace=on"@,
            ]
        },
        TargetArch::Riscv64gc => seq![
            "-machine"@,
            "virt"@,
            "-semihosting-config"@,
            "enable=on,target=native,userspace=on"@,
        ],
    }
}

/// The default emulator argument set for an architecture; `firmware` only
/// matters for aarch64 guests, which boot through host firmware.
pub open spec fn spec_qemu_default_args(arch: TargetArch, firmware: Aarch64Firmware) -> Seq<
    Seq<char>,
> {
    spec_common_qemu_args() + spec_arch_qemu_args(arch, firmware)
}

/// Builds the default emulator argument set.
pub fn qemu_default_args(arch: TargetArch, firmware: Aarch64Firmware) -> (r: Vec<String>)
    ensures
        r.deep_view() == spec_qemu_default_args(arch, firmware),
{
    let mut v: Vec<String> = Vec::new();
    v.push(String::from_str("-cpu"));
    v.push(String::from_str("max"));
    v.push(String::from_str("-m"));
    v.push(String::from_str("2048"));
    v.push(String::from_str("-smp"));
    v.push(String::from_str("4"));
    v.push(String::from_str("-netdev"));
    v.push(String::from_str("user,id=net0"));
    v.push(String::from_str("-device"));
    v.push(String::from_str("e1000,netdev=net0"));
    match arch {
        TargetArch::X86_64 | TargetArch::I586 | TargetArch::I686 => {
            v.push(String::from_str("-machine"));
            v.push(String::from_str("q35"));
            v.push(String::from_str("-serial"));
            v.push(String::from_str("mon:stdio"));
            v.push(String::from_str("-device"));
            v.push(String::from_str("isa-debugcon,chardev=log"));
            v.push(String::from_str("-device"));
            v.push(String::from_str("isa-debug-exit"));
        },
        TargetArch::Aarch64 => {
            v.push(String::from_str("-machine"));
            v.push(String::from_str("virt"));
            v.push(String::from_str("-serial"));
            v.push(String::from_str("chardev:debug"));
            v.push(String::from_str("-mon"));
            v.push(String::from_str("chardev=debug"));
            match firmware {
                Aarch64Firmware::Aavmf => {
                    v.push(String::from_str("-bios"));
                    v.push(String::from_str("/usr/share/AAVMF/AAVMF_CODE.fd"));
                },
                Aarch64Firmware::Edk2 => {
                    v.push(String::from_str("-drive"));
                    v.push(
                        String::from_str(
                            "if=pflash,format=raw,unit=0,file=/usr/share/qemu/edk2-aarch64-code.fd,readonly=on",
                        ),
                    );
                },
            }
            v.push(String::from_str("-chardev"));
            v.push(String::from_str("stdio,id=debug,signal=off,mux=on"));
            v.push(String::from_str("-semihosting-config"));
            v.push(String::from_str("enable=on,target=native,userspace=on"));
        },
        TargetArch::Riscv64gc => {
            v.push(String::from_str("-machine"));
            v.push(String::from_str("virt"));
            v.push(String::from_str("-semihosting-config"));
            v.push(String::from_str("enable=on,target=native,userspace=on"));
        },
    }
    proof {
        assert(v.deep_view() =~= spec_qemu_default_args(arch, firmware));
    }
    v
}

/// The per-run arguments the launcher adds: the console log channel, the run
/// image as a virtio disk, optional hardware acceleration, and a headless
/// display for non-graphical runs.
pub open spec fn spec_launch_extra_args(
    log_path: Seq<char>,
    disk_path: Seq<char>,
    kvm: bool,
    gui: bool,
) -> Seq<Seq<char>> {
    let base = seq![
        "-chardev"@,
        "file,id=log,path="@ + log_path,
        "-drive"@,
        "file="@ + disk_path + ",format=raw,if=virtio"@,
    ];
    let accel: Seq<Seq<char>> = if kvm {
        seq!["-accel"@, "kvm"@]
    } else {
        Seq::empty()
    };
    let display: Seq<Seq<char>> = if !gui {
        seq!["-nographic"@, "-vga"@, "none"@]
    } else {
        Seq::empty()
    };
    base + accel + display
}

/// Builds the per-run argument tail for one emulator launch.
pub fn launch_extra_args(log_path: &str, disk_path: &str, kvm: bool, gui: bool) -> (r: Vec<
    String,
>)
    ensures
        r.deep_view() == spec_launch_extra_args(log_path@, disk_path@, kvm, gui),
{
    let mut v: Vec<String> = Vec::new();
    v.push(String::from_str("-chardev"));
    v.push(str_concat("file,id=log,path=", log_path));
    v.push(String::from_str("-drive"));
    let drive = str_concat("file=", disk_path);
    v.push(drive.concat(",format=raw,if=virtio"));
    if kvm {
        v.push(String::from_str("-accel"));
        v.push(String::from_str("kvm"));
    }
    if !gui {
        v.push(String::from_str("-nographic"));
        v.push(String::from_str("-vga"));
        v.push(String::from_str("none"));
    }
    proof {
        assert(v.deep_view() =~= spec_launch_extra_args(log_path@, disk_path@, kvm, gui));
    }
    v
}

/// A token that names a flag: it is non-empty and starts with the flag
/// marker.
pub open spec fn is_flag(s: Seq<char>) -> bool {
    s.len() > 0 && s[0] == '-'
}

/// Tests whether a token names a flag.
pub fn flag_token(s: &str) -> (r: bool)
    ensures
        r == is_flag(s@),
{
    if s.unicode_len() == 0 {
        false
    } else {
        s.get_char(0) == '-'
    }
}

/// The flag names present in a caller-supplied override list.
pub open spec fn override_flags(user: Seq<Seq<char>>) -> Set<Seq<char>> {
    Set::new(|s: Seq<char>| user.contains(s) && is_flag(s))
}

/// How many tokens the leading default flag occupies: one for a lone flag,
/// two for a flag followed by its value.
pub open spec fn merge_step(d: Seq<Seq<char>>) -> int {
    if d.len() == 1 || is_flag(d[1]) {
        1
    } else {
        2
    }
}

/// A well-formed default list: a flag at every flag position.
pub open spec fn wf_defaults(d: Seq<Seq<char>>) -> bool
    decreases d.len(),
{
    d.len() == 0 || (is_flag(d[0]) && wf_defaults(d.skip(merge_step(d))))
}

/// A lone flag is a well-formed default list.
proof fn lemma_wf_single(f: Seq<char>)
    requires
        is_flag(f),
    ensures
        wf_defaults(seq![f]),
{
    assert(wf_defaults(Seq::<Seq<char>>::empty()));
    assert(seq![f].skip(1) =~= Seq::<Seq<char>>::empty());
}

/// A flag followed by its value is a well-formed default list.
proof fn lemma_wf_pair(f: Seq<char>, v: Seq<char>)
    requires
        is_flag(f),
        !is_flag(v),
    ensures
        wf_defaults(seq![f, v]),
{
    assert(wf_defaults(Seq::<Seq<char>>::empty()));
    assert(seq![f, v].skip(2) =~= Seq::<Seq<char>>::empty());
    assert(merge_step(seq![f, v]) == 2);
}

/// Two well-formed default lists concatenate into one, as long as the second
/// begins with a flag.
proof fn lemma_wf_concat(a: Seq<Seq<char>>, b: Seq<Seq<char>>)
    requires
        wf_defaults(a),
        wf_defaults(b),
        b.len() > 0 ==> is_flag(b[0]),
    ensures
        wf_defaults(a + b),
    decreases a.len(),
{
    if a.len() == 0 {
        assert(a + b =~= b);
    } else if b.len() == 0 {
        assert(a + b =~= a);
    } else {
        let s = a + b;
        assert(s[0] == a[0]);
        let step = merge_step(a);
        if a.len() == 1 {
            assert(s[1] == b[0]);
            assert(merge_step(s) == 1);
            assert(s.skip(1) =~= b);
        } else {
            assert(s[1] == a[1]);
            assert(merge_step(s) == step);
            lemma_wf_concat(a.skip(step), b);
            assert(s.skip(step) =~= a.skip(step) + b);
        }
    }
}

/// The default argument set the harness builds for any architecture
/// alternates flags and values correctly.
pub proof fn lemma_default_args_wf(arch: TargetArch, firmware: Aarch64Firmware)
    ensures
        wf_defaults(spec_qemu_default_args(arch, firmware)),
        is_flag(spec_qemu_default_args(arch, firmware)[0]),
{
    reveal_strlit("-cpu");
    reveal_strlit("max");
    reveal_strlit("-m");
    reveal_strlit("2048");
    reveal_strlit("-smp");
    reveal_strlit("4");
    reveal_strlit("-netdev");
    reveal_strlit("user,id=net0");
    reveal_strlit("-device");
    reveal_strlit("e1000,netdev=net0");
    let p1 = seq!["-cpu"@, "max"@];
    let p2 = seq!["-m"@, "2048"@];
    let p3 = seq!["-smp"@, "4"@];
    let p4 = seq!["-netdev"@, "user,id=net0"@];
    let p5 = seq!["-device"@, "e1000,netdev=net0"@];
    lemma_wf_pair("-cpu"@, "max"@);
    lemma_wf_pair("-m"@, "2048"@);
    lemma_wf_pair("-smp"@, "4"@);
    lemma_wf_pair("-netdev"@, "user,id=net0"@);
    lemma_wf_pair("-device"@, "e1000,netdev=net0"@);
    lemma_wf_concat(p4, p5);
    lemma_wf_concat(p3, p4 + p5);
    lemma_wf_concat(p2, p3 + (p4 + p5));
    lemma_wf_concat(p1, p2 + (p3 + (p4 + p5)));
    let common = p1 + (p2 + (p3 + (p4 + p5)));
    assert(spec_common_qemu_args() =~= common);
    let tail = spec_arch_qemu_args(arch, firmware);
    lemma_arch_args_wf(arch, firmware);
    lemma_wf_concat(spec_common_qemu_args(), tail);
    assert(spec_qemu_default_args(arch, firmware)[0] == "-cpu"@);
}

/// The architecture-specific tail of the default argument set is well
/// formed and begins with a flag.
proof fn lemma_arch_args_wf(arch: TargetArch, firmware: Aarch64Firmware)
    ensures
        wf_defaults(spec_arch_qemu_args(arch, firmware)),
        is_flag(spec_arch_qemu_args(arch, firmware)[0]),
{
    reveal_strlit("-machine");
    reveal_strlit("q35");
    reveal_strlit("virt");
    reveal_strlit("-serial");
    reveal_strlit("mon:stdio");
    reveal_strlit("chardev:debug");
    reveal_strlit("-device");
    reveal_strlit("isa-debugcon,chardev=log");
    reveal_strlit("isa-debug-exit");
    reveal_strlit("-mon");
    reveal_strlit("chardev=debug");
    reveal_strlit("-bios");
    reveal_strlit("/usr/share/AAVMF/AAVMF_CODE.fd");
    reveal_strlit("-drive");
    reveal_strlit("if=pflash,format=raw,unit=0,file=/usr/share/qemu/edk2-aarch64-code.fd,readonly=on");
    reveal_strlit("-chardev");
    reveal_strlit("stdio,id=debug,signal=off,mux=on");
    reveal_strlit("-semihosting-config");
    reveal_strlit("enable=on,target=native,userspace=on");
    match arch {
        TargetArch::X86_64 | TargetArch::I586 | TargetArch::I686 => {
            let p1 = seq!["-machine"@, "q35"@];
            let p2 = seq!["-serial"@, "mon:stdio"@];
            let p3 = seq!["-device"@, "isa-debugcon,chardev=log"@];
            let p4 = seq!["-device"@, "isa-debug-exit"@];
            lemma_wf_pair("-machine"@, "q35"@);
            lemma_wf_pair("-serial"@, "mon:stdio"@);
            lemma_wf_pair("-device"@, "isa-debugcon,chardev=log"@);
            lemma_wf_pair("-device"@, "isa-debug-exit"@);
            lemma_wf_concat(p3, p4);
            lemma_wf_concat(p2, p3 + p4);
            lemma_wf_concat(p1, p2 + (p3 + p4));
            assert(spec_arch_qemu_args(arch, firmware) =~= p1 + (p2 + (p3 + p4)));
        },
        TargetArch::Aarch64 => {
            let p1 = seq!["-machine"@, "virt"@];
            let p2 = seq!["-serial"@, "chardev:debug"@];
            let p3 = seq!["-mon"@, "chardev=debug"@];
            let pb: Seq<Seq<char>> = match firmware {
                Aarch64Firmware::Aavmf => seq!["-bios"@, "/usr/share/AAVMF/AAVMF_CODE.fd"@],
                Aarch64Firmware::Edk2 => seq![
                    "-drive"@,
                    "if=pflash,format=raw,unit=0,file=/usr/share/qemu/edk2-aarch64-code.fd,readonly=on"@,
                ],
            };
            let p4 = seq!["-chardev"@, "stdio,id=debug,signal=off,mux=on"@];
            let p5 = seq!["-semihosting-config"@, "enable=on,target=native,userspace=on"@];
            lemma_wf_pair("-machine"@, "virt"@);
            lemma_wf_pair("-serial"@, "chardev:debug"@);
            lemma_wf_pair("-mon"@, "chardev=debug"@);
            match firmware {
                Aarch64Firmware::Aavmf => {
                    lemma_wf_pair("-bios"@, "/usr/share/AAVMF/AAVMF_CODE.fd"@);
                },
                Aarch64Firmware::Edk2 => {
                    lemma_wf_pair(
                        "-drive"@,
                        "if=pflash,format=raw,unit=0,file=/usr/share/qemu/edk2-aarch64-code.fd,readonly=on"@,
                    );
                },
            }
            lemma_wf_pair("-chardev"@, "stdio,id=debug,signal=off,mux=on"@);
            lemma_wf_pair("-semihosting-config"@, "enable=on,target=native,userspace=on"@);
            lemma_wf_concat(p4, p5);
            lemma_wf_concat(pb, p4 + p5);
            lemma_wf_concat(p3, pb + (p4 + p5));
            lemma_wf_concat(p2, p3 + (pb + (p4 + p5)));
            lemma_wf_concat(p1, p2 + (p3 + (pb + (p4 + p5))));
            assert(spec_arch_qemu_args(arch, firmware) =~= p1 + (p2 + (p3 + (pb + (p4
                + p5)))));
        },
        TargetArch::Riscv64gc => {
            let p1 = seq!["-machine"@, "virt"@];
            let p2 = seq!["-semihosting-config"@, "enable=on,target=native,userspace=on"@];
            lemma_wf_pair("-machine"@, "virt"@);
            lemma_wf_pair("-semihosting-config"@, "enable=on,target=native,userspace=on"@);
            lemma_wf_concat(p1, p2);
            assert(spec_arch_qemu_args(arch, firmware) =~= p1 + p2);
        },
    }
}

/// The per-run argument tail the launcher builds is well formed and begins
/// with a flag, whatever the log and disk paths hold.
pub proof fn lemma_launch_extra_args_wf(
    log_path: Seq<char>,
    disk_path: Seq<char>,
    kvm: bool,
    gui: bool,
)
    ensures
        wf_defaults(spec_launch_extra_args(log_path, disk_path, kvm, gui)),
        spec_launch_extra_args(log_path, disk_path, kvm, gui).len() > 0,
        is_flag(spec_launch_extra_args(log_path, disk_path, kvm, gui)[0]),
{
    reveal_strlit("-chardev");
    reveal_strlit("file,id=log,path=");
    reveal_strlit("-drive");
    reveal_strlit("file=");
    reveal_strlit("-accel");
    reveal_strlit("kvm");
    reveal_strlit("-nographic");
    reveal_strlit("-vga");
    reveal_strlit("none");
    let log_val = "file,id=log,path="@ + log_path;
    let disk_val = "file="@ + disk_path + ",format=raw,if=virtio"@;
    assert(log_val[0] == 'f');
    assert(disk_val[0] == 'f');
    let p1 = seq!["-chardev"@, log_val];
    let p2 = seq!["-drive"@, disk_val];
    lemma_wf_pair("-chardev"@, log_val);
    lemma_wf_pair("-drive"@, disk_val);
    let accel: Seq<Seq<char>> = if kvm {
        seq!["-accel"@, "kvm"@]
    } else {
        Seq::empty()
    };
    if kvm {
        lemma_wf_pair("-accel"@, "kvm"@);
    }
    let display: Seq<Seq<char>> = if !gui {
        seq!["-nographic"@, "-vga"@, "none"@]
    } else {
        Seq::empty()
    };
    if !gui {
        lemma_wf_pair("-vga"@, "none"@);
        lemma_wf_single("-nographic"@);
        lemma_wf_concat(seq!["-nographic"@], seq!["-vga"@, "none"@]);
        assert(display =~= seq!["-nographic"@] + seq!["-vga"@, "none"@]);
    }
    lemma_wf_concat(accel, display);
    lemma_wf_concat(p2, accel + display);
    lemma_wf_concat(p1, p2 + (accel + display));
    assert(spec_launch_extra_args(log_path, disk_path, kvm, gui) =~= p1 + (p2 + (accel
        + display)));
}

/// The argument set the harness assembles for a launch — the architecture
/// defaults followed by the per-run tail — is always well formed, so
/// merging caller overrides into it is always defined.
pub proof fn lemma_harness_args_wf(
    arch: TargetArch,
    firmware: Aarch64Firmware,
    log_path: Seq<char>,
    disk_path: Seq<char>,
    kvm: bool,
    gui: bool,
)
    ensures
        wf_defaults(
            spec_qemu_default_args(arch, firmware) + spec_launch_extra_args(
                log_path,
                disk_path,
                kvm,
                gui,
            ),
        ),
{
    lemma_default_args_wf(arch, firmware);
    lemma_launch_extra_args_wf(log_path, disk_path, kvm, gui);
    lemma_wf_concat(
        spec_qemu_default_args(arch, firmware),
        spec_launch_extra_args(log_path, disk_path, kvm, gui),
    );
}

/// The defaults that survive a merge: each default flag (with its value, if
/// any) is copied unless the override set names that flag.
pub open spec fn spec_merge_defaults(d: Seq<Seq<char>>, user: Set<Seq<char>>) -> Seq<Seq<char>>
    decreases d.len(),
{
    if d.len() == 0 {
        Seq::empty()
    } else {
        let step = merge_step(d);
        let rest = spec_merge_defaults(d.skip(step), user);
        if user.contains(d[0]) {
            rest
        } else {
            d.take(step) + rest
        }
    }
}

/// No flag named by the override set survives among the copied defaults, so
/// the appended overrides are the only place an overridden flag appears.
pub proof fn lemma_no_overridden_flag_kept(d: Seq<Seq<char>>, user: Set<Seq<char>>)
    requires
        forall|s: Seq<char>| user.contains(s) ==> is_flag(s),
    ensures
        forall|s: Seq<char>|
            user.contains(s) ==> !spec_merge_defaults(d, user).contains(s),
    decreases d.len(),
{
    if d.len() == 0 {
    } else {
        let step = merge_step(d);
        lemma_no_overridden_flag_kept(d.skip(step), user);
        let rest = spec_merge_defaults(d.skip(step), user);
        let m = spec_merge_defaults(d, user);
        assert forall|s: Seq<char>| user.contains(s) implies !m.contains(s) by {
            if m.contains(s) {
                let k = choose|k: int| 0 <= k < m.len() && m[k] == s;
                if user.contains(d[0]) {
                    assert(rest.contains(s));
                } else {
                    if k < step {
                        if k == 1 {
                            assert(!is_flag(d[1]));
                        }
                    } else {
                        assert(rest[k - step] == s);
                        assert(rest.contains(s));
                    }
                }
            }
        }
    }
}

/// Finds a string among a vector of strings.
fn vec_contains_str(v: &Vec<String>, s: &str) -> (r: bool)
    ensures
        r == v.deep_view().contains(s@),
{
    let n: usize = v.len();
    let mut i: usize = 0;
    while i < n
        invariant
            i <= n,
            n == v.len(),
            forall|j: int| 0 <= j < i ==> v.deep_view()[j] != s@,
        decreases n - i,
    {
        if str_eq(v[i].as_str(), s) {
            proof {
                assert(v.deep_view()[i as int] == s@);
            }
            return true;
        }
        i = i + 1;
    }
    proof {
        assert(forall|j: int| 0 <= j < v.deep_view().len() ==> v.deep_view()[j] != s@);
    }
    false
}

/// Copies a vector of strings.
fn clone_string_vec(v: &Vec<String>) -> (r: Vec<String>)
    ensures
        r.deep_view() == v.deep_view(),
{
    let n: usize = v.len();
    let mut out: Vec<String> = Vec::new();
    let mut i: usize = 0;
    while i < n
        invariant
            i <= n,
            n == v.len(),
            out.len() == i,
            forall|j: int| 0 <= j < i ==> #[trigger] out@[j]@ == v@[j]@,
        decreases n - i,
    {
        let x = v[i].clone();
        proof {
            assert(x == v@[i as int]);
        }
        out.push(x);
        i = i + 1;
    }
    proof {
        assert forall|j: int| 0 <= j < n implies out.deep_view()[j] == v.deep_view()[j] by {
            assert(out@[j]@ == v@[j]@);
        }
        assert(out.deep_view() =~= v.deep_view());
    }
    out
}

/// Merges the default emulator arguments with a caller-supplied override
/// list: a default flag named by an override is dropped together with its
/// value, every other default is copied in order, and the override list is
/// appended verbatim.
pub fn apply_qemu_args(default: &Vec<String>, user_args: Option<&Vec<String>>) -> (r: Vec<
    String,
>)
    requires
        wf_defaults(default.deep_view()),
    ensures
        (match user_args {
            None => r.deep_view() == default.deep_view(),
            Some(u) => r.deep_view() == spec_merge_defaults(
                default.deep_view(),
                override_flags(u.deep_view()),
            ) + u.deep_view(),
        }),
{
    let u = match user_args {
        None => {
            return clone_string_vec(default);
        },
        Some(u) => u,
    };
    let ghost dd = default.deep_view();
    let ghost oset = override_flags(u.deep_view());
    let n: usize = default.len();
    let mut out: Vec<String> = Vec::new();
    let ghost mut done: Seq<Seq<char>> = Seq::empty();
    let mut i: usize = 0;
    proof {
        assert(dd.skip(0) =~= dd);
        assert(done + spec_merge_defaults(dd, oset) =~= spec_merge_defaults(dd, oset));
    }
    while i < n
        invariant
            i <= n,
            n == default.len(),
            dd == default.deep_view(),
            oset == override_flags(u.deep_view()),
            wf_defaults(dd.skip(i as int)),
            out.len() == done.len(),
            forall|j: int| 0 <= j < done.len() ==> #[trigger] out@[j]@ == done[j],
            done + spec_merge_defaults(dd.skip(i as int), oset) == spec_merge_defaults(dd, oset),
        decreases n - i,
    {
        let ghost s = dd.skip(i as int);
        let ghost done_before = done;
        proof {
            assert(s.len() > 0);
            assert(s[0] == dd[i as int]);
            assert(dd[i as int] == default@[i as int]@);
        }
        let single: bool = if i + 1 < n {
            proof {
                assert(s[1] == dd[i as int + 1]);
                assert(dd[i as int + 1] == default@[i as int + 1]@);
            }
            flag_token(default[i + 1].as_str())
        } else {
            true
        };
        let step: usize = if single {
            1
        } else {
            2
        };
        proof {
            assert(step as int == merge_step(s));
        }
        let in_user = vec_contains_str(u, default[i].as_str());
        proof {
            // the leading default is a flag, so membership in the override
            // set coincides with membership in the override list
            assert(is_flag(s[0]));
            assert(oset.contains(dd[i as int]) == u.deep_view().contains(dd[i as int]));
        }
        if !in_user {
            let x = default[i].clone();
            proof {
                assert(x@ == dd[i as int]);
            }
            out.push(x);
            proof {
                done = done.push(dd[i as int]);
            }
            if !single {
                let y = default[i + 1].clone();
                proof {
                    assert(y@ == dd[i as int + 1]);
                }
                out.push(y);
                proof {
                    done = done.push(dd[i as int + 1]);
                }
            }
        }
        proof {
            let kept: Seq<Seq<char>> = if oset.contains(s[0]) {
                Seq::empty()
            } else {
                s.take(step as int)
            };
            if !oset.contains(s[0]) {
                if step == 1 {
                    assert(s.take(1) =~= seq![dd[i as int]]);
                } else {
                    assert(s.take(2) =~= seq![dd[i as int], dd[i as int + 1]]);
                }
            }
            assert(done =~= done_before + kept);
            assert(s.skip(step as int) =~= dd.skip(i as int + step as int));
            assert(spec_merge_defaults(s, oset) == kept + spec_merge_defaults(
                dd.skip(i as int + step as int),
                oset,
            ));
            assert(done + spec_merge_defaults(dd.skip(i as int + step as int), oset)
                =~= done_before + spec_merge_defaults(s, oset));
        }
        i = i + step;
    }
    proof {
        assert(dd.skip(n as int) =~= Seq::<Seq<char>>::empty());
        assert(done + Seq::<Seq<char>>::empty() =~= done);
        assert(done == spec_merge_defaults(dd, oset));
    }
    let un: usize = u.len();
    let mut k: usize = 0;
    while k < un
        invariant
            k <= un,
            un == u.len(),
            oset == override_flags(u.deep_view()),
            dd == default.deep_view(),
            out.len() == done.len(),
            forall|j: int| 0 <= j < done.len() ==> #[trigger] out@[j]@ == done[j],
            done == spec_merge_defaults(dd, oset) + u.deep_view().take(k as int),
        decreases un - k,
    {
        let x = u[k].clone();
        proof {
            assert(x@ == u.deep_view()[k as int]);
        }
        out.push(x);
        proof {
            done = done.push(u.deep_view()[k as int]);
            assert(u.deep_view().take(k as int).push(u.deep_view()[k as int]) =~= u.deep_view()
                .take(k + 1));
            assert(done =~= spec_merge_defaults(dd, oset) + u.deep_view().take(k + 1));
        }
        k = k + 1;
    }
    proof {
        assert(u.deep_view().take(un as int) =~= u.deep_view());
        assert forall|j: int| 0 <= j < done.len() implies out.deep_view()[j] == done[j] by {
            assert(out@[j]@ == done[j]);
        }
        assert(out.deep_view() =~= spec_merge_defaults(dd, oset) + u.deep_view());
    }
    out
}

/// Tests whether a default list is well formed: a flag at every flag
/// position.
pub fn defaults_wf(d: &Vec<String>) -> (r: bool)
    ensures
        r == wf_defaults(d.deep_view()),
{
    let ghost dd = d.deep_view();
    let n: usize = d.len();
    let mut i: usize = 0;
    proof {
        assert(dd.skip(0) =~= dd);
    }
    while i < n
        invariant
            i <= n,
            n == d.len(),
            dd == d.deep_view(),
            wf_defaults(dd) == wf_defaults(dd.skip(i as int)),
        decreases n - i,
    {
        let ghost s = dd.skip(i as int);
        proof {
            assert(s[0] == dd[i as int]);
            assert(dd[i as int] == d@[i as int]@);
        }
        if !flag_token(d[i].as_str()) {
            proof {
                assert(!wf_defaults(s));
            }
            return false;
        }
        let single: bool = if i + 1 < n {
            proof {
                assert(s[1] == dd[i as int + 1]);
                assert(dd[i as int + 1] == d@[i as int + 1]@);
            }
            flag_token(d[i + 1].as_str())
        } else {
            true
        };
        let step: usize = if single {
            1
        } else {
            2
        };
        proof {
            assert(step as int == merge_step(s));
            assert(s.skip(step as int) =~= dd.skip(i as int + step as int));
        }
        i = i + step;
    }
    proof {
        assert(dd.skip(n as int) =~= Seq::<Seq<char>>::empty());
    }
    true
}

/// Merges like `apply_qemu_args` after checking the default list's shape,
/// so callers that cannot establish the shape themselves learn of a
/// malformed default list instead of relying on it.
pub fn apply_qemu_args_checked(default: &Vec<String>, user_args: Option<&Vec<String>>) -> (r:
    Option<Vec<String>>)
    ensures
        (match r {
            Some(v) => {
                &&& wf_defaults(default.deep_view())
                &&& (match user_args {
                    None => v.deep_view() == default.deep_view(),
                    Some(u) => v.deep_view() == spec_merge_defaults(
                        default.deep_view(),
                        override_flags(u.deep_view()),
                    ) + u.deep_view(),
                })
            },
            None => !wf_defaults(default.deep_view()),
        }),
{
    if defaults_wf(default) {
        Some(apply_qemu_args(default, user_args))
    } else {
        None
    }
}

/// How the harness reads the emulator's exit status: the guest-signalled
/// success status maps to success, the guest-signalled failure status to
/// failure, and anything else is an indeterminate run.
pub open spec fn spec_run_result_code(qemu_status: Option<i32>) -> i32 {
    match qemu_status {
        Some(51) => 0,
        Some(53) => 1,
        _ => 2,
    }
}

/// Maps the emulator's process exit status to the harness result code.
pub fn run_result_code(qemu_status: Option<i32>) -> (code: i32)
    ensures
        code == spec_run_result_code(qemu_status),
{
    match qemu_status {
        Some(51) => 0,
        Some(53) => 1,
        _ => 2,
    }
}

/// The outcome of one emulator run: the harness result code — guest-reported
/// success, guest-reported failure, or an indeterminate run — together with
/// the captured console log.  Produced once per invocation and read-only
/// afterwards.
pub struct ExecutionResult {
    pub code: i32,
    pub log: String,
}

impl ExecutionResult {
    /// Decodes the emulator's exit status and keeps the captured log.
    pub fn new(qemu_status: Option<i32>, log: String) -> (r: ExecutionResult)
        ensures
            r.code == spec_run_result_code(qemu_status),
            r.log@ == log@,
    {
        ExecutionResult { code: run_result_code(qemu_status), log }
    }

    /// Whether the guest reported success.
    pub fn success(&self) -> (r: bool)
        ensures
            r == (self.code == 0),
    {
        self.code == 0
    }
}

} // verus!
