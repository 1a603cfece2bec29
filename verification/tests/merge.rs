use redoxer::exec::{
    apply_qemu_args, apply_qemu_args_checked, defaults_wf, launch_extra_args, qemu_default_args,
    Aarch64Firmware, TargetArch,
};

fn strings(v: &[&str]) -> Vec<String> {
    v.iter().map(|s| s.to_string()).collect()
}

#[test]
fn override_replaces_default_value_flag() {
    let defaults = strings(&["-cpu", "max", "-m", "2048"]);
    let overrides = strings(&["-m", "4096"]);
    let merged = apply_qemu_args(&defaults, Some(&overrides));
    assert_eq!(merged, strings(&["-cpu", "max", "-m", "4096"]));
}

#[test]
fn override_drops_single_default_flag() {
    let defaults = strings(&["-nographic", "-vga", "none"]);
    let overrides = strings(&["-nographic"]);
    let merged = apply_qemu_args(&defaults, Some(&overrides));
    assert_eq!(merged, strings(&["-vga", "none", "-nographic"]));
}

#[test]
fn new_flag_is_appended_after_defaults() {
    let defaults = strings(&["-cpu", "max"]);
    let overrides = strings(&["-extra", "1"]);
    let merged = apply_qemu_args(&defaults, Some(&overrides));
    assert_eq!(merged, strings(&["-cpu", "max", "-extra", "1"]));
}

#[test]
fn no_overrides_keeps_defaults_verbatim() {
    let defaults = strings(&["-cpu", "max", "-smp", "4"]);
    let merged = apply_qemu_args(&defaults, None);
    assert_eq!(merged, defaults);
}

#[test]
fn overridden_flag_never_duplicated() {
    let defaults = strings(&["-m", "2048", "-smp", "4", "-serial", "mon:stdio"]);
    let overrides = strings(&["-serial", "none", "-m", "1024"]);
    let merged = apply_qemu_args(&defaults, Some(&overrides));
    // every overridden flag appears exactly once, in the override section
    assert_eq!(merged.iter().filter(|s| s.as_str() == "-m").count(), 1);
    assert_eq!(merged.iter().filter(|s| s.as_str() == "-serial").count(), 1);
    assert_eq!(merged, strings(&["-smp", "4", "-serial", "none", "-m", "1024"]));
}

#[test]
fn default_list_shape_is_checked() {
    assert!(defaults_wf(&strings(&["-cpu", "max", "-nographic"])));
    assert!(!defaults_wf(&strings(&["stray", "-cpu", "max"])));
    assert!(defaults_wf(&Vec::new()));

    let merged = apply_qemu_args_checked(&strings(&["-m", "2048"]), Some(&strings(&["-m", "1"])));
    assert_eq!(merged, Some(strings(&["-m", "1"])));
    assert_eq!(apply_qemu_args_checked(&strings(&["oops"]), None), None);
}

#[test]
fn harness_built_argument_sets_merge_cleanly() {
    let mut defaults = qemu_default_args(TargetArch::X86_64, Aarch64Firmware::Aavmf);
    defaults.extend(launch_extra_args("/tmp/l", "/tmp/d", true, false));
    let merged = apply_qemu_args_checked(&defaults, Some(&strings(&["-m", "4096"])))
        .expect("harness defaults are well formed");
    assert_eq!(merged.iter().filter(|s| s.as_str() == "-m").count(), 1);
    assert_eq!(merged.last().unwrap(), "4096");
}

#[test]
fn value_matching_override_flag_is_not_confused_with_flag() {
    // "-m" as a *value* of another flag is still copied
    let defaults = strings(&["-append", "x", "-m", "2048"]);
    let overrides = strings(&["-m", "512"]);
    let merged = apply_qemu_args(&defaults, Some(&overrides));
    assert_eq!(merged, strings(&["-append", "x", "-m", "512"]));
}
