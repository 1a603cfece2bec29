use redoxer::image::{
    backend_for, base_file_name, bootloader_source, partial_file_name, BasePlan, CacheEntry,
    ImageBackend,
};

#[test]
fn fresh_cache_builds_without_deleting() {
    let mut e = CacheEntry { recorded_manifest: None, image_present: false };
    let plan = e.ensure_base(&"pkg=a\n".to_string());
    assert_eq!(plan, BasePlan { delete_stale: false, build: true });
    assert!(e.image_present);
    assert_eq!(e.recorded_manifest, Some("pkg=a\n".to_string()));
}

#[test]
fn second_call_with_same_manifest_rebuilds_nothing() {
    let manifest = "pkg=a\n".to_string();
    let mut e = CacheEntry { recorded_manifest: None, image_present: false };
    e.ensure_base(&manifest);
    let again = e.ensure_base(&manifest);
    assert_eq!(again, BasePlan { delete_stale: false, build: false });
    assert!(e.image_present);
    assert_eq!(e.recorded_manifest, Some(manifest));
}

#[test]
fn changed_manifest_deletes_previous_image_before_rebuild() {
    let mut e = CacheEntry {
        recorded_manifest: Some("pkg=a\n".to_string()),
        image_present: true,
    };
    let plan = e.ensure_base(&"pkg=b\n".to_string());
    assert_eq!(plan, BasePlan { delete_stale: true, build: true });
    assert_eq!(e.recorded_manifest, Some("pkg=b\n".to_string()));
    assert!(e.image_present);
}

#[test]
fn missing_image_with_matching_record_still_rebuilds() {
    let mut e = CacheEntry {
        recorded_manifest: Some("pkg=a\n".to_string()),
        image_present: false,
    };
    let plan = e.ensure_base(&"pkg=a\n".to_string());
    assert_eq!(plan, BasePlan { delete_stale: false, build: true });
    assert!(e.image_present);
}

#[test]
fn base_image_file_names() {
    assert_eq!(base_file_name(false, ImageBackend::Mounted), "base.bin");
    assert_eq!(base_file_name(false, ImageBackend::Archived), "base.tar");
    assert_eq!(base_file_name(true, ImageBackend::Mounted), "gui.bin");
    assert_eq!(base_file_name(true, ImageBackend::Archived), "gui.tar");
}

#[test]
fn partial_names_mark_unfinished_artifacts() {
    let partial = partial_file_name("base.bin");
    assert_eq!(partial, "base.bin.partial");
    assert_ne!(partial, "base.bin");
}

#[test]
fn bootloader_file_depends_on_boot_style() {
    assert_eq!(bootloader_source(true), "boot/bootloader-live.efi");
    assert_eq!(bootloader_source(false), "boot/bootloader.bios");
}

#[test]
fn backend_follows_mount_capability() {
    assert_eq!(backend_for(true), ImageBackend::Mounted);
    assert_eq!(backend_for(false), ImageBackend::Archived);
}
