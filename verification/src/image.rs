use vstd::prelude::*;

verus! {

use crate::strutil::str_concat;

/// How a base image is materialised: as a mountable block image or as a
/// packed archive that is extracted into a plain directory.
#[derive(Clone, Copy, PartialEq, Eq, Structural, Debug)]
pub enum ImageBackend {
    Mounted,
    Archived,
}

/// Picks the backend: a host that can mount the guest filesystem works on a
/// block image, any other host falls back to archives.
pub fn backend_for(fuse_available: bool) -> (r: ImageBackend)
    ensures
        r == if fuse_available {
            ImageBackend::Mounted
        } else {
            ImageBackend::Archived
        },
{
    if fuse_available {
        ImageBackend::Mounted
    } else {
        ImageBackend::Archived
    }
}

/// The base name of the cached image for a configuration.
pub open spec fn spec_base_name(gui: bool) -> Seq<char> {
    if gui {
        "gui"@
    } else {
        "base"@
    }
}

/// The file extension of the cached image for a backend.
pub open spec fn spec_base_ext(backend: ImageBackend) -> Seq<char> {
    match backend {
        ImageBackend::Mounted => "bin"@,
        ImageBackend::Archived => "tar"@,
    }
}

/// The cached image's file name for a configuration and backend.
pub open spec fn spec_base_file_name(gui: bool, backend: ImageBackend) -> Seq<char> {
    spec_base_name(gui) + "."@ + spec_base_ext(backend)
}

/// Names the cached base image file for a configuration and backend.
pub fn base_file_name(gui: bool, backend: ImageBackend) -> (r: String)
    ensures
        r@ == spec_base_file_name(gui, backend),
{
    let name = if gui {
        "gui"
    } else {
        "base"
    };
    let ext = match backend {
        ImageBackend::Mounted => "bin",
        ImageBackend::Archived => "tar",
    };
    let dotted = str_concat(name, ".");
    dotted.concat(ext)
}

/// The name a partially built artifact carries until the build succeeds.
pub fn partial_file_name(file: &str) -> (r: String)
    ensures
        r@ == file@ + ".partial"@,
{
    str_concat(file, ".partial")
}

/// A half-built artifact can never be mistaken for the finished one: the
/// partial name always differs from the name it decorates.
pub proof fn lemma_partial_name_differs(file: Seq<char>)
    ensures
        file + ".partial"@ != file,
{
    reveal_strlit(".partial");
    assert((file + ".partial"@).len() == file.len() + 8);
}

/// The file the installer leaves the bootloader under, which depends on how
/// the target architecture boots.
pub open spec fn spec_bootloader_source(uefi: bool) -> Seq<char> {
    if uefi {
        "boot/bootloader-live.efi"@
    } else {
        "boot/bootloader.bios"@
    }
}

/// Names the bootloader file inside a freshly installed tree.
pub fn bootloader_source(uefi: bool) -> (r: String)
    ensures
        r@ == spec_bootloader_source(uefi),
{
    if uefi {
        String::from_str("boot/bootloader-live.efi")
    } else {
        String::from_str("boot/bootloader.bios")
    }
}

/// What the cache holds for one base image name before a build: the manifest
/// text recorded beside the image when the image was built, and whether the
/// image artifact itself is present.
pub struct CacheEntry {
    pub recorded_manifest: Option<String>,
    pub image_present: bool,
}

/// A cache entry that can be reused for the requested manifest: the image is
/// present and was built from exactly that manifest.
pub open spec fn cache_valid(e: CacheEntry, manifest: Seq<char>) -> bool {
    e.image_present && match e.recorded_manifest {
        Some(m) => m@ == manifest,
        None => false,
    }
}

/// A cache entry whose recorded manifest differs from the requested one.
pub open spec fn cache_drifted(e: CacheEntry, manifest: Seq<char>) -> bool {
    match e.recorded_manifest {
        Some(m) => m@ != manifest,
        None => false,
    }
}

/// The externally visible work one `ensure_base` call asks for: whether the
/// stale image and its manifest record are deleted first, and whether a fresh
/// image is built (and the manifest recorded beside it) afterwards.
#[derive(Clone, Copy, PartialEq, Eq, Structural, Debug)]
pub struct BasePlan {
    pub delete_stale: bool,
    pub build: bool,
}

impl CacheEntry {
    /// Ensures a base image built from `manifest` is cached under this
    /// entry, and says which filesystem work that takes.  A recorded
    /// manifest that differs from the requested one always has the previous
    /// image deleted before the rebuild; a valid cached image is reused
    /// without any rebuild.  Afterwards the entry is valid for `manifest`.
    pub fn ensure_base(&mut self, manifest: &String) -> (plan: BasePlan)
        ensures
            plan.delete_stale == cache_drifted(*old(self), manifest@),
            plan.build == !cache_valid(*old(self), manifest@),
            cache_valid(*final(self), manifest@),
            !plan.build ==> *final(self) == *old(self),
    {
        let drifted = match &self.recorded_manifest {
            Some(m) => !crate::strutil::str_eq(m.as_str(), manifest.as_str()),
            None => false,
        };
        if drifted {
            self.recorded_manifest = None;
            self.image_present = false;
        }
        let build = match &self.recorded_manifest {
            Some(_) => !self.image_present,
            None => true,
        };
        if build {
            self.recorded_manifest = Some(manifest.clone());
            self.image_present = true;
        }
        BasePlan { delete_stale: drifted, build }
    }
}

/// Idempotence: once the cache is valid for a manifest, a further
/// `ensure_base` call with the same manifest deletes nothing and rebuilds
/// nothing — its plan is `delete_stale == false` and `build == false` by the
/// contract of `ensure_base`.
pub proof fn lemma_ensure_base_idempotent(e: CacheEntry, manifest: Seq<char>)
    requires
        cache_valid(e, manifest),
    ensures
        !cache_drifted(e, manifest),
{
}

/// Drift: when the recorded manifest differs from the requested one, the
/// entry is both drifted and invalid, so the plan of `ensure_base` deletes
/// the previous image and rebuilds — `delete_stale == true` and
/// `build == true` by the contract of `ensure_base`.
pub proof fn lemma_ensure_base_drift(e: CacheEntry, recorded: String, manifest: Seq<char>)
    requires
        e.recorded_manifest == Some(recorded),
        recorded@ != manifest,
    ensures
        cache_drifted(e, manifest),
        !cache_valid(e, manifest),
{
}

} // verus!
