//! Dropping the page cache of the whole system.

use crate::cache::CacheError;
use crate::cache::CacheManager;
use crate::cache::OpenRequest;
use crate::path::FsPath;
use crate::path::Part;
use crate::utils::FileKind;
use vstd::prelude::*;

verus! {

/// How what was written below a path is brought to the medium.
#[derive(Debug)]
pub enum Sync {
    /// Open the path without following it, and sync the file system that holds it.
    FileSystem,
    /// Open the device and sync it.
    Device,
    /// A link cannot be opened: look at the directory above it instead, which is
    /// given here.
    Ascend(FsPath),
}

/// What `global_drop_cache` decides for a path with these components, of this kind.
pub open spec fn spec_global_drop_cache(file: Seq<Part>, kind: FileKind) -> Result<
    Option<Seq<Part>>,
    CacheError,
> {
    match kind {
        FileKind::Directory | FileKind::Regular | FileKind::Device => Ok(None),
        FileKind::Symlink => if file.len() > 0 && file.last() != Part::Root {
            Ok(Some(file.drop_last()))
        } else {
            Err(CacheError::NoParent)
        },
        FileKind::Other => Err(CacheError::WrongFileType),
    }
}

/// How to sync what was written below `file`, which is of kind `kind`, before the
/// caches are dropped.
pub fn global_drop_cache(file: &FsPath, kind: FileKind) -> (res: Result<Sync, CacheError>)
    ensures
        match spec_global_drop_cache(file@, kind) {
            Err(e) => res == Err::<Sync, CacheError>(e),
            Ok(Some(parent)) => res matches Ok(Sync::Ascend(p)) && p@ == parent,
            Ok(None) => if kind == FileKind::Device {
                res matches Ok(Sync::Device)
            } else {
                res matches Ok(Sync::FileSystem)
            },
        },
{
    match kind {
        FileKind::Directory | FileKind::Regular => Ok(Sync::FileSystem),
        FileKind::Symlink => {
            // syncing does not work on symlinks, so the parent is synced instead
            match file.parent() {
                Some(x) => Ok(Sync::Ascend(x)),
                None => Err(CacheError::NoParent),
            }
        },
        FileKind::Device => Ok(Sync::Device),
        FileKind::Other => Err(CacheError::WrongFileType),
    }
}

/// Looking above a link comes to an end: the directory above has fewer components.
pub proof fn ascent_ends(file: Seq<Part>, kind: FileKind)
    requires
        spec_global_drop_cache(file, kind) matches Ok(Some(_)),
    ensures
        spec_global_drop_cache(file, kind)->Ok_0->0.len() < file.len(),
{
}

/// What is to be done to drop the caches.
#[derive(Debug)]
pub struct DropPlan {
    pub sync: Sync,
    /// Whether to ask the system to drop its caches, once the sync is done.
    pub drop_caches: bool,
}

/// Drops the page cache of the whole system. This needs the privileges of the
/// superuser, unless the caches are left alone, as in a test.
#[derive(Debug)]
pub struct PageCacheManager {
    ready: bool,
}

impl Default for PageCacheManager {
    fn default() -> (manager: PageCacheManager)
        ensures
            !manager.is_ready(),
    {
        PageCacheManager { ready: false }
    }
}

impl CacheManager for PageCacheManager {
    closed spec fn is_ready(&self) -> bool {
        self.ready
    }

    fn open_no_cache(&self, request: OpenRequest) -> (res: Result<OpenRequest, CacheError>)
        ensures
            res matches Ok(r) ==> r == request,
    {
        if self.ready {
            Ok(request)
        } else {
            Err(CacheError::NotReady)
        }
    }

    fn name(&self) -> (name: &'static str)
        ensures
            name@ == "PageCacheManager"@,
    {
        "PageCacheManager"
    }
}

impl PageCacheManager {
    /// Succeeds for the superuser, and for anybody if `no_root` says that the
    /// caches are to be left alone.
    pub fn permission_check(&mut self, is_root: bool, no_root: bool) -> (res: Result<(), CacheError>)
        ensures
            res is Ok <==> is_root || no_root,
            res is Ok ==> final(self).is_ready(),
            res matches Err(e) ==> e == CacheError::NeedsRoot && final(self).is_ready() == old(self).is_ready(),
    {
        if is_root || no_root {
            self.ready = true;
            Ok(())
        } else {
            Err(CacheError::NeedsRoot)
        }
    }

    /// What is to be done to drop the caches below `path`, which is of kind `kind`.
    /// The caches themselves are left alone if `no_root` says so.
    pub fn drop_cache(&self, path: &FsPath, kind: FileKind, no_root: bool) -> (res: Result<
        DropPlan,
        CacheError,
    >)
        ensures
            !self.is_ready() ==> res matches Err(CacheError::NotReady),
            self.is_ready() ==> match spec_global_drop_cache(path@, kind) {
                Err(e) => res matches Err(f) && f == e,
                Ok(Some(parent)) => res matches Ok(
                    DropPlan { sync: Sync::Ascend(p), drop_caches },
                ) && p@ == parent && drop_caches == !no_root,
                Ok(None) => res matches Ok(DropPlan { sync, drop_caches }) && drop_caches == !no_root
                    && if kind == FileKind::Device {
                    sync is Device
                } else {
                    sync is FileSystem
                },
            },
    {
        if !self.ready {
            return Err(CacheError::NotReady);
        }
        match global_drop_cache(path, kind) {
            Ok(sync) => Ok(DropPlan { sync, drop_caches: !no_root }),
            Err(e) => Err(e),
        }
    }
}

} // verus!
