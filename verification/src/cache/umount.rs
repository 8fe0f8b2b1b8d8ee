//! Dropping the cache of one file system, by unmounting it and mounting it again.

use crate::cache::CacheError;
use crate::cache::CacheManager;
use crate::cache::OpenRequest;
use crate::cache::Replacement;
use crate::engine::move_path;
use crate::engine::moved_path;
use crate::path::FsPath;
use crate::path::Part;
use crate::udev::block_views;
use crate::udev::get_mountpoint_in;
use crate::udev::get_udisk_blockdev_for;
use crate::udev::mountpoint_in;
use crate::udev::spec_blockdev_for;
use crate::udev::Block;
use crate::udev::BlockView;
use crate::udev::Device;
use crate::utils::FileKind;
use vstd::prelude::*;

verus! {

/// A file system and where it is mounted.
pub struct Mounted {
    pub fs: BlockView,
    pub mountpoint: Seq<Part>,
}

/// What the permission check finds for `path`: `kind` is the kind of what is at
/// the path, if that could be told, `devnode` the device file of the device that
/// bears the path, and `blocks` what the disk manager knows.
pub open spec fn spec_umount_check(
    path: Seq<Part>,
    kind: Option<FileKind>,
    devnode: Option<Seq<Part>>,
    blocks: Seq<BlockView>,
) -> Result<Mounted, CacheError> {
    if kind == Some(FileKind::Device) {
        Err(CacheError::IsBlockDevice)
    } else {
        match spec_blockdev_for(blocks, devnode) {
            Err(e) => Err(CacheError::Udev(e)),
            Ok(block) => if !block.has_fs {
                Err(CacheError::NoFileSystem)
            } else {
                match mountpoint_in(block.mount_points, path) {
                    None => Err(CacheError::NotMountedThere),
                    Some(mountpoint) => Ok(Mounted { fs: block, mountpoint }),
                }
            },
        }
    }
}

/// What is reported when a file system that was mounted at `before` is mounted at
/// `after` now: nothing if that is the same place.
pub open spec fn spec_replacement(before: Seq<Part>, after: Seq<Part>) -> Option<
    (Seq<Part>, Seq<Part>),
> {
    if before == after {
        None
    } else {
        Some((before, after))
    }
}

/// Where `path` is found after `replacement`.
pub open spec fn rewritten(path: Seq<Part>, replacement: Option<(Seq<Part>, Seq<Part>)>) -> Seq<
    Part,
> {
    match replacement {
        None => path,
        Some((before, after)) => moved_path(path, before, after),
    }
}

/// After a file system has moved, a path that lay below its old mount point lies
/// below the new one, with the same components after the mount point.
pub proof fn rewritten_path_follows_the_mount(
    path: Seq<Part>,
    before: Seq<Part>,
    after: Seq<Part>,
)
    requires
        before.is_prefix_of(path),
        crate::path::plain(path.skip(before.len() as int)),
    ensures
        rewritten(path, spec_replacement(before, after)) == after + path.skip(before.len() as int),
        after.is_prefix_of(rewritten(path, spec_replacement(before, after))),
{
    crate::path::changed_prefix_is_concatenation(path, before, after);
    if before == after {
        assert(after + path.skip(before.len() as int) =~= path);
    }
    let moved = after + path.skip(before.len() as int);
    assert(moved.subrange(0, after.len() as int) =~= after);
}

/// A replacement that may be missing, as sequences of components.
pub open spec fn replacement_view(replacement: Option<Replacement>) -> Option<
    (Seq<Part>, Seq<Part>),
> {
    match replacement {
        Some(r) => Some((r.before@, r.after@)),
        None => None,
    }
}

/// The replacement to report when what was at `before` is at `after` now.
pub fn replacement_for(before: &FsPath, after: &FsPath) -> (res: Option<Replacement>)
    ensures
        replacement_view(res) == spec_replacement(before@, after@),
{
    if before.same_as(after) {
        None
    } else {
        Some(Replacement { before: before.clone(), after: after.clone() })
    }
}

/// The content of an `UmountCacheManager` after its permission check.
struct Inner {
    fs: Block,
    mountpoint: FsPath,
}

/// Drops the page cache of a file system by unmounting then remounting it.
pub struct UmountCacheManager {
    inner: Option<Inner>,
}

impl Default for UmountCacheManager {
    fn default() -> (manager: UmountCacheManager)
        ensures
            manager.mounted().is_none(),
    {
        UmountCacheManager { inner: None }
    }
}

impl CacheManager for UmountCacheManager {
    closed spec fn is_ready(&self) -> bool {
        self.inner.is_some()
    }

    fn open_no_cache(&self, request: OpenRequest) -> (res: Result<OpenRequest, CacheError>)
        ensures
            res matches Ok(r) ==> r == request,
    {
        if self.inner.is_some() {
            Ok(request)
        } else {
            Err(CacheError::NotReady)
        }
    }

    fn name(&self) -> (name: &'static str)
        ensures
            name@ == "UmountCacheManager"@,
    {
        "UmountCacheManager"
    }
}

impl UmountCacheManager {
    /// The file system that the permission check found, and where it was mounted.
    pub closed spec fn mounted(&self) -> Option<Mounted> {
        match self.inner {
            Some(inner) => Some(Mounted { fs: inner.fs@, mountpoint: inner.mountpoint@ }),
            None => None,
        }
    }

    /// The policy is ready when it knows its file system.
    pub proof fn ready_when_mounted(&self)
        ensures
            self.is_ready() == self.mounted().is_some(),
    {
    }

    /// Finds the file system that bears `path` and where it is mounted. `kind` is
    /// the kind of what is at the path, if that could be told, `dev` the device that
    /// bears the path, and `blocks` what the disk manager knows.
    pub fn permission_check(
        &mut self,
        path: &FsPath,
        kind: Option<FileKind>,
        dev: &Device,
        blocks: &Vec<Block>,
    ) -> (res: Result<(), CacheError>)
        ensures
            match spec_umount_check(path@, kind, dev@.devnode, block_views(blocks@)) {
                Ok(mounted) => res is Ok && final(self).mounted() == Some(mounted),
                Err(e) => res == Err::<(), CacheError>(e) && final(self).mounted() == old(self).mounted(),
            },
    {
        match kind {
            Some(FileKind::Device) => {
                return Err(CacheError::IsBlockDevice);
            },
            _ => {},
        }
        let block = match get_udisk_blockdev_for(blocks, dev) {
            Ok(block) => block,
            Err(e) => {
                return Err(CacheError::Udev(e));
            },
        };
        if !block.has_fs {
            return Err(CacheError::NoFileSystem);
        }
        let mountpoint = match get_mountpoint_in(&block, path) {
            None => {
                return Err(CacheError::NotMountedThere);
            },
            Some(x) => x,
        };
        self.inner = Some(Inner { fs: block, mountpoint });
        Ok(())
    }

    /// The file system to unmount and to mount again.
    pub fn unmount_target(&self) -> (res: Result<&Block, CacheError>)
        ensures
            match self.mounted() {
                Some(mounted) => res is Ok && res->Ok_0@ == mounted.fs,
                None => res matches Err(CacheError::NotReady),
            },
    {
        match &self.inner {
            Some(inner) => Ok(&inner.fs),
            None => Err(CacheError::NotReady),
        }
    }

    /// Where `path` is found now that the file system is mounted at `remounted`.
    pub fn remounted_path(&self, path: &FsPath, remounted: &FsPath) -> (res: Result<
        FsPath,
        CacheError,
    >)
        ensures
            match self.mounted() {
                Some(mounted) => res is Ok && res->Ok_0@ == rewritten(
                    path@,
                    spec_replacement(mounted.mountpoint, remounted@),
                ),
                None => res matches Err(CacheError::NotReady),
            },
    {
        match &self.inner {
            Some(inner) => {
                if inner.mountpoint.same_as(remounted) {
                    Ok(path.clone())
                } else {
                    Ok(move_path(path, &inner.mountpoint, remounted))
                }
            },
            None => Err(CacheError::NotReady),
        }
    }

    /// Takes in that the file system was unmounted and is mounted at `remounted`
    /// now. Where that is another place than before, the move is reported, and the
    /// permission check is made again for `path` as it is found after the move: of
    /// that path `kind`, `dev` and `blocks` tell what they tell a permission check.
    pub fn drop_cache(
        &mut self,
        path: &FsPath,
        remounted: &FsPath,
        kind: Option<FileKind>,
        dev: &Device,
        blocks: &Vec<Block>,
    ) -> (res: Result<Option<Replacement>, CacheError>)
        ensures
            match old(self).mounted() {
                None => res matches Err(CacheError::NotReady) && final(self).mounted().is_none(),
                Some(before) => {
                    let replacement = spec_replacement(before.mountpoint, remounted@);
                    match spec_umount_check(
                        rewritten(path@, replacement),
                        kind,
                        dev@.devnode,
                        block_views(blocks@),
                    ) {
                        Ok(mounted) => res is Ok && replacement_view(res->Ok_0) == replacement
                            && final(self).mounted() == Some(mounted),
                        Err(e) => res matches Err(f) && f == e && final(self).mounted() == old(self).mounted(),
                    }
                },
            },
    {
        let (replacement, new_path) = match &self.inner {
            None => {
                return Err(CacheError::NotReady);
            },
            Some(inner) => {
                let replacement = replacement_for(&inner.mountpoint, remounted);
                let new_path = match &replacement {
                    None => path.clone(),
                    Some(r) => move_path(path, &r.before, &r.after),
                };
                (replacement, new_path)
            },
        };
        match self.permission_check(&new_path, kind, dev, blocks) {
            Ok(()) => Ok(replacement),
            Err(e) => Err(e),
        }
    }
}

} // verus!
