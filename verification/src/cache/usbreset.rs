//! Dropping every cache between the system and a USB drive, by resetting the hub
//! that the drive is plugged into.

use crate::cache::umount::replacement_for;
use crate::cache::umount::replacement_view;
use crate::cache::umount::spec_replacement;
use crate::cache::CacheError;
use crate::cache::CacheManager;
use crate::cache::OpenRequest;
use crate::cache::Replacement;
use crate::path::FsPath;
use crate::path::Part;
use crate::udev::block_views;
use crate::udev::contains_path;
use crate::udev::device_views;
use crate::udev::drive_views;
use crate::udev::get_mountpoint_in;
use crate::udev::get_udisk_blockdev_by_drive_and_size;
use crate::udev::get_udisk_blockdev_by_uuid;
use crate::udev::get_udisk_blockdev_for;
use crate::udev::meeting;
use crate::udev::mountpoint_in;
use crate::udev::reset_usb_hub;
use crate::udev::same_text;
use crate::udev::spec_blockdev_for;
use crate::udev::spec_drives_for;
use crate::udev::spec_usb_device_file;
use crate::udev::spec_usb_hub_for;
use crate::udev::udisk_drives_for;
use crate::udev::unique_of;
use crate::udev::usb_hub_for;
use crate::udev::Block;
use crate::udev::BlockView;
use crate::udev::CriterionView;
use crate::udev::Device;
use crate::udev::DeviceView;
use crate::udev::Drive;
use crate::udev::DriveView;
use crate::udev::UsbReset;
use crate::utils::FileKind;
use crate::utils::IoError;
use crate::utils::Unique;
use vstd::prelude::*;

verus! {

/// How many times the disk manager is asked for the device after the reset, a
/// second apart.
pub const ATTEMPTS: u32 = 60;

/// Enough to find again what is copied to after the reset.
pub enum Identifier {
    /// A block device, by the name of its drive and its size.
    BlockDevice(String, u64),
    /// A file system, by its identifier.
    Fs(String),
}

/// An identifier, its texts taken as sequences of characters.
pub enum IdentifierView {
    BlockDevice(Seq<char>, u64),
    Fs(Seq<char>),
}

impl View for Identifier {
    type V = IdentifierView;

    open spec fn view(&self) -> IdentifierView {
        match self {
            Identifier::BlockDevice(drive, size) => IdentifierView::BlockDevice(drive@, *size),
            Identifier::Fs(uuid) => IdentifierView::Fs(uuid@),
        }
    }
}

/// What the permission check found.
pub struct UsbTarget {
    /// The block device that bears the destination.
    pub block: BlockView,
    /// The drives that are ejected before the reset.
    pub drives: Seq<DriveView>,
    /// The hub that is reset.
    pub usbhub: DeviceView,
    /// How the destination is found again.
    pub id: IdentifierView,
    /// Where the file system is mounted, if the destination is on one.
    pub mountpoint: Option<Seq<Part>>,
}

/// That a description tells a block device from every other: no more than one
/// answers it. The block device that the description was taken from always does.
pub open spec fn confirmed(found: Unique<BlockView>) -> Result<(), CacheError> {
    match found {
        Unique::Several => Err(CacheError::Ambiguous),
        _ => Ok(()),
    }
}

/// How `block` is found again, and where it is mounted. A block device that is
/// itself the destination is told by its drive and size; a file system must be
/// mounted above the destination and is told by its identifier.
pub open spec fn spec_identify(
    block: BlockView,
    kind: Option<FileKind>,
    path: Seq<Part>,
    blocks: Seq<BlockView>,
) -> Result<(IdentifierView, Option<Seq<Part>>), CacheError> {
    if kind == Some(FileKind::Device) {
        match confirmed(
            unique_of(meeting(blocks, CriterionView::DriveAndSize(block.drive, block.size))),
        ) {
            Err(e) => Err(e),
            Ok(()) => Ok((IdentifierView::BlockDevice(block.drive, block.size), None)),
        }
    } else if !block.has_fs {
        Err(CacheError::NoFileSystem)
    } else {
        match (mountpoint_in(block.mount_points, path), block.id_uuid) {
            (None, _) => Err(CacheError::NotMountedThere),
            (Some(_), None) => Err(CacheError::NoUuid),
            (Some(mountpoint), Some(uuid)) => match confirmed(
                unique_of(meeting(blocks, CriterionView::Uuid(uuid))),
            ) {
                Err(e) => Err(e),
                Ok(()) => Ok((IdentifierView::Fs(uuid), Some(mountpoint))),
            },
        }
    }
}

/// Whether every drive can be ejected.
pub open spec fn all_ejectable(drives: Seq<DriveView>) -> bool {
    forall|i: int| 0 <= i < drives.len() ==> (#[trigger] drives[i]).ejectable
}

/// What the permission check finds for `path`: `kind` is the kind of what is at
/// the path, if that could be told; `devnode` is the device file of the device that
/// bears the path, and `ancestors` the devices above that device, the nearest
/// first; `blocks` and `drives` are what the disk manager knows.
pub open spec fn spec_usb_check(
    is_root: bool,
    path: Seq<Part>,
    kind: Option<FileKind>,
    devnode: Option<Seq<Part>>,
    ancestors: Seq<DeviceView>,
    blocks: Seq<BlockView>,
    drives: Seq<DriveView>,
) -> Result<UsbTarget, CacheError> {
    if !is_root {
        Err(CacheError::NeedsRoot)
    } else {
        match spec_blockdev_for(blocks, devnode) {
            Err(e) => Err(CacheError::Udev(e)),
            Ok(block) => match spec_identify(block, kind, path, blocks) {
                Err(e) => Err(e),
                Ok((id, mountpoint)) => match spec_drives_for(drives, block.drive) {
                    None => Err(CacheError::Udev(crate::udev::UdevError::NoDrive)),
                    Some(group) => if !all_ejectable(group) {
                        Err(CacheError::NotEjectable)
                    } else {
                        match spec_usb_hub_for(ancestors) {
                            None => Err(CacheError::Udev(crate::udev::UdevError::NotOnUsb)),
                            Some(usbhub) => match spec_usb_device_file(usbhub) {
                                Err(e) => Err(CacheError::Udev(e)),
                                Ok(_) => Ok(
                                    UsbTarget { block, drives: group, usbhub, id, mountpoint },
                                ),
                            },
                        }
                    },
                },
            },
        }
    }
}

/// Whether a block device is to be unmounted before the reset: it is mounted, and
/// on one of `drives`.
pub open spec fn on_drives(drives: Seq<DriveView>) -> spec_fn(BlockView) -> bool {
    |b: BlockView|
        b.mount_points.len() > 0 && exists|i: int|
            0 <= i < drives.len() && (#[trigger] drives[i]).path == b.drive
}

/// What the search for the destination after the reset came to, at the attempt
/// `attempt` of `ATTEMPTS`: the block device if it is there, nothing if it is to be
/// looked for again.
pub open spec fn spec_await(id: IdentifierView, attempt: u32, blocks: Seq<BlockView>) -> Result<
    Option<BlockView>,
    CacheError,
> {
    let criterion = match id {
        IdentifierView::Fs(uuid) => CriterionView::Uuid(uuid),
        IdentifierView::BlockDevice(drive, size) => CriterionView::DriveAndSize(drive, size),
    };
    match unique_of(meeting(blocks, criterion)) {
        Unique::One(x) => Ok(Some(x)),
        Unique::Several => Err(CacheError::Ambiguous),
        Unique::Zero => if attempt >= ATTEMPTS {
            Err(CacheError::TimedOut)
        } else {
            Ok(None)
        },
    }
}

/// What is reported once the destination `path` was found again as `block`: a file
/// system that is mounted at `remounted` now has moved unless that is where it was;
/// a block device has moved unless `path` is still one of its names.
pub open spec fn spec_reappeared(
    target: UsbTarget,
    path: Seq<Part>,
    block: BlockView,
    remounted: Option<Seq<Part>>,
) -> Result<Option<(Seq<Part>, Seq<Part>)>, CacheError> {
    match (target.id, target.mountpoint, remounted) {
        (IdentifierView::Fs(_), Some(mountpoint), Some(now)) => Ok(
            spec_replacement(mountpoint, now),
        ),
        (IdentifierView::Fs(_), _, _) => Err(CacheError::NotMountedThere),
        (IdentifierView::BlockDevice(_, _), _, _) => if block.symlinks.contains(path) || path
            == block.device {
            Ok(None)
        } else {
            Ok(Some((path, block.device)))
        },
    }
}

/// The content of an `UsbResetCacheManager` after its permission check.
struct Inner {
    block: Block,
    drives: Vec<Drive>,
    usbhub: Device,
    id: Identifier,
    mountpoint: Option<FsPath>,
}

impl Inner {
    spec fn target(self) -> UsbTarget {
        UsbTarget {
            block: self.block@,
            drives: drive_views(self.drives@),
            usbhub: self.usbhub@,
            id: self.id@,
            mountpoint: crate::udev::path_option(self.mountpoint),
        }
    }
}

/// Resets the usb bus bearing the drive.
pub struct UsbResetCacheManager {
    /// What a permission check found, until its rehearsal is confirmed.
    checked: Option<Inner>,
    /// What the last confirmed permission check found.
    inner: Option<Inner>,
}

impl Default for UsbResetCacheManager {
    fn default() -> (manager: UsbResetCacheManager)
        ensures
            manager.target().is_none(),
            manager.checked().is_none(),
    {
        UsbResetCacheManager { checked: None, inner: None }
    }
}

impl CacheManager for UsbResetCacheManager {
    closed spec fn is_ready(&self) -> bool {
        self.inner.is_some()
    }

    fn open_no_cache(&self, request: OpenRequest) -> (res: Result<OpenRequest, CacheError>)
        ensures
            res matches Ok(r) ==> r == request,
    {
        if self.inner.is_some() {
            Ok(request)
        } else {
            Err(CacheError::NotReady)
        }
    }

    fn name(&self) -> (name: &'static str)
        ensures
            name@ == "UsbResetCacheManager"@,
    {
        "UsbResetCacheManager"
    }
}

fn confirm(found: Unique<Block>) -> (res: Result<(), CacheError>)
    ensures
        res == confirmed(crate::udev::unique_view(found)),
{
    match found {
        Unique::Several => Err(CacheError::Ambiguous),
        _ => Ok(()),
    }
}

fn identify(block: &Block, kind: Option<FileKind>, path: &FsPath, blocks: &Vec<Block>) -> (res:
    Result<(Identifier, Option<FsPath>), CacheError>)
    ensures
        match spec_identify(block@, kind, path@, block_views(blocks@)) {
            Err(e) => res matches Err(f) && f == e,
            Ok((id, mountpoint)) => res is Ok && res->Ok_0.0@ == id && crate::udev::path_option(
                res->Ok_0.1,
            ) == mountpoint,
        },
{
    match kind {
        Some(FileKind::Device) => {
            let b = get_udisk_blockdev_by_drive_and_size(blocks, &block.drive, block.size);
            match confirm(b) {
                Err(e) => Err(e),
                Ok(()) => Ok((Identifier::BlockDevice(block.drive.clone(), block.size), None)),
            }
        },
        _ => {
            if !block.has_fs {
                return Err(CacheError::NoFileSystem);
            }
            let mountpoint = match get_mountpoint_in(block, path) {
                None => {
                    return Err(CacheError::NotMountedThere);
                },
                Some(x) => x,
            };
            let uuid = match &block.id_uuid {
                None => {
                    return Err(CacheError::NoUuid);
                },
                Some(x) => x.clone(),
            };
            match confirm(get_udisk_blockdev_by_uuid(blocks, &uuid)) {
                Err(e) => Err(e),
                Ok(()) => Ok((Identifier::Fs(uuid), Some(mountpoint))),
            }
        },
    }
}

fn every_drive_ejectable(drives: &Vec<Drive>) -> (res: bool)
    ensures
        res == all_ejectable(drive_views(drives@)),
{
    let mut i: usize = 0;
    while i < drives.len()
        invariant
            i <= drives@.len(),
            forall|j: int| 0 <= j < i ==> (#[trigger] drive_views(drives@)[j]).ejectable,
        decreases drives@.len() - i,
    {
        if !drives[i].ejectable {
            assert(!drive_views(drives@)[i as int].ejectable);
            return false;
        }
        i += 1;
    }
    true
}

fn on_some_drive(drives: &Vec<Drive>, block: &Block) -> (res: bool)
    ensures
        res == on_drives(drive_views(drives@))(block@),
{
    if block.mount_points.len() == 0 {
        return false;
    }
    let mut i: usize = 0;
    while i < drives.len()
        invariant
            i <= drives@.len(),
            block@.mount_points.len() > 0,
            forall|j: int| 0 <= j < i ==> (#[trigger] drive_views(drives@)[j]).path != block@.drive,
        decreases drives@.len() - i,
    {
        if same_text(&drives[i].path, &block.drive) {
            assert(drive_views(drives@)[i as int].path == block@.drive);
            return true;
        }
        i += 1;
    }
    false
}

impl UsbResetCacheManager {
    /// What the last confirmed permission check found.
    pub closed spec fn target(&self) -> Option<UsbTarget> {
        match self.inner {
            Some(inner) => Some(inner.target()),
            None => None,
        }
    }

    /// What a permission check found whose rehearsal is still to be confirmed.
    pub closed spec fn checked(&self) -> Option<UsbTarget> {
        match self.checked {
            Some(inner) => Some(inner.target()),
            None => None,
        }
    }

    /// The policy is ready when a permission check was confirmed.
    pub proof fn ready_with_target(&self)
        ensures
            self.is_ready() == self.target().is_some(),
    {
    }

    /// Finds the block device that bears `path`, how to find it again, the drives
    /// to eject and the hub to reset. Returns the rehearsal of the reset, which is
    /// to be made and then confirmed with `confirm`. `kind` is the kind of what is at
    /// the path, if that could be told; `dev` is the device that bears the path, and
    /// `ancestors` the devices above it, the nearest first; `blocks` and `drives` are
    /// what the disk manager knows.
    pub fn permission_check(
        &mut self,
        is_root: bool,
        path: &FsPath,
        kind: Option<FileKind>,
        dev: &Device,
        ancestors: &Vec<Device>,
        blocks: &Vec<Block>,
        drives: &Vec<Drive>,
    ) -> (res: Result<UsbReset, CacheError>)
        ensures
            final(self).target() == old(self).target(),
            match spec_usb_check(
                is_root,
                path@,
                kind,
                dev@.devnode,
                device_views(ancestors@),
                block_views(blocks@),
                drive_views(drives@),
            ) {
                Ok(target) => {
                    &&& res is Ok
                    &&& !res->Ok_0.reset
                    &&& Ok::<Seq<Part>, crate::udev::UdevError>(res->Ok_0.device_file@)
                        == spec_usb_device_file(target.usbhub)
                    &&& final(self).checked() == Some(target)
                },
                Err(e) => res matches Err(f) && f == e && final(self).checked().is_none(),
            },
    {
        self.checked = None;
        if !is_root {
            return Err(CacheError::NeedsRoot);
        }
        let block = match get_udisk_blockdev_for(blocks, dev) {
            Ok(block) => block,
            Err(e) => {
                return Err(CacheError::Udev(e));
            },
        };
        let (id, mountpoint) = match identify(&block, kind, path, blocks) {
            Ok(x) => x,
            Err(e) => {
                return Err(e);
            },
        };
        let group = match udisk_drives_for(drives, &block) {
            Ok(x) => x,
            Err(e) => {
                return Err(CacheError::Udev(e));
            },
        };
        if !every_drive_ejectable(&group) {
            return Err(CacheError::NotEjectable);
        }
        let usbhub = match usb_hub_for(ancestors) {
            Ok(x) => x,
            Err(e) => {
                return Err(CacheError::Udev(e));
            },
        };
        let rehearsal = match reset_usb_hub(&usbhub, true) {
            Ok(x) => x,
            Err(e) => {
                return Err(CacheError::Udev(e));
            },
        };
        self.checked = Some(Inner { block, drives: group, usbhub, id, mountpoint });
        Ok(rehearsal)
    }

    /// Takes in what became of the rehearsal that the permission check asked for:
    /// if the device file of the hub could be opened, the policy is ready.
    pub fn confirm(&mut self, rehearsal: Result<(), IoError>) -> (res: Result<(), CacheError>)
        ensures
            final(self).checked().is_none(),
            match (old(self).checked(), rehearsal) {
                (None, _) => res matches Err(CacheError::NotReady) && final(self).target() == old(self).target(),
                (Some(_), Err(e)) => res matches Err(CacheError::Io(f)) && f == e && final(self).target() == old(self).target(),
                (Some(target), Ok(())) => res is Ok && final(self).target() == Some(target),
            },
    {
        let mut checked: Option<Inner> = None;
        std::mem::swap(&mut self.checked, &mut checked);
        match checked {
            None => Err(CacheError::NotReady),
            Some(inner) => match rehearsal {
                Err(e) => Err(CacheError::Io(e)),
                Ok(()) => {
                    self.inner = Some(inner);
                    Ok(())
                },
            },
        }
    }

    /// The mounted block devices on the drives that are about to be ejected: they
    /// are to be unmounted first. `blocks` is what the disk manager knows.
    pub fn unmount_targets(&self, blocks: &Vec<Block>) -> (res: Result<Vec<Block>, CacheError>)
        ensures
            match self.target() {
                None => res matches Err(CacheError::NotReady),
                Some(target) => res is Ok && block_views(res->Ok_0@) == block_views(blocks@).filter(
                    on_drives(target.drives),
                ),
            },
    {
        match &self.inner {
            None => Err(CacheError::NotReady),
            Some(inner) => Ok(unmount_targets(inner, blocks)),
        }
    }

    /// The drives to eject before the reset.
    pub fn drives(&self) -> (res: Result<&Vec<Drive>, CacheError>)
        ensures
            match self.target() {
                None => res matches Err(CacheError::NotReady),
                Some(target) => res is Ok && drive_views(res->Ok_0@) == target.drives,
            },
    {
        match &self.inner {
            None => Err(CacheError::NotReady),
            Some(inner) => Ok(&inner.drives),
        }
    }

    /// How the hub is reset.
    pub fn reset(&self) -> (res: Result<UsbReset, CacheError>)
        ensures
            match self.target() {
                None => res matches Err(CacheError::NotReady),
                Some(target) => match spec_usb_device_file(target.usbhub) {
                    Ok(file) => res is Ok && res->Ok_0.device_file@ == file && res->Ok_0.reset,
                    Err(e) => res matches Err(CacheError::Udev(f)) && f == e,
                },
            },
    {
        match &self.inner {
            None => Err(CacheError::NotReady),
            Some(inner) => match reset_usb_hub(&inner.usbhub, false) {
                Ok(plan) => Ok(plan),
                Err(e) => Err(CacheError::Udev(e)),
            },
        }
    }

    /// Looks for the destination among `blocks`, which is what the disk manager
    /// knows at the attempt `attempt` after the reset, counted from one. Returns the
    /// block device if it is there, and nothing if it is to be looked for again a
    /// second later.
    pub fn await_device(&self, attempt: u32, blocks: &Vec<Block>) -> (res: Result<
        Option<Block>,
        CacheError,
    >)
        ensures
            match self.target() {
                None => res matches Err(CacheError::NotReady),
                Some(target) => match spec_await(target.id, attempt, block_views(blocks@)) {
                    Err(e) => res matches Err(f) && f == e,
                    Ok(None) => res matches Ok(None),
                    Ok(Some(block)) => res matches Ok(Some(b)) && b@ == block,
                },
            },
    {
        match &self.inner {
            None => Err(CacheError::NotReady),
            Some(inner) => await_device(inner, attempt, blocks),
        }
    }

    /// What to report once the destination `path` was found again as `block`. A
    /// file system is mounted again first: `remounted` tells where. After a move the
    /// permission check is to be made again, for the path as it is found then.
    pub fn reappeared(&self, path: &FsPath, block: &Block, remounted: Option<&FsPath>) -> (res:
        Result<Option<Replacement>, CacheError>)
        ensures
            match self.target() {
                None => res matches Err(CacheError::NotReady),
                Some(target) => match spec_reappeared(
                    target,
                    path@,
                    block@,
                    match remounted {
                        Some(r) => Some(r@),
                        None => None,
                    },
                ) {
                    Err(e) => res matches Err(f) && f == e,
                    Ok(replacement) => res is Ok && replacement_view(res->Ok_0) == replacement,
                },
            },
    {
        match &self.inner {
            None => Err(CacheError::NotReady),
            Some(inner) => reappeared(inner, path, block, remounted),
        }
    }

    /// Begins to drop the caches below the destination `path`. Returns the reset
    /// and what it asks for first.
    pub fn drop_cache(&self, path: &FsPath) -> (res: Result<(UsbDrop, DropAction), CacheError>)
        ensures
            match self.target() {
                None => res matches Err(CacheError::NotReady),
                Some(target) => {
                    &&& res is Ok
                    &&& res->Ok_0.0@ == DropState::start(target, path@)
                    &&& res->Ok_0.0@.wf()
                    &&& res->Ok_0.1@ == res->Ok_0.0@.pending()
                },
            },
    {
        match &self.inner {
            None => Err(CacheError::NotReady),
            Some(inner) => {
                let machine = UsbDrop {
                    phase: DropPhase::Listing,
                    inner: copy_inner(inner),
                    path: path.clone(),
                    unmount: Vec::new(),
                    next: 0,
                    attempt: 0,
                    found: None,
                    replacement: None,
                    error: CacheError::Confused,
                };
                assert(block_views(machine.unmount@) =~= Seq::empty());
                Ok((machine, DropAction::ListBlocks))
            },
        }
    }
}

fn unmount_targets(inner: &Inner, blocks: &Vec<Block>) -> (found: Vec<Block>)
    ensures
        block_views(found@) == block_views(blocks@).filter(on_drives(inner.target().drives)),
{
    let ghost all = block_views(blocks@);
    let ghost pred = on_drives(drive_views(inner.drives@));
    let mut found: Vec<Block> = Vec::new();
    assert(block_views(found@) =~= Seq::empty());
    assert(all.take(0).filter(pred) =~= Seq::empty()) by {
        reveal(Seq::filter);
    }
    let mut i: usize = 0;
    while i < blocks.len()
        invariant
            i <= blocks@.len(),
            all == block_views(blocks@),
            pred == on_drives(drive_views(inner.drives@)),
            block_views(found@) == all.take(i as int).filter(pred),
        decreases blocks@.len() - i,
    {
        proof {
            all.take(i as int).lemma_filter_push(all[i as int], pred);
            assert(all.take(i + 1) =~= all.take(i as int).push(all[i as int]));
        }
        if on_some_drive(&inner.drives, &blocks[i]) {
            let ghost so_far = block_views(found@);
            found.push(blocks[i].clone());
            assert(block_views(found@) =~= so_far.push(all[i as int]));
        }
        i += 1;
    }
    assert(all.take(i as int) == all);
    found
}

fn await_device(inner: &Inner, attempt: u32, blocks: &Vec<Block>) -> (res: Result<
    Option<Block>,
    CacheError,
>)
    ensures
        match spec_await(inner.target().id, attempt, block_views(blocks@)) {
            Err(e) => res matches Err(f) && f == e,
            Ok(None) => res matches Ok(None),
            Ok(Some(block)) => res matches Ok(Some(b)) && b@ == block,
        },
{
    let found = match &inner.id {
        Identifier::Fs(uuid) => get_udisk_blockdev_by_uuid(blocks, uuid),
        Identifier::BlockDevice(drive, size) => get_udisk_blockdev_by_drive_and_size(
            blocks,
            drive,
            *size,
        ),
    };
    match found {
        Unique::Zero => {
            if attempt >= ATTEMPTS {
                Err(CacheError::TimedOut)
            } else {
                Ok(None)
            }
        },
        Unique::Several => Err(CacheError::Ambiguous),
        Unique::One(x) => Ok(Some(x)),
    }
}

fn reappeared(inner: &Inner, path: &FsPath, block: &Block, remounted: Option<&FsPath>) -> (res:
    Result<Option<Replacement>, CacheError>)
    ensures
        match spec_reappeared(
            inner.target(),
            path@,
            block@,
            match remounted {
                Some(r) => Some(r@),
                None => None,
            },
        ) {
            Err(e) => res matches Err(f) && f == e,
            Ok(replacement) => res is Ok && replacement_view(res->Ok_0) == replacement,
        },
{
    match &inner.id {
        Identifier::Fs(_) => match (&inner.mountpoint, remounted) {
            (Some(mountpoint), Some(now)) => Ok(replacement_for(mountpoint, now)),
            _ => Err(CacheError::NotMountedThere),
        },
        Identifier::BlockDevice(_, _) => {
            // just check that the device file still exists and points to this device
            if contains_path(&block.symlinks, path) || path.same_as(&block.device) {
                Ok(None)
            } else {
                Ok(Some(Replacement { before: path.clone(), after: block.device.clone() }))
            }
        },
    }
}

impl Clone for Identifier {
    fn clone(&self) -> (copy: Identifier)
        ensures
            copy@ == self@,
    {
        match self {
            Identifier::BlockDevice(drive, size) => Identifier::BlockDevice(drive.clone(), *size),
            Identifier::Fs(uuid) => Identifier::Fs(uuid.clone()),
        }
    }
}

fn copy_drives(drives: &Vec<Drive>) -> (copy: Vec<Drive>)
    ensures
        drive_views(copy@) == drive_views(drives@),
{
    let mut copy: Vec<Drive> = Vec::new();
    let mut i: usize = 0;
    while i < drives.len()
        invariant
            i <= drives@.len(),
            copy@.len() == i,
            forall|j: int| 0 <= j < i ==> copy@[j]@ == drives@[j]@,
        decreases drives@.len() - i,
    {
        copy.push(drives[i].clone());
        i += 1;
    }
    assert(drive_views(copy@) =~= drive_views(drives@));
    copy
}

fn copy_inner(inner: &Inner) -> (copy: Inner)
    ensures
        copy.target() == inner.target(),
{
    Inner {
        block: inner.block.clone(),
        drives: copy_drives(&inner.drives),
        usbhub: inner.usbhub.clone(),
        id: inner.id.clone(),
        mountpoint: match &inner.mountpoint {
            Some(p) => Some(p.clone()),
            None => None,
        },
    }
}

/// Where the reset of a hub stands.
#[derive(PartialEq, Eq, Debug, Clone, Copy, Structural)]
pub enum DropPhase {
    /// The block devices that the disk manager knows are being listed.
    Listing,
    /// The block device at `next` of those to unmount is being unmounted.
    Unmounting,
    /// The drive at `next` is being ejected.
    Ejecting,
    /// The hub is being reset.
    Resetting,
    /// The destination is awaited.
    Waiting,
    /// The file system that came back is being mounted.
    Mounting,
    Finished,
    Failed,
}

/// What the reset asks for.
pub enum DropAction {
    /// List the block devices that the disk manager knows, and report them with
    /// `DropEvent::Blocks`.
    ListBlocks,
    /// Unmount this block device.
    Unmount(Block),
    /// Eject this drive.
    Eject(Drive),
    /// Reset the hub like this.
    Reset(UsbReset),
    /// Wait for a second, ask the disk manager anew, and report the block devices
    /// that it knows with `DropEvent::Blocks`.
    Refresh,
    /// Mount this block device unless it is mounted, and report where it is mounted
    /// with `DropEvent::Mounted`.
    Mount(Block),
    /// The caches are dropped. After a move the permission check is to be made
    /// again, for the destination as it is found then.
    Finish(Option<Replacement>),
    Fail(CacheError),
}

/// What a reset asks for, as plain values.
pub enum DropActionView {
    ListBlocks,
    Unmount(BlockView),
    Eject(DriveView),
    Reset(Seq<Part>),
    Refresh,
    Mount(BlockView),
    Finish(Option<(Seq<Part>, Seq<Part>)>),
    Fail(CacheError),
}

impl View for DropAction {
    type V = DropActionView;

    open spec fn view(&self) -> DropActionView {
        match self {
            DropAction::ListBlocks => DropActionView::ListBlocks,
            DropAction::Unmount(block) => DropActionView::Unmount(block@),
            DropAction::Eject(drive) => DropActionView::Eject(drive@),
            DropAction::Reset(plan) => DropActionView::Reset(plan.device_file@),
            DropAction::Refresh => DropActionView::Refresh,
            DropAction::Mount(block) => DropActionView::Mount(block@),
            DropAction::Finish(replacement) => DropActionView::Finish(
                replacement_view(*replacement),
            ),
            DropAction::Fail(e) => DropActionView::Fail(*e),
        }
    }
}

/// What the reset is told.
pub enum DropEvent {
    /// What was asked for is done.
    Done,
    /// The block devices that the disk manager knows.
    Blocks(Vec<Block>),
    /// Where the file system is mounted.
    Mounted(FsPath),
}

/// What a reset is told, as plain values.
pub enum DropEventView {
    Done,
    Blocks(Seq<BlockView>),
    Mounted(Seq<Part>),
}

impl View for DropEvent {
    type V = DropEventView;

    open spec fn view(&self) -> DropEventView {
        match self {
            DropEvent::Done => DropEventView::Done,
            DropEvent::Blocks(blocks) => DropEventView::Blocks(block_views(blocks@)),
            DropEvent::Mounted(path) => DropEventView::Mounted(path@),
        }
    }
}

/// The state of a reset.
pub struct DropState {
    pub phase: DropPhase,
    /// What the permission check found.
    pub target: UsbTarget,
    /// The destination.
    pub path: Seq<Part>,
    /// The block devices to unmount.
    pub unmount: Seq<BlockView>,
    /// Which block device is being unmounted, or which drive ejected.
    pub next: int,
    /// How many times the destination was looked for.
    pub attempt: u32,
    /// The destination, once it is back.
    pub found: Option<BlockView>,
    /// Where the destination has moved, once that is known.
    pub replacement: Option<(Seq<Part>, Seq<Part>)>,
    pub error: CacheError,
}

impl DropState {
    /// The state of a reset that has not begun.
    pub open spec fn start(target: UsbTarget, path: Seq<Part>) -> DropState {
        DropState {
            phase: DropPhase::Listing,
            target,
            path,
            unmount: Seq::empty(),
            next: 0,
            attempt: 0,
            found: None,
            replacement: None,
            error: CacheError::Confused,
        }
    }

    /// The state once the reset has failed with `error`.
    pub open spec fn fail(self, error: CacheError) -> DropState {
        DropState { phase: DropPhase::Failed, error, ..self }
    }

    /// The state once everything is unmounted: the drives are ejected one by one,
    /// then the hub is reset.
    pub open spec fn eject(self, next: int) -> DropState {
        if next < self.target.drives.len() {
            DropState { phase: DropPhase::Ejecting, next, ..self }
        } else {
            match spec_usb_device_file(self.target.usbhub) {
                Ok(_) => DropState { phase: DropPhase::Resetting, next, ..self },
                Err(e) => self.fail(CacheError::Udev(e)),
            }
        }
    }

    /// The state once the block devices before `next` are unmounted.
    pub open spec fn unmount(self, next: int) -> DropState {
        if next < self.unmount.len() {
            DropState { phase: DropPhase::Unmounting, next, ..self }
        } else {
            self.eject(0)
        }
    }

    /// The state once it is known where the destination is found again.
    pub open spec fn settle(self, remounted: Option<Seq<Part>>) -> DropState {
        match spec_reappeared(self.target, self.path, self.found.unwrap(), remounted) {
            Ok(replacement) => DropState { phase: DropPhase::Finished, replacement, ..self },
            Err(e) => self.fail(e),
        }
    }

    /// The state after `event`.
    pub open spec fn step(self, event: DropEventView) -> DropState {
        match (self.phase, event) {
            (DropPhase::Finished, _) => self,
            (DropPhase::Failed, _) => self,
            (DropPhase::Listing, DropEventView::Blocks(blocks)) => DropState {
                unmount: blocks.filter(on_drives(self.target.drives)),
                ..self
            }.unmount(0),
            (DropPhase::Unmounting, DropEventView::Done) => self.unmount(self.next + 1),
            (DropPhase::Ejecting, DropEventView::Done) => self.eject(self.next + 1),
            (DropPhase::Resetting, DropEventView::Done) => DropState {
                phase: DropPhase::Waiting,
                attempt: 1,
                ..self
            },
            (DropPhase::Waiting, DropEventView::Blocks(blocks)) => match spec_await(
                self.target.id,
                self.attempt,
                blocks,
            ) {
                Err(e) => self.fail(e),
                Ok(None) => DropState { attempt: (self.attempt + 1) as u32, ..self },
                Ok(Some(block)) => {
                    let found = DropState { found: Some(block), ..self };
                    if self.target.id is Fs {
                        DropState { phase: DropPhase::Mounting, ..found }
                    } else {
                        found.settle(None)
                    }
                },
            },
            (DropPhase::Mounting, DropEventView::Mounted(path)) => self.settle(Some(path)),
            _ => self.fail(CacheError::Confused),
        }
    }

    /// What is asked for in this state.
    pub open spec fn pending(self) -> DropActionView {
        match self.phase {
            DropPhase::Listing => DropActionView::ListBlocks,
            DropPhase::Unmounting => DropActionView::Unmount(self.unmount[self.next]),
            DropPhase::Ejecting => DropActionView::Eject(self.target.drives[self.next]),
            DropPhase::Resetting => DropActionView::Reset(
                spec_usb_device_file(self.target.usbhub)->Ok_0,
            ),
            DropPhase::Waiting => DropActionView::Refresh,
            DropPhase::Mounting => DropActionView::Mount(self.found.unwrap()),
            DropPhase::Finished => DropActionView::Finish(self.replacement),
            DropPhase::Failed => DropActionView::Fail(self.error),
        }
    }

    /// What holds of every state that a reset can reach.
    pub open spec fn wf(self) -> bool {
        &&& 0 <= self.next
        &&& self.phase == DropPhase::Unmounting ==> self.next < self.unmount.len()
        &&& self.phase == DropPhase::Ejecting ==> self.next < self.target.drives.len()
        &&& self.phase == DropPhase::Resetting ==> spec_usb_device_file(self.target.usbhub) is Ok
        &&& self.phase == DropPhase::Mounting ==> self.found is Some
    }
}

/// Every step of a reset leads to a state that a reset can reach.
pub proof fn drop_step_keeps_wf(state: DropState, event: DropEventView)
    requires
        state.wf(),
    ensures
        state.step(event).wf(),
{
}

/// The destination is awaited for no more than `ATTEMPTS` times: as long as it
/// stays away the count goes up, and the last attempt ends the wait.
pub proof fn wait_ends(state: DropState, blocks: Seq<BlockView>)
    requires
        state.phase == DropPhase::Waiting,
    ensures
        state.step(DropEventView::Blocks(blocks)).phase == DropPhase::Waiting ==> state.attempt
            < ATTEMPTS && state.step(DropEventView::Blocks(blocks)).attempt == state.attempt + 1,
        state.attempt >= ATTEMPTS ==> state.step(DropEventView::Blocks(blocks)).phase
            != DropPhase::Waiting,
{
}

/// Drops the caches between the system and a drive: what is mounted on the drives
/// of the enclosure is unmounted, the drives are ejected, the hub is reset, and the
/// destination is awaited and found again.
pub struct UsbDrop {
    phase: DropPhase,
    inner: Inner,
    path: FsPath,
    unmount: Vec<Block>,
    next: usize,
    attempt: u32,
    found: Option<Block>,
    replacement: Option<Replacement>,
    error: CacheError,
}

impl View for UsbDrop {
    type V = DropState;

    closed spec fn view(&self) -> DropState {
        DropState {
            phase: self.phase,
            target: self.inner.target(),
            path: self.path@,
            unmount: block_views(self.unmount@),
            next: self.next as int,
            attempt: self.attempt,
            found: match self.found {
                Some(block) => Some(block@),
                None => None,
            },
            replacement: replacement_view(self.replacement),
            error: self.error,
        }
    }
}

fn copy_replacement(replacement: &Option<Replacement>) -> (copy: Option<Replacement>)
    ensures
        replacement_view(copy) == replacement_view(*replacement),
{
    match replacement {
        Some(r) => Some(Replacement { before: r.before.clone(), after: r.after.clone() }),
        None => None,
    }
}

impl UsbDrop {
    fn fail(&mut self, error: CacheError) -> (action: DropAction)
        ensures
            final(self)@ == old(self)@.fail(error),
            action@ == final(self)@.pending(),
    {
        self.phase = DropPhase::Failed;
        self.error = error;
        DropAction::Fail(error)
    }

    fn eject(&mut self, next: usize) -> (action: DropAction)
        ensures
            final(self)@ == old(self)@.eject(next as int),
            action@ == final(self)@.pending(),
    {
        if next < self.inner.drives.len() {
            self.phase = DropPhase::Ejecting;
            self.next = next;
            DropAction::Eject(self.inner.drives[next].clone())
        } else {
            match reset_usb_hub(&self.inner.usbhub, false) {
                Ok(plan) => {
                    self.phase = DropPhase::Resetting;
                    self.next = next;
                    DropAction::Reset(plan)
                },
                Err(e) => self.fail(CacheError::Udev(e)),
            }
        }
    }

    fn unmount(&mut self, next: usize) -> (action: DropAction)
        ensures
            final(self)@ == old(self)@.unmount(next as int),
            action@ == final(self)@.pending(),
    {
        if next < self.unmount.len() {
            self.phase = DropPhase::Unmounting;
            self.next = next;
            DropAction::Unmount(self.unmount[next].clone())
        } else {
            self.eject(0)
        }
    }

    fn settle(&mut self, remounted: Option<&FsPath>) -> (action: DropAction)
        requires
            old(self)@.found is Some,
        ensures
            final(self)@ == old(self)@.settle(
                match remounted {
                    Some(r) => Some(r@),
                    None => None,
                },
            ),
            action@ == final(self)@.pending(),
    {
        let reappeared = match &self.found {
            Some(block) => reappeared(&self.inner, &self.path, block, remounted),
            None => Err(CacheError::Confused),
        };
        match reappeared {
            Ok(replacement) => {
                let reported = copy_replacement(&replacement);
                self.replacement = replacement;
                self.phase = DropPhase::Finished;
                DropAction::Finish(reported)
            },
            Err(e) => self.fail(e),
        }
    }

    /// Takes in what became of the last action and says what to do next.
    pub fn step(&mut self, event: DropEvent) -> (action: DropAction)
        requires
            old(self)@.wf(),
        ensures
            final(self)@ == old(self)@.step(event@),
            final(self)@.wf(),
            action@ == final(self)@.pending(),
    {
        proof {
            drop_step_keeps_wf(self@, event@);
        }
        match self.phase {
            DropPhase::Finished => {
                return DropAction::Finish(copy_replacement(&self.replacement));
            },
            DropPhase::Failed => {
                return DropAction::Fail(self.error);
            },
            _ => {},
        }
        match event {
            DropEvent::Done => match self.phase {
                DropPhase::Unmounting => {
                    assert(block_views(self.unmount@).len() == self.unmount.len());
                    let next = self.next + 1;
                    self.unmount(next)
                },
                DropPhase::Ejecting => {
                    assert(drive_views(self.inner.drives@).len() == self.inner.drives.len());
                    let next = self.next + 1;
                    self.eject(next)
                },
                DropPhase::Resetting => {
                    self.phase = DropPhase::Waiting;
                    self.attempt = 1;
                    DropAction::Refresh
                },
                _ => self.fail(CacheError::Confused),
            },
            DropEvent::Blocks(blocks) => match self.phase {
                DropPhase::Listing => {
                    self.unmount = unmount_targets(&self.inner, &blocks);
                    self.unmount(0)
                },
                DropPhase::Waiting => match await_device(&self.inner, self.attempt, &blocks) {
                    Err(e) => self.fail(e),
                    Ok(None) => {
                        self.attempt = self.attempt + 1;
                        DropAction::Refresh
                    },
                    Ok(Some(block)) => {
                        let wanted = block.clone();
                        self.found = Some(block);
                        match &self.inner.id {
                            Identifier::Fs(_) => {
                                self.phase = DropPhase::Mounting;
                                DropAction::Mount(wanted)
                            },
                            Identifier::BlockDevice(_, _) => self.settle(None),
                        }
                    },
                },
                _ => self.fail(CacheError::Confused),
            },
            DropEvent::Mounted(path) => match self.phase {
                DropPhase::Mounting => self.settle(Some(&path)),
                _ => self.fail(CacheError::Confused),
            },
        }
    }
}

} // verus!
