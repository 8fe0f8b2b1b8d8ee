//! What the disk manager and the device tree of the system report, as plain
//! values, and the choices that are made among them.

use crate::path::copy_bytes;
use crate::path::Component;
use crate::path::FsPath;
use crate::path::Part;
use crate::utils::get_unique;
use crate::utils::ErrorKind;
use crate::utils::IoError;
use crate::utils::Metadata;
use crate::utils::Unique;
use vstd::prelude::*;

verus! {

/// A block device as the disk manager describes it.
#[derive(Debug)]
pub struct Block {
    /// The name of the object that stands for this block device.
    pub path: String,
    /// The device file.
    pub device: FsPath,
    /// The device file to show to the user.
    pub preferred_device: FsPath,
    /// Other names of the device file.
    pub symlinks: Vec<FsPath>,
    /// Where the file system on the device is mounted.
    pub mount_points: Vec<FsPath>,
    /// The identifier of the file system, if it has one.
    pub id_uuid: Option<String>,
    /// The name of the object that stands for the drive of this block device.
    pub drive: String,
    /// The size in bytes.
    pub size: u64,
    /// Whether the device holds a file system that can be mounted.
    pub has_fs: bool,
}

/// A block device, its texts and paths taken as sequences.
pub struct BlockView {
    pub path: Seq<char>,
    pub device: Seq<Part>,
    pub preferred_device: Seq<Part>,
    pub symlinks: Seq<Seq<Part>>,
    pub mount_points: Seq<Seq<Part>>,
    pub id_uuid: Option<Seq<char>>,
    pub drive: Seq<char>,
    pub size: u64,
    pub has_fs: bool,
}

/// The paths of a list, as sequences of components.
pub open spec fn path_views(paths: Seq<FsPath>) -> Seq<Seq<Part>> {
    paths.map_values(|p: FsPath| p@)
}

impl View for Block {
    type V = BlockView;

    open spec fn view(&self) -> BlockView {
        BlockView {
            path: self.path@,
            device: self.device@,
            preferred_device: self.preferred_device@,
            symlinks: path_views(self.symlinks@),
            mount_points: path_views(self.mount_points@),
            id_uuid: match self.id_uuid {
                Some(uuid) => Some(uuid@),
                None => None,
            },
            drive: self.drive@,
            size: self.size,
            has_fs: self.has_fs,
        }
    }
}

/// A copy of a list of paths.
pub fn copy_paths(paths: &Vec<FsPath>) -> (copy: Vec<FsPath>)
    ensures
        path_views(copy@) == path_views(paths@),
{
    let mut copy: Vec<FsPath> = Vec::new();
    let mut i: usize = 0;
    while i < paths.len()
        invariant
            i <= paths@.len(),
            copy@.len() == i,
            forall|j: int| 0 <= j < i ==> copy@[j]@ == paths@[j]@,
        decreases paths@.len() - i,
    {
        copy.push(paths[i].clone());
        i += 1;
    }
    assert(path_views(copy@) =~= path_views(paths@));
    copy
}

/// Whether `path` is among `paths`.
pub fn contains_path(paths: &Vec<FsPath>, path: &FsPath) -> (found: bool)
    ensures
        found == path_views(paths@).contains(path@),
{
    let mut i: usize = 0;
    while i < paths.len()
        invariant
            i <= paths@.len(),
            forall|j: int| 0 <= j < i ==> path_views(paths@)[j] != path@,
        decreases paths@.len() - i,
    {
        if paths[i].same_as(path) {
            assert(path_views(paths@)[i as int] == path@);
            return true;
        }
        i += 1;
    }
    false
}

impl Clone for Block {
    fn clone(&self) -> (copy: Block)
        ensures
            copy@ == self@,
    {
        Block {
            path: self.path.clone(),
            device: self.device.clone(),
            preferred_device: self.preferred_device.clone(),
            symlinks: copy_paths(&self.symlinks),
            mount_points: copy_paths(&self.mount_points),
            id_uuid: match &self.id_uuid {
                Some(uuid) => Some(uuid.clone()),
                None => None,
            },
            drive: self.drive.clone(),
            size: self.size,
            has_fs: self.has_fs,
        }
    }
}

/// The views of a list of block devices.
pub open spec fn block_views(blocks: Seq<Block>) -> Seq<BlockView> {
    blocks.map_values(|b: Block| b@)
}

/// A drive as the disk manager describes it.
#[derive(Debug)]
pub struct Drive {
    /// The name of the object that stands for this drive.
    pub path: String,
    /// A name for the drive that is unique and stays.
    pub id: String,
    /// What the drives of one enclosure share; empty for a drive on its own.
    pub sibling_id: String,
    /// Whether the medium can be ejected.
    pub ejectable: bool,
}

/// A drive, its texts taken as sequences of characters.
pub struct DriveView {
    pub path: Seq<char>,
    pub id: Seq<char>,
    pub sibling_id: Seq<char>,
    pub ejectable: bool,
}

impl View for Drive {
    type V = DriveView;

    open spec fn view(&self) -> DriveView {
        DriveView {
            path: self.path@,
            id: self.id@,
            sibling_id: self.sibling_id@,
            ejectable: self.ejectable,
        }
    }
}

impl Clone for Drive {
    fn clone(&self) -> (copy: Drive)
        ensures
            copy@ == self@,
    {
        Drive {
            path: self.path.clone(),
            id: self.id.clone(),
            sibling_id: self.sibling_id.clone(),
            ejectable: self.ejectable,
        }
    }
}

/// The views of a list of drives.
pub open spec fn drive_views(drives: Seq<Drive>) -> Seq<DriveView> {
    drives.map_values(|d: Drive| d@)
}

/// A device in the device tree of the system.
#[derive(Debug)]
pub struct Device {
    /// Where the device is found in the tree.
    pub syspath: FsPath,
    /// The device file, if there is one.
    pub devnode: Option<FsPath>,
    pub subsystem: Option<Vec<u8>>,
    pub driver: Option<Vec<u8>>,
    /// The attributes that number a device on a bus.
    pub busnum: Option<Vec<u8>>,
    pub devnum: Option<Vec<u8>>,
}

/// A device, its paths and attributes taken as sequences.
pub struct DeviceView {
    pub syspath: Seq<Part>,
    pub devnode: Option<Seq<Part>>,
    pub subsystem: Option<Seq<u8>>,
    pub driver: Option<Seq<u8>>,
    pub busnum: Option<Seq<u8>>,
    pub devnum: Option<Seq<u8>>,
}

/// An attribute that may be missing, as a sequence of bytes.
pub open spec fn attribute(value: Option<Vec<u8>>) -> Option<Seq<u8>> {
    match value {
        Some(bytes) => Some(bytes@),
        None => None,
    }
}

impl View for Device {
    type V = DeviceView;

    open spec fn view(&self) -> DeviceView {
        DeviceView {
            syspath: self.syspath@,
            devnode: match self.devnode {
                Some(node) => Some(node@),
                None => None,
            },
            subsystem: attribute(self.subsystem),
            driver: attribute(self.driver),
            busnum: attribute(self.busnum),
            devnum: attribute(self.devnum),
        }
    }
}

fn copy_attribute(value: &Option<Vec<u8>>) -> (copy: Option<Vec<u8>>)
    ensures
        attribute(copy) == attribute(*value),
{
    match value {
        Some(bytes) => Some(copy_bytes(bytes.as_slice())),
        None => None,
    }
}

impl Clone for Device {
    fn clone(&self) -> (copy: Device)
        ensures
            copy@ == self@,
    {
        Device {
            syspath: self.syspath.clone(),
            devnode: match &self.devnode {
                Some(node) => Some(node.clone()),
                None => None,
            },
            subsystem: copy_attribute(&self.subsystem),
            driver: copy_attribute(&self.driver),
            busnum: copy_attribute(&self.busnum),
            devnum: copy_attribute(&self.devnum),
        }
    }
}

/// Why the device behind a path could not be told.
#[derive(PartialEq, Eq, Debug, Clone, Copy)]
pub enum UdevError {
    /// The device has no device file.
    NoDeviceNode,
    /// The disk manager knows no block device with this device file.
    UnknownDevice,
    /// The disk manager knows no drive for the block device.
    NoDrive,
    /// No device above this one is a USB device.
    NotOnUsb,
    /// The device lacks the attribute that numbers it on its bus.
    NoBusAddress,
    /// A number on the bus has more than three digits.
    TooManyDigits,
    /// The block device was reported as mounted and then disappeared.
    Disappeared,
    /// The block device was reported as mounted and has no mount point.
    NoMountPoint,
    /// Mounting failed.
    MountFailed,
}

/// What to do about the number of the device that bears a path, after one probe.
#[derive(PartialEq, Eq, Debug, Clone, Copy)]
pub enum DeviceNumber {
    Known(u64),
    /// Nothing is at the path: it may be about to be created, so probe the
    /// directory that is to hold it.
    ProbeParent,
    Failed(IoError),
}

/// Returns the device number of the device bearing a path, given what a probe of
/// the path that follows no link came back with.
pub fn underlying_device_number(probe: &Result<Metadata, IoError>, retry: bool) -> (res: DeviceNumber)
    ensures
        res == match *probe {
            Ok(meta) => DeviceNumber::Known(
                if crate::utils::FileKind::of_mode(meta.mode) == crate::utils::FileKind::Device {
                    meta.rdev
                } else {
                    meta.dev
                },
            ),
            Err(e) => if retry && e.kind == ErrorKind::NotFound {
                DeviceNumber::ProbeParent
            } else {
                DeviceNumber::Failed(e)
            },
        },
{
    match probe {
        Ok(meta) => DeviceNumber::Known(crate::utils::bearing_device_number(meta)),
        Err(e) => {
            if retry {
                match e.kind {
                    ErrorKind::NotFound => {
                        return DeviceNumber::ProbeParent;
                    },
                    _ => {},
                }
            }
            DeviceNumber::Failed(*e)
        },
    }
}

/// The major number in a device number.
pub open spec fn spec_major(number: u64) -> u32 {
    (((number & 0x0000_0000_000f_ff00) >> 8) | ((number & 0xffff_f000_0000_0000) >> 32)) as u32
}

/// The minor number in a device number.
pub open spec fn spec_minor(number: u64) -> u32 {
    ((number & 0x0000_0000_0000_00ff) | ((number & 0x0000_0fff_fff0_0000) >> 12)) as u32
}

/// `libc::major` takes the major number out of a device number: bits 8 to 19
/// and the twenty bits from bit 44 on, as Linux lays a device number out.
#[verifier::external_body]
fn major(number: u64) -> (major: u32)
    ensures
        major == spec_major(number),
{
    libc::major(number)
}

/// `libc::minor` takes the minor number out of a device number: bits 0 to 7
/// and the twenty-four bits from bit 20 on, as Linux lays a device number out.
#[verifier::external_body]
fn minor(number: u64) -> (minor: u32)
    ensures
        minor == spec_minor(number),
{
    libc::minor(number)
}

/// A number in decimal digits.
pub open spec fn spec_decimal(n: nat) -> Seq<u8>
    decreases n,
{
    if n < 10 {
        seq![(48 + n) as u8]
    } else {
        spec_decimal(n / 10).push((48 + n % 10) as u8)
    }
}

fn push_decimal(out: &mut Vec<u8>, n: u32)
    ensures
        final(out)@ == old(out)@ + spec_decimal(n as nat),
    decreases n,
{
    if n >= 10 {
        push_decimal(out, n / 10);
    }
    let digit: u8 = 48 + (n % 10) as u8;
    out.push(digit);
    proof {
        if n >= 10 {
            assert(out@ =~= old(out)@ + spec_decimal((n / 10) as nat).push(digit));
        } else {
            assert(out@ =~= old(out)@ + seq![digit]);
        }
    }
}

/// The directory of the device tree that lists block devices by number.
pub open spec fn block_devices_directory() -> Seq<Part> {
    seq![
        Part::Root,
        Part::Name(seq![115u8, 121u8, 115u8]),
        Part::Name(seq![100u8, 101u8, 118u8]),
        Part::Name(seq![98u8, 108u8, 111u8, 99u8, 107u8]),
    ]
}

/// Where the device tree has the block device with this number: in the directory
/// of block devices, under its major and minor number with a colon in between.
pub open spec fn spec_underlying_device(number: u64) -> Seq<Part> {
    block_devices_directory().push(
        Part::Name(
            spec_decimal(spec_major(number) as nat) + seq![58u8] + spec_decimal(
                spec_minor(number) as nat,
            ),
        ),
    )
}

/// Returns where the device tree has the block device with the number `number`.
pub fn underlying_device(number: u64) -> (path: FsPath)
    ensures
        path@ == spec_underlying_device(number),
{
    let mut path = FsPath::new();
    path.push(Component::RootDir);
    let sys: [u8; 3] = [115, 121, 115];
    let dev: [u8; 3] = [100, 101, 118];
    let block: [u8; 5] = [98, 108, 111, 99, 107];
    path.push_name(sys.as_slice());
    path.push_name(dev.as_slice());
    path.push_name(block.as_slice());
    assert(sys@ =~= seq![115u8, 121u8, 115u8]);
    assert(dev@ =~= seq![100u8, 101u8, 118u8]);
    assert(block@ =~= seq![98u8, 108u8, 111u8, 99u8, 107u8]);
    assert(path@ =~= block_devices_directory());
    let mut name: Vec<u8> = Vec::new();
    push_decimal(&mut name, major(number));
    name.push(58);
    push_decimal(&mut name, minor(number));
    assert(name@ =~= spec_decimal(spec_major(number) as nat) + seq![58u8] + spec_decimal(
        spec_minor(number) as nat,
    ));
    path.push_name(name.as_slice());
    path
}

/// By what a block device is looked for.
pub enum Criterion<'a> {
    /// By its device file, under any of its names.
    Node(&'a FsPath),
    /// By the identifier of its file system.
    Uuid(&'a String),
    /// By its drive and its size.
    DriveAndSize(&'a String, u64),
}

/// A criterion, as plain values.
pub enum CriterionView {
    Node(Seq<Part>),
    Uuid(Seq<char>),
    DriveAndSize(Seq<char>, u64),
}

impl<'a> View for Criterion<'a> {
    type V = CriterionView;

    open spec fn view(&self) -> CriterionView {
        match self {
            Criterion::Node(node) => CriterionView::Node(node@),
            Criterion::Uuid(uuid) => CriterionView::Uuid(uuid@),
            Criterion::DriveAndSize(drive, size) => CriterionView::DriveAndSize(drive@, *size),
        }
    }
}

/// Whether `block` meets `criterion`.
pub open spec fn meets(block: BlockView, criterion: CriterionView) -> bool {
    match criterion {
        CriterionView::Node(node) => block.device == node || block.symlinks.contains(node),
        CriterionView::Uuid(uuid) => block.id_uuid == Some(uuid),
        CriterionView::DriveAndSize(drive, size) => block.drive == drive && block.size == size,
    }
}

/// Those of `blocks` that meet `criterion`, in their order.
pub open spec fn meeting(blocks: Seq<BlockView>, criterion: CriterionView) -> Seq<BlockView> {
    blocks.filter(|b: BlockView| meets(b, criterion))
}

/// Whether two texts are the same.
pub fn same_text(a: &String, b: &String) -> (same: bool)
    ensures
        same == (a@ == b@),
{
    *a == *b
}

fn block_meets(block: &Block, criterion: &Criterion) -> (res: bool)
    ensures
        res == meets(block@, criterion@),
{
    match criterion {
        Criterion::Node(node) => block.device.same_as(node) || contains_path(&block.symlinks, node),
        Criterion::Uuid(uuid) => match &block.id_uuid {
            Some(id) => same_text(id, uuid),
            None => false,
        },
        Criterion::DriveAndSize(drive, size) => same_text(&block.drive, drive) && block.size
            == *size,
    }
}

/// Those of `blocks` that meet `criterion`, in their order.
pub fn matching_blocks(blocks: &Vec<Block>, criterion: &Criterion) -> (found: Vec<Block>)
    ensures
        block_views(found@) == meeting(block_views(blocks@), criterion@),
{
    let ghost all = block_views(blocks@);
    let ghost pred = |b: BlockView| meets(b, criterion@);
    let mut found: Vec<Block> = Vec::new();
    assert(block_views(found@) =~= Seq::empty());
    assert(all.take(0).filter(pred) =~= Seq::empty()) by {
        reveal(Seq::filter);
    }
    let mut i: usize = 0;
    while i < blocks.len()
        invariant
            i <= blocks@.len(),
            all == block_views(blocks@),
            pred == |b: BlockView| meets(b, criterion@),
            block_views(found@) == all.take(i as int).filter(pred),
        decreases blocks@.len() - i,
    {
        proof {
            all.take(i as int).lemma_filter_push(all[i as int], pred);
            assert(all.take(i + 1) =~= all.take(i as int).push(all[i as int]));
        }
        if block_meets(&blocks[i], criterion) {
            let ghost so_far = block_views(found@);
            found.push(blocks[i].clone());
            assert(block_views(found@) =~= so_far.push(all[i as int]));
        }
        i += 1;
    }
    assert(all.take(i as int) == all);
    found
}

/// The block device that bears a path answers any description that is taken from
/// it, by drive and size or by the identifier of its file system: it is among those
/// that answer, and where only one answers, that is the one.
pub proof fn own_description_is_met(blocks: Seq<BlockView>, devnode: Option<Seq<Part>>)
    requires
        spec_blockdev_for(blocks, devnode) is Ok,
    ensures
        ({
            let block = spec_blockdev_for(blocks, devnode)->Ok_0;
            let by_size = meeting(blocks, CriterionView::DriveAndSize(block.drive, block.size));
            &&& blocks.contains(block)
            &&& by_size.contains(block)
            &&& by_size.len() == 1 ==> by_size[0] == block
            &&& block.id_uuid matches Some(uuid) ==> {
                let by_uuid = meeting(blocks, CriterionView::Uuid(uuid));
                by_uuid.contains(block) && (by_uuid.len() == 1 ==> by_uuid[0] == block)
            }
        }),
{
    let node = devnode->0;
    let found = meeting(blocks, CriterionView::Node(node));
    let block = found[0];
    assert(found.contains(block));
    blocks.lemma_filter_contains_rev(|b: BlockView| meets(b, CriterionView::Node(node)), block);
    let i = choose|i: int| 0 <= i < blocks.len() && blocks[i] == block;
    let size = CriterionView::DriveAndSize(block.drive, block.size);
    blocks.lemma_filter_contains(|b: BlockView| meets(b, size), i);
    let by_size = meeting(blocks, size);
    if by_size.len() == 1 {
        let k = choose|k: int| 0 <= k < by_size.len() && by_size[k] == block;
        assert(k == 0);
    }
    if block.id_uuid is Some {
        let uuid = CriterionView::Uuid(block.id_uuid->0);
        blocks.lemma_filter_contains(|b: BlockView| meets(b, uuid), i);
        let by_uuid = meeting(blocks, uuid);
        if by_uuid.len() == 1 {
            let k = choose|k: int| 0 <= k < by_uuid.len() && by_uuid[k] == block;
            assert(k == 0);
        }
    }
}

/// The only element of `items`, or whether there was none or more than one.
pub open spec fn unique_of<T>(items: Seq<T>) -> Unique<T> {
    if items.len() == 0 {
        Unique::Zero
    } else if items.len() == 1 {
        Unique::One(items[0])
    } else {
        Unique::Several
    }
}

/// What a search for the one block device that meets a criterion came to.
pub open spec fn unique_view(found: Unique<Block>) -> Unique<BlockView> {
    match found {
        Unique::Zero => Unique::Zero,
        Unique::One(block) => Unique::One(block@),
        Unique::Several => Unique::Several,
    }
}

/// The block device that has the device file `devnode` under any of its names:
/// the first of `blocks`.
pub open spec fn spec_blockdev_for(blocks: Seq<BlockView>, devnode: Option<Seq<Part>>) -> Result<
    BlockView,
    UdevError,
> {
    match devnode {
        None => Err(UdevError::NoDeviceNode),
        Some(node) => {
            let found = meeting(blocks, CriterionView::Node(node));
            if found.len() == 0 {
                Err(UdevError::UnknownDevice)
            } else {
                Ok(found[0])
            }
        },
    }
}

/// What a search for a block device came to, the block device taken by its view.
pub open spec fn found_view(found: Result<Block, UdevError>) -> Result<BlockView, UdevError> {
    match found {
        Ok(block) => Ok(block@),
        Err(e) => Err(e),
    }
}

/// Returns the block device of the disk manager that has the device file of `dev`,
/// under any of its names: the first of them in `blocks`.
pub fn get_udisk_blockdev_for(blocks: &Vec<Block>, dev: &Device) -> (res: Result<Block, UdevError>)
    ensures
        found_view(res) == spec_blockdev_for(block_views(blocks@), dev@.devnode),
{
    let node = match &dev.devnode {
        None => {
            return Err(UdevError::NoDeviceNode);
        },
        Some(x) => x,
    };
    let mut found = matching_blocks(blocks, &Criterion::Node(node));
    assert(block_views(found@).len() == found@.len());
    if found.len() == 0 {
        Err(UdevError::UnknownDevice)
    } else {
        let ghost views = block_views(found@);
        let first = found.swap_remove(0);
        assert(first@ == views[0]);
        Ok(first)
    }
}

/// Returns the block device with the file system `uuid`, if there is one only.
pub fn get_udisk_blockdev_by_uuid(blocks: &Vec<Block>, uuid: &String) -> (res: Unique<Block>)
    ensures
        unique_view(res) == unique_of(meeting(block_views(blocks@), CriterionView::Uuid(uuid@))),
{
    let found = matching_blocks(blocks, &Criterion::Uuid(uuid));
    assert(block_views(found@).len() == found@.len());
    let res = get_unique(found);
    assert(res matches Unique::One(b) ==> b@ == block_views(found@)[0]);
    res
}

/// Returns the block device of size `size` on the drive `drive`, if there is
/// one only.
pub fn get_udisk_blockdev_by_drive_and_size(blocks: &Vec<Block>, drive: &String, size: u64) -> (res:
    Unique<Block>)
    ensures
        unique_view(res) == unique_of(
            meeting(block_views(blocks@), CriterionView::DriveAndSize(drive@, size)),
        ),
{
    let found = matching_blocks(blocks, &Criterion::DriveAndSize(drive, size));
    assert(block_views(found@).len() == found@.len());
    let res = get_unique(found);
    assert(res matches Unique::One(b) ==> b@ == block_views(found@)[0]);
    res
}

/// Whether `mount_point` is the first of `mount_points` that lies above `path`
/// or is `path`.
pub open spec fn is_mountpoint_in(
    mount_points: Seq<Seq<Part>>,
    path: Seq<Part>,
    index: int,
) -> bool {
    &&& 0 <= index < mount_points.len()
    &&& mount_points[index].is_prefix_of(path)
    &&& forall|j: int| 0 <= j < index ==> !(#[trigger] mount_points[j]).is_prefix_of(path)
}

/// The first of `mount_points` that lies above `path` or is `path`.
pub open spec fn mountpoint_in(mount_points: Seq<Seq<Part>>, path: Seq<Part>) -> Option<Seq<Part>> {
    if exists|i: int| is_mountpoint_in(mount_points, path, i) {
        Some(mount_points[choose|i: int| is_mountpoint_in(mount_points, path, i)])
    } else {
        None
    }
}

/// A path that may be missing, as a sequence of components.
pub open spec fn path_option(path: Option<FsPath>) -> Option<Seq<Part>> {
    match path {
        Some(p) => Some(p@),
        None => None,
    }
}

/// Returns the mount point of `block` which is syntactically a parent of `path`:
/// the first one, if there are several.
pub fn get_mountpoint_in(block: &Block, path: &FsPath) -> (res: Option<FsPath>)
    ensures
        path_option(res) == mountpoint_in(block@.mount_points, path@),
{
    let ghost all = block@.mount_points;
    let mut i: usize = 0;
    while i < block.mount_points.len()
        invariant
            i <= block.mount_points@.len(),
            all == block@.mount_points,
            forall|j: int| 0 <= j < i ==> !(#[trigger] all[j]).is_prefix_of(path@),
        decreases block.mount_points@.len() - i,
    {
        if path.starts_with(&block.mount_points[i]) {
            proof {
                assert(is_mountpoint_in(all, path@, i as int));
                let k = choose|k: int| is_mountpoint_in(all, path@, k);
                assert(k == i) by {
                    if k < i {
                        assert(!all[k].is_prefix_of(path@));
                    }
                    if i < k {
                        assert(!all[i as int].is_prefix_of(path@));
                    }
                }
            }
            return Some(block.mount_points[i].clone());
        }
        i += 1;
    }
    assert forall|k: int| !is_mountpoint_in(all, path@, k) by {
        if 0 <= k < all.len() {
            assert(!all[k].is_prefix_of(path@));
        }
    }
    None
}

/// What an attempt to mount a file system came to.
pub enum MountOutcome {
    /// It is mounted there now.
    Mounted(FsPath),
    /// It was mounted already.
    AlreadyMounted,
    /// It failed otherwise.
    Failed,
}

/// Where a file system is mounted after an attempt to mount it, which does not
/// fail because the file system was mounted already: then `refreshed` tells where,
/// which is the block device as the disk manager describes it after the attempt,
/// if it still knows it.
pub fn ensure_mounted(outcome: MountOutcome, refreshed: Option<&Block>) -> (res: Result<
    FsPath,
    UdevError,
>)
    ensures
        match outcome {
            MountOutcome::Mounted(path) => res is Ok && res->Ok_0@ == path@,
            MountOutcome::Failed => res == Err::<FsPath, UdevError>(UdevError::MountFailed),
            MountOutcome::AlreadyMounted => match refreshed {
                None => res == Err::<FsPath, UdevError>(UdevError::Disappeared),
                Some(block) => if block@.mount_points.len() == 0 {
                    res == Err::<FsPath, UdevError>(UdevError::NoMountPoint)
                } else {
                    res is Ok && res->Ok_0@ == block@.mount_points[0]
                },
            },
        },
{
    match outcome {
        MountOutcome::Mounted(path) => Ok(path),
        MountOutcome::Failed => Err(UdevError::MountFailed),
        MountOutcome::AlreadyMounted => match refreshed {
            None => Err(UdevError::Disappeared),
            Some(block) => {
                if block.mount_points.len() == 0 {
                    Err(UdevError::NoMountPoint)
                } else {
                    Ok(block.mount_points[0].clone())
                }
            },
        },
    }
}

/// Where the first drive named `path` stands in `drives`.
pub open spec fn is_drive_at(drives: Seq<DriveView>, path: Seq<char>, index: int) -> bool {
    &&& 0 <= index < drives.len()
    &&& drives[index].path == path
    &&& forall|j: int| 0 <= j < index ==> (#[trigger] drives[j]).path != path
}

/// The drives that are reset together with the drive at `home`: that drive alone
/// where it is on its own, else every drive of its enclosure, in their order.
pub open spec fn drive_group(drives: Seq<DriveView>, home: int) -> Seq<DriveView> {
    if drives[home].sibling_id.len() == 0 {
        seq![drives[home]]
    } else {
        drives.filter(in_enclosure(drives[home].sibling_id))
    }
}

/// Whether a drive is of the enclosure `sibling_id`.
pub open spec fn in_enclosure(sibling_id: Seq<char>) -> spec_fn(DriveView) -> bool {
    |d: DriveView| d.sibling_id == sibling_id
}

/// Where the first drive named `path` stands in `drives`, if there is one.
fn find_drive(drives: &Vec<Drive>, path: &String) -> (res: Option<usize>)
    ensures
        res is None <==> forall|i: int| 0 <= i < drives@.len() ==> (#[trigger] drives@[i])@.path
            != path@,
        res matches Some(home) ==> is_drive_at(drive_views(drives@), path@, home as int),
{
    let mut i: usize = 0;
    while i < drives.len()
        invariant
            i <= drives@.len(),
            forall|j: int| 0 <= j < i ==> (#[trigger] drives@[j])@.path != path@,
        decreases drives@.len() - i,
    {
        if same_text(&drives[i].path, path) {
            assert forall|j: int| 0 <= j < i implies (#[trigger] drive_views(drives@)[j]).path
                != path@ by {
                assert(drives@[j]@.path != path@);
            }
            return Some(i);
        }
        i += 1;
    }
    None
}

/// The drives that are reset together with the drive named `path`, if `drives`
/// has a drive of that name: the first of them decides.
pub open spec fn spec_drives_for(drives: Seq<DriveView>, path: Seq<char>) -> Option<Seq<DriveView>> {
    if exists|i: int| is_drive_at(drives, path, i) {
        Some(drive_group(drives, choose|i: int| is_drive_at(drives, path, i)))
    } else {
        None
    }
}

/// The drives that are reset together are at least one.
pub proof fn drive_group_is_not_empty(drives: Seq<DriveView>, home: int)
    requires
        0 <= home < drives.len(),
    ensures
        drive_group(drives, home).len() > 0,
{
    if drives[home].sibling_id.len() != 0 {
        let pred = in_enclosure(drives[home].sibling_id);
        assert(pred(drives[home]));
        drives.lemma_filter_contains(pred, home);
    }
}

/// The drive of the block device `fs` with the other drives of its enclosure, in
/// the order of `drives`.
pub fn udisk_drives_for(drives: &Vec<Drive>, fs: &Block) -> (res: Result<Vec<Drive>, UdevError>)
    ensures
        match spec_drives_for(drive_views(drives@), fs@.drive) {
            None => res == Err::<Vec<Drive>, UdevError>(UdevError::NoDrive),
            Some(group) => res is Ok && drive_views(res->Ok_0@) == group && group.len() > 0,
        },
{
    let ghost all = drive_views(drives@);
    let home = match find_drive(drives, &fs.drive) {
        None => {
            assert forall|k: int| !is_drive_at(all, fs@.drive, k) by {
                if 0 <= k < all.len() {
                    assert(drives@[k]@.path != fs@.drive);
                }
            }
            return Err(UdevError::NoDrive);
        },
        Some(x) => x,
    };
    proof {
        let k = choose|k: int| is_drive_at(all, fs@.drive, k);
        assert(is_drive_at(all, fs@.drive, home as int));
        assert(k == home) by {
            if k < home {
                assert(all[k].path != fs@.drive);
            }
            if home < k {
                assert(all[home as int].path != fs@.drive);
            }
        }
        drive_group_is_not_empty(all, home as int);
    }
    let drive = &drives[home];
    let mut group: Vec<Drive> = Vec::new();
    if drive.sibling_id.as_str().is_empty() {
        group.push(drive.clone());
        assert(drive_views(group@) =~= seq![all[home as int]]);
        return Ok(group);
    }
    let ghost pred = in_enclosure(all[home as int].sibling_id);
    assert(drive_views(group@) =~= Seq::empty());
    assert(all.take(0).filter(pred) =~= Seq::empty()) by {
        reveal(Seq::filter);
    }
    let mut i: usize = 0;
    while i < drives.len()
        invariant
            i <= drives@.len(),
            home < drives@.len(),
            all == drive_views(drives@),
            pred == in_enclosure(all[home as int].sibling_id),
            drive_views(group@) == all.take(i as int).filter(pred),
        decreases drives@.len() - i,
    {
        proof {
            all.take(i as int).lemma_filter_push(all[i as int], pred);
            assert(all.take(i + 1) =~= all.take(i as int).push(all[i as int]));
        }
        if same_text(&drives[i].sibling_id, &drives[home].sibling_id) {
            let ghost so_far = drive_views(group@);
            group.push(drives[i].clone());
            assert(drive_views(group@) =~= so_far.push(all[i as int]));
        }
        i += 1;
    }
    assert(all.take(i as int) == all);
    Ok(group)
}

/// The name of the USB subsystem and of its driver.
pub open spec fn usb() -> Seq<u8> {
    seq![117u8, 115u8, 98u8]
}

/// Whether a device is a USB device driven as one.
pub open spec fn is_usb_hub(device: DeviceView) -> bool {
    device.subsystem == Some(usb()) && device.driver == Some(usb())
}

fn is_usb(value: &Option<Vec<u8>>) -> (res: bool)
    ensures
        res == (attribute(*value) == Some(usb())),
{
    match value {
        Some(bytes) => {
            let res = bytes.len() == 3 && bytes[0] == 117 && bytes[1] == 115 && bytes[2] == 98;
            assert(res ==> bytes@ =~= usb());
            res
        },
        None => false,
    }
}

/// The views of a list of devices.
pub open spec fn device_views(devices: Seq<Device>) -> Seq<DeviceView> {
    devices.map_values(|d: Device| d@)
}

/// Whether the first USB device driven as one among `ancestors` is at `index`.
pub open spec fn is_hub_at(ancestors: Seq<DeviceView>, index: int) -> bool {
    &&& 0 <= index < ancestors.len()
    &&& is_usb_hub(ancestors[index])
    &&& forall|j: int| 0 <= j < index ==> !is_usb_hub(#[trigger] ancestors[j])
}

/// The first USB device driven as one among `ancestors`.
pub open spec fn spec_usb_hub_for(ancestors: Seq<DeviceView>) -> Option<DeviceView> {
    if exists|i: int| is_hub_at(ancestors, i) {
        Some(ancestors[choose|i: int| is_hub_at(ancestors, i)])
    } else {
        None
    }
}

/// Finds the USB hub for a device: `ancestors` are the devices above it, the
/// nearest first, and the hub is the first of them that is a USB device driven as
/// one.
pub fn usb_hub_for(ancestors: &Vec<Device>) -> (res: Result<Device, UdevError>)
    ensures
        match spec_usb_hub_for(device_views(ancestors@)) {
            None => res == Err::<Device, UdevError>(UdevError::NotOnUsb),
            Some(hub) => res is Ok && res->Ok_0@ == hub,
        },
{
    let ghost all = device_views(ancestors@);
    let mut i: usize = 0;
    while i < ancestors.len()
        invariant
            i <= ancestors@.len(),
            all == device_views(ancestors@),
            forall|j: int| 0 <= j < i ==> !is_usb_hub(#[trigger] all[j]),
        decreases ancestors@.len() - i,
    {
        let p = &ancestors[i];
        if is_usb(&p.subsystem) && is_usb(&p.driver) {
            let hub = p.clone();
            assert(hub@ == all[i as int]);
            proof {
                assert(is_hub_at(all, i as int));
                let k = choose|k: int| is_hub_at(all, k);
                assert(k == i) by {
                    if k < i {
                        assert(!is_usb_hub(all[k]));
                    }
                    if i < k {
                        assert(!is_usb_hub(all[i as int]));
                    }
                }
            }
            return Ok(hub);
        }
        i += 1;
    }
    assert forall|k: int| !is_hub_at(all, k) by {
        if 0 <= k < all.len() {
            assert(!is_usb_hub(all[k]));
        }
    }
    Err(UdevError::NotOnUsb)
}

/// `digits` with zeros in front to make three characters.
pub open spec fn spec_leftpad(digits: Seq<u8>) -> Seq<u8> {
    Seq::new((3 - digits.len()) as nat, |i: int| 48u8) + digits
}

/// Pads a number of at most three digits to three with zeros in front.
pub fn leftpad(s: &[u8]) -> (res: Result<Vec<u8>, UdevError>)
    ensures
        res is Ok <==> s@.len() <= 3,
        res matches Ok(padded) ==> padded@ == spec_leftpad(s@) && padded@.len() == 3,
        res matches Err(e) ==> e == UdevError::TooManyDigits,
{
    let len = s.len();
    if len > 3 {
        return Err(UdevError::TooManyDigits);
    }
    let mut res: Vec<u8> = Vec::new();
    let mut i: usize = 0;
    while i < 3 - len
        invariant
            len <= 3,
            i <= 3 - len,
            res@ == Seq::new(i as nat, |j: int| 48u8),
        decreases 3 - len - i,
    {
        res.push(48);
        assert(res@ =~= Seq::new((i + 1) as nat, |j: int| 48u8));
        i += 1;
    }
    let mut k: usize = 0;
    while k < len
        invariant
            len == s@.len(),
            len <= 3,
            k <= len,
            res@ == Seq::new((3 - len) as nat, |j: int| 48u8) + s@.take(k as int),
        decreases len - k,
    {
        res.push(s[k]);
        assert(s@.take(k + 1) =~= s@.take(k as int).push(s@[k as int]));
        assert(res@ =~= Seq::new((3 - len) as nat, |j: int| 48u8) + s@.take(k + 1));
        k += 1;
    }
    assert(s@.take(k as int) =~= s@);
    Ok(res)
}

/// How a USB device is reset.
pub struct UsbReset {
    /// The device file to open for writing.
    pub device_file: FsPath,
    /// Whether to issue the reset once the file is open. Opening it is all that
    /// a rehearsal does.
    pub reset: bool,
}

/// The directory that holds the device files of the USB devices, by bus.
pub open spec fn usb_bus_directory() -> Seq<Part> {
    seq![
        Part::Root,
        Part::Name(seq![100u8, 101u8, 118u8]),
        Part::Name(seq![98u8, 117u8, 115u8]),
        Part::Name(usb()),
    ]
}

fn usb_bus_path() -> (path: FsPath)
    ensures
        path@ == usb_bus_directory(),
{
    let mut path = FsPath::new();
    path.push(Component::RootDir);
    let dev: [u8; 3] = [100, 101, 118];
    let bus: [u8; 3] = [98, 117, 115];
    let usb: [u8; 3] = [117, 115, 98];
    path.push_name(dev.as_slice());
    path.push_name(bus.as_slice());
    path.push_name(usb.as_slice());
    assert(dev@ =~= seq![100u8, 101u8, 118u8]);
    assert(bus@ =~= seq![98u8, 117u8, 115u8]);
    assert(usb@ =~= seq![117u8, 115u8, 98u8]);
    assert(path@ =~= usb_bus_directory());
    path
}

/// The device file of a USB device: it is named by the bus and by the number of
/// the device on the bus, each padded to three digits.
pub open spec fn spec_usb_device_file(dev: DeviceView) -> Result<Seq<Part>, UdevError> {
    match (dev.busnum, dev.devnum) {
        (Some(busnum), Some(devnum)) => if busnum.len() <= 3 && devnum.len() <= 3 {
            Ok(
                usb_bus_directory().push(Part::Name(spec_leftpad(busnum))).push(
                    Part::Name(spec_leftpad(devnum)),
                ),
            )
        } else {
            Err(UdevError::TooManyDigits)
        },
        _ => Err(UdevError::NoBusAddress),
    }
}

/// How the USB device `dev` is reset, or how the reset is rehearsed if `dryrun`
/// is true.
pub fn reset_usb_hub(dev: &Device, dryrun: bool) -> (res: Result<UsbReset, UdevError>)
    ensures
        match spec_usb_device_file(dev@) {
            Ok(file) => res is Ok && res->Ok_0.device_file@ == file && res->Ok_0.reset == !dryrun,
            Err(e) => res matches Err(f) && f == e,
        },
{
    let (busnum, devnum) = match (&dev.busnum, &dev.devnum) {
        (Some(x), Some(y)) => (x, y),
        _ => {
            return Err(UdevError::NoBusAddress);
        },
    };
    let mut buspath = usb_bus_path();
    match leftpad(busnum.as_slice()) {
        Ok(padded) => buspath.push_name(padded.as_slice()),
        Err(e) => {
            return Err(e);
        },
    }
    match leftpad(devnum.as_slice()) {
        Ok(padded) => buspath.push_name(padded.as_slice()),
        Err(e) => {
            return Err(e);
        },
    }
    Ok(UsbReset { device_file: buspath, reset: !dryrun })
}

} // verus!
