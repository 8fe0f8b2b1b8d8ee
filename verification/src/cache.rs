//! Ways to make sure that what is read back from the destination comes from the
//! medium and not from a cache.

use crate::path::FsPath;
use crate::udev::UdevError;
use crate::utils::IoError;
use vstd::prelude::*;

pub mod directio;
pub mod umount;
pub mod usbreset;
pub mod vm;

verus! {

/// How a file is to be opened.
#[derive(PartialEq, Eq, Debug, Clone, Copy, Structural)]
pub struct OpenRequest {
    pub read: bool,
    pub write: bool,
    pub append: bool,
    pub create: bool,
    /// The mode bits for a file that the call creates, where they are given.
    pub mode: Option<u32>,
    /// Fail on a symbolic link instead of following it.
    pub no_follow: bool,
    /// Transfer straight between the caller's buffer and the medium.
    pub direct: bool,
}

impl OpenRequest {
    /// A request that asks for nothing yet.
    pub fn new() -> (request: OpenRequest)
        ensures
            request == (OpenRequest {
                read: false,
                write: false,
                append: false,
                create: false,
                mode: None,
                no_follow: false,
                direct: false,
            }),
    {
        OpenRequest {
            read: false,
            write: false,
            append: false,
            create: false,
            mode: None,
            no_follow: false,
            direct: false,
        }
    }
}

/// The path at `before` was moved to `after`.
#[derive(Debug)]
pub struct Replacement {
    pub before: FsPath,
    pub after: FsPath,
}

/// Why a policy cannot do what it is asked for.
#[derive(PartialEq, Eq, Debug, Clone, Copy)]
pub enum CacheError {
    /// The policy was used before its permission check succeeded.
    NotReady,
    /// The policy needs the privileges of the superuser.
    NeedsRoot,
    /// A symbolic link that has no directory above it cannot be synced.
    NoParent,
    /// A path that is neither file, directory, link nor block device cannot be synced.
    WrongFileType,
    /// The file system does not support direct input and output.
    DirectIoUnsupported,
    /// The policy handles files on a file system, and the path is a block device.
    IsBlockDevice,
    /// The disk manager knows of no file system on the block device.
    NoFileSystem,
    /// The file system is not mounted above the path.
    NotMountedThere,
    /// The file system has no identifier to find it again by.
    NoUuid,
    /// Several block devices answer the description.
    Ambiguous,
    /// A drive cannot be ejected.
    NotEjectable,
    /// The device did not come back in time.
    TimedOut,
    /// The device behind the path could not be told.
    Udev(UdevError),
    /// An operation on the file system failed.
    Io(IoError),
    /// What was reported does not answer what was asked for.
    Confused,
}

/// What every policy offers besides its permission check and its way to drop the
/// caches, which need other things from one policy to the next.
pub trait CacheManager {
    /// Whether the permission check has succeeded.
    spec fn is_ready(&self) -> bool;

    /// How to open a file so that reading it does not read from a cache: as
    /// `request` says, except that the policy may ask for direct transfers.
    fn open_no_cache(&self, request: OpenRequest) -> (res: Result<OpenRequest, CacheError>)
        ensures
            res is Ok <==> self.is_ready(),
            res matches Err(e) ==> e == CacheError::NotReady,
            res matches Ok(r) ==> r == (OpenRequest { direct: r.direct, ..request }),
    ;

    /// Just for debugging purposes
    fn name(&self) -> &'static str;
}

} // verus!
