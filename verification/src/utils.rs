//! File kinds, what a probe of the file system reports, and small helpers.

use vstd::prelude::*;

verus! {

/// The bits of a mode that hold the file type.
pub const S_IFMT: u32 = 0o170000;

/// The file type of a regular file.
pub const S_IFREG: u32 = 0o100000;

/// The file type of a directory.
pub const S_IFDIR: u32 = 0o040000;

/// The file type of a symbolic link.
pub const S_IFLNK: u32 = 0o120000;

/// The file type of a block device.
pub const S_IFBLK: u32 = 0o060000;

/// What a path can be, as far as copying goes.
#[derive(PartialEq, Eq, Debug, Clone, Copy, Structural)]
pub enum FileKind {
    /// A regular file
    Regular,
    /// A directory
    Directory,
    /// A symbolic link
    Symlink,
    /// A block device. Character devices are not handled: they count as `Other`.
    Device,
    /// Something else that cannot be copied.
    Other,
}

/// What one probe of a path or of an open file reports, links not followed.
#[derive(PartialEq, Eq, Debug, Clone, Copy, Structural)]
pub struct Metadata {
    /// File type and permission bits.
    pub mode: u32,
    /// Size in bytes.
    pub size: u64,
    /// Number of the device that holds the file.
    pub dev: u64,
    /// Number of the device that the file is, for a device file.
    pub rdev: u64,
}

impl FileKind {
    /// The kind that the file type bits of `mode` stand for.
    pub open spec fn of_mode(mode: u32) -> FileKind {
        let file_type = mode & S_IFMT;
        if file_type == S_IFREG {
            FileKind::Regular
        } else if file_type == S_IFDIR {
            FileKind::Directory
        } else if file_type == S_IFLNK {
            FileKind::Symlink
        } else if file_type == S_IFBLK {
            FileKind::Device
        } else {
            FileKind::Other
        }
    }

    /// Gets the kind of the file which has this metadata.
    pub fn of_metadata(metadata: &Metadata) -> (kind: FileKind)
        ensures
            kind == FileKind::of_mode(metadata.mode),
    {
        let file_type = metadata.mode & S_IFMT;
        if file_type == S_IFREG {
            FileKind::Regular
        } else if file_type == S_IFDIR {
            FileKind::Directory
        } else if file_type == S_IFLNK {
            FileKind::Symlink
        } else if file_type == S_IFBLK {
            FileKind::Device
        } else {
            FileKind::Other
        }
    }

    /// The kind of what is at a path, given what a probe of the path that follows
    /// no link came back with.
    pub fn of_path(probe: &Result<Metadata, IoError>) -> (res: Result<FileKind, IoError>)
        ensures
            res == match *probe {
                Ok(meta) => Ok::<FileKind, IoError>(FileKind::of_mode(meta.mode)),
                Err(e) => Err::<FileKind, IoError>(e),
            },
    {
        match probe {
            Ok(meta) => Ok(FileKind::of_metadata(meta)),
            Err(e) => Err(*e),
        }
    }

    /// The kind of an open file, given what a probe of it came back with.
    pub fn of_file(probe: &Result<Metadata, IoError>) -> (res: Result<FileKind, IoError>)
        ensures
            res == match *probe {
                Ok(meta) => Ok::<FileKind, IoError>(FileKind::of_mode(meta.mode)),
                Err(e) => Err::<FileKind, IoError>(e),
            },
    {
        FileKind::of_path(probe)
    }

    /// Whether content of this kind is a stream of bytes.
    pub open spec fn has_bytes(self) -> bool {
        self == FileKind::Regular || self == FileKind::Device
    }
}

/// The permission bits never decide the kind.
pub proof fn kind_ignores_permissions(file_type: u32, permissions: u32)
    requires
        file_type & S_IFMT == file_type,
        permissions & S_IFMT == 0,
    ensures
        FileKind::of_mode(file_type | permissions) == FileKind::of_mode(file_type),
{
    assert((file_type | permissions) & 0o170000 == file_type) by (bit_vector)
        requires
            file_type & 0o170000 == file_type,
            permissions & 0o170000 == 0,
    ;
}

/// The size of the file as needed to pace progress: the number of bytes for a
/// regular file or a device, 0 for anything else.
pub open spec fn spec_copy_size(meta: &Metadata) -> u64 {
    if FileKind::of_mode(meta.mode).has_bytes() {
        meta.size
    } else {
        0
    }
}

/// Returns the size of the file as needed to pace progress. This is 0 for
/// symlinks and directories.
#[verifier::when_used_as_spec(spec_copy_size)]
pub fn copy_size(meta: &Metadata) -> (size: u64)
    ensures
        size == spec_copy_size(meta),
{
    match FileKind::of_metadata(meta) {
        FileKind::Symlink | FileKind::Directory | FileKind::Other => 0,
        FileKind::Regular | FileKind::Device => meta.size,
    }
}

/// The number of the device that bears a file with this metadata: the device
/// itself for a device file, else the device that holds the file.
pub fn bearing_device_number(meta: &Metadata) -> (number: u64)
    ensures
        number == if FileKind::of_mode(meta.mode) == FileKind::Device {
            meta.rdev
        } else {
            meta.dev
        },
{
    match FileKind::of_metadata(meta) {
        FileKind::Device => meta.rdev,
        _ => meta.dev,
    }
}

/// The classes of input and output failures that the engine tells apart.
#[derive(PartialEq, Eq, Debug, Clone, Copy, Structural)]
pub enum ErrorKind {
    NotFound,
    AlreadyExists,
    Other,
}

/// The error numbers of the system that the engine tells apart.
#[derive(PartialEq, Eq, Debug, Clone, Copy, Structural)]
pub enum Errno {
    /// Invalid argument
    EINVAL,
    /// Is a directory
    EISDIR,
    /// Too many levels of symbolic links
    ELOOP,
    /// Not a directory
    ENOTDIR,
    /// Any other number
    Other,
}

/// A failed operation on the file system.
#[derive(PartialEq, Eq, Debug, Clone, Copy)]
pub struct IoError {
    pub kind: ErrorKind,
    /// The system's error number, where the failure came with one.
    pub errno: Option<Errno>,
}

/// `nix::errno::Errno::from_i32` names a raw error number of this system. Which
/// number bears which name depends on the system, so nothing is claimed of the
/// result.
#[verifier::external_body]
fn errno_from_raw(raw: i32) -> (errno: Errno) {
    match nix::errno::Errno::from_i32(raw) {
        nix::errno::Errno::EINVAL => Errno::EINVAL,
        nix::errno::Errno::EISDIR => Errno::EISDIR,
        nix::errno::Errno::ELOOP => Errno::ELOOP,
        nix::errno::Errno::ENOTDIR => Errno::ENOTDIR,
        _ => Errno::Other,
    }
}

impl IoError {
    /// A failure of class `kind` that came with the raw error number `raw`.
    pub fn from_raw_os_error(kind: ErrorKind, raw: Option<i32>) -> (error: IoError)
        ensures
            error.kind == kind,
            error.errno.is_some() == raw.is_some(),
    {
        match raw {
            Some(number) => IoError { kind, errno: Some(errno_from_raw(number)) },
            None => IoError { kind, errno: None },
        }
    }

    /// Whether the failure came with the error number `errno`.
    pub fn is(&self, errno: Errno) -> (is: bool)
        ensures
            is == (self.errno == Some(errno)),
    {
        match self.errno {
            Some(e) => e == errno,
            None => false,
        }
    }
}

/// Whether a file exists, given what a probe of its path that follows no link
/// came back with. Only a probe that failed because nothing was found says no.
pub fn path_exists(probe: &Result<Metadata, IoError>) -> (res: Result<bool, IoError>)
    ensures
        probe.is_ok() ==> res == Ok::<bool, IoError>(true),
        probe is Err ==> (if probe->Err_0.kind == ErrorKind::NotFound {
            res == Ok::<bool, IoError>(false)
        } else {
            res == Err::<bool, IoError>(probe->Err_0)
        }),
{
    match probe {
        Ok(_) => Ok(true),
        Err(e) => match e.kind {
            ErrorKind::NotFound => Ok(false),
            _ => Err(*e),
        },
    }
}

/// Return type for `get_unique`.
pub enum Unique<T> {
    /// There was no element.
    Zero,
    /// There was this one element.
    One(T),
    /// There were several elements.
    Several,
}

/// Returns the only element of `items`, or indicates whether there was
/// zero or more than one elements.
pub fn get_unique<T>(items: Vec<T>) -> (res: Unique<T>)
    ensures
        items@.len() == 0 <==> res is Zero,
        items@.len() == 1 <==> res is One,
        items@.len() > 1 <==> res is Several,
        res matches Unique::One(x) ==> x == items@[0],
{
    let mut items = items;
    if items.len() == 0 {
        Unique::Zero
    } else if items.len() == 1 {
        match items.pop() {
            Some(x) => Unique::One(x),
            None => Unique::Zero,
        }
    } else {
        Unique::Several
    }
}

} // verus!
