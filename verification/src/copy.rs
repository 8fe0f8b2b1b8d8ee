//! Copying a file, and comparing a copy with its source block by block while
//! repairing it in place.
//!
//! Reading and writing is the caller's part. Each kernel here is a machine: it
//! asks for one operation at a time with an [`Action`], and is told with an
//! [`Event`] how that went.

use crate::cache::OpenRequest;
use crate::checksum::fill_checksum;
use crate::checksum::Checksum;
use crate::checksum::ChecksumMismatch;
use crate::checksum::Crc64Hasher;
use crate::path::same_bytes;
use crate::utils::Errno;
use crate::utils::FileKind;
use crate::utils::IoError;
use crate::utils::Metadata;
use vstd::prelude::*;

verus! {

/// The size of one transfer. Reads that bypass the cache must be aligned to it.
pub const BLOCK_SIZE: usize = 4096;

/// Why an obligation could not be fulfilled.
#[derive(PartialEq, Eq, Debug, Clone, Copy)]
pub enum FixError {
    /// The source no longer has the checksum that was recorded for it.
    SourceChanged(ChecksumMismatch),
    /// The source is neither a file, a directory, a symbolic link nor a block device.
    UnknownKind,
    /// An operation on the file system failed.
    Io(IoError),
    /// The length to checksum is not known in advance for a device.
    DeviceChecksum,
    /// The event does not answer the action that was asked for.
    Protocol,
}

/// The three ways in which a path is copied, compared and checksummed.
#[derive(PartialEq, Eq, Debug, Clone, Copy, Structural)]
pub enum Kernel {
    /// As a stream of bytes: regular files and block devices.
    File,
    Directory,
    Symlink,
}

/// How something of this kind is handled, if it can be.
pub open spec fn kernel_of(kind: FileKind) -> Option<Kernel> {
    match kind {
        FileKind::Regular | FileKind::Device => Some(Kernel::File),
        FileKind::Directory => Some(Kernel::Directory),
        FileKind::Symlink => Some(Kernel::Symlink),
        FileKind::Other => None,
    }
}

/// How a file, directory or symlink of kind `kind` is copied.
pub fn copy_path(kind: FileKind) -> (res: Result<Kernel, FixError>)
    ensures
        res == match kernel_of(kind) {
            Some(kernel) => Ok::<Kernel, FixError>(kernel),
            None => Err::<Kernel, FixError>(FixError::UnknownKind),
        },
{
    match kind {
        FileKind::Regular | FileKind::Device => Ok(Kernel::File),
        FileKind::Directory => Ok(Kernel::Directory),
        FileKind::Symlink => Ok(Kernel::Symlink),
        FileKind::Other => Err(FixError::UnknownKind),
    }
}

/// How the checksum of a path of kind `kind` is computed. A device has none,
/// because the length to checksum is not known in advance.
pub fn checksum_path(kind: FileKind) -> (res: Result<Kernel, FixError>)
    ensures
        res == match kind {
            FileKind::Device => Err::<Kernel, FixError>(FixError::DeviceChecksum),
            FileKind::Other => Err::<Kernel, FixError>(FixError::UnknownKind),
            _ => Ok::<Kernel, FixError>(kernel_of(kind).unwrap()),
        },
{
    match kind {
        FileKind::Regular => Ok(Kernel::File),
        FileKind::Directory => Ok(Kernel::Directory),
        FileKind::Symlink => Ok(Kernel::Symlink),
        FileKind::Device => Err(FixError::DeviceChecksum),
        FileKind::Other => Err(FixError::UnknownKind),
    }
}

/// How something is removed.
#[derive(PartialEq, Eq, Debug, Clone, Copy, Structural)]
pub enum Removal {
    /// With everything below it.
    Tree,
    /// As a single file.
    File,
}

/// How what is at a path of kind `kind` is removed: a directory with everything
/// below it, anything else as a file.
pub fn remove_path(kind: FileKind) -> (removal: Removal)
    ensures
        removal == if kind == FileKind::Directory {
            Removal::Tree
        } else {
            Removal::File
        },
{
    match kind {
        FileKind::Directory => Removal::Tree,
        _ => Removal::File,
    }
}

/// How the copy of a source of kind `kind` is fixed.
pub fn fix_path(kind: FileKind) -> (res: Result<Kernel, FixError>)
    ensures
        res == match kernel_of(kind) {
            Some(kernel) => Ok::<Kernel, FixError>(kernel),
            None => Err::<Kernel, FixError>(FixError::UnknownKind),
        },
{
    match kind {
        FileKind::Regular | FileKind::Device => Ok(Kernel::File),
        FileKind::Directory => Ok(Kernel::Directory),
        FileKind::Symlink => Ok(Kernel::Symlink),
        FileKind::Other => Err(FixError::UnknownKind),
    }
}

/// How the operation went that a machine asked for.
#[derive(Debug)]
pub enum Event {
    /// It is done and has nothing to report.
    Done,
    /// The bytes that a read returned: none at the end of the file.
    Data(Vec<u8>),
    /// The metadata that was asked for.
    Stat(Metadata),
    /// It failed.
    Failed(IoError),
}

/// What a machine is told, as plain values.
pub enum EventView {
    Done,
    Data(Seq<u8>),
    Stat(Metadata),
    Failed(IoError),
}

impl View for Event {
    type V = EventView;

    open spec fn view(&self) -> EventView {
        match self {
            Event::Done => EventView::Done,
            Event::Data(bytes) => EventView::Data(bytes@),
            Event::Stat(meta) => EventView::Stat(*meta),
            Event::Failed(error) => EventView::Failed(*error),
        }
    }
}

/// What a machine asks its caller to do next.
#[derive(Debug)]
pub enum Action {
    /// Report the metadata of the open source with `Event::Stat`.
    StatSource,
    /// Report the metadata of the open target with `Event::Stat`.
    StatTarget,
    /// Open the target through the eviction policy, and the source for reading
    /// from its start to its end.
    OpenTarget(OpenRequest),
    /// Read at most `max` bytes from the source where the last read ended.
    ReadSource { max: usize },
    /// Read at most `max` bytes from the target at its cursor.
    ReadTarget { max: usize },
    /// Write all of `data` to the target at its cursor.
    AppendTarget { data: Vec<u8> },
    /// Move the target's cursor to `offset` and write all of `data` there.
    WriteTarget { offset: u64, data: Vec<u8> },
    /// Cut the target down to `len` bytes.
    TruncateTarget { len: u64 },
    /// Remove the target, whatever it is, with everything below it.
    RemoveTarget,
    /// Nothing is left to do. The target was modified if `changed` says so.
    Finish { changed: bool, checksum: Checksum },
    /// Give up.
    Fail(FixError),
}

/// What a machine asks for, as plain values.
pub enum ActionView {
    StatSource,
    StatTarget,
    OpenTarget(OpenRequest),
    ReadSource { max: usize },
    ReadTarget { max: usize },
    AppendTarget { data: Seq<u8> },
    WriteTarget { offset: u64, data: Seq<u8> },
    TruncateTarget { len: u64 },
    RemoveTarget,
    Finish { changed: bool, checksum: Checksum },
    Fail(FixError),
}

impl View for Action {
    type V = ActionView;

    open spec fn view(&self) -> ActionView {
        match self {
            Action::StatSource => ActionView::StatSource,
            Action::StatTarget => ActionView::StatTarget,
            Action::OpenTarget(request) => ActionView::OpenTarget(*request),
            Action::ReadSource { max } => ActionView::ReadSource { max: *max },
            Action::ReadTarget { max } => ActionView::ReadTarget { max: *max },
            Action::AppendTarget { data } => ActionView::AppendTarget { data: data@ },
            Action::WriteTarget { offset, data } => ActionView::WriteTarget {
                offset: *offset,
                data: data@,
            },
            Action::TruncateTarget { len } => ActionView::TruncateTarget { len: *len },
            Action::RemoveTarget => ActionView::RemoveTarget,
            Action::Finish { changed, checksum } => ActionView::Finish {
                changed: *changed,
                checksum: *checksum,
            },
            Action::Fail(error) => ActionView::Fail(*error),
        }
    }
}

/// The bits of a mode that hold the permissions.
pub const PERMISSIONS: u32 = 0o7777;

/// How a file is opened to receive a copy: for writing, created with the
/// permission bits of the source if it is not there.
pub open spec fn copy_request(mode: u32) -> OpenRequest {
    OpenRequest {
        read: false,
        write: true,
        append: false,
        create: true,
        mode: Some(mode),
        no_follow: false,
        direct: false,
    }
}

/// Where a copy stands.
#[derive(PartialEq, Eq, Debug, Clone, Copy, Structural)]
pub enum CopyPhase {
    /// The metadata of the source was asked for.
    Stat,
    /// The target is being opened.
    Open,
    /// A block of the source was asked for.
    Read,
    /// A block is being written.
    Write,
    Finished,
    Failed,
}

/// The state of a copy.
pub struct CopyState {
    pub phase: CopyPhase,
    /// Every byte of the source that went into the checksum.
    pub hashed: Seq<u8>,
    /// The permission bits of the source, once they are known.
    pub mode: u32,
    /// The block that is being written.
    pub block: Seq<u8>,
    pub error: FixError,
}

impl CopyState {
    /// The state of a copy that has not begun.
    pub open spec fn start() -> CopyState {
        CopyState {
            phase: CopyPhase::Stat,
            hashed: Seq::empty(),
            mode: 0,
            block: Seq::empty(),
            error: FixError::Protocol,
        }
    }

    /// The state once the copy has failed with `error`.
    pub open spec fn fail(self, error: FixError) -> CopyState {
        CopyState { phase: CopyPhase::Failed, error, ..self }
    }

    /// The same state in another phase.
    pub open spec fn to(self, phase: CopyPhase) -> CopyState {
        CopyState { phase, ..self }
    }

    /// The state after `event`.
    pub open spec fn step(self, event: EventView) -> CopyState {
        match (self.phase, event) {
            (CopyPhase::Finished, _) => self,
            (CopyPhase::Failed, _) => self,
            (_, EventView::Failed(error)) => self.fail(FixError::Io(error)),
            (CopyPhase::Stat, EventView::Stat(meta)) => CopyState {
                phase: CopyPhase::Open,
                mode: meta.mode & PERMISSIONS,
                ..self
            },
            (CopyPhase::Open, EventView::Done) => self.to(CopyPhase::Read),
            (CopyPhase::Read, EventView::Data(bytes)) => if bytes.len() > BLOCK_SIZE {
                self.fail(FixError::Protocol)
            } else if bytes.len() == 0 {
                self.to(CopyPhase::Finished)
            } else {
                CopyState {
                    phase: CopyPhase::Write,
                    hashed: self.hashed + bytes,
                    block: bytes,
                    ..self
                }
            },
            (CopyPhase::Write, EventView::Done) => self.to(CopyPhase::Read),
            _ => self.fail(FixError::Protocol),
        }
    }

    /// What is asked for in this state.
    pub open spec fn pending(self) -> ActionView {
        match self.phase {
            CopyPhase::Stat => ActionView::StatSource,
            CopyPhase::Open => ActionView::OpenTarget(copy_request(self.mode)),
            CopyPhase::Read => ActionView::ReadSource { max: BLOCK_SIZE },
            CopyPhase::Write => ActionView::AppendTarget { data: self.block },
            CopyPhase::Finished => ActionView::Finish {
                changed: true,
                checksum: Checksum::of(self.hashed),
            },
            CopyPhase::Failed => ActionView::Fail(self.error),
        }
    }
}

/// Copies a file to another and computes the checksum of the source.
pub struct FileCopy {
    phase: CopyPhase,
    hasher: Crc64Hasher,
    mode: u32,
    block: Ghost<Seq<u8>>,
    error: FixError,
}

impl View for FileCopy {
    type V = CopyState;

    closed spec fn view(&self) -> CopyState {
        CopyState {
            phase: self.phase,
            hashed: self.hasher@,
            mode: self.mode,
            block: self.block@,
            error: self.error,
        }
    }
}

impl FileCopy {
    /// A copy that has not begun, and what it asks for first.
    pub fn new() -> (res: (FileCopy, Action))
        ensures
            res.0@ == CopyState::start(),
            res.1@ == res.0@.pending(),
    {
        (
            FileCopy {
                phase: CopyPhase::Stat,
                hasher: Crc64Hasher::new(),
                mode: 0,
                block: Ghost(Seq::empty()),
                error: FixError::Protocol,
            },
            Action::StatSource,
        )
    }

    fn fail(&mut self, error: FixError) -> (action: Action)
        ensures
            final(self)@ == old(self)@.fail(error),
            action@ == final(self)@.pending(),
    {
        self.phase = CopyPhase::Failed;
        self.error = error;
        Action::Fail(error)
    }

    /// Takes in how the last action went and says what to do next.
    pub fn step(&mut self, event: Event) -> (action: Action)
        ensures
            final(self)@ == old(self)@.step(event@),
            action@ == final(self)@.pending(),
    {
        match self.phase {
            CopyPhase::Finished => {
                return Action::Finish { changed: true, checksum: self.hasher.finalize() };
            },
            CopyPhase::Failed => {
                return Action::Fail(self.error);
            },
            _ => {},
        }
        match event {
            Event::Failed(error) => self.fail(FixError::Io(error)),
            Event::Stat(meta) => match self.phase {
                CopyPhase::Stat => {
                    self.phase = CopyPhase::Open;
                    self.mode = meta.mode & PERMISSIONS;
                    Action::OpenTarget(
                        OpenRequest {
                            read: false,
                            write: true,
                            append: false,
                            create: true,
                            mode: Some(self.mode),
                            no_follow: false,
                            direct: false,
                        },
                    )
                },
                _ => self.fail(FixError::Protocol),
            },
            Event::Done => match self.phase {
                CopyPhase::Open | CopyPhase::Write => {
                    self.phase = CopyPhase::Read;
                    Action::ReadSource { max: BLOCK_SIZE }
                },
                _ => self.fail(FixError::Protocol),
            },
            Event::Data(bytes) => match self.phase {
                CopyPhase::Read => {
                    if bytes.len() > BLOCK_SIZE {
                        self.fail(FixError::Protocol)
                    } else if bytes.len() == 0 {
                        self.phase = CopyPhase::Finished;
                        Action::Finish { changed: true, checksum: self.hasher.finalize() }
                    } else {
                        self.hasher.update(bytes.as_slice());
                        self.phase = CopyPhase::Write;
                        self.block = Ghost(bytes@);
                        Action::AppendTarget { data: bytes }
                    }
                },
                _ => self.fail(FixError::Protocol),
            },
        }
    }
}

/// How the target of a comparison is opened: for reading and writing, and
/// without following it if it is a symbolic link.
pub open spec fn fix_request() -> OpenRequest {
    OpenRequest {
        read: true,
        write: true,
        append: false,
        create: false,
        mode: None,
        no_follow: true,
        direct: false,
    }
}

/// Where the comparison of a file with its copy stands.
#[derive(PartialEq, Eq, Debug, Clone, Copy, Structural)]
pub enum FixPhase {
    /// The target is being opened.
    Open,
    /// The target was no file: it is being removed.
    Remove,
    /// The target was removed, and the source is being copied anew.
    Recopy,
    /// A block of the source was asked for.
    Source,
    /// The same block of the target is being read.
    Target,
    /// The block is being written to the target, which did not hold it.
    Patch,
    /// The source has ended, and the kind of the target was asked for.
    Kind,
    /// One byte past the end was asked for, to see whether the target is longer.
    Probe,
    /// The target is being cut down to the length of the source.
    Truncate,
    Finished,
    Failed,
}

/// The state of a comparison.
pub struct FixState {
    pub phase: FixPhase,
    /// Every byte of the source that went into the checksum.
    pub hashed: Seq<u8>,
    /// Where the block at hand begins. Up to here both files are alike.
    pub offset: u64,
    /// Whether the target was modified.
    pub changed: bool,
    /// Whether the target was replaced by a fresh copy.
    pub recopied: bool,
    /// The copy that replaces a target that was no file.
    pub copy: CopyState,
    /// The block of the source at hand.
    pub reference: Seq<u8>,
    /// What the target gave for this block so far.
    pub actual: Seq<u8>,
    /// The checksum that was recorded for the source, if one was.
    pub slot: Option<Checksum>,
    pub error: FixError,
}

impl FixState {
    /// The state of a comparison that has not begun, with `slot` on record.
    pub open spec fn start(slot: Option<Checksum>) -> FixState {
        FixState {
            phase: FixPhase::Open,
            hashed: Seq::empty(),
            offset: 0,
            changed: false,
            recopied: false,
            copy: CopyState::start(),
            reference: Seq::empty(),
            actual: Seq::empty(),
            slot,
            error: FixError::Protocol,
        }
    }

    /// The state once the fresh copy has taken in `event`: when the copy is done,
    /// the target was modified, and the checksum of what was copied is that of the
    /// source.
    pub open spec fn recopy(self, event: EventView) -> FixState {
        let copy = self.copy.step(event);
        let copied = FixState { copy, ..self };
        match copy.phase {
            CopyPhase::Finished => FixState { changed: true, recopied: true, ..copied }.settle(
                Checksum::of(copy.hashed),
            ),
            CopyPhase::Failed => copied.fail(copy.error),
            _ => copied,
        }
    }

    /// The state once the comparison has failed with `error`.
    pub open spec fn fail(self, error: FixError) -> FixState {
        FixState { phase: FixPhase::Failed, error, ..self }
    }

    /// The same state in another phase.
    pub open spec fn to(self, phase: FixPhase) -> FixState {
        FixState { phase, ..self }
    }

    /// The state once the source is known to have the checksum `computed`: it is
    /// recorded where nothing was, and must be what was recorded otherwise.
    pub open spec fn settle(self, computed: Checksum) -> FixState {
        match self.slot {
            Some(recorded) if recorded != computed => self.fail(
                FixError::SourceChanged(ChecksumMismatch { recorded, computed }),
            ),
            _ => FixState { phase: FixPhase::Finished, slot: Some(computed), ..self },
        }
    }

    /// The state once the block at hand was handled.
    pub open spec fn next_block(self) -> FixState {
        FixState {
            phase: FixPhase::Source,
            offset: (self.offset + self.reference.len()) as u64,
            reference: Seq::empty(),
            actual: Seq::empty(),
            ..self
        }
    }

    /// The state once the target gave all it has for the block at hand; with `short`
    /// it ended before the block did.
    pub open spec fn compared(self, short: bool) -> FixState {
        if self.offset + self.reference.len() > u64::MAX {
            self.fail(FixError::Protocol)
        } else if short || self.reference != self.actual {
            FixState {
                phase: FixPhase::Patch,
                hashed: self.hashed + self.reference,
                changed: true,
                ..self
            }
        } else {
            FixState { hashed: self.hashed + self.reference, ..self }.next_block()
        }
    }

    /// The state after `event`.
    pub open spec fn step(self, event: EventView) -> FixState {
        match (self.phase, event) {
            (FixPhase::Finished, _) => self,
            (FixPhase::Failed, _) => self,
            (FixPhase::Open, EventView::Failed(error)) => if error.errno == Some(Errno::EISDIR)
                || error.errno == Some(Errno::ELOOP) {
                self.to(FixPhase::Remove)
            } else {
                self.fail(FixError::Io(error))
            },
            (FixPhase::Recopy, _) => self.recopy(event),
            (_, EventView::Failed(error)) => self.fail(FixError::Io(error)),
            (FixPhase::Open, EventView::Done) => self.to(FixPhase::Source),
            (FixPhase::Remove, EventView::Done) => self.to(FixPhase::Recopy),
            (FixPhase::Source, EventView::Data(bytes)) => if bytes.len() > BLOCK_SIZE {
                self.fail(FixError::Protocol)
            } else if bytes.len() == 0 {
                self.to(FixPhase::Kind)
            } else {
                FixState {
                    phase: FixPhase::Target,
                    reference: bytes,
                    actual: Seq::empty(),
                    ..self
                }
            },
            (FixPhase::Target, EventView::Data(bytes)) => if self.actual.len() + bytes.len()
                > self.reference.len() {
                self.fail(FixError::Protocol)
            } else if bytes.len() == 0 {
                self.compared(true)
            } else if self.actual.len() + bytes.len() < self.reference.len() {
                FixState { actual: self.actual + bytes, ..self }
            } else {
                FixState { actual: self.actual + bytes, ..self }.compared(false)
            },
            (FixPhase::Patch, EventView::Done) => self.next_block(),
            (FixPhase::Kind, EventView::Stat(meta)) => if FileKind::of_mode(meta.mode)
                == FileKind::Device {
                self.settle(Checksum::of(self.hashed))
            } else {
                self.to(FixPhase::Probe)
            },
            (FixPhase::Probe, EventView::Data(bytes)) => if bytes.len() > 1 {
                self.fail(FixError::Protocol)
            } else if bytes.len() == 0 {
                self.settle(Checksum::of(self.hashed))
            } else {
                FixState { phase: FixPhase::Truncate, changed: true, ..self }
            },
            (FixPhase::Truncate, EventView::Done) => self.settle(Checksum::of(self.hashed)),
            _ => self.fail(FixError::Protocol),
        }
    }

    /// What is asked for in this state.
    pub open spec fn pending(self) -> ActionView {
        match self.phase {
            FixPhase::Open => ActionView::OpenTarget(fix_request()),
            FixPhase::Remove => ActionView::RemoveTarget,
            FixPhase::Recopy => self.copy.pending(),
            FixPhase::Source => ActionView::ReadSource { max: BLOCK_SIZE },
            FixPhase::Target => ActionView::ReadTarget {
                max: (self.reference.len() - self.actual.len()) as usize,
            },
            FixPhase::Patch => ActionView::WriteTarget { offset: self.offset, data: self.reference },
            FixPhase::Kind => ActionView::StatTarget,
            FixPhase::Probe => ActionView::ReadTarget { max: 1 },
            FixPhase::Truncate => ActionView::TruncateTarget { len: self.offset },
            FixPhase::Finished => ActionView::Finish {
                changed: self.changed,
                checksum: self.slot.unwrap(),
            },
            FixPhase::Failed => ActionView::Fail(self.error),
        }
    }

    /// What holds of every state that a comparison can reach.
    pub open spec fn wf(self) -> bool {
        &&& self.phase == FixPhase::Finished ==> self.slot.is_some()
        &&& self.actual.len() <= self.reference.len() <= BLOCK_SIZE
        &&& self.phase == FixPhase::Target ==> self.actual.len() < self.reference.len()
        &&& self.phase == FixPhase::Patch ==> self.offset + self.reference.len() <= u64::MAX
        &&& self.phase == FixPhase::Patch ==> self.reference.len() > 0
        &&& self.phase == FixPhase::Recopy ==> self.copy.phase != CopyPhase::Finished
            && self.copy.phase != CopyPhase::Failed
        &&& self.phase == FixPhase::Open || self.phase == FixPhase::Remove ==> self.copy
            == CopyState::start()
    }
}

/// Every step of a comparison leads to a state that a comparison can reach.
pub proof fn fix_step_keeps_wf(state: FixState, event: EventView)
    requires
        state.wf(),
    ensures
        state.step(event).wf(),
{
}

/// Fixes a copy of a file, and checks that the checksum of the source is the
/// recorded one. Says in the end whether the copy was modified.
pub struct FileFix {
    phase: FixPhase,
    hasher: Crc64Hasher,
    offset: u64,
    changed: bool,
    recopied: bool,
    copier: FileCopy,
    reference: Vec<u8>,
    actual: Vec<u8>,
    slot: Option<Checksum>,
    error: FixError,
}

impl View for FileFix {
    type V = FixState;

    closed spec fn view(&self) -> FixState {
        FixState {
            phase: self.phase,
            hashed: self.hasher@,
            offset: self.offset,
            changed: self.changed,
            recopied: self.recopied,
            copy: self.copier@,
            reference: self.reference@,
            actual: self.actual@,
            slot: self.slot,
            error: self.error,
        }
    }
}

impl FileFix {
    /// A comparison that has not begun, and what it asks for first. `checksum` is
    /// what was recorded for the source, if anything was.
    pub fn new(checksum: Option<Checksum>) -> (res: (FileFix, Action))
        ensures
            res.0@ == FixState::start(checksum),
            res.0@.wf(),
            res.1@ == res.0@.pending(),
    {
        let fix = FileFix {
            phase: FixPhase::Open,
            hasher: Crc64Hasher::new(),
            offset: 0,
            changed: false,
            recopied: false,
            copier: FileCopy::new().0,
            reference: Vec::new(),
            actual: Vec::new(),
            slot: checksum,
            error: FixError::Protocol,
        };
        (
            fix,
            Action::OpenTarget(
                OpenRequest {
                    read: true,
                    write: true,
                    append: false,
                    create: false,
                    mode: None,
                    no_follow: true,
                    direct: false,
                },
            ),
        )
    }

    /// The checksum of the source, once it is known.
    pub fn checksum(&self) -> (checksum: Option<Checksum>)
        ensures
            checksum == self@.slot,
    {
        self.slot
    }

    fn fail(&mut self, error: FixError) -> (action: Action)
        ensures
            final(self)@ == old(self)@.fail(error),
            action@ == final(self)@.pending(),
    {
        self.phase = FixPhase::Failed;
        self.error = error;
        Action::Fail(error)
    }

    fn to(&mut self, phase: FixPhase, action: Action) -> (res: Action)
        requires
            action@ == old(self)@.to(phase).pending(),
        ensures
            final(self)@ == old(self)@.to(phase),
            res@ == final(self)@.pending(),
            res == action,
    {
        self.phase = phase;
        action
    }

    fn settle(&mut self, computed: Checksum) -> (action: Action)
        ensures
            final(self)@ == old(self)@.settle(computed),
            action@ == final(self)@.pending(),
    {
        match fill_checksum(&mut self.slot, computed) {
            Ok(()) => {
                self.phase = FixPhase::Finished;
                Action::Finish { changed: self.changed, checksum: computed }
            },
            Err(mismatch) => self.fail(FixError::SourceChanged(mismatch)),
        }
    }

    fn next_block(&mut self) -> (action: Action)
        requires
            old(self)@.offset + old(self)@.reference.len() <= u64::MAX,
        ensures
            final(self)@ == old(self)@.next_block(),
            action@ == final(self)@.pending(),
    {
        self.offset = self.offset + self.reference.len() as u64;
        self.reference.clear();
        self.actual.clear();
        self.phase = FixPhase::Source;
        Action::ReadSource { max: BLOCK_SIZE }
    }

    fn compared(&mut self, short: bool) -> (action: Action)
        ensures
            final(self)@ == old(self)@.compared(short),
            action@ == final(self)@.pending(),
    {
        if self.reference.len() as u64 > u64::MAX - self.offset {
            return self.fail(FixError::Protocol);
        }
        self.hasher.update(self.reference.as_slice());
        if short || !same_bytes(self.reference.as_slice(), self.actual.as_slice()) {
            self.changed = true;
            self.phase = FixPhase::Patch;
            Action::WriteTarget {
                offset: self.offset,
                data: crate::path::copy_bytes(self.reference.as_slice()),
            }
        } else {
            self.next_block()
        }
    }

    fn recopy(&mut self, event: Event) -> (action: Action)
        requires
            old(self)@.wf(),
            old(self)@.phase == FixPhase::Recopy,
        ensures
            final(self)@ == old(self)@.recopy(event@),
            action@ == final(self)@.pending(),
    {
        match self.copier.step(event) {
            Action::Finish { changed: _, checksum } => {
                self.changed = true;
                self.recopied = true;
                self.settle(checksum)
            },
            Action::Fail(error) => self.fail(error),
            action => action,
        }
    }

    /// Takes in how the last action went and says what to do next.
    pub fn step(&mut self, event: Event) -> (action: Action)
        requires
            old(self)@.wf(),
        ensures
            final(self)@ == old(self)@.step(event@),
            final(self)@.wf(),
            action@ == final(self)@.pending(),
    {
        proof {
            fix_step_keeps_wf(self@, event@);
        }
        match self.phase {
            FixPhase::Finished => {
                return Action::Finish {
                    changed: self.changed,
                    checksum: match self.slot {
                        Some(checksum) => checksum,
                        None => Checksum::from_u64(0),
                    },
                };
            },
            FixPhase::Failed => {
                return Action::Fail(self.error);
            },
            FixPhase::Recopy => {
                return self.recopy(event);
            },
            _ => {},
        }
        match event {
            Event::Failed(error) => match self.phase {
                FixPhase::Open => {
                    if error.is(Errno::EISDIR) || error.is(Errno::ELOOP) {
                        self.to(FixPhase::Remove, Action::RemoveTarget)
                    } else {
                        self.fail(FixError::Io(error))
                    }
                },
                _ => self.fail(FixError::Io(error)),
            },
            Event::Done => match self.phase {
                FixPhase::Open => self.to(FixPhase::Source, Action::ReadSource { max: BLOCK_SIZE }),
                FixPhase::Remove => self.to(FixPhase::Recopy, Action::StatSource),
                FixPhase::Patch => self.next_block(),
                FixPhase::Truncate => {
                    let computed = self.hasher.finalize();
                    self.settle(computed)
                },
                _ => self.fail(FixError::Protocol),
            },
            Event::Stat(meta) => match self.phase {
                FixPhase::Kind => match FileKind::of_metadata(&meta) {
                    FileKind::Device => {
                        let computed = self.hasher.finalize();
                        self.settle(computed)
                    },
                    _ => self.to(FixPhase::Probe, Action::ReadTarget { max: 1 }),
                },
                _ => self.fail(FixError::Protocol),
            },
            Event::Data(bytes) => match self.phase {
                FixPhase::Source => {
                    if bytes.len() > BLOCK_SIZE {
                        self.fail(FixError::Protocol)
                    } else if bytes.len() == 0 {
                        self.to(FixPhase::Kind, Action::StatTarget)
                    } else {
                        let max = bytes.len();
                        self.reference = bytes;
                        self.actual.clear();
                        self.phase = FixPhase::Target;
                        Action::ReadTarget { max }
                    }
                },
                FixPhase::Target => {
                    let mut bytes = bytes;
                    if bytes.len() > self.reference.len() - self.actual.len() {
                        self.fail(FixError::Protocol)
                    } else if bytes.len() == 0 {
                        self.compared(true)
                    } else {
                        self.actual.append(&mut bytes);
                        if self.actual.len() < self.reference.len() {
                            Action::ReadTarget { max: self.reference.len() - self.actual.len() }
                        } else {
                            self.compared(false)
                        }
                    }
                },
                FixPhase::Probe => {
                    if bytes.len() > 1 {
                        self.fail(FixError::Protocol)
                    } else if bytes.len() == 0 {
                        let computed = self.hasher.finalize();
                        self.settle(computed)
                    } else {
                        self.changed = true;
                        self.phase = FixPhase::Truncate;
                        Action::TruncateTarget { len: self.offset }
                    }
                },
                _ => self.fail(FixError::Protocol),
            },
        }
    }
}

} // verus!
