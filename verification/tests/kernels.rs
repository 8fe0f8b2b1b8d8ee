use cccp::cache::OpenRequest;
use cccp::checksum::Checksum;
use cccp::checksum::ChecksumMismatch;
use cccp::checksum::Crc64Hasher;
use cccp::copy::checksum_path;
use cccp::copy::copy_path;
use cccp::copy::fix_path;
use cccp::copy::Action;
use cccp::copy::Event;
use cccp::copy::FileCopy;
use cccp::copy::FileFix;
use cccp::copy::FixError;
use cccp::copy::Kernel;
use cccp::copy::BLOCK_SIZE;
use cccp::utils::copy_size;
use cccp::utils::get_unique;
use cccp::utils::path_exists;
use cccp::utils::Errno;
use cccp::utils::ErrorKind;
use cccp::utils::FileKind;
use cccp::utils::IoError;
use cccp::utils::Metadata;
use cccp::utils::Unique;

fn crc(bytes: &[u8]) -> Checksum {
    let mut hasher = Crc64Hasher::new();
    hasher.update(bytes);
    hasher.finalize()
}

fn meta(mode: u32, size: u64) -> Metadata {
    Metadata {
        mode,
        size,
        dev: 7,
        rdev: 9,
    }
}

/// Two files in memory, and what was done to the target.
struct Files {
    source: Vec<u8>,
    source_pos: usize,
    /// `None` while nothing is at the target.
    target: Option<Vec<u8>>,
    target_pos: usize,
    target_is_device: bool,
    /// How many bytes a read of the source and of the target returns at most.
    source_chunk: usize,
    chunk: usize,
    writes: usize,
    truncations: usize,
    recopies: usize,
    opened: Vec<OpenRequest>,
    /// What opening the target fails with, once.
    open_failure: Option<IoError>,
}

impl Files {
    fn new(source: Vec<u8>, target: Option<Vec<u8>>) -> Files {
        Files {
            source,
            source_pos: 0,
            target,
            target_pos: 0,
            target_is_device: false,
            source_chunk: BLOCK_SIZE,
            chunk: BLOCK_SIZE,
            writes: 0,
            truncations: 0,
            recopies: 0,
            opened: Vec::new(),
            open_failure: None,
        }
    }

    fn read(content: &[u8], pos: &mut usize, max: usize, chunk: usize) -> Vec<u8> {
        let start = (*pos).min(content.len());
        let end = (start + max.min(chunk)).min(content.len());
        *pos = end.max(*pos);
        content[start..end].to_vec()
    }

    fn write(&mut self, offset: usize, data: &[u8]) {
        let target = self.target.as_mut().unwrap();
        if target.len() < offset + data.len() {
            assert!(!self.target_is_device);
            target.resize(offset + data.len(), 0);
        }
        target[offset..offset + data.len()].copy_from_slice(data);
        self.target_pos = offset + data.len();
        self.writes += 1;
    }

    /// Does what `action` asks for; `Err` holds how the machine ended.
    fn answer(&mut self, action: Action) -> Result<Event, Result<(bool, Checksum), FixError>> {
        Ok(match action {
            Action::StatSource => Event::Stat(meta(0o100640, self.source.len() as u64)),
            Action::StatTarget => Event::Stat(meta(
                if self.target_is_device { 0o060660 } else { 0o100640 },
                0,
            )),
            Action::OpenTarget(request) => {
                self.opened.push(request);
                if let Some(e) = self.open_failure.take() {
                    return Ok(Event::Failed(e));
                }
                if self.target.is_none() {
                    assert!(request.create);
                    self.target = Some(Vec::new());
                }
                self.source_pos = 0;
                self.target_pos = 0;
                Event::Done
            }
            Action::ReadSource { max } => {
                assert_eq!(max, BLOCK_SIZE);
                Event::Data(Files::read(
                    &self.source,
                    &mut self.source_pos,
                    max,
                    self.source_chunk,
                ))
            }
            Action::ReadTarget { max } => {
                assert!(max >= 1);
                Event::Data(Files::read(
                    self.target.as_ref().unwrap(),
                    &mut self.target_pos,
                    max,
                    self.chunk,
                ))
            }
            Action::AppendTarget { data } => {
                self.write(self.target_pos, &data);
                Event::Done
            }
            Action::WriteTarget { offset, data } => {
                if self.source_chunk == BLOCK_SIZE {
                    assert_eq!(offset % BLOCK_SIZE as u64, 0);
                }
                self.write(offset as usize, &data);
                Event::Done
            }
            Action::TruncateTarget { len } => {
                assert!(!self.target_is_device);
                self.target.as_mut().unwrap().truncate(len as usize);
                self.truncations += 1;
                Event::Done
            }
            Action::RemoveTarget => {
                self.recopies += 1;
                self.target = None;
                self.target_is_device = false;
                Event::Done
            }
            Action::Finish { changed, checksum } => return Err(Ok((changed, checksum))),
            Action::Fail(e) => return Err(Err(e)),
        })
    }

    fn copy(&mut self) -> Result<Checksum, FixError> {
        let (mut machine, mut action) = FileCopy::new();
        loop {
            match self.answer(action) {
                Ok(event) => action = machine.step(event),
                Err(end) => return end.map(|(_, checksum)| checksum),
            }
        }
    }

    fn fix(&mut self, slot: &mut Option<Checksum>) -> Result<bool, FixError> {
        let (mut machine, mut action) = FileFix::new(*slot);
        loop {
            match self.answer(action) {
                Ok(event) => action = machine.step(event),
                Err(end) => {
                    return end.map(|(changed, checksum)| {
                        assert_eq!(machine.checksum(), Some(checksum));
                        *slot = Some(checksum);
                        changed
                    })
                }
            }
        }
    }
}

fn pattern(len: usize) -> Vec<u8> {
    (0..len).map(|i| (i * 7 + i / 256) as u8).collect()
}

#[test]
fn copy_of_an_empty_file() {
    // the source is the empty file, the destination does not exist
    let mut files = Files::new(Vec::new(), None);
    let checksum = files.copy().unwrap();
    assert_eq!(files.target, Some(Vec::new()));
    assert_eq!(checksum, crc(b""));
    assert_eq!(checksum.to_u64(), 0);
    assert_eq!(files.writes, 0);
    // it is created with the permission bits of the source
    assert_eq!(files.opened.len(), 1);
    assert!(files.opened[0].create && files.opened[0].write);
    assert_eq!(files.opened[0].mode, Some(0o640));
    // the first round finds nothing to fix
    let mut slot = Some(checksum);
    assert_eq!(files.fix(&mut slot), Ok(false));
    assert_eq!(files.truncations, 0);
}

#[test]
fn copy_writes_every_block() {
    let mut files = Files::new(pattern(10_000), None);
    let checksum = files.copy().unwrap();
    assert_eq!(files.target.as_ref().unwrap(), &pattern(10_000));
    assert_eq!(checksum, crc(&pattern(10_000)));
    assert_eq!(files.writes, 3);
    // short reads change nothing but the number of writes
    let mut files = Files::new(pattern(10_000), None);
    files.source_chunk = 1000;
    assert_eq!(files.copy(), Ok(checksum));
    assert_eq!(files.target.as_ref().unwrap(), &pattern(10_000));
    assert_eq!(files.writes, 10);
}

#[test]
fn fix_rewrites_a_wrong_copy() {
    // 10 000 bytes of 0xAA against 10 000 bytes of 0x55
    let mut files = Files::new(vec![0xAA; 10_000], Some(vec![0x55; 10_000]));
    let mut slot = None;
    assert_eq!(files.fix(&mut slot), Ok(true));
    assert_eq!(files.target, Some(vec![0xAA; 10_000]));
    assert_eq!(slot, Some(crc(&vec![0xAA; 10_000])));
    assert_eq!(files.writes, 3);
    assert_eq!(files.truncations, 0);
    // it is opened for reading and writing, and not followed
    let request = files.opened[0];
    assert!(request.read && request.write && request.no_follow);
    assert!(!request.create && !request.append && !request.direct);
    assert_eq!(request.mode, None);
    // round 1 reports a change, round 2 none
    files.writes = 0;
    assert_eq!(files.fix(&mut slot), Ok(false));
    assert_eq!(files.writes, 0);
    assert_eq!(files.truncations, 0);
    assert_eq!(files.target, Some(vec![0xAA; 10_000]));
}

#[test]
fn fix_truncates_a_longer_copy() {
    // one full block plus one byte; the copy has garbage after that
    let source = pattern(4097);
    let mut target = source.clone();
    target.resize(8192, 0xEE);
    let mut files = Files::new(source.clone(), Some(target));
    let mut slot = None;
    assert_eq!(files.fix(&mut slot), Ok(true));
    assert_eq!(files.target, Some(source.clone()));
    assert_eq!(files.truncations, 1);
    assert_eq!(files.writes, 0);
    assert_eq!(slot, Some(crc(&source)));
    assert_eq!(files.fix(&mut slot), Ok(false));
    assert_eq!(files.truncations, 1);
}

#[test]
fn fix_appends_to_a_shorter_copy() {
    let source = pattern(9000);
    for have in [0usize, 1, 4095, 4096, 4097, 8999] {
        let mut files = Files::new(source.clone(), Some(source[..have].to_vec()));
        let mut slot = Some(crc(&source));
        assert_eq!(files.fix(&mut slot), Ok(true));
        assert_eq!(files.target, Some(source.clone()));
        assert_eq!(files.truncations, 0);
        assert_eq!(files.fix(&mut slot), Ok(false));
    }
}

#[test]
fn fix_patches_only_the_blocks_that_differ() {
    let source = pattern(3 * 4096 + 5);
    let mut target = source.clone();
    target[4096 + 17] ^= 1;
    let mut files = Files::new(source.clone(), Some(target));
    files.chunk = 1500;
    let mut slot = None;
    assert_eq!(files.fix(&mut slot), Ok(true));
    assert_eq!(files.writes, 1);
    assert_eq!(files.target, Some(source.clone()));
    assert_eq!(slot, Some(crc(&source)));
    // the source may be read in pieces too
    let mut target = source.clone();
    target[4096 + 17] ^= 1;
    let mut files = Files::new(source.clone(), Some(target));
    files.source_chunk = 1000;
    files.chunk = 300;
    assert_eq!(files.fix(&mut slot), Ok(true));
    assert_eq!(files.writes, 1);
    assert_eq!(files.target, Some(source.clone()));
    let mut files = Files::new(source.clone(), Some(source.clone()));
    let mut target = source.clone();
    target[2 * 4096] ^= 0x80;
    files.target = Some(target);
    assert_eq!(files.fix(&mut slot), Ok(true));
    assert_eq!(files.writes, 1);
    assert_eq!(files.target, Some(source));
}

#[test]
fn fix_does_not_truncate_a_device() {
    // a 10 000-byte file onto a device of 16 384 bytes
    let source = pattern(10_000);
    let mut files = Files::new(source.clone(), Some(vec![0x11; 16_384]));
    files.target_is_device = true;
    let mut slot = None;
    assert_eq!(files.fix(&mut slot), Ok(true));
    let target = files.target.clone().unwrap();
    assert_eq!(target.len(), 16_384);
    assert_eq!(&target[..10_000], &source[..]);
    assert_eq!(&target[10_000..], &[0x11u8; 6_384][..]);
    assert_eq!(files.truncations, 0);
    assert_eq!(slot, Some(crc(&source)));
    assert_eq!(files.fix(&mut slot), Ok(false));
    assert_eq!(files.target.as_ref().unwrap().len(), 16_384);
}

#[test]
fn fix_detects_corruption_between_rounds() {
    let source = pattern(20_000);
    let mut files = Files::new(source.clone(), None);
    let mut slot = Some(files.copy().unwrap());
    assert_eq!(files.fix(&mut slot), Ok(false));
    // something else writes to the destination while the caches are dropped
    files.target.as_mut().unwrap()[12_345] ^= 0xFF;
    files.writes = 0;
    assert_eq!(files.fix(&mut slot), Ok(true));
    assert_eq!(files.writes, 1);
    assert_eq!(files.target, Some(source));
    assert_eq!(files.fix(&mut slot), Ok(false));
}

#[test]
fn fix_tells_a_changed_source() {
    let mut files = Files::new(pattern(5000), Some(pattern(5000)));
    let recorded = crc(&pattern(4999));
    let mut slot = Some(recorded);
    assert_eq!(
        files.fix(&mut slot),
        Err(FixError::SourceChanged(ChecksumMismatch {
            recorded,
            computed: crc(&pattern(5000))
        }))
    );
    assert_eq!(slot, Some(recorded));
}

#[test]
fn fix_recopies_what_is_no_file() {
    for errno in [libc::EISDIR, libc::ELOOP] {
        let source = pattern(5000);
        let mut files = Files::new(source.clone(), Some(b"whatever was there".to_vec()));
        files.open_failure = Some(IoError::from_raw_os_error(ErrorKind::Other, Some(errno)));
        let mut slot = None;
        assert_eq!(files.fix(&mut slot), Ok(true));
        assert_eq!(files.recopies, 1);
        assert_eq!(files.target, Some(source.clone()));
        assert_eq!(slot, Some(crc(&source)));
        // the fresh copy is created with the permission bits of the source
        assert_eq!(files.opened.len(), 2);
        assert!(files.opened[1].create && files.opened[1].write && !files.opened[1].no_follow);
        assert_eq!(files.opened[1].mode, Some(0o640));
    }
    // any other failure to open is passed on
    let denied = IoError::from_raw_os_error(ErrorKind::Other, Some(libc::EACCES));
    let mut files = Files::new(pattern(10), Some(pattern(10)));
    files.open_failure = Some(denied);
    let mut slot = None;
    assert_eq!(files.fix(&mut slot), Err(FixError::Io(denied)));
    assert_eq!(files.recopies, 0);
    assert_eq!(slot, None);
}

#[test]
fn errno_is_told_by_the_system() {
    let e = IoError::from_raw_os_error(ErrorKind::Other, Some(libc::EISDIR));
    assert_eq!(e.errno, Some(Errno::EISDIR));
    assert!(e.is(Errno::EISDIR) && !e.is(Errno::ELOOP));
    let e = IoError::from_raw_os_error(ErrorKind::Other, Some(libc::ELOOP));
    assert_eq!(e.errno, Some(Errno::ELOOP));
    let e = IoError::from_raw_os_error(ErrorKind::Other, Some(libc::EINVAL));
    assert_eq!(e.errno, Some(Errno::EINVAL));
    let e = IoError::from_raw_os_error(ErrorKind::Other, Some(libc::ENOTDIR));
    assert_eq!(e.errno, Some(Errno::ENOTDIR));
    let e = IoError::from_raw_os_error(ErrorKind::NotFound, Some(libc::ENOENT));
    assert_eq!(e.errno, Some(Errno::Other));
    assert_eq!(e.kind, ErrorKind::NotFound);
    let e = IoError::from_raw_os_error(ErrorKind::Other, None);
    assert_eq!(e.errno, None);
    assert!(!e.is(Errno::Other));
}

#[test]
fn machines_refuse_what_answers_nothing() {
    let (mut machine, action) = FileFix::new(None);
    assert!(matches!(action, Action::OpenTarget(_)));
    assert!(matches!(
        machine.step(Event::Data(Vec::new())),
        Action::Fail(FixError::Protocol)
    ));
    // and stay where they ended
    assert!(matches!(machine.step(Event::Done), Action::Fail(FixError::Protocol)));
    let (mut machine, _) = FileFix::new(None);
    assert!(matches!(machine.step(Event::Done), Action::ReadSource { max: 4096 }));
    assert!(matches!(
        machine.step(Event::Data(vec![0; 4097])),
        Action::Fail(FixError::Protocol)
    ));
    let (mut machine, _) = FileFix::new(None);
    machine.step(Event::Done);
    assert!(matches!(
        machine.step(Event::Data(vec![1; 10])),
        Action::ReadTarget { max: 10 }
    ));
    assert!(matches!(
        machine.step(Event::Data(vec![1; 4])),
        Action::ReadTarget { max: 6 }
    ));
    assert!(matches!(
        machine.step(Event::Data(vec![1; 7])),
        Action::Fail(FixError::Protocol)
    ));
    let (mut machine, action) = FileCopy::new();
    assert!(matches!(action, Action::StatSource));
    assert!(matches!(machine.step(Event::Done), Action::Fail(FixError::Protocol)));
    let (mut machine, _) = FileCopy::new();
    let failed = IoError::from_raw_os_error(ErrorKind::Other, None);
    assert!(matches!(
        machine.step(Event::Failed(failed)),
        Action::Fail(FixError::Io(_))
    ));
    // a copy that is done stays done
    let (mut machine, _) = FileCopy::new();
    machine.step(Event::Stat(meta(0o100600, 0)));
    machine.step(Event::Done);
    assert!(matches!(
        machine.step(Event::Data(Vec::new())),
        Action::Finish { changed: true, .. }
    ));
    assert!(matches!(
        machine.step(Event::Data(vec![1])),
        Action::Finish { changed: true, .. }
    ));
}

#[test]
fn kinds_of_files() {
    assert_eq!(FileKind::of_metadata(&meta(0o100644, 1)), FileKind::Regular);
    assert_eq!(FileKind::of_metadata(&meta(0o040755, 1)), FileKind::Directory);
    assert_eq!(FileKind::of_metadata(&meta(0o120777, 1)), FileKind::Symlink);
    assert_eq!(FileKind::of_metadata(&meta(0o060660, 1)), FileKind::Device);
    // character devices, pipes and sockets are not handled
    assert_eq!(FileKind::of_metadata(&meta(0o020660, 1)), FileKind::Other);
    assert_eq!(FileKind::of_metadata(&meta(0o010644, 1)), FileKind::Other);
    assert_eq!(FileKind::of_metadata(&meta(0o140755, 1)), FileKind::Other);
    assert_eq!(FileKind::of_metadata(&meta(0, 1)), FileKind::Other);
    // set-user-id and sticky bits do not matter
    assert_eq!(FileKind::of_metadata(&meta(0o107777, 1)), FileKind::Regular);
    assert_eq!(copy_size(&meta(0o100644, 5000)), 5000);
    assert_eq!(copy_size(&meta(0o060660, 1 << 40)), 1 << 40);
    assert_eq!(copy_size(&meta(0o040755, 4096)), 0);
    assert_eq!(copy_size(&meta(0o120777, 8)), 0);
    assert_eq!(copy_size(&meta(0o020660, 8)), 0);
}

#[test]
fn kernels_by_kind() {
    assert_eq!(copy_path(FileKind::Regular), Ok(Kernel::File));
    assert_eq!(copy_path(FileKind::Device), Ok(Kernel::File));
    assert_eq!(copy_path(FileKind::Directory), Ok(Kernel::Directory));
    assert_eq!(copy_path(FileKind::Symlink), Ok(Kernel::Symlink));
    assert_eq!(copy_path(FileKind::Other), Err(FixError::UnknownKind));
    assert_eq!(fix_path(FileKind::Regular), Ok(Kernel::File));
    assert_eq!(fix_path(FileKind::Device), Ok(Kernel::File));
    assert_eq!(fix_path(FileKind::Directory), Ok(Kernel::Directory));
    assert_eq!(fix_path(FileKind::Symlink), Ok(Kernel::Symlink));
    assert_eq!(fix_path(FileKind::Other), Err(FixError::UnknownKind));
    assert_eq!(checksum_path(FileKind::Regular), Ok(Kernel::File));
    assert_eq!(checksum_path(FileKind::Directory), Ok(Kernel::Directory));
    assert_eq!(checksum_path(FileKind::Symlink), Ok(Kernel::Symlink));
    assert_eq!(checksum_path(FileKind::Device), Err(FixError::DeviceChecksum));
    assert_eq!(checksum_path(FileKind::Other), Err(FixError::UnknownKind));
}

#[test]
fn existence_and_uniqueness() {
    let missing = IoError::from_raw_os_error(ErrorKind::NotFound, Some(libc::ENOENT));
    let denied = IoError::from_raw_os_error(ErrorKind::Other, Some(libc::EACCES));
    assert_eq!(path_exists(&Ok(meta(0o120777, 0))), Ok(true));
    assert_eq!(path_exists(&Err(missing)), Ok(false));
    assert_eq!(path_exists(&Err(denied)), Err(denied));
    assert!(matches!(get_unique(Vec::<u8>::new()), Unique::Zero));
    assert!(matches!(get_unique(vec![5u8]), Unique::One(5)));
    assert!(matches!(get_unique(vec![5u8, 5]), Unique::Several));
    assert!(matches!(get_unique(vec![1u8, 2, 3]), Unique::Several));
}
