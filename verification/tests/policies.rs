use cccp::cache::directio::DirectIOCacheManager;
use cccp::cache::directio::Probe;
use cccp::cache::umount::replacement_for;
use cccp::cache::umount::UmountCacheManager;
use cccp::cache::usbreset::DropAction;
use cccp::cache::usbreset::DropEvent;
use cccp::cache::usbreset::UsbResetCacheManager;
use cccp::cache::vm::global_drop_cache;
use cccp::cache::vm::PageCacheManager;
use cccp::cache::vm::Sync;
use cccp::cache::CacheError;
use cccp::cache::CacheManager;
use cccp::cache::OpenRequest;
use cccp::path::Component;
use cccp::path::FsPath;
use cccp::udev::ensure_mounted;
use cccp::udev::get_mountpoint_in;
use cccp::udev::get_udisk_blockdev_by_drive_and_size;
use cccp::udev::get_udisk_blockdev_by_uuid;
use cccp::udev::get_udisk_blockdev_for;
use cccp::udev::leftpad;
use cccp::udev::reset_usb_hub;
use cccp::udev::udisk_drives_for;
use cccp::udev::underlying_device;
use cccp::udev::underlying_device_number;
use cccp::udev::usb_hub_for;
use cccp::udev::Block;
use cccp::udev::Device;
use cccp::udev::DeviceNumber;
use cccp::udev::Drive;
use cccp::udev::MountOutcome;
use cccp::udev::UdevError;
use cccp::utils::ErrorKind;
use cccp::utils::FileKind;
use cccp::utils::IoError;
use cccp::utils::Metadata;
use cccp::utils::Unique;

fn path(s: &str) -> FsPath {
    let mut components = Vec::new();
    if s.starts_with('/') {
        components.push(Component::RootDir);
    }
    for name in s.split('/') {
        if !name.is_empty() {
            components.push(Component::Normal(name.as_bytes().to_vec()));
        }
    }
    FsPath::from_components(&components)
}

fn request() -> OpenRequest {
    let mut request = OpenRequest::new();
    request.read = true;
    request.no_follow = true;
    request
}

fn meta(mode: u32) -> Metadata {
    Metadata {
        mode,
        size: 3,
        dev: 0x0801,
        rdev: 0x0811,
    }
}

fn block(name: &str, drive: &str, size: u64, uuid: Option<&str>, mounts: &[&str]) -> Block {
    Block {
        path: format!("/org/freedesktop/UDisks2/block_devices/{}", name),
        device: path(&format!("/dev/{}", name)),
        preferred_device: path(&format!("/dev/{}", name)),
        symlinks: vec![path(&format!("/dev/disk/by-id/{}", name))],
        mount_points: mounts.iter().map(|m| path(m)).collect(),
        id_uuid: uuid.map(|u| u.to_string()),
        drive: drive.to_string(),
        size,
        has_fs: uuid.is_some(),
    }
}

fn drive(name: &str, sibling_id: &str, ejectable: bool) -> Drive {
    Drive {
        path: name.to_string(),
        id: format!("id-{}", name),
        sibling_id: sibling_id.to_string(),
        ejectable,
    }
}

fn device(node: Option<&str>, subsystem: &str, driver: Option<&str>) -> Device {
    Device {
        syspath: path("/sys/devices/x"),
        devnode: node.map(path),
        subsystem: Some(subsystem.as_bytes().to_vec()),
        driver: driver.map(|d| d.as_bytes().to_vec()),
        busnum: None,
        devnum: None,
    }
}

fn hub(busnum: &str, devnum: &str) -> Device {
    Device {
        syspath: path("/sys/devices/pci/usb1/1-2"),
        devnode: Some(path("/dev/bus/usb/001/002")),
        subsystem: Some(b"usb".to_vec()),
        driver: Some(b"usb".to_vec()),
        busnum: Some(busnum.as_bytes().to_vec()),
        devnum: Some(devnum.as_bytes().to_vec()),
    }
}

fn all_blocks() -> Vec<Block> {
    vec![
        block("sda1", "drive-a", 100, Some("uuid-a"), &["/"]),
        block("sdb", "drive-b", 8000, None, &[]),
        block("sdb1", "drive-b", 4000, Some("uuid-b"), &["/boot/efi", "/media/stick"]),
        block("sdc1", "drive-c", 4000, Some("uuid-c"), &["/media/other"]),
    ]
}

fn all_drives() -> Vec<Drive> {
    vec![
        drive("drive-a", "", false),
        drive("drive-b", "enclosure", true),
        drive("drive-c", "enclosure", true),
        drive("drive-d", "", true),
    ]
}

fn ancestors() -> Vec<Device> {
    vec![
        device(None, "scsi", Some("sd")),
        device(None, "usb", Some("usb-storage")),
        hub("1", "12"),
        hub("1", "1"),
    ]
}

#[test]
fn test_leftpad() {
    assert_eq!(leftpad(b"").map_err(|_| ()), Ok(b"000".to_vec()));
    assert_eq!(leftpad(b"1").map_err(|_| ()), Ok(b"001".to_vec()));
    assert_eq!(leftpad(b"12").map_err(|_| ()), Ok(b"012".to_vec()));
    assert_eq!(leftpad(b"123").map_err(|_| ()), Ok(b"123".to_vec()));
    assert!(leftpad(b"1234").is_err());
}

#[test]
fn usb_device_file_is_named_by_bus_and_number() {
    let plan = reset_usb_hub(&hub("1", "12"), true).unwrap();
    assert_eq!(plan.device_file, path("/dev/bus/usb/001/012"));
    assert!(!plan.reset);
    let plan = reset_usb_hub(&hub("123", "7"), false).unwrap();
    assert_eq!(plan.device_file, path("/dev/bus/usb/123/007"));
    assert!(plan.reset);
    assert_eq!(reset_usb_hub(&hub("1234", "7"), false).err(), Some(UdevError::TooManyDigits));
    assert_eq!(reset_usb_hub(&hub("1", "7000"), false).err(), Some(UdevError::TooManyDigits));
    let mut unnumbered = hub("1", "2");
    unnumbered.devnum = None;
    assert_eq!(reset_usb_hub(&unnumbered, true).err(), Some(UdevError::NoBusAddress));
}

#[test]
fn block_devices_are_listed_by_number() {
    assert_eq!(underlying_device(0x0801), path("/sys/dev/block/8:1"));
    assert_eq!(underlying_device(0), path("/sys/dev/block/0:0"));
    assert_eq!(
        underlying_device(libc::makedev(259, 1048575)),
        path("/sys/dev/block/259:1048575")
    );
    assert_eq!(
        underlying_device(libc::makedev(4095, 255)),
        path("/sys/dev/block/4095:255")
    );
    assert_eq!(
        underlying_device(u64::MAX),
        path("/sys/dev/block/4294967295:4294967295")
    );
    assert_eq!(underlying_device_number(&Ok(meta(0o100644)), true), DeviceNumber::Known(0x0801));
    assert_eq!(underlying_device_number(&Ok(meta(0o060660)), true), DeviceNumber::Known(0x0811));
    let missing = IoError::from_raw_os_error(ErrorKind::NotFound, None);
    let denied = IoError::from_raw_os_error(ErrorKind::Other, None);
    assert_eq!(underlying_device_number(&Err(missing), true), DeviceNumber::ProbeParent);
    assert_eq!(underlying_device_number(&Err(missing), false), DeviceNumber::Failed(missing));
    assert_eq!(underlying_device_number(&Err(denied), true), DeviceNumber::Failed(denied));
}

#[test]
fn block_devices_are_found() {
    let blocks = all_blocks();
    let found = get_udisk_blockdev_for(&blocks, &device(Some("/dev/sdb1"), "block", None)).unwrap();
    assert_eq!(found.drive, "drive-b");
    assert_eq!(found.size, 4000);
    let found =
        get_udisk_blockdev_for(&blocks, &device(Some("/dev/disk/by-id/sdc1"), "block", None));
    assert_eq!(found.unwrap().id_uuid, Some("uuid-c".to_string()));
    assert_eq!(
        get_udisk_blockdev_for(&blocks, &device(Some("/dev/sdz"), "block", None)).err(),
        Some(UdevError::UnknownDevice)
    );
    assert_eq!(
        get_udisk_blockdev_for(&blocks, &device(None, "block", None)).err(),
        Some(UdevError::NoDeviceNode)
    );
    assert!(matches!(
        get_udisk_blockdev_by_uuid(&blocks, &"uuid-b".to_string()),
        Unique::One(b) if b.size == 4000 && b.drive == "drive-b"
    ));
    assert!(matches!(
        get_udisk_blockdev_by_uuid(&blocks, &"uuid-z".to_string()),
        Unique::Zero
    ));
    let mut twice = all_blocks();
    twice.push(block("sdd1", "drive-d", 1, Some("uuid-b"), &[]));
    assert!(matches!(
        get_udisk_blockdev_by_uuid(&twice, &"uuid-b".to_string()),
        Unique::Several
    ));
    assert!(matches!(
        get_udisk_blockdev_by_drive_and_size(&blocks, &"drive-b".to_string(), 8000),
        Unique::One(b) if b.id_uuid.is_none()
    ));
    assert!(matches!(
        get_udisk_blockdev_by_drive_and_size(&blocks, &"drive-b".to_string(), 8001),
        Unique::Zero
    ));
    assert!(matches!(
        get_udisk_blockdev_by_drive_and_size(&blocks, &"drive-c".to_string(), 8000),
        Unique::Zero
    ));
}

#[test]
fn mount_points_drives_and_hubs() {
    let blocks = all_blocks();
    assert_eq!(
        get_mountpoint_in(&blocks[2], &path("/media/stick/dir/file")),
        Some(path("/media/stick"))
    );
    assert_eq!(get_mountpoint_in(&blocks[2], &path("/media/stick")), Some(path("/media/stick")));
    assert_eq!(get_mountpoint_in(&blocks[2], &path("/media/sticky/x")), None);
    assert_eq!(get_mountpoint_in(&blocks[1], &path("/media/stick")), None);
    assert_eq!(get_mountpoint_in(&blocks[0], &path("/anything")), Some(path("/")));
    let drives = all_drives();
    let group = udisk_drives_for(&drives, &blocks[2]).unwrap();
    assert_eq!(group.len(), 2);
    assert_eq!(group[0].path, "drive-b");
    assert_eq!(group[1].path, "drive-c");
    let group = udisk_drives_for(&drives, &blocks[0]).unwrap();
    assert_eq!(group.len(), 1);
    assert_eq!(group[0].path, "drive-a");
    assert_eq!(
        udisk_drives_for(&drives, &block("sdx", "drive-x", 1, None, &[])).err(),
        Some(UdevError::NoDrive)
    );
    let found = usb_hub_for(&ancestors()).unwrap();
    assert_eq!(found.devnum, Some(b"12".to_vec()));
    assert_eq!(usb_hub_for(&ancestors()[..2].to_vec()).err(), Some(UdevError::NotOnUsb));
    assert_eq!(usb_hub_for(&Vec::new()).err(), Some(UdevError::NotOnUsb));
    assert_eq!(
        ensure_mounted(MountOutcome::Mounted(path("/media/a")), None),
        Ok(path("/media/a"))
    );
    assert_eq!(ensure_mounted(MountOutcome::Failed, Some(&blocks[2])), Err(UdevError::MountFailed));
    assert_eq!(
        ensure_mounted(MountOutcome::AlreadyMounted, Some(&blocks[2])),
        Ok(path("/boot/efi"))
    );
    assert_eq!(
        ensure_mounted(MountOutcome::AlreadyMounted, Some(&blocks[1])),
        Err(UdevError::NoMountPoint)
    );
    assert_eq!(ensure_mounted(MountOutcome::AlreadyMounted, None), Err(UdevError::Disappeared));
}

#[test]
fn page_cache_policy() {
    let mut manager = PageCacheManager::default();
    assert_eq!(manager.name(), "PageCacheManager");
    assert_eq!(manager.open_no_cache(request()), Err(CacheError::NotReady));
    assert!(matches!(
        manager.drop_cache(&path("/t"), FileKind::Regular, true),
        Err(CacheError::NotReady)
    ));
    assert_eq!(manager.permission_check(false, false), Err(CacheError::NeedsRoot));
    assert_eq!(manager.open_no_cache(request()), Err(CacheError::NotReady));
    assert_eq!(manager.permission_check(false, true), Ok(()));
    assert_eq!(manager.open_no_cache(request()), Ok(request()));
    assert_eq!(manager.permission_check(false, false), Err(CacheError::NeedsRoot));
    assert_eq!(manager.open_no_cache(request()), Ok(request()));
    let mut manager = PageCacheManager::default();
    assert_eq!(manager.permission_check(true, false), Ok(()));
    let plan = manager.drop_cache(&path("/t/x"), FileKind::Regular, false).unwrap();
    assert!(matches!(plan.sync, Sync::FileSystem) && plan.drop_caches);
    let plan = manager.drop_cache(&path("/t/x"), FileKind::Directory, true).unwrap();
    assert!(matches!(plan.sync, Sync::FileSystem) && !plan.drop_caches);
    let plan = manager.drop_cache(&path("/dev/sdb"), FileKind::Device, false).unwrap();
    assert!(matches!(plan.sync, Sync::Device));
    let plan = manager.drop_cache(&path("/t/link"), FileKind::Symlink, false).unwrap();
    assert!(matches!(plan.sync, Sync::Ascend(parent) if parent == path("/t")));
    assert!(matches!(
        manager.drop_cache(&path("/t/pipe"), FileKind::Other, false),
        Err(CacheError::WrongFileType)
    ));
    assert!(matches!(
        global_drop_cache(&path("/"), FileKind::Symlink),
        Err(CacheError::NoParent)
    ));
    assert!(matches!(
        global_drop_cache(&path(""), FileKind::Symlink),
        Err(CacheError::NoParent)
    ));
    assert!(matches!(
        global_drop_cache(&path("link"), FileKind::Symlink),
        Ok(Sync::Ascend(parent)) if parent == path("")
    ));
}

#[test]
fn direct_io_policy() {
    let missing = IoError::from_raw_os_error(ErrorKind::NotFound, Some(libc::ENOENT));
    let denied = IoError::from_raw_os_error(ErrorKind::Other, Some(libc::EACCES));
    let refused = IoError::from_raw_os_error(ErrorKind::Other, Some(libc::EINVAL));
    assert_eq!(DirectIOCacheManager::probe_plan(&Ok(meta(0o100644))), Ok(Probe::Existing));
    assert_eq!(DirectIOCacheManager::probe_plan(&Ok(meta(0o060644))), Ok(Probe::Existing));
    assert_eq!(DirectIOCacheManager::probe_plan(&Ok(meta(0o040755))), Ok(Probe::InDirectory));
    assert_eq!(DirectIOCacheManager::probe_plan(&Ok(meta(0o120777))), Ok(Probe::Nothing));
    assert_eq!(DirectIOCacheManager::probe_plan(&Ok(meta(0o020644))), Ok(Probe::Nothing));
    assert_eq!(DirectIOCacheManager::probe_plan(&Err(missing)), Ok(Probe::Created));
    assert_eq!(DirectIOCacheManager::probe_plan(&Err(denied)), Err(CacheError::Io(denied)));
    let trial = DirectIOCacheManager::test_request(Probe::Existing);
    assert!(trial.append && trial.direct && !trial.create && !trial.read && !trial.write);
    assert!(DirectIOCacheManager::test_request(Probe::Created).create);
    assert!(DirectIOCacheManager::test_request(Probe::InDirectory).create);
    assert_eq!(DirectIOCacheManager::test_path(&path("/t/.tmp123")), path("/t/.tmp123/test"));
    assert_eq!(DirectIOCacheManager::test_file(&Ok(())), Ok(()));
    assert_eq!(
        DirectIOCacheManager::test_file(&Err(refused)),
        Err(CacheError::DirectIoUnsupported)
    );
    assert_eq!(DirectIOCacheManager::test_file(&Err(denied)), Err(CacheError::Io(denied)));

    let mut manager = DirectIOCacheManager::default();
    assert_eq!(manager.name(), "DirectIOCacheManager");
    assert_eq!(manager.open_no_cache(request()), Err(CacheError::NotReady));
    assert!(matches!(manager.drop_cache(), Err(CacheError::NotReady)));
    assert_eq!(
        manager.permission_check(Probe::Existing, &Err(refused), &Ok(())),
        Err(CacheError::DirectIoUnsupported)
    );
    assert_eq!(manager.open_no_cache(request()), Err(CacheError::NotReady));
    // a removal that failed counts before the trial
    assert_eq!(
        manager.permission_check(Probe::Created, &Err(refused), &Err(denied)),
        Err(CacheError::Io(denied))
    );
    assert_eq!(
        manager.permission_check(Probe::Created, &Err(refused), &Err(missing)),
        Err(CacheError::DirectIoUnsupported)
    );
    assert_eq!(
        manager.permission_check(Probe::InDirectory, &Ok(()), &Err(missing)),
        Err(CacheError::Io(missing))
    );
    assert_eq!(manager.permission_check(Probe::Created, &Ok(()), &Err(missing)), Ok(()));
    let opened = manager.open_no_cache(request()).unwrap();
    assert!(opened.direct && opened.read && opened.no_follow && !opened.write);
    assert!(matches!(manager.drop_cache(), Ok(None)));
    let mut manager = DirectIOCacheManager::default();
    assert_eq!(manager.permission_check(Probe::Nothing, &Err(refused), &Err(denied)), Ok(()));
    assert!(manager.open_no_cache(request()).is_ok());
}

#[test]
fn umount_policy() {
    let blocks = all_blocks();
    let dev = device(Some("/dev/sdb1"), "block", None);
    let target = path("/media/stick/copy");
    let mut manager = UmountCacheManager::default();
    assert_eq!(manager.name(), "UmountCacheManager");
    assert_eq!(manager.open_no_cache(request()), Err(CacheError::NotReady));
    assert!(matches!(manager.unmount_target(), Err(CacheError::NotReady)));
    assert!(matches!(
        manager.drop_cache(&target, &path("/media/stick"), None, &dev, &blocks),
        Err(CacheError::NotReady)
    ));
    assert_eq!(
        manager.permission_check(&path("/dev/sdb1"), Some(FileKind::Device), &dev, &blocks),
        Err(CacheError::IsBlockDevice)
    );
    assert_eq!(
        manager.permission_check(&target, None, &device(Some("/dev/sdb"), "block", None), &blocks),
        Err(CacheError::NoFileSystem)
    );
    assert_eq!(
        manager.permission_check(&path("/home/x"), None, &dev, &blocks),
        Err(CacheError::NotMountedThere)
    );
    assert_eq!(
        manager.permission_check(&target, None, &device(Some("/dev/sdq"), "block", None), &blocks),
        Err(CacheError::Udev(UdevError::UnknownDevice))
    );
    assert_eq!(manager.open_no_cache(request()), Err(CacheError::NotReady));
    assert_eq!(manager.permission_check(&target, Some(FileKind::Directory), &dev, &blocks), Ok(()));
    assert_eq!(manager.open_no_cache(request()), Ok(request()));
    assert_eq!(manager.unmount_target().unwrap().drive, "drive-b");
    // mounted again at the same place: nothing moved
    assert_eq!(
        manager.remounted_path(&target, &path("/media/stick")),
        Ok(path("/media/stick/copy"))
    );
    let res = manager.drop_cache(&target, &path("/media/stick"), None, &dev, &blocks);
    assert!(matches!(res, Ok(None)));
    // mounted again elsewhere
    let mut moved = all_blocks();
    moved[2].mount_points = vec![path("/media/stick1")];
    assert_eq!(
        manager.remounted_path(&target, &path("/media/stick1")),
        Ok(path("/media/stick1/copy"))
    );
    let res = manager.drop_cache(&target, &path("/media/stick1"), None, &dev, &moved).unwrap();
    let replacement = res.unwrap();
    assert_eq!(replacement.before, path("/media/stick"));
    assert_eq!(replacement.after, path("/media/stick1"));
    // the new mount point is remembered
    let res = manager.drop_cache(
        &path("/media/stick1/copy"),
        &path("/media/stick1"),
        None,
        &dev,
        &moved,
    );
    assert!(matches!(res, Ok(None)));
    // the check after the move fails: the file system is not where it was said to be
    let res = manager.drop_cache(&target, &path("/media/stick2"), None, &dev, &moved);
    assert!(matches!(res, Err(CacheError::NotMountedThere)));
    assert!(replacement_for(&path("/a"), &path("/a")).is_none());
}

fn ready_usb(target: &FsPath, kind: Option<FileKind>, node: &str) -> UsbResetCacheManager {
    let mut manager = UsbResetCacheManager::default();
    let rehearsal = manager
        .permission_check(
            true,
            target,
            kind,
            &device(Some(node), "block", None),
            &ancestors(),
            &all_blocks(),
            &all_drives(),
        )
        .unwrap();
    assert_eq!(rehearsal.device_file, path("/dev/bus/usb/001/012"));
    assert!(!rehearsal.reset);
    assert_eq!(manager.open_no_cache(request()), Err(CacheError::NotReady));
    assert_eq!(manager.confirm(Ok(())), Ok(()));
    manager
}

#[test]
fn usb_reset_policy_checks() {
    let target = path("/media/stick/copy");
    let dev = device(Some("/dev/sdb1"), "block", None);
    let mut manager = UsbResetCacheManager::default();
    assert_eq!(manager.name(), "UsbResetCacheManager");
    assert_eq!(manager.confirm(Ok(())), Err(CacheError::NotReady));
    let check = |manager: &mut UsbResetCacheManager,
                 is_root: bool,
                 target: &FsPath,
                 kind: Option<FileKind>,
                 dev: &Device,
                 ancestors: &Vec<Device>,
                 blocks: &Vec<Block>,
                 drives: &Vec<Drive>| {
        manager
            .permission_check(is_root, target, kind, dev, ancestors, blocks, drives)
            .err()
    };
    let (a, b, d) = (ancestors(), all_blocks(), all_drives());
    assert_eq!(check(&mut manager, false, &target, None, &dev, &a, &b, &d), Some(CacheError::NeedsRoot));
    assert_eq!(
        check(&mut manager, true, &target, None, &device(None, "block", None), &a, &b, &d),
        Some(CacheError::Udev(UdevError::NoDeviceNode))
    );
    assert_eq!(
        check(&mut manager, true, &target, None, &device(Some("/dev/sdb"), "block", None), &a, &b, &d),
        Some(CacheError::NoFileSystem)
    );
    assert_eq!(
        check(&mut manager, true, &path("/home"), None, &dev, &a, &b, &d),
        Some(CacheError::NotMountedThere)
    );
    let mut twice = all_blocks();
    twice.push(block("sdd1", "drive-d", 1, Some("uuid-b"), &[]));
    assert_eq!(
        check(&mut manager, true, &target, None, &dev, &a, &twice, &d),
        Some(CacheError::Ambiguous)
    );
    let mut twice = all_blocks();
    twice.push(block("sdb2", "drive-b", 8000, None, &[]));
    assert_eq!(
        check(
            &mut manager,
            true,
            &path("/dev/sdb"),
            Some(FileKind::Device),
            &device(Some("/dev/sdb"), "block", None),
            &a,
            &twice,
            &d
        ),
        Some(CacheError::Ambiguous)
    );
    let mut unnamed = all_blocks();
    unnamed[2].id_uuid = None;
    assert_eq!(
        check(&mut manager, true, &target, None, &dev, &a, &unnamed, &d),
        Some(CacheError::NoUuid)
    );
    let mut fixed = all_drives();
    fixed[2].ejectable = false;
    assert_eq!(
        check(&mut manager, true, &target, None, &dev, &a, &b, &fixed),
        Some(CacheError::NotEjectable)
    );
    assert_eq!(
        check(&mut manager, true, &target, None, &dev, &a, &b, &all_drives()[..1].to_vec()),
        Some(CacheError::Udev(UdevError::NoDrive))
    );
    assert_eq!(
        check(&mut manager, true, &target, None, &dev, &a[..2].to_vec(), &b, &d),
        Some(CacheError::Udev(UdevError::NotOnUsb))
    );
    let far = vec![hub("1000", "1")];
    assert_eq!(
        check(&mut manager, true, &target, None, &dev, &far, &b, &d),
        Some(CacheError::Udev(UdevError::TooManyDigits))
    );
    assert_eq!(manager.confirm(Ok(())), Err(CacheError::NotReady));
    // the rehearsal decides
    assert_eq!(check(&mut manager, true, &target, None, &dev, &a, &b, &d), None);
    let denied = IoError::from_raw_os_error(ErrorKind::Other, Some(libc::EACCES));
    assert_eq!(manager.confirm(Err(denied)), Err(CacheError::Io(denied)));
    assert!(matches!(manager.reset(), Err(CacheError::NotReady)));
    assert!(matches!(manager.drives(), Err(CacheError::NotReady)));
    assert!(matches!(manager.unmount_targets(&b), Err(CacheError::NotReady)));
    assert!(matches!(manager.await_device(1, &b), Err(CacheError::NotReady)));
    assert!(matches!(
        manager.reappeared(&target, &b[2], None),
        Err(CacheError::NotReady)
    ));
}

#[test]
fn usb_reset_policy_for_a_file_system() {
    let target = path("/media/stick/copy");
    let manager = ready_usb(&target, Some(FileKind::Regular), "/dev/sdb1");
    assert_eq!(manager.open_no_cache(request()), Ok(request()));
    // every mounted block device on the drives of the enclosure is unmounted
    let unmount = manager.unmount_targets(&all_blocks()).unwrap();
    assert_eq!(unmount.len(), 2);
    assert_eq!(unmount[0].device, path("/dev/sdb1"));
    assert_eq!(unmount[1].device, path("/dev/sdc1"));
    let eject = manager.drives().unwrap();
    assert_eq!(eject.len(), 2);
    let reset = manager.reset().unwrap();
    assert_eq!(reset.device_file, path("/dev/bus/usb/001/012"));
    assert!(reset.reset);
    // the device is awaited for a minute
    let gone = vec![all_blocks()[0].clone()];
    assert!(matches!(manager.await_device(1, &gone), Ok(None)));
    assert!(matches!(manager.await_device(59, &gone), Ok(None)));
    assert!(matches!(manager.await_device(60, &gone), Err(CacheError::TimedOut)));
    let found = manager.await_device(60, &all_blocks()).unwrap().unwrap();
    assert_eq!(found.device, path("/dev/sdb1"));
    let mut twice = all_blocks();
    twice.push(block("sdd1", "drive-d", 1, Some("uuid-b"), &[]));
    assert!(matches!(manager.await_device(1, &twice), Err(CacheError::Ambiguous)));
    // mounted where it was, or elsewhere
    assert!(matches!(
        manager.reappeared(&target, &found, Some(&path("/boot/efi"))),
        Ok(Some(_))
    ));
    assert!(matches!(
        manager.reappeared(&target, &found, Some(&path("/media/stick"))),
        Ok(None)
    ));
    let moved = manager
        .reappeared(&target, &found, Some(&path("/media/stick1")))
        .unwrap()
        .unwrap();
    assert_eq!(moved.before, path("/media/stick"));
    assert_eq!(moved.after, path("/media/stick1"));
    assert!(matches!(
        manager.reappeared(&target, &found, None),
        Err(CacheError::NotMountedThere)
    ));
}

#[test]
fn usb_reset_policy_for_a_device() {
    let target = path("/dev/sdb");
    let manager = ready_usb(&target, Some(FileKind::Device), "/dev/sdb");
    let found = manager.await_device(3, &all_blocks()).unwrap().unwrap();
    assert_eq!(found.size, 8000);
    assert!(matches!(manager.reappeared(&target, &found, None), Ok(None)));
    assert!(matches!(
        manager.reappeared(&path("/dev/disk/by-id/sdb"), &found, None),
        Ok(None)
    ));
    // it came back under another name
    let mut renamed = found.clone();
    renamed.device = path("/dev/sde");
    renamed.symlinks = Vec::new();
    let moved = manager.reappeared(&target, &renamed, None).unwrap().unwrap();
    assert_eq!(moved.before, path("/dev/sdb"));
    assert_eq!(moved.after, path("/dev/sde"));
    let mut gone = all_blocks();
    gone.remove(1);
    assert!(matches!(manager.await_device(2, &gone), Ok(None)));
    assert!(matches!(manager.await_device(61, &gone), Err(CacheError::TimedOut)));
}

#[test]
fn usb_reset_of_a_file_system() {
    let target = path("/media/stick/copy");
    let manager = ready_usb(&target, Some(FileKind::Regular), "/dev/sdb1");
    let (mut reset, action) = manager.drop_cache(&target).unwrap();
    assert!(matches!(action, DropAction::ListBlocks));
    // what is mounted on the drives of the enclosure is unmounted
    let action = reset.step(DropEvent::Blocks(all_blocks()));
    assert!(matches!(action, DropAction::Unmount(b) if b.device == path("/dev/sdb1")));
    let action = reset.step(DropEvent::Done);
    assert!(matches!(action, DropAction::Unmount(b) if b.device == path("/dev/sdc1")));
    // the drives are ejected
    let action = reset.step(DropEvent::Done);
    assert!(matches!(action, DropAction::Eject(d) if d.path == "drive-b"));
    let action = reset.step(DropEvent::Done);
    assert!(matches!(action, DropAction::Eject(d) if d.path == "drive-c"));
    // the hub is reset
    let action = reset.step(DropEvent::Done);
    assert!(matches!(
        action,
        DropAction::Reset(plan) if plan.reset && plan.device_file == path("/dev/bus/usb/001/012")
    ));
    assert!(matches!(reset.step(DropEvent::Done), DropAction::Refresh));
    // the file system is away for a while
    let gone = vec![all_blocks()[0].clone()];
    for _ in 1..59 {
        assert!(matches!(reset.step(DropEvent::Blocks(gone.clone())), DropAction::Refresh));
    }
    let action = reset.step(DropEvent::Blocks(all_blocks()));
    assert!(matches!(action, DropAction::Mount(b) if b.device == path("/dev/sdb1")));
    // it is mounted elsewhere
    let action = reset.step(DropEvent::Mounted(path("/media/stick1")));
    assert!(matches!(
        action,
        DropAction::Finish(Some(r)) if r.before == path("/media/stick") && r.after == path("/media/stick1")
    ));
    assert!(matches!(reset.step(DropEvent::Done), DropAction::Finish(Some(_))));
}

#[test]
fn usb_reset_times_out() {
    let target = path("/media/stick/copy");
    let manager = ready_usb(&target, None, "/dev/sdb1");
    let (mut reset, _) = manager.drop_cache(&target).unwrap();
    // nothing is mounted: the drives are ejected at once
    let unmounted = vec![block("sdb1", "drive-b", 4000, Some("uuid-b"), &[])];
    assert!(matches!(reset.step(DropEvent::Blocks(unmounted)), DropAction::Eject(_)));
    assert!(matches!(reset.step(DropEvent::Done), DropAction::Eject(_)));
    assert!(matches!(reset.step(DropEvent::Done), DropAction::Reset(_)));
    assert!(matches!(reset.step(DropEvent::Done), DropAction::Refresh));
    for _ in 1..60 {
        assert!(matches!(reset.step(DropEvent::Blocks(Vec::new())), DropAction::Refresh));
    }
    assert!(matches!(
        reset.step(DropEvent::Blocks(Vec::new())),
        DropAction::Fail(CacheError::TimedOut)
    ));
    assert!(matches!(
        reset.step(DropEvent::Blocks(all_blocks())),
        DropAction::Fail(CacheError::TimedOut)
    ));
    // what answers nothing
    let (mut reset, _) = manager.drop_cache(&target).unwrap();
    assert!(matches!(reset.step(DropEvent::Done), DropAction::Fail(CacheError::Confused)));
    let unready = UsbResetCacheManager::default();
    assert!(matches!(unready.drop_cache(&target), Err(CacheError::NotReady)));
}

#[test]
fn usb_reset_of_a_device() {
    let target = path("/dev/sdb");
    let manager = ready_usb(&target, Some(FileKind::Device), "/dev/sdb");
    let (mut reset, _) = manager.drop_cache(&target).unwrap();
    reset.step(DropEvent::Blocks(all_blocks()));
    reset.step(DropEvent::Done);
    reset.step(DropEvent::Done);
    reset.step(DropEvent::Done);
    reset.step(DropEvent::Done);
    assert!(matches!(reset.step(DropEvent::Done), DropAction::Refresh));
    // a device is not mounted: it is there or it has moved
    let mut renamed = all_blocks();
    renamed[1].device = path("/dev/sde");
    renamed[1].symlinks = Vec::new();
    assert!(matches!(
        reset.step(DropEvent::Blocks(renamed)),
        DropAction::Finish(Some(r)) if r.before == path("/dev/sdb") && r.after == path("/dev/sde")
    ));
    let (mut reset, _) = manager.drop_cache(&target).unwrap();
    for event in [
        DropEvent::Blocks(Vec::new()),
        DropEvent::Done,
        DropEvent::Done,
        DropEvent::Done,
    ] {
        reset.step(event);
    }
    assert!(matches!(
        reset.step(DropEvent::Blocks(all_blocks())),
        DropAction::Finish(None)
    ));
}
