use cccp::checksum::fill_checksum;
use cccp::checksum::Checksum;
use cccp::checksum::ChecksumMismatch;
use cccp::checksum::Crc64Hasher;
use cccp::directory::copy_directory;
use cccp::directory::create_directory;
use cccp::directory::directory_checksum;
use cccp::directory::fix_directory;
use cccp::directory::name_checksum;
use cccp::copy::FixError;
use cccp::symlink::copy_symlink;
use cccp::symlink::fix_symlink;
use cccp::symlink::symlink_checksum;
use cccp::symlink::SymlinkFix;
use cccp::utils::ErrorKind;
use cccp::utils::IoError;

fn crc(bytes: &[u8]) -> Checksum {
    let mut hasher = Crc64Hasher::new();
    hasher.update(bytes);
    hasher.finalize()
}

fn names(list: &[&str]) -> Vec<Vec<u8>> {
    list.iter().map(|n| n.as_bytes().to_vec()).collect()
}

#[test]
fn checksum_of_known_inputs() {
    assert_eq!(crc(b"").to_u64(), 0);
    assert_eq!(crc(b"@").to_u64(), 0x7b1b_8ab9_8fa4_b8f8);
    assert_eq!(crc(b"123456789").to_u64(), 0x995d_c9bb_df19_39fa);
    assert_eq!(crc(&[0; 32]).to_u64(), 0xc95a_f861_7cd5_330c);
    assert_eq!(crc(&[255; 32]).to_u64(), 0xe95d_ce9e_faa0_9acf);
}

#[test]
fn checksum_is_rolling() {
    let mut hasher = Crc64Hasher::new();
    hasher.update(b"hello ");
    hasher.update(b"world!");
    assert_eq!(hasher.finalize().to_u64(), 0x8483_c0fa_3260_7d61);
    assert_eq!(hasher.finalize(), crc(b"hello world!"));
    // finalizing does not end the computation
    hasher.update(b"!");
    assert_eq!(hasher.finalize(), crc(b"hello world!!"));
    hasher.reset();
    assert_eq!(hasher.finalize(), Checksum::from_u64(0));
    hasher.update(b"@");
    assert_eq!(hasher.finalize().to_u64(), 0x7b1b_8ab9_8fa4_b8f8);
}

#[test]
fn checksum_does_not_pad() {
    for len in [0usize, 1, 17, 4095] {
        let buffer = vec![0xAAu8; len];
        let mut padded = buffer.clone();
        padded.resize(4096, 0);
        assert_ne!(crc(&buffer), crc(&padded));
        assert_eq!(crc(&buffer), crc(&padded[..len]));
    }
}

#[test]
fn checksum_combines_with_xor() {
    let mut a = Checksum::from_u64(0b1100);
    a.xor_assign(Checksum::from_u64(0b1010));
    assert_eq!(a, Checksum::from_u64(0b0110));
    a ^= Checksum::from_u64(0b0110);
    assert_eq!(a, Checksum::from_u64(0));
    let mut b = crc(b"x");
    b.xor_assign(crc(b""));
    assert_eq!(b, crc(b"x"));
}

#[test]
fn fill_checksum_fills_and_checks() {
    let value = Checksum::from_u64(7);
    let mut slot = None;
    assert_eq!(fill_checksum(&mut slot, value), Ok(()));
    assert_eq!(slot, Some(value));
    assert_eq!(fill_checksum(&mut slot, value), Ok(()));
    assert_eq!(slot, Some(value));
    let other = Checksum::from_u64(8);
    assert_eq!(
        fill_checksum(&mut slot, other),
        Err(ChecksumMismatch {
            recorded: value,
            computed: other
        })
    );
    assert_eq!(slot, Some(value));
}

#[test]
fn directory_checksum_is_the_xor_of_the_names() {
    assert_eq!(directory_checksum(&Vec::new()), Checksum::from_u64(0));
    assert_eq!(directory_checksum(&names(&["x"])), crc(b"x"));
    assert_eq!(name_checksum(b"x"), crc(b"x"));
    let expected = crc(b"x").to_u64() ^ crc(b"y").to_u64() ^ crc(b"z").to_u64();
    assert_eq!(directory_checksum(&names(&["x", "y", "z"])).to_u64(), expected);
}

#[test]
fn directory_checksum_ignores_the_order() {
    let all = [
        ["x", "y", "z"],
        ["x", "z", "y"],
        ["y", "x", "z"],
        ["y", "z", "x"],
        ["z", "x", "y"],
        ["z", "y", "x"],
    ];
    let expected = directory_checksum(&names(&all[0]));
    for order in all.iter() {
        assert_eq!(directory_checksum(&names(order)), expected);
    }
    assert_ne!(directory_checksum(&names(&["x", "y"])), expected);
}

#[test]
fn create_directory_tolerates_what_is_there() {
    let exists = IoError::from_raw_os_error(ErrorKind::AlreadyExists, None);
    let other = IoError::from_raw_os_error(ErrorKind::Other, None);
    assert_eq!(create_directory(Ok(())), Ok(()));
    assert_eq!(create_directory(Err(exists)), Ok(()));
    assert_eq!(create_directory(Err(other)), Err(other));
    let listing = names(&["a", "b"]);
    assert_eq!(
        copy_directory(Err(exists), &listing),
        Ok(directory_checksum(&listing))
    );
    assert_eq!(copy_directory(Ok(()), &listing), Ok(directory_checksum(&listing)));
    assert_eq!(copy_directory(Err(other), &listing), Err(other));
}

#[test]
fn fix_directory_removes_the_strangers() {
    // children x, y, z; the copy holds extra as well
    let orig = names(&["x", "y", "z"]);
    let target = names(&["x", "y", "z", "extra"]);
    let mut slot = None;
    let fix = fix_directory(&orig, Some(&target), &mut slot);
    assert!(!fix.replace);
    assert_eq!(fix.remove, names(&["extra"]));
    assert_eq!(fix.verdict, Ok(true));
    assert_eq!(slot, Some(directory_checksum(&orig)));
    // once it is removed nothing is left to do
    let fix = fix_directory(&orig, Some(&orig), &mut slot);
    assert!(fix.remove.is_empty());
    assert_eq!(fix.verdict, Ok(false));
}

#[test]
fn fix_directory_walks_in_step() {
    let mut slot = None;
    // another order is no difference
    let fix = fix_directory(&names(&["a", "b", "c"]), Some(&names(&["c", "a", "b"])), &mut slot);
    assert!(fix.remove.is_empty());
    assert_eq!(fix.verdict, Ok(false));
    // entries that are missing in the copy are left to their own obligations
    let mut slot = None;
    let fix = fix_directory(&names(&["a", "b", "c"]), Some(&names(&["b"])), &mut slot);
    assert!(fix.remove.is_empty());
    assert_eq!(fix.verdict, Ok(false));
    // strangers in the middle and at the end
    let mut slot = None;
    let fix = fix_directory(
        &names(&["a", "b"]),
        Some(&names(&["a", "s", "b", "t", "u"])),
        &mut slot,
    );
    assert_eq!(fix.remove, names(&["s", "t", "u"]));
    assert_eq!(fix.verdict, Ok(true));
    // an empty source
    let mut slot = None;
    let fix = fix_directory(&Vec::new(), Some(&names(&["a"])), &mut slot);
    assert_eq!(fix.remove, names(&["a"]));
    assert_eq!(slot, Some(Checksum::from_u64(0)));
}

#[test]
fn fix_directory_replaces_what_is_no_directory() {
    let orig = names(&["x"]);
    let mut slot = Some(directory_checksum(&orig));
    let fix = fix_directory(&orig, None, &mut slot);
    assert!(fix.replace);
    assert!(fix.remove.is_empty());
    assert_eq!(fix.verdict, Ok(true));
}

#[test]
fn fix_directory_tells_a_changed_source() {
    let orig = names(&["x", "y"]);
    let recorded = directory_checksum(&names(&["x"]));
    let mut slot = Some(recorded);
    let fix = fix_directory(&orig, Some(&names(&["x", "y", "z"])), &mut slot);
    assert_eq!(
        fix.verdict,
        Err(FixError::SourceChanged(ChecksumMismatch {
            recorded,
            computed: directory_checksum(&orig)
        }))
    );
    assert!(fix.remove.is_empty());
    assert_eq!(slot, Some(recorded));
}

#[test]
fn symlink_checksum_covers_the_target() {
    assert_eq!(symlink_checksum(b"./target"), crc(b"./target"));
    assert_eq!(symlink_checksum(b""), Checksum::from_u64(0));
    let missing = IoError::from_raw_os_error(ErrorKind::NotFound, None);
    let other = IoError::from_raw_os_error(ErrorKind::Other, None);
    assert_eq!(copy_symlink(Ok(()), b"./target"), Ok(crc(b"./target")));
    assert_eq!(copy_symlink(Err(missing), b"./target"), Ok(crc(b"./target")));
    assert_eq!(copy_symlink(Err(other), b"./target"), Err(other));
}

#[test]
fn fix_symlink_replaces_a_regular_file() {
    // the source is a link to ./target, the destination a regular file
    let not_a_link = IoError::from_raw_os_error(ErrorKind::Other, Some(libc::EINVAL));
    let mut slot = None;
    let fix = fix_symlink(b"./target", &Err(not_a_link), &mut slot);
    assert_eq!(fix, SymlinkFix { replace: true, verdict: Ok(true) });
    assert_eq!(slot, Some(crc(b"./target")));
    // in the next round the link is there
    let fix = fix_symlink(b"./target", &Ok(b"./target".to_vec()), &mut slot);
    assert_eq!(fix, SymlinkFix { replace: false, verdict: Ok(false) });
}

#[test]
fn fix_symlink_relinks_and_fails() {
    let mut slot = None;
    let fix = fix_symlink(b"a", &Ok(b"b".to_vec()), &mut slot);
    assert_eq!(fix, SymlinkFix { replace: false, verdict: Ok(true) });
    // any other failure is passed on, before anything else
    let denied = IoError::from_raw_os_error(ErrorKind::Other, Some(libc::EACCES));
    let mut slot = None;
    let fix = fix_symlink(b"a", &Err(denied), &mut slot);
    assert_eq!(fix, SymlinkFix { replace: false, verdict: Err(FixError::Io(denied)) });
    assert_eq!(slot, None);
    let unnumbered = IoError::from_raw_os_error(ErrorKind::Other, None);
    let mut slot = Some(crc(b"b"));
    let fix = fix_symlink(b"a", &Err(unnumbered), &mut slot);
    assert_eq!(fix.verdict, Err(FixError::Io(unnumbered)));
    assert_eq!(slot, Some(crc(b"b")));
    // the source changed
    let changed = Err(FixError::SourceChanged(ChecksumMismatch {
        recorded: crc(b"a"),
        computed: crc(b"c"),
    }));
    let mut slot = Some(crc(b"a"));
    let fix = fix_symlink(b"c", &Ok(b"c".to_vec()), &mut slot);
    assert_eq!(fix, SymlinkFix { replace: false, verdict: changed });
    assert_eq!(slot, Some(crc(b"a")));
    // what is no link is removed all the same
    let not_a_link = IoError::from_raw_os_error(ErrorKind::Other, Some(libc::EINVAL));
    let fix = fix_symlink(b"c", &Err(not_a_link), &mut slot);
    assert_eq!(fix, SymlinkFix { replace: true, verdict: changed });
    assert_eq!(slot, Some(crc(b"a")));
}

#[test]
fn fix_symlink_goes_by_the_checksum() {
    // two targets with the same checksum: the copy is taken for right
    let source = [0x02u8; 9];
    let other = [0x03u8, 0x6d, 0x5d, 0xa5, 0x01, 0xbc, 0x4e, 0x2c, 0xb1];
    assert_eq!(crc(&source), crc(&other));
    assert_eq!(crc(&source).to_u64(), 0x7bac_5403_085b_080e);
    let mut slot = None;
    let fix = fix_symlink(&source, &Ok(other.to_vec()), &mut slot);
    assert_eq!(fix, SymlinkFix { replace: false, verdict: Ok(false) });
}
