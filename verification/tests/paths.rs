use cccp::canonical::canonicalize;
use cccp::canonical::CanonDirective;
use cccp::canonical::CanonError;
use cccp::canonical::CanonReport;
use cccp::path::change_prefix;
use cccp::path::change_prefixes;
use cccp::path::Component;
use cccp::path::FsPath;
use cccp::utils::ErrorKind;
use cccp::utils::IoError;
use cccp::utils::Metadata;
use std::path::Path;
use std::path::PathBuf;

fn from_std(path: &Path) -> FsPath {
    let mut components = Vec::new();
    for c in path.components() {
        components.push(match c {
            std::path::Component::RootDir => Component::RootDir,
            std::path::Component::CurDir => Component::CurDir,
            std::path::Component::ParentDir => Component::ParentDir,
            std::path::Component::Normal(name) => {
                Component::Normal(name.to_str().unwrap().as_bytes().to_vec())
            }
            std::path::Component::Prefix(_) => unreachable!(),
        });
    }
    FsPath::from_components(&components)
}

fn to_std(path: &FsPath) -> PathBuf {
    let mut res = PathBuf::new();
    for c in path.components() {
        match c {
            Component::RootDir => res.push("/"),
            Component::CurDir => res.push("."),
            Component::ParentDir => res.push(".."),
            Component::Normal(name) => res.push(std::str::from_utf8(name).unwrap()),
        }
    }
    res
}

fn path(s: &str) -> FsPath {
    from_std(Path::new(s))
}

fn io_error(e: std::io::Error) -> IoError {
    let kind = match e.kind() {
        std::io::ErrorKind::NotFound => ErrorKind::NotFound,
        std::io::ErrorKind::AlreadyExists => ErrorKind::AlreadyExists,
        _ => ErrorKind::Other,
    };
    IoError::from_raw_os_error(kind, e.raw_os_error())
}

/// Runs a resolution against the file system.
fn run_canonicalize(path: &FsPath, must_exist: bool) -> Result<FsPath, CanonError> {
    let (mut resolution, mut directive) = canonicalize(path, must_exist);
    loop {
        directive = match directive {
            CanonDirective::Resolve => {
                let resolved = to_std(resolution.subject()).canonicalize();
                resolution.step(CanonReport::Resolved(
                    resolved.map(|p| from_std(&p)).map_err(io_error),
                ))
            }
            CanonDirective::Probe => {
                let probe = to_std(resolution.subject()).symlink_metadata();
                resolution.step(CanonReport::Probed(
                    probe
                        .map(|m| Metadata {
                            mode: 0,
                            size: m.len(),
                            dev: 0,
                            rdev: 0,
                        })
                        .map_err(io_error),
                ))
            }
            CanonDirective::Done => return Ok(resolution.subject().clone()),
            CanonDirective::Fail(e) => return Err(e),
        }
    }
}

#[test]
fn test_canonicalize() {
    let mut p = to_std(&run_canonicalize(&path("."), true).unwrap());
    let p2 = to_std(&run_canonicalize(&path("./doesnotexist!"), false).unwrap());
    p.push("doesnotexist!");
    assert!(p2.is_absolute());
    assert_eq!(p, p2);
    assert_eq!(
        to_std(&run_canonicalize(&path("/"), true).unwrap()),
        PathBuf::from("/")
    );
    assert!(run_canonicalize(&path("/doesnotexist!"), false).is_ok());
    assert!(run_canonicalize(&path("/doesnotexist!"), true).is_err());
}

#[test]
fn canonicalize_reports_what_is_missing() {
    assert_eq!(
        run_canonicalize(&path("/doesnotexist!"), true),
        Err(CanonError::Missing)
    );
    assert!(matches!(
        run_canonicalize(&path("/doesnotexist!/child"), false),
        Err(CanonError::Io(_))
    ));
}

#[test]
fn canonicalize_without_file_system() {
    // nothing resolves, and the path has no name at its end: it is taken as it is
    let (mut resolution, directive) = canonicalize(&path(".."), false);
    assert_eq!(directive, CanonDirective::Resolve);
    let failed = IoError::from_raw_os_error(ErrorKind::NotFound, None);
    assert_eq!(
        resolution.step(CanonReport::Resolved(Err(failed))),
        CanonDirective::Done
    );
    assert_eq!(resolution.subject(), &path(".."));
    // a report that answers nothing
    let (mut resolution, _) = canonicalize(&path("a"), true);
    assert_eq!(
        resolution.step(CanonReport::Probed(Err(failed))),
        CanonDirective::Fail(CanonError::Confused)
    );
    // the parent resolves, the result is probed
    let (mut resolution, _) = canonicalize(&path("a/b"), true);
    assert_eq!(
        resolution.step(CanonReport::Resolved(Err(failed))),
        CanonDirective::Resolve
    );
    assert_eq!(resolution.subject(), &path("a"));
    assert_eq!(
        resolution.step(CanonReport::Resolved(Ok(path("/x/a")))),
        CanonDirective::Probe
    );
    assert_eq!(resolution.subject(), &path("/x/a/b"));
    let meta = Metadata {
        mode: 0o100644,
        size: 1,
        dev: 0,
        rdev: 0,
    };
    assert_eq!(
        resolution.step(CanonReport::Probed(Ok(meta))),
        CanonDirective::Done
    );
    assert_eq!(resolution.subject(), &path("/x/a/b"));
}

fn check_change_prefix(p: &'static str, old: &'static str, new: &'static str, expected: &'static str) {
    let old_prefix = path(old);
    let new_prefix = path(new);
    let f = change_prefixes(&old_prefix, &new_prefix);
    assert!(f.applies_to(&path(p)));
    let res = f.apply(&path(p));
    assert_eq!(to_std(&res), PathBuf::from(expected));
    assert_eq!(res, path(expected));
}

#[test]
fn test_change_prefixes() {
    check_change_prefix("/", "/", "/b", "/b");
    check_change_prefix("/a", "/a", "/b", "/b");
    check_change_prefix("/a", "/", "/b", "/b/a");
    check_change_prefix("/a/c", "/a", "/b", "/b/c");
}

#[test]
fn change_prefixes_tells_a_wrong_prefix() {
    let f = change_prefixes(&path("/b"), &path("/c"));
    assert!(!f.applies_to(&path("/a")));
    assert!(!f.applies_to(&path("/")));
    assert!(f.applies_to(&path("/b/x")));
    // whole components only
    assert!(!f.applies_to(&path("/bb")));
}

#[test]
fn change_prefix_counts_components() {
    assert_eq!(change_prefix(&path("/a/b/c"), 2, &path("/x/y")), path("/x/y/b/c"));
    assert_eq!(change_prefix(&path("/a/b/c"), 4, &path("/x")), path("/x/c").parent().unwrap());
    assert_eq!(change_prefix(&path("/a/b/c"), 9, &path("/x")), path("/x"));
    // with no prefix taken off, the root of the path replaces the new prefix
    assert_eq!(change_prefix(&path("/a"), 0, &path("/x")), path("/a"));
    assert_eq!(change_prefix(&path("a/b"), 0, &path("/x")), path("/x/a/b"));
    assert_eq!(change_prefix(&path("./a"), 0, &path("/x")), path("/x/a"));
    assert_eq!(change_prefix(&path("./a"), 0, &path("")), path("./a"));
}

#[test]
fn path_parts() {
    let p = path("/a/b");
    assert_eq!(p.len(), 3);
    assert!(p.is_absolute());
    assert!(!path("a/b").is_absolute());
    assert!(!path("").is_absolute());
    assert_eq!(p.parent(), Some(path("/a")));
    assert_eq!(path("/").parent(), None);
    assert_eq!(path("").parent(), None);
    assert_eq!(path("a").parent(), Some(path("")));
    assert_eq!(p.file_name(), Some(b"b".to_vec()));
    assert_eq!(path("/").file_name(), None);
    assert_eq!(path("..").file_name(), None);
    assert!(p.starts_with(&path("/a")));
    assert!(p.starts_with(&path("/")));
    assert!(p.starts_with(&p));
    assert!(!p.starts_with(&path("/a/b/c")));
    assert!(!p.starts_with(&path("a")));
    assert!(p.same_as(&path("/a/b")));
    assert!(!p.same_as(&path("/a/c")));
    assert!(!p.same_as(&path("/a")));
}

#[test]
fn path_push_follows_the_rules() {
    let mut p = path("/a");
    p.push(Component::Normal(b"b".to_vec()));
    assert_eq!(p, path("/a/b"));
    p.push(Component::CurDir);
    assert_eq!(p, path("/a/b"));
    p.push(Component::ParentDir);
    assert_eq!(to_std(&p), PathBuf::from("/a/b/.."));
    p.push(Component::RootDir);
    assert_eq!(p, path("/"));
    p.pop();
    assert_eq!(p, path(""));
    p.pop();
    assert_eq!(p, path(""));
    p.push(Component::CurDir);
    assert_eq!(p, path("."));
    p.push_name(b"x");
    assert_eq!(p, path("./x"));
    let q = FsPath::from_components(&vec![
        Component::Normal(b"a".to_vec()),
        Component::RootDir,
        Component::Normal(b"b".to_vec()),
    ]);
    assert_eq!(q, path("/b"));
    assert_eq!(q.components().len(), 2);
}
