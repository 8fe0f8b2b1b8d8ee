//! Reading past the cache, with transfers straight between buffer and medium.

use crate::cache::CacheError;
use crate::cache::CacheManager;
use crate::cache::OpenRequest;
use crate::cache::Replacement;
use crate::path::FsPath;
use crate::path::Part;
use crate::utils::Errno;
use crate::utils::ErrorKind;
use crate::utils::FileKind;
use crate::utils::IoError;
use crate::utils::Metadata;
use vstd::prelude::*;

verus! {

/// How to find out whether files below a path can be opened for direct transfers.
#[derive(PartialEq, Eq, Debug, Clone, Copy, Structural)]
pub enum Probe {
    /// There is nothing to try: the path is a link or something that is not copied to.
    Nothing,
    /// Open the file or device at the path.
    Existing,
    /// The path is a directory: create a temporary directory in it, open a new file
    /// in that, and remove the temporary directory with all it holds.
    InDirectory,
    /// Nothing is at the path: create a file there, and remove it.
    Created,
}

/// How a probe of `path` that follows no link decides how to try.
pub open spec fn spec_probe_plan(probe: Result<Metadata, IoError>) -> Result<Probe, CacheError> {
    match probe {
        Ok(meta) => match FileKind::of_mode(meta.mode) {
            FileKind::Symlink | FileKind::Other => Ok(Probe::Nothing),
            FileKind::Device | FileKind::Regular => Ok(Probe::Existing),
            FileKind::Directory => Ok(Probe::InDirectory),
        },
        Err(e) => if e.kind == ErrorKind::NotFound {
            Ok(Probe::Created)
        } else {
            Err(CacheError::Io(e))
        },
    }
}

/// What an attempt to open a file for direct transfers tells.
pub open spec fn spec_test_file(opened: Result<(), IoError>) -> Result<(), CacheError> {
    match opened {
        Ok(()) => Ok(()),
        Err(e) => if e.errno == Some(Errno::EINVAL) {
            Err(CacheError::DirectIoUnsupported)
        } else {
            Err(CacheError::Io(e))
        },
    }
}

/// What a trial tells: `opened` is what became of opening the file, `cleaned` what
/// became of removing what the trial created. A removal that failed counts before
/// the trial itself; that nothing was left to remove is no failure.
pub open spec fn spec_trial(
    plan: Probe,
    opened: Result<(), IoError>,
    cleaned: Result<(), IoError>,
) -> Result<(), CacheError> {
    match plan {
        Probe::Nothing => Ok(()),
        Probe::Existing => spec_test_file(opened),
        Probe::InDirectory => match cleaned {
            Err(e) => Err(CacheError::Io(e)),
            Ok(()) => spec_test_file(opened),
        },
        Probe::Created => match cleaned {
            Err(e) if e.kind != ErrorKind::NotFound => Err(CacheError::Io(e)),
            _ => spec_test_file(opened),
        },
    }
}

/// The name of the file that is opened in the temporary directory.
pub open spec fn test_name() -> Seq<u8> {
    seq![116u8, 101u8, 115u8, 116u8]
}

/// Opens every file for direct transfers. Nothing has to be dropped then.
#[derive(Debug)]
pub struct DirectIOCacheManager {
    ready: bool,
}

impl Default for DirectIOCacheManager {
    fn default() -> (manager: DirectIOCacheManager)
        ensures
            !manager.is_ready(),
    {
        DirectIOCacheManager { ready: false }
    }
}

impl CacheManager for DirectIOCacheManager {
    closed spec fn is_ready(&self) -> bool {
        self.ready
    }

    fn open_no_cache(&self, request: OpenRequest) -> (res: Result<OpenRequest, CacheError>)
        ensures
            res matches Ok(r) ==> r.direct,
    {
        if self.ready {
            Ok(OpenRequest { direct: true, ..request })
        } else {
            Err(CacheError::NotReady)
        }
    }

    fn name(&self) -> (name: &'static str)
        ensures
            name@ == "DirectIOCacheManager"@,
    {
        "DirectIOCacheManager"
    }
}

impl DirectIOCacheManager {
    /// How to find out whether files below a path can be opened for direct
    /// transfers, given what a probe of the path that follows no link came back with.
    pub fn probe_plan(probe: &Result<Metadata, IoError>) -> (res: Result<Probe, CacheError>)
        ensures
            res == spec_probe_plan(*probe),
    {
        match probe {
            Ok(meta) => match FileKind::of_metadata(meta) {
                FileKind::Symlink | FileKind::Other => Ok(Probe::Nothing),
                FileKind::Device | FileKind::Regular => Ok(Probe::Existing),
                FileKind::Directory => Ok(Probe::InDirectory),
            },
            Err(e) => match e.kind {
                ErrorKind::NotFound => Ok(Probe::Created),
                _ => Err(CacheError::Io(*e)),
            },
        }
    }

    /// How the file of a trial is opened: for appending and for direct transfers,
    /// created unless it is there already.
    pub fn test_request(plan: Probe) -> (request: OpenRequest)
        ensures
            request == (OpenRequest {
                read: false,
                write: false,
                append: true,
                create: plan != Probe::Existing,
                mode: None,
                no_follow: false,
                direct: true,
            }),
    {
        let create = match plan {
            Probe::Existing => false,
            _ => true,
        };
        OpenRequest {
            read: false,
            write: false,
            append: true,
            create,
            mode: None,
            no_follow: false,
            direct: true,
        }
    }

    /// The file to open in the temporary directory `directory`.
    pub fn test_path(directory: &FsPath) -> (path: FsPath)
        ensures
            path@ == directory@.push(Part::Name(test_name())),
    {
        let mut path = directory.clone();
        let name: [u8; 4] = [116, 101, 115, 116];
        assert(name@ =~= test_name());
        path.push_name(name.as_slice());
        path
    }

    /// What an attempt to open a file for direct transfers tells: a file system
    /// that does not support them refuses with an invalid argument.
    pub fn test_file(opened: &Result<(), IoError>) -> (res: Result<(), CacheError>)
        ensures
            res == spec_test_file(*opened),
    {
        match opened {
            Ok(()) => Ok(()),
            Err(e) => {
                if e.is(Errno::EINVAL) {
                    Err(CacheError::DirectIoUnsupported)
                } else {
                    Err(CacheError::Io(*e))
                }
            },
        }
    }

    /// Takes in what the trial that `plan` asked for came to. `opened` is what
    /// became of opening the file, `cleaned` what became of removing what the trial
    /// created.
    pub fn permission_check(
        &mut self,
        plan: Probe,
        opened: &Result<(), IoError>,
        cleaned: &Result<(), IoError>,
    ) -> (res: Result<(), CacheError>)
        ensures
            res == spec_trial(plan, *opened, *cleaned),
            final(self).is_ready() == (res is Ok || old(self).is_ready()),
    {
        let res = match plan {
            Probe::Nothing => Ok(()),
            Probe::Existing => Self::test_file(opened),
            Probe::InDirectory => match cleaned {
                Err(e) => Err(CacheError::Io(*e)),
                Ok(()) => Self::test_file(opened),
            },
            Probe::Created => {
                let tested = Self::test_file(opened);
                // this may have created a file
                match cleaned {
                    Ok(()) => tested,
                    Err(e) => match e.kind {
                        ErrorKind::NotFound => tested,
                        _ => Err(CacheError::Io(*e)),
                    },
                }
            },
        };
        if res.is_ok() {
            self.ready = true;
        }
        res
    }

    /// Nothing is to be done between two rounds: every read bypasses the cache.
    pub fn drop_cache(&self) -> (res: Result<Option<Replacement>, CacheError>)
        ensures
            self.is_ready() ==> res matches Ok(None),
            !self.is_ready() ==> res matches Err(CacheError::NotReady),
    {
        if self.ready {
            Ok(None)
        } else {
            Err(CacheError::NotReady)
        }
    }
}

} // verus!
