//! Symbolic links: the checksum of a link is that of the bytes of its target.

use crate::checksum::fill_checksum;
use crate::checksum::Checksum;
use crate::checksum::ChecksumMismatch;
use crate::checksum::Crc64Hasher;
use crate::copy::FixError;
use crate::utils::Errno;
use crate::utils::ErrorKind;
use crate::utils::IoError;
use vstd::prelude::*;

verus! {

/// The checksum of a link that points to `content`.
pub fn symlink_checksum(content: &[u8]) -> (checksum: Checksum)
    ensures
        checksum == Checksum::of(content@),
{
    let mut hasher = Crc64Hasher::new();
    hasher.update(content);
    assert(Seq::<u8>::empty() + content@ =~= content@);
    hasher.finalize()
}

/// The checksum of a link that was copied. `removed` is what became of the attempt
/// to remove what was in the way, where finding nothing is no failure; `content` is
/// what the source points to.
pub fn copy_symlink(removed: Result<(), IoError>, content: &[u8]) -> (res: Result<Checksum, IoError>)
    ensures
        res == match removed {
            Err(e) if e.kind != ErrorKind::NotFound => Err::<Checksum, IoError>(e),
            _ => Ok::<Checksum, IoError>(Checksum::of(content@)),
        },
{
    match removed {
        Ok(()) => (),
        Err(e) => match e.kind {
            ErrorKind::NotFound => (),
            _ => {
                return Err(e);
            },
        },
    }
    Ok(symlink_checksum(content))
}

/// What is to be done to the copy of a link.
#[derive(PartialEq, Eq, Debug, Clone, Copy)]
pub struct SymlinkFix {
    /// The copy is no link: remove it, whatever it is, before anything else.
    pub replace: bool,
    /// Whether the copy is to be linked anew, if the source is still what it was:
    /// unlink what is there, if anything is, and create the link.
    pub verdict: Result<bool, FixError>,
}

/// What reading the link at the copy came back with, as sequences of bytes.
pub open spec fn link_read(target: Result<Vec<u8>, IoError>) -> Result<Seq<u8>, IoError> {
    match target {
        Ok(content) => Ok(content@),
        Err(e) => Err(e),
    }
}

/// Whether reading the link at the copy failed because the copy is no link.
pub open spec fn is_no_link(target: Result<Seq<u8>, IoError>) -> bool {
    target is Err && target->Err_0.errno == Some(Errno::EINVAL)
}

/// What `fix_symlink` decides for a link to `source`, where reading the link at
/// the copy came back with `target` and `recorded` is the checksum on record. A
/// failure to read the copy counts first, unless the copy is no link; then the
/// checksum of the source is held against the record; then the copy is to be linked
/// anew unless it is a link with the checksum of the source.
pub open spec fn spec_fix_symlink(
    source: Seq<u8>,
    target: Result<Seq<u8>, IoError>,
    recorded: Option<Checksum>,
) -> SymlinkFix {
    let computed = Checksum::of(source);
    SymlinkFix {
        replace: is_no_link(target),
        verdict: if target is Err && !is_no_link(target) {
            Err(FixError::Io(target->Err_0))
        } else if recorded.is_some() && recorded != Some(computed) {
            Err(FixError::SourceChanged(ChecksumMismatch { recorded: recorded.unwrap(), computed }))
        } else {
            Ok(target is Err || Checksum::of(target->Ok_0) != computed)
        },
    }
}

/// Compares a link with its copy, and checks that the checksum of the source is
/// the recorded one. `source` is what the source points to, `target` what reading
/// the link at the copy came back with: it fails with an invalid argument where the
/// copy is no link.
pub fn fix_symlink(
    source: &[u8],
    target: &Result<Vec<u8>, IoError>,
    checksum: &mut Option<Checksum>,
) -> (fix: SymlinkFix)
    ensures
        fix == spec_fix_symlink(source@, link_read(*target), *old(checksum)),
        *final(checksum) == if fix.verdict is Ok {
            Some(Checksum::of(source@))
        } else {
            *old(checksum)
        },
{
    let c1 = symlink_checksum(source);
    let c2 = match target {
        Ok(content) => Some(symlink_checksum(content.as_slice())),
        Err(e) => {
            if e.is(Errno::EINVAL) {
                // the copy is not a symbolic link
                None
            } else {
                return SymlinkFix { replace: false, verdict: Err(FixError::Io(*e)) };
            }
        },
    };
    let replace = c2.is_none();
    match fill_checksum(checksum, c1) {
        Ok(()) => {},
        Err(mismatch) => {
            return SymlinkFix { replace, verdict: Err(FixError::SourceChanged(mismatch)) };
        },
    }
    let changed = match c2 {
        Some(c) => c != c1,
        None => true,
    };
    SymlinkFix { replace, verdict: Ok(changed) }
}

/// What the copy points to once the decision was carried out, if it is a link
/// then: `before` is what it pointed to, if it was a link.
pub open spec fn link_after(fix: SymlinkFix, before: Option<Seq<u8>>, source: Seq<u8>) -> Option<
    Seq<u8>,
> {
    match fix.verdict {
        Ok(true) => Some(source),
        Ok(false) => before,
        Err(_) => if fix.replace {
            None
        } else {
            before
        },
    }
}

/// What a copy pointed to, given what reading it came back with.
pub open spec fn link_before(target: Result<Seq<u8>, IoError>) -> Option<Seq<u8>> {
    match target {
        Ok(content) => Some(content),
        Err(_) => None,
    }
}

/// After a link was fixed, its copy points where the link points, unless the copy
/// pointed elsewhere and the two targets happen to share their checksum.
pub proof fn fixed_symlink_points_to_source(
    source: Seq<u8>,
    target: Result<Seq<u8>, IoError>,
    recorded: Option<Checksum>,
)
    requires
        spec_fix_symlink(source, target, recorded).verdict is Ok,
        target matches Ok(content) ==> (Checksum::of(content) == Checksum::of(source) ==> content
            == source),
    ensures
        link_after(spec_fix_symlink(source, target, recorded), link_before(target), source)
            == Some(source),
{
}

/// A copy that points where the link points is kept as it is.
pub proof fn correct_symlink_is_kept(source: Seq<u8>, recorded: Option<Checksum>)
    requires
        recorded.is_none() || recorded == Some(Checksum::of(source)),
    ensures
        spec_fix_symlink(source, Ok(source), recorded) == (SymlinkFix {
            replace: false,
            verdict: Ok(false),
        }),
{
}

} // verus!
