//! Directories: the checksum of a listing, and which entries of a copy are to
//! be removed. The contents of the entries are not handled here: each entry has
//! an obligation of its own.

use crate::checksum::combine_associative;
use crate::checksum::combine_commutative;
use crate::checksum::fill_checksum;
use crate::checksum::Checksum;
use crate::checksum::Crc64Hasher;
use crate::copy::FixError;
use crate::path::same_bytes;
use crate::utils::ErrorKind;
use crate::utils::IoError;
use vstd::prelude::*;

verus! {

/// The names of a listing, as sequences of bytes.
pub open spec fn names_of(listing: Seq<Vec<u8>>) -> Seq<Seq<u8>> {
    listing.map_values(|name: Vec<u8>| name@)
}

/// The checksum `sum` with the checksum of `name` combined in.
pub open spec fn with_name(sum: Checksum, name: Seq<u8>) -> Checksum {
    sum.combine(Checksum::of(name))
}

/// The checksum of a directory: the checksums of the names of its entries,
/// combined.
pub open spec fn spec_directory_checksum(names: Seq<Seq<u8>>) -> Checksum {
    names.fold_left(Checksum::zero(), |sum: Checksum, name: Seq<u8>| with_name(sum, name))
}

/// The checksum of a directory does not depend on the order in which its entries
/// are listed.
pub proof fn directory_checksum_ignores_order(listed: Seq<Seq<u8>>, relisted: Seq<Seq<u8>>)
    requires
        listed.to_multiset() == relisted.to_multiset(),
    ensures
        spec_directory_checksum(listed) == spec_directory_checksum(relisted),
{
    let f = |sum: Checksum, name: Seq<u8>| with_name(sum, name);
    assert(vstd::seq_lib::commutative_foldl(f)) by {
        assert forall|x: Seq<u8>, y: Seq<u8>, v: Checksum| #[trigger] f(f(v, x), y) == f(f(v, y), x) by {
            let (a, b) = (Checksum::of(x), Checksum::of(y));
            combine_associative(v, a, b);
            combine_associative(v, b, a);
            combine_commutative(a, b);
        }
    }
    vstd::seq_lib::lemma_fold_left_permutation(listed, relisted, f, Checksum::zero());
}

/// The checksum of an empty directory is that of the empty input.
pub proof fn directory_checksum_of_nothing()
    ensures
        spec_directory_checksum(Seq::empty()) == Checksum::zero(),
{
}

/// The checksum of a name: that of its bytes.
pub fn name_checksum(name: &[u8]) -> (checksum: Checksum)
    ensures
        checksum == Checksum::of(name@),
{
    let mut hasher = Crc64Hasher::new();
    hasher.update(name);
    assert(Seq::<u8>::empty() + name@ =~= name@);
    hasher.finalize()
}

/// Computes the checksum of the directory that lists `names`.
pub fn directory_checksum(names: &Vec<Vec<u8>>) -> (checksum: Checksum)
    ensures
        checksum == spec_directory_checksum(names_of(names@)),
{
    // the checksum must not depend on iteration order, so we combine the checksum of all entries
    let mut res = Crc64Hasher::new().finalize();
    let ghost all = names_of(names@);
    let mut i: usize = 0;
    while i < names.len()
        invariant
            i <= names@.len(),
            all == names_of(names@),
            res == spec_directory_checksum(all.take(i as int)),
        decreases names@.len() - i,
    {
        let entry = name_checksum(names[i].as_slice());
        res.xor_assign(entry);
        assert(all.take(i + 1).drop_last() == all.take(i as int));
        i += 1;
    }
    assert(all.take(i as int) == all);
    res
}

/// What became of an attempt to create a directory: that it is there already is
/// no failure.
pub fn create_directory(outcome: Result<(), IoError>) -> (res: Result<(), IoError>)
    ensures
        res == match outcome {
            Err(e) if e.kind != ErrorKind::AlreadyExists => Err::<(), IoError>(e),
            _ => Ok::<(), IoError>(()),
        },
{
    match outcome {
        Ok(()) => Ok(()),
        Err(e) => match e.kind {
            ErrorKind::AlreadyExists => Ok(()),
            _ => Err(e),
        },
    }
}

/// The checksum of a directory that was copied: `created` is what became of the
/// attempt to create the copy, `names` what the source lists.
pub fn copy_directory(created: Result<(), IoError>, names: &Vec<Vec<u8>>) -> (res: Result<
    Checksum,
    IoError,
>)
    ensures
        res == match created {
            Err(e) if e.kind != ErrorKind::AlreadyExists => Err::<Checksum, IoError>(e),
            _ => Ok::<Checksum, IoError>(spec_directory_checksum(names_of(names@))),
        },
{
    match create_directory(created) {
        Ok(()) => Ok(directory_checksum(names)),
        Err(e) => Err(e),
    }
}

/// Whether the entry at `index` of `names` has no partner when both listings are
/// walked in step: the other listing has ended, or has another name there.
pub open spec fn unmatched_at(names: Seq<Seq<u8>>, other: Seq<Seq<u8>>, index: int) -> bool {
    0 <= index < names.len() && (index >= other.len() || other[index] != names[index])
}

/// The names of `names` that have no partner in `other`.
pub open spec fn unmatched(names: Seq<Seq<u8>>, other: Seq<Seq<u8>>) -> Set<Seq<u8>> {
    Set::new(
        |name: Seq<u8>|
            exists|index: int| #[trigger] unmatched_at(names, other, index) && names[index] == name,
    )
}

/// The names to remove from the copy: those without a partner which the source
/// is not still waiting for.
pub open spec fn extra_names(orig: Seq<Seq<u8>>, target: Seq<Seq<u8>>) -> Set<Seq<u8>> {
    unmatched(target, orig).difference(unmatched(orig, target))
}

/// Where no name is listed twice, the names to remove are those that the copy
/// lists and the source does not.
pub proof fn extra_names_are_the_strangers(orig: Seq<Seq<u8>>, target: Seq<Seq<u8>>)
    requires
        orig.no_duplicates(),
        target.no_duplicates(),
    ensures
        extra_names(orig, target) == target.to_set().difference(orig.to_set()),
{
    let extra = extra_names(orig, target);
    let strangers = target.to_set().difference(orig.to_set());
    assert forall|name: Seq<u8>| extra.contains(name) <==> strangers.contains(name) by {
        if extra.contains(name) {
            let i = choose|i: int| #[trigger] unmatched_at(target, orig, i) && target[i] == name;
            assert(target.contains(name));
            if orig.contains(name) {
                let j = choose|j: int| 0 <= j < orig.len() && orig[j] == name;
                if j < target.len() && target[j] == name {
                    assert(i == j);
                }
                assert(unmatched_at(orig, target, j));
                assert(false);
            }
        }
        if strangers.contains(name) {
            let i = choose|i: int| 0 <= i < target.len() && target[i] == name;
            if i < orig.len() && orig[i] == name {
                assert(orig.contains(name));
            }
            assert(unmatched_at(target, orig, i));
            if unmatched(orig, target).contains(name) {
                let j = choose|j: int| #[trigger] unmatched_at(orig, target, j) && orig[j] == name;
                assert(orig.contains(name));
            }
        }
    }
    assert(extra =~= strangers);
}

/// A copy that lists the names that the source lists, in whatever order, has
/// nothing to remove.
pub proof fn same_entries_need_no_removal(orig: Seq<Seq<u8>>, target: Seq<Seq<u8>>)
    requires
        orig.no_duplicates(),
        target.no_duplicates(),
        orig.to_set() == target.to_set(),
    ensures
        extra_names(orig, target) == Set::<Seq<u8>>::empty(),
{
    extra_names_are_the_strangers(orig, target);
    assert(target.to_set().difference(orig.to_set()) =~= Set::<Seq<u8>>::empty());
}

/// Once the names to remove are gone, the copy lists nothing that the source does
/// not list.
pub proof fn after_removal_only_source_names_are_left(
    orig: Seq<Seq<u8>>,
    target: Seq<Seq<u8>>,
    name: Seq<u8>,
)
    requires
        orig.no_duplicates(),
        target.no_duplicates(),
        target.contains(name),
        !extra_names(orig, target).contains(name),
    ensures
        orig.contains(name),
{
    extra_names_are_the_strangers(orig, target);
    assert(target.to_set().contains(name));
    if !orig.contains(name) {
        assert(target.to_set().difference(orig.to_set()).contains(name));
    }
}

/// Whether `name` is among `names`.
pub fn contains_name(names: &Vec<Vec<u8>>, name: &[u8]) -> (found: bool)
    ensures
        found == names_of(names@).contains(name@),
{
    let mut i: usize = 0;
    while i < names.len()
        invariant
            i <= names@.len(),
            forall|j: int| 0 <= j < i ==> names_of(names@)[j] != name@,
        decreases names@.len() - i,
    {
        if same_bytes(names[i].as_slice(), name) {
            assert(names_of(names@)[i as int] == name@);
            return true;
        }
        i += 1;
    }
    false
}

/// Whether the entry at `index` of `names` has no partner in `other`.
fn is_unmatched(names: &Vec<Vec<u8>>, other: &Vec<Vec<u8>>, index: usize) -> (res: bool)
    requires
        index < names@.len(),
    ensures
        res == unmatched_at(names_of(names@), names_of(other@), index as int),
{
    index >= other.len() || !same_bytes(other[index].as_slice(), names[index].as_slice())
}

/// Whether `name` is a name of `names` without a partner in `other`.
fn is_waiting(names: &Vec<Vec<u8>>, other: &Vec<Vec<u8>>, name: &[u8]) -> (res: bool)
    ensures
        res == unmatched(names_of(names@), names_of(other@)).contains(name@),
{
    let ghost ns = names_of(names@);
    let ghost os = names_of(other@);
    let mut i: usize = 0;
    while i < names.len()
        invariant
            i <= names@.len(),
            ns == names_of(names@),
            os == names_of(other@),
            forall|j: int| 0 <= j < i ==> !(#[trigger] unmatched_at(ns, os, j) && ns[j] == name@),
        decreases names@.len() - i,
    {
        if is_unmatched(names, other, i) && same_bytes(names[i].as_slice(), name) {
            assert(unmatched_at(ns, os, i as int) && ns[i as int] == name@);
            return true;
        }
        i += 1;
    }
    false
}

/// What is to be done to the copy of a directory.
pub struct DirectoryFix {
    /// The copy is no directory: remove it, whatever it is, and create a directory
    /// in its place before anything else.
    pub replace: bool,
    /// The entries to remove from the copy, each named once.
    pub remove: Vec<Vec<u8>>,
    /// Whether the copy is modified by this, if the source is still what it was.
    pub verdict: Result<bool, FixError>,
}

/// Compares the listing of a directory with that of its copy, and checks that the
/// checksum of the source is the recorded one. `target_names` is `None` where the
/// copy is no directory.
pub fn fix_directory(
    orig_names: &Vec<Vec<u8>>,
    target_names: Option<&Vec<Vec<u8>>>,
    checksum: &mut Option<Checksum>,
) -> (fix: DirectoryFix)
    ensures
        fix.replace == target_names.is_none(),
        fix.verdict.is_ok() <==> (old(checksum).is_none() || *old(checksum) == Some(
            spec_directory_checksum(names_of(orig_names@)),
        )),
        fix.verdict.is_ok() ==> *final(checksum) == Some(
            spec_directory_checksum(names_of(orig_names@)),
        ),
        fix.verdict matches Err(e) ==> *final(checksum) == *old(checksum) && e
            == FixError::SourceChanged(
            crate::checksum::ChecksumMismatch {
                recorded: old(checksum).unwrap(),
                computed: spec_directory_checksum(names_of(orig_names@)),
            },
        ),
        fix.verdict matches Ok(changed) ==> changed == (fix.replace || fix.remove@.len() > 0),
        names_of(fix.remove@).no_duplicates(),
        names_of(fix.remove@).to_set() == match target_names {
            Some(names) if fix.verdict.is_ok() => extra_names(
                names_of(orig_names@),
                names_of(names@),
            ),
            _ => Set::<Seq<u8>>::empty(),
        },
{
    let res = directory_checksum(orig_names);
    let checked = fill_checksum(checksum, res);
    let mut remove: Vec<Vec<u8>> = Vec::new();
    assert(names_of(remove@).to_set() =~= Set::<Seq<u8>>::empty());
    let replace = target_names.is_none();
    if let Err(mismatch) = checked {
        return DirectoryFix { replace, remove, verdict: Err(FixError::SourceChanged(mismatch)) };
    }
    if let Some(names) = target_names {
        let ghost os = names_of(orig_names@);
        let ghost ts = names_of(names@);
        let mut i: usize = 0;
        while i < names.len()
            invariant
                i <= names@.len(),
                os == names_of(orig_names@),
                ts == names_of(names@),
                names_of(remove@).no_duplicates(),
                forall|name: Seq<u8>| #[trigger]
                    names_of(remove@).contains(name) <==> (!unmatched(os, ts).contains(name)
                        && exists|j: int|
                        0 <= j < i && #[trigger] unmatched_at(ts, os, j) && ts[j] == name),
            decreases names@.len() - i,
        {
            let name = names[i].as_slice();
            let ghost before = names_of(remove@);
            if is_unmatched(names, orig_names, i) && !is_waiting(orig_names, names, name)
                && !contains_name(&remove, name) {
                remove.push(crate::path::copy_bytes(name));
                assert(names_of(remove@) =~= before.push(name@));
                assert forall|n: Seq<u8>| #[trigger] names_of(remove@).contains(n) <==> (before.contains(n) || n == name@) by {
                    if names_of(remove@).contains(n) {
                        let k = choose|k: int| 0 <= k < names_of(remove@).len() && names_of(remove@)[k] == n;
                        if k < before.len() {
                            assert(before[k] == n);
                        }
                    }
                    if before.contains(n) {
                        let k = choose|k: int| 0 <= k < before.len() && before[k] == n;
                        assert(names_of(remove@)[k] == n);
                    }
                    if n == name@ {
                        assert(names_of(remove@)[before.len() as int] == n);
                    }
                }
            }
            assert forall|n: Seq<u8>| #[trigger] names_of(remove@).contains(n) <==> (!unmatched(os, ts).contains(n)
                        && exists|j: int|
                        0 <= j < i + 1 && #[trigger] unmatched_at(ts, os, j) && ts[j] == n) by {
                if names_of(remove@).contains(n) {
                    if before.contains(n) {
                        let j = choose|j: int| 0 <= j < i && #[trigger] unmatched_at(ts, os, j) && ts[j] == n;
                        assert(0 <= j < i + 1 && unmatched_at(ts, os, j) && ts[j] == n);
                    } else {
                        assert(unmatched_at(ts, os, i as int) && ts[i as int] == n);
                    }
                }
                if !unmatched(os, ts).contains(n) && exists|j: int| 0 <= j < i + 1 && #[trigger] unmatched_at(ts, os, j) && ts[j] == n {
                    let j = choose|j: int| 0 <= j < i + 1 && #[trigger] unmatched_at(ts, os, j) && ts[j] == n;
                    if j < i {
                        assert(before.contains(n));
                    }
                }
            }
            i += 1;
        }
        assert(names_of(remove@).to_set() =~= extra_names(os, ts)) by {
            assert forall|n: Seq<u8>| names_of(remove@).to_set().contains(n) <==> extra_names(os, ts).contains(n) by {
                if extra_names(os, ts).contains(n) {
                    let j = choose|j: int| #[trigger] unmatched_at(ts, os, j) && ts[j] == n;
                    assert(0 <= j < i && unmatched_at(ts, os, j) && ts[j] == n);
                }
                if names_of(remove@).contains(n) {
                    let j = choose|j: int| 0 <= j < i && #[trigger] unmatched_at(ts, os, j) && ts[j] == n;
                    assert(unmatched(ts, os).contains(n));
                }
            }
        }
    }
    let changed = replace || remove.len() > 0;
    DirectoryFix { replace, remove, verdict: Ok(changed) }
}

} // verus!
