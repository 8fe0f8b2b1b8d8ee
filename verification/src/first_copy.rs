//! The first pass over the source: every entry gets its place under the
//! destination and is copied there, or fixed where something is there already,
//! and leaves an obligation with the checksum of what was read.

use crate::checksum::Checksum;
use crate::engine::Obligation;
use crate::engine::ObligationView;
use crate::path::change_prefixes;
use crate::path::changed_prefix;
use crate::path::FsPath;
use crate::path::Part;
use crate::utils::copy_size;
use crate::utils::spec_copy_size;
use crate::utils::ErrorKind;
use crate::utils::FileKind;
use crate::utils::IoError;
use crate::utils::Metadata;
use vstd::prelude::*;

verus! {

/// An entry of the source, with what a probe that follows no link says of it.
pub struct Entry {
    pub path: FsPath,
    pub meta: Metadata,
}

/// An entry, its path taken as a sequence of components.
pub struct EntryView {
    pub path: Seq<Part>,
    pub meta: Metadata,
}

impl View for Entry {
    type V = EntryView;

    open spec fn view(&self) -> EntryView {
        EntryView { path: self.path@, meta: self.meta }
    }
}

/// The views of a list of entries.
pub open spec fn entry_views(entries: Seq<Entry>) -> Seq<EntryView> {
    entries.map_values(|e: Entry| e@)
}

/// Why the first pass failed.
#[derive(PartialEq, Eq, Debug, Clone, Copy)]
pub enum SeedError {
    /// The entry at `index` does not lie below the source.
    Outside { index: usize },
    /// The probe of a destination failed, and not because nothing was found.
    Io(IoError),
    /// A report did not answer what was asked for.
    Confused,
}

/// Where the first pass stands.
#[derive(PartialEq, Eq, Debug, Clone, Copy, Structural)]
pub enum SeedPhase {
    /// The entries below the source are being listed.
    Walking,
    /// The destination of the entry at `next` is being probed.
    Probing,
    /// The entry at `next` is being copied, or its copy fixed.
    Seeding,
    Finished,
    Failed,
}

/// What the first pass asks for.
#[derive(PartialEq, Eq, Debug, Clone, Copy)]
pub enum SeedDirective {
    /// List the source and everything below it, each directory before what it
    /// holds, following no link, and report with `SeedReport::Walked`.
    Walk,
    /// Probe the destination of the entry at `index` without following links, and
    /// report with `SeedReport::Probed`.
    Probe { index: usize },
    /// Fix the copy of the entry at `index`, with no checksum on record, and report
    /// the checksum with `SeedReport::Seeded`.
    Fix { index: usize },
    /// Copy the entry at `index`, and report its checksum with `SeedReport::Seeded`.
    Copy { index: usize },
    /// Every entry has its obligation.
    Done,
    Fail(SeedError),
}

/// What the first pass is told.
pub enum SeedReport {
    Walked(Vec<Entry>),
    Probed(Result<Metadata, IoError>),
    Seeded(Checksum),
}

/// What the first pass is told, as plain values.
pub enum SeedReportView {
    Walked(Seq<EntryView>),
    Probed(Result<Metadata, IoError>),
    Seeded(Checksum),
}

impl View for SeedReport {
    type V = SeedReportView;

    open spec fn view(&self) -> SeedReportView {
        match self {
            SeedReport::Walked(entries) => SeedReportView::Walked(entry_views(entries@)),
            SeedReport::Probed(probe) => SeedReportView::Probed(*probe),
            SeedReport::Seeded(checksum) => SeedReportView::Seeded(*checksum),
        }
    }
}

/// The state of the first pass.
pub struct SeedState {
    pub phase: SeedPhase,
    /// The source and the destination of the run.
    pub orig: Seq<Part>,
    pub target: Seq<Part>,
    /// The entries of the source.
    pub entries: Seq<EntryView>,
    /// Which of them is being handled.
    pub next: int,
    /// Whether something was found at its destination.
    pub found: bool,
    /// The obligations of the entries that were handled.
    pub obligations: Seq<ObligationView>,
    pub error: SeedError,
}

/// Where the copy of `path` goes.
pub open spec fn destination(path: Seq<Part>, orig: Seq<Part>, target: Seq<Part>) -> Seq<Part> {
    changed_prefix(path, orig.len() as int, target)
}

/// The copy of an entry below the source goes below the destination, under the
/// same names: what follows the source in its path follows the destination.
pub proof fn destination_is_below_target(path: Seq<Part>, orig: Seq<Part>, target: Seq<Part>)
    requires
        orig.is_prefix_of(path),
        crate::path::plain(path.skip(orig.len() as int)),
    ensures
        destination(path, orig, target) == target + path.skip(orig.len() as int),
        destination(orig, orig, target) == target,
{
    crate::path::changed_prefix_is_concatenation(path, orig, target);
    assert(orig.skip(orig.len() as int) =~= Seq::<Part>::empty());
    assert(crate::path::pushed_all(target, Seq::<Part>::empty()) == target);
}

/// The obligation that an entry leaves once its checksum is known.
pub open spec fn obligation_of(
    entry: EntryView,
    orig: Seq<Part>,
    target: Seq<Part>,
    checksum: Checksum,
) -> ObligationView {
    ObligationView {
        source: entry.path,
        dest: destination(entry.path, orig, target),
        checksum,
        size: spec_copy_size(&entry.meta),
    }
}

impl SeedState {
    /// The first pass over `orig`, of which a probe said `meta`: a directory is
    /// walked, anything else is the only entry.
    pub open spec fn start(orig: Seq<Part>, target: Seq<Part>, meta: Metadata) -> SeedState {
        let state = SeedState {
            phase: SeedPhase::Walking,
            orig,
            target,
            entries: Seq::empty(),
            next: 0,
            found: false,
            obligations: Seq::empty(),
            error: SeedError::Confused,
        };
        if FileKind::of_mode(meta.mode) == FileKind::Directory {
            state
        } else {
            state.walked(seq![EntryView { path: orig, meta }])
        }
    }

    /// The state once the first pass has failed with `error`.
    pub open spec fn fail(self, error: SeedError) -> SeedState {
        SeedState { phase: SeedPhase::Failed, error, ..self }
    }

    /// The state once the entry at `next` is up.
    pub open spec fn at(self, next: int) -> SeedState {
        if next >= self.entries.len() {
            SeedState { phase: SeedPhase::Finished, next, ..self }
        } else if !self.orig.is_prefix_of(self.entries[next].path) {
            SeedState { next, ..self }.fail(SeedError::Outside { index: next as usize })
        } else {
            SeedState { phase: SeedPhase::Probing, next, ..self }
        }
    }

    /// The state once the entries are known.
    pub open spec fn walked(self, entries: Seq<EntryView>) -> SeedState {
        SeedState { entries, ..self }.at(0)
    }

    /// The state after `report`.
    pub open spec fn step(self, report: SeedReportView) -> SeedState {
        match (self.phase, report) {
            (SeedPhase::Finished, _) => self,
            (SeedPhase::Failed, _) => self,
            (SeedPhase::Walking, SeedReportView::Walked(entries)) => self.walked(entries),
            (SeedPhase::Probing, SeedReportView::Probed(probe)) => match probe {
                Ok(_) => SeedState { phase: SeedPhase::Seeding, found: true, ..self },
                Err(e) => if e.kind == ErrorKind::NotFound {
                    SeedState { phase: SeedPhase::Seeding, found: false, ..self }
                } else {
                    self.fail(SeedError::Io(e))
                },
            },
            (SeedPhase::Seeding, SeedReportView::Seeded(checksum)) => SeedState {
                obligations: self.obligations.push(
                    obligation_of(self.entries[self.next], self.orig, self.target, checksum),
                ),
                ..self
            }.at(self.next + 1),
            _ => self.fail(SeedError::Confused),
        }
    }

    /// What is asked for in this state.
    pub open spec fn pending(self) -> SeedDirective {
        match self.phase {
            SeedPhase::Walking => SeedDirective::Walk,
            SeedPhase::Probing => SeedDirective::Probe { index: self.next as usize },
            SeedPhase::Seeding => if self.found {
                SeedDirective::Fix { index: self.next as usize }
            } else {
                SeedDirective::Copy { index: self.next as usize }
            },
            SeedPhase::Finished => SeedDirective::Done,
            SeedPhase::Failed => SeedDirective::Fail(self.error),
        }
    }

    /// What holds of every state that the first pass can reach.
    pub open spec fn wf(self) -> bool {
        &&& 0 <= self.next
        &&& self.entries.len() <= usize::MAX
        &&& self.phase != SeedPhase::Failed ==> self.obligations.len() == self.next
        &&& self.phase == SeedPhase::Probing || self.phase == SeedPhase::Seeding ==> {
            &&& self.next < self.entries.len()
            &&& self.orig.is_prefix_of(self.entries[self.next].path)
        }
        &&& self.phase == SeedPhase::Finished ==> self.next == self.entries.len()
        &&& self.phase == SeedPhase::Walking ==> self.next == 0
        &&& forall|i: int|
            0 <= i < self.obligations.len() && i < self.entries.len() ==> {
                let o = #[trigger] self.obligations[i];
                let e = self.entries[i];
                o == obligation_of(e, self.orig, self.target, o.checksum)
            }
    }
}

/// Every step of the first pass leads to a state that it can reach.
pub proof fn seed_step_keeps_wf(state: SeedState, report: SeedReportView)
    requires
        state.wf(),
        report matches SeedReportView::Walked(entries) ==> entries.len() <= usize::MAX,
    ensures
        state.step(report).wf(),
{
}

/// When the first pass is done, every entry of the source has left one obligation,
/// in the order of the entries: for that entry, with its place under the destination
/// and its size.
pub proof fn seeded_obligations_cover_entries(state: SeedState)
    requires
        state.wf(),
        state.phase == SeedPhase::Finished,
    ensures
        state.obligations.len() == state.entries.len(),
        forall|i: int|
            0 <= i < state.entries.len() ==> {
                let o = #[trigger] state.obligations[i];
                &&& o.source == state.entries[i].path
                &&& o.dest == destination(state.entries[i].path, state.orig, state.target)
                &&& o.size == spec_copy_size(&state.entries[i].meta)
            },
{
}

/// Makes the first copy of a source and seeds the obligations.
pub struct FirstCopy {
    phase: SeedPhase,
    orig: FsPath,
    target: FsPath,
    entries: Vec<Entry>,
    next: usize,
    found: bool,
    dest: FsPath,
    obligations: Vec<Obligation>,
    error: SeedError,
}

impl View for FirstCopy {
    type V = SeedState;

    closed spec fn view(&self) -> SeedState {
        SeedState {
            phase: self.phase,
            orig: self.orig@,
            target: self.target@,
            entries: entry_views(self.entries@),
            next: self.next as int,
            found: self.found,
            obligations: crate::engine::views(self.obligations@),
            error: self.error,
        }
    }
}

impl FirstCopy {
    /// Whether the destination of the entry at hand is at hand too.
    spec fn ready(&self) -> bool {
        self.phase == SeedPhase::Probing || self.phase == SeedPhase::Seeding ==> self.dest@
            == destination(self.entries@[self.next as int].path@, self.orig@, self.target@)
    }

    /// What holds of the first pass between any two steps.
    pub closed spec fn wf(&self) -> bool {
        self@.wf() && self.ready()
    }

    /// The first pass from `orig` to `target`, and what it asks for first. `meta` is
    /// what a probe of `orig` that follows no link came back with.
    pub fn new(orig: &FsPath, target: &FsPath, meta: Metadata) -> (res: (FirstCopy, SeedDirective))
        ensures
            res.0@ == SeedState::start(orig@, target@, meta),
            res.0.wf(),
            res.1 == res.0@.pending(),
    {
        let mut seeder = FirstCopy {
            phase: SeedPhase::Walking,
            orig: orig.clone(),
            target: target.clone(),
            entries: Vec::new(),
            next: 0,
            found: false,
            dest: FsPath::new(),
            obligations: Vec::new(),
            error: SeedError::Confused,
        };
        assert(entry_views(seeder.entries@) =~= Seq::empty());
        assert(crate::engine::views(seeder.obligations@) =~= Seq::empty());
        match FileKind::of_metadata(&meta) {
            FileKind::Directory => (seeder, SeedDirective::Walk),
            _ => {
                let mut entries: Vec<Entry> = Vec::new();
                entries.push(Entry { path: orig.clone(), meta });
                assert(entry_views(entries@) =~= seq![EntryView { path: orig@, meta }]);
                let directive = seeder.walked(entries);
                (seeder, directive)
            },
        }
    }

    fn fail(&mut self, error: SeedError) -> (directive: SeedDirective)
        ensures
            final(self)@ == old(self)@.fail(error),
            directive == final(self)@.pending(),
    {
        self.phase = SeedPhase::Failed;
        self.error = error;
        SeedDirective::Fail(error)
    }

    fn at(&mut self, next: usize) -> (directive: SeedDirective)
        ensures
            final(self)@ == old(self)@.at(next as int),
            final(self).ready(),
            directive == final(self)@.pending(),
    {
        self.next = next;
        if next >= self.entries.len() {
            self.phase = SeedPhase::Finished;
            SeedDirective::Done
        } else {
            let change = change_prefixes(&self.orig, &self.target);
            if !change.applies_to(&self.entries[next].path) {
                self.fail(SeedError::Outside { index: next })
            } else {
                self.dest = change.apply(&self.entries[next].path);
                self.phase = SeedPhase::Probing;
                SeedDirective::Probe { index: next }
            }
        }
    }

    fn walked(&mut self, entries: Vec<Entry>) -> (directive: SeedDirective)
        ensures
            final(self)@ == old(self)@.walked(entry_views(entries@)),
            final(self).ready(),
            directive == final(self)@.pending(),
    {
        self.entries = entries;
        self.at(0)
    }

    /// The entries of the source, once they are known.
    pub fn entries(&self) -> (entries: &Vec<Entry>)
        ensures
            entry_views(entries@) == self@.entries,
    {
        &self.entries
    }

    /// Where the copy of the entry at hand goes.
    pub fn dest(&self) -> (dest: &FsPath)
        requires
            self.wf(),
            self@.phase == SeedPhase::Probing || self@.phase == SeedPhase::Seeding,
        ensures
            dest@ == destination(self@.entries[self@.next].path, self@.orig, self@.target),
    {
        &self.dest
    }

    /// The number of bytes that the entries hold, as far as the sum can be counted:
    /// what the first round has to get through.
    pub fn total_size(&self) -> (total: u64)
        ensures
            total == entries_size(self@.entries),
    {
        let ghost all = entry_views(self.entries@);
        let mut total: u64 = 0;
        let mut i: usize = 0;
        while i < self.entries.len()
            invariant
                i <= self.entries@.len(),
                all == entry_views(self.entries@),
                total == entries_size(all.take(i as int)),
            decreases self.entries@.len() - i,
        {
            assert(all.take(i + 1).drop_last() == all.take(i as int));
            total = total.saturating_add(copy_size(&self.entries[i].meta));
            i += 1;
        }
        assert(all.take(i as int) == all);
        total
    }

    /// The obligations seeded so far.
    pub fn obligations(&self) -> (obligations: &Vec<Obligation>)
        ensures
            crate::engine::views(obligations@) == self@.obligations,
    {
        &self.obligations
    }

    /// Hands over the obligations.
    pub fn into_obligations(self) -> (obligations: Vec<Obligation>)
        ensures
            crate::engine::views(obligations@) == self@.obligations,
    {
        self.obligations
    }

    /// Takes in what became of the last directive and says what to do next.
    pub fn step(&mut self, report: SeedReport) -> (directive: SeedDirective)
        requires
            old(self).wf(),
        ensures
            final(self)@ == old(self)@.step(report@),
            final(self).wf(),
            directive == final(self)@.pending(),
    {
        proof {
            if report is Walked {
                assert(entry_views(report->Walked_0@).len() == report->Walked_0.len());
            }
            seed_step_keeps_wf(self@, report@);
        }
        match self.phase {
            SeedPhase::Finished => {
                return SeedDirective::Done;
            },
            SeedPhase::Failed => {
                return SeedDirective::Fail(self.error);
            },
            _ => {},
        }
        match report {
            SeedReport::Walked(entries) => match self.phase {
                SeedPhase::Walking => self.walked(entries),
                _ => self.fail(SeedError::Confused),
            },
            SeedReport::Probed(probe) => match self.phase {
                SeedPhase::Probing => match crate::utils::path_exists(&probe) {
                    Ok(found) => {
                        self.found = found;
                        self.phase = SeedPhase::Seeding;
                        if found {
                            SeedDirective::Fix { index: self.next }
                        } else {
                            SeedDirective::Copy { index: self.next }
                        }
                    },
                    Err(e) => self.fail(SeedError::Io(e)),
                },
                _ => self.fail(SeedError::Confused),
            },
            SeedReport::Seeded(checksum) => match self.phase {
                SeedPhase::Seeding => {
                    let entry = &self.entries[self.next];
                    let ghost so_far = crate::engine::views(self.obligations@);
                    let mut dest = FsPath::new();
                    std::mem::swap(&mut self.dest, &mut dest);
                    let obligation = Obligation {
                        source: entry.path.clone(),
                        dest,
                        checksum,
                        size: copy_size(&entry.meta),
                    };
                    self.obligations.push(obligation);
                    assert(crate::engine::views(self.obligations@) =~= so_far.push(
                        obligation_of(
                            old(self)@.entries[old(self)@.next],
                            self.orig@,
                            self.target@,
                            checksum,
                        ),
                    ));
                    let next = self.next + 1;
                    self.at(next)
                },
                _ => self.fail(SeedError::Confused),
            },
        }
    }
}

/// The sizes of the entries added up, as far as the sum can be counted.
pub open spec fn entries_size(entries: Seq<EntryView>) -> u64
    decreases entries.len(),
{
    if entries.len() == 0 {
        0
    } else {
        let sum = entries_size(entries.drop_last()) + spec_copy_size(&entries.last().meta);
        if sum > u64::MAX {
            u64::MAX
        } else {
            sum as u64
        }
    }
}

} // verus!
