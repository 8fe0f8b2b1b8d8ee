//! Obligations and the rounds that discharge them: after the first copy every
//! obligation is verified again and again, with the caches dropped in between,
//! until a round finds nothing left to fix.

use crate::cache::Replacement;
use crate::checksum::Checksum;
use crate::path::change_prefixes;
use crate::path::changed_prefix;
use crate::path::FsPath;
use crate::path::Part;
use vstd::prelude::*;

verus! {

/// A copy that is still to be verified.
#[derive(Debug, PartialEq, Eq, Hash)]
pub struct Obligation {
    pub source: FsPath,
    pub dest: FsPath,
    /// The checksum of the source when it was first read.
    pub checksum: Checksum,
    /// How many bytes there are to compare. It only paces the progress.
    pub size: u64,
}

/// An obligation, its paths taken as sequences of components.
pub struct ObligationView {
    pub source: Seq<Part>,
    pub dest: Seq<Part>,
    pub checksum: Checksum,
    pub size: u64,
}

impl View for Obligation {
    type V = ObligationView;

    open spec fn view(&self) -> ObligationView {
        ObligationView {
            source: self.source@,
            dest: self.dest@,
            checksum: self.checksum,
            size: self.size,
        }
    }
}

impl Clone for Obligation {
    fn clone(&self) -> (copy: Obligation)
        ensures
            copy@ == self@,
    {
        Obligation {
            source: self.source.clone(),
            dest: self.dest.clone(),
            checksum: self.checksum,
            size: self.size,
        }
    }
}

impl ObligationView {
    /// Whether two obligations are the same: they have the same source, destination
    /// and checksum.
    pub open spec fn same_as(self, other: ObligationView) -> bool {
        self.source == other.source && self.dest == other.dest && self.checksum == other.checksum
    }

    /// This obligation after what was at `before` has moved to `after`.
    pub open spec fn moved(self, before: Seq<Part>, after: Seq<Part>) -> ObligationView {
        ObligationView { dest: moved_path(self.dest, before, after), ..self }
    }
}

impl Obligation {
    /// Whether two obligations are the same.
    pub fn same_as(&self, other: &Obligation) -> (same: bool)
        ensures
            same == self@.same_as(other@),
    {
        self.source.same_as(&other.source) && self.dest.same_as(&other.dest) && self.checksum
            == other.checksum
    }
}

/// Where `path` is found after what was at `before` has moved to `after`: a path
/// below `before` has that prefix replaced, any other stays.
pub open spec fn moved_path(path: Seq<Part>, before: Seq<Part>, after: Seq<Part>) -> Seq<Part> {
    if before.is_prefix_of(path) {
        changed_prefix(path, before.len() as int, after)
    } else {
        path
    }
}

/// Where `path` is found after what was at `before` has moved to `after`.
pub fn move_path(path: &FsPath, before: &FsPath, after: &FsPath) -> (moved: FsPath)
    ensures
        moved@ == moved_path(path@, before@, after@),
{
    let change = change_prefixes(before, after);
    if change.applies_to(path) {
        change.apply(path)
    } else {
        path.clone()
    }
}

/// The views of a list of obligations.
pub open spec fn views(obligations: Seq<Obligation>) -> Seq<ObligationView> {
    obligations.map_values(|o: Obligation| o@)
}

/// The sizes of the obligations added up, as far as the sum can be counted.
pub open spec fn total_size(obligations: Seq<ObligationView>) -> u64
    decreases obligations.len(),
{
    if obligations.len() == 0 {
        0
    } else {
        let sum = total_size(obligations.drop_last()) + obligations.last().size;
        if sum > u64::MAX {
            u64::MAX
        } else {
            sum as u64
        }
    }
}

/// Where a run stands.
#[derive(PartialEq, Eq, Debug, Clone, Copy, Structural)]
pub enum RunPhase {
    /// The caches are being dropped before a round.
    Dropping,
    /// The obligation at `next` is being verified.
    Fixing,
    /// No obligation is left.
    Converged,
    /// One round was all that was allowed, and it left something to fix.
    StillToFix,
    /// A report did not answer what was asked for.
    Confused,
}

/// The state of a run.
pub struct RunState {
    pub phase: RunPhase,
    /// The obligations of this round.
    pub obligations: Seq<ObligationView>,
    /// Which of them is being verified.
    pub next: int,
    /// Those verified in this round that needed a change.
    pub kept: Seq<ObligationView>,
    /// Whether to give up after one round.
    pub once: bool,
}

/// What the driver is told.
pub enum ReportView {
    /// The caches were dropped, and maybe the destination moved.
    Dropped(Option<(Seq<Part>, Seq<Part>)>),
    /// The obligation was verified, and its destination was modified or not.
    Fixed(bool),
}

/// What the driver asks for.
#[derive(PartialEq, Eq, Debug, Clone, Copy, Structural)]
pub enum Directive {
    /// Drop the caches below the destination, and report with `Report::Dropped`.
    DropCache,
    /// Verify the obligation at `index` against its recorded checksum, and report
    /// with `Report::Fixed`.
    Fix { index: usize },
    /// Every obligation is discharged.
    Done,
    /// Fail: there are still files to fix.
    Fail,
    /// Fail: the report did not answer what was asked for.
    Confused,
}

impl RunState {
    /// The state of a run that has not begun.
    pub open spec fn start(obligations: Seq<ObligationView>, once: bool) -> RunState {
        RunState {
            phase: if obligations.len() == 0 {
                RunPhase::Converged
            } else {
                RunPhase::Dropping
            },
            obligations,
            next: 0,
            kept: Seq::empty(),
            once,
        }
    }

    /// The state at the end of a round that kept `kept`.
    pub open spec fn round_ended(self, kept: Seq<ObligationView>) -> RunState {
        RunState {
            phase: if kept.len() == 0 {
                RunPhase::Converged
            } else if self.once {
                RunPhase::StillToFix
            } else {
                RunPhase::Dropping
            },
            obligations: kept,
            next: 0,
            kept: Seq::empty(),
            once: self.once,
        }
    }

    /// The state after `report`.
    pub open spec fn step(self, report: ReportView) -> RunState {
        match (self.phase, report) {
            (RunPhase::Dropping, ReportView::Dropped(replacement)) => RunState {
                phase: RunPhase::Fixing,
                obligations: match replacement {
                    Some((before, after)) => self.obligations.map_values(
                        |o: ObligationView| o.moved(before, after),
                    ),
                    None => self.obligations,
                },
                next: 0,
                kept: Seq::empty(),
                once: self.once,
            },
            (RunPhase::Fixing, ReportView::Fixed(changed)) => {
                let kept = if changed {
                    self.kept.push(self.obligations[self.next])
                } else {
                    self.kept
                };
                if self.next + 1 < self.obligations.len() {
                    RunState { next: self.next + 1, kept, ..self }
                } else {
                    self.round_ended(kept)
                }
            },
            (RunPhase::Converged, _) => self,
            (RunPhase::StillToFix, _) => self,
            _ => RunState { phase: RunPhase::Confused, ..self },
        }
    }

    /// What is asked for in this state.
    pub open spec fn pending(self) -> Directive {
        match self.phase {
            RunPhase::Dropping => Directive::DropCache,
            RunPhase::Fixing => Directive::Fix { index: self.next as usize },
            RunPhase::Converged => Directive::Done,
            RunPhase::StillToFix => Directive::Fail,
            RunPhase::Confused => Directive::Confused,
        }
    }

    /// What holds of every state that a run can reach.
    pub open spec fn wf(self) -> bool {
        &&& 0 <= self.next
        &&& self.obligations.len() <= usize::MAX
        &&& self.kept.len() <= self.next
        &&& self.phase == RunPhase::Fixing ==> self.next < self.obligations.len()
        &&& self.phase == RunPhase::Dropping ==> self.obligations.len() > 0 && self.next == 0
            && self.kept.len() == 0
        &&& self.phase == RunPhase::Converged ==> self.obligations.len() == 0
        &&& self.phase == RunPhase::StillToFix ==> self.obligations.len() > 0
    }
}

/// Every step of a run leads to a state that a run can reach.
pub proof fn run_step_keeps_wf(state: RunState, report: ReportView)
    requires
        state.wf(),
    ensures
        state.step(report).wf(),
{
}

/// What the driver is told.
pub enum Report {
    /// The caches were dropped, and maybe the destination moved.
    Dropped(Option<Replacement>),
    /// The obligation was verified, and its destination was modified or not.
    Fixed(bool),
}

impl View for Report {
    type V = ReportView;

    open spec fn view(&self) -> ReportView {
        match self {
            Report::Dropped(Some(r)) => ReportView::Dropped(Some((r.before@, r.after@))),
            Report::Dropped(None) => ReportView::Dropped(None),
            Report::Fixed(changed) => ReportView::Fixed(*changed),
        }
    }
}

/// Drives the rounds of a run.
pub struct Driver {
    phase: RunPhase,
    obligations: Vec<Obligation>,
    next: usize,
    kept: Vec<Obligation>,
    once: bool,
}

impl View for Driver {
    type V = RunState;

    closed spec fn view(&self) -> RunState {
        RunState {
            phase: self.phase,
            obligations: views(self.obligations@),
            next: self.next as int,
            kept: views(self.kept@),
            once: self.once,
        }
    }
}

impl Driver {
    /// A run that is to discharge `obligations`, in one round only if `once` says
    /// so, and what it asks for first.
    pub fn new(obligations: Vec<Obligation>, once: bool) -> (res: (Driver, Directive))
        ensures
            res.0@ == RunState::start(views(obligations@), once),
            res.0@.wf(),
            res.1 == res.0@.pending(),
    {
        let (phase, directive) = if obligations.len() == 0 {
            (RunPhase::Converged, Directive::Done)
        } else {
            (RunPhase::Dropping, Directive::DropCache)
        };
        let driver = Driver { phase, obligations, next: 0, kept: Vec::new(), once };
        assert(views(driver.kept@) =~= Seq::empty());
        (driver, directive)
    }

    /// The obligations of the round at hand.
    pub fn obligations(&self) -> (obligations: &Vec<Obligation>)
        ensures
            views(obligations@) == self@.obligations,
    {
        &self.obligations
    }

    /// The number of bytes to compare in the round at hand.
    pub fn total_size(&self) -> (total: u64)
        ensures
            total == total_size(self@.obligations),
    {
        let ghost all = views(self.obligations@);
        let mut total: u64 = 0;
        let mut i: usize = 0;
        while i < self.obligations.len()
            invariant
                i <= self.obligations@.len(),
                all == views(self.obligations@),
                total == total_size(all.take(i as int)),
            decreases self.obligations@.len() - i,
        {
            assert(all.take(i + 1).drop_last() == all.take(i as int));
            total = total.saturating_add(self.obligations[i].size);
            i += 1;
        }
        assert(all.take(i as int) == all);
        total
    }

    fn rewrite(&mut self, replacement: &Replacement)
        ensures
            final(self)@ == (RunState {
                obligations: old(self)@.obligations.map_values(
                    |o: ObligationView| o.moved(replacement.before@, replacement.after@),
                ),
                ..old(self)@
            }),
    {
        let ghost before = self@.obligations;
        let ghost goal = before.map_values(
            |o: ObligationView| o.moved(replacement.before@, replacement.after@),
        );
        let mut moved: Vec<Obligation> = Vec::new();
        let mut i: usize = 0;
        while i < self.obligations.len()
            invariant
                i <= self.obligations@.len(),
                views(self.obligations@) == before,
                goal == before.map_values(
                    |o: ObligationView| o.moved(replacement.before@, replacement.after@),
                ),
                views(moved@) == goal.take(i as int),
            decreases self.obligations@.len() - i,
        {
            let o = &self.obligations[i];
            assert(o@ == before[i as int]);
            let dest = move_path(&o.dest, &replacement.before, &replacement.after);
            let ghost so_far = views(moved@);
            moved.push(
                Obligation { source: o.source.clone(), dest, checksum: o.checksum, size: o.size },
            );
            assert(views(moved@) =~= so_far.push(goal[i as int]));
            assert(goal.take(i + 1) =~= goal.take(i as int).push(goal[i as int]));
            i += 1;
        }
        assert(goal.take(i as int) =~= goal);
        self.obligations = moved;
    }

    fn end_round(&mut self) -> (directive: Directive)
        requires
            old(self)@.kept.len() <= usize::MAX,
        ensures
            final(self)@ == old(self)@.round_ended(old(self)@.kept),
            directive == final(self)@.pending(),
    {
        let mut kept: Vec<Obligation> = Vec::new();
        std::mem::swap(&mut self.kept, &mut kept);
        self.obligations = kept;
        self.next = 0;
        assert(views(self.kept@) =~= Seq::empty());
        if self.obligations.len() == 0 {
            self.phase = RunPhase::Converged;
            Directive::Done
        } else if self.once {
            self.phase = RunPhase::StillToFix;
            Directive::Fail
        } else {
            self.phase = RunPhase::Dropping;
            Directive::DropCache
        }
    }

    /// Takes in what became of the last directive and says what to do next.
    pub fn step(&mut self, report: Report) -> (directive: Directive)
        requires
            old(self)@.wf(),
        ensures
            final(self)@ == old(self)@.step(report@),
            final(self)@.wf(),
            directive == final(self)@.pending(),
    {
        proof {
            run_step_keeps_wf(self@, report@);
        }
        match self.phase {
            RunPhase::Converged => {
                return Directive::Done;
            },
            RunPhase::StillToFix => {
                return Directive::Fail;
            },
            _ => {},
        }
        match report {
            Report::Dropped(replacement) => match self.phase {
                RunPhase::Dropping => {
                    match replacement {
                        Some(r) => {
                            self.rewrite(&r);
                        },
                        None => {},
                    }
                    self.phase = RunPhase::Fixing;
                    self.next = 0;
                    self.kept.clear();
                    assert(views(self.kept@) =~= Seq::empty());
                    Directive::Fix { index: 0 }
                },
                _ => {
                    self.phase = RunPhase::Confused;
                    Directive::Confused
                },
            },
            Report::Fixed(changed) => match self.phase {
                RunPhase::Fixing => {
                    if changed {
                        let ghost so_far = views(self.kept@);
                        let o = self.obligations[self.next].clone();
                        self.kept.push(o);
                        assert(views(self.kept@) =~= so_far.push(
                            views(self.obligations@)[self.next as int],
                        ));
                    }
                    if self.next + 1 < self.obligations.len() {
                        self.next = self.next + 1;
                        Directive::Fix { index: self.next }
                    } else {
                        self.end_round()
                    }
                },
                _ => {
                    self.phase = RunPhase::Confused;
                    Directive::Confused
                },
            },
        }
    }
}

/// Whether every obligation of `part` is one of `whole`.
pub open spec fn within(part: Seq<ObligationView>, whole: Seq<ObligationView>) -> bool {
    forall|k: int| 0 <= k < part.len() ==> whole.contains(#[trigger] part[k])
}

impl RunState {
    /// What was kept so far in a round is among the obligations of the round that
    /// were verified so far.
    pub open spec fn shrinking(self) -> bool {
        self.phase == RunPhase::Fixing ==> within(self.kept, self.obligations.take(self.next))
    }
}

/// The obligations only ever get fewer: whatever a round keeps for the next is one
/// of its own obligations that needed a change, and a round keeps no more than it had.
pub proof fn run_step_shrinks(state: RunState, changed: bool)
    requires
        state.wf(),
        state.shrinking(),
    ensures
        state.step(ReportView::Fixed(changed)).shrinking(),
        within(state.step(ReportView::Fixed(changed)).obligations, state.obligations),
        state.step(ReportView::Fixed(changed)).obligations.len() <= state.obligations.len(),
{
    let later = state.step(ReportView::Fixed(changed));
    if state.phase == RunPhase::Fixing {
        let seen = state.obligations.take(state.next);
        let seen_now = state.obligations.take(state.next + 1);
        let kept = if changed {
            state.kept.push(state.obligations[state.next])
        } else {
            state.kept
        };
        assert forall|k: int| 0 <= k < kept.len() implies seen_now.contains(#[trigger] kept[k]) by {
            if k < state.kept.len() {
                let i = choose|i: int| 0 <= i < seen.len() && seen[i] == state.kept[k];
                assert(seen_now[i] == kept[k]);
            } else {
                assert(seen_now[state.next] == kept[k]);
            }
        }
        assert forall|k: int| 0 <= k < kept.len() implies state.obligations.contains(
            #[trigger] kept[k],
        ) by {
            let i = choose|i: int| 0 <= i < seen_now.len() && seen_now[i] == kept[k];
            assert(state.obligations[i] == kept[k]);
        }
        if later.phase == RunPhase::Fixing {
            assert(later.obligations.take(later.next) == seen_now);
        }
    } else {
        assert forall|k: int| 0 <= k < later.obligations.len() implies state.obligations.contains(
            #[trigger] later.obligations[k],
        ) by {
            assert(state.obligations[k] == later.obligations[k]);
        }
    }
}

/// When the caches were dropped, a round begins with as many obligations as there
/// were, each for the same source with the same checksum, and nothing kept yet.
pub proof fn run_drop_keeps_obligations(state: RunState, moved: Option<(Seq<Part>, Seq<Part>)>)
    requires
        state.wf(),
        state.phase == RunPhase::Dropping,
    ensures
        state.step(ReportView::Dropped(moved)).shrinking(),
        state.step(ReportView::Dropped(moved)).obligations.len() == state.obligations.len(),
        forall|i: int|
            0 <= i < state.obligations.len() ==> {
                let was = #[trigger] state.obligations[i];
                let is = state.step(ReportView::Dropped(moved)).obligations[i];
                &&& is.source == was.source
                &&& is.checksum == was.checksum
                &&& is.size == was.size
                &&& moved.is_none() ==> is.dest == was.dest
            },
{
}

/// A round that finds an obligation changed does not end the run.
pub proof fn changed_round_goes_on(state: RunState, changed: bool)
    requires
        state.wf(),
        state.phase == RunPhase::Fixing,
        state.kept.len() > 0 || changed,
    ensures
        state.step(ReportView::Fixed(changed)).phase != RunPhase::Converged,
        state.step(ReportView::Fixed(changed)).phase == RunPhase::StillToFix <==> (state.once
            && state.next + 1 == state.obligations.len()),
{
}

/// The state after the obligations at hand were reported one after the other:
/// `changed` tells of each whether its destination was modified.
pub open spec fn after_reports(state: RunState, changed: Seq<bool>) -> RunState
    decreases changed.len(),
{
    if changed.len() == 0 {
        state
    } else {
        after_reports(state.step(ReportView::Fixed(changed[0])), changed.skip(1))
    }
}

/// Those of `obligations` whose destination was modified, in their order.
pub open spec fn retained(obligations: Seq<ObligationView>, changed: Seq<bool>) -> Seq<
    ObligationView,
>
    decreases obligations.len(),
{
    if obligations.len() == 0 || changed.len() == 0 {
        Seq::empty()
    } else if changed[0] {
        seq![obligations[0]] + retained(obligations.skip(1), changed.skip(1))
    } else {
        retained(obligations.skip(1), changed.skip(1))
    }
}

proof fn rest_of_round(state: RunState, changed: Seq<bool>)
    requires
        state.wf(),
        state.phase == RunPhase::Fixing,
        changed.len() == state.obligations.len() - state.next,
    ensures
        after_reports(state, changed) == state.round_ended(
            state.kept + retained(state.obligations.skip(state.next), changed),
        ),
    decreases changed.len(),
{
    let rest = state.obligations.skip(state.next);
    let later = state.step(ReportView::Fixed(changed[0]));
    let kept = if changed[0] {
        state.kept.push(state.obligations[state.next])
    } else {
        state.kept
    };
    assert(rest[0] == state.obligations[state.next]);
    if changed.len() == 1 {
        assert(retained(rest.skip(1), changed.skip(1)) =~= Seq::empty());
        assert(state.kept + retained(rest, changed) =~= kept);
        assert(after_reports(later, changed.skip(1)) == later);
    } else {
        run_step_keeps_wf(state, ReportView::Fixed(changed[0]));
        rest_of_round(later, changed.skip(1));
        assert(later.obligations.skip(later.next) =~= rest.skip(1));
        assert(state.kept + retained(rest, changed) =~= kept + retained(
            rest.skip(1),
            changed.skip(1),
        ));
    }
}

/// A round retains the obligations whose destination was modified, and no others:
/// they are the obligations of the next round. The run is over if there are none,
/// and has failed if there are some and one round was all that was allowed.
pub proof fn round_retains_what_changed(state: RunState, changed: Seq<bool>)
    requires
        state.wf(),
        state.phase == RunPhase::Fixing,
        state.next == 0,
        state.kept.len() == 0,
        changed.len() == state.obligations.len(),
    ensures
        after_reports(state, changed) == state.round_ended(retained(state.obligations, changed)),
{
    rest_of_round(state, changed);
    assert(state.obligations.skip(0) =~= state.obligations);
    assert(state.kept + retained(state.obligations, changed) =~= retained(
        state.obligations,
        changed,
    ));
}

/// A round in which no destination was modified ends the run.
pub proof fn quiet_round_converges(state: RunState, changed: Seq<bool>)
    requires
        state.wf(),
        state.phase == RunPhase::Fixing,
        state.next == 0,
        state.kept.len() == 0,
        changed.len() == state.obligations.len(),
        forall|i: int| 0 <= i < changed.len() ==> !changed[i],
    ensures
        after_reports(state, changed).pending() == Directive::Done,
        after_reports(state, changed).obligations.len() == 0,
{
    round_retains_what_changed(state, changed);
    nothing_retained(state.obligations, changed);
}

proof fn nothing_retained(obligations: Seq<ObligationView>, changed: Seq<bool>)
    requires
        forall|i: int| 0 <= i < changed.len() ==> !changed[i],
    ensures
        retained(obligations, changed).len() == 0,
    decreases obligations.len(),
{
    if obligations.len() > 0 && changed.len() > 0 {
        assert forall|i: int| 0 <= i < changed.skip(1).len() implies !changed.skip(1)[i] by {
            assert(!changed[i + 1]);
        }
        nothing_retained(obligations.skip(1), changed.skip(1));
    }
}

} // verus!
