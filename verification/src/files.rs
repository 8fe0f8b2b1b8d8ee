//! A model of the two files that a comparison works on, and what the comparison
//! in `copy` achieves on it.

use crate::checksum::Checksum;
use crate::copy::ActionView;
use crate::copy::CopyPhase;
use crate::copy::CopyState;
use crate::copy::EventView;
use crate::copy::FixPhase;
use crate::copy::FixState;
use crate::utils::FileKind;
use vstd::prelude::*;

verus! {

/// A source and a target, each with the place where its next read begins.
pub struct FileWorld {
    pub source: Seq<u8>,
    pub source_pos: int,
    pub target: Seq<u8>,
    pub target_pos: int,
    pub target_is_device: bool,
}

/// Whether a read of at most `max` bytes at `pos` may return `bytes`: they are
/// what the file holds there, and there are none only at or after its end.
pub open spec fn may_read(content: Seq<u8>, pos: int, max: usize, bytes: Seq<u8>) -> bool {
    &&& bytes.len() <= max
    &&& if pos >= content.len() {
        bytes.len() == 0
    } else {
        &&& 0 <= pos
        &&& pos + bytes.len() <= content.len()
        &&& bytes == content.subrange(pos, pos + bytes.len())
        &&& max > 0 ==> bytes.len() > 0
    }
}

/// What is left of `content` from `from` on.
pub open spec fn tail(content: Seq<u8>, from: int) -> Seq<u8> {
    if 0 <= from <= content.len() {
        content.skip(from)
    } else {
        Seq::empty()
    }
}

/// `content` after `data` was written at `offset`, which lies within it or at its end.
pub open spec fn written(content: Seq<u8>, offset: int, data: Seq<u8>) -> Seq<u8> {
    content.take(offset) + data + tail(content, offset + data.len())
}

/// Whether `content` holds the first `extent` bytes of `source`.
pub open spec fn alike(content: Seq<u8>, source: Seq<u8>, extent: int) -> bool {
    content.len() >= extent && content.take(extent) == source.take(extent)
}

impl FileWorld {
    /// Whether `event` may answer `action`, leaving the files as in `after`. Any
    /// operation may fail, and then leaves them as they were.
    pub open spec fn answers(self, action: ActionView, event: EventView, after: FileWorld) -> bool {
        ||| event is Failed && after == self
        ||| match action {
            ActionView::OpenTarget(_) => {
                &&& event == EventView::Done
                &&& after == FileWorld { source_pos: 0, target_pos: 0, ..self }
            },
            ActionView::ReadSource { max } => {
                &&& event is Data
                &&& may_read(self.source, self.source_pos, max, event->Data_0)
                &&& after == FileWorld {
                    source_pos: self.source_pos + event->Data_0.len(),
                    ..self
                }
            },
            ActionView::ReadTarget { max } => {
                &&& event is Data
                &&& may_read(self.target, self.target_pos, max, event->Data_0)
                &&& after == FileWorld {
                    target_pos: self.target_pos + event->Data_0.len(),
                    ..self
                }
            },
            ActionView::StatSource => {
                &&& event is Stat
                &&& after == self
            },
            ActionView::AppendTarget { data } => {
                &&& event == EventView::Done
                &&& 0 <= self.target_pos <= self.target.len()
                &&& after == FileWorld {
                    target: written(self.target, self.target_pos, data),
                    target_pos: self.target_pos + data.len(),
                    ..self
                }
            },
            ActionView::StatTarget => {
                &&& event is Stat
                &&& (FileKind::of_mode(event->Stat_0.mode) == FileKind::Device)
                    == self.target_is_device
                &&& after == self
            },
            ActionView::WriteTarget { offset, data } => {
                &&& event == EventView::Done
                &&& offset <= self.target.len()
                &&& after == FileWorld {
                    target: written(self.target, offset as int, data),
                    target_pos: offset + data.len(),
                    ..self
                }
            },
            ActionView::TruncateTarget { len } => {
                &&& event == EventView::Done
                &&& len <= self.target.len()
                &&& after == FileWorld { target: self.target.take(len as int), ..self }
            },
            ActionView::RemoveTarget => {
                &&& event == EventView::Done
                &&& after == FileWorld {
                    target: Seq::empty(),
                    target_is_device: false,
                    ..self
                }
            },
            _ => false,
        }
    }
}

impl FixState {
    /// How far the source was taken in.
    pub open spec fn extent(self) -> int {
        if self.phase == FixPhase::Patch {
            self.offset + self.reference.len()
        } else {
            self.offset as int
        }
    }

    /// What holds between a comparison and the files it works on, where `initial`
    /// is what the target held when the comparison began.
    pub open spec fn agrees(self, world: FileWorld, initial: Seq<u8>) -> bool {
        let source = world.source;
        let target = world.target;
        let offset = self.offset as int;
        let block = self.reference.len() as int;
        match self.phase {
            FixPhase::Open => self == FixState::start(self.slot) && target == initial,
            FixPhase::Remove => true,
            FixPhase::Recopy => self.copy.agrees(world, Seq::empty()),
            FixPhase::Failed => true,
            FixPhase::Finished => {
                &&& self.slot == Some(Checksum::of(source))
                &&& if self.recopied {
                    self.changed && target == source
                } else {
                    &&& self.changed <==> target != initial
                    &&& if world.target_is_device {
                        target == source + tail(initial, source.len() as int)
                    } else {
                        target == source
                    }
                }
            },
            _ => {
                &&& !self.recopied
                &&& offset <= source.len()
                &&& target == source.take(offset) + tail(initial, offset)
                &&& self.hashed == source.take(self.extent())
                &&& match self.phase {
                    FixPhase::Source => {
                        &&& world.source_pos == offset
                        &&& world.target_pos == offset
                        &&& self.changed <==> !alike(initial, source, offset)
                    },
                    FixPhase::Target => {
                        &&& block >= 1
                        &&& offset + block <= source.len()
                        &&& self.reference == source.subrange(offset, offset + block)
                        &&& world.source_pos == offset + block
                        &&& world.target_pos == offset + self.actual.len()
                        &&& offset + self.actual.len() <= target.len()
                        &&& self.actual == target.subrange(offset, offset + self.actual.len())
                        &&& self.changed <==> !alike(initial, source, offset)
                    },
                    FixPhase::Patch => {
                        &&& block >= 1
                        &&& offset + block <= source.len()
                        &&& self.reference == source.subrange(offset, offset + block)
                        &&& world.source_pos == offset + block
                        &&& self.changed
                        &&& !alike(initial, source, offset + block)
                    },
                    FixPhase::Kind => {
                        &&& offset == source.len()
                        &&& world.target_pos == offset
                        &&& self.changed <==> !alike(initial, source, offset)
                    },
                    FixPhase::Probe => {
                        &&& offset == source.len()
                        &&& world.target_pos == offset
                        &&& !world.target_is_device
                        &&& self.changed <==> !alike(initial, source, offset)
                    },
                    _ => {
                        &&& offset == source.len()
                        &&& !world.target_is_device
                        &&& target.len() > offset
                        &&& self.changed
                    },
                }
            },
        }
    }
}

/// A comparison that has not begun agrees with any two files.
pub proof fn fix_start_agrees(slot: Option<Checksum>, world: FileWorld)
    ensures
        FixState::start(slot).agrees(world, world.target),
        FixState::start(slot).wf(),
{
}

proof fn take_plus_block(content: Seq<u8>, offset: int, block: int)
    requires
        0 <= offset,
        0 <= block,
        offset + block <= content.len(),
    ensures
        content.take(offset) + content.subrange(offset, offset + block) == content.take(
            offset + block,
        ),
{
    assert(content.take(offset) + content.subrange(offset, offset + block) =~= content.take(
        offset + block,
    ));
}

proof fn alike_grows(initial: Seq<u8>, source: Seq<u8>, offset: int, block: int)
    requires
        0 <= offset,
        0 <= block,
        offset + block <= source.len(),
        offset + block <= initial.len(),
    ensures
        alike(initial, source, offset + block) <==> alike(initial, source, offset)
            && initial.subrange(offset, offset + block) == source.subrange(offset, offset + block),
{
    let a = initial.take(offset + block);
    let b = source.take(offset + block);
    if a == b {
        assert(initial.take(offset) =~= a.take(offset));
        assert(source.take(offset) =~= b.take(offset));
        assert(initial.subrange(offset, offset + block) =~= a.subrange(offset, offset + block));
        assert(source.subrange(offset, offset + block) =~= b.subrange(offset, offset + block));
    }
    if alike(initial, source, offset) && initial.subrange(offset, offset + block)
        == source.subrange(offset, offset + block) {
        take_plus_block(initial, offset, block);
        take_plus_block(source, offset, block);
    }
}

proof fn step_in_target(state: FixState, world: FileWorld, event: EventView, after: FileWorld, initial: Seq<u8>)
    requires
        state.wf(),
        state.phase == FixPhase::Target,
        state.agrees(world, initial),
        world.answers(state.pending(), event, after),
    ensures
        state.step(event).agrees(after, initial),
{
    let source = world.source;
    let target = world.target;
    let offset = state.offset as int;
    let block = state.reference.len() as int;
    let later = state.step(event);
    if event is Data {
        let bytes = event->Data_0;
        let have = state.actual.len() as int;
        assert(target.len() == offset + tail(initial, offset).len());
        if bytes.len() == 0 {
            // the target ends within the block
            assert(target.len() <= offset + have);
            if later.phase == FixPhase::Patch {
                take_plus_block(source, offset, block);
                assert(initial.len() < offset + block);
            }
        } else {
            let more = state.actual + bytes;
            assert(more =~= target.subrange(offset, offset + have + bytes.len()));
            if have + bytes.len() == block {
                assert(initial.len() >= offset);
                assert(initial.len() == target.len());
                assert(more =~= initial.subrange(offset, offset + block));
                alike_grows(initial, source, offset, block);
                take_plus_block(source, offset, block);
                if later.phase == FixPhase::Source {
                    assert(target =~= source.take(offset + block) + tail(initial, offset + block));
                }
            }
        }
    }
}

proof fn step_in_patch(state: FixState, world: FileWorld, event: EventView, after: FileWorld, initial: Seq<u8>)
    requires
        state.wf(),
        state.phase == FixPhase::Patch,
        state.agrees(world, initial),
        world.answers(state.pending(), event, after),
    ensures
        state.step(event).agrees(after, initial),
{
    let source = world.source;
    let target = world.target;
    let offset = state.offset as int;
    let block = state.reference.len() as int;
    if event == EventView::Done {
        take_plus_block(source, offset, block);
        assert(target.len() == offset + tail(initial, offset).len());
        assert(target.take(offset) =~= source.take(offset));
        assert(tail(target, offset + block) =~= tail(initial, offset + block));
    }
}

proof fn step_at_end(state: FixState, world: FileWorld, event: EventView, after: FileWorld, initial: Seq<u8>)
    requires
        state.wf(),
        state.phase == FixPhase::Kind || state.phase == FixPhase::Probe || state.phase
            == FixPhase::Truncate,
        state.agrees(world, initial),
        world.answers(state.pending(), event, after),
    ensures
        state.step(event).agrees(after, initial),
{
    let source = world.source;
    let target = world.target;
    let offset = state.offset as int;
    let later = state.step(event);
    assert(source.take(offset) =~= source);
    assert(target.len() == offset + tail(initial, offset).len());
    if later.phase == FixPhase::Finished {
        if state.phase == FixPhase::Kind {
            if alike(initial, source, offset) {
                assert(target =~= initial);
            } else if initial.len() >= offset {
                assert(target.take(offset) =~= source);
            }
        } else if state.phase == FixPhase::Probe {
            assert(target.len() == offset);
            assert(target =~= source);
            if alike(initial, source, offset) {
                assert(initial =~= initial.take(offset));
            } else if initial.len() == offset {
                assert(initial =~= initial.take(offset));
            }
        } else {
            assert(after.target =~= source);
        }
    }
}

proof fn step_in_source(state: FixState, world: FileWorld, event: EventView, after: FileWorld, initial: Seq<u8>)
    requires
        state.wf(),
        state.phase == FixPhase::Source,
        state.agrees(world, initial),
        world.answers(state.pending(), event, after),
    ensures
        state.step(event).agrees(after, initial),
{
    let later = state.step(event);
    if later.phase == FixPhase::Target {
        assert(later.actual =~= world.target.subrange(state.offset as int, state.offset as int));
    }
}

proof fn step_in_open(state: FixState, world: FileWorld, event: EventView, after: FileWorld, initial: Seq<u8>)
    requires
        state.wf(),
        state.phase == FixPhase::Open,
        state.agrees(world, initial),
        world.answers(state.pending(), event, after),
    ensures
        state.step(event).agrees(after, initial),
{
    assert(world.source.take(0) + tail(initial, 0) =~= initial);
    assert(world.source.take(0) =~= Seq::<u8>::empty());
    assert(initial.take(0) =~= world.source.take(0));
}

/// Each step of a comparison keeps it in agreement with the files, however many
/// bytes each read returns.
pub proof fn fix_step_agrees(
    state: FixState,
    world: FileWorld,
    event: EventView,
    after: FileWorld,
    initial: Seq<u8>,
)
    requires
        state.wf(),
        state.agrees(world, initial),
        world.answers(state.pending(), event, after),
    ensures
        state.step(event).agrees(after, initial),
        state.step(event).wf(),
{
    crate::copy::fix_step_keeps_wf(state, event);
    match state.phase {
        FixPhase::Recopy => {
            copy_step_agrees(state.copy, world, event, after, Seq::empty());
            if state.copy.step(event).phase == CopyPhase::Finished {
                copy_finished_is_equal(state.copy.step(event), after, Seq::empty());
            }
        },
        FixPhase::Target => step_in_target(state, world, event, after, initial),
        FixPhase::Patch => step_in_patch(state, world, event, after, initial),
        FixPhase::Kind | FixPhase::Probe | FixPhase::Truncate => step_at_end(
            state,
            world,
            event,
            after,
            initial,
        ),
        FixPhase::Source => step_in_source(state, world, event, after, initial),
        FixPhase::Open => step_in_open(state, world, event, after, initial),
        _ => {},
    }
}

/// A comparison that finished has left the target with the bytes of the source: a
/// file holds them and nothing else, a device holds them at its start. The checksum
/// is that of the source as it is, with no padding. The comparison reports a change
/// if and only if the target no longer holds what it held at first.
pub proof fn fix_finished_is_equal(state: FixState, world: FileWorld, initial: Seq<u8>)
    requires
        state.agrees(world, initial),
        state.phase == FixPhase::Finished,
    ensures
        state.pending() == (ActionView::Finish {
            changed: state.changed,
            checksum: Checksum::of(world.source),
        }),
        !world.target_is_device ==> world.target == world.source,
        world.target.len() >= world.source.len(),
        world.target.take(world.source.len() as int) == world.source,
        !state.recopied && world.target_is_device && initial.len() >= world.source.len()
            ==> world.target.len() == initial.len(),
        !state.recopied ==> (state.changed <==> world.target != initial),
{
    let source = world.source;
    assert((source + tail(initial, source.len() as int)).take(source.len() as int) =~= source);
    assert(source.take(source.len() as int) =~= source);
}

/// Comparing a target that already holds what it should modifies nothing: as long
/// as the comparison goes on it asks for no write and no truncation, and the target
/// stays as it was.
pub proof fn fix_of_correct_target_writes_nothing(
    state: FixState,
    world: FileWorld,
    initial: Seq<u8>,
)
    requires
        state.wf(),
        state.agrees(world, initial),
        state.phase != FixPhase::Failed,
        state.phase != FixPhase::Remove,
        state.phase != FixPhase::Recopy,
        !state.recopied,
        if world.target_is_device {
            alike(initial, world.source, world.source.len() as int)
        } else {
            initial == world.source
        },
    ensures
        !state.changed,
        world.target == initial,
        !(state.pending() is WriteTarget),
        !(state.pending() is TruncateTarget),
        !(state.pending() is AppendTarget),
        !(state.pending() is RemoveTarget),
{
    let source = world.source;
    let offset = state.offset as int;
    let whole = source.len() as int;
    assert(source.take(whole) =~= source);
    if state.phase != FixPhase::Open && state.phase != FixPhase::Finished {
        let extent = state.extent();
        assert(initial.take(whole).take(extent) =~= initial.take(extent));
        assert(source.take(whole).take(extent) =~= source.take(extent));
        assert(alike(initial, source, extent));
        assert(initial.take(whole).take(offset) =~= initial.take(offset));
        assert(source.take(whole).take(offset) =~= source.take(offset));
        assert(alike(initial, source, offset));
        assert(world.target =~= initial);
    } else if state.phase == FixPhase::Finished {
        if world.target_is_device {
            assert(world.target =~= initial);
        }
    }
}

/// Once a comparison has finished, another comparison of the same files finds
/// nothing to change: wherever it stands, it has modified nothing and asks for no
/// write.
pub proof fn fix_after_fix_changes_nothing(
    first: FixState,
    world: FileWorld,
    initial: Seq<u8>,
    second: FixState,
    later: FileWorld,
)
    requires
        first.agrees(world, initial),
        first.phase == FixPhase::Finished,
        later.source == world.source,
        later.target_is_device == world.target_is_device,
        second.wf(),
        second.agrees(later, world.target),
        second.phase != FixPhase::Failed,
        second.phase != FixPhase::Remove,
        second.phase != FixPhase::Recopy,
        !second.recopied,
    ensures
        !second.changed,
        later.target == world.target,
        !(second.pending() is WriteTarget),
        !(second.pending() is TruncateTarget),
{
    fix_finished_is_equal(first, world, initial);
    assert(world.source.take(world.source.len() as int) =~= world.source);
    fix_of_correct_target_writes_nothing(second, later, world.target);
}

/// A file that fits in one block goes into the checksum as it is, with nothing
/// added to fill the block: comparing it with a copy that holds the same bytes
/// finishes without a change, with the checksum of these bytes.
pub proof fn short_file_is_hashed_as_it_is(bytes: Seq<u8>, kind: crate::utils::Metadata)
    requires
        0 < bytes.len() <= crate::copy::BLOCK_SIZE,
        FileKind::of_mode(kind.mode) == FileKind::Regular,
    ensures
        FixState::start(None).step(EventView::Done).step(EventView::Data(bytes)).step(
            EventView::Data(bytes),
        ).step(EventView::Data(Seq::empty())).step(EventView::Stat(kind)).step(
            EventView::Data(Seq::empty()),
        ).pending() == (ActionView::Finish { changed: false, checksum: Checksum::of(bytes) }),
        CopyState::start().step(EventView::Stat(kind)).step(EventView::Done).step(
            EventView::Data(bytes),
        ).step(EventView::Done).step(EventView::Data(Seq::empty())).pending()
            == (ActionView::Finish { changed: true, checksum: Checksum::of(bytes) }),
{
    assert(Seq::<u8>::empty() + bytes =~= bytes);
}

impl FixState {
    /// A bound on the number of steps that a comparison has before it, on these
    /// files: four for each byte of the source that is still to be read, and what
    /// the block at hand and the end of the file may take.
    pub open spec fn steps_left(self, world: FileWorld) -> int {
        let unread = 4 * (world.source.len() - world.source_pos);
        match self.phase {
            FixPhase::Open => 4 * world.source.len() as int + 6,
            FixPhase::Remove => 2 * world.source.len() as int + 5,
            FixPhase::Recopy => self.copy.steps_left(world) + 1,
            FixPhase::Source => unread + 4,
            FixPhase::Target => unread + 4 + (self.reference.len() - self.actual.len()) + 2,
            FixPhase::Patch => unread + 4 + 1,
            FixPhase::Kind => 3,
            FixPhase::Probe => 2,
            FixPhase::Truncate => 1,
            FixPhase::Finished => 0,
            FixPhase::Failed => 0,
        }
    }
}

/// A comparison comes to an end: as long as it goes on, each step leaves fewer
/// steps to be made, however many bytes each read returns.
pub proof fn fix_step_makes_progress(
    state: FixState,
    world: FileWorld,
    event: EventView,
    after: FileWorld,
    initial: Seq<u8>,
)
    requires
        state.wf(),
        state.agrees(world, initial),
        world.answers(state.pending(), event, after),
        state.phase != FixPhase::Finished,
        state.phase != FixPhase::Failed,
    ensures
        0 <= state.step(event).steps_left(after) < state.steps_left(world),
{
    fix_step_agrees(state, world, event, after, initial);
    if state.phase == FixPhase::Recopy {
        copy_step_makes_progress(state.copy, world, event, after, Seq::empty());
    }
}

impl CopyState {
    /// A bound on the number of steps that a copy has before it, on these files:
    /// two for each byte of the source that is still to be read, and what it takes
    /// to begin and to end.
    pub open spec fn steps_left(self, world: FileWorld) -> int {
        let unread = 2 * (world.source.len() - world.source_pos);
        match self.phase {
            CopyPhase::Stat => 2 * world.source.len() as int + 3,
            CopyPhase::Open => 2 * world.source.len() as int + 2,
            CopyPhase::Read => unread + 1,
            CopyPhase::Write => unread + 2,
            CopyPhase::Finished => 0,
            CopyPhase::Failed => 0,
        }
    }

    /// What holds between a copy and the files it works on, where `initial` is
    /// what the target held when the copy began.
    pub open spec fn agrees(self, world: FileWorld, initial: Seq<u8>) -> bool {
        let source = world.source;
        let target = world.target;
        let done = self.hashed.len() as int;
        match self.phase {
            CopyPhase::Stat | CopyPhase::Open => self.hashed.len() == 0 && target == initial,
            CopyPhase::Failed => true,
            CopyPhase::Finished => self.hashed == source && target == source + tail(
                initial,
                source.len() as int,
            ),
            CopyPhase::Read => {
                &&& done <= source.len()
                &&& self.hashed == source.take(done)
                &&& world.source_pos == done
                &&& world.target_pos == done
                &&& target == self.hashed + tail(initial, done)
            },
            CopyPhase::Write => {
                let before = done - self.block.len();
                &&& self.block.len() > 0
                &&& 0 <= before
                &&& done <= source.len()
                &&& self.hashed == source.take(done)
                &&& self.block == source.subrange(before, done)
                &&& world.source_pos == done
                &&& world.target_pos == before
                &&& target == source.take(before) + tail(initial, before)
            },
        }
    }
}

/// A copy that has not begun agrees with any two files.
pub proof fn copy_start_agrees(world: FileWorld)
    ensures
        CopyState::start().agrees(world, world.target),
{
}

/// Each step of a copy keeps it in agreement with the files, however many bytes
/// each read returns.
pub proof fn copy_step_agrees(
    state: CopyState,
    world: FileWorld,
    event: EventView,
    after: FileWorld,
    initial: Seq<u8>,
)
    requires
        state.agrees(world, initial),
        world.answers(state.pending(), event, after),
    ensures
        state.step(event).agrees(after, initial),
{
    let source = world.source;
    let target = world.target;
    let done = state.hashed.len() as int;
    match state.phase {
        CopyPhase::Open => {
            assert(state.hashed =~= source.take(0));
            assert(state.hashed + tail(initial, 0) =~= initial);
        },
        CopyPhase::Read => {
            if event is Data {
                let bytes = event->Data_0;
                if bytes.len() == 0 {
                    assert(source.take(done) =~= source);
                } else {
                    take_plus_block(source, done, bytes.len() as int);
                    assert((state.hashed + bytes).len() == done + bytes.len());
                }
            }
        },
        CopyPhase::Write => {
            if event == EventView::Done {
                let before = done - state.block.len();
                take_plus_block(source, before, state.block.len() as int);
                assert(target.len() == before + tail(initial, before).len());
                assert(target.take(before) =~= source.take(before));
                assert(tail(target, done) =~= tail(initial, done));
            }
        },
        _ => {},
    }
}

/// A copy comes to an end: as long as it goes on, each step leaves fewer steps to
/// be made, however many bytes each read returns.
pub proof fn copy_step_makes_progress(
    state: CopyState,
    world: FileWorld,
    event: EventView,
    after: FileWorld,
    initial: Seq<u8>,
)
    requires
        state.agrees(world, initial),
        world.answers(state.pending(), event, after),
        state.phase != CopyPhase::Finished,
        state.phase != CopyPhase::Failed,
    ensures
        0 <= state.step(event).steps_left(after) < state.steps_left(world),
{
    copy_step_agrees(state, world, event, after, initial);
}

/// A copy that finished has written the bytes of the source over the start of the
/// target, so that a target that was empty holds the source and nothing else. The
/// checksum is that of the source as it is.
pub proof fn copy_finished_is_equal(state: CopyState, world: FileWorld, initial: Seq<u8>)
    requires
        state.agrees(world, initial),
        state.phase == CopyPhase::Finished,
    ensures
        state.pending() == (ActionView::Finish {
            changed: true,
            checksum: Checksum::of(world.source),
        }),
        world.target.take(world.source.len() as int) == world.source,
        initial.len() <= world.source.len() ==> world.target == world.source,
{
    let source = world.source;
    assert((source + tail(initial, source.len() as int)).take(source.len() as int) =~= source);
    if initial.len() <= source.len() {
        assert(source + tail(initial, source.len() as int) =~= source);
    }
}

} // verus!
