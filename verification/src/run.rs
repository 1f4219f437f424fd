//! Whole runs of the state machine: what holds of every sequence of frames.
//!
//! A run starts in `Loading` and takes one event per frame: what the
//! registry says of the two programs and whether the clock completed a
//! period. The laws below are stated over the transition rule of the state
//! machine, the dispatch rule of the dispatcher and the tick of the clock.

use crate::clock::{
    completions, lemma_completions_are_whole_periods, lemma_completions_within_one, ClockState,
};
use crate::dispatch::dispatched;
use crate::machine::{transition, SimulationPhase, Transition};
use crate::pipeline::{FailureView, Kernel, Readiness};
use crate::surface::BufferIndex;
use vstd::prelude::*;

verus! {

/// What the state machine is shown in one frame.
pub struct FrameEvent {
    pub init: Readiness,
    pub update: Readiness,
    pub clock_completed: bool,
}

/// A run either goes on in some phase or has been halted by a compile
/// failure. A halted run stays halted.
pub enum RunState {
    Running(SimulationPhase),
    Halted(FailureView),
}

/// The state of a run after one more frame.
pub open spec fn step(state: RunState, event: FrameEvent) -> RunState {
    match state {
        RunState::Halted(_) => state,
        RunState::Running(phase) => match transition(
            phase,
            event.init,
            event.update,
            event.clock_completed,
        ) {
            Transition::To(next) => RunState::Running(next),
            Transition::Abort(failure) => RunState::Halted(failure),
        },
    }
}

/// The state of a run that started in `start`, after all of `events`.
pub open spec fn run_from(start: SimulationPhase, events: Seq<FrameEvent>) -> RunState
    decreases events.len(),
{
    if events.len() == 0 {
        RunState::Running(start)
    } else {
        step(run_from(start, events.drop_last()), events.last())
    }
}

/// The state of a run from startup, after all of `events`.
pub open spec fn run(events: Seq<FrameEvent>) -> RunState {
    run_from(SimulationPhase::Loading, events)
}

/// What is dispatched at the end of a frame that leaves the run in `state`.
/// A halted run dispatches nothing.
pub open spec fn frame_dispatch(state: RunState) -> Option<(Kernel, BufferIndex)> {
    match state {
        RunState::Running(phase) => dispatched(phase),
        RunState::Halted(_) => None,
    }
}

/// In how many frames of a run from startup the init program is dispatched.
pub open spec fn init_dispatches(events: Seq<FrameEvent>) -> nat
    decreases events.len(),
{
    if events.len() == 0 {
        0
    } else {
        init_dispatches(events.drop_last()) + if run(events) == RunState::Running(
            SimulationPhase::Init,
        ) {
            1nat
        } else {
            0nat
        }
    }
}

/// The phase becomes `Init` in frame `frame` of the run.
pub open spec fn enters_init_at(events: Seq<FrameEvent>, frame: int) -> bool {
    &&& 0 <= frame < events.len()
    &&& run(events.take(frame)) == RunState::Running(SimulationPhase::Loading)
    &&& run(events.take(frame + 1)) == RunState::Running(SimulationPhase::Init)
}

/// The phase becomes `Update` in frame `frame` of the run.
pub open spec fn enters_update_at(events: Seq<FrameEvent>, frame: int) -> bool {
    &&& 0 <= frame < events.len()
    &&& run(events.take(frame)) == RunState::Running(SimulationPhase::Init)
    &&& run(events.take(frame + 1)) == RunState::Running(
        SimulationPhase::Update(BufferIndex::One),
    )
}

/// How far a run has come: loading, init, update, halted.
pub open spec fn progress(state: RunState) -> nat {
    match state {
        RunState::Running(SimulationPhase::Loading) => 0,
        RunState::Running(SimulationPhase::Init) => 1,
        RunState::Running(SimulationPhase::Update(_)) => 2,
        RunState::Halted(_) => 3,
    }
}

/// The state after frame `frame` comes from the state before it by one
/// step.
pub proof fn lemma_run_unfolds(start: SimulationPhase, events: Seq<FrameEvent>, frame: int)
    requires
        0 <= frame < events.len(),
    ensures
        run_from(start, events.take(frame + 1)) == step(
            run_from(start, events.take(frame)),
            events[frame],
        ),
        run_from(start, events.take(events.len() as int)) == run_from(start, events),
{
    assert(events.take(frame + 1).drop_last() =~= events.take(frame));
    assert(events.take(events.len() as int) =~= events);
}

/// A run never goes back: loading comes before init, init before update, and
/// a halted run stays halted.
pub proof fn lemma_progress_never_falls(events: Seq<FrameEvent>, earlier: int, later: int)
    requires
        0 <= earlier <= later <= events.len(),
    ensures
        progress(run(events.take(earlier))) <= progress(run(events.take(later))),
    decreases later - earlier,
{
    if earlier < later {
        lemma_progress_never_falls(events, earlier, later - 1);
        lemma_run_unfolds(SimulationPhase::Loading, events, later - 1);
    }
}

/// No `Update` before both programs are ready: a run that is in the update
/// phase went through a frame in which the init program was reported ready
/// and the phase became `Init`, and through a later frame in which the
/// update program was reported ready and the phase became `Update`.
pub proof fn lemma_update_needs_both_ready(events: Seq<FrameEvent>)
    requires
        run(events) matches RunState::Running(SimulationPhase::Update(_)),
    ensures
        exists|j: int, k: int|
            {
                &&& j < k
                &&& #[trigger] enters_init_at(events, j)
                &&& #[trigger] enters_update_at(events, k)
                &&& events[j].init is Ready
                &&& events[k].update is Ready
            },
    decreases events.len(),
{
    let last = events.len() - 1;
    assert(events.len() > 0);
    lemma_run_unfolds(SimulationPhase::Loading, events, last);
    let before = events.take(last);
    assert(before =~= events.drop_last());
    match run(before) {
        RunState::Running(SimulationPhase::Update(_)) => {
            lemma_update_needs_both_ready(before);
            let (j, k) = choose|j: int, k: int|
                {
                    &&& j < k
                    &&& #[trigger] enters_init_at(before, j)
                    &&& #[trigger] enters_update_at(before, k)
                    &&& before[j].init is Ready
                    &&& before[k].update is Ready
                };
            lemma_entries_carry_over(events, last, j, k);
        },
        RunState::Running(SimulationPhase::Init) => {
            lemma_init_was_entered(before);
            let j = choose|j: int| #[trigger] enters_init_at(before, j) && before[j].init is Ready;
            assert(before.take(j) =~= events.take(j));
            assert(before.take(j + 1) =~= events.take(j + 1));
            assert(enters_init_at(events, j));
            assert(enters_update_at(events, last));
        },
        _ => {},
    }
}

/// A run that is in the init phase went through a frame in which the init
/// program was reported ready and the phase became `Init`.
pub proof fn lemma_init_was_entered(events: Seq<FrameEvent>)
    requires
        run(events) == RunState::Running(SimulationPhase::Init),
    ensures
        exists|j: int| #[trigger] enters_init_at(events, j) && events[j].init is Ready,
    decreases events.len(),
{
    let last = events.len() - 1;
    assert(events.len() > 0);
    lemma_run_unfolds(SimulationPhase::Loading, events, last);
    let before = events.take(last);
    assert(before =~= events.drop_last());
    match run(before) {
        RunState::Running(SimulationPhase::Init) => {
            lemma_init_was_entered(before);
            let j = choose|j: int| #[trigger] enters_init_at(before, j) && before[j].init is Ready;
            assert(before.take(j) =~= events.take(j));
            assert(before.take(j + 1) =~= events.take(j + 1));
            assert(enters_init_at(events, j));
        },
        RunState::Running(SimulationPhase::Loading) => {
            assert(enters_init_at(events, last));
        },
        _ => {},
    }
}

/// What happened in the first `length` frames of a run happened in the run.
proof fn lemma_entries_carry_over(events: Seq<FrameEvent>, length: int, j: int, k: int)
    requires
        0 <= length <= events.len(),
        enters_init_at(events.take(length), j),
        enters_update_at(events.take(length), k),
    ensures
        enters_init_at(events, j),
        enters_update_at(events, k),
        events.take(length)[j] == events[j],
        events.take(length)[k] == events[k],
{
    let before = events.take(length);
    assert(before.take(j) =~= events.take(j));
    assert(before.take(j + 1) =~= events.take(j + 1));
    assert(before.take(k) =~= events.take(k));
    assert(before.take(k + 1) =~= events.take(k + 1));
}

/// The phase becomes `Init` in one frame of a run at most.
pub proof fn lemma_init_entered_once(events: Seq<FrameEvent>, first: int, second: int)
    requires
        enters_init_at(events, first),
        enters_init_at(events, second),
    ensures
        first == second,
{
    if first < second {
        lemma_progress_never_falls(events, first + 1, second);
    } else if second < first {
        lemma_progress_never_falls(events, second + 1, first);
    }
}

/// The init program is dispatched in every frame from the one in which the
/// phase becomes `Init` up to, and without, the one in which it becomes
/// `Update`, and in no other.
pub proof fn lemma_init_dispatches_span(events: Seq<FrameEvent>, entered: int, left: int)
    requires
        enters_init_at(events, entered),
        enters_update_at(events, left),
    ensures
        entered < left,
        init_dispatches(events) == left - entered,
{
    if left <= entered {
        lemma_progress_never_falls(events, left + 1, entered);
    }
    lemma_init_dispatches_upto(events, entered, left, events.len() as int);
    assert(events.take(events.len() as int) =~= events);
}

/// The init dispatches among the first `length` frames of a run that enters
/// `Init` in frame `entered` and `Update` in frame `left`.
proof fn lemma_init_dispatches_upto(events: Seq<FrameEvent>, entered: int, left: int, length: int)
    requires
        enters_init_at(events, entered),
        enters_update_at(events, left),
        entered < left,
        0 <= length <= events.len(),
    ensures
        init_dispatches(events.take(length)) == if length <= entered {
            0
        } else if length <= left {
            length - entered
        } else {
            left - entered
        },
    decreases length,
{
    if length > 0 {
        lemma_init_dispatches_upto(events, entered, left, length - 1);
        assert(events.take(length).drop_last() =~= events.take(length - 1));
        if length <= entered {
            lemma_progress_never_falls(events, length, entered);
        } else if length <= left {
            lemma_progress_never_falls(events, entered + 1, length);
            lemma_progress_never_falls(events, length, left);
        } else {
            lemma_progress_never_falls(events, left + 1, length);
        }
    }
}

/// Exactly one init dispatch, where the update program is ready in time:
/// when the update program is reported ready in the frame after the one in
/// which the phase became `Init`, the init program is dispatched once in the
/// whole run, at the end of the frame in which the phase became `Init`.
pub proof fn lemma_single_init_dispatch(events: Seq<FrameEvent>, entered: int)
    requires
        enters_init_at(events, entered),
        entered + 1 < events.len(),
        events[entered + 1].update is Ready,
    ensures
        init_dispatches(events) == 1,
        frame_dispatch(run(events.take(entered + 1))) == Some((Kernel::Init, BufferIndex::Zero)),
{
    lemma_run_unfolds(SimulationPhase::Loading, events, entered + 1);
    assert(enters_update_at(events, entered + 1));
    lemma_init_dispatches_span(events, entered, entered + 1);
}

/// While the update program is pending the init program is dispatched
/// again: when it is still pending in the frame after the one in which the
/// phase became `Init`, the run holds two init dispatches or more.
pub proof fn lemma_init_repeats_while_update_pending(events: Seq<FrameEvent>, entered: int)
    requires
        enters_init_at(events, entered),
        entered + 1 < events.len(),
        events[entered + 1].update is Pending,
    ensures
        init_dispatches(events) >= 2,
{
    lemma_run_unfolds(SimulationPhase::Loading, events, entered + 1);
    let two = events.take(entered + 2);
    let one = events.take(entered + 1);
    assert(two.drop_last() =~= one);
    assert(one.drop_last() =~= events.take(entered));
    assert(init_dispatches(one) == init_dispatches(events.take(entered)) + 1);
    assert(run(two) == RunState::Running(SimulationPhase::Init));
    assert(init_dispatches(two) == init_dispatches(one) + 1);
    lemma_init_dispatches_grow(events, entered + 2, events.len() as int);
    assert(events.take(events.len() as int) =~= events);
}

/// A longer run holds no fewer init dispatches.
proof fn lemma_init_dispatches_grow(events: Seq<FrameEvent>, earlier: int, later: int)
    requires
        0 <= earlier <= later <= events.len(),
    ensures
        init_dispatches(events.take(earlier)) <= init_dispatches(events.take(later)),
    decreases later - earlier,
{
    if earlier < later {
        lemma_init_dispatches_grow(events, earlier, later - 1);
        assert(events.take(later).drop_last() =~= events.take(later - 1));
    }
}

/// A halted run dispatches nothing, and a run that halts while loading has
/// dispatched nothing before: the failure is that of the init program, and
/// no frame of the run ended outside `Loading`.
pub proof fn lemma_halt_while_loading_dispatches_nothing(events: Seq<FrameEvent>, frame: int)
    requires
        0 <= frame < events.len(),
        run(events.take(frame)) == RunState::Running(SimulationPhase::Loading),
        events[frame].init is Failed,
    ensures
        run(events) == RunState::Halted(
            FailureView { kernel: Kernel::Init, message: events[frame].init->Failed_0 },
        ),
        forall|length: int|
            0 <= length <= events.len() ==> frame_dispatch(#[trigger] run(events.take(length)))
                is None,
{
    lemma_run_unfolds(SimulationPhase::Loading, events, frame);
    let halted = run(events.take(frame + 1));
    assert forall|length: int| 0 <= length <= events.len() implies frame_dispatch(
        #[trigger] run(events.take(length)),
    ) is None && (length > frame ==> run(events.take(length)) == halted) by {
        if length <= frame {
            lemma_progress_never_falls(events, length, frame);
        } else {
            lemma_halted_stays(events, frame + 1, length);
        }
    }
    assert(events.take(events.len() as int) =~= events);
}

/// A halted run stays halted, with the failure that halted it.
pub proof fn lemma_halted_stays(events: Seq<FrameEvent>, earlier: int, later: int)
    requires
        0 <= earlier <= later <= events.len(),
        run(events.take(earlier)) is Halted,
    ensures
        run(events.take(later)) == run(events.take(earlier)),
    decreases later - earlier,
{
    if earlier < later {
        lemma_halted_stays(events, earlier, later - 1);
        lemma_run_unfolds(SimulationPhase::Loading, events, later - 1);
    }
}

/// In how many frames of a run that started in the update phase, with the
/// buffer index `start`, the buffer index changed.
pub open spec fn flips(start: BufferIndex, events: Seq<FrameEvent>) -> nat
    decreases events.len(),
{
    if events.len() == 0 {
        0
    } else {
        flips(start, events.drop_last()) + if run_from(SimulationPhase::Update(start), events)
            != run_from(SimulationPhase::Update(start), events.drop_last()) {
            1nat
        } else {
            0nat
        }
    }
}

/// The events carry what a clock reports that is ticked once per frame, by
/// `delta` nanoseconds, before the state machine looks at it.
pub open spec fn follows_clock(events: Seq<FrameEvent>, clock: ClockState, delta: nat) -> bool {
    forall|frame: int|
        0 <= frame < events.len() ==> (#[trigger] events[frame]).clock_completed == clock.after(
            delta,
            (frame + 1) as nat,
        ).completed
}

/// In the update phase the buffer index flips in a frame if and only if the
/// clock completed a period in it. The programs play no part any more.
pub proof fn lemma_flip_iff_completed(
    index: BufferIndex,
    init: Readiness,
    update: Readiness,
    clock_completed: bool,
)
    ensures
        transition(SimulationPhase::Update(index), init, update, clock_completed)
            == Transition::To(SimulationPhase::Update(index.other())) <==> clock_completed,
        transition(SimulationPhase::Update(index), init, update, clock_completed)
            == Transition::To(SimulationPhase::Update(index)) <==> !clock_completed,
{
}

/// A run in the update phase flips the buffer index once for every period
/// that the clock completes: after any number of frames the flips are the
/// completions, and the index is the first one after an even number of
/// flips and the other one after an odd number.
pub proof fn lemma_flips_are_completions(
    start: BufferIndex,
    events: Seq<FrameEvent>,
    clock: ClockState,
    delta: nat,
)
    requires
        follows_clock(events, clock, delta),
    ensures
        flips(start, events) == completions(clock, delta, events.len()),
        run_from(SimulationPhase::Update(start), events) == RunState::Running(
            SimulationPhase::Update(
                if flips(start, events) % 2 == 0 {
                    start
                } else {
                    start.other()
                },
            ),
        ),
    decreases events.len(),
{
    if events.len() > 0 {
        let before = events.drop_last();
        assert forall|frame: int| 0 <= frame < before.len() implies (
        #[trigger] before[frame]).clock_completed == clock.after(
            delta,
            (frame + 1) as nat,
        ).completed by {
            assert(before[frame] == events[frame]);
        }
        lemma_flips_are_completions(start, before, clock, delta);
        assert(events.last() == events[events.len() - 1]);
    }
}

/// The number of flips. With a period above zero, less than a period on the
/// clock and frames of `delta` nanoseconds that are no longer than the
/// period, `frames` frames in the update phase flip the buffer index once
/// for every whole period in the time on the clock plus `frames * delta`.
/// That is within one of the whole periods in `frames * delta`, and equal to
/// them where the clock starts empty.
pub proof fn lemma_flip_count(
    start: BufferIndex,
    events: Seq<FrameEvent>,
    clock: ClockState,
    delta: nat,
)
    requires
        clock.period > 0,
        clock.elapsed < clock.period,
        delta <= clock.period,
        follows_clock(events, clock, delta),
    ensures
        flips(start, events) == (clock.elapsed + events.len() * delta) / clock.period,
        (events.len() * delta) / clock.period <= flips(start, events) <= (events.len() * delta)
            / clock.period + 1,
        clock.elapsed == 0 ==> flips(start, events) == (events.len() * delta) / clock.period,
{
    lemma_flips_are_completions(start, events, clock, delta);
    lemma_completions_are_whole_periods(clock, delta, events.len());
    lemma_completions_within_one(clock, delta, events.len());
}

} // verus!
