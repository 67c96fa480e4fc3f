//! What holds of the scheduler over whole runs of events: a change of the
//! selection restarts the animation at once, and an unchanged selection is
//! played round and round.

use vstd::prelude::*;
use crate::cursor::{index_after, lemma_cursor_cycles};
use crate::frames::PetView;
use crate::load::lemma_mean_in_range;
use crate::pacing::{lemma_delay_bounds, FASTEST_DELAY_MS, SLOWEST_DELAY_MS};
use crate::registry::known;
use crate::scheduler::{frame_at, ActionView, EventView, Phase, SchedulerState};
use crate::selection::Selection;

verus! {

/// Whether the frame shown next, once `state` has answered with `action`, is
/// the one kept at `frame`: either `action` shows it, or `action` asks for a
/// measurement and the answer to the measurement shows it, whatever was
/// measured.
pub open spec fn shows_next(
    state: SchedulerState,
    action: ActionView,
    pets: Seq<PetView>,
    frame: Seq<char>,
) -> bool {
    match action {
        ActionView::ShowFrame { frame: shown, .. } => shown == frame,
        ActionView::MeasureCpu => forall|loads: Seq<int>|
            match (#[trigger] state.next(pets, EventView::CpuMeasured(loads))).1 {
                ActionView::ShowFrame { frame: shown, .. } => shown == frame,
                _ => false,
            },
        ActionView::Stop => false,
    }
}

/// The number of frames that `events` report as shown.
pub open spec fn frames_shown(events: Seq<EventView>) -> nat
    decreases events.len(),
{
    if events.len() == 0 {
        0
    } else {
        frames_shown(events.drop_last()) + match events.last() {
            EventView::FrameShown(_) => 1nat,
            _ => 0nat,
        }
    }
}

/// Whether every frame that `events` report was shown under `selection`.
pub open spec fn selection_stays(events: Seq<EventView>, selection: Selection) -> bool {
    forall|i: int|
        0 <= i < events.len() ==> match #[trigger] events[i] {
            EventView::FrameShown(found) => found == selection,
            _ => true,
        }
}

impl SchedulerState {
    /// The state after `events`, one after the other.
    pub open spec fn run(self, pets: Seq<PetView>, events: Seq<EventView>) -> SchedulerState
        decreases events.len(),
    {
        if events.len() == 0 {
            self
        } else {
            self.run(pets, events.drop_last()).next(pets, events.last()).0
        }
    }
}

/// Whatever the event, a well-formed scheduler stays well-formed, and one
/// that has stopped stays stopped.
pub proof fn lemma_next_wf(state: SchedulerState, pets: Seq<PetView>, event: EventView)
    requires
        state.wf(pets),
        event.wf(),
    ensures
        state.next(pets, event).0.wf(pets),
        state.phase == Phase::Halted ==> state.next(pets, event) == (state, ActionView::Stop),
{
    lemma_delay_bounds(state.sampling.cached);
    if let EventView::CpuMeasured(loads) = event {
        lemma_mean_in_range(loads);
    }
}

/// Every frame that the scheduler shows is the frame under its cursor in the
/// set of its active selection, and stays for no less than 10 ms and no more
/// than 200 ms. And the scheduler asks for a measurement of the load only
/// when the sampler's interval has passed.
pub proof fn lemma_frames_are_paced(state: SchedulerState, pets: Seq<PetView>, event: EventView)
    requires
        state.wf(pets),
        event.wf(),
    ensures
        ({
            let (after, action) = state.next(pets, event);
            match action {
                ActionView::ShowFrame { frame, delay_ms, .. } => {
                    &&& after.phase == Phase::Showing
                    &&& frame == frame_at(pets, after.active, after.index)
                    &&& delay_ms == after.delay_ms()
                    &&& FASTEST_DELAY_MS <= delay_ms <= SLOWEST_DELAY_MS
                },
                ActionView::MeasureCpu => after.phase == Phase::Measuring && after.sampling.due(),
                ActionView::Stop => after.phase == Phase::Halted,
            }
        }),
{
    lemma_delay_bounds(state.next(pets, event).0.sampling.cached);
}

/// Whether every load that `events` bring is a load.
pub open spec fn all_valid(events: Seq<EventView>) -> bool {
    forall|i: int| 0 <= i < events.len() ==> (#[trigger] events[i]).wf()
}

/// When the selection changes while a set is being played, the set is not
/// played to its end: the frame shown next is the first frame of the set
/// that is selected now.
pub proof fn lemma_selection_change_restarts(
    state: SchedulerState,
    pets: Seq<PetView>,
    selection: Selection,
)
    requires
        state.wf(pets),
        state.phase == Phase::Showing,
        known(pets, selection),
        selection != state.active,
    ensures
        ({
            let (after, action) = state.next(pets, EventView::FrameShown(selection));
            &&& after.active == selection
            &&& after.index == 0
            &&& shows_next(after, action, pets, frame_at(pets, selection, 0))
        }),
{
}

/// When the selection has not changed, the frame shown next is the one that
/// follows in the set, and after the last frame the first.
pub proof fn lemma_same_selection_moves_on(state: SchedulerState, pets: Seq<PetView>)
    requires
        state.wf(pets),
        state.phase == Phase::Showing,
    ensures
        ({
            let (after, action) = state.next(pets, EventView::FrameShown(state.active));
            let len = pets[state.active.pet].frames(state.active.theme).len() as int;
            &&& after.active == state.active
            &&& after.index == (state.index + 1) % len
            &&& shows_next(after, action, pets, frame_at(pets, state.active, after.index))
        }),
{
    let len = pets[state.active.pet].frames(state.active.theme).len() as int;
    lemma_cursor_cycles(state.index, len, 1);
    reveal_with_fuel(index_after, 2);
}

/// As long as the selection stays and the scheduler is not stopped, the set
/// is played round and round for ever: after any run of events the cursor
/// stands as many frames on as were shown, counted round the set. Whenever
/// the number of frames shown is a multiple of the set's length, the cursor is
/// back where it began.
pub proof fn lemma_plays_in_cycles(
    state: SchedulerState,
    pets: Seq<PetView>,
    events: Seq<EventView>,
)
    requires
        state.wf(pets),
        all_valid(events),
        selection_stays(events, state.active),
        state.run(pets, events).phase != Phase::Halted,
    ensures
        ({
            let len = pets[state.active.pet].frames(state.active.theme).len() as int;
            let end = state.run(pets, events);
            &&& end.wf(pets)
            &&& end.active == state.active
            &&& end.index == (state.index + frames_shown(events)) % len
            &&& end.index == index_after(state.index, len, frames_shown(events))
        }),
    decreases events.len(),
{
    let len = pets[state.active.pet].frames(state.active.theme).len() as int;
    if events.len() == 0 {
        lemma_cursor_cycles(state.index, len, 0);
    } else {
        let before = events.drop_last();
        let mid = state.run(pets, before);
        lemma_run_wf(state, pets, before);
        lemma_next_wf(mid, pets, events.last());
        lemma_plays_in_cycles(state, pets, before);
        lemma_cursor_cycles(state.index, len, frames_shown(events));
    }
}

/// The load is not measured more often than the sampler lets it: through any
/// run of events in which the frames shown take less time than was left of
/// the sampler's interval, the scheduler never asks for a measurement, and
/// the load, and with it the delay, stays what it was.
pub proof fn lemma_no_measurement_within_interval(
    state: SchedulerState,
    pets: Seq<PetView>,
    events: Seq<EventView>,
)
    requires
        state.wf(pets),
        all_valid(events),
        state.sampling.since_ms + frames_shown(events) * state.delay_ms()
            < state.sampling.interval_ms,
    ensures
        forall|i: int|
            0 <= i < events.len() ==> (#[trigger] state.run(pets, events.take(i))).next(
                pets,
                events[i],
            ).1 != ActionView::MeasureCpu,
        state.run(pets, events).sampling.cached == state.sampling.cached,
        state.run(pets, events).sampling.interval_ms == state.sampling.interval_ms,
        state.run(pets, events).sampling.since_ms <= state.sampling.since_ms + frames_shown(events)
            * state.delay_ms(),
    decreases events.len(),
{
    let delay = state.delay_ms();
    lemma_delay_bounds(state.sampling.cached);
    if events.len() > 0 {
        let before = events.drop_last();
        let shown = frames_shown(before) as int;
        assert(shown * delay <= frames_shown(events) * delay) by (nonlinear_arith)
            requires
                shown <= frames_shown(events),
                delay >= 0,
        ;
        assert((shown + 1) * delay == shown * delay + delay) by (nonlinear_arith);
        lemma_no_measurement_within_interval(state, pets, before);
        lemma_run_wf(state, pets, before);
        assert(before.take(before.len() as int) =~= before);
        assert forall|i: int| 0 <= i < events.len() implies (#[trigger] state.run(
            pets,
            events.take(i),
        )).next(pets, events[i]).1 != ActionView::MeasureCpu by {
            if i < before.len() {
                assert(events.take(i) =~= before.take(i));
            } else {
                assert(events.take(i) =~= before);
            }
        }
    }
}

/// A well-formed scheduler is well-formed after any run of events.
pub proof fn lemma_run_wf(state: SchedulerState, pets: Seq<PetView>, events: Seq<EventView>)
    requires
        state.wf(pets),
        all_valid(events),
    ensures
        state.run(pets, events).wf(pets),
    decreases events.len(),
{
    if events.len() > 0 {
        lemma_run_wf(state, pets, events.drop_last());
        lemma_next_wf(state.run(pets, events.drop_last()), pets, events.last());
    }
}

} // verus!
