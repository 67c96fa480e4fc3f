//! The animation scheduler: which frame is shown next and for how long, when
//! the processor load is measured again, and what a change of the selection
//! does to the frame sequence.
//!
//! The scheduler neither draws nor sleeps. It is driven by events and answers
//! each with the action to take; whoever drives it carries the action out and
//! reports back with the next event.

use vstd::prelude::*;
use crate::cursor::{next_index, PlaybackCursor};
use crate::frames::{FrameHandle, PetView};
use crate::load::{loads_in_range, loads_of, mean, Percentage};
use crate::pacing::{delay_at, frame_delay_ms};
use crate::registry::{all_wf, known, FrameRegistry};
use crate::sampler::{CpuSampler, SamplingState};
use crate::selection::{Selection, SelectionState};
use crate::tooltip::{tooltip_for, tooltip_text};

verus! {

/// What the scheduler waits for.
#[derive(Clone, Copy, Debug, PartialEq, Eq, Structural)]
pub enum Phase {
    /// Nothing has been shown yet; the scheduler waits to be started.
    Ready,
    /// The processor load is being measured.
    Measuring,
    /// A frame is on display for the time of its delay.
    Showing,
    /// The animation has stopped for good.
    Halted,
}

/// What happened outside the scheduler.
#[derive(Debug, PartialEq, Eq)]
pub enum Event {
    /// The loop starts.
    Begin,
    /// The processor load was measured; this is the load of each core. No
    /// cores means that the measurement failed.
    CpuMeasured(Vec<Percentage>),
    /// The frame was shown and its delay is over; this is the selection as it
    /// stands now.
    FrameShown(SelectionState),
    /// The display did not take the frame or the text.
    DisplayFailed,
}

/// What an event is to the contracts.
pub ghost enum EventView {
    Begin,
    CpuMeasured(Seq<int>),
    FrameShown(Selection),
    DisplayFailed,
}

impl EventView {
    /// Whether every load that the event brings is a load.
    pub open spec fn wf(self) -> bool {
        match self {
            EventView::CpuMeasured(loads) => loads_in_range(loads),
            _ => true,
        }
    }
}

impl View for Event {
    type V = EventView;

    open spec fn view(&self) -> EventView {
        match self {
            Event::Begin => EventView::Begin,
            Event::CpuMeasured(cores) => EventView::CpuMeasured(loads_of(cores@)),
            Event::FrameShown(selection) => EventView::FrameShown(selection@),
            Event::DisplayFailed => EventView::DisplayFailed,
        }
    }
}

/// What is to be done outside the scheduler.
#[derive(Debug, PartialEq, Eq)]
pub enum Action<'a> {
    /// Measure the processor load and report it with `Event::CpuMeasured`.
    MeasureCpu,
    /// Put `tooltip` on the icon if there is one, show `frame`, wait for
    /// `delay_ms` milliseconds, and report with `Event::FrameShown`; or with
    /// `Event::DisplayFailed` where the display refuses.
    ShowFrame { frame: &'a FrameHandle, delay_ms: u64, tooltip: Option<String> },
    /// Leave the loop.
    Stop,
}

/// What an action is to the contracts.
pub ghost enum ActionView {
    MeasureCpu,
    ShowFrame { frame: Seq<char>, delay_ms: int, tooltip: Option<Seq<char>> },
    Stop,
}

impl<'a> View for Action<'a> {
    type V = ActionView;

    open spec fn view(&self) -> ActionView {
        match self {
            Action::MeasureCpu => ActionView::MeasureCpu,
            Action::ShowFrame { frame, delay_ms, tooltip } => ActionView::ShowFrame {
                frame: frame@,
                delay_ms: *delay_ms as int,
                tooltip: match tooltip {
                    Some(text) => Some(text@),
                    None => None,
                },
            },
            Action::Stop => ActionView::Stop,
        }
    }
}

/// What the scheduler is to the contracts.
pub ghost struct SchedulerState {
    /// What the scheduler waits for.
    pub phase: Phase,
    /// The selection whose animation set is being played.
    pub active: Selection,
    /// The position of the frame on display in that set.
    pub index: int,
    /// The state of the load sampler.
    pub sampling: SamplingState,
}

/// The place of the frame at `index` in the animation set that `selection`
/// names.
pub open spec fn frame_at(pets: Seq<PetView>, selection: Selection, index: int) -> Seq<char> {
    pets[selection.pet].frames(selection.theme)[index]
}

impl SchedulerState {
    /// The active selection names a pet, the cursor stands on a frame of its
    /// set, and the sampler is well-formed.
    pub open spec fn wf(self, pets: Seq<PetView>) -> bool {
        &&& all_wf(pets)
        &&& known(pets, self.active)
        &&& 0 <= self.index < pets[self.active.pet].frames(self.active.theme).len()
        &&& self.sampling.wf()
    }

    /// The delay between frames at the load last measured.
    pub open spec fn delay_ms(self) -> int {
        delay_at(self.sampling.cached)
    }

    /// The action that shows the frame under the cursor, with `tooltip`.
    pub open spec fn show(self, pets: Seq<PetView>, tooltip: Option<Seq<char>>) -> ActionView {
        ActionView::ShowFrame {
            frame: frame_at(pets, self.active, self.index),
            delay_ms: self.delay_ms(),
            tooltip,
        }
    }

    /// What comes before a frame: where a measurement of the load is due, the
    /// measurement; else the frame itself.
    pub open spec fn plan(self, pets: Seq<PetView>) -> (SchedulerState, ActionView) {
        if self.sampling.due() {
            (SchedulerState { phase: Phase::Measuring, ..self }, ActionView::MeasureCpu)
        } else {
            (SchedulerState { phase: Phase::Showing, ..self }, self.show(pets, None))
        }
    }

    /// The state once the frame on display has had its time and the selection
    /// is found to be `selection`: the time is counted; a selection other than
    /// the active one becomes the active one, with the cursor on its first
    /// frame; otherwise the cursor moves on by one frame, and from the last
    /// frame to the first.
    pub open spec fn moved_on(self, pets: Seq<PetView>, selection: Selection) -> SchedulerState {
        let sampling = self.sampling.advanced(self.delay_ms());
        if selection != self.active {
            SchedulerState { active: selection, index: 0, sampling, ..self }
        } else {
            SchedulerState {
                index: next_index(
                    self.index,
                    pets[self.active.pet].frames(self.active.theme).len() as int,
                ),
                sampling,
                ..self
            }
        }
    }

    /// The state that has stopped for good.
    pub open spec fn halted(self) -> SchedulerState {
        SchedulerState { phase: Phase::Halted, ..self }
    }

    /// The state after `event`, and the action that answers it.
    ///
    /// - Started, the scheduler plans its first frame.
    /// - Given the measurement it waited for, it takes the load from the
    ///   sampler and shows the frame under the cursor, with the delay for the
    ///   new load and the new text.
    /// - Told that the frame it showed has had its time, it moves on and plans
    ///   the next frame; a selection that names no pet stops it.
    /// - Told that the display failed, it stops.
    /// - An event that it did not wait for stops it.
    pub open spec fn next(self, pets: Seq<PetView>, event: EventView) -> (
        SchedulerState,
        ActionView,
    ) {
        match (self.phase, event) {
            (Phase::Ready, EventView::Begin) => self.plan(pets),
            (Phase::Measuring, EventView::CpuMeasured(loads)) => {
                let measured = SchedulerState {
                    phase: Phase::Showing,
                    sampling: self.sampling.sampled(mean(loads)),
                    ..self
                };
                (measured, measured.show(pets, Some(tooltip_text(measured.sampling.cached))))
            },
            (Phase::Showing, EventView::FrameShown(selection)) => {
                if known(pets, selection) {
                    self.moved_on(pets, selection).plan(pets)
                } else {
                    (self.halted(), ActionView::Stop)
                }
            },
            _ => (self.halted(), ActionView::Stop),
        }
    }
}

/// The animation scheduler.
pub struct Scheduler<'a> {
    registry: &'a FrameRegistry,
    phase: Phase,
    active: SelectionState,
    cursor: PlaybackCursor,
    sampler: CpuSampler,
}

impl<'a> View for Scheduler<'a> {
    type V = SchedulerState;

    closed spec fn view(&self) -> SchedulerState {
        SchedulerState {
            phase: self.phase,
            active: self.active@,
            index: self.cursor@,
            sampling: self.sampler@,
        }
    }
}

impl<'a> Scheduler<'a> {
    /// The pets of the registry that the scheduler plays from.
    pub closed spec fn pets(&self) -> Seq<PetView> {
        self.registry@
    }

    /// Whether the scheduler's state is well-formed for its registry.
    pub open spec fn wf(&self) -> bool {
        self@.wf(self.pets())
    }

    /// A scheduler that plays the animation set that `selection` names in
    /// `registry`, from its first frame, and measures the load with `sampler`.
    /// There is none where `selection` names no pet of `registry`.
    pub fn new(registry: &'a FrameRegistry, selection: SelectionState, sampler: CpuSampler) -> (made:
        Option<Scheduler<'a>>)
        requires
            registry.wf(),
            sampler.wf(),
        ensures
            match made {
                Some(scheduler) => {
                    &&& known(registry@, selection@)
                    &&& scheduler.wf()
                    &&& scheduler.pets() == registry@
                    &&& scheduler@ == (SchedulerState {
                        phase: Phase::Ready,
                        active: selection@,
                        index: 0,
                        sampling: sampler@,
                    })
                },
                None => !known(registry@, selection@),
            },
    {
        if !registry.contains(selection.pet()) {
            return None;
        }
        Some(
            Scheduler {
                registry,
                phase: Phase::Ready,
                active: selection,
                cursor: PlaybackCursor::start(),
                sampler,
            },
        )
    }

    /// What the scheduler waits for.
    pub fn phase(&self) -> (phase: Phase)
        ensures
            phase == self@.phase,
    {
        self.phase
    }

    /// The selection whose animation set is being played.
    pub fn active(&self) -> (active: SelectionState)
        ensures
            active@ == self@.active,
    {
        self.active
    }

    /// The position of the frame on display in its set.
    pub fn index(&self) -> (index: usize)
        ensures
            index == self@.index,
    {
        self.cursor.index()
    }

    /// The delay between frames at the load last measured, in milliseconds.
    pub fn delay_ms(&self) -> (delay: u64)
        ensures
            delay == self@.delay_ms(),
    {
        frame_delay_ms(self.sampler.cached())
    }

    /// The load last measured.
    pub fn load(&self) -> (load: Percentage)
        ensures
            load@ == self@.sampling.cached,
    {
        self.sampler.cached()
    }

    /// The action that shows the frame under the cursor.
    fn show(&self, tooltip: Option<String>) -> (action: Action<'a>)
        requires
            self.wf(),
        ensures
            action@ == self@.show(
                self.pets(),
                match tooltip {
                    Some(text) => Some(text@),
                    None => None,
                },
            ),
    {
        let registry: &'a FrameRegistry = self.registry;
        let frame: &'a FrameHandle = registry.resolve(self.active.pet(), self.active.theme()).frame(
            self.cursor.index(),
        );
        Action::ShowFrame { frame, delay_ms: self.delay_ms(), tooltip }
    }

    /// Decides what comes before the next frame.
    fn plan(&mut self) -> (action: Action<'a>)
        requires
            old(self).wf(),
        ensures
            final(self).wf(),
            final(self).pets() == old(self).pets(),
            (final(self)@, action@) == old(self)@.plan(old(self).pets()),
    {
        if self.sampler.is_due() {
            self.phase = Phase::Measuring;
            Action::MeasureCpu
        } else {
            self.phase = Phase::Showing;
            self.show(None)
        }
    }

    /// Stops for good.
    fn halt(&mut self) -> (action: Action<'a>)
        requires
            old(self).wf(),
        ensures
            final(self).wf(),
            final(self).pets() == old(self).pets(),
            final(self)@ == old(self)@.halted(),
            action@ == ActionView::Stop,
    {
        self.phase = Phase::Halted;
        Action::Stop
    }

    /// Takes `event` and answers with the action to carry out next.
    pub fn step(&mut self, event: Event) -> (action: Action<'a>)
        requires
            old(self).wf(),
        ensures
            final(self).wf(),
            final(self).pets() == old(self).pets(),
            (final(self)@, action@) == old(self)@.next(old(self).pets(), event@),
    {
        match (self.phase, event) {
            (Phase::Ready, Event::Begin) => self.plan(),
            (Phase::Measuring, Event::CpuMeasured(cores)) => {
                let load: Percentage = self.sampler.sample(&cores);
                self.phase = Phase::Showing;
                self.show(Some(tooltip_for(load)))
            },
            (Phase::Showing, Event::FrameShown(selection)) => {
                if !self.registry.contains(selection.pet()) {
                    return self.halt();
                }
                let delay: u64 = self.delay_ms();
                self.sampler.advance(delay);
                if !selection.same_as(&self.active) {
                    self.active = selection;
                    self.cursor.reset();
                } else {
                    let len: usize = self.registry.resolve(
                        self.active.pet(),
                        self.active.theme(),
                    ).len();
                    self.cursor.advance(len);
                }
                self.plan()
            },
            _ => self.halt(),
        }
    }
}

} // verus!
