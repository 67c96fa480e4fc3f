//! The processor load sampler: it keeps the last load that was measured and
//! lets a new measurement through only when enough time has passed since the
//! one before.

use vstd::prelude::*;
use crate::load::{average, loads_of, mean, Percentage, FULL_LOAD_TENTHS};

verus! {

/// The time between two measurements, in milliseconds.
pub const SAMPLE_INTERVAL_MS: u64 = 3000;

/// The time before the first measurement, in milliseconds: the platform's
/// counters need that long to give a meaningful load.
pub const WARM_UP_MS: u64 = 200;

/// What the sampler is to the contracts.
pub ghost struct SamplingState {
    /// The load last measured, in tenths of a percent.
    pub cached: int,
    /// The time since the last measurement, in milliseconds, counted no
    /// further than `interval_ms`.
    pub since_ms: int,
    /// The least time between two measurements, in milliseconds.
    pub interval_ms: int,
}

impl SamplingState {
    /// The load is a load, and the time since the last measurement is counted
    /// up to the interval and no further.
    pub open spec fn wf(self) -> bool {
        &&& 0 <= self.cached <= FULL_LOAD_TENTHS
        &&& 0 <= self.since_ms <= self.interval_ms <= u64::MAX
    }

    /// Whether the interval has passed, so that a new measurement is let
    /// through.
    pub open spec fn due(self) -> bool {
        self.since_ms >= self.interval_ms
    }

    /// The state after `elapsed_ms` more milliseconds.
    pub open spec fn advanced(self, elapsed_ms: int) -> SamplingState {
        SamplingState {
            since_ms: if self.since_ms + elapsed_ms >= self.interval_ms {
                self.interval_ms
            } else {
                self.since_ms + elapsed_ms
            },
            ..self
        }
    }

    /// The state after a request for the load that came with the measurement
    /// `reading`. Before the interval has passed the measurement is not looked
    /// at and nothing changes. Once it has passed, the count of time starts
    /// again, and the measurement is kept; a measurement that failed leaves the
    /// load that was there.
    pub open spec fn sampled(self, reading: Option<int>) -> SamplingState {
        if !self.due() {
            self
        } else {
            SamplingState {
                cached: match reading {
                    Some(load) => load,
                    None => self.cached,
                },
                since_ms: 0,
                ..self
            }
        }
    }
}

/// Something that happens to the sampler.
pub ghost enum SamplerEvent {
    /// This many milliseconds pass.
    Elapsed(int),
    /// The load is asked for, and this is what the platform measured.
    Asked(Option<int>),
}

impl SamplingState {
    /// The state after `event`.
    pub open spec fn after(self, event: SamplerEvent) -> SamplingState {
        match event {
            SamplerEvent::Elapsed(ms) => self.advanced(ms),
            SamplerEvent::Asked(reading) => self.sampled(reading),
        }
    }

    /// The state after `events`, one after the other.
    pub open spec fn after_all(self, events: Seq<SamplerEvent>) -> SamplingState
        decreases events.len(),
    {
        if events.len() == 0 {
            self
        } else {
            self.after_all(events.drop_last()).after(events.last())
        }
    }
}

/// The time that passes in `events`, in milliseconds.
pub open spec fn elapsed_in(events: Seq<SamplerEvent>) -> int
    decreases events.len(),
{
    if events.len() == 0 {
        0
    } else {
        elapsed_in(events.drop_last()) + match events.last() {
            SamplerEvent::Elapsed(ms) => ms,
            SamplerEvent::Asked(_) => 0,
        }
    }
}

/// Whether time only moves forward in `events`.
pub open spec fn forward_only(events: Seq<SamplerEvent>) -> bool {
    forall|i: int|
        0 <= i < events.len() ==> match #[trigger] events[i] {
            SamplerEvent::Elapsed(ms) => ms >= 0,
            SamplerEvent::Asked(_) => true,
        }
}

/// As long as the interval has not passed, no measurement is let through and
/// every request for the load is answered with the load that was there:
/// through any events in which less time passes than was left of the
/// interval, the sampler is never due, its load never changes, and it has
/// counted exactly the time that passed.
pub proof fn lemma_cached_within_interval(state: SamplingState, events: Seq<SamplerEvent>)
    requires
        state.wf(),
        forward_only(events),
        state.since_ms + elapsed_in(events) < state.interval_ms,
    ensures
        forall|i: int|
            0 <= i <= events.len() ==> {
                let then = #[trigger] state.after_all(events.take(i));
                !then.due() && then.cached == state.cached && then.interval_ms
                    == state.interval_ms
            },
        state.after_all(events).since_ms == state.since_ms + elapsed_in(events),
    decreases events.len(),
{
    if events.len() == 0 {
    } else {
        let before = events.drop_last();
        let last = events.last();
        assert(forward_only(before)) by {
            assert forall|i: int| 0 <= i < before.len() implies match #[trigger] before[i] {
                SamplerEvent::Elapsed(ms) => ms >= 0,
                SamplerEvent::Asked(_) => true,
            } by {
            }
        }
        lemma_cached_within_interval(state, before);
        assert(before.take(before.len() as int) =~= before);
        assert forall|i: int| 0 <= i <= events.len() implies {
            let then = #[trigger] state.after_all(events.take(i));
            !then.due() && then.cached == state.cached && then.interval_ms == state.interval_ms
        } by {
            if i < events.len() {
                assert(events.take(i) =~= before.take(i));
            } else {
                assert(events.take(i) =~= events);
            }
        }
    }
}

/// Two measurements are never let through less than the interval apart: once
/// a measurement has been let through, through any events in which less time
/// passes than the interval, no other is, and every request for the load is
/// answered with the load that the measurement gave.
pub proof fn lemma_measurements_are_spaced(
    state: SamplingState,
    reading: Option<int>,
    events: Seq<SamplerEvent>,
)
    requires
        state.wf(),
        state.due(),
        state.interval_ms > 0,
        reading matches Some(load) ==> 0 <= load <= FULL_LOAD_TENTHS,
        forward_only(events),
        elapsed_in(events) < state.interval_ms,
    ensures
        forall|i: int|
            0 <= i <= events.len() ==> {
                let then = #[trigger] state.sampled(reading).after_all(events.take(i));
                !then.due() && then.cached == state.sampled(reading).cached
                    && then.interval_ms == state.interval_ms
            },
{
    lemma_cached_within_interval(state.sampled(reading), events);
}

/// The sampler of the processor load.
#[derive(Clone, Copy, Debug)]
pub struct CpuSampler {
    cached: Percentage,
    since_ms: u64,
    interval_ms: u64,
}

impl View for CpuSampler {
    type V = SamplingState;

    closed spec fn view(&self) -> SamplingState {
        SamplingState {
            cached: self.cached@,
            since_ms: self.since_ms as int,
            interval_ms: self.interval_ms as int,
        }
    }
}

impl CpuSampler {
    /// Whether the sampler's state is well-formed.
    pub open spec fn wf(&self) -> bool {
        self@.wf()
    }

    /// A sampler that lets the first measurement through after `warm_up_ms`
    /// milliseconds, or at once where that is no less than `interval_ms`, and
    /// from then on one every `interval_ms` milliseconds. Until the first
    /// measurement the load counts as zero.
    pub fn new(interval_ms: u64, warm_up_ms: u64) -> (sampler: CpuSampler)
        ensures
            sampler.wf(),
            sampler@ == (SamplingState {
                cached: 0,
                since_ms: if warm_up_ms >= interval_ms {
                    interval_ms as int
                } else {
                    interval_ms - warm_up_ms
                },
                interval_ms: interval_ms as int,
            }),
    {
        let since_ms: u64 = if warm_up_ms >= interval_ms {
            interval_ms
        } else {
            interval_ms - warm_up_ms
        };
        CpuSampler { cached: Percentage::zero(), since_ms, interval_ms }
    }

    /// The sampler with the usual interval and warm-up.
    pub fn standard() -> (sampler: CpuSampler)
        ensures
            sampler.wf(),
            sampler@ == (SamplingState {
                cached: 0,
                since_ms: SAMPLE_INTERVAL_MS - WARM_UP_MS,
                interval_ms: SAMPLE_INTERVAL_MS as int,
            }),
    {
        CpuSampler::new(SAMPLE_INTERVAL_MS, WARM_UP_MS)
    }

    /// Whether a new measurement is let through now. Only then is there a
    /// reason to ask the platform for one.
    pub fn is_due(&self) -> (due: bool)
        ensures
            due == self@.due(),
    {
        self.since_ms >= self.interval_ms
    }

    /// Counts `elapsed_ms` more milliseconds since the last measurement.
    pub fn advance(&mut self, elapsed_ms: u64)
        requires
            old(self).wf(),
        ensures
            final(self).wf(),
            final(self)@ == old(self)@.advanced(elapsed_ms as int),
    {
        let room: u64 = self.interval_ms - self.since_ms;
        if elapsed_ms >= room {
            self.since_ms = self.interval_ms;
        } else {
            self.since_ms = self.since_ms + elapsed_ms;
        }
    }

    /// The processor load, given what the platform measured for each core.
    ///
    /// Before the interval has passed this is the load that was there, and
    /// `cores` is not looked at. Once it has passed it is the mean over
    /// `cores`, which is kept; a measurement without cores has failed, and the
    /// load that was there stays.
    pub fn sample(&mut self, cores: &Vec<Percentage>) -> (load: Percentage)
        requires
            old(self).wf(),
        ensures
            final(self).wf(),
            final(self)@ == old(self)@.sampled(mean(loads_of(cores@))),
            load@ == final(self)@.cached,
    {
        if self.is_due() {
            match average(cores) {
                Some(load) => {
                    self.cached = load;
                },
                None => {},
            }
            self.since_ms = 0;
        }
        self.cached
    }

    /// The load last measured.
    pub fn cached(&self) -> (load: Percentage)
        ensures
            load@ == self@.cached,
    {
        self.cached
    }
}

} // verus!
