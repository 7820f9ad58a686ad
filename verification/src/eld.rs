//! The sampling controller: lifecycle of the sampling task, and what becomes
//! of each delay that the task observes.

use crate::error::Error;
use crate::histogram::capped_len;
use crate::histogram::lemma_min_le_max;
use crate::histogram::max_of;
use crate::histogram::min_of;
use crate::histogram::precision;
use crate::histogram::recorded;
use crate::histogram::tallies;
use crate::histogram::DelayHistogram;
use hdrhistogram::errors::RecordError;
use tokio::task::AbortHandle;
use vstd::multiset::Multiset;
use vstd::prelude::*;

verus! {

/// Significant decimal digits kept by the histogram of every controller.
pub const PRECISION: u8 = 5;

/// What became of a delay that was handed to a controller.
#[derive(Clone, Copy, Debug, PartialEq, Eq, Structural)]
pub enum SampleOutcome {
    /// The histogram took the delay.
    Recorded,
    /// The histogram refused the delay; it was counted as dropped. A
    /// histogram that resizes itself refuses none, so this answers only a
    /// refusal that is handed to [`EldHistogram::settle`].
    Dropped,
    /// No session was active; nothing changed.
    Ignored,
}

/// What a controller is, as far as its callers can tell.
pub struct EldState {
    /// Interval between two samples, in milliseconds; at least 1.
    pub resolution: usize,
    /// The sampling task of the active session, if there is one.
    pub task: Option<AbortHandle>,
    /// The delays recorded so far, in nanoseconds.
    pub samples: Multiset<u64>,
    /// How many delays the histogram refused, counted up to `u64::MAX`.
    pub dropped: u64,
}

impl EldState {
    /// A controller that has never sampled.
    pub open spec fn idle(resolution: usize) -> EldState {
        EldState { resolution, task: None, samples: Multiset::empty(), dropped: 0 }
    }

    /// A session is active.
    pub open spec fn running(self) -> bool {
        self.task is Some
    }

    /// The state once `task` has become the sampling task.
    pub open spec fn started(self, task: AbortHandle) -> EldState {
        EldState { task: Some(task), ..self }
    }

    /// The state once the session has ended.
    pub open spec fn stopped(self) -> EldState {
        EldState { task: None, ..self }
    }

    /// The state once the histogram has taken `value`.
    pub open spec fn with_sample(self, value: u64) -> EldState {
        EldState { samples: self.samples.insert(value), ..self }
    }

    /// The state once one more delay has been counted as dropped.
    pub open spec fn with_drop(self) -> EldState {
        EldState {
            dropped: if self.dropped < u64::MAX {
                (self.dropped + 1) as u64
            } else {
                u64::MAX
            },
            ..self
        }
    }

    /// The state after a delay of `elapsed_nanos` was handed in: during a
    /// session its sample is recorded, without one nothing changes.
    pub open spec fn after_delay(self, elapsed_nanos: u128) -> EldState {
        if self.running() {
            self.with_sample(sample_of(elapsed_nanos))
        } else {
            self
        }
    }

    /// What the caller is told of a delay that it hands in.
    pub open spec fn delay_outcome(self) -> SampleOutcome {
        if self.running() {
            SampleOutcome::Recorded
        } else {
            SampleOutcome::Ignored
        }
    }
}

/// The sample that stands for an elapsed time: its low 64 bits. Delays of
/// less than 2^64 nanoseconds, some 584 years, are their own sample.
pub open spec fn sample_of(elapsed_nanos: u128) -> u64 {
    (elapsed_nanos % 0x1_0000_0000_0000_0000) as u64
}

/// Computes the sample that stands for an elapsed time in nanoseconds.
pub fn delay_sample(elapsed_nanos: u128) -> (value: u64)
    ensures
        value == sample_of(elapsed_nanos),
{
    let low: u128 = elapsed_nanos & 0xFFFF_FFFF_FFFF_FFFF;
    assert(low == elapsed_nanos % 0x1_0000_0000_0000_0000) by (bit_vector)
        requires
            low == elapsed_nanos & 0xFFFF_FFFF_FFFF_FFFF,
    ;
    low as u64
}

/// Records event-loop delays and owns the task that samples them.
#[derive(Debug)]
pub struct EldHistogram {
    ht: DelayHistogram,
    fut: Option<AbortHandle>,
    resolution: usize,
    dropped: u64,
}

impl View for EldHistogram {
    type V = EldState;

    closed spec fn view(&self) -> EldState {
        EldState {
            resolution: self.resolution,
            task: self.fut,
            samples: recorded(self.ht),
            dropped: self.dropped,
        }
    }
}

impl EldHistogram {
    #[verifier::type_invariant]
    spec fn well_formed(self) -> bool {
        precision(self.ht) == PRECISION && self.resolution >= 1
    }

    /// Creates a controller with the given timer resolution in milliseconds,
    /// which is a positive number. The controller is idle and its histogram,
    /// which keeps [`PRECISION`] significant digits, is empty. A histogram of
    /// that precision can always be created, so this succeeds for every
    /// resolution.
    pub fn new(resolution: usize) -> (r: Result<EldHistogram, Error>)
        requires
            resolution >= 1,
        ensures
            r matches Ok(h) && h@ == EldState::idle(resolution),
    {
        match DelayHistogram::create(PRECISION) {
            Ok(ht) => Ok(EldHistogram { ht, fut: None, resolution, dropped: 0 }),
            Err(e) => Err(Error::from(e)),
        }
    }

    /// Starts a session with `task` as its sampling task. A session that is
    /// still active is superseded: its task is aborted first, so that at most
    /// one task samples into this histogram.
    pub fn start(&mut self, task: AbortHandle)
        ensures
            final(self)@ == old(self)@.started(task),
    {
        proof {
            use_type_invariant(&*self);
        }
        if let Some(previous) = &self.fut {
            previous.abort();
        }
        self.fut = Some(task);
    }

    /// Ends the active session by aborting its task. Without an active
    /// session nothing happens.
    pub fn stop(&mut self)
        ensures
            final(self)@ == old(self)@.stopped(),
    {
        proof {
            use_type_invariant(&*self);
        }
        if let Some(task) = &self.fut {
            task.abort();
        }
        self.fut = None;
    }

    /// Takes one delay from the sampling task, in nanoseconds. While a session
    /// is active, the delay's sample is recorded: the histogram resizes
    /// itself to take it, and its answer is booked by
    /// [`EldHistogram::settle`]. Without an active session the delay is
    /// ignored.
    pub fn record_delay(&mut self, elapsed_nanos: u128) -> (outcome: SampleOutcome)
        ensures
            final(self)@ == old(self)@.after_delay(elapsed_nanos),
            outcome == old(self)@.delay_outcome(),
    {
        proof {
            use_type_invariant(&*self);
        }
        if self.fut.is_none() {
            return SampleOutcome::Ignored;
        }
        let value = delay_sample(elapsed_nanos);
        let answer = self.ht.record(value);
        self.settle(answer)
    }

    /// Books the histogram's answer to a delay that was offered to it: a
    /// delay that was taken is `Recorded`; one that was refused is `Dropped`
    /// and counted, and sampling goes on.
    pub fn settle(&mut self, answer: Result<(), RecordError>) -> (outcome: SampleOutcome)
        ensures
            answer is Ok ==> outcome == SampleOutcome::Recorded && final(self)@ == old(self)@,
            answer is Err ==> outcome == SampleOutcome::Dropped && final(self)@ == old(
                self,
            )@.with_drop(),
    {
        proof {
            use_type_invariant(&*self);
        }
        match answer {
            Ok(_) => SampleOutcome::Recorded,
            Err(_) => {
                if self.dropped < u64::MAX {
                    self.dropped = self.dropped + 1;
                }
                SampleOutcome::Dropped
            },
        }
    }

    /// The reported minimum delay: 0 while nothing is recorded, else the
    /// lowest value of the bucket that holds the least recorded delay.
    pub fn min(&self) -> (level: u64)
        ensures
            level == min_of(self@.samples, PRECISION),
    {
        proof {
            use_type_invariant(self);
        }
        self.ht.min()
    }

    /// The reported maximum delay: 0 while nothing is recorded, else the
    /// highest value of the bucket that holds the greatest recorded delay.
    pub fn max(&self) -> (level: u64)
        ensures
            level == max_of(self@.samples, PRECISION),
    {
        proof {
            use_type_invariant(self);
        }
        self.ht.max()
    }

    /// The number of recorded delays, counted up to `u64::MAX`.
    pub fn len(&self) -> (count: u64)
        ensures
            count == capped_len(self@.samples),
    {
        self.ht.len()
    }

    /// Whether no delay has been recorded.
    pub fn is_empty(&self) -> (empty: bool)
        ensures
            empty == (self@.samples.len() == 0),
    {
        self.ht.len() == 0
    }

    /// The histogram's buckets that hold at least one delay, in ascending
    /// order, each as the level of its delays and their number. Mean,
    /// deviation and percentiles are computed from these.
    pub fn counts(&self) -> (buckets: Vec<(u64, u64)>)
        ensures
            tallies(self@.samples, PRECISION, buckets@),
    {
        proof {
            use_type_invariant(self);
        }
        self.ht.tally()
    }

    /// How many delays the histogram refused, counted up to `u64::MAX`.
    pub fn dropped(&self) -> (count: u64)
        ensures
            count == self@.dropped,
    {
        self.dropped
    }

    /// Whether a session is active.
    pub fn is_running(&self) -> (running: bool)
        ensures
            running == self@.running(),
    {
        self.fut.is_some()
    }

    /// The timer resolution that the controller was created with.
    pub fn resolution(&self) -> (resolution: usize)
        ensures
            resolution == self@.resolution,
            resolution >= 1,
    {
        proof {
            use_type_invariant(self);
        }
        self.resolution
    }

    /// The period of the sampling timer in milliseconds, which is never 0.
    pub fn period_millis(&self) -> (period: u64)
        ensures
            period == self@.resolution,
            period >= 1,
    {
        proof {
            use_type_invariant(self);
        }
        self.resolution as u64
    }
}

/// Stopping twice is stopping once: the second `stop` changes nothing, and
/// no `stop` changes what was recorded or dropped.
pub proof fn lemma_stop_idempotent(s: EldState)
    ensures
        s.stopped().stopped() == s.stopped(),
        !s.stopped().running(),
        s.stopped().samples == s.samples,
        s.stopped().dropped == s.dropped,
        s.stopped().resolution == s.resolution,
{
}

/// After `stop` no delay is recorded: one that still arrives is ignored.
pub proof fn lemma_no_sample_after_stop(s: EldState, elapsed_nanos: u128)
    ensures
        s.stopped().after_delay(elapsed_nanos) == s.stopped(),
        s.stopped().delay_outcome() == SampleOutcome::Ignored,
{
}

/// A session in which the sampling task completes a cycle leaves at least
/// one sample: after `start`, one delay and `stop`, the delay's sample is
/// among the recorded ones and the count is at least 1.
pub proof fn lemma_cycle_is_counted(s: EldState, task: AbortHandle, elapsed_nanos: u128)
    ensures
        s.started(task).delay_outcome() == SampleOutcome::Recorded,
        s.started(task).after_delay(elapsed_nanos).stopped().samples == s.samples.insert(
            sample_of(elapsed_nanos),
        ),
        s.started(task).after_delay(elapsed_nanos).stopped().samples.len() == s.samples.len() + 1,
        capped_len(s.started(task).after_delay(elapsed_nanos).stopped().samples) >= 1,
        !s.started(task).after_delay(elapsed_nanos).stopped().running(),
{
}

/// A stall shows in the maximum: once a delay of at least `stall_nanos` was
/// handed in during a session, the reported maximum is at least
/// `stall_nanos`, and so it exceeds the resolution whenever the stall does.
/// This is stated of delays that fit 64 bits, of which the sample is the
/// delay itself.
pub proof fn lemma_stall_shows_in_maximum(s: EldState, elapsed_nanos: u128, stall_nanos: u64)
    requires
        s.running(),
        stall_nanos <= elapsed_nanos <= u64::MAX,
    ensures
        max_of(s.after_delay(elapsed_nanos).samples, PRECISION) >= stall_nanos,
        stall_nanos > s.resolution * 1_000_000 ==> max_of(
            s.after_delay(elapsed_nanos).samples,
            PRECISION,
        ) > s.resolution * 1_000_000,
{
    let after = s.after_delay(elapsed_nanos).samples;
    assert(sample_of(elapsed_nanos) == elapsed_nanos);
    assert(after.contains(sample_of(elapsed_nanos)));
    lemma_min_le_max(after, PRECISION);
}

/// There is at most one session: a `start` during a session supersedes it,
/// and leaves what was recorded as it was.
pub proof fn lemma_start_supersedes(s: EldState, first: AbortHandle, second: AbortHandle)
    ensures
        s.started(first).started(second) == s.started(second),
        s.started(first).started(second).task == Some(second),
        s.started(first).samples == s.samples,
{
}

} // verus!
