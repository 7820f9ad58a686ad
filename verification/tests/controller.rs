//! The controller on chosen delays, without a sampling loop.

use hdrhistogram::errors::CreationError;
use hdrhistogram::errors::RecordError;
use hdrhistogram::Histogram;
use tokio::runtime::Builder;
use tokio::task::AbortHandle;
use tokio_eld::eld::delay_sample;
use tokio_eld::eld::PRECISION;
use tokio_eld::EldHistogram;
use tokio_eld::Error;
use tokio_eld::SampleOutcome;

/// A handle to a task that never runs: enough to open a session.
fn idle_task() -> AbortHandle {
    let rt = Builder::new_current_thread().build().unwrap();
    let task = rt.spawn(std::future::pending::<()>());
    task.abort_handle()
}

/// A controller with an active session that has recorded `delays`.
fn running_with(delays: &[u128]) -> EldHistogram {
    let mut h = EldHistogram::new(20).unwrap();
    h.start(idle_task());
    for d in delays {
        assert_eq!(h.record_delay(*d), SampleOutcome::Recorded);
    }
    h
}

/// The histogram that the controller's buckets describe.
fn snapshot(h: &EldHistogram) -> Histogram<u64> {
    let mut copy = Histogram::<u64>::new(PRECISION).unwrap();
    for (level, count) in h.counts() {
        copy.record_n(level, count).unwrap();
    }
    copy
}

fn refusal() -> RecordError {
    let mut narrow = Histogram::<u64>::new_with_max(10, 1).unwrap();
    narrow.record(1_000_000).unwrap_err()
}

#[test]
fn new_controller_is_idle_and_empty() {
    let h = EldHistogram::new(20).unwrap();
    assert_eq!(h.resolution(), 20);
    assert_eq!(h.period_millis(), 20);
    assert!(!h.is_running());
    assert!(h.is_empty());
    assert_eq!(h.len(), 0);
    assert_eq!(h.min(), 0);
    assert_eq!(h.max(), 0);
    assert_eq!(h.dropped(), 0);
    assert_eq!(h.counts(), vec![]);
}

#[test]
fn least_resolution_is_one_millisecond() {
    let h = EldHistogram::new(1).unwrap();
    assert_eq!(h.resolution(), 1);
    assert_eq!(h.period_millis(), 1);
    let h = EldHistogram::new(usize::MAX).unwrap();
    assert_eq!(h.resolution(), usize::MAX);
    assert_eq!(h.period_millis(), usize::MAX as u64);
}

#[test]
fn two_cycles_are_reported_exactly() {
    let mut h = running_with(&[1_500, 200_000]);
    h.stop();
    assert_eq!(h.len(), 2);
    assert_eq!(h.min(), 1_500);
    assert_eq!(h.max(), 200_000);
    assert_eq!(h.counts(), vec![(1_500, 1), (200_000, 1)]);
}

#[test]
fn stop_without_a_session_leaves_an_empty_controller() {
    let mut h = EldHistogram::new(20).unwrap();
    h.stop();
    assert_eq!(h.len(), 0);
    assert_eq!(h.min(), 0);
    assert_eq!(h.max(), 0);
    assert!(!h.is_running());
    h.start(idle_task());
    assert!(h.is_running());
}

#[test]
fn start_and_stop_switch_the_session() {
    let mut h = EldHistogram::new(20).unwrap();
    h.stop();
    assert!(!h.is_running());
    h.start(idle_task());
    assert!(h.is_running());
    h.start(idle_task());
    assert!(h.is_running());
    h.stop();
    assert!(!h.is_running());
    h.stop();
    assert!(!h.is_running());
    assert_eq!(h.resolution(), 20);
}

#[test]
fn delay_without_a_session_is_ignored() {
    let mut h = EldHistogram::new(20).unwrap();
    assert_eq!(h.record_delay(1234), SampleOutcome::Ignored);
    assert_eq!(h.len(), 0);
    assert_eq!(h.dropped(), 0);

    h.start(idle_task());
    assert_eq!(h.record_delay(1234), SampleOutcome::Recorded);
    h.stop();
    assert_eq!(h.record_delay(99), SampleOutcome::Ignored);
    assert_eq!(h.len(), 1);
    assert_eq!(h.min(), 1234);
    assert_eq!(h.max(), 1234);
    assert_eq!(h.dropped(), 0);
}

#[test]
fn recorded_delays_are_counted_exactly() {
    let h = running_with(&[300, 100, 200, 100]);
    assert_eq!(h.len(), 4);
    assert!(!h.is_empty());
    assert_eq!(h.min(), 100);
    assert_eq!(h.max(), 300);
    assert_eq!(h.counts(), vec![(100, 2), (200, 1), (300, 1)]);
    assert_eq!(h.dropped(), 0);
}

#[test]
fn zero_delay_is_a_sample() {
    let h = running_with(&[0, 7]);
    assert_eq!(h.len(), 2);
    assert_eq!(h.min(), 0);
    assert_eq!(h.max(), 7);
    assert_eq!(h.counts(), vec![(0, 1), (7, 1)]);
}

#[test]
fn large_delays_are_rounded_within_five_digits() {
    // Above 2^18 a bucket is wider than 1; 1_000_000_007 lies in a bucket
    // of width 4096.
    let h = running_with(&[1_000_000_007]);
    assert_eq!(h.len(), 1);
    assert_eq!(h.min(), 999_997_440);
    assert_eq!(h.max(), 1_000_001_535);
    assert_eq!(h.counts(), vec![(1_000_001_535, 1)]);
    assert!((1_000_000_007 - h.min()) * 100_000 <= 1_000_000_007);
    assert!((h.max() - 1_000_000_007) * 100_000 <= 1_000_000_007);
}

#[test]
fn greatest_delay_is_recorded() {
    let h = running_with(&[u64::MAX as u128]);
    assert_eq!(h.len(), 1);
    assert_eq!(h.max(), u64::MAX);
    assert_eq!(h.min(), u64::MAX);
    assert_eq!(h.counts(), vec![(u64::MAX - 1, 1)]);
    assert_eq!(h.dropped(), 0);
}

#[test]
fn delay_sample_keeps_the_low_64_bits() {
    assert_eq!(delay_sample(0), 0);
    assert_eq!(delay_sample(5), 5);
    assert_eq!(delay_sample(u64::MAX as u128), u64::MAX);
    assert_eq!(delay_sample((1u128 << 64) + 3), 3);
    assert_eq!(delay_sample(u128::MAX), u64::MAX);
}

#[test]
fn delay_beyond_64_bits_is_recorded_by_its_low_bits() {
    let h = running_with(&[(1u128 << 64) + 42]);
    assert_eq!(h.len(), 1);
    assert_eq!(h.min(), 42);
    assert_eq!(h.max(), 42);
}

#[test]
fn settle_books_a_refusal_as_dropped() {
    let mut h = running_with(&[500]);
    assert_eq!(h.settle(Ok(())), SampleOutcome::Recorded);
    assert_eq!(h.dropped(), 0);
    assert_eq!(h.settle(Err(refusal())), SampleOutcome::Dropped);
    assert_eq!(h.dropped(), 1);
    assert_eq!(
        h.settle(Err(RecordError::ResizeFailedUsizeTypeTooSmall)),
        SampleOutcome::Dropped
    );
    assert_eq!(h.dropped(), 2);
    // What was recorded stays, and sampling goes on.
    assert_eq!(h.len(), 1);
    assert!(h.is_running());
    assert_eq!(h.record_delay(600), SampleOutcome::Recorded);
    assert_eq!(h.len(), 2);
}

#[test]
fn minimum_mean_and_maximum_are_in_order() {
    let h = running_with(&[12_000, 250_000, 3_000_000, 3_000_000, 41_000_000]);
    let stats = snapshot(&h);
    assert_eq!(stats.len(), h.len());
    assert!(h.min() as f64 <= stats.mean());
    assert!(stats.mean() <= h.max() as f64);
    assert!(h.min() <= h.max());
    assert!(stats.stdev() > 0.0);

    let empty = EldHistogram::new(20).unwrap();
    assert!(empty.min() <= empty.max());
    assert_eq!(snapshot(&empty).mean(), 0.0);
}

#[test]
fn extreme_percentiles_are_minimum_and_maximum() {
    let h = running_with(&[12_000, 250_000, 3_000_000, 3_000_000, 41_000_000]);
    let stats = snapshot(&h);
    assert_eq!(stats.value_at_percentile(100.0), h.max());
    assert_eq!(stats.value_at_percentile(0.0), h.min());
    assert_eq!(stats.min(), h.min());
    assert_eq!(stats.max(), h.max());
    assert_eq!(stats.value_at_percentile(50.0), 3_000_015);
}

#[test]
fn creation_error_is_wrapped_and_described() {
    let refused = Histogram::<u64>::new(6).unwrap_err();
    let e = Error::from(refused);
    assert!(matches!(
        e,
        Error::CreationError(CreationError::SigFigExceedsMax)
    ));
    assert_eq!(
        e.message(),
        "CreationError: Number of significant digits must be in the range `[0, 5]`"
    );
    let low = Error::from(CreationError::LowIsZero);
    assert_eq!(
        low.message(),
        "CreationError: Lowest discernible value must be >= 1"
    );
    assert_eq!(format!("{:?}", low), "CreationError(LowIsZero)");
}

#[test]
fn outcome_values_compare() {
    assert_eq!(SampleOutcome::Recorded, SampleOutcome::Recorded);
    assert_ne!(SampleOutcome::Recorded, SampleOutcome::Dropped);
    assert_ne!(SampleOutcome::Dropped, SampleOutcome::Ignored);
}
