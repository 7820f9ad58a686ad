//! The histogram that holds the delay samples, and what is taken on trust of it.
//!
//! The histogram sorts values into buckets. With a lowest discernible value
//! of 1 it keeps every value below its sub-bucket count apart; from there on
//! the width of a bucket doubles each time the values double. The layout is
//! written down here as [`bucket_width`], [`bucket_floor`] and [`bucket_top`],
//! and the resolution that follows from it is proved.

use hdrhistogram::errors::CreationError;
use hdrhistogram::errors::RecordError;
use hdrhistogram::Histogram;
use vstd::multiset::Multiset;
use vstd::prelude::*;

verus! {

/// `hdrhistogram::errors::CreationError`, carried through as an opaque value.
#[verifier::external_type_specification]
#[verifier::external_body]
pub struct ExCreationError(CreationError);

/// `hdrhistogram::errors::RecordError`, carried through as an opaque value.
#[verifier::external_type_specification]
#[verifier::external_body]
pub struct ExRecordError(RecordError);

/// An auto-resizing `hdrhistogram::Histogram` with 64-bit counters and a lowest
/// discernible value of 1. Its state is opaque to the verifier: what it holds
/// is spoken of through [`recorded`] and [`precision`].
#[verifier::external_body]
#[derive(Debug)]
pub struct DelayHistogram {
    inner: Histogram<u64>,
}

/// The values that a histogram counts, each as often as it was recorded.
pub uninterp spec fn recorded(h: DelayHistogram) -> Multiset<u64>;

/// The number of significant decimal digits that a histogram was made with.
pub uninterp spec fn precision(h: DelayHistogram) -> u8;

/// Ten to the power of `digits`.
pub open spec fn pow10(digits: nat) -> nat
    decreases digits,
{
    if digits == 0 {
        1
    } else {
        10 * pow10((digits - 1) as nat)
    }
}

/// The number of values that the first bucket keeps apart: the least power
/// of two that is at least `2 * 10^digits`, for up to five digits.
pub open spec fn sub_bucket_count(digits: u8) -> nat {
    if digits == 0 {
        2
    } else if digits == 1 {
        32
    } else if digits == 2 {
        256
    } else if digits == 3 {
        2048
    } else if digits == 4 {
        32768
    } else {
        262144
    }
}

/// How many values share a count with `value`: 1 below the sub-bucket count,
/// and twice as many whenever the value doubles from there.
pub open spec fn bucket_width(value: nat, digits: u8) -> nat
    decreases value,
{
    if value < sub_bucket_count(digits) {
        1
    } else {
        2 * bucket_width(value / 2, digits)
    }
}

/// The lowest value that shares a count with `value`.
pub open spec fn bucket_floor(value: u64, digits: u8) -> nat {
    (value as nat - (value as nat) % bucket_width(value as nat, digits)) as nat
}

/// The level at which the values that share a count with `value` are listed:
/// the highest of them, but in the bucket that reaches `u64::MAX` the value
/// before it.
pub open spec fn bucket_top(value: u64, digits: u8) -> nat {
    if bucket_floor(value, digits) + bucket_width(value as nat, digits) > u64::MAX {
        (u64::MAX - 1) as nat
    } else {
        (bucket_floor(value, digits) + bucket_width(value as nat, digits) - 1) as nat
    }
}

/// What the histogram reports as minimum when `least` is its least value: the
/// floor of that value's bucket, and `u64::MAX` as itself.
pub open spec fn min_level(least: u64, digits: u8) -> u64 {
    if least == u64::MAX {
        u64::MAX
    } else {
        bucket_floor(least, digits) as u64
    }
}

/// What the histogram reports as maximum when `greatest` is its greatest
/// value: the top of that value's bucket, and `u64::MAX` as itself.
pub open spec fn max_level(greatest: u64, digits: u8) -> u64 {
    if greatest == u64::MAX {
        u64::MAX
    } else {
        bucket_top(greatest, digits) as u64
    }
}

/// `level` is `value` rounded down by at most one part in `10^digits`.
pub open spec fn rounds_down(value: u64, level: u64, digits: u8) -> bool {
    level <= value && (value - level) * pow10(digits as nat) <= value
}

/// `level` is `value` rounded up by at most one part in `10^digits`.
pub open spec fn rounds_up(value: u64, level: u64, digits: u8) -> bool {
    value <= level && (level - value) * pow10(digits as nat) <= value
}

/// `value` occurs in `samples` and nothing smaller does.
pub open spec fn is_least(samples: Multiset<u64>, value: u64) -> bool {
    samples.contains(value) && forall|other: u64| samples.contains(other) ==> value <= other
}

/// `value` occurs in `samples` and nothing greater does.
pub open spec fn is_greatest(samples: Multiset<u64>, value: u64) -> bool {
    samples.contains(value) && forall|other: u64| samples.contains(other) ==> other <= value
}

/// The least of `samples`, where there is any.
pub open spec fn least_of(samples: Multiset<u64>) -> u64 {
    choose|v: u64| is_least(samples, v)
}

/// The greatest of `samples`, where there is any.
pub open spec fn greatest_of(samples: Multiset<u64>) -> u64 {
    choose|v: u64| is_greatest(samples, v)
}

/// The minimum that a histogram of `digits` significant digits reports of
/// `samples`: 0 where there are none.
pub open spec fn min_of(samples: Multiset<u64>, digits: u8) -> u64 {
    if samples.len() == 0 {
        0
    } else {
        min_level(least_of(samples), digits)
    }
}

/// The maximum that a histogram of `digits` significant digits reports of
/// `samples`: 0 where there are none.
pub open spec fn max_of(samples: Multiset<u64>, digits: u8) -> u64 {
    if samples.len() == 0 {
        0
    } else {
        max_level(greatest_of(samples), digits)
    }
}

/// A count as the histogram keeps it: in a `u64` that stops at `u64::MAX`.
pub open spec fn capped(count: nat) -> u64 {
    if count <= u64::MAX {
        count as u64
    } else {
        u64::MAX
    }
}

/// The number of samples as a 64-bit count, which stops at `u64::MAX`.
pub open spec fn capped_len(samples: Multiset<u64>) -> u64 {
    capped(samples.len())
}

/// How many of `samples` are listed at `level`.
pub open spec fn count_at(samples: Multiset<u64>, digits: u8, level: u64) -> nat {
    samples.filter(|v: u64| bucket_top(v, digits) == level).len()
}

/// `level` is the level of one of `buckets`.
pub open spec fn lists_level(buckets: Seq<(u64, u64)>, level: nat) -> bool {
    exists|i: int| 0 <= i < buckets.len() && (#[trigger] buckets[i]).0 == level
}

/// `buckets` is the tally of `samples` in a histogram of `digits` significant
/// digits: the levels ascend, each is listed with the number of samples at
/// it, which is at least one, and the level of every sample is listed.
pub open spec fn tallies(samples: Multiset<u64>, digits: u8, buckets: Seq<(u64, u64)>) -> bool {
    &&& forall|i: int, j: int| 0 <= i < j < buckets.len() ==> buckets[i].0 < buckets[j].0
    &&& forall|i: int|
        0 <= i < buckets.len() ==> (#[trigger] buckets[i]).1 >= 1 && buckets[i].1 == capped(
            count_at(samples, digits, buckets[i].0),
        )
    &&& forall|v: u64| #[trigger]
        samples.contains(v) ==> lists_level(buckets, bucket_top(v, digits))
}

impl DelayHistogram {
    /// `Histogram::<u64>::new`, which asks for a lowest discernible value of
    /// 1 and a highest of 2: more than five significant digits are refused.
    /// With five or fewer every other test on the arguments passes, and what
    /// is left to fail is the length of the counts, a `u32`, not fitting a
    /// `usize`. A histogram that is returned is empty and keeps the digits it
    /// was asked for.
    #[verifier::external_body]
    pub(crate) fn create(digits: u8) -> (r: Result<DelayHistogram, CreationError>)
        ensures
            digits > 5 ==> r is Err,
            digits <= 5 && u32::MAX <= usize::MAX ==> r is Ok,
            r matches Ok(h) ==> recorded(h) == Multiset::<u64>::empty() && precision(h) == digits,
    {
        match Histogram::<u64>::new(digits) {
            Ok(inner) => Ok(DelayHistogram { inner }),
            Err(e) => Err(e),
        }
    }

    /// `Histogram::record` on a histogram that resizes itself: the one
    /// refusal left is of a resize whose number of counts, a `u32`, does not
    /// fit a `usize`. On success the value joins the recorded values; on
    /// failure the histogram counts what it counted before. The precision
    /// stays as it was. The call returns: it does not panic.
    #[verifier::external_body]
    pub(crate) fn record(&mut self, value: u64) -> (r: Result<(), RecordError>)
        ensures
            u32::MAX <= usize::MAX ==> r is Ok,
            r is Ok ==> recorded(*final(self)) == recorded(*old(self)).insert(value),
            r is Err ==> recorded(*final(self)) == recorded(*old(self)),
            precision(*final(self)) == precision(*old(self)),
        no_unwind
    {
        self.inner.record(value)
    }

    /// `Histogram::len`: the number of recorded values, which the histogram
    /// counts in a saturating `u64`.
    #[verifier::external_body]
    pub(crate) fn len(&self) -> (r: u64)
        ensures
            r == capped_len(recorded(*self)),
    {
        self.inner.len()
    }

    /// `Histogram::min`: 0 for an empty histogram, else the lowest value
    /// that shares a count with the least recorded value; a least value of
    /// `u64::MAX` is reported as itself.
    #[verifier::external_body]
    pub(crate) fn min(&self) -> (r: u64)
        ensures
            r == min_of(recorded(*self), precision(*self)),
    {
        self.inner.min()
    }

    /// `Histogram::max`: 0 for a histogram that has recorded nothing, else
    /// the highest value that shares a count with the greatest recorded
    /// value, which in the bucket that reaches `u64::MAX` is the value
    /// before it; a greatest value of `u64::MAX` is reported as itself.
    #[verifier::external_body]
    pub(crate) fn max(&self) -> (r: u64)
        ensures
            r == max_of(recorded(*self), precision(*self)),
    {
        self.inner.max()
    }

    /// `Histogram::iter_recorded`: the buckets that count at least one value,
    /// in ascending order, each as the level of its values and its count,
    /// which like every count stops at `u64::MAX`.
    #[verifier::external_body]
    pub(crate) fn tally(&self) -> (r: Vec<(u64, u64)>)
        ensures
            tallies(recorded(*self), precision(*self), r@),
    {
        self.inner.iter_recorded().map(|v| (v.value_iterated_to(), v.count_at_value())).collect()
    }
}

/// A sample set that is not empty has a least sample.
pub proof fn lemma_has_least(samples: Multiset<u64>, witness: u64)
    requires
        samples.contains(witness),
    ensures
        is_least(samples, least_of(samples)),
    decreases witness,
{
    if exists|w: u64| samples.contains(w) && w < witness {
        let w = choose|w: u64| samples.contains(w) && w < witness;
        lemma_has_least(samples, w);
    } else {
        assert(is_least(samples, witness));
    }
}

/// A sample set that is not empty has a greatest sample.
pub proof fn lemma_has_greatest(samples: Multiset<u64>, witness: u64)
    requires
        samples.contains(witness),
    ensures
        is_greatest(samples, greatest_of(samples)),
    decreases u64::MAX - witness,
{
    if exists|w: u64| samples.contains(w) && w > witness {
        let w = choose|w: u64| samples.contains(w) && w > witness;
        lemma_has_greatest(samples, w);
    } else {
        assert(is_greatest(samples, witness));
    }
}

/// The least sample is the one value that is least, and the reported
/// minimum is its level.
pub proof fn lemma_min_of(samples: Multiset<u64>, digits: u8, least: u64)
    requires
        is_least(samples, least),
    ensures
        least_of(samples) == least,
        min_of(samples, digits) == min_level(least, digits),
{
    lemma_has_least(samples, least);
    assert(samples.count(least) > 0);
    vstd::multiset::axiom_count_le_len(samples, least);
}

/// The greatest sample is the one value that is greatest, and the reported
/// maximum is its level.
pub proof fn lemma_max_of(samples: Multiset<u64>, digits: u8, greatest: u64)
    requires
        is_greatest(samples, greatest),
    ensures
        greatest_of(samples) == greatest,
        max_of(samples, digits) == max_level(greatest, digits),
{
    lemma_has_greatest(samples, greatest);
    assert(samples.count(greatest) > 0);
    vstd::multiset::axiom_count_le_len(samples, greatest);
}

/// A bucket is at least one value wide, and from the sub-bucket count on its
/// width times half that count is at most the value.
pub proof fn lemma_bucket_width(value: nat, digits: u8)
    ensures
        bucket_width(value, digits) >= 1,
        value < sub_bucket_count(digits) ==> bucket_width(value, digits) == 1,
        value >= sub_bucket_count(digits) ==> bucket_width(value, digits) * sub_bucket_count(
            digits,
        ) <= 2 * value,
    decreases value,
{
    let count = sub_bucket_count(digits);
    if value >= count {
        let half = value / 2;
        lemma_bucket_width(half, digits);
        let inner = bucket_width(half, digits);
        assert(bucket_width(value, digits) == 2 * inner);
        if half < count {
            assert(inner == 1);
        } else {
            assert(inner * count <= 2 * half);
        }
        assert((2 * inner) * count == 2 * (inner * count)) by (nonlinear_arith);
    }
}

/// A value lies between the floor and the top of its bucket, and the levels
/// reported of it as minimum and maximum lie no further from it.
pub proof fn lemma_bucket_bounds(value: u64, digits: u8)
    ensures
        bucket_floor(value, digits) <= value,
        value < bucket_floor(value, digits) + bucket_width(value as nat, digits),
        value < u64::MAX ==> value <= bucket_top(value, digits) <= u64::MAX - 1,
        min_level(value, digits) <= value <= max_level(value, digits),
        max_level(value, digits) - min_level(value, digits) <= bucket_width(value as nat, digits)
            - 1,
{
    lemma_bucket_width(value as nat, digits);
    let width = bucket_width(value as nat, digits);
    assert(0 <= (value as nat) % width < width);
}

/// Values below the sub-bucket count, and so all below `2 * 10^digits`, are
/// reported as they are.
pub proof fn lemma_small_values_are_exact(value: u64, digits: u8)
    requires
        value < sub_bucket_count(digits),
    ensures
        min_level(value, digits) == value,
        max_level(value, digits) == value,
        bucket_top(value, digits) == value,
        digits <= 5 ==> 2 * pow10(digits as nat) <= sub_bucket_count(digits),
{
    lemma_bucket_width(value as nat, digits);
    reveal_with_fuel(pow10, 6);
}

/// The resolution of the histogram: the levels reported of a value differ
/// from it, and from each other, by at most one part in `10^digits`.
pub proof fn lemma_bucket_resolution(value: u64, digits: u8)
    requires
        digits <= 5,
    ensures
        rounds_down(value, min_level(value, digits), digits),
        rounds_up(value, max_level(value, digits), digits),
        (max_level(value, digits) - min_level(value, digits)) * pow10(digits as nat) <= value,
{
    lemma_bucket_width(value as nat, digits);
    lemma_bucket_bounds(value, digits);
    reveal_with_fuel(pow10, 6);
    let width = bucket_width(value as nat, digits) as int;
    let count = sub_bucket_count(digits) as int;
    let scale = pow10(digits as nat) as int;
    let spread = max_level(value, digits) - min_level(value, digits);
    assert(2 * scale <= count);
    assert(0 <= spread <= width - 1);
    assert(spread * scale <= value) by (nonlinear_arith)
        requires
            0 <= spread <= width - 1,
            width == 1 || width * count <= 2 * value,
            0 <= 2 * scale <= count,
            0 <= value,
    ;
    let below = value - min_level(value, digits);
    let above = max_level(value, digits) - value;
    assert(below * scale <= spread * scale) by (nonlinear_arith)
        requires
            0 <= below <= spread,
            0 <= scale,
    ;
    assert(above * scale <= spread * scale) by (nonlinear_arith)
        requires
            0 <= above <= spread,
            0 <= scale,
    ;
}

/// The reported minimum never exceeds the reported maximum, whatever was
/// recorded; every sample lies between the two; and of no samples both
/// are 0.
pub proof fn lemma_min_le_max(samples: Multiset<u64>, digits: u8)
    ensures
        0 <= min_of(samples, digits) <= max_of(samples, digits),
        forall|v: u64| samples.contains(v) ==> min_of(samples, digits) <= v <= max_of(samples, digits),
        samples.len() == 0 ==> min_of(samples, digits) == 0 && max_of(samples, digits) == 0,
{
    if samples.len() != 0 {
        let witness = samples.choose();
        assert(samples.contains(witness));
        lemma_has_least(samples, witness);
        lemma_has_greatest(samples, witness);
        lemma_bucket_bounds(least_of(samples), digits);
        lemma_bucket_bounds(greatest_of(samples), digits);
    } else {
        assert forall|v: u64| samples.contains(v) implies false by {
            vstd::multiset::axiom_count_le_len(samples, v);
        }
    }
}

} // verus!
