//! Elapsed time and its reconstruction from the two counter halves.
use vstd::arithmetic::div_mod::{lemma_div_is_ordered, lemma_fundamental_div_mod};
use vstd::prelude::*;

verus! {

/// The counter value that a high half and a low half stand for:
/// `high * 2^32 + low`.
pub open spec fn counter_value(high: u32, low: u32) -> nat {
    high as nat * 0x1_0000_0000 + low as nat
}

/// The upper 32 bits of a counter value.
pub open spec fn high_half(c: u64) -> u32 {
    (c / 0x1_0000_0000) as u32
}

/// The lower 32 bits of a counter value.
pub open spec fn low_half(c: u64) -> u32 {
    (c % 0x1_0000_0000) as u32
}

/// A counter that never goes backwards: `samples[i]` is its value at the
/// `i`-th instant, instants in the order in which they happened.
pub open spec fn non_decreasing(samples: Seq<u64>) -> bool {
    forall|i: int, j: int| 0 <= i <= j < samples.len() ==> samples[i] <= samples[j]
}

/// A span of time, counted in whole microseconds.
#[derive(Clone, Copy, Debug, PartialEq, Eq, Structural)]
pub struct ElapsedTime {
    pub micros: u64,
}

impl ElapsedTime {
    /// The span of `micros` microseconds.
    pub fn from_micros(micros: u64) -> (r: ElapsedTime)
        ensures
            r.micros == micros,
    {
        ElapsedTime { micros }
    }

    /// The number of whole microseconds in this span.
    pub fn as_micros(&self) -> (r: u64)
        ensures
            r == self.micros,
    {
        self.micros
    }

    /// The elapsed time that a counter shows whose upper half reads `high`
    /// and whose lower half reads `low`. The high half alone is shifted; the
    /// low half fills the 32 bits below it.
    pub fn from_halves(high: u32, low: u32) -> (r: ElapsedTime)
        ensures
            r.micros == counter_value(high, low),
    {
        let micros: u64 = ((high as u64) << 32u64) | (low as u64);
        proof {
            lemma_combine_halves(high, low);
        }
        ElapsedTime { micros }
    }
}

/// Settles one sample of the counter taken as: high half, then low half,
/// then high half again. Where both high reads agree, no carry reached the
/// high half while the low half was read, and the sample is the counter's
/// value. Where they differ the sample may be torn, and `None` asks the
/// caller to sample again.
pub fn consistent_read(high_before: u32, low: u32, high_after: u32) -> (r: Option<ElapsedTime>)
    ensures
        r.is_some() <==> high_before == high_after,
        r.is_some() ==> r.unwrap().micros == counter_value(high_before, low),
{
    if high_before == high_after {
        Some(ElapsedTime::from_halves(high_before, low))
    } else {
        None
    }
}

/// A counter value is its high half times `2^32` plus its low half.
pub proof fn lemma_halves_of(c: u64)
    ensures
        counter_value(high_half(c), low_half(c)) == c,
{
    lemma_fundamental_div_mod(c as int, 0x1_0000_0000);
}

/// A sample that `consistent_read` accepts is exact: where the counter never
/// goes backwards and the halves are read at instants `i <= j <= k`, two equal
/// high reads make the sample equal to the counter's value at the instant `j`
/// of the low read. So a low half that wraps to zero while the high half
/// steps up between the reads can never yield a torn value.
pub proof fn lemma_consistent_read_exact(samples: Seq<u64>, i: int, j: int, k: int)
    requires
        non_decreasing(samples),
        0 <= i <= j <= k < samples.len(),
        high_half(samples[i]) == high_half(samples[k]),
    ensures
        counter_value(high_half(samples[i]), low_half(samples[j])) == samples[j],
{
    lemma_div_is_ordered(samples[i] as int, samples[j] as int, 0x1_0000_0000);
    lemma_div_is_ordered(samples[j] as int, samples[k] as int, 0x1_0000_0000);
    lemma_halves_of(samples[j]);
}

/// Accepted samples never go backwards: where the counter never goes
/// backwards, two samples that `consistent_read` accepts, the low half of the
/// first read no later than that of the second, give values in that order.
pub proof fn lemma_consistent_reads_monotonic(
    samples: Seq<u64>,
    i1: int,
    j1: int,
    k1: int,
    i2: int,
    j2: int,
    k2: int,
)
    requires
        non_decreasing(samples),
        0 <= i1 <= j1 <= k1 < samples.len(),
        0 <= i2 <= j2 <= k2 < samples.len(),
        j1 <= j2,
        high_half(samples[i1]) == high_half(samples[k1]),
        high_half(samples[i2]) == high_half(samples[k2]),
    ensures
        counter_value(high_half(samples[i1]), low_half(samples[j1])) <= counter_value(
            high_half(samples[i2]),
            low_half(samples[j2]),
        ),
{
    lemma_consistent_read_exact(samples, i1, j1, k1);
    lemma_consistent_read_exact(samples, i2, j2, k2);
}

/// Shifting the high half up by 32 bits and or-ing in the low half is the
/// same as `high * 2^32 + low`.
pub proof fn lemma_combine_halves(high: u32, low: u32)
    ensures
        ((high as u64) << 32u64) | (low as u64) == counter_value(high, low),
{
    let h = high as u64;
    let l = low as u64;
    assert((h << 32u64) | l == h * 0x1_0000_0000u64 + l) by (bit_vector)
        requires
            h < 0x1_0000_0000u64,
            l < 0x1_0000_0000u64,
    ;
}

} // verus!
