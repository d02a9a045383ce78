//! Rate arithmetic: from two time stamps to a sample, and the bounded window
//! of samples with its integer mean.

use std::collections::VecDeque;
use vstd::prelude::*;

verus! {

/// Number of samples the rolling window of a device holds at most.
pub const HZ_LIST: usize = 64;

/// Rates at or above this many hertz are taken for clock artifacts.
pub const HZ_LIMIT: u32 = 20000;

/// Microseconds in one second.
pub const MICROS_PER_SECOND: u64 = 1_000_000;

/// Microseconds that passed from `prev` to `now`; a clock that ran backwards
/// counts as no time at all.
pub open spec fn delta_micros(prev: u64, now: u64) -> nat {
    if now >= prev {
        (now - prev) as nat
    } else {
        0
    }
}

/// Whether a rate passes the plausibility filter.
pub open spec fn plausible(hz: nat) -> bool {
    0 < hz < HZ_LIMIT
}

/// The sample that an event at `now` yields when the previous event of the
/// same device came at `prev`: the floor of one second over the time between
/// them, if that time is not zero and the rate is plausible.
pub open spec fn sample_of(prev: u64, now: u64) -> Option<u32> {
    let delta = delta_micros(prev, now);
    if delta == 0 {
        None
    } else {
        let hz = MICROS_PER_SECOND as nat / delta;
        if plausible(hz) {
            Some(hz as u32)
        } else {
            None
        }
    }
}

/// The sample of an event at `now`, given the time of the event before it.
/// The first event of a device has nothing to be measured against.
pub open spec fn sample_after(prev: Option<u64>, now: u64) -> Option<u32> {
    match prev {
        Some(earlier) => sample_of(earlier, now),
        None => None,
    }
}

/// Computes the sample for an event at `now` that follows one at `prev`.
pub fn sample_rate(prev: u64, now: u64) -> (sample: Option<u32>)
    ensures
        sample == sample_of(prev, now),
{
    if now <= prev {
        return None;
    }
    let micros: u64 = now - prev;
    let hz: u64 = MICROS_PER_SECOND / micros;
    if hz > 0 && hz < HZ_LIMIT as u64 {
        Some(hz as u32)
    } else {
        None
    }
}

/// Sum of the samples of a window.
pub open spec fn total(samples: Seq<u32>) -> nat
    decreases samples.len(),
{
    if samples.len() == 0 {
        0
    } else {
        total(samples.drop_last()) + samples.last() as nat
    }
}

/// Integer mean of a window, rounded down; zero for the empty window.
pub open spec fn mean(samples: Seq<u32>) -> nat {
    if samples.len() == 0 {
        0
    } else {
        total(samples) / samples.len()
    }
}

/// The last `HZ_LIST` entries of a sequence of samples, or all of them when
/// there are fewer.
pub open spec fn window(samples: Seq<u32>) -> Seq<u32> {
    if samples.len() <= HZ_LIST {
        samples
    } else {
        samples.subrange(samples.len() - HZ_LIST, samples.len() as int)
    }
}

/// A window after one more sample: the sample goes to the back, and if the
/// window was full its oldest entry leaves first.
pub open spec fn push_bounded(samples: Seq<u32>, hz: u32) -> Seq<u32> {
    if samples.len() >= HZ_LIST {
        samples.subrange(1, samples.len() as int).push(hz)
    } else {
        samples.push(hz)
    }
}

/// Whether every entry of a window passed the plausibility filter.
pub open spec fn all_plausible(samples: Seq<u32>) -> bool {
    forall|i: int| 0 <= i < samples.len() ==> plausible(#[trigger] samples[i] as nat)
}

/// A window of plausible samples sums to at least one per entry and to less
/// than `HZ_LIMIT` per entry.
pub proof fn lemma_total_bound(samples: Seq<u32>)
    requires
        all_plausible(samples),
    ensures
        samples.len() <= total(samples) <= samples.len() * 19999,
    decreases samples.len(),
{
    if samples.len() > 0 {
        let front = samples.drop_last();
        assert forall|i: int| 0 <= i < front.len() implies plausible(
            #[trigger] front[i] as nat,
        ) by {
            assert(front[i] == samples[i]);
        }
        lemma_total_bound(front);
        assert(plausible(samples[samples.len() - 1] as nat));
    }
}

/// The sum of a part of a window from its front is at most the sum of the
/// whole.
pub proof fn lemma_total_of_front(samples: Seq<u32>, count: int)
    requires
        0 <= count <= samples.len(),
    ensures
        total(samples.take(count)) <= total(samples),
    decreases samples.len() - count,
{
    if count < samples.len() {
        lemma_total_of_front(samples, count + 1);
        assert(samples.take(count + 1).drop_last() =~= samples.take(count));
    } else {
        assert(samples.take(count) =~= samples);
    }
}

/// Adds up a window of samples whose sum fits the result.
pub fn window_total(samples: &VecDeque<u32>) -> (sum: u32)
    requires
        total(samples@) <= u32::MAX,
    ensures
        sum == total(samples@),
{
    let n: usize = samples.len();
    let mut sum: u32 = 0;
    let mut i: usize = 0;
    while i < n
        invariant
            n == samples@.len(),
            total(samples@) <= u32::MAX,
            i <= n,
            sum == total(samples@.take(i as int)),
        decreases n - i,
    {
        proof {
            assert(samples@.take(i + 1).drop_last() =~= samples@.take(i as int));
            lemma_total_of_front(samples@, i + 1);
        }
        sum = sum + samples[i];
        i = i + 1;
    }
    proof {
        assert(samples@.take(n as int) =~= samples@);
    }
    sum
}

} // verus!
