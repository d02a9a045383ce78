//! What holds of the estimator whatever events arrive.

use crate::rate::{
    delta_micros, lemma_total_bound, mean, plausible, push_bounded, sample_after, sample_of, total,
    window, HZ_LIMIT, HZ_LIST, MICROS_PER_SECOND,
};
use crate::stats::StatsModel;
use vstd::prelude::*;

verus! {

/// The samples accepted, in order, while the events at `times` arrive at a
/// device whose event before them, if it had one, came at `start`.
pub open spec fn accepted_samples(start: Option<u64>, times: Seq<u64>) -> Seq<u32>
    decreases times.len(),
{
    if times.len() == 0 {
        Seq::empty()
    } else {
        let earlier = times.drop_last();
        let before = accepted_samples(start, earlier);
        let prev = if earlier.len() == 0 {
            start
        } else {
            Some(earlier.last())
        };
        match sample_after(prev, times.last()) {
            Some(hz) => before.push(hz),
            None => before,
        }
    }
}

/// A rate is accepted exactly when it lies strictly between zero and the
/// limit: for two events a positive time apart, there is a sample if and only
/// if the floor of one second over that time is plausible, and the sample is
/// that rate. A rate of zero and a rate equal to the limit are both rejected.
pub proof fn lemma_accepted_iff_plausible(prev: u64, now: u64)
    requires
        prev < now,
    ensures
        ({
            let rate = MICROS_PER_SECOND as nat / delta_micros(prev, now);
            &&& sample_of(prev, now) is Some <==> 0 < rate < HZ_LIMIT
            &&& sample_of(prev, now) matches Some(hz) ==> hz == rate
            &&& rate == 0 ==> sample_of(prev, now) is None
            &&& rate == HZ_LIMIT ==> sample_of(prev, now) is None
        }),
{
    let rate = MICROS_PER_SECOND as nat / delta_micros(prev, now);
    assert(rate <= MICROS_PER_SECOND) by (nonlinear_arith)
        requires
            rate == 1_000_000nat / delta_micros(prev, now),
            delta_micros(prev, now) > 0,
    ;
}

/// In microseconds: two events give a sample exactly when more than fifty
/// microseconds and at most one second lie between them.
pub proof fn lemma_accepted_deltas(prev: u64, now: u64)
    ensures
        sample_of(prev, now) is Some <==> 50 < delta_micros(prev, now) <= MICROS_PER_SECOND,
{
    let delta = delta_micros(prev, now);
    if delta > 0 {
        let rate = 1_000_000nat / delta;
        assert(rate > 0 <==> delta <= 1_000_000) by (nonlinear_arith)
            requires
                rate == 1_000_000nat / delta,
                delta > 0,
        ;
        assert(rate < 20000 <==> delta > 50) by (nonlinear_arith)
            requires
                rate == 1_000_000nat / delta,
                delta > 0,
        ;
    }
}

/// At the record: an event that follows another after a positive time enters
/// the window with its rate exactly when that rate is plausible; otherwise
/// window and average stay as they were.
pub proof fn lemma_plausible_rate_enters_window(m: StatsModel, prev: u64, now: u64)
    requires
        m.last_time == Some(prev),
        prev < now,
    ensures
        ({
            let rate = MICROS_PER_SECOND as nat / delta_micros(prev, now);
            let next = m.observe(now);
            &&& plausible(rate) ==> next.history == push_bounded(m.history, rate as u32)
                && next.average == mean(next.history)
            &&& !plausible(rate) ==> next.history == m.history && next.average == m.average
        }),
{
    lemma_accepted_iff_plausible(prev, now);
}

/// Every event leaves a consistent record consistent: the window stays within
/// its capacity, holds plausible samples only, and the average is its mean.
pub proof fn lemma_observe_consistent(m: StatsModel, now: u64)
    requires
        m.consistent(),
    ensures
        m.observe(now).consistent(),
        m.observe(now).history.len() <= HZ_LIST,
        m.observe(now).name == m.name,
        m.observe(now).last_time == Some(now),
{
    match m.sample_at(now) {
        Some(hz) => {
            let next = push_bounded(m.history, hz);
            assert forall|i: int| 0 <= i < next.len() implies plausible(
                #[trigger] next[i] as nat,
            ) by {
                if i < next.len() - 1 {
                    let k = i + m.history.len() + 1 - next.len();
                    assert(next[i] == m.history[k]);
                }
            }
        },
        None => {},
    }
}

/// The average of a consistent record is zero exactly while its window is
/// empty, so a device stays silent at the end exactly when no sample of it
/// was ever accepted.
pub proof fn lemma_silent_iff_no_sample(m: StatsModel)
    requires
        m.consistent(),
    ensures
        m.average == 0 <==> m.history.len() == 0,
        m.closing_line() is None <==> m.history.len() == 0,
{
    lemma_total_bound(m.history);
    if m.history.len() > 0 {
        let count = m.history.len();
        assert(total(m.history) / count >= 1) by (nonlinear_arith)
            requires
                total(m.history) >= count,
                count > 0,
        ;
    }
}

/// A sample that arrives at a full window pushes out exactly the oldest
/// entry, and the average is taken over the new window.
pub proof fn lemma_full_window_evicts_oldest(m: StatsModel, now: u64)
    requires
        m.consistent(),
        m.history.len() == HZ_LIST,
        m.sample_at(now) is Some,
    ensures
        ({
            let hz = m.sample_at(now).unwrap();
            let next = m.observe(now);
            &&& next.history.len() == HZ_LIST
            &&& next.history.last() == hz
            &&& forall|i: int| 0 <= i < HZ_LIST - 1 ==> next.history[i] == m.history[i + 1]
            &&& next.average == total(next.history) / (HZ_LIST as nat)
        }),
{
}

/// A sample that arrives at a window with room left goes to its back and
/// pushes nothing out.
pub proof fn lemma_window_grows_until_full(m: StatsModel, now: u64)
    requires
        m.consistent(),
        m.history.len() < HZ_LIST,
        m.sample_at(now) is Some,
    ensures
        m.observe(now).history == m.history.push(m.sample_at(now).unwrap()),
        m.observe(now).average == total(m.observe(now).history) / m.observe(now).history.len(),
{
}

/// An event that gives no sample changes neither the window nor the
/// average, and still moves the time of the last event on.
pub proof fn lemma_rejected_changes_only_time(m: StatsModel, now: u64)
    requires
        m.sample_at(now) is None,
    ensures
        m.observe(now).history == m.history,
        m.observe(now).average == m.average,
        m.observe(now).name == m.name,
        m.observe(now).last_time == Some(now),
{
}

/// The first event of a device appends no sample and leaves the average at
/// its initial zero.
pub proof fn lemma_first_event_gives_no_sample(name: Seq<char>, now: u64)
    ensures
        StatsModel::fresh(name).observe(now).history == Seq::<u32>::empty(),
        StatsModel::fresh(name).observe(now).average == 0,
        StatsModel::fresh(name).observe(now).last_time == Some(now),
{
}

/// Two events with the same time stamp: the second one gives no sample,
/// leaves window and average as the first one left them, and the time of the
/// last event is that stamp.
pub proof fn lemma_same_time_gives_no_sample(m: StatsModel, now: u64)
    ensures
        m.observe(now).sample_at(now) is None,
        m.observe(now).observe(now).history == m.observe(now).history,
        m.observe(now).observe(now).average == m.observe(now).average,
        m.observe(now).observe(now).last_time == Some(now),
{
}

/// Pushing onto the window of a sequence gives the window of the longer
/// sequence.
pub proof fn lemma_push_bounded_window(samples: Seq<u32>, hz: u32)
    ensures
        push_bounded(window(samples), hz) == window(samples.push(hz)),
{
    assert(push_bounded(window(samples), hz) =~= window(samples.push(hz)));
}

/// The window that comes of pushing `samples`, one after the other, onto
/// the window `start`.
pub open spec fn pushed(start: Seq<u32>, samples: Seq<u32>) -> Seq<u32>
    decreases samples.len(),
{
    if samples.len() == 0 {
        start
    } else {
        push_bounded(pushed(start, samples.drop_last()), samples.last())
    }
}

/// For every sequence of samples pushed onto an empty window, the window
/// holds the last of them, `HZ_LIST` at most, and its mean is the floor of
/// their sum over their number.
pub proof fn lemma_pushed_is_window(samples: Seq<u32>)
    ensures
        pushed(Seq::empty(), samples) == window(samples),
        window(samples).len() == if samples.len() <= HZ_LIST {
            samples.len()
        } else {
            HZ_LIST as nat
        },
        samples.len() > 0 ==> mean(pushed(Seq::empty(), samples)) == total(window(samples))
            / window(samples).len(),
    decreases samples.len(),
{
    if samples.len() == 0 {
        assert(window(samples) =~= Seq::<u32>::empty());
    } else {
        lemma_pushed_is_window(samples.drop_last());
        lemma_push_bounded_window(samples.drop_last(), samples.last());
        assert(samples.drop_last().push(samples.last()) =~= samples);
    }
}

/// After any sequence of events the window holds the last accepted samples,
/// as many as fit, and the record is consistent.
pub proof fn lemma_feed_is_window_of_accepted(m: StatsModel, times: Seq<u64>)
    requires
        m.consistent(),
    ensures
        m.feed(times).consistent(),
        m.feed(times).history == window(m.history + accepted_samples(m.last_time, times)),
        m.feed(times).name == m.name,
        m.feed(times).last_time == if times.len() == 0 {
            m.last_time
        } else {
            Some(times.last())
        },
    decreases times.len(),
{
    if times.len() == 0 {
        assert(m.history + accepted_samples(m.last_time, times) =~= m.history);
    } else {
        let earlier = times.drop_last();
        let before = m.feed(earlier);
        lemma_feed_is_window_of_accepted(m, earlier);
        lemma_observe_consistent(before, times.last());
        let seen = m.history + accepted_samples(m.last_time, earlier);
        match before.sample_at(times.last()) {
            Some(hz) => {
                lemma_push_bounded_window(seen, hz);
                assert(seen.push(hz) =~= m.history + accepted_samples(m.last_time, times));
            },
            None => {},
        }
    }
}

/// For every sequence of events at a new device, the smoothed rate is the
/// floor of the sum of the last accepted samples, at most `HZ_LIST` of them,
/// over their number; it is zero while no sample was accepted.
pub proof fn lemma_smoothed_rate_is_mean_of_last_samples(name: Seq<char>, times: Seq<u64>)
    ensures
        ({
            let record = StatsModel::fresh(name).feed(times);
            let accepted = accepted_samples(None, times);
            let count = if accepted.len() <= HZ_LIST {
                accepted.len()
            } else {
                HZ_LIST as nat
            };
            &&& record.history == accepted.subrange(accepted.len() - count, accepted.len() as int)
            &&& record.history.len() == count
            &&& count > 0 ==> record.average == total(record.history) / count
            &&& count == 0 ==> record.average == 0
        }),
{
    let fresh = StatsModel::fresh(name);
    lemma_feed_is_window_of_accepted(fresh, times);
    let accepted = accepted_samples(None, times);
    assert(fresh.history + accepted =~= accepted);
    assert(window(accepted) =~= accepted.subrange(
        accepted.len() - window(accepted).len(),
        accepted.len() as int,
    ));
}

} // verus!
