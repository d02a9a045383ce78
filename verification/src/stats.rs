//! The record kept for one device, and the estimator that feeds it.

use crate::rate::{
    all_plausible, lemma_total_bound, mean, plausible, push_bounded, sample_after, sample_rate,
    window_total, HZ_LIST,
};
use crate::text::{average_line, average_text, reads, sample_line, sample_text};
use std::collections::VecDeque;
use vstd::prelude::*;

verus! {

/// What a device record amounts to: its label, the window of recent samples
/// with the oldest first, the mean of that window, and the time of the event
/// seen last.
pub struct StatsModel {
    pub name: Seq<char>,
    pub history: Seq<u32>,
    pub average: nat,
    pub last_time: Option<u64>,
}

impl StatsModel {
    /// The record of a device that has seen no event yet.
    pub open spec fn fresh(name: Seq<char>) -> StatsModel {
        StatsModel { name, history: Seq::empty(), average: 0, last_time: None }
    }

    /// The sample that an event at `now` contributes, if any.
    pub open spec fn sample_at(self, now: u64) -> Option<u32> {
        sample_after(self.last_time, now)
    }

    /// The record after an event at `now`. An accepted sample enters the
    /// window and the mean follows; the time of the last event moves on in
    /// every case.
    pub open spec fn observe(self, now: u64) -> StatsModel {
        match self.sample_at(now) {
            Some(hz) => {
                let history = push_bounded(self.history, hz);
                StatsModel {
                    name: self.name,
                    history,
                    average: mean(history),
                    last_time: Some(now),
                }
            },
            None => StatsModel { last_time: Some(now), ..self },
        }
    }

    /// The line shown for an event at `now`: there is one if `verbose` is
    /// set and the event gives a sample. It names the device, that sample and
    /// the average that follows from it.
    pub open spec fn line_at(self, now: u64, verbose: bool) -> Option<Seq<char>> {
        match self.sample_at(now) {
            Some(hz) if verbose => Some(
                sample_text(self.name, hz, self.observe(now).average as u32),
            ),
            _ => None,
        }
    }

    /// The closing line of the device: there is none while the average is
    /// zero, that is, while no sample was accepted.
    pub open spec fn closing_line(self) -> Option<Seq<char>> {
        if self.average > 0 {
            Some(average_text(self.name, self.average as u32))
        } else {
            None
        }
    }

    /// The record after the events at `times`, taken in order.
    pub open spec fn feed(self, times: Seq<u64>) -> StatsModel
        decreases times.len(),
    {
        if times.len() == 0 {
            self
        } else {
            self.feed(times.drop_last()).observe(times.last())
        }
    }

    /// The invariant of a record: the window is within its capacity, holds
    /// plausible samples only, and the average is its mean.
    pub open spec fn consistent(self) -> bool {
        &&& self.history.len() <= HZ_LIST
        &&& all_plausible(self.history)
        &&& self.average == mean(self.history)
    }
}

/// The rolling window of a device with its mean.
struct Window {
    samples: VecDeque<u32>,
    mean: u32,
}

impl Window {
    spec fn consistent(&self) -> bool {
        &&& self.samples@.len() <= HZ_LIST
        &&& all_plausible(self.samples@)
        &&& self.mean == mean(self.samples@)
    }

    fn new() -> (window: Window)
        ensures
            window.consistent(),
            window.samples@ == Seq::<u32>::empty(),
            window.mean == 0,
    {
        Window { samples: VecDeque::with_capacity(HZ_LIST), mean: 0 }
    }

    /// An empty window without room set aside, to stand in while the real
    /// one is worked on.
    fn placeholder() -> (window: Window)
        ensures
            window.consistent(),
            window.samples@ == Seq::<u32>::empty(),
            window.mean == 0,
    {
        Window { samples: VecDeque::new(), mean: 0 }
    }

    /// Puts an accepted sample at the back, lets the oldest one go if the
    /// window is full, and takes the mean again.
    fn push(&mut self, hz: u32)
        requires
            old(self).consistent(),
            plausible(hz as nat),
        ensures
            final(self).consistent(),
            final(self).samples@ == push_bounded(old(self).samples@, hz),
    {
        if self.samples.len() >= HZ_LIST {
            self.samples.pop_front();
        }
        self.samples.push_back(hz);
        proof {
            let window = self.samples@;
            assert forall|i: int| 0 <= i < window.len() implies plausible(
                #[trigger] window[i] as nat,
            ) by {
                if i < window.len() - 1 {
                    let k = i + old(self).samples@.len() + 1 - window.len();
                    assert(window[i] == old(self).samples@[k]);
                }
            }
            lemma_total_bound(window);
        }
        let sum: u32 = window_total(&self.samples);
        let count: u32 = self.samples.len() as u32;
        self.mean = sum / count;
    }
}

/// The running estimate of one device.
pub struct DeviceStats {
    name: String,
    recent: Window,
    prev_time: Option<u64>,
}

impl View for DeviceStats {
    type V = StatsModel;

    closed spec fn view(&self) -> StatsModel {
        StatsModel {
            name: self.name@,
            history: self.recent.samples@,
            average: self.recent.mean as nat,
            last_time: self.prev_time,
        }
    }
}

impl DeviceStats {
    #[verifier::type_invariant]
    spec fn inv(&self) -> bool {
        self.recent.consistent()
    }

    /// A record for the device `name`, with no event seen.
    pub fn new(name: String) -> (stats: DeviceStats)
        ensures
            stats@ == StatsModel::fresh(name@),
    {
        DeviceStats { name, recent: Window::new(), prev_time: None }
    }

    /// Takes in an event of this device that happened at `now`, a monotonic
    /// time in microseconds. Returns the line to show for it: there is one
    /// if `verbose` is set and the event gave an accepted sample.
    pub fn update(&mut self, now: u64, verbose: bool) -> (line: Option<String>)
        ensures
            old(self)@.consistent(),
            final(self)@.consistent(),
            final(self)@ == old(self)@.observe(now),
            reads(line, old(self)@.line_at(now, verbose)),
    {
        proof {
            use_type_invariant(&*self);
        }
        let sample = match self.prev_time {
            Some(prev) => sample_rate(prev, now),
            None => None,
        };
        let mut line: Option<String> = None;
        if let Some(hz) = sample {
            let mut recent = Window::placeholder();
            std::mem::swap(&mut recent, &mut self.recent);
            recent.push(hz);
            if verbose {
                line = Some(sample_line(&self.name, hz, recent.mean));
            }
            self.recent = recent;
        }
        self.prev_time = Some(now);
        line
    }

    /// The closing line for this device: none when no sample was ever
    /// accepted, which shows as an average of zero.
    pub fn report_final(&self) -> (line: Option<String>)
        ensures
            reads(line, self@.closing_line()),
            line is None <==> self@.average == 0,
    {
        if self.recent.mean > 0 {
            Some(average_line(&self.name, self.recent.mean))
        } else {
            None
        }
    }

    /// The label of the device.
    pub fn display_name(&self) -> (name: &String)
        ensures
            name@ == self@.name,
    {
        &self.name
    }

    /// The samples in the window, oldest first.
    pub fn recent_rates(&self) -> (rates: Vec<u32>)
        ensures
            rates@ == self@.history,
            self@.consistent(),
    {
        proof {
            use_type_invariant(self);
        }
        let mut rates: Vec<u32> = Vec::new();
        let n: usize = self.recent.samples.len();
        let mut i: usize = 0;
        while i < n
            invariant
                n == self.recent.samples@.len(),
                i <= n,
                rates@ == self.recent.samples@.take(i as int),
            decreases n - i,
        {
            rates.push(self.recent.samples[i]);
            i = i + 1;
            assert(rates@ =~= self.recent.samples@.take(i as int));
        }
        assert(rates@ =~= self.recent.samples@);
        rates
    }

    /// The mean of the window, or zero while the window is empty.
    pub fn smoothed_rate(&self) -> (hz: u32)
        ensures
            hz == self@.average,
            self@.consistent(),
    {
        proof {
            use_type_invariant(self);
        }
        self.recent.mean
    }

    /// When the last event came, if there was one.
    pub fn last_event_time(&self) -> (time: Option<u64>)
        ensures
            time == self@.last_time,
    {
        self.prev_time
    }
}

} // verus!
