//! Time spent between named states.
use vstd::prelude::*;
use std::time::{Duration, Instant};
use crate::clock::{instant_elapsed, instant_now};

verus! {

/// A time sample to record: where it comes from, which transition, and how long it took.
pub struct StateSample {
    pub upstream: String,
    pub sample: String,
    pub cost: Duration,
}

/// Tracks the current state of a named process and when it was entered.
pub struct StateMetric {
    name: String,
    last_state: String,
    last_at: Instant,
    init_state: String,
    refresh_at: Instant,
}

/// The sample name of a transition: `<from>_2_<to>`.
pub open spec fn transition_name(from: Seq<char>, to: Seq<char>) -> Seq<char> {
    from + "_2_"@ + to
}

impl StateMetric {
    /// The process name.
    pub closed spec fn name(&self) -> Seq<char> {
        self.name@
    }

    /// The current state.
    pub closed spec fn last_state(&self) -> Seq<char> {
        self.last_state@
    }

    /// The state the process starts in and is reset to.
    pub closed spec fn init_state(&self) -> Seq<char> {
        self.init_state@
    }

    /// A process named `name`, now in `init_state`.
    pub fn new(name: &str, init_state: &str) -> (m: Self)
        ensures
            m.name() == name@,
            m.last_state() == init_state@,
            m.init_state() == init_state@,
    {
        let now = instant_now();
        StateMetric {
            name: String::from_str(name),
            last_state: String::from_str(init_state),
            last_at: now,
            init_state: String::from_str(init_state),
            refresh_at: now,
        }
    }

    /// Enters `curr_state` now, without a sample.
    pub fn state_to(&mut self, curr_state: &str)
        ensures
            final(self).name() == old(self).name(),
            final(self).init_state() == old(self).init_state(),
            final(self).last_state() == curr_state@,
    {
        self.last_state = String::from_str(curr_state);
        self.last_at = instant_now();
    }

    /// Enters `curr_state` now; gives the sample of the transition from the previous state,
    /// with the time spent in it.
    pub fn metric_to(&mut self, curr_state: &str) -> (s: StateSample)
        ensures
            s.upstream@ == old(self).name(),
            s.sample@ == transition_name(old(self).last_state(), curr_state@),
            final(self).name() == old(self).name(),
            final(self).init_state() == old(self).init_state(),
            final(self).last_state() == curr_state@,
    {
        let mut sample = self.last_state.clone();
        sample.append("_2_");
        sample.append(curr_state);
        let cost = instant_elapsed(&self.last_at);
        self.last_state = String::from_str(curr_state);
        self.last_at = instant_now();
        StateSample { upstream: self.name.clone(), sample, cost }
    }

    /// Returns to the initial state; gives the sample `<init>_2_<init>` with the time since the
    /// last reset.
    pub fn state_reset(&mut self) -> (s: StateSample)
        ensures
            s.upstream@ == old(self).name(),
            s.sample@ == transition_name(old(self).init_state(), old(self).init_state()),
            final(self).name() == old(self).name(),
            final(self).init_state() == old(self).init_state(),
            final(self).last_state() == old(self).init_state(),
    {
        let mut sample = self.init_state.clone();
        sample.append("_2_");
        sample.append(self.init_state.as_str());
        let cost = instant_elapsed(&self.refresh_at);
        self.last_state = self.init_state.clone();
        self.refresh_at = instant_now();
        StateSample { upstream: self.name.clone(), sample, cost }
    }
}

} // verus!
