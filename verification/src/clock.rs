//! A divider that turns a stream of elapsed CPU cycles into completed
//! periods, carrying the remainder between calls.

use vstd::prelude::*;

verus! {

pub struct Clock {
    /// Length of one period in cycles; always at least 1.
    pub period: u32,
    /// Cycles accumulated towards the next period; always below `period`.
    pub n: u32,
}

impl Clock {
    pub open spec fn wf(self) -> bool {
        &&& self.period >= 1
        &&& self.n < self.period
    }

    pub fn new(period: u32) -> (r: Self)
        requires
            period >= 1,
        ensures
            r.period == period,
            r.n == 0,
            r.wf(),
    {
        Self { period, n: 0 }
    }

    /// Feeds `cycles` more cycles in and returns how many whole periods have
    /// now elapsed, keeping the remainder for the next call.
    pub fn next(&mut self, cycles: u32) -> (rs: u32)
        requires
            old(self).wf(),
            old(self).n + cycles <= u32::MAX,
        ensures
            rs == (old(self).n + cycles) / (old(self).period as int),
            final(self).n == (old(self).n + cycles) % (old(self).period as int),
            final(self).period == old(self).period,
            final(self).wf(),
    {
        self.n = self.n + cycles;
        let rs = self.n / self.period;
        self.n = self.n % self.period;
        rs
    }
}

} // verus!
