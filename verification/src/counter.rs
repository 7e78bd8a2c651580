use vstd::prelude::*;

verus! {

/// A periodic counter: it accumulates elapsed ticks and reports how many
/// whole periods were completed. A period of zero never fires.
#[derive(Clone, Copy, Debug, PartialEq, Eq, Structural)]
pub struct Counter {
    pub ticks: u32,
    pub period: u32,
}

impl Counter {
    /// Ticks carried over are always less than one period.
    pub open spec fn wf(self) -> bool {
        if self.period == 0 {
            self.ticks == 0
        } else {
            self.ticks < self.period
        }
    }

    /// Number of periods completed when `elapsed` more ticks arrive.
    pub open spec fn fired(self, elapsed: u32) -> int {
        if self.period == 0 {
            0
        } else {
            (self.ticks + elapsed) / (self.period as int)
        }
    }

    /// The counter after `elapsed` more ticks.
    pub open spec fn advanced(self, elapsed: u32) -> Counter {
        if self.period == 0 {
            self
        } else {
            Counter { ticks: ((self.ticks + elapsed) % (self.period as int)) as u32, period: self.period }
        }
    }

    /// Tells whether the counter is well-formed.
    pub fn check(&self) -> (ok: bool)
        ensures
            ok == self.wf(),
    {
        if self.period == 0 {
            self.ticks == 0
        } else {
            self.ticks < self.period
        }
    }

    pub fn new(period: u32) -> (c: Counter)
        ensures
            c == (Counter { ticks: 0, period }),
            c.wf(),
    {
        Counter { ticks: 0, period }
    }

    pub fn get_period(&self) -> (p: u32)
        ensures
            p == self.period,
    {
        self.period
    }

    pub fn remainder(&self) -> (r: u32)
        ensures
            r == self.ticks,
    {
        self.ticks
    }

    pub fn tick(&mut self, elapsed: u32) -> (n: u32)
        requires
            old(self).wf(),
        ensures
            n == old(self).fired(elapsed),
            *final(self) == old(self).advanced(elapsed),
            final(self).wf(),
            old(self).period > 0 ==> n * old(self).period + final(self).ticks == old(self).ticks + elapsed,
    {
        if self.period == 0 {
            return 0;
        }
        let total: u64 = self.ticks as u64 + elapsed as u64;
        let p: u64 = self.period as u64;
        let n: u64 = total / p;
        let r: u64 = total % p;
        proof {
            vstd::arithmetic::div_mod::lemma_fundamental_div_mod(total as int, p as int);
            assert(n <= elapsed) by (nonlinear_arith)
                requires
                    total == p * n + r,
                    0 <= r,
                    p >= 1,
                    total < p + elapsed,
                    n >= 0,
            ;
            assert(n * p == p * n) by (nonlinear_arith);
        }
        self.ticks = r as u32;
        n as u32
    }
}

/// Sum of a sequence of tick amounts.
pub open spec fn total_elapsed(es: Seq<u32>) -> int
    decreases es.len(),
{
    if es.len() == 0 {
        0
    } else {
        total_elapsed(es.drop_last()) + es.last()
    }
}

impl Counter {
    /// The counter after ticking once for every element of `es`, in order.
    pub open spec fn advanced_all(self, es: Seq<u32>) -> Counter
        decreases es.len(),
    {
        if es.len() == 0 {
            self
        } else {
            self.advanced_all(es.drop_last()).advanced(es.last())
        }
    }

    /// Sum of what those ticks return.
    pub open spec fn fired_all(self, es: Seq<u32>) -> int
        decreases es.len(),
    {
        if es.len() == 0 {
            0
        } else {
            self.fired_all(es.drop_last()) + self.advanced_all(es.drop_last()).fired(es.last())
        }
    }
}

/// Ticks aggregate exactly: over any sequence of ticks, the periods
/// reported plus the remainder kept account for every elapsed tick, so a
/// counter that starts at zero reports the floor of the total divided by the
/// period. A counter with period zero never fires.
pub proof fn lemma_ticks_aggregate(c: Counter, es: Seq<u32>)
    requires
        c.wf(),
    ensures
        c.advanced_all(es).wf(),
        c.advanced_all(es).period == c.period,
        c.period == 0 ==> c.fired_all(es) == 0,
        c.period > 0 ==> c.fired_all(es) * c.period + c.advanced_all(es).ticks == c.ticks
            + total_elapsed(es),
        c.period > 0 && c.ticks == 0 ==> c.fired_all(es) == total_elapsed(es) / (c.period as int),
    decreases es.len(),
{
    if es.len() > 0 {
        let front = es.drop_last();
        lemma_ticks_aggregate(c, front);
        let mid = c.advanced_all(front);
        if c.period > 0 {
            let p = c.period as int;
            let t = mid.ticks + es.last();
            vstd::arithmetic::div_mod::lemma_fundamental_div_mod(t, p);
            let f = c.fired_all(front);
            assert((f + t / p) * p == f * p + p * (t / p)) by (nonlinear_arith);
        }
    }
    if c.period > 0 && c.ticks == 0 {
        let p = c.period as int;
        let n = c.fired_all(es);
        let r = c.advanced_all(es).ticks as int;
        vstd::arithmetic::div_mod::lemma_fundamental_div_mod_converse(total_elapsed(es), p, n, r);
    }
}

} // verus!
