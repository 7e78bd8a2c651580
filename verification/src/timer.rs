//! The divider and the programmable timer, both fed by one 14-bit clock
//! that advances once per m-cycle.
use vstd::prelude::*;
use crate::regs::TimerCtrl;

verus! {

/// Number of distinct values of the internal clock.
pub const SYS_CLOCK_MODULUS: u16 = 16384;

#[derive(Clone, Copy, Debug, PartialEq, Eq, Structural)]
pub struct Timer {
    /// The CPU runs at double speed.
    pub is_2x: bool,
    pub tac: TimerCtrl,
    pub tma: u8,
    pub tima: u8,
    /// DIV-APU ticks produced by the last call of `tick`.
    pub apu_ticks: u32,
    /// The internal clock, incremented every m-cycle.
    pub sys_clock: u16,
    /// The internal clock as the last processed m-cycle left it.
    pub old_sys_clock: u16,
    pub was_div_reset: bool,
    /// TIMA wrapped in the last m-cycle; the reload and the interrupt follow in the next.
    pub tima_overflowed: bool,
}

/// The bit of the internal clock whose falling edge increments TIMA.
pub open spec fn spec_tima_clock_bit(clock_select: u8) -> u32 {
    if clock_select == 1 {
        1
    } else if clock_select == 2 {
        3
    } else if clock_select == 3 {
        5
    } else {
        7
    }
}

pub fn tima_clock_bit(clock_select: u8) -> (bit: u32)
    requires
        clock_select < 4,
    ensures
        bit == spec_tima_clock_bit(clock_select),
        bit < 16,
{
    match clock_select {
        1 => 1,
        2 => 3,
        3 => 5,
        _ => 7,
    }
}

impl Timer {
    pub open spec fn wf(self) -> bool {
        &&& self.tac.wf()
        &&& self.sys_clock < SYS_CLOCK_MODULUS
        &&& self.old_sys_clock < SYS_CLOCK_MODULUS
    }

    pub open spec fn initial() -> Timer {
        Timer {
            is_2x: false,
            tac: TimerCtrl { clock_select: 0, enable: false },
            tma: 0,
            tima: 0,
            apu_ticks: 0,
            sys_clock: 0,
            old_sys_clock: 0,
            was_div_reset: false,
            tima_overflowed: false,
        }
    }

    /// The DIV register: the upper eight bits of the internal clock.
    pub open spec fn div(self) -> u8 {
        (self.sys_clock / 64) as u8
    }

    /// Bit `bit` of the internal clock went from 1 to 0 in the current m-cycle.
    pub open spec fn bit_fell(self, bit: u32) -> bool {
        (self.old_sys_clock >> bit) & 1 == 1 && (self.sys_clock >> bit) & 1 == 0
    }

    /// The clock bit that drives the audio frame sequencer.
    pub open spec fn apu_bit(self) -> u32 {
        if self.is_2x {
            11
        } else {
            10
        }
    }

    /// TIMA is due for an increment in the current m-cycle.
    pub open spec fn tima_edge(self) -> bool {
        self.tac.enable && self.bit_fell(spec_tima_clock_bit(self.tac.clock_select))
    }

    /// Effects of the current value of the internal clock: a DIV-APU tick on
    /// its falling edge, the delayed TIMA reload with its interrupt, and the
    /// TIMA increment. The flag is the timer interrupt request.
    pub open spec fn after_edges(self) -> (Timer, bool) {
        let fell: u32 = if self.bit_fell(self.apu_bit()) { 1 } else { 0 };
        let t1 = Timer { apu_ticks: (self.apu_ticks + fell) as u32, ..self };
        let intr = self.tima_overflowed;
        let t2 = if intr {
            Timer { tima: self.tma, tima_overflowed: false, ..t1 }
        } else {
            t1
        };
        if !self.tima_edge() {
            (t2, intr)
        } else if t2.tima == 0xFF {
            (Timer { tima: 0, tima_overflowed: true, ..t2 }, intr)
        } else {
            (Timer { tima: (t2.tima + 1) as u8, ..t2 }, intr)
        }
    }

    /// One m-cycle: the clock advances modulo 2^14, then its edges take effect.
    pub open spec fn after_mcycle(self) -> (Timer, bool) {
        let next = Timer { sys_clock: ((self.sys_clock + 1) % (SYS_CLOCK_MODULUS as int)) as u16, ..self };
        let (t, intr) = next.after_edges();
        (Timer { old_sys_clock: t.sys_clock, ..t }, intr)
    }

    /// `n` m-cycles in a row; the flag tells whether any of them requested the interrupt.
    pub open spec fn after_mcycles(self, n: nat) -> (Timer, bool)
        decreases n,
    {
        if n == 0 {
            (self, false)
        } else {
            let (t, i1) = self.after_mcycle();
            let (u, i2) = t.after_mcycles((n - 1) as nat);
            (u, i1 || i2)
        }
    }

    /// A whole step of `mcycles` m-cycles. After a DIV reset the first
    /// m-cycle does not advance the clock: it only takes the edges that the
    /// reset itself caused.
    #[verifier::opaque]
    pub open spec fn after_tick(self, mcycles: u32) -> (Timer, bool) {
        let t0 = Timer { apu_ticks: 0, ..self };
        if self.was_div_reset {
            let (t1, i1) = t0.after_edges();
            let t2 = Timer { old_sys_clock: t1.sys_clock, was_div_reset: false, ..t1 };
            let (t3, i3) = t2.after_mcycles((mcycles - 1) as nat);
            (t3, i1 || i3)
        } else {
            t0.after_mcycles(mcycles as nat)
        }
    }

    /// The timer after a write to DIV.
    pub open spec fn after_reset_div(self) -> Timer {
        Timer { sys_clock: 0, was_div_reset: true, ..self }
    }

    /// Tells whether the timer is well-formed.
    pub fn check(&self) -> (ok: bool)
        ensures
            ok == self.wf(),
    {
        self.tac.check() && self.sys_clock < SYS_CLOCK_MODULUS && self.old_sys_clock
            < SYS_CLOCK_MODULUS
    }

    pub fn new() -> (t: Timer)
        ensures
            t == Timer::initial(),
            t.wf(),
    {
        Timer {
            is_2x: false,
            tac: TimerCtrl::new(0),
            tma: 0,
            tima: 0,
            apu_ticks: 0,
            sys_clock: 0,
            old_sys_clock: 0,
            was_div_reset: false,
            tima_overflowed: false,
        }
    }

    /// Writing DIV clears the internal clock; the edges this causes are
    /// taken by the next `tick`.
    pub fn reset_div(&mut self)
        ensures
            *final(self) == old(self).after_reset_div(),
            final(self).div() == 0,
            old(self).wf() ==> final(self).wf(),
    {
        self.sys_clock = 0;
        self.was_div_reset = true;
    }

    pub fn get_div(&self) -> (d: u8)
        requires
            self.wf(),
        ensures
            d == self.div(),
    {
        (self.sys_clock / 64) as u8
    }

    /// Advances the timer by `mcycles` m-cycles and tells whether the timer
    /// interrupt was requested.
    pub fn tick(&mut self, mcycles: u32) -> (intr: bool)
        requires
            old(self).wf(),
            mcycles > 0,
        ensures
            (*final(self), intr) == old(self).after_tick(mcycles),
            final(self).wf(),
            final(self).apu_ticks <= mcycles,
    {
        reveal(Timer::after_tick);
        let mut intr = false;
        self.apu_ticks = 0;
        let mut left: u32 = mcycles;
        if self.was_div_reset {
            intr = self.process_clock_tick();
            self.old_sys_clock = self.sys_clock;
            self.was_div_reset = false;
            left = mcycles - 1;
        }
        let ghost start = *self;
        let ghost intr0 = intr;
        let ghost total = left;
        while left > 0
            invariant
                self.wf(),
                left <= total,
                self.apu_ticks <= mcycles - left,
                ({
                    let (t, i) = self.after_mcycles(left as nat);
                    let (u, j) = start.after_mcycles(total as nat);
                    t == u && (intr || i) == (intr0 || j)
                }),
            decreases left,
        {
            self.sys_clock = if self.sys_clock == SYS_CLOCK_MODULUS - 1 {
                0
            } else {
                self.sys_clock + 1
            };
            let i = self.process_clock_tick();
            intr = i || intr;
            self.old_sys_clock = self.sys_clock;
            left = left - 1;
        }
        intr
    }

    pub fn process_clock_tick(&mut self) -> (intr: bool)
        requires
            old(self).wf(),
            old(self).apu_ticks < u32::MAX,
        ensures
            (*final(self), intr) == old(self).after_edges(),
            final(self).wf(),
            final(self).sys_clock == old(self).sys_clock,
            final(self).old_sys_clock == old(self).old_sys_clock,
            old(self).apu_ticks <= final(self).apu_ticks <= old(self).apu_ticks + 1,
    {
        let apu_bit: u32 = if self.is_2x { 11 } else { 10 };
        if self.has_div_bit_fallen(apu_bit) {
            self.apu_ticks = self.apu_ticks + 1;
        }
        let intr = self.tima_overflowed;
        if intr {
            self.tima = self.tma;
            self.tima_overflowed = false;
        }
        if !self.tac.enable {
            return intr;
        }
        if !self.has_div_bit_fallen(tima_clock_bit(self.tac.clock_select)) {
            return intr;
        }
        if self.tima == 0xFF {
            self.tima_overflowed = true;
            self.tima = 0;
        } else {
            self.tima = self.tima + 1;
        }
        intr
    }

    pub fn has_div_bit_fallen(&self, bit: u32) -> (r: bool)
        requires
            bit < 16,
        ensures
            r == self.bit_fell(bit),
    {
        let old = (self.old_sys_clock >> bit) & 1;
        let new = (self.sys_clock >> bit) & 1;
        old == 1 && new == 0
    }
}

/// A write to DIV reads back as zero, and the edges it causes are taken
/// once: the next m-cycle sees at most one DIV-APU tick and at most one
/// step of TIMA, and leaves no reset pending.
pub proof fn lemma_div_reset_effects(t: Timer)
    requires
        t.wf(),
    ensures
        t.after_reset_div().div() == 0,
        ({
            let (u, intr) = t.after_reset_div().after_tick(1);
            &&& u.div() == 0
            &&& u.apu_ticks <= 1
            &&& !u.was_div_reset
            &&& (u.tima == t.tima || u.tima == t.tma || u.tima == (t.tima + 1) % 256 || u.tima == (t.tma + 1) % 256)
            &&& (u.apu_ticks == 1 <==> t.after_reset_div().bit_fell(t.apu_bit()))
        }),
{
    reveal(Timer::after_tick);
    let r = Timer { apu_ticks: 0, ..t.after_reset_div() };
    let (t1, i1) = r.after_edges();
    let t2 = Timer { old_sys_clock: t1.sys_clock, was_div_reset: false, ..t1 };
    assert(t2.after_mcycles(0) == (t2, false));
}

} // verus!
