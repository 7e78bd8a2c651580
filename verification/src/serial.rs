//! The serial port: shifts SB out bit by bit under its own clock. No peer
//! is attached, so a finished transfer leaves 0xFF in SB.
use vstd::prelude::*;
use crate::counter::Counter;
use crate::regs::SerialCtrl;

verus! {

#[derive(Clone, Copy, Debug, PartialEq, Eq, Structural)]
pub struct Serial {
    /// Report each byte whose transfer starts to the host.
    pub debug_serial: bool,
    pub is_2x: bool,
    pub is_cgb: bool,
    pub sc: SerialCtrl,
    pub sb: u8,
    pub counter: Counter,
    pub bits_done: u32,
    pub transferring: bool,
}

/// What one call of `Serial::tick` produced.
#[derive(Clone, Copy, Debug, PartialEq, Eq, Structural)]
pub struct SerialEvent {
    /// The serial interrupt is requested.
    pub intr: bool,
    /// A byte whose transfer just started, for the host to show.
    pub sent: Option<u8>,
}

/// M-cycles that the transfer of one bit takes; zero when the clock comes
/// from the absent peer.
pub open spec fn spec_period_in_mcycles(sc: SerialCtrl, is_cgb: bool, is_2x: bool) -> u32 {
    if !sc.clock_select {
        0
    } else if !is_cgb {
        128
    } else if sc.clock_speed {
        if is_2x {
            4
        } else {
            8
        }
    } else {
        if is_2x {
            256
        } else {
            128
        }
    }
}

pub fn get_period_in_mcycles(sc: SerialCtrl, is_cgb: bool, is_2x: bool) -> (p: u32)
    ensures
        p == spec_period_in_mcycles(sc, is_cgb, is_2x),
{
    if !sc.clock_select {
        return 0;
    }
    if !is_cgb {
        128
    } else {
        match (sc.clock_speed, is_2x) {
            (true, true) => 4,
            (true, false) => 8,
            (false, true) => 256,
            (false, false) => 128,
        }
    }
}

impl Serial {
    pub open spec fn wf(self) -> bool {
        &&& self.counter.wf()
        &&& self.bits_done < 8
    }

    pub open spec fn initial(is_cgb: bool) -> Serial {
        Serial {
            debug_serial: false,
            is_2x: false,
            is_cgb,
            sc: SerialCtrl { clock_select: false, clock_speed: false, tx_enable: false },
            sb: 0,
            counter: Counter { ticks: 0, period: 0 },
            bits_done: 0,
            transferring: false,
        }
    }

    /// M-cycles that the running transfer has taken so far.
    pub open spec fn progress(self) -> int {
        self.bits_done * self.counter.period + self.counter.ticks
    }

    /// The port and what it reports after `mcycles` more m-cycles.
    pub open spec fn after_tick(self, mcycles: u32) -> (Serial, SerialEvent) {
        if !self.sc.tx_enable {
            (self, SerialEvent { intr: false, sent: None })
        } else if !self.transferring {
            (
                Serial {
                    counter: Counter {
                        ticks: 0,
                        period: spec_period_in_mcycles(self.sc, self.is_cgb, self.is_2x),
                    },
                    bits_done: 0,
                    transferring: true,
                    ..self
                },
                SerialEvent {
                    intr: false,
                    sent: if self.debug_serial {
                        Some(self.sb)
                    } else {
                        None
                    },
                },
            )
        } else if self.counter.period == 0 {
            (self, SerialEvent { intr: false, sent: None })
        } else if self.bits_done + self.counter.fired(mcycles) < 8 {
            (
                Serial {
                    counter: self.counter.advanced(mcycles),
                    bits_done: (self.bits_done + self.counter.fired(mcycles)) as u32,
                    ..self
                },
                SerialEvent { intr: false, sent: None },
            )
        } else {
            (
                Serial {
                    counter: self.counter.advanced(mcycles),
                    bits_done: 0,
                    sb: 0xFF,
                    transferring: false,
                    sc: SerialCtrl { tx_enable: false, ..self.sc },
                    ..self
                },
                SerialEvent { intr: true, sent: None },
            )
        }
    }

    /// Tells whether the port is well-formed.
    pub fn check(&self) -> (ok: bool)
        ensures
            ok == self.wf(),
    {
        self.counter.check() && self.bits_done < 8
    }

    pub fn new(is_cgb: bool) -> (s: Serial)
        ensures
            s == Serial::initial(is_cgb),
            s.wf(),
    {
        Serial {
            debug_serial: false,
            is_2x: false,
            is_cgb,
            sc: SerialCtrl::new(0),
            sb: 0,
            counter: Counter::new(0),
            bits_done: 0,
            transferring: false,
        }
    }

    /// Advances the port by `mcycles` m-cycles. The first call after
    /// `tx_enable` is set only starts the transfer.
    pub fn tick(&mut self, mcycles: u32) -> (ev: SerialEvent)
        requires
            old(self).wf(),
        ensures
            (*final(self), ev) == old(self).after_tick(mcycles),
            final(self).wf(),
    {
        if !self.sc.tx_enable {
            return SerialEvent { intr: false, sent: None };
        }
        if !self.transferring {
            let sent = if self.debug_serial {
                Some(self.sb)
            } else {
                None
            };
            self.counter = Counter::new(get_period_in_mcycles(self.sc, self.is_cgb, self.is_2x));
            self.bits_done = 0;
            self.transferring = true;
            return SerialEvent { intr: false, sent };
        }
        if self.counter.get_period() == 0 {
            return SerialEvent { intr: false, sent: None };
        }
        let inc_by = self.counter.tick(mcycles);
        let done: u64 = self.bits_done as u64 + inc_by as u64;
        if done < 8 {
            self.bits_done = done as u32;
            return SerialEvent { intr: false, sent: None };
        }
        self.bits_done = 0;
        self.sb = 0xFF;
        self.transferring = false;
        self.sc.tx_enable = false;
        SerialEvent { intr: true, sent: None }
    }
}

/// During a transfer on the internal clock the interrupt is requested by
/// exactly that tick which completes eight bit periods since the transfer
/// started; it leaves 0xFF in SB and clears `tx_enable`. Every earlier tick
/// only adds its m-cycles to the progress.
pub proof fn lemma_transfer_completion(s: Serial, mcycles: u32)
    requires
        s.wf(),
        s.sc.tx_enable,
        s.transferring,
        s.counter.period > 0,
    ensures
        ({
            let (t, ev) = s.after_tick(mcycles);
            let p = s.counter.period as int;
            &&& ev.intr <==> s.progress() + mcycles >= 8 * p
            &&& ev.intr ==> t.sb == 0xFF && !t.sc.tx_enable && !t.transferring
            &&& !ev.intr ==> t.progress() == s.progress() + mcycles && t.sc.tx_enable && t.transferring && t.sb == s.sb
        }),
{
    let p = s.counter.period as int;
    let total = s.counter.ticks + mcycles;
    let n = total / p;
    let r = total % p;
    vstd::arithmetic::div_mod::lemma_fundamental_div_mod(total, p);
    assert(s.counter.fired(mcycles) == n);
    assert(0 <= r < p);
    assert(n >= 0) by (nonlinear_arith)
        requires
            total >= 0,
            p > 0,
            n == total / p,
    ;
    let b = s.bits_done as int;
    assert((b + n) * p == b * p + p * n) by (nonlinear_arith);
    if b + n < 8 {
        assert((b + n) * p <= 7 * p) by (nonlinear_arith)
            requires
                b + n <= 7,
                p > 0,
        ;
    } else {
        assert((b + n) * p >= 8 * p) by (nonlinear_arith)
            requires
                b + n >= 8,
                p > 0,
        ;
    }
}

} // verus!
