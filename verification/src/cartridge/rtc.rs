//! The real-time clock of the MBC3 controller.
use vstd::prelude::*;
use crate::counter::Counter;
use crate::info::FREQUENCY;
use crate::regs::RtcCtrlReg;

verus! {

/// A snapshot of the five clock registers.
#[derive(Clone, Copy, Debug, PartialEq, Eq, Structural)]
pub struct RtcLatch {
    pub sec: u8,
    pub min: u8,
    pub hr: u8,
    pub day: u8,
    pub ctrl: u8,
}

#[derive(Clone, Copy, Debug, PartialEq, Eq, Structural)]
pub struct Mbc3Rtc {
    /// Turns dots into seconds.
    pub counter: Counter,
    pub latched: Option<RtcLatch>,
    pub sec: u8,
    pub min: u8,
    pub hr: u8,
    /// Low eight bits of the day counter; the ninth is in `ctrl`.
    pub day: u8,
    pub ctrl: RtcCtrlReg,
}

/// A register after a write (`inc` false) or a carry into it (`inc` true).
/// A write only drops the bits beyond the register's width. A carry resets
/// the register when it holds `wrap_on` and passes the carry on; any other
/// value is incremented within the width without a carry.
pub open spec fn spec_adjust_reg(old: u8, wrap_on: u8, modulus: u16, inc: bool) -> (u8, bool) {
    if inc {
        if old == wrap_on {
            (0u8, true)
        } else {
            (((old + 1) % (modulus as int)) as u8, false)
        }
    } else {
        ((old % (modulus as u8)) as u8, false)
    }
}

pub fn adjust_reg(old: u8, wrap_on: u8, modulus: u16, inc: bool) -> (r: (u8, bool))
    requires
        0 < modulus <= 128,
    ensures
        r == spec_adjust_reg(old, wrap_on, modulus, inc),
        r.0 < modulus,
{
    if inc {
        if old == wrap_on {
            (0, true)
        } else {
            (((old as u16 + 1) % modulus) as u8, false)
        }
    } else {
        (old % (modulus as u8), false)
    }
}

impl Mbc3Rtc {
    pub open spec fn wf(self) -> bool {
        &&& self.counter.wf()
        &&& self.counter.period == FREQUENCY
        &&& self.sec < 64
        &&& self.min < 64
        &&& self.hr < 32
    }

    pub open spec fn initial() -> Mbc3Rtc {
        Mbc3Rtc {
            counter: Counter { ticks: 0, period: FREQUENCY },
            latched: None,
            sec: 0,
            min: 0,
            hr: 0,
            day: 0,
            ctrl: RtcCtrlReg { day: false, halt: false, overflow: false },
        }
    }

    /// The nine-bit day counter.
    pub open spec fn days(self) -> int {
        self.day + 256 * crate::regs::bit(self.ctrl.day)
    }

    /// The registers after a write (`inc` false) or after one more second
    /// (`inc` true): seconds and minutes roll over at 60, hours at 24. A
    /// carry out of the hours advances the day counter, which stays at 511
    /// once it is there and then raises the overflow flag.
    pub open spec fn adjusted(self, inc: bool) -> Mbc3Rtc {
        let (sec, c1) = spec_adjust_reg(self.sec, 59, 64, inc);
        let (min, c2) = spec_adjust_reg(self.min, 59, 64, c1);
        let (hr, c3) = spec_adjust_reg(self.hr, 23, 32, c2);
        let t = Mbc3Rtc { sec, min, hr, ..self };
        if !c3 {
            t
        } else if self.day == 255 && self.ctrl.day {
            Mbc3Rtc { ctrl: RtcCtrlReg { overflow: true, ..self.ctrl }, ..t }
        } else if self.day == 255 {
            Mbc3Rtc { day: 0, ctrl: RtcCtrlReg { day: true, ..self.ctrl }, ..t }
        } else {
            Mbc3Rtc { day: (self.day + 1) as u8, ..t }
        }
    }

    /// The clock `n` seconds later.
    pub open spec fn after_seconds(self, n: nat) -> Mbc3Rtc
        decreases n,
    {
        if n == 0 {
            self
        } else {
            self.adjusted(true).after_seconds((n - 1) as nat)
        }
    }

    /// The clock after `dots` dots: a halted clock stands still.
    pub open spec fn after_tick(self, dots: u32) -> Mbc3Rtc {
        if self.ctrl.halt {
            self
        } else {
            (Mbc3Rtc { counter: self.counter.advanced(dots), ..self }).after_seconds(
                self.counter.fired(dots) as nat,
            )
        }
    }

    pub open spec fn after_set_latching(self, enable: bool) -> Mbc3Rtc {
        if enable {
            Mbc3Rtc {
                latched: Some(
                    RtcLatch {
                        sec: self.sec,
                        min: self.min,
                        hr: self.hr,
                        day: self.day,
                        ctrl: self.ctrl.pack() as u8,
                    },
                ),
                ..self
            }
        } else {
            Mbc3Rtc { latched: None, ..self }
        }
    }

    /// What a read of clock register `reg_id` (0x8 to 0xC) returns: the
    /// snapshot while one is latched, else the live value. Other numbers
    /// read 0xFF.
    pub open spec fn spec_read(self, reg_id: usize) -> u8 {
        if reg_id < 0x8 || reg_id > 0xC {
            0xFF
        } else if let Some(saved) = self.latched {
            if reg_id == 0x8 {
                saved.sec
            } else if reg_id == 0x9 {
                saved.min
            } else if reg_id == 0xA {
                saved.hr
            } else if reg_id == 0xB {
                saved.day
            } else {
                saved.ctrl
            }
        } else {
            if reg_id == 0x8 {
                self.sec
            } else if reg_id == 0x9 {
                self.min
            } else if reg_id == 0xA {
                self.hr
            } else if reg_id == 0xB {
                self.day
            } else {
                self.ctrl.pack() as u8
            }
        }
    }

    pub open spec fn after_write(self, reg_id: usize, val: u8) -> Mbc3Rtc {
        let t = if reg_id == 0x8 {
            Mbc3Rtc { sec: val, ..self }
        } else if reg_id == 0x9 {
            Mbc3Rtc { min: val, ..self }
        } else if reg_id == 0xA {
            Mbc3Rtc { hr: val, ..self }
        } else if reg_id == 0xB {
            Mbc3Rtc { day: val, ..self }
        } else if reg_id == 0xC {
            Mbc3Rtc { ctrl: RtcCtrlReg::unpack(val), ..self }
        } else {
            self
        };
        t.adjusted(false)
    }

    /// Tells whether the clock is well-formed.
    pub fn check(&self) -> (ok: bool)
        ensures
            ok == self.wf(),
    {
        self.counter.check() && self.counter.period == FREQUENCY && self.sec < 64 && self.min < 64
            && self.hr < 32
    }

    pub fn new() -> (r: Mbc3Rtc)
        ensures
            r == Mbc3Rtc::initial(),
            r.wf(),
    {
        Mbc3Rtc {
            counter: Counter::new(FREQUENCY),
            latched: None,
            sec: 0,
            min: 0,
            hr: 0,
            day: 0,
            ctrl: RtcCtrlReg::new(0),
        }
    }

    pub fn tick(&mut self, dots: u32)
        requires
            old(self).wf(),
        ensures
            *final(self) == old(self).after_tick(dots),
            final(self).wf(),
    {
        if self.ctrl.halt {
            return ;
        }
        let n = self.counter.tick(dots);
        let ghost start = *self;
        let mut i: u32 = 0;
        while i < n
            invariant
                i <= n,
                self.wf(),
                self.after_seconds((n - i) as nat) == start.after_seconds(n as nat),
            decreases n - i,
        {
            self.adjust_registers(true);
            i = i + 1;
        }
    }

    pub fn set_latching(&mut self, enable: bool)
        requires
            old(self).wf(),
        ensures
            *final(self) == old(self).after_set_latching(enable),
            final(self).wf(),
    {
        if enable {
            self.latched = Some(
                RtcLatch {
                    sec: self.sec,
                    min: self.min,
                    hr: self.hr,
                    day: self.day,
                    ctrl: self.ctrl.read(),
                },
            );
        } else {
            self.latched = None;
        }
    }

    pub fn read(&self, reg_id: usize) -> (v: u8)
        requires
            self.wf(),
        ensures
            v == self.spec_read(reg_id),
    {
        if reg_id < 0x8 || reg_id > 0xC {
            return 0xFF;
        }
        if let Some(saved) = self.latched {
            return match reg_id {
                0x8 => saved.sec,
                0x9 => saved.min,
                0xA => saved.hr,
                0xB => saved.day,
                _ => saved.ctrl,
            };
        }
        match reg_id {
            0x8 => self.sec,
            0x9 => self.min,
            0xA => self.hr,
            0xB => self.day,
            _ => self.ctrl.read(),
        }
    }

    pub fn write(&mut self, reg_id: usize, val: u8)
        requires
            old(self).wf(),
        ensures
            *final(self) == old(self).after_write(reg_id, val),
            final(self).wf(),
    {
        match reg_id {
            0x8 => self.sec = val,
            0x9 => self.min = val,
            0xA => self.hr = val,
            0xB => self.day = val,
            0xC => self.ctrl.write(val),
            _ => (),
        }
        self.adjust_registers(false);
    }

    fn adjust_registers(&mut self, inc: bool)
        requires
            old(self).counter.wf(),
            old(self).counter.period == FREQUENCY,
        ensures
            *final(self) == old(self).adjusted(inc),
            final(self).wf(),
    {
        let (sec, c1) = adjust_reg(self.sec, 59, 64, inc);
        let (min, c2) = adjust_reg(self.min, 59, 64, c1);
        let (hr, c3) = adjust_reg(self.hr, 23, 32, c2);
        self.sec = sec;
        self.min = min;
        self.hr = hr;
        if c3 {
            if self.day == 255 && self.ctrl.day {
                self.ctrl.overflow = true;
            } else if self.day == 255 {
                self.day = 0;
                self.ctrl.day = true;
            } else {
                self.day = self.day + 1;
            }
        }
    }
}

/// One second on a running clock with seconds and minutes below 60 and
/// hours below 24 keeps them there and, short of day 511, advances the time
/// by exactly one second.
pub proof fn lemma_second_advances(r: Mbc3Rtc)
    requires
        r.sec < 60,
        r.min < 60,
        r.hr < 24,
    ensures
        ({
            let t = r.adjusted(true);
            let before = r.sec + 60 * (r.min + 60 * (r.hr + 24 * r.days()));
            let after = t.sec + 60 * (t.min + 60 * (t.hr + 24 * t.days()));
            &&& t.sec < 60 && t.min < 60 && t.hr < 24
            &&& t.days() <= 511
            &&& after == if before == 512 * 86400 - 1 { 511 * 86400int } else { before + 1 }
            &&& t.ctrl.overflow == (r.ctrl.overflow || before == 512 * 86400 - 1)
        }),
{
}

} // verus!
