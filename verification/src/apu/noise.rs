//! The noise channel: a linear-feedback shift register behind a prescaler.
use vstd::prelude::*;
use crate::apu::parts::{lfsr_period, new_lfsr_counter, LengthTimer, VolumeEnvelope};
use crate::counter::Counter;
use crate::regs::{bit, AudioN43, AudioNx1, AudioNx2, AudioNx4};

verus! {

#[derive(Clone, Copy, Debug, PartialEq, Eq, Structural)]
pub struct NoiseChannel {
    pub on: bool,
    /// Digital output, 0 to 15.
    pub output: u8,
    pub n41: AudioNx1,
    pub n42: AudioNx2,
    pub n44: AudioNx4,
    pub n43: AudioN43,
    pub lfsr_bits: u16,
    pub lfsr_ctr: Counter,
    pub envelope: VolumeEnvelope,
    pub length_timer: LengthTimer,
}

/// `bits` with bit `index` set to `value`.
pub open spec fn with_bit(bits: u16, index: u16, value: bool) -> u16 {
    if value {
        bits | (1u16 << index)
    } else {
        bits & !(1u16 << index)
    }
}

pub fn set_bit(bits: &mut u16, index: u16, value: bool)
    requires
        index < 16,
    ensures
        *final(bits) == with_bit(*old(bits), index, value),
{
    if value {
        *bits = *bits | (1u16 << index);
    } else {
        *bits = *bits & !(1u16 << index);
    }
}

/// The bit fed back into the register: set when its two lowest bits are equal.
pub open spec fn feedback(bits: u16) -> bool {
    !((bits >> 1) ^ bits) & 1 == 1
}

/// The register with the feedback bit stored at bit 15, and at bit 7 too in short mode.
pub open spec fn fed(bits: u16, short: bool) -> u16 {
    let a = with_bit(bits, 15, feedback(bits));
    if short {
        with_bit(a, 7, feedback(bits))
    } else {
        a
    }
}

impl NoiseChannel {
    pub open spec fn wf(self) -> bool {
        &&& self.n41.wf()
        &&& self.n42.wf()
        &&& self.n44.wf()
        &&& self.n43.wf()
        &&& self.lfsr_ctr.wf()
        &&& self.envelope.wf()
        &&& self.length_timer.wf()
        &&& self.output <= 15
    }

    pub open spec fn initial() -> NoiseChannel {
        NoiseChannel {
            on: false,
            output: 0,
            n41: AudioNx1::unpack(0),
            n42: AudioNx2::unpack(0),
            n44: AudioNx4::unpack(0),
            n43: AudioN43::unpack(0),
            lfsr_bits: 0,
            lfsr_ctr: Counter { ticks: 0, period: 0 },
            envelope: VolumeEnvelope::idle(),
            length_timer: LengthTimer::idle(),
        }
    }

    pub open spec fn spec_dac_enabled(self) -> bool {
        !(!self.n42.direction && self.n42.initial_volume == 0)
    }

    pub open spec fn after_trigger(self) -> NoiseChannel {
        let t = NoiseChannel { n44: AudioNx4 { trigger: false, ..self.n44 }, ..self };
        if !self.spec_dac_enabled() {
            t
        } else {
            NoiseChannel {
                on: true,
                envelope: VolumeEnvelope::loaded(t.n42),
                length_timer: if !t.length_timer.active {
                    LengthTimer::loaded(false, t.n41.length_period)
                } else {
                    t.length_timer
                },
                ..t
            }
        }
    }

    pub open spec fn after_apu_tick(self) -> NoiseChannel {
        let a = if self.n44.length_timer_enable {
            NoiseChannel {
                length_timer: self.length_timer.after_tick(),
                on: self.length_timer.after_tick().active,
                ..self
            }
        } else {
            self
        };
        let b = if !a.spec_dac_enabled() {
            NoiseChannel { on: false, ..a }
        } else {
            a
        };
        NoiseChannel { envelope: b.envelope.after_tick(), ..b }
    }

    /// The channel after `dots` dots: a pending trigger is served; else,
    /// when the prescaler fires, the register takes its feedback bit, its
    /// lowest bit times the envelope volume becomes the output, and it
    /// shifts right by one.
    pub open spec fn after_tick(self, dots: u32) -> NoiseChannel {
        if self.n44.trigger {
            self.after_trigger()
        } else if self.lfsr_ctr.fired(dots) > 0 {
            let bits = fed(self.lfsr_bits, self.n43.lfsr_width);
            NoiseChannel {
                lfsr_ctr: self.lfsr_ctr.advanced(dots),
                output: (bit(bits & 1 == 1) * self.envelope.volume) as u8,
                lfsr_bits: bits >> 1,
                ..self
            }
        } else {
            NoiseChannel { lfsr_ctr: self.lfsr_ctr.advanced(dots), ..self }
        }
    }

    pub open spec fn after_write_n43(self, v: u8) -> NoiseChannel {
        NoiseChannel {
            n43: AudioN43::unpack(v),
            lfsr_ctr: Counter { ticks: 0, period: lfsr_period(AudioN43::unpack(v)) },
            ..self
        }
    }

    /// Tells whether the channel is well-formed.
    pub fn check(&self) -> (ok: bool)
        ensures
            ok == self.wf(),
    {
        self.n41.check() && self.n42.check() && self.n44.check() && self.n43.check()
            && self.lfsr_ctr.check() && self.envelope.check() && self.length_timer.check()
            && self.output <= 15
    }

    pub fn new() -> (r: NoiseChannel)
        ensures
            r == NoiseChannel::initial(),
            r.wf(),
    {
        NoiseChannel {
            on: false,
            output: 0,
            n41: AudioNx1::new(0),
            n42: AudioNx2::new(0),
            n44: AudioNx4::new(0),
            n43: AudioN43::new(0),
            lfsr_bits: 0,
            lfsr_ctr: Counter::new(0),
            envelope: VolumeEnvelope::idle_value(),
            length_timer: LengthTimer::idle_value(),
        }
    }

    pub fn apu_tick(&mut self)
        requires
            old(self).wf(),
        ensures
            *final(self) == old(self).after_apu_tick(),
            final(self).wf(),
    {
        if self.n44.length_timer_enable {
            self.length_timer.tick();
            self.on = self.length_timer.is_active();
        }
        if !self.dac_enabled() {
            self.on = false;
        }
        self.envelope.tick();
    }

    pub fn tick(&mut self, dots: u32)
        requires
            old(self).wf(),
        ensures
            *final(self) == old(self).after_tick(dots),
            final(self).wf(),
    {
        if self.n44.trigger {
            self.trigger();
            return ;
        }
        if self.lfsr_ctr.tick(dots) > 0 {
            let out = !((self.lfsr_bits >> 1) ^ self.lfsr_bits) & 1;
            set_bit(&mut self.lfsr_bits, 15, out == 1);
            if self.n43.lfsr_width {
                set_bit(&mut self.lfsr_bits, 7, out == 1);
            }
            self.output = if self.lfsr_bits & 1 == 1 {
                self.envelope.volume()
            } else {
                0
            };
            self.lfsr_bits = self.lfsr_bits >> 1;
        }
    }

    pub fn read_n43(&self) -> (v: u8)
        requires
            self.wf(),
        ensures
            v == self.n43.pack(),
    {
        self.n43.read()
    }

    pub fn write_n43(&mut self, v: u8)
        requires
            old(self).wf(),
        ensures
            *final(self) == old(self).after_write_n43(v),
            final(self).wf(),
    {
        self.n43.write(v);
        self.lfsr_ctr = new_lfsr_counter(&self.n43);
    }

    pub fn trigger(&mut self)
        requires
            old(self).wf(),
        ensures
            *final(self) == old(self).after_trigger(),
            final(self).wf(),
    {
        self.n44.trigger = false;
        if !self.dac_enabled() {
            return ;
        }
        self.on = true;
        self.envelope = VolumeEnvelope::new(&self.n42);
        if !self.length_timer.is_active() {
            self.length_timer = LengthTimer::new(false, self.n41.length_period);
        }
    }

    pub fn dac_enabled(&self) -> (r: bool)
        ensures
            r == self.spec_dac_enabled(),
    {
        !(!self.n42.direction && self.n42.initial_volume == 0)
    }
}

} // verus!
