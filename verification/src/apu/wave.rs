//! The wave channel, which plays 32 four-bit samples from its own RAM.
use vstd::prelude::*;
use crate::apu::parts::{LengthTimer, PeriodDivider};
use crate::info::SIZE_AUDIO_WAVE_RAM;
use crate::regs::{AudioN30, AudioN32, AudioNx4};

verus! {

#[derive(Clone, Copy, Debug, PartialEq, Eq, Structural)]
pub struct WaveChannel {
    pub on: bool,
    /// Digital output, 0 to 15.
    pub output: u8,
    pub n30: AudioN30,
    /// Initial value of the length timer.
    pub n31: u8,
    pub n32: AudioN32,
    /// Low eight bits of the period.
    pub n33: u8,
    pub n34: AudioNx4,
    pub length_timer: LengthTimer,
    pub divider: PeriodDivider,
}

/// Sample `i` of the wave RAM, the upper nibble of each byte first, scaled
/// by the output level: muted, full, half or a quarter.
pub open spec fn spec_wave_sample(wave_ram: Seq<u8>, i: u8, output_level: u8) -> u8 {
    let b = wave_ram[i as int / 2];
    let nibble = if i % 2 == 0 {
        b / 16
    } else {
        b % 16
    };
    if output_level == 0 {
        0
    } else if output_level == 1 {
        nibble as u8
    } else if output_level == 2 {
        (nibble / 2) as u8
    } else {
        (nibble / 4) as u8
    }
}

impl WaveChannel {
    pub open spec fn wf(self) -> bool {
        &&& self.n32.wf()
        &&& self.n34.wf()
        &&& self.length_timer.wf()
        &&& self.divider.wf()
        &&& self.divider.wave_sample_count == 32
        &&& self.output <= 15
    }

    pub open spec fn initial() -> WaveChannel {
        WaveChannel {
            on: false,
            output: 0,
            n30: AudioN30::unpack(0),
            n31: 0,
            n32: AudioN32::unpack(0),
            n33: 0,
            n34: AudioNx4::unpack(0),
            length_timer: LengthTimer::idle(),
            divider: PeriodDivider::initial(true),
        }
    }

    pub open spec fn after_trigger(self) -> WaveChannel {
        let t = WaveChannel { n34: AudioNx4 { trigger: false, ..self.n34 }, ..self };
        if !self.n30.dac_on {
            t
        } else {
            WaveChannel {
                on: true,
                divider: t.divider.after_update(t.n33, t.n34),
                length_timer: if !t.length_timer.active {
                    LengthTimer::loaded(true, t.n31)
                } else {
                    t.length_timer
                },
                ..t
            }
        }
    }

    pub open spec fn after_apu_tick(self) -> WaveChannel {
        let a = if self.n34.length_timer_enable {
            WaveChannel {
                length_timer: self.length_timer.after_tick(),
                on: self.length_timer.after_tick().active,
                ..self
            }
        } else {
            self
        };
        if !a.n30.dac_on {
            WaveChannel { on: false, ..a }
        } else {
            a
        }
    }

    pub open spec fn after_tick(self, dots: u32, wave_ram: Seq<u8>) -> WaveChannel {
        if self.n34.trigger {
            self.after_trigger()
        } else {
            let d = self.divider.after_tick(dots);
            WaveChannel {
                output: spec_wave_sample(wave_ram, self.divider.sample_idx, self.n32.output_level),
                divider: if d.sample_finished {
                    d.after_update(self.n33, self.n34)
                } else {
                    d
                },
                ..self
            }
        }
    }

    /// Tells whether the channel is well-formed.
    pub fn check(&self) -> (ok: bool)
        ensures
            ok == self.wf(),
    {
        self.n32.check() && self.n34.check() && self.length_timer.check() && self.divider.check()
            && self.divider.wave_sample_count == 32 && self.output <= 15
    }

    pub fn new() -> (r: WaveChannel)
        ensures
            r == WaveChannel::initial(),
            r.wf(),
    {
        WaveChannel {
            on: false,
            output: 0,
            n30: AudioN30::new(0),
            n31: 0,
            n32: AudioN32::new(0),
            n33: 0,
            n34: AudioNx4::new(0),
            length_timer: LengthTimer::idle_value(),
            divider: PeriodDivider::new(true),
        }
    }

    pub fn apu_tick(&mut self)
        requires
            old(self).wf(),
        ensures
            *final(self) == old(self).after_apu_tick(),
            final(self).wf(),
    {
        if self.n34.length_timer_enable {
            self.length_timer.tick();
            self.on = self.length_timer.is_active();
        }
        if !self.n30.dac_on {
            self.on = false;
        }
    }

    pub fn tick(&mut self, dots: u32, wave_ram: &Vec<u8>)
        requires
            old(self).wf(),
            wave_ram.len() == SIZE_AUDIO_WAVE_RAM,
        ensures
            *final(self) == old(self).after_tick(dots, wave_ram@),
            final(self).wf(),
    {
        if self.n34.trigger {
            self.trigger();
            return ;
        }
        self.output = self.get_wave_sample(wave_ram);
        self.divider.tick(dots);
        if self.divider.is_reload_allowed() {
            self.divider.update_period(self.n33, &self.n34);
        }
    }

    pub fn trigger(&mut self)
        requires
            old(self).wf(),
        ensures
            *final(self) == old(self).after_trigger(),
            final(self).wf(),
    {
        self.n34.trigger = false;
        if !self.n30.dac_on {
            return ;
        }
        self.on = true;
        self.divider.update_period(self.n33, &self.n34);
        if !self.length_timer.is_active() {
            self.length_timer = LengthTimer::new(true, self.n31);
        }
    }

    pub fn get_wave_sample(&self, wave_ram: &Vec<u8>) -> (s: u8)
        requires
            self.wf(),
            wave_ram.len() == SIZE_AUDIO_WAVE_RAM,
        ensures
            s == spec_wave_sample(wave_ram@, self.divider.sample_idx, self.n32.output_level),
            s <= 15,
    {
        let i = self.divider.sample_idx() as usize;
        let b = wave_ram[i / 2];
        let b = if i % 2 == 0 {
            b / 16
        } else {
            b % 16
        };
        match self.n32.output_level {
            0 => 0,
            1 => b,
            2 => b / 2,
            _ => b / 4,
        }
    }
}

} // verus!
