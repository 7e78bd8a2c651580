//! The two pulse channels; the first one also sweeps its period.
use vstd::prelude::*;
use crate::apu::parts::{
    calc_new_period,
    get_pwm_sample,
    new_period_sweep_counter,
    set_period,
    spec_new_period,
    spec_pwm_sample,
    sweep_period,
    LengthTimer,
    PeriodDivider,
    VolumeEnvelope,
    DIVIDER_MAX_PERIOD,
};
use crate::counter::Counter;
use crate::regs::{AudioNx0, AudioNx1, AudioNx2, AudioNx4};

verus! {

#[derive(Clone, Copy, Debug, PartialEq, Eq, Structural)]
pub struct PulseChannel {
    pub on: bool,
    /// Digital output, 0 to 15.
    pub output: u8,
    pub nx0: AudioNx0,
    pub nx1: AudioNx1,
    pub nx2: AudioNx2,
    /// Low eight bits of the period.
    pub nx3: u8,
    pub nx4: AudioNx4,
    pub use_sweep: bool,
    pub sweep_ctr: Counter,
    pub sweep_enabled: bool,
    pub shadow_period: u32,
    pub envelope: VolumeEnvelope,
    pub length_timer: LengthTimer,
    pub divider: PeriodDivider,
}

impl PulseChannel {
    pub open spec fn wf(self) -> bool {
        &&& self.nx0.wf()
        &&& self.nx1.wf()
        &&& self.nx2.wf()
        &&& self.nx4.wf()
        &&& self.sweep_ctr.wf()
        &&& self.shadow_period < DIVIDER_MAX_PERIOD
        &&& self.envelope.wf()
        &&& self.length_timer.wf()
        &&& self.divider.wf()
        &&& self.output <= 15
    }

    pub open spec fn initial(use_sweep: bool) -> PulseChannel {
        PulseChannel {
            on: false,
            output: 0,
            nx0: AudioNx0::unpack(0),
            nx1: AudioNx1::unpack(0),
            nx2: AudioNx2::unpack(0),
            nx3: 0,
            nx4: AudioNx4::unpack(0),
            use_sweep,
            sweep_ctr: Counter { ticks: 0, period: 0 },
            sweep_enabled: false,
            shadow_period: 0,
            envelope: VolumeEnvelope::idle(),
            length_timer: LengthTimer::idle(),
            divider: PeriodDivider::initial(false),
        }
    }

    /// The DAC is on unless NRx2 asks for volume zero, decreasing.
    pub open spec fn spec_dac_enabled(self) -> bool {
        !(!self.nx2.direction && self.nx2.initial_volume == 0)
    }

    /// The channel after the sweep is set up by a trigger.
    pub open spec fn after_setup_sweep(self) -> PulseChannel {
        let t = PulseChannel {
            shadow_period: self.divider.period,
            sweep_ctr: Counter { ticks: 0, period: sweep_period(self.nx0.pace) },
            sweep_enabled: self.nx0.pace != 0 || self.nx0.shift_step != 0,
            ..self
        };
        if self.nx0.shift_step == 0 {
            t
        } else {
            PulseChannel { on: !spec_new_period(t.shadow_period, self.nx0).1, ..t }
        }
    }

    /// The channel after a step of the period sweep.
    pub open spec fn after_tick_sweep(self) -> PulseChannel {
        let t = PulseChannel { sweep_ctr: self.sweep_ctr.advanced(1), ..self };
        if self.sweep_ctr.fired(1) == 0 || self.nx0.shift_step == 0 {
            t
        } else {
            let (new, ovf) = spec_new_period(self.shadow_period, self.nx0);
            if ovf {
                PulseChannel { on: false, ..t }
            } else {
                PulseChannel {
                    shadow_period: new,
                    nx3: (new % 256) as u8,
                    nx4: AudioNx4 { period_high: (new / 256) as u8, ..self.nx4 },
                    on: !spec_new_period(new, self.nx0).1,
                    ..t
                }
            }
        }
    }

    /// The channel after a trigger: with the DAC on it is switched on, the
    /// period and the envelope are reloaded, an expired length timer is
    /// restarted and the sweep is set up.
    pub open spec fn after_trigger(self) -> PulseChannel {
        let t = PulseChannel { nx4: AudioNx4 { trigger: false, ..self.nx4 }, ..self };
        if !self.spec_dac_enabled() {
            t
        } else {
            let u = PulseChannel {
                on: true,
                divider: t.divider.after_update(t.nx3, t.nx4),
                envelope: VolumeEnvelope::loaded(t.nx2),
                length_timer: if !t.length_timer.active {
                    LengthTimer::loaded(false, t.nx1.length_period)
                } else {
                    t.length_timer
                },
                ..t
            };
            if u.use_sweep {
                u.after_setup_sweep()
            } else {
                u
            }
        }
    }

    /// The channel after a tick of the frame sequencer.
    pub open spec fn after_apu_tick(self) -> PulseChannel {
        let a = if self.sweep_enabled && self.nx0.pace != 0 {
            self.after_tick_sweep()
        } else {
            self
        };
        let b = if a.nx4.length_timer_enable {
            PulseChannel {
                length_timer: a.length_timer.after_tick(),
                on: a.length_timer.after_tick().active,
                ..a
            }
        } else {
            a
        };
        let c = if !b.spec_dac_enabled() {
            PulseChannel { on: false, ..b }
        } else {
            b
        };
        PulseChannel { envelope: c.envelope.after_tick(), ..c }
    }

    /// The channel after `dots` dots: a pending trigger is served; else the
    /// output becomes the current duty sample times the envelope volume and
    /// the divider advances, taking a new period when the waveform wraps.
    pub open spec fn after_tick(self, dots: u32) -> PulseChannel {
        if self.nx4.trigger {
            self.after_trigger()
        } else {
            let d = self.divider.after_tick(dots);
            PulseChannel {
                output: (spec_pwm_sample(self.nx1.wave_duty, self.divider.sample_idx)
                    * self.envelope.volume) as u8,
                divider: if d.sample_finished {
                    d.after_update(self.nx3, self.nx4)
                } else {
                    d
                },
                ..self
            }
        }
    }

    /// Tells whether the channel is well-formed.
    pub fn check(&self) -> (ok: bool)
        ensures
            ok == self.wf(),
    {
        self.nx0.check() && self.nx1.check() && self.nx2.check() && self.nx4.check()
            && self.sweep_ctr.check() && self.shadow_period < DIVIDER_MAX_PERIOD
            && self.envelope.check() && self.length_timer.check() && self.divider.check()
            && self.output <= 15
    }

    pub fn new(use_sweep: bool) -> (r: PulseChannel)
        ensures
            r == PulseChannel::initial(use_sweep),
            r.wf(),
    {
        PulseChannel {
            on: false,
            output: 0,
            nx0: AudioNx0::new(0),
            nx1: AudioNx1::new(0),
            nx2: AudioNx2::new(0),
            nx3: 0,
            nx4: AudioNx4::new(0),
            use_sweep,
            sweep_ctr: Counter::new(0),
            sweep_enabled: false,
            shadow_period: 0,
            envelope: VolumeEnvelope::idle_value(),
            length_timer: LengthTimer::idle_value(),
            divider: PeriodDivider::new(false),
        }
    }

    pub fn apu_tick(&mut self)
        requires
            old(self).wf(),
        ensures
            *final(self) == old(self).after_apu_tick(),
            final(self).wf(),
    {
        if self.sweep_enabled && self.nx0.pace != 0 {
            self.tick_sweep();
        }
        if self.nx4.length_timer_enable {
            self.length_timer.tick();
            self.on = self.length_timer.is_active();
        }
        if !self.dac_enabled() {
            self.on = false;
        }
        self.envelope.tick();
    }

    pub fn tick(&mut self, dots: u32)
        requires
            old(self).wf(),
        ensures
            *final(self) == old(self).after_tick(dots),
            final(self).wf(),
    {
        if self.nx4.trigger {
            self.trigger();
            return ;
        }
        let s = get_pwm_sample(self.nx1.wave_duty, self.divider.sample_idx());
        assert(s * self.envelope.volume <= 15) by (nonlinear_arith)
            requires
                s <= 1,
                self.envelope.volume <= 15,
        ;
        self.output = s * self.envelope.volume();
        self.divider.tick(dots);
        if self.divider.is_reload_allowed() {
            self.divider.update_period(self.nx3, &self.nx4);
        }
    }

    pub fn trigger(&mut self)
        requires
            old(self).wf(),
        ensures
            *final(self) == old(self).after_trigger(),
            final(self).wf(),
    {
        self.nx4.trigger = false;
        if !self.dac_enabled() {
            return ;
        }
        self.on = true;
        self.divider.update_period(self.nx3, &self.nx4);
        self.envelope = VolumeEnvelope::new(&self.nx2);
        if !self.length_timer.is_active() {
            self.length_timer = LengthTimer::new(false, self.nx1.length_period);
        }
        if self.use_sweep {
            self.setup_sweep();
        }
    }

    fn setup_sweep(&mut self)
        requires
            old(self).wf(),
        ensures
            *final(self) == old(self).after_setup_sweep(),
            final(self).wf(),
    {
        self.shadow_period = self.divider.period();
        self.sweep_ctr = new_period_sweep_counter(self.nx0.pace);
        self.sweep_enabled = self.nx0.pace != 0 || self.nx0.shift_step != 0;
        if self.nx0.shift_step == 0 {
            return ;
        }
        let (_, ovf) = calc_new_period(self.shadow_period, &self.nx0);
        self.on = !ovf;
    }

    fn tick_sweep(&mut self)
        requires
            old(self).wf(),
        ensures
            *final(self) == old(self).after_tick_sweep(),
            final(self).wf(),
    {
        if self.sweep_ctr.tick(1) == 0 {
            return ;
        }
        if self.nx0.shift_step == 0 {
            return ;
        }
        let (new, ovf) = calc_new_period(self.shadow_period, &self.nx0);
        if ovf {
            self.on = false;
            return ;
        }
        self.shadow_period = new;
        set_period(&mut self.nx3, &mut self.nx4, new);
        let (_, ovf) = calc_new_period(self.shadow_period, &self.nx0);
        self.on = !ovf;
    }

    pub fn dac_enabled(&self) -> (r: bool)
        ensures
            r == self.spec_dac_enabled(),
    {
        !(!self.nx2.direction && self.nx2.initial_volume == 0)
    }
}

} // verus!
