//! Building blocks shared by the sound channels: volume envelope, length
//! timer, period divider and the sweep arithmetic.
use vstd::prelude::*;
use crate::counter::Counter;
use crate::regs::{AudioN43, AudioNx0, AudioNx2, AudioNx4};

verus! {

/// Largest value of the 11-bit period plus one.
pub const DIVIDER_MAX_PERIOD: u32 = 2048;

/// Dots per step of the noise generator at divider 1 and shift 0.
pub const LSFR_BASE_PERIOD: u32 = 16;

/// Sequencer ticks per step of the period sweep at pace 1.
pub const SWEEPER_BASE_PERIOD: u32 = 4;

/// Sequencer ticks per step of the length timer.
pub const LENGTH_BASE_PERIOD: u32 = 2;

/// Sequencer ticks per step of the volume envelope at pace 1.
pub const ENVELOPE_BASE_PERIOD: u32 = 8;

#[derive(Clone, Copy, Debug, PartialEq, Eq, Structural)]
pub struct VolumeEnvelope {
    pub volume: u8,
    pub active: bool,
    pub decrement: bool,
    pub counter: Counter,
}

impl VolumeEnvelope {
    pub open spec fn wf(self) -> bool {
        self.volume <= 15 && self.counter.wf()
    }

    pub open spec fn idle() -> VolumeEnvelope {
        VolumeEnvelope {
            volume: 0,
            active: false,
            decrement: false,
            counter: Counter { ticks: 0, period: 0 },
        }
    }

    /// The envelope that a trigger loads from NRx2.
    pub open spec fn loaded(nx2: AudioNx2) -> VolumeEnvelope {
        VolumeEnvelope {
            volume: nx2.initial_volume,
            counter: Counter { ticks: 0, period: (ENVELOPE_BASE_PERIOD * nx2.pace) as u32 },
            decrement: !nx2.direction,
            active: nx2.pace != 0,
        }
    }

    /// The envelope after one sequencer tick: every `8 * pace` ticks the
    /// volume moves one step in its direction, and the envelope stops once
    /// it would leave 0..=15.
    pub open spec fn after_tick(self) -> VolumeEnvelope {
        if !self.active {
            self
        } else if self.counter.fired(1) == 0 {
            VolumeEnvelope { counter: self.counter.advanced(1), ..self }
        } else {
            let t = VolumeEnvelope { counter: self.counter.advanced(1), ..self };
            if (self.decrement && self.volume == 0) || (!self.decrement && self.volume == 15) {
                VolumeEnvelope { active: false, ..t }
            } else if self.decrement {
                VolumeEnvelope { volume: (self.volume - 1) as u8, ..t }
            } else {
                VolumeEnvelope { volume: (self.volume + 1) as u8, ..t }
            }
        }
    }

    /// Tells whether the envelope is well-formed.
    pub fn check(&self) -> (ok: bool)
        ensures
            ok == self.wf(),
    {
        self.volume <= 15 && self.counter.check()
    }

    pub fn idle_value() -> (r: VolumeEnvelope)
        ensures
            r == VolumeEnvelope::idle(),
            r.wf(),
    {
        VolumeEnvelope { volume: 0, active: false, decrement: false, counter: Counter::new(0) }
    }

    pub fn new(nx2: &AudioNx2) -> (r: VolumeEnvelope)
        requires
            nx2.wf(),
        ensures
            r == VolumeEnvelope::loaded(*nx2),
            r.wf(),
    {
        VolumeEnvelope {
            volume: nx2.initial_volume,
            counter: Counter::new(ENVELOPE_BASE_PERIOD * nx2.pace as u32),
            decrement: !nx2.direction,
            active: nx2.pace != 0,
        }
    }

    pub fn tick(&mut self)
        requires
            old(self).wf(),
        ensures
            *final(self) == old(self).after_tick(),
            final(self).wf(),
    {
        if !self.active {
            return ;
        }
        if self.counter.tick(1) == 0 {
            return ;
        }
        if (self.decrement && self.volume == 0) || (!self.decrement && self.volume == 15) {
            self.active = false;
        } else if self.decrement {
            self.volume = self.volume - 1;
        } else {
            self.volume = self.volume + 1;
        }
    }

    pub fn volume(&self) -> (v: u8)
        ensures
            v == self.volume,
    {
        self.volume
    }
}

#[derive(Clone, Copy, Debug, PartialEq, Eq, Structural)]
pub struct LengthTimer {
    pub active: bool,
    pub counter: Counter,
}

impl LengthTimer {
    pub open spec fn wf(self) -> bool {
        self.counter.wf()
    }

    pub open spec fn idle() -> LengthTimer {
        LengthTimer { active: false, counter: Counter { ticks: 0, period: 0 } }
    }

    /// Steps of the length timer of a channel: 256 for the wave channel, 64 for the others.
    pub open spec fn max_period(is_wave_channel: bool) -> u32 {
        if is_wave_channel {
            256
        } else {
            64
        }
    }

    /// A timer that runs out after `max - initial` steps of two sequencer ticks each.
    pub open spec fn loaded(is_wave_channel: bool, initial: u8) -> LengthTimer {
        LengthTimer {
            active: true,
            counter: Counter {
                ticks: 0,
                period: (LENGTH_BASE_PERIOD * (Self::max_period(is_wave_channel) - initial)) as u32,
            },
        }
    }

    pub open spec fn after_tick(self) -> LengthTimer {
        if !self.active {
            self
        } else {
            LengthTimer { active: self.counter.fired(1) == 0, counter: self.counter.advanced(1) }
        }
    }

    /// Tells whether the timer is well-formed.
    pub fn check(&self) -> (ok: bool)
        ensures
            ok == self.wf(),
    {
        self.counter.check()
    }

    pub fn idle_value() -> (r: LengthTimer)
        ensures
            r == LengthTimer::idle(),
            r.wf(),
    {
        LengthTimer { active: false, counter: Counter::new(0) }
    }

    pub fn new(is_wave_channel: bool, initial: u8) -> (r: LengthTimer)
        requires
            initial < Self::max_period(is_wave_channel),
        ensures
            r == LengthTimer::loaded(is_wave_channel, initial),
            r.wf(),
    {
        let max_period: u32 = if is_wave_channel {
            256
        } else {
            64
        };
        LengthTimer {
            counter: Counter::new(LENGTH_BASE_PERIOD * (max_period - initial as u32)),
            active: true,
        }
    }

    pub fn tick(&mut self)
        requires
            old(self).wf(),
        ensures
            *final(self) == old(self).after_tick(),
            final(self).wf(),
    {
        if self.active {
            let n = self.counter.tick(1);
            if n > 0 {
                self.active = false;
            }
        }
    }

    pub fn is_active(&self) -> (r: bool)
        ensures
            r == self.active,
    {
        self.active
    }
}

/// The 11-bit period held in NRx3 and the low bits of NRx4.
pub open spec fn spec_period(nx3: u8, nx4: AudioNx4) -> u32 {
    (nx3 + 256 * nx4.period_high) as u32
}

pub fn get_period(nx3: u8, nx4: &AudioNx4) -> (p: u32)
    requires
        nx4.wf(),
    ensures
        p == spec_period(nx3, *nx4),
        p < DIVIDER_MAX_PERIOD,
{
    nx3 as u32 + 256 * nx4.period_high as u32
}

/// Stores `period` into NRx3 and the low bits of NRx4.
pub fn set_period(nx3: &mut u8, nx4: &mut AudioNx4, period: u32)
    requires
        period < DIVIDER_MAX_PERIOD,
        old(nx4).wf(),
    ensures
        *final(nx3) == period % 256,
        *final(nx4) == (AudioNx4 { period_high: (period / 256) as u8, ..*old(nx4) }),
        final(nx4).wf(),
        spec_period(*final(nx3), *final(nx4)) == period,
{
    *nx3 = (period % 256) as u8;
    nx4.period_high = (period / 256) as u8;
}

#[derive(Clone, Copy, Debug, PartialEq, Eq, Structural)]
pub struct PeriodDivider {
    /// Samples in one cycle of the waveform: 32 for the wave channel, 8 for the others.
    pub wave_sample_count: u8,
    pub dots_per_tick: u32,
    pub counter: Counter,
    pub sample_idx: u8,
    pub period: u32,
    /// The waveform wrapped around during the last tick.
    pub sample_finished: bool,
}

impl PeriodDivider {
    pub open spec fn wf(self) -> bool {
        &&& self.counter.wf()
        &&& (self.wave_sample_count == 8 || self.wave_sample_count == 32)
        &&& (self.dots_per_tick == 2 || self.dots_per_tick == 4)
        &&& self.sample_idx < self.wave_sample_count
        &&& self.period < DIVIDER_MAX_PERIOD
    }

    pub open spec fn initial(is_wave_channel: bool) -> PeriodDivider {
        PeriodDivider {
            wave_sample_count: if is_wave_channel {
                32
            } else {
                8
            },
            dots_per_tick: if is_wave_channel {
                2
            } else {
                4
            },
            counter: Counter { ticks: 0, period: 0 },
            sample_idx: 0,
            period: 0,
            sample_finished: false,
        }
    }

    /// The divider after the period registers are looked at: a changed
    /// period restarts the waveform and reloads the counter with
    /// `2048 - period` steps.
    pub open spec fn after_update(self, nx3: u8, nx4: AudioNx4) -> PeriodDivider {
        let period = spec_period(nx3, nx4);
        if self.period == period {
            self
        } else {
            PeriodDivider {
                sample_idx: 0,
                period,
                counter: Counter {
                    ticks: 0,
                    period: (self.dots_per_tick * (DIVIDER_MAX_PERIOD - period)) as u32,
                },
                ..self
            }
        }
    }

    /// The divider after `dots` dots: each completed period moves on to the
    /// next sample of the waveform, cyclically.
    pub open spec fn after_tick(self, dots: u32) -> PeriodDivider {
        let reached = self.sample_idx + self.counter.fired(dots);
        PeriodDivider {
            counter: self.counter.advanced(dots),
            sample_idx: (reached % (self.wave_sample_count as int)) as u8,
            sample_finished: reached >= self.wave_sample_count,
            ..self
        }
    }

    /// Tells whether the divider is well-formed.
    pub fn check(&self) -> (ok: bool)
        ensures
            ok == self.wf(),
    {
        self.counter.check() && (self.wave_sample_count == 8 || self.wave_sample_count == 32) && (
        self.dots_per_tick == 2 || self.dots_per_tick == 4) && self.sample_idx
            < self.wave_sample_count && self.period < DIVIDER_MAX_PERIOD
    }

    pub fn new(is_wave_channel: bool) -> (r: PeriodDivider)
        ensures
            r == PeriodDivider::initial(is_wave_channel),
            r.wf(),
    {
        PeriodDivider {
            wave_sample_count: if is_wave_channel {
                32
            } else {
                8
            },
            dots_per_tick: if is_wave_channel {
                2
            } else {
                4
            },
            counter: Counter::new(0),
            sample_idx: 0,
            period: 0,
            sample_finished: false,
        }
    }

    pub fn update_period(&mut self, nx3: u8, nx4: &AudioNx4)
        requires
            old(self).wf(),
            nx4.wf(),
        ensures
            *final(self) == old(self).after_update(nx3, *nx4),
            final(self).wf(),
    {
        let period = get_period(nx3, nx4);
        if self.period == period {
            return ;
        }
        self.sample_idx = 0;
        self.period = period;
        self.counter = Counter::new(self.dots_per_tick * (DIVIDER_MAX_PERIOD - period));
    }

    pub fn tick(&mut self, dots: u32)
        requires
            old(self).wf(),
        ensures
            *final(self) == old(self).after_tick(dots),
            final(self).wf(),
    {
        let n = self.counter.tick(dots);
        let reached: u64 = self.sample_idx as u64 + n as u64;
        self.sample_finished = reached >= self.wave_sample_count as u64;
        self.sample_idx = (reached % (self.wave_sample_count as u64)) as u8;
    }

    /// The waveform wrapped around during the last tick, which is when a
    /// new period may take effect.
    pub fn is_reload_allowed(&self) -> (r: bool)
        ensures
            r == self.sample_finished,
    {
        self.sample_finished
    }

    pub fn period(&self) -> (p: u32)
        ensures
            p == self.period,
    {
        self.period
    }

    pub fn sample_idx(&self) -> (i: u8)
        ensures
            i == self.sample_idx,
    {
        self.sample_idx
    }
}

/// Two to the power `n`.
pub open spec fn pow2(n: nat) -> nat
    decreases n,
{
    if n == 0 {
        1
    } else {
        2 * pow2((n - 1) as nat)
    }
}

pub proof fn lemma_pow2_monotone(a: nat, b: nat)
    requires
        a <= b,
    ensures
        1 <= pow2(a) <= pow2(b),
    decreases b,
{
    if b > a {
        lemma_pow2_monotone(a, (b - 1) as nat);
    } else if a > 0 {
        lemma_pow2_monotone((a - 1) as nat, (a - 1) as nat);
    }
}

pub proof fn lemma_pow2_bounds(n: nat)
    requires
        n <= 15,
    ensures
        1 <= pow2(n) <= 32768,
{
    lemma_pow2_monotone(n, 15);
    assert(pow2(15) == 32768) by {
        reveal_with_fuel(pow2, 16);
    }
}

pub fn power_of_two(n: u8) -> (r: u32)
    requires
        n <= 15,
    ensures
        r == pow2(n as nat),
        1 <= r <= 32768,
{
    let mut r: u32 = 1;
    let mut i: u8 = 0;
    while i < n
        invariant
            i <= n <= 15,
            r == pow2(i as nat),
            1 <= r <= 32768,
        decreases n - i,
    {
        proof {
            lemma_pow2_bounds((i + 1) as nat);
        }
        r = r * 2;
        i = i + 1;
    }
    r
}

/// Dots per step of the noise generator: `16 * divider * 2^shift`, where a
/// divider of zero counts as one half.
pub open spec fn lfsr_period(n43: AudioN43) -> u32 {
    let fx = pow2(n43.clock_shift as nat);
    if n43.clock_divider == 0 {
        (LSFR_BASE_PERIOD * (fx / 2)) as u32
    } else {
        (LSFR_BASE_PERIOD * (fx * n43.clock_divider)) as u32
    }
}

pub fn new_lfsr_counter(n43: &AudioN43) -> (c: Counter)
    requires
        n43.wf(),
    ensures
        c == (Counter { ticks: 0, period: lfsr_period(*n43) }),
        c.wf(),
{
    let fx = power_of_two(n43.clock_shift);
    let fx = if n43.clock_divider == 0 {
        fx / 2
    } else {
        assert(fx * n43.clock_divider <= 32768 * 7) by (nonlinear_arith)
            requires
                fx <= 32768,
                n43.clock_divider <= 7,
        ;
        fx * n43.clock_divider as u32
    };
    Counter::new(LSFR_BASE_PERIOD * fx)
}

/// Sequencer ticks per step of the period sweep; a pace of zero counts as eight.
pub open spec fn sweep_period(pace: u8) -> u32 {
    if pace == 0 {
        (SWEEPER_BASE_PERIOD * 8) as u32
    } else {
        (SWEEPER_BASE_PERIOD * pace) as u32
    }
}

pub fn new_period_sweep_counter(pace: u8) -> (c: Counter)
    requires
        pace <= 7,
    ensures
        c == (Counter { ticks: 0, period: sweep_period(pace) }),
        c.wf(),
{
    let pace: u8 = if pace == 0 {
        8
    } else {
        pace
    };
    Counter::new(SWEEPER_BASE_PERIOD * pace as u32)
}

/// The next period of the sweep and whether it overflowed: the old period
/// plus or minus itself divided by `2^shift_step`; a result beyond 2047
/// overflows.
pub open spec fn spec_new_period(old_period: u32, nx0: AudioNx0) -> (u32, bool) {
    let delta = old_period as int / pow2(nx0.shift_step as nat) as int;
    let new_period = if !nx0.direction {
        old_period + delta
    } else {
        old_period - delta
    };
    if new_period >= DIVIDER_MAX_PERIOD {
        (0u32, true)
    } else {
        (new_period as u32, false)
    }
}

pub fn calc_new_period(old_period: u32, nx0: &AudioNx0) -> (r: (u32, bool))
    requires
        nx0.wf(),
        old_period < DIVIDER_MAX_PERIOD,
    ensures
        r == spec_new_period(old_period, *nx0),
        r.0 < DIVIDER_MAX_PERIOD,
{
    let d = power_of_two(nx0.shift_step);
    let delta = old_period / d;
    assert(delta <= old_period) by (nonlinear_arith)
        requires
            delta == old_period / d,
            d >= 1,
    ;
    let new_period = if !nx0.direction {
        old_period + delta
    } else {
        old_period - delta
    };
    if new_period >= DIVIDER_MAX_PERIOD {
        (0, true)
    } else {
        (new_period, false)
    }
}

/// Number of high samples at the start of the eight-sample cycle of a duty pattern.
pub open spec fn duty_width(duty_cycle: u8) -> u8 {
    if duty_cycle == 0 {
        1
    } else if duty_cycle == 1 {
        2
    } else if duty_cycle == 2 {
        4
    } else {
        6
    }
}

/// Sample `index` of duty pattern `duty_cycle`: one for the first
/// `duty_width` samples of the cycle, zero after them.
pub open spec fn spec_pwm_sample(duty_cycle: u8, index: u8) -> u8 {
    if index < duty_width(duty_cycle) {
        1
    } else {
        0
    }
}

pub fn get_pwm_sample(duty_cycle: u8, index: u8) -> (s: u8)
    requires
        duty_cycle < 4,
    ensures
        s == spec_pwm_sample(duty_cycle, index),
        s <= 1,
{
    let width: u8 = match duty_cycle {
        0 => 1,
        1 => 2,
        2 => 4,
        _ => 6,
    };
    if index < width {
        1
    } else {
        0
    }
}

} // verus!
