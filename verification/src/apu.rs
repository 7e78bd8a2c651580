//! The audio unit: four channels, the frame sequencer that steps their
//! envelopes, sweeps and length timers, and the mixer that samples them.
use vstd::prelude::*;
use crate::counter::Counter;
use crate::info::{
    IO_NR10,
    IO_NR11,
    IO_NR12,
    IO_NR13,
    IO_NR14,
    IO_NR21,
    IO_NR22,
    IO_NR23,
    IO_NR24,
    IO_NR30,
    IO_NR31,
    IO_NR32,
    IO_NR33,
    IO_NR34,
    IO_NR41,
    IO_NR42,
    IO_NR43,
    IO_NR44,
    IO_NR50,
    IO_NR51,
    IO_NR52,
    SIZE_AUDIO_WAVE_RAM,
};
use crate::regs::{
    AudioN30,
    AudioN32,
    AudioNr50,
    AudioNr51,
    AudioNr52,
    AudioNx0,
    AudioNx1,
    AudioNx2,
    AudioNx4,
};
use noise::NoiseChannel;
use pulse::PulseChannel;
use wave::WaveChannel;

pub mod noise;
pub mod parts;
pub mod pulse;
pub mod wave;

verus! {

/// One mixed stereo sample before filtering, in units of 1/120 of the
/// amplitude of a single channel at full volume: each side lies in
/// -480..=480.
#[derive(Clone, Copy, Debug, PartialEq, Eq, Structural)]
pub struct StereoSample {
    pub left: i16,
    pub right: i16,
}

/// Registers and channels of the audio unit.
#[derive(Clone, Copy, Debug, PartialEq, Eq, Structural)]
pub struct ApuState {
    pub nr52: AudioNr52,
    pub nr51: AudioNr51,
    pub nr50: AudioNr50,
    pub ch1: PulseChannel,
    pub ch2: PulseChannel,
    pub ch3: WaveChannel,
    pub ch4: NoiseChannel,
    /// Fires once per sample; a period of zero stops sampling.
    pub sampling_counter: Counter,
}

pub struct Apu {
    pub state: ApuState,
    pub wave_ram: Vec<u8>,
    /// Samples taken since the last call of `start_new_sampling`.
    pub stereo_samples: Vec<StereoSample>,
}

pub struct ApuView {
    pub state: ApuState,
    pub wave_ram: Seq<u8>,
    pub samples: Seq<StereoSample>,
}

/// Analog level of a channel in units of 1/15: a channel that is on maps
/// its output 0..=15 evenly onto -15..=15, one that is off gives zero.
pub open spec fn spec_d_to_a(enabled: bool, d: u8) -> int {
    if enabled {
        2 * d - 15
    } else {
        0
    }
}

pub fn d_to_a(enabled: bool, d: u8) -> (r: i16)
    requires
        d <= 15,
    ensures
        r == spec_d_to_a(enabled, d),
        -15 <= r <= 15,
{
    if enabled {
        2 * (d as i16) - 15
    } else {
        0
    }
}

/// A level routed to one side of the mix or left out of it.
pub open spec fn routed(to_side: bool, level: int) -> int {
    if to_side {
        level
    } else {
        0
    }
}

/// Sum of the levels of the four channels that are routed to one side.
pub open spec fn spec_side_level(to_side: (bool, bool, bool, bool), levels: (int, int, int, int)) -> int {
    routed(to_side.0, levels.0) + routed(to_side.1, levels.1) + routed(to_side.2, levels.2)
        + routed(to_side.3, levels.3)
}

pub fn side_level(to_side: (bool, bool, bool, bool), levels: (i16, i16, i16, i16)) -> (r: i16)
    requires
        -15 <= levels.0 <= 15,
        -15 <= levels.1 <= 15,
        -15 <= levels.2 <= 15,
        -15 <= levels.3 <= 15,
    ensures
        r == spec_side_level(
            to_side,
            (levels.0 as int, levels.1 as int, levels.2 as int, levels.3 as int),
        ),
        -60 <= r <= 60,
{
    let a: i16 = if to_side.0 {
        levels.0
    } else {
        0
    };
    let b: i16 = if to_side.1 {
        levels.1
    } else {
        0
    };
    let c: i16 = if to_side.2 {
        levels.2
    } else {
        0
    };
    let d: i16 = if to_side.3 {
        levels.3
    } else {
        0
    };
    a + b + c + d
}

/// A summed level scaled by a master volume 0..=7, which stands for 1/8 to 8/8.
#[verifier::opaque]
pub open spec fn spec_sample_amp(volume: u8, v: int) -> int {
    v * (volume + 1)
}

pub fn calc_sample_amp(volume: u8, v: i16) -> (r: i16)
    requires
        volume <= 7,
        -60 <= v <= 60,
    ensures
        r == spec_sample_amp(volume, v as int),
        -480 <= r <= 480,
{
    reveal(spec_sample_amp);
    assert(-480 <= v * (volume + 1) <= 480) by (nonlinear_arith)
        requires
            volume <= 7,
            -60 <= v <= 60,
    ;
    v * (volume as i16 + 1)
}

impl ApuState {
    pub open spec fn wf(self) -> bool {
        &&& self.nr50.wf()
        &&& self.ch1.wf()
        &&& self.ch2.wf()
        &&& self.ch3.wf()
        &&& self.ch4.wf()
        &&& self.sampling_counter.wf()
    }

    pub open spec fn initial() -> ApuState {
        ApuState {
            nr52: AudioNr52::unpack(0),
            nr51: AudioNr51::unpack(0),
            nr50: AudioNr50::unpack(0),
            ch1: PulseChannel::initial(true),
            ch2: PulseChannel::initial(false),
            ch3: WaveChannel::initial(),
            ch4: NoiseChannel::initial(),
            sampling_counter: Counter { ticks: 0, period: 0 },
        }
    }

    /// All four channels after one tick of the frame sequencer.
    pub open spec fn after_apu_tick(self) -> ApuState {
        ApuState {
            ch1: self.ch1.after_apu_tick(),
            ch2: self.ch2.after_apu_tick(),
            ch3: self.ch3.after_apu_tick(),
            ch4: self.ch4.after_apu_tick(),
            ..self
        }
    }

    pub open spec fn after_apu_ticks(self, n: nat) -> ApuState
        decreases n,
    {
        if n == 0 {
            self
        } else {
            self.after_apu_tick().after_apu_ticks((n - 1) as nat)
        }
    }

    /// All four channels after `dots` dots, with their on flags copied into NR52.
    pub open spec fn after_dots(self, dots: u32, wave_ram: Seq<u8>) -> ApuState {
        let ch1 = self.ch1.after_tick(dots);
        let ch2 = self.ch2.after_tick(dots);
        let ch3 = self.ch3.after_tick(dots, wave_ram);
        let ch4 = self.ch4.after_tick(dots);
        ApuState {
            ch1,
            ch2,
            ch3,
            ch4,
            nr52: AudioNr52 {
                ch1_on: ch1.on,
                ch2_on: ch2.on,
                ch3_on: ch3.on,
                ch4_on: ch4.on,
                ..self.nr52
            },
            ..self
        }
    }

    /// The outputs and master volumes are within their ranges.
    pub open spec fn levels_wf(self) -> bool {
        &&& self.nr50.wf()
        &&& self.ch1.output <= 15
        &&& self.ch2.output <= 15
        &&& self.ch3.output <= 15
        &&& self.ch4.output <= 15
    }

    /// Tells whether registers and channels are well-formed.
    pub fn check(&self) -> (ok: bool)
        ensures
            ok == self.wf(),
    {
        self.nr50.check() && self.ch1.check() && self.ch2.check() && self.ch3.check()
            && self.ch4.check() && self.sampling_counter.check()
    }

    /// Runs `apu_ticks` ticks of the frame sequencer.
    pub fn run_sequencer(&mut self, apu_ticks: u32)
        requires
            old(self).wf(),
        ensures
            *final(self) == old(self).after_apu_ticks(apu_ticks as nat),
            final(self).wf(),
    {
        let ghost start = *self;
        let mut i: u32 = 0;
        while i < apu_ticks
            invariant
                i <= apu_ticks,
                self.wf(),
                self.after_apu_ticks((apu_ticks - i) as nat) == start.after_apu_ticks(
                    apu_ticks as nat,
                ),
            decreases apu_ticks - i,
        {
            self.ch1.apu_tick();
            self.ch2.apu_tick();
            self.ch3.apu_tick();
            self.ch4.apu_tick();
            i = i + 1;
        }
    }

    /// Advances the four channels by `dots` dots.
    pub fn run_dots(&mut self, dots: u32, wave_ram: &Vec<u8>)
        requires
            old(self).wf(),
            wave_ram.len() == SIZE_AUDIO_WAVE_RAM,
        ensures
            *final(self) == old(self).after_dots(dots, wave_ram@),
            final(self).wf(),
    {
        self.ch1.tick(dots);
        self.ch2.tick(dots);
        self.ch3.tick(dots, wave_ram);
        self.ch4.tick(dots);
        self.nr52.ch1_on = self.ch1.on;
        self.nr52.ch2_on = self.ch2.on;
        self.nr52.ch3_on = self.ch3.on;
        self.nr52.ch4_on = self.ch4.on;
    }

    /// The mix of the four channels as they stand.
    pub fn mix(&self) -> (sample: StereoSample)
        requires
            self.levels_wf(),
        ensures
            sample == self.mixed(),
            -480 <= sample.left <= 480,
            -480 <= sample.right <= 480,
    {
        let v1 = d_to_a(self.ch1.on, self.ch1.output);
        let v2 = d_to_a(self.ch2.on, self.ch2.output);
        let v3 = d_to_a(self.ch3.on, self.ch3.output);
        let v4 = d_to_a(self.ch4.on, self.ch4.output);
        let lv = side_level(
            (self.nr51.ch1_left, self.nr51.ch2_left, self.nr51.ch3_left, self.nr51.ch4_left),
            (v1, v2, v3, v4),
        );
        let rv = side_level(
            (self.nr51.ch1_right, self.nr51.ch2_right, self.nr51.ch3_right, self.nr51.ch4_right),
            (v1, v2, v3, v4),
        );
        let left = calc_sample_amp(self.nr50.vol_left, lv);
        let right = calc_sample_amp(self.nr50.vol_right, rv);
        StereoSample { left, right }
    }

    /// The current mix: each side sums the levels of the channels that NR51
    /// routes to it and scales the sum by its master volume.
    pub open spec fn mixed(self) -> StereoSample {
        let v1 = spec_d_to_a(self.ch1.on, self.ch1.output);
        let v2 = spec_d_to_a(self.ch2.on, self.ch2.output);
        let v3 = spec_d_to_a(self.ch3.on, self.ch3.output);
        let v4 = spec_d_to_a(self.ch4.on, self.ch4.output);
        let lv = spec_side_level(
            (self.nr51.ch1_left, self.nr51.ch2_left, self.nr51.ch3_left, self.nr51.ch4_left),
            (v1, v2, v3, v4),
        );
        let rv = spec_side_level(
            (self.nr51.ch1_right, self.nr51.ch2_right, self.nr51.ch3_right, self.nr51.ch4_right),
            (v1, v2, v3, v4),
        );
        StereoSample {
            left: spec_sample_amp(self.nr50.vol_left, lv) as i16,
            right: spec_sample_amp(self.nr50.vol_right, rv) as i16,
        }
    }
}

impl ApuState {
    /// What a read of the audio register at `addr` returns; zero where
    /// there is none.
    pub open spec fn reg_value(self, addr: u16) -> int {
        if addr == IO_NR10 {
            self.ch1.nx0.pack()
        } else if addr == IO_NR11 {
            self.ch1.nx1.pack()
        } else if addr == IO_NR12 {
            self.ch1.nx2.pack()
        } else if addr == IO_NR13 {
            self.ch1.nx3 as int
        } else if addr == IO_NR14 {
            self.ch1.nx4.pack()
        } else if addr == IO_NR21 {
            self.ch2.nx1.pack()
        } else if addr == IO_NR22 {
            self.ch2.nx2.pack()
        } else if addr == IO_NR23 {
            self.ch2.nx3 as int
        } else if addr == IO_NR24 {
            self.ch2.nx4.pack()
        } else if addr == IO_NR30 {
            self.ch3.n30.pack()
        } else if addr == IO_NR31 {
            self.ch3.n31 as int
        } else if addr == IO_NR32 {
            self.ch3.n32.pack()
        } else if addr == IO_NR33 {
            self.ch3.n33 as int
        } else if addr == IO_NR34 {
            self.ch3.n34.pack()
        } else if addr == IO_NR41 {
            self.ch4.n41.pack()
        } else if addr == IO_NR42 {
            self.ch4.n42.pack()
        } else if addr == IO_NR43 {
            self.ch4.n43.pack()
        } else if addr == IO_NR44 {
            self.ch4.n44.pack()
        } else if addr == IO_NR50 {
            self.nr50.pack()
        } else if addr == IO_NR51 {
            self.nr51.pack()
        } else if addr == IO_NR52 {
            self.nr52.pack()
        } else {
            0
        }
    }

    /// The registers of the first pulse channel after a write.
    pub open spec fn ch1_after_write(ch: PulseChannel, addr: u16, v: u8) -> PulseChannel {
        if addr == IO_NR10 {
            PulseChannel { nx0: AudioNx0::unpack(v), ..ch }
        } else if addr == IO_NR11 {
            PulseChannel { nx1: AudioNx1::unpack(v), ..ch }
        } else if addr == IO_NR12 {
            PulseChannel { nx2: AudioNx2::unpack(v), ..ch }
        } else if addr == IO_NR13 {
            PulseChannel { nx3: v, ..ch }
        } else if addr == IO_NR14 {
            PulseChannel { nx4: AudioNx4::unpack(v), ..ch }
        } else {
            ch
        }
    }

    /// The registers of the second pulse channel after a write.
    pub open spec fn ch2_after_write(ch: PulseChannel, addr: u16, v: u8) -> PulseChannel {
        if addr == IO_NR21 {
            PulseChannel { nx1: AudioNx1::unpack(v), ..ch }
        } else if addr == IO_NR22 {
            PulseChannel { nx2: AudioNx2::unpack(v), ..ch }
        } else if addr == IO_NR23 {
            PulseChannel { nx3: v, ..ch }
        } else if addr == IO_NR24 {
            PulseChannel { nx4: AudioNx4::unpack(v), ..ch }
        } else {
            ch
        }
    }

    /// The registers of the wave channel after a write.
    pub open spec fn ch3_after_write(ch: WaveChannel, addr: u16, v: u8) -> WaveChannel {
        if addr == IO_NR30 {
            WaveChannel { n30: AudioN30::unpack(v), ..ch }
        } else if addr == IO_NR31 {
            WaveChannel { n31: v, ..ch }
        } else if addr == IO_NR32 {
            WaveChannel { n32: AudioN32::unpack(v), ..ch }
        } else if addr == IO_NR33 {
            WaveChannel { n33: v, ..ch }
        } else if addr == IO_NR34 {
            WaveChannel { n34: AudioNx4::unpack(v), ..ch }
        } else {
            ch
        }
    }

    /// The registers of the noise channel after a write. NR41 holds no
    /// duty bits for programs to write, and NR44 no period bits.
    pub open spec fn ch4_after_write(ch: NoiseChannel, addr: u16, v: u8) -> NoiseChannel {
        if addr == IO_NR41 {
            NoiseChannel {
                n41: AudioNx1 { length_period: AudioNx1::unpack(v).length_period, ..ch.n41 },
                ..ch
            }
        } else if addr == IO_NR42 {
            NoiseChannel { n42: AudioNx2::unpack(v), ..ch }
        } else if addr == IO_NR43 {
            ch.after_write_n43(v)
        } else if addr == IO_NR44 {
            NoiseChannel {
                n44: AudioNx4 { period_high: ch.n44.period_high, ..AudioNx4::unpack(v) },
                ..ch
            }
        } else {
            ch
        }
    }

    /// The unit after the CPU writes `v` to the audio register at `addr`.
    /// The channel flags of NR52 are read-only.
    pub open spec fn after_write_reg(self, addr: u16, v: u8) -> ApuState {
        ApuState {
            ch1: Self::ch1_after_write(self.ch1, addr, v),
            ch2: Self::ch2_after_write(self.ch2, addr, v),
            ch3: Self::ch3_after_write(self.ch3, addr, v),
            ch4: Self::ch4_after_write(self.ch4, addr, v),
            nr50: if addr == IO_NR50 {
                AudioNr50::unpack(v)
            } else {
                self.nr50
            },
            nr51: if addr == IO_NR51 {
                AudioNr51::unpack(v)
            } else {
                self.nr51
            },
            nr52: if addr == IO_NR52 {
                AudioNr52 { enable: AudioNr52::unpack(v).enable, ..self.nr52 }
            } else {
                self.nr52
            },
            ..self
        }
    }

    pub fn read_reg(&self, addr: u16) -> (v: u8)
        requires
            self.wf(),
        ensures
            v == self.reg_value(addr),
    {
        match addr {
            IO_NR10 => self.ch1.nx0.read(),
            IO_NR11 => self.ch1.nx1.read(),
            IO_NR12 => self.ch1.nx2.read(),
            IO_NR13 => self.ch1.nx3,
            IO_NR14 => self.ch1.nx4.read(),
            IO_NR21 => self.ch2.nx1.read(),
            IO_NR22 => self.ch2.nx2.read(),
            IO_NR23 => self.ch2.nx3,
            IO_NR24 => self.ch2.nx4.read(),
            IO_NR30 => self.ch3.n30.read(),
            IO_NR31 => self.ch3.n31,
            IO_NR32 => self.ch3.n32.read(),
            IO_NR33 => self.ch3.n33,
            IO_NR34 => self.ch3.n34.read(),
            IO_NR41 => self.ch4.n41.read(),
            IO_NR42 => self.ch4.n42.read(),
            IO_NR43 => self.ch4.read_n43(),
            IO_NR44 => self.ch4.n44.read(),
            IO_NR50 => self.nr50.read(),
            IO_NR51 => self.nr51.read(),
            IO_NR52 => self.nr52.read(),
            _ => 0,
        }
    }

    pub fn write_reg(&mut self, addr: u16, v: u8)
        requires
            old(self).wf(),
        ensures
            *final(self) == old(self).after_write_reg(addr, v),
            final(self).wf(),
    {
        if IO_NR10 <= addr && addr <= IO_NR14 {
            Self::write_ch1(&mut self.ch1, addr, v);
        } else if IO_NR21 <= addr && addr <= IO_NR24 {
            Self::write_ch2(&mut self.ch2, addr, v);
        } else if IO_NR30 <= addr && addr <= IO_NR34 {
            Self::write_ch3(&mut self.ch3, addr, v);
        } else if IO_NR41 <= addr && addr <= IO_NR44 {
            Self::write_ch4(&mut self.ch4, addr, v);
        } else if addr == IO_NR50 {
            self.nr50.write(v);
        } else if addr == IO_NR51 {
            self.nr51.write(v);
        } else if addr == IO_NR52 {
            self.nr52.enable = AudioNr52::new(v).enable;
        }
    }

    fn write_ch1(ch: &mut PulseChannel, addr: u16, v: u8)
        requires
            old(ch).wf(),
        ensures
            *final(ch) == Self::ch1_after_write(*old(ch), addr, v),
            final(ch).wf(),
    {
        match addr {
            IO_NR10 => ch.nx0.write(v),
            IO_NR11 => ch.nx1.write(v),
            IO_NR12 => ch.nx2.write(v),
            IO_NR13 => ch.nx3 = v,
            IO_NR14 => ch.nx4.write(v),
            _ => (),
        }
    }

    fn write_ch2(ch: &mut PulseChannel, addr: u16, v: u8)
        requires
            old(ch).wf(),
        ensures
            *final(ch) == Self::ch2_after_write(*old(ch), addr, v),
            final(ch).wf(),
    {
        match addr {
            IO_NR21 => ch.nx1.write(v),
            IO_NR22 => ch.nx2.write(v),
            IO_NR23 => ch.nx3 = v,
            IO_NR24 => ch.nx4.write(v),
            _ => (),
        }
    }

    fn write_ch3(ch: &mut WaveChannel, addr: u16, v: u8)
        requires
            old(ch).wf(),
        ensures
            *final(ch) == Self::ch3_after_write(*old(ch), addr, v),
            final(ch).wf(),
    {
        match addr {
            IO_NR30 => ch.n30.write(v),
            IO_NR31 => ch.n31 = v,
            IO_NR32 => ch.n32.write(v),
            IO_NR33 => ch.n33 = v,
            IO_NR34 => ch.n34.write(v),
            _ => (),
        }
    }

    fn write_ch4(ch: &mut NoiseChannel, addr: u16, v: u8)
        requires
            old(ch).wf(),
        ensures
            *final(ch) == Self::ch4_after_write(*old(ch), addr, v),
            final(ch).wf(),
    {
        match addr {
            IO_NR41 => ch.n41.length_period = AudioNx1::new(v).length_period,
            IO_NR42 => ch.n42.write(v),
            IO_NR43 => ch.write_n43(v),
            IO_NR44 => {
                let high = ch.n44.period_high;
                ch.n44.write(v);
                ch.n44.period_high = high;
            },
            _ => (),
        }
    }
}

impl ApuView {
    /// The unit of a machine that was just switched on.
    pub open spec fn initial() -> ApuView {
        ApuView {
            state: ApuState::initial(),
            wave_ram: Seq::new(SIZE_AUDIO_WAVE_RAM as nat, |i: int| 0u8),
            samples: Seq::empty(),
        }
    }

    /// The unit after a step of `dots` dots in which the frame sequencer
    /// ticked `apu_ticks` times: the sequencer ticks come first, then the
    /// dots, then one sample of the resulting mix for every period of the
    /// sampling counter that the dots completed.
    #[verifier::opaque]
    pub open spec fn after_tick(self, dots: u32, apu_ticks: u32) -> ApuView {
        let s = self.state.after_apu_ticks(apu_ticks as nat).after_dots(dots, self.wave_ram);
        let n = self.state.sampling_counter.fired(dots);
        ApuView {
            state: ApuState { sampling_counter: self.state.sampling_counter.advanced(dots), ..s },
            wave_ram: self.wave_ram,
            samples: self.samples + Seq::new(n as nat, |i: int| s.mixed()),
        }
    }

    /// The unit after sampling is restarted with a new period; the samples
    /// taken so far are handed out.
    pub open spec fn after_start_new_sampling(self, period_in_dots: u32) -> ApuView {
        ApuView {
            state: ApuState {
                sampling_counter: Counter { ticks: 0, period: period_in_dots },
                ..self.state
            },
            wave_ram: self.wave_ram,
            samples: Seq::empty(),
        }
    }
}

impl View for Apu {
    type V = ApuView;

    open spec fn view(&self) -> ApuView {
        ApuView { state: self.state, wave_ram: self.wave_ram@, samples: self.stereo_samples@ }
    }
}

impl Apu {
    pub open spec fn wf(&self) -> bool {
        &&& self.state.wf()
        &&& self.wave_ram@.len() == SIZE_AUDIO_WAVE_RAM
    }

    /// Tells whether the unit is well-formed.
    pub fn check(&self) -> (ok: bool)
        ensures
            ok == self.wf(),
    {
        self.state.check() && self.wave_ram.len() == SIZE_AUDIO_WAVE_RAM
    }

    /// Drops the samples taken so far and stops sampling.
    pub fn clear_samples(&mut self)
        requires
            old(self).wf(),
        ensures
            final(self)@ == old(self)@.after_start_new_sampling(0),
            final(self).wf(),
    {
        let _ = self.start_new_sampling(0);
    }

    pub fn new() -> (r: Apu)
        ensures
            r@ == ApuView::initial(),
            r.wf(),
    {
        let mut wave_ram: Vec<u8> = Vec::new();
        let mut i: usize = 0;
        while i < SIZE_AUDIO_WAVE_RAM
            invariant
                i <= SIZE_AUDIO_WAVE_RAM,
                wave_ram@ == Seq::new(i as nat, |k: int| 0u8),
            decreases SIZE_AUDIO_WAVE_RAM - i,
        {
            wave_ram.push(0);
            i = i + 1;
            assert(wave_ram@ =~= Seq::new(i as nat, |k: int| 0u8));
        }
        Apu {
            state: ApuState {
                nr52: AudioNr52::new(0),
                nr51: AudioNr51::new(0),
                nr50: AudioNr50::new(0),
                ch1: PulseChannel::new(true),
                ch2: PulseChannel::new(false),
                ch3: WaveChannel::new(),
                ch4: NoiseChannel::new(),
                sampling_counter: Counter::new(0),
            },
            wave_ram,
            stereo_samples: Vec::new(),
        }
    }

    /// Advances the unit by `dots` dots. `apu_ticks` is the number of
    /// DIV-APU ticks that the timer produced in the same step.
    pub fn tick(&mut self, dots: u32, apu_ticks: u32)
        requires
            old(self).wf(),
        ensures
            final(self)@ == old(self)@.after_tick(dots, apu_ticks),
            final(self).wf(),
    {
        reveal(ApuView::after_tick);
        let ghost start = self.state;
        self.state.run_sequencer(apu_ticks);
        self.state.run_dots(dots, &self.wave_ram);
        let ghost s = self.state;
        proof {
            lemma_sequencer_keeps_mixer(start, apu_ticks as nat);
        }
        let n = self.state.sampling_counter.tick(dots);
        let sample = self.state.mix();
        let ghost done = self.state;
        assert(done.mixed() == s.mixed());
        let mut k: u32 = 0;
        while k < n
            invariant
                k <= n,
                self.wf(),
                self.wave_ram@ == old(self).wave_ram@,
                self.state == done,
                self.stereo_samples@ == old(self).stereo_samples@ + Seq::new(
                    k as nat,
                    |i: int| sample,
                ),
            decreases n - k,
        {
            self.stereo_samples.push(sample);
            k = k + 1;
            assert(self.stereo_samples@ =~= old(self).stereo_samples@ + Seq::new(
                k as nat,
                |i: int| sample,
            ));
        }
        assert(sample == s.mixed());
        assert(self.stereo_samples@ =~= old(self)@.after_tick(dots, apu_ticks).samples);
    }

    /// Sets the sampling period, zero to stop sampling, and returns the
    /// samples taken since the last call.
    pub fn start_new_sampling(&mut self, period_in_dots: u32) -> (samples: Vec<StereoSample>)
        requires
            old(self).wf(),
        ensures
            samples@ == old(self)@.samples,
            final(self)@ == old(self)@.after_start_new_sampling(period_in_dots),
            final(self).wf(),
    {
        self.state.sampling_counter = Counter::new(period_in_dots);
        let mut out: Vec<StereoSample> = Vec::new();
        core::mem::swap(&mut out, &mut self.stereo_samples);
        out
    }

}

/// The frame sequencer touches neither the mixer registers nor the sampling counter.
pub proof fn lemma_sequencer_keeps_mixer(s: ApuState, n: nat)
    ensures
        s.after_apu_ticks(n).sampling_counter == s.sampling_counter,
        s.after_apu_ticks(n).nr50 == s.nr50,
        s.after_apu_ticks(n).nr51 == s.nr51,
        s.after_apu_ticks(n).nr52 == s.nr52,
    decreases n,
{
    if n > 0 {
        lemma_sequencer_keeps_mixer(s.after_apu_tick(), (n - 1) as nat);
    }
}

/// Dots of each step of a run.
pub open spec fn dots_of(steps: Seq<(u32, u32)>) -> Seq<u32> {
    Seq::new(steps.len(), |i: int| steps[i].0)
}

impl ApuView {
    /// The unit after a run of steps, each given as its dots and its DIV-APU ticks.
    pub open spec fn after_ticks(self, steps: Seq<(u32, u32)>) -> ApuView
        decreases steps.len(),
    {
        if steps.len() == 0 {
            self
        } else {
            self.after_ticks(steps.drop_last()).after_tick(steps.last().0, steps.last().1)
        }
    }
}

/// Sampling keeps exact time: over any run of steps the unit takes one
/// sample per completed sampling period, so after sampling is started with
/// period `p > 0` a run of `N` dots in total yields `N / p` samples, rounded
/// down. With period zero it takes none.
pub proof fn lemma_sample_count(a: ApuView, period: u32, steps: Seq<(u32, u32)>)
    requires
        a.state.wf(),
    ensures
        ({
            let b = a.after_start_new_sampling(period).after_ticks(steps);
            let total = crate::counter::total_elapsed(dots_of(steps));
            &&& period > 0 ==> b.samples.len() == total / (period as int)
            &&& period == 0 ==> b.samples.len() == 0
        }),
{
    lemma_sampling_run(a.after_start_new_sampling(period), steps);
    crate::counter::lemma_ticks_aggregate(Counter { ticks: 0, period }, dots_of(steps));
}

proof fn lemma_sampling_run(a: ApuView, steps: Seq<(u32, u32)>)
    requires
        a.state.sampling_counter.wf(),
    ensures
        ({
            let b = a.after_ticks(steps);
            let c = a.state.sampling_counter;
            &&& b.state.sampling_counter == c.advanced_all(dots_of(steps))
            &&& b.samples.len() == a.samples.len() + c.fired_all(dots_of(steps))
            &&& c.fired_all(dots_of(steps)) >= 0
        }),
    decreases steps.len(),
{
    reveal(ApuView::after_tick);
    let c = a.state.sampling_counter;
    if steps.len() > 0 {
        lemma_sampling_run(a, steps.drop_last());
        assert(dots_of(steps).drop_last() =~= dots_of(steps.drop_last()));
        assert(dots_of(steps).last() == steps.last().0);
        crate::counter::lemma_ticks_aggregate(c, dots_of(steps.drop_last()));
        let mid = c.advanced_all(dots_of(steps.drop_last()));
        let d = steps.last().0;
        if mid.period > 0 {
            assert(mid.fired(d) >= 0) by (nonlinear_arith)
                requires
                    mid.fired(d) == (mid.ticks + d) / (mid.period as int),
                    mid.period > 0,
            ;
        }
    }
}

} // verus!
