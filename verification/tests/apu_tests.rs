use gbemu::apu::parts::{
    calc_new_period, get_period, get_pwm_sample, new_lfsr_counter, new_period_sweep_counter,
    set_period, LengthTimer, PeriodDivider, VolumeEnvelope,
};
use gbemu::apu::{calc_sample_amp, d_to_a, Apu, StereoSample};
use gbemu::regs::{AudioN43, AudioNx0, AudioNx2, AudioNx4};

fn run(apu: &mut Apu, dots: u32) {
    let mut left = dots;
    while left > 0 {
        apu.tick(4, 0);
        left -= 4;
    }
}

fn triggered_channel_one() -> Apu {
    let mut apu = Apu::new();
    apu.state.write_reg(0xFF26, 0x80);
    apu.state.write_reg(0xFF24, 0x77);
    apu.state.write_reg(0xFF25, 0x11);
    apu.state.write_reg(0xFF11, 0x80);
    apu.state.write_reg(0xFF12, 0xF0);
    apu.state.write_reg(0xFF13, 0x00);
    apu.state.write_reg(0xFF14, 0x84);
    apu
}

#[test]
fn sampling_yields_one_sample_per_period() {
    let mut apu = triggered_channel_one();
    assert!(apu.start_new_sampling(87).is_empty());
    run(&mut apu, 10000);
    let samples = apu.start_new_sampling(0);
    assert_eq!(samples.len(), 114);
    for s in &samples {
        assert!(s.left.abs() <= 480 && s.right.abs() <= 480);
        let left = s.left as f64 / 120.0 / 4.0;
        let right = s.right as f64 / 120.0 / 4.0;
        assert!(left.abs() <= 1.0 && right.abs() <= 1.0);
        assert_eq!(*s, StereoSample { left: 120, right: 120 });
    }
    run(&mut apu, 10000);
    assert!(apu.start_new_sampling(0).is_empty());
}

#[test]
fn panning_to_one_side_silences_the_other() {
    let mut apu = triggered_channel_one();
    apu.state.write_reg(0xFF25, 0x01);
    apu.start_new_sampling(87);
    run(&mut apu, 10000);
    let samples = apu.start_new_sampling(0);
    assert_eq!(samples.len(), 114);
    assert!(samples.iter().all(|s| s.left == 0));
    assert!(samples.iter().any(|s| s.right != 0));
}

#[test]
fn sample_count_is_the_floor_of_dots_over_period() {
    for (period, dots) in [(1u32, 400u32), (3, 400), (4, 400), (95, 4000), (4000, 3996), (4000, 4000)] {
        let mut apu = Apu::new();
        apu.start_new_sampling(period);
        run(&mut apu, dots);
        assert_eq!(apu.start_new_sampling(period).len() as u32, dots / period);
    }
}

#[test]
fn silent_unit_mixes_to_zero() {
    let mut apu = Apu::new();
    apu.state.write_reg(0xFF24, 0x77);
    apu.state.write_reg(0xFF25, 0xFF);
    assert_eq!(apu.state.mix(), StereoSample { left: 0, right: 0 });
    assert!(apu.check());
}

#[test]
fn mix_scales_levels_by_the_master_volume() {
    let mut apu = Apu::new();
    apu.state.ch1.on = true;
    apu.state.ch1.output = 15;
    apu.state.ch2.on = true;
    apu.state.ch2.output = 0;
    apu.state.ch3.on = true;
    apu.state.ch3.output = 9;
    apu.state.write_reg(0xFF25, 0b0101_0011);
    apu.state.write_reg(0xFF24, 0x37);
    assert_eq!(apu.state.mix(), StereoSample { left: (15 + 3) * 4, right: (15 - 15) * 8 });
    assert_eq!(d_to_a(true, 15), 15);
    assert_eq!(d_to_a(true, 0), -15);
    assert_eq!(d_to_a(true, 8), 1);
    assert_eq!(d_to_a(false, 8), 0);
    assert_eq!(calc_sample_amp(7, 60), 480);
    assert_eq!(calc_sample_amp(0, -60), -60);
}

#[test]
fn channel_flags_show_in_nr52_and_are_read_only() {
    let mut apu = triggered_channel_one();
    apu.tick(4, 0);
    assert_eq!(apu.state.read_reg(0xFF26), 0x81);
    apu.state.write_reg(0xFF26, 0x0F);
    assert_eq!(apu.state.read_reg(0xFF26), 0x01);
    assert!(!apu.state.ch1.nx4.trigger);
}

#[test]
fn trigger_needs_the_dac() {
    let mut apu = Apu::new();
    apu.state.write_reg(0xFF12, 0x00);
    apu.state.write_reg(0xFF14, 0x80);
    apu.tick(4, 0);
    assert!(!apu.state.ch1.on);
    apu.state.write_reg(0xFF12, 0x08);
    apu.state.write_reg(0xFF14, 0x80);
    apu.tick(4, 0);
    assert!(apu.state.ch1.on);
    apu.state.write_reg(0xFF12, 0x00);
    apu.tick(4, 1);
    assert!(!apu.state.ch1.on);
}

#[test]
fn pulse_output_follows_the_duty_pattern() {
    let mut apu = triggered_channel_one();
    apu.tick(4, 0);
    let mut seen = Vec::new();
    for _ in 0..16 {
        let mut left = 4 * 1024;
        while left > 0 {
            apu.tick(4, 0);
            left -= 4;
        }
        seen.push(apu.state.ch1.output);
    }
    assert_eq!(seen, vec![15, 15, 15, 15, 0, 0, 0, 0, 15, 15, 15, 15, 0, 0, 0, 0]);
}

#[test]
fn duty_patterns() {
    let high: Vec<u8> = (0..4).map(|d| (0..8).map(|i| get_pwm_sample(d, i)).sum()).collect();
    assert_eq!(high, vec![1, 2, 4, 6]);
    assert_eq!(get_pwm_sample(0, 0), 1);
    assert_eq!(get_pwm_sample(0, 1), 0);
    assert_eq!(get_pwm_sample(3, 5), 1);
    assert_eq!(get_pwm_sample(3, 6), 0);
}

#[test]
fn length_timer_switches_the_channel_off() {
    let mut apu = Apu::new();
    apu.state.write_reg(0xFF11, 0x3E);
    apu.state.write_reg(0xFF12, 0xF0);
    apu.state.write_reg(0xFF14, 0xC0);
    apu.tick(4, 0);
    assert!(apu.state.ch1.on);
    apu.tick(4, 1);
    apu.tick(4, 1);
    apu.tick(4, 1);
    assert!(apu.state.ch1.on);
    apu.tick(4, 1);
    assert!(!apu.state.ch1.on);
}

#[test]
fn length_timer_counts_two_ticks_per_step() {
    let mut t = LengthTimer::new(false, 62);
    for _ in 0..3 {
        t.tick();
        assert!(t.is_active());
    }
    t.tick();
    assert!(!t.is_active());
    let mut w = LengthTimer::new(true, 255);
    w.tick();
    assert!(w.is_active());
    w.tick();
    assert!(!w.is_active());
}

#[test]
fn envelope_steps_every_eight_ticks_per_pace() {
    let mut e = VolumeEnvelope::new(&AudioNx2::new(0xF1));
    assert_eq!(e.volume(), 15);
    for _ in 0..7 {
        e.tick();
    }
    assert_eq!(e.volume(), 15);
    e.tick();
    assert_eq!(e.volume(), 14);
    let mut up = VolumeEnvelope::new(&AudioNx2::new(0xE9));
    for _ in 0..8 {
        up.tick();
    }
    assert_eq!(up.volume(), 15);
    for _ in 0..64 {
        up.tick();
    }
    assert_eq!(up.volume(), 15);
    assert!(!up.active);
    let mut still = VolumeEnvelope::new(&AudioNx2::new(0x70));
    for _ in 0..100 {
        still.tick();
    }
    assert_eq!(still.volume(), 7);
}

#[test]
fn period_registers_hold_eleven_bits() {
    let mut nx3 = 0u8;
    let mut nx4 = AudioNx4::new(0xC0);
    set_period(&mut nx3, &mut nx4, 0x5A3);
    assert_eq!((nx3, nx4.period_high), (0xA3, 5));
    assert!(nx4.trigger && nx4.length_timer_enable);
    assert_eq!(get_period(nx3, &nx4), 0x5A3);
}

#[test]
fn divider_reloads_with_the_complement_of_the_period() {
    let mut d = PeriodDivider::new(false);
    d.update_period(0x00, &AudioNx4::new(0x04));
    assert_eq!(d.period(), 1024);
    assert_eq!(d.counter.get_period(), 4 * 1024);
    d.tick(4 * 1024 * 9);
    assert_eq!(d.sample_idx(), 1);
    assert!(d.is_reload_allowed());
    d.tick(4);
    assert!(!d.is_reload_allowed());
    let mut w = PeriodDivider::new(true);
    w.update_period(0xFF, &AudioNx4::new(0x07));
    assert_eq!(w.counter.get_period(), 2);
    w.tick(2 * 33);
    assert_eq!(w.sample_idx(), 1);
}

#[test]
fn sweep_computes_the_next_period() {
    let up = AudioNx0::new(0x12);
    assert_eq!(calc_new_period(1024, &up), (1024 + 256, false));
    assert_eq!(calc_new_period(2000, &up), (0, true));
    assert_eq!(calc_new_period(1638, &up), (2047, false));
    assert_eq!(calc_new_period(1639, &up), (0, true));
    let down = AudioNx0::new(0x1B);
    assert_eq!(calc_new_period(1024, &down), (1024 - 128, false));
    assert_eq!(calc_new_period(5, &down), (5, false));
    let none = AudioNx0::new(0x10);
    assert_eq!(calc_new_period(1000, &none), (2000, false));
    assert_eq!(new_period_sweep_counter(0).get_period(), 32);
    assert_eq!(new_period_sweep_counter(7).get_period(), 28);
}

#[test]
fn sweep_overflow_switches_channel_one_off() {
    let mut apu = Apu::new();
    apu.state.write_reg(0xFF10, 0x11);
    apu.state.write_reg(0xFF12, 0xF0);
    apu.state.write_reg(0xFF13, 0xFF);
    apu.state.write_reg(0xFF14, 0x87);
    apu.tick(4, 0);
    assert!(!apu.state.ch1.on);
    let mut ok = Apu::new();
    ok.state.write_reg(0xFF10, 0x11);
    ok.state.write_reg(0xFF12, 0xF0);
    ok.state.write_reg(0xFF13, 0x00);
    ok.state.write_reg(0xFF14, 0x81);
    ok.tick(4, 0);
    assert!(ok.state.ch1.on);
    for _ in 0..4 {
        ok.tick(4, 1);
    }
    assert_eq!(get_period(ok.state.ch1.nx3, &ok.state.ch1.nx4), 256 + 128);
}

#[test]
fn noise_prescaler_period() {
    assert_eq!(new_lfsr_counter(&AudioN43::new(0x00)).get_period(), 0);
    assert_eq!(new_lfsr_counter(&AudioN43::new(0x10)).get_period(), 16);
    assert_eq!(new_lfsr_counter(&AudioN43::new(0x01)).get_period(), 16);
    assert_eq!(new_lfsr_counter(&AudioN43::new(0x23)).get_period(), 16 * 4 * 3);
    assert_eq!(new_lfsr_counter(&AudioN43::new(0xF7)).get_period(), 16 * 32768 * 7);
}

#[test]
fn noise_register_steps_and_feeds_back() {
    let mut apu = Apu::new();
    apu.state.write_reg(0xFF21, 0xF0);
    apu.state.write_reg(0xFF22, 0x10);
    apu.state.write_reg(0xFF23, 0x80);
    apu.tick(4, 0);
    assert!(apu.state.ch4.on);
    apu.tick(16, 0);
    assert_eq!(apu.state.ch4.lfsr_bits, 0x4000);
    assert_eq!(apu.state.ch4.output, 0);
    apu.tick(16, 0);
    assert_eq!(apu.state.ch4.lfsr_bits, 0x6000);
    apu.state.ch4.lfsr_bits = 0x0001;
    apu.tick(16, 0);
    assert_eq!(apu.state.ch4.output, 15);
    assert_eq!(apu.state.ch4.lfsr_bits, 0x0000);
    apu.state.write_reg(0xFF22, 0x18);
    apu.state.ch4.lfsr_bits = 0x0000;
    apu.tick(16, 0);
    assert_eq!(apu.state.ch4.lfsr_bits, 0x4040);
}

#[test]
fn wave_channel_plays_nibbles_at_the_output_level() {
    let mut apu = Apu::new();
    apu.wave_ram[0] = 0xA4;
    apu.wave_ram[1] = 0xF0;
    apu.state.write_reg(0xFF1A, 0x80);
    apu.state.write_reg(0xFF1C, 0x20);
    apu.state.write_reg(0xFF1D, 0xFF);
    apu.state.write_reg(0xFF1E, 0x87);
    apu.tick(2, 0);
    assert!(apu.state.ch3.on);
    let mut seen = Vec::new();
    for _ in 0..4 {
        apu.tick(2, 0);
        seen.push(apu.state.ch3.output);
    }
    assert_eq!(seen, vec![0xA, 0x4, 0xF, 0x0]);
    apu.state.write_reg(0xFF1C, 0x40);
    apu.state.ch3.divider.sample_idx = 0;
    apu.tick(2, 0);
    assert_eq!(apu.state.ch3.output, 5);
    apu.state.write_reg(0xFF1C, 0x60);
    apu.state.ch3.divider.sample_idx = 0;
    apu.tick(2, 0);
    assert_eq!(apu.state.ch3.output, 2);
    apu.state.write_reg(0xFF1C, 0x00);
    apu.tick(2, 0);
    assert_eq!(apu.state.ch3.output, 0);
}

#[test]
fn audio_registers_keep_what_programs_may_write() {
    let mut apu = Apu::new();
    apu.state.write_reg(0xFF10, 0xFF);
    assert_eq!(apu.state.read_reg(0xFF10), 0x7F);
    apu.state.write_reg(0xFF1A, 0xFF);
    assert_eq!(apu.state.read_reg(0xFF1A), 0x80);
    apu.state.write_reg(0xFF1C, 0xFF);
    assert_eq!(apu.state.read_reg(0xFF1C), 0x60);
    apu.state.write_reg(0xFF20, 0xFF);
    assert_eq!(apu.state.read_reg(0xFF20), 0x3F);
    apu.state.write_reg(0xFF23, 0xFF);
    assert_eq!(apu.state.read_reg(0xFF23), 0xC0);
    apu.state.write_reg(0xFF22, 0xA5);
    assert_eq!(apu.state.read_reg(0xFF22), 0xA5);
    apu.state.write_reg(0xFF1B, 0x12);
    assert_eq!(apu.state.read_reg(0xFF1B), 0x12);
    assert_eq!(apu.state.read_reg(0xFF15), 0);
    assert_eq!(apu.state.read_reg(0xFF27), 0);
}
