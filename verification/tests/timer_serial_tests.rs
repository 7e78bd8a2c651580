use gbemu::regs::{SerialCtrl, TimerCtrl};
use gbemu::serial::{get_period_in_mcycles, Serial};
use gbemu::timer::{tima_clock_bit, Timer};

#[test]
fn div_is_the_clock_shifted_by_six() {
    let mut t = Timer::new();
    assert_eq!(t.get_div(), 0);
    t.tick(63);
    assert_eq!(t.get_div(), 0);
    t.tick(1);
    assert_eq!(t.get_div(), 1);
    t.tick(64 * 254);
    assert_eq!(t.get_div(), 255);
    t.tick(64);
    assert_eq!(t.get_div(), 0);
    assert_eq!(t.sys_clock, 0);
}

#[test]
fn tima_clock_bits_follow_the_selection() {
    assert_eq!(tima_clock_bit(0), 7);
    assert_eq!(tima_clock_bit(1), 1);
    assert_eq!(tima_clock_bit(2), 3);
    assert_eq!(tima_clock_bit(3), 5);
}

#[test]
fn tima_counts_at_the_selected_rate() {
    let mut t = Timer::new();
    t.tac = TimerCtrl::new(0b101);
    t.tick(4 * 10);
    assert_eq!(t.tima, 10);
    let mut slow = Timer::new();
    slow.tac = TimerCtrl::new(0b100);
    slow.tick(255);
    assert_eq!(slow.tima, 0);
    slow.tick(1);
    assert_eq!(slow.tima, 1);
}

#[test]
fn tima_stands_still_when_disabled() {
    let mut t = Timer::new();
    t.tac = TimerCtrl::new(0b001);
    t.tick(1000);
    assert_eq!(t.tima, 0);
}

#[test]
fn tima_overflow_reloads_one_mcycle_later() {
    let mut t = Timer::new();
    t.tac = TimerCtrl::new(0b101);
    t.tma = 0xAB;
    t.tima = 0xFF;
    assert!(!t.tick(3));
    assert_eq!(t.tima, 0xFF);
    assert!(!t.tick(1));
    assert_eq!(t.tima, 0);
    assert!(t.tick(1));
    assert_eq!(t.tima, 0xAB);
    assert!(!t.tick(1));
}

#[test]
fn div_apu_ticks_on_the_falling_edge_of_bit_ten() {
    let mut t = Timer::new();
    t.tick(2047);
    assert_eq!(t.apu_ticks, 0);
    t.tick(1);
    assert_eq!(t.apu_ticks, 1);
    t.tick(1);
    assert_eq!(t.apu_ticks, 0);
    t.is_2x = true;
    t.sys_clock = 4095;
    t.old_sys_clock = 4095;
    t.tick(1);
    assert_eq!(t.apu_ticks, 1);
}

#[test]
fn div_reset_takes_its_edges_once() {
    let mut t = Timer::new();
    t.tac = TimerCtrl::new(0b100);
    t.tick(0x07FF);
    let tima = t.tima;
    t.reset_div();
    assert_eq!(t.get_div(), 0);
    let intr = t.tick(1);
    assert!(!intr);
    assert_eq!(t.get_div(), 0);
    assert_eq!(t.tima, tima + 1);
    assert_eq!(t.apu_ticks, 1);
    assert_eq!(t.sys_clock, 0);
    t.tick(1);
    assert_eq!(t.tima, tima + 1);
    assert_eq!(t.apu_ticks, 0);
    assert_eq!(t.sys_clock, 1);
}

#[test]
fn div_reset_without_set_bits_causes_nothing() {
    let mut t = Timer::new();
    t.tac = TimerCtrl::new(0b100);
    t.tick(5);
    t.reset_div();
    t.tick(1);
    assert_eq!(t.tima, 0);
    assert_eq!(t.apu_ticks, 0);
}

#[test]
fn timer_check_rejects_a_clock_beyond_fourteen_bits() {
    let mut t = Timer::new();
    assert!(t.check());
    t.sys_clock = 16384;
    assert!(!t.check());
}

#[test]
fn serial_periods_follow_the_clock_settings() {
    let internal = SerialCtrl::new(0x81);
    let fast = SerialCtrl::new(0x83);
    let external = SerialCtrl::new(0x80);
    assert_eq!(get_period_in_mcycles(external, false, false), 0);
    assert_eq!(get_period_in_mcycles(external, true, true), 0);
    assert_eq!(get_period_in_mcycles(internal, false, false), 128);
    assert_eq!(get_period_in_mcycles(fast, false, false), 128);
    assert_eq!(get_period_in_mcycles(internal, true, false), 128);
    assert_eq!(get_period_in_mcycles(internal, true, true), 256);
    assert_eq!(get_period_in_mcycles(fast, true, false), 8);
    assert_eq!(get_period_in_mcycles(fast, true, true), 4);
}

#[test]
fn serial_transfer_completes_after_eight_periods() {
    let mut s = Serial::new(false);
    s.sb = 0x42;
    s.sc = SerialCtrl::new(0x81);
    let started = s.tick(1);
    assert!(!started.intr);
    assert!(s.transferring);
    let mut mcycles = 0u32;
    loop {
        let ev = s.tick(1);
        mcycles += 1;
        if ev.intr {
            break;
        }
        assert_eq!(s.sb, 0x42);
        assert!(s.sc.tx_enable);
        assert!(mcycles < 8 * 128);
    }
    assert_eq!(mcycles, 8 * 128);
    assert_eq!(s.sb, 0xFF);
    assert!(!s.sc.tx_enable);
    assert!(!s.transferring);
    assert!(!s.tick(5000).intr);
}

#[test]
fn serial_transfer_completes_within_one_large_tick() {
    let mut s = Serial::new(false);
    s.sc = SerialCtrl::new(0x81);
    s.tick(4);
    assert!(!s.tick(8 * 128 - 1).intr);
    assert!(s.tick(1).intr);
    assert_eq!(s.sb, 0xFF);
}

#[test]
fn serial_with_external_clock_never_completes() {
    let mut s = Serial::new(false);
    s.sb = 7;
    s.sc = SerialCtrl::new(0x80);
    s.tick(1);
    assert!(!s.tick(1_000_000).intr);
    assert_eq!(s.sb, 7);
    assert!(s.sc.tx_enable);
}

#[test]
fn serial_reports_the_byte_when_asked_to() {
    let mut s = Serial::new(false);
    s.debug_serial = true;
    s.sb = b'A';
    s.sc = SerialCtrl::new(0x81);
    assert_eq!(s.tick(1).sent, Some(b'A'));
    assert_eq!(s.tick(1).sent, None);
    let mut quiet = Serial::new(false);
    quiet.sb = b'A';
    quiet.sc = SerialCtrl::new(0x81);
    assert_eq!(quiet.tick(1).sent, None);
}

#[test]
fn idle_serial_port_does_nothing() {
    let mut s = Serial::new(false);
    s.sb = 9;
    let ev = s.tick(100_000);
    assert!(!ev.intr);
    assert_eq!(ev.sent, None);
    assert_eq!(s.sb, 9);
    assert!(s.check());
}
