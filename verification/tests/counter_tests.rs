use gbemu::counter::Counter;

#[test]
fn counter_reports_completed_periods() {
    let mut c = Counter::new(10);
    assert_eq!(c.tick(9), 0);
    assert_eq!(c.tick(1), 1);
    assert_eq!(c.tick(25), 2);
    assert_eq!(c.remainder(), 5);
    assert_eq!(c.get_period(), 10);
}

#[test]
fn counter_with_period_zero_never_fires() {
    let mut c = Counter::new(0);
    assert_eq!(c.tick(0), 0);
    assert_eq!(c.tick(1), 0);
    assert_eq!(c.tick(u32::MAX), 0);
    assert_eq!(c.get_period(), 0);
}

#[test]
fn counter_ticks_aggregate_exactly() {
    let period = 7u32;
    let elapsed = [3u32, 0, 11, 1, 6, 100, 7, 13];
    let mut c = Counter::new(period);
    let mut fired = 0u64;
    let mut total = 0u64;
    for e in elapsed {
        fired += c.tick(e) as u64;
        total += e as u64;
        assert_eq!(fired * period as u64 + c.remainder() as u64, total);
    }
    assert_eq!(fired, total / period as u64);
    assert_eq!(c.remainder() as u64, total % period as u64);
}

#[test]
fn counter_survives_the_largest_tick() {
    let mut c = Counter::new(3);
    assert_eq!(c.tick(2), 0);
    assert_eq!(c.tick(u32::MAX), 1431655765);
    assert_eq!(c.remainder(), 2);
    assert!(c.check());
}

#[test]
fn counter_check_rejects_a_remainder_beyond_the_period() {
    assert!(!Counter { ticks: 5, period: 5 }.check());
    assert!(!Counter { ticks: 1, period: 0 }.check());
    assert!(Counter { ticks: 4, period: 5 }.check());
}
