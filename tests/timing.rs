use timed_transfer::batch::TimingParameters;

#[test]
fn timing_four_hundred_nanoseconds() {
    let t = TimingParameters::from_duration(400);
    assert_eq!(t.setup, 63);
    assert_eq!(t.strobe, 127);
    assert_eq!(t.hold, 6);
    assert_eq!(t.clock_divisor, 0);
}

#[test]
fn timing_budget_beyond_one_period() {
    // half = 863 ticks, budget = 859 = 3 * 253 + 100
    let t = TimingParameters::from_duration(1726);
    assert_eq!(t.clock_divisor, 3);
    assert_eq!(t.setup, 63);
    assert_eq!(t.strobe, 37);
    assert_eq!(t.hold, 0);
}

#[test]
fn timing_fullest_remainder() {
    // budget = 253 + 252
    let t = TimingParameters::from_duration(2 * (4 + 253 + 252));
    assert_eq!(t.clock_divisor, 1);
    assert_eq!((t.setup, t.strobe, t.hold), (63, 127, 62));
    assert_eq!(t.setup as u64 + t.strobe as u64 + t.hold as u64, 252);
}

#[test]
fn timing_exact_period() {
    let t = TimingParameters::from_duration(2 * (4 + 253));
    assert_eq!(t.clock_divisor, 1);
    assert_eq!((t.setup, t.strobe, t.hold), (0, 0, 0));
}

#[test]
fn timing_below_overhead() {
    for ns in 0..10u64 {
        let t = TimingParameters::from_duration(ns);
        assert_eq!((t.setup, t.strobe, t.hold, t.clock_divisor), (0, 0, 0, 0));
    }
    let t = TimingParameters::from_duration(10);
    assert_eq!((t.setup, t.strobe, t.hold, t.clock_divisor), (1, 0, 0, 0));
}

#[test]
fn timing_large_duration() {
    let t = TimingParameters::from_duration(u64::MAX);
    let budget = u64::MAX / 2 - 4;
    assert_eq!(t.clock_divisor, budget / 253);
    let rem = budget % 253;
    assert_eq!(t.setup as u64 + t.strobe as u64 + t.hold as u64, rem);
    assert!(t.setup <= 63 && t.strobe <= 127 && t.hold <= 63);
}
