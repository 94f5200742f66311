use i2c_master::{Duty, Mode, Timings};

#[test]
fn standard_mode_at_8_mhz() {
    let t = Timings::new(8_000_000, 100_000);
    assert_eq!(t.freq, 8);
    assert_eq!(t.mode, Mode::Standard);
    assert_eq!(t.duty, Duty::Duty2_1);
    assert_eq!(t.ccr, 40);
    assert_eq!(t.trise, 9);
}

#[test]
fn fast_mode_at_42_mhz() {
    let t = Timings::new(42_000_000, 400_000);
    assert_eq!(t.freq, 42);
    assert_eq!(t.mode, Mode::Fast);
    assert_eq!(t.duty, Duty::Duty2_1);
    assert_eq!(t.ccr, 35);
    assert_eq!(t.trise, 13);
}

#[test]
fn speed_limit_is_still_standard_mode() {
    let at = Timings::new(16_000_000, 100_000);
    assert_eq!(at.mode, Mode::Standard);
    assert_eq!(at.ccr, 80);
    assert_eq!(at.trise, 17);
    let above = Timings::new(16_000_000, 100_001);
    assert_eq!(above.mode, Mode::Fast);
    assert_eq!(above.ccr, 53);
    assert_eq!(above.trise, 5);
}

#[test]
fn lowest_and_highest_clock() {
    let low = Timings::new(2_000_000, 100_000);
    assert_eq!(low.freq, 2);
    assert_eq!(low.trise, 3);
    assert_eq!(low.ccr, 10);
    let high = Timings::new(50_999_999, 100_000);
    assert_eq!(high.freq, 50);
    assert_eq!(high.trise, 51);
    assert_eq!(high.ccr, 254);
    let fast = Timings::new(50_000_000, 400_000);
    assert_eq!(fast.trise, 16);
    assert_eq!(fast.ccr, 41);
}

#[test]
fn fast_mode_divisor_is_at_least_one() {
    let t = Timings::new(2_000_000, 1_000_000);
    assert_eq!(t.mode, Mode::Fast);
    assert_eq!(t.ccr, 1);
    assert_eq!(t.trise, 1);
    let t = Timings::new(50_000_000, u32::MAX);
    assert_eq!(t.mode, Mode::Fast);
    assert_eq!(t.ccr, 1);
}

#[test]
fn slow_bus_keeps_the_whole_quotient() {
    let t = Timings::new(50_000_000, 1);
    assert_eq!(t.mode, Mode::Standard);
    assert_eq!(t.ccr, 25_000_000);
    let t = Timings::new(2_097_152, 16);
    assert_eq!(t.ccr, 65_536);
}

#[test]
fn standard_mode_divisor_is_at_least_four() {
    for clock in [2_000_000u32, 2_500_000, 8_000_000, 36_000_000, 50_999_999] {
        for speed in [1u32, 10_000, 99_999, 100_000] {
            let t = Timings::new(clock, speed);
            assert_eq!(t.mode, Mode::Standard);
            assert_eq!(t.duty, Duty::Duty2_1);
            assert!(t.ccr >= 4);
            assert_eq!(u64::from(t.ccr), u64::from(clock) / (u64::from(speed) * 2));
            assert_eq!(u32::from(t.trise), clock / 1_000_000 + 1);
        }
        for speed in [100_001u32, 400_000, 1_000_000, 3_000_000_000] {
            let t = Timings::new(clock, speed);
            assert_eq!(t.mode, Mode::Fast);
            assert!(t.ccr >= 1);
            let quotient = u64::from(clock) / (u64::from(speed) * 3);
            assert_eq!(u64::from(t.ccr), quotient.max(1));
            assert_eq!(u32::from(t.trise), (clock / 1_000_000) * 300 / 1000 + 1);
        }
    }
}

#[test]
fn sixteen_to_nine_duty() {
    let t = Timings::with_duty(42_000_000, 400_000, Duty::Duty16_9);
    assert_eq!(t.mode, Mode::Fast);
    assert_eq!(t.duty, Duty::Duty16_9);
    assert_eq!(t.ccr, 4);
    assert_eq!(t.trise, 13);
    let t = Timings::with_duty(2_000_000, 400_000, Duty::Duty16_9);
    assert_eq!(t.ccr, 1);
    let t = Timings::with_duty(42_000_000, 100_000, Duty::Duty16_9);
    assert_eq!(t.mode, Mode::Standard);
    assert_eq!(t.duty, Duty::Duty2_1);
    assert_eq!(t.ccr, 210);
}

#[test]
fn with_duty_two_to_one_is_new() {
    for speed in [50_000u32, 100_000, 400_000] {
        assert_eq!(
            Timings::with_duty(24_000_000, speed, Duty::Duty2_1),
            Timings::new(24_000_000, speed)
        );
    }
}

#[test]
fn register_bits_of_mode_and_duty() {
    assert!(Mode::Fast.f_s());
    assert!(!Mode::Standard.f_s());
    assert!(Duty::Duty16_9.duty());
    assert!(!Duty::Duty2_1.duty());
}

#[test]
fn supported_input_clocks() {
    assert!(!Timings::supports(0));
    assert!(!Timings::supports(1_999_999));
    assert!(Timings::supports(2_000_000));
    assert!(Timings::supports(36_000_000));
    assert!(Timings::supports(50_999_999));
    assert!(!Timings::supports(51_000_000));
    assert!(!Timings::supports(u32::MAX));
}
