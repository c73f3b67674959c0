use i2c_timings::{compute, SpeedMode, TimingError, Timings};

fn fields(prescaler: u8, scl_low: u8, scl_high: u8, data_hold: u8, clock_hold: u8) -> Timings {
    Timings { prescaler, scl_low, scl_high, data_hold, clock_hold }
}

#[test]
fn standard_mode_100mhz_clock() {
    let t = compute(100_000_000, 100_000).unwrap();
    assert_eq!(t.prescaler, 1);
    assert_eq!(t.scl_low, t.scl_high);
    assert_eq!(t, fields(1, 249, 249, 25, 99));
}

#[test]
fn fast_mode_100mhz_clock() {
    let t = compute(100_000_000, 400_000).unwrap();
    assert_eq!(t.scl_low as u32, 2 * (t.scl_high as u32 + 1) - 1);
    assert_eq!(t, fields(0, 165, 82, 25, 49));
}

#[test]
fn fast_mode_plus_100mhz_clock() {
    assert_eq!(compute(100_000_000, 1_000_000), Ok(fields(0, 65, 32, 12, 24)));
}

#[test]
fn fast_mode_plus_clock_below_17mhz() {
    assert_eq!(
        compute(8_000_000, 1_000_000),
        Err(TimingError::ClockTooSlowForMode(SpeedMode::FastPlus))
    );
}

#[test]
fn slow_clock_checked_before_high_period() {
    // The 2 MHz floor of standard mode fails before the high period is looked at.
    assert_eq!(
        compute(1_000_000, 100),
        Err(TimingError::ClockTooSlowForMode(SpeedMode::Standard))
    );
}

#[test]
fn standard_high_period_overflow() {
    assert_eq!(compute(2_000_000, 100), Err(TimingError::BusTooFastForClock));
}

#[test]
fn fast_prescaler_out_of_range() {
    assert_eq!(compute(4_000_000_000, 200_000), Err(TimingError::PrescalerOutOfRange));
}

#[test]
fn ratio_below_four() {
    assert_eq!(compute(3, 1), Err(TimingError::RatioTooLow));
    assert_eq!(compute(0, 1), Err(TimingError::RatioTooLow));
    assert_eq!(compute(399_999, 100_000), Err(TimingError::RatioTooLow));
    assert_eq!(compute(u32::MAX, u32::MAX), Err(TimingError::RatioTooLow));
}

#[test]
fn ratio_of_exactly_four() {
    assert_eq!(compute(4_000_000_000, 1_000_000_000), Ok(fields(0, 1, 0, 244, 231)));
}

#[test]
fn standard_mode_up_to_100khz() {
    assert_eq!(SpeedMode::from_bus_hz(100_000), SpeedMode::Standard);
    assert_eq!(SpeedMode::from_bus_hz(100_001), SpeedMode::Fast);
    // 5 MHz is enough for standard mode but not for fast mode.
    assert!(compute(5_000_000, 100_000).is_ok());
    assert_eq!(
        compute(5_000_000, 100_001),
        Err(TimingError::ClockTooSlowForMode(SpeedMode::Fast))
    );
}

#[test]
fn fast_mode_up_to_400khz() {
    assert_eq!(SpeedMode::from_bus_hz(400_000), SpeedMode::Fast);
    assert_eq!(SpeedMode::from_bus_hz(400_001), SpeedMode::FastPlus);
    assert_eq!(compute(10_000_000, 400_000), Ok(fields(0, 15, 7, 2, 4)));
    assert_eq!(
        compute(10_000_000, 400_001),
        Err(TimingError::ClockTooSlowForMode(SpeedMode::FastPlus))
    );
}

#[test]
fn least_clock_of_each_mode() {
    assert_eq!(compute(2_000_000, 100_000), Ok(fields(0, 9, 9, 2, 4)));
    assert_eq!(
        compute(1_999_999, 100_000),
        Err(TimingError::ClockTooSlowForMode(SpeedMode::Standard))
    );
    assert!(compute(8_000_000, 400_000).is_ok());
    assert_eq!(
        compute(7_999_999, 400_000),
        Err(TimingError::ClockTooSlowForMode(SpeedMode::Fast))
    );
    assert!(compute(17_000_000, 1_000_000).is_ok());
    assert_eq!(
        compute(16_999_999, 1_000_000),
        Err(TimingError::ClockTooSlowForMode(SpeedMode::FastPlus))
    );
}

#[test]
fn standard_prescaler_clamped_to_15() {
    // The ratio asks for a sixteenth step; the clamped prescaler still fits the period.
    assert_eq!(compute(2_000_000, 259), Ok(fields(15, 240, 240, 2, 4)));
}

#[test]
fn same_inputs_same_result() {
    for &(clk, bus) in &[
        (100_000_000u32, 100_000u32),
        (100_000_000, 400_000),
        (8_000_000, 1_000_000),
        (3, 1),
        (4_000_000_000, 200_000),
    ] {
        assert_eq!(compute(clk, bus), compute(clk, bus));
        assert_eq!(compute(clk, bus), Timings::new(clk, bus));
    }
}

#[test]
fn fields_within_their_ranges() {
    let clocks = [2_000_000u32, 8_000_000, 16_000_000, 17_000_000, 48_000_000, 120_000_000, 480_000_000];
    let buses = [10_000u32, 50_000, 100_000, 100_001, 250_000, 400_000, 400_001, 1_000_000];
    let mut seen = 0;
    for &clk in &clocks {
        for &bus in &buses {
            if let Ok(t) = compute(clk, bus) {
                seen += 1;
                assert!(t.prescaler < 16);
                assert!(t.data_hold >= 2);
                assert!(t.clock_hold >= 4);
                if bus <= 100_000 {
                    assert_eq!(t.scl_low, t.scl_high);
                } else {
                    assert_eq!(t.scl_low as u32, 2 * (t.scl_high as u32 + 1) - 1);
                }
            }
        }
    }
    assert!(seen > 30);
}

#[test]
fn error_messages() {
    assert_eq!(
        TimingError::RatioTooLow.message(),
        "The I2C PCLK must be at least 4 times the bus frequency!"
    );
    assert_eq!(
        TimingError::ClockTooSlowForMode(SpeedMode::Standard).message(),
        "I2C clock must be >= 2MHz for Standard-mode"
    );
    assert_eq!(
        TimingError::ClockTooSlowForMode(SpeedMode::Fast).message(),
        "I2C clock must be >= 8MHz for Fast-mode"
    );
    assert_eq!(
        TimingError::ClockTooSlowForMode(SpeedMode::FastPlus).message(),
        "I2C clock must be >= 17MHz for Fast-mode Plus"
    );
    assert_eq!(
        TimingError::BusTooFastForClock.message(),
        "The I2C PCLK is too fast for this bus frequency!"
    );
    assert_eq!(
        TimingError::PrescalerOutOfRange.message(),
        "Prescaler value must be less than 16"
    );
}

#[test]
fn mode_constants() {
    assert_eq!(SpeedMode::Standard.min_clock_hz(), 2_000_000);
    assert_eq!(SpeedMode::Fast.min_clock_hz(), 8_000_000);
    assert_eq!(SpeedMode::FastPlus.min_clock_hz(), 17_000_000);
    assert_eq!(SpeedMode::Standard.data_hold_divisor(), 2_000_000);
    assert_eq!(SpeedMode::FastPlus.clock_hold_divisor(), 4_000_000);
}
