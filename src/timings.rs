use vstd::prelude::*;

use crate::mode::{mode_of, SpeedMode};

verus! {

/// The five timing fields of the peripheral, as written to its register.
#[derive(Clone, Copy, Debug, PartialEq, Eq, Structural)]
pub struct Timings {
    /// Clock divider index; the divider is `prescaler + 1`.
    pub prescaler: u8,
    /// Low period of SCL, in prescaled ticks.
    pub scl_low: u8,
    /// High period of SCL, in prescaled ticks.
    pub scl_high: u8,
    /// Data-hold delay, in prescaled ticks.
    pub data_hold: u8,
    /// Clock-hold delay, in prescaled ticks.
    pub clock_hold: u8,
}

/// Why no timing fields exist for a pair of frequencies.
#[derive(Clone, Copy, Debug, PartialEq, Eq, Structural)]
pub enum TimingError {
    /// The input clock is not at least four times the bus frequency.
    RatioTooLow,
    /// The input clock is below the least one for the bus's speed class.
    ClockTooSlowForMode(SpeedMode),
    /// In standard mode, the high period does not fit in eight bits.
    BusTooFastForClock,
    /// The prescaler does not fit in four bits.
    PrescalerOutOfRange,
}

/// Prescaler register value for a clock ratio, before the four-bit range check:
/// 512 ticks per period in standard mode (clamped to 15), 384 in the fast modes.
pub open spec fn raw_prescaler(mode: SpeedMode, ratio: int) -> int {
    if mode == SpeedMode::Standard {
        let p = (ratio - 1) / 512;
        if p < 15 { p } else { 15 }
    } else {
        (ratio - 1) / 384
    }
}

/// High period for a ratio and a divider `presc`: half of the prescaled ratio
/// less two in standard mode, a third of it less three in the fast modes.
pub open spec fn high_count(mode: SpeedMode, ratio: int, presc: int) -> int {
    if mode == SpeedMode::Standard {
        (ratio / presc - 2) / 2
    } else {
        (ratio / presc - 3) / 3
    }
}

/// Low period for a high period: equal in standard mode, `2 * (high + 1) - 1`
/// in the fast modes.
pub open spec fn low_count(mode: SpeedMode, high: int) -> int {
    if mode == SpeedMode::Standard {
        high
    } else {
        2 * (high + 1) - 1
    }
}

/// Data-hold count: the clock divided by the class's divisor and by `presc`,
/// kept to its low eight bits, and raised to at least 2.
pub open spec fn data_hold_count(mode: SpeedMode, clk: int, presc: int) -> int {
    let v = clk / mode.data_hold_div() / presc % 256;
    if v < 2 { 2 } else { v }
}

/// Clock-hold count: the clock divided by the class's divisor and by `presc`,
/// less one (a count below zero counts as zero), kept to its low eight bits,
/// and raised to at least 4.
pub open spec fn clock_hold_count(mode: SpeedMode, clk: int, presc: int) -> int {
    let q = clk / mode.clock_hold_div() / presc;
    let v = if q == 0 { 0 } else { (q - 1) % 256 };
    if v < 4 { 4 } else { v }
}

/// What the timing fields are for input clock `clk` and bus frequency `bus`,
/// or which check fails first.
pub open spec fn timing_result(clk: int, bus: int) -> Result<Timings, TimingError>
    recommends
        bus > 0,
{
    let ratio = clk / bus;
    let mode = mode_of(bus);
    let presc_reg = raw_prescaler(mode, ratio);
    let presc = presc_reg + 1;
    let high = high_count(mode, ratio, presc);
    if ratio < 4 {
        Err(TimingError::RatioTooLow)
    } else if clk < mode.min_clock() {
        Err(TimingError::ClockTooSlowForMode(mode))
    } else if mode == SpeedMode::Standard && high >= 256 {
        Err(TimingError::BusTooFastForClock)
    } else if presc_reg >= 16 {
        Err(TimingError::PrescalerOutOfRange)
    } else {
        Ok(
            Timings {
                prescaler: presc_reg as u8,
                scl_low: low_count(mode, high) as u8,
                scl_high: high as u8,
                data_hold: data_hold_count(mode, clk, presc) as u8,
                clock_hold: clock_hold_count(mode, clk, presc) as u8,
            },
        )
    }
}

/// The prescaled ratio leaves room for the subtraction in `high_count`, and,
/// with a prescaler in range, the low period fits in eight bits.
proof fn lemma_prescaled_ratio(mode: SpeedMode, ratio: int)
    requires
        ratio >= 4,
    ensures
        mode == SpeedMode::Standard ==> ratio / (raw_prescaler(mode, ratio) + 1) >= 2,
        mode != SpeedMode::Standard ==> ratio / (raw_prescaler(mode, ratio) + 1) >= 3,
        mode != SpeedMode::Standard && raw_prescaler(mode, ratio) < 16 ==> ratio / (
        raw_prescaler(mode, ratio) + 1) <= 384,
{
    let p = raw_prescaler(mode, ratio) + 1;
    if mode == SpeedMode::Standard {
        assert(ratio - 1 >= 512 * (p - 1)) by (nonlinear_arith)
            requires
                p - 1 <= (ratio - 1) / 512,
                ratio >= 4,
        ;
        assert(ratio / p >= 2) by (nonlinear_arith)
            requires
                ratio - 1 >= 512 * (p - 1),
                1 <= p <= 16,
                ratio >= 4,
        ;
    } else {
        assert(ratio - 1 >= 384 * (p - 1) && ratio <= 384 * p) by (nonlinear_arith)
            requires
                p - 1 == (ratio - 1) / 384,
                ratio >= 4,
        ;
        assert(ratio / p >= 3) by (nonlinear_arith)
            requires
                ratio - 1 >= 384 * (p - 1),
                p >= 1,
                ratio >= 4,
        ;
        assert(ratio / p <= 384) by (nonlinear_arith)
            requires
                ratio <= 384 * p,
                p >= 1,
        ;
    }
}

/// Prescaler register value for `ratio` in `mode`, before the range check.
fn prescaler_reg(mode: SpeedMode, ratio: u32) -> (r: u32)
    requires
        ratio >= 4,
    ensures
        r == raw_prescaler(mode, ratio as int),
{
    match mode {
        SpeedMode::Standard => {
            let p = (ratio - 1) / 512;
            if p < 15 {
                p
            } else {
                15
            }
        },
        _ => (ratio - 1) / 384,
    }
}

/// High period for `ratio` and the divider that `prescaler_reg` gives for it.
fn high_period(mode: SpeedMode, ratio: u32, presc: u32) -> (r: u32)
    requires
        ratio >= 4,
        presc == raw_prescaler(mode, ratio as int) + 1,
    ensures
        r == high_count(mode, ratio as int, presc as int),
        mode != SpeedMode::Standard && presc <= 16 ==> r <= 127,
{
    proof {
        lemma_prescaled_ratio(mode, ratio as int);
    }
    match mode {
        SpeedMode::Standard => (ratio / presc - 2) / 2,
        _ => (ratio / presc - 3) / 3,
    }
}

impl Timings {
    /// Derives the timing fields for input clock `input_clock_hz` and bus
    /// frequency `target_bus_hz`, both in Hz.
    pub fn new(input_clock_hz: u32, target_bus_hz: u32) -> (r: Result<Timings, TimingError>)
        requires
            target_bus_hz > 0,
        ensures
            r == timing_result(input_clock_hz as int, target_bus_hz as int),
            input_clock_hz / target_bus_hz < 4 <==> r == Err::<Timings, TimingError>(
                TimingError::RatioTooLow,
            ),
            r matches Ok(t) ==> t.prescaler < 16 && t.data_hold >= 2 && t.clock_hold >= 4,
    {
        let ratio = input_clock_hz / target_bus_hz;
        if ratio < 4 {
            return Err(TimingError::RatioTooLow);
        }
        let mode = SpeedMode::from_bus_hz(target_bus_hz);
        if input_clock_hz < mode.min_clock_hz() {
            return Err(TimingError::ClockTooSlowForMode(mode));
        }
        let presc_reg = prescaler_reg(mode, ratio);
        let presc = presc_reg + 1;
        let high = high_period(mode, ratio, presc);
        if mode == SpeedMode::Standard && high >= 256 {
            return Err(TimingError::BusTooFastForClock);
        }
        if presc_reg >= 16 {
            return Err(TimingError::PrescalerOutOfRange);
        }
        let low = match mode {
            SpeedMode::Standard => high,
            _ => 2 * (high + 1) - 1,
        };
        let data = input_clock_hz / mode.data_hold_divisor() / presc % 256;
        let data_hold = if data < 2 {
            2
        } else {
            data
        };
        let q = input_clock_hz / mode.clock_hold_divisor() / presc;
        let clock = if q == 0 {
            0
        } else {
            (q - 1) % 256
        };
        let clock_hold = if clock < 4 {
            4
        } else {
            clock
        };
        Ok(
            Timings {
                prescaler: presc_reg as u8,
                scl_low: low as u8,
                scl_high: high as u8,
                data_hold: data_hold as u8,
                clock_hold: clock_hold as u8,
            },
        )
    }
}

/// Derives the timing fields for input clock `input_clock_hz` and bus
/// frequency `target_bus_hz`, both in Hz; the same as `Timings::new`.
pub fn compute(input_clock_hz: u32, target_bus_hz: u32) -> (r: Result<Timings, TimingError>)
    requires
        target_bus_hz > 0,
    ensures
        r == timing_result(input_clock_hz as int, target_bus_hz as int),
        input_clock_hz / target_bus_hz < 4 <==> r == Err::<Timings, TimingError>(
            TimingError::RatioTooLow,
        ),
        r matches Ok(t) ==> t.prescaler < 16 && t.data_hold >= 2 && t.clock_hold >= 4,
{
    Timings::new(input_clock_hz, target_bus_hz)
}

impl TimingError {
    /// The text shown for this error.
    pub open spec fn text(self) -> Seq<char> {
        match self {
            TimingError::RatioTooLow => "The I2C PCLK must be at least 4 times the bus frequency!"@,
            TimingError::ClockTooSlowForMode(SpeedMode::Standard) => "I2C clock must be >= 2MHz for Standard-mode"@,
            TimingError::ClockTooSlowForMode(SpeedMode::Fast) => "I2C clock must be >= 8MHz for Fast-mode"@,
            TimingError::ClockTooSlowForMode(SpeedMode::FastPlus) => "I2C clock must be >= 17MHz for Fast-mode Plus"@,
            TimingError::BusTooFastForClock => "The I2C PCLK is too fast for this bus frequency!"@,
            TimingError::PrescalerOutOfRange => "Prescaler value must be less than 16"@,
        }
    }

    /// A message that says which check failed.
    pub fn message(&self) -> (r: &'static str)
        ensures
            r@ == self.text(),
    {
        match self {
            TimingError::RatioTooLow => "The I2C PCLK must be at least 4 times the bus frequency!",
            TimingError::ClockTooSlowForMode(SpeedMode::Standard) => "I2C clock must be >= 2MHz for Standard-mode",
            TimingError::ClockTooSlowForMode(SpeedMode::Fast) => "I2C clock must be >= 8MHz for Fast-mode",
            TimingError::ClockTooSlowForMode(SpeedMode::FastPlus) => "I2C clock must be >= 17MHz for Fast-mode Plus",
            TimingError::BusTooFastForClock => "The I2C PCLK is too fast for this bus frequency!",
            TimingError::PrescalerOutOfRange => "Prescaler value must be less than 16",
        }
    }
}

/// Where the clock is at least four times the bus frequency and at least the
/// least clock of the bus's speed class, and neither the standard-mode high
/// period nor the prescaler overflows its field, timing fields exist: the
/// prescaler is below 16, the data hold at least 2, the clock hold at least 4,
/// and every field at most 255.
pub proof fn lemma_valid_inputs_give_fields(clk: u32, bus: u32)
    requires
        bus > 0,
        clk / bus >= 4,
        clk >= mode_of(bus as int).min_clock(),
        mode_of(bus as int) == SpeedMode::Standard ==> high_count(
            SpeedMode::Standard,
            clk as int / bus as int,
            raw_prescaler(SpeedMode::Standard, clk as int / bus as int) + 1,
        ) < 256,
        raw_prescaler(mode_of(bus as int), clk as int / bus as int) < 16,
    ensures
        timing_result(clk as int, bus as int) matches Ok(t) && t.prescaler < 16 && t.data_hold
            >= 2 && t.clock_hold >= 4 && t.scl_low <= 255 && t.scl_high <= 255 && t.data_hold
            <= 255 && t.clock_hold <= 255,
{
}

/// In every result with timing fields, the low period equals the high period
/// in standard mode, and is `2 * (high + 1) - 1` in the fast modes.
pub proof fn lemma_duty_cycle(clk: u32, bus: u32)
    requires
        bus > 0,
    ensures
        timing_result(clk as int, bus as int) matches Ok(t) ==> if mode_of(bus as int)
            == SpeedMode::Standard {
            t.scl_low == t.scl_high
        } else {
            t.scl_low == 2 * (t.scl_high + 1) - 1
        },
{
    let ratio = clk / bus;
    if ratio >= 4 {
        lemma_prescaled_ratio(mode_of(bus as int), ratio as int);
    }
}

/// Deriving the fields twice from the same pair of frequencies gives the same
/// result: the derivation depends on its two inputs alone.
pub proof fn lemma_deterministic(
    clk: u32,
    bus: u32,
    first: Result<Timings, TimingError>,
    second: Result<Timings, TimingError>,
)
    requires
        bus > 0,
        first == timing_result(clk as int, bus as int),
        second == timing_result(clk as int, bus as int),
    ensures
        first == second,
{
}

} // verus!
