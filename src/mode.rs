use vstd::prelude::*;

verus! {

/// Highest bus frequency, in Hz, served by standard mode.
pub const STANDARD_MAX_HZ: u32 = 100_000;

/// Highest bus frequency, in Hz, served by fast mode.
pub const FAST_MAX_HZ: u32 = 400_000;

/// The I2C speed class that a bus frequency falls in.
#[derive(Clone, Copy, Debug, PartialEq, Eq, Structural)]
pub enum SpeedMode {
    /// Up to 100 kHz: equal low and high periods.
    Standard,
    /// Above 100 kHz, up to 400 kHz: low period twice the high period.
    Fast,
    /// Above 400 kHz: as fast mode, with shorter hold delays.
    FastPlus,
}

/// The speed class of a bus frequency; both thresholds belong to the lower class.
pub open spec fn mode_of(bus_hz: int) -> SpeedMode {
    if bus_hz <= STANDARD_MAX_HZ {
        SpeedMode::Standard
    } else if bus_hz <= FAST_MAX_HZ {
        SpeedMode::Fast
    } else {
        SpeedMode::FastPlus
    }
}

impl SpeedMode {
    /// Least input clock, in Hz, that the class can be generated from.
    pub open spec fn min_clock(self) -> int {
        match self {
            SpeedMode::Standard => 2_000_000,
            SpeedMode::Fast => 8_000_000,
            SpeedMode::FastPlus => 17_000_000,
        }
    }

    /// Input clock ticks that one data-hold count stands for, before the prescaler.
    pub open spec fn data_hold_div(self) -> int {
        match self {
            SpeedMode::Standard => 2_000_000,
            SpeedMode::Fast => 4_000_000,
            SpeedMode::FastPlus => 8_000_000,
        }
    }

    /// Input clock ticks that one clock-hold count stands for, before the prescaler.
    pub open spec fn clock_hold_div(self) -> int {
        match self {
            SpeedMode::Standard => 500_000,
            SpeedMode::Fast => 2_000_000,
            SpeedMode::FastPlus => 4_000_000,
        }
    }

    /// The speed class that `bus_hz` falls in.
    pub fn from_bus_hz(bus_hz: u32) -> (r: SpeedMode)
        ensures
            r == mode_of(bus_hz as int),
    {
        if bus_hz <= STANDARD_MAX_HZ {
            SpeedMode::Standard
        } else if bus_hz <= FAST_MAX_HZ {
            SpeedMode::Fast
        } else {
            SpeedMode::FastPlus
        }
    }

    /// Least input clock, in Hz, for this class.
    pub fn min_clock_hz(&self) -> (r: u32)
        ensures
            r == self.min_clock(),
    {
        match self {
            SpeedMode::Standard => 2_000_000,
            SpeedMode::Fast => 8_000_000,
            SpeedMode::FastPlus => 17_000_000,
        }
    }

    /// Divisor of the input clock for the data-hold count.
    pub fn data_hold_divisor(&self) -> (r: u32)
        ensures
            r == self.data_hold_div(),
    {
        match self {
            SpeedMode::Standard => 2_000_000,
            SpeedMode::Fast => 4_000_000,
            SpeedMode::FastPlus => 8_000_000,
        }
    }

    /// Divisor of the input clock for the clock-hold count.
    pub fn clock_hold_divisor(&self) -> (r: u32)
        ensures
            r == self.clock_hold_div(),
    {
        match self {
            SpeedMode::Standard => 500_000,
            SpeedMode::Fast => 2_000_000,
            SpeedMode::FastPlus => 4_000_000,
        }
    }
}

} // verus!
