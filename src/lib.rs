//! Register values for the timing generator of an I2C peripheral, derived
//! from the peripheral's input clock and the wanted bus (SCL) frequency.
pub mod mode;
pub mod timings;

pub use mode::SpeedMode;
pub use timings::{compute, TimingError, Timings};
