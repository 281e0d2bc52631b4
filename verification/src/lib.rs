//! In-memory, thread-safe substitutes for digital I/O pins: independent
//! atomic pin cells and a shared electrical node ("wire") with multiple
//! drivers, a pull bias, and short-circuit detection.

pub mod pins;
pub mod wire;
