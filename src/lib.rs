//! Driver for the KXTJ3 3-axis accelerometer over a register-addressed bus,
//! with its register map, the conversion of raw output codes to micro-g, a
//! simulated transport, and the peak detector of an audio level meter.

pub mod bus;
pub mod driver;
pub mod meter;
pub mod registers;
pub mod sample;
pub mod sim;

pub use bus::{BusOp, RegisterBus};
pub use driver::{Accelerometer, KXTJ3Accelerometer, KXTJ3Error};
pub use meter::peak_amplitude;
pub use registers::{GRange, KXTJ3DataRate, Resolution};
pub use sample::{counts_to_micro_g, i16_from_le_bytes, sample_from_bytes, AccelerometerSample};
pub use sim::{SimError, SimEvent, SimulatedBus};
