use vstd::prelude::*;

pub mod accelerometer;
pub mod bus;
pub mod chips;
pub mod config;
pub mod mqtt;
pub mod value;

pub use accelerometer::{Accelerometer, AccelerometerMeasurement, ZERO_SAMPLE_COUNT};
pub use bus::{BusOp, BusRequest, Session, Slot};
pub use chips::{AccelerometerChip, Icm20948Impl, M845xQImpl};
pub use config::{
    AccelerometerConfig, AccelerometerError, AccelerometerResult, DeviceConfig, OutputDataRate,
    Scale, SupportedChips, Timestamp,
};
pub use value::Value;

verus! {

} // verus!
