use std::time::Duration;
use vstd::prelude::*;

verus! {

/// The chips that this library drives.
#[derive(Clone, Copy, Debug, PartialEq, Eq, Structural)]
pub enum SupportedChips {
    M845xQ,
    ICM20948,
}

/// Full-scale range: the largest acceleration that a reading can hold.
#[derive(Clone, Copy, Debug, PartialEq, Eq, Structural)]
pub enum Scale {
    TwoG,
    FourG,
    EightG,
    SixteenG,
}

impl Default for Scale {
    fn default() -> (r: Scale)
        ensures
            r == Scale::FourG,
    {
        Scale::FourG
    }
}

/// Output data rate: how often the chip samples.
#[derive(Clone, Copy, Debug, PartialEq, Eq, Structural)]
pub enum OutputDataRate {
    DataRate800Hz,
    DataRate400Hz,
    DataRate200Hz,
    DataRate100Hz,
    DataRate50Hz,
    DataRate12_5Hz,
    DataRate6_25Hz,
    DataRate1_56Hz,
}

impl Default for OutputDataRate {
    fn default() -> (r: OutputDataRate)
        ensures
            r == OutputDataRate::DataRate50Hz,
    {
        OutputDataRate::DataRate50Hz
    }
}

/// Nanoseconds per second, times a thousand: a period in nanoseconds is this
/// divided by a frequency in millihertz.
pub const NANOS_PER_SECOND_MILLI: u64 = 1_000_000_000_000;

/// What `Duration::from_nanos` returns for `n`.
pub uninterp spec fn duration_from_nanos(n: u64) -> Duration;

/// Relies on `Duration::from_nanos`: a duration of `nanos` nanoseconds.
#[verifier::external_body]
fn nanos_to_duration(nanos: u64) -> (r: Duration)
    ensures
        r == duration_from_nanos(nanos),
{
    Duration::from_nanos(nanos)
}

impl OutputDataRate {
    /// The three-bit rate code of the chip's control register.
    pub open spec fn spec_code(self) -> u8 {
        match self {
            OutputDataRate::DataRate800Hz => 0,
            OutputDataRate::DataRate400Hz => 1,
            OutputDataRate::DataRate200Hz => 2,
            OutputDataRate::DataRate100Hz => 3,
            OutputDataRate::DataRate50Hz => 4,
            OutputDataRate::DataRate12_5Hz => 5,
            OutputDataRate::DataRate6_25Hz => 6,
            OutputDataRate::DataRate1_56Hz => 7,
        }
    }

    pub open spec fn spec_frequency_millihertz(self) -> u64 {
        match self {
            OutputDataRate::DataRate800Hz => 800_000,
            OutputDataRate::DataRate400Hz => 400_000,
            OutputDataRate::DataRate200Hz => 200_000,
            OutputDataRate::DataRate100Hz => 100_000,
            OutputDataRate::DataRate50Hz => 50_000,
            OutputDataRate::DataRate12_5Hz => 12_500,
            OutputDataRate::DataRate6_25Hz => 6_250,
            OutputDataRate::DataRate1_56Hz => 1_560,
        }
    }

    /// One update cycle, in whole nanoseconds (rounded down).
    pub open spec fn spec_cycle_nanos(self) -> u64 {
        (NANOS_PER_SECOND_MILLI / self.spec_frequency_millihertz()) as u64
    }

    pub fn code(&self) -> (r: u8)
        ensures
            r == self.spec_code(),
            r < 8,
    {
        match self {
            OutputDataRate::DataRate800Hz => 0,
            OutputDataRate::DataRate400Hz => 1,
            OutputDataRate::DataRate200Hz => 2,
            OutputDataRate::DataRate100Hz => 3,
            OutputDataRate::DataRate50Hz => 4,
            OutputDataRate::DataRate12_5Hz => 5,
            OutputDataRate::DataRate6_25Hz => 6,
            OutputDataRate::DataRate1_56Hz => 7,
        }
    }

    /// The sampling frequency, in millihertz.
    pub fn update_frequency_millihertz(&self) -> (r: u64)
        ensures
            r == self.spec_frequency_millihertz(),
            r > 0,
    {
        match self {
            OutputDataRate::DataRate800Hz => 800_000,
            OutputDataRate::DataRate400Hz => 400_000,
            OutputDataRate::DataRate200Hz => 200_000,
            OutputDataRate::DataRate100Hz => 100_000,
            OutputDataRate::DataRate50Hz => 50_000,
            OutputDataRate::DataRate12_5Hz => 12_500,
            OutputDataRate::DataRate6_25Hz => 6_250,
            OutputDataRate::DataRate1_56Hz => 1_560,
        }
    }

    /// The period of one update cycle, `1 / frequency`, in nanoseconds.
    pub fn update_cycle_nanos(&self) -> (r: u64)
        ensures
            r == self.spec_cycle_nanos(),
            r <= 641_025_641,
    {
        NANOS_PER_SECOND_MILLI / self.update_frequency_millihertz()
    }

    /// The period of one update cycle.
    pub fn update_cycle_duration(&self) -> (r: Duration)
        ensures
            r == duration_from_nanos(self.spec_cycle_nanos()),
    {
        nanos_to_duration(self.update_cycle_nanos())
    }
}

/// An instant, as time elapsed since the Unix epoch.
#[derive(Clone, Copy, Debug, PartialEq, Eq, Structural)]
pub struct Timestamp {
    pub secs: u64,
    pub nanos: u32,
}

/// How a device is reached and set up. Fixed once loaded.
#[derive(Clone, Debug)]
pub struct DeviceConfig {
    /// Path to the I²C device file (e.g. /dev/i2c-1).
    pub i2c_device_file: String,
    /// Bus address of the chip, where it differs from the chip's default.
    pub address: Option<u8>,
    pub chip: SupportedChips,
    /// Full-scale range.
    pub scale: Scale,
    /// Output data rate.
    pub data_rate: OutputDataRate,
}

impl DeviceConfig {
    pub open spec fn spec_address(self, default_chip_address: u8) -> u8 {
        match self.address {
            Some(a) => a,
            None => default_chip_address,
        }
    }

    /// The bus address in use: the configured one, else the chip's default.
    pub fn effective_address(&self, default_chip_address: u8) -> (r: u8)
        ensures
            r == self.spec_address(default_chip_address),
    {
        match self.address {
            Some(a) => a,
            None => default_chip_address,
        }
    }
}

/// Settings of the accelerometer beyond its device; none so far.
pub struct AccelerometerConfig {}

/// Errors of this library.
#[derive(Clone, Debug)]
pub enum AccelerometerError {
    /// A transfer on the I²C bus failed; the text describes the failure.
    I2CBusError(String),
    /// The requested setting is not available on the selected chip.
    NotSupportedByChip,
    /// The chip did not identify itself as expected.
    InvalidInputDataError,
}

pub type AccelerometerResult<T> = Result<T, AccelerometerError>;

} // verus!
