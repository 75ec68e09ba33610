use vstd::prelude::*;

use crate::bus::BusOp;
use crate::config::{AccelerometerResult, DeviceConfig, Scale, SupportedChips};
use crate::value::{all_within, lemma_mean_bounds, lemma_total_bounds, spec_average, total, Value};

pub mod icm20948;
pub mod m845xq;

pub use icm20948::Icm20948Impl;
pub use m845xq::M845xQImpl;

verus! {

/// Largest magnitude, in units of g / 16384, of an axis that either chip can
/// report.
pub const MAX_READING: i64 = 262_144;

/// A big-endian two's complement 16-bit integer.
pub open spec fn be_i16(hi: u8, lo: u8) -> int {
    if hi < 128 {
        hi * 256 + lo
    } else {
        hi * 256 + lo - 65536
    }
}

pub fn i16_from_be(hi: u8, lo: u8) -> (r: i32)
    ensures
        r == be_i16(hi, lo),
        -32768 <= r < 32768,
{
    let u: i32 = hi as i32 * 256 + lo as i32;
    if hi < 128 {
        u
    } else {
        u - 65536
    }
}

/// Every axis of `v` is one that a chip can report.
pub open spec fn within_reading(v: Value) -> bool {
    -MAX_READING <= v.x <= MAX_READING && -MAX_READING <= v.y <= MAX_READING && -MAX_READING <= v.z
        <= MAX_READING
}

/// A driver of one of the supported chips.
#[derive(Clone, Copy, Debug)]
pub enum AccelerometerChip {
    M845xQ(M845xQImpl),
    ICM20948(Icm20948Impl),
}

impl SupportedChips {
    pub open spec fn spec_new(self, config: DeviceConfig) -> AccelerometerChip {
        match self {
            SupportedChips::M845xQ => AccelerometerChip::M845xQ(
                M845xQImpl {
                    address: config.spec_address(m845xq::DEFAULT_I2C_ADDRESS),
                    scale: config.scale,
                    data_rate: config.data_rate,
                },
            ),
            SupportedChips::ICM20948 => AccelerometerChip::ICM20948(
                Icm20948Impl {
                    address: config.spec_address(icm20948::DEFAULT_I2C_ADDRESS),
                    scale: config.scale,
                },
            ),
        }
    }

    /// The driver of this chip, set up as `config` says.
    pub fn new(&self, config: &DeviceConfig) -> (r: AccelerometerChip)
        ensures
            r == self.spec_new(*config),
    {
        match self {
            SupportedChips::M845xQ => AccelerometerChip::M845xQ(M845xQImpl::new(config)),
            SupportedChips::ICM20948 => AccelerometerChip::ICM20948(Icm20948Impl::new(config)),
        }
    }
}

impl AccelerometerChip {
    pub open spec fn spec_raw(self, d: [u8; 6]) -> Value {
        match self {
            AccelerometerChip::M845xQ(c) => c.spec_raw(d),
            AccelerometerChip::ICM20948(c) => c.spec_raw(d),
        }
    }

    /// The decoded values of a run of bursts.
    pub open spec fn spec_decoded(self, readings: Seq<[u8; 6]>) -> Seq<Value> {
        readings.map_values(|d: [u8; 6]| self.spec_raw(d))
    }

    pub open spec fn spec_address(self) -> u8 {
        match self {
            AccelerometerChip::M845xQ(c) => c.address,
            AccelerometerChip::ICM20948(c) => c.address,
        }
    }

    pub open spec fn spec_measurement_register(self) -> u8 {
        match self {
            AccelerometerChip::M845xQ(c) => m845xq::OUT_X_MSB,
            AccelerometerChip::ICM20948(c) => icm20948::ACCEL_XOUT_H,
        }
    }

    pub open spec fn spec_settle_nanos(self) -> u64 {
        match self {
            AccelerometerChip::M845xQ(c) => (2 * c.data_rate.spec_cycle_nanos()) as u64,
            AccelerometerChip::ICM20948(c) => icm20948::SETTLE_NANOS,
        }
    }

    pub fn default_chip_address(&self) -> (r: u8)
        ensures
            self is M845xQ ==> r == m845xq::DEFAULT_I2C_ADDRESS,
            self is ICM20948 ==> r == icm20948::DEFAULT_I2C_ADDRESS,
    {
        match self {
            AccelerometerChip::M845xQ(c) => c.default_chip_address(),
            AccelerometerChip::ICM20948(c) => c.default_chip_address(),
        }
    }

    /// The bus address that the driver talks to.
    pub fn address(&self) -> (r: u8)
        ensures
            r == self.spec_address(),
    {
        match self {
            AccelerometerChip::M845xQ(c) => c.address,
            AccelerometerChip::ICM20948(c) => c.address,
        }
    }

    /// The set-up protocol, to be run to the end before any reading is taken.
    pub fn init_ops(&self) -> (r: AccelerometerResult<Vec<BusOp>>)
        ensures
            match self {
                AccelerometerChip::M845xQ(c) => if c.scale == Scale::SixteenG {
                    r matches Err(crate::config::AccelerometerError::NotSupportedByChip)
                } else {
                    r matches Ok(ops) && ops@ == m845xq::spec_init_ops(c.scale, c.data_rate)
                },
                AccelerometerChip::ICM20948(c) => r matches Ok(ops) && ops@
                    == icm20948::spec_init_ops(c.scale),
            },
    {
        match self {
            AccelerometerChip::M845xQ(c) => c.init_ops(),
            AccelerometerChip::ICM20948(c) => Ok(c.init_ops()),
        }
    }

    /// The register at which a six-byte burst of x, y and z starts.
    pub fn measurement_register(&self) -> (r: u8)
        ensures
            r == self.spec_measurement_register(),
    {
        match self {
            AccelerometerChip::M845xQ(c) => m845xq::OUT_X_MSB,
            AccelerometerChip::ICM20948(c) => icm20948::ACCEL_XOUT_H,
        }
    }

    /// The wait after each sample of an average, so that the next one reads a
    /// fresh value.
    pub fn settle_nanos(&self) -> (r: u64)
        ensures
            r == self.spec_settle_nanos(),
    {
        match self {
            AccelerometerChip::M845xQ(c) => {
                let cycle = c.data_rate.update_cycle_nanos();
                2 * cycle
            },
            AccelerometerChip::ICM20948(c) => icm20948::SETTLE_NANOS,
        }
    }

    /// Decodes a six-byte burst into an acceleration.
    pub fn raw_measurement(&self, data: &[u8; 6]) -> (r: Value)
        ensures
            r == self.spec_raw(*data),
            within_reading(r),
    {
        match self {
            AccelerometerChip::M845xQ(c) => c.raw_measurement(data),
            AccelerometerChip::ICM20948(c) => c.raw_measurement(data),
        }
    }

    /// The mean of the decoded bursts `readings`.
    pub fn average(&self, readings: &Vec<[u8; 6]>) -> (r: Value)
        ensures
            r == spec_average(self.spec_decoded(readings@)),
            within_reading(r),
    {
        let mut decoded: Vec<Value> = Vec::new();
        let mut i: usize = 0;
        while i < readings.len()
            invariant
                0 <= i <= readings@.len(),
                decoded@ == self.spec_decoded(readings@.subrange(0, i as int)),
                all_within(decoded@, -MAX_READING as int, MAX_READING as int),
            decreases readings@.len() - i,
        {
            let v = self.raw_measurement(&readings[i]);
            let ghost before = decoded@;
            decoded.push(v);
            proof {
                assert(self.spec_decoded(readings@.subrange(0, i + 1)) =~= self.spec_decoded(
                    readings@.subrange(0, i as int),
                ).push(v));
                assert forall|k: int, axis: int|
                    0 <= k < decoded@.len() && 0 <= axis < 3 implies -MAX_READING
                    <= #[trigger] decoded@[k].component(axis) <= MAX_READING by {
                    if k < decoded@.len() - 1 {
                        assert(decoded@[k] == before[k]);
                    }
                }
            }
            i = i + 1;
        }
        proof {
            assert(readings@.subrange(0, readings@.len() as int) =~= readings@);
            if decoded@.len() > 0 {
                let n = decoded@.len() as int;
                lemma_total_bounds(decoded@, 0, -MAX_READING as int, MAX_READING as int);
                lemma_total_bounds(decoded@, 1, -MAX_READING as int, MAX_READING as int);
                lemma_total_bounds(decoded@, 2, -MAX_READING as int, MAX_READING as int);
                lemma_mean_bounds(total(decoded@, 0), n, -MAX_READING as int, MAX_READING as int);
                lemma_mean_bounds(total(decoded@, 1), n, -MAX_READING as int, MAX_READING as int);
                lemma_mean_bounds(total(decoded@, 2), n, -MAX_READING as int, MAX_READING as int);
            }
        }
        Value::average(&decoded)
    }
}

} // verus!
