use vstd::prelude::*;

use crate::chips::{within_reading, AccelerometerChip};
use crate::config::{AccelerometerError, AccelerometerResult, DeviceConfig, Timestamp};
use crate::value::{spec_average, Value};

verus! {

/// Number of readings averaged into a zero offset.
pub const ZERO_SAMPLE_COUNT: usize = 5;

/// An acceleration taken at one instant.
#[derive(Clone, Copy, Debug, PartialEq, Eq, Structural)]
pub struct AccelerometerMeasurement {
    /// When the measurement was taken.
    pub time: Timestamp,
    /// Acceleration, in units of g / 16384.
    pub acceleration: Value,
    /// Estimated velocity; never estimated so far.
    pub estimated_velocity: Option<Value>,
}

impl AccelerometerMeasurement {
    pub open spec fn spec_new_default(time: Timestamp) -> AccelerometerMeasurement {
        AccelerometerMeasurement { time, acceleration: Value::zero(), estimated_velocity: None }
    }

    /// A zero acceleration at `time`.
    pub fn new_default(time: Timestamp) -> (r: AccelerometerMeasurement)
        ensures
            r == Self::spec_new_default(time),
    {
        AccelerometerMeasurement {
            time,
            acceleration: Value { x: 0, y: 0, z: 0 },
            estimated_velocity: None,
        }
    }
}

/// A raw value with the zero offset taken off, where one is set.
pub open spec fn spec_calibrated(raw: Value, zero: Option<Value>) -> Value {
    match zero {
        Some(z) => raw.spec_sub(z),
        None => raw,
    }
}

/// A driver together with its zero offset and its latest measurement.
pub struct Accelerometer {
    chip: AccelerometerChip,
    previous_measurement: AccelerometerMeasurement,
    zero: Option<Value>,
}

impl Accelerometer {
    pub closed spec fn spec_chip(self) -> AccelerometerChip {
        self.chip
    }

    pub closed spec fn spec_zero(self) -> Option<Value> {
        self.zero
    }

    pub closed spec fn spec_previous(self) -> AccelerometerMeasurement {
        self.previous_measurement
    }

    /// A zero offset, once set, is an average of readings, so within their range.
    pub open spec fn wf(self) -> bool {
        match self.spec_zero() {
            Some(z) => within_reading(z),
            None => true,
        }
    }

    /// An accelerometer driving the chip that `config` names, with no zero
    /// offset; its previous measurement is a zero sample at `now`.
    pub fn new(config: &DeviceConfig, now: Timestamp) -> (r: Accelerometer)
        ensures
            r.wf(),
            r.spec_chip() == config.chip.spec_new(*config),
            r.spec_zero() is None,
            r.spec_previous() == AccelerometerMeasurement::spec_new_default(now),
    {
        Accelerometer {
            chip: config.chip.new(config),
            previous_measurement: AccelerometerMeasurement::new_default(now),
            zero: None,
        }
    }

    pub fn chip(&self) -> (r: &AccelerometerChip)
        ensures
            *r == self.spec_chip(),
    {
        &self.chip
    }

    pub fn zero(&self) -> (r: Option<Value>)
        ensures
            r == self.spec_zero(),
    {
        self.zero
    }

    pub fn previous_measurement(&self) -> (r: AccelerometerMeasurement)
        ensures
            r == self.spec_previous(),
    {
        self.previous_measurement
    }

    /// Sets the zero offset to the average of `ZERO_SAMPLE_COUNT` readings and
    /// returns it. A failed read (`Err`) leaves the old offset in place.
    pub fn auto_set_zero(&mut self, readings: Result<Vec<[u8; 6]>, String>) -> (r:
        AccelerometerResult<Value>)
        requires
            old(self).wf(),
            readings matches Ok(rs) ==> rs@.len() == ZERO_SAMPLE_COUNT,
        ensures
            final(self).wf(),
            final(self).spec_chip() == old(self).spec_chip(),
            final(self).spec_previous() == old(self).spec_previous(),
            match readings {
                Ok(rs) => r == Ok::<Value, AccelerometerError>(
                    spec_average(old(self).spec_chip().spec_decoded(rs@)),
                ) && final(self).spec_zero() == Some(
                    spec_average(old(self).spec_chip().spec_decoded(rs@)),
                ),
                Err(e) => r == Err::<Value, AccelerometerError>(
                    AccelerometerError::I2CBusError(e),
                ) && final(self).spec_zero() == old(self).spec_zero(),
            },
    {
        match readings {
            Ok(rs) => {
                let avg = self.chip.average(&rs);
                self.zero = Some(avg);
                Ok(avg)
            },
            Err(e) => Err(AccelerometerError::I2CBusError(e)),
        }
    }

    fn get_calibrated_sample(&self, raw: Value) -> (r: Value)
        requires
            self.wf(),
            within_reading(raw),
        ensures
            r == spec_calibrated(raw, self.spec_zero()),
    {
        match self.zero {
            Some(z) => raw.sub(&z),
            None => raw,
        }
    }

    /// The calibrated acceleration of one burst `reading`, taken at `now`; it
    /// also becomes the previous measurement. A failed read (`Err`) changes
    /// nothing.
    pub fn measurement(&mut self, reading: Result<[u8; 6], String>, now: Timestamp) -> (r:
        AccelerometerResult<AccelerometerMeasurement>)
        requires
            old(self).wf(),
        ensures
            final(self).wf(),
            final(self).spec_chip() == old(self).spec_chip(),
            final(self).spec_zero() == old(self).spec_zero(),
            match reading {
                Ok(d) => r == Ok::<AccelerometerMeasurement, AccelerometerError>(
                    AccelerometerMeasurement {
                        time: now,
                        acceleration: spec_calibrated(
                            old(self).spec_chip().spec_raw(d),
                            old(self).spec_zero(),
                        ),
                        estimated_velocity: None,
                    },
                ) && final(self).spec_previous() == r->Ok_0,
                Err(e) => r == Err::<AccelerometerMeasurement, AccelerometerError>(
                    AccelerometerError::I2CBusError(e),
                ) && final(self).spec_previous() == old(self).spec_previous(),
            },
    {
        match reading {
            Ok(d) => {
                let raw = self.chip.raw_measurement(&d);
                let value = self.get_calibrated_sample(raw);
                let update = AccelerometerMeasurement {
                    time: now,
                    acceleration: value,
                    estimated_velocity: None,
                };
                self.previous_measurement = update;
                Ok(update)
            },
            Err(e) => Err(AccelerometerError::I2CBusError(e)),
        }
    }
}

/// Once a zero offset `z` is set, a measurement is the raw value minus `z`.
pub proof fn lemma_measurement_after_zero(raw: Value, z: Value)
    ensures
        spec_calibrated(raw, Some(z)) == raw.spec_sub(z),
{
}

/// With no zero offset set, a measurement is the raw value unchanged.
pub proof fn lemma_measurement_without_zero(raw: Value)
    ensures
        spec_calibrated(raw, None) == raw,
{
}

} // verus!
