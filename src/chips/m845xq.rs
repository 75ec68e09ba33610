use vstd::arithmetic::div_mod::lemma_hoist_over_denominator;
use vstd::prelude::*;

use crate::bus::{BusOp, Slot};
use crate::chips::{be_i16, MAX_READING};
use crate::config::{AccelerometerError, AccelerometerResult, DeviceConfig, OutputDataRate, Scale};
use crate::value::Value;

verus! {

pub const DEFAULT_I2C_ADDRESS: u8 = 0x1d;
pub const OUT_X_MSB: u8 = 0x01;
pub const XYZ_DATA_CFG: u8 = 0x0e;
pub const CTRL_REG1: u8 = 0x2a;

/// The bit of `CTRL_REG1` that makes the chip active; clear, it stands by.
pub const ACTIVE_BIT: u8 = 0b0000_0001;
/// The bits of `CTRL_REG1` outside the data-rate field (bits 3 to 5).
pub const DATA_RATE_KEEP_MASK: u8 = 0b1100_0111;

/// The chip's bits for a full-scale range, where it has one (not 16 g).
pub open spec fn spec_scale_bits(scale: Scale) -> u8 {
    match scale {
        Scale::TwoG => 0b00,
        Scale::FourG => 0b01,
        _ => 0b10,
    }
}

/// Units of g / 16384 per count: 16384 divided by the counts per g (1024, 512,
/// 256). The chip has no 16 g range, and readings under it decode to zero.
pub open spec fn spec_units_per_count(scale: Scale) -> int {
    match scale {
        Scale::TwoG => 16,
        Scale::FourG => 32,
        Scale::EightG => 64,
        Scale::SixteenG => 0,
    }
}

/// Read-modify-write of `CTRL_REG1` that clears the active bit.
pub open spec fn spec_standby() -> Seq<BusOp> {
    seq![
        BusOp::Read { register: CTRL_REG1, slot: Slot::Latest },
        BusOp::WriteFrom { register: CTRL_REG1, slot: Slot::Latest, mask: !ACTIVE_BIT, bits: 0 },
    ]
}

/// Read-modify-write of `CTRL_REG1` that sets the active bit.
pub open spec fn spec_active() -> Seq<BusOp> {
    seq![
        BusOp::Read { register: CTRL_REG1, slot: Slot::Latest },
        BusOp::WriteFrom { register: CTRL_REG1, slot: Slot::Latest, mask: 0xff, bits: ACTIVE_BIT },
    ]
}

/// Two full update cycles at `rate`.
pub open spec fn spec_delay_for_update(rate: OutputDataRate) -> BusOp {
    BusOp::Delay { nanos: (2 * rate.spec_cycle_nanos()) as u64 }
}

pub open spec fn spec_update_scale(scale: Scale, rate: OutputDataRate) -> Seq<BusOp> {
    spec_standby().push(BusOp::Write { register: XYZ_DATA_CFG, value: spec_scale_bits(scale) })
        + spec_active().push(spec_delay_for_update(rate))
}

/// Reads `CTRL_REG1` once and keeps it; stands by; writes the kept byte with
/// only the data-rate field replaced; reactivates.
pub open spec fn spec_update_data_rate(rate: OutputDataRate) -> Seq<BusOp> {
    seq![BusOp::Read { register: CTRL_REG1, slot: Slot::Saved }] + spec_standby().push(
        BusOp::WriteFrom {
            register: CTRL_REG1,
            slot: Slot::Saved,
            mask: DATA_RATE_KEEP_MASK,
            bits: (rate.spec_code() * 8) as u8,
        },
    ) + spec_active()
}

pub open spec fn spec_init_ops(scale: Scale, rate: OutputDataRate) -> Seq<BusOp> {
    spec_update_scale(scale, rate) + spec_update_data_rate(rate).push(spec_delay_for_update(rate))
}

/// Driver of an MMA845xQ: register updates gated by standby and active modes.
#[derive(Clone, Copy, Debug)]
pub struct M845xQImpl {
    pub address: u8,
    pub scale: Scale,
    pub data_rate: OutputDataRate,
}

impl M845xQImpl {
    /// A 12-bit count left-aligned in two big-endian bytes: the 16-bit value
    /// shifted right by four, sign kept.
    pub open spec fn spec_count(hi: u8, lo: u8) -> int {
        be_i16(hi, lo) / 16
    }

    pub open spec fn spec_axis(self, hi: u8, lo: u8) -> int {
        Self::spec_count(hi, lo) * spec_units_per_count(self.scale)
    }

    pub open spec fn spec_raw(self, d: [u8; 6]) -> Value {
        Value {
            x: self.spec_axis(d@[0], d@[1]) as i64,
            y: self.spec_axis(d@[2], d@[3]) as i64,
            z: self.spec_axis(d@[4], d@[5]) as i64,
        }
    }

    pub fn new(config: &DeviceConfig) -> (r: M845xQImpl)
        ensures
            r.address == config.spec_address(DEFAULT_I2C_ADDRESS),
            r.scale == config.scale,
            r.data_rate == config.data_rate,
    {
        M845xQImpl {
            address: config.effective_address(DEFAULT_I2C_ADDRESS),
            scale: config.scale,
            data_rate: config.data_rate,
        }
    }

    pub fn default_chip_address(&self) -> (r: u8)
        ensures
            r == DEFAULT_I2C_ADDRESS,
    {
        DEFAULT_I2C_ADDRESS
    }

    pub fn read_ctrl_reg1(&self, slot: Slot) -> (r: BusOp)
        ensures
            r == (BusOp::Read { register: CTRL_REG1, slot }),
    {
        BusOp::Read { register: CTRL_REG1, slot }
    }

    /// Writes `(kept & mask) | bits` to `CTRL_REG1`, `kept` being the byte in `slot`.
    pub fn write_ctrl_reg1(&self, slot: Slot, mask: u8, bits: u8) -> (r: BusOp)
        ensures
            r == (BusOp::WriteFrom { register: CTRL_REG1, slot, mask, bits }),
    {
        BusOp::WriteFrom { register: CTRL_REG1, slot, mask, bits }
    }

    pub fn write_xyz_data_cfg(&self, value: u8) -> (r: BusOp)
        ensures
            r == (BusOp::Write { register: XYZ_DATA_CFG, value }),
    {
        BusOp::Write { register: XYZ_DATA_CFG, value }
    }

    pub fn standby(&self) -> (r: Vec<BusOp>)
        ensures
            r@ == spec_standby(),
    {
        let r = vec![
            self.read_ctrl_reg1(Slot::Latest),
            self.write_ctrl_reg1(Slot::Latest, !ACTIVE_BIT, 0),
        ];
        assert(r@ =~= spec_standby());
        r
    }

    pub fn active(&self) -> (r: Vec<BusOp>)
        ensures
            r@ == spec_active(),
    {
        let r = vec![
            self.read_ctrl_reg1(Slot::Latest),
            self.write_ctrl_reg1(Slot::Latest, 0xff, ACTIVE_BIT),
        ];
        assert(r@ =~= spec_active());
        r
    }

    /// Waits two full update cycles: one is not enough for the chip to settle.
    pub fn delay_for_update(&self) -> (r: BusOp)
        ensures
            r == spec_delay_for_update(self.data_rate),
    {
        let cycle = self.data_rate.update_cycle_nanos();
        BusOp::Delay { nanos: 2 * cycle }
    }

    /// Sets the full-scale range. 16 g fails before any step is issued.
    pub fn update_scale(&self) -> (r: AccelerometerResult<Vec<BusOp>>)
        ensures
            self.scale == Scale::SixteenG ==> r matches Err(AccelerometerError::NotSupportedByChip),
            self.scale != Scale::SixteenG ==> (r matches Ok(ops) && ops@ == spec_update_scale(
                self.scale,
                self.data_rate,
            )),
    {
        let scale_bits: u8 = match self.scale {
            Scale::TwoG => 0b00,
            Scale::FourG => 0b01,
            Scale::EightG => 0b10,
            Scale::SixteenG => {
                return Err(AccelerometerError::NotSupportedByChip);
            },
        };
        let mut r = self.standby();
        r.push(self.write_xyz_data_cfg(scale_bits));
        let mut a = self.active();
        r.append(&mut a);
        r.push(self.delay_for_update());
        proof {
            assert(r@ =~= spec_update_scale(self.scale, self.data_rate));
        }
        Ok(r)
    }

    /// Sets the output data rate, leaving the other bits of `CTRL_REG1` as
    /// they were.
    pub fn update_data_rate(&self) -> (r: Vec<BusOp>)
        ensures
            r@ == spec_update_data_rate(self.data_rate),
    {
        let bits = self.data_rate.code() * 8;
        let mut r = vec![self.read_ctrl_reg1(Slot::Saved)];
        let mut s = self.standby();
        r.append(&mut s);
        r.push(self.write_ctrl_reg1(Slot::Saved, DATA_RATE_KEEP_MASK, bits));
        let mut a = self.active();
        r.append(&mut a);
        proof {
            assert(r@ =~= spec_update_data_rate(self.data_rate));
        }
        r
    }

    /// The whole set-up protocol: scale, data rate, then a settle time.
    pub fn init_ops(&self) -> (r: AccelerometerResult<Vec<BusOp>>)
        ensures
            self.scale == Scale::SixteenG ==> r matches Err(AccelerometerError::NotSupportedByChip),
            self.scale != Scale::SixteenG ==> (r matches Ok(ops) && ops@ == spec_init_ops(
                self.scale,
                self.data_rate,
            )),
    {
        let mut r = match self.update_scale() {
            Ok(ops) => ops,
            Err(e) => {
                return Err(e);
            },
        };
        let mut d = self.update_data_rate();
        r.append(&mut d);
        r.push(self.delay_for_update());
        proof {
            assert(r@ =~= spec_init_ops(self.scale, self.data_rate));
        }
        Ok(r)
    }

    fn units_per_count(&self) -> (r: i64)
        ensures
            r == spec_units_per_count(self.scale),
    {
        match self.scale {
            Scale::TwoG => 16,
            Scale::FourG => 32,
            Scale::EightG => 64,
            Scale::SixteenG => 0,
        }
    }

    fn count(hi: u8, lo: u8) -> (r: i64)
        ensures
            r == Self::spec_count(hi, lo),
            -2048 <= r < 2048,
    {
        let u: i64 = hi as i64 * 256 + lo as i64;
        let t: i64 = u / 16;
        proof {
            if hi >= 128 {
                lemma_hoist_over_denominator(u - 65536, 4096, 16);
            }
        }
        if t >= 2048 {
            t - 4096
        } else {
            t
        }
    }

    fn to_units(&self, hi: u8, lo: u8) -> (r: i64)
        ensures
            r == self.spec_axis(hi, lo),
            -MAX_READING <= r <= MAX_READING,
    {
        Self::count(hi, lo) * self.units_per_count()
    }

    /// Decodes a burst of six bytes read from `OUT_X_MSB`.
    pub fn raw_measurement(&self, data: &[u8; 6]) -> (r: Value)
        ensures
            r == self.spec_raw(*data),
            -MAX_READING <= r.x <= MAX_READING,
            -MAX_READING <= r.y <= MAX_READING,
            -MAX_READING <= r.z <= MAX_READING,
    {
        Value {
            x: self.to_units(data[0], data[1]),
            y: self.to_units(data[2], data[3]),
            z: self.to_units(data[4], data[5]),
        }
    }
}

} // verus!
