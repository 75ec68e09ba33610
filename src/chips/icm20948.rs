use vstd::prelude::*;

use crate::bus::{BusOp, Slot};
use crate::chips::{be_i16, i16_from_be, MAX_READING};
use crate::config::{DeviceConfig, Scale};
use crate::value::Value;

verus! {

pub const DEFAULT_I2C_ADDRESS: u8 = 0x68;

pub const WHO_AM_I: u8 = 0x00;
pub const PWR_MGMT_1: u8 = 0x06;
pub const ACCEL_CFG: u8 = 0x14;
pub const ACCEL_XOUT_H: u8 = 0x2d;
pub const REG_BANK_SEL: u8 = 0x7f;

pub const WHO_SHOULD_I_BE: u8 = 0xea;
pub const USER_BANK_0: u8 = 0b0000_0000;
pub const USER_BANK_2: u8 = 0b0010_0000;

pub const PWR_MGMT_1_RESET_BITS: u8 = 0b1000_0000;
pub const PWR_MGMT_1_ENABLE_BITS: u8 = 0b0000_0001;

/// Low-pass filter setting (mode 6) and the bit that enables the filter; the
/// driver never varies them.
pub const ACCEL_FILTER_BITS: u8 = 0b0011_0001;

/// Settle time after each register write, after the reset, and between the
/// samples of an average.
pub const SETTLE_NANOS: u64 = 100_000_000;

/// The chip's bits for a full-scale range, in its acceleration config register.
pub open spec fn spec_scale_bits(scale: Scale) -> u8 {
    match scale {
        Scale::TwoG => 0b000,
        Scale::FourG => 0b010,
        Scale::EightG => 0b100,
        Scale::SixteenG => 0b110,
    }
}

/// Units of g / 16384 per count: 16384 divided by the counts per g (16384,
/// 8192, 4096, 2048).
pub open spec fn spec_units_per_count(scale: Scale) -> int {
    match scale {
        Scale::TwoG => 1,
        Scale::FourG => 2,
        Scale::EightG => 4,
        Scale::SixteenG => 8,
    }
}

/// A register write: the write, a settle time, and a read-back of the register.
pub open spec fn spec_write_register(register: u8, value: u8) -> Seq<BusOp> {
    seq![
        BusOp::Write { register, value },
        BusOp::Delay { nanos: SETTLE_NANOS },
        BusOp::Read { register, slot: Slot::Latest },
    ]
}

pub open spec fn spec_select_user_bank(bank: u8) -> Seq<BusOp> {
    spec_write_register(REG_BANK_SEL, bank)
}

pub open spec fn spec_verify_identity() -> Seq<BusOp> {
    spec_select_user_bank(USER_BANK_0).push(BusOp::Expect { register: WHO_AM_I, value: WHO_SHOULD_I_BE })
}

pub open spec fn spec_reset() -> Seq<BusOp> {
    spec_select_user_bank(USER_BANK_0) + spec_write_register(PWR_MGMT_1, PWR_MGMT_1_RESET_BITS)
}

pub open spec fn spec_enable() -> Seq<BusOp> {
    spec_select_user_bank(USER_BANK_0) + spec_write_register(PWR_MGMT_1, PWR_MGMT_1_ENABLE_BITS)
}

pub open spec fn spec_update_scale(scale: Scale) -> Seq<BusOp> {
    spec_select_user_bank(USER_BANK_2) + spec_write_register(
        ACCEL_CFG,
        spec_scale_bits(scale) | ACCEL_FILTER_BITS,
    )
}

/// Set-up: verify identity, reset, settle, enable, configure the scale, and go
/// back to bank 0, which every later read assumes.
pub open spec fn spec_init_ops(scale: Scale) -> Seq<BusOp> {
    spec_verify_identity() + spec_reset().push(BusOp::Delay { nanos: SETTLE_NANOS }) + spec_enable()
        + spec_update_scale(scale) + spec_select_user_bank(USER_BANK_0)
}

/// Driver of an ICM-20948: a bank-selected register map.
#[derive(Clone, Copy, Debug)]
pub struct Icm20948Impl {
    pub address: u8,
    pub scale: Scale,
}

impl Icm20948Impl {
    /// One axis of a reading: big-endian two's complement, scaled to units.
    pub open spec fn spec_axis(self, hi: u8, lo: u8) -> int {
        be_i16(hi, lo) * spec_units_per_count(self.scale)
    }

    pub open spec fn spec_raw(self, d: [u8; 6]) -> Value {
        Value {
            x: self.spec_axis(d@[0], d@[1]) as i64,
            y: self.spec_axis(d@[2], d@[3]) as i64,
            z: self.spec_axis(d@[4], d@[5]) as i64,
        }
    }

    pub fn new(config: &DeviceConfig) -> (r: Icm20948Impl)
        ensures
            r.address == config.spec_address(DEFAULT_I2C_ADDRESS),
            r.scale == config.scale,
    {
        Icm20948Impl { address: config.effective_address(DEFAULT_I2C_ADDRESS), scale: config.scale }
    }

    pub fn default_chip_address(&self) -> (r: u8)
        ensures
            r == DEFAULT_I2C_ADDRESS,
    {
        DEFAULT_I2C_ADDRESS
    }

    fn scale_bits(&self) -> (r: u8)
        ensures
            r == spec_scale_bits(self.scale),
    {
        match self.scale {
            Scale::TwoG => 0b000,
            Scale::FourG => 0b010,
            Scale::EightG => 0b100,
            Scale::SixteenG => 0b110,
        }
    }

    fn units_per_count(&self) -> (r: i64)
        ensures
            r == spec_units_per_count(self.scale),
    {
        match self.scale {
            Scale::TwoG => 1,
            Scale::FourG => 2,
            Scale::EightG => 4,
            Scale::SixteenG => 8,
        }
    }

    pub fn write_register(&self, register: u8, value: u8) -> (r: Vec<BusOp>)
        ensures
            r@ == spec_write_register(register, value),
    {
        let r = vec![
            BusOp::Write { register, value },
            BusOp::Delay { nanos: SETTLE_NANOS },
            BusOp::Read { register, slot: Slot::Latest },
        ];
        assert(r@ =~= spec_write_register(register, value));
        r
    }

    pub fn select_user_bank(&self, bank: u8) -> (r: Vec<BusOp>)
        ensures
            r@ == spec_select_user_bank(bank),
    {
        self.write_register(REG_BANK_SEL, bank)
    }

    pub fn verify_identity(&self) -> (r: Vec<BusOp>)
        ensures
            r@ == spec_verify_identity(),
    {
        let mut r = self.select_user_bank(USER_BANK_0);
        r.push(BusOp::Expect { register: WHO_AM_I, value: WHO_SHOULD_I_BE });
        r
    }

    pub fn reset(&self) -> (r: Vec<BusOp>)
        ensures
            r@ == spec_reset(),
    {
        let mut r = self.select_user_bank(USER_BANK_0);
        let mut w = self.write_register(PWR_MGMT_1, PWR_MGMT_1_RESET_BITS);
        r.append(&mut w);
        r
    }

    pub fn enable(&self) -> (r: Vec<BusOp>)
        ensures
            r@ == spec_enable(),
    {
        let mut r = self.select_user_bank(USER_BANK_0);
        let mut w = self.write_register(PWR_MGMT_1, PWR_MGMT_1_ENABLE_BITS);
        r.append(&mut w);
        r
    }

    pub fn update_scale(&self) -> (r: Vec<BusOp>)
        ensures
            r@ == spec_update_scale(self.scale),
    {
        let value = self.scale_bits() | ACCEL_FILTER_BITS;
        let mut r = self.select_user_bank(USER_BANK_2);
        let mut w = self.write_register(ACCEL_CFG, value);
        r.append(&mut w);
        r
    }

    /// The whole set-up protocol.
    pub fn init_ops(&self) -> (r: Vec<BusOp>)
        ensures
            r@ == spec_init_ops(self.scale),
    {
        let mut r = self.verify_identity();
        let mut reset = self.reset();
        r.append(&mut reset);
        r.push(BusOp::Delay { nanos: SETTLE_NANOS });
        let mut enable = self.enable();
        r.append(&mut enable);
        let mut scale = self.update_scale();
        r.append(&mut scale);
        let mut bank = self.select_user_bank(USER_BANK_0);
        r.append(&mut bank);
        r
    }

    fn to_units(&self, hi: u8, lo: u8) -> (r: i64)
        ensures
            r == self.spec_axis(hi, lo),
            -MAX_READING <= r <= MAX_READING,
    {
        let count = i16_from_be(hi, lo);
        count as i64 * self.units_per_count()
    }

    /// Decodes a burst of six bytes read from `ACCEL_XOUT_H`.
    pub fn raw_measurement(&self, data: &[u8; 6]) -> (r: Value)
        ensures
            r == self.spec_raw(*data),
            -MAX_READING <= r.x <= MAX_READING,
            -MAX_READING <= r.y <= MAX_READING,
            -MAX_READING <= r.z <= MAX_READING,
    {
        Value {
            x: self.to_units(data[0], data[1]),
            y: self.to_units(data[2], data[3]),
            z: self.to_units(data[4], data[5]),
        }
    }
}

/// Whether `op` writes to `register`.
pub open spec fn writes_to(op: BusOp, register: u8) -> bool {
    match op {
        BusOp::Write { register: r, value } => r == register,
        BusOp::WriteFrom { register: r, slot, mask, bits } => r == register,
        _ => false,
    }
}

/// The identity check is the fourth step of the set-up, and every step before
/// it touches only the bank-select register: a chip that fails the check has
/// seen no reset, enable or scale write.
pub proof fn lemma_identity_checked_first(scale: Scale)
    ensures
        spec_init_ops(scale).len() > 3,
        spec_init_ops(scale)[3] == (BusOp::Expect { register: WHO_AM_I, value: WHO_SHOULD_I_BE }),
        forall|i: int|
            0 <= i < 3 ==> !writes_to(#[trigger] spec_init_ops(scale)[i], PWR_MGMT_1) && !writes_to(
                spec_init_ops(scale)[i],
                ACCEL_CFG,
            ),
{
    let ops = spec_init_ops(scale);
    let v = spec_verify_identity();
    assert(ops[0] == v[0] && ops[1] == v[1] && ops[2] == v[2] && ops[3] == v[3]);
}

} // verus!
