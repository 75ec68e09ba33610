use std::time::Duration;

use accelerometer::chips::{icm20948, m845xq};
use accelerometer::{
    AccelerometerChip, AccelerometerError, BusOp, BusRequest, DeviceConfig, OutputDataRate, Scale,
    Session, SupportedChips, Value,
};

const G_METERS_PER_SECOND: f64 = 9.81;

fn config(chip: SupportedChips, scale: Scale, data_rate: OutputDataRate) -> DeviceConfig {
    DeviceConfig {
        i2c_device_file: String::from("/dev/i2c-1"),
        address: None,
        chip,
        scale,
        data_rate,
    }
}

/// A register file standing in for a chip, with a log of what the protocol did.
struct MockBus {
    registers: [u8; 256],
    writes: Vec<(u8, u8)>,
    reads: Vec<u8>,
    delays: Vec<u64>,
    fail_on_write: Option<usize>,
}

impl MockBus {
    fn new() -> Self {
        MockBus {
            registers: [0; 256],
            writes: Vec::new(),
            reads: Vec::new(),
            delays: Vec::new(),
            fail_on_write: None,
        }
    }

    fn run(&mut self, ops: Vec<BusOp>) -> Result<(), AccelerometerError> {
        let mut session = Session::new(ops);
        loop {
            match session.request() {
                BusRequest::Write { register, value } => {
                    if self.fail_on_write == Some(self.writes.len()) {
                        return session.complete_write(Err(String::from("bus down")));
                    }
                    self.registers[register as usize] = value;
                    self.writes.push((register, value));
                    session.complete_write(Ok(()))?;
                }
                BusRequest::Read { register } => {
                    self.reads.push(register);
                    session.complete_read(Ok(self.registers[register as usize]))?;
                }
                BusRequest::Delay { nanos } => {
                    self.delays.push(nanos);
                    session.complete_delay();
                }
                BusRequest::Finished => {
                    assert!(session.succeeded());
                    return Ok(());
                }
            }
        }
    }
}

fn to_meters_per_second(units: i64) -> f64 {
    units as f64 * (G_METERS_PER_SECOND / 16384.0)
}

#[test]
fn chip_a_two_g_decodes_one_g() {
    let chip = SupportedChips::ICM20948.new(&config(
        SupportedChips::ICM20948,
        Scale::TwoG,
        OutputDataRate::DataRate50Hz,
    ));
    // 16384 on x, 0 on y and z
    let v = chip.raw_measurement(&[0x40, 0x00, 0, 0, 0, 0]);
    assert_eq!(v, Value { x: 16384, y: 0, z: 0 });
    assert_eq!(to_meters_per_second(v.x), 9.81);
    assert_eq!(to_meters_per_second(v.y), 0.0);
}

#[test]
fn chip_a_scales_and_signs() {
    let burst = [0xff, 0xff, 0x80, 0x00, 0x7f, 0xff];
    let expected = [
        (Scale::TwoG, 1),
        (Scale::FourG, 2),
        (Scale::EightG, 4),
        (Scale::SixteenG, 8),
    ];
    for (scale, k) in expected {
        let chip = SupportedChips::ICM20948.new(&config(
            SupportedChips::ICM20948,
            scale,
            OutputDataRate::DataRate50Hz,
        ));
        let v = chip.raw_measurement(&burst);
        assert_eq!(v, Value { x: -k, y: -32768 * k, z: 32767 * k });
    }
}

#[test]
fn chip_b_two_g_decodes_one_g() {
    let chip = SupportedChips::M845xQ.new(&config(
        SupportedChips::M845xQ,
        Scale::TwoG,
        OutputDataRate::DataRate50Hz,
    ));
    // a count of 1024, left-aligned by four bits
    let v = chip.raw_measurement(&[0x40, 0x00, 0, 0, 0, 0]);
    assert_eq!(v.x, 16384);
    assert_eq!(to_meters_per_second(v.x), 9.81);
}

#[test]
fn chip_b_shifts_with_sign() {
    let burst = [0xff, 0xf0, 0x80, 0x00, 0x00, 0x1f];
    let expected = [(Scale::TwoG, 16), (Scale::FourG, 32), (Scale::EightG, 64)];
    for (scale, k) in expected {
        let chip = SupportedChips::M845xQ.new(&config(
            SupportedChips::M845xQ,
            scale,
            OutputDataRate::DataRate50Hz,
        ));
        let v = chip.raw_measurement(&burst);
        assert_eq!(v, Value { x: -k, y: -2048 * k, z: k });
    }
}

#[test]
fn chip_average_is_mean_of_readings() {
    let chip = SupportedChips::ICM20948.new(&config(
        SupportedChips::ICM20948,
        Scale::FourG,
        OutputDataRate::DataRate50Hz,
    ));
    let readings = vec![
        [0x00, 0x01, 0x00, 0x10, 0xff, 0xff],
        [0x00, 0x02, 0x00, 0x20, 0xff, 0xfe],
        [0x00, 0x06, 0x00, 0x30, 0xff, 0xfd],
    ];
    let avg = chip.average(&readings);
    assert_eq!(avg, Value { x: 6, y: 64, z: -4 });
    let decoded: Vec<Value> = readings.iter().map(|d| chip.raw_measurement(d)).collect();
    assert_eq!(avg, Value::average(&decoded));
}

#[test]
fn addresses() {
    let mut c = config(SupportedChips::M845xQ, Scale::TwoG, OutputDataRate::DataRate50Hz);
    assert_eq!(SupportedChips::M845xQ.new(&c).address(), 0x1d);
    assert_eq!(SupportedChips::ICM20948.new(&c).address(), 0x68);
    assert_eq!(SupportedChips::ICM20948.new(&c).default_chip_address(), 0x68);
    c.address = Some(0x42);
    assert_eq!(SupportedChips::M845xQ.new(&c).address(), 0x42);
    assert_eq!(SupportedChips::M845xQ.new(&c).default_chip_address(), 0x1d);
    assert_eq!(c.effective_address(0x1d), 0x42);
}

#[test]
fn measurement_registers() {
    let c = config(SupportedChips::M845xQ, Scale::TwoG, OutputDataRate::DataRate50Hz);
    assert_eq!(SupportedChips::M845xQ.new(&c).measurement_register(), 0x01);
    assert_eq!(SupportedChips::ICM20948.new(&c).measurement_register(), 0x2d);
}

#[test]
fn cycle_durations() {
    assert_eq!(
        OutputDataRate::DataRate800Hz.update_cycle_duration(),
        Duration::from_nanos(1_250_000)
    );
    assert_eq!(
        OutputDataRate::DataRate50Hz.update_cycle_duration(),
        Duration::from_millis(20)
    );
    assert_eq!(OutputDataRate::DataRate1_56Hz.update_cycle_nanos(), 641_025_641);
    assert_eq!(OutputDataRate::DataRate12_5Hz.update_cycle_nanos(), 80_000_000);
    assert_eq!(OutputDataRate::default(), OutputDataRate::DataRate50Hz);
    assert_eq!(Scale::default(), Scale::FourG);
}

#[test]
fn settle_times() {
    let c = config(SupportedChips::M845xQ, Scale::TwoG, OutputDataRate::DataRate100Hz);
    assert_eq!(SupportedChips::M845xQ.new(&c).settle_nanos(), 20_000_000);
    assert_eq!(SupportedChips::ICM20948.new(&c).settle_nanos(), 100_000_000);
}

#[test]
fn chip_b_sixteen_g_is_refused_before_any_step() {
    let chip = SupportedChips::M845xQ.new(&config(
        SupportedChips::M845xQ,
        Scale::SixteenG,
        OutputDataRate::DataRate50Hz,
    ));
    let mut bus = MockBus::new();
    bus.registers[m845xq::CTRL_REG1 as usize] = 0b1010_0101;
    bus.registers[m845xq::XYZ_DATA_CFG as usize] = 0b0001_0010;
    let before = bus.registers;
    match chip.init_ops() {
        Err(AccelerometerError::NotSupportedByChip) => {}
        other => panic!("expected NotSupportedByChip, got {:?}", other),
    }
    assert!(bus.writes.is_empty());
    assert_eq!(bus.registers, before);
    // a following read sees the registers as they were
    let ops = vec![BusOp::Read {
        register: m845xq::CTRL_REG1,
        slot: accelerometer::Slot::Latest,
    }];
    bus.run(ops).unwrap();
    assert_eq!(bus.registers[m845xq::CTRL_REG1 as usize], 0b1010_0101);
    assert_eq!(bus.registers[m845xq::XYZ_DATA_CFG as usize], 0b0001_0010);
}

#[test]
fn chip_b_setup_keeps_other_control_bits() {
    let chip = SupportedChips::M845xQ.new(&config(
        SupportedChips::M845xQ,
        Scale::EightG,
        OutputDataRate::DataRate100Hz,
    ));
    let mut bus = MockBus::new();
    bus.registers[m845xq::CTRL_REG1 as usize] = 0b1100_0110;
    bus.run(chip.init_ops().unwrap()).unwrap();
    assert_eq!(bus.registers[m845xq::XYZ_DATA_CFG as usize], 0b10);
    // data-rate field 0b011, low-noise and sleep-rate bits kept, active
    assert_eq!(bus.registers[m845xq::CTRL_REG1 as usize], 0b1101_1111);
    assert_eq!(
        bus.writes,
        vec![
            (0x2a, 0b1100_0110),
            (0x0e, 0b10),
            (0x2a, 0b1100_0111),
            (0x2a, 0b1100_0110),
            (0x2a, 0b1101_1111),
            (0x2a, 0b1101_1111),
        ]
    );
    assert_eq!(bus.delays, vec![20_000_000, 20_000_000]);
}

#[test]
fn chip_a_setup_sequence() {
    let chip = SupportedChips::ICM20948.new(&config(
        SupportedChips::ICM20948,
        Scale::SixteenG,
        OutputDataRate::DataRate50Hz,
    ));
    let mut bus = MockBus::new();
    bus.registers[icm20948::WHO_AM_I as usize] = 0xea;
    bus.run(chip.init_ops().unwrap()).unwrap();
    assert_eq!(
        bus.writes,
        vec![
            (0x7f, 0x00),
            (0x7f, 0x00),
            (0x06, 0x80),
            (0x7f, 0x00),
            (0x06, 0x01),
            (0x7f, 0x20),
            (0x14, 0b0011_0111),
            (0x7f, 0x00),
        ]
    );
    // each write is read back
    assert_eq!(bus.reads, vec![0x7f, 0x00, 0x7f, 0x06, 0x7f, 0x06, 0x7f, 0x14, 0x7f]);
    assert_eq!(bus.delays.len(), 9);
    assert!(bus.delays.iter().all(|d| *d == 100_000_000));
    assert_eq!(bus.registers[icm20948::REG_BANK_SEL as usize], 0);
}

#[test]
fn chip_a_identity_mismatch_stops_before_enable() {
    let chip = SupportedChips::ICM20948.new(&config(
        SupportedChips::ICM20948,
        Scale::TwoG,
        OutputDataRate::DataRate50Hz,
    ));
    let mut bus = MockBus::new();
    bus.registers[icm20948::WHO_AM_I as usize] = 0x12;
    match bus.run(chip.init_ops().unwrap()) {
        Err(AccelerometerError::InvalidInputDataError) => {}
        other => panic!("expected InvalidInputDataError, got {:?}", other),
    }
    assert_eq!(bus.writes, vec![(0x7f, 0x00)]);
    assert!(bus.writes.iter().all(|(r, _)| *r != 0x06 && *r != 0x14));
}

#[test]
fn bus_failure_stops_the_protocol() {
    let chip = SupportedChips::ICM20948.new(&config(
        SupportedChips::ICM20948,
        Scale::TwoG,
        OutputDataRate::DataRate50Hz,
    ));
    let mut bus = MockBus::new();
    bus.registers[icm20948::WHO_AM_I as usize] = 0xea;
    bus.fail_on_write = Some(1);
    match bus.run(chip.init_ops().unwrap()) {
        Err(AccelerometerError::I2CBusError(e)) => assert_eq!(e, "bus down"),
        other => panic!("expected I2CBusError, got {:?}", other),
    }
    assert_eq!(bus.writes.len(), 1);
}

#[test]
fn stopped_session_requests_nothing() {
    let mut session = Session::new(vec![
        BusOp::Expect { register: 0, value: 1 },
        BusOp::Write { register: 1, value: 2 },
    ]);
    assert_eq!(session.request(), BusRequest::Read { register: 0 });
    assert!(session.complete_read(Ok(2)).is_err());
    assert_eq!(session.request(), BusRequest::Finished);
    assert!(!session.succeeded());
}

#[test]
fn chip_enum_dispatch_matches_variant() {
    let c = config(SupportedChips::M845xQ, Scale::TwoG, OutputDataRate::DataRate50Hz);
    match SupportedChips::M845xQ.new(&c) {
        AccelerometerChip::M845xQ(m) => assert_eq!(m.data_rate, OutputDataRate::DataRate50Hz),
        _ => panic!("wrong chip"),
    }
}
