use kxtj3::registers::{
    KXTJ3_CTRL_REG1, KXTJ3_DATA_CTRL_REG, KXTJ3_DEVID, KXTJ3_ENABLE, KXTJ3_WHO_AM_I, KXTJ3_XOUT_L,
};
use kxtj3::{
    counts_to_micro_g, i16_from_le_bytes, peak_amplitude, sample_from_bytes, Accelerometer,
    AccelerometerSample, GRange, KXTJ3Accelerometer, KXTJ3DataRate, KXTJ3Error, Resolution,
    RegisterBus, SimError, SimEvent, SimulatedBus,
};

fn load_outputs(bus: &mut SimulatedBus, bytes: [u8; 6]) {
    for (i, b) in bytes.iter().enumerate() {
        bus.set_register(KXTJ3_XOUT_L + i as u8, *b);
    }
}

#[test]
fn device_id_returns_identity_register() {
    let mut bus = SimulatedBus::new();
    bus.set_register(KXTJ3_WHO_AM_I, KXTJ3_DEVID);
    let mut d = KXTJ3Accelerometer::new(bus).ok().unwrap();
    assert_eq!(d.device_id().ok(), Some(0x35));
}

#[test]
fn create_writes_configuration_in_order() {
    let bus = SimulatedBus::new();
    let d = KXTJ3Accelerometer::with_config(bus, KXTJ3DataRate::Odr400, GRange::G2);
    let d = d.ok().unwrap();
    let events = d.transport().events().to_vec();
    assert_eq!(
        events,
        vec![
            SimEvent::RegisterWrite(KXTJ3_DATA_CTRL_REG, 5),
            SimEvent::RegisterWrite(KXTJ3_CTRL_REG1, 0x40),
            SimEvent::RegisterWrite(KXTJ3_CTRL_REG1, 0x40 | KXTJ3_ENABLE),
        ]
    );
    assert_eq!(d.transport().register(KXTJ3_DATA_CTRL_REG), 5);
    assert_eq!(d.transport().register(KXTJ3_CTRL_REG1), 0xC0);
}

#[test]
fn other_configuration_writes_its_fields() {
    let d = KXTJ3Accelerometer::with_config(
        SimulatedBus::new(),
        KXTJ3DataRate::Odr12_5,
        GRange::G8,
    )
    .ok()
    .unwrap();
    assert_eq!(
        d.transport().events().to_vec(),
        vec![
            SimEvent::RegisterWrite(0x21, 0),
            SimEvent::RegisterWrite(0x1B, 0x50),
            SimEvent::RegisterWrite(0x1B, 0xD0),
        ]
    );
    assert_eq!(d.transport().register(0x1B), 0xD0);
}

#[test]
fn sample_is_scaled_by_configured_range() {
    let mut bus = SimulatedBus::new();
    load_outputs(&mut bus, [0xFF, 0x03, 0x01, 0xFC, 0x00, 0x00]);
    let mut d = KXTJ3Accelerometer::with_config(bus, KXTJ3DataRate::Odr800, GRange::G8)
        .ok()
        .unwrap();
    let s = d.accelerometer_sample().ok().unwrap();
    assert_eq!(s, AccelerometerSample { x: 8_000_000, y: -8_000_000, z: 0 });
}

#[test]
fn register_field_bytes() {
    assert_eq!(Resolution::Bits12.bits(), 0x40);
    assert_eq!(Resolution::Bits8.bits(), 0x00);
    assert_eq!(kxtj3::registers::standby_config(Resolution::Bits12, GRange::G4), 0x48);
    assert_eq!(kxtj3::registers::active_config(Resolution::Bits12, GRange::G2), 0xC0);
    assert_eq!(kxtj3::registers::active_config(Resolution::Bits12, GRange::G8), 0xD0);
}

#[test]
fn sample_issues_one_select_and_one_bulk_read() {
    let mut d = KXTJ3Accelerometer::new(SimulatedBus::new()).ok().unwrap();
    assert!(d.accelerometer_sample().is_ok());
    let events = d.transport().events().to_vec();
    assert_eq!(events.len(), 5);
    assert_eq!(events[3], SimEvent::Write(vec![KXTJ3_XOUT_L]));
    assert_eq!(events[4], SimEvent::Read(6));
}

#[test]
fn zero_codes_give_zero_sample() {
    let s = sample_from_bytes(&[0, 0, 0, 0, 0, 0], GRange::G2);
    assert_eq!(s, AccelerometerSample { x: 0, y: 0, z: 0 });
}

#[test]
fn full_scale_code_gives_full_scale_g() {
    let s = sample_from_bytes(&[0xFF, 0x03, 0, 0, 0, 0], GRange::G2);
    assert_eq!(s.x, 2_000_000);
    assert_eq!(counts_to_micro_g(1023, GRange::G4), 4_000_000);
    assert_eq!(counts_to_micro_g(1023, GRange::G8), 8_000_000);
    assert_eq!(counts_to_micro_g(-1023, GRange::G2), -2_000_000);
}

#[test]
fn conversion_rounds_toward_zero() {
    assert_eq!(counts_to_micro_g(1, GRange::G2), 1955);
    assert_eq!(counts_to_micro_g(-1, GRange::G2), -1955);
    assert_eq!(counts_to_micro_g(i16::MAX, GRange::G8), 256_242_424);
    assert_eq!(counts_to_micro_g(i16::MIN, GRange::G8), -256_250_244);
}

#[test]
fn bytes_join_low_byte_first() {
    assert_eq!(i16_from_le_bytes(0x10, 0x20), 0x2010);
    assert_ne!(i16_from_le_bytes(0x10, 0x20), 0x1020);
    assert_eq!(i16_from_le_bytes(0xFF, 0xFF), -1);
    assert_eq!(i16_from_le_bytes(0x00, 0x80), i16::MIN);
    let s = sample_from_bytes(&[0x10, 0x20, 0, 0, 0, 0], GRange::G2);
    assert_eq!(s.x, counts_to_micro_g(0x2010, GRange::G2));
}

#[test]
fn failed_bulk_read_gives_sample_error() {
    let mut bus = SimulatedBus::new();
    bus.fail_on(4);
    let mut d = KXTJ3Accelerometer::new(bus).ok().unwrap();
    match d.accelerometer_sample() {
        Err(KXTJ3Error::Sample(e)) => assert_eq!(e, SimError { index: 4 }),
        other => panic!("unexpected {:?}", other),
    }
}

#[test]
fn failed_select_gives_sample_error() {
    let mut bus = SimulatedBus::new();
    bus.fail_on(3);
    let mut d = KXTJ3Accelerometer::new(bus).ok().unwrap();
    match d.accelerometer_sample() {
        Err(KXTJ3Error::Sample(e)) => assert_eq!(e, SimError { index: 3 }),
        other => panic!("unexpected {:?}", other),
    }
    assert_eq!(d.release().events().len(), 4);
}

#[test]
fn failed_configuration_write_gives_no_driver() {
    for index in 0..3usize {
        let mut bus = SimulatedBus::new();
        bus.fail_on(index);
        match KXTJ3Accelerometer::new(bus) {
            Err(KXTJ3Error::Configuration(e)) => assert_eq!(e, SimError { index }),
            Err(other) => panic!("unexpected {:?}", other),
            Ok(_) => panic!("driver created on a failing bus"),
        }
    }
}

#[test]
fn failed_identity_read_is_tagged() {
    let mut bus = SimulatedBus::new();
    bus.fail_on(3);
    let mut d = KXTJ3Accelerometer::new(bus).ok().unwrap();
    assert!(matches!(d.device_id(), Err(KXTJ3Error::Identity(SimError { index: 3 }))));
}

#[test]
fn creating_twice_gives_identical_samples() {
    let bytes = [0x34, 0x12, 0xCC, 0xFE, 0x00, 0x04];
    let mut first = SimulatedBus::new();
    load_outputs(&mut first, bytes);
    let mut second = SimulatedBus::new();
    load_outputs(&mut second, bytes);
    let mut d1 = KXTJ3Accelerometer::new(first).ok().unwrap();
    let mut d2 = KXTJ3Accelerometer::new(second).ok().unwrap();
    assert_eq!(d1.transport().events().to_vec(), d2.transport().events().to_vec());
    let s1 = d1.accelerometer_sample().ok().unwrap();
    let s2 = d2.accelerometer_sample().ok().unwrap();
    assert_eq!(s1, s2);
}

#[test]
fn preloaded_registers_give_symmetric_sample() {
    let mut bus = SimulatedBus::new();
    load_outputs(&mut bus, [0x00, 0x00, 0xE8, 0x03, 0x18, 0xFC]);
    let mut d = KXTJ3Accelerometer::new(bus).ok().unwrap();
    let s = d.accelerometer_sample().ok().unwrap();
    assert_eq!(s.x, 0);
    assert_eq!(s.y, 1_955_034);
    assert_eq!(s.z, -1_955_034);
    assert_eq!(s.y, -s.z);
}

#[test]
fn data_rate_codes() {
    let rates = [
        KXTJ3DataRate::Odr12_5,
        KXTJ3DataRate::Odr25,
        KXTJ3DataRate::Odr50,
        KXTJ3DataRate::Odr100,
        KXTJ3DataRate::Odr200,
        KXTJ3DataRate::Odr400,
        KXTJ3DataRate::Odr800,
    ];
    let codes: Vec<u8> = rates.iter().map(|r| r.code()).collect();
    assert_eq!(codes, vec![0, 1, 2, 3, 4, 5, 6]);
}

#[test]
fn peak_amplitude_of_samples() {
    assert_eq!(peak_amplitude(&[]), 0);
    assert_eq!(peak_amplitude(&[3, -7, 5]), 7);
    assert_eq!(peak_amplitude(&[i16::MIN, 2]), 32768);
    assert_eq!(peak_amplitude(&[0, 0]), 0);
}

#[test]
fn simulated_bus_writes_and_reads_consecutive_registers() {
    let mut bus = SimulatedBus::new();
    assert!(bus.write(&[0xFE, 1, 2, 3]).is_ok());
    assert_eq!(bus.register(0xFE), 1);
    assert_eq!(bus.register(0xFF), 2);
    assert_eq!(bus.register(0x00), 3);
    assert!(bus.write(&[0xFF]).is_ok());
    let mut buf = [0u8; 3];
    assert!(bus.read(&mut buf).is_ok());
    assert_eq!(buf, [2, 3, 0]);
    assert!(bus.smbus_write_byte_data(0x21, 9).is_ok());
    assert_eq!(bus.smbus_read_byte_data(0x21).ok(), Some(9));
}
