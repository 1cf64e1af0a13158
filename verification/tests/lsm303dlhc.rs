use peripherals::errorcode::ReturnCode;
use peripherals::lsm303dlhc::{
    encode_data_rate, encode_power_mode, encode_range, encode_scale, word_from_bytes,
    word_from_bytes_shifted, Lsm303dlhc, Lsm303dlhcAccelDataRate, Lsm303dlhcMagnetoDataRate,
    Lsm303dlhcRange, Lsm303dlhcScale, State, Upcall,
};
use peripherals::virtual_i2c::device::I2CDevice;
use peripherals::virtual_i2c::mux::MuxI2C;
use peripherals::virtual_i2c::types::{BusStatus, Operation};

fn sensor() -> (MuxI2C, I2CDevice, I2CDevice, Lsm303dlhc) {
    let mut mux = MuxI2C::new();
    let accel = I2CDevice::new(&mut mux, 0x19);
    let mag = I2CDevice::new(&mut mux, 0x1E);
    let driver = Lsm303dlhc::new(accel, mag, vec![0x55; 7]);
    (mux, accel, mag, driver)
}

#[test]
fn accel_data_rate_codes() {
    let all = [
        Lsm303dlhcAccelDataRate::Off,
        Lsm303dlhcAccelDataRate::DataRate1Hz,
        Lsm303dlhcAccelDataRate::DataRate10Hz,
        Lsm303dlhcAccelDataRate::DataRate25Hz,
        Lsm303dlhcAccelDataRate::DataRate50Hz,
        Lsm303dlhcAccelDataRate::DataRate100Hz,
        Lsm303dlhcAccelDataRate::DataRate200Hz,
        Lsm303dlhcAccelDataRate::DataRate400Hz,
        Lsm303dlhcAccelDataRate::LowPower1620Hz,
        Lsm303dlhcAccelDataRate::Normal1344LowPower5376Hz,
    ];
    for (n, rate) in all.iter().enumerate() {
        assert_eq!(rate.code() as usize, n);
        assert_eq!(Lsm303dlhcAccelDataRate::from_usize(n), Some(*rate));
    }
    assert_eq!(Lsm303dlhcAccelDataRate::from_usize(10), None);
    assert_eq!(Lsm303dlhcAccelDataRate::from_usize(usize::MAX), None);
}

#[test]
fn magneto_data_rate_codes() {
    let all = [
        Lsm303dlhcMagnetoDataRate::DataRate0_75Hz,
        Lsm303dlhcMagnetoDataRate::DataRate1_5Hz,
        Lsm303dlhcMagnetoDataRate::DataRate3_0Hz,
        Lsm303dlhcMagnetoDataRate::DataRate7_5Hz,
        Lsm303dlhcMagnetoDataRate::DataRate15_0Hz,
        Lsm303dlhcMagnetoDataRate::DataRate30_0Hz,
        Lsm303dlhcMagnetoDataRate::DataRate75_0Hz,
        Lsm303dlhcMagnetoDataRate::DataRate220_0Hz,
    ];
    for (n, rate) in all.iter().enumerate() {
        assert_eq!(rate.code() as usize, n);
        assert_eq!(Lsm303dlhcMagnetoDataRate::from_usize(n), Some(*rate));
    }
    assert_eq!(Lsm303dlhcMagnetoDataRate::from_usize(8), None);
}

#[test]
fn scale_codes() {
    for (n, scale) in [Lsm303dlhcScale::Scale2G, Lsm303dlhcScale::Scale4G, Lsm303dlhcScale::Scale8G, Lsm303dlhcScale::Scale16G].iter().enumerate() {
        assert_eq!(scale.code() as usize, n);
        assert_eq!(Lsm303dlhcScale::from_usize(n), Some(*scale));
    }
    assert_eq!(Lsm303dlhcScale::from_usize(4), None);
}

#[test]
fn range_codes_skip_six() {
    let all = [
        (0, Lsm303dlhcRange::Range1G),
        (1, Lsm303dlhcRange::Range1_3G),
        (2, Lsm303dlhcRange::Range1_9G),
        (3, Lsm303dlhcRange::Range2_5G),
        (4, Lsm303dlhcRange::Range4_0G),
        (5, Lsm303dlhcRange::Range4_7G),
        (7, Lsm303dlhcRange::Range5_6G),
        (8, Lsm303dlhcRange::Range8_1),
    ];
    for (n, range) in all {
        assert_eq!(range.code() as usize, n);
        assert_eq!(Lsm303dlhcRange::from_usize(n), Some(range));
    }
    assert_eq!(Lsm303dlhcRange::from_usize(6), None);
    assert_eq!(Lsm303dlhcRange::from_usize(9), None);
}

#[test]
fn register_bytes() {
    assert_eq!(encode_power_mode(Lsm303dlhcAccelDataRate::DataRate100Hz, true), 0x5F);
    assert_eq!(encode_power_mode(Lsm303dlhcAccelDataRate::Normal1344LowPower5376Hz, false), 0x97);
    assert_eq!(encode_power_mode(Lsm303dlhcAccelDataRate::Off, false), 0x07);
    assert_eq!(encode_scale(Lsm303dlhcScale::Scale16G, true), 0x38);
    assert_eq!(encode_scale(Lsm303dlhcScale::Scale4G, false), 0x10);
    assert_eq!(encode_scale(Lsm303dlhcScale::Scale2G, false), 0x00);
    assert_eq!(encode_data_rate(true, Lsm303dlhcMagnetoDataRate::DataRate220_0Hz), 0x9C);
    assert_eq!(encode_data_rate(false, Lsm303dlhcMagnetoDataRate::DataRate15_0Hz), 0x10);
    assert_eq!(encode_data_rate(false, Lsm303dlhcMagnetoDataRate::DataRate0_75Hz), 0x00);
    assert_eq!(encode_range(Lsm303dlhcRange::Range1_3G), 0x20);
    assert_eq!(encode_range(Lsm303dlhcRange::Range5_6G), 0xE0);
    // Eight does not fit into three bits.
    assert_eq!(encode_range(Lsm303dlhcRange::Range8_1), 0x00);
}

#[test]
fn signed_words() {
    assert_eq!(word_from_bytes(0x34, 0x12), 0x1234);
    assert_eq!(word_from_bytes(0x00, 0x00), 0);
    assert_eq!(word_from_bytes(0xFF, 0x7F), 32767);
    assert_eq!(word_from_bytes(0xFF, 0xFF), usize::MAX);
    assert_eq!(word_from_bytes(0x00, 0x80), usize::MAX - 32767);
    assert_eq!(word_from_bytes(0x00, 0x80), (-32768i16) as usize);
    assert_eq!(word_from_bytes(0x9C, 0xFF), (-100i16) as usize);

    assert_eq!(word_from_bytes_shifted(0x40, 0x01), 40);
    assert_eq!(word_from_bytes_shifted(0x47, 0x01), 40);
    assert_eq!(word_from_bytes_shifted(0xF8, 0xFF), usize::MAX);
    assert_eq!(word_from_bytes_shifted(0xFF, 0xFF), usize::MAX);
    assert_eq!(word_from_bytes_shifted(0xF7, 0xFF), usize::MAX - 1);
    assert_eq!(word_from_bytes_shifted(0x00, 0x80), usize::MAX - 4095);
    for word in [0u16, 1, 7, 8, 0x7FFF, 0x8000, 0x8001, 0xFFF0, 0xFFFF] {
        let expected = ((word as i16) >> 3) as usize;
        assert_eq!(word_from_bytes_shifted(word as u8, (word >> 8) as u8), expected);
        assert_eq!(word_from_bytes(word as u8, (word >> 8) as u8), (word as i16) as usize);
    }
}

#[test]
fn new_driver() {
    let (_mux, accel, mag, driver) = sensor();
    assert_eq!(driver.i2c_accelerometer, accel);
    assert_eq!(driver.i2c_magnetometer, mag);
    assert_eq!(driver.callback, None);
    assert_eq!(driver.state, State::Idle);
    assert_eq!(driver.scale, Lsm303dlhcScale::Scale2G);
    assert_eq!(driver.range, Lsm303dlhcRange::Range1G);
    assert!(!driver.high_resolution);
    assert_eq!(driver.buffer, Some(vec![0x55; 7]));
}

#[test]
fn read_acceleration_round_trip() {
    let (_mux, accel, _mag, mut driver) = sensor();
    assert_eq!(driver.subscribe(0, Some(42)), ReturnCode::SUCCESS);

    let (code, transfer) = driver.command(6, 0, 0);
    assert_eq!(code, ReturnCode::SUCCESS);
    let transfer = transfer.unwrap();
    assert_eq!(transfer.device, accel);
    assert_eq!(transfer.op, Operation::WriteRead { write_len: 1, read_len: 6 });
    assert_eq!(transfer.buffer, vec![0xA8, 0x55, 0x55, 0x55, 0x55, 0x55, 0x55]);
    assert_eq!(driver.state, State::ReadAccelerationXYZ);
    assert_eq!(driver.buffer, None);

    // Busy until the completion.
    for command in 1..=8 {
        if command != 4 {
            let (code, transfer) = driver.command(command, 0, 0);
            assert_eq!(code, ReturnCode::EBUSY);
            assert!(transfer.is_none());
        }
    }
    assert_eq!(driver.state, State::ReadAccelerationXYZ);

    let reply = vec![0x10, 0x00, 0xFF, 0xFF, 0x00, 0x80, 0x99];
    let upcall = driver.command_complete(reply.clone(), BusStatus::CommandComplete);
    assert_eq!(
        upcall,
        Some(Upcall { callback: 42, r0: 16, r1: usize::MAX, r2: usize::MAX - 32767 })
    );
    assert_eq!(driver.state, State::Idle);
    assert_eq!(driver.buffer, Some(reply));
}

#[test]
fn failed_reading_reports_zeros() {
    let (_mux, _accel, _mag, mut driver) = sensor();
    driver.subscribe(0, Some(1));
    driver.command(6, 0, 0);
    let upcall = driver.command_complete(vec![1, 2, 3, 4, 5, 6], BusStatus::DataNak);
    assert_eq!(upcall, Some(Upcall { callback: 1, r0: 0, r1: 0, r2: 0 }));
    driver.command(8, 0, 0);
    let upcall = driver.command_complete(vec![1, 2, 3, 4, 5, 6], BusStatus::BusError);
    assert_eq!(upcall, Some(Upcall { callback: 1, r0: 0, r1: 0, r2: 0 }));
}

#[test]
fn read_magnetometer_orders_x_z_y() {
    let (_mux, _accel, mag, mut driver) = sensor();
    driver.subscribe(0, Some(9));
    let (code, transfer) = driver.command(8, 0, 0);
    assert_eq!(code, ReturnCode::SUCCESS);
    let transfer = transfer.unwrap();
    assert_eq!(transfer.device, mag);
    assert_eq!(transfer.op, Operation::WriteRead { write_len: 1, read_len: 6 });
    assert_eq!(transfer.buffer[0], 0x03);
    assert_eq!(driver.state, State::ReadMagnetometerXYZ);
    let upcall = driver.command_complete(vec![1, 2, 3, 4, 5, 6], BusStatus::CommandComplete);
    assert_eq!(upcall, Some(Upcall { callback: 9, r0: 0x0102, r1: 0x0506, r2: 0x0304 }));
}

#[test]
fn read_temperature_waits_as_an_acceleration_reading() {
    let (_mux, _accel, mag, mut driver) = sensor();
    driver.subscribe(0, Some(9));
    let (code, transfer) = driver.command(7, 0, 0);
    assert_eq!(code, ReturnCode::SUCCESS);
    let transfer = transfer.unwrap();
    assert_eq!(transfer.device, mag);
    assert_eq!(transfer.op, Operation::WriteRead { write_len: 1, read_len: 2 });
    assert_eq!(transfer.buffer[0], 0x31);
    assert_eq!(driver.state, State::ReadAccelerationXYZ);
    let upcall = driver.command_complete(vec![1, 2, 3, 4, 5, 6], BusStatus::CommandComplete);
    assert_eq!(upcall, Some(Upcall { callback: 9, r0: 0x0201, r1: 0x0403, r2: 0x0605 }));
}

#[test]
fn temperature_state_decodes_one_shifted_word() {
    let (_mux, _accel, _mag, mut driver) = sensor();
    driver.subscribe(0, Some(9));
    driver.state = State::ReadTemperature;
    let upcall = driver.command_complete(vec![0x01, 0x40, 0, 0, 0, 0], BusStatus::CommandComplete);
    assert_eq!(upcall, Some(Upcall { callback: 9, r0: 40, r1: 0, r2: 0 }));
    driver.state = State::ReadTemperature;
    let upcall = driver.command_complete(vec![0xFF, 0xF0, 0, 0, 0, 0], BusStatus::CommandComplete);
    assert_eq!(upcall, Some(Upcall { callback: 9, r0: usize::MAX - 1, r1: 0, r2: 0 }));
    driver.state = State::ReadTemperature;
    let upcall = driver.command_complete(vec![0x01, 0x40, 0, 0, 0, 0], BusStatus::AddressNak);
    assert_eq!(upcall, Some(Upcall { callback: 9, r0: 0, r1: 0, r2: 0 }));
}

#[test]
fn presence_needs_the_identification_value() {
    let (_mux, _accel, mag, mut driver) = sensor();
    driver.subscribe(0, Some(3));
    let (code, transfer) = driver.command(1, 0, 0);
    assert_eq!(code, ReturnCode::SUCCESS);
    let transfer = transfer.unwrap();
    assert_eq!(transfer.device, mag);
    assert_eq!(transfer.op, Operation::WriteRead { write_len: 1, read_len: 1 });
    assert_eq!(transfer.buffer[0], 0x0F);
    assert_eq!(driver.state, State::IsPresent);
    let upcall = driver.command_complete(vec![60, 0, 0, 0, 0, 0], BusStatus::CommandComplete);
    assert_eq!(upcall, Some(Upcall { callback: 3, r0: 1, r1: 0, r2: 0 }));

    driver.command(1, 0, 0);
    let upcall = driver.command_complete(vec![61, 0, 0, 0, 0, 0], BusStatus::CommandComplete);
    assert_eq!(upcall, Some(Upcall { callback: 3, r0: 0, r1: 0, r2: 0 }));

    driver.command(1, 0, 0);
    let upcall = driver.command_complete(vec![60, 0, 0, 0, 0, 0], BusStatus::AddressNak);
    assert_eq!(upcall, Some(Upcall { callback: 3, r0: 0, r1: 0, r2: 0 }));
}

#[test]
fn set_power_mode_command() {
    let (_mux, accel, _mag, mut driver) = sensor();
    driver.subscribe(0, Some(3));
    let (code, transfer) = driver.command(2, 5, 1);
    assert_eq!(code, ReturnCode::SUCCESS);
    let transfer = transfer.unwrap();
    assert_eq!(transfer.device, accel);
    assert_eq!(transfer.op, Operation::Write { len: 2 });
    assert_eq!(transfer.buffer, vec![0x20, 0x5F, 0x55, 0x55, 0x55, 0x55, 0x55]);
    assert_eq!(driver.state, State::SetPowerMode);
    let upcall = driver.command_complete(transfer.buffer, BusStatus::CommandComplete);
    assert_eq!(upcall, Some(Upcall { callback: 3, r0: 1, r1: 0, r2: 0 }));

    let (code, transfer) = driver.command(2, 10, 0);
    assert_eq!(code, ReturnCode::EINVAL);
    assert!(transfer.is_none());
    assert_eq!(driver.state, State::Idle);

    driver.command(2, 0, 0);
    let upcall = driver.command_complete(vec![0; 6], BusStatus::ArbitrationLost);
    assert_eq!(upcall, Some(Upcall { callback: 3, r0: 0, r1: 0, r2: 0 }));
}

#[test]
fn set_scale_and_resolution_command() {
    let (_mux, accel, _mag, mut driver) = sensor();
    let (code, transfer) = driver.command(3, 2, 1);
    assert_eq!(code, ReturnCode::SUCCESS);
    let transfer = transfer.unwrap();
    assert_eq!(transfer.device, accel);
    assert_eq!(transfer.op, Operation::Write { len: 2 });
    assert_eq!(&transfer.buffer[..2], &[0x23, 0x28]);
    assert_eq!(driver.state, State::SetScaleAndResolution);
    assert_eq!(driver.scale, Lsm303dlhcScale::Scale8G);
    assert!(driver.high_resolution);
    // Without a subscription nobody is called.
    assert_eq!(driver.command_complete(transfer.buffer, BusStatus::CommandComplete), None);

    let (code, _) = driver.command(3, 4, 0);
    assert_eq!(code, ReturnCode::EINVAL);
    assert_eq!(driver.scale, Lsm303dlhcScale::Scale8G);
}

#[test]
fn set_range_command() {
    let (_mux, _accel, mag, mut driver) = sensor();
    let (code, transfer) = driver.command(5, 7, 0);
    assert_eq!(code, ReturnCode::SUCCESS);
    let transfer = transfer.unwrap();
    assert_eq!(transfer.device, mag);
    assert_eq!(transfer.op, Operation::Write { len: 3 });
    assert_eq!(transfer.buffer, vec![0x01, 0xE0, 0x00, 0x55, 0x55, 0x55, 0x55]);
    assert_eq!(driver.state, State::SetRange);
    assert_eq!(driver.range, Lsm303dlhcRange::Range5_6G);
    driver.command_complete(transfer.buffer, BusStatus::CommandComplete);

    let (code, transfer) = driver.command(5, 6, 0);
    assert_eq!(code, ReturnCode::EINVAL);
    assert!(transfer.is_none());
    assert_eq!(driver.range, Lsm303dlhcRange::Range5_6G);
}

#[test]
fn data_rate_command_is_taken_only_while_a_data_rate_is_set() {
    let (_mux, _accel, mag, mut driver) = sensor();
    let (code, transfer) = driver.command(4, 1, 4);
    assert_eq!(code, ReturnCode::EBUSY);
    assert!(transfer.is_none());
    assert_eq!(driver.state, State::Idle);

    let transfer = driver
        .set_temperature_and_magneto_data_rate(true, Lsm303dlhcMagnetoDataRate::DataRate15_0Hz)
        .unwrap();
    assert_eq!(transfer.device, mag);
    assert_eq!(transfer.op, Operation::Write { len: 2 });
    assert_eq!(&transfer.buffer[..2], &[0x00, 0x90]);
    assert_eq!(driver.state, State::SetTemperatureDataRate);

    let (code, none) = driver.command(4, 1, 3);
    assert_eq!(code, ReturnCode::SUCCESS);
    assert!(none.is_none());
    let (code, none) = driver.command(4, 1, 8);
    assert_eq!(code, ReturnCode::EINVAL);
    assert!(none.is_none());
    assert_eq!(driver.state, State::SetTemperatureDataRate);
    assert_eq!(driver.buffer, None);
}

#[test]
fn unknown_commands_and_subscriptions() {
    let (_mux, _accel, _mag, mut driver) = sensor();
    assert_eq!(driver.command(0, 0, 0).0, ReturnCode::SUCCESS);
    assert_eq!(driver.command(9, 0, 0).0, ReturnCode::ENOSUPPORT);
    assert_eq!(driver.command(usize::MAX, 0, 0).0, ReturnCode::ENOSUPPORT);
    assert_eq!(driver.state, State::Idle);
    assert_eq!(driver.subscribe(1, Some(7)), ReturnCode::ENOSUPPORT);
    assert_eq!(driver.callback, None);
    assert_eq!(driver.subscribe(0, Some(7)), ReturnCode::SUCCESS);
    assert_eq!(driver.callback, Some(7));
    assert_eq!(driver.subscribe(0, None), ReturnCode::SUCCESS);
    assert_eq!(driver.callback, None);
    // The existence query is answered while busy, too.
    driver.command(6, 0, 0);
    assert_eq!(driver.command(0, 0, 0).0, ReturnCode::SUCCESS);
}

#[test]
fn completion_while_idle_calls_nobody() {
    let (_mux, _accel, _mag, mut driver) = sensor();
    driver.subscribe(0, Some(7));
    driver.buffer = None;
    assert_eq!(driver.command_complete(vec![9; 6], BusStatus::CommandComplete), None);
    assert_eq!(driver.state, State::Idle);
    assert_eq!(driver.buffer, Some(vec![9; 6]));
}

#[test]
fn direct_operations_do_nothing_unless_idle() {
    let (_mux, _accel, _mag, mut driver) = sensor();
    assert!(driver.read_magnetometer_xyz().is_some());
    assert!(driver.set_power_mode(Lsm303dlhcAccelDataRate::DataRate1Hz, false).is_none());
    assert!(driver.set_scale_and_resolution(Lsm303dlhcScale::Scale16G, true).is_none());
    assert!(driver.read_acceleration_xyz().is_none());
    assert!(driver.set_range(Lsm303dlhcRange::Range8_1).is_none());
    assert!(driver.read_temperature().is_none());
    assert!(driver.read_magnetometer_xyz().is_none());
    assert_eq!(driver.state, State::ReadMagnetometerXYZ);
    assert_eq!(driver.scale, Lsm303dlhcScale::Scale2G);
    assert_eq!(driver.range, Lsm303dlhcRange::Range1G);
    assert!(!driver.high_resolution);
    // The presence query does not ask; without the buffer it sends nothing.
    assert!(driver.is_present().is_none());
    assert_eq!(driver.state, State::IsPresent);
}

#[test]
fn driver_on_the_shared_bus() {
    let (mut mux, accel, mag, mut driver) = sensor();
    accel.set_client(&mut mux, 100);
    mag.set_client(&mut mux, 100);
    driver.subscribe(0, Some(1));

    let (_, transfer) = driver.command(6, 0, 0);
    let command = transfer.unwrap().submit(&mut mux).unwrap().unwrap();
    assert_eq!(command.address, 0x19);
    assert_eq!(command.op, Operation::WriteRead { write_len: 1, read_len: 6 });

    let mut reply = command.buffer;
    reply[..6].copy_from_slice(&[0x01, 0x00, 0x02, 0x00, 0x03, 0x00]);
    let done = mux.physical_master_completion(reply, BusStatus::CommandComplete);
    let callback = done.callback.unwrap();
    assert_eq!(callback.client, 100);
    let upcall = driver.command_complete(callback.buffer, callback.status);
    assert_eq!(upcall, Some(Upcall { callback: 1, r0: 1, r1: 2, r2: 3 }));
}
