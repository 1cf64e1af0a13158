use peripherals::errorcode::ErrorCode;
use peripherals::temperature_rp2040::{Status, TemperatureRp4020};

#[test]
fn new_driver_is_idle_without_client() {
    let driver = TemperatureRp4020::new();
    assert_eq!(driver.status, Status::Idle);
    assert_eq!(driver.temperature_client, None);
}

#[test]
fn one_reading_at_a_time() {
    let mut driver = TemperatureRp4020::new();
    driver.set_client(5);
    assert_eq!(driver.read_temperature(), Ok(()));
    assert_eq!(driver.status, Status::Read);
    assert_eq!(driver.read_temperature(), Err(ErrorCode::BUSY));
    assert_eq!(driver.status, Status::Read);
    assert_eq!(driver.sample_ready(876), Some((5, 876)));
    assert_eq!(driver.status, Status::Idle);
    assert_eq!(driver.read_temperature(), Ok(()));
}

#[test]
fn sample_without_client_is_dropped() {
    let mut driver = TemperatureRp4020::new();
    assert_eq!(driver.read_temperature(), Ok(()));
    assert_eq!(driver.sample_ready(4095), None);
    assert_eq!(driver.status, Status::Idle);
}

#[test]
fn unexpected_sample_goes_to_the_client_too() {
    let mut driver = TemperatureRp4020::new();
    driver.set_client(1);
    driver.set_client(2);
    assert_eq!(driver.sample_ready(0), Some((2, 0)));
    assert_eq!(driver.status, Status::Idle);
}
