use tcs3472::interface::{
    DEVICE_ADDRESS, FLAG_CMD, FLAG_POWER_ON, FLAG_RGBC_EN, FLAG_RGBC_VALID, REG_ENABLE, REG_STATUS,
};
use tcs3472::mock::{Expectation, MockBus};
use tcs3472::Tcs3472;

fn new_sensor(script: Vec<Expectation>) -> Tcs3472<MockBus> {
    Tcs3472::new(MockBus::new(script))
}

fn destroy(sensor: Tcs3472<MockBus>) {
    let bus = sensor.destroy();
    assert!(bus.done());
}

fn enable_write(value: u8) -> Expectation {
    Expectation::Write {
        address: DEVICE_ADDRESS,
        bytes: vec![FLAG_CMD | REG_ENABLE, value],
    }
}

fn status_read(response: Vec<u8>) -> Expectation {
    Expectation::WriteRead {
        address: DEVICE_ADDRESS,
        bytes: vec![FLAG_CMD | REG_STATUS],
        response,
    }
}

#[test]
fn can_enable() {
    let mut dev = new_sensor(vec![enable_write(FLAG_POWER_ON)]);
    dev.enable().unwrap();
    destroy(dev);
}

#[test]
fn can_disable() {
    let mut dev = new_sensor(vec![enable_write(FLAG_POWER_ON), enable_write(0)]);
    dev.enable().unwrap();
    dev.disable().unwrap();
    destroy(dev);
}

#[test]
fn can_enable_rgbc() {
    let mut dev = new_sensor(vec![
        enable_write(FLAG_POWER_ON),
        enable_write(FLAG_POWER_ON | FLAG_RGBC_EN),
    ]);
    dev.enable().unwrap();
    dev.enable_rgbc().unwrap();
    destroy(dev);
}

#[test]
fn can_disable_rgbc() {
    let mut dev = new_sensor(vec![
        enable_write(FLAG_POWER_ON),
        enable_write(FLAG_POWER_ON | FLAG_RGBC_EN),
        enable_write(FLAG_POWER_ON & !FLAG_RGBC_EN),
    ]);
    dev.enable().unwrap();
    dev.enable_rgbc().unwrap();
    dev.disable_rgbc().unwrap();
    destroy(dev);
}

#[test]
fn tests_can_read_rgbc_status_not_valid() {
    let mut dev = new_sensor(vec![status_read(vec![0])]);
    let is_valid = dev.is_rgbc_status_valid().unwrap();
    assert!(!is_valid);
    destroy(dev);
}

#[test]
fn tests_can_read_rgbc_status_valid() {
    let mut dev = new_sensor(vec![status_read(vec![FLAG_RGBC_VALID])]);
    let is_valid = dev.is_rgbc_status_valid().unwrap();
    assert!(is_valid);
    destroy(dev);
}
