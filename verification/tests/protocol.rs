use tcs3472::interface::{
    decode_measurement, decode_word, encode_cycles, encode_gain, encode_persistence,
    encode_threshold, status_is_valid, updated_enable_value, DEVICE_ADDRESS, FLAG_CMD,
    FLAG_POWER_ON, FLAG_RGBC_EN, FLAG_RGBC_VALID, REG_ENABLE,
};
use tcs3472::mock::{Expectation, MockBus, ScriptMismatch};
use tcs3472::{Error, RgbCGain, RgbCInterruptPersistence, Tcs3472};

fn new_sensor(script: Vec<Expectation>) -> Tcs3472<MockBus> {
    Tcs3472::new(MockBus::new(script))
}

fn enable_write(value: u8) -> Expectation {
    Expectation::Write {
        address: DEVICE_ADDRESS,
        bytes: vec![FLAG_CMD | REG_ENABLE, value],
    }
}

#[test]
fn cycle_encoding_examples() {
    assert_eq!(encode_cycles(1), Some(255));
    assert_eq!(encode_cycles(10), Some(246));
    assert_eq!(encode_cycles(85), Some(0xAB));
    assert_eq!(encode_cycles(256), Some(0));
}

#[test]
fn cycle_encoding_rejects_out_of_range() {
    assert_eq!(encode_cycles(0), None);
    assert_eq!(encode_cycles(257), None);
    assert_eq!(encode_cycles(65535), None);
}

#[test]
fn invalid_cycle_count_issues_no_transaction() {
    let mut dev = new_sensor(vec![]);
    match dev.set_wait_cycles(0) {
        Err(Error::InvalidInputData) => (),
        _ => panic!(),
    }
    match dev.set_wait_cycles(257) {
        Err(Error::InvalidInputData) => (),
        _ => panic!(),
    }
    let bus = dev.destroy();
    assert!(bus.done());
}

#[test]
fn threshold_encoding_examples() {
    assert_eq!(encode_threshold(0), (0, 0));
    assert_eq!(encode_threshold(1), (1, 0));
    assert_eq!(encode_threshold(256), (0, 1));
    assert_eq!(encode_threshold(0x1234), (0x34, 0x12));
    assert_eq!(encode_threshold(65535), (255, 255));
}

#[test]
fn gain_codes_cover_all_settings() {
    assert_eq!(encode_gain(RgbCGain::_1x), 0);
    assert_eq!(encode_gain(RgbCGain::_4x), 1);
    assert_eq!(encode_gain(RgbCGain::_16x), 2);
    assert_eq!(encode_gain(RgbCGain::_60x), 3);
}

#[test]
fn persistence_codes_cover_all_settings() {
    let table = [
        (RgbCInterruptPersistence::Every, 0),
        (RgbCInterruptPersistence::_1, 1),
        (RgbCInterruptPersistence::_2, 2),
        (RgbCInterruptPersistence::_3, 3),
        (RgbCInterruptPersistence::_5, 4),
        (RgbCInterruptPersistence::_10, 5),
        (RgbCInterruptPersistence::_15, 6),
        (RgbCInterruptPersistence::_20, 7),
        (RgbCInterruptPersistence::_25, 8),
        (RgbCInterruptPersistence::_30, 9),
        (RgbCInterruptPersistence::_35, 10),
        (RgbCInterruptPersistence::_40, 11),
        (RgbCInterruptPersistence::_45, 12),
        (RgbCInterruptPersistence::_50, 13),
        (RgbCInterruptPersistence::_55, 14),
        (RgbCInterruptPersistence::_60, 15),
    ];
    for (persistence, code) in table {
        assert_eq!(encode_persistence(persistence), code);
    }
}

#[test]
fn flag_toggle_restores_enable_value() {
    let set = updated_enable_value(0, FLAG_POWER_ON, true);
    assert_eq!(set, FLAG_POWER_ON);
    let cleared = updated_enable_value(set, FLAG_POWER_ON, false);
    assert_eq!(cleared, 0);
}

#[test]
fn flag_sets_accumulate_in_shadow() {
    // Independent sequential flag sets: the second enable-register write
    // carries both flags.
    let mut dev = new_sensor(vec![
        enable_write(FLAG_POWER_ON),
        enable_write(FLAG_POWER_ON | FLAG_RGBC_EN),
    ]);
    dev.enable().unwrap();
    dev.enable_rgbc().unwrap();
    let bus = dev.destroy();
    assert!(bus.done());
}

#[test]
fn measurement_decoding_example() {
    let data = [0x23, 0x01, 0x67, 0x45, 0xAB, 0x89, 0xEF, 0xCD];
    let measurement = decode_measurement(&data).unwrap();
    assert_eq!(measurement.clear, 0x0123);
    assert_eq!(measurement.red, 0x4567);
    assert_eq!(measurement.green, 0x89AB);
    assert_eq!(measurement.blue, 0xCDEF);
}

#[test]
fn measurement_decoding_needs_eight_bytes() {
    assert_eq!(decode_measurement(&[]), None);
    assert_eq!(decode_measurement(&[1, 2, 3, 4, 5, 6, 7]), None);
    assert_eq!(decode_measurement(&[1, 2, 3, 4, 5, 6, 7, 8, 9]), None);
}

#[test]
fn status_byte_decoding() {
    assert!(!status_is_valid(0x00));
    assert!(status_is_valid(FLAG_RGBC_VALID));
    assert!(status_is_valid(0xFF));
    assert!(!status_is_valid(0xFE));
}

#[test]
fn word_decoding_is_little_endian() {
    assert_eq!(decode_word(0xCD, 0xAB), 0xABCD);
    assert_eq!(decode_word(0x00, 0x01), 0x0100);
    assert_eq!(decode_word(0x01, 0x00), 0x0001);
}

#[test]
fn failed_write_leaves_shadow_unchanged() {
    // The script answers the first transaction only if it already carries the
    // RGBC enable flag, so the initial enable() fails. The shadow must then
    // still be 0: the following enable_rgbc() writes only the RGBC flag.
    let mut dev = new_sensor(vec![enable_write(FLAG_RGBC_EN)]);
    match dev.enable() {
        Err(Error::I2C(ScriptMismatch)) => (),
        _ => panic!(),
    }
    dev.enable_rgbc().unwrap();
    let bus = dev.destroy();
    assert!(bus.done());
}

#[test]
fn transport_error_is_wrapped() {
    let mut dev = new_sensor(vec![]);
    match dev.enable() {
        Err(Error::I2C(ScriptMismatch)) => (),
        _ => panic!(),
    }
    match dev.read_device_id() {
        Err(Error::I2C(ScriptMismatch)) => (),
        _ => panic!(),
    }
}

#[test]
fn unfulfilled_script_is_not_done() {
    let bus = MockBus::new(vec![enable_write(FLAG_POWER_ON)]);
    assert!(!bus.done());
}
