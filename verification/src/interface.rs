//! The register protocol: device address, register map, bit flags, command
//! bytes, and the pure encoding/decoding of parameters and measurements.
//!
//! Everything here is independent of any bus: these functions say which bytes
//! stand for which logical values. The driver methods and any transport
//! adapter are built on top of them.

use vstd::prelude::*;

use crate::types::{AllChannelMeasurement, RgbCGain, RgbCInterruptPersistence};

verus! {

/// Bus address of the device.
pub const DEVICE_ADDRESS: u8 = 0x29;

/// Enable register.
pub const REG_ENABLE: u8 = 0x00;
/// RGBC integration time register.
pub const REG_ATIME: u8 = 0x01;
/// Wait time register.
pub const REG_WTIME: u8 = 0x03;
/// RGBC interrupt low threshold register pair (low byte first).
pub const REG_AILTL: u8 = 0x04;
/// RGBC interrupt high threshold register pair (low byte first).
pub const REG_AIHTL: u8 = 0x06;
/// Interrupt persistence register.
pub const REG_APERS: u8 = 0x0C;
/// Configuration register (wait long).
pub const REG_CONFIG: u8 = 0x0D;
/// Gain control register.
pub const REG_CONTROL: u8 = 0x0F;
/// Device identification register.
pub const REG_ID: u8 = 0x12;
/// Device status register.
pub const REG_STATUS: u8 = 0x13;
/// Clear channel data register pair (low byte first).
pub const REG_CDATA: u8 = 0x14;
/// Red channel data register pair (low byte first).
pub const REG_RDATA: u8 = 0x16;
/// Green channel data register pair (low byte first).
pub const REG_GDATA: u8 = 0x18;
/// Blue channel data register pair (low byte first).
pub const REG_BDATA: u8 = 0x1A;

/// Command bit: set in the first byte of every register access.
pub const FLAG_CMD: u8 = 0b1000_0000;
/// Auto-increment bit: consecutive bytes address consecutive registers.
pub const FLAG_CMD_AUTO_INC: u8 = 0b0010_0000;
/// Enable register: power on (PON).
pub const FLAG_POWER_ON: u8 = 0b0000_0001;
/// Enable register: RGBC converter enable (AEN).
pub const FLAG_RGBC_EN: u8 = 0b0000_0010;
/// Enable register: wait timer enable (WEN).
pub const FLAG_WAIT_EN: u8 = 0b0000_1000;
/// Enable register: RGBC interrupt enable (AIEN).
pub const FLAG_RGBC_INT_EN: u8 = 0b0001_0000;
/// Status register: RGBC valid (AVALID).
pub const FLAG_RGBC_VALID: u8 = 0b0000_0001;
/// Configuration register: wait long (WLONG).
pub const FLAG_WLONG: u8 = 0b0000_0010;

/// The first byte of a single-register access: command bit ORed with the
/// register address.
pub open spec fn command_byte(register: u8) -> u8 {
    FLAG_CMD | register
}

/// The first byte of a multi-byte (auto-incrementing) register access.
pub open spec fn auto_inc_command_byte(register: u8) -> u8 {
    FLAG_CMD | FLAG_CMD_AUTO_INC | register
}

/// A cycle count accepted by the timing registers.
pub open spec fn valid_cycles(cycles: u16) -> bool {
    1 <= cycles <= 256
}

/// The byte stored in a timing register for a cycle count: its two's
/// complement as an 8-bit value, `(256 - cycles) mod 256`.
pub open spec fn cycles_register_value(cycles: u16) -> u8 {
    ((256 - cycles) % 256) as u8
}

/// Low byte of an interrupt threshold, transmitted first.
pub open spec fn threshold_low_byte(threshold: u16) -> u8 {
    (threshold % 256) as u8
}

/// High byte of an interrupt threshold, transmitted second.
pub open spec fn threshold_high_byte(threshold: u16) -> u8 {
    (threshold / 256) as u8
}

/// The gain control register code of a gain setting.
pub open spec fn gain_code(gain: RgbCGain) -> u8 {
    match gain {
        RgbCGain::_1x => 0,
        RgbCGain::_4x => 1,
        RgbCGain::_16x => 2,
        RgbCGain::_60x => 3,
    }
}

/// The persistence register code of an interrupt persistence setting.
pub open spec fn persistence_code(persistence: RgbCInterruptPersistence) -> u8 {
    match persistence {
        RgbCInterruptPersistence::Every => 0,
        RgbCInterruptPersistence::_1 => 1,
        RgbCInterruptPersistence::_2 => 2,
        RgbCInterruptPersistence::_3 => 3,
        RgbCInterruptPersistence::_5 => 4,
        RgbCInterruptPersistence::_10 => 5,
        RgbCInterruptPersistence::_15 => 6,
        RgbCInterruptPersistence::_20 => 7,
        RgbCInterruptPersistence::_25 => 8,
        RgbCInterruptPersistence::_30 => 9,
        RgbCInterruptPersistence::_35 => 10,
        RgbCInterruptPersistence::_40 => 11,
        RgbCInterruptPersistence::_45 => 12,
        RgbCInterruptPersistence::_50 => 13,
        RgbCInterruptPersistence::_55 => 14,
        RgbCInterruptPersistence::_60 => 15,
    }
}

/// The 16-bit value of a little-endian register pair.
pub open spec fn word_from_le(low: u8, high: u8) -> u16 {
    (low + high * 256) as u16
}

/// Whether a status register byte reports a completed integration cycle.
pub open spec fn rgbc_status_valid(status: u8) -> bool {
    status & FLAG_RGBC_VALID != 0
}

/// The measurement encoded by the 8 data register bytes, in register layout
/// order: clear, red, green, blue, each as a little-endian pair.
pub open spec fn measurement_from_bytes(response: Seq<u8>) -> AllChannelMeasurement
    recommends
        response.len() == 8,
{
    AllChannelMeasurement {
        clear: word_from_le(response[0], response[1]),
        red: word_from_le(response[2], response[3]),
        green: word_from_le(response[4], response[5]),
        blue: word_from_le(response[6], response[7]),
    }
}

/// Build the command byte of a single-register access.
pub fn command(register: u8) -> (r: u8)
    ensures
        r == command_byte(register),
{
    FLAG_CMD | register
}

/// Build the command byte of a multi-byte (auto-incrementing) access.
pub fn auto_inc_command(register: u8) -> (r: u8)
    ensures
        r == auto_inc_command_byte(register),
{
    FLAG_CMD | FLAG_CMD_AUTO_INC | register
}

/// Validate and encode a timing cycle count.
///
/// Returns the timing register byte for counts in `[1, 256]` and `None` for
/// every other count.
pub fn encode_cycles(cycles: u16) -> (r: Option<u8>)
    ensures
        r is Some <==> valid_cycles(cycles),
        r matches Some(value) ==> value == cycles_register_value(cycles),
{
    if cycles == 0 || cycles > 256 {
        None
    } else {
        Some((256 - cycles) as u8)
    }
}

/// Encode a gain setting as its gain control register code.
pub fn encode_gain(gain: RgbCGain) -> (r: u8)
    ensures
        r == gain_code(gain),
{
    match gain {
        RgbCGain::_1x => 0,
        RgbCGain::_4x => 1,
        RgbCGain::_16x => 2,
        RgbCGain::_60x => 3,
    }
}

/// Encode an interrupt persistence setting as its register code.
pub fn encode_persistence(persistence: RgbCInterruptPersistence) -> (r: u8)
    ensures
        r == persistence_code(persistence),
{
    match persistence {
        RgbCInterruptPersistence::Every => 0,
        RgbCInterruptPersistence::_1 => 1,
        RgbCInterruptPersistence::_2 => 2,
        RgbCInterruptPersistence::_3 => 3,
        RgbCInterruptPersistence::_5 => 4,
        RgbCInterruptPersistence::_10 => 5,
        RgbCInterruptPersistence::_15 => 6,
        RgbCInterruptPersistence::_20 => 7,
        RgbCInterruptPersistence::_25 => 8,
        RgbCInterruptPersistence::_30 => 9,
        RgbCInterruptPersistence::_35 => 10,
        RgbCInterruptPersistence::_40 => 11,
        RgbCInterruptPersistence::_45 => 12,
        RgbCInterruptPersistence::_50 => 13,
        RgbCInterruptPersistence::_55 => 14,
        RgbCInterruptPersistence::_60 => 15,
    }
}

/// Encode an interrupt threshold as its two register bytes, low byte first.
pub fn encode_threshold(threshold: u16) -> (r: (u8, u8))
    ensures
        r.0 == threshold_low_byte(threshold),
        r.1 == threshold_high_byte(threshold),
{
    ((threshold % 256) as u8, (threshold / 256) as u8)
}

/// The enable-register value after setting or clearing one flag.
pub fn updated_enable_value(current: u8, flag: u8, enabled: bool) -> (r: u8)
    ensures
        r == (if enabled {
            current | flag
        } else {
            current & !flag
        }),
{
    if enabled {
        current | flag
    } else {
        current & !flag
    }
}

/// Decode a little-endian register pair into its 16-bit value.
pub fn decode_word(low: u8, high: u8) -> (r: u16)
    ensures
        r == word_from_le(low, high),
{
    let r = ((high as u16) << 8) | (low as u16);
    proof {
        lemma_word_from_le_shift(low, high);
    }
    r
}

/// Decode a status register byte.
pub fn status_is_valid(status: u8) -> (r: bool)
    ensures
        r == rgbc_status_valid(status),
{
    (status & FLAG_RGBC_VALID) != 0
}

/// Decode the 8 data register bytes into a measurement of all channels.
///
/// Returns `None` exactly when the input is not 8 bytes long.
pub fn decode_measurement(data: &[u8]) -> (r: Option<AllChannelMeasurement>)
    ensures
        data@.len() == 8 ==> (r matches Some(m) && m == measurement_from_bytes(data@)),
        data@.len() != 8 ==> r is None,
{
    if data.len() != 8 {
        return None;
    }
    Some(
        AllChannelMeasurement {
            clear: decode_word(data[0], data[1]),
            red: decode_word(data[2], data[3]),
            green: decode_word(data[4], data[5]),
            blue: decode_word(data[6], data[7]),
        },
    )
}

/// Shifting the high byte left by 8 and ORing in the low byte builds the same
/// word as the arithmetic little-endian formula.
pub proof fn lemma_word_from_le_shift(low: u8, high: u8)
    ensures
        (((high as u16) << 8) | (low as u16)) == word_from_le(low, high),
{
    assert((((high as u16) << 8) | (low as u16)) == (low + high * 256) as u16) by (bit_vector);
}

/// The threshold bytes are the low and high 8-bit halves of the value:
/// masking with `0xFF` gives the first byte, shifting right by 8 the second.
pub proof fn lemma_threshold_bytes_are_bit_masks(threshold: u16)
    ensures
        threshold_low_byte(threshold) == (threshold & 0xFF) as u8,
        threshold_high_byte(threshold) == ((threshold >> 8) & 0xFF) as u8,
{
    assert((threshold % 256) as u8 == (threshold & 0xFF) as u8) by (bit_vector);
    assert((threshold / 256) as u8 == ((threshold >> 8) & 0xFF) as u8) by (bit_vector);
}

/// Encoding a threshold and decoding the two bytes gives the threshold back.
pub proof fn lemma_threshold_round_trip(threshold: u16)
    ensures
        word_from_le(threshold_low_byte(threshold), threshold_high_byte(threshold)) == threshold,
{
    assert(((threshold % 256) as u8) + ((threshold / 256) as u8) * 256 == threshold) by (bit_vector);
}

/// Every gain setting encodes below 4.
pub proof fn lemma_gain_code_in_range(gain: RgbCGain)
    ensures
        gain_code(gain) < 4,
{
}

/// The gain encoding is injective: distinct settings get distinct codes.
pub proof fn lemma_gain_code_injective(a: RgbCGain, b: RgbCGain)
    ensures
        gain_code(a) == gain_code(b) ==> a == b,
{
}

/// The gain encoding is onto the codes below 4: together with the two lemmas
/// above, the mapping of the four gain settings onto `{0, 1, 2, 3}` is a
/// total bijection.
pub proof fn lemma_gain_code_covers(code: u8)
    requires
        code < 4,
    ensures
        exists|gain: RgbCGain| gain_code(gain) == code,
{
    if code == 0 {
        assert(gain_code(RgbCGain::_1x) == 0);
    } else if code == 1 {
        assert(gain_code(RgbCGain::_4x) == 1);
    } else if code == 2 {
        assert(gain_code(RgbCGain::_16x) == 2);
    } else {
        assert(gain_code(RgbCGain::_60x) == 3);
    }
}

/// Every persistence setting encodes below 16.
pub proof fn lemma_persistence_code_in_range(persistence: RgbCInterruptPersistence)
    ensures
        persistence_code(persistence) < 16,
{
}

/// The persistence encoding is injective: distinct settings get distinct
/// codes.
pub proof fn lemma_persistence_code_injective(
    a: RgbCInterruptPersistence,
    b: RgbCInterruptPersistence,
)
    ensures
        persistence_code(a) == persistence_code(b) ==> a == b,
{
}

/// The persistence encoding is onto the codes below 16: together with the two
/// lemmas above, the mapping of the sixteen persistence settings onto
/// `0..16` is a total bijection.
pub proof fn lemma_persistence_code_covers(code: u8)
    requires
        code < 16,
    ensures
        exists|persistence: RgbCInterruptPersistence| persistence_code(persistence) == code,
{
    if code == 0 {
        assert(persistence_code(RgbCInterruptPersistence::Every) == 0);
    } else if code == 1 {
        assert(persistence_code(RgbCInterruptPersistence::_1) == 1);
    } else if code == 2 {
        assert(persistence_code(RgbCInterruptPersistence::_2) == 2);
    } else if code == 3 {
        assert(persistence_code(RgbCInterruptPersistence::_3) == 3);
    } else if code == 4 {
        assert(persistence_code(RgbCInterruptPersistence::_5) == 4);
    } else if code == 5 {
        assert(persistence_code(RgbCInterruptPersistence::_10) == 5);
    } else if code == 6 {
        assert(persistence_code(RgbCInterruptPersistence::_15) == 6);
    } else if code == 7 {
        assert(persistence_code(RgbCInterruptPersistence::_20) == 7);
    } else if code == 8 {
        assert(persistence_code(RgbCInterruptPersistence::_25) == 8);
    } else if code == 9 {
        assert(persistence_code(RgbCInterruptPersistence::_30) == 9);
    } else if code == 10 {
        assert(persistence_code(RgbCInterruptPersistence::_35) == 10);
    } else if code == 11 {
        assert(persistence_code(RgbCInterruptPersistence::_40) == 11);
    } else if code == 12 {
        assert(persistence_code(RgbCInterruptPersistence::_45) == 12);
    } else if code == 13 {
        assert(persistence_code(RgbCInterruptPersistence::_50) == 13);
    } else if code == 14 {
        assert(persistence_code(RgbCInterruptPersistence::_55) == 14);
    } else {
        assert(persistence_code(RgbCInterruptPersistence::_60) == 15);
    }
}

/// Toggle round trip: setting a flag that was clear and then clearing it
/// again restores the original enable-register value.
pub proof fn lemma_flag_toggle_restores(shadow: u8, flag: u8)
    requires
        shadow & flag == 0,
    ensures
        ((shadow | flag) & !flag) == shadow,
{
    assert(shadow & flag == 0 ==> ((shadow | flag) & !flag) == shadow) by (bit_vector);
}

/// Sequential independent flag sets accumulate: setting one flag and then
/// another leaves both set in the enable-register value.
pub proof fn lemma_flag_sets_accumulate(shadow: u8, first: u8, second: u8)
    ensures
        ((shadow | first) | second) == shadow | (first | second),
{
    assert(((shadow | first) | second) == shadow | (first | second)) by (bit_vector);
}

} // verus!
