//! The bus transport capability consumed by the driver, and the shapes of the
//! transactions the driver issues through it.
//!
//! A transport is any type implementing [`I2cBus`]. Its specification keeps a
//! history of the transactions completed so far, so that every driver
//! operation can state exactly which bytes it put on the bus and which bytes
//! it received back.

use vstd::prelude::*;

use crate::interface::{
    auto_inc_command_byte, command_byte, measurement_from_bytes, rgbc_status_valid, word_from_le,
    DEVICE_ADDRESS, REG_CDATA, REG_STATUS,
};
use crate::types::AllChannelMeasurement;

verus! {

/// One completed bus transaction, as recorded in a transport's history.
pub ghost enum Transaction {
    /// A plain write: the first byte is the command byte, the rest the data.
    Write { address: u8, bytes: Seq<u8> },
    /// A write followed by a read within one transaction: `bytes` went out,
    /// `response` came back.
    WriteRead { address: u8, bytes: Seq<u8>, response: Seq<u8> },
}

/// A byte-oriented transactional bus with a 7-bit device address, either
/// write-only or write-then-read per transaction.
///
/// The driver is verified against this capability alone. Implementations
/// supply the two operations; each successful call must extend the
/// transaction history by exactly the transaction it performed.
pub trait I2cBus: Sized {
    /// The transport's own error type, threaded through the driver's error
    /// type.
    type BusError;

    /// The history of completed transactions, oldest first.
    ///
    /// Unverified transports may leave the default, which records nothing.
    open spec fn log(&self) -> Seq<Transaction> {
        Seq::empty()
    }

    /// Write `bytes` to the device at `address` in one transaction.
    fn bus_write(&mut self, address: u8, bytes: &[u8]) -> (result: Result<(), Self::BusError>)
        ensures
            result is Ok ==> final(self).log() == old(self).log().push(
                Transaction::Write { address, bytes: bytes@ },
            ),
    ;

    /// Write `bytes` to the device at `address`, then read `read_len` bytes
    /// back, all in one transaction.
    fn bus_write_read(&mut self, address: u8, bytes: &[u8], read_len: usize) -> (result: Result<
        Vec<u8>,
        Self::BusError,
    >)
        ensures
            result matches Ok(response) ==> response@.len() == read_len && final(self).log()
                == old(self).log().push(
                Transaction::WriteRead { address, bytes: bytes@, response: response@ },
            ),
    ;
}

/// The history grew by exactly one single-register write of `value` to
/// `register`: the command byte followed by the value.
pub open spec fn single_register_write(
    log0: Seq<Transaction>,
    log1: Seq<Transaction>,
    register: u8,
    value: u8,
) -> bool {
    log1 == log0.push(
        Transaction::Write { address: DEVICE_ADDRESS, bytes: seq![command_byte(register), value] },
    )
}

/// The history grew by exactly one auto-incrementing write of two bytes
/// starting at `register`.
pub open spec fn double_register_write(
    log0: Seq<Transaction>,
    log1: Seq<Transaction>,
    register: u8,
    value0: u8,
    value1: u8,
) -> bool {
    log1 == log0.push(
        Transaction::Write {
            address: DEVICE_ADDRESS,
            bytes: seq![auto_inc_command_byte(register), value0, value1],
        },
    )
}

/// The history grew by exactly one single-byte read of `register` (no
/// auto-increment), and `value` is the byte that came back.
pub open spec fn byte_register_read(
    log0: Seq<Transaction>,
    log1: Seq<Transaction>,
    register: u8,
    value: u8,
) -> bool {
    &&& log1.len() == log0.len() + 1
    &&& log1.drop_last() == log0
    &&& (log1.last() matches Transaction::WriteRead { address, bytes, response }
        && address == DEVICE_ADDRESS
        && bytes == seq![command_byte(register)]
        && response.len() == 1
        && value == response[0])
}

/// The history grew by exactly one auto-incrementing two-byte read of the
/// register pair starting at `register`, and `value` is the little-endian
/// decode of the two bytes that came back.
pub open spec fn channel_read(
    log0: Seq<Transaction>,
    log1: Seq<Transaction>,
    register: u8,
    value: u16,
) -> bool {
    &&& log1.len() == log0.len() + 1
    &&& log1.drop_last() == log0
    &&& (log1.last() matches Transaction::WriteRead { address, bytes, response }
        && address == DEVICE_ADDRESS
        && bytes == seq![auto_inc_command_byte(register)]
        && response.len() == 2
        && value == word_from_le(response[0], response[1]))
}

/// The history grew by exactly one auto-incrementing 8-byte read starting at
/// the clear channel data register, and `measurement` is the decode of the
/// bytes that came back: clear, red, green, blue, little-endian pairs.
pub open spec fn all_channels_read(
    log0: Seq<Transaction>,
    log1: Seq<Transaction>,
    measurement: AllChannelMeasurement,
) -> bool {
    &&& log1.len() == log0.len() + 1
    &&& log1.drop_last() == log0
    &&& (log1.last() matches Transaction::WriteRead { address, bytes, response }
        && address == DEVICE_ADDRESS
        && bytes == seq![auto_inc_command_byte(REG_CDATA)]
        && response.len() == 8
        && measurement == measurement_from_bytes(response))
}

/// The history grew by exactly one single-byte read of the status register,
/// and `valid` reports whether the byte that came back has the RGBC valid
/// bit set.
pub open spec fn status_read(log0: Seq<Transaction>, log1: Seq<Transaction>, valid: bool) -> bool {
    &&& log1.len() == log0.len() + 1
    &&& log1.drop_last() == log0
    &&& (log1.last() matches Transaction::WriteRead { address, bytes, response }
        && address == DEVICE_ADDRESS
        && bytes == seq![command_byte(REG_STATUS)]
        && response.len() == 1
        && valid == rgbc_status_valid(response[0]))
}

} // verus!
