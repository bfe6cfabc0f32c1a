//! Status polling, channel measurements and device identification.

use vstd::prelude::*;

use crate::bus::{all_channels_read, byte_register_read, channel_read, status_read, I2cBus};
use crate::interface::{
    auto_inc_command, command, decode_word, status_is_valid, DEVICE_ADDRESS, REG_BDATA, REG_CDATA,
    REG_GDATA, REG_ID, REG_RDATA, REG_STATUS,
};
use crate::types::{AllChannelMeasurement, Error};
use crate::Tcs3472;

verus! {

impl<B: I2cBus> Tcs3472<B> {
    /// Check whether the RGB converter status is valid.
    ///
    /// Indicates that the RGBC channels have completed an integration cycle.
    pub fn is_rgbc_status_valid(&mut self) -> (result: Result<bool, Error<B::BusError>>)
        ensures
            final(self).shadow() == old(self).shadow(),
            result matches Ok(valid) ==> status_read(
                old(self).bus().log(),
                final(self).bus().log(),
                valid,
            ),
            result is Err ==> result->Err_0 is I2C,
    {
        let status = self.read_register(REG_STATUS)?;
        Ok(status_is_valid(status))
    }

    /// Read the clear (unfiltered) channel measurement data.
    pub fn read_clear_channel(&mut self) -> (result: Result<u16, Error<B::BusError>>)
        ensures
            final(self).shadow() == old(self).shadow(),
            result matches Ok(value) ==> channel_read(
                old(self).bus().log(),
                final(self).bus().log(),
                REG_CDATA,
                value,
            ),
            result is Err ==> result->Err_0 is I2C,
    {
        self.read_channel(REG_CDATA)
    }

    /// Read the red channel measurement data.
    pub fn read_red_channel(&mut self) -> (result: Result<u16, Error<B::BusError>>)
        ensures
            final(self).shadow() == old(self).shadow(),
            result matches Ok(value) ==> channel_read(
                old(self).bus().log(),
                final(self).bus().log(),
                REG_RDATA,
                value,
            ),
            result is Err ==> result->Err_0 is I2C,
    {
        self.read_channel(REG_RDATA)
    }

    /// Read the green channel measurement data.
    pub fn read_green_channel(&mut self) -> (result: Result<u16, Error<B::BusError>>)
        ensures
            final(self).shadow() == old(self).shadow(),
            result matches Ok(value) ==> channel_read(
                old(self).bus().log(),
                final(self).bus().log(),
                REG_GDATA,
                value,
            ),
            result is Err ==> result->Err_0 is I2C,
    {
        self.read_channel(REG_GDATA)
    }

    /// Read the blue channel measurement data.
    pub fn read_blue_channel(&mut self) -> (result: Result<u16, Error<B::BusError>>)
        ensures
            final(self).shadow() == old(self).shadow(),
            result matches Ok(value) ==> channel_read(
                old(self).bus().log(),
                final(self).bus().log(),
                REG_BDATA,
                value,
            ),
            result is Err ==> result->Err_0 is I2C,
    {
        self.read_channel(REG_BDATA)
    }

    /// Read one channel: an auto-incrementing two-byte read of its data
    /// register pair, decoded little-endian.
    fn read_channel(&mut self, first_register: u8) -> (result: Result<u16, Error<B::BusError>>)
        ensures
            final(self).shadow() == old(self).shadow(),
            result matches Ok(value) ==> channel_read(
                old(self).bus().log(),
                final(self).bus().log(),
                first_register,
                value,
            ),
            result is Err ==> result->Err_0 is I2C,
    {
        let data = self.read_registers(first_register, 2)?;
        Ok(decode_word(data[0], data[1]))
    }

    /// Read the measurement data of all channels at once.
    pub fn read_all_channels(&mut self) -> (result: Result<
        AllChannelMeasurement,
        Error<B::BusError>,
    >)
        ensures
            final(self).shadow() == old(self).shadow(),
            result matches Ok(measurement) ==> all_channels_read(
                old(self).bus().log(),
                final(self).bus().log(),
                measurement,
            ),
            result is Err ==> result->Err_0 is I2C,
    {
        let data = self.read_registers(REG_CDATA, 8)?;
        Ok(
            AllChannelMeasurement {
                clear: decode_word(data[0], data[1]),
                red: decode_word(data[2], data[3]),
                green: decode_word(data[4], data[5]),
                blue: decode_word(data[6], data[7]),
            },
        )
    }

    /// Read the device ID.
    ///
    /// The value returned corresponds to the part number identification:
    /// - `0x44` => `TCS34725`
    /// - `0x4D` => `TCS34727`
    pub fn read_device_id(&mut self) -> (result: Result<u8, Error<B::BusError>>)
        ensures
            final(self).shadow() == old(self).shadow(),
            result matches Ok(id) ==> byte_register_read(
                old(self).bus().log(),
                final(self).bus().log(),
                REG_ID,
                id,
            ),
            result is Err ==> result->Err_0 is I2C,
    {
        self.read_register(REG_ID)
    }

    /// Issue a single-byte read of `register`, without auto-increment.
    fn read_register(&mut self, register: u8) -> (result: Result<u8, Error<B::BusError>>)
        ensures
            final(self).shadow() == old(self).shadow(),
            result matches Ok(value) ==> byte_register_read(
                old(self).bus().log(),
                final(self).bus().log(),
                register,
                value,
            ),
            result is Err ==> result->Err_0 is I2C,
    {
        let data = [command(register)];
        proof {
            assert(data@ =~= seq![crate::interface::command_byte(register)]);
        }
        match self.i2c.bus_write_read(DEVICE_ADDRESS, data.as_slice(), 1) {
            Ok(response) => {
                proof {
                    assert(self.bus().log().drop_last() =~= old(self).bus().log());
                }
                Ok(response[0])
            },
            Err(e) => Err(Error::I2C(e)),
        }
    }

    /// Issue an auto-incrementing read of `count` bytes starting at
    /// `first_register`.
    fn read_registers(&mut self, first_register: u8, count: usize) -> (result: Result<
        Vec<u8>,
        Error<B::BusError>,
    >)
        ensures
            final(self).shadow() == old(self).shadow(),
            result matches Ok(data) ==> data@.len() == count && final(self).bus().log().len()
                == old(self).bus().log().len() + 1 && final(self).bus().log().drop_last()
                == old(self).bus().log() && (final(self).bus().log().last()
                matches crate::bus::Transaction::WriteRead { address, bytes, response }
                && address == DEVICE_ADDRESS
                && bytes == seq![crate::interface::auto_inc_command_byte(first_register)]
                && response == data@),
            result is Err ==> result->Err_0 is I2C,
    {
        let data = [auto_inc_command(first_register)];
        proof {
            assert(data@ =~= seq![crate::interface::auto_inc_command_byte(first_register)]);
        }
        match self.i2c.bus_write_read(DEVICE_ADDRESS, data.as_slice(), count) {
            Ok(response) => {
                proof {
                    assert(self.bus().log().drop_last() =~= old(self).bus().log());
                }
                Ok(response)
            },
            Err(e) => Err(Error::I2C(e)),
        }
    }
}

} // verus!
