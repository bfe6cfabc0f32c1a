//! Device configuration: enable-register flag toggling, timing, gain,
//! thresholds and interrupt persistence.

use vstd::prelude::*;

use crate::bus::{double_register_write, single_register_write, I2cBus};
use crate::interface::{
    auto_inc_command, command, encode_cycles, encode_gain, encode_persistence, encode_threshold,
    cycles_register_value, gain_code, persistence_code, threshold_high_byte, threshold_low_byte,
    valid_cycles, DEVICE_ADDRESS, FLAG_POWER_ON, FLAG_RGBC_EN, FLAG_RGBC_INT_EN, FLAG_WAIT_EN,
    FLAG_WLONG, REG_AIHTL, REG_AILTL, REG_APERS, REG_ATIME, REG_CONFIG, REG_CONTROL, REG_ENABLE,
    REG_WTIME,
};
use crate::types::{Error, RgbCGain, RgbCInterruptPersistence};
use crate::Tcs3472;

verus! {

impl<B: I2cBus> Tcs3472<B> {
    /// Enable the device (Power ON).
    ///
    /// The device goes to idle state.
    pub fn enable(&mut self) -> (result: Result<(), Error<B::BusError>>)
        ensures
            result is Ok ==> final(self).shadow() == (old(self).shadow() | FLAG_POWER_ON)
                && single_register_write(
                old(self).bus().log(),
                final(self).bus().log(),
                REG_ENABLE,
                old(self).shadow() | FLAG_POWER_ON,
            ),
            result is Err ==> final(self).shadow() == old(self).shadow() && result->Err_0 is I2C,
    {
        let enable = self.enable;
        self.write_enable(enable | FLAG_POWER_ON)
    }

    /// Disable the device (sleep).
    pub fn disable(&mut self) -> (result: Result<(), Error<B::BusError>>)
        ensures
            result is Ok ==> final(self).shadow() == (old(self).shadow() & !FLAG_POWER_ON)
                && single_register_write(
                old(self).bus().log(),
                final(self).bus().log(),
                REG_ENABLE,
                old(self).shadow() & !FLAG_POWER_ON,
            ),
            result is Err ==> final(self).shadow() == old(self).shadow() && result->Err_0 is I2C,
    {
        let enable = self.enable;
        self.write_enable(enable & !FLAG_POWER_ON)
    }

    /// Enable the RGB converter.
    pub fn enable_rgbc(&mut self) -> (result: Result<(), Error<B::BusError>>)
        ensures
            result is Ok ==> final(self).shadow() == (old(self).shadow() | FLAG_RGBC_EN)
                && single_register_write(
                old(self).bus().log(),
                final(self).bus().log(),
                REG_ENABLE,
                old(self).shadow() | FLAG_RGBC_EN,
            ),
            result is Err ==> final(self).shadow() == old(self).shadow() && result->Err_0 is I2C,
    {
        let enable = self.enable;
        self.write_enable(enable | FLAG_RGBC_EN)
    }

    /// Disable the RGB converter.
    pub fn disable_rgbc(&mut self) -> (result: Result<(), Error<B::BusError>>)
        ensures
            result is Ok ==> final(self).shadow() == (old(self).shadow() & !FLAG_RGBC_EN)
                && single_register_write(
                old(self).bus().log(),
                final(self).bus().log(),
                REG_ENABLE,
                old(self).shadow() & !FLAG_RGBC_EN,
            ),
            result is Err ==> final(self).shadow() == old(self).shadow() && result->Err_0 is I2C,
    {
        let enable = self.enable;
        self.write_enable(enable & !FLAG_RGBC_EN)
    }

    /// Enable the RGB converter interrupt generation.
    pub fn enable_rgbc_interrupts(&mut self) -> (result: Result<(), Error<B::BusError>>)
        ensures
            result is Ok ==> final(self).shadow() == (old(self).shadow() | FLAG_RGBC_INT_EN)
                && single_register_write(
                old(self).bus().log(),
                final(self).bus().log(),
                REG_ENABLE,
                old(self).shadow() | FLAG_RGBC_INT_EN,
            ),
            result is Err ==> final(self).shadow() == old(self).shadow() && result->Err_0 is I2C,
    {
        let enable = self.enable;
        self.write_enable(enable | FLAG_RGBC_INT_EN)
    }

    /// Disable the RGB converter interrupt generation.
    pub fn disable_rgbc_interrupts(&mut self) -> (result: Result<(), Error<B::BusError>>)
        ensures
            result is Ok ==> final(self).shadow() == (old(self).shadow() & !FLAG_RGBC_INT_EN)
                && single_register_write(
                old(self).bus().log(),
                final(self).bus().log(),
                REG_ENABLE,
                old(self).shadow() & !FLAG_RGBC_INT_EN,
            ),
            result is Err ==> final(self).shadow() == old(self).shadow() && result->Err_0 is I2C,
    {
        let enable = self.enable;
        self.write_enable(enable & !FLAG_RGBC_INT_EN)
    }

    /// Enable the wait feature (wait timer).
    pub fn enable_wait(&mut self) -> (result: Result<(), Error<B::BusError>>)
        ensures
            result is Ok ==> final(self).shadow() == (old(self).shadow() | FLAG_WAIT_EN)
                && single_register_write(
                old(self).bus().log(),
                final(self).bus().log(),
                REG_ENABLE,
                old(self).shadow() | FLAG_WAIT_EN,
            ),
            result is Err ==> final(self).shadow() == old(self).shadow() && result->Err_0 is I2C,
    {
        let enable = self.enable;
        self.write_enable(enable | FLAG_WAIT_EN)
    }

    /// Disable the wait feature (wait timer).
    pub fn disable_wait(&mut self) -> (result: Result<(), Error<B::BusError>>)
        ensures
            result is Ok ==> final(self).shadow() == (old(self).shadow() & !FLAG_WAIT_EN)
                && single_register_write(
                old(self).bus().log(),
                final(self).bus().log(),
                REG_ENABLE,
                old(self).shadow() & !FLAG_WAIT_EN,
            ),
            result is Err ==> final(self).shadow() == old(self).shadow() && result->Err_0 is I2C,
    {
        let enable = self.enable;
        self.write_enable(enable & !FLAG_WAIT_EN)
    }

    /// Write a new enable-register value and, only after the write succeeded,
    /// record it in the shadow.
    fn write_enable(&mut self, enable: u8) -> (result: Result<(), Error<B::BusError>>)
        ensures
            result is Ok ==> final(self).shadow() == enable && single_register_write(
                old(self).bus().log(),
                final(self).bus().log(),
                REG_ENABLE,
                enable,
            ),
            result is Err ==> final(self).shadow() == old(self).shadow() && result->Err_0 is I2C,
    {
        self.write_register(REG_ENABLE, enable)?;
        self.enable = enable;
        Ok(())
    }

    /// Set the number of wait time cycles (1-256).
    ///
    /// The actual wait time depends on the *wait long* setting: without it
    /// each cycle is one integration period, with it twelve.
    pub fn set_wait_cycles(&mut self, cycles: u16) -> (result: Result<(), Error<B::BusError>>)
        ensures
            (result matches Err(Error::InvalidInputData)) <==> !valid_cycles(cycles),
            !valid_cycles(cycles) ==> *final(self) == *old(self),
            result is Ok ==> final(self).shadow() == old(self).shadow() && single_register_write(
                old(self).bus().log(),
                final(self).bus().log(),
                REG_WTIME,
                cycles_register_value(cycles),
            ),
            result is Err ==> final(self).shadow() == old(self).shadow(),
    {
        match encode_cycles(cycles) {
            Some(value) => self.write_register(REG_WTIME, value),
            None => Err(Error::InvalidInputData),
        }
    }

    /// Enable the *wait long* setting.
    ///
    /// The wait time configured with `set_wait_cycles()` is increased by a
    /// factor of 12.
    pub fn enable_wait_long(&mut self) -> (result: Result<(), Error<B::BusError>>)
        ensures
            final(self).shadow() == old(self).shadow(),
            result is Ok ==> single_register_write(
                old(self).bus().log(),
                final(self).bus().log(),
                REG_CONFIG,
                FLAG_WLONG,
            ),
            result is Err ==> result->Err_0 is I2C,
    {
        self.write_register(REG_CONFIG, FLAG_WLONG)
    }

    /// Disable the *wait long* setting.
    ///
    /// The wait time configured with `set_wait_cycles()` is used without
    /// multiplication factor.
    pub fn disable_wait_long(&mut self) -> (result: Result<(), Error<B::BusError>>)
        ensures
            final(self).shadow() == old(self).shadow(),
            result is Ok ==> single_register_write(
                old(self).bus().log(),
                final(self).bus().log(),
                REG_CONFIG,
                0,
            ),
            result is Err ==> result->Err_0 is I2C,
    {
        self.write_register(REG_CONFIG, 0)
    }

    /// Set the RGB converter gain.
    pub fn set_rgbc_gain(&mut self, gain: RgbCGain) -> (result: Result<
        (),
        Error<B::BusError>,
    >)
        ensures
            final(self).shadow() == old(self).shadow(),
            result is Ok ==> single_register_write(
                old(self).bus().log(),
                final(self).bus().log(),
                REG_CONTROL,
                gain_code(gain),
            ),
            result is Err ==> result->Err_0 is I2C,
    {
        let code = encode_gain(gain);
        self.write_register(REG_CONTROL, code)
    }

    /// Set the number of integration cycles (1-256).
    pub fn set_integration_cycles(&mut self, cycles: u16) -> (result: Result<
        (),
        Error<B::BusError>,
    >)
        ensures
            (result matches Err(Error::InvalidInputData)) <==> !valid_cycles(cycles),
            !valid_cycles(cycles) ==> *final(self) == *old(self),
            result is Ok ==> final(self).shadow() == old(self).shadow() && single_register_write(
                old(self).bus().log(),
                final(self).bus().log(),
                REG_ATIME,
                cycles_register_value(cycles),
            ),
            result is Err ==> final(self).shadow() == old(self).shadow(),
    {
        match encode_cycles(cycles) {
            Some(value) => self.write_register(REG_ATIME, value),
            None => Err(Error::InvalidInputData),
        }
    }

    /// Set the RGB converter interrupt clear channel low threshold.
    pub fn set_rgbc_interrupt_low_threshold(&mut self, threshold: u16) -> (result: Result<
        (),
        Error<B::BusError>,
    >)
        ensures
            final(self).shadow() == old(self).shadow(),
            result is Ok ==> double_register_write(
                old(self).bus().log(),
                final(self).bus().log(),
                REG_AILTL,
                threshold_low_byte(threshold),
                threshold_high_byte(threshold),
            ),
            result is Err ==> result->Err_0 is I2C,
    {
        let (low, high) = encode_threshold(threshold);
        self.write_registers(REG_AILTL, low, high)
    }

    /// Set the RGB converter interrupt clear channel high threshold.
    pub fn set_rgbc_interrupt_high_threshold(&mut self, threshold: u16) -> (result: Result<
        (),
        Error<B::BusError>,
    >)
        ensures
            final(self).shadow() == old(self).shadow(),
            result is Ok ==> double_register_write(
                old(self).bus().log(),
                final(self).bus().log(),
                REG_AIHTL,
                threshold_low_byte(threshold),
                threshold_high_byte(threshold),
            ),
            result is Err ==> result->Err_0 is I2C,
    {
        let (low, high) = encode_threshold(threshold);
        self.write_registers(REG_AIHTL, low, high)
    }

    /// Set the RGB converter interrupt persistence.
    ///
    /// This controls the RGB converter interrupt generation rate.
    pub fn set_rgbc_interrupt_persistence(
        &mut self,
        persistence: RgbCInterruptPersistence,
    ) -> (result: Result<(), Error<B::BusError>>)
        ensures
            final(self).shadow() == old(self).shadow(),
            result is Ok ==> single_register_write(
                old(self).bus().log(),
                final(self).bus().log(),
                REG_APERS,
                persistence_code(persistence),
            ),
            result is Err ==> result->Err_0 is I2C,
    {
        let code = encode_persistence(persistence);
        self.write_register(REG_APERS, code)
    }

    /// Issue a single-register write: the command byte followed by the value.
    pub(crate) fn write_register(&mut self, register: u8, value: u8) -> (result: Result<
        (),
        Error<B::BusError>,
    >)
        ensures
            final(self).shadow() == old(self).shadow(),
            result is Ok ==> single_register_write(
                old(self).bus().log(),
                final(self).bus().log(),
                register,
                value,
            ),
            result is Err ==> result->Err_0 is I2C,
    {
        let data = [command(register), value];
        proof {
            assert(data@ =~= seq![crate::interface::command_byte(register), value]);
        }
        match self.i2c.bus_write(DEVICE_ADDRESS, data.as_slice()) {
            Ok(()) => Ok(()),
            Err(e) => Err(Error::I2C(e)),
        }
    }

    /// Issue an auto-incrementing write of two bytes starting at `register`.
    pub(crate) fn write_registers(&mut self, register: u8, value0: u8, value1: u8) -> (result:
        Result<(), Error<B::BusError>>)
        ensures
            final(self).shadow() == old(self).shadow(),
            result is Ok ==> double_register_write(
                old(self).bus().log(),
                final(self).bus().log(),
                register,
                value0,
                value1,
            ),
            result is Err ==> result->Err_0 is I2C,
    {
        let data = [auto_inc_command(register), value0, value1];
        proof {
            assert(data@ =~= seq![
                crate::interface::auto_inc_command_byte(register),
                value0,
                value1,
            ]);
        }
        match self.i2c.bus_write(DEVICE_ADDRESS, data.as_slice()) {
            Ok(()) => Ok(()),
            Err(e) => Err(Error::I2C(e)),
        }
    }
}

} // verus!
