//! Driver for the TCS3472 RGB color light-to-digital converter.
//!
//! The device is controlled through a small set of 8-bit registers behind a
//! two-wire serial bus. This crate implements the register protocol: how each
//! logical operation (enable the device, set the gain, read a channel) maps to
//! the exact byte sequence exchanged with the bus, the cached shadow copy of
//! the enable register that makes single-bit toggling possible without a
//! read-back, and the validation of numeric parameters.
//!
//! The bus itself is a capability supplied by the caller: any type that
//! implements [`I2cBus`]. Every driver operation is specified in terms of the
//! transactions it appends to the bus history and of the enable-register
//! shadow it maintains.

use vstd::prelude::*;

pub mod bus;
pub mod configuration;
pub mod interface;
pub mod mock;
pub mod reading;
pub mod types;

pub use crate::types::{AllChannelMeasurement, Error, RgbCGain, RgbCInterruptPersistence};

verus! {

/// TCS3472 device driver.
///
/// Owns the bus transport `B` and a cached copy (the "shadow") of the last
/// value successfully written to the device's enable register.
pub struct Tcs3472<B> {
    /// The concrete bus transport implementation.
    i2c: B,
    /// Enable register status: the last value successfully written there.
    enable: u8,
}

impl<B> Tcs3472<B> {
    /// The cached enable-register value: equal to the last value successfully
    /// written to the enable register, 0 before any write succeeded.
    pub closed spec fn shadow(&self) -> u8 {
        self.enable
    }

    /// The owned bus transport.
    pub closed spec fn bus(&self) -> B {
        self.i2c
    }

    /// Create new instance of the TCS3472 device.
    pub fn new(i2c: B) -> (sensor: Tcs3472<B>)
        ensures
            sensor.shadow() == 0,
            sensor.bus() == i2c,
    {
        Tcs3472 { i2c, enable: 0 }
    }

    /// Destroy driver instance, return the bus transport instance.
    pub fn destroy(self) -> (i2c: B)
        ensures
            i2c == self.bus(),
    {
        self.i2c
    }
}

} // verus!
