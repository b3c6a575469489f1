//! The capability contract that every open port satisfies.

use crate::error::Error;
use crate::settings::{BaudRate, DataBits, FlowControl, Parity, SerialPortSettings, StopBits};
use std::time::Duration;
use vstd::prelude::*;

verus! {

/// The control signals that a port drives.
#[derive(Debug, Copy, Clone, PartialEq, Eq, Structural)]
pub enum OutputSignal {
    /// RTS (Request To Send).
    RequestToSend,
    /// DTR (Data Terminal Ready).
    DataTerminalReady,
}

/// The control signals that a port reads.
#[derive(Debug, Copy, Clone, PartialEq, Eq, Structural)]
pub enum InputSignal {
    /// CTS (Clear To Send).
    ClearToSend,
    /// DSR (Data Set Ready).
    DataSetReady,
    /// RI (Ring Indicator).
    RingIndicator,
    /// CD (Carrier Detect).
    CarrierDetect,
}

/// A trait for serial port devices.
///
/// This trait is all that is necessary to implement a serial port driver for
/// a new platform. A port owns one native device for its whole life. Settings
/// are not cached: every getter asks the device, so what it reports is the
/// device's configuration at that moment, which may have been changed from
/// outside. For that reason no method promises what a later getter returns.
///
/// Reading and writing bytes is left to the byte stream of the platform that
/// the port is layered on.
pub trait SerialPort {
    /// Returns the name of this port if it exists.
    ///
    /// This name may not be the canonical device name and instead be
    /// shorthand. Additionally it may not exist for virtual ports.
    fn port_name(&self) -> Option<String>;

    /// Returns a struct with the current port settings.
    fn settings(&self) -> SerialPortSettings;

    /// Returns the current baud rate.
    ///
    /// This function returns `None` if the baud rate could not be determined.
    /// This may occur if the hardware is in an uninitialized state.
    fn baud_rate(&self) -> Option<BaudRate>;

    /// Returns the character size.
    ///
    /// This function returns `None` if the character size could not be
    /// determined. This may occur if the hardware is in an uninitialized
    /// state or is using a non-standard character size.
    fn data_bits(&self) -> Option<DataBits>;

    /// Returns the flow control mode.
    ///
    /// This function returns `None` if the flow control mode could not be
    /// determined. This may occur if the hardware is in an uninitialized
    /// state or is using an unsupported flow control mode.
    fn flow_control(&self) -> Option<FlowControl>;

    /// Returns the parity-checking mode.
    ///
    /// This function returns `None` if the parity mode could not be
    /// determined. This may occur if the hardware is in an uninitialized
    /// state or is using a non-standard parity mode.
    fn parity(&self) -> Option<Parity>;

    /// Returns the number of stop bits.
    ///
    /// This function returns `None` if the number of stop bits could not be
    /// determined. This may occur if the hardware is in an uninitialized
    /// state or is using an unsupported stop bit configuration.
    fn stop_bits(&self) -> Option<StopBits>;

    /// Returns the current timeout.
    fn timeout(&self) -> Duration;

    /// Applies all settings of a struct. This is not guaranteed to involve
    /// only a single call into the driver. On success every field has been
    /// applied.
    fn set_all(&mut self, settings: &SerialPortSettings) -> Result<(), Error>;

    /// Sets the baud rate.
    ///
    /// If the implementation does not support the requested baud rate, this
    /// function returns an `InvalidInput` error. Even if the baud rate is
    /// accepted, it may not be supported by the underlying hardware.
    fn set_baud_rate(&mut self, baud_rate: BaudRate) -> Result<(), Error>;

    /// Sets the character size.
    fn set_data_bits(&mut self, data_bits: DataBits) -> Result<(), Error>;

    /// Sets the flow control mode.
    fn set_flow_control(&mut self, flow_control: FlowControl) -> Result<(), Error>;

    /// Sets the parity-checking mode.
    fn set_parity(&mut self, parity: Parity) -> Result<(), Error>;

    /// Sets the number of stop bits.
    fn set_stop_bits(&mut self, stop_bits: StopBits) -> Result<(), Error>;

    /// Sets the timeout for future I/O operations.
    fn set_timeout(&mut self, timeout: Duration) -> Result<(), Error>;

    /// Sets the state of the RTS (Request To Send) control signal.
    ///
    /// Setting a value of `true` asserts the RTS control signal. `false`
    /// clears the signal. Fails with `NoDevice` if the device was
    /// disconnected, with `Io` for any other type of I/O error.
    fn write_request_to_send(&mut self, level: bool) -> Result<(), Error>;

    /// Writes to the Data Terminal Ready pin.
    ///
    /// Setting a value of `true` asserts the DTR control signal. `false`
    /// clears the signal. Fails with `NoDevice` if the device was
    /// disconnected, with `Io` for any other type of I/O error.
    fn write_data_terminal_ready(&mut self, level: bool) -> Result<(), Error>;

    /// Reads the state of the CTS (Clear To Send) control signal: whether it
    /// is asserted. Fails with `NoDevice` if the device was disconnected,
    /// with `Io` for any other type of I/O error.
    fn read_clear_to_send(&mut self) -> Result<bool, Error>;

    /// Reads the state of the Data Set Ready control signal: whether it is
    /// asserted. Fails with `NoDevice` if the device was disconnected, with
    /// `Io` for any other type of I/O error.
    fn read_data_set_ready(&mut self) -> Result<bool, Error>;

    /// Reads the state of the Ring Indicator control signal: whether it is
    /// asserted. Fails with `NoDevice` if the device was disconnected, with
    /// `Io` for any other type of I/O error.
    fn read_ring_indicator(&mut self) -> Result<bool, Error>;

    /// Reads the state of the Carrier Detect control signal: whether it is
    /// asserted. Fails with `NoDevice` if the device was disconnected, with
    /// `Io` for any other type of I/O error.
    fn read_carrier_detect(&mut self) -> Result<bool, Error>;
}

} // verus!
