//! A cross-platform serial port library.
//!
//! The crate is the platform-neutral core of a serial port stack: the
//! settings model, the error model, the capability contract that every port
//! satisfies, the reports of enumeration, and the mapping of settings to and
//! from the native configuration words of POSIX and Windows. It performs no
//! I/O itself: a platform backend hands it plain values and carries out what
//! it decides.

pub mod enumerate;
pub mod error;
pub mod platform;
pub mod port;
pub mod posix;
pub mod prelude;
pub mod settings;
pub mod time;
pub mod windows;

pub use crate::enumerate::{available_ports, SerialPortInfo, SerialPortType, UsbPortInfo};
pub use crate::error::{Error, ErrorKind};
pub use crate::port::SerialPort;
pub use crate::platform::{available_baud_rates, Platform};
pub use crate::settings::{
    BaudRate, DataBits, FlowControl, Parity, SerialPortSettings, StopBits,
};
