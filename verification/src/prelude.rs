//! The types that are useful to have in scope.

pub use crate::port::SerialPort;
pub use crate::settings::{BaudRate, DataBits, FlowControl, Parity, SerialPortSettings, StopBits};
pub use crate::enumerate::SerialPortInfo;
