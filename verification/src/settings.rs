//! The platform-neutral settings model.

use crate::time::{duration_as_secs, duration_millis, duration_subsec_nanos};
use std::time::Duration;
use vstd::prelude::*;

verus! {

/// Serial port baud rates.
///
/// The variants with numeric suffixes are the standard rates that are widely
/// supported. Any other rate is carried by `BaudOther`; whether a platform
/// or a device accepts it is not guaranteed.
#[derive(Debug, Copy, Clone, PartialEq, Eq, Structural)]
pub enum BaudRate {
    /// 110 baud.
    Baud110,
    /// 300 baud.
    Baud300,
    /// 600 baud.
    Baud600,
    /// 1200 baud.
    Baud1200,
    /// 2400 baud.
    Baud2400,
    /// 4800 baud.
    Baud4800,
    /// 9600 baud.
    Baud9600,
    /// 19,200 baud.
    Baud19200,
    /// 38,400 baud.
    Baud38400,
    /// 57,600 baud.
    Baud57600,
    /// 115,200 baud.
    Baud115200,
    /// A non-standard baud rate, in symbols per second.
    BaudOther(usize),
}

/// Whether `speed` is the rate of one of the named variants of `BaudRate`.
pub open spec fn is_standard_rate(speed: int) -> bool {
    speed == 110 || speed == 300 || speed == 600 || speed == 1200 || speed == 2400 || speed
        == 4800 || speed == 9600 || speed == 19200 || speed == 38400 || speed == 57600 || speed
        == 115200
}

impl BaudRate {
    /// Whether this is one of the named standard rates.
    pub open spec fn is_named(self) -> bool {
        !(self is BaudOther)
    }

    /// The rate in symbols per second.
    pub open spec fn spec_speed(&self) -> usize {
        match *self {
            BaudRate::Baud110 => 110,
            BaudRate::Baud300 => 300,
            BaudRate::Baud600 => 600,
            BaudRate::Baud1200 => 1200,
            BaudRate::Baud2400 => 2400,
            BaudRate::Baud4800 => 4800,
            BaudRate::Baud9600 => 9600,
            BaudRate::Baud19200 => 19200,
            BaudRate::Baud38400 => 38400,
            BaudRate::Baud57600 => 57600,
            BaudRate::Baud115200 => 115200,
            BaudRate::BaudOther(n) => n,
        }
    }

    /// The baud rate that stands for `speed`: the named variant of that rate
    /// where there is one, `BaudOther(speed)` otherwise.
    pub open spec fn spec_from_speed(speed: usize) -> BaudRate {
        if speed == 110 {
            BaudRate::Baud110
        } else if speed == 300 {
            BaudRate::Baud300
        } else if speed == 600 {
            BaudRate::Baud600
        } else if speed == 1200 {
            BaudRate::Baud1200
        } else if speed == 2400 {
            BaudRate::Baud2400
        } else if speed == 4800 {
            BaudRate::Baud4800
        } else if speed == 9600 {
            BaudRate::Baud9600
        } else if speed == 19200 {
            BaudRate::Baud19200
        } else if speed == 38400 {
            BaudRate::Baud38400
        } else if speed == 57600 {
            BaudRate::Baud57600
        } else if speed == 115200 {
            BaudRate::Baud115200
        } else {
            BaudRate::BaudOther(speed)
        }
    }

    /// Whether this value is the one `from_speed` gives for its own rate.
    /// Every named variant is; `BaudOther(n)` is unless `n` is a standard
    /// rate.
    pub open spec fn is_canonical(self) -> bool {
        self is BaudOther ==> !is_standard_rate(self.spec_speed() as int)
    }

    /// Creates a `BaudRate` for a particular speed.
    ///
    /// The result carries exactly `speed`, and it is a named variant if and
    /// only if `speed` is a standard rate.
    pub fn from_speed(speed: usize) -> (rate: BaudRate)
        ensures
            rate == BaudRate::spec_from_speed(speed),
            rate.spec_speed() == speed,
            rate.is_named() <==> is_standard_rate(speed as int),
            rate.is_canonical(),
    {
        match speed {
            110 => BaudRate::Baud110,
            300 => BaudRate::Baud300,
            600 => BaudRate::Baud600,
            1200 => BaudRate::Baud1200,
            2400 => BaudRate::Baud2400,
            4800 => BaudRate::Baud4800,
            9600 => BaudRate::Baud9600,
            19200 => BaudRate::Baud19200,
            38400 => BaudRate::Baud38400,
            57600 => BaudRate::Baud57600,
            115200 => BaudRate::Baud115200,
            n => BaudRate::BaudOther(n),
        }
    }

    /// Returns the baud rate as an integer.
    #[verifier::when_used_as_spec(spec_speed)]
    pub fn speed(&self) -> (speed: usize)
        ensures
            speed == self.spec_speed(),
            self.is_named() ==> is_standard_rate(speed as int),
    {
        match *self {
            BaudRate::Baud110 => 110,
            BaudRate::Baud300 => 300,
            BaudRate::Baud600 => 600,
            BaudRate::Baud1200 => 1200,
            BaudRate::Baud2400 => 2400,
            BaudRate::Baud4800 => 4800,
            BaudRate::Baud9600 => 9600,
            BaudRate::Baud19200 => 19200,
            BaudRate::Baud38400 => 38400,
            BaudRate::Baud57600 => 57600,
            BaudRate::Baud115200 => 115200,
            BaudRate::BaudOther(n) => n,
        }
    }

    /// For each of the eleven named rates, `from_speed` inverts `speed`.
    pub proof fn lemma_named_rate_round_trip(rate: BaudRate)
        requires
            rate.is_named(),
        ensures
            BaudRate::spec_from_speed(rate.spec_speed()) == rate,
    {
    }

    /// A speed that is no standard rate is carried unchanged by `BaudOther`,
    /// and `speed` gives it back.
    pub proof fn lemma_other_rate_round_trip(speed: usize)
        requires
            !is_standard_rate(speed as int),
        ensures
            BaudRate::spec_from_speed(speed) == BaudRate::BaudOther(speed),
            BaudRate::BaudOther(speed).spec_speed() == speed,
    {
    }

    /// `speed` inverts `from_speed` for every integer, and `from_speed`
    /// inverts `speed` exactly on the canonical values.
    pub proof fn lemma_speed_inverse(speed: usize, rate: BaudRate)
        ensures
            BaudRate::spec_from_speed(speed).spec_speed() == speed,
            BaudRate::spec_from_speed(rate.spec_speed()) == rate <==> rate.is_canonical(),
    {
    }
}

/// Number of bits per character.
#[derive(Debug, Copy, Clone, PartialEq, Eq, Structural)]
pub enum DataBits {
    /// 5 bits per character.
    Five,
    /// 6 bits per character.
    Six,
    /// 7 bits per character.
    Seven,
    /// 8 bits per character.
    Eight,
}

/// Parity checking modes.
///
/// With `Odd` or `Even` an extra bit is sent with each character so that the
/// number of 1 bits, parity bit included, is odd or even. With `NoParity` no
/// parity bit is sent.
#[derive(Debug, Copy, Clone, PartialEq, Eq, Structural)]
pub enum Parity {
    /// No parity bit.
    NoParity,
    /// Parity bit sets odd number of 1 bits.
    Odd,
    /// Parity bit sets even number of 1 bits.
    Even,
}

/// Number of stop bits transmitted after every character.
#[derive(Debug, Copy, Clone, PartialEq, Eq, Structural)]
pub enum StopBits {
    /// One stop bit.
    One,
    /// Two stop bits.
    Two,
}

/// Flow control modes.
#[derive(Debug, Copy, Clone, PartialEq, Eq, Structural)]
pub enum FlowControl {
    /// No flow control.
    NoFlowControl,
    /// Flow control using XON/XOFF bytes.
    Software,
    /// Flow control using RTS/CTS signals.
    Hardware,
}

/// All settings of a serial port.
#[derive(Debug, Copy, Clone, PartialEq, Eq)]
pub struct SerialPortSettings {
    /// The baud rate in symbols per second.
    pub baud_rate: BaudRate,
    /// Number of bits used to represent a character sent on the line.
    pub data_bits: DataBits,
    /// The type of signalling to use for controlling data transfer.
    pub flow_control: FlowControl,
    /// The type of parity to use for error checking.
    pub parity: Parity,
    /// Number of bits to use to signal the end of a character.
    pub stop_bits: StopBits,
    /// Amount of time to wait to receive data before timing out.
    pub timeout: Duration,
}

impl SerialPortSettings {
    /// Whether these are the default settings: 9600 baud, 8 data bits, no
    /// flow control, no parity, 1 stop bit and a timeout of 1 ms.
    pub open spec fn is_default(self) -> bool {
        &&& self.baud_rate == BaudRate::Baud9600
        &&& self.data_bits == DataBits::Eight
        &&& self.flow_control == FlowControl::NoFlowControl
        &&& self.parity == Parity::NoParity
        &&& self.stop_bits == StopBits::One
        &&& duration_as_secs(self.timeout) == 0
        &&& duration_subsec_nanos(self.timeout) == 1_000_000
    }
}

/// What is read of the settings of a device: each field as its getter
/// reports it, `None` where the device is in a state that the settings model
/// has no value for.
#[derive(Debug, Copy, Clone, PartialEq, Eq)]
pub struct Reading {
    /// The baud rate.
    pub baud_rate: Option<BaudRate>,
    /// The character size.
    pub data_bits: Option<DataBits>,
    /// The flow control mode.
    pub flow_control: Option<FlowControl>,
    /// The parity mode.
    pub parity: Option<Parity>,
    /// The number of stop bits.
    pub stop_bits: Option<StopBits>,
}

impl Reading {
    /// The settings that the reading amounts to, with the timeout added, if
    /// every field was read.
    pub open spec fn spec_settings(self, timeout: Duration) -> Option<SerialPortSettings> {
        match (self.baud_rate, self.data_bits, self.flow_control, self.parity, self.stop_bits) {
            (
                Some(baud_rate),
                Some(data_bits),
                Some(flow_control),
                Some(parity),
                Some(stop_bits),
            ) => Some(
                SerialPortSettings {
                    baud_rate: baud_rate,
                    data_bits: data_bits,
                    flow_control: flow_control,
                    parity: parity,
                    stop_bits: stop_bits,
                    timeout: timeout,
                },
            ),
            _ => None,
        }
    }

    /// Returns the settings that the reading amounts to, with the timeout
    /// added, or `None` where a field could not be read.
    pub fn settings(&self, timeout: Duration) -> (settings: Option<SerialPortSettings>)
        ensures
            settings == self.spec_settings(timeout),
    {
        match (self.baud_rate, self.data_bits, self.flow_control, self.parity, self.stop_bits) {
            (
                Some(baud_rate),
                Some(data_bits),
                Some(flow_control),
                Some(parity),
                Some(stop_bits),
            ) => Some(
                SerialPortSettings {
                    baud_rate: baud_rate,
                    data_bits: data_bits,
                    flow_control: flow_control,
                    parity: parity,
                    stop_bits: stop_bits,
                    timeout: timeout,
                },
            ),
            _ => None,
        }
    }
}

impl SerialPortSettings {
    /// What is read of a device that holds these settings: every field, the
    /// baud rate as the canonical value of its speed.
    pub open spec fn spec_reading(self) -> Reading {
        Reading {
            baud_rate: Some(BaudRate::spec_from_speed(self.baud_rate.spec_speed())),
            data_bits: Some(self.data_bits),
            flow_control: Some(self.flow_control),
            parity: Some(self.parity),
            stop_bits: Some(self.stop_bits),
        }
    }
}

impl Default for SerialPortSettings {
    /// The default settings: 9600 baud, 8 data bits, no flow control, no
    /// parity, 1 stop bit and a timeout of 1 ms.
    fn default() -> (settings: SerialPortSettings)
        ensures
            settings.is_default(),
            duration_millis(settings.timeout) == 1,
    {
        SerialPortSettings {
            baud_rate: BaudRate::Baud9600,
            data_bits: DataBits::Eight,
            flow_control: FlowControl::NoFlowControl,
            parity: Parity::NoParity,
            stop_bits: StopBits::One,
            timeout: Duration::from_millis(1),
        }
    }
}

} // verus!
