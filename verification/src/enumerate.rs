//! Enumeration: what is reported of a discovered port, and how a candidate
//! that the platform found becomes a report.

use crate::error::{Error, ErrorKind};
use vstd::prelude::*;
use vstd::string::StrSliceExecFns;

verus! {

/// Contains all possible USB information about a serial port.
#[derive(Debug, Clone, PartialEq, Eq)]
pub struct UsbPortInfo {
    /// Vendor ID.
    pub vid: u16,
    /// Product ID.
    pub pid: u16,
    /// Serial number (arbitrary string).
    pub serial_number: Option<String>,
    /// Manufacturer (arbitrary string).
    pub manufacturer: Option<String>,
    /// Product name (arbitrary string).
    pub product: Option<String>,
}

/// The physical type of a serial port.
#[derive(Debug, Clone, PartialEq, Eq)]
pub enum SerialPortType {
    /// The serial port is connected via USB.
    UsbPort(UsbPortInfo),
    /// The serial port is connected via PCI (permanent port).
    PciPort,
    /// It can't be determined how the serial port is connected.
    Unknown,
}

/// A device-independent description of a discovered serial port.
///
/// It is a snapshot: it stands for no open port, and the device may be gone
/// by the time it is opened.
#[derive(Debug, Clone, PartialEq, Eq)]
pub struct SerialPortInfo {
    /// The short name of the serial port.
    pub port_name: String,
    /// The hardware device type that exposes this port.
    pub port_type: SerialPortType,
}

/// The bus that a discovered device hangs on, as far as the platform can
/// tell.
#[derive(Debug, Copy, Clone, PartialEq, Eq, Structural)]
pub enum Bus {
    /// The device's parent bus is USB.
    Usb,
    /// The device's parent bus is PCI.
    Pci,
    /// The platform could not classify the bus.
    Unclassified,
}

/// What the platform's discovery resolved of one candidate device. An
/// attribute that the platform could not supply is absent.
#[derive(Debug, Clone, PartialEq, Eq)]
pub struct Candidate {
    /// The short name of the port.
    pub port_name: String,
    /// The bus of the device.
    pub bus: Bus,
    /// The USB vendor ID.
    pub vid: Option<u16>,
    /// The USB product ID.
    pub pid: Option<u16>,
    /// The USB serial number.
    pub serial_number: Option<String>,
    /// The USB manufacturer string.
    pub manufacturer: Option<String>,
    /// The USB product string.
    pub product: Option<String>,
}

impl Bus {
    /// The bus that the platform's name of a bus stands for: `"usb"` and
    /// `"pci"` are known, any other name is not.
    pub open spec fn spec_from_name(name: Seq<char>) -> Bus {
        if name == "usb"@ {
            Bus::Usb
        } else if name == "pci"@ {
            Bus::Pci
        } else {
            Bus::Unclassified
        }
    }

    /// Classifies a bus by the name that the platform gives it.
    pub fn from_name(name: &str) -> (bus: Bus)
        ensures
            bus == Bus::spec_from_name(name@),
    {
        let name = name.to_owned();
        if name == "usb".to_owned() {
            Bus::Usb
        } else if name == "pci".to_owned() {
            Bus::Pci
        } else {
            Bus::Unclassified
        }
    }
}

/// The value of a hexadecimal digit, in either case.
pub open spec fn hex_digit(c: char) -> Option<nat> {
    if '0' <= c <= '9' {
        Some((c as nat - '0' as nat) as nat)
    } else if 'a' <= c <= 'f' {
        Some((c as nat - 'a' as nat + 10) as nat)
    } else if 'A' <= c <= 'F' {
        Some((c as nat - 'A' as nat + 10) as nat)
    } else {
        None
    }
}

/// Whether the text is a hexadecimal number: one digit or more, and nothing
/// else.
pub open spec fn is_hex(text: Seq<char>) -> bool {
    text.len() > 0 && forall|i: int| 0 <= i < text.len() ==> hex_digit(#[trigger] text[i]) is Some
}

/// The number that hexadecimal digits stand for, the first digit weighing
/// most.
pub open spec fn hex_value(text: Seq<char>) -> nat
    decreases text.len(),
{
    if text.len() == 0 {
        0
    } else {
        hex_value(text.drop_last()) * 16 + hex_digit(text.last()).unwrap_or(0)
    }
}

/// The 16-bit ID that a text stands for, if it is a hexadecimal number that
/// fits 16 bits.
pub open spec fn spec_parse_hex_id(text: Seq<char>) -> Option<u16> {
    if is_hex(text) && hex_value(text) <= u16::MAX {
        Some(hex_value(text) as u16)
    } else {
        None
    }
}

/// The digits before any place stand for no more than all the digits do.
pub proof fn lemma_hex_value_grows(text: Seq<char>, len: int)
    requires
        0 <= len <= text.len(),
    ensures
        hex_value(text.subrange(0, len)) <= hex_value(text),
    decreases text.len(),
{
    if len == text.len() {
        assert(text.subrange(0, len) =~= text);
    } else {
        lemma_hex_value_grows(text.drop_last(), len);
        assert(text.drop_last().subrange(0, len) =~= text.subrange(0, len));
    }
}

/// Reads a vendor or product ID that the platform gives as hexadecimal
/// text, such as `"0403"`. Returns `None` where the text is empty, holds
/// anything but hexadecimal digits, or stands for a number beyond 16 bits.
pub fn parse_hex_id(text: &str) -> (id: Option<u16>)
    ensures
        id == spec_parse_hex_id(text@),
{
    let len = text.unicode_len();
    if len == 0 {
        return None;
    }
    let mut value: u32 = 0;
    let mut i: usize = 0;
    while i < len
        invariant
            len == text@.len(),
            i <= len,
            value == hex_value(text@.subrange(0, i as int)),
            value <= u16::MAX,
            forall|k: int| 0 <= k < i ==> hex_digit(#[trigger] text@[k]) is Some,
        decreases len - i,
    {
        let c = text.get_char(i);
        let digit: u32 = if '0' <= c && c <= '9' {
            c as u32 - '0' as u32
        } else if 'a' <= c && c <= 'f' {
            c as u32 - 'a' as u32 + 10
        } else if 'A' <= c && c <= 'F' {
            c as u32 - 'A' as u32 + 10
        } else {
            return None;
        };
        proof {
            let before = text@.subrange(0, i as int);
            let after = text@.subrange(0, i as int + 1);
            assert(after.drop_last() =~= before);
            assert(after.last() == c);
            assert(hex_value(after) == value * 16 + digit);
            lemma_hex_value_grows(text@, i as int + 1);
        }
        value = value * 16 + digit;
        if value > u16::MAX as u32 {
            return None;
        }
        i += 1;
    }
    proof {
        assert(text@.subrange(0, len as int) =~= text@);
    }
    Some(value as u16)
}

impl Candidate {
    /// How the candidate is attached. A device on USB whose vendor and
    /// product IDs were resolved is a `UsbPort` with all that was resolved; a
    /// device on PCI is a `PciPort`; any other is `Unknown`.
    pub open spec fn spec_port_type(self) -> SerialPortType {
        match (self.bus, self.vid, self.pid) {
            (Bus::Usb, Some(vid), Some(pid)) => SerialPortType::UsbPort(
                UsbPortInfo {
                    vid: vid,
                    pid: pid,
                    serial_number: self.serial_number,
                    manufacturer: self.manufacturer,
                    product: self.product,
                },
            ),
            (Bus::Pci, _, _) => SerialPortType::PciPort,
            _ => SerialPortType::Unknown,
        }
    }

    /// The report on the candidate: its name and how it is attached.
    pub open spec fn spec_info(self) -> SerialPortInfo {
        SerialPortInfo { port_name: self.port_name, port_type: self.spec_port_type() }
    }

    /// Turns the candidate into its report. Every candidate has one: a
    /// device that cannot be classified is reported as `Unknown`.
    pub fn into_info(self) -> (info: SerialPortInfo)
        ensures
            info == self.spec_info(),
    {
        let port_type = match (self.bus, self.vid, self.pid) {
            (Bus::Usb, Some(vid), Some(pid)) => SerialPortType::UsbPort(
                UsbPortInfo {
                    vid: vid,
                    pid: pid,
                    serial_number: self.serial_number,
                    manufacturer: self.manufacturer,
                    product: self.product,
                },
            ),
            (Bus::Pci, _, _) => SerialPortType::PciPort,
            _ => SerialPortType::Unknown,
        };
        SerialPortInfo { port_name: self.port_name, port_type: port_type }
    }
}

/// The reports on a sequence of candidates, one for each and in their order.
pub open spec fn spec_reports(candidates: Seq<Candidate>) -> Seq<SerialPortInfo> {
    candidates.map_values(|c: Candidate| c.spec_info())
}

/// Returns a list of all serial ports on the system, given what the
/// platform's discovery found: `None` where the discovery itself could not
/// be queried, else the candidates.
///
/// Fails, with `Unknown`, only where the discovery could not be queried.
/// Otherwise every candidate is reported, in the order of discovery; that
/// there are none is a success. It is not guaranteed that these ports exist
/// or are available even if they are returned by this function.
pub fn available_ports(discovered: Option<Vec<Candidate>>) -> (result: Result<
    Vec<SerialPortInfo>,
    Error,
>)
    ensures
        match discovered {
            Some(candidates) => result is Ok && result->Ok_0@ == spec_reports(candidates@),
            None => result is Err && result->Err_0.kind == ErrorKind::Unknown
                && result->Err_0.description@ == "the platform's device discovery could not be queried"@,
        },
{
    match discovered {
        None => Err(
            Error::new(ErrorKind::Unknown, "the platform's device discovery could not be queried"),
        ),
        Some(candidates) => {
            let ghost all = candidates@;
            let mut ports: Vec<SerialPortInfo> = Vec::new();
            for candidate in it: candidates
                invariant
                    it.seq() == all,
                    ports@ == spec_reports(all.subrange(0, it.index() as int)),
            {
                ports.push(candidate.into_info());
            }
            Ok(ports)
        },
    }
}

} // verus!
