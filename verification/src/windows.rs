//! How the settings model maps to the Windows device control block and
//! timeout structure, and back.
//!
//! The numbers are those of the Win32 serial interface; each constant names
//! the symbol that it stands for.

use crate::error::{io_error_kind, io_error_raw_os_error, Error, ErrorKind};
use crate::port::{InputSignal, OutputSignal};
use crate::settings::{
    BaudRate, DataBits, FlowControl, Parity, Reading, SerialPortSettings, StopBits,
};
use crate::time::{duration_as_secs, duration_millis, duration_subsec_nanos, whole_millis};
use std::io;
use std::time::Duration;
use vstd::prelude::*;

verus! {

/// `NOPARITY`: no parity bit.
pub const NOPARITY: u8 = 0;

/// `ODDPARITY`: odd parity.
pub const ODDPARITY: u8 = 1;

/// `EVENPARITY`: even parity.
pub const EVENPARITY: u8 = 2;

/// `ONESTOPBIT`: one stop bit.
pub const ONESTOPBIT: u8 = 0;

/// `ONE5STOPBITS`: one and a half stop bits. The settings model has no
/// value for it.
pub const ONE5STOPBITS: u8 = 1;

/// `TWOSTOPBITS`: two stop bits.
pub const TWOSTOPBITS: u8 = 2;

/// The bit of `fOutxCtsFlow` in the flags of the device control block: the
/// CTS signal is monitored for output flow control.
pub const OUTX_CTS_FLOW: u32 = 0x0004;

/// The bit of `fOutX`: XON/XOFF flow control during transmission.
pub const OUT_X: u32 = 0x0100;

/// The bit of `fInX`: XON/XOFF flow control during reception.
pub const IN_X: u32 = 0x0200;

/// The two bits of `fRtsControl`: the RTS flow control.
pub const RTS_CONTROL: u32 = 0x3000;

/// `RTS_CONTROL_HANDSHAKE`, in the place of `fRtsControl`.
pub const RTS_CONTROL_HANDSHAKE: u32 = 0x2000;

/// All the bits of the flags that hold the flow control mode: those of
/// `fOutxCtsFlow`, `fOutX`, `fInX` and `fRtsControl`.
pub const FLOW_BITS: u32 = 0x3304;

/// `SETRTS`: the function code that sends the RTS signal.
pub const SETRTS: u32 = 3;

/// `CLRRTS`: the function code that clears the RTS signal.
pub const CLRRTS: u32 = 4;

/// `SETDTR`: the function code that sends the DTR signal.
pub const SETDTR: u32 = 5;

/// `CLRDTR`: the function code that clears the DTR signal.
pub const CLRDTR: u32 = 6;

/// `MS_CTS_ON`: the CTS signal is on, in the modem status.
pub const MS_CTS_ON: u32 = 0x0010;

/// `MS_DSR_ON`: the DSR signal is on, in the modem status.
pub const MS_DSR_ON: u32 = 0x0020;

/// `MS_RING_ON`: the ring indicator is on, in the modem status.
pub const MS_RING_ON: u32 = 0x0040;

/// `MS_RLSD_ON`: the carrier detect signal is on, in the modem status.
pub const MS_RLSD_ON: u32 = 0x0080;

/// `MAXDWORD`: as the interval timeout, with both total timeouts zero, it
/// makes a read return at once with what has been received.
pub const MAXDWORD: u32 = 0xffff_ffff;

/// The fields of the device control block that the serial settings live in.
#[derive(Debug, Copy, Clone, PartialEq, Eq, Structural)]
pub struct Dcb {
    /// `BaudRate`: the baud rate, as an integer.
    pub baud_rate: u32,
    /// The bit fields, `fBinary` lowest.
    pub flags: u32,
    /// `ByteSize`: the number of bits per character.
    pub byte_size: u8,
    /// `Parity`: the parity scheme.
    pub parity: u8,
    /// `StopBits`: the number of stop bits.
    pub stop_bits: u8,
}

impl Dcb {
    /// Whether the device can be put in the state of the block: the
    /// interface rules out 5 bits per character with 2 stop bits, and 6, 7
    /// or 8 bits per character with one and a half.
    pub open spec fn spec_is_representable(&self) -> bool {
        &&& !(self.byte_size == 5 && self.stop_bits == TWOSTOPBITS)
        &&& !(6 <= self.byte_size <= 8 && self.stop_bits == ONE5STOPBITS)
    }

    /// The baud rate that the block holds, as the canonical value of its
    /// integer.
    pub open spec fn spec_baud_rate(self) -> Option<BaudRate> {
        Some(BaudRate::spec_from_speed(self.baud_rate as usize))
    }

    /// The character size that the block holds, if it is 5 to 8 bits.
    pub open spec fn spec_data_bits(self) -> Option<DataBits> {
        if self.byte_size == 5 {
            Some(DataBits::Five)
        } else if self.byte_size == 6 {
            Some(DataBits::Six)
        } else if self.byte_size == 7 {
            Some(DataBits::Seven)
        } else if self.byte_size == 8 {
            Some(DataBits::Eight)
        } else {
            None
        }
    }

    /// The flow control mode that the block holds: hardware where CTS is
    /// monitored and RTS handshakes, software where XON/XOFF is on in both
    /// directions, none where all of these are off. Any other state is none
    /// of the three.
    pub open spec fn spec_flow_control(self) -> Option<FlowControl> {
        let flow = self.flags & FLOW_BITS;
        if flow == 0 {
            Some(FlowControl::NoFlowControl)
        } else if flow == OUT_X | IN_X {
            Some(FlowControl::Software)
        } else if flow == OUTX_CTS_FLOW | RTS_CONTROL_HANDSHAKE {
            Some(FlowControl::Hardware)
        } else {
            None
        }
    }

    /// The parity mode that the block holds, if it is none, odd or even.
    pub open spec fn spec_parity(self) -> Option<Parity> {
        if self.parity == NOPARITY {
            Some(Parity::NoParity)
        } else if self.parity == ODDPARITY {
            Some(Parity::Odd)
        } else if self.parity == EVENPARITY {
            Some(Parity::Even)
        } else {
            None
        }
    }

    /// The number of stop bits that the block holds, if it is one or two.
    pub open spec fn spec_stop_bits(self) -> Option<StopBits> {
        if self.stop_bits == ONESTOPBIT {
            Some(StopBits::One)
        } else if self.stop_bits == TWOSTOPBITS {
            Some(StopBits::Two)
        } else {
            None
        }
    }

    /// What is read of the block: each field as its getter reports it.
    pub open spec fn spec_read(self) -> Reading {
        Reading {
            baud_rate: self.spec_baud_rate(),
            data_bits: self.spec_data_bits(),
            flow_control: self.spec_flow_control(),
            parity: self.spec_parity(),
            stop_bits: self.spec_stop_bits(),
        }
    }

    /// Tells whether the device can be put in the state of the block.
    #[verifier::when_used_as_spec(spec_is_representable)]
    pub fn is_representable(&self) -> (ok: bool)
        ensures
            ok == self.spec_is_representable(),
    {
        !(self.byte_size == 5 && self.stop_bits == TWOSTOPBITS) && !(6 <= self.byte_size
            && self.byte_size <= 8 && self.stop_bits == ONE5STOPBITS)
    }

    /// Returns the baud rate that the block holds. Every integer is a rate.
    pub fn baud_rate(&self) -> (baud_rate: Option<BaudRate>)
        ensures
            baud_rate == self.spec_baud_rate(),
    {
        Some(BaudRate::from_speed(self.baud_rate as usize))
    }

    /// Returns the character size that the block holds, or `None` where it
    /// is not 5 to 8 bits.
    pub fn data_bits(&self) -> (data_bits: Option<DataBits>)
        ensures
            data_bits == self.spec_data_bits(),
    {
        match self.byte_size {
            5 => Some(DataBits::Five),
            6 => Some(DataBits::Six),
            7 => Some(DataBits::Seven),
            8 => Some(DataBits::Eight),
            _ => None,
        }
    }

    /// Returns the flow control mode that the block holds, or `None` where
    /// it holds a mix that is none of the three modes.
    pub fn flow_control(&self) -> (flow_control: Option<FlowControl>)
        ensures
            flow_control == self.spec_flow_control(),
    {
        let flow = self.flags & FLOW_BITS;
        if flow == 0 {
            Some(FlowControl::NoFlowControl)
        } else if flow == OUT_X | IN_X {
            Some(FlowControl::Software)
        } else if flow == OUTX_CTS_FLOW | RTS_CONTROL_HANDSHAKE {
            Some(FlowControl::Hardware)
        } else {
            None
        }
    }

    /// Returns the parity mode that the block holds, or `None` where it is
    /// mark or space parity or no parity scheme at all.
    pub fn parity(&self) -> (parity: Option<Parity>)
        ensures
            parity == self.spec_parity(),
    {
        if self.parity == NOPARITY {
            Some(Parity::NoParity)
        } else if self.parity == ODDPARITY {
            Some(Parity::Odd)
        } else if self.parity == EVENPARITY {
            Some(Parity::Even)
        } else {
            None
        }
    }

    /// Returns the number of stop bits that the block holds, or `None` where
    /// it is one and a half or no number of stop bits at all.
    pub fn stop_bits(&self) -> (stop_bits: Option<StopBits>)
        ensures
            stop_bits == self.spec_stop_bits(),
    {
        if self.stop_bits == ONESTOPBIT {
            Some(StopBits::One)
        } else if self.stop_bits == TWOSTOPBITS {
            Some(StopBits::Two)
        } else {
            None
        }
    }

    /// The code of a character size: the number of bits.
    pub open spec fn spec_size_code(data_bits: DataBits) -> u8 {
        match data_bits {
            DataBits::Five => 5,
            DataBits::Six => 6,
            DataBits::Seven => 7,
            DataBits::Eight => 8,
        }
    }

    /// The code of a parity mode.
    pub open spec fn spec_parity_code(parity: Parity) -> u8 {
        match parity {
            Parity::NoParity => NOPARITY,
            Parity::Odd => ODDPARITY,
            Parity::Even => EVENPARITY,
        }
    }

    /// The code of a number of stop bits.
    pub open spec fn spec_stop_code(stop_bits: StopBits) -> u8 {
        match stop_bits {
            StopBits::One => ONESTOPBIT,
            StopBits::Two => TWOSTOPBITS,
        }
    }

    /// The flag bits of a flow control mode.
    pub open spec fn spec_flow_code(flow_control: FlowControl) -> u32 {
        match flow_control {
            FlowControl::NoFlowControl => 0,
            FlowControl::Software => OUT_X | IN_X,
            FlowControl::Hardware => OUTX_CTS_FLOW | RTS_CONTROL_HANDSHAKE,
        }
    }

    /// The block with the baud rate replaced, where the rate fits the field.
    pub open spec fn spec_with_baud_rate(self, baud_rate: BaudRate) -> Option<Dcb> {
        if baud_rate.spec_speed() <= u32::MAX {
            Some(
                Dcb {
                    baud_rate: baud_rate.spec_speed() as u32,
                    flags: self.flags,
                    byte_size: self.byte_size,
                    parity: self.parity,
                    stop_bits: self.stop_bits,
                },
            )
        } else {
            None
        }
    }

    /// The block with the character size replaced, where the device can be
    /// put in that state.
    pub open spec fn spec_with_data_bits(self, data_bits: DataBits) -> Option<Dcb> {
        let set = Dcb {
            baud_rate: self.baud_rate,
            flags: self.flags,
            byte_size: Dcb::spec_size_code(data_bits),
            parity: self.parity,
            stop_bits: self.stop_bits,
        };
        if set.spec_is_representable() {
            Some(set)
        } else {
            None
        }
    }

    /// The block with the flow control mode replaced.
    pub open spec fn spec_with_flow_control(self, flow_control: FlowControl) -> Dcb {
        Dcb {
            baud_rate: self.baud_rate,
            flags: (self.flags & !FLOW_BITS) | Dcb::spec_flow_code(flow_control),
            byte_size: self.byte_size,
            parity: self.parity,
            stop_bits: self.stop_bits,
        }
    }

    /// The block with the parity mode replaced.
    pub open spec fn spec_with_parity(self, parity: Parity) -> Dcb {
        Dcb {
            baud_rate: self.baud_rate,
            flags: self.flags,
            byte_size: self.byte_size,
            parity: Dcb::spec_parity_code(parity),
            stop_bits: self.stop_bits,
        }
    }

    /// The block with the number of stop bits replaced, where the device can
    /// be put in that state.
    pub open spec fn spec_with_stop_bits(self, stop_bits: StopBits) -> Option<Dcb> {
        let set = Dcb {
            baud_rate: self.baud_rate,
            flags: self.flags,
            byte_size: self.byte_size,
            parity: self.parity,
            stop_bits: Dcb::spec_stop_code(stop_bits),
        };
        if set.spec_is_representable() {
            Some(set)
        } else {
            None
        }
    }

    /// Whether the interface can represent `settings`, the timeout apart:
    /// the baud rate fits its field, and the settings are not 5 bits per
    /// character with 2 stop bits.
    pub open spec fn spec_can_hold(settings: SerialPortSettings) -> bool {
        &&& settings.baud_rate.spec_speed() <= u32::MAX
        &&& !(settings.data_bits == DataBits::Five && settings.stop_bits == StopBits::Two)
    }

    /// The block with every field of `settings` applied, where the interface
    /// can represent them. The timeout is no part of the block.
    pub open spec fn spec_with_settings(self, settings: SerialPortSettings) -> Option<Dcb> {
        if Dcb::spec_can_hold(settings) {
            Some(
                Dcb {
                    baud_rate: settings.baud_rate.spec_speed() as u32,
                    flags: (self.flags & !FLOW_BITS) | Dcb::spec_flow_code(settings.flow_control),
                    byte_size: Dcb::spec_size_code(settings.data_bits),
                    parity: Dcb::spec_parity_code(settings.parity),
                    stop_bits: Dcb::spec_stop_code(settings.stop_bits),
                },
            )
        } else {
            None
        }
    }

    /// A flow control mode that was set is the one that is read, and no flag
    /// outside the flow control bits changes.
    pub proof fn lemma_with_flow_control(self, flow_control: FlowControl)
        ensures
            self.spec_with_flow_control(flow_control).spec_read() == (Reading {
                flow_control: Some(flow_control),
                ..self.spec_read()
            }),
            self.spec_with_flow_control(flow_control).flags & !FLOW_BITS == self.flags
                & !FLOW_BITS,
    {
        let flags = self.flags;
        let code = Dcb::spec_flow_code(flow_control);
        assert(((flags & !0x3304u32) | code) & 0x3304u32 == code && ((flags & !0x3304u32) | code)
            & !0x3304u32 == flags & !0x3304u32) by (bit_vector)
            requires
                code == 0 || code == 0x0100u32 | 0x0200u32 || code == 0x0004u32 | 0x2000u32,
        ;
        assert(0x0100u32 | 0x0200u32 != 0 && 0x0004u32 | 0x2000u32 != 0 && 0x0100u32 | 0x0200u32
            != 0x0004u32 | 0x2000u32) by (bit_vector);
    }

    /// Once every field of `settings` was applied, the block holds every
    /// field of it.
    pub proof fn lemma_with_settings(self, settings: SerialPortSettings)
        requires
            self.spec_with_settings(settings) is Some,
        ensures
            self.spec_with_settings(settings).unwrap().spec_read() == settings.spec_reading(),
            self.spec_with_settings(settings).unwrap().spec_is_representable(),
    {
        self.lemma_with_flow_control(settings.flow_control);
    }

    /// Applying settings that the block holds already succeeds, and the
    /// block holds them afterwards as before.
    pub proof fn lemma_reapply_settings(self, settings: SerialPortSettings)
        requires
            self.spec_read() == settings.spec_reading(),
            self.spec_is_representable(),
        ensures
            self.spec_with_settings(settings) is Some,
            self.spec_with_settings(settings).unwrap().spec_read() == settings.spec_reading(),
    {
        BaudRate::lemma_speed_inverse(self.baud_rate as usize, settings.baud_rate);
        BaudRate::lemma_speed_inverse(settings.baud_rate.spec_speed(), settings.baud_rate);
        self.lemma_with_settings(settings);
    }

    /// Setting a field to the value that is read of it succeeds and changes
    /// nothing that is read, in every state that the device can be in.
    pub proof fn lemma_set_again(self, settings: SerialPortSettings)
        requires
            self.spec_is_representable(),
        ensures
            self.spec_baud_rate() == Some(settings.baud_rate) ==> self.spec_with_baud_rate(
                settings.baud_rate,
            ) == Some(self),
            self.spec_data_bits() == Some(settings.data_bits) ==> self.spec_with_data_bits(
                settings.data_bits,
            ) == Some(self),
            self.spec_flow_control() == Some(settings.flow_control) ==> self.spec_with_flow_control(
                settings.flow_control,
            ).spec_read() == self.spec_read(),
            self.spec_parity() == Some(settings.parity) ==> self.spec_with_parity(settings.parity)
                == self,
            self.spec_stop_bits() == Some(settings.stop_bits) ==> self.spec_with_stop_bits(
                settings.stop_bits,
            ) == Some(self),
    {
        BaudRate::lemma_speed_inverse(self.baud_rate as usize, settings.baud_rate);
        self.lemma_with_flow_control(settings.flow_control);
    }

    /// Where the interface cannot represent a request, no block is made for
    /// it: a block that comes of a request holds what was asked for, never
    /// another value in its place.
    pub proof fn lemma_nothing_is_clamped(self, settings: SerialPortSettings)
        ensures
            self.spec_with_settings(settings) is Some <==> Dcb::spec_can_hold(settings),
            self.spec_with_settings(settings) matches Some(set) ==> set.spec_read()
                == settings.spec_reading(),
    {
        if self.spec_with_settings(settings) is Some {
            self.lemma_with_settings(settings);
        }
    }

    /// Sets the baud rate in the block. Any rate is passed through as it is.
    ///
    /// Fails with `InvalidInput`, and only then, where the rate does not fit
    /// the field of the block.
    pub fn with_baud_rate(&self, baud_rate: BaudRate) -> (result: Result<Dcb, Error>)
        ensures
            match result {
                Ok(set) => self.spec_with_baud_rate(baud_rate) == Some(set) && set.spec_read()
                    == (Reading {
                    baud_rate: Some(BaudRate::spec_from_speed(baud_rate.spec_speed())),
                    ..self.spec_read()
                }),
                Err(error) => self.spec_with_baud_rate(baud_rate) is None && error.kind
                    == ErrorKind::InvalidInput && error.description@
                    == "the baud rate does not fit the device control block"@,
            },
    {
        let speed = baud_rate.speed();
        if speed <= u32::MAX as usize {
            Ok(
                Dcb {
                    baud_rate: speed as u32,
                    flags: self.flags,
                    byte_size: self.byte_size,
                    parity: self.parity,
                    stop_bits: self.stop_bits,
                },
            )
        } else {
            Err(
                Error::new(
                    ErrorKind::InvalidInput,
                    "the baud rate does not fit the device control block",
                ),
            )
        }
    }

    /// Sets the character size in the block.
    ///
    /// Fails with `InvalidInput`, and only then, where the device cannot
    /// have that size with the stop bits that the block holds.
    pub fn with_data_bits(&self, data_bits: DataBits) -> (result: Result<Dcb, Error>)
        ensures
            match result {
                Ok(set) => self.spec_with_data_bits(data_bits) == Some(set) && set.spec_read()
                    == (Reading { data_bits: Some(data_bits), ..self.spec_read() }),
                Err(error) => self.spec_with_data_bits(data_bits) is None && error.kind
                    == ErrorKind::InvalidInput && error.description@
                    == "the device cannot combine the character size and the stop bits"@,
            },
    {
        let set = Dcb {
            baud_rate: self.baud_rate,
            flags: self.flags,
            byte_size: size_code(data_bits),
            parity: self.parity,
            stop_bits: self.stop_bits,
        };
        if set.is_representable() {
            Ok(set)
        } else {
            Err(
                Error::new(
                    ErrorKind::InvalidInput,
                    "the device cannot combine the character size and the stop bits",
                ),
            )
        }
    }

    /// Sets the flow control mode in the block.
    pub fn with_flow_control(&self, flow_control: FlowControl) -> (set: Dcb)
        ensures
            set == self.spec_with_flow_control(flow_control),
            set.spec_read() == (Reading { flow_control: Some(flow_control), ..self.spec_read() }),
    {
        proof {
            self.lemma_with_flow_control(flow_control);
        }
        Dcb {
            baud_rate: self.baud_rate,
            flags: (self.flags & !FLOW_BITS) | flow_code(flow_control),
            byte_size: self.byte_size,
            parity: self.parity,
            stop_bits: self.stop_bits,
        }
    }

    /// Sets the parity mode in the block.
    pub fn with_parity(&self, parity: Parity) -> (set: Dcb)
        ensures
            set == self.spec_with_parity(parity),
            set.spec_read() == (Reading { parity: Some(parity), ..self.spec_read() }),
    {
        Dcb {
            baud_rate: self.baud_rate,
            flags: self.flags,
            byte_size: self.byte_size,
            parity: parity_code(parity),
            stop_bits: self.stop_bits,
        }
    }

    /// Sets the number of stop bits in the block.
    ///
    /// Fails with `InvalidInput`, and only then, where the device cannot
    /// have that number with the character size that the block holds.
    pub fn with_stop_bits(&self, stop_bits: StopBits) -> (result: Result<Dcb, Error>)
        ensures
            match result {
                Ok(set) => self.spec_with_stop_bits(stop_bits) == Some(set) && set.spec_read()
                    == (Reading { stop_bits: Some(stop_bits), ..self.spec_read() }),
                Err(error) => self.spec_with_stop_bits(stop_bits) is None && error.kind
                    == ErrorKind::InvalidInput && error.description@
                    == "the device cannot combine the character size and the stop bits"@,
            },
    {
        let set = Dcb {
            baud_rate: self.baud_rate,
            flags: self.flags,
            byte_size: self.byte_size,
            parity: self.parity,
            stop_bits: stop_code(stop_bits),
        };
        if set.is_representable() {
            Ok(set)
        } else {
            Err(
                Error::new(
                    ErrorKind::InvalidInput,
                    "the device cannot combine the character size and the stop bits",
                ),
            )
        }
    }

    /// Applies every field of `settings` to the block, the timeout apart,
    /// which the block does not hold.
    ///
    /// Fails with `InvalidInput`, and only then, where the interface cannot
    /// represent the settings: the baud rate does not fit its field, or the
    /// settings ask for 5 bits per character with 2 stop bits. On success
    /// the block holds every field, and the device can be put in its state.
    pub fn with_settings(&self, settings: &SerialPortSettings) -> (result: Result<Dcb, Error>)
        ensures
            match result {
                Ok(set) => self.spec_with_settings(*settings) == Some(set) && set.spec_read()
                    == settings.spec_reading() && set.spec_is_representable(),
                Err(error) => !Dcb::spec_can_hold(*settings) && error.kind
                    == ErrorKind::InvalidInput,
            },
    {
        let with_rate = match self.with_baud_rate(settings.baud_rate) {
            Ok(with_rate) => with_rate,
            Err(error) => {
                return Err(error);
            },
        };
        let set = Dcb {
            baud_rate: with_rate.baud_rate,
            flags: (self.flags & !FLOW_BITS) | flow_code(settings.flow_control),
            byte_size: size_code(settings.data_bits),
            parity: parity_code(settings.parity),
            stop_bits: stop_code(settings.stop_bits),
        };
        if set.is_representable() {
            proof {
                self.lemma_with_settings(*settings);
            }
            Ok(set)
        } else {
            Err(
                Error::new(
                    ErrorKind::InvalidInput,
                    "the device cannot combine the character size and the stop bits",
                ),
            )
        }
    }

    /// Reads every field from the block.
    pub fn read(&self) -> (reading: Reading)
        ensures
            reading == self.spec_read(),
    {
        Reading {
            baud_rate: self.baud_rate(),
            data_bits: self.data_bits(),
            flow_control: self.flow_control(),
            parity: self.parity(),
            stop_bits: self.stop_bits(),
        }
    }

    /// Reads all settings from the block and adds the timeout, which the
    /// block does not hold. Returns `None` where a field cannot be read.
    pub fn settings(&self, timeout: Duration) -> (settings: Option<SerialPortSettings>)
        ensures
            settings == self.spec_read().spec_settings(timeout),
    {
        self.read().settings(timeout)
    }
}

/// Returns the code of a character size: the number of bits.
fn size_code(data_bits: DataBits) -> (code: u8)
    ensures
        code == Dcb::spec_size_code(data_bits),
{
    match data_bits {
        DataBits::Five => 5,
        DataBits::Six => 6,
        DataBits::Seven => 7,
        DataBits::Eight => 8,
    }
}

/// Returns the code of a parity mode.
fn parity_code(parity: Parity) -> (code: u8)
    ensures
        code == Dcb::spec_parity_code(parity),
{
    match parity {
        Parity::NoParity => NOPARITY,
        Parity::Odd => ODDPARITY,
        Parity::Even => EVENPARITY,
    }
}

/// Returns the code of a number of stop bits.
fn stop_code(stop_bits: StopBits) -> (code: u8)
    ensures
        code == Dcb::spec_stop_code(stop_bits),
{
    match stop_bits {
        StopBits::One => ONESTOPBIT,
        StopBits::Two => TWOSTOPBITS,
    }
}

/// Returns the flag bits of a flow control mode.
fn flow_code(flow_control: FlowControl) -> (code: u32)
    ensures
        code == Dcb::spec_flow_code(flow_control),
{
    match flow_control {
        FlowControl::NoFlowControl => 0,
        FlowControl::Software => OUT_X | IN_X,
        FlowControl::Hardware => OUTX_CTS_FLOW | RTS_CONTROL_HANDSHAKE,
    }
}

/// The timeout structure of the device, all in milliseconds.
#[derive(Debug, Copy, Clone, PartialEq, Eq, Structural)]
pub struct CommTimeouts {
    /// `ReadIntervalTimeout`: the longest time between two bytes.
    pub read_interval_timeout: u32,
    /// `ReadTotalTimeoutMultiplier`: the time per byte asked for.
    pub read_total_timeout_multiplier: u32,
    /// `ReadTotalTimeoutConstant`: the time added for each read.
    pub read_total_timeout_constant: u32,
    /// `WriteTotalTimeoutMultiplier`: the time per byte written.
    pub write_total_timeout_multiplier: u32,
    /// `WriteTotalTimeoutConstant`: the time added for each write.
    pub write_total_timeout_constant: u32,
}

impl CommTimeouts {
    /// The timeout structure for a read timeout of `millis` milliseconds.
    /// The timeout holds for each read as a whole, whatever its length, and
    /// not from byte to byte; a timeout of zero makes a read return at once.
    /// Writes have no timeout.
    pub open spec fn spec_for_millis(millis: u32) -> CommTimeouts {
        CommTimeouts {
            read_interval_timeout: if millis == 0 {
                MAXDWORD
            } else {
                0
            },
            read_total_timeout_multiplier: 0,
            read_total_timeout_constant: millis,
            write_total_timeout_multiplier: 0,
            write_total_timeout_constant: 0,
        }
    }

    /// Makes the timeout structure for the read timeout `timeout`, of which
    /// the whole milliseconds count.
    ///
    /// Fails with `InvalidInput`, and only then, where the milliseconds do
    /// not fit the field of the structure.
    pub fn for_timeout(timeout: &Duration) -> (result: Result<CommTimeouts, Error>)
        ensures
            match result {
                Ok(timeouts) => duration_millis(*timeout) <= u32::MAX && timeouts
                    == CommTimeouts::spec_for_millis(duration_millis(*timeout) as u32),
                Err(error) => duration_millis(*timeout) > u32::MAX && error.kind
                    == ErrorKind::InvalidInput && error.description@
                    == "the timeout does not fit the timeout structure"@,
            },
    {
        let millis = whole_millis(timeout);
        if millis <= u32::MAX as u128 {
            let millis = millis as u32;
            Ok(
                CommTimeouts {
                    read_interval_timeout: if millis == 0 {
                        MAXDWORD
                    } else {
                        0
                    },
                    read_total_timeout_multiplier: 0,
                    read_total_timeout_constant: millis,
                    write_total_timeout_multiplier: 0,
                    write_total_timeout_constant: 0,
                },
            )
        } else {
            Err(Error::new(ErrorKind::InvalidInput, "the timeout does not fit the timeout structure"))
        }
    }

    /// Returns the read timeout that the structure holds for a read as a
    /// whole: so many milliseconds, and nothing below a millisecond.
    pub fn timeout(&self) -> (timeout: Duration)
        ensures
            duration_millis(timeout) == self.read_total_timeout_constant,
            duration_as_secs(timeout) == self.read_total_timeout_constant / 1000,
            duration_subsec_nanos(timeout) == (self.read_total_timeout_constant % 1000)
                * 1_000_000,
    {
        Duration::from_millis(self.read_total_timeout_constant as u64)
    }

    /// Setting the timeout that is read of a structure which was made for a
    /// timeout succeeds and gives the same structure.
    pub proof fn lemma_set_again(self, timeout: Duration)
        requires
            self == CommTimeouts::spec_for_millis(self.read_total_timeout_constant),
            duration_millis(timeout) == self.read_total_timeout_constant,
        ensures
            duration_millis(timeout) <= u32::MAX,
            CommTimeouts::spec_for_millis(duration_millis(timeout) as u32) == self,
    {
    }
}

/// The function code that drives a signal to a level.
pub open spec fn spec_escape_function(signal: OutputSignal, level: bool) -> u32 {
    match (signal, level) {
        (OutputSignal::RequestToSend, true) => SETRTS,
        (OutputSignal::RequestToSend, false) => CLRRTS,
        (OutputSignal::DataTerminalReady, true) => SETDTR,
        (OutputSignal::DataTerminalReady, false) => CLRDTR,
    }
}

/// The bit of a signal in the modem status.
pub open spec fn spec_status_bit(signal: InputSignal) -> u32 {
    match signal {
        InputSignal::ClearToSend => MS_CTS_ON,
        InputSignal::DataSetReady => MS_DSR_ON,
        InputSignal::RingIndicator => MS_RING_ON,
        InputSignal::CarrierDetect => MS_RLSD_ON,
    }
}

/// Returns the function code that asserts (`true`) or clears (`false`) a
/// signal that the port drives.
#[verifier::when_used_as_spec(spec_escape_function)]
pub fn escape_function(signal: OutputSignal, level: bool) -> (code: u32)
    ensures
        code == spec_escape_function(signal, level),
{
    match (signal, level) {
        (OutputSignal::RequestToSend, true) => SETRTS,
        (OutputSignal::RequestToSend, false) => CLRRTS,
        (OutputSignal::DataTerminalReady, true) => SETDTR,
        (OutputSignal::DataTerminalReady, false) => CLRDTR,
    }
}

/// Returns the bit of a signal in the modem status.
#[verifier::when_used_as_spec(spec_status_bit)]
pub fn status_bit(signal: InputSignal) -> (bit: u32)
    ensures
        bit == spec_status_bit(signal),
{
    match signal {
        InputSignal::ClearToSend => MS_CTS_ON,
        InputSignal::DataSetReady => MS_DSR_ON,
        InputSignal::RingIndicator => MS_RING_ON,
        InputSignal::CarrierDetect => MS_RLSD_ON,
    }
}

/// Tells whether a signal is asserted in the modem status: whether its bit
/// is set.
pub fn signal_is_asserted(modem_status: u32, signal: InputSignal) -> (asserted: bool)
    ensures
        asserted == (modem_status & spec_status_bit(signal) != 0),
{
    modem_status & status_bit(signal) != 0
}

/// `ERROR_FILE_NOT_FOUND`: the system cannot find the file.
pub const ERROR_FILE_NOT_FOUND: i32 = 2;

/// `ERROR_PATH_NOT_FOUND`: the system cannot find the path.
pub const ERROR_PATH_NOT_FOUND: i32 = 3;

/// `ERROR_ACCESS_DENIED`: access is denied, as it is to a port that another
/// process holds.
pub const ERROR_ACCESS_DENIED: i32 = 5;

/// `ERROR_BAD_UNIT`: the system cannot find the device.
pub const ERROR_BAD_UNIT: i32 = 20;

/// `ERROR_NOT_READY`: the device is not ready.
pub const ERROR_NOT_READY: i32 = 21;

/// `ERROR_GEN_FAILURE`: a device attached to the system is not functioning.
pub const ERROR_GEN_FAILURE: i32 = 31;

/// `ERROR_DEV_NOT_EXIST`: the device is no longer available.
pub const ERROR_DEV_NOT_EXIST: i32 = 55;

/// `ERROR_INVALID_PARAMETER`: the parameter is incorrect.
pub const ERROR_INVALID_PARAMETER: i32 = 87;

/// `ERROR_DEVICE_NOT_CONNECTED`: the device is not connected.
pub const ERROR_DEVICE_NOT_CONNECTED: i32 = 1167;

/// Whether an error code says that the device is absent, gone or held by
/// another process.
pub open spec fn spec_is_no_device_code(code: i32) -> bool {
    code == ERROR_FILE_NOT_FOUND || code == ERROR_PATH_NOT_FOUND || code == ERROR_ACCESS_DENIED
        || code == ERROR_BAD_UNIT || code == ERROR_NOT_READY || code == ERROR_GEN_FAILURE || code
        == ERROR_DEV_NOT_EXIST || code == ERROR_DEVICE_NOT_CONNECTED
}

/// The kind of error that a failed native call stands for, given the error
/// code of the operating system, if there is one, and the native kind.
///
/// The device is not available where it is absent, gone or held by another
/// process. The input is invalid where the system refused a parameter. Any
/// other failure is an I/O error of the native kind.
pub open spec fn spec_device_error_kind(code: Option<i32>, kind: io::ErrorKind) -> ErrorKind {
    match code {
        Some(code) => if spec_is_no_device_code(code) {
            ErrorKind::NoDevice
        } else if code == ERROR_INVALID_PARAMETER {
            ErrorKind::InvalidInput
        } else {
            ErrorKind::Io(kind)
        },
        None => ErrorKind::Io(kind),
    }
}

/// Classifies the failure of a native call on a device. The message of the
/// native error becomes the description.
pub fn device_error(native: io::Error) -> (error: Error)
    ensures
        error.describes(
            native,
            spec_device_error_kind(io_error_raw_os_error(native), io_error_kind(native)),
        ),
{
    let kind = match native.raw_os_error() {
        Some(code) => if code == ERROR_FILE_NOT_FOUND || code == ERROR_PATH_NOT_FOUND || code
            == ERROR_ACCESS_DENIED || code == ERROR_BAD_UNIT || code == ERROR_NOT_READY || code
            == ERROR_GEN_FAILURE || code == ERROR_DEV_NOT_EXIST || code
            == ERROR_DEVICE_NOT_CONNECTED {
            ErrorKind::NoDevice
        } else if code == ERROR_INVALID_PARAMETER {
            ErrorKind::InvalidInput
        } else {
            ErrorKind::Io(native.kind())
        },
        None => ErrorKind::Io(native.kind()),
    };
    Error::with_kind(native, kind)
}

} // verus!
