//! How the settings model maps to the POSIX terminal structure and back.
//!
//! The flag bits and the speed codes of the terminal structure differ from
//! one POSIX system to the next. A backend describes its platform once, in a
//! `TermiosLayout`; every function here works on plain words and is proved
//! for all platforms whose description is well formed.

use crate::error::{io_error_kind, io_error_raw_os_error, Error, ErrorKind};
use crate::port::{InputSignal, OutputSignal};
use crate::settings::{
    BaudRate, DataBits, FlowControl, Parity, Reading, SerialPortSettings, StopBits,
};
use crate::time::{duration_millis, whole_millis};
use std::io;
use std::time::Duration;
use vstd::prelude::*;

verus! {

/// The flag bits of the terminal structure that the serial settings live in,
/// each as the platform defines it.
#[derive(Debug, Copy, Clone, PartialEq, Eq, Structural)]
pub struct TermiosBits {
    /// `CSIZE`: the mask of the character size, in the control flags.
    pub csize: u64,
    /// `CS5`: 5 bits per character.
    pub cs5: u64,
    /// `CS6`: 6 bits per character.
    pub cs6: u64,
    /// `CS7`: 7 bits per character.
    pub cs7: u64,
    /// `CS8`: 8 bits per character.
    pub cs8: u64,
    /// `CSTOPB`: two stop bits rather than one, in the control flags.
    pub cstopb: u64,
    /// `PARENB`: parity generation and checking, in the control flags.
    pub parenb: u64,
    /// `PARODD`: odd parity rather than even, in the control flags.
    pub parodd: u64,
    /// `CRTSCTS`: RTS/CTS flow control, in the control flags.
    pub crtscts: u64,
    /// `IXON`: XON/XOFF flow control on output, in the input flags.
    pub ixon: u64,
    /// `IXOFF`: XON/XOFF flow control on input, in the input flags.
    pub ixoff: u64,
    /// `INPCK`: input parity checking, in the input flags.
    pub inpck: u64,
    /// `IGNPAR`: ignore characters with parity errors, in the input flags.
    pub ignpar: u64,
}

impl TermiosBits {
    /// The four character sizes lie within `csize`, and no two are the same.
    pub open spec fn sizes_wf(self) -> bool {
        &&& self.cs5 & self.csize == self.cs5
        &&& self.cs6 & self.csize == self.cs6
        &&& self.cs7 & self.csize == self.cs7
        &&& self.cs8 & self.csize == self.cs8
        &&& self.cs5 != self.cs6
        &&& self.cs5 != self.cs7
        &&& self.cs5 != self.cs8
        &&& self.cs6 != self.cs7
        &&& self.cs6 != self.cs8
        &&& self.cs7 != self.cs8
    }

    /// Every flag that a getter tests has a bit.
    pub open spec fn flags_wf(self) -> bool {
        &&& self.cstopb != 0
        &&& self.parenb != 0
        &&& self.parodd != 0
        &&& self.crtscts != 0
        &&& self.ixon != 0
        &&& self.ixoff != 0
    }

    /// No two fields of the control flags share a bit.
    pub open spec fn control_wf(self) -> bool {
        &&& self.csize & self.cstopb == 0
        &&& self.csize & self.parenb == 0
        &&& self.csize & self.parodd == 0
        &&& self.csize & self.crtscts == 0
        &&& self.cstopb & self.parenb == 0
        &&& self.cstopb & self.parodd == 0
        &&& self.cstopb & self.crtscts == 0
        &&& self.parenb & self.parodd == 0
        &&& self.parenb & self.crtscts == 0
        &&& self.parodd & self.crtscts == 0
    }

    /// No two fields of the input flags share a bit.
    pub open spec fn input_wf(self) -> bool {
        &&& self.ixon & self.ixoff == 0
        &&& self.ixon & self.inpck == 0
        &&& self.ixon & self.ignpar == 0
        &&& self.ixoff & self.inpck == 0
        &&& self.ixoff & self.ignpar == 0
        &&& self.inpck & self.ignpar == 0
    }

    /// The description is one that the mapping can work with.
    pub open spec fn wf(self) -> bool {
        &&& self.sizes_wf()
        &&& self.flags_wf()
        &&& self.control_wf()
        &&& self.input_wf()
    }

    /// Tells whether the description is well formed.
    pub fn is_well_formed(&self) -> (ok: bool)
        ensures
            ok == self.wf(),
    {
        let sizes = self.cs5 & self.csize == self.cs5 && self.cs6 & self.csize == self.cs6
            && self.cs7 & self.csize == self.cs7 && self.cs8 & self.csize == self.cs8 && self.cs5
            != self.cs6 && self.cs5 != self.cs7 && self.cs5 != self.cs8 && self.cs6 != self.cs7
            && self.cs6 != self.cs8 && self.cs7 != self.cs8;
        let flags = self.cstopb != 0 && self.parenb != 0 && self.parodd != 0 && self.crtscts != 0
            && self.ixon != 0 && self.ixoff != 0;
        let control = self.csize & self.cstopb == 0 && self.csize & self.parenb == 0 && self.csize
            & self.parodd == 0 && self.csize & self.crtscts == 0 && self.cstopb & self.parenb == 0
            && self.cstopb & self.parodd == 0 && self.cstopb & self.crtscts == 0 && self.parenb
            & self.parodd == 0 && self.parenb & self.crtscts == 0 && self.parodd & self.crtscts
            == 0;
        let input = self.ixon & self.ixoff == 0 && self.ixon & self.inpck == 0 && self.ixon
            & self.ignpar == 0 && self.ixoff & self.inpck == 0 && self.ixoff & self.ignpar == 0
            && self.inpck & self.ignpar == 0;
        sizes && flags && control && input
    }

    /// The code of a character size.
    pub open spec fn spec_size_code(self, data_bits: DataBits) -> u64 {
        match data_bits {
            DataBits::Five => self.cs5,
            DataBits::Six => self.cs6,
            DataBits::Seven => self.cs7,
            DataBits::Eight => self.cs8,
        }
    }

    /// The bits of the control flags that stand for a parity mode.
    pub open spec fn spec_parity_code(self, parity: Parity) -> u64 {
        match parity {
            Parity::NoParity => 0,
            Parity::Odd => self.parenb | self.parodd,
            Parity::Even => self.parenb,
        }
    }

    /// The bits of the input flags that go with a parity mode: errors are
    /// ignored without parity and checked with it.
    pub open spec fn spec_parity_check_code(self, parity: Parity) -> u64 {
        match parity {
            Parity::NoParity => self.ignpar,
            Parity::Odd => self.inpck,
            Parity::Even => self.inpck,
        }
    }

    /// The bits of the control flags that stand for a number of stop bits.
    pub open spec fn spec_stop_code(self, stop_bits: StopBits) -> u64 {
        match stop_bits {
            StopBits::One => 0,
            StopBits::Two => self.cstopb,
        }
    }

    /// The bits of the control flags that stand for a flow control mode.
    pub open spec fn spec_hardware_flow_code(self, flow_control: FlowControl) -> u64 {
        match flow_control {
            FlowControl::Hardware => self.crtscts,
            _ => 0,
        }
    }

    /// The bits of the input flags that stand for a flow control mode.
    pub open spec fn spec_software_flow_code(self, flow_control: FlowControl) -> u64 {
        match flow_control {
            FlowControl::Software => self.ixon | self.ixoff,
            _ => 0,
        }
    }
}

/// The word `word` with the bits under `mask` replaced by `value`.
pub open spec fn spec_replace_bits(word: u64, mask: u64, value: u64) -> u64 {
    (word & !mask) | value
}

/// Replaces the bits of `word` under `mask` by `value`. The bits under the
/// mask are then those of `value`, and no other bit has changed.
fn replace_bits(word: u64, mask: u64, value: u64) -> (replaced: u64)
    requires
        value & mask == value,
    ensures
        replaced == spec_replace_bits(word, mask, value),
        replaced & mask == value,
        replaced & !mask == word & !mask,
{
    let replaced = (word & !mask) | value;
    assert(((word & !mask) | value) & mask == value && ((word & !mask) | value) & !mask == word
        & !mask) by (bit_vector)
        requires
            value & mask == value,
    ;
    replaced
}

/// One speed of the platform: a rate in symbols per second and the code that
/// the terminal structure holds for it.
#[derive(Debug, Copy, Clone, PartialEq, Eq, Structural)]
pub struct SpeedCode {
    /// The rate in symbols per second.
    pub rate: usize,
    /// The platform's code for the rate.
    pub code: u64,
}

/// No rate and no code occurs twice in a table of speeds.
pub open spec fn speeds_wf(speeds: Seq<SpeedCode>) -> bool {
    forall|i: int, j: int|
        0 <= i < j < speeds.len() ==> (#[trigger] speeds[i]).rate != (#[trigger] speeds[j]).rate
            && speeds[i].code != speeds[j].code
}

/// Whether the table of speeds holds `rate`.
pub open spec fn has_rate(speeds: Seq<SpeedCode>, rate: usize) -> bool {
    exists|i: int| 0 <= i < speeds.len() && (#[trigger] speeds[i]).rate == rate
}

/// Whether the table of speeds holds `code`.
pub open spec fn has_code(speeds: Seq<SpeedCode>, code: u64) -> bool {
    exists|i: int| 0 <= i < speeds.len() && (#[trigger] speeds[i]).code == code
}

/// The code that the table holds for `rate`, if it holds the rate.
pub open spec fn spec_code_of(speeds: Seq<SpeedCode>, rate: usize) -> Option<u64> {
    if has_rate(speeds, rate) {
        Some(
            speeds[choose|i: int| 0 <= i < speeds.len() && (#[trigger] speeds[i]).rate == rate].code,
        )
    } else {
        None
    }
}

/// The rate that the table holds for `code`, if it holds the code.
pub open spec fn spec_rate_of(speeds: Seq<SpeedCode>, code: u64) -> Option<usize> {
    if has_code(speeds, code) {
        Some(
            speeds[choose|i: int| 0 <= i < speeds.len() && (#[trigger] speeds[i]).code == code].rate,
        )
    } else {
        None
    }
}

/// In a well-formed table the entry at `index` is what both lookups find.
pub proof fn lemma_speed_entry(speeds: Seq<SpeedCode>, index: int)
    requires
        speeds_wf(speeds),
        0 <= index < speeds.len(),
    ensures
        spec_code_of(speeds, speeds[index].rate) == Some(speeds[index].code),
        spec_rate_of(speeds, speeds[index].code) == Some(speeds[index].rate),
{
    let rate = speeds[index].rate;
    let code = speeds[index].code;
    assert(has_rate(speeds, rate));
    assert(has_code(speeds, code));
    let by_rate = choose|i: int| 0 <= i < speeds.len() && (#[trigger] speeds[i]).rate == rate;
    let by_code = choose|i: int| 0 <= i < speeds.len() && (#[trigger] speeds[i]).code == code;
    assert(by_rate == index);
    assert(by_code == index);
}

/// In a well-formed table, looking up the code of a rate and then the rate
/// of that code gives the rate back, and likewise from a code.
pub proof fn lemma_speed_round_trip(speeds: Seq<SpeedCode>, rate: usize, code: u64)
    requires
        speeds_wf(speeds),
    ensures
        spec_code_of(speeds, rate) == Some(code) ==> spec_rate_of(speeds, code) == Some(rate),
        spec_rate_of(speeds, code) == Some(rate) ==> spec_code_of(speeds, rate) == Some(code),
{
    if spec_code_of(speeds, rate) == Some(code) {
        let i = choose|i: int| 0 <= i < speeds.len() && (#[trigger] speeds[i]).rate == rate;
        lemma_speed_entry(speeds, i);
    }
    if spec_rate_of(speeds, code) == Some(rate) {
        let i = choose|i: int| 0 <= i < speeds.len() && (#[trigger] speeds[i]).code == code;
        lemma_speed_entry(speeds, i);
    }
}

/// Tells whether no rate and no code occurs twice in `speeds`.
pub fn speeds_are_well_formed(speeds: &Vec<SpeedCode>) -> (ok: bool)
    ensures
        ok == speeds_wf(speeds@),
{
    let n = speeds.len();
    let mut j: usize = 0;
    while j < n
        invariant
            n == speeds@.len(),
            j <= n,
            forall|a: int, b: int|
                0 <= a < b < j ==> (#[trigger] speeds@[a]).rate != (#[trigger] speeds@[b]).rate
                    && speeds@[a].code != speeds@[b].code,
        decreases n - j,
    {
        let mut i: usize = 0;
        while i < j
            invariant
                n == speeds@.len(),
                i <= j < n,
                forall|a: int|
                    0 <= a < i ==> (#[trigger] speeds@[a]).rate != speeds@[j as int].rate
                        && speeds@[a].code != speeds@[j as int].code,
            decreases j - i,
        {
            if speeds[i].rate == speeds[j].rate || speeds[i].code == speeds[j].code {
                return false;
            }
            i += 1;
        }
        j += 1;
    }
    true
}

/// The configuration words of the terminal structure that the serial
/// settings live in.
#[derive(Debug, Copy, Clone, PartialEq, Eq, Structural)]
pub struct Termios {
    /// The input flags.
    pub c_iflag: u64,
    /// The control flags.
    pub c_cflag: u64,
    /// The code of the input speed.
    pub ispeed: u64,
    /// The code of the output speed.
    pub ospeed: u64,
}

/// The description of one POSIX platform: its flag bits and its speeds.
///
/// A value of this type is always well formed, so the mapping needs no
/// precondition.
#[derive(Debug)]
pub struct TermiosLayout {
    bits: TermiosBits,
    speeds: Vec<SpeedCode>,
}

impl TermiosLayout {
    #[verifier::type_invariant]
    closed spec fn inv(self) -> bool {
        self.bits.wf() && speeds_wf(self.speeds@)
    }

    /// The flag bits of the platform.
    pub closed spec fn spec_bits(self) -> TermiosBits {
        self.bits
    }

    /// The speeds of the platform.
    pub closed spec fn spec_speeds(self) -> Seq<SpeedCode> {
        self.speeds@
    }

    /// The flag bits and the table of speeds are well formed. This holds of
    /// every value that a program can hold.
    pub open spec fn wf(self) -> bool {
        self.spec_bits().wf() && speeds_wf(self.spec_speeds())
    }

    /// Describes a platform, if the flag bits and the speeds are well formed.
    pub fn new(bits: TermiosBits, speeds: Vec<SpeedCode>) -> (layout: Option<TermiosLayout>)
        ensures
            layout is Some <==> bits.wf() && speeds_wf(speeds@),
            layout matches Some(l) ==> l.wf() && l.spec_bits() == bits && l.spec_speeds()
                == speeds@,
    {
        let bits_ok = bits.is_well_formed();
        let speeds_ok = speeds_are_well_formed(&speeds);
        if bits_ok && speeds_ok {
            Some(TermiosLayout { bits: bits, speeds: speeds })
        } else {
            None
        }
    }

    /// Returns the flag bits of the platform.
    pub fn bits(&self) -> (bits: TermiosBits)
        ensures
            bits == self.spec_bits(),
            self.wf(),
    {
        proof {
            use_type_invariant(self);
        }
        self.bits
    }

    /// Returns the platform's code for `rate`, if the platform has that rate.
    pub fn code_of(&self, rate: usize) -> (code: Option<u64>)
        ensures
            code == spec_code_of(self.spec_speeds(), rate),
    {
        proof {
            use_type_invariant(self);
        }
        let n = self.speeds.len();
        let mut i: usize = 0;
        while i < n
            invariant
                n == self.speeds@.len(),
                i <= n,
                speeds_wf(self.speeds@),
                forall|a: int| 0 <= a < i ==> (#[trigger] self.speeds@[a]).rate != rate,
            decreases n - i,
        {
            if self.speeds[i].rate == rate {
                proof {
                    lemma_speed_entry(self.speeds@, i as int);
                }
                return Some(self.speeds[i].code);
            }
            i += 1;
        }
        None
    }

    /// Returns the rate that the platform's `code` stands for, if the
    /// platform has that code.
    pub fn rate_of(&self, code: u64) -> (rate: Option<usize>)
        ensures
            rate == spec_rate_of(self.spec_speeds(), code),
    {
        proof {
            use_type_invariant(self);
        }
        let n = self.speeds.len();
        let mut i: usize = 0;
        while i < n
            invariant
                n == self.speeds@.len(),
                i <= n,
                speeds_wf(self.speeds@),
                forall|a: int| 0 <= a < i ==> (#[trigger] self.speeds@[a]).code != code,
            decreases n - i,
        {
            if self.speeds[i].code == code {
                proof {
                    lemma_speed_entry(self.speeds@, i as int);
                }
                return Some(self.speeds[i].rate);
            }
            i += 1;
        }
        None
    }

    /// The baud rate that the words hold: the rate of the speed code, where
    /// the input and the output speed are the same and the platform knows
    /// the code.
    pub open spec fn spec_baud_rate(self, termios: Termios) -> Option<BaudRate> {
        if termios.ispeed != termios.ospeed {
            None
        } else {
            match spec_rate_of(self.spec_speeds(), termios.ospeed) {
                Some(rate) => Some(BaudRate::spec_from_speed(rate)),
                None => None,
            }
        }
    }

    /// The character size that the words hold, if it is one of the four.
    pub open spec fn spec_data_bits(self, termios: Termios) -> Option<DataBits> {
        let size = termios.c_cflag & self.spec_bits().csize;
        if size == self.spec_bits().cs5 {
            Some(DataBits::Five)
        } else if size == self.spec_bits().cs6 {
            Some(DataBits::Six)
        } else if size == self.spec_bits().cs7 {
            Some(DataBits::Seven)
        } else if size == self.spec_bits().cs8 {
            Some(DataBits::Eight)
        } else {
            None
        }
    }

    /// The flow control mode that the words hold: hardware where only
    /// RTS/CTS is on, software where only XON/XOFF is on in both directions,
    /// none where both are off. Any other state is none of the three.
    pub open spec fn spec_flow_control(self, termios: Termios) -> Option<FlowControl> {
        let hardware = termios.c_cflag & self.spec_bits().crtscts;
        let software = termios.c_iflag & (self.spec_bits().ixon | self.spec_bits().ixoff);
        if hardware == 0 && software == 0 {
            Some(FlowControl::NoFlowControl)
        } else if hardware != 0 && software == 0 {
            Some(FlowControl::Hardware)
        } else if hardware == 0 && software == (self.spec_bits().ixon | self.spec_bits().ixoff) {
            Some(FlowControl::Software)
        } else {
            None
        }
    }

    /// The parity mode that the words hold.
    pub open spec fn spec_parity(self, termios: Termios) -> Option<Parity> {
        if termios.c_cflag & self.spec_bits().parenb == 0 {
            Some(Parity::NoParity)
        } else if termios.c_cflag & self.spec_bits().parodd == 0 {
            Some(Parity::Even)
        } else {
            Some(Parity::Odd)
        }
    }

    /// The number of stop bits that the words hold.
    pub open spec fn spec_stop_bits(self, termios: Termios) -> Option<StopBits> {
        if termios.c_cflag & self.spec_bits().cstopb == 0 {
            Some(StopBits::One)
        } else {
            Some(StopBits::Two)
        }
    }

    /// What is read of the words: each field as its getter reports it.
    pub open spec fn spec_read(self, termios: Termios) -> Reading {
        Reading {
            baud_rate: self.spec_baud_rate(termios),
            data_bits: self.spec_data_bits(termios),
            flow_control: self.spec_flow_control(termios),
            parity: self.spec_parity(termios),
            stop_bits: self.spec_stop_bits(termios),
        }
    }

    /// Returns the baud rate that the words hold, or `None` where the two
    /// speeds differ or the platform does not know the code.
    pub fn baud_rate(&self, termios: &Termios) -> (baud_rate: Option<BaudRate>)
        ensures
            baud_rate == self.spec_baud_rate(*termios),
    {
        if termios.ispeed != termios.ospeed {
            return None;
        }
        match self.rate_of(termios.ospeed) {
            Some(rate) => Some(BaudRate::from_speed(rate)),
            None => None,
        }
    }

    /// Returns the character size that the words hold, or `None` where it is
    /// none of the four.
    pub fn data_bits(&self, termios: &Termios) -> (data_bits: Option<DataBits>)
        ensures
            data_bits == self.spec_data_bits(*termios),
    {
        let size = termios.c_cflag & self.bits.csize;
        if size == self.bits.cs5 {
            Some(DataBits::Five)
        } else if size == self.bits.cs6 {
            Some(DataBits::Six)
        } else if size == self.bits.cs7 {
            Some(DataBits::Seven)
        } else if size == self.bits.cs8 {
            Some(DataBits::Eight)
        } else {
            None
        }
    }

    /// Returns the flow control mode that the words hold, or `None` where
    /// they hold a mix that is none of the three modes.
    pub fn flow_control(&self, termios: &Termios) -> (flow_control: Option<FlowControl>)
        ensures
            flow_control == self.spec_flow_control(*termios),
    {
        let hardware = termios.c_cflag & self.bits.crtscts;
        let software = termios.c_iflag & (self.bits.ixon | self.bits.ixoff);
        if hardware == 0 && software == 0 {
            Some(FlowControl::NoFlowControl)
        } else if hardware != 0 && software == 0 {
            Some(FlowControl::Hardware)
        } else if hardware == 0 && software == (self.bits.ixon | self.bits.ixoff) {
            Some(FlowControl::Software)
        } else {
            None
        }
    }

    /// Returns the parity mode that the words hold.
    pub fn parity(&self, termios: &Termios) -> (parity: Option<Parity>)
        ensures
            parity == self.spec_parity(*termios),
            parity is Some,
    {
        if termios.c_cflag & self.bits.parenb == 0 {
            Some(Parity::NoParity)
        } else if termios.c_cflag & self.bits.parodd == 0 {
            Some(Parity::Even)
        } else {
            Some(Parity::Odd)
        }
    }

    /// Returns the number of stop bits that the words hold.
    pub fn stop_bits(&self, termios: &Termios) -> (stop_bits: Option<StopBits>)
        ensures
            stop_bits == self.spec_stop_bits(*termios),
            stop_bits is Some,
    {
        if termios.c_cflag & self.bits.cstopb == 0 {
            Some(StopBits::One)
        } else {
            Some(StopBits::Two)
        }
    }

    /// The words with the baud rate replaced, where the platform has a code
    /// for the rate. Both speeds get the code; the flags stay.
    pub open spec fn spec_with_baud_rate(self, termios: Termios, baud_rate: BaudRate) -> Option<
        Termios,
    > {
        match spec_code_of(self.spec_speeds(), baud_rate.spec_speed()) {
            Some(code) => Some(
                Termios {
                    c_iflag: termios.c_iflag,
                    c_cflag: termios.c_cflag,
                    ispeed: code,
                    ospeed: code,
                },
            ),
            None => None,
        }
    }

    /// The words with the character size replaced.
    pub open spec fn spec_with_data_bits(self, termios: Termios, data_bits: DataBits) -> Termios {
        Termios {
            c_iflag: termios.c_iflag,
            c_cflag: spec_replace_bits(
                termios.c_cflag,
                self.spec_bits().csize,
                self.spec_bits().spec_size_code(data_bits),
            ),
            ispeed: termios.ispeed,
            ospeed: termios.ospeed,
        }
    }

    /// The words with the flow control mode replaced.
    pub open spec fn spec_with_flow_control(
        self,
        termios: Termios,
        flow_control: FlowControl,
    ) -> Termios {
        Termios {
            c_iflag: spec_replace_bits(
                termios.c_iflag,
                self.spec_bits().ixon | self.spec_bits().ixoff,
                self.spec_bits().spec_software_flow_code(flow_control),
            ),
            c_cflag: spec_replace_bits(
                termios.c_cflag,
                self.spec_bits().crtscts,
                self.spec_bits().spec_hardware_flow_code(flow_control),
            ),
            ispeed: termios.ispeed,
            ospeed: termios.ospeed,
        }
    }

    /// The words with the parity mode replaced, and with input parity
    /// checking switched to match.
    pub open spec fn spec_with_parity(self, termios: Termios, parity: Parity) -> Termios {
        Termios {
            c_iflag: spec_replace_bits(
                termios.c_iflag,
                self.spec_bits().inpck | self.spec_bits().ignpar,
                self.spec_bits().spec_parity_check_code(parity),
            ),
            c_cflag: spec_replace_bits(
                termios.c_cflag,
                self.spec_bits().parenb | self.spec_bits().parodd,
                self.spec_bits().spec_parity_code(parity),
            ),
            ispeed: termios.ispeed,
            ospeed: termios.ospeed,
        }
    }

    /// The words with the number of stop bits replaced.
    pub open spec fn spec_with_stop_bits(self, termios: Termios, stop_bits: StopBits) -> Termios {
        Termios {
            c_iflag: termios.c_iflag,
            c_cflag: spec_replace_bits(
                termios.c_cflag,
                self.spec_bits().cstopb,
                self.spec_bits().spec_stop_code(stop_bits),
            ),
            ispeed: termios.ispeed,
            ospeed: termios.ospeed,
        }
    }

    /// The words with every field of `settings` applied, where the platform
    /// has a code for the baud rate. The timeout is no part of the words.
    pub open spec fn spec_with_settings(
        self,
        termios: Termios,
        settings: SerialPortSettings,
    ) -> Option<Termios> {
        match self.spec_with_baud_rate(termios, settings.baud_rate) {
            Some(with_rate) => Some(
                self.spec_with_stop_bits(
                    self.spec_with_parity(
                        self.spec_with_flow_control(
                            self.spec_with_data_bits(with_rate, settings.data_bits),
                            settings.flow_control,
                        ),
                        settings.parity,
                    ),
                    settings.stop_bits,
                ),
            ),
            None => None,
        }
    }

    /// A baud rate that was set is the one that is read, as the canonical
    /// value of its speed, and setting it changes nothing else that is read.
    pub proof fn lemma_with_baud_rate(self, termios: Termios, baud_rate: BaudRate)
        requires
            self.wf(),
            self.spec_with_baud_rate(termios, baud_rate) is Some,
        ensures
            self.spec_read(self.spec_with_baud_rate(termios, baud_rate).unwrap()) == (Reading {
                baud_rate: Some(BaudRate::spec_from_speed(baud_rate.spec_speed())),
                ..self.spec_read(termios)
            }),
    {
        let code = spec_code_of(self.spec_speeds(), baud_rate.spec_speed()).unwrap();
        lemma_speed_round_trip(self.spec_speeds(), baud_rate.spec_speed(), code);
    }

    /// A character size that was set is the one that is read, and setting it
    /// changes nothing else that is read.
    pub proof fn lemma_with_data_bits(self, termios: Termios, data_bits: DataBits)
        requires
            self.wf(),
        ensures
            self.spec_read(self.spec_with_data_bits(termios, data_bits)) == (Reading {
                data_bits: Some(data_bits),
                ..self.spec_read(termios)
            }),
    {
        let b = self.spec_bits();
        let c = termios.c_cflag;
        let code = b.spec_size_code(data_bits);
        let (csize, cstopb, parenb, parodd, crtscts) = (
            b.csize,
            b.cstopb,
            b.parenb,
            b.parodd,
            b.crtscts,
        );
        assert(((c & !csize) | code) & csize == code && ((c & !csize) | code) & cstopb == c
            & cstopb && ((c & !csize) | code) & parenb == c & parenb && ((c & !csize) | code)
            & parodd == c & parodd && ((c & !csize) | code) & crtscts == c & crtscts)
            by (bit_vector)
            requires
                code & csize == code,
                csize & cstopb == 0,
                csize & parenb == 0,
                csize & parodd == 0,
                csize & crtscts == 0,
        ;
    }

    /// A flow control mode that was set is the one that is read, and setting
    /// it changes nothing else that is read.
    pub proof fn lemma_with_flow_control(self, termios: Termios, flow_control: FlowControl)
        requires
            self.wf(),
        ensures
            self.spec_read(self.spec_with_flow_control(termios, flow_control)) == (Reading {
                flow_control: Some(flow_control),
                ..self.spec_read(termios)
            }),
    {
        let b = self.spec_bits();
        let c = termios.c_cflag;
        let i = termios.c_iflag;
        let hard = b.spec_hardware_flow_code(flow_control);
        let soft = b.spec_software_flow_code(flow_control);
        let (csize, cstopb, parenb, parodd, crtscts) = (
            b.csize,
            b.cstopb,
            b.parenb,
            b.parodd,
            b.crtscts,
        );
        let (ixon, ixoff) = (b.ixon, b.ixoff);
        assert(((c & !crtscts) | hard) & crtscts == hard && ((c & !crtscts) | hard) & csize == c
            & csize && ((c & !crtscts) | hard) & cstopb == c & cstopb && ((c & !crtscts) | hard)
            & parenb == c & parenb && ((c & !crtscts) | hard) & parodd == c & parodd)
            by (bit_vector)
            requires
                hard == 0 || hard == crtscts,
                csize & crtscts == 0,
                cstopb & crtscts == 0,
                parenb & crtscts == 0,
                parodd & crtscts == 0,
        ;
        assert(((i & !(ixon | ixoff)) | soft) & (ixon | ixoff) == soft && (ixon | ixoff) != 0)
            by (bit_vector)
            requires
                soft == 0 || soft == (ixon | ixoff),
                ixon != 0,
        ;
    }

    /// A parity mode that was set is the one that is read, and setting it
    /// changes nothing else that is read.
    pub proof fn lemma_with_parity(self, termios: Termios, parity: Parity)
        requires
            self.wf(),
        ensures
            self.spec_read(self.spec_with_parity(termios, parity)) == (Reading {
                parity: Some(parity),
                ..self.spec_read(termios)
            }),
    {
        let b = self.spec_bits();
        let c = termios.c_cflag;
        let i = termios.c_iflag;
        let code = b.spec_parity_code(parity);
        let check = b.spec_parity_check_code(parity);
        let (csize, cstopb, parenb, parodd, crtscts) = (
            b.csize,
            b.cstopb,
            b.parenb,
            b.parodd,
            b.crtscts,
        );
        let (ixon, ixoff, inpck, ignpar) = (b.ixon, b.ixoff, b.inpck, b.ignpar);
        assert(((c & !(parenb | parodd)) | code) & parenb == code & parenb && ((c & !(parenb
            | parodd)) | code) & parodd == code & parodd && ((c & !(parenb | parodd)) | code)
            & csize == c & csize && ((c & !(parenb | parodd)) | code) & cstopb == c & cstopb && ((c
            & !(parenb | parodd)) | code) & crtscts == c & crtscts) by (bit_vector)
            requires
                code == 0 || code == parenb || code == (parenb | parodd),
                csize & parenb == 0,
                csize & parodd == 0,
                cstopb & parenb == 0,
                cstopb & parodd == 0,
                parenb & crtscts == 0,
                parodd & crtscts == 0,
        ;
        assert(0u64 & parenb == 0 && parenb & parenb == parenb && parenb & parodd == 0 && (parenb
            | parodd) & parenb == parenb && (parenb | parodd) & parodd == parodd) by (bit_vector)
            requires
                parenb & parodd == 0,
        ;
        assert(((i & !(inpck | ignpar)) | check) & (ixon | ixoff) == i & (ixon | ixoff))
            by (bit_vector)
            requires
                check == inpck || check == ignpar,
                ixon & inpck == 0,
                ixon & ignpar == 0,
                ixoff & inpck == 0,
                ixoff & ignpar == 0,
        ;
    }

    /// A number of stop bits that was set is the one that is read, and
    /// setting it changes nothing else that is read.
    pub proof fn lemma_with_stop_bits(self, termios: Termios, stop_bits: StopBits)
        requires
            self.wf(),
        ensures
            self.spec_read(self.spec_with_stop_bits(termios, stop_bits)) == (Reading {
                stop_bits: Some(stop_bits),
                ..self.spec_read(termios)
            }),
    {
        let b = self.spec_bits();
        let c = termios.c_cflag;
        let code = b.spec_stop_code(stop_bits);
        let (csize, cstopb, parenb, parodd, crtscts) = (
            b.csize,
            b.cstopb,
            b.parenb,
            b.parodd,
            b.crtscts,
        );
        assert(((c & !cstopb) | code) & cstopb == code && ((c & !cstopb) | code) & csize == c
            & csize && ((c & !cstopb) | code) & parenb == c & parenb && ((c & !cstopb) | code)
            & parodd == c & parodd && ((c & !cstopb) | code) & crtscts == c & crtscts)
            by (bit_vector)
            requires
                code == 0 || code == cstopb,
                csize & cstopb == 0,
                cstopb & parenb == 0,
                cstopb & parodd == 0,
                cstopb & crtscts == 0,
        ;
    }

    /// Once every field of `settings` was applied, the words hold every
    /// field of it.
    pub proof fn lemma_with_settings(self, termios: Termios, settings: SerialPortSettings)
        requires
            self.wf(),
            self.spec_with_settings(termios, settings) is Some,
        ensures
            self.spec_read(self.spec_with_settings(termios, settings).unwrap())
                == settings.spec_reading(),
    {
        let with_rate = self.spec_with_baud_rate(termios, settings.baud_rate).unwrap();
        let with_size = self.spec_with_data_bits(with_rate, settings.data_bits);
        let with_flow = self.spec_with_flow_control(with_size, settings.flow_control);
        let with_parity = self.spec_with_parity(with_flow, settings.parity);
        self.lemma_with_baud_rate(termios, settings.baud_rate);
        self.lemma_with_data_bits(with_rate, settings.data_bits);
        self.lemma_with_flow_control(with_size, settings.flow_control);
        self.lemma_with_parity(with_flow, settings.parity);
        self.lemma_with_stop_bits(with_parity, settings.stop_bits);
    }

    /// Applying settings that the words hold already succeeds, and the words
    /// hold them afterwards as before.
    pub proof fn lemma_reapply_settings(self, termios: Termios, settings: SerialPortSettings)
        requires
            self.wf(),
            self.spec_read(termios) == settings.spec_reading(),
        ensures
            self.spec_with_settings(termios, settings) is Some,
            self.spec_read(self.spec_with_settings(termios, settings).unwrap())
                == settings.spec_reading(),
    {
        let rate = spec_rate_of(self.spec_speeds(), termios.ospeed).unwrap();
        BaudRate::lemma_speed_inverse(rate, settings.baud_rate);
        BaudRate::lemma_speed_inverse(settings.baud_rate.spec_speed(), settings.baud_rate);
        lemma_speed_round_trip(self.spec_speeds(), rate, termios.ospeed);
        self.lemma_with_settings(termios, settings);
    }

    /// Setting a field to the value that is read of it succeeds and changes
    /// nothing that is read.
    pub proof fn lemma_set_again(self, termios: Termios, settings: SerialPortSettings)
        requires
            self.wf(),
        ensures
            self.spec_baud_rate(termios) == Some(settings.baud_rate) ==> self.spec_with_baud_rate(
                termios,
                settings.baud_rate,
            ) is Some && self.spec_read(
                self.spec_with_baud_rate(termios, settings.baud_rate).unwrap(),
            ) == self.spec_read(termios),
            self.spec_data_bits(termios) == Some(settings.data_bits) ==> self.spec_read(
                self.spec_with_data_bits(termios, settings.data_bits),
            ) == self.spec_read(termios),
            self.spec_flow_control(termios) == Some(settings.flow_control) ==> self.spec_read(
                self.spec_with_flow_control(termios, settings.flow_control),
            ) == self.spec_read(termios),
            self.spec_parity(termios) == Some(settings.parity) ==> self.spec_read(
                self.spec_with_parity(termios, settings.parity),
            ) == self.spec_read(termios),
            self.spec_stop_bits(termios) == Some(settings.stop_bits) ==> self.spec_read(
                self.spec_with_stop_bits(termios, settings.stop_bits),
            ) == self.spec_read(termios),
    {
        if self.spec_baud_rate(termios) == Some(settings.baud_rate) {
            let rate = spec_rate_of(self.spec_speeds(), termios.ospeed).unwrap();
            BaudRate::lemma_speed_inverse(rate, settings.baud_rate);
            lemma_speed_round_trip(self.spec_speeds(), rate, termios.ospeed);
            self.lemma_with_baud_rate(termios, settings.baud_rate);
        }
        self.lemma_with_data_bits(termios, settings.data_bits);
        self.lemma_with_flow_control(termios, settings.flow_control);
        self.lemma_with_parity(termios, settings.parity);
        self.lemma_with_stop_bits(termios, settings.stop_bits);
    }

    /// A request that the platform cannot represent gives no words, and
    /// words that come of a request hold what was asked for, never another
    /// value in its place.
    pub proof fn lemma_nothing_is_clamped(self, termios: Termios, settings: SerialPortSettings)
        requires
            self.wf(),
        ensures
            self.spec_with_settings(termios, settings) is Some <==> has_rate(
                self.spec_speeds(),
                settings.baud_rate.spec_speed(),
            ),
            self.spec_with_settings(termios, settings) matches Some(set) ==> self.spec_read(set)
                == settings.spec_reading(),
    {
        if self.spec_with_settings(termios, settings) is Some {
            self.lemma_with_settings(termios, settings);
        }
    }

    /// Sets the baud rate in the words.
    ///
    /// Fails with `InvalidInput`, and only then, where the platform has no
    /// code for the rate; no other rate is put in its place.
    pub fn with_baud_rate(&self, termios: &Termios, baud_rate: BaudRate) -> (result: Result<
        Termios,
        Error,
    >)
        ensures
            match result {
                Ok(set) => self.spec_with_baud_rate(*termios, baud_rate) == Some(set)
                    && self.spec_read(set) == (Reading {
                    baud_rate: Some(BaudRate::spec_from_speed(baud_rate.spec_speed())),
                    ..self.spec_read(*termios)
                }),
                Err(error) => self.spec_with_baud_rate(*termios, baud_rate) is None && error.kind
                    == ErrorKind::InvalidInput && error.description@
                    == "the platform does not support the baud rate"@,
            },
    {
        proof {
            use_type_invariant(self);
        }
        match self.code_of(baud_rate.speed()) {
            Some(code) => {
                proof {
                    self.lemma_with_baud_rate(*termios, baud_rate);
                }
                Ok(
                    Termios {
                        c_iflag: termios.c_iflag,
                        c_cflag: termios.c_cflag,
                        ispeed: code,
                        ospeed: code,
                    },
                )
            },
            None => Err(
                Error::new(ErrorKind::InvalidInput, "the platform does not support the baud rate"),
            ),
        }
    }

    /// Sets the character size in the words.
    pub fn with_data_bits(&self, termios: &Termios, data_bits: DataBits) -> (set: Termios)
        ensures
            set == self.spec_with_data_bits(*termios, data_bits),
            self.spec_read(set) == (Reading {
                data_bits: Some(data_bits),
                ..self.spec_read(*termios)
            }),
    {
        proof {
            use_type_invariant(self);
            self.lemma_with_data_bits(*termios, data_bits);
        }
        let code = match data_bits {
            DataBits::Five => self.bits.cs5,
            DataBits::Six => self.bits.cs6,
            DataBits::Seven => self.bits.cs7,
            DataBits::Eight => self.bits.cs8,
        };
        Termios {
            c_iflag: termios.c_iflag,
            c_cflag: replace_bits(termios.c_cflag, self.bits.csize, code),
            ispeed: termios.ispeed,
            ospeed: termios.ospeed,
        }
    }

    /// Sets the flow control mode in the words.
    pub fn with_flow_control(&self, termios: &Termios, flow_control: FlowControl) -> (set: Termios)
        ensures
            set == self.spec_with_flow_control(*termios, flow_control),
            self.spec_read(set) == (Reading {
                flow_control: Some(flow_control),
                ..self.spec_read(*termios)
            }),
    {
        proof {
            use_type_invariant(self);
            self.lemma_with_flow_control(*termios, flow_control);
        }
        let both = self.bits.ixon | self.bits.ixoff;
        let hard = match flow_control {
            FlowControl::Hardware => self.bits.crtscts,
            _ => 0,
        };
        let soft = match flow_control {
            FlowControl::Software => both,
            _ => 0,
        };
        proof {
            let crtscts = self.bits.crtscts;
            assert(0u64 & crtscts == 0 && crtscts & crtscts == crtscts && 0u64 & both == 0 && both
                & both == both) by (bit_vector);
        }
        Termios {
            c_iflag: replace_bits(termios.c_iflag, both, soft),
            c_cflag: replace_bits(termios.c_cflag, self.bits.crtscts, hard),
            ispeed: termios.ispeed,
            ospeed: termios.ospeed,
        }
    }

    /// Sets the parity mode in the words.
    pub fn with_parity(&self, termios: &Termios, parity: Parity) -> (set: Termios)
        ensures
            set == self.spec_with_parity(*termios, parity),
            self.spec_read(set) == (Reading {
                parity: Some(parity),
                ..self.spec_read(*termios)
            }),
    {
        proof {
            use_type_invariant(self);
            self.lemma_with_parity(*termios, parity);
        }
        let mode = self.bits.parenb | self.bits.parodd;
        let checking = self.bits.inpck | self.bits.ignpar;
        let code = match parity {
            Parity::NoParity => 0,
            Parity::Odd => mode,
            Parity::Even => self.bits.parenb,
        };
        let check = match parity {
            Parity::NoParity => self.bits.ignpar,
            Parity::Odd => self.bits.inpck,
            Parity::Even => self.bits.inpck,
        };
        proof {
            let (parenb, parodd) = (self.bits.parenb, self.bits.parodd);
            let (inpck, ignpar) = (self.bits.inpck, self.bits.ignpar);
            assert(0u64 & (parenb | parodd) == 0 && parenb & (parenb | parodd) == parenb && (parenb
                | parodd) & (parenb | parodd) == (parenb | parodd) && inpck & (inpck | ignpar)
                == inpck && ignpar & (inpck | ignpar) == ignpar) by (bit_vector);
        }
        Termios {
            c_iflag: replace_bits(termios.c_iflag, checking, check),
            c_cflag: replace_bits(termios.c_cflag, mode, code),
            ispeed: termios.ispeed,
            ospeed: termios.ospeed,
        }
    }

    /// Sets the number of stop bits in the words.
    pub fn with_stop_bits(&self, termios: &Termios, stop_bits: StopBits) -> (set: Termios)
        ensures
            set == self.spec_with_stop_bits(*termios, stop_bits),
            self.spec_read(set) == (Reading {
                stop_bits: Some(stop_bits),
                ..self.spec_read(*termios)
            }),
    {
        proof {
            use_type_invariant(self);
            self.lemma_with_stop_bits(*termios, stop_bits);
        }
        let code = match stop_bits {
            StopBits::One => 0,
            StopBits::Two => self.bits.cstopb,
        };
        proof {
            let cstopb = self.bits.cstopb;
            assert(0u64 & cstopb == 0 && cstopb & cstopb == cstopb) by (bit_vector);
        }
        Termios {
            c_iflag: termios.c_iflag,
            c_cflag: replace_bits(termios.c_cflag, self.bits.cstopb, code),
            ispeed: termios.ispeed,
            ospeed: termios.ospeed,
        }
    }

    /// Applies every field of `settings` to the words, the timeout apart,
    /// which the words do not hold.
    ///
    /// Fails with `InvalidInput`, and only then, where the platform has no
    /// code for the baud rate. On success the words hold every field.
    pub fn with_settings(&self, termios: &Termios, settings: &SerialPortSettings) -> (result:
        Result<Termios, Error>)
        ensures
            match result {
                Ok(set) => self.spec_with_settings(*termios, *settings) == Some(set)
                    && self.spec_read(set) == settings.spec_reading(),
                Err(error) => self.spec_with_settings(*termios, *settings) is None && error.kind
                    == ErrorKind::InvalidInput && error.description@
                    == "the platform does not support the baud rate"@,
            },
    {
        proof {
            use_type_invariant(self);
        }
        match self.with_baud_rate(termios, settings.baud_rate) {
            Ok(with_rate) => {
                let with_size = self.with_data_bits(&with_rate, settings.data_bits);
                let with_flow = self.with_flow_control(&with_size, settings.flow_control);
                let with_parity = self.with_parity(&with_flow, settings.parity);
                let set = self.with_stop_bits(&with_parity, settings.stop_bits);
                proof {
                    self.lemma_with_settings(*termios, *settings);
                }
                Ok(set)
            },
            Err(error) => Err(error),
        }
    }

    /// Reads every field from the words.
    pub fn read(&self, termios: &Termios) -> (reading: Reading)
        ensures
            reading == self.spec_read(*termios),
    {
        Reading {
            baud_rate: self.baud_rate(termios),
            data_bits: self.data_bits(termios),
            flow_control: self.flow_control(termios),
            parity: self.parity(termios),
            stop_bits: self.stop_bits(termios),
        }
    }

    /// Reads all settings from the words and adds the timeout, which the
    /// words do not hold. Returns `None` where a field cannot be read.
    pub fn settings(&self, termios: &Termios, timeout: Duration) -> (settings: Option<
        SerialPortSettings,
    >)
        ensures
            settings == self.spec_read(*termios).spec_settings(timeout),
    {
        self.read(termios).settings(timeout)
    }
}

/// `TIOCM_DTR`: the modem bit of the DTR signal.
pub const TIOCM_DTR: u32 = 0x002;

/// `TIOCM_RTS`: the modem bit of the RTS signal.
pub const TIOCM_RTS: u32 = 0x004;

/// `TIOCM_CTS`: the modem bit of the CTS signal.
pub const TIOCM_CTS: u32 = 0x020;

/// `TIOCM_CD`: the modem bit of the carrier detect signal.
pub const TIOCM_CD: u32 = 0x040;

/// `TIOCM_RI`: the modem bit of the ring indicator.
pub const TIOCM_RI: u32 = 0x080;

/// `TIOCM_DSR`: the modem bit of the DSR signal.
pub const TIOCM_DSR: u32 = 0x100;

/// The modem bit of a signal that the port drives.
pub open spec fn spec_output_bit(signal: OutputSignal) -> u32 {
    match signal {
        OutputSignal::RequestToSend => TIOCM_RTS,
        OutputSignal::DataTerminalReady => TIOCM_DTR,
    }
}

/// The modem bit of a signal that the port reads.
pub open spec fn spec_input_bit(signal: InputSignal) -> u32 {
    match signal {
        InputSignal::ClearToSend => TIOCM_CTS,
        InputSignal::DataSetReady => TIOCM_DSR,
        InputSignal::RingIndicator => TIOCM_RI,
        InputSignal::CarrierDetect => TIOCM_CD,
    }
}

/// Returns the modem bit of a signal that the port drives: the bit to set
/// in the modem bits to assert the signal, and to clear in them to clear it.
#[verifier::when_used_as_spec(spec_output_bit)]
pub fn output_bit(signal: OutputSignal) -> (bit: u32)
    ensures
        bit == spec_output_bit(signal),
{
    match signal {
        OutputSignal::RequestToSend => TIOCM_RTS,
        OutputSignal::DataTerminalReady => TIOCM_DTR,
    }
}

/// Returns the modem bit of a signal that the port reads.
#[verifier::when_used_as_spec(spec_input_bit)]
pub fn input_bit(signal: InputSignal) -> (bit: u32)
    ensures
        bit == spec_input_bit(signal),
{
    match signal {
        InputSignal::ClearToSend => TIOCM_CTS,
        InputSignal::DataSetReady => TIOCM_DSR,
        InputSignal::RingIndicator => TIOCM_RI,
        InputSignal::CarrierDetect => TIOCM_CD,
    }
}

/// Tells whether a signal is asserted in the modem bits: whether its bit is
/// set.
pub fn signal_is_asserted(modem_bits: u32, signal: InputSignal) -> (asserted: bool)
    ensures
        asserted == (modem_bits & spec_input_bit(signal) != 0),
{
    modem_bits & input_bit(signal) != 0
}

/// The longest wait, in milliseconds, that the platform's poll call takes.
pub const MAX_POLL_TIMEOUT: i32 = 0x7fff_ffff;

/// Returns the timeout for the platform's poll call: the whole milliseconds
/// of `timeout`, or the longest wait that the call takes where that is
/// shorter.
pub fn poll_timeout(timeout: &Duration) -> (millis: i32)
    ensures
        duration_millis(*timeout) <= MAX_POLL_TIMEOUT ==> millis == duration_millis(*timeout),
        duration_millis(*timeout) > MAX_POLL_TIMEOUT ==> millis == MAX_POLL_TIMEOUT,
{
    let millis = whole_millis(timeout);
    if millis <= MAX_POLL_TIMEOUT as u128 {
        millis as i32
    } else {
        MAX_POLL_TIMEOUT
    }
}

/// `ENOENT`: no such file or directory.
pub const ENOENT: i32 = 2;

/// `ENXIO`: no such device or address.
pub const ENXIO: i32 = 6;

/// `EBUSY`: the device is busy.
pub const EBUSY: i32 = 16;

/// `ENODEV`: no such device.
pub const ENODEV: i32 = 19;

/// `EINVAL`: an argument is invalid.
pub const EINVAL: i32 = 22;

/// The kind of error that a failed native call stands for, given the error
/// number of the operating system, if there is one, and the native kind.
///
/// The device is not available where it is absent, gone or busy. The input
/// is invalid where the platform refused an argument. Any other failure is
/// an I/O error of the native kind.
pub open spec fn spec_device_error_kind(code: Option<i32>, kind: io::ErrorKind) -> ErrorKind {
    match code {
        Some(code) => if code == ENOENT || code == ENXIO || code == EBUSY || code == ENODEV {
            ErrorKind::NoDevice
        } else if code == EINVAL {
            ErrorKind::InvalidInput
        } else {
            ErrorKind::Io(kind)
        },
        None => ErrorKind::Io(kind),
    }
}

/// Classifies the failure of a native call on a device. The message of the
/// native error becomes the description.
pub fn device_error(native: io::Error) -> (error: Error)
    ensures
        error.describes(
            native,
            spec_device_error_kind(io_error_raw_os_error(native), io_error_kind(native)),
        ),
{
    let kind = match native.raw_os_error() {
        Some(code) => if code == ENOENT || code == ENXIO || code == EBUSY || code == ENODEV {
            ErrorKind::NoDevice
        } else if code == EINVAL {
            ErrorKind::InvalidInput
        } else {
            ErrorKind::Io(native.kind())
        },
        None => ErrorKind::Io(native.kind()),
    };
    Error::with_kind(native, kind)
}

} // verus!
