//! The platform families, and what holds of a family as a whole.

use crate::error::{Error, ErrorKind};
use crate::settings::is_standard_rate;
use vstd::prelude::*;
use vstd::string::StringExecFns;

verus! {

/// The platform families that a serial port can live on.
#[derive(Debug, Copy, Clone, PartialEq, Eq, Structural)]
pub enum Platform {
    /// A POSIX system: Linux, a BSD, macOS.
    Posix,
    /// Windows.
    Windows,
    /// A platform of neither family, on which no port can be opened.
    Unsupported,
}

/// Makes the error of a platform that lacks a capability, such as
/// `"open()"`: its kind is `Unknown`, and its description names the
/// capability that is missing.
pub fn not_implemented(capability: &str) -> (error: Error)
    ensures
        error.kind == ErrorKind::Unknown,
        error.description@ == capability@ + " not implemented for platform"@,
{
    let description = String::from_str(capability).concat(" not implemented for platform");
    Error { kind: ErrorKind::Unknown, description: description }
}

/// The rates that a platform family advertises, in ascending order: on POSIX
/// those that the terminal interface has a speed for on every system, on
/// Windows those that the communications interface names, and none on a
/// platform of neither family.
pub open spec fn spec_available_baud_rates(platform: Platform) -> Seq<u32> {
    match platform {
        Platform::Posix => seq![
            50u32, 75u32, 110u32, 134u32, 150u32, 200u32, 300u32, 600u32, 1200u32, 1800u32, 2400u32,
            4800u32, 9600u32, 19200u32, 38400u32, 57600u32, 115200u32, 230400u32,
        ],
        Platform::Windows => seq![
            110u32, 300u32, 600u32, 1200u32, 2400u32, 4800u32, 9600u32, 14400u32, 19200u32, 38400u32,
            56000u32, 57600u32, 115200u32, 128000u32, 256000u32,
        ],
        Platform::Unsupported => seq![],
    }
}

/// Returns a list of available baud rates for a platform family.
///
/// The list is advisory. It may be incomplete: the platform and the hardware
/// may support more rates than these, and the hardware may support fewer.
/// It ascends, and on a platform that has ports it holds every standard
/// rate, 9600 among them.
pub fn available_baud_rates(platform: Platform) -> (rates: Vec<u32>)
    ensures
        rates@ == spec_available_baud_rates(platform),
        forall|i: int, j: int| 0 <= i < j < rates@.len() ==> rates@[i] < rates@[j],
        platform == Platform::Unsupported <==> rates@.len() == 0,
        platform != Platform::Unsupported ==> rates@.contains(9600) && forall|rate: u32|
            is_standard_rate(rate as int) ==> rates@.contains(rate),
{
    let rates = match platform {
        Platform::Posix => vec![
            50u32, 75u32, 110u32, 134u32, 150u32, 200u32, 300u32, 600u32, 1200u32, 1800u32, 2400u32,
            4800u32, 9600u32, 19200u32, 38400u32, 57600u32, 115200u32, 230400u32,
        ],
        Platform::Windows => vec![
            110u32, 300u32, 600u32, 1200u32, 2400u32, 4800u32, 9600u32, 14400u32, 19200u32, 38400u32,
            56000u32, 57600u32, 115200u32, 128000u32, 256000u32,
        ],
        Platform::Unsupported => Vec::new(),
    };
    assert(rates@ =~= spec_available_baud_rates(platform));
    proof {
        lemma_available_baud_rates(platform);
    }
    rates
}

/// The rates of a platform family that has ports hold every standard rate.
pub proof fn lemma_available_baud_rates(platform: Platform)
    ensures
        platform != Platform::Unsupported ==> forall|rate: u32|
            is_standard_rate(rate as int) ==> spec_available_baud_rates(platform).contains(rate),
{
    let rates = spec_available_baud_rates(platform);
    if platform == Platform::Posix {
        assert(rates[2] == 110 && rates[6] == 300 && rates[7] == 600 && rates[8] == 1200
            && rates[10] == 2400 && rates[11] == 4800 && rates[12] == 9600 && rates[13] == 19200
            && rates[14] == 38400 && rates[15] == 57600 && rates[16] == 115200);
    } else if platform == Platform::Windows {
        assert(rates[0] == 110 && rates[1] == 300 && rates[2] == 600 && rates[3] == 1200 && rates[4]
            == 2400 && rates[5] == 4800 && rates[6] == 9600 && rates[8] == 19200 && rates[9]
            == 38400 && rates[11] == 57600 && rates[12] == 115200);
    }
}

} // verus!
