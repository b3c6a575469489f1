//! What the library knows of `std::time::Duration`.
//!
//! A `Duration` is opaque to the verifier. The two names below stand for its
//! whole seconds and for the rest in nanoseconds; the specifications that
//! follow are believed, not proved.

use std::time::Duration;
use vstd::prelude::*;

verus! {

/// The whole seconds of a duration: what `Duration::as_secs` returns.
pub uninterp spec fn duration_as_secs(d: Duration) -> u64;

/// The part of a duration below one second, in nanoseconds: what
/// `Duration::subsec_nanos` returns.
pub uninterp spec fn duration_subsec_nanos(d: Duration) -> u32;

/// The length of a duration in whole milliseconds.
pub open spec fn duration_millis(d: Duration) -> nat {
    (duration_as_secs(d) * 1000 + duration_subsec_nanos(d) / 1_000_000) as nat
}

/// `Duration::as_secs` returns the number of whole seconds.
pub assume_specification[ Duration::as_secs ](d: &Duration) -> (secs: u64)
    ensures
        secs == duration_as_secs(*d),
;

/// `Duration::subsec_nanos` returns the fractional part in nanoseconds,
/// which is always less than one second.
pub assume_specification[ Duration::subsec_nanos ](d: &Duration) -> (nanos: u32)
    ensures
        nanos == duration_subsec_nanos(*d),
        nanos < 1_000_000_000,
;

/// `Duration::from_millis` splits the milliseconds into whole seconds and a
/// rest, which it keeps in nanoseconds.
pub assume_specification[ Duration::from_millis ](millis: u64) -> (d: Duration)
    ensures
        duration_as_secs(d) == millis / 1000,
        duration_subsec_nanos(d) == (millis % 1000) * 1_000_000,
;

/// Returns the length of a duration in whole milliseconds.
pub fn whole_millis(d: &Duration) -> (millis: u128)
    ensures
        millis == duration_millis(*d),
{
    let secs: u128 = d.as_secs() as u128;
    let nanos: u128 = d.subsec_nanos() as u128;
    secs * 1000 + nanos / 1_000_000
}

} // verus!
