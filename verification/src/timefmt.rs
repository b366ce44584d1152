//! Human-readable rendering of durations, delegated to the hhmmss crate.

use hhmmss::Hhmmss;
use vstd::prelude::*;

verus! {

/// The text that the hhmmss crate renders for a duration of the given number
/// of milliseconds: hours, minutes and seconds of the duration's whole
/// seconds, zero-padded to two digits and separated by colons. The rendering
/// depends on the duration alone.
pub uninterp spec fn hhmmss_of(ms: u64) -> Seq<char>;

/// Relies on hhmmss::Hhmmss::hhmmss for std::time::Duration: renders the
/// duration's whole seconds as "HH:MM:SS", a function of the duration alone.
#[verifier::external_body]
pub fn hhmmss_text(ms: u64) -> (r: String)
    ensures
        r@ == hhmmss_of(ms),
{
    std::time::Duration::from_millis(ms).hhmmss()
}

} // verus!
