//! Wall-clock readings.

use vstd::prelude::*;

verus! {

/// Whether `c` is an ASCII decimal digit.
pub open spec fn is_digit(c: char) -> bool {
    '0' <= c && c <= '9'
}

/// `t` reads as a time of day: two-digit hours, minutes and seconds, separated
/// by colons.
pub open spec fn is_hms(t: Seq<char>) -> bool {
    &&& t.len() == 8
    &&& t[2] == ':'
    &&& t[5] == ':'
    &&& is_digit(t[0]) && is_digit(t[1]) && is_digit(t[3]) && is_digit(t[4])
    &&& is_digit(t[6]) && is_digit(t[7])
}

/// Calls `chrono::Local::now` and formats it with `"%H:%M:%S"`. The time read is
/// the machine's; the contract claims only the shape every outcome has: two-digit
/// hours, minutes and seconds, zero-padded, separated by colons.
#[verifier::external_body]
pub(crate) fn local_time_hms() -> (r: String)
    ensures
        is_hms(r@),
{
    chrono::Local::now().format("%H:%M:%S").to_string()
}

} // verus!
