//! The wall clock.

use crate::paths::has_separator;
use vstd::prelude::*;

verus! {

/// Calls `chrono::Local::now` and writes the instant with
/// `chrono::DateTime::to_rfc3339`: the year in four digits or more, month and
/// day, `T`, the time of day with the fraction of a second where there is
/// one, and the offset of the local time zone as sign, hours and minutes.
/// Which instant and which offset depends on the system clock and the time
/// zone. Trusted, not proved, is what holds of every such text: it has
/// twenty-five characters or more, all of them digits or one of `-`, `:`,
/// `T`, `.` and `+`, so no path separator is among them. The call panics
/// where the system clock stands before 1970.
#[verifier::external_body]
pub(crate) fn local_timestamp() -> (r: String)
    ensures
        r@.len() >= 25,
        !has_separator(r@),
{
    chrono::Local::now().to_rfc3339()
}

} // verus!
