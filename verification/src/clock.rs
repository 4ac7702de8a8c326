//! The one clock reading the prompt builders need: the current time in
//! Japan, as RFC 3339 text plus the month and hour.

use vstd::prelude::*;

verus! {

/// Relies on chrono's `Utc::now` converted with chrono-tz's
/// `Asia::Tokyo`, then `to_rfc3339`, `Datelike::month` and
/// `Timelike::hour`: the month is 1 to 12 and the hour 0 to 23, as those
/// traits document.  Nothing more can be promised of a clock reading.
#[verifier::external_body]
pub fn now_tokyo() -> (r: (String, u32, u32))
    ensures
        1 <= r.1 <= 12,
        r.2 <= 23,
{
    let jst = chrono::Utc::now().with_timezone(&chrono_tz::Asia::Tokyo);
    (jst.to_rfc3339(), chrono::Datelike::month(&jst), chrono::Timelike::hour(&jst))
}

} // verus!
