//! The one reading of the clock that the library makes.

use vstd::prelude::*;

verus! {

/// A moment, as read from the clock: one instant, in numbers and as text.
#[derive(Clone, Debug, PartialEq, Eq)]
pub struct Moment {
    /// Seconds since the Unix epoch.
    pub unix_seconds: i64,
    /// Nanoseconds since the last second boundary.
    pub subsec_nanos: u32,
    /// The same instant as an RFC 3339 date and time in UTC.
    pub rfc3339: String,
}

/// The RFC 3339 date and time in UTC of the instant that lies `nanos`
/// nanoseconds after second `unix_seconds` of the Unix epoch.
pub uninterp spec fn rfc3339_text(unix_seconds: i64, nanos: u32) -> Seq<char>;

impl Moment {
    /// The text is the date and time of the instant that the numbers name.
    pub open spec fn is_one_instant(self) -> bool {
        self.rfc3339@ == rfc3339_text(self.unix_seconds, self.subsec_nanos)
    }
}

/// `Utc::now` of chrono, read once and handed out in numbers (`timestamp`,
/// `timestamp_subsec_nanos`) and as text (`to_rfc3339`). Which instant the
/// clock names is not promised; that the three are forms of one instant is:
/// seconds and nanoseconds determine a `DateTime<Utc>`, and its text depends
/// on nothing else. chrono refuses to go on where the system clock stands
/// before 1970.
#[verifier::external_body]
pub(crate) fn current_moment() -> (r: Moment)
    ensures
        r.rfc3339@ == rfc3339_text(r.unix_seconds, r.subsec_nanos),
{
    let now = chrono::Utc::now();
    Moment {
        unix_seconds: now.timestamp(),
        subsec_nanos: now.timestamp_subsec_nanos(),
        rfc3339: now.to_rfc3339(),
    }
}

/// The present moment: the clock is read once, and the text handed out is the
/// date and time of the very instant that the numbers name.
pub fn now() -> (r: Moment)
    ensures
        r.is_one_instant(),
{
    current_moment()
}

} // verus!
