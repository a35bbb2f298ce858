use crate::text::opt_text;
use vstd::prelude::*;

verus! {

/// A moment of time as the flock records hold it: the seconds and
/// nanoseconds since 1970-01-01 00:00:00 UTC, and the offset from UTC, in
/// seconds to the east, of the clock that it is shown by.
#[derive(Debug, Clone, Copy, PartialEq, Eq, Structural)]
pub struct Date {
    pub secs: i64,
    pub nanos: u32,
    pub offset: i32,
}

/// The text that `chrono` prints for the moment `secs` and `nanos` after the
/// epoch on a clock `offset` seconds east of UTC, such as
/// `2015-05-15 02:00:00 +02:00`; `None` where `chrono` has no such moment or
/// no such offset.
pub uninterp spec fn date_text(secs: int, nanos: int, offset: int) -> Option<Seq<char>>;

/// Builds the moment with `chrono::DateTime::from_timestamp`, the clock with
/// `chrono::FixedOffset::east_opt`, and prints the one on the other with
/// `DateTime`'s `Display`. Both constructors answer `None` when out of range
/// and the printing depends on the three numbers alone; the result is named
/// `date_text`.
#[verifier::external_body]
fn format_date(secs: i64, nanos: u32, offset: i32) -> (r: Option<String>)
    ensures
        opt_text(r) == date_text(secs as int, nanos as int, offset as int),
{
    match (chrono::DateTime::from_timestamp(secs, nanos), chrono::FixedOffset::east_opt(offset)) {
        (Some(moment), Some(clock)) => Some(moment.with_timezone(&clock).to_string()),
        _ => None,
    }
}

impl Date {
    /// The text shown for this date: what `chrono` prints for it, and the
    /// empty text for numbers that name no moment.
    pub open spec fn shown(&self) -> Seq<char> {
        match date_text(self.secs as int, self.nanos as int, self.offset as int) {
            Some(text) => text,
            None => Seq::empty(),
        }
    }

    /// The text shown for this date; empty for numbers that name no moment.
    pub fn text(&self) -> (r: String)
        ensures
            r@ == self.shown(),
    {
        match format_date(self.secs, self.nanos, self.offset) {
            Some(text) => text,
            None => String::new(),
        }
    }
}

impl Default for Date {
    /// The epoch, on a clock at UTC.
    fn default() -> (r: Self)
        ensures
            r == (Date { secs: 0, nanos: 0, offset: 0 }),
    {
        Date { secs: 0, nanos: 0, offset: 0 }
    }
}

} // verus!
