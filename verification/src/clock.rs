//! Wall-clock readings and their RFC 2822 text.
//!
//! A reading is kept as two integers, so that everything the monitor decides
//! about a window start is a statement over plain numbers. Only reading the
//! clock and rendering the calendar date are left to `chrono`.

use vstd::prelude::*;

verus! {

/// The first second of the year 0, in seconds since the Unix epoch.
pub const FIRST_PRINTABLE_SECOND: i64 = -62_167_219_200;

/// The last second of the year 9999, in seconds since the Unix epoch.
pub const LAST_PRINTABLE_SECOND: i64 = 253_402_300_799;

/// An instant together with the local offset that was in force when it was
/// read.
#[derive(Clone, Copy, Debug, PartialEq, Eq)]
pub struct Timestamp {
    /// Seconds since 1970-01-01T00:00:00 UTC.
    pub secs: i64,
    /// Seconds to add to UTC to get the local time.
    pub offset: i32,
}

/// The RFC 2822 text (such as `Tue, 1 Jul 2003 10:52:37 +0200`) of the instant
/// `secs` seconds after the Unix epoch, written in the zone that is `offset`
/// seconds east of UTC. It is given no meaning outside [`printable`].
pub uninterp spec fn rfc2822_text(secs: int, offset: int) -> Seq<char>;

/// RFC 2822 can write a date only if the offset is less than a day and the
/// local year has at most four digits and is not negative.
pub open spec fn printable(secs: int, offset: int) -> bool {
    &&& -86_400 < offset < 86_400
    &&& FIRST_PRINTABLE_SECOND <= secs + offset <= LAST_PRINTABLE_SECOND
}

/// Reads the system clock with `chrono::Local::now` and keeps the Unix
/// timestamp (`DateTime::timestamp`) and the zone's offset
/// (`FixedOffset::local_minus_utc`) of what it returned. Nothing is claimed of
/// the reading.
#[verifier::external_body]
pub(crate) fn local_now() -> Timestamp {
    let t = chrono::Local::now();
    Timestamp { secs: t.timestamp(), offset: t.offset().local_minus_utc() }
}

/// Calls `chrono::DateTime::to_rfc2822` on the instant `secs`, built with
/// `DateTime::from_timestamp` and moved with `with_timezone` into
/// `FixedOffset::east_opt(offset)`. The precondition keeps to the inputs on
/// which none of the four fails; the text is a function of the two numbers,
/// and the contract only gives it its name.
#[verifier::external_body]
fn render_rfc2822(secs: i64, offset: i32) -> (r: String)
    requires
        printable(secs as int, offset as int),
    ensures
        r@ == rfc2822_text(secs as int, offset as int),
{
    let zone = chrono::FixedOffset::east_opt(offset).unwrap();
    chrono::DateTime::from_timestamp(secs, 0).unwrap().with_timezone(&zone).to_rfc2822()
}

impl Timestamp {
    /// Whether this reading has an RFC 2822 text.
    pub open spec fn printable(&self) -> bool {
        printable(self.secs as int, self.offset as int)
    }

    /// The RFC 2822 text of this reading.
    pub open spec fn text(&self) -> Seq<char> {
        rfc2822_text(self.secs as int, self.offset as int)
    }

    /// Decides whether the reading can be written as an RFC 2822 date.
    pub fn is_printable(&self) -> (r: bool)
        ensures
            r == self.printable(),
    {
        -86_400 < self.offset && self.offset < 86_400
            && FIRST_PRINTABLE_SECOND - (self.offset as i64) <= self.secs
            && self.secs <= LAST_PRINTABLE_SECOND - (self.offset as i64)
    }

    /// The RFC 2822 text of a printable reading.
    pub fn to_rfc2822(&self) -> (r: String)
        requires
            self.printable(),
        ensures
            r@ == self.text(),
    {
        render_rfc2822(self.secs, self.offset)
    }

    /// The RFC 2822 text of the reading, or `None` where it has none.
    pub fn try_to_rfc2822(&self) -> (r: Option<String>)
        ensures
            r.is_some() == self.printable(),
            r matches Some(s) ==> s@ == self.text(),
    {
        if self.is_printable() {
            Some(self.to_rfc2822())
        } else {
            None
        }
    }
}

} // verus!
