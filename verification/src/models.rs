//! Rows, inputs and the rules on them, and the clock they are measured by.

use vstd::prelude::*;

pub mod error;
pub mod post;
pub mod user;
pub mod user_credential;
pub mod user_token;

verus! {

/// The largest distance from day 0 that a calendar date can have.
pub const DAY_LIMIT: i32 = 100_000_000;

/// The seconds of one day.
pub const SECONDS_PER_DAY: u32 = 86_400;

/// The bound of the nanosecond field: a value of one thousand million or more
/// stands for a leap second.
pub const NANOS_LIMIT: u32 = 2_000_000_000;

/// A calendar date: the count of days in the proleptic Gregorian calendar,
/// with 1 January of the year 1 as day 1.
#[derive(Clone, Copy, Debug, PartialEq, Eq, Structural)]
pub struct Date {
    pub day: i32,
}

/// A date and a time of day, without a time zone.
#[derive(Clone, Copy, Debug, PartialEq, Eq, Structural)]
pub struct Timestamp {
    /// The date, counted as in [`Date`].
    pub day: i32,
    /// The whole seconds since midnight.
    pub secs: u32,
    /// The nanoseconds since the whole second.
    pub nanos: u32,
}

impl Date {
    /// Whether this date lies after `other`.
    pub open spec fn follows(self, other: Date) -> bool {
        self.day > other.day
    }

    /// Tells whether this date lies after `other`.
    pub fn is_after(&self, other: &Date) -> (after: bool)
        ensures
            after == self.follows(*other),
    {
        self.day > other.day
    }
}

impl Timestamp {
    /// The instants that a calendar and a clock can hold.
    pub open spec fn wf(self) -> bool {
        &&& -DAY_LIMIT <= self.day <= DAY_LIMIT
        &&& self.secs < SECONDS_PER_DAY
        &&& self.nanos < NANOS_LIMIT
    }

    /// Whether this instant lies strictly before `other`: by the date first,
    /// then by the seconds, then by the nanoseconds.
    pub open spec fn precedes(self, other: Timestamp) -> bool {
        ||| self.day < other.day
        ||| self.day == other.day && self.secs < other.secs
        ||| self.day == other.day && self.secs == other.secs && self.nanos < other.nanos
    }

    /// Whether this instant is `other` or lies before it.
    pub open spec fn not_after(self, other: Timestamp) -> bool {
        !other.precedes(self)
    }

    /// The instant `days` days later, at the same time of day.
    pub open spec fn later_by_days(self, days: int) -> Timestamp
        recommends
            i32::MIN <= self.day + days <= i32::MAX,
    {
        Timestamp { day: (self.day + days) as i32, secs: self.secs, nanos: self.nanos }
    }

    /// The date of this instant.
    pub open spec fn calendar_date(self) -> Date {
        Date { day: self.day }
    }

    /// Tells whether this instant lies strictly before `other`.
    pub fn is_before(&self, other: &Timestamp) -> (before: bool)
        ensures
            before == self.precedes(*other),
    {
        if self.day != other.day {
            self.day < other.day
        } else if self.secs != other.secs {
            self.secs < other.secs
        } else {
            self.nanos < other.nanos
        }
    }

    /// Tells whether this instant is `other` or lies before it.
    pub fn is_not_after(&self, other: &Timestamp) -> (ok: bool)
        ensures
            ok == self.not_after(*other),
    {
        !other.is_before(self)
    }

    /// The instant `days` days after this one, at the same time of day.
    pub fn plus_days(&self, days: i32) -> (later: Timestamp)
        requires
            self.wf(),
            0 <= days <= DAY_LIMIT,
        ensures
            later == self.later_by_days(days as int),
            self.precedes(later) || days == 0,
    {
        Timestamp { day: self.day + days, secs: self.secs, nanos: self.nanos }
    }

    /// The date of this instant.
    pub fn date(&self) -> (date: Date)
        ensures
            date == self.calendar_date(),
    {
        Date { day: self.day }
    }
}

/// The order of instants is strict and total: no instant precedes itself, of
/// two different instants exactly one precedes the other, and the order
/// carries over a third.
pub proof fn lemma_precedes_is_a_strict_total_order(a: Timestamp, b: Timestamp, c: Timestamp)
    ensures
        !a.precedes(a),
        a.precedes(b) ==> !b.precedes(a),
        a != b ==> a.precedes(b) || b.precedes(a),
        a.precedes(b) && b.precedes(c) ==> a.precedes(c),
        a.precedes(b) && b.not_after(c) ==> a.precedes(c),
{
}

/// Reads the local date and time from the machine's clock, through
/// `chrono::Local::now` and `DateTime::naive_local`. The three fields are
/// what `Datelike::num_days_from_ce`, `Timelike::num_seconds_from_midnight`
/// and `Timelike::nanosecond` say of that value; the contract claims no more
/// than the ranges that chrono documents for them.
#[verifier::external_body]
pub(crate) fn get_now_naive_date_time() -> (now: Timestamp)
    ensures
        now.wf(),
{
    let now = chrono::Local::now().naive_local();
    Timestamp {
        day: chrono::Datelike::num_days_from_ce(&now),
        secs: chrono::Timelike::num_seconds_from_midnight(&now),
        nanos: chrono::Timelike::nanosecond(&now),
    }
}

/// The characters of a text that may be missing.
pub open spec fn text_of(text: Option<String>) -> Option<Seq<char>> {
    match text {
        Some(t) => Some(t@),
        None => None,
    }
}

/// Whether `c` is a digit or one of the letters `a` to `f`.
pub open spec fn is_lower_hex(c: char) -> bool {
    ('0' <= c && c <= '9') || ('a' <= c && c <= 'f')
}

/// The shape of an identifier: 36 characters, hyphens at the four places
/// where a hyphenated UUID has them, and lower-case hexadecimal digits
/// everywhere else.
pub open spec fn is_uuid_text(s: Seq<char>) -> bool {
    &&& s.len() == 36
    &&& forall|i: int|
        0 <= i < 36 ==> if i == 8 || i == 13 || i == 18 || i == 23 {
            #[trigger] s[i] == '-'
        } else {
            is_lower_hex(s[i])
        }
}

/// Draws a random identifier with `uuid::Uuid::new_v4` and writes it out with
/// `to_string`. Which identifier comes is left open; the contract claims only
/// the hyphenated lower-case form that the crate's `Display` gives.
#[verifier::external_body]
pub(crate) fn new_uuid_text() -> (id: String)
    ensures
        is_uuid_text(id@),
{
    uuid::Uuid::new_v4().to_string()
}

} // verus!
