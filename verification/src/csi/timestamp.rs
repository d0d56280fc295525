//! Instants in time, as metadata filters compare them.
use vstd::prelude::*;

verus! {

/// The earliest second, counted from the Unix epoch, that a [`Timestamp`]
/// can hold.
pub const MIN_SECOND: i64 = -377705023201;

/// The latest second, counted from the Unix epoch, that a [`Timestamp`] can
/// hold.
pub const MAX_SECOND: i64 = 253402207200;

/// The largest magnitude of the part of a [`Timestamp`] below one second, in
/// nanoseconds.
pub const MAX_NANOSECOND: i32 = 999_999_999;

/// The text of the instant `second` seconds and `nanosecond` nanoseconds
/// from the Unix epoch, as `jiff` prints it: RFC 3339, in UTC, with as many
/// decimals as the fraction needs.
pub uninterp spec fn timestamp_text(second: i64, nanosecond: i32) -> Seq<char>;

/// Calls `jiff::Timestamp::new` and the `Display` of the timestamp it gives.
///
/// The contract claims that the text depends on the two numbers alone and
/// gives it the name [`timestamp_text`]. `requires` keeps to the numbers that
/// `jiff::Timestamp::new` accepts, so the `expect` does not fire.
#[verifier::external_body]
fn print_timestamp(second: i64, nanosecond: i32) -> (text: String)
    requires
        Timestamp::in_range(second, nanosecond),
    ensures
        text@ == timestamp_text(second, nanosecond),
{
    jiff::Timestamp::new(second, nanosecond).expect("a timestamp in range").to_string()
}

/// The parts of the instant that `text` denotes, as `jiff` reads it: a date
/// and a time with an offset from UTC, in the notation of RFC 3339 or
/// ISO 8601. `None` where `jiff` does not read an instant.
pub uninterp spec fn timestamp_parsed(text: Seq<char>) -> Option<(i64, i32)>;

/// Calls the `FromStr` of `jiff::Timestamp`, and `as_second` and
/// `subsec_nanosecond` on the timestamp it gives.
///
/// The contract claims that the outcome depends on the text alone and gives
/// it the name [`timestamp_parsed`].
#[verifier::external_body]
fn parse_timestamp(text: &str) -> (parts: Option<(i64, i32)>)
    ensures
        parts == timestamp_parsed(text@),
{
    match text.parse::<jiff::Timestamp>() {
        Ok(timestamp) => Some((timestamp.as_second(), timestamp.subsec_nanosecond())),
        Err(_) => None,
    }
}

/// The text that was given does not denote an instant that can be held.
#[derive(Clone, Copy, Debug, PartialEq, Eq)]
pub struct InvalidTimestamp;

/// An instant in time: whole seconds from the Unix epoch and the nanoseconds
/// beyond them. Both count backwards before the epoch, so they never differ
/// in sign.
#[derive(Clone, Copy, Debug, PartialEq, Eq)]
pub struct Timestamp {
    second: i64,
    nanosecond: i32,
}

impl Timestamp {
    /// Whether the two numbers are the parts of an instant that can be held:
    /// from the year -9999 to the year 9999, less than a second of
    /// nanoseconds, and no difference in sign.
    pub open spec fn in_range(second: i64, nanosecond: i32) -> bool {
        &&& MIN_SECOND <= second <= MAX_SECOND
        &&& -MAX_NANOSECOND <= nanosecond <= MAX_NANOSECOND
        &&& second < 0 ==> nanosecond <= 0
        &&& second > 0 ==> nanosecond >= 0
        &&& second == MIN_SECOND ==> nanosecond == 0
    }

    /// The whole seconds of this instant.
    pub closed spec fn second(self) -> i64 {
        self.second
    }

    /// The nanoseconds of this instant beyond its whole seconds.
    pub closed spec fn nanosecond(self) -> i32 {
        self.nanosecond
    }

    #[verifier::type_invariant]
    closed spec fn held(self) -> bool {
        Self::in_range(self.second, self.nanosecond)
    }

    /// The instant with the given parts, if they are in range.
    pub fn new(second: i64, nanosecond: i32) -> (timestamp: Option<Timestamp>)
        ensures
            match timestamp {
                Some(held) => {
                    &&& Self::in_range(second, nanosecond)
                    &&& held.second() == second
                    &&& held.nanosecond() == nanosecond
                },
                None => !Self::in_range(second, nanosecond),
            },
    {
        if second < MIN_SECOND || second > MAX_SECOND {
            return None;
        }
        if nanosecond < -MAX_NANOSECOND || nanosecond > MAX_NANOSECOND {
            return None;
        }
        if (second < 0 && nanosecond > 0) || (second > 0 && nanosecond < 0) {
            return None;
        }
        if second == MIN_SECOND && nanosecond != 0 {
            return None;
        }
        Some(Timestamp { second, nanosecond })
    }

    /// The instant that `text` denotes, if it denotes one that can be held.
    pub fn parse(text: &str) -> (timestamp: Option<Timestamp>)
        ensures
            match timestamp {
                Some(held) => timestamp_parsed(text@) == Some((held.second(), held.nanosecond())),
                None => timestamp_parsed(text@) matches Some(parts) ==> !Self::in_range(
                    parts.0,
                    parts.1,
                ),
            },
    {
        match parse_timestamp(text) {
            Some((second, nanosecond)) => Timestamp::new(second, nanosecond),
            None => None,
        }
    }

    /// The whole seconds of this instant, from the Unix epoch.
    pub fn as_second(&self) -> (second: i64)
        ensures
            second == self.second(),
            Self::in_range(self.second(), self.nanosecond()),
    {
        proof {
            use_type_invariant(self);
        }
        self.second
    }

    /// The nanoseconds of this instant beyond its whole seconds.
    pub fn subsec_nanosecond(&self) -> (nanosecond: i32)
        ensures
            nanosecond == self.nanosecond(),
            Self::in_range(self.second(), self.nanosecond()),
    {
        proof {
            use_type_invariant(self);
        }
        self.nanosecond
    }

    /// This instant as text.
    pub fn to_string(&self) -> (text: String)
        ensures
            text@ == timestamp_text(self.second(), self.nanosecond()),
    {
        proof {
            use_type_invariant(self);
        }
        print_timestamp(self.second, self.nanosecond)
    }
}

impl core::str::FromStr for Timestamp {
    type Err = InvalidTimestamp;

    fn from_str(text: &str) -> (timestamp: Result<Timestamp, InvalidTimestamp>)
        ensures
            match timestamp {
                Ok(held) => timestamp_parsed(text@) == Some((held.second(), held.nanosecond())),
                Err(_) => timestamp_parsed(text@) matches Some(parts) ==> !Timestamp::in_range(
                    parts.0,
                    parts.1,
                ),
            },
    {
        match Timestamp::parse(text) {
            Some(timestamp) => Ok(timestamp),
            None => Err(InvalidTimestamp),
        }
    }
}

} // verus!
