//! UTC timestamps held as plain values: seconds since the Unix epoch and the
//! nanoseconds within that second. Reading the clock, formatting and parsing
//! RFC 3339 text is done by `chrono`. Every `Timestamp` is an instant chrono
//! can represent, as every `chrono::DateTime<Utc>` is.

use vstd::prelude::*;

verus! {

#[verifier::external_type_specification]
#[verifier::external_body]
pub struct ExChronoParseError(chrono::ParseError);

/// Whether `chrono::DateTime::from_timestamp(seconds, nanos)` gives an instant.
pub uninterp spec fn chrono_representable(seconds: i64, nanos: u32) -> bool;

/// What chrono writes with `to_rfc3339_opts(SecondsFormat::Nanos, true)` for
/// the instant `DateTime::from_timestamp(seconds, nanos)`.
pub uninterp spec fn rfc3339_nanos_text(seconds: i64, nanos: u32) -> Seq<char>;

/// What chrono writes with `to_rfc3339()` for the instant
/// `DateTime::from_timestamp(seconds, nanos)`.
pub uninterp spec fn rfc3339_text(seconds: i64, nanos: u32) -> Seq<char>;

/// What `DateTime::parse_from_rfc3339` reads from a text, as a UTC instant
/// (seconds since the epoch and nanoseconds).
pub uninterp spec fn rfc3339_parse(text: Seq<char>) -> Option<(i64, u32)>;

/// A UTC instant: seconds since 1970-01-01T00:00:00Z and nanoseconds within
/// that second (chrono's `timestamp` and `timestamp_subsec_nanos`).
#[derive(Debug, Clone, Copy, PartialEq, Eq, Hash, Structural)]
pub struct Timestamp {
    pub(crate) seconds: i64,
    pub(crate) nanos: u32,
}

/// 0000-01-01T00:00:00Z.
pub const RFC3339_MIN_SECONDS: i64 = -62_167_219_200i64;

/// 9999-12-31T23:59:59Z.
pub const RFC3339_MAX_SECONDS: i64 = 253_402_300_799i64;

/// An instant in the years 0000..=9999 that is not a leap second: RFC 3339
/// text writes it with a four-digit year and reads it back unchanged.
pub open spec fn in_rfc3339_bounds(seconds: i64, nanos: u32) -> bool {
    RFC3339_MIN_SECONDS <= seconds <= RFC3339_MAX_SECONDS && nanos < 1_000_000_000
}

/// A timestamp in the years 0000..=9999 that is not a leap second.
pub open spec fn in_rfc3339_range(t: Timestamp) -> bool {
    in_rfc3339_bounds(t.secs(), t.subsec())
}

impl Timestamp {
    /// Seconds since the Unix epoch.
    pub closed spec fn secs(self) -> i64 {
        self.seconds
    }

    /// Nanoseconds within the second.
    pub closed spec fn subsec(self) -> u32 {
        self.nanos
    }

    /// The instant with these parts.
    pub closed spec fn at(seconds: i64, nanos: u32) -> Timestamp {
        Timestamp { seconds, nanos }
    }

    /// Every timestamp is an instant chrono can represent.
    #[verifier::type_invariant]
    pub closed spec fn representable(self) -> bool {
        chrono_representable(self.seconds, self.nanos)
    }

    /// Seconds since the Unix epoch.
    pub fn seconds(&self) -> (seconds: i64)
        ensures
            seconds == self.secs(),
    {
        self.seconds
    }

    /// Nanoseconds within the second.
    pub fn nanos(&self) -> (nanos: u32)
        ensures
            nanos == self.subsec(),
    {
        self.nanos
    }

    /// The instant with these parts, when chrono can represent it.
    pub fn from_unix(seconds: i64, nanos: u32) -> (timestamp: Option<Timestamp>)
        ensures
            match timestamp {
                Some(t) => chrono_representable(seconds, nanos) && t == Timestamp::at(seconds, nanos),
                None => !chrono_representable(seconds, nanos),
            },
    {
        if is_representable(seconds, nanos) {
            Some(Timestamp { seconds, nanos })
        } else {
            None
        }
    }

}

/// The parts of `Timestamp::at(seconds, nanos)` are `seconds` and `nanos`.
pub broadcast proof fn lemma_at_parts(seconds: i64, nanos: u32)
    ensures
        #[trigger] Timestamp::at(seconds, nanos).secs() == seconds,
        Timestamp::at(seconds, nanos).subsec() == nanos,
{
}

/// A timestamp is determined by its parts.
pub broadcast proof fn lemma_parts_determine(t: Timestamp)
    ensures
        #[trigger] Timestamp::at(t.secs(), t.subsec()) == t,
{
}

pub broadcast group group_timestamp {
    lemma_at_parts,
    lemma_parts_determine,
}

/// The type invariant of a timestamp, in terms of its parts.
pub proof fn lemma_representable(t: Timestamp)
    requires
        t.representable(),
    ensures
        chrono_representable(t.secs(), t.subsec()),
{
}

/// Calls `chrono::DateTime::from_timestamp` and tells whether it gives an
/// instant. Trusted: the result is `chrono_representable`, and every instant
/// of the years 0000..=9999 is representable (the crate accepts every day
/// its `NaiveDate` range holds, and every nanosecond below one second).
#[verifier::external_body]
fn is_representable(seconds: i64, nanos: u32) -> (representable: bool)
    ensures
        representable == chrono_representable(seconds, nanos),
        in_rfc3339_bounds(seconds, nanos) ==> representable,
{
    chrono::DateTime::from_timestamp(seconds, nanos).is_some()
}

/// Calls `chrono::Utc::now`. Trusted only in that the instant is
/// representable (chrono's own values convert back with `from_timestamp`);
/// which instant it is, is the clock's.
#[verifier::external_body]
pub(crate) fn current_time() -> (now: Timestamp)
    ensures
        chrono_representable(now.secs(), now.subsec()),
{
    let now = chrono::Utc::now();
    Timestamp { seconds: now.timestamp(), nanos: now.timestamp_subsec_nanos() }
}

/// Converts the instant with `chrono::DateTime::from_timestamp` and writes it
/// with `to_rfc3339_opts(SecondsFormat::Nanos, true)`. Trusted: the text is
/// `rfc3339_nanos_text`; for an instant of the years 0000..=9999 that is not a
/// leap second it has a four-digit year and nine fraction digits, and
/// `parse_from_rfc3339` reads it back to the same instant.
#[verifier::external_body]
pub(crate) fn format_rfc3339_nanos(timestamp: Timestamp) -> (text: String)
    requires
        chrono_representable(timestamp.secs(), timestamp.subsec()),
    ensures
        text@ == rfc3339_nanos_text(timestamp.secs(), timestamp.subsec()),
        in_rfc3339_range(timestamp) ==> rfc3339_parse(text@) == Some((timestamp.secs(), timestamp.subsec())),
{
    match chrono::DateTime::from_timestamp(timestamp.seconds, timestamp.nanos) {
        Some(instant) => instant.to_rfc3339_opts(chrono::SecondsFormat::Nanos, true),
        None => String::new(),
    }
}

/// Converts the instant with `chrono::DateTime::from_timestamp` and writes it
/// with `to_rfc3339()`. Trusted: the text is `rfc3339_text`.
#[verifier::external_body]
pub(crate) fn format_rfc3339(timestamp: Timestamp) -> (text: String)
    requires
        chrono_representable(timestamp.secs(), timestamp.subsec()),
    ensures
        text@ == rfc3339_text(timestamp.secs(), timestamp.subsec()),
{
    match chrono::DateTime::from_timestamp(timestamp.seconds, timestamp.nanos) {
        Some(instant) => instant.to_rfc3339(),
        None => String::new(),
    }
}

/// Calls `chrono::DateTime::parse_from_rfc3339` and converts the result to
/// UTC. Trusted: it succeeds exactly when `rfc3339_parse` gives an instant,
/// then gives that instant, which is representable.
#[verifier::external_body]
pub(crate) fn parse_rfc3339(text: &str) -> (parsed: Result<Timestamp, chrono::ParseError>)
    ensures
        match parsed {
            Ok(t) => rfc3339_parse(text@) == Some((t.secs(), t.subsec())) && chrono_representable(t.secs(), t.subsec()),
            Err(_) => rfc3339_parse(text@) is None,
        },
{
    match chrono::DateTime::parse_from_rfc3339(text) {
        Ok(instant) => Ok(Timestamp { seconds: instant.timestamp(), nanos: instant.timestamp_subsec_nanos() }),
        Err(error) => Err(error),
    }
}

} // verus!
