//! Instants, as whole seconds since the Unix epoch.
use vstd::prelude::*;

verus! {

/// The earliest instant.
pub const FIRST_SECOND: i64 = -377705023201;

/// The latest instant.
pub const LAST_SECOND: i64 = 253402207200;

/// An instant within the supported range.
#[derive(Clone, Copy)]
pub struct Moment {
    second: i64,
}

impl Moment {
    /// Seconds since the epoch.
    pub closed spec fn at(&self) -> int {
        self.second as int
    }

    #[verifier::type_invariant]
    spec fn in_range(self) -> bool {
        FIRST_SECOND <= self.second <= LAST_SECOND
    }

    /// The instant that many seconds after the epoch, if it is supported.
    pub fn new(second: i64) -> (r: Option<Moment>)
        ensures
            r is Some <==> FIRST_SECOND <= second <= LAST_SECOND,
            r matches Some(m) ==> m.at() == second,
    {
        if FIRST_SECOND <= second && second <= LAST_SECOND {
            Some(Moment { second })
        } else {
            None
        }
    }

    /// Seconds since the epoch.
    pub fn second(&self) -> (r: i64)
        ensures
            r == self.at(),
            FIRST_SECOND <= r <= LAST_SECOND,
    {
        proof {
            use_type_invariant(self);
        }
        self.second
    }
}

/// An instant in UTC, in the form of a pattern of date and time fields.
pub uninterp spec fn utc_text(second: int, pattern: Seq<char>) -> Seq<char>;

/// The patterns in use: the date; the date and the time to the minute, with and
/// without the zone; the date and the time to the second.
pub open spec fn known_pattern(pattern: Seq<char>) -> bool {
    pattern == "%Y-%m-%d"@ || pattern == "%Y-%m-%d %H:%M UTC"@ || pattern == "%Y-%m-%d %H:%M"@
        || pattern == "%Y-%m-%d %H:%M:%S"@
}

/// `jiff::Timestamp::from_second` and `Timestamp::strftime`: the text depends
/// on the second and the pattern alone. Every second in the supported range is a
/// timestamp, and a timestamp has every field of the known patterns.
#[verifier::external_body]
fn format_utc(second: i64, pattern: &str) -> (r: String)
    requires
        FIRST_SECOND <= second <= LAST_SECOND,
        known_pattern(pattern@),
    ensures
        r@ == utc_text(second as int, pattern@),
{
    let at = jiff::Timestamp::from_second(second).unwrap_or(jiff::Timestamp::UNIX_EPOCH);
    at.strftime(pattern).to_string()
}

impl Moment {
    /// The date in UTC.
    pub fn date(&self) -> (r: String)
        ensures
            r@ == utc_text(self.at(), "%Y-%m-%d"@),
    {
        format_utc(self.second(), "%Y-%m-%d")
    }

    /// The date and the time to the minute in UTC.
    pub fn minute_text(&self) -> (r: String)
        ensures
            r@ == utc_text(self.at(), "%Y-%m-%d %H:%M UTC"@),
    {
        format_utc(self.second(), "%Y-%m-%d %H:%M UTC")
    }

    /// The date and the time to the minute in UTC, without the zone.
    pub fn short_text(&self) -> (r: String)
        ensures
            r@ == utc_text(self.at(), "%Y-%m-%d %H:%M"@),
    {
        format_utc(self.second(), "%Y-%m-%d %H:%M")
    }

    /// The date and the time to the second in UTC.
    pub fn second_text(&self) -> (r: String)
        ensures
            r@ == utc_text(self.at(), "%Y-%m-%d %H:%M:%S"@),
    {
        format_utc(self.second(), "%Y-%m-%d %H:%M:%S")
    }
}

/// An instant is the second that it was made from, and is written in the pattern of each
/// text.
pub proof fn an_instant_is_written_in_its_patterns(
    second: i64,
    m: Option<Moment>,
    at: i64,
    date: String,
    minute: String,
    short: String,
    exact: String,
)
    requires
        call_ensures(Moment::new, (second,), m),
        m is Some,
        call_ensures(Moment::second, (&m->0,), at),
        call_ensures(Moment::date, (&m->0,), date),
        call_ensures(Moment::minute_text, (&m->0,), minute),
        call_ensures(Moment::short_text, (&m->0,), short),
        call_ensures(Moment::second_text, (&m->0,), exact),
    ensures
        at == second,
        date@ == utc_text(second as int, "%Y-%m-%d"@),
        minute@ == utc_text(second as int, "%Y-%m-%d %H:%M UTC"@),
        short@ == utc_text(second as int, "%Y-%m-%d %H:%M"@),
        exact@ == utc_text(second as int, "%Y-%m-%d %H:%M:%S"@),
{
}

} // verus!
