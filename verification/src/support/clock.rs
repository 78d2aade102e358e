//! Points in time and spans of it.

use vstd::prelude::*;

verus! {

/// A point in time: seconds since the Unix epoch and nanoseconds within the
/// second.
#[derive(Clone, Copy, Debug, PartialEq, Eq, Hash, Structural)]
pub struct Timestamp {
    pub seconds: i64,
    pub nanos: u32,
}

impl Timestamp {
    /// Position on the time line, as one number.
    pub open spec fn order(self) -> int {
        self.seconds * 0x1_0000_0000 + self.nanos
    }

    /// Whether `self` lies before `other`.
    pub fn before(&self, other: &Timestamp) -> (r: bool)
        ensures
            r == (self.order() < other.order()),
    {
        self.seconds < other.seconds || (self.seconds == other.seconds && self.nanos < other.nanos)
    }

    /// Reads a point in time from its RFC 3339 form.
    pub fn from_rfc3339(text: &str) -> (r: Result<Timestamp, String>)
        ensures
            r is Ok <==> rfc3339(text@) is Ok,
            r is Ok ==> r->Ok_0 == stamp(rfc3339(text@)->Ok_0),
            r is Err ==> r->Err_0@ == rfc3339(text@)->Err_0,
    {
        match parse_rfc3339(text) {
            Ok(t) => Ok(Timestamp { seconds: t.0, nanos: t.1 }),
            Err(e) => Err(e),
        }
    }

    /// The current time.
    pub fn now() -> (r: Timestamp)
        ensures
            r.seconds >= 0,
            r.nanos < 1_000_000_000,
    {
        let t = utc_now();
        Timestamp { seconds: t.0, nanos: t.1 }
    }
}

/// A pair of seconds and nanoseconds as a [`Timestamp`].
pub open spec fn stamp(t: (i64, u32)) -> Timestamp {
    Timestamp { seconds: t.0, nanos: t.1 }
}

/// What `chrono::DateTime::parse_from_rfc3339` reads: Unix seconds and
/// nanoseconds, or the text of the error.
pub uninterp spec fn rfc3339(text: Seq<char>) -> Result<(i64, u32), Seq<char>>;

/// `chrono::DateTime::parse_from_rfc3339`, its result as Unix seconds and
/// nanoseconds, its error as text.
#[verifier::external_body]
fn parse_rfc3339(text: &str) -> (r: Result<(i64, u32), String>)
    ensures
        r is Ok <==> rfc3339(text@) is Ok,
        r is Ok ==> r->Ok_0 == rfc3339(text@)->Ok_0,
        r is Err ==> r->Err_0@ == rfc3339(text@)->Err_0,
{
    match chrono::DateTime::parse_from_rfc3339(text) {
        Ok(t) => Ok((t.timestamp(), t.timestamp_subsec_nanos())),
        Err(e) => Err(e.to_string()),
    }
}

/// What `chrono::DateTime::parse_from_rfc2822` reads: Unix seconds, nothing
/// where the text is no such date.
pub uninterp spec fn rfc2822(text: Seq<char>) -> Option<i64>;

/// `chrono::DateTime::parse_from_rfc2822`, its result as Unix seconds.
#[verifier::external_body]
pub(crate) fn parse_rfc2822(text: &str) -> (r: Option<i64>)
    ensures
        r == rfc2822(text@),
{
    chrono::DateTime::parse_from_rfc2822(text).ok().map(|t| t.timestamp())
}

/// A span of time: seconds and nanoseconds within the second.
#[derive(Clone, Copy, Debug, PartialEq, Eq)]
pub struct Span {
    seconds: u64,
    nanos: u32,
}

impl View for Span {
    type V = (u64, u32);

    closed spec fn view(&self) -> (u64, u32) {
        (self.seconds, self.nanos)
    }
}

impl Span {
    /// The nanoseconds are less than a second.
    #[verifier::type_invariant]
    spec fn well_formed(self) -> bool {
        self.nanos < 1_000_000_000
    }

    /// The span of the given seconds and nanoseconds; there is none where the
    /// nanoseconds fill a second.
    pub fn new(seconds: u64, nanos: u32) -> (r: Option<Span>)
        ensures
            r is Some <==> nanos < 1_000_000_000,
            r is Some ==> r->0@ == (seconds, nanos),
    {
        if nanos < 1_000_000_000 {
            Some(Span { seconds, nanos })
        } else {
            None
        }
    }

    /// The span of the given seconds.
    pub fn from_secs(seconds: u64) -> (r: Span)
        ensures
            r@ == (seconds, 0u32),
    {
        Span { seconds, nanos: 0 }
    }

    /// The whole seconds.
    pub fn as_secs(&self) -> (r: u64)
        ensures
            r == self@.0,
    {
        self.seconds
    }

    /// The nanoseconds beyond the whole seconds.
    pub fn subsec_nanos(&self) -> (r: u32)
        ensures
            r == self@.1,
            r < 1_000_000_000,
    {
        proof {
            use_type_invariant(self);
        }
        self.nanos
    }

    /// The span as text, in the greatest unit that it fills.
    pub fn to_string(&self) -> (r: String)
        ensures
            r@ == span_text(self@.0, self@.1),
    {
        proof {
            use_type_invariant(self);
        }
        debug_duration(self.seconds, self.nanos)
    }
}

/// What `std::time::Duration`'s `Debug` writes of so many seconds and
/// nanoseconds.
pub uninterp spec fn span_text(seconds: u64, nanos: u32) -> Seq<char>;

/// `std::time::Duration`'s `Debug`, of a duration of the given seconds and
/// nanoseconds. Less than a second of nanoseconds carries nothing over, which
/// alone could overflow.
#[verifier::external_body]
fn debug_duration(seconds: u64, nanos: u32) -> (r: String)
    requires
        nanos < 1_000_000_000,
    ensures
        r@ == span_text(seconds, nanos),
{
    format!("{:?}", std::time::Duration::new(seconds, nanos))
}

/// `chrono::Utc::now`, as Unix seconds and nanoseconds. It takes the time since
/// the Unix epoch from the system, and gives none that lies before it; the
/// nanoseconds are a part of one second, and never a leap second's. Which time
/// it is rests on the machine: nothing is said of that, nor of how two calls
/// relate.
#[verifier::external_body]
fn utc_now() -> (r: (i64, u32))
    ensures
        r.0 >= 0,
        r.1 < 1_000_000_000,
{
    let t = chrono::Utc::now();
    (t.timestamp(), t.timestamp_subsec_nanos())
}

/// One time lies before another exactly where its second is earlier, or the
/// second is the same and its fraction is earlier.
pub proof fn times_order_by_second_and_fraction(a: Timestamp, b: Timestamp)
    ensures
        a.order() < b.order() <==> a.seconds < b.seconds || (a.seconds == b.seconds && a.nanos
            < b.nanos),
        a.order() == b.order() <==> a == b,
{
}

/// A pair of seconds and nanoseconds is the time of those.
pub proof fn stamps_keep_seconds_and_fraction(t: (i64, u32))
    ensures
        stamp(t).seconds == t.0,
        stamp(t).nanos == t.1,
{
}

} // verus!
