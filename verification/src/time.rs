//! Instants as the API exchanges them: nanoseconds since the Unix epoch.

use vstd::prelude::*;

use crate::text::{i128_text, int_text};

verus! {

/// An instant, counted in nanoseconds since 1970-01-01T00:00:00Z.
#[derive(Clone, Copy, Debug, PartialEq, Eq, Structural, PartialOrd, Ord, Hash)]
pub struct Time {
    nanos: i128,
}

impl View for Time {
    type V = int;

    /// Nanoseconds since the Unix epoch.
    closed spec fn view(&self) -> int {
        self.nanos as int
    }
}

/// The current time as `time::OffsetDateTime::now_utc` reads it from the
/// system clock, in nanoseconds since the Unix epoch.
///
/// Of the value, only what holds of every reading is stated: an
/// `OffsetDateTime` falls in the years -9999 to 9999 (the crate is built
/// without its `large-dates` feature). Which instant it is, is whatever the
/// clock reads.
#[verifier::external_body]
fn clock_now_unix_nanos() -> (r: i128)
    ensures
        in_calendar(r as int),
{
    time::OffsetDateTime::now_utc().unix_timestamp_nanos()
}

/// The rendering of an instant: whole milliseconds since the epoch,
/// rounded toward the past.
pub open spec fn time_text(t: Time) -> Seq<char> {
    int_text(t@ / 1000000)
}

/// The first second of the calendar an instant can fall in
/// (-9999-01-01T00:00:00Z), in seconds since the epoch.
pub const MIN_UNIX_SECONDS: i64 = -377705116800i64;

/// The last second of the calendar an instant can fall in
/// (9999-12-31T23:59:59Z), in seconds since the epoch.
pub const MAX_UNIX_SECONDS: i64 = 253402300799i64;

/// Whether an instant, in nanoseconds since the epoch, falls in the years
/// -9999 to 9999, the range of the calendar dates of the `time` crate.
pub open spec fn in_calendar(nanos: int) -> bool {
    MIN_UNIX_SECONDS <= nanos / 1000000000 <= MAX_UNIX_SECONDS
}

impl Time {
    /// The instant `nanos` nanoseconds after the epoch, when it falls in the
    /// years -9999 to 9999; `None` otherwise.
    pub fn checked_from_unix_nanos(nanos: i128) -> (t: Option<Time>)
        ensures
            t is Some <==> in_calendar(nanos as int),
            t matches Some(x) ==> x@ == nanos,
    {
        let seconds = floor_div(nanos, 1000000000);
        if MIN_UNIX_SECONDS as i128 <= seconds && seconds <= MAX_UNIX_SECONDS as i128 {
            Some(Time { nanos })
        } else {
            None
        }
    }

    /// The instant `millis` milliseconds after the epoch, when it falls in
    /// the years -9999 to 9999; `None` otherwise.
    pub fn checked_from_unix_millis(millis: i64) -> (t: Option<Time>)
        ensures
            t is Some <==> in_calendar(millis * 1000000),
            t matches Some(x) ==> x@ == millis * 1000000,
    {
        Time::checked_from_unix_nanos((millis as i128) * 1000000)
    }

    /// The instant `seconds` seconds after the epoch, when it falls in the
    /// years -9999 to 9999; `None` otherwise.
    pub fn checked_from_unix_seconds(seconds: i64) -> (t: Option<Time>)
        ensures
            t is Some <==> in_calendar(seconds * 1000000000),
            t matches Some(x) ==> x@ == seconds * 1000000000,
    {
        Time::checked_from_unix_nanos((seconds as i128) * 1000000000)
    }

    /// The instant `nanos` nanoseconds after the epoch.
    pub fn from_unix_nanos(nanos: i128) -> (t: Time)
        ensures
            t@ == nanos,
    {
        Time { nanos }
    }

    /// The instant `millis` milliseconds after the epoch.
    pub fn from_unix_millis(millis: i64) -> (t: Time)
        ensures
            t@ == millis * 1000000,
    {
        Time { nanos: (millis as i128) * 1000000 }
    }

    /// The instant `seconds` seconds after the epoch.
    pub fn from_unix_seconds(seconds: i64) -> (t: Time)
        ensures
            t@ == seconds * 1000000000,
    {
        Time { nanos: (seconds as i128) * 1000000000 }
    }

    pub fn unix_nanos(&self) -> (n: i128)
        ensures
            n == self@,
    {
        self.nanos
    }

    /// Whole milliseconds since the epoch, rounded toward the past.
    pub fn unix_millis(&self) -> (ms: i128)
        ensures
            ms == self@ / 1000000,
    {
        floor_div(self.nanos, 1000000)
    }

    /// Whole seconds since the epoch, rounded toward the past.
    pub fn unix_seconds(&self) -> (s: i128)
        ensures
            s == self@ / 1000000000,
    {
        floor_div(self.nanos, 1000000000)
    }

    /// The current time, as the system clock reads it; it falls in the
    /// years -9999 to 9999.
    pub fn now() -> (t: Time)
        ensures
            in_calendar(t@),
    {
        Time { nanos: clock_now_unix_nanos() }
    }

    /// The epoch itself.
    pub fn unix_epoch() -> (t: Time)
        ensures
            t@ == 0,
    {
        Time { nanos: 0 }
    }

    /// The rendering the API uses for an instant: the number of whole
    /// milliseconds since the epoch, rounded toward the past.
    pub fn to_string(&self) -> (s: String)
        ensures
            s@ == time_text(*self),
    {
        i128_text(self.unix_millis())
    }

    /// Whether `self` is earlier than `other`.
    pub fn is_before(&self, other: &Time) -> (b: bool)
        ensures
            b == (self@ < other@),
    {
        self.nanos < other.nanos
    }
}

impl Default for Time {
    fn default() -> (t: Time)
        ensures
            t@ == 0,
    {
        Time::unix_epoch()
    }
}

/// `n / d` rounded toward the past.
fn floor_div(n: i128, d: u128) -> (q: i128)
    requires
        2 <= d <= 1000000000,
    ensures
        q == (n as int) / (d as int),
{
    if n >= 0 {
        let q = n / (d as i128);
        proof {
            vstd::arithmetic::div_mod::lemma_fundamental_div_mod(n as int, d as int);
        }
        q
    } else {
        // For n < 0: floor(n / d) = -ceil(-n / d) = -((-n + d - 1) / d).
        let magnitude: u128 = if n == i128::MIN {
            170141183460469231731687303715884105728u128
        } else {
            (-n) as u128
        };
        let up: u128 = (magnitude + (d - 1)) / d;
        proof {
            lemma_floor_of_negative(n as int, d as int, magnitude as int, up as int);
            lemma_ceiling_quotient_bound(magnitude as int, d as int, up as int);
        }
        -(up as i128)
    }
}

/// Dividing a magnitude of at most `2^127`, rounded up, by at least 2
/// stays below `2^127`.
proof fn lemma_ceiling_quotient_bound(m: int, d: int, u: int)
    requires
        0 <= m <= 0x8000_0000_0000_0000_0000_0000_0000_0000,
        2 <= d <= 1000000000,
        u == (m + d - 1) / d,
    ensures
        0 <= u < 0x8000_0000_0000_0000_0000_0000_0000_0000,
{
    let k: int = 0x8000_0000_0000_0000_0000_0000_0000_0000;
    vstd::arithmetic::div_mod::lemma_fundamental_div_mod(m + d - 1, d);
    vstd::arithmetic::div_mod::lemma_div_pos_is_pos(m + d - 1, d);
    let r = (m + d - 1) % d;
    assert(0 <= r);
    assert(m + d - 1 == d * u + r);
    if u >= k {
        vstd::arithmetic::mul::lemma_mul_inequality(2, d, u);
        vstd::arithmetic::mul::lemma_mul_inequality(k, u, 2);
        vstd::arithmetic::mul::lemma_mul_is_commutative(d, u);
        vstd::arithmetic::mul::lemma_mul_is_commutative(u, 2);
        assert(d * u >= 2 * k);
        assert(false);
    }
}

proof fn lemma_floor_of_negative(n: int, d: int, magnitude: int, up: int)
    requires
        n < 0,
        d > 0,
        magnitude == -n,
        up == (magnitude + d - 1) / d,
    ensures
        -up == n / d,
{
    vstd::arithmetic::div_mod::lemma_fundamental_div_mod(magnitude + d - 1, d);
    vstd::arithmetic::div_mod::lemma_fundamental_div_mod(n, d);
    let q = n / d;
    let r = n % d;
    assert(0 <= r < d);
    assert(n == d * q + r);
    // magnitude + d - 1 = -d*q - r + d - 1 = d * (-q) + (d - 1 - r)
    assert(magnitude + d - 1 == d * (-q) + (d - 1 - r)) by (nonlinear_arith)
        requires
            magnitude == -n,
            n == d * q + r,
    ;
    vstd::arithmetic::div_mod::lemma_fundamental_div_mod_converse(magnitude + d - 1, d, -q, d - 1 - r);
}

} // verus!
