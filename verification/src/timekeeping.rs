//! Calendar weeks: whether a timestamp falls in the week (Monday to Sunday,
//! UTC) of the current time.
use vstd::prelude::*;

verus! {

/// The UTC instant, in whole seconds since the epoch, that an RFC 3339 text
/// denotes, or none when the text is not RFC 3339.
pub uninterp spec fn rfc3339_seconds(text: Seq<char>) -> Option<i64>;

/// Parses an RFC 3339 date and time (chrono's `DateTime::parse_from_rfc3339`)
/// and gives its instant in whole UTC seconds (`timestamp`), or none when the
/// text does not parse. The result is named, not described.
#[verifier::external_body]
pub(crate) fn parse_rfc3339_seconds(text: &str) -> (r: Option<i64>)
    ensures
        r == rfc3339_seconds(text@),
{
    chrono::DateTime::parse_from_rfc3339(text).ok().map(|d| d.timestamp())
}

/// The current UTC time in whole seconds since the epoch (chrono's
/// `Utc::now().timestamp()`). It depends on the clock, so nothing is stated
/// of it.
#[verifier::external_body]
pub(crate) fn unix_now() -> (r: i64) {
    chrono::Utc::now().timestamp()
}

pub const SECONDS_PER_DAY: i64 = 86400;

/// The first second of the Monday that starts the week holding `now`.
/// Day 0 of the epoch, 1970-01-01, was a Thursday.
pub open spec fn week_start(now: int) -> int {
    let day = now / 86400;
    (day - (day + 3) % 7) * 86400
}

/// Whether `t` lies in the week that holds `now`.
pub open spec fn in_week_of(t: int, now: int) -> bool {
    week_start(now) <= t < week_start(now) + 7 * 86400
}

/// Whether a date text is an RFC 3339 instant in the week of `now`.
pub open spec fn in_current_week(date: Seq<char>, now: int) -> bool {
    match rfc3339_seconds(date) {
        Some(t) => in_week_of(t as int, now),
        None => false,
    }
}

/// A multiple of whole weeks, larger than any `i64` magnitude, by which
/// times are shifted so that only non-negative numbers are divided.
const SHIFT: i128 = 9676800000000000000000;

proof fn lemma_shift(now: int, shifted: int)
    requires
        shifted == now + 9676800000000000000000,
        shifted >= 0,
    ensures
        (shifted / 86400 - (shifted / 86400 + 3) % 7) * 86400 - 9676800000000000000000 == week_start(now),
{
    let k: int = 112000000000000000;
    assert(9676800000000000000000 == k * 86400);
    assert(shifted / 86400 == now / 86400 + k) by {
        vstd::arithmetic::div_mod::lemma_hoist_over_denominator(now, k, 86400);
    }
    let d = now / 86400;
    assert((d + k + 3) % 7 == (d + 3) % 7) by {
        assert(k == 7 * 16000000000000000);
        vstd::arithmetic::div_mod::lemma_mod_multiples_vanish(16000000000000000, d + 3, 7);
        assert(d + k + 3 == 7 * 16000000000000000 + (d + 3));
    }
    assert((d + k - (d + 3) % 7) * 86400 == (d - (d + 3) % 7) * 86400 + k * 86400) by (nonlinear_arith);
}

/// Whether the instant `t` (seconds since the epoch) lies in the week that
/// holds `now`.
pub fn instant_in_week(t: i64, now: i64) -> (r: bool)
    ensures
        r == in_week_of(t as int, now as int),
{
    let shifted: i128 = now as i128 + SHIFT;
    let day: i128 = shifted / 86400;
    let start: i128 = (day - (day + 3) % 7) * 86400 - SHIFT;
    proof {
        lemma_shift(now as int, shifted as int);
    }
    let t = t as i128;
    start <= t && t < start + 7 * 86400
}

/// Whether a date text is an RFC 3339 instant in the week that holds `now`.
pub fn is_current_week(date: &str, now: i64) -> (r: bool)
    ensures
        r == in_current_week(date@, now as int),
{
    match parse_rfc3339_seconds(date) {
        None => false,
        Some(t) => instant_in_week(t, now),
    }
}

} // verus!
