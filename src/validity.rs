use vstd::prelude::*;

verus! {

/// Seconds in one calendar day of UTC.
pub const SECONDS_PER_DAY: i64 = 86400;

/// The day number (days since 1970-01-01) of 9999-12-31, the last day a
/// certificate date may fall on.
pub const MAX_DAY: i64 = 2932896;

/// The day, counted from 1970-01-01, that holds the instant `secs`
/// (seconds since the Unix epoch, UTC).
pub open spec fn day_of(secs: int) -> int {
    secs / (SECONDS_PER_DAY as int)
}

/// Whether a day number can be written as a certificate date.
pub open spec fn day_in_range(day: int) -> bool {
    0 <= day <= MAX_DAY as int
}

/// Whether a window starting at `now` and lasting `ttl` seconds can be
/// expressed with certificate dates.
pub open spec fn window_in_range(now: int, ttl: int) -> bool {
    day_in_range(day_of(now)) && day_in_range(day_of(now + ttl))
}

/// A date of the proleptic Gregorian calendar.
#[derive(Clone, Copy, Debug, PartialEq, Eq, Structural)]
pub struct CivilDate {
    pub year: i32,
    pub month: u8,
    pub day: u8,
}

pub open spec fn is_leap_year(y: int) -> bool {
    (y % 4 == 0 && y % 100 != 0) || y % 400 == 0
}

pub open spec fn days_in_month(y: int, m: int) -> int {
    if m == 2 {
        if is_leap_year(y) { 29 } else { 28 }
    } else if m == 4 || m == 6 || m == 9 || m == 11 {
        30
    } else {
        31
    }
}

/// A real calendar date within the years a certificate can carry.
pub open spec fn is_certificate_date(d: CivilDate) -> bool {
    &&& 1970 <= d.year <= 9999
    &&& 1 <= d.month <= 12
    &&& 1 <= d.day <= days_in_month(d.year as int, d.month as int)
}

/// A validity window truncated to whole days: both bounds are day numbers.
#[derive(Clone, Copy, Debug, PartialEq, Eq, Structural)]
pub struct Validity {
    pub not_before_day: i64,
    pub not_after_day: i64,
}

/// The window that starts on the day of `now` and ends on the day of
/// `now + ttl`; sub-day precision is dropped at both ends.
pub open spec fn window_of(now: int, ttl: int) -> Validity {
    Validity { not_before_day: day_of(now) as i64, not_after_day: day_of(now + ttl) as i64 }
}

/// Computes the day-granular validity window of a certificate issued at
/// `now_secs` that lives `ttl_secs` seconds. `None` when either bound falls
/// outside the dates a certificate can carry.
pub fn validity_window(now_secs: i64, ttl_secs: i64) -> (r: Option<Validity>)
    ensures
        r is Some <==> window_in_range(now_secs as int, ttl_secs as int),
        r matches Some(v) ==> v == window_of(now_secs as int, ttl_secs as int),
{
    if now_secs < 0 || now_secs / SECONDS_PER_DAY > MAX_DAY {
        return None;
    }
    let end: i64 = match now_secs.checked_add(ttl_secs) {
        Some(e) => e,
        None => {
            assert(!day_in_range(day_of(now_secs + ttl_secs))) by (nonlinear_arith)
                requires
                    now_secs + ttl_secs > i64::MAX || now_secs + ttl_secs < i64::MIN,
                    now_secs >= 0,
            ;
            return None;
        },
    };
    if end < 0 || end / SECONDS_PER_DAY > MAX_DAY {
        return None;
    }
    Some(Validity { not_before_day: now_secs / SECONDS_PER_DAY, not_after_day: end / SECONDS_PER_DAY })
}

/// The window spans the requested lifetime rounded to whole days: its length
/// in days is `ttl` days rounded down, or one more when the lifetime crosses
/// an extra midnight; a lifetime of whole days gives exactly that many days.
pub proof fn lemma_window_length(now: int, ttl: int)
    requires
        ttl >= 0,
    ensures
        ({
            let days = day_of(now + ttl) - day_of(now);
            &&& ttl / 86400 <= days <= ttl / 86400 + 1
            &&& ttl % 86400 == 0 ==> days == ttl / 86400
        }),
{
    let d: int = 86400;
    assert(now == d * (now / d) + now % d && 0 <= now % d < d) by (nonlinear_arith)
        requires d == 86400;
    assert(ttl == d * (ttl / d) + ttl % d && 0 <= ttl % d < d) by (nonlinear_arith)
        requires d == 86400;
    let q = now / d + ttl / d;
    let r = now % d + ttl % d;
    assert(now + ttl == d * q + r);
    if r < d {
        assert((now + ttl) / d == q) by (nonlinear_arith)
            requires now + ttl == d * q + r, 0 <= r < d, d == 86400;
    } else {
        assert((now + ttl) / d == q + 1) by (nonlinear_arith)
            requires now + ttl == d * (q + 1) + (r - d), 0 <= r - d < d, d == 86400;
    }
}

} // verus!
