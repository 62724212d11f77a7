use vstd::prelude::*;

verus! {

/// First year representable: the Unix epoch.
pub const EPOCH_YEAR: i32 = 1970;

/// Largest year ever reported: calendar years are four-digit numbers.
pub const MAX_YEAR: i32 = 9999;

pub const A_DAY_SECS: u64 = 24 * 60 * 60;

pub const NORMAL_YEAR_SECS: u64 = 365 * A_DAY_SECS;

pub const LEAP_YEAR_SECS: u64 = 366 * A_DAY_SECS;

pub open spec fn spec_is_leap_year(year: int) -> bool {
    (year % 4 == 0 && year % 100 != 0) || year % 400 == 0
}

pub open spec fn spec_year_secs(year: int) -> int {
    if spec_is_leap_year(year) {
        LEAP_YEAR_SECS as int
    } else {
        NORMAL_YEAR_SECS as int
    }
}

/// The calendar year that `now` seconds after the start of `year` fall in,
/// counting whole years off the front and stopping at `MAX_YEAR`.
pub open spec fn spec_year_of(now: int, year: int) -> int
    decreases now,
        when now >= 0
{
    if year < MAX_YEAR as int && now >= spec_year_secs(year) {
        spec_year_of(now - spec_year_secs(year), year + 1)
    } else {
        year
    }
}

/// True exactly when `year` has 366 days in the Gregorian calendar.
pub fn is_leap_year(year: i32) -> (r: bool)
    requires
        year >= 0,
    ensures
        r == spec_is_leap_year(year as int),
{
    (year % 4 == 0 && year % 100 != 0) || year % 400 == 0
}

/// The calendar year containing the instant `secs` seconds after the Unix
/// epoch, capped at `MAX_YEAR`.
pub fn year_from_timestamp(secs: u64) -> (year: i32)
    ensures
        year as int == spec_year_of(secs as int, EPOCH_YEAR as int),
        EPOCH_YEAR <= year <= MAX_YEAR,
{
    let mut now: u64 = secs;
    let mut year: i32 = EPOCH_YEAR;
    loop
        invariant
            EPOCH_YEAR <= year <= MAX_YEAR,
            spec_year_of(secs as int, EPOCH_YEAR as int) == spec_year_of(
                now as int,
                year as int,
            ),
        ensures
            spec_year_of(secs as int, EPOCH_YEAR as int) == year as int,
            EPOCH_YEAR <= year <= MAX_YEAR,
        decreases now,
    {
        let year_secs: u64 = if is_leap_year(year) {
            LEAP_YEAR_SECS
        } else {
            NORMAL_YEAR_SECS
        };
        if !(year < MAX_YEAR && now >= year_secs) {
            assert(spec_year_of(now as int, year as int) == year as int);
            break;
        }
        now = now - year_secs;
        year = year + 1;
    }
    year
}

/// Relies on std::time::SystemTime::now and SystemTime::duration_since:
/// seconds elapsed since the Unix epoch, or 0 when the clock reads an
/// instant before the epoch.
#[verifier::external_body]
pub fn current_timestamp() -> u64 {
    match std::time::SystemTime::now().duration_since(std::time::UNIX_EPOCH) {
        Ok(d) => d.as_secs(),
        Err(_) => 0,
    }
}

/// The current calendar year according to the system clock.
pub fn current_year() -> (year: i32)
    ensures
        EPOCH_YEAR <= year <= MAX_YEAR,
{
    year_from_timestamp(current_timestamp())
}

} // verus!
