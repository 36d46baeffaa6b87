//! Wall-clock stamps for file names, in UTC, computed without a time-zone
//! database: the civil date of a day count (Howard Hinnant's algorithm) and
//! a `strftime`-like pattern with `%Y %m %d %H %M %S`.

use vstd::prelude::*;
use crate::decimal::{dec, pad_zero, signed_pad};
use crate::text::replace_all;

verus! {

/// Days since 0000-03-01 at the start of March-based year `yoe` of a
/// 400-year era.
pub open spec fn era_year_start(yoe: int) -> int {
    365 * yoe + yoe / 4 - yoe / 100
}

/// The civil date (year, month, day) of a day count from 1970-01-01, by
/// eras of 400 years and years that begin in March.
pub open spec fn civil_of_days(days: int) -> (int, int, int) {
    let z = days + 719468;
    let era = z / 146097;
    let doe = z % 146097;
    let yoe = (doe - doe / 1460 + doe / 36524 - doe / 146096) / 365;
    let doy = doe - era_year_start(yoe);
    let mp = (5 * doy + 2) / 153;
    let d = doy - (153 * mp + 2) / 5 + 1;
    let m = if mp < 10 {
        mp + 3
    } else {
        mp - 9
    };
    let y = yoe + era * 400;
    (if m <= 2 {
        y + 1
    } else {
        y
    }, m, d)
}

/// Gregorian leap years.
pub open spec fn is_leap_year(y: int) -> bool {
    (y % 4 == 0 && y % 100 != 0) || y % 400 == 0
}

pub open spec fn month_length(y: int, m: int) -> int {
    if m == 2 {
        if is_leap_year(y) {
            29
        } else {
            28
        }
    } else if m == 4 || m == 6 || m == 9 || m == 11 {
        30
    } else {
        31
    }
}

/// Days of the months before month `m` of year `y`.
pub open spec fn days_before_month(y: int, m: int) -> int {
    let common: int = if m <= 1 {
        0
    } else if m == 2 {
        31
    } else if m == 3 {
        59
    } else if m == 4 {
        90
    } else if m == 5 {
        120
    } else if m == 6 {
        151
    } else if m == 7 {
        181
    } else if m == 8 {
        212
    } else if m == 9 {
        243
    } else if m == 10 {
        273
    } else if m == 11 {
        304
    } else {
        334
    };
    common + (if m > 2 && is_leap_year(y) {
        1int
    } else {
        0int
    })
}

/// Leap years from year 1 up to, not including, year `y`.
pub open spec fn leap_years_before(y: int) -> int {
    (y - 1) / 4 - (y - 1) / 100 + (y - 1) / 400
}

/// Days from 1970-01-01 to the first of January of year `y`.
pub open spec fn days_before_year(y: int) -> int {
    365 * (y - 1970) + leap_years_before(y) - leap_years_before(1970)
}

/// Days from 1970-01-01 to the date `y-m-d`.
pub open spec fn day_number(y: int, m: int, d: int) -> int {
    days_before_year(y) + days_before_month(y, m) + d - 1
}

proof fn lemma_div_step(y: int, d: int)
    requires
        d > 0,
    ensures
        y / d - (y - 1) / d == (if y % d == 0 {
            1int
        } else {
            0int
        }),
{
    vstd::arithmetic::div_mod::lemma_fundamental_div_mod(y, d);
    vstd::arithmetic::div_mod::lemma_fundamental_div_mod(y - 1, d);
    vstd::arithmetic::div_mod::lemma_mod_bound(y, d);
    vstd::arithmetic::div_mod::lemma_mod_bound(y - 1, d);
    let q = y / d;
    let p = (y - 1) / d;
    assert(p == q || p == q - 1) by (nonlinear_arith)
        requires
            d > 0,
            y == d * q + y % d,
            y - 1 == d * p + (y - 1) % d,
            0 <= y % d < d,
            0 <= (y - 1) % d < d,
    ;
    if y % d == 0 {
        assert(p == q - 1) by (nonlinear_arith)
            requires
                d > 0,
                y == d * q,
                y - 1 == d * p + (y - 1) % d,
                0 <= (y - 1) % d < d,
                p == q || p == q - 1,
        ;
    } else {
        assert(p == q) by (nonlinear_arith)
            requires
                d > 0,
                y == d * q + y % d,
                0 < y % d < d,
                y - 1 == d * p + (y - 1) % d,
                0 <= (y - 1) % d < d,
                p == q || p == q - 1,
        ;
    }
}

proof fn lemma_leap_step(y: int)
    ensures
        leap_years_before(y + 1) == leap_years_before(y) + (if is_leap_year(y) {
            1int
        } else {
            0int
        }),
{
    lemma_div_step(y, 4);
    lemma_div_step(y, 100);
    lemma_div_step(y, 400);
}

proof fn lemma_era_leaps(era: int, yoe: int)
    requires
        0 <= yoe < 400,
    ensures
        leap_years_before(400 * era + yoe + 1) == 97 * era + yoe / 4 - yoe / 100,
{
    let y = 400 * era + yoe;
    assert(y / 4 == 100 * era + yoe / 4);
    assert(y / 100 == 4 * era + yoe / 100);
    assert(y / 400 == era);
}

/// The year of the era starts on a day at or before the day, and the day
/// lies within that March-based year, whose length counts the leap day of
/// the February it ends with.
proof fn lemma_era_year(doe: u32)
    requires
        doe < 146097,
    ensures
        ({
            let yoe = (doe - doe / 1460 + doe / 36524 - doe / 146096) / 365;
            let next = yoe + 1;
            let leap = (next % 4 == 0 && next % 100 != 0) || next % 400 == 0;
            &&& yoe < 400
            &&& 365 * yoe + yoe / 4 - yoe / 100 <= doe
            &&& doe - (365 * yoe + yoe / 4 - yoe / 100) < 365 + (if leap {
                1u32
            } else {
                0u32
            })
        }),
{
    assert({
        let yoe = (doe - doe / 1460 + doe / 36524 - doe / 146096) / 365;
        let next = yoe + 1;
        let leap = (next % 4 == 0 && next % 100 != 0) || next % 400 == 0;
        &&& yoe < 400
        &&& 365 * yoe + yoe / 4 - yoe / 100 <= doe
        &&& doe - (365 * yoe + yoe / 4 - yoe / 100) < 365 + (if leap {
            1u32
        } else {
            0u32
        })
    }) by (bit_vector)
        requires
            doe < 146097,
    ;
}

/// Within a March-based year, the month index and day fit the month.
proof fn lemma_month_fit(doy: u32, leap: bool)
    requires
        doy < 365 + (if leap {
            1u32
        } else {
            0u32
        }),
    ensures
        ({
            let mp = (5 * doy + 2) / 153;
            &&& mp < 12
            &&& (153 * mp + 2) / 5 <= doy
            &&& doy - (153 * mp + 2) / 5 < (if mp == 11 {
                28 + (if leap {
                    1u32
                } else {
                    0u32
                })
            } else {
                (153 * (mp + 1) + 2) / 5 - (153 * mp + 2) / 5
            })
        }),
{
    assert({
        let mp = (5 * doy + 2) / 153;
        &&& mp < 12
        &&& (153 * mp + 2) / 5 <= doy
        &&& doy - (153 * mp + 2) / 5 < (if mp == 11 {
            28 + (if leap {
                1u32
            } else {
                0u32
            })
        } else {
            (153 * (mp + 1) + 2) / 5 - (153 * mp + 2) / 5
        })
    }) by (bit_vector)
        requires
            doy < 365 + (if leap {
                1u32
            } else {
                0u32
            }),
    ;
}

proof fn lemma_cumulative(mp: int)
    requires
        0 <= mp < 12,
    ensures
        mp < 10 ==> (153 * mp + 2) / 5 + 59 == days_before_month(2001, mp + 3),
        mp >= 10 ==> (153 * mp + 2) / 5 == days_before_month(2001, mp - 9) + 306,
        mp < 11 ==> (153 * (mp + 1) + 2) / 5 - (153 * mp + 2) / 5 == month_length(
            2001,
            if mp < 10 {
                mp + 3
            } else {
                mp - 9
            },
        ),
{
}

/// A date from March to December of March-based year `yoe` of era `era`.
proof fn lemma_day_number_late(era: int, yoe: int, mp: int, d: int)
    requires
        0 <= yoe < 400,
        0 <= mp < 10,
    ensures
        day_number(400 * era + yoe, mp + 3, d) == 146097 * era + era_year_start(yoe) + (153 * mp
            + 2) / 5 + d - 1 - 719468,
{
    let yp = 400 * era + yoe;
    lemma_era_leaps(era, yoe);
    lemma_leap_step(yp);
    lemma_cumulative(mp);
    assert(leap_years_before(1970) == 477);
    assert(days_before_month(yp, mp + 3) == days_before_month(2001, mp + 3) + (if is_leap_year(
        yp,
    ) {
        1int
    } else {
        0int
    }));
}

/// A date in January or February, which close March-based year `yoe`.
proof fn lemma_day_number_early(era: int, yoe: int, mp: int, d: int)
    requires
        0 <= yoe < 400,
        10 <= mp < 12,
    ensures
        day_number(400 * era + yoe + 1, mp - 9, d) == 146097 * era + era_year_start(yoe) + (153
            * mp + 2) / 5 + d - 1 - 719468,
{
    let yp = 400 * era + yoe;
    lemma_era_leaps(era, yoe);
    lemma_cumulative(mp);
    assert(leap_years_before(1970) == 477);
    assert(days_before_month(yp + 1, mp - 9) == days_before_month(2001, mp - 9));
}

/// The civil date of a day count is a valid date, and it is that many days
/// after 1970-01-01.
#[verifier::rlimit(50)]
pub proof fn lemma_civil_of_days(days: int)
    ensures
        ({
            let (y, m, d) = civil_of_days(days);
            &&& 1 <= m <= 12
            &&& 1 <= d <= month_length(y, m)
            &&& day_number(y, m, d) == days
        }),
{
    let z = days + 719468;
    let era = z / 146097;
    let doe = z % 146097;
    assert(z == 146097 * era + doe);
    let doe32 = doe as u32;
    lemma_era_year(doe32);
    let yoe = (doe - doe / 1460 + doe / 36524 - doe / 146096) / 365;
    let doy = doe - era_year_start(yoe);
    let next = yoe + 1;
    let leap = (next % 4 == 0 && next % 100 != 0) || next % 400 == 0;
    let doy32 = doy as u32;
    lemma_month_fit(doy32, leap);
    let mp = (5 * doy + 2) / 153;
    let d = doy - (153 * mp + 2) / 5 + 1;
    let m = if mp < 10 {
        mp + 3
    } else {
        mp - 9
    };
    let yp = yoe + era * 400;
    let year = if m <= 2 {
        yp + 1
    } else {
        yp
    };
    lemma_cumulative(mp);
    if mp < 10 {
        lemma_day_number_late(era, yoe, mp, d);
    } else {
        lemma_day_number_early(era, yoe, mp, d);
        assert(is_leap_year(yp + 1) == leap) by {
            assert((yp + 1) % 4 == next % 4);
            assert((yp + 1) % 100 == next % 100);
            assert((yp + 1) % 400 == next % 400);
        }
    }
}

/// The civil date and time of a Unix time in seconds, UTC.
pub open spec fn civil_time(unix_secs: u64) -> (i32, u32, u32, u32, u32, u32) {
    let (y, m, d) = civil_of_days((unix_secs / 86400) as int);
    let rem = unix_secs % 86400;
    (y as i32, m as u32, d as u32, (rem / 3600) as u32, ((rem % 3600) / 60) as u32, (rem % 60) as u32)
}

/// The pattern with `%Y %m %d %H %M %S` replaced, in that order, by the
/// zero-padded year, month, day, hour, minute and second.
pub open spec fn stamp_text(pattern: Seq<char>, unix_secs: u64) -> Seq<char> {
    let (y, mo, d, h, mi, s) = civil_time(unix_secs);
    let p1 = replace_all(pattern, "%Y"@, signed_pad(y as int, 4));
    let p2 = replace_all(p1, "%m"@, pad_zero(dec(mo as nat), 2));
    let p3 = replace_all(p2, "%d"@, pad_zero(dec(d as nat), 2));
    let p4 = replace_all(p3, "%H"@, pad_zero(dec(h as nat), 2));
    let p5 = replace_all(p4, "%M"@, pad_zero(dec(mi as nat), 2));
    replace_all(p5, "%S"@, pad_zero(dec(s as nat), 2))
}

/// Hinnant's civil-from-days; day 0 is 1970-01-01. The year is truncated to `i32`.
pub fn civil_from_days(days: i64) -> (r: (i32, u32, u32))
    requires
        days <= i64::MAX - 719468,
    ensures
        r == ({
            let (y, m, d) = civil_of_days(days as int);
            (y as i32, m as u32, d as u32)
        }),
{
    let z: i64 = days + 719468;
    let era: i64 = if z >= 0 {
        z / 146097
    } else {
        let nz: u64 = (0i64 - z) as u64;
        let q: u64 = (nz + 146096) / 146097;
        0i64 - q as i64
    };
    assert(era == (z as int) / 146097) by (nonlinear_arith)
        requires
            z >= 0 ==> era == z / 146097,
            z < 0 ==> era == -((-(z as int) + 146096) / 146097),
    ;
    let doe64: i64 = z - era * 146097;
    assert(doe64 == (z as int) % 146097) by (nonlinear_arith)
        requires
            doe64 == z - era * 146097,
            era == (z as int) / 146097,
    ;
    let doe: u32 = doe64 as u32;
    proof {
        lemma_era_year(doe);
    }
    let yoe: u32 = (doe - doe / 1460 + doe / 36524 - doe / 146096) / 365;
    let doy: u32 = doe - (365 * yoe + yoe / 4 - yoe / 100);
    let ghost next = yoe + 1;
    let ghost leap = (next % 4 == 0 && next % 100 != 0) || next % 400 == 0;
    proof {
        lemma_month_fit(doy, leap);
    }
    let mp: u32 = (5 * doy + 2) / 153;
    let d: u32 = doy - (153 * mp + 2) / 5 + 1;
    let m: u32 = if mp < 10 {
        mp + 3
    } else {
        mp - 9
    };
    let y: i64 = yoe as i64 + era * 400;
    let year: i64 = if m <= 2 {
        y + 1
    } else {
        y
    };
    (year as i32, m, d)
}

/// The civil date and time of a Unix time, UTC.
pub fn civil_utc(unix_secs: u64) -> (r: (i32, u32, u32, u32, u32, u32))
    ensures
        r == civil_time(unix_secs),
{
    let days = (unix_secs / 86400) as i64;
    let rem = unix_secs % 86400;
    let hour = (rem / 3600) as u32;
    let minute = ((rem % 3600) / 60) as u32;
    let second = (rem % 60) as u32;
    let (year, month, day) = civil_from_days(days);
    (year, month, day, hour, minute, second)
}

fn padded(n: u32) -> (s: String)
    ensures
        s@ == pad_zero(dec(n as nat), 2),
{
    let mut v: Vec<char> = Vec::new();
    crate::decimal::push_padded(&mut v, n as u64, 2);
    crate::text::string_from(v.as_slice())
}

/// A Unix time as a stamp in `pattern`.
pub fn format_unix_utc(pattern: &str, unix_secs: u64) -> (s: String)
    ensures
        s@ == stamp_text(pattern@, unix_secs),
{
    let (year, month, day, hour, minute, second) = civil_utc(unix_secs);
    let mut y: Vec<char> = Vec::new();
    crate::decimal::push_signed_padded(&mut y, year as i64, 4);
    let y = crate::text::string_from(y.as_slice());
    proof {
        reveal_strlit("%Y");
        reveal_strlit("%m");
        reveal_strlit("%d");
        reveal_strlit("%H");
        reveal_strlit("%M");
        reveal_strlit("%S");
    }
    let p1 = crate::text::replace_str(pattern, "%Y", y.as_str());
    let p2 = crate::text::replace_str(p1.as_str(), "%m", padded(month).as_str());
    let p3 = crate::text::replace_str(p2.as_str(), "%d", padded(day).as_str());
    let p4 = crate::text::replace_str(p3.as_str(), "%H", padded(hour).as_str());
    let p5 = crate::text::replace_str(p4.as_str(), "%M", padded(minute).as_str());
    crate::text::replace_str(p5.as_str(), "%S", padded(second).as_str())
}

/// `std::time::SystemTime`, carried through unopened.
#[verifier::external_type_specification]
#[verifier::external_body]
pub struct ExSystemTime(std::time::SystemTime);

/// `SystemTime::now()`: the system clock's reading. It depends on the clock,
/// so nothing is stated of it.
#[verifier::external_body]
fn system_now() -> std::time::SystemTime {
    std::time::SystemTime::now()
}

/// `t.duration_since(UNIX_EPOCH)`: the time since the epoch, or nothing for
/// a reading before it. The reading is opaque, so nothing is stated.
#[verifier::external_body]
fn since_epoch(t: &std::time::SystemTime) -> Option<std::time::Duration> {
    match t.duration_since(std::time::UNIX_EPOCH) {
        Ok(d) => Some(d),
        Err(_) => None,
    }
}

/// `Duration::as_millis`: the whole milliseconds of a duration. The
/// duration is opaque, so nothing is stated.
#[verifier::external_body]
fn whole_millis(d: &std::time::Duration) -> u128 {
    d.as_millis()
}

/// Milliseconds since the Unix epoch from the system clock: 0 before the
/// epoch, saturated at the largest `u64`.
pub(crate) fn unix_now_ms() -> u64 {
    match since_epoch(&system_now()) {
        None => 0,
        Some(d) => {
            let ms = whole_millis(&d);
            if ms > 0xffff_ffff_ffff_ffffu128 {
                u64::MAX
            } else {
                ms as u64
            }
        },
    }
}

/// The system's clock.
#[derive(Clone, Copy, Debug)]
pub struct SystemClock;

impl SystemClock {
    pub fn unix_ms(&self) -> u64 {
        unix_now_ms()
    }

    /// A fresh version-7 session id for now, its random bits from `random`.
    pub fn session_id(&self, random: [u8; 10]) -> (id: crate::ids::SessionId)
        ensures
            crate::ids::is_v7(id.value()),
            exists|millis: u64| id.value() == crate::ids::v7_value(millis, random@),
    {
        crate::ids::SessionId::new(random)
    }
}

impl crate::naming::Clock for SystemClock {
    /// The pattern filled in with the current time, in whole seconds.
    fn formatted_stamp(&self, pattern: &str) -> (s: String)
        ensures
            exists|t: u64| s@ == stamp_text(pattern@, t),
    {
        let seconds = self.unix_ms() / 1000;
        let s = format_unix_utc(pattern, seconds);
        assert(s@ == stamp_text(pattern@, seconds));
        s
    }
}

} // verus!
