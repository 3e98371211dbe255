//! Calendar arithmetic for the schedule choices: day numbers counted from
//! 1970-01-01 in the proleptic Gregorian calendar, and the "April 14, 2026"
//! form AppleScript reads as a date.

use vstd::prelude::*;
use crate::text::{dec, dec_int, push_dec, push_dec_i64, push_str, string_from_chars};

verus! {

/// Whether `y` is a leap year.
pub open spec fn is_leap(y: int) -> bool {
    y % 4 == 0 && (y % 100 != 0 || y % 400 == 0)
}

/// Days from 0000-01-01 to the first of January of year `y`: 365 per year
/// plus one per leap year in `[0, y)`.
pub open spec fn days_before_year(y: int) -> int {
    365 * y + (y + 3) / 4 - (y + 99) / 100 + (y + 399) / 400
}

/// Days in the months of year `y` before month `m` (1 = January).
pub open spec fn days_before_month(y: int, m: int) -> int {
    let l: int = if is_leap(y) { 1 } else { 0 };
    if m <= 1 {
        0
    } else if m == 2 {
        31
    } else if m == 3 {
        59 + l
    } else if m == 4 {
        90 + l
    } else if m == 5 {
        120 + l
    } else if m == 6 {
        151 + l
    } else if m == 7 {
        181 + l
    } else if m == 8 {
        212 + l
    } else if m == 9 {
        243 + l
    } else if m == 10 {
        273 + l
    } else if m == 11 {
        304 + l
    } else {
        334 + l
    }
}

/// The day number of `y-m-d`: days since 1970-01-01 (negative before it).
pub open spec fn day_number(y: int, m: int, d: int) -> int {
    days_before_year(y) + days_before_month(y, m) + d - 1 - days_before_year(1970)
}

/// Years the calendar arithmetic handles without overflow.
pub open spec fn year_in_range(y: int) -> bool {
    -18014398509481984 <= y <= 18014398509481984
}

proof fn lemma_era_split(y: int, e: int, r: int)
    by (nonlinear_arith)
    requires
        y == 400 * e + r,
        0 <= r < 400,
    ensures
        y / 4 == 100 * e + r / 4,
        y / 100 == 4 * e + r / 100,
        y / 400 == e,
{
}

proof fn lemma_ceil_floor(y: int, k: int)
    by (nonlinear_arith)
    requires
        k > 0,
    ensures
        (y + k - 1) / k == (y - 1) / k + 1,
        (y % k == 0) ==> (y + k - 1) / k == y / k,
        (y % k != 0) ==> (y + k - 1) / k == y / k + 1,
{
}

/// Days from 0000-03-01 to `y'`-03-01, as the era / year-of-era split computes them.
proof fn lemma_march_years(yp: int)
    ensures
        146097 * (yp / 400) + 365 * (yp % 400) + (yp % 400) / 4 - (yp % 400) / 100 == 365 * yp + yp / 4 - yp / 100 + yp / 400,
{
    lemma_era_split(yp, yp / 400, yp % 400);
}

/// Leap years in `[0, y]` against those in `[0, y)`.
proof fn lemma_leap_count(y: int)
    ensures
        365 * y + y / 4 - y / 100 + y / 400 == days_before_year(y) + (if is_leap(y) { 1int } else { 0int }) - 1,
{
    lemma_ceil_floor(y, 4);
    lemma_ceil_floor(y, 100);
    lemma_ceil_floor(y, 400);
    lemma_era_split(y, y / 400, y % 400);
    let r = y % 400;
    assert(y % 4 == r % 4 && y % 100 == r % 100) by (nonlinear_arith)
        requires
            y == 400 * (y / 400) + r,
            0 <= r < 400,
    {
    }
    assert(r % 100 == 0 ==> r % 4 == 0) by (nonlinear_arith)
        requires
            0 <= r < 400,
    {
    }
}

/// Leap years in `[0, y - 1]` are those in `[0, y)`.
proof fn lemma_leap_count_prev(y: int)
    ensures
        365 * (y - 1) + (y - 1) / 4 - (y - 1) / 100 + (y - 1) / 400 == days_before_year(y) - 366,
{
    lemma_ceil_floor(y, 4);
    lemma_ceil_floor(y, 100);
    lemma_ceil_floor(y, 400);
}

/// Counting the days of `y-m-d` from March of the shifted year gives the day number.
proof fn lemma_from_march(y: int, m: int, d: int)
    requires
        1 <= m <= 12,
    ensures
        ({
            let yp = if m <= 2 { y - 1 } else { y };
            let mp = if m > 2 { m - 3 } else { m + 9 };
            365 * yp + yp / 4 - yp / 100 + yp / 400 + (153 * mp + 2) / 5 + d - 1 - 719468 == day_number(y, m, d)
        }),
{
    assert(days_before_year(1970) == 719528);
    if m <= 2 {
        lemma_leap_count_prev(y);
    } else {
        lemma_leap_count(y);
    }
}

/// The day number of `year-month-day` (days since 1970-01-01).
pub fn days_from_civil(year: i64, month: u32, day: u32) -> (z: i64)
    requires
        1 <= month <= 12,
        1 <= day,
        year_in_range(year as int),
    ensures
        z as int == day_number(year as int, month as int, day as int),
{
    let y: i64 = if month <= 2 { year - 1 } else { year };
    let era: i64 = match y.checked_div_euclid(400) {
        Some(e) => e,
        None => 0,
    };
    assert(0 <= y - era * 400 < 400);
    let yoe: u64 = (y - era * 400) as u64;
    let mp: u64 = if month > 2 { month as u64 - 3 } else { month as u64 + 9 };
    let doy: u64 = (153 * mp + 2) / 5 + day as u64 - 1;
    let doe: u64 = yoe * 365 + yoe / 4 - yoe / 100 + doy;
    proof {
        lemma_march_years(y as int);
        lemma_from_march(year as int, month as int, day as int);
        assert(yoe as int == (y as int) % 400);
    }
    era * 146097 + doe as i64 - 719468
}

/// The date of day number `z`, by the era / day-of-era inversion the client
/// uses: (year, month, day) before the month and day are narrowed to `u32`.
pub open spec fn civil_of(z: int) -> (int, int, int) {
    let z1 = z + 719468;
    let era = (if z1 >= 0 { z1 } else { z1 - 146096 }) / 146097;
    let doe = z1 - era * 146097;
    let yoe = (doe - doe / 1460 + doe / 36524 - doe / 146096) / 365;
    let y = yoe + era * 400;
    let doy = doe - (365 * yoe + yoe / 4 - yoe / 100);
    let mp = (5 * doy + 2) / 153;
    let d = doy - (153 * mp + 2) / 5 + 1;
    let m = if mp < 10 { mp + 3 } else { mp - 9 };
    (if m <= 2 { y + 1 } else { y }, m, d)
}

/// Day numbers the conversion back to a date handles without overflow.
pub open spec fn day_in_range(z: int) -> bool {
    -6579306076000000000 <= z <= 6579306076000000000
}

proof fn lemma_doe_bounds(doe: int)
    by (nonlinear_arith)
    requires
        0 <= doe < 292194,
    ensures
        0 <= (doe - doe / 1460 + doe / 36524 - doe / 146096) / 365 <= 801,
{
}

/// Within one 400-year era, the year-of-era estimate leaves a day-of-year
/// in `[0, 365]`, and day 365 only in a March-year that ends in a leap February.
proof fn lemma_yoe_bv(doe: u32)
    by (bit_vector)
    requires
        doe < 146097,
    ensures
        ({
            let yoe = ((doe - doe / 1460 + doe / 36524 - doe / 146096) / 365) as u32;
            &&& yoe < 400
            &&& 365 * yoe + yoe / 4 - yoe / 100 <= doe
            &&& doe - (365 * yoe + yoe / 4 - yoe / 100) <= 365
            &&& doe - (365 * yoe + yoe / 4 - yoe / 100) == 365 ==> (yoe + 1) % 4 == 0 && ((yoe
                + 1) % 100 != 0 || yoe == 399)
        }),
{
}

/// The March-based day-of-year picks a month index in `[0, 11]` and a day
/// within that month's length (February, index 11, up to 29 days, the 29th
/// only on day-of-year 365).
proof fn lemma_month_of_doy(doy: u32)
    by (bit_vector)
    requires
        doy <= 365,
    ensures
        ({
            let mp = ((5 * doy + 2) / 153) as u32;
            let d = doy - (153 * mp + 2) / 5 + 1;
            &&& mp <= 11
            &&& 1 <= d
            &&& d <= (if mp == 1 || mp == 3 || mp == 6 || mp == 8 { 30int } else if mp == 11 {
                29int
            } else {
                31int
            })
            &&& (mp == 11 && d == 29) ==> doy == 365
        }),
{
}

/// Number of days in month `m` of year `y`.
pub open spec fn days_in_month(y: int, m: int) -> int {
    if m == 2 {
        if is_leap(y) {
            29
        } else {
            28
        }
    } else if m == 4 || m == 6 || m == 9 || m == 11 {
        30
    } else {
        31
    }
}

/// Whether `(y, m, d)` names a day of the calendar.
pub open spec fn is_date(y: int, m: int, d: int) -> bool {
    1 <= m <= 12 && 1 <= d <= days_in_month(y, m)
}

/// For every day on or after 0000-03-01, the conversion back gives a real
/// date, and that date's day number is the day started from: converting a
/// day number to a date and back is the identity.
pub proof fn law_civil_of_is_date(z: int)
    requires
        z + 719468 >= 0,
    ensures
        is_date(civil_of(z).0, civil_of(z).1, civil_of(z).2),
        day_number(civil_of(z).0, civil_of(z).1, civil_of(z).2) == z,
{
    let z1 = z + 719468;
    let era = z1 / 146097;
    let doe = z1 - era * 146097;
    assert(0 <= doe < 146097 && era >= 0) by (nonlinear_arith)
        requires
            z1 >= 0,
            era == z1 / 146097,
            doe == z1 - era * 146097,
    {
    }
    lemma_yoe_bv(doe as u32);
    let yoe = (doe - doe / 1460 + doe / 36524 - doe / 146096) / 365;
    let doy = doe - (365 * yoe + yoe / 4 - yoe / 100);
    lemma_month_of_doy(doy as u32);
    let mp = (5 * doy + 2) / 153;
    let d = doy - (153 * mp + 2) / 5 + 1;
    let m = if mp < 10 { mp + 3 } else { mp - 9 };
    let y = yoe + era * 400;
    let yy = if m <= 2 { y + 1 } else { y };
    assert(civil_of(z) == (yy, m, d));
    lemma_era_split(y, era, yoe);
    lemma_march_years(y);
    lemma_from_march(yy, m, d);
    if m == 2 && d == 29 {
        assert((yoe + 1) % 4 == 0 && ((yoe + 1) % 100 != 0 || yoe == 399));
        assert(is_leap(y + 1)) by (nonlinear_arith)
            requires
                y + 1 == 400 * era + yoe + 1,
                0 <= yoe < 400,
                (yoe + 1) % 4 == 0,
                (yoe + 1) % 100 != 0 || yoe == 399,
        {
        }
    }
}

/// A year adds 365 days, 366 in a leap year.
proof fn lemma_year_length(y: int)
    ensures
        days_before_year(y + 1) == days_before_year(y) + 365 + (if is_leap(y) { 1int } else { 0int }),
{
    lemma_ceil_floor(y + 1, 4);
    lemma_ceil_floor(y + 1, 100);
    lemma_ceil_floor(y + 1, 400);
    lemma_ceil_floor(y, 4);
    lemma_ceil_floor(y, 100);
    lemma_ceil_floor(y, 400);
    assert((y + 4) / 4 == y / 4 + 1 && (y + 100) / 100 == y / 100 + 1 && (y + 400) / 400 == y / 400 + 1)
        by (nonlinear_arith);
}

/// Later years start later.
proof fn lemma_years_ordered(a: int, b: int)
    requires
        a <= b,
    ensures
        days_before_year(a) <= days_before_year(b),
    decreases b - a,
{
    if a < b {
        lemma_year_length(a);
        lemma_years_ordered(a + 1, b);
    }
}

/// A date's days within its year: before the next month, and before the year's end.
proof fn lemma_day_of_year(y: int, m: int, d: int)
    requires
        is_date(y, m, d),
    ensures
        days_before_month(y, m) + d - 1 < days_before_month(y, m + 1) || m == 12,
        days_before_month(y, m) + d - 1 < 365 + (if is_leap(y) { 1int } else { 0int }),
        forall|m2: int| m < m2 <= 12 ==> days_before_month(y, m) + d - 1 < #[trigger] days_before_month(y, m2),
{
}

/// The day number of a date lies within its year.
proof fn lemma_date_in_year(y: int, m: int, d: int)
    requires
        is_date(y, m, d),
    ensures
        days_before_year(y) <= day_number(y, m, d) + days_before_year(1970),
        day_number(y, m, d) + days_before_year(1970) < days_before_year(y + 1),
{
    lemma_day_of_year(y, m, d);
    lemma_year_length(y);
}

/// Two dates with one day number are the same date.
proof fn lemma_day_number_injective(y1: int, m1: int, d1: int, y2: int, m2: int, d2: int)
    requires
        is_date(y1, m1, d1),
        is_date(y2, m2, d2),
        day_number(y1, m1, d1) == day_number(y2, m2, d2),
    ensures
        y1 == y2 && m1 == m2 && d1 == d2,
{
    lemma_date_in_year(y1, m1, d1);
    lemma_date_in_year(y2, m2, d2);
    if y1 < y2 {
        lemma_years_ordered(y1 + 1, y2);
    } else if y2 < y1 {
        lemma_years_ordered(y2 + 1, y1);
    } else {
        lemma_day_of_year(y1, m1, d1);
        lemma_day_of_year(y2, m2, d2);
        if m1 < m2 {
            assert(days_before_month(y1, m1) + d1 - 1 < days_before_month(y1, m2));
        } else if m2 < m1 {
            assert(days_before_month(y2, m2) + d2 - 1 < days_before_month(y2, m1));
        }
    }
}

/// Turning a date into its day number and back gives the date again, for
/// every date from 0000-03-01 on.
pub proof fn law_date_round_trip(y: int, m: int, d: int)
    requires
        is_date(y, m, d),
        day_number(y, m, d) + 719468 >= 0,
    ensures
        civil_of(day_number(y, m, d)) == (y, m, d),
{
    let z = day_number(y, m, d);
    law_civil_of_is_date(z);
    let c = civil_of(z);
    lemma_day_number_injective(c.0, c.1, c.2, y, m, d);
}

/// Euclidean division (`i64::div_euclid`) by a positive divisor.
fn ediv(a: i64, b: i64) -> (q: i64)
    requires
        b > 0,
    ensures
        q as int == a as int / b as int,
{
    match a.checked_div_euclid(b) {
        Some(q) => q,
        None => {
            assert(false) by (nonlinear_arith)
                requires
                    b > 0,
                    !(i64::MIN <= a as int / b as int <= i64::MAX),
            {
            }
            0
        },
    }
}

/// The date of day number `z` (days since 1970-01-01), as (year, month, day).
pub fn civil_from_days(z: i64) -> (r: (i64, u32, u32))
    requires
        day_in_range(z as int),
    ensures
        r.0 as int == civil_of(z as int).0,
        r.1 == civil_of(z as int).1 as u32,
        r.2 == civil_of(z as int).2 as u32,
        z + 719468 >= 0 ==> r.1 as int == civil_of(z as int).1 && r.2 as int == civil_of(z as int).2,
{
    let z1: i64 = z + 719468;
    let era: i64 = ediv(if z1 >= 0 { z1 } else { z1 - 146096 }, 146097);
    let doe: i64 = z1 - era * 146097;
    assert(0 <= doe < 292194) by (nonlinear_arith)
        requires
            era == (if z1 >= 0 { z1 as int } else { z1 - 146096 }) / 146097,
            doe == z1 - era * 146097,
    {
    }
    let yoe: i64 = ediv(doe - ediv(doe, 1460) + ediv(doe, 36524) - ediv(doe, 146096), 365);
    proof {
        lemma_doe_bounds(doe as int);
    }
    let y: i64 = yoe + era * 400;
    let doy: i64 = doe - (365 * yoe + ediv(yoe, 4) - ediv(yoe, 100));
    let mp: i64 = ediv(5 * doy + 2, 153);
    let d: i64 = doy - ediv(153 * mp + 2, 5) + 1;
    let m: i64 = if mp < 10 { mp + 3 } else { mp - 9 };
    let yy: i64 = if m <= 2 { y + 1 } else { y };
    proof {
        if z + 719468 >= 0 {
            law_civil_of_is_date(z as int);
        }
    }
    (yy, m as u32, d as u32)
}

/// Days the schedule helpers count from: on or after 0000-03-01 and far
/// enough from the end of `i64` to add a week.
pub open spec fn day_ok(z: int) -> bool {
    z + 719468 >= 0 && day_in_range(z + 7)
}

/// The year of a day in range stays in the range the day count handles.
proof fn lemma_civil_year_in_range(z: int)
    requires
        day_ok(z),
    ensures
        year_in_range(civil_of(z).0),
{
    law_civil_of_is_date(z);
    let z1 = z + 719468;
    let era = z1 / 146097;
    assert(0 <= era * 400 <= 18014398509481584) by (nonlinear_arith)
        requires
            0 <= z1 <= 6579306076000719475,
            era == z1 / 146097,
    {
    }
    let doe = z1 - era * 146097;
    assert(0 <= doe < 146097) by (nonlinear_arith)
        requires
            z1 >= 0,
            era == z1 / 146097,
            doe == z1 - era * 146097,
    {
    }
    lemma_yoe_bv(doe as u32);
}

/// Day of the week of day number `z`: 0 is Sunday (1970-01-01 was a Thursday).
pub open spec fn weekday(z: int) -> int {
    (z + 4) % 7
}

/// The day of the week of day number `z`, 0 = Sunday .. 6 = Saturday.
pub fn day_of_week(z: i64) -> (w: u32)
    requires
        z <= i64::MAX - 4,
    ensures
        w as int == weekday(z as int),
{
    let r: i64 = match (z + 4).checked_rem_euclid(7) {
        Some(r) => r,
        None => 0,
    };
    r as u32
}

/// English name of month `m` (1 = January).
pub open spec fn month_text(m: int) -> Seq<char> {
    if m == 1 {
        "January"@
    } else if m == 2 {
        "February"@
    } else if m == 3 {
        "March"@
    } else if m == 4 {
        "April"@
    } else if m == 5 {
        "May"@
    } else if m == 6 {
        "June"@
    } else if m == 7 {
        "July"@
    } else if m == 8 {
        "August"@
    } else if m == 9 {
        "September"@
    } else if m == 10 {
        "October"@
    } else if m == 11 {
        "November"@
    } else {
        "December"@
    }
}

/// The English month names in calendar order.
pub open spec fn english_months() -> Seq<Seq<char>> {
    seq!["January"@, "February"@, "March"@, "April"@, "May"@, "June"@, "July"@, "August"@, "September"@, "October"@, "November"@, "December"@]
}

/// A short key of a text: its length, first and third characters. The
/// month names have twelve different keys.
spec fn name_key(s: Seq<char>) -> (int, char, char) {
    (s.len() as int, s[0], s[2])
}

/// Different months have different names.
pub(crate) proof fn lemma_month_names_differ(m1: int, m2: int)
    requires
        1 <= m1 <= 12,
        1 <= m2 <= 12,
        m1 != m2,
    ensures
        month_text(m1) != month_text(m2),
{
    reveal_strlit("January");
    reveal_strlit("February");
    reveal_strlit("March");
    reveal_strlit("April");
    reveal_strlit("May");
    reveal_strlit("June");
    reveal_strlit("July");
    reveal_strlit("August");
    reveal_strlit("September");
    reveal_strlit("October");
    reveal_strlit("November");
    reveal_strlit("December");
    assert(name_key(month_text(m1)) != name_key(month_text(m2)));
}

/// Month names name the months of the calendar: month `m` is the `m`-th of
/// the English month names, different months have different names, the
/// months of thirty days are April, June, September and November, and only
/// February is shorter.
pub proof fn law_month_names()
    ensures
        forall|m: int| 1 <= m <= 12 ==> #[trigger] month_text(m) == english_months()[m - 1],
        forall|m1: int, m2: int|
            1 <= m1 <= 12 && 1 <= m2 <= 12 && m1 != m2 ==> #[trigger] month_text(m1) != #[trigger] month_text(m2),
        forall|y: int, m: int|
            1 <= m <= 12 ==> (#[trigger] days_in_month(y, m) == 30 <==> (month_text(m) == "April"@ || month_text(m)
                == "June"@ || month_text(m) == "September"@ || month_text(m) == "November"@)),
        forall|y: int, m: int| 1 <= m <= 12 ==> (#[trigger] days_in_month(y, m) < 30 <==> month_text(m) == "February"@),
{
    reveal_strlit("January");
    reveal_strlit("February");
    reveal_strlit("March");
    reveal_strlit("April");
    reveal_strlit("May");
    reveal_strlit("June");
    reveal_strlit("July");
    reveal_strlit("August");
    reveal_strlit("September");
    reveal_strlit("October");
    reveal_strlit("November");
    reveal_strlit("December");
    assert forall|m1: int, m2: int|
        1 <= m1 <= 12 && 1 <= m2 <= 12 && m1 != m2 implies #[trigger] month_text(m1) != #[trigger] month_text(m2) by {
        lemma_month_names_differ(m1, m2);
    }
    assert forall|y: int, m: int| 1 <= m <= 12 implies (#[trigger] days_in_month(y, m) == 30 <==> (month_text(m)
        == "April"@ || month_text(m) == "June"@ || month_text(m) == "September"@ || month_text(m) == "November"@))
        && (days_in_month(y, m) < 30 <==> month_text(m) == "February"@) by {
        assert(month_text(2) == "February"@ && month_text(4) == "April"@ && month_text(6) == "June"@);
        assert(month_text(9) == "September"@ && month_text(11) == "November"@);
    }
}

/// The English name of month `m`.
pub fn month_name(m: u32) -> (r: &'static str)
    requires
        1 <= m <= 12,
    ensures
        r@ == month_text(m as int),
{
    if m == 1 {
        "January"
    } else if m == 2 {
        "February"
    } else if m == 3 {
        "March"
    } else if m == 4 {
        "April"
    } else if m == 5 {
        "May"
    } else if m == 6 {
        "June"
    } else if m == 7 {
        "July"
    } else if m == 8 {
        "August"
    } else if m == 9 {
        "September"
    } else if m == 10 {
        "October"
    } else if m == 11 {
        "November"
    } else {
        "December"
    }
}

/// "Month d, y", the date form AppleScript reads.
pub open spec fn date_text(y: int, m: int, d: int) -> Seq<char> {
    month_text(m) + " "@ + dec(d as nat) + ", "@ + dec_int(y)
}

/// Formats `y-m-d` as "Month d, y".
pub fn format_civil(y: i64, m: u32, d: u32) -> (r: String)
    requires
        1 <= m <= 12,
    ensures
        r@ == date_text(y as int, m as int, d as int),
{
    let mut out: Vec<char> = Vec::new();
    push_str(&mut out, month_name(m));
    push_str(&mut out, " ");
    push_dec(&mut out, d as u64);
    push_str(&mut out, ", ");
    push_dec_i64(&mut out, y);
    string_from_chars(out.as_slice())
}

/// The text of day number `z`.
pub open spec fn day_text(z: int) -> Seq<char> {
    date_text(civil_of(z).0, civil_of(z).1, civil_of(z).2)
}

/// The text of the day `delta` days after day number `z`.
pub open spec fn text_after(z: int, delta: int) -> Seq<char> {
    day_text(z + delta)
}

/// Days from `z` to the next day after it that falls on weekday `target`:
/// one to seven, seven where `z` itself falls on `target`.
pub open spec fn days_until(z: int, target: int) -> int {
    let d = (target + 7 - weekday(z)) % 7;
    if d < 1 {
        7
    } else {
        d
    }
}

/// The day after `z` through the date and back, as the client computes it:
/// convert `z` to a date, that date to its day number, add `delta`, and
/// format the date of the result.
fn day_after_text(z: i64, delta: i64) -> (r: String)
    requires
        day_ok(z as int),
        1 <= delta <= 7,
    ensures
        r@ == day_text(z + delta),
{
    let (y, m, d) = civil_from_days(z);
    proof {
        law_civil_of_is_date(z as int);
        lemma_civil_year_in_range(z as int);
    }
    let back: i64 = days_from_civil(y, m, d);
    let (y2, m2, d2) = civil_from_days(back + delta);
    proof {
        law_civil_of_is_date(z + delta);
    }
    format_civil(y2, m2, d2)
}

/// "Month d, y" for the day after day number `today`.
pub fn tomorrow_after(today: i64) -> (r: String)
    requires
        day_ok(today as int),
    ensures
        r@ == day_text(today + 1),
{
    day_after_text(today, 1)
}

/// "Month d, y" for the first Saturday after day number `today` (a week
/// later where `today` is a Saturday).
pub fn next_saturday_after(today: i64) -> (r: String)
    requires
        day_ok(today as int),
    ensures
        r@ == day_text(today + days_until(today as int, 6)),
        1 <= days_until(today as int, 6) <= 7,
        weekday(today + days_until(today as int, 6)) == 6,
        forall|k: int| 1 <= k < days_until(today as int, 6) ==> #[trigger] weekday(today + k) != 6,
{
    proof {
        law_next_weekday(today as int, 6);
    }
    let dow: u32 = day_of_week(today);
    let raw: i64 = (6 + 7 - dow as i64) % 7;
    let delta: i64 = if raw < 1 { 7 } else { raw };
    day_after_text(today, delta)
}

/// "Month d, y" for the first Monday after day number `today` (a week later
/// where `today` is a Monday).
pub fn next_monday_after(today: i64) -> (r: String)
    requires
        day_ok(today as int),
    ensures
        r@ == day_text(today + days_until(today as int, 1)),
        1 <= days_until(today as int, 1) <= 7,
        weekday(today + days_until(today as int, 1)) == 1,
        forall|k: int| 1 <= k < days_until(today as int, 1) ==> #[trigger] weekday(today + k) != 1,
{
    proof {
        law_next_weekday(today as int, 1);
    }
    let dow: u32 = day_of_week(today);
    let raw: i64 = (1 + 7 - dow as i64) % 7;
    let delta: i64 = if raw < 1 { 7 } else { raw };
    day_after_text(today, delta)
}

/// The next day on weekday `target` is one to seven days ahead, falls on
/// that weekday, and no day between falls on it.
pub proof fn law_next_weekday(z: int, target: int)
    requires
        0 <= target < 7,
    ensures
        1 <= days_until(z, target) <= 7,
        weekday(z + days_until(z, target)) == target,
        forall|k: int| 1 <= k < days_until(z, target) ==> #[trigger] weekday(z + k) != target,
{
    let w = weekday(z);
    assert(0 <= w < 7);
    assert forall|k: int| 1 <= k < days_until(z, target) implies #[trigger] weekday(z + k) != target by {
        assert((z + k + 4) % 7 == (w + k) % 7) by (nonlinear_arith)
            requires
                w == (z + 4) % 7,
        {
        }
    }
    let dl = days_until(z, target);
    assert((z + dl + 4) % 7 == (w + dl) % 7) by (nonlinear_arith)
        requires
            w == (z + 4) % 7,
    {
    }
}

/// Whole seconds since the Unix epoch by the system clock, `None` where the
/// clock reads before the epoch.
///
/// Trusted: reads `SystemTime::now()`, its `duration_since(UNIX_EPOCH)` and
/// `Duration::as_secs` (std). Nothing is stated of the result: it is the time.
#[verifier::external_body]
fn unix_now_secs() -> Option<u64> {
    match std::time::SystemTime::now().duration_since(std::time::UNIX_EPOCH) {
        Ok(d) => Some(d.as_secs()),
        Err(_) => None,
    }
}

/// The day number of a clock reading: whole days since 1970-01-01, and day 0
/// where the clock read before the epoch.
pub open spec fn day_of_reading(secs: Option<u64>) -> int {
    match secs {
        Some(s) => s as int / 86400,
        None => 0,
    }
}

/// The day number of a clock reading (see [`day_of_reading`]).
pub fn day_from_clock(secs: Option<u64>) -> (z: i64)
    ensures
        z as int == day_of_reading(secs),
        0 <= z <= 213503982334601,
{
    match secs {
        Some(s) => (s / 86400) as i64,
        None => 0,
    }
}

/// Today's day number by the system clock (UTC days since 1970-01-01).
pub(crate) fn today_number() -> (z: i64)
    ensures
        0 <= z <= 213503982334601,
        exists|secs: Option<u64>| z as int == #[trigger] day_of_reading(secs),
{
    let secs = unix_now_secs();
    day_from_clock(secs)
}

/// Today's date by the system clock, as (year, month, day).
pub fn now_civil() -> (r: (i64, u32, u32))
    ensures
        exists|z: int|
            0 <= z && r.0 as int == #[trigger] civil_of(z).0 && r.1 as int == civil_of(z).1 && r.2 as int
                == civil_of(z).2,
{
    let z = today_number();
    civil_from_days(z)
}

/// "Month d, y" for tomorrow by the system clock.
pub fn tomorrow_string() -> (r: String)
    ensures
        exists|z: int| 0 <= z && r@ == #[trigger] text_after(z, 1),
{
    let z = today_number();
    let r = tomorrow_after(z);
    assert(r@ == text_after(z as int, 1));
    r
}

/// "Month d, y" for the next Saturday by the system clock.
pub fn next_saturday_string() -> (r: String)
    ensures
        exists|z: int| 0 <= z && r@ == #[trigger] text_after(z, days_until(z, 6)),
{
    let z = today_number();
    let r = next_saturday_after(z);
    assert(r@ == text_after(z as int, days_until(z as int, 6)));
    r
}

/// "Month d, y" for the next Monday by the system clock.
pub fn next_monday_string() -> (r: String)
    ensures
        exists|z: int| 0 <= z && r@ == #[trigger] text_after(z, days_until(z, 1)),
{
    let z = today_number();
    let r = next_monday_after(z);
    assert(r@ == text_after(z as int, days_until(z as int, 1)));
    r
}

} // verus!
