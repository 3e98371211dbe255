use things_api::tui::dates::{
    civil_from_days, day_from_clock, day_of_week, days_from_civil, format_civil, month_name, next_monday_after,
    next_saturday_after, tomorrow_after,
};

#[test]
fn epoch_is_day_zero() {
    assert_eq!(days_from_civil(1970, 1, 1), 0);
    assert_eq!(civil_from_days(0), (1970, 1, 1));
}

#[test]
fn known_day_numbers() {
    assert_eq!(days_from_civil(2000, 3, 1), 11017);
    assert_eq!(days_from_civil(2026, 4, 14), 20557);
    assert_eq!(civil_from_days(20557), (2026, 4, 14));
    assert_eq!(days_from_civil(1969, 12, 31), -1);
    assert_eq!(civil_from_days(-1), (1969, 12, 31));
}

#[test]
fn leap_days_round_trip() {
    let z = days_from_civil(2024, 2, 29);
    assert_eq!(civil_from_days(z), (2024, 2, 29));
    assert_eq!(civil_from_days(z + 1), (2024, 3, 1));
    let z = days_from_civil(1900, 2, 28);
    assert_eq!(civil_from_days(z + 1), (1900, 3, 1));
    let z = days_from_civil(2000, 2, 28);
    assert_eq!(civil_from_days(z + 1), (2000, 2, 29));
}

#[test]
fn round_trip_over_many_days() {
    let mut z: i64 = -719_468;
    while z < 800_000 {
        let (y, m, d) = civil_from_days(z);
        assert!((1..=12).contains(&m));
        assert!(d >= 1 && d <= 31);
        assert_eq!(days_from_civil(y, m, d), z);
        z += 997;
    }
}

#[test]
fn weekdays() {
    // 1970-01-01 was a Thursday.
    assert_eq!(day_of_week(0), 4);
    // 2026-04-14 is a Tuesday.
    assert_eq!(day_of_week(20557), 2);
    assert_eq!(day_of_week(-1), 3);
}

#[test]
fn month_names() {
    assert_eq!(month_name(1), "January");
    assert_eq!(month_name(12), "December");
    assert_eq!(format_civil(2026, 4, 14), "April 14, 2026");
    assert_eq!(format_civil(-5, 2, 3), "February 3, -5");
}

#[test]
fn schedule_day_texts() {
    // Tuesday 2026-04-14.
    let today = days_from_civil(2026, 4, 14);
    assert_eq!(tomorrow_after(today), "April 15, 2026");
    assert_eq!(next_saturday_after(today), "April 18, 2026");
    assert_eq!(next_monday_after(today), "April 20, 2026");
    // On a Saturday, "this weekend" is the Saturday a week later.
    let saturday = days_from_civil(2026, 4, 18);
    assert_eq!(next_saturday_after(saturday), "April 25, 2026");
    // On a Monday, "next week" is the Monday a week later.
    let monday = days_from_civil(2026, 4, 20);
    assert_eq!(next_monday_after(monday), "April 27, 2026");
    // Across a year end.
    let eve = days_from_civil(2025, 12, 31);
    assert_eq!(tomorrow_after(eve), "January 1, 2026");
}

#[test]
fn clock_readings_to_days() {
    assert_eq!(day_from_clock(Some(3 * 86400 + 5)), 3);
    assert_eq!(day_from_clock(Some(86399)), 0);
    assert_eq!(day_from_clock(None), 0);
}
