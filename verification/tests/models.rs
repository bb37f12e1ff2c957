use chrono::{Datelike, NaiveDate};
use kelvin::date::{Date, DAY_MAX, DAY_MIN};
use kelvin::error::Error;
use kelvin::models::{parse_date_spec, TaskState};

fn date(year: i32, month: u32, day: u32) -> Date {
    Date::from_ymd_opt(year, month, day).unwrap()
}

#[test]
fn parse_relative_days() {
    let base = date(2026, 1, 1);
    let result = parse_date_spec("3d", base).unwrap();
    assert_eq!(result, date(2026, 1, 4));
}

#[test]
fn parse_relative_weeks() {
    let base = date(2026, 1, 1);
    let result = parse_date_spec("2w", base).unwrap();
    assert_eq!(result, date(2026, 1, 15));
}

#[test]
fn parse_absolute_date() {
    let base = date(2026, 1, 1);
    let result = parse_date_spec("2026-03-15", base).unwrap();
    assert_eq!(result, date(2026, 3, 15));
}

#[test]
fn parse_invalid_format() {
    let base = date(2026, 1, 1);
    assert!(parse_date_spec("abc", base).is_err());
    assert!(parse_date_spec("3x", base).is_err());
}

#[test]
fn task_state_display() {
    assert_eq!(TaskState::Iced.to_string(), "Iced");
    assert_eq!(TaskState::Melting.to_string(), "Melting");
    assert_eq!(TaskState::Melted.to_string(), "Melted");
    assert_eq!(TaskState::Evaporated.to_string(), "Evaporated");
}

#[test]
fn task_state_label_lengths() {
    assert_eq!(TaskState::Iced.label_len(), 4);
    assert_eq!(TaskState::Melting.label_len(), 7);
    assert_eq!(TaskState::Melted.label_len(), 6);
    assert_eq!(TaskState::Evaporated.label_len(), 10);
}

#[test]
fn date_day_numbers_are_those_of_chrono() {
    assert_eq!(date(1, 1, 1).num_days_from_ce(), 1);
    assert_eq!(date(1970, 1, 1).num_days_from_ce(), 719_163);
    assert_eq!(date(2026, 1, 1).num_days_from_ce(), 739_617);
    assert_eq!(
        date(2026, 1, 1).num_days_from_ce(),
        NaiveDate::from_ymd_opt(2026, 1, 1).unwrap().num_days_from_ce()
    );
}

#[test]
fn date_range_is_that_of_chrono() {
    assert_eq!(NaiveDate::MIN.num_days_from_ce(), DAY_MIN);
    assert_eq!(NaiveDate::MAX.num_days_from_ce(), DAY_MAX);
    assert_eq!(date(-262143, 1, 1).num_days_from_ce(), DAY_MIN);
    assert_eq!(date(262142, 12, 31).num_days_from_ce(), DAY_MAX);
    assert!(Date::from_ymd_opt(262143, 1, 1).is_none());
    assert!(Date::from_ymd_opt(-262144, 12, 31).is_none());
    assert!(Date::from_num_days_from_ce_opt(DAY_MAX).is_some());
    assert!(Date::from_num_days_from_ce_opt(DAY_MAX + 1).is_none());
    assert!(Date::from_num_days_from_ce_opt(DAY_MIN).is_some());
    assert!(Date::from_num_days_from_ce_opt(DAY_MIN - 1).is_none());
    assert!(NaiveDate::from_num_days_from_ce_opt(DAY_MAX + 1).is_none());
    assert!(NaiveDate::from_num_days_from_ce_opt(DAY_MIN - 1).is_none());
}

#[test]
fn date_from_ymd_rejects_what_the_calendar_lacks() {
    assert!(Date::from_ymd_opt(2026, 2, 29).is_none());
    assert!(Date::from_ymd_opt(2024, 2, 29).is_some());
    assert!(Date::from_ymd_opt(2026, 0, 1).is_none());
    assert!(Date::from_ymd_opt(2026, 13, 1).is_none());
    assert!(Date::from_ymd_opt(2026, 4, 31).is_none());
    assert!(Date::from_ymd_opt(2026, 1, 0).is_none());
}

#[test]
fn date_from_day_number_round_trips() {
    let d = Date::from_num_days_from_ce_opt(739_617).unwrap();
    assert_eq!(d, date(2026, 1, 1));
    assert_eq!(d.num_days_from_ce(), 739_617);
}

#[test]
fn date_checked_add_days_moves_forward() {
    let base = date(2026, 1, 1);
    assert_eq!(base.checked_add_days(0), Some(base));
    assert_eq!(base.checked_add_days(7), Some(date(2026, 1, 8)));
    assert_eq!(base.checked_add_days(31), Some(date(2026, 2, 1)));
    assert_eq!(base.checked_add_days(365), Some(date(2027, 1, 1)));
    assert_eq!(
        base.checked_add_days(7).unwrap().num_days_from_ce(),
        base.num_days_from_ce() + 7
    );
}

#[test]
fn date_checked_add_days_stops_at_the_last_day() {
    let last = date(262142, 12, 31);
    assert_eq!(last.checked_add_days(0), Some(last));
    assert_eq!(last.checked_add_days(1), None);
    let eve = date(262142, 12, 30);
    assert_eq!(eve.checked_add_days(1), Some(last));
    assert_eq!(eve.checked_add_days(2), None);
    assert_eq!(date(2026, 1, 1).checked_add_days(u64::MAX), None);
    assert_eq!(date(2026, 1, 1).checked_add_days(1 << 31), None);
    let first = date(-262143, 1, 1);
    let span = (DAY_MAX as i64 - DAY_MIN as i64) as u64;
    assert_eq!(first.checked_add_days(span), Some(last));
    assert_eq!(first.checked_add_days(span + 1), None);
}

#[test]
fn date_order_follows_the_calendar() {
    let a = date(2026, 1, 5);
    let b = date(2026, 1, 10);
    assert!(b.is_on_or_after(&a));
    assert!(a.is_on_or_after(&a));
    assert!(!a.is_on_or_after(&b));
    assert!(a < b);
}

#[test]
fn date_text_is_year_month_day() {
    assert_eq!(date(2026, 1, 8).to_string(), "2026-01-08");
    assert_eq!(date(1, 12, 31).to_string(), "0001-12-31");
    assert_eq!(
        date(2026, 1, 8).to_string(),
        NaiveDate::from_ymd_opt(2026, 1, 8).unwrap().to_string()
    );
}

#[test]
fn relative_spec_adds_exactly() {
    let base = date(2026, 1, 1);
    let day = base.num_days_from_ce();
    for n in [0u32, 1, 7, 30, 365, 1000, 99999] {
        let d = parse_date_spec(&format!("{n}d"), base).unwrap();
        assert_eq!(d.num_days_from_ce(), day + n as i32);
        let w = parse_date_spec(&format!("{n}w"), base).unwrap();
        assert_eq!(w.num_days_from_ce(), day + 7 * n as i32);
    }
}

#[test]
fn relative_spec_takes_leading_zeros() {
    let base = date(2026, 1, 1);
    assert_eq!(parse_date_spec("007d", base), Ok(date(2026, 1, 8)));
    assert_eq!(parse_date_spec("0d", base), Ok(base));
    assert_eq!(
        parse_date_spec("0000000000000000000000000000000000000001w", base),
        Ok(date(2026, 1, 8))
    );
}

#[test]
fn relative_spec_past_the_last_day_is_refused() {
    let base = date(2026, 1, 1);
    let room = (DAY_MAX - base.num_days_from_ce()) as u64;
    assert_eq!(
        parse_date_spec(&format!("{room}d"), base),
        Ok(date(262142, 12, 31))
    );
    assert_eq!(
        parse_date_spec(&format!("{}d", room + 1), base),
        Err(Error::InvalidDateSpec)
    );
    assert_eq!(
        parse_date_spec("200000000d", base),
        Err(Error::InvalidDateSpec)
    );
    assert_eq!(
        parse_date_spec("99999999999999999999999999999999d", base),
        Err(Error::InvalidDateSpec)
    );
    assert_eq!(
        parse_date_spec("9223372036854775807w", base),
        Err(Error::InvalidDateSpec)
    );
    assert_eq!(
        parse_date_spec(&format!("{}w", room / 7 + 1), base),
        Err(Error::InvalidDateSpec)
    );
}

#[test]
fn malformed_specs_are_refused() {
    let base = date(2026, 1, 1);
    for spec in [
        "", "d", "w", "abcd", "3x", "3 d", " 3d", "3d ", "-3d", "+3d", "3.5d", "3D", "3W", "d3",
        "3dd", "2026-3-15", "2026-03-15 ", " 2026-03-15", "+2026-03-15", "2026/03/15",
        "20260315", "2026-03-1x", "26-03-15", "2026-03-150", "２０２６-03-15", "３d", "3ｄ",
        "2026-03-15d", "abc",
    ] {
        assert_eq!(parse_date_spec(spec, base), Err(Error::InvalidDateSpec), "{spec:?}");
    }
}

#[test]
fn absolute_spec_must_name_a_date() {
    let base = date(2026, 1, 1);
    assert_eq!(parse_date_spec("2026-02-29", base), Err(Error::InvalidDateSpec));
    assert_eq!(parse_date_spec("2024-02-29", base), Ok(date(2024, 2, 29)));
    assert_eq!(parse_date_spec("2026-13-01", base), Err(Error::InvalidDateSpec));
    assert_eq!(parse_date_spec("2026-00-10", base), Err(Error::InvalidDateSpec));
    assert_eq!(parse_date_spec("2026-01-00", base), Err(Error::InvalidDateSpec));
    assert_eq!(parse_date_spec("2026-04-31", base), Err(Error::InvalidDateSpec));
    assert_eq!(parse_date_spec("0000-01-01", base), Ok(date(0, 1, 1)));
    assert_eq!(parse_date_spec("9999-12-31", base), Ok(date(9999, 12, 31)));
    assert_eq!(parse_date_spec("1999-12-31", base), Ok(date(1999, 12, 31)));
}

#[test]
fn absolute_spec_agrees_with_chrono() {
    let base = date(2026, 1, 1);
    for spec in [
        "2026-03-15", "0001-01-01", "0000-01-01", "0000-12-31", "9999-12-31", "2024-02-29",
        "2026-02-29", "1900-02-29", "2000-02-29", "2026-12-31", "2026-00-00", "2026-01-32",
        "2026-06-31", "2026-99-99", "1970-01-01",
    ] {
        let ours = parse_date_spec(spec, base).ok().map(|d| d.num_days_from_ce());
        let theirs = NaiveDate::parse_from_str(spec, "%Y-%m-%d")
            .ok()
            .map(|d| d.num_days_from_ce());
        assert_eq!(ours, theirs, "{spec}");
    }
}

#[test]
fn absolute_spec_does_not_depend_on_the_base() {
    assert_eq!(
        parse_date_spec("2026-03-15", date(1, 1, 1)),
        parse_date_spec("2026-03-15", date(262142, 12, 31))
    );
}

#[test]
fn parse_iso_reads_as_chrono_does() {
    assert_eq!(Date::parse_iso("2026-03-15").ok(), Date::from_ymd_opt(2026, 3, 15));
    assert_eq!(Date::parse_iso("2024-02-29").ok(), Date::from_ymd_opt(2024, 2, 29));
    assert!(Date::parse_iso("2026-02-29").is_err());
    assert!(Date::parse_iso("abc").is_err());
    assert!(Date::parse_iso("").is_err());
    for text in ["2026-03-15", "2026-3-5", "2026-13-01", "0000-01-01", "x", "2026-03-15 "] {
        let ours = Date::parse_iso(text).ok().map(|d| d.num_days_from_ce());
        let theirs = NaiveDate::parse_from_str(text, "%Y-%m-%d")
            .ok()
            .map(|d| d.num_days_from_ce());
        assert_eq!(ours, theirs, "{text}");
    }
}

#[test]
fn date_specs_are_stricter_than_chrono() {
    let base = date(2026, 1, 1);
    assert!(Date::parse_iso("2026-3-5").is_ok());
    assert_eq!(parse_date_spec("2026-3-5", base), Err(Error::InvalidDateSpec));
    assert_eq!(parse_date_spec("2026-03-05", base), Ok(date(2026, 3, 5)));
}
