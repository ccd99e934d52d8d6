use sheets::{parse_sheet_date, try_parse_timestamp, DateTime};

fn at(year: i32, month: u32, day: u32, hour: u32, minute: u32, second: u32) -> DateTime {
    DateTime { year, month, day, hour, minute, second, nanosecond: 0 }
}

#[test]
fn timestamp_space_separated() {
    assert_eq!(try_parse_timestamp("2023-01-05 14:30:00"), Some(at(2023, 1, 5, 14, 30, 0)));
}

#[test]
fn timestamp_iso_with_zulu() {
    assert_eq!(try_parse_timestamp("2023-01-05T14:30:00Z"), Some(at(2023, 1, 5, 14, 30, 0)));
}

#[test]
fn timestamp_slash_date() {
    assert_eq!(try_parse_timestamp("2023/01/05"), Some(at(2023, 1, 5, 0, 0, 0)));
}

#[test]
fn timestamp_us_short_year() {
    assert_eq!(try_parse_timestamp("01/05/23"), Some(at(2023, 1, 5, 0, 0, 0)));
}

#[test]
fn timestamp_formats_agree_on_the_date() {
    for text in ["2023-01-05 14:30:00", "2023-01-05T14:30:00Z", "2023/01/05", "01/05/23"] {
        let t = try_parse_timestamp(text).unwrap();
        assert_eq!((t.year, t.month, t.day), (2023, 1, 5));
    }
}

#[test]
fn timestamp_other_patterns() {
    assert_eq!(try_parse_timestamp("2023-01-05 9:05:07"), Some(at(2023, 1, 5, 9, 5, 7)));
    assert_eq!(try_parse_timestamp("2023-01-05"), Some(at(2023, 1, 5, 0, 0, 0)));
    assert_eq!(try_parse_timestamp("2023/01/05 9:05:07"), Some(at(2023, 1, 5, 9, 5, 7)));
    assert_eq!(try_parse_timestamp("1/05/2023 9:05:07"), Some(at(2023, 1, 5, 9, 5, 7)));
    assert_eq!(
        try_parse_timestamp("2023-01-05T14:30:00+0200"),
        Some(at(2023, 1, 5, 14, 30, 0))
    );
    assert_eq!(
        try_parse_timestamp("2023-01-05T14:30:00.250000000+01:00"),
        Some(DateTime { nanosecond: 250_000_000, ..at(2023, 1, 5, 14, 30, 0) })
    );
}

#[test]
fn timestamp_unreadable() {
    assert_eq!(try_parse_timestamp("yesterday"), None);
    assert_eq!(try_parse_timestamp(""), None);
    assert_eq!(try_parse_timestamp("2023-13-05"), None);
}

#[test]
fn sheet_date_month_day_year() {
    assert_eq!(parse_sheet_date("1/5/2023"), Some(at(2023, 1, 5, 0, 0, 0)));
    assert_eq!(parse_sheet_date("12/31/2024"), Some(at(2024, 12, 31, 0, 0, 0)));
    assert_eq!(parse_sheet_date("2023-01-05"), None);
}
