use sarasara::dates::{days_in_month, format_pub_date, parse_date, Date};

#[test]
fn valid_date_parses() {
    assert_eq!(parse_date("2021-01-05"), Some(Date { year: 2021, month: 1, day: 5 }));
}

#[test]
fn valid_date_formats_rfc2822() {
    assert_eq!(
        format_pub_date("2021-01-05").as_deref(),
        Some("Tue, 05 Jan 2021 00:00:00 +0000")
    );
}

#[test]
fn short_date_is_omitted() {
    assert_eq!(parse_date("2021-1-5"), None);
    assert_eq!(format_pub_date("2021-1-5"), None);
}

#[test]
fn invalid_month_is_omitted() {
    assert_eq!(parse_date("2021-13-05"), None);
    assert_eq!(format_pub_date("2021-13-05"), None);
}

#[test]
fn non_numeric_date_is_omitted() {
    assert_eq!(parse_date("abcd-ef-gh"), None);
    assert_eq!(format_pub_date("abcd-ef-gh"), None);
}

#[test]
fn separators_are_never_validated() {
    assert_eq!(parse_date("2021x01y05"), Some(Date { year: 2021, month: 1, day: 5 }));
}

#[test]
fn day_must_exist_in_month() {
    assert_eq!(parse_date("2021-02-29"), None);
    assert_eq!(parse_date("2020-02-29"), Some(Date { year: 2020, month: 2, day: 29 }));
    assert_eq!(parse_date("2021-04-31"), None);
}

#[test]
fn century_leap_rule() {
    assert_eq!(parse_date("1900-02-29"), None);
    assert_eq!(parse_date("2000-02-29"), Some(Date { year: 2000, month: 2, day: 29 }));
}

#[test]
fn pre_1900_date_parses_but_does_not_format() {
    assert_eq!(parse_date("1800-01-01"), Some(Date { year: 1800, month: 1, day: 1 }));
    assert_eq!(format_pub_date("1800-01-01"), None);
}

#[test]
fn leap_day_formats() {
    assert_eq!(
        format_pub_date("2020-02-29").as_deref(),
        Some("Sat, 29 Feb 2020 00:00:00 +0000")
    );
}

#[test]
fn month_lengths() {
    assert_eq!(days_in_month(2021, 1), 31);
    assert_eq!(days_in_month(2021, 2), 28);
    assert_eq!(days_in_month(2020, 2), 29);
    assert_eq!(days_in_month(2021, 4), 30);
    assert_eq!(days_in_month(2021, 12), 31);
}
