use pessoas::date::{format_date, make_date, parse_date, BirthDate};

#[test]
fn parses_a_plain_date() {
    let d = parse_date("1990-01-01").unwrap();
    assert_eq!(d, BirthDate { year: 1990, month: 1, day: 1 });
}

#[test]
fn rejects_text_that_is_not_a_date() {
    assert!(parse_date("not-a-date").is_none());
    assert!(parse_date("").is_none());
    assert!(parse_date("1990-01-1").is_none());
    assert!(parse_date("1990/01/01").is_none());
    assert!(parse_date("1990-01-011").is_none());
}

#[test]
fn rejects_days_the_month_does_not_have() {
    assert!(parse_date("1990-02-30").is_none());
    assert!(parse_date("1990-04-31").is_none());
    assert!(parse_date("1990-13-01").is_none());
    assert!(parse_date("1990-00-10").is_none());
    assert!(parse_date("1990-01-00").is_none());
}

#[test]
fn leap_year_boundaries() {
    assert!(parse_date("2000-02-29").is_some());
    assert!(parse_date("2024-02-29").is_some());
    assert!(parse_date("1900-02-29").is_none());
    assert!(parse_date("2023-02-29").is_none());
}

#[test]
fn formats_a_date_with_padding() {
    let d = BirthDate { year: 2000, month: 8, day: 31 };
    assert_eq!(format_date(&d), "2000-08-31");
    let d2 = BirthDate { year: 3, month: 12, day: 5 };
    assert_eq!(format_date(&d2), "0003-12-05");
}

#[test]
fn format_then_parse_returns_the_date() {
    let d = make_date(1987, 6, 9).unwrap();
    let text = format_date(&d);
    assert_eq!(parse_date(&text), Some(d));
}

#[test]
fn make_date_checks_well_formedness() {
    assert!(make_date(1990, 1, 31).is_some());
    assert!(make_date(1990, 1, 32).is_none());
    assert!(make_date(1990, 0, 1).is_none());
    assert!(make_date(10000, 1, 1).is_none());
}
