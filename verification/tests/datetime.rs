use ilias_client::datetime::{is_valid_date, next_day, parse_date, prev_day, DateTime};

fn at(year: i32, month: u32, day: u32) -> DateTime {
    DateTime { year, month, day, hour: 0, minute: 0 }
}

#[test]
fn absolute_dates_parse() {
    let dt = parse_date("12. Mär 2024, 13:30", &at(2024, 1, 1)).unwrap();
    assert_eq!(dt, DateTime { year: 2024, month: 3, day: 12, hour: 13, minute: 30 });
    let dt = parse_date("1. May 2023, 8:05", &at(2024, 1, 1)).unwrap();
    assert_eq!(dt, DateTime { year: 2023, month: 5, day: 1, hour: 8, minute: 5 });
    let dt = parse_date("  31. Dez 2024 ,  23:59 ", &at(2024, 1, 1)).unwrap();
    assert_eq!(dt, DateTime { year: 2024, month: 12, day: 31, hour: 23, minute: 59 });
}

#[test]
fn relative_dates_resolve_against_today() {
    let today = at(2024, 3, 1);
    let dt = parse_date("Gestern, 08:30", &today).unwrap();
    // 2024 is a leap year: the day before the first of March is February 29.
    assert_eq!((dt.year, dt.month, dt.day), (2024, 2, 29));
    let dt = parse_date("Heute, 00:00", &today).unwrap();
    assert_eq!((dt.year, dt.month, dt.day), (2024, 3, 1));
    let dt = parse_date("Tomorrow, 10:00", &at(2024, 12, 31)).unwrap();
    assert_eq!((dt.year, dt.month, dt.day), (2025, 1, 1));
    let dt = parse_date("Yesterday, 10:00", &at(2023, 1, 1)).unwrap();
    assert_eq!((dt.year, dt.month, dt.day), (2022, 12, 31));
}

#[test]
fn malformed_dates_are_rejected() {
    let today = at(2024, 1, 1);
    assert!(parse_date("no comma here", &today).is_err());
    assert!(parse_date("12. Foo 2024, 10:00", &today).is_err());
    assert!(parse_date("30. Feb 2024, 10:00", &today).is_err());
    assert!(parse_date("12. Mär 2024, 25:00", &today).is_err());
    assert!(parse_date("12. Mär 2024, 10:61", &today).is_err());
    assert!(parse_date("12. Mär 2024, 1030", &today).is_err());
    assert!(parse_date(". Mär 2024, 10:30", &today).is_err());
    assert!(parse_date("12. Mär, 10:30", &today).is_err());
}

#[test]
fn calendar_arithmetic() {
    assert_eq!(next_day(2024, 2, 28), (2024, 2, 29));
    assert_eq!(next_day(2023, 2, 28), (2023, 3, 1));
    assert_eq!(next_day(2024, 12, 31), (2025, 1, 1));
    assert_eq!(prev_day(2024, 3, 1), (2024, 2, 29));
    assert_eq!(prev_day(2024, 1, 1), (2023, 12, 31));
    assert!(is_valid_date(2024, 2, 29));
    assert!(!is_valid_date(2023, 2, 29));
    assert!(!is_valid_date(2024, 13, 1));
    assert!(!is_valid_date(2024, 4, 31));
    assert!(is_valid_date(2000, 2, 29));
    assert!(!is_valid_date(1900, 2, 29));
}

#[test]
fn ordering_is_lexicographic() {
    let a = DateTime { year: 2024, month: 3, day: 12, hour: 13, minute: 30 };
    let b = DateTime { year: 2024, month: 3, day: 12, hour: 14, minute: 0 };
    assert!(a.le(&b));
    assert!(!b.le(&a));
    assert!(a.le(&a));
    let c = DateTime { year: 2023, month: 12, day: 31, hour: 23, minute: 59 };
    assert!(c.le(&a));
}


