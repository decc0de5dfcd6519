use acc_schema::date::{MalformedDate, YAML_DATE_FORMAT};
use acc_schema::Date;

#[test]
fn test_fmt_display() {
    let date = Date::from(2020, 10, 2).unwrap();
    assert_eq!("Fri 2. October 2020", format!("{}", date.to_string()));
}

#[test]
fn test_date_serialize() {
    let date = Date::from(2020, 10, 2).unwrap();
    let serialized = format!("---\n{}", date.serialize());
    assert_eq!("---\n2020-10-02", serialized);
}

#[test]
fn test_date_deserialize() {
    let expected = Date::from(2020, 10, 2).unwrap();
    let input = "---\n2020-10-02";
    let document = input.strip_prefix("---\n").unwrap();
    assert_eq!(expected, Date::deserialize(document).unwrap());
}

#[test]
fn date_from_takes_the_days_of_the_calendar() {
    assert!(Date::from(2020, 2, 29).is_some());
    assert!(Date::from(2000, 2, 29).is_some());
    assert!(Date::from(2019, 2, 29).is_none());
    assert!(Date::from(1900, 2, 29).is_none());
    assert!(Date::from(2020, 4, 30).is_some());
    assert!(Date::from(2020, 4, 31).is_none());
    assert!(Date::from(2020, 12, 31).is_some());
    assert!(Date::from(2020, 12, 32).is_none());
    assert!(Date::from(2020, 0, 1).is_none());
    assert!(Date::from(2020, 13, 1).is_none());
    assert!(Date::from(2020, 1, 0).is_none());
    assert!(Date::from(1, 1, 1).is_some());
    assert!(Date::from(9999, 12, 31).is_some());
    assert!(Date::from(0, 1, 1).is_none());
    assert!(Date::from(-1, 1, 1).is_none());
    assert!(Date::from(10000, 1, 1).is_none());
}

#[test]
fn date_parts() {
    let date = Date::from(2019, 10, 2).unwrap();
    assert_eq!(2019, date.year());
    assert_eq!(10, date.month());
    assert_eq!(2, date.day());
    assert_eq!(19, date.year_2d());
    assert_eq!(date, Date::from(2019, 10, 2).unwrap());
    assert_eq!(5, Date::from(1905, 1, 1).unwrap().year_2d());
    assert_eq!(Date::from(1970, 1, 1).unwrap(), Date::default());
}

#[test]
fn date_serialize_has_ten_characters() {
    assert_eq!("0001-01-01", Date::from(1, 1, 1).unwrap().serialize());
    assert_eq!("9999-12-31", Date::from(9999, 12, 31).unwrap().serialize());
    assert_eq!("0980-07-04", Date::from(980, 7, 4).unwrap().serialize());
    assert_eq!("2024-02-29", Date::from(2024, 2, 29).unwrap().serialize());
    for date in [
        Date::from(1, 1, 1).unwrap(),
        Date::from(33, 3, 3).unwrap(),
        Date::from(2020, 10, 2).unwrap(),
    ] {
        assert_eq!(10, date.serialize().chars().count());
    }
}

#[test]
fn date_round_trip() {
    let days = [
        (1, 1, 1),
        (9999, 12, 31),
        (2020, 2, 29),
        (1999, 12, 31),
        (2000, 1, 1),
        (476, 9, 4),
    ];
    for (y, m, d) in days {
        let date = Date::from(y, m, d).unwrap();
        assert_eq!(Ok(date), Date::deserialize(&date.serialize()));
    }
}

#[test]
fn date_round_trip_over_whole_years() {
    for year in [1, 1900, 2000, 2023, 2024, 9999] {
        let mut count = 0;
        for month in 1..=12 {
            for day in 1..=31 {
                if let Some(date) = Date::from(year, month, day) {
                    count += 1;
                    let text = date.serialize();
                    assert_eq!(10, text.len());
                    assert_eq!(Ok(date), Date::deserialize(&text));
                }
            }
        }
        let leap = year % 4 == 0 && (year % 100 != 0 || year % 400 == 0);
        assert_eq!(if leap { 366 } else { 365 }, count);
    }
}

#[test]
fn date_deserialize_refuses_other_texts() {
    let refused = [
        "",
        "2020/10/02",
        "2020-10/02",
        "20201002",
        "2020-1-02",
        "2020-10-2",
        "2020-010-2",
        "abcd-10-02",
        "2020-1o-02",
        "2020-10-0\u{663}",
        "2020-13-01",
        "2020-00-10",
        "2020-04-31",
        "2020-04-00",
        "2019-02-29",
        "0000-01-01",
        " 2020-10-02",
        "2020-10-02 ",
        "+020-10-02",
        "-020-10-02",
        "02020-10-02",
        "Fri 2. October 2020",
    ];
    for text in refused {
        assert_eq!(
            Err(MalformedDate {
                text: text.to_string(),
                expected: "%Y-%m-%d".to_string()
            }),
            Date::deserialize(text)
        );
    }
    assert_eq!("%Y-%m-%d", YAML_DATE_FORMAT);
}

#[test]
fn date_long_form_names_the_weekday() {
    assert_eq!("Sat 1. January 2000", Date::from(2000, 1, 1).unwrap().to_string());
    assert_eq!("Thu 1. January 1970", Date::from(1970, 1, 1).unwrap().to_string());
    assert_eq!("Thu29. February 2024", Date::from(2024, 2, 29).unwrap().to_string());
    assert_eq!("Mon 1. January 0001", Date::from(1, 1, 1).unwrap().to_string());
    assert_eq!("Fri31. December 9999", Date::from(9999, 12, 31).unwrap().to_string());
    assert_eq!("Tue 8. September 2015", Date::from(2015, 9, 8).unwrap().to_string());
    assert_eq!("Sun10. March 2019", Date::from(2019, 3, 10).unwrap().to_string());
    assert_eq!("Wed15. May 2019", Date::from(2019, 5, 15).unwrap().to_string());
}

#[test]
fn date_long_form_names_the_month() {
    let names = [
        "January",
        "February",
        "March",
        "April",
        "May",
        "June",
        "July",
        "August",
        "September",
        "October",
        "November",
        "December",
    ];
    for (i, name) in names.iter().enumerate() {
        let text = Date::from(2021, i as u32 + 1, 20).unwrap().to_string();
        assert_eq!(format!("20. {} 2021", name), text[3..]);
    }
}

#[test]
fn malformed_date_says_what_was_expected() {
    let error = Date::deserialize("2020-13-01").unwrap_err();
    assert_eq!(
        "given input value \"2020-13-01\" couldn't be parsed as a date in the format %Y-%m-%d",
        error.to_string()
    );
}

fn leap(year: i32) -> bool {
    year % 4 == 0 && (year % 100 != 0 || year % 400 == 0)
}

fn days_in(year: i32, month: u32) -> u32 {
    match month {
        2 => {
            if leap(year) {
                29
            } else {
                28
            }
        }
        4 | 6 | 9 | 11 => 30,
        _ => 31,
    }
}

#[test]
fn date_from_agrees_with_the_rule_of_leap_years() {
    for year in 1..=9999 {
        for month in 0..=13 {
            for day in [0, 1, 27, 28, 29, 30, 31, 32] {
                let exists = 1 <= month && month <= 12 && 1 <= day && day <= days_in(year, month);
                assert_eq!(exists, Date::from(year, month, day).is_some());
            }
        }
    }
}

#[test]
fn date_long_form_counts_the_weekdays_from_the_first_day() {
    let names = ["Mon", "Tue", "Wed", "Thu", "Fri", "Sat", "Sun"];
    let mut year = 1;
    while year <= 9999 {
        let before = year as i64 - 1;
        let mut number = 365 * before + before / 4 - before / 100 + before / 400;
        for month in 1..=12 {
            for day in 1..=days_in(year, month) {
                number += 1;
                let text = Date::from(year, month, day).unwrap().to_string();
                assert_eq!(names[((number - 1) % 7) as usize], &text[..3]);
            }
        }
        year += if year < 30 || year > 9970 { 1 } else { 97 };
    }
}
