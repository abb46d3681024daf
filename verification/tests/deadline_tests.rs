use lectio_scraper::deadline::{read_deadline, DateTime};

fn at(year: u16, month: u8, day: u8, hour: u8, minute: u8) -> DateTime {
    DateTime { year, month, day, hour, minute }
}

#[test]
fn reads_the_portal_notation() {
    assert_eq!(read_deadline("31/12-2099 23:59"), Some(at(2099, 12, 31, 23, 59)));
    assert_eq!(read_deadline("01/01-2000 00:00"), Some(at(2000, 1, 1, 0, 0)));
    assert_eq!(read_deadline("1/2-2024 8:05"), Some(at(2024, 2, 1, 8, 5)));
    assert_eq!(read_deadline("29/02-2024 12:00"), Some(at(2024, 2, 29, 12, 0)));
}

#[test]
fn rejects_other_text() {
    for text in vec![
        "",
        "soon",
        "31/12-2099",
        "31/12-2099 23:59 ",
        " 31/12-2099 23:59",
        "31/12-2099  23:59",
        "31-12-2099 23:59",
        "31/12/2099 23:59",
        "31/12-99 23:59",
        "31/12-02099 23:59",
        "031/12-2099 23:59",
        "31/12-2099 23:5",
        "31/12-2099 23:059",
        "31/12-2099 23.59",
        "31/12-2099 23:59:00",
        "3a/12-2099 23:59",
        "/12-2099 23:59",
        "31/-2099 23:59",
        "31/12-2099 :59",
    ] {
        assert_eq!(read_deadline(text), None, "{}", text);
    }
}

#[test]
fn rejects_dates_and_times_that_do_not_exist() {
    for text in vec![
        "00/01-2024 10:00",
        "32/01-2024 10:00",
        "31/04-2024 10:00",
        "29/02-2023 10:00",
        "29/02-2100 10:00",
        "01/00-2024 10:00",
        "01/13-2024 10:00",
        "01/01-2024 24:00",
        "01/01-2024 10:60",
    ] {
        assert_eq!(read_deadline(text), None, "{}", text);
    }
    assert!(read_deadline("29/02-2000 10:00").is_some());
    assert!(read_deadline("30/04-2024 23:59").is_some());
}

#[test]
fn validity_follows_the_calendar() {
    assert!(at(2024, 2, 29, 0, 0).is_valid());
    assert!(!at(2023, 2, 29, 0, 0).is_valid());
    assert!(!at(1900, 2, 29, 0, 0).is_valid());
    assert!(at(2000, 2, 29, 0, 0).is_valid());
    assert!(!at(2024, 0, 1, 0, 0).is_valid());
    assert!(!at(2024, 13, 1, 0, 0).is_valid());
    assert!(!at(2024, 6, 31, 0, 0).is_valid());
    assert!(!at(2024, 6, 30, 24, 0).is_valid());
    assert!(!at(2024, 6, 30, 23, 60).is_valid());
    assert!(!at(10000, 1, 1, 0, 0).is_valid());
    assert!(at(9999, 12, 31, 23, 59).is_valid());
    assert!(at(0, 1, 1, 0, 0).is_valid());
}

#[test]
fn minutes_count_from_the_start_of_year_zero() {
    assert_eq!(at(0, 1, 1, 0, 0).minutes(), 0);
    assert_eq!(at(0, 1, 1, 0, 1).minutes(), 1);
    assert_eq!(at(0, 1, 2, 0, 0).minutes(), 1440);
    assert_eq!(at(1, 1, 1, 0, 0).minutes(), 527_040);
    assert_eq!(at(2000, 1, 1, 0, 0).minutes(), 1_051_898_400);
    assert_eq!(at(2024, 1, 1, 0, 0).minutes(), 1_064_521_440);
    assert_eq!(at(2099, 12, 31, 23, 59).minutes(), 1_104_494_399);
}

#[test]
fn minutes_until_is_signed() {
    let now = at(2024, 1, 1, 0, 0);
    assert_eq!(now.minutes_until(&at(2099, 12, 31, 23, 59)), 39_972_959);
    assert_eq!(now.minutes_until(&at(2024, 1, 1, 0, 0)), 0);
    assert_eq!(now.minutes_until(&at(2023, 12, 31, 23, 59)), -1);
    assert_eq!(at(2024, 2, 28, 23, 59).minutes_until(&at(2024, 3, 1, 0, 0)), 1441);
    assert_eq!(at(2023, 2, 28, 23, 59).minutes_until(&at(2023, 3, 1, 0, 0)), 1);
}
