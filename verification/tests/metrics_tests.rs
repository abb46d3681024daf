use lectio_scraper::deadline::DateTime;
use lectio_scraper::decimal::{parse_millis, read_millis};
use lectio_scraper::metrics::{
    countdown, countdown_in, read_effort, remaining, urgency, urgency_in, Effort, Remaining,
    Urgency,
};

fn now() -> DateTime {
    DateTime { year: 2024, month: 1, day: 1, hour: 0, minute: 0 }
}

fn value(score: Urgency) -> f64 {
    score.numerator as f64 / score.denominator as f64
}

#[test]
fn effort_is_read_with_comma_or_full_stop() {
    assert_eq!(read_millis("2,00"), 2000);
    assert_eq!(read_millis("1,5"), 1500);
    assert_eq!(read_millis("0.25"), 250);
    assert_eq!(read_millis("3"), 3000);
    assert_eq!(read_millis("999999,999"), 999_999_999);
    assert_eq!(read_millis(",5"), 500);
    assert_eq!(read_millis("5,"), 5000);
    assert_eq!(read_millis("1,2345"), 1234);
    assert_eq!(read_millis("0,0009"), 0);
    assert_eq!(read_effort("2,5"), Effort { millis: 2500 });
}

#[test]
fn effort_defaults_to_zero() {
    for text in vec!["", ",", ".", "abc", "1,2,3", "1.2.3", "-1", "+1", "1e3", " 1", "1 ", "1234567", "1,a"] {
        assert_eq!(read_millis(text), 0, "{}", text);
    }
}

#[test]
fn only_plain_decimals_count_as_numbers() {
    assert_eq!(parse_millis("2,00"), Some(2000));
    assert_eq!(parse_millis("0"), Some(0));
    assert_eq!(parse_millis("0,000"), Some(0));
    assert_eq!(parse_millis("999999.9994"), Some(999_999_999));
    assert_eq!(parse_millis(",5"), Some(500));
    assert_eq!(parse_millis("5."), Some(5000));
    for text in vec!["", ",", "-1", "+1", "1e3", "1E3", "inf", "NaN", "1234567", "1234567,5", "1 000", "1,5 ", "½"] {
        assert_eq!(parse_millis(text), None, "{}", text);
        assert_eq!(read_millis(text), 0, "{}", text);
    }
}

#[test]
fn urgency_of_an_unreadable_deadline_is_ten() {
    for effort in vec![0u32, 1, 2000, u32::MAX] {
        let score = urgency("not a date", Effort { millis: effort }, &now());
        assert_eq!(score, Urgency { numerator: 10, denominator: 1 });
        assert_eq!(value(score), 10.0);
    }
    assert_eq!(value(urgency("", Effort { millis: 0 }, &now())), 10.0);
    assert_eq!(value(urgency("31/02-2099 10:00", Effort { millis: 0 }, &now())), 10.0);
}

#[test]
fn urgency_of_a_future_deadline_falls_with_effort() {
    let with_effort = urgency("31/12-2099 23:59", Effort { millis: 2000 }, &now());
    let without = urgency("31/12-2099 23:59", Effort { millis: 0 }, &now());
    assert!(value(with_effort) > 0.0);
    assert!(value(with_effort) < value(without));
    assert_eq!(without, Urgency { numerator: 1000, denominator: 39_972_959_000 });
    assert_eq!(with_effort, Urgency { numerator: 1000, denominator: 39_972_961_000 });
}

#[test]
fn urgency_of_a_past_deadline_is_zero() {
    let score = urgency("01/01-2000 00:00", Effort { millis: 2000 }, &now());
    assert_eq!(score, Urgency { numerator: 0, denominator: 1 });
    assert_eq!(value(score), 0.0);
    assert_eq!(countdown("01/01-2000 00:00", &now()), "deadline passed");
}

#[test]
fn urgency_at_the_deadline_is_zero() {
    assert_eq!(value(urgency("01/01-2024 00:00", Effort { millis: 0 }, &now())), 0.0);
    assert_eq!(urgency_in(0, Effort { millis: 500 }), Urgency { numerator: 0, denominator: 1 });
    assert_eq!(urgency_in(-5, Effort { millis: 500 }), Urgency { numerator: 0, denominator: 1 });
}

#[test]
fn urgency_follows_the_formula() {
    assert_eq!(urgency_in(1, Effort { millis: 0 }), Urgency { numerator: 1000, denominator: 1000 });
    assert_eq!(value(urgency_in(1, Effort { millis: 0 })), 1.0);
    assert_eq!(value(urgency_in(3, Effort { millis: 1000 })), 0.25);
    assert_eq!(value(urgency_in(60, Effort { millis: 2500 })), 1.0 / 62.5);
}

#[test]
fn urgency_does_not_rise_as_the_deadline_moves_away() {
    let effort = Effort { millis: 1500 };
    let mut last = value(urgency_in(1, effort));
    for minutes in vec![2i64, 3, 59, 60, 1439, 1440, 100_000, 5_000_000_000] {
        let next = value(urgency_in(minutes, effort));
        assert!(next <= last);
        assert!(next > 0.0);
        last = next;
    }
}

#[test]
fn remaining_splits_minutes() {
    assert_eq!(remaining(0), Remaining { days: 0, hours: 0, minutes: 0 });
    assert_eq!(remaining(59), Remaining { days: 0, hours: 0, minutes: 59 });
    assert_eq!(remaining(60), Remaining { days: 0, hours: 1, minutes: 0 });
    assert_eq!(remaining(1439), Remaining { days: 0, hours: 23, minutes: 59 });
    assert_eq!(remaining(1440), Remaining { days: 1, hours: 0, minutes: 0 });
    assert_eq!(remaining(39_972_959), Remaining { days: 27758, hours: 23, minutes: 59 });
}

#[test]
fn countdown_names_the_components_that_are_not_zero() {
    assert_eq!(countdown_in(1), "1 minute");
    assert_eq!(countdown_in(45), "45 minutes");
    assert_eq!(countdown_in(60), "1 hour");
    assert_eq!(countdown_in(61), "1 hour, 1 minute");
    assert_eq!(countdown_in(135), "2 hours, 15 minutes");
    assert_eq!(countdown_in(1440), "1 day");
    assert_eq!(countdown_in(1441), "1 day, 1 minute");
    assert_eq!(countdown_in(1500), "1 day, 1 hour");
    assert_eq!(countdown_in(2 * 1440 + 3 * 60 + 4), "2 days, 3 hours, 4 minutes");
}

#[test]
fn countdown_has_no_days_under_a_day() {
    let mut minutes: i64 = 1;
    while minutes < 1440 {
        let text = countdown_in(minutes);
        assert!(!text.contains("day"), "{}", text);
        assert!(!text.contains('-'), "{}", text);
        minutes += 1;
    }
    assert!(countdown_in(1440).contains("day"));
}

#[test]
fn countdown_of_a_reached_or_unreadable_deadline() {
    assert_eq!(countdown_in(0), "deadline passed");
    assert_eq!(countdown_in(-1), "deadline passed");
    assert_eq!(countdown_in(i64::MIN), "deadline passed");
    assert_eq!(countdown("whenever", &now()), "deadline passed");
    assert_eq!(countdown("01/01-2024 00:00", &now()), "deadline passed");
}

#[test]
fn countdown_of_a_future_deadline() {
    assert_eq!(countdown("31/12-2099 23:59", &now()), "27758 days, 23 hours, 59 minutes");
    assert_eq!(countdown("01/01-2024 00:01", &now()), "1 minute");
    assert_eq!(countdown("02/01-2024 03:04", &now()), "1 day, 3 hours, 4 minutes");
}
