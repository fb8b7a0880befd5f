use garfield_comic::command::{cut_field, date_from_fields, same_text};
use garfield_comic::{parse_date, CalendarDate, DateError, Garfield, Help, Pinger, Request};

fn ymd(date: CalendarDate) -> (i32, u32, u32) {
    (date.year(), date.month(), date.day())
}

#[test]
fn parse_date_reads_the_day_behind_the_command() {
    assert_eq!(ymd(parse_date("!garfield 2024-02-01").unwrap()), (2024, 2, 1));
    assert_eq!(ymd(parse_date("!garfield 1978/06/19 and more").unwrap()), (1978, 6, 19));
    assert_eq!(ymd(parse_date("!GARFIELD:2000x02y29").unwrap()), (2000, 2, 29));
    assert_eq!(ymd(parse_date("!garfield +202-+2-+1").unwrap()), (202, 2, 1));
}

#[test]
fn parse_date_reports_the_first_field_that_is_no_number() {
    match parse_date("!garfield") {
        Err(DateError::Number(text)) => {
            assert_eq!(text, "cannot parse integer from empty string")
        }
        other => panic!("expected a number error, got {other:?}"),
    }
    match parse_date("!garfield 20x4-02-01") {
        Err(DateError::Number(text)) => assert_eq!(text, "invalid digit found in string"),
        other => panic!("expected a number error, got {other:?}"),
    }
    match parse_date("!garfield 2024-2-1") {
        Err(DateError::Number(text)) => assert_eq!(text, "invalid digit found in string"),
        other => panic!("expected a number error, got {other:?}"),
    }
    match parse_date("!garfield 2024-02") {
        Err(DateError::Number(text)) => {
            assert_eq!(text, "cannot parse integer from empty string")
        }
        other => panic!("expected a number error, got {other:?}"),
    }
}

#[test]
fn parse_date_rejects_days_that_do_not_exist() {
    assert!(matches!(parse_date("!garfield 2023-02-29"), Err(DateError::Invalid)));
    assert!(matches!(parse_date("!garfield 2023-13-01"), Err(DateError::Invalid)));
    assert!(matches!(parse_date("!garfield 2023-00-10"), Err(DateError::Invalid)));
}

#[test]
fn date_from_fields_takes_errors_in_order() {
    match date_from_fields(Err("year".to_string()), Err("month".to_string()), Err("day".to_string())) {
        Err(DateError::Number(text)) => assert_eq!(text, "year"),
        other => panic!("got {other:?}"),
    }
    match date_from_fields(Ok(2024), Err("month".to_string()), Err("day".to_string())) {
        Err(DateError::Number(text)) => assert_eq!(text, "month"),
        other => panic!("got {other:?}"),
    }
    match date_from_fields(Ok(2024), Ok(13), Err("day".to_string())) {
        Err(DateError::Number(text)) => assert_eq!(text, "day"),
        other => panic!("got {other:?}"),
    }
    assert!(matches!(date_from_fields(Ok(2024), Ok(13), Ok(1)), Err(DateError::Invalid)));
    assert_eq!(ymd(date_from_fields(Ok(2024), Ok(12), Ok(31)).unwrap()), (2024, 12, 31));
}

#[test]
fn cut_field_stops_at_the_end_of_the_text() {
    assert_eq!(cut_field("!garfield 2024-02-01", 10, 4), "2024");
    assert_eq!(cut_field("!garfield 20", 10, 4), "20");
    assert_eq!(cut_field("short", 10, 4), "");
    assert_eq!(cut_field("abc", 0, 0), "");
    assert_eq!(cut_field("aébc", 1, 2), "éb");
}

#[test]
fn same_text_compares_whole_texts() {
    assert!(same_text("!ping", "!ping"));
    assert!(same_text("", ""));
    assert!(!same_text("!ping", "!pin"));
    assert!(!same_text("!pin", "!ping"));
    assert!(!same_text("!ping", "!pong"));
}

#[test]
fn pinger_answers_pings_of_people() {
    assert_eq!(Pinger::reply("!ping", false), Some("Pong!"));
    assert_eq!(Pinger::reply("!PiNg", false), Some("Pong!"));
    assert_eq!(Pinger::reply("!ping", true), None);
    assert_eq!(Pinger::reply("!ping ", false), None);
    assert_eq!(Pinger::reply("ping", false), None);
    assert_eq!(Pinger::reply("", false), None);
}

#[test]
fn help_lists_the_commands() {
    let text = Help::reply("!HELP", false).expect("an answer");
    assert!(text.starts_with("Garfield help:\n\n"));
    assert!(text.ends_with("!help - This message"));
    assert!(text.contains("!garfield 2024-02-01 - The garfield strip at the given date"));
    assert_eq!(Help::reply("!help", true), None);
    assert_eq!(Help::reply("!helpme", false), None);
}

#[test]
fn garfield_request_tells_the_cases_apart() {
    assert!(matches!(Garfield::request("!garfield", false), Request::Today));
    assert!(matches!(Garfield::request("!garfield", true), Request::Ignore));
    assert!(matches!(Garfield::request("hello", false), Request::Ignore));
    assert!(matches!(Garfield::request("!garfiel", false), Request::Ignore));
    match Garfield::request("!Garfield 2024-02-01", false) {
        Request::On(date) => assert_eq!(ymd(date), (2024, 2, 1)),
        other => panic!("got {other:?}"),
    }
    assert!(matches!(
        Garfield::request("!GARFIELD", false),
        Request::BadDate(DateError::Number(_))
    ));
    assert!(matches!(
        Garfield::request("!garfield 2023-02-30", false),
        Request::BadDate(DateError::Invalid)
    ));
}

#[test]
fn garfield_texts() {
    let date = CalendarDate::from_ymd_opt(2024, 2, 1).unwrap();
    assert_eq!(Garfield::caption(&date), "Garfield: February 01, 2024");
    assert_eq!(
        Garfield::bad_date_text(&DateError::Invalid),
        "Unable to parse date: 'Invalid date'"
    );
    assert_eq!(
        Garfield::bad_date_text(&DateError::Number("no digits".to_string())),
        "Unable to parse date: 'no digits'"
    );
    assert_eq!(Garfield::unavailable_text(), "Commic Error: comic unavailable");
    assert_eq!(DateError::Invalid.message(), "Invalid date");
}
