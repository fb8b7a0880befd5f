use garfield_comic::{CalendarDate, Source};

#[test]
fn from_ymd_opt_accepts_days_that_exist() {
    let date = CalendarDate::from_ymd_opt(2024, 2, 29).unwrap();
    assert_eq!((date.year(), date.month(), date.day()), (2024, 2, 29));
    assert!(CalendarDate::from_ymd_opt(2000, 2, 29).is_some());
    assert!(CalendarDate::from_ymd_opt(-4, 2, 29).is_some());
    assert!(CalendarDate::from_ymd_opt(2023, 12, 31).is_some());
    assert!(CalendarDate::from_ymd_opt(262142, 12, 31).is_some());
    assert!(CalendarDate::from_ymd_opt(-262143, 1, 1).is_some());
}

#[test]
fn from_ymd_opt_rejects_days_that_do_not_exist() {
    assert!(CalendarDate::from_ymd_opt(2023, 2, 29).is_none());
    assert!(CalendarDate::from_ymd_opt(1900, 2, 29).is_none());
    assert!(CalendarDate::from_ymd_opt(2023, 4, 31).is_none());
    assert!(CalendarDate::from_ymd_opt(2023, 0, 1).is_none());
    assert!(CalendarDate::from_ymd_opt(2023, 13, 1).is_none());
    assert!(CalendarDate::from_ymd_opt(2023, 1, 0).is_none());
    assert!(CalendarDate::from_ymd_opt(2023, 1, 32).is_none());
    assert!(CalendarDate::from_ymd_opt(262143, 1, 1).is_none());
    assert!(CalendarDate::from_ymd_opt(-262144, 12, 31).is_none());
}

#[test]
fn format_writes_each_supported_pattern() {
    let date = CalendarDate::from_ymd_opt(2024, 2, 1).unwrap();
    assert_eq!(date.format("%Y/%m/%d"), "2024/02/01");
    assert_eq!(date.format("%Y"), "2024");
    assert_eq!(date.format("%y%m%d"), "240201");
}

#[test]
fn registry_lists_every_source_once() {
    assert_eq!(
        Source::all(),
        vec![Source::GoComic, Source::ProductionCentralus, Source::Jikos]
    );
}

#[test]
fn each_source_formats_the_date_its_own_way() {
    let date = CalendarDate::from_ymd_opt(2003, 11, 9).unwrap();
    assert_eq!(Source::GoComic.target(&date), "https://www.gocomics.com/garfield/2003/11/09");
    assert_eq!(
        Source::ProductionCentralus.target(&date),
        "https://production.centralus.gocomics.com/garfield/2003/11/09"
    );
    assert_eq!(
        Source::Jikos.target(&date),
        "https://picayune.uclick.com/comics/ga/2003/ga031109.gif"
    );
}

#[test]
fn only_the_pattern_source_needs_no_fetch() {
    assert!(Source::GoComic.needs_fetch());
    assert!(Source::ProductionCentralus.needs_fetch());
    assert!(!Source::Jikos.needs_fetch());
}

#[test]
fn source_rules() {
    assert_eq!(Source::GoComic.origin(), "https://www.gocomics.com");
    assert_eq!(Source::GoComic.slug(), "/garfield/");
    assert_eq!(Source::GoComic.marker_class(), "comic");
    assert_eq!(Source::GoComic.image_attribute(), "data-image");
    assert_eq!(Source::ProductionCentralus.marker_class(), "Comic_comic__image_strip__hPLFq");
    assert_eq!(Source::ProductionCentralus.image_attribute(), "src");
    assert_eq!(Source::Jikos.origin(), "https://picayune.uclick.com");
}

#[test]
fn address_joins_the_parts_of_each_source() {
    assert_eq!(
        Source::GoComic.address("Y", "S", "C"),
        "https://www.gocomics.com/garfield/S"
    );
    assert_eq!(
        Source::ProductionCentralus.address("Y", "S", "C"),
        "https://production.centralus.gocomics.com/garfield/S"
    );
    assert_eq!(
        Source::Jikos.address("Y", "S", "C"),
        "https://picayune.uclick.com/comics/ga/Y/gaC.gif"
    );
}
