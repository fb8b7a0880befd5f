use garfield_comic::engine::trial_order;
use garfield_comic::{
    get_comic, Action, CalendarDate, ExtractError, Reply, Resolution, ResolveError, Source,
    SourceFailure,
};

fn day(year: i32, month: u32, day: u32) -> CalendarDate {
    CalendarDate::from_ymd_opt(year, month, day).expect("a day that exists")
}

fn page(body: &str) -> Reply {
    Reply::Response { status: 200, body: format!("<html><body>{body}</body></html>") }
}

fn status(code: u16) -> Reply {
    Reply::Response { status: code, body: String::new() }
}

/// Drives a resolution to its end, answering each request from `reply_of`,
/// and returns the result with the sources that were asked, in order.
fn drive(
    mut resolution: Resolution,
    reply_of: impl Fn(Source) -> Reply,
) -> (Result<String, ResolveError>, Vec<(Source, String)>) {
    let mut asked = Vec::new();
    loop {
        match resolution.poll() {
            Action::Done(result) => return (result, asked),
            Action::Fetch { source, url } => {
                assert!(asked.len() < 8, "a resolution asks each source at most once");
                asked.push((source, url));
                resolution.deliver(&reply_of(source));
            }
        }
    }
}

#[test]
fn first_source_success_ends_the_resolution() {
    let order = vec![Source::GoComic, Source::ProductionCentralus, Source::Jikos];
    let resolution = Resolution::start(day(2024, 2, 1), order);
    let (result, asked) = drive(resolution, |source| match source {
        Source::GoComic => {
            page(r#"<div class="comic" data-image="https://img.example/x.gif"></div>"#)
        }
        _ => panic!("no other source may be asked"),
    });
    assert_eq!(result.unwrap(), "https://img.example/x.gif");
    assert_eq!(
        asked,
        vec![(Source::GoComic, "https://www.gocomics.com/garfield/2024/02/01".to_string())]
    );
}

#[test]
fn every_source_failing_gives_one_failure_each() {
    let order = vec![Source::ProductionCentralus, Source::GoComic];
    let resolution = Resolution::start(day(1900, 1, 1), order);
    let (result, asked) = drive(resolution, |source| match source {
        Source::GoComic => status(404),
        _ => page("<p>nothing here</p>"),
    });
    match result {
        Err(ResolveError::AllFailed(failures)) => assert_eq!(
            failures,
            vec![
                SourceFailure {
                    source: Source::ProductionCentralus,
                    error: ExtractError::NotFound
                },
                SourceFailure { source: Source::GoComic, error: ExtractError::Fetch },
            ]
        ),
        other => panic!("expected every source to fail, got {other:?}"),
    }
    assert_eq!(asked.len(), 2);
    assert_eq!(
        asked[0].1,
        "https://production.centralus.gocomics.com/garfield/1900/01/01"
    );
    assert_eq!(asked[1].1, "https://www.gocomics.com/garfield/1900/01/01");
}

#[test]
fn second_source_relative_path_is_qualified() {
    let order = vec![Source::GoComic, Source::ProductionCentralus, Source::Jikos];
    let resolution = Resolution::start(day(2024, 2, 1), order);
    let (result, asked) = drive(resolution, |source| match source {
        Source::GoComic => Reply::TransportFailed,
        Source::ProductionCentralus => {
            page(r#"<div class="Comic_comic__image_strip__hPLFq" src="/comics/x.png"></div>"#)
        }
        Source::Jikos => panic!("the third source may not be asked"),
    });
    assert_eq!(
        result.unwrap(),
        "https://production.centralus.gocomics.com/comics/x.png"
    );
    assert_eq!(asked.len(), 2);
    assert_eq!(asked[0].0, Source::GoComic);
    assert_eq!(asked[1].0, Source::ProductionCentralus);
}

#[test]
fn single_failing_source_records_one_reason() {
    let resolution = Resolution::start(day(2024, 2, 1), vec![Source::GoComic]);
    let (result, asked) = drive(resolution, |_| status(500));
    match result {
        Err(ResolveError::AllFailed(failures)) => {
            assert_eq!(failures.len(), 1);
            assert_eq!(failures[0].source, Source::GoComic);
            assert_eq!(failures[0].error, ExtractError::Fetch);
        }
        other => panic!("expected one failure, got {other:?}"),
    }
    assert_eq!(asked.len(), 1);
}

#[test]
fn empty_order_is_no_sources() {
    let resolution = Resolution::start(day(2024, 2, 1), Vec::new());
    assert_eq!(resolution.current_source(), None);
    let (result, asked) = drive(resolution, |_| panic!("nothing to ask"));
    assert!(matches!(result, Err(ResolveError::NoSources)));
    assert!(asked.is_empty());
}

#[test]
fn pattern_source_needs_no_fetch() {
    let resolution = Resolution::start(day(2024, 2, 1), vec![Source::Jikos, Source::GoComic]);
    assert_eq!(resolution.current_source(), Some(Source::Jikos));
    let (result, asked) = drive(resolution, |_| panic!("nothing to ask"));
    assert_eq!(result.unwrap(), "https://picayune.uclick.com/comics/ga/2024/ga240201.gif");
    assert!(asked.is_empty());
}

#[test]
fn pattern_source_is_deterministic() {
    let first = Source::Jikos.target(&day(1978, 6, 19));
    let second = Source::Jikos.target(&day(1978, 6, 19));
    assert_eq!(first, second);
    assert_eq!(first, "https://picayune.uclick.com/comics/ga/1978/ga780619.gif");
}

#[test]
fn success_does_not_depend_on_order() {
    let orders = [
        vec![Source::GoComic, Source::ProductionCentralus],
        vec![Source::ProductionCentralus, Source::GoComic],
    ];
    for order in orders {
        let resolution = Resolution::start(day(2024, 2, 1), order);
        let (result, _) = drive(resolution, |source| match source {
            Source::GoComic => status(503),
            _ => page(r#"<div class="Comic_comic__image_strip__hPLFq" src="https://a.example/s.png"></div>"#),
        });
        assert_eq!(result.unwrap(), "https://a.example/s.png");
    }
}

#[test]
fn full_registry_resolves_when_sites_are_down() {
    let resolution = get_comic(day(1900, 1, 1));
    let (result, asked) = drive(resolution, |_| Reply::TransportFailed);
    assert_eq!(result.unwrap(), "https://picayune.uclick.com/comics/ga/1900/ga000101.gif");
    assert!(asked.len() <= 2);
}

#[test]
fn delivery_without_request_changes_nothing() {
    let mut resolution = Resolution::start(day(2024, 2, 1), vec![Source::GoComic]);
    resolution.deliver(&status(404));
    assert_eq!(resolution.attempts_failed(), 1);
    resolution.deliver(&page(r#"<div class="comic" data-image="https://img.example/x.gif"></div>"#));
    assert_eq!(resolution.attempts_failed(), 1);
    assert!(matches!(resolution.poll(), Action::Done(Err(ResolveError::AllFailed(_)))));
}

#[test]
fn poll_leaves_the_state_alone() {
    let resolution = Resolution::start(day(2024, 2, 1), vec![Source::GoComic]);
    for _ in 0..3 {
        match resolution.poll() {
            Action::Fetch { source, url } => {
                assert_eq!(source, Source::GoComic);
                assert_eq!(url, "https://www.gocomics.com/garfield/2024/02/01");
            }
            other => panic!("expected a request, got {other:?}"),
        }
    }
    assert_eq!(resolution.attempts_failed(), 0);
}

#[test]
fn trial_order_holds_each_source_once() {
    for _ in 0..50 {
        let order = trial_order();
        assert_eq!(order.len(), 3);
        for source in Source::all() {
            assert_eq!(order.iter().filter(|s| **s == source).count(), 1);
        }
    }
}

#[test]
fn trial_order_varies() {
    let mut first_sources = Vec::new();
    for _ in 0..200 {
        let resolution = get_comic(day(2024, 2, 1));
        let first = resolution.current_source().expect("a source to try");
        if !first_sources.contains(&first) {
            first_sources.push(first);
        }
    }
    assert!(first_sources.len() > 1);
}
