use bazarr_bulk::actions::{Action, DispatchOutcome, Run, Step, Verdict};
use bazarr_bulk::cli::{ActionCommands, SyncOptions};
use bazarr_bulk::data_types::request::ActionPayload;
use bazarr_bulk::data_types::response::{AudioLanguageItem, Episode, Movie, Subtitle, TVShow};
use bazarr_bulk::db::{
    is_episode_subtitle_processed, is_movie_subtitle_processed, DedupStore,
};

const BASE: &str = "http://localhost:6767/api";

fn sub(path: Option<&str>, code: Option<&str>, name: &str) -> Subtitle {
    Subtitle {
        path: path.map(String::from),
        audio_language_item: AudioLanguageItem {
            name: String::from(name),
            code2: code.map(String::from),
        },
    }
}

fn movie(id: u32, title: &str, subtitles: Vec<Subtitle>) -> Movie {
    Movie { subtitles, radarr_id: id, title: String::from(title) }
}

fn episode(id: u32, title: &str, subtitles: Vec<Subtitle>) -> Episode {
    Episode { sonarr_episode_id: id, subtitles, title: String::from(title) }
}

fn action_of(kind: ActionCommands) -> Action {
    let mut action = Action::new(String::from(BASE));
    action.action = kind;
    action
}

fn ok(status: u16) -> DispatchOutcome {
    DispatchOutcome::Completed { status, body: String::new() }
}

fn expect_dispatch(step: Step) -> (usize, usize, ActionPayload) {
    match step {
        Step::Dispatch { record, subtitle, payload } => (record, subtitle, payload),
        other => panic!("a request was expected, got {other:?}"),
    }
}

fn expect_finished(step: Step) {
    assert_eq!(step, Step::Finished);
}

/// Runs to the end, answering every request with `status`; returns the
/// requests that were made.
fn drive_movies(
    action: &Action,
    store: &mut DedupStore,
    run: &mut Run<Movie>,
    status: u16,
    now: i64,
) -> Vec<(u32, String)> {
    let mut sent = Vec::new();
    loop {
        match run.next(action) {
            Step::Finished | Step::Halted => return sent,
            Step::Dispatch { payload, .. } => {
                sent.push((payload.id, payload.language.clone()));
                action.process_movie_subtitle(store, run, ok(status), now);
            }
        }
    }
}

fn inventory() -> Vec<Movie> {
    vec![
        movie(
            1,
            "A",
            vec![
                sub(Some("/a.en.srt"), Some("en"), "English"),
                sub(None, Some("fr"), "French"),
                sub(Some("/a.de.srt"), Some("de"), "German"),
            ],
        ),
        movie(2, "B", vec![]),
        movie(3, "C", vec![sub(Some("/c.srt"), None, "Unknown")]),
        movie(4, "D", vec![sub(Some("/d.en.srt"), Some("en"), "English")]),
    ]
}

#[test]
fn new_action_has_the_defaults() {
    let action = Action::new(String::from(BASE));
    assert_eq!(action.base_url, BASE);
    assert!(action.action == ActionCommands::OCRFixes);
    assert!(action.ids.is_empty());
    assert_eq!(action.offset, 0);
    assert_eq!(action.limit, None);
    assert!(!action.skip_processed);
    assert_eq!(action.language_code, None);
}

#[test]
fn language_filter_by_cases() {
    let mut action = Action::new(String::from(BASE));
    let en = String::from("en");
    let fr = String::from("fr");
    assert!(action.matches_language_filter(Some(&en)));
    assert!(action.matches_language_filter(None));
    action.language_code = Some(String::from("en"));
    assert!(action.matches_language_filter(Some(&en)));
    assert!(!action.matches_language_filter(Some(&fr)));
    assert!(!action.matches_language_filter(None));
}

#[test]
fn no_movies_means_nothing_to_do() {
    let action = action_of(ActionCommands::CommonFixes);
    let store = DedupStore::new();
    let mut run = action.movies(&store, Vec::new());
    let summary = run.summary();
    assert_eq!(summary.records, 0);
    assert_eq!(summary.skipped, 0);
    expect_finished(run.next(&action));
    expect_finished(run.next(&action));
}

#[test]
fn one_valid_subtitle_gives_one_request_and_one_row() {
    let action = action_of(ActionCommands::CommonFixes);
    let mut store = DedupStore::new();
    let movies = vec![movie(
        42,
        "Alien",
        vec![sub(Some("/x.srt"), Some("en"), "English"), sub(None, Some("fr"), "French")],
    )];
    let mut run = action.movies(&store, movies);
    assert_eq!(run.summary().records, 1);

    let (record, subtitle, payload) = expect_dispatch(run.next(&action));
    assert_eq!((record, subtitle), (0, 0));
    assert_eq!(payload.id, 42);
    assert_eq!(payload.media_type, "movie");
    assert_eq!(payload.language, "en");
    assert_eq!(payload.path, "/x.srt");
    assert_eq!(payload.reference, None);
    assert_eq!(payload.max_offset_seconds, None);
    assert_eq!(payload.no_fix_framerate, None);
    assert_eq!(payload.gss, None);

    let request = action.perform(payload).expect("the base address is a URL");
    assert_eq!(request.url, "http://localhost:6767/api/subtitles?action=common");
    assert_eq!(request.payload.id, 42);
    assert_eq!(request.payload.media_type, "movie");
    assert_eq!(request.payload.language, "en");
    assert_eq!(request.payload.path, "/x.srt");
    assert_eq!(request.payload.reference, None);
    assert_eq!(request.payload.gss, None);

    match action.process_movie_subtitle(&mut store, &mut run, ok(200), 1234) {
        Verdict::Succeeded { record: 0, subtitle: 0, created: true } => {}
        _ => panic!("the request succeeded and made a row"),
    }
    assert!(is_movie_subtitle_processed(&store, 42, &String::from("en")));
    assert!(!is_movie_subtitle_processed(&store, 42, &String::from("fr")));
    assert_eq!(store.movies.len(), 1);
    assert_eq!(store.movies.entry(0).title, "Alien");
    assert_eq!(store.movies.entry(0).language_name, "English");
    assert_eq!(store.movies.entry(0).path.as_deref(), Some("/x.srt"));
    assert_eq!(store.movies.entry(0).processed_at, 1234);
    assert_eq!(store.episodes.len(), 0);

    expect_finished(run.next(&action));
}

#[test]
fn a_refused_request_records_nothing_and_the_run_goes_on() {
    let action = action_of(ActionCommands::CommonFixes);
    let mut store = DedupStore::new();
    let movies = vec![
        movie(
            42,
            "Alien",
            vec![sub(Some("/x.srt"), Some("en"), "English"), sub(None, Some("fr"), "French")],
        ),
        movie(43, "Aliens", vec![sub(Some("/y.srt"), Some("en"), "English")]),
    ];
    let mut run = action.movies(&store, movies);
    let (record, subtitle, _) = expect_dispatch(run.next(&action));
    assert_eq!((record, subtitle), (0, 0));
    let outcome = DispatchOutcome::Completed { status: 500, body: String::from("boom") };
    match action.process_movie_subtitle(&mut store, &mut run, outcome, 1) {
        Verdict::Failed { record: 0, subtitle: 0, status: 500, body } => assert_eq!(body, "boom"),
        _ => panic!("the request was refused"),
    }
    assert_eq!(store.movies.len(), 0);
    let (record, subtitle, payload) = expect_dispatch(run.next(&action));
    assert_eq!((record, subtitle), (1, 0));
    assert_eq!(payload.id, 43);
}

#[test]
fn a_lost_connection_stops_the_run() {
    let action = action_of(ActionCommands::OCRFixes);
    let mut store = DedupStore::new();
    let movies = vec![
        movie(1, "A", vec![sub(Some("/a.srt"), Some("en"), "English")]),
        movie(2, "B", vec![sub(Some("/b.srt"), Some("en"), "English")]),
    ];
    let mut run = action.movies(&store, movies);
    assert!(!run.halted);
    expect_dispatch(run.next(&action));
    let outcome = DispatchOutcome::ConnectionFailed { message: String::from("refused") };
    let verdict = action.process_movie_subtitle(&mut store, &mut run, outcome, 1);
    assert!(verdict.is_fatal());
    assert_eq!(verdict, Verdict::Disconnected { message: String::from("refused") });
    assert_eq!(store.movies.len(), 0);
    assert!(run.halted);
    assert_eq!((run.record, run.subtitle), (0, 0));
    // Nothing more is sent, and a late answer counts for nothing.
    assert_eq!(run.next(&action), Step::Halted);
    assert_eq!(action.process_movie_subtitle(&mut store, &mut run, ok(200), 2), Verdict::Idle);
    assert_eq!(store.movies.len(), 0);
    assert_eq!(run.next(&action), Step::Halted);
}

#[test]
fn a_missing_answer_records_nothing_and_the_run_goes_on() {
    let action = action_of(ActionCommands::OCRFixes);
    let mut store = DedupStore::new();
    let movies = vec![
        movie(1, "A", vec![sub(Some("/a.srt"), Some("en"), "English")]),
        movie(2, "B", vec![sub(Some("/b.srt"), Some("en"), "English")]),
    ];
    let mut run = action.movies(&store, movies);
    expect_dispatch(run.next(&action));
    let outcome = DispatchOutcome::Unanswered { message: String::from("timed out") };
    let verdict = action.process_movie_subtitle(&mut store, &mut run, outcome, 1);
    assert!(!verdict.is_fatal());
    assert_eq!(
        verdict,
        Verdict::Unanswered { record: 0, subtitle: 0, message: String::from("timed out") }
    );
    assert_eq!(store.movies.len(), 0);
    assert!(!run.halted);
    let (record, subtitle, payload) = expect_dispatch(run.next(&action));
    assert_eq!((record, subtitle), (1, 0));
    assert_eq!(payload.id, 2);
}

#[test]
fn an_answer_that_nothing_awaits_is_idle() {
    let action = action_of(ActionCommands::OCRFixes);
    let mut store = DedupStore::new();
    let mut run = action.movies(&store, vec![movie(1, "A", vec![sub(None, None, "?")])]);
    match action.process_movie_subtitle(&mut store, &mut run, ok(200), 1) {
        Verdict::Idle => {}
        _ => panic!("nothing was awaited"),
    }
    assert_eq!(store.movies.len(), 0);
}

#[test]
fn status_codes_beside_the_two_hundreds_are_refusals() {
    for (status, succeeds) in
        [(199u16, false), (200, true), (204, true), (299, true), (300, false), (404, false)]
    {
        let action = action_of(ActionCommands::OCRFixes);
        let mut store = DedupStore::new();
        let movies = vec![movie(1, "A", vec![sub(Some("/a.srt"), Some("en"), "English")])];
        let mut run = action.movies(&store, movies);
        expect_dispatch(run.next(&action));
        let verdict = action.process_movie_subtitle(&mut store, &mut run, ok(status), 1);
        assert_eq!(matches!(verdict, Verdict::Succeeded { .. }), succeeds, "status {status}");
        assert_eq!(matches!(verdict, Verdict::Failed { .. }), !succeeds, "status {status}");
        assert_eq!(store.movies.len(), if succeeds { 1 } else { 0 });
    }
}

#[test]
fn subtitles_are_sent_in_order_and_invalid_ones_never() {
    let action = action_of(ActionCommands::RemoveStyleTags);
    let mut store = DedupStore::new();
    let mut run = action.movies(&store, inventory());
    let sent = drive_movies(&action, &mut store, &mut run, 200, 9);
    assert_eq!(
        sent,
        vec![(1, String::from("en")), (1, String::from("de")), (4, String::from("en"))]
    );
    assert_eq!(store.movies.len(), 3);
}

#[test]
fn language_filter_leaves_other_languages_out() {
    let mut action = action_of(ActionCommands::RemoveStyleTags);
    action.language_code = Some(String::from("de"));
    let mut store = DedupStore::new();
    let mut run = action.movies(&store, inventory());
    let sent = drive_movies(&action, &mut store, &mut run, 200, 9);
    assert_eq!(sent, vec![(1, String::from("de"))]);
    assert!(is_movie_subtitle_processed(&store, 1, &String::from("de")));
    assert!(!is_movie_subtitle_processed(&store, 1, &String::from("en")));
}

#[test]
fn second_run_sends_nothing() {
    let mut action = action_of(ActionCommands::FixUppercase);
    action.skip_processed = true;
    let mut store = DedupStore::new();

    let mut first = action.movies(&store, inventory());
    assert_eq!(first.summary().records, 4);
    assert_eq!(first.summary().skipped, 0);
    let sent = drive_movies(&action, &mut store, &mut first, 200, 1);
    assert_eq!(sent.len(), 3);

    let mut second = action.movies(&store, inventory());
    // What is left are the movies without a subtitle that can be acted on.
    assert_eq!(second.summary().records, 2);
    assert_eq!(second.summary().skipped, 2);
    let sent = drive_movies(&action, &mut store, &mut second, 200, 2);
    assert!(sent.is_empty());
    assert_eq!(store.movies.len(), 3);
    assert_eq!(store.movies.entry(0).processed_at, 1);
}

#[test]
fn without_skipping_every_record_is_processed_again() {
    let action = action_of(ActionCommands::FixUppercase);
    let mut store = DedupStore::new();
    let mut first = action.movies(&store, inventory());
    drive_movies(&action, &mut store, &mut first, 200, 1);
    let mut second = action.movies(&store, inventory());
    assert_eq!(second.summary().records, 4);
    assert_eq!(second.summary().skipped, 0);
    let sent = drive_movies(&action, &mut store, &mut second, 200, 2);
    assert_eq!(sent.len(), 3);
    // The rows of the first run stay as they were.
    assert_eq!(store.movies.len(), 3);
    assert_eq!(store.movies.entry(2).processed_at, 1);
}

#[test]
fn a_second_success_for_a_recorded_pair_creates_nothing() {
    let action = action_of(ActionCommands::FixUppercase);
    let mut store = DedupStore::new();
    let one = || vec![movie(1, "A", vec![sub(Some("/a.srt"), Some("en"), "English")])];
    let mut first = action.movies(&store, one());
    expect_dispatch(first.next(&action));
    assert!(matches!(
        action.process_movie_subtitle(&mut store, &mut first, ok(200), 1),
        Verdict::Succeeded { created: true, .. }
    ));
    let mut second = action.movies(&store, one());
    expect_dispatch(second.next(&action));
    assert!(matches!(
        action.process_movie_subtitle(&mut store, &mut second, ok(201), 2),
        Verdict::Succeeded { created: false, .. }
    ));
    assert_eq!(store.movies.len(), 1);
    assert_eq!(store.movies.entry(0).processed_at, 1);
}

#[test]
fn episodes_are_recorded_among_the_episodes() {
    let mut action = action_of(ActionCommands::ReverseRTL);
    action.skip_processed = true;
    let mut store = DedupStore::new();
    let episodes = || {
        vec![
            episode(10, "Pilot", vec![sub(Some("/p.srt"), Some("he"), "Hebrew")]),
            episode(11, "Two", vec![sub(Some("/t.srt"), Some("he"), "Hebrew")]),
        ]
    };
    let mut run = action.episodes(&store, episodes());
    let (_, _, payload) = expect_dispatch(run.next(&action));
    assert_eq!(payload.id, 10);
    assert_eq!(payload.media_type, "episode");
    assert_eq!(payload.language, "he");
    assert_eq!(payload.path, "/p.srt");
    match action.process_episode_subtitle(&mut store, &mut run, ok(200), 77) {
        Verdict::Succeeded { record: 0, subtitle: 0, created: true } => {}
        _ => panic!("the request succeeded"),
    }
    assert!(is_episode_subtitle_processed(&store, 10, &String::from("he")));
    assert!(!is_movie_subtitle_processed(&store, 10, &String::from("he")));
    assert_eq!(store.movies.len(), 0);
    let (record, _, payload) = expect_dispatch(run.next(&action));
    assert_eq!(record, 1);
    assert_eq!(payload.id, 11);

    let again = action.episodes(&store, episodes());
    assert_eq!(again.summary().records, 1);
    assert_eq!(again.summary().skipped, 1);
    assert_eq!(again.records[0].sonarr_episode_id, 11);
}

#[test]
fn shows_come_one_after_the_other() {
    let action = action_of(ActionCommands::OCRFixes);
    let shows = vec![
        TVShow { sonarr_series_id: 5, title: String::from("Five") },
        TVShow { sonarr_series_id: 6, title: String::from("Six") },
    ];
    let mut run = action.tv_shows(shows);
    assert_eq!(run.next(), Some(0));
    assert_eq!(run.shows[0].sonarr_series_id, 5);
    assert_eq!(run.next(), Some(1));
    assert_eq!(run.next(), None);
    assert_eq!(run.next(), None);
    let mut none = action.tv_shows(Vec::new());
    assert_eq!(none.next(), None);
}

#[test]
fn sync_fills_its_options_into_the_body() {
    let action = action_of(ActionCommands::Sync(SyncOptions {
        reference: Some(String::from("a:0")),
        max_offset_seconds: Some(30),
        no_fix_framerate: true,
        gss: false,
    }));
    let subtitle = sub(Some("/x.srt"), Some("en"), "English");
    let request =
        action.perform(ActionPayload::new(7, "episode", &subtitle)).expect("a URL");
    assert_eq!(request.url, "http://localhost:6767/api/subtitles?action=sync");
    assert_eq!(request.payload.id, 7);
    assert_eq!(request.payload.media_type, "episode");
    assert_eq!(request.payload.reference.as_deref(), Some("a:0"));
    assert_eq!(request.payload.max_offset_seconds, Some(30));
    assert_eq!(request.payload.no_fix_framerate, Some(true));
    assert_eq!(request.payload.gss, Some(false));
}

#[test]
fn sync_without_reference_leaves_it_out() {
    let action = action_of(ActionCommands::Sync(SyncOptions {
        reference: None,
        max_offset_seconds: None,
        no_fix_framerate: false,
        gss: true,
    }));
    let subtitle = sub(Some("/x.srt"), Some("en"), "English");
    let request = action.perform(ActionPayload::new(7, "movie", &subtitle)).expect("a URL");
    assert_eq!(request.payload.reference, None);
    assert_eq!(request.payload.max_offset_seconds, None);
    assert_eq!(request.payload.no_fix_framerate, Some(false));
    assert_eq!(request.payload.gss, Some(true));
}

#[test]
fn perform_fails_on_a_base_that_is_no_url() {
    let mut action = Action::new(String::from("not a url"));
    action.action = ActionCommands::CommonFixes;
    let subtitle = sub(Some("/x.srt"), Some("en"), "English");
    assert!(action.perform(ActionPayload::new(7, "movie", &subtitle)).is_none());
    let mailto = Action::new(String::from("mailto:someone@example.com"));
    assert!(mailto.perform(ActionPayload::new(7, "movie", &subtitle)).is_none());
}

#[test]
fn every_action_has_its_code_in_the_address() {
    let subtitle = sub(Some("/x.srt"), Some("en"), "English");
    let cases = [
        (ActionCommands::OCRFixes, "OCR_fixes"),
        (ActionCommands::CommonFixes, "common"),
        (ActionCommands::RemoveHearingImpaired, "remove_HI"),
        (ActionCommands::RemoveStyleTags, "remove_tags"),
        (ActionCommands::FixUppercase, "fix_uppercase"),
        (ActionCommands::ReverseRTL, "reverse_rtl"),
    ];
    for (kind, code) in cases {
        assert_eq!(kind.to_string(), code);
        let action = action_of(kind);
        let request = action.perform(ActionPayload::new(1, "movie", &subtitle)).expect("a URL");
        assert_eq!(request.url, format!("http://localhost:6767/api/subtitles?action={code}"));
    }
}
