use tenuto::application::browse::{
    BrowseRequest, BrowseResult, DirEntry, EntryKind, TreeCollected,
};
use tenuto::application::command::EnqueueItem;
use tenuto::application::view::QueueRow;
use tenuto::clock::Duration;
use tenuto::library::{EpisodeCandidate, FeedSummary, StationRow};
use tenuto::media::{AbsolutePath, MediaId, Url};
use tenuto::path::{parent, same_path};
use tenuto::playlist::PlaylistId;
use tenuto::queue::QueueEntryId;
use tenuto::station::model::StationIdentity;
use tenuto::tui::browser::{BrowserEffect, BrowserState, BrowserTab, NoticeKind};
use tenuto::tui::geometry::Rect;
use tenuto::tui::keys::{KeyCode, KeyEvent, KeyKind};
use tenuto::tui::listing::{
    displayable_lines, hidden_marker, list_area, list_columns, list_notice, location,
    notice_lines, place_notice, row_cells, Tone,
};

fn dest() -> PlaylistId {
    PlaylistId::from_raw(5)
}

fn id(raw: u64) -> QueueEntryId {
    QueueEntryId::from_raw(raw)
}

fn file(name: &str) -> MediaId {
    MediaId::LocalFile(AbsolutePath::new(format!("/music/{name}")).expect("absolute"))
}

fn entry(name: &str, kind: EntryKind) -> DirEntry {
    let media = if kind == EntryKind::Audio { Some(file(name)) } else { None };
    DirEntry { name: name.to_owned(), path: format!("/music/{name}"), kind, media }
}

fn press(browser: &mut BrowserState, code: KeyCode) -> Vec<BrowserEffect> {
    browser.handle_key(KeyEvent { code, kind: KeyKind::Press, control: false, alt: false })
}

fn letter(browser: &mut BrowserState, c: char) -> Vec<BrowserEffect> {
    press(browser, KeyCode::Char(c))
}

fn request(request: BrowseRequest) -> Vec<BrowserEffect> {
    vec![BrowserEffect::Request(request)]
}

fn path(name: &str) -> EnqueueItem {
    EnqueueItem::Path(format!("/music/{name}"))
}

/// A Files tab that lists a directory, two audio files and something else.
fn files() -> BrowserState {
    let mut browser = BrowserState::new("/music".to_owned(), dest());
    let follow_up = browser.apply(BrowseResult::Directory {
        path: "/music".to_owned(),
        entries: Ok(vec![
            entry("albums", EntryKind::Directory),
            entry("a.flac", EntryKind::Audio),
            entry("b.flac", EntryKind::Audio),
            entry("notes.txt", EntryKind::Other),
        ]),
    });
    assert_eq!(follow_up, None);
    browser
}

fn feed(slug: &str, title: Option<&str>, episodes: Option<usize>) -> FeedSummary {
    FeedSummary { slug: slug.to_owned(), title: title.map(str::to_owned), episodes }
}

fn feeds() -> BrowserState {
    let mut browser = BrowserState::new("/music".to_owned(), dest());
    assert_eq!(press(&mut browser, KeyCode::Tab), request(BrowseRequest::Feeds));
    browser.apply(BrowseResult::Feeds(Ok(vec![
        feed("one", Some("One"), Some(2)),
        feed("two", None, None),
    ])));
    browser
}

fn episode(name: &str, published: Option<i128>, enclosure: bool) -> EpisodeCandidate {
    let media = format!("podcast:0123456789abcdef0123456789abcdef:{name}");
    EpisodeCandidate {
        media: MediaId::parse(&media).expect("valid"),
        title: Some(name.to_owned()),
        enclosure: if enclosure { Url::parse("https://cdn.example/e.mp3").ok() } else { None },
        declared_duration: Some(Duration::from_secs(62)),
        published,
    }
}

fn episodes() -> BrowserState {
    let mut browser = feeds();
    assert_eq!(
        press(&mut browser, KeyCode::Enter),
        request(BrowseRequest::Episodes { slug: "one".to_owned() })
    );
    browser.apply(BrowseResult::Episodes {
        slug: "one".to_owned(),
        episodes: Ok(vec![
            episode("undated", None, true),
            episode("old", Some(1), true),
            episode("new", Some(9), true),
            episode("silent", None, false),
        ]),
    });
    browser
}

fn station(slug: &str, identity: Option<StationIdentity>) -> StationRow {
    let url = format!("https://radio.example/{slug}");
    StationRow {
        slug: slug.to_owned(),
        media: MediaId::parse(&format!("url:{url}")).expect("valid"),
        url: Url::parse(&url).expect("an address"),
        identity,
    }
}

fn identity(name: Option<&str>, genre: Option<&str>, kbps: Option<u32>) -> Option<StationIdentity> {
    Some(StationIdentity {
        name: name.map(str::to_owned),
        genre: genre.map(str::to_owned),
        bitrate_kbps: kbps,
        logo: None,
    })
}

fn radio() -> BrowserState {
    let mut browser = feeds();
    assert_eq!(press(&mut browser, KeyCode::Tab), request(BrowseRequest::Stations));
    browser.apply(BrowseResult::Stations(Ok(vec![
        station("jazz", identity(Some("Jazz FM"), Some("Jazz"), Some(128))),
        station("talk", None),
    ])));
    browser
}

fn queue(browser: &mut BrowserState, media: Vec<(u64, MediaId)>) {
    let rows = media
        .into_iter()
        .map(|(raw, media)| QueueRow {
            id: id(raw),
            media,
            title: String::new(),
            subtitle: None,
            duration: None,
            saved: None,
        })
        .collect();
    browser.sync_queue(&rows);
}

#[test]
fn a_directory_opens_and_leads_back() {
    let mut browser = files();
    assert_eq!(
        press(&mut browser, KeyCode::Enter),
        request(BrowseRequest::Directory("/music/albums".to_owned()))
    );
    assert!(browser.loading && browser.is_empty());
    assert_eq!(list_notice(&browser).expect("waiting").1, Tone::Muted);
    assert_eq!(
        press(&mut browser, KeyCode::Backspace),
        request(BrowseRequest::Directory("/music".to_owned()))
    );
    assert_eq!(
        press(&mut browser, KeyCode::Left),
        request(BrowseRequest::Directory("/".to_owned()))
    );
    assert_eq!(press(&mut browser, KeyCode::Left), vec![], "nothing holds the root");
}

#[test]
fn an_answer_for_somewhere_else_is_dropped() {
    let mut browser = files();
    press(&mut browser, KeyCode::Enter);
    browser.apply(BrowseResult::Directory {
        path: "/music".to_owned(),
        entries: Ok(vec![entry("late", EntryKind::Audio)]),
    });
    assert!(browser.loading && browser.is_empty());
    browser.apply(BrowseResult::Directory {
        path: "/music//albums/".to_owned(),
        entries: Err("denied".to_owned()),
    });
    assert!(!browser.loading, "the same directory, however it is written");
    assert_eq!(list_notice(&browser), Some(("denied".to_owned(), Tone::Warning)));
    let mut browser = feeds();
    browser.apply(BrowseResult::Stations(Ok(vec![station("jazz", None)])));
    assert!(browser.stations.is_empty());
    let tree = TreeCollected { dest: dest(), items: Vec::new() };
    assert_eq!(browser.apply(BrowseResult::TreeCollected(tree)), None);
}

#[test]
fn enter_queues_and_takes_out_again() {
    let mut browser = files();
    letter(&mut browser, 'j');
    assert_eq!(
        press(&mut browser, KeyCode::Enter),
        vec![BrowserEffect::Enqueue { dest: dest(), items: vec![path("a.flac")] }]
    );
    queue(&mut browser, vec![(1, file("a.flac")), (2, file("a.flac"))]);
    assert_eq!(browser.queued_at(1), Some(id(2)), "the later of two");
    assert_eq!(browser.queued_at(2), None);
    assert_eq!(
        press(&mut browser, KeyCode::Enter),
        vec![BrowserEffect::Remove(id(2))]
    );
    assert_eq!(letter(&mut browser, 'a'), vec![], "adding never takes out");
    for _ in 0..9 {
        press(&mut browser, KeyCode::Down);
    }
    assert_eq!(browser.cursor, 3, "the last row");
    assert_eq!(press(&mut browser, KeyCode::Enter), vec![], "not an audio file");
    assert_eq!(letter(&mut browser, ' '), vec![]);
    assert!(browser.marked.is_empty(), "nor one that can be marked");
}

#[test]
fn marked_rows_are_added_together() {
    let mut browser = files();
    press(&mut browser, KeyCode::Down);
    letter(&mut browser, ' ');
    press(&mut browser, KeyCode::Down);
    letter(&mut browser, ' ');
    assert_eq!(
        press(&mut browser, KeyCode::Enter),
        vec![BrowserEffect::Enqueue { dest: dest(), items: vec![path("a.flac"), path("b.flac")] }]
    );
    assert!(browser.marked.is_empty());
    queue(&mut browser, vec![(1, file("a.flac"))]);
    letter(&mut browser, ' ');
    letter(&mut browser, 'k');
    letter(&mut browser, ' ');
    assert_eq!(
        letter(&mut browser, 'a'),
        vec![BrowserEffect::Enqueue { dest: dest(), items: vec![path("b.flac")] }],
        "what is queued is passed over"
    );
    letter(&mut browser, 'j');
    letter(&mut browser, ' ');
    letter(&mut browser, ' ');
    assert!(browser.marked.is_empty(), "a mark is taken back");
}

#[test]
fn a_directory_among_the_picks_is_walked() {
    let mut browser = files();
    assert_eq!(
        letter(&mut browser, 'a'),
        request(BrowseRequest::CollectTree {
            roots: vec!["/music/albums".to_owned()],
            dest: dest(),
        })
    );
    letter(&mut browser, ' ');
    press(&mut browser, KeyCode::Down);
    letter(&mut browser, ' ');
    assert_eq!(
        press(&mut browser, KeyCode::Enter),
        request(BrowseRequest::CollectTree {
            roots: vec!["/music/albums".to_owned(), "/music/a.flac".to_owned()],
            dest: dest(),
        })
    );
    assert_eq!(browser.pending, None, "a walk is not waited for");
}

#[test]
fn episodes_come_newest_first() {
    let mut browser = episodes();
    let names = |browser: &BrowserState| -> Vec<String> {
        let open = browser.episodes.as_ref().expect("open");
        open.episodes.iter().map(|episode| episode.title.clone().expect("titled")).collect()
    };
    assert_eq!(names(&browser), vec!["new", "old", "undated", "silent"]);
    assert_eq!(
        press(&mut browser, KeyCode::Enter),
        vec![BrowserEffect::Enqueue {
            dest: dest(),
            items: vec![EnqueueItem::Episode(episode("new", Some(9), true))],
        }]
    );
    for _ in 0..3 {
        press(&mut browser, KeyCode::Down);
    }
    assert!(!browser.enqueueable(browser.cursor), "without an enclosure");
    assert_eq!(press(&mut browser, KeyCode::Enter), vec![]);
    assert_eq!(press(&mut browser, KeyCode::Left), request(BrowseRequest::Feeds));
    assert_eq!((browser.cursor, browser.len()), (0, 2), "back on the feed that was left");
    assert_eq!(press(&mut browser, KeyCode::Left), vec![]);
}

#[test]
fn feeds_are_managed_one_change_at_a_time() {
    let mut browser = feeds();
    letter(&mut browser, 'a');
    for c in " https://h/feed ".chars() {
        assert_eq!(letter(&mut browser, c), vec![]);
    }
    press(&mut browser, KeyCode::Backspace);
    let subscribe = || BrowseRequest::Subscribe { url: "https://h/feed".to_owned() };
    assert_eq!(press(&mut browser, KeyCode::Enter), request(subscribe()));
    let notice = browser.notice.as_ref().expect("told");
    assert_eq!((notice.text.as_str(), notice.kind), ("Subscribing…", NoticeKind::Working));
    for c in ['a', 'r', 'R', 'd'] {
        assert_eq!(letter(&mut browser, c), vec![], "one is under way");
    }
    assert_eq!((&browser.prompt, &browser.confirm), (&None, &None));
    let other = BrowseRequest::Refresh { slug: None };
    let outcome = || Ok("Subscribed".to_owned());
    assert_eq!(browser.apply(BrowseResult::Mutation { request: other, outcome: outcome() }), None);
    assert!(browser.pending.is_some(), "the answer to another change");
    let answer = BrowseResult::Mutation { request: subscribe(), outcome: outcome() };
    assert_eq!(browser.apply(answer), Some(BrowseRequest::Feeds));
    assert!(browser.loading && browser.pending.is_none());
    let notice = browser.notice.as_ref().expect("told");
    assert_eq!((notice.text.as_str(), notice.kind), ("Subscribed", NoticeKind::Done));
}

#[test]
fn a_prompt_is_left_without_effect() {
    let mut browser = feeds();
    letter(&mut browser, 'a');
    assert_eq!(press(&mut browser, KeyCode::Enter), vec![], "nothing was typed");
    assert_eq!(browser.prompt, None);
    letter(&mut browser, 'a');
    letter(&mut browser, 'x');
    assert_eq!(press(&mut browser, KeyCode::Esc), vec![]);
    assert_eq!(browser.prompt, None);
    assert_eq!(press(&mut browser, KeyCode::Esc), vec![BrowserEffect::Close]);
    assert_eq!(letter(&mut browser, 'b'), vec![BrowserEffect::Close]);
}

#[test]
fn a_feed_is_refreshed_and_removed() {
    let mut browser = feeds();
    press(&mut browser, KeyCode::Down);
    let refresh = BrowseRequest::Refresh { slug: Some("two".to_owned()) };
    assert_eq!(letter(&mut browser, 'r'), request(refresh));
    let mut browser = feeds();
    assert_eq!(letter(&mut browser, 'R'), request(BrowseRequest::Refresh { slug: None }));
    let mut browser = episodes();
    letter(&mut browser, 'd');
    assert_eq!(browser.confirm.as_deref(), Some("one"));
    assert_eq!(letter(&mut browser, 'n'), vec![]);
    assert_eq!(browser.confirm, None);
    letter(&mut browser, 'd');
    let remove = || BrowseRequest::Unsubscribe { slug: "one".to_owned() };
    assert_eq!(letter(&mut browser, 'y'), request(remove()));
    let answer = BrowseResult::Mutation { request: remove(), outcome: Err("stale".to_owned()) };
    assert_eq!(browser.apply(answer), Some(BrowseRequest::Feeds));
    assert!(browser.episodes.is_none(), "the episodes of a feed that is gone are left");
    assert_eq!(browser.notice.as_ref().map(|notice| notice.kind), Some(NoticeKind::Failed));
}

#[test]
fn stations_are_queued_and_managed() {
    let mut browser = radio();
    assert_eq!(
        press(&mut browser, KeyCode::Enter),
        vec![BrowserEffect::Enqueue {
            dest: dest(),
            items: vec![EnqueueItem::Station {
                url: "https://radio.example/jazz".to_owned(),
                title: "Jazz FM".to_owned(),
            }],
        }]
    );
    press(&mut browser, KeyCode::Down);
    assert_eq!(
        press(&mut browser, KeyCode::Enter),
        vec![BrowserEffect::Enqueue {
            dest: dest(),
            items: vec![EnqueueItem::Station {
                url: "https://radio.example/talk".to_owned(),
                title: "talk".to_owned(),
            }],
        }]
    );
    assert_eq!(letter(&mut browser, 'R'), vec![], "there is no such change here");
    letter(&mut browser, 'd');
    let remove = BrowseRequest::RemoveStation { slug: "talk".to_owned() };
    assert_eq!(letter(&mut browser, 'y'), request(remove));
    let mut browser = radio();
    let reprobe = || BrowseRequest::ReprobeStation { slug: "jazz".to_owned() };
    assert_eq!(letter(&mut browser, 'r'), request(reprobe()));
    let answer = BrowseResult::Mutation { request: reprobe(), outcome: Ok(String::new()) };
    assert_eq!(browser.apply(answer), Some(BrowseRequest::Stations));
    let mut browser = radio();
    letter(&mut browser, 'a');
    letter(&mut browser, 'x');
    let add = BrowseRequest::AddStation { url: "x".to_owned() };
    assert_eq!(press(&mut browser, KeyCode::Enter), request(add));
    let mut browser = radio();
    assert_eq!(
        press(&mut browser, KeyCode::BackTab),
        request(BrowseRequest::Directory("/music".to_owned()))
    );
}

#[test]
fn a_chord_does_nothing_here_either() {
    let mut browser = files();
    for c in ['a', 'b', ' '] {
        let chord =
            KeyEvent { code: KeyCode::Char(c), kind: KeyKind::Press, control: true, alt: false };
        assert_eq!(browser.handle_key(chord), vec![]);
    }
    let release =
        KeyEvent { code: KeyCode::Esc, kind: KeyKind::Release, control: false, alt: false };
    assert_eq!(browser.handle_key(release), vec![]);
    assert!(browser.marked.is_empty());
}

#[test]
fn the_directory_above_is_found() {
    for (path, above) in [
        ("/a/b", Some("/a")),
        ("/a/b/", Some("/a")),
        ("/a//b", Some("/a")),
        ("/a/./b/.", Some("/a")),
        ("/a", Some("/")),
        ("//a", Some("/")),
        ("/", None),
        ("/.", None),
        ("", None),
        ("a", Some("")),
        ("a/b", Some("a")),
        ("/a/..", Some("/a")),
    ] {
        assert_eq!(parent(path).as_deref(), above, "{path}");
        let found = std::path::Path::new(path).parent().and_then(|found| found.to_str());
        assert_eq!(found, above, "{path}");
    }
}

#[test]
fn paths_are_compared_by_their_names() {
    let paths = ["/a/b", "/a//b/", "/a/./b", "/a/b/.", "a/b", "./a/b", "/a", "/", "//", "", ".", ".."];
    for a in paths {
        for b in paths {
            let same = std::path::Path::new(a) == std::path::Path::new(b);
            assert_eq!(same_path(a, b), same, "{a:?} {b:?}");
        }
    }
}

#[test]
fn a_row_says_what_it_is() {
    let cells = |browser: &BrowserState, index| {
        let cells = row_cells(browser, index).expect("a row");
        (cells.label, cells.detail, cells.tone)
    };
    let browser = files();
    assert_eq!(cells(&browser, 0), ("albums/".to_owned(), None, Tone::Directory));
    assert_eq!(cells(&browser, 1), ("a.flac".to_owned(), None, Tone::Plain));
    assert_eq!(cells(&browser, 3), ("notes.txt".to_owned(), None, Tone::Muted));
    assert_eq!(row_cells(&browser, 4), None);
    let browser = feeds();
    assert_eq!(cells(&browser, 0), ("One".to_owned(), Some("2 episodes".to_owned()), Tone::Plain));
    assert_eq!(
        cells(&browser, 1),
        ("two".to_owned(), Some("not refreshed".to_owned()), Tone::Plain)
    );
    let browser = episodes();
    assert_eq!(cells(&browser, 0), ("new".to_owned(), Some("(01:02)".to_owned()), Tone::Plain));
    assert_eq!(cells(&browser, 3).2, Tone::Faint);
    let browser = radio();
    assert_eq!(
        cells(&browser, 0),
        ("jazz".to_owned(), Some("Jazz · 128 kbps".to_owned()), Tone::Plain)
    );
    assert_eq!(cells(&browser, 1).0, "https://radio.example/talk");
    assert_eq!(cells(&browser, 1).2, Tone::Muted);
}

#[test]
fn a_hostile_name_is_spelled_out_and_a_long_genre_cut() {
    let mut browser = files();
    browser.entries[0].name = "a\u{1b}[2J".to_owned();
    assert_eq!(row_cells(&browser, 0).expect("a row").label, "a\\u{1b}[2J/");
    let mut browser = radio();
    browser.stations[0].identity = identity(None, Some(&"長".repeat(40)), None);
    let cells = row_cells(&browser, 0).expect("a row");
    let detail = cells.detail.expect("a genre");
    let columns = 2 * (detail.chars().count() - 1) + 1;
    assert!(detail.ends_with('…') && columns <= usize::from(cells.detail_columns), "{detail}");
    browser.stations[0].identity = identity(Some("x"), None, None);
    assert_eq!(row_cells(&browser, 0).expect("a row").detail, None);
}

#[test]
fn the_heading_names_the_place() {
    assert_eq!(location(&files()), "/music");
    assert_eq!(location(&feeds()), "Subscriptions");
    assert_eq!(location(&episodes()), "Subscriptions › One");
    assert_eq!(location(&radio()), "Radio");
    assert_eq!(list_notice(&files()), None);
}

#[test]
fn a_message_takes_lines_above_the_rows() {
    let mut browser = feeds();
    assert_eq!(notice_lines(&browser), None);
    letter(&mut browser, 'd');
    let (lines, _) = notice_lines(&browser).expect("a question");
    assert_eq!(lines.len(), 1);
    assert!(lines[0].contains("one"), "{lines:?}");
    letter(&mut browser, 'n');
    letter(&mut browser, 'r');
    let refresh = BrowseRequest::Refresh { slug: Some("one".to_owned()) };
    let outcome = Err("first\nsecond\u{7}".to_owned());
    browser.apply(BrowseResult::Mutation { request: refresh, outcome });
    let (lines, tone) = notice_lines(&browser).expect("an outcome");
    assert_eq!(lines, vec!["first", "second\\u{7}"]);
    assert_eq!(tone, Tone::Warning);
    assert_eq!(displayable_lines("a\r\nb\n"), vec!["a", "b"]);
}

#[test]
fn the_block_leaves_rows_for_the_list() {
    let area = Rect { x: 2, y: 3, width: 40, height: 10 };
    let block = place_notice(area, 2);
    assert_eq!((block.shown, block.hidden), (2, 0));
    assert_eq!(block.rest, Rect { y: 5, height: 8, ..area });
    let cut = place_notice(area, 9);
    assert_eq!((cut.shown, cut.hidden), (2, 7), "the marker takes the last of a third");
    assert_eq!(cut.rest, Rect { y: 6, height: 7, ..area });
    let tiny = place_notice(Rect { height: 2, ..area }, 4);
    assert_eq!((tiny.shown, tiny.hidden, tiny.rest.height), (1, 3, 0));
    assert_eq!(hidden_marker(3), "+3 more lines, see log");
    assert_eq!(
        list_area(area),
        Rect { x: 2, y: 5, width: 40, height: 7 },
        "between the heading and the hints"
    );
    assert_eq!(list_area(Rect { height: 3, ..area }).height, 1, "no hints in so few rows");
    let wide = list_columns(Rect { height: 1, width: 42, ..area }, true, 12);
    assert_eq!(wide.detail.map(|detail| detail.width), Some(12));
    assert_eq!(wide.label.width, 27, "a column stands between them");
    assert_eq!(list_columns(Rect { height: 1, width: 42, ..area }, false, 12).detail, None);
    assert_eq!(list_columns(Rect { height: 1, width: 41, ..area }, true, 12).detail, None);
    assert_eq!(files().tab, BrowserTab::Files);
}
