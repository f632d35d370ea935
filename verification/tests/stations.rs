use tenuto::application::command::EnqueueItem;
use tenuto::application::enrich::{finished, EnrichOutcome, EnrichResult, LocalTags, MetadataWorkers};
use tenuto::cli::{parse_usize, positive_count, positive_index};
use tenuto::clock::{format_hms, stamp, Duration, WallTime};
use tenuto::media::{
    display_name, episode_name, AbsolutePath, EpisodeKey, FeedId, MediaId, MediaIdError,
    NormalizedUrl, Url, LONGEST_STEADY_URL,
};
use tenuto::persistence::store::{FaultCategory, LoadReason, ParseFault};
use tenuto::playback::ResumeCandidate;
use tenuto::resume::resume_candidate;
use tenuto::station::model::{validate_station_slug, StationIdentity};
use tenuto::station::store::{
    begin_load, decode_stations, is_station, logo_for, quarantined, read_snapshot,
    validate_records, DecodeError, StationRecord, StationSnapshot, StationStep, StationsRead,
};
use tenuto::text::{decimal_text, displayable, trim_text};
use tenuto::width::clip;

fn at() -> WallTime {
    WallTime {
        year: 2026,
        month: 1,
        day: 2,
        hour: 3,
        minute: 4,
        second: 5,
        nanosecond: 0,
        offset_seconds: 0,
    }
}

fn record(slug: &str, url: &str, media: &str) -> StationRecord {
    StationRecord {
        slug: slug.to_owned(),
        url: Url::parse(url).expect("an address"),
        media: media.to_owned(),
        identity: None,
        added_at: at(),
        probed_at: None,
    }
}

fn good(slug: &str) -> StationRecord {
    record(slug, "https://radio.example/live", "url:https://radio.example/live")
}

fn malformed(reason: &str) -> Result<(), DecodeError> {
    Err(DecodeError::Malformed(reason.to_owned()))
}

#[test]
fn a_slug_is_lower_case_letters_digits_and_inner_hyphens() {
    for slug in ["a", "7", "jazz-fm", "a--b", &"x".repeat(64)] {
        assert!(validate_station_slug(slug), "{slug}");
    }
    for slug in ["", "-a", "a-", "A", "a b", "ä", &"x".repeat(65)] {
        assert!(!validate_station_slug(slug), "{slug}");
    }
}

#[test]
fn one_bad_record_makes_the_file_malformed() {
    let read = |records| validate_records(records).map(|_| ());
    assert_eq!(read(vec![good("a"), good("b")]), Ok(()), "an address may be saved twice");
    assert_eq!(read(vec![good("a"), good("-b")]), malformed("a slug is not valid"));
    assert_eq!(
        read(vec![good("a"), good("a")]),
        malformed("a slug is used by more than one station")
    );
    assert_eq!(
        read(vec![record("a", "ftp://radio.example/live", "url:https://radio.example/live")]),
        malformed("a url is not http(s)")
    );
    assert_eq!(
        read(vec![record("a", "https://radio.example/live", "radio")]),
        malformed("a media identifier is not valid")
    );
    assert_eq!(
        read(vec![record("a", "https://radio.example/live", "url:https://radio.example/other")]),
        malformed("a media identifier does not match its url")
    );
    assert_eq!(
        read(vec![record("a", "https://radio.example/live", "file:/a")]),
        malformed("a media identifier does not match its url")
    );
}

#[test]
fn a_list_writes_what_it_reads() {
    let stations = validate_records(vec![good("a"), good("b")]).expect("valid");
    let snapshot = StationSnapshot { stations };
    let written = snapshot.to_file().expect("valid");
    assert_eq!(written, vec![good("a"), good("b")]);
    assert_eq!(validate_records(written), Ok(snapshot.stations));
}

#[test]
fn a_list_that_would_not_be_read_is_not_written() {
    let mut stations = validate_records(vec![good("a"), good("b")]).expect("valid");
    stations[1].slug = "a".to_owned();
    let refused = StationSnapshot { stations }.to_file();
    assert_eq!(
        refused.map(|_| ()),
        malformed("a slug is used by more than one station")
    );
}

#[test]
fn the_version_decides_before_the_records() {
    let fault = ParseFault { category: FaultCategory::Data, line: 3, column: 5 };
    let text = "stations file is malformed (data error at line 3, column 5)";
    assert_eq!(
        decode_stations(Ok(2), Err(fault)).map(|_| ()),
        Err(DecodeError::UnsupportedVersion(2))
    );
    assert_eq!(decode_stations(Err(fault), Err(fault)).map(|_| ()), malformed(text));
    assert_eq!(decode_stations(Ok(1), Err(fault)).map(|_| ()), malformed(text));
    let read = decode_stations(Ok(1), Ok(vec![good("a")])).expect("valid");
    assert_eq!(read.stations.len(), 1);
}

#[test]
fn a_station_is_found_by_its_media() {
    let logo = Url::parse("https://radio.example/logo.png").expect("an address");
    let mut named = good("b");
    named.identity = Some(StationIdentity {
        name: Some("Radio".to_owned()),
        genre: None,
        bitrate_kbps: Some(128),
        logo: Some(logo.clone()),
    });
    let media = MediaId::parse("url:https://radio.example/live").expect("valid");
    let other = MediaId::parse("url:https://radio.example/other").expect("valid");
    let list = |records| StationSnapshot { stations: validate_records(records).expect("valid") };
    let with_logo = list(vec![named]);
    assert_eq!(with_logo.logo_for(&media).map(|url| url.as_str().to_owned()), Some(logo.as_str().to_owned()));
    assert_eq!(with_logo.logo_for(&other), None);
    assert!(!with_logo.is_station(&other));
    let bare = list(vec![good("a")]);
    assert_eq!(bare.logo_for(&media), None);
    assert!(bare.is_station(&media), "a station needs no logo");
}

#[test]
fn only_a_list_that_can_be_read_has_stations() {
    let logo = Url::parse("https://radio.example/logo.png").expect("an address");
    let named = || {
        let mut record = good("b");
        record.identity = Some(StationIdentity {
            name: None,
            genre: None,
            bitrate_kbps: None,
            logo: Some(logo.clone()),
        });
        record
    };
    let media = MediaId::parse("url:https://radio.example/live").expect("valid");
    let other = MediaId::parse("url:https://radio.example/other").expect("valid");
    let read = |version, records| StationsRead::Decoded(decode_stations(version, records));
    let fault = ParseFault { category: FaultCategory::Data, line: 3, column: 5 };

    let saved = read(Ok(1), Ok(vec![named()]));
    assert!(is_station(&saved, &media));
    assert!(!is_station(&saved, &other));
    assert_eq!(logo_for(&saved, &media), Some(logo.clone()));
    assert_eq!(logo_for(&saved, &other), None);

    let bare = read(Ok(1), Ok(vec![good("a")]));
    assert!(is_station(&bare, &media), "a station needs no logo");
    assert_eq!(logo_for(&bare, &media), None);

    for without in [
        StationsRead::Missing,
        StationsRead::Unreadable("denied".to_owned()),
        read(Ok(2), Ok(vec![named()])),
        read(Err(fault), Ok(vec![named()])),
        read(Ok(1), Err(fault)),
        read(Ok(1), Ok(vec![named(), named()])),
    ] {
        assert!(!is_station(&without, &media), "{without:?}");
        assert_eq!(logo_for(&without, &media), None, "{without:?}");
    }
}

#[test]
fn what_is_read_of_stations_decides_what_may_be_written() {
    let done = |read| match begin_load(read) {
        StationStep::Done(load) => load,
        other => panic!("not done: {other:?}"),
    };
    let list = || StationSnapshot { stations: validate_records(vec![good("a")]).expect("valid") };
    let loaded = done(StationsRead::Decoded(Ok(list())));
    assert_eq!((loaded.writable, &loaded.reason), (true, &LoadReason::Loaded));
    assert_eq!(loaded.snapshot, list());
    let missing = done(StationsRead::Missing);
    assert_eq!((missing.writable, &missing.reason), (true, &LoadReason::Missing));
    let unreadable = done(StationsRead::Unreadable("denied".to_owned()));
    assert_eq!((unreadable.writable, &unreadable.reason), (false, &LoadReason::Unreadable));
    let newer = done(StationsRead::Decoded(Err(DecodeError::UnsupportedVersion(2))));
    assert_eq!(newer.reason, LoadReason::UnsupportedVersion { found: 2 });
    assert!(!newer.writable);
    let garbage = StationsRead::Decoded(Err(DecodeError::Malformed("x".to_owned())));
    assert!(matches!(begin_load(garbage), StationStep::Quarantine));
    assert!(quarantined(Some("/s/aside".to_owned())).writable);
    assert_eq!(quarantined(None).reason, LoadReason::QuarantineFailed);
}

#[test]
fn a_listing_says_why_it_cannot_be_had() {
    let reason = |read| read_snapshot(read).map(|list| list.stations.len());
    assert_eq!(reason(StationsRead::Missing), Ok(0));
    assert_eq!(
        reason(StationsRead::Unreadable("denied".to_owned())),
        Err("cannot read stations file: denied".to_owned())
    );
    assert_eq!(
        reason(StationsRead::Decoded(Err(DecodeError::Malformed("why".to_owned())))),
        Err("why".to_owned())
    );
    assert_eq!(
        reason(StationsRead::Decoded(Err(DecodeError::UnsupportedVersion(2)))),
        Err("stations file is schema version 2, and this build supports 1".to_owned())
    );
}

#[test]
fn an_identity_is_written_and_read_as_text() {
    for text in [
        "file:/music/a.flac",
        "url:https://example.org/x?y=1",
        "podcast:0123456789abcdef0123456789abcdef:a:b",
    ] {
        assert_eq!(MediaId::parse(text).expect("valid").to_text(), text);
    }
    assert_eq!(
        MediaId::parse("url:HTTPS://Example.ORG:443/a/../b").expect("valid").to_text(),
        "url:https://example.org/b",
        "an address is normalized"
    );
    let refused = |text: &str| MediaId::parse(text).map(|_| ());
    assert_eq!(refused("file:a"), Err(MediaIdError::NotAbsolute));
    assert_eq!(refused("url:ftp://h/x"), Err(MediaIdError::InvalidUrl));
    assert_eq!(refused("url:http://"), Err(MediaIdError::InvalidUrl));
    assert_eq!(refused("podcast:xyz"), Err(MediaIdError::Malformed));
    assert_eq!(
        refused("podcast:0123456789ABCDEF0123456789abcdef:a"),
        Err(MediaIdError::InvalidFeedId)
    );
    assert_eq!(refused("tape:1"), Err(MediaIdError::Malformed));
    assert_eq!(refused(""), Err(MediaIdError::Malformed));
}

#[test]
fn a_web_address_is_read_as_itself() {
    for text in [
        "HTTP://User:@EXAMPLE.org:80/a/./b/../c d?x='1'#f g",
        "https://bücher.example/日本?ü",
        "http://0x7f.1/C:/../x",
        "http://[::FFFF:1.2.3.4]:8080//a//",
    ] {
        let once = NormalizedUrl::parse(text).expect("a web address");
        let again = NormalizedUrl::parse(once.as_str()).expect("a web address");
        assert_eq!(again, once, "{text}");
    }
    let file = Url::parse("file://host//C:/x").expect("an address");
    assert_eq!(file.as_str(), "file://host/C:/x");
    let again = Url::parse(file.as_str()).expect("an address");
    assert_eq!(again.as_str(), "file:///C:/x", "other schemes promise nothing");
}

#[test]
fn a_very_long_host_name_is_encoded_and_not_decoded_again() {
    let host: String = (0..900u32)
        .map(|i| char::from_u32(0x4E00 + (i * 7919) % 20000).expect("a character"))
        .collect();
    let once = NormalizedUrl::parse(&format!("http://{host}/")).expect("a web address");
    assert!(once.as_str().len() > LONGEST_STEADY_URL);
    assert_eq!(
        NormalizedUrl::parse(once.as_str()).map(|_| ()),
        Err(MediaIdError::InvalidUrl)
    );
}

#[test]
fn an_episode_is_known_by_the_first_thing_stated() {
    let key = |guid, link, enclosure| {
        EpisodeKey::resolve(guid, link, enclosure).map(|key| key.as_str().to_owned())
    };
    assert_eq!(key(Some(" g "), Some("l"), Some("e")), Ok("g".to_owned()));
    assert_eq!(key(Some("  "), Some("l"), Some("e")), Ok("l".to_owned()));
    assert_eq!(key(None, None, Some("e")), Ok("e".to_owned()));
    assert_eq!(key(None, Some(""), None), Err(MediaIdError::NoEpisodeKey));
    assert_eq!(FeedId::new("short".to_owned()).map(|_| ()), Err(MediaIdError::InvalidFeedId));
    assert_eq!(NormalizedUrl::parse("mailto:a@b").map(|_| ()), Err(MediaIdError::InvalidUrl));
    assert_eq!(Url::parse("no scheme").map(|_| ()), Err(MediaIdError::InvalidUrl));
}

#[test]
fn a_media_is_called_by_its_name() {
    assert_eq!(display_name(&MediaId::parse("file:/music/a.flac").expect("valid")), "a.flac");
    assert_eq!(
        display_name(&MediaId::parse("url:https://h/x").expect("valid")),
        "https://h/x"
    );
    assert_eq!(episode_name(Some(" Pilot ")), "Pilot");
    assert_eq!(episode_name(Some("  ")), "(untitled)");
    assert_eq!(episode_name(None), "(untitled)");
}

#[test]
fn numbers_on_the_command_line_count_from_one() {
    assert_eq!(positive_index("7"), Ok(7));
    assert_eq!(positive_index("+7"), Ok(7));
    for refused in ["0", "", "+", "-1", "1x", "99999999999999999999999"] {
        assert_eq!(
            positive_index(refused),
            Err("expected a positive episode index: play <path-or-url> or play <slug> <index>"
                .to_owned()),
            "{refused}"
        );
        assert_eq!(positive_count(refused), Err("expected a positive count".to_owned()));
    }
    assert_eq!(positive_count("12"), Ok(12));
    assert_eq!(parse_usize(&decimal_text(12345)), Some(12345));
    assert_eq!(parse_usize(&usize::MAX.to_string()), Some(usize::MAX));
}

#[test]
fn text_that_could_drive_a_terminal_is_spelled_out() {
    assert_eq!(displayable("plain — ünïcode 日本"), "plain — ünïcode 日本");
    assert_eq!(displayable("a\u{1b}[2Jb"), "a\\u{1b}[2Jb");
    assert_eq!(displayable("\n\u{7f}\u{9f}"), "\\u{a}\\u{7f}\\u{9f}");
    assert_eq!(displayable("a\u{202e}b\u{2066}"), "a\\u{202e}b\\u{2066}");
    assert_eq!(displayable(&displayable("\u{0}")), displayable("\u{0}"));
}

#[test]
fn a_text_is_cut_by_columns() {
    assert_eq!(clip("abc", 3), "abc");
    assert_eq!(clip("abcd", 3), "ab…");
    assert_eq!(clip("日本語", 5), "日本…", "each takes two columns");
    assert_eq!(clip("日本語", 4), "日…");
    assert_eq!(clip("日本語", 6), "日本語");
    assert_eq!(clip("e\u{301}e\u{301}e\u{301}", 2), "e\u{301}…", "a mark takes none");
    assert_eq!(clip("abc", 1), "…");
    assert_eq!(clip("abc", 0), "");
    assert_eq!(trim_text(" \u{3000}a b\t"), "a b");
}

#[test]
fn times_are_written_out() {
    assert_eq!(format_hms(Duration::from_secs(3_661)), "01:01:01");
    assert_eq!(format_hms(Duration::from_secs(360_000)), "100:00:00");
    assert_eq!(format_hms(Duration::from_millis(59_999)), "00:00:59");
    assert_eq!(stamp(at()), "20260102T030405Z");
    assert_eq!(Duration::from_secs(3).since(Duration::from_secs(5)), Duration::zero());
    assert_eq!(Duration::from_millis(1_250).as_millis(), 1_250);
}

#[test]
fn a_completed_media_starts_over_only_where_it_is_asked_to() {
    let second = Duration::from_secs(1);
    assert_eq!(
        resume_candidate(Some(second), false),
        Some(ResumeCandidate { position: second, completed: false })
    );
    assert_eq!(resume_candidate(None, false), None);
    assert_eq!(
        resume_candidate(None, true),
        Some(ResumeCandidate { position: Duration::zero(), completed: true })
    );
}

#[test]
fn typed_text_is_an_address_or_a_file() {
    assert_eq!(
        EnqueueItem::from_input("https://h/x"),
        EnqueueItem::Url("https://h/x".to_owned())
    );
    assert_eq!(
        EnqueueItem::from_input("http://h/x"),
        EnqueueItem::Url("http://h/x".to_owned())
    );
    assert_eq!(EnqueueItem::from_input("~/a.mp3"), EnqueueItem::Path("~/a.mp3".to_owned()));
    assert_eq!(EnqueueItem::from_input("ftp://h"), EnqueueItem::Path("ftp://h".to_owned()));
}

fn tags(cover: Option<Vec<u8>>) -> LocalTags {
    LocalTags {
        title: Some("Title".to_owned()),
        artist: None,
        album: None,
        year: None,
        duration: Some(Duration::from_secs(9)),
        front_cover: cover,
    }
}

#[test]
fn a_probe_keeps_no_cover_and_is_dropped_once_cancelled() {
    let mut workers = MetadataWorkers::new();
    let path = AbsolutePath::new("/music/a.flac".to_owned()).expect("absolute");
    let media = MediaId::LocalFile(path.clone());
    let early = workers.request(media.clone(), path.clone());
    let result = finished(early, EnrichOutcome::Tags(tags(Some(vec![1, 2]))));
    assert_eq!(
        result,
        EnrichResult {
            media: media.clone(),
            generation: 0,
            outcome: EnrichOutcome::Tags(tags(None)),
        }
    );
    workers.cancel_all();
    let late = workers.request(media.clone(), path);
    assert!(workers.wants(&late));
    let late = finished(late, EnrichOutcome::Failed("bad".to_owned()));
    let mut results = vec![result, late];
    let found = workers.try_result(&mut results).expect("one is wanted");
    assert_eq!(found.generation, 1);
    assert_eq!(found.outcome, EnrichOutcome::Failed("bad".to_owned()));
    assert!(results.is_empty());
    assert_eq!(workers.try_result(&mut results), None);
}
