use tenuto::clock::{Duration, WallTime};
use tenuto::json::{Field, Json};
use tenuto::media::{AbsolutePath, EpisodeKey, FeedId, MediaId, NormalizedUrl, Url};
use tenuto::persistence::file::RawState;
use tenuto::persistence::model::{PersistedCheckpoint, PersistedState, Slot, SCHEMA_VERSION};
use tenuto::persistence::queue_codec::{
    decode_entries, encode, encode_playlists, ActiveProblem, PlaylistProblem, QueueProblem,
    QueueReset,
};
use tenuto::persistence::recovery::{
    migrate_queue, recover_playlists, recover_queue, RawPlaylists, Recovered,
};
use tenuto::persistence::store::{
    after_attempt, backed_up, begin_load, candidate_name, decode_state, quarantined, snapshot_of,
    Aside, Attempt, FaultCategory, LoadReason, LoadStep, NextAttempt, ParseFault, PersistenceError,
    QueueBackup, StateRead, MAX_QUARANTINE_CANDIDATES,
};
use tenuto::playback::{PositionProvenance, FULL_GAIN};
use tenuto::playlist::PlaylistId;
use tenuto::queue::{
    DisplayDuration, DisplayMetadata, DurationSource, NewQueueEntry, Queue, QueueEntryId,
    QueueSource, MAX_PLAYLIST_ENTRIES,
};

fn text(text: &str) -> Json {
    Json::Text(text.to_owned())
}

fn number(value: u64) -> Json {
    Json::Number(value)
}

fn object(fields: Vec<(&str, Json)>) -> Json {
    Json::Object(
        fields
            .into_iter()
            .map(|(name, value)| Field { name: name.to_owned(), value })
            .collect(),
    )
}

fn local(name: &str) -> MediaId {
    MediaId::LocalFile(AbsolutePath::new(format!("/music/{name}.flac")).expect("absolute"))
}

/// A stored entry for a local file.
fn entry(id: u64, name: &str) -> Json {
    object(vec![
        ("id", number(id)),
        ("media", text(&format!("file:/music/{name}.flac"))),
        (
            "source",
            object(vec![
                ("kind", text("local")),
                ("path", text(&format!("/music/{name}.flac"))),
            ]),
        ),
    ])
}

fn entries(of: Vec<(u64, &str)>) -> Json {
    Json::Array(of.into_iter().map(|(id, name)| entry(id, name)).collect())
}

fn playlist(fields: Vec<(&str, Json)>) -> Json {
    object(fields)
}

fn recover(
    playlists: Option<Json>,
    playing: Option<Json>,
    counters: (Option<Json>, Option<Json>),
    current_media: Option<MediaId>,
) -> Recovered {
    recover_playlists(
        RawPlaylists {
            playlists: playlists.as_ref(),
            playing: playing.as_ref(),
            next_entry_id: counters.0.as_ref(),
            next_playlist_id: counters.1.as_ref(),
        },
        current_media,
    )
}

fn ids(recovered: &Recovered, at: usize) -> Vec<u64> {
    recovered.playlists[at].queue().ids().iter().map(|id| id.get()).collect()
}

fn problem(problem: PlaylistProblem) -> Option<QueueReset> {
    Some(QueueReset::Playlists(problem))
}

#[test]
fn sound_playlists_are_taken_as_they_are() {
    let recovered = recover(
        Some(Json::Array(vec![
            playlist(vec![
                ("id", number(3)),
                ("name", text("  Morning ")),
                ("entries", entries(vec![(5, "a"), (6, "b")])),
                ("active_entry", number(6)),
                ("shuffle", object(vec![("seed", number(9)), ("first", number(6))])),
            ]),
            playlist(vec![("id", number(4)), ("name", text("  "))]),
        ])),
        Some(number(3)),
        (Some(number(2)), Some(number(1))),
        Some(local("b")),
    );
    assert_eq!(recovered.reset, None);
    assert_eq!(recovered.playing, PlaylistId::from_raw(3));
    assert_eq!(recovered.current_media, Some(local("b")));
    assert_eq!(ids(&recovered, 0), vec![5, 6]);
    assert_eq!(recovered.playlists[0].name(), "Morning");
    assert_eq!(
        recovered.playlists[0].queue().active(),
        Some(QueueEntryId::from_raw(6))
    );
    let shuffle = recovered.playlists[0].shuffle().expect("shuffled");
    assert_eq!((shuffle.seed, shuffle.first), (9, Some(QueueEntryId::from_raw(6))));
    assert_eq!(recovered.playlists[1].name(), "Playlist 4", "a blank name is replaced");
    assert!(recovered.playlists[1].queue().is_empty());
    assert_eq!(recovered.entry_ids.next(), Some(7), "past every number in the file");
    assert_eq!(recovered.playlist_ids.next(), Some(5));
}

#[test]
fn a_file_without_playlists_gets_a_default_one() {
    for (stored, reset) in [
        (None, None),
        (Some(Json::Null), None),
        (Some(text("junk")), problem(PlaylistProblem::Malformed)),
        (Some(Json::Array(Vec::new())), None),
    ] {
        let recovered = recover(stored, None, (Some(number(40)), Some(number(7))), None);
        assert_eq!(recovered.reset, reset);
        assert_eq!(recovered.playlists.len(), 1);
        assert_eq!(recovered.playlists[0].name(), "Default");
        assert_eq!(recovered.playing, PlaylistId::from_raw(7), "a number never used before");
        assert_eq!(recovered.playlist_ids.next(), Some(8));
        assert_eq!(recovered.entry_ids.next(), Some(40));
    }
    let recovered = recover(None, None, (None, Some(Json::Null)), None);
    assert_eq!(recovered.playing, PlaylistId::from_raw(1), "with no number left");
    assert_eq!(recovered.playlist_ids.next(), None, "and none comes back");
    assert_eq!(recovered.entry_ids.next(), Some(1));
}

#[test]
fn a_repeated_number_is_replaced() {
    let recovered = recover(
        Some(Json::Array(vec![
            playlist(vec![("id", number(1)), ("entries", entries(vec![(1, "a")]))]),
            playlist(vec![
                ("id", number(1)),
                ("entries", entries(vec![(1, "b"), (2, "c")])),
                ("active_entry", number(1)),
            ]),
            playlist(vec![("id", number(9))]),
        ])),
        Some(number(1)),
        (None, None),
        None,
    );
    assert_eq!(recovered.reset, problem(PlaylistProblem::DuplicatePlaylistId));
    let playlist_ids: Vec<u64> = recovered.playlists.iter().map(|p| p.id().get()).collect();
    assert_eq!(playlist_ids, vec![1, 10, 9], "past the number that comes later");
    assert_eq!(ids(&recovered, 0), vec![1]);
    assert_eq!(ids(&recovered, 1), vec![3, 2]);
    assert_eq!(recovered.playlists[1].queue().active(), None, "the cursor named another entry");
}

#[test]
fn an_entry_number_shared_by_two_playlists_is_reported() {
    let recovered = recover(
        Some(Json::Array(vec![
            playlist(vec![("id", number(1)), ("entries", entries(vec![(1, "a")]))]),
            playlist(vec![("id", number(2)), ("entries", entries(vec![(1, "b")]))]),
        ])),
        Some(number(1)),
        (None, None),
        None,
    );
    assert_eq!(recovered.reset, problem(PlaylistProblem::DuplicateEntryId));
    assert_eq!(ids(&recovered, 1), vec![2]);
}

#[test]
fn with_no_number_left_what_conflicts_is_dropped() {
    let recovered = recover(
        Some(Json::Array(vec![
            playlist(vec![("id", number(1)), ("entries", entries(vec![(1, "a")]))]),
            playlist(vec![("id", number(1)), ("entries", entries(vec![(2, "b")]))]),
            playlist(vec![("id", number(2)), ("entries", entries(vec![(1, "c")]))]),
        ])),
        Some(number(1)),
        (Some(Json::Null), Some(Json::Null)),
        None,
    );
    assert_eq!(recovered.reset, problem(PlaylistProblem::IdsExhausted));
    assert_eq!(recovered.playlists.len(), 2);
    assert!(recovered.playlists[1].queue().is_empty());
}

#[test]
fn too_many_playlists_are_cut_and_their_numbers_still_count() {
    let stored = (1..=40).map(|id| playlist(vec![("id", number(id))])).collect();
    let recovered = recover(Some(Json::Array(stored)), Some(number(40)), (None, None), None);
    assert_eq!(recovered.reset, problem(PlaylistProblem::TooManyPlaylists { found: 40 }));
    assert_eq!(recovered.playlists.len(), 32);
    assert_eq!(recovered.playing, PlaylistId::from_raw(1), "the one named was cut");
    assert_eq!(recovered.playlist_ids.next(), Some(41));
}

#[test]
fn the_cap_is_shared_by_all_playlists() {
    let many = MAX_PLAYLIST_ENTRIES as u64;
    let first = (1..=many).map(|id| entry(id, &id.to_string())).collect();
    let recovered = recover(
        Some(Json::Array(vec![
            playlist(vec![("id", number(1)), ("entries", Json::Array(first))]),
            playlist(vec![
                ("id", number(2)),
                ("entries", entries(vec![(many + 1, "x"), (many + 2, "y")])),
                ("active_entry", number(many + 1)),
            ]),
        ])),
        Some(number(1)),
        (None, None),
        None,
    );
    assert_eq!(
        recovered.reset,
        problem(PlaylistProblem::OverCapacity { found: MAX_PLAYLIST_ENTRIES + 2 }),
        "and not the cursor that went with it"
    );
    assert!(recovered.playlists[1].queue().is_empty());
    assert_eq!(recovered.entry_ids.next(), Some(many + 3));
}

#[test]
fn a_cursor_that_names_nothing_is_dropped() {
    for cursor in [number(9), text("junk")] {
        let recovered = recover(
            Some(Json::Array(vec![playlist(vec![
                ("id", number(1)),
                ("entries", entries(vec![(1, "a")])),
                ("active_entry", cursor),
            ])])),
            Some(number(1)),
            (None, None),
            None,
        );
        assert_eq!(
            recovered.reset,
            Some(QueueReset::ActiveReference(ActiveProblem::Dangling))
        );
        assert_eq!(recovered.playlists[0].queue().active(), None);
    }
}

#[test]
fn the_playing_cursor_must_be_the_current_media() {
    let stored = || {
        Some(Json::Array(vec![playlist(vec![
            ("id", number(1)),
            ("entries", entries(vec![(1, "a")])),
            ("active_entry", number(1)),
        ])]))
    };
    let recovered = recover(stored(), Some(number(1)), (None, None), Some(local("other")));
    assert_eq!(
        recovered.reset,
        Some(QueueReset::ActiveReference(ActiveProblem::MediaMismatch))
    );
    assert_eq!(recovered.playlists[0].queue().active(), None);
    assert_eq!(recovered.current_media, Some(local("other")), "the history stands");

    let recovered = recover(stored(), Some(number(5)), (None, None), Some(local("other")));
    assert_eq!(recovered.reset, problem(PlaylistProblem::DanglingPlaying));
    assert_eq!(recovered.playing, PlaylistId::from_raw(1));
    assert_eq!(
        recovered.current_media,
        Some(local("a")),
        "a playlist taken instead brings its media"
    );
    assert_eq!(
        recovered.playlists[0].queue().active(),
        Some(QueueEntryId::from_raw(1))
    );
}

#[test]
fn a_shuffle_is_damaged_only_where_it_holds_no_number() {
    let shuffled = |shuffle: Json| {
        recover(
            Some(Json::Array(vec![playlist(vec![
                ("id", number(1)),
                ("entries", entries(vec![(1, "a")])),
                ("shuffle", shuffle),
            ])])),
            Some(number(1)),
            (None, None),
            None,
        )
    };
    let gone = shuffled(object(vec![("seed", number(3)), ("first", number(8))]));
    assert_eq!(gone.reset, None, "an entry may have been removed");
    assert_eq!(gone.playlists[0].shuffle().map(|s| (s.seed, s.first)), Some((3, None)));
    let first = shuffled(object(vec![("seed", number(3)), ("first", text("x"))]));
    assert_eq!(first.reset, problem(PlaylistProblem::Shuffle));
    assert_eq!(first.playlists[0].shuffle().map(|s| (s.seed, s.first)), Some((3, None)));
    let seed = shuffled(object(vec![("seed", text("x"))]));
    assert_eq!(seed.reset, problem(PlaylistProblem::Shuffle));
    assert!(seed.playlists[0].shuffle().is_none());
    let absent = shuffled(Json::Null);
    assert_eq!(absent.reset, None);
    assert!(absent.playlists[0].shuffle().is_none());
}

#[test]
fn damaged_entries_cost_their_own_playlist_only() {
    let recovered = recover(
        Some(Json::Array(vec![
            playlist(vec![("id", number(1)), ("entries", text("junk"))]),
            playlist(vec![
                ("id", number(2)),
                ("entries", entries(vec![(1, "a"), (1, "b")])),
            ]),
            playlist(vec![("id", number(3)), ("entries", entries(vec![(2, "c")]))]),
        ])),
        Some(number(3)),
        (None, None),
        None,
    );
    assert_eq!(
        recovered.reset,
        Some(QueueReset::WholeQueue(QueueProblem::Malformed)),
        "the first problem is the one reported"
    );
    assert!(recovered.playlists[0].queue().is_empty());
    assert!(recovered.playlists[1].queue().is_empty());
    assert_eq!(ids(&recovered, 2), vec![2]);
}

fn reset_of(queue: Option<Json>, active: Option<Json>, current: Option<MediaId>) -> (Queue, Option<QueueReset>) {
    recover_queue(queue.as_ref(), active.as_ref(), current.as_ref())
}

#[test]
fn one_queue_is_recovered_part_by_part() {
    let (queue, reset) = reset_of(
        Some(entries(vec![(1, "a"), (2, "b")])),
        Some(number(2)),
        Some(local("b")),
    );
    assert_eq!(reset, None);
    assert_eq!(queue.active(), Some(QueueEntryId::from_raw(2)));

    let active = |problem| Some(QueueReset::ActiveReference(problem));
    for (cursor, current, expected) in [
        (text("x"), Some(local("b")), active(ActiveProblem::Malformed)),
        (number(9), Some(local("b")), active(ActiveProblem::Dangling)),
        (number(2), Some(local("a")), active(ActiveProblem::MediaMismatch)),
        (number(2), None, active(ActiveProblem::MediaMismatch)),
        (Json::Null, None, None),
    ] {
        let (queue, reset) =
            reset_of(Some(entries(vec![(1, "a"), (2, "b")])), Some(cursor), current);
        assert_eq!(reset, expected);
        assert_eq!(queue.len(), 2, "the entries stand");
        assert_eq!(queue.active(), None);
    }

    let whole = |problem| Some(QueueReset::WholeQueue(problem));
    let many = (1..=MAX_PLAYLIST_ENTRIES as u64 + 1).map(|id| entry(id, "x")).collect();
    for (stored, expected) in [
        (Json::Bool(true), whole(QueueProblem::Malformed)),
        (Json::Array(vec![Json::Null]), whole(QueueProblem::Malformed)),
        (entries(vec![(1, "a"), (1, "b")]), whole(QueueProblem::DuplicateIds)),
        (
            Json::Array(many),
            whole(QueueProblem::OverCapacity { found: MAX_PLAYLIST_ENTRIES + 1 }),
        ),
        (Json::Null, None),
    ] {
        let (queue, reset) = reset_of(Some(stored), None, None);
        assert_eq!(reset, expected);
        assert!(queue.is_empty());
    }
}

#[test]
fn an_entry_must_hold_together() {
    let read = |media: &str, source: Json| {
        decode_entries(&vec![object(vec![
            ("id", number(1)),
            ("media", text(media)),
            ("source", source),
        ])])
        .map(|entries| entries.len())
    };
    let path = |path: &str| object(vec![("kind", text("local")), ("path", text(path))]);
    let remote = |url: &str| object(vec![("kind", text("remote")), ("url", text(url))]);
    let podcast =
        |url: &str| object(vec![("kind", text("podcast")), ("fallback_url", text(url))]);
    let episode = "podcast:0123456789abcdef0123456789abcdef:guid";
    assert_eq!(read("file:/a", path("/a")), Ok(1));
    assert_eq!(read("file:/a", path("/b")), Err(QueueProblem::SourceMismatch));
    assert_eq!(read("file:/a", path("a")), Err(QueueProblem::Malformed));
    assert_eq!(read("file:a", path("/a")), Err(QueueProblem::Malformed));
    assert_eq!(read("url:http://h/x", remote("HTTP://h/x")), Ok(1), "one address");
    assert_eq!(read("url:http://h/x", remote("ftp://h/x")), Err(QueueProblem::Malformed));
    assert_eq!(read("url:http://h/x", remote("http://h/y")), Err(QueueProblem::SourceMismatch));
    assert_eq!(read(episode, podcast("https://cdn/e.mp3")), Ok(1));
    assert_eq!(read(episode, podcast("not a url")), Err(QueueProblem::Malformed));
    assert_eq!(read(episode, path("/a")), Err(QueueProblem::SourceMismatch));
    assert_eq!(
        read("file:/a", object(vec![("kind", text("tape"))])),
        Err(QueueProblem::Malformed)
    );
}

/// A state that holds something of everything.
fn full_state() -> PersistedState {
    let mut state = PersistedState::default();
    let first = state.playing();
    let second = state.create_playlist("Second").expect("room");
    let path = AbsolutePath::new("/music/a.flac".to_owned()).expect("absolute");
    let url = NormalizedUrl::parse("https://example.org/live").expect("web address");
    let feed = FeedId::new("0123456789abcdef0123456789abcdef".to_owned()).expect("a feed");
    let episode = EpisodeKey::from_stored("guid".to_owned()).expect("a key");
    let display = |source| DisplayMetadata {
        title: Some("Title".to_owned()),
        artist: None,
        album: Some("Album".to_owned()),
        year: Some("1999".to_owned()),
        duration: Some(DisplayDuration { value: Duration::from_millis(61_250), source }),
    };
    let batch = vec![
        NewQueueEntry::new(
            MediaId::LocalFile(path.clone()),
            QueueSource::LocalFile(path),
            display(DurationSource::Decoded(PositionProvenance::Established)),
        )
        .expect("matches"),
        NewQueueEntry::new(
            MediaId::RemoteUrl(url.clone()),
            QueueSource::RemoteUrl(url),
            display(DurationSource::Decoded(PositionProvenance::Estimated)),
        )
        .expect("matches"),
    ];
    let made = state.enqueue(first, batch).expect("fits");
    let fallback = Url::parse("https://cdn.example.org/e.mp3").expect("an address");
    state
        .enqueue(
            second,
            vec![NewQueueEntry::new(
                MediaId::PodcastEpisode { feed, episode },
                QueueSource::Podcast { fallback },
                display(DurationSource::Declared),
            )
            .expect("matches")],
        )
        .expect("fits");
    state.activate(Some(made[0]));
    state.set_current_media(local("a"));
    state.set_shuffle(second, Some(77)).expect("there");
    state
}

/// The parts of a file that `state` writes, as a parser hands them back.
fn written(state: &PersistedState) -> RawState {
    let file = state.to_file();
    RawState {
        schema_version: file.schema_version,
        current_media: file.current_media,
        volume: file.volume,
        checkpoints: file.checkpoints,
        queue: None,
        active_entry: None,
        playlists: Some(file.playlists),
        playing: Some(number(file.playing)),
        next_entry_id: Some(file.next_entry_id.map_or(Json::Null, Json::Number)),
        next_playlist_id: Some(file.next_playlist_id.map_or(Json::Null, Json::Number)),
    }
}

#[test]
fn what_is_written_reads_back() {
    let state = full_state();
    let (again, reset) = written(&state).into_state(true);
    assert_eq!(reset, None);
    assert_eq!(again, state);
    let (bare, reset) = written(&state).into_state(false);
    assert_eq!(reset, None);
    assert_eq!(bare.total_entries(), 0, "a queue that is not wanted is left out");
    assert_eq!(bare.current_media(), state.current_media());
}

#[test]
fn entries_are_written_in_order_with_their_parts() {
    let state = full_state();
    let dtos = encode(state.queue());
    assert_eq!(dtos.len(), 2);
    let value = dtos[0].to_json();
    assert_eq!(value.field("id"), Some(&number(1)));
    assert_eq!(value.field("media"), Some(&text("file:/music/a.flac")));
    let source = value.field("source").expect("a source");
    assert_eq!(source.field("kind"), Some(&text("local")));
    assert_eq!(source.field("path"), Some(&text("/music/a.flac")));
    let display = value.field("display").expect("what is shown");
    assert_eq!(display.field("title"), Some(&text("Title")));
    assert_eq!(display.field("artist"), Some(&Json::Null));
    assert_eq!(display.field("duration_ms"), Some(&number(61_250)));
    assert_eq!(display.field("duration_source"), Some(&text("decoded")));
    let value = dtos[1].to_json();
    let display = value.field("display").expect("what is shown");
    assert_eq!(display.field("duration_source"), Some(&text("decoded_estimated")));
    let lists = encode_playlists(state.playlists());
    assert_eq!(lists.len(), 2);
    let value = lists[1].to_json();
    assert_eq!(value.field("name"), Some(&text("Second")));
    assert_eq!(
        value.field("shuffle").and_then(|shuffle| shuffle.field("seed")),
        Some(&number(77))
    );
    assert_eq!(value.field("active_entry"), Some(&Json::Null));
}

#[test]
fn an_older_file_is_brought_forward() {
    let raw = |schema_version| RawState {
        schema_version,
        current_media: Some(local("b")),
        volume: FULL_GAIN,
        checkpoints: vec![Slot {
            media: local("b"),
            checkpoint: PersistedCheckpoint {
                position: Some(Duration::from_secs(5)),
                completed: false,
                touch_seq: 41,
                updated_at: at(),
                estimated: None,
            },
        }],
        queue: Some(entries(vec![(4, "a"), (8, "b")])),
        active_entry: Some(number(8)),
        playlists: None,
        playing: None,
        next_entry_id: None,
        next_playlist_id: None,
    };
    let (state, reset) = decode_state("state.json", Ok(3), Ok(raw(3)), true).expect("supported");
    assert_eq!(reset, None);
    assert_eq!(state.schema_version(), SCHEMA_VERSION);
    assert_eq!(state.playlists().len(), 1);
    assert_eq!(state.playing_playlist().name(), "Default");
    assert_eq!(state.queue().active(), Some(QueueEntryId::from_raw(8)));
    assert_eq!(state.entry_ids().next(), Some(9));
    assert_eq!(state.playlist_ids().next(), Some(2));
    let (state, reset) = decode_state("state.json", Ok(2), Ok(raw(2)), true).expect("supported");
    assert_eq!(reset, None);
    assert!(state.queue().is_empty(), "there was no queue then");
    assert!(state.entry_for(&local("b")).is_some(), "the history is kept");
}

#[test]
fn of_two_checkpoints_for_one_media_the_last_counts() {
    let slot = |media: &str, secs: u64, touch_seq| Slot {
        media: MediaId::parse(media).expect("valid"),
        checkpoint: PersistedCheckpoint {
            position: Some(Duration::from_secs(secs)),
            completed: false,
            touch_seq,
            updated_at: at(),
            estimated: None,
        },
    };
    let mut raw = written(&PersistedState::default());
    raw.checkpoints = vec![
        slot("url:http://h:80/x", 1, 90),
        slot("file:/music/a.flac", 2, 7),
        slot("url:HTTP://h/x", 3, 8),
    ];
    let (state, reset) = raw.into_state(true);
    assert_eq!(reset, None);
    assert_eq!(state.len(), 2);
    let media = MediaId::parse("url:http://h/x").expect("valid");
    let kept = state.entry_for(&media).expect("remembered");
    assert_eq!(kept.position, Some(Duration::from_secs(3)));
    let mut state = state;
    state.record_estimated(media.clone(), Duration::from_secs(4), at(), false);
    assert_eq!(state.entry_for(&media).map(|entry| entry.touch_seq), Some(9));
}

#[test]
fn a_queue_becomes_the_default_playlist() {
    let (queue, _) = reset_of(Some(entries(vec![(3, "a")])), None, None);
    let reset = Some(QueueReset::ActiveReference(ActiveProblem::Dangling));
    let recovered = migrate_queue(queue, Some(local("a")), reset);
    assert_eq!(recovered.reset, reset);
    assert_eq!(recovered.playing, PlaylistId::from_raw(1));
    assert_eq!(recovered.entry_ids.next(), Some(4));
    assert_eq!(recovered.playlist_ids.next(), Some(2));
}

#[test]
fn a_reset_names_what_was_reset() {
    assert_eq!(
        QueueReset::ActiveReference(ActiveProblem::Dangling).fields_reset(),
        "the active queue entry"
    );
    assert_eq!(
        QueueReset::WholeQueue(QueueProblem::Malformed).fields_reset(),
        "the queue and its active entry"
    );
    assert_eq!(
        QueueReset::Playlists(PlaylistProblem::Shuffle).fields_reset(),
        "one or more playlists"
    );
}

fn at() -> WallTime {
    WallTime {
        year: 2026,
        month: 9,
        day: 8,
        hour: 14,
        minute: 3,
        second: 1,
        nanosecond: 0,
        offset_seconds: 0,
    }
}

fn fault(category: FaultCategory) -> ParseFault {
    ParseFault { category, line: 3, column: 14 }
}

#[test]
fn the_version_is_looked_at_before_the_rest() {
    for version in [0, SCHEMA_VERSION + 1, 99] {
        let decoded = decode_state("/s/state.json", Ok(version), Err(fault(FaultCategory::Data)), true);
        assert_eq!(
            decoded.map(|_| ()),
            Err(PersistenceError::UnsupportedVersion {
                path: "/s/state.json".to_owned(),
                found: version,
                supported: SCHEMA_VERSION,
            })
        );
    }
    for (category, name) in [
        (FaultCategory::Io, "io"),
        (FaultCategory::Syntax, "syntax"),
        (FaultCategory::Data, "data"),
        (FaultCategory::Eof, "eof"),
    ] {
        let expected = Err(PersistenceError::Deserialize {
            path: "/s/state.json".to_owned(),
            category: name,
            line: 3,
            column: 14,
        });
        let version = decode_state("/s/state.json", Err(fault(category)), Err(fault(category)), true);
        assert_eq!(version.map(|_| ()), expected);
        let model = decode_state("/s/state.json", Ok(SCHEMA_VERSION), Err(fault(category)), true);
        assert_eq!(model.map(|_| ()), expected);
    }
}

#[test]
fn a_load_says_what_it_did_and_whether_it_may_write() {
    let done = |read| match begin_load(read) {
        LoadStep::Done(outcome) => outcome,
        other => panic!("not done: {other:?}"),
    };
    let loaded = done(StateRead::Decoded(Ok((full_state(), None))));
    assert_eq!((loaded.writable, &loaded.reason), (true, &LoadReason::Loaded));
    assert_eq!(loaded.state, full_state());
    let missing = done(StateRead::Missing);
    assert_eq!((missing.writable, &missing.reason), (true, &LoadReason::Missing));
    let unreadable = done(StateRead::Unreadable);
    assert_eq!((unreadable.writable, &unreadable.reason), (false, &LoadReason::Unreadable));
    let newer = done(StateRead::Decoded(Err(PersistenceError::UnsupportedVersion {
        path: String::new(),
        found: 99,
        supported: SCHEMA_VERSION,
    })));
    assert_eq!(newer.reason, LoadReason::UnsupportedVersion { found: 99 });
    assert!(!newer.writable);
    let garbage = StateRead::Decoded(Err(PersistenceError::Deserialize {
        path: String::new(),
        category: "syntax",
        line: 1,
        column: 1,
    }));
    assert!(matches!(begin_load(garbage), LoadStep::Quarantine));
    let moved = quarantined(Some("/s/aside".to_owned()));
    assert_eq!(moved.reason, LoadReason::Quarantined { moved_to: "/s/aside".to_owned() });
    assert!(moved.writable);
    let stuck = quarantined(None);
    assert_eq!((stuck.writable, &stuck.reason), (false, &LoadReason::QuarantineFailed));
    assert_eq!(stuck.state, PersistedState::default());
}

#[test]
fn a_repaired_state_is_written_only_where_the_original_was_kept() {
    let reset = QueueReset::WholeQueue(QueueProblem::Malformed);
    let (state, reset) = match begin_load(StateRead::Decoded(Ok((full_state(), Some(reset))))) {
        LoadStep::BackUp { state, reset } => (state, reset),
        other => panic!("nothing to keep: {other:?}"),
    };
    let kept = backed_up(state, reset, QueueBackup::Saved("/s/copy".to_owned()));
    assert!(kept.writable);
    assert_eq!(kept.reason, LoadReason::Loaded);
    assert_eq!(kept.queue_repair.expect("repaired").reset, reset);
    let lost = backed_up(full_state(), reset, QueueBackup::Failed);
    assert!(!lost.writable);
    assert_eq!(lost.state, full_state());
}

#[test]
fn names_for_what_is_put_aside() {
    assert_eq!(
        candidate_name(Aside::RejectedState, at(), 1),
        "state.json.rejected-20260908T140301Z"
    );
    assert_eq!(
        candidate_name(Aside::RecoveredQueue, at(), 2),
        "state.json.queue-recovery-20260908T140301Z-2"
    );
    assert_eq!(
        candidate_name(Aside::RejectedStations, at(), 100),
        "stations.json.rejected-20260908T140301Z-100"
    );
    assert_eq!(after_attempt(1, Attempt::Taken), NextAttempt::Try(2));
    assert_eq!(after_attempt(1, Attempt::Done), NextAttempt::Done);
    assert_eq!(after_attempt(1, Attempt::Failed), NextAttempt::GiveUp);
    assert_eq!(
        after_attempt(MAX_QUARANTINE_CANDIDATES, Attempt::Taken),
        NextAttempt::GiveUp
    );
}

#[test]
fn a_listing_reads_without_touching() {
    let shot = snapshot_of("p", StateRead::Missing, String::new()).expect("nothing played yet");
    assert!(shot.entry_for(&local("a")).is_none());
    assert!(!shot.completed_for(&local("a")));
    assert_eq!(
        snapshot_of("p", StateRead::Unreadable, "denied".to_owned()).map(|_| ()),
        Err(PersistenceError::Io { path: "p".to_owned(), op: "read", reason: "denied".to_owned() })
    );
    let reset = QueueReset::WholeQueue(QueueProblem::Malformed);
    let read = StateRead::Decoded(Ok((full_state(), Some(reset))));
    assert!(snapshot_of("p", read, String::new()).is_ok(), "a damaged queue is not its concern");
}
