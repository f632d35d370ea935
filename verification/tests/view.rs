use tenuto::application::view::{
    entry_plain_title, entry_subtitle, entry_title, format_saved, playlist_tabs, queue_rows,
    saved_history, SavedHistory,
};
use tenuto::clock::{Duration, WallTime};
use tenuto::media::{AbsolutePath, EpisodeKey, FeedId, MediaId, Url};
use tenuto::persistence::model::{PersistedCheckpoint, PersistedState};
use tenuto::playback::PlaybackCheckpoint;
use tenuto::queue::{DisplayMetadata, IdAllocator, NewQueueEntry, Queue, QueueEntry, QueueSource};

fn epoch() -> WallTime {
    WallTime {
        year: 1970,
        month: 1,
        day: 1,
        hour: 0,
        minute: 0,
        second: 0,
        nanosecond: 0,
        offset_seconds: 0,
    }
}

fn checkpoint(
    position: Option<u64>,
    estimated: Option<u64>,
    completed: bool,
) -> PersistedCheckpoint {
    PersistedCheckpoint {
        position: position.map(Duration::from_secs),
        completed,
        touch_seq: 1,
        updated_at: epoch(),
        estimated: estimated.map(Duration::from_secs),
    }
}

#[test]
fn saved_history_labels_follow_completion_then_estimate_then_position() {
    let played = saved_history(Some(&checkpoint(Some(62), Some(70), true)));
    assert_eq!(played, Some(SavedHistory::Played));
    assert_eq!(format_saved(SavedHistory::Played), "played");

    let estimated = saved_history(Some(&checkpoint(Some(10), Some(62), false)));
    assert_eq!(
        estimated,
        Some(SavedHistory::Position {
            at: Duration::from_secs(62),
            estimated: true
        })
    );
    assert_eq!(format_saved(estimated.expect("label")), "~01:02 saved");

    let position = saved_history(Some(&checkpoint(Some(62), None, false)));
    assert_eq!(
        position,
        Some(SavedHistory::Position {
            at: Duration::from_secs(62),
            estimated: false
        })
    );
    assert_eq!(format_saved(position.expect("label")), "01:02 saved");

    let unknown = saved_history(Some(&checkpoint(None, None, false)));
    assert_eq!(unknown, Some(SavedHistory::Unknown));
    assert_eq!(format_saved(SavedHistory::Unknown), "position unknown");

    assert_eq!(saved_history(None), None);
}

#[test]
fn a_title_with_terminal_controls_is_rendered_inert() {
    let path = AbsolutePath::new("/music/evil.flac".into()).expect("absolute");
    let media = MediaId::LocalFile(path.clone());
    let entry = NewQueueEntry::new(
        media.clone(),
        QueueSource::LocalFile(path),
        DisplayMetadata {
            title: Some("evil\u{1b}[2Jtitle".to_owned()),
            artist: Some("bad\u{1b}]0;x\u{7}artist".to_owned()),
            album: Some("live\u{7}album".to_owned()),
            ..DisplayMetadata::default()
        },
    )
    .expect("entry");
    let mut state = PersistedState::default();
    let playing = state.playing();
    state.enqueue(playing, vec![entry]).expect("fits");
    state.record(
        &PlaybackCheckpoint {
            media,
            position: Duration::from_secs(62),
            updated_at: epoch(),
        },
        false,
    );

    let rows = queue_rows(&state, playing);
    assert_eq!(rows.len(), 1);
    assert!(!rows[0].title.contains('\u{1b}'), "{:?}", rows[0].title);
    assert!(rows[0].title.contains("title") && rows[0].title.contains("artist"));
    let subtitle = rows[0].subtitle.as_deref().expect("album");
    assert!(!subtitle.contains('\u{7}'));
    assert_eq!(
        rows[0].saved,
        Some(SavedHistory::Position {
            at: Duration::from_secs(62),
            estimated: false
        })
    );
}

fn local(title: Option<&str>, artist: Option<&str>, album: Option<&str>) -> QueueEntry {
    let path = AbsolutePath::new("/music/file.flac".into())
        .unwrap_or_else(|error| panic!("absolute: {error:?}"));
    let new = NewQueueEntry::new(
        MediaId::LocalFile(path.clone()),
        QueueSource::LocalFile(path),
        DisplayMetadata {
            title: title.map(str::to_owned),
            artist: artist.map(str::to_owned),
            album: album.map(str::to_owned),
            ..DisplayMetadata::default()
        },
    )
    .unwrap_or_else(|error| panic!("valid: {error:?}"));
    let mut queue = Queue::default();
    let ids = queue
        .enqueue(vec![new], &mut IdAllocator::default())
        .unwrap_or_else(|error| panic!("fits: {error:?}"));
    queue
        .get(ids[0])
        .cloned()
        .unwrap_or_else(|| panic!("just enqueued"))
}

fn episode(title: &str, artist: &str, album: &str) -> QueueEntry {
    let feed = FeedId::new("f".repeat(32)).unwrap_or_else(|error| panic!("feed id: {error:?}"));
    let key = EpisodeKey::resolve(Some("guid-1"), None, None)
        .unwrap_or_else(|error| panic!("episode key: {error:?}"));
    let new = NewQueueEntry::new(
        MediaId::PodcastEpisode { feed, episode: key },
        QueueSource::Podcast {
            fallback: Url::parse("https://podcasts.example.org/1.mp3")
                .unwrap_or_else(|error| panic!("url: {error:?}")),
        },
        DisplayMetadata {
            title: Some(title.to_owned()),
            artist: Some(artist.to_owned()),
            album: Some(album.to_owned()),
            ..DisplayMetadata::default()
        },
    )
    .unwrap_or_else(|error| panic!("valid: {error:?}"));
    let mut queue = Queue::default();
    let ids = queue
        .enqueue(vec![new], &mut IdAllocator::default())
        .unwrap_or_else(|error| panic!("fits: {error:?}"));
    queue
        .get(ids[0])
        .cloned()
        .unwrap_or_else(|| panic!("just enqueued"))
}

#[test]
fn a_podcast_row_keeps_its_artist_below_the_episode_name() {
    let entry = episode("Episode 12", "The Hosts", "The Show");
    assert_eq!(entry_title(&entry), "Episode 12");
    assert_eq!(
        entry_subtitle(&entry).as_deref(),
        Some("The Hosts · The Show")
    );
}

#[test]
fn a_track_with_no_title_keeps_its_artist_below_the_file_name() {
    let entry = local(None, Some("Miles Davis"), Some("Kind of Blue"));
    assert_eq!(entry_title(&entry), "file.flac");
    assert_eq!(
        entry_subtitle(&entry).as_deref(),
        Some("Miles Davis · Kind of Blue")
    );
}

#[test]
fn a_tagged_track_reads_artist_dash_title_with_the_album_below() {
    let entry = local(Some("So What"), Some("Miles Davis"), Some("Kind of Blue"));
    assert_eq!(entry_title(&entry), "Miles Davis – So What");
    assert_eq!(entry_subtitle(&entry).as_deref(), Some("Kind of Blue"));
}

#[test]
fn without_an_artist_or_without_a_title_the_row_is_as_before() {
    assert_eq!(entry_title(&local(Some("So What"), None, None)), "So What");
    assert_eq!(
        entry_title(&local(Some("So What"), Some("  "), None)),
        "So What"
    );
    assert_eq!(
        entry_title(&local(None, Some("Miles Davis"), None)),
        "file.flac",
        "no title: the file name, not 'Artist – file.flac'"
    );
    assert_eq!(
        entry_subtitle(&local(None, Some("Miles Davis"), None)).as_deref(),
        Some("Miles Davis"),
        "the title line did not take the artist, so the row keeps it below"
    );
}

#[test]
fn control_characters_in_either_tag_never_reach_the_row() {
    let entry = local(Some("So\u{1b}[31m What"), Some("Miles\u{7}"), None);
    let title = entry_title(&entry);
    assert!(!title.chars().any(char::is_control), "{title:?}");
}

#[test]
fn a_plain_title_has_no_artist_before_it() {
    let entry = local(Some("So What"), Some("Miles Davis"), None);
    assert_eq!(entry_plain_title(&entry), "So What");
    assert_eq!(entry_plain_title(&local(None, None, None)), "file.flac");
}

#[test]
fn tabs_follow_the_playlists() {
    let mut state = PersistedState::default();
    let default = state.playing();
    let morning = state.create_playlist("Mor\u{7}ning").expect("room");
    state.set_shuffle(morning, Some(7)).expect("known");
    let tabs = playlist_tabs(&state);
    assert_eq!(tabs.len(), 2);
    assert_eq!((tabs[0].id, tabs[0].playing, tabs[0].shuffled), (default, true, false));
    assert_eq!((tabs[1].id, tabs[1].playing, tabs[1].shuffled), (morning, false, true));
    assert_eq!(tabs[0].name, "Default");
    assert!(!tabs[1].name.chars().any(char::is_control));
}
