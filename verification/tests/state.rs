use tenuto::clock::{Duration, WallTime};
use tenuto::media::{AbsolutePath, EpisodeKey, FeedId, MediaId, NormalizedUrl};
use tenuto::persistence::model::{
    PersistedCheckpoint, PersistedState, Slot, MAX_ENTRIES, SCHEMA_VERSION,
};
use tenuto::playback::{PlaybackCheckpoint, Volume, FULL_GAIN};
use tenuto::playlist::{Playlist, PlaylistError, PlaylistId, MAX_PLAYLISTS};
use tenuto::queue::{
    DisplayMetadata, IdAllocator, NewQueueEntry, QueueError, QueueSource, MAX_PLAYLIST_ENTRIES,
};

fn epoch() -> WallTime {
    WallTime {
        year: 1970,
        month: 1,
        day: 1,
        hour: 0,
        minute: 0,
        second: 0,
        nanosecond: 0,
        offset_seconds: 0,
    }
}

fn id(name: &str) -> MediaId {
    match AbsolutePath::new(format!("/music/{name}.flac")) {
        Ok(path) => MediaId::LocalFile(path),
        Err(error) => panic!("a literal absolute path must parse: {error:?}"),
    }
}

/// A state with these slots and nothing queued.
fn holding(current_media: Option<MediaId>, checkpoints: Vec<Slot>, next_seq: u64) -> PersistedState {
    let playing = PlaylistId::from_raw(1);
    PersistedState::from_parts(
        SCHEMA_VERSION,
        current_media,
        FULL_GAIN,
        checkpoints,
        vec![Playlist::new(playing, "Default".to_owned())],
        playing,
        next_seq,
        IdAllocator::default(),
        IdAllocator::starting_at(Some(2)),
    )
}

fn slot(media: MediaId, touch_seq: u64) -> Slot {
    Slot {
        media,
        checkpoint: PersistedCheckpoint {
            position: Some(Duration::zero()),
            completed: false,
            touch_seq,
            updated_at: epoch(),
            estimated: None,
        },
    }
}

#[test]
fn evict_one_reports_no_victim_when_the_only_entry_is_current() {
    let only = id("only");
    let mut state = holding(Some(only.clone()), vec![slot(only.clone(), 1)], 2);

    let evicted = state.evict_one(&id("incoming"));

    assert!(!evicted, "the current entry must never be evicted");
    assert_eq!(state.checkpoints().len(), 1, "nothing was removed");
    assert!(state.entry_for(&only).is_some());
}

#[test]
fn the_one_touched_longest_ago_gives_way() {
    let mut slots = vec![slot(id("current"), 1)];
    for at in 1..MAX_ENTRIES {
        slots.push(slot(id(&format!("t{at}")), 1000 - at as u64));
    }
    let mut state = holding(Some(id("current")), slots, 1001);
    state.record(
        &PlaybackCheckpoint {
            media: id("incoming"),
            position: Duration::from_secs(3),
            updated_at: epoch(),
        },
        false,
    );
    assert_eq!(state.len(), MAX_ENTRIES);
    assert!(state.entry_for(&id(&format!("t{}", MAX_ENTRIES - 1))).is_none());
    assert!(state.entry_for(&id("current")).is_some());
    assert_eq!(
        state.entry_for(&id("incoming")).map(|entry| entry.touch_seq),
        Some(1001)
    );
}

#[test]
fn of_several_touched_at_once_the_first_media_gives_way() {
    let slots = vec![slot(id("c"), 5), slot(id("b"), 5), slot(id("a"), 6), slot(id("d"), 5)];
    let mut state = holding(None, slots, 7);
    for gone in ["b", "c", "d", "a"] {
        assert!(state.evict_one(&id("incoming")));
        assert!(state.entry_for(&id(gone)).is_none(), "{gone} gives way");
    }
    assert!(!state.evict_one(&id("incoming")));
}

#[test]
fn media_come_in_the_order_of_kind_and_components() {
    let path = |text: &str| MediaId::LocalFile(AbsolutePath::new(text.to_owned()).expect("a path"));
    let url = |text: &str| MediaId::RemoteUrl(NormalizedUrl::parse(text).expect("a URL"));
    let episode = |feed: char, key: &str| MediaId::PodcastEpisode {
        feed: FeedId::new(feed.to_string().repeat(32)).expect("a feed"),
        episode: EpisodeKey::resolve(Some(key), None, None).expect("a key"),
    };
    let ordered = [
        path("/music"),
        path("/music/a"),
        path("/music/b"),
        path("/music-old/a"),
        url("http://a.example/"),
        url("http://a.example/b"),
        url("https://a.example/"),
        episode('0', "y"),
        episode('1', "x"),
        episode('1', "xy"),
    ];
    for (at, one) in ordered.iter().enumerate() {
        for (other, two) in ordered.iter().enumerate() {
            assert_eq!(one.is_before(two), at < other, "{one:?} and {two:?}");
        }
    }
}

#[test]
fn an_estimate_keeps_the_established_position_and_a_record_drops_the_estimate() {
    let mut state = PersistedState::default();
    let media = id("a");
    state.record(
        &PlaybackCheckpoint {
            media: media.clone(),
            position: Duration::from_secs(40),
            updated_at: epoch(),
        },
        false,
    );
    state.record_estimated(media.clone(), Duration::from_secs(97), epoch(), false);
    let entry = *state.entry_for(&media).expect("recorded");
    assert_eq!(entry.position, Some(Duration::from_secs(40)));
    assert_eq!(entry.estimated, Some(Duration::from_secs(97)));
    state.record(
        &PlaybackCheckpoint {
            media: media.clone(),
            position: Duration::from_secs(50),
            updated_at: epoch(),
        },
        true,
    );
    let entry = *state.entry_for(&media).expect("recorded");
    assert_eq!((entry.position, entry.estimated), (Some(Duration::from_secs(50)), None));
    assert!(state.completed_for(&media));
}

fn entry(name: &str) -> NewQueueEntry {
    let path = AbsolutePath::new(format!("/music/{name}.flac"))
        .unwrap_or_else(|error| panic!("absolute: {error:?}"));
    NewQueueEntry::new(
        MediaId::LocalFile(path.clone()),
        QueueSource::LocalFile(path),
        DisplayMetadata::default(),
    )
    .unwrap_or_else(|error| panic!("valid: {error:?}"))
}

#[test]
fn a_fresh_state_has_one_playing_playlist_named_default() {
    let state = PersistedState::default();
    assert_eq!(state.playlists().len(), 1);
    assert_eq!(state.playlists()[0].name(), "Default");
    assert_eq!(state.playing(), state.playlists()[0].id());
}

#[test]
fn entry_ids_are_unique_across_playlists_and_owner_lookup_finds_them() {
    let mut state = PersistedState::default();
    let a = state.playing();
    let b = state.create_playlist("B").expect("room");
    let in_a = state.enqueue(a, vec![entry("x")]).expect("fits");
    let in_b = state.enqueue(b, vec![entry("x")]).expect("fits");
    assert_ne!(in_a[0], in_b[0]);
    assert_eq!(state.owner_of(in_a[0]), Some(a));
    assert_eq!(state.owner_of(in_b[0]), Some(b));
    assert_eq!(state.total_entries(), 2);
    assert!(
        state.queue().get(in_b[0]).is_none(),
        "queue() is the playing playlist only"
    );
}

#[test]
fn the_cap_is_global_and_a_refused_batch_changes_nothing() {
    let mut state = PersistedState::default();
    let a = state.playing();
    let b = state.create_playlist("B").expect("room");
    state
        .enqueue(
            a,
            (0..MAX_PLAYLIST_ENTRIES - 1)
                .map(|i| entry(&format!("t{i}")))
                .collect(),
        )
        .expect("fits");
    let before = state.clone();
    assert_eq!(
        state.enqueue(b, vec![entry("y"), entry("z")]),
        Err(QueueError::Capacity {
            requested: 2,
            available: 1
        })
    );
    assert_eq!(state.total_entries(), before.total_entries());
    assert_eq!(state.entry_ids(), before.entry_ids(), "no ID was burned");
}

#[test]
fn enqueue_into_a_deleted_playlist_is_refused() {
    let mut state = PersistedState::default();
    let b = state.create_playlist("B").expect("room");
    state.remove_playlist(b).expect("another exists");
    assert_eq!(
        state.enqueue(b, vec![entry("x")]),
        Err(QueueError::UnknownPlaylist(b.get()))
    );
}

#[test]
fn playlist_ids_are_never_reused() {
    let mut state = PersistedState::default();
    let b = state.create_playlist("B").expect("room");
    state.remove_playlist(b).expect("another exists");
    let c = state.create_playlist("C").expect("room");
    assert!(c.get() > b.get());
}

#[test]
fn limits_and_names() {
    let mut state = PersistedState::default();
    assert_eq!(
        state.create_playlist("   "),
        Err(PlaylistError::InvalidName)
    );
    for i in 1..MAX_PLAYLISTS {
        state.create_playlist(&format!("P{i}")).expect("room");
    }
    assert_eq!(
        state.create_playlist("one too many"),
        Err(PlaylistError::TooMany)
    );
    let only = PersistedState::default();
    let mut only = only;
    assert_eq!(
        only.remove_playlist(only.playing()).map(|_| ()),
        Err(PlaylistError::LastPlaylist)
    );
}

#[test]
fn deleting_the_playing_playlist_moves_playing_and_repoints_current_media() {
    let mut state = PersistedState::default();
    let a = state.playing();
    let b = state.create_playlist("B").expect("room");
    let in_b = state.enqueue(b, vec![entry("kept")]).expect("fits");
    let _ = state
        .playlist_mut(b)
        .map(|p| p.queue_mut().set_active(Some(in_b[0])));
    state.set_current_media(entry_media("old"));

    state.remove_playlist(a).expect("another exists");

    assert_eq!(state.playing(), b);
    assert_eq!(
        state.queue().active(),
        Some(in_b[0]),
        "the cursor is not judged against the old media"
    );
    assert_eq!(state.current_media(), Some(&entry_media("kept")));
}

#[test]
fn deleting_the_playing_playlist_clears_current_media_when_the_next_has_no_cursor() {
    let mut state = PersistedState::default();
    let a = state.playing();
    state.create_playlist("B").expect("room");
    state.set_current_media(entry_media("old"));
    state.remove_playlist(a).expect("another exists");
    assert_eq!(state.current_media(), None);
}

#[test]
fn deleting_another_playlist_touches_neither_playing_nor_current_media() {
    let mut state = PersistedState::default();
    let a = state.playing();
    let b = state.create_playlist("B").expect("room");
    state.set_current_media(entry_media("old"));
    state.remove_playlist(b).expect("another exists");
    assert_eq!(state.playing(), a);
    assert_eq!(state.current_media(), Some(&entry_media("old")));
}

fn entry_media(name: &str) -> MediaId {
    entry(name).media().clone()
}

#[test]
fn names_are_cleaned_and_bounded() {
    let mut state = PersistedState::default();
    let b = state.create_playlist("  Morning ").expect("room");
    assert_eq!(state.playlist(b).map(|p| p.name().to_owned()), Some("Morning".to_owned()));
    assert_eq!(
        state.rename_playlist(b, " \t"),
        Err(PlaylistError::InvalidName)
    );
    state.rename_playlist(b, &"x".repeat(50)).expect("cut to length");
    assert_eq!(state.playlist(b).map(|p| p.name().len()), Some(40));
    let missing = PlaylistId::from_raw(99);
    assert_eq!(
        state.rename_playlist(missing, "x"),
        Err(PlaylistError::Unknown(missing))
    );
    assert_eq!(
        state.remove_playlist(missing).map(|_| ()),
        Err(PlaylistError::Unknown(missing))
    );
}

#[test]
fn an_exhausted_counter_refuses_a_playlist() {
    let playing = PlaylistId::from_raw(u64::MAX);
    let mut state = PersistedState::from_parts(
        SCHEMA_VERSION,
        None,
        FULL_GAIN,
        Vec::new(),
        vec![Playlist::new(playing, "Default".to_owned())],
        playing,
        1,
        IdAllocator::starting_at(None),
        IdAllocator::starting_at(None),
    );
    assert_eq!(state.create_playlist("B"), Err(PlaylistError::IdExhausted));
    assert_eq!(
        state.enqueue(playing, vec![entry("x")]),
        Err(QueueError::IdExhausted)
    );
    assert_eq!(state.enqueue(playing, Vec::new()), Ok(Vec::new()));
}

#[test]
fn a_volume_is_clamped_and_nothing_else() {
    let mut state = PersistedState::default();
    assert_eq!(state.volume(), Volume::full());
    state.set_volume(Volume::new(0.25f32.to_bits()));
    assert_eq!(state.volume().gain, 0.25f32.to_bits());
    assert_eq!(Volume::new(2.0f32.to_bits()), Volume::full());
    assert_eq!(Volume::new((-0.5f32).to_bits()).gain, 0);
    assert_eq!(Volume::new(f32::NAN.to_bits()).gain, 0);
}
