use tenuto::application::transport::{
    decide, PlaybackPhase, TransportDecision, TransportInput, TransportSituation, LIVE_NO_SEEK,
    PLAY_BEFORE_SEEK, QUEUE_EMPTY, STILL_LOADING, TRACK_ENDED,
};
use tenuto::clock::Duration;
use tenuto::media::{AbsolutePath, MediaId};
use tenuto::persistence::model::PersistedState;
use tenuto::playlist::{clean_name, splitmix64, Playlist, PlaylistError, PlaylistId, Shuffle};
use tenuto::queue::{
    Direction, DisplayMetadata, IdAllocator, NewQueueEntry, Queue, QueueEntryId, QueueError,
    QueueSource, MAX_PLAYLIST_ENTRIES,
};

const PHASES: [PlaybackPhase; 8] = [
    PlaybackPhase::Unloaded,
    PlaybackPhase::Loading,
    PlaybackPhase::LoadFailed,
    PlaybackPhase::Playing,
    PlaybackPhase::Reconnecting,
    PlaybackPhase::Paused,
    PlaybackPhase::Stopped,
    PlaybackPhase::Ended,
];

fn entry(name: &str) -> NewQueueEntry {
    let path = AbsolutePath::new(format!("/music/{name}.flac")).expect("absolute");
    NewQueueEntry::new(
        MediaId::LocalFile(path.clone()),
        QueueSource::LocalFile(path),
        DisplayMetadata::default(),
    )
    .expect("valid")
}

/// A playlist of entries numbered from `first` on, its cursor on `active`.
fn playlist(id: u64, first: u64, count: usize, active: Option<u64>) -> Playlist {
    let mut queue = Queue::default();
    let batch = (0..count).map(|at| entry(&format!("{id}-{at}"))).collect();
    queue
        .enqueue(batch, &mut IdAllocator::starting_at(Some(first)))
        .expect("fits");
    queue.set_active(active.map(QueueEntryId::from_raw)).expect("queued");
    Playlist::from_parts(PlaylistId::from_raw(id), format!("P{id}"), None, queue)
}

fn id(raw: u64) -> QueueEntryId {
    QueueEntryId::from_raw(raw)
}

fn situation<'a>(
    navigation: &'a Playlist,
    viewed: &'a Playlist,
    phase: PlaybackPhase,
) -> TransportSituation<'a> {
    TransportSituation { navigation, viewed, selected: None, phase, retry: None, live: false }
}

#[test]
fn enter_follows_the_view_in_every_phase() {
    let playing = playlist(1, 1, 0, None);
    let viewed = playlist(2, 10, 3, None);
    for phase in PHASES {
        let mut at = situation(&playing, &viewed, phase);
        assert_eq!(decide(TransportInput::Enter, &at), TransportDecision::Load(id(10)));
        at.selected = Some(id(12));
        assert_eq!(decide(TransportInput::Enter, &at), TransportDecision::Load(id(12)));
        at.selected = Some(id(99));
        assert_eq!(
            decide(TransportInput::Enter, &at),
            TransportDecision::Load(id(10)),
            "a row that is gone falls back to the first"
        );
        let empty = situation(&viewed, &playing, phase);
        assert_eq!(
            decide(TransportInput::Enter, &empty),
            TransportDecision::Notice(QUEUE_EMPTY)
        );
    }
}

#[test]
fn space_starts_at_the_cursor_and_otherwise_controls() {
    let list = playlist(1, 1, 3, Some(2));
    for phase in [PlaybackPhase::Unloaded, PlaybackPhase::LoadFailed, PlaybackPhase::Ended] {
        let at = situation(&list, &list, phase);
        assert_eq!(decide(TransportInput::Space, &at), TransportDecision::Load(id(2)));
    }
    let fresh = playlist(1, 1, 3, None);
    let at = situation(&fresh, &fresh, PlaybackPhase::Unloaded);
    assert_eq!(decide(TransportInput::Play, &at), TransportDecision::Load(id(1)));
    for phase in [
        PlaybackPhase::Playing,
        PlaybackPhase::Reconnecting,
        PlaybackPhase::Paused,
        PlaybackPhase::Stopped,
    ] {
        let at = situation(&list, &list, phase);
        assert_eq!(decide(TransportInput::Space, &at), TransportDecision::TogglePause);
        assert_eq!(decide(TransportInput::Play, &at), TransportDecision::Play);
        assert_eq!(decide(TransportInput::Home, &at), TransportDecision::Restart);
        assert_eq!(decide(TransportInput::SeekBy(-10), &at), TransportDecision::SeekBy(-10));
        let target = Duration::from_secs(30);
        assert_eq!(
            decide(TransportInput::SeekTo(target), &at),
            TransportDecision::SeekTo(target)
        );
    }
}

#[test]
fn what_cannot_be_done_is_said() {
    let list = playlist(1, 1, 3, Some(2));
    let seek = TransportInput::SeekBy(10);
    let notice = |phase, input| decide(input, &situation(&list, &list, phase));
    assert_eq!(
        notice(PlaybackPhase::Unloaded, seek),
        TransportDecision::Notice(PLAY_BEFORE_SEEK)
    );
    assert_eq!(
        notice(PlaybackPhase::LoadFailed, TransportInput::Home),
        TransportDecision::Notice(PLAY_BEFORE_SEEK)
    );
    assert_eq!(
        notice(PlaybackPhase::Loading, seek),
        TransportDecision::Notice(STILL_LOADING)
    );
    assert_eq!(
        notice(PlaybackPhase::Loading, TransportInput::Space),
        TransportDecision::Nothing
    );
    assert_eq!(
        notice(PlaybackPhase::Ended, seek),
        TransportDecision::Notice(TRACK_ENDED)
    );
    assert_eq!(
        notice(PlaybackPhase::Ended, TransportInput::Home),
        TransportDecision::Restart
    );
}

#[test]
fn a_live_source_is_never_asked_to_move() {
    let list = playlist(1, 1, 3, Some(2));
    let empty = playlist(2, 10, 0, None);
    for navigation in [&list, &empty] {
        for phase in PHASES {
            let mut at = situation(navigation, &list, phase);
            at.live = true;
            for input in [
                TransportInput::Home,
                TransportInput::SeekBy(10),
                TransportInput::SeekTo(Duration::zero()),
            ] {
                let decision = decide(input, &at);
                assert!(
                    matches!(decision, TransportDecision::Notice(_)),
                    "{phase:?} {input:?}: {decision:?}"
                );
                if phase == PlaybackPhase::Playing {
                    assert_eq!(decision, TransportDecision::Notice(LIVE_NO_SEEK));
                }
            }
        }
    }
}

#[test]
fn an_emptied_queue_leaves_a_running_track_its_controls() {
    let empty = playlist(1, 1, 0, None);
    let at = situation(&empty, &empty, PlaybackPhase::Paused);
    assert_eq!(decide(TransportInput::Space, &at), TransportDecision::TogglePause);
    assert_eq!(decide(TransportInput::Next, &at), TransportDecision::Nothing);
    let at = situation(&empty, &empty, PlaybackPhase::Stopped);
    assert_eq!(
        decide(TransportInput::Space, &at),
        TransportDecision::Notice(QUEUE_EMPTY)
    );
    assert_eq!(decide(TransportInput::Previous, &at), TransportDecision::Nothing);
}

#[test]
fn a_failed_load_is_tried_again_wherever_it_is() {
    let empty = playlist(1, 1, 0, None);
    let mut at = situation(&empty, &empty, PlaybackPhase::LoadFailed);
    at.retry = Some(id(77));
    assert_eq!(decide(TransportInput::Space, &at), TransportDecision::Load(id(77)));
    at.phase = PlaybackPhase::Unloaded;
    assert_eq!(
        decide(TransportInput::Space, &at),
        TransportDecision::Notice(QUEUE_EMPTY)
    );
}

#[test]
fn steps_go_from_the_cursor_and_stop_at_the_ends() {
    let list = playlist(1, 1, 3, Some(2));
    let mut at = situation(&list, &list, PlaybackPhase::Playing);
    assert_eq!(decide(TransportInput::Previous, &at), TransportDecision::Load(id(1)));
    assert_eq!(decide(TransportInput::Next, &at), TransportDecision::Load(id(3)));
    at.retry = Some(id(3));
    assert_eq!(
        decide(TransportInput::Next, &at),
        TransportDecision::Load(id(3)),
        "a retry counts only while loading"
    );
    at.phase = PlaybackPhase::Loading;
    assert_eq!(decide(TransportInput::Next, &at), TransportDecision::Nothing);
    assert_eq!(decide(TransportInput::Previous, &at), TransportDecision::Load(id(2)));
    let cursorless = playlist(1, 1, 3, None);
    let at = situation(&cursorless, &cursorless, PlaybackPhase::Playing);
    assert_eq!(decide(TransportInput::Next, &at), TransportDecision::Nothing);
}

#[test]
fn splitmix64_is_the_published_function() {
    // The first outputs of the generator seeded with zero.
    assert_eq!(splitmix64(0), 0xE220_A839_7B1D_CDAF);
    assert_eq!(splitmix64(0x9E37_79B9_7F4A_7C15), 0x6E78_9E6A_A1B9_65F4);
    assert_eq!(splitmix64(0x3C6E_F372_FE94_F82A), 0x06C4_5D18_8009_454F);
}

#[test]
fn a_shuffled_order_plays_everything_once_with_the_pinned_first() {
    let mut list = playlist(1, 1, 20, Some(7));
    let plain = list.playback_order();
    assert_eq!(plain, (1..=20).map(id).collect::<Vec<_>>());
    list.set_shuffle(Some(Shuffle { seed: 42, first: Some(id(7)) }));
    let order = list.playback_order();
    assert_eq!(order[0], id(7));
    let mut sorted = order.clone();
    sorted.sort();
    assert_eq!(sorted, plain);
    let keys: Vec<u64> =
        order[1..].iter().map(|entry| splitmix64(42u64.wrapping_add(entry.get()))).collect();
    assert!(keys.windows(2).all(|pair| pair[0] <= pair[1]));
    assert_eq!(list.first_in_order(), Some(id(7)));
    assert_eq!(list.neighbor(order[3], Direction::Down), Some(order[4]));
    assert_eq!(list.neighbor(order[3], Direction::Up), Some(order[2]));
    assert_eq!(list.neighbor(order[0], Direction::Up), None);
    assert_eq!(list.neighbor(order[19], Direction::Down), None);
    assert_eq!(list.neighbor(id(99), Direction::Down), None);
}

#[test]
fn names_are_trimmed_and_cut() {
    assert_eq!(clean_name("  Morning "), Some("Morning".to_owned()));
    assert_eq!(clean_name(" \u{3000}\t"), None);
    let cut = clean_name(&format!("{} tail", "x".repeat(39))).expect("something is left");
    assert_eq!(cut, "x".repeat(39), "the space at the cut goes too");
    assert_eq!(clean_name(&cut), Some(cut));
}

#[test]
fn playlist_errors_say_what_they_are() {
    assert_eq!(PlaylistError::TooMany.describe(), "at most 32 playlists");
    assert_eq!(
        PlaylistError::LastPlaylist.describe(),
        "the last playlist cannot be deleted"
    );
    assert_eq!(
        PlaylistError::Unknown(PlaylistId::from_raw(7)).describe(),
        "playlist 7 no longer exists"
    );
    assert_eq!(
        PlaylistError::InvalidName.describe(),
        "a playlist name is 1 to 40 characters"
    );
    assert_eq!(PlaylistError::IdExhausted.describe(), "playlist IDs are exhausted");
}

#[test]
fn a_queue_keeps_its_cursor_on_an_entry_it_holds() {
    let mut queue = Queue::default();
    let mut ids = IdAllocator::default();
    let made = queue.enqueue(vec![entry("a"), entry("b"), entry("c")], &mut ids).expect("fits");
    assert_eq!(
        queue.set_active(Some(id(99))),
        Err(QueueError::UnknownEntry(id(99)))
    );
    queue.set_active(Some(made[1])).expect("queued");
    let removed = queue.remove(made[1]).expect("queued");
    assert_eq!(removed.selection, Some(made[2]));
    assert_eq!(queue.active(), None);
    let removed = queue.remove(made[2]).expect("queued");
    assert_eq!(removed.selection, Some(made[0]), "the one before at the end");
    assert_eq!(queue.move_entry(made[0], Direction::Down), Ok(false));
    queue.clear();
    assert!(queue.is_empty());
}

#[test]
fn full_playlists_take_nothing() {
    let mut state = PersistedState::default();
    let first = state.playing();
    let other = state.create_playlist("Other").expect("room");
    let batch = (0..MAX_PLAYLIST_ENTRIES - 1).map(|at| entry(&at.to_string())).collect();
    state.enqueue(first, batch).expect("fits");
    let before = state.clone();
    assert_eq!(
        state.enqueue(other, vec![entry("x"), entry("y")]),
        Err(QueueError::Capacity { requested: 2, available: 1 })
    );
    assert_eq!(state, before);
    assert_eq!(
        state.enqueue(PlaylistId::from_raw(99), vec![entry("x")]),
        Err(QueueError::UnknownPlaylist(99))
    );
    assert_eq!(state.enqueue(other, vec![entry("x")]), Ok(vec![id(4096)]));
    assert_eq!(state.total_entries(), MAX_PLAYLIST_ENTRIES);
}

#[test]
fn a_source_belongs_to_its_media() {
    let path = AbsolutePath::new("/music/a.flac".to_owned()).expect("absolute");
    let other = AbsolutePath::new("/music/b.flac".to_owned()).expect("absolute");
    let made = NewQueueEntry::new(
        MediaId::LocalFile(path),
        QueueSource::LocalFile(other),
        DisplayMetadata::default(),
    );
    assert_eq!(made.map(|_| ()), Err(QueueError::SourceMismatch));
}
