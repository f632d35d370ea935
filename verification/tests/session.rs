use tenuto::clock::{ClockSample, Duration, WallTime};
use tenuto::media::{
    AbsolutePath, Continuity, EpisodeKey, FeedId, MediaCapabilities, MediaId, MediaMetadata,
    SeekSupport, Url,
};
use tenuto::persistence::model::PersistedState;
use tenuto::playback::{
    LoadRequestId, PlaybackEvent, PlaybackState, PositionProvenance, PositionQuality, Progress,
    ResumeCandidate, ResumeIntent, ShutdownReport, StartDisposition, Urgency, Volume,
};
use tenuto::playlist::{PlaylistError, PlaylistId};
use tenuto::queue::{
    Direction, DisplayMetadata, DisplayUpdate, NewQueueEntry, QueueEntryId, QueueError, QueueSource,
};
use tenuto::session::{
    resume_intent_for, Action, Advance, LoadTarget, RegisterLoadError, Session, MAX_PENDING_LOADS,
};

fn now(secs: u64) -> ClockSample {
    ClockSample {
        monotonic: Duration::from_secs(secs),
        wall: WallTime {
            year: 2026,
            month: 9,
            day: 8,
            hour: 14,
            minute: 32,
            second: 11,
            nanosecond: 0,
            offset_seconds: 0,
        },
    }
}

fn media(name: &str) -> MediaId {
    MediaId::LocalFile(AbsolutePath::new(format!("/music/{name}.flac")).expect("absolute"))
}

fn entry(name: &str) -> NewQueueEntry {
    let path = AbsolutePath::new(format!("/music/{name}.flac")).expect("absolute");
    NewQueueEntry::new(media(name), QueueSource::LocalFile(path), DisplayMetadata::default())
        .expect("valid")
}

fn capabilities(continuity: Continuity) -> MediaCapabilities {
    MediaCapabilities { continuity, seek: SeekSupport::Native }
}

fn metadata() -> MediaMetadata {
    MediaMetadata {
        title: Some("Title".to_owned()),
        artist: None,
        album: None,
        year: None,
        duration: None,
        duration_provenance: PositionProvenance::Established,
        front_cover: None,
    }
}

fn loaded(
    rev: u64,
    request: LoadRequestId,
    name: &str,
    disposition: StartDisposition,
    continuity: Continuity,
) -> PlaybackEvent {
    PlaybackEvent::Loaded {
        session_rev: rev,
        request,
        media: media(name),
        metadata: metadata(),
        capabilities: capabilities(continuity),
        position: Duration::zero(),
        disposition,
    }
}

fn fresh(rev: u64, request: LoadRequestId, name: &str) -> PlaybackEvent {
    loaded(rev, request, name, StartDisposition::Fresh, Continuity::Finite)
}

fn state(rev: u64, state: PlaybackState) -> PlaybackEvent {
    PlaybackEvent::StateChanged { session_rev: rev, state, request: None }
}

fn progress(rev: u64, request: LoadRequestId, name: &str, secs: u64) -> Progress {
    Progress {
        session_rev: rev,
        media: Some(media(name)),
        position: Duration::from_secs(secs),
        quality: PositionQuality::Exact,
        provenance: PositionProvenance::Established,
        buffering: false,
        load: Some(request),
    }
}

fn urgency(action: &Action) -> Option<Urgency> {
    match action {
        Action::Nothing => None,
        Action::Submit { urgency, .. } => Some(*urgency),
    }
}

fn position(session: &Session, name: &str) -> Option<Duration> {
    session.state().entry_for(&media(name)).and_then(|entry| entry.position)
}

fn estimated(session: &Session, name: &str) -> Option<Duration> {
    session.state().entry_for(&media(name)).and_then(|entry| entry.estimated)
}

/// A session that plays `names[0]` of its queue, under the token returned.
fn playing(names: &[&str]) -> (Session, Vec<QueueEntryId>, LoadRequestId) {
    let mut session = Session::new(PersistedState::default());
    let dest = session.state().playing();
    let batch = names.iter().map(|name| entry(name)).collect();
    let (ids, action) = session.enqueue(dest, batch).expect("fits");
    assert_eq!(urgency(&action), Some(Urgency::Ordinary));
    let request = session
        .register_load(LoadTarget::Queue(ids[0]), &media(names[0]))
        .expect("registered");
    let action = session.observe(&fresh(1, request, names[0]), now(0));
    assert_eq!(urgency(&action), Some(Urgency::Forced), "the cursor moved");
    session.observe(&state(1, PlaybackState::Playing), now(0));
    (session, ids, request)
}

#[test]
fn a_load_is_registered_only_for_an_entry_that_is_there() {
    let mut session = Session::new(PersistedState::default());
    let dest = session.state().playing();
    let (ids, _) = session.enqueue(dest, vec![entry("a")]).expect("fits");
    assert_eq!(
        session.register_load(LoadTarget::Queue(QueueEntryId::from_raw(99)), &media("a")),
        Err(RegisterLoadError::UnknownEntry)
    );
    assert_eq!(
        session.register_load(LoadTarget::Queue(ids[0]), &media("b")),
        Err(RegisterLoadError::MediaMismatch)
    );
    for raw in 1..=MAX_PENDING_LOADS as u64 {
        assert_eq!(
            session.register_load(LoadTarget::Legacy, &media("a")),
            Ok(LoadRequestId::from_raw(raw))
        );
    }
    assert_eq!(
        session.register_load(LoadTarget::Queue(ids[0]), &media("b")),
        Err(RegisterLoadError::Busy),
        "checked before the entry"
    );
    session.retract_load(LoadRequestId::from_raw(3));
    assert_eq!(session.pending_load_count(), MAX_PENDING_LOADS - 1);
    assert_eq!(
        session.register_load(LoadTarget::Legacy, &media("a")),
        Ok(LoadRequestId::from_raw(MAX_PENDING_LOADS as u64 + 1)),
        "a token is never used again"
    );
}

#[test]
fn a_load_takes_over_and_shows_what_the_decoder_reported() {
    let (session, ids, request) = playing(&["a", "b"]);
    assert_eq!(session.adopted().map(|adopted| adopted.request), Some(request));
    assert!(session.owns_entry(ids[0]) && !session.owns_entry(ids[1]));
    assert!(session.owns_playlist(session.state().playing()));
    assert_eq!(session.state().queue().active(), Some(ids[0]));
    assert_eq!(session.state().current_media(), Some(&media("a")));
    let shown = session.state().find_entry(ids[0]).expect("queued").display();
    assert_eq!(shown.title.as_deref(), Some("Title"));
}

#[test]
fn an_event_of_a_stranger_changes_nothing() {
    let (mut session, _, _) = playing(&["a"]);
    let before = session.state().clone();
    let stranger = fresh(9, LoadRequestId::from_raw(77), "b");
    assert_eq!(session.observe(&stranger, now(1)), Action::Nothing);
    let late = PlaybackEvent::EndOfTrack {
        session_rev: 0,
        position: Duration::from_secs(9),
        provenance: PositionProvenance::Established,
    };
    assert!(!session.accepts_media_event(&late));
    assert_eq!(session.observe(&late, now(1)), Action::Nothing);
    assert_eq!(session.state(), &before);
}

#[test]
fn a_position_is_taken_every_five_seconds_while_playing() {
    let (mut session, _, request) = playing(&["a"]);
    assert_eq!(session.tick(&progress(1, request, "a", 4), now(4)), Action::Nothing);
    let action = session.tick(&progress(1, request, "a", 5), now(5));
    assert_eq!(urgency(&action), Some(Urgency::Ordinary));
    assert_eq!(position(&session, "a"), Some(Duration::from_secs(5)));
    assert_eq!(session.tick(&progress(1, request, "a", 9), now(9)), Action::Nothing);
    let other = LoadRequestId::from_raw(8);
    assert_eq!(session.tick(&progress(1, other, "a", 20), now(20)), Action::Nothing);
}

#[test]
fn a_pause_is_saved_at_the_next_sample() {
    let (mut session, _, request) = playing(&["a"]);
    assert_eq!(session.observe(&state(1, PlaybackState::Paused), now(1)), Action::Nothing);
    let action = session.tick(&progress(1, request, "a", 2), now(2));
    assert_eq!(urgency(&action), Some(Urgency::Forced));
    assert_eq!(position(&session, "a"), Some(Duration::from_secs(2)));
}

#[test]
fn a_position_that_nothing_confirmed_is_not_saved() {
    let mut session = Session::new(PersistedState::default());
    let request = session.register_load(LoadTarget::Legacy, &media("a")).expect("registered");
    session.observe(&fresh(1, request, "a"), now(0));
    session.observe(&state(1, PlaybackState::Stopped), now(1));
    assert_eq!(session.tick(&progress(1, request, "a", 0), now(9)), Action::Nothing);
    assert_eq!(position(&session, "a"), None);
}

#[test]
fn an_end_is_recorded_once_and_asks_for_the_next() {
    let (mut session, ids, _) = playing(&["a", "b"]);
    let ended = PlaybackEvent::EndOfTrack {
        session_rev: 1,
        position: Duration::from_secs(300),
        provenance: PositionProvenance::Established,
    };
    assert_eq!(urgency(&session.observe(&ended, now(1))), Some(Urgency::Forced));
    assert_eq!(session.take_advance(), Some(Advance::Next(ids[1])));
    assert_eq!(session.take_advance(), None);
    assert!(session.state().completed_for(&media("a")));
    assert_eq!(session.observe(&ended, now(2)), Action::Nothing);
    assert_eq!(session.take_advance(), None);
}

#[test]
fn the_last_entry_ends_the_queue() {
    let (mut session, _, _) = playing(&["a"]);
    let ended = PlaybackEvent::EndOfTrack {
        session_rev: 1,
        position: Duration::from_secs(300),
        provenance: PositionProvenance::Estimated,
    };
    session.observe(&ended, now(1));
    assert_eq!(session.take_advance(), Some(Advance::EndOfQueue));
    assert_eq!(position(&session, "a"), None, "an estimate never becomes the position");
    assert_eq!(estimated(&session, "a"), Some(Duration::from_secs(300)));
}

#[test]
fn a_protected_position_stands_until_a_confirmed_landing() {
    let mut session = Session::new(PersistedState::default());
    let request = session.register_load(LoadTarget::Legacy, &media("a")).expect("registered");
    let fallback = StartDisposition::ResumeUnavailable { retained: Duration::from_secs(90) };
    session.observe(&loaded(1, request, "a", fallback, Continuity::Finite), now(0));
    session.observe(&state(1, PlaybackState::Playing), now(0));
    assert_eq!(session.tick(&progress(1, request, "a", 30), now(30)), Action::Nothing);
    let landing = |provenance| PlaybackEvent::SeekCompleted {
        session_rev: 1,
        actual: Duration::from_secs(40),
        provenance,
    };
    session.observe(&landing(PositionProvenance::Estimated), now(31));
    assert_eq!(session.tick(&progress(1, request, "a", 40), now(32)), Action::Nothing);
    session.observe(&landing(PositionProvenance::Established), now(33));
    let action = session.tick(&progress(1, request, "a", 41), now(34));
    assert_eq!(urgency(&action), Some(Urgency::Forced));
    assert_eq!(position(&session, "a"), Some(Duration::from_secs(41)));
}

#[test]
fn a_live_source_is_never_recorded() {
    let mut session = Session::new(PersistedState::default());
    let request = session.register_load(LoadTarget::Legacy, &media("a")).expect("registered");
    let live = loaded(1, request, "a", StartDisposition::Fresh, Continuity::Indefinite);
    session.observe(&live, now(0));
    session.observe(&state(1, PlaybackState::Playing), now(0));
    assert_eq!(session.tick(&progress(1, request, "a", 60), now(60)), Action::Nothing);
    let finite = PlaybackEvent::CapabilitiesChanged {
        session_rev: 1,
        capabilities: capabilities(Continuity::Finite),
    };
    session.observe(&finite, now(61));
    assert_eq!(session.tick(&progress(1, request, "a", 70), now(70)), Action::Nothing);
    assert_eq!(position(&session, "a"), None);
}

#[test]
fn a_seek_while_stopped_stands_for_the_sample() {
    let (mut session, _, request) = playing(&["a"]);
    session.observe(&state(1, PlaybackState::Stopped), now(1));
    let stored =
        PlaybackEvent::SeekTargetStored { session_rev: 1, target: Duration::from_secs(120) };
    assert_eq!(urgency(&session.observe(&stored, now(2))), Some(Urgency::Forced));
    assert_eq!(position(&session, "a"), Some(Duration::from_secs(120)));
    session.tick(&progress(1, request, "a", 3), now(3));
    assert_eq!(
        position(&session, "a"),
        Some(Duration::from_secs(120)),
        "not the position from before the seek"
    );
}

#[test]
fn an_estimated_sample_keeps_the_established_position() {
    let (mut session, _, request) = playing(&["a"]);
    session.tick(&progress(1, request, "a", 5), now(5));
    let guessed = Progress {
        provenance: PositionProvenance::Estimated,
        ..progress(1, request, "a", 50)
    };
    assert_eq!(urgency(&session.tick(&guessed, now(10))), Some(Urgency::Ordinary));
    assert_eq!(position(&session, "a"), Some(Duration::from_secs(5)));
    assert_eq!(estimated(&session, "a"), Some(Duration::from_secs(50)));
}

#[test]
fn switching_saves_what_is_left_behind() {
    let (mut session, ids, request) = playing(&["a", "b"]);
    session.tick(&progress(1, request, "a", 3), now(3));
    let next = session
        .register_load(LoadTarget::Queue(ids[1]), &media("b"))
        .expect("registered");
    let action = session.observe(&fresh(2, next, "b"), now(4));
    assert_eq!(urgency(&action), Some(Urgency::Forced));
    assert_eq!(position(&session, "a"), Some(Duration::from_secs(3)));
    assert_eq!(session.state().current_media(), Some(&media("b")));
}

#[test]
fn a_removed_entry_never_takes_over() {
    let (mut session, ids, request) = playing(&["a", "b"]);
    let next = session
        .register_load(LoadTarget::Queue(ids[1]), &media("b"))
        .expect("registered");
    let removal = session
        .remove_entry(ids[1], &progress(1, request, "a", 1), now(1))
        .expect("queued");
    assert!(!removal.stop_playback, "another entry plays");
    assert_eq!(session.observe(&fresh(2, next, "b"), now(2)), Action::Nothing);
    assert!(session.take_stop_request());
    assert!(!session.take_stop_request());
    assert_eq!(session.adopted().map(|adopted| adopted.request), Some(request));
}

#[test]
fn removing_what_plays_stops_it_and_keeps_its_history() {
    let (mut session, ids, request) = playing(&["a", "b"]);
    let removal = session
        .remove_entry(ids[0], &progress(1, request, "a", 7), now(7))
        .expect("queued");
    assert!(removal.stop_playback);
    assert_eq!(removal.selection, Some(ids[1]));
    assert_eq!(urgency(&removal.action), Some(Urgency::Forced));
    assert_eq!(position(&session, "a"), Some(Duration::from_secs(7)));
    assert_eq!(session.adopted(), None);
    assert_eq!(
        session.remove_entry(ids[0], &progress(1, request, "a", 7), now(8)).map(|_| ()),
        Err(QueueError::UnknownEntry(ids[0]))
    );
}

#[test]
fn clearing_and_deleting_let_go_only_of_what_they_own() {
    let (mut session, _, request) = playing(&["a"]);
    let owner = session.state().playing();
    let (other, action) = session.create_playlist("Other").expect("room");
    assert_eq!(urgency(&action), Some(Urgency::Ordinary));
    let sample = progress(1, request, "a", 7);
    let removal = session.clear_playlist(other, &sample, now(7)).expect("known");
    assert!(!removal.stop_playback);
    let removal = session.delete_playlist(owner, &sample, now(8)).expect("another exists");
    assert!(removal.stop_playback);
    assert_eq!(session.state().playing(), other);
    assert_eq!(session.state().current_media(), None, "the next one has no cursor");
    assert_eq!(position(&session, "a"), Some(Duration::from_secs(7)));
    assert_eq!(
        session.delete_playlist(other, &sample, now(9)).map(|_| ()),
        Err(PlaylistError::LastPlaylist)
    );
    let missing = PlaylistId::from_raw(99);
    assert_eq!(
        session.clear_playlist(missing, &sample, now(9)).map(|_| ()),
        Err(PlaylistError::Unknown(missing))
    );
    assert_eq!(
        session.delete_playlist(missing, &sample, now(9)).map(|_| ()),
        Err(PlaylistError::Unknown(missing))
    );
}

#[test]
fn only_a_change_is_submitted() {
    let (mut session, ids, _) = playing(&["a", "b"]);
    assert_eq!(session.move_entry(ids[0], Direction::Up), Ok(Action::Nothing));
    let moved = session.move_entry(ids[0], Direction::Down).expect("queued");
    assert_eq!(urgency(&moved), Some(Urgency::Ordinary));
    assert_eq!(session.update_display(&media("a"), DisplayUpdate::default()), Action::Nothing);
    let update = || DisplayUpdate { artist: Some("X".to_owned()), ..DisplayUpdate::default() };
    assert_eq!(
        urgency(&session.update_display(&media("a"), update())),
        Some(Urgency::Ordinary)
    );
    assert_eq!(session.update_display(&media("a"), update()), Action::Nothing);
    let action = session.set_volume(Volume::new(0.5f32.to_bits()));
    assert_eq!(urgency(&action), Some(Urgency::Ordinary));
    let missing = QueueEntryId::from_raw(99);
    assert_eq!(
        session.move_entry(missing, Direction::Up),
        Err(QueueError::UnknownEntry(missing))
    );
}

#[test]
fn a_podcast_is_fetched_from_elsewhere() {
    let feed = FeedId::new("0123456789abcdef0123456789abcdef".to_owned()).expect("feed");
    let key = EpisodeKey::resolve(Some("ep-1"), None, None).expect("key");
    let episode = MediaId::PodcastEpisode { feed, episode: key };
    let url = |text: &str| Url::parse(text).expect("url");
    let first = url("https://cdn.example.org/1.mp3");
    let podcast = NewQueueEntry::new(
        episode,
        QueueSource::Podcast { fallback: first.clone() },
        DisplayMetadata::default(),
    )
    .expect("valid");
    let mut session = Session::new(PersistedState::default());
    let dest = session.state().playing();
    let (ids, _) = session.enqueue(dest, vec![podcast, entry("a")]).expect("fits");
    assert_eq!(session.update_podcast_fallback(ids[0], first), Ok(Action::Nothing));
    let moved = url("https://cdn.example.org/2.mp3");
    let action = session.update_podcast_fallback(ids[0], moved.clone()).expect("podcast");
    assert_eq!(urgency(&action), Some(Urgency::Ordinary));
    assert_eq!(
        session.update_podcast_fallback(ids[1], moved.clone()),
        Err(QueueError::SourceMismatch)
    );
    let missing = QueueEntryId::from_raw(99);
    assert_eq!(
        session.update_podcast_fallback(missing, moved),
        Err(QueueError::UnknownEntry(missing))
    );
}

#[test]
fn a_shuffle_pins_the_cursor_and_new_entries_follow_it() {
    let (mut session, ids, _) = playing(&["a", "b", "c", "d"]);
    let dest = session.state().playing();
    session.set_shuffle(dest, Some(7)).expect("known");
    let order = session.state().playing_playlist().playback_order();
    assert_eq!(order.len(), 4);
    assert_eq!(order[0], ids[0]);
    let (more, _) = session.enqueue(dest, vec![entry("e"), entry("f")]).expect("fits");
    let order = session.state().playing_playlist().playback_order();
    assert_eq!(order[0], ids[0], "the cursor is still first");
    assert!(more.iter().all(|id| order[1..].contains(id)));
    session.set_shuffle(dest, None).expect("known");
    assert_eq!(session.state().playing_playlist().playback_order()[..4], ids[..]);
    let missing = PlaylistId::from_raw(99);
    assert_eq!(
        session.set_shuffle(missing, Some(1)),
        Err(PlaylistError::Unknown(missing))
    );
}

#[test]
fn what_was_left_unread_is_taken_in_at_the_end() {
    let (mut session, _, request) = playing(&["a"]);
    let report = ShutdownReport {
        events: vec![PlaybackEvent::VolumeChanged {
            session_rev: 1,
            volume: Volume::new(0.25f32.to_bits()),
        }],
        progress: progress(1, request, "a", 42),
    };
    let state = session.reconcile_shutdown(&report, now(42));
    assert_eq!(state.volume(), Volume::new(0.25f32.to_bits()));
    assert_eq!(
        state.entry_for(&media("a")).and_then(|entry| entry.position),
        Some(Duration::from_secs(42))
    );
    let again = session.shutdown_snapshot(&progress(1, request, "a", 43), now(43));
    assert_eq!(
        again.entry_for(&media("a")).and_then(|entry| entry.position),
        Some(Duration::from_secs(43))
    );
}

#[test]
fn a_media_resumes_where_it_was_left() {
    let (mut session, _, request) = playing(&["a"]);
    assert_eq!(
        session.resume_intent(&media("b")),
        ResumeIntent::StartAt(Duration::zero())
    );
    session.tick(&progress(1, request, "a", 5), now(5));
    assert_eq!(
        session.resume_intent(&media("a")),
        ResumeIntent::Candidate(ResumeCandidate {
            position: Duration::from_secs(5),
            completed: false
        })
    );
    assert_eq!(resume_intent_for(None), None);
}

#[test]
fn a_load_that_failed_leaves_nobody_in_charge() {
    let (mut session, ids, request) = playing(&["a", "b"]);
    let next = session
        .register_load(LoadTarget::Queue(ids[1]), &media("b"))
        .expect("registered");
    let announced = PlaybackEvent::StateChanged {
        session_rev: 2,
        state: PlaybackState::Loading,
        request: Some(next),
    };
    assert_eq!(session.observe(&announced, now(1)), Action::Nothing);
    assert!(!session.accepts_media_event(&state(2, PlaybackState::Paused)));
    let failed = PlaybackEvent::Failed {
        session_rev: 2,
        request: Some(next),
        message: "gone".to_owned(),
    };
    assert_eq!(session.observe(&failed, now(2)), Action::Nothing);
    assert_eq!(session.pending_load_count(), 0);
    assert_eq!(session.tick(&progress(1, request, "a", 50), now(50)), Action::Nothing);
}
