use tenuto::app::{
    after_loading_pass, after_playing_pass, apply_progress, classify_flush, drain, episode_plan,
    fit_status, key_step, launch, plan, resume_commands, run_outcome, shows_progress, status_line,
    status_parts, to_command, EpisodePlan, FlushReport, KeyRead, KeyStep, Launch, Mirror, Phase,
    PlaybackCommand, RunOutcome, RunPlan, ShutdownOutcome, SourceLocation,
};
use tenuto::cli::{ArtworkMode, Cli, CliCommand, MouseMode};
use tenuto::clock::{Duration, WallTime};
use tenuto::json::Json;
use tenuto::media::{
    AbsolutePath, Continuity, EpisodeKey, FeedId, MediaCapabilities, MediaId, MediaMetadata,
    NormalizedUrl, SeekSupport, Url,
};
use tenuto::persistence::file::{RawState, StateFile};
use tenuto::persistence::model::{PersistedState, SCHEMA_VERSION};
use tenuto::persistence::store::{begin_load, decode_state, LoadOutcome, LoadStep, StateRead};
use tenuto::playback::{
    LoadRequestId, PlaybackCheckpoint, PlaybackEvent, PlaybackState, PositionProvenance,
    PositionQuality, Progress, ResumeCandidate, ResumeIntent, StartDisposition, Volume,
};
use tenuto::tui::keys::{KeyCode, KeyEvent, KeyKind};
use unicode_width::UnicodeWidthStr;

const VOLUME_STEP: f32 = 0.05;

fn press(code: KeyCode) -> KeyEvent {
    KeyEvent { code, kind: KeyKind::Press, control: false, alt: false }
}

fn gain(value: f32) -> Volume {
    Volume::new(value.to_bits())
}

fn epoch() -> WallTime {
    WallTime {
        year: 1970,
        month: 1,
        day: 1,
        hour: 0,
        minute: 0,
        second: 0,
        nanosecond: 0,
        offset_seconds: 0,
    }
}

/// A raise test has to start below full, or it measures the clamp.
fn volume_after(code: KeyCode, from: f32) -> Option<f32> {
    match to_command(press(code)) {
        Some(PlaybackCommand::AdjustVolume(steps)) => {
            Some((from + VOLUME_STEP * f32::from(steps)).clamp(0.0, 1.0))
        }
        _ => None,
    }
}

fn line(mirror: &Mirror) -> String {
    status_line(mirror, 100)
}

#[test]
fn volume_up_does_not_require_shift() {
    let baseline = 0.5;
    let shifted = volume_after(KeyCode::Char('+'), baseline).expect("+ raises volume");
    let unshifted = volume_after(KeyCode::Char('='), baseline).expect("= raises volume");
    assert_eq!(shifted, unshifted);
    assert!(unshifted > baseline);
}

#[test]
fn volume_down_accepts_both_spellings_of_its_key() {
    let baseline = 0.5;
    let unshifted = volume_after(KeyCode::Char('-'), baseline).expect("- lowers volume");
    let shifted = volume_after(KeyCode::Char('_'), baseline).expect("_ lowers volume");
    assert_eq!(shifted, unshifted);
    assert!(unshifted < baseline);
}

#[test]
fn the_two_directions_are_symmetric_to_press() {
    assert!(volume_after(KeyCode::Char('='), 0.5).is_some());
    assert!(volume_after(KeyCode::Char('-'), 0.5).is_some());
}

#[test]
fn a_resolved_podcast_pair_loads_the_episode_identity_not_the_enclosure() {
    let enclosure = "https://cdn.example.org/987.mp3";
    let (feed, episode) = match (
        FeedId::new("0123456789abcdef0123456789abcdef".to_string()),
        EpisodeKey::resolve(Some("ep-987"), None, None),
    ) {
        (Ok(feed), Ok(episode)) => (feed, episode),
        (feed, episode) => panic!("literal identities must parse: {feed:?} {episode:?}"),
    };
    let media = MediaId::PodcastEpisode { feed, episode };
    let location = match Url::parse(enclosure) {
        Ok(url) => SourceLocation::Http(url),
        Err(error) => panic!("a literal URL must parse: {error:?}"),
    };

    let commands = resume_commands(
        media.clone(),
        location,
        None,
        Volume::full(),
        LoadRequestId::from_raw(1),
    );
    match &commands[1] {
        PlaybackCommand::Load { media: loaded, source, resume, .. } => {
            assert_eq!(loaded, &media);
            assert!(matches!(source, SourceLocation::Http(url) if url.as_str() == enclosure));
            assert!(matches!(resume, ResumeIntent::StartAt(at) if *at == Duration::zero()));
            match NormalizedUrl::parse(enclosure) {
                Ok(url) => assert_ne!(loaded, &MediaId::RemoteUrl(url)),
                Err(error) => panic!("a literal URL must normalize: {error:?}"),
            }
        }
        other => panic!("the second command must be the load: {other:?}"),
    }
}

fn local(path: &str) -> MediaId {
    match AbsolutePath::new(path.to_owned()) {
        Ok(path) => MediaId::LocalFile(path),
        Err(error) => panic!("a literal absolute path must parse: {error:?}"),
    }
}

fn episode(guid: &str) -> MediaId {
    let feed = match FeedId::new("0123456789abcdef0123456789abcdef".to_string()) {
        Ok(feed) => feed,
        Err(error) => panic!("a literal feed ID must parse: {error:?}"),
    };
    let episode = match EpisodeKey::resolve(Some(guid), None, None) {
        Ok(episode) => episode,
        Err(error) => panic!("a literal key must resolve: {error:?}"),
    };
    MediaId::PodcastEpisode { feed, episode }
}

fn loaded(position: Duration, disposition: StartDisposition) -> PlaybackEvent {
    PlaybackEvent::Loaded {
        session_rev: 3,
        request: LoadRequestId::from_raw(1),
        media: local("/music/sonata.flac"),
        metadata: MediaMetadata {
            title: None,
            artist: None,
            album: None,
            year: None,
            duration: Some(Duration::from_secs(300)),
            duration_provenance: PositionProvenance::Established,
            front_cover: None,
        },
        capabilities: MediaCapabilities {
            continuity: Continuity::Finite,
            seek: SeekSupport::Native,
        },
        position,
        disposition,
    }
}

#[test]
fn a_resumed_position_is_shown_as_soon_as_the_track_opens() {
    let mut mirror = Mirror::default();
    mirror.apply(loaded(Duration::from_secs(93), StartDisposition::Resumed));

    assert_eq!(mirror.position, Duration::from_secs(93));
    assert_eq!(mirror.quality, PositionQuality::Exact);
    assert!(
        line(&mirror).contains("00:01:33"),
        "the resumed position is on the first line drawn, not 00:00:00: {}",
        line(&mirror)
    );
}

#[test]
fn the_resume_sequence_restores_volume_before_it_loads() {
    let candidate = ResumeCandidate { position: Duration::from_secs(93), completed: false };
    let commands = resume_commands(
        local("/music/sonata.flac"),
        SourceLocation::LocalPath("/music/sonata.flac".to_owned()),
        Some(ResumeIntent::Candidate(candidate)),
        gain(0.25),
        LoadRequestId::from_raw(1),
    );

    match &commands {
        [PlaybackCommand::SetVolume(volume), PlaybackCommand::Load { resume, .. }, PlaybackCommand::PlayLoaded { .. }] =>
        {
            assert_eq!(*volume, gain(0.25), "the stored gain, unchanged");
            assert_eq!(
                *resume,
                ResumeIntent::Candidate(candidate),
                "the persisted candidate, carried onward for the worker to resolve"
            );
        }
        other => panic!("volume must be issued before the load: {other:?}"),
    }
}

/// What was written, as it is read back.
fn reread(file: StateFile) -> RawState {
    RawState {
        schema_version: file.schema_version,
        current_media: file.current_media,
        volume: file.volume,
        checkpoints: file.checkpoints,
        queue: None,
        active_entry: None,
        playlists: Some(file.playlists),
        playing: Some(Json::Number(file.playing)),
        next_entry_id: file.next_entry_id.map(Json::Number),
        next_playlist_id: file.next_playlist_id.map(Json::Number),
    }
}

fn load(stored: &PersistedState) -> LoadOutcome {
    let decoded = decode_state("state.json", Ok(SCHEMA_VERSION), Ok(reread(stored.to_file())), true);
    match begin_load(StateRead::Decoded(decoded)) {
        LoadStep::Done(outcome) => outcome,
        other => panic!("what was written reads back: {other:?}"),
    }
}

fn open(stored: &PersistedState, media: &MediaId) -> Launch {
    launch(load(stored), media)
}

#[test]
fn a_stored_entry_becomes_the_resume_candidate_and_the_restored_volume() {
    let media = episode("ep-1");
    let mut stored = PersistedState::default();
    stored.set_volume(gain(0.25));
    stored.record(
        &PlaybackCheckpoint {
            media: media.clone(),
            position: Duration::from_secs(93),
            updated_at: epoch(),
        },
        false,
    );

    let persistence = open(&stored, &media);

    assert_eq!(
        persistence.resume,
        Some(ResumeIntent::Candidate(ResumeCandidate {
            position: Duration::from_secs(93),
            completed: false,
        })),
        "the entry the file held, unresolved — only the worker's probe has a duration"
    );
    assert_eq!(persistence.volume, gain(0.25));
    assert!(persistence.persisting);
}

#[test]
fn a_stored_estimate_and_its_established_fallback_resolve_to_an_estimated_candidate() {
    let media = episode("ep-2");
    let mut stored = PersistedState::default();
    stored.record(
        &PlaybackCheckpoint {
            media: media.clone(),
            position: Duration::from_secs(40),
            updated_at: epoch(),
        },
        false,
    );
    stored.record_estimated(media.clone(), Duration::from_secs(97), epoch(), false);

    let persistence = open(&stored, &media);

    assert_eq!(
        persistence.resume,
        Some(ResumeIntent::EstimatedCandidate {
            target: Duration::from_secs(97),
            established: Some(Duration::from_secs(40)),
        })
    );
}

#[test]
fn a_stored_estimate_with_no_established_position_resolves_with_no_fallback() {
    let media = episode("ep-3");
    let mut stored = PersistedState::default();
    stored.record_estimated(media.clone(), Duration::from_secs(97), epoch(), false);

    let persistence = open(&stored, &media);

    assert_eq!(
        persistence.resume,
        Some(ResumeIntent::EstimatedCandidate {
            target: Duration::from_secs(97),
            established: None,
        })
    );
}

#[test]
fn a_completed_entry_ignores_a_stray_estimate_and_stays_an_ordinary_candidate() {
    let media = episode("ep-4");
    let mut stored = PersistedState::default();
    stored.record_estimated(media.clone(), Duration::from_secs(97), epoch(), true);

    let persistence = open(&stored, &media);

    assert_eq!(
        persistence.resume,
        Some(ResumeIntent::Candidate(ResumeCandidate {
            position: Duration::zero(),
            completed: true,
        }))
    );
}

#[test]
fn a_local_file_starts_from_the_beginning() {
    let media = local("/music/sonata.flac");
    let mut stored = PersistedState::default();
    stored.record(
        &PlaybackCheckpoint {
            media: media.clone(),
            position: Duration::from_secs(93),
            updated_at: epoch(),
        },
        false,
    );
    assert_eq!(open(&stored, &media).resume, None);
}

#[test]
fn a_newer_version_restores_nothing_and_disables_writing() {
    let decoded =
        decode_state("state.json", Ok(99), Ok(reread(PersistedState::default().to_file())), true);
    let outcome = match begin_load(StateRead::Decoded(decoded)) {
        LoadStep::Done(outcome) => outcome,
        other => panic!("kept in place, not moved aside: {other:?}"),
    };
    let persistence = launch(outcome, &local("/music/sonata.flac"));

    assert!(!persistence.persisting);
    assert_eq!(
        persistence.resume, None,
        "nothing is restored from a file this build cannot read"
    );
    assert_eq!(persistence.volume, Volume::full());
    assert!(
        matches!(
            classify_flush(ShutdownOutcome::Written, persistence.persisting),
            FlushReport::Disabled
        ),
        "a session that wrote nothing must not be reported as having written"
    );
}

#[test]
fn a_snapshot_reads_back_as_it_was_submitted() {
    let media = local("/music/sonata.flac");
    let mut advanced = PersistedState::default();
    advanced.set_volume(gain(0.5));
    advanced.set_current_media(media.clone());
    advanced.record(
        &PlaybackCheckpoint {
            media: media.clone(),
            position: Duration::from_secs(150),
            updated_at: epoch(),
        },
        false,
    );

    let written = load(&advanced).state;

    assert_eq!(
        written.entry_for(&media).unwrap().position,
        Some(Duration::from_secs(150)),
        "the file must hold the snapshot that was submitted, not the one it started with"
    );
    assert_eq!(written.volume(), gain(0.5));
    assert_eq!(written.current_media(), Some(&media));
}

#[test]
fn a_disabled_session_never_reports_a_written_checkpoint() {
    assert!(matches!(
        classify_flush(ShutdownOutcome::Written, false),
        FlushReport::Disabled
    ));
    assert!(matches!(
        classify_flush(ShutdownOutcome::Written, true),
        FlushReport::Written
    ));
}

#[test]
fn every_outcome_of_the_last_write_is_reported_as_it_is() {
    assert_eq!(
        classify_flush(ShutdownOutcome::Failed("disk full".to_owned()), true),
        FlushReport::Failed("disk full".to_owned())
    );
    assert_eq!(
        classify_flush(ShutdownOutcome::Unconfirmed, true),
        FlushReport::Unconfirmed
    );
    assert_eq!(
        classify_flush(ShutdownOutcome::Unconfirmed, false),
        FlushReport::Disabled
    );
}

#[test]
fn a_long_name_gives_way_so_the_position_stays_visible() {
    let name = "x".repeat(200);
    let fields = " [playing] 00:00:04 / 03:07:31  vol 80%";
    let row = fit_status(&name, fields, 80);
    assert_eq!(row.chars().count(), 80);
    assert!(row.ends_with(fields), "the fields must survive whole: {row}");
    assert!(row.contains('…'), "the name is what was cut: {row}");
}

#[test]
fn a_row_narrower_than_its_own_fields_is_still_cut_not_wrapped() {
    let row = fit_status(
        "Радио-Т 1030",
        " [playing] 00:00:04 / 03:07:31  vol 80%",
        12,
    );
    assert_eq!(row.chars().count(), 12);
}

#[test]
fn a_wide_name_is_cut_by_columns_so_the_row_still_fits() {
    let fields = " [playing] 00:00:04 / 03:07:31  vol 80%";
    let row = fit_status(&"界".repeat(40), fields, 60);
    assert!(row.ends_with(fields), "{row}");
    assert!(UnicodeWidthStr::width(row.as_str()) <= 60, "{row}");
    assert!(UnicodeWidthStr::width(row.as_str()) >= 59, "{row}");
}

#[test]
fn a_row_that_fits_keeps_its_whole_name() {
    let fields = " [playing] 00:00:04 / 03:07:31  vol 80%";
    assert_eq!(
        fit_status("Радио-Т 1030", fields, 80),
        format!("Радио-Т 1030{fields}")
    );
}

#[test]
fn a_title_carrying_a_terminal_escape_is_rendered_inert() {
    let mirror = Mirror {
        name: Some("Радио-Т\u{1b}[2J\u{202e}1030".to_owned()),
        ..Mirror::default()
    };
    let (name, _) = status_parts(&mirror, 100);
    assert!(!name.contains('\u{1b}'), "raw ESC reached the row: {name:?}");
    assert!(
        !name.contains('\u{202e}'),
        "raw bidi override reached the row: {name:?}"
    );
    assert!(name.starts_with("Радио-Т"));
}

fn mirror_with_capabilities(seek: SeekSupport) -> Mirror {
    Mirror {
        capabilities: Some(MediaCapabilities { continuity: Continuity::Finite, seek }),
        ..Mirror::default()
    }
}

#[test]
fn a_live_source_reads_live_not_as_a_duration() {
    let mut mirror = mirror_with_capabilities(SeekSupport::Unsupported);
    if let Some(capabilities) = mirror.capabilities.as_mut() {
        capabilities.continuity = Continuity::Indefinite;
    }
    let line = line(&mirror);
    assert!(line.contains("live"), "{line}");
}

#[test]
fn an_unresolved_seek_capability_is_marked_distinctly_from_unsupported() {
    let unresolved = line(&mirror_with_capabilities(SeekSupport::Unknown));
    let unsupported = line(&mirror_with_capabilities(SeekSupport::Unsupported));
    assert!(unresolved.contains("seek?"), "{unresolved}");
    assert!(!unresolved.contains("no-seek"), "{unresolved}");
    assert!(unsupported.contains("no-seek"), "{unsupported}");
}

#[test]
fn a_seekable_source_carries_no_seek_note_at_all() {
    let line = line(&mirror_with_capabilities(SeekSupport::Native));
    assert!(!line.contains("seek?"), "{line}");
    assert!(!line.contains("no-seek"), "{line}");
}

#[test]
fn buffering_is_shown_only_as_a_detail_of_playing() {
    let mut mirror = Mirror {
        state: PlaybackState::Playing,
        buffering: true,
        ..Mirror::default()
    };
    assert!(line(&mirror).contains("buffering"), "{}", line(&mirror));

    mirror.state = PlaybackState::Paused;
    assert!(!line(&mirror).contains("buffering"), "{}", line(&mirror));
}

#[test]
fn degraded_quality_does_not_imply_buffering() {
    let mirror = Mirror {
        state: PlaybackState::Playing,
        quality: PositionQuality::Degraded,
        buffering: false,
        ..Mirror::default()
    };
    assert!(!line(&mirror).contains("buffering"), "{}", line(&mirror));
}

#[test]
fn the_status_row_says_everything_in_order() {
    let mirror = Mirror {
        name: Some("Sonata".to_owned()),
        state: PlaybackState::Playing,
        position: Duration::from_secs(93),
        duration: Some(Duration::from_secs(300)),
        quality: PositionQuality::Degraded,
        provenance: PositionProvenance::Estimated,
        ..mirror_with_capabilities(SeekSupport::Unknown)
    };
    assert_eq!(
        status_line(&mirror, 80),
        "Sonata [playing] seek? 00:01:33 ~ ~est / 00:05:00  vol 80%"
    );
    assert_eq!(
        status_line(&Mirror::default(), 100),
        "(no media) [idle] 00:00:00 / --:--:--  vol 100%"
    );
}

#[test]
fn capabilities_changed_updates_the_mirror_without_disturbing_position() {
    let mut mirror = Mirror { position: Duration::from_secs(42), ..Mirror::default() };
    mirror.apply(PlaybackEvent::CapabilitiesChanged {
        session_rev: 7,
        capabilities: MediaCapabilities {
            continuity: Continuity::Finite,
            seek: SeekSupport::Native,
        },
    });
    assert_eq!(mirror.session_rev, 7);
    assert_eq!(
        mirror.capabilities.map(|capabilities| capabilities.seek),
        Some(SeekSupport::Native)
    );
    assert_eq!(
        mirror.position,
        Duration::from_secs(42),
        "unrelated to capability evidence"
    );
}

#[test]
fn a_fresh_load_clears_a_stale_buffering_flag() {
    let mut mirror = Mirror { buffering: true, ..Mirror::default() };
    mirror.apply(loaded(Duration::zero(), StartDisposition::Fresh));
    assert!(
        !mirror.buffering,
        "a fresh load must clear a stale buffering flag"
    );
}

fn progress_at(position: Duration) -> Progress {
    Progress {
        session_rev: 0,
        media: None,
        position,
        quality: PositionQuality::Exact,
        provenance: PositionProvenance::Established,
        buffering: false,
        load: None,
    }
}

#[test]
fn progress_arriving_during_a_burst_does_not_yank_the_display_back() {
    let mut mirror = Mirror {
        position: Duration::from_secs(60),
        provenance: PositionProvenance::Estimated,
        ..Mirror::default()
    };
    apply_progress(&mut mirror, &progress_at(Duration::from_secs(100)), true);
    assert_eq!(mirror.position, Duration::from_secs(60));
    assert_eq!(mirror.provenance, PositionProvenance::Estimated);
}

#[test]
fn buffering_still_reaches_the_display_during_a_burst() {
    let mut mirror = Mirror::default();
    let progress = Progress { buffering: true, ..progress_at(Duration::from_secs(100)) };
    apply_progress(&mut mirror, &progress, true);
    assert!(mirror.buffering);
}

#[test]
fn the_landing_corrects_the_display_once_the_burst_closes() {
    let mut mirror = Mirror {
        position: Duration::from_secs(60),
        provenance: PositionProvenance::Estimated,
        ..Mirror::default()
    };
    apply_progress(&mut mirror, &progress_at(Duration::from_secs(58)), false);
    assert_eq!(mirror.position, Duration::from_secs(58));
    assert_eq!(mirror.provenance, PositionProvenance::Established);
}

#[test]
fn a_predicted_landing_is_marked_as_a_guess() {
    let mut mirror = Mirror::default();
    mirror.predict(Duration::from_secs(60));
    assert_eq!(mirror.position, Duration::from_secs(60));
    assert_eq!(mirror.provenance, PositionProvenance::Estimated);
    mirror.apply(PlaybackEvent::SeekTargetStored { session_rev: 4, target: Duration::from_secs(58) });
    assert_eq!(mirror.position, Duration::from_secs(58));
}

#[test]
fn keys_are_commands() {
    assert_eq!(to_command(press(KeyCode::Char(' '))), Some(PlaybackCommand::TogglePause));
    assert_eq!(to_command(press(KeyCode::Left)), Some(PlaybackCommand::SeekBy(-10)));
    assert_eq!(to_command(press(KeyCode::Right)), Some(PlaybackCommand::SeekBy(10)));
    assert_eq!(to_command(press(KeyCode::Home)), Some(PlaybackCommand::Restart));
    assert_eq!(to_command(press(KeyCode::Char('s'))), Some(PlaybackCommand::Stop));
    assert_eq!(to_command(press(KeyCode::Char('p'))), Some(PlaybackCommand::Play));
    assert_eq!(to_command(press(KeyCode::Char('x'))), None);
}

#[test]
fn an_episode_is_played_under_its_own_identity_and_probed_at_its_audio() {
    let url = Url::parse("https://cdn.example.org/987.mp3").expect("a literal URL");
    assert_eq!(
        episode_plan(episode("ep-1"), SourceLocation::Http(url.clone()), true),
        EpisodePlan::Probe(url.clone())
    );
    assert_eq!(
        episode_plan(episode("ep-1"), SourceLocation::Http(url.clone()), false),
        EpisodePlan::Play { media: episode("ep-1"), source: SourceLocation::Http(url) }
    );
    assert_eq!(
        episode_plan(episode("ep-1"), SourceLocation::LocalPath("/a".to_owned()), true),
        EpisodePlan::Malformed
    );
}

#[test]
fn a_command_line_is_a_plan() {
    assert_eq!(
        plan(Cli { command: None }),
        RunPlan::Tui { mouse: MouseMode::On, artwork: ArtworkMode::Auto }
    );
    let play = |index, probe_only| {
        plan(Cli {
            command: Some(CliCommand::Play { source: "show".to_owned(), index, probe_only }),
        })
    };
    assert_eq!(play(None, false), RunPlan::Play { source: "show".to_owned() });
    assert_eq!(play(None, true), RunPlan::Probe { source: "show".to_owned() });
    assert_eq!(
        play(Some(3), true),
        RunPlan::PlayEpisode { slug: "show".to_owned(), index: 3, probe_only: true }
    );
    assert_eq!(
        plan(Cli { command: Some(CliCommand::Feeds) }),
        RunPlan::Library(CliCommand::Feeds)
    );
}

#[test]
fn a_signal_is_reported_before_a_failure() {
    assert_eq!(
        run_outcome(RunOutcome::Signalled(15), Some("failed".to_owned())),
        Ok(RunOutcome::Signalled(15))
    );
    assert_eq!(
        run_outcome(RunOutcome::Completed, Some("failed".to_owned())),
        Err("failed".to_owned())
    );
    assert_eq!(run_outcome(RunOutcome::Completed, None), Ok(RunOutcome::Completed));
}

#[test]
fn a_lost_terminal_ends_the_run() {
    assert_eq!(key_step(KeyRead::Nothing), KeyStep::GoOn);
    assert_eq!(key_step(KeyRead::Ended), KeyStep::Stop);
    assert_eq!(
        key_step(KeyRead::Key(press(KeyCode::Char('q')))),
        KeyStep::Stop
    );
    assert_eq!(
        key_step(KeyRead::Key(press(KeyCode::Left))),
        KeyStep::Send(PlaybackCommand::SeekBy(-10))
    );
}

#[test]
fn a_pass_goes_on_until_the_track_is_over() {
    let ended = PlaybackEvent::EndOfTrack {
        session_rev: 1,
        position: Duration::from_secs(300),
        provenance: PositionProvenance::Established,
    };
    let failed = PlaybackEvent::Failed {
        session_rev: 1,
        request: None,
        message: "gone".to_owned(),
    };
    assert_eq!(after_loading_pass(drain(&vec![])), Phase::GoOn);
    assert_eq!(
        after_loading_pass(drain(&vec![loaded(Duration::zero(), StartDisposition::Fresh)])),
        Phase::Loaded
    );
    assert_eq!(
        after_loading_pass(drain(&vec![failed])),
        Phase::Failed("gone".to_owned())
    );
    assert_eq!(
        after_playing_pass(drain(&vec![ended]), false, PlaybackState::Ended),
        Phase::Done
    );
    assert_eq!(
        after_playing_pass(drain(&vec![]), true, PlaybackState::Ended),
        Phase::GoOn,
        "with a terminal a key ends the run"
    );
}

#[test]
fn only_the_current_revision_is_shown() {
    let mirror = Mirror { session_rev: 2, ..Mirror::default() };
    assert!(!shows_progress(&mirror, &progress_at(Duration::zero())));
    assert!(shows_progress(
        &mirror,
        &Progress { session_rev: 2, ..progress_at(Duration::zero()) }
    ));
}
