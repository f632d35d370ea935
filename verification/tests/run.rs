use std::collections::VecDeque;
use tenuto::app::{FlushReport, RunOutcome};
use tenuto::application::browse::{BrowseRequest, BrowseResult, TreeCollected};
use tenuto::application::command::{AppCommand, EnqueueItem};
use tenuto::application::transport::PlaybackPhase;
use tenuto::persistence::queue_codec::{ActiveProblem, PlaylistProblem, QueueReset};
use tenuto::persistence::store::{QueueBackup, QueueRepair};
use tenuto::playlist::PlaylistId;
use tenuto::queue::QueueEntryId;
use tenuto::tui::browser::BrowserEffect;
use tenuto::tui::geometry::Rect;
use tenuto::tui::input::Effect;
use tenuto::tui::keys::{
    Event, KeyCode, KeyEvent, KeyKind, MouseButton, MouseEvent, MouseKind,
};
use tenuto::tui::run::{
    browser_task, drain_after, flush_message, interrupted, may_perform, next_stage, pass_step,
    report, route, start_directory, startup_status, wants_analysis, BrowserTask, Browsing, Drain,
    Ending, Interruption, Landed, Pass, PassStep, Route, RunError, Stage, StageStep, INPUT_POLL,
    MAX_EVENTS_PER_PASS,
};
use tenuto::tui::state::{Overlay, UiState};

fn mouse(kind: MouseKind) -> Event {
    Event::Mouse(MouseEvent { kind, column: 3, row: 4 })
}

fn motion() -> Event {
    mouse(MouseKind::Moved)
}

fn pressed(code: KeyCode, control: bool) -> Event {
    Event::Key(KeyEvent { code, kind: KeyKind::Press, control, alt: false })
}

fn key() -> Event {
    pressed(KeyCode::Char(' '), false)
}

/// Drains `pending` once, recording each poll's wait.
fn pass(
    pending: &mut VecDeque<Event>,
    waits: &mut Vec<u64>,
    mut handle: impl FnMut(Event) -> Drain,
) -> usize {
    let mut pass = Pass::new();
    while let Some(wait) = pass.wait() {
        waits.push(wait);
        match pending.pop_front() {
            Some(event) => {
                let drain = handle(event);
                pass.note(drain, false);
            }
            None => pass.idle(),
        }
    }
    pass.handled
}

#[test]
fn a_motion_flood_is_drained_in_bounded_passes_and_the_key_behind_it_is_reached() {
    let mut pending: VecDeque<Event> = std::iter::repeat_with(motion).take(600).collect();
    pending.push_back(key());
    let mut keys = 0;
    let mut waits = Vec::new();

    let first = pass(&mut pending, &mut waits, |event| {
        keys += usize::from(matches!(event, Event::Key(_)));
        drain_after(&event)
    });
    assert_eq!(
        first, MAX_EVENTS_PER_PASS,
        "bounded, so drawing is not starved"
    );
    assert_eq!(waits[0], INPUT_POLL, "only the first poll waits");
    assert!(waits[1..].iter().all(|wait| *wait == 0), "{waits:?}");

    let mut passes = 1;
    while keys == 0 {
        pass(&mut pending, &mut Vec::new(), |event| {
            keys += usize::from(matches!(event, Event::Key(_)));
            drain_after(&event)
        });
        passes += 1;
    }
    assert_eq!(passes, 3, "601 events take three passes, not 601");
    assert!(pending.is_empty());
}

#[test]
fn only_mouse_motion_lets_draining_continue() {
    for passing in [
        motion(),
        mouse(MouseKind::Drag(MouseButton::Left)),
        mouse(MouseKind::Up(MouseButton::Left)),
    ] {
        assert_eq!(drain_after(&passing), Drain::Continue, "{passing:?}");
    }
    for acting in [
        key(),
        mouse(MouseKind::Down(MouseButton::Left)),
        mouse(MouseKind::ScrollDown),
        Event::Resize(80, 24),
    ] {
        assert_eq!(drain_after(&acting), Drain::Stop, "{acting:?}");
    }
}

#[test]
fn a_key_behind_buffered_keys_keeps_its_own_pass() {
    let mut pending: VecDeque<Event> = [key(), key()].into_iter().collect();
    assert_eq!(
        pass(&mut pending, &mut Vec::new(), |event| drain_after(&event)),
        1
    );
    assert_eq!(pending.len(), 1);
}

#[test]
fn draining_stops_when_the_handler_says_so_and_waits_once_when_idle() {
    let mut pending: VecDeque<Event> = [key(), key(), key()].into_iter().collect();
    let handled = pass(&mut pending, &mut Vec::new(), |_| Drain::Stop);
    assert_eq!(handled, 1);
    assert_eq!(pending.len(), 2, "the rest wait for the next pass");

    let mut idle = VecDeque::new();
    let mut waits = Vec::new();
    assert_eq!(pass(&mut idle, &mut waits, |_| Drain::Continue), 0);
    assert_eq!(waits, vec![INPUT_POLL]);
}

#[test]
fn an_interruption_ends_the_pass_behind_a_motion() {
    let mut pass = Pass::new();
    pass.note(Drain::Continue, true);
    assert_eq!(pass.wait(), None);
}

fn tree(dest: PlaylistId) -> BrowseResult {
    BrowseResult::TreeCollected(TreeCollected {
        dest,
        items: vec!["/music/track.mp3".to_owned()],
    })
}

#[test]
fn a_tree_lands_though_its_browser_has_closed() {
    let dest = PlaylistId::from_raw_for_tests(1);
    let mut ui = UiState::new(false);
    let mut browsing = Browsing::new();
    let first = browsing.open("/music".to_owned(), dest, &mut ui);
    assert_eq!(first, BrowseRequest::Directory("/music".to_owned()));
    assert_eq!(ui.overlay, Overlay::Browser);
    browsing.close(&mut ui);
    assert_eq!(ui.overlay, Overlay::Closed);

    match browsing.land(tree(dest)) {
        Landed::Tree(tree) => {
            assert_eq!(tree.dest, dest);
            assert_eq!(tree.items, vec!["/music/track.mp3".to_owned()]);
        }
        other => panic!("the tree lands: {other:?}"),
    }
    assert!(browsing.state.is_none(), "still closed");
}

#[test]
fn a_tree_keeps_its_destination_though_the_browser_moved_elsewhere() {
    let dest = PlaylistId::from_raw_for_tests(7);
    let elsewhere = PlaylistId::from_raw_for_tests(9);
    let mut ui = UiState::new(false);
    let mut browsing = Browsing::new();
    browsing.open("/music".to_owned(), dest, &mut ui);
    browsing.open("/other".to_owned(), elsewhere, &mut ui);
    match browsing.land(tree(dest)) {
        Landed::Tree(tree) => assert_eq!(tree.dest, dest),
        other => panic!("the tree lands: {other:?}"),
    }
    assert_eq!(
        browsing.state.as_ref().map(|state| state.cwd.as_str()),
        Some("/other")
    );
}

#[test]
fn an_answer_reaches_the_open_browser_and_no_other() {
    let listing = || BrowseResult::Directory { path: "/music".to_owned(), entries: Ok(Vec::new()) };
    let mut ui = UiState::new(false);
    let mut browsing = Browsing::new();
    assert_eq!(browsing.land(listing()), Landed::Taken);
    browsing.open("/music".to_owned(), PlaylistId::from_raw(1), &mut ui);
    assert!(browsing.state.as_ref().is_some_and(|state| state.loading));
    assert_eq!(browsing.land(listing()), Landed::Taken);
    assert!(browsing.state.as_ref().is_some_and(|state| !state.loading));
}

#[test]
fn stages_follow_each_other_until_an_interruption() {
    assert_eq!(next_stage(None, false, false), StageStep::Start(Stage::Lock));
    assert_eq!(
        next_stage(Some(Stage::Runtime), false, false),
        StageStep::Start(Stage::Terminal)
    );
    assert_eq!(
        next_stage(Some(Stage::Log), false, true),
        StageStep::End(Interruption::Requested)
    );
    assert_eq!(interrupted(true, true), Some(Interruption::WorkerPanicked));
    assert_eq!(interrupted(false, false), None);
}

#[test]
fn the_first_frame_says_what_was_reset() {
    assert_eq!(startup_status(&None, true), None);
    assert_eq!(
        startup_status(&None, false).as_deref(),
        Some("This session is not saved")
    );
    let saved = QueueRepair {
        reset: QueueReset::Playlists(PlaylistProblem::Malformed),
        backup: QueueBackup::Saved("/state/queue.bak".to_owned()),
    };
    assert_eq!(
        startup_status(&Some(saved), true).as_deref(),
        Some("Queue data was reset (one or more playlists); backup at /state/queue.bak")
    );
    let failed = QueueRepair {
        reset: QueueReset::ActiveReference(ActiveProblem::Dangling),
        backup: QueueBackup::Failed,
    };
    assert_eq!(
        startup_status(&Some(failed), false).as_deref(),
        Some("Queue data was reset (the active queue entry); this session is not saved")
    );
}

#[test]
fn events_go_where_the_overlay_sends_them() {
    let mut ui = UiState::new(false);
    assert_eq!(route(&key(), &ui, false), Route::Keys);
    assert_eq!(route(&motion(), &ui, false), Route::Mouse);
    assert_eq!(route(&Event::Resize(1, 2), &ui, false), Route::Resized);
    assert_eq!(route(&Event::Other, &ui, false), Route::Nowhere);
    ui.overlay = Overlay::Browser;
    assert_eq!(route(&key(), &ui, true), Route::Browser);
    assert_eq!(route(&key(), &ui, false), Route::Orphaned);
    assert_eq!(route(&pressed(KeyCode::Char('c'), true), &ui, true), Route::Keys);
    assert_eq!(route(&pressed(KeyCode::Char('l'), true), &ui, true), Route::Keys);
}

#[test]
fn browser_effects_become_reads_and_effects() {
    let dest = PlaylistId::from_raw(1);
    assert_eq!(
        browser_task(BrowserEffect::Request(BrowseRequest::Feeds)),
        BrowserTask::Read(BrowseRequest::Feeds)
    );
    assert_eq!(
        browser_task(BrowserEffect::Enqueue {
            dest,
            items: vec![EnqueueItem::Path("/a".to_owned())]
        }),
        BrowserTask::Perform(Effect::App(AppCommand::Enqueue {
            dest,
            items: vec![EnqueueItem::Path("/a".to_owned())]
        }))
    );
    let id = QueueEntryId::from_raw(3);
    assert_eq!(
        browser_task(BrowserEffect::Remove(id)),
        BrowserTask::Perform(Effect::App(AppCommand::Remove(id)))
    );
    assert_eq!(
        browser_task(BrowserEffect::Close),
        BrowserTask::Perform(Effect::CloseBrowser)
    );
    assert!(!may_perform(&Effect::SetMouseCapture(true), true));
    assert!(may_perform(&Effect::SetMouseCapture(true), false));
    assert!(may_perform(&Effect::Quit, true));
}

#[test]
fn the_browser_opens_at_the_nearest_directory_known() {
    let some = |path: &str| Some(path.to_owned());
    assert_eq!(start_directory(some("/music"), some("/home")), "/music");
    assert_eq!(start_directory(None, some("/home")), "/home");
    assert_eq!(start_directory(None, None), "/");
}

#[test]
fn a_pass_ends_skips_or_draws() {
    assert_eq!(
        pass_step(false, true, true),
        PassStep::End(Interruption::Requested)
    );
    assert_eq!(pass_step(false, false, true), PassStep::Skip);
    assert_eq!(pass_step(false, false, false), PassStep::Draw);
    let place = Some(Rect { x: 0, y: 0, width: 1, height: 1 });
    assert!(wants_analysis(place, PlaybackPhase::Playing));
    assert!(!wants_analysis(place, PlaybackPhase::Paused));
    assert!(!wants_analysis(None, PlaybackPhase::Playing));
}

#[test]
fn a_run_reports_the_signal_before_the_failure() {
    let failed = || Ending::Failed("tty".to_owned());
    assert_eq!(
        report(failed(), RunOutcome::Signalled(1)),
        Ok(RunOutcome::Signalled(1))
    );
    assert_eq!(
        report(failed(), RunOutcome::Completed),
        Err(RunError::Failed("tty".to_owned()))
    );
    let panicked: Ending<String> = Ending::Interrupted(Interruption::WorkerPanicked);
    assert_eq!(
        report(panicked, RunOutcome::Signalled(1)),
        Err(RunError::WorkerPanicked)
    );
    let asked: Ending<String> = Ending::Interrupted(Interruption::Requested);
    assert_eq!(
        report(asked, RunOutcome::Completed),
        Ok(RunOutcome::Completed)
    );
}

#[test]
fn only_a_write_that_failed_is_mentioned() {
    assert_eq!(flush_message(&None), None);
    assert_eq!(flush_message(&Some(FlushReport::Written)), None);
    assert_eq!(flush_message(&Some(FlushReport::Disabled)), None);
    assert_eq!(
        flush_message(&Some(FlushReport::Failed("disk full".to_owned()))).as_deref(),
        Some("State was not saved: disk full")
    );
    assert_eq!(
        flush_message(&Some(FlushReport::Unconfirmed)).as_deref(),
        Some("State was not saved: the final write was not confirmed in time")
    );
}
