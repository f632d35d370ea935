use tenuto::application::command::{AppCommand, EnqueueItem, SeekPoint};
use tenuto::application::transport::{PlaybackPhase, QUEUE_EMPTY};
use tenuto::application::view::{NowPlaying, PersistenceStatus, PlayerView, PlaylistTab, QueueRow};
use tenuto::clock::Duration;
use tenuto::media::{AbsolutePath, MediaId};
use tenuto::playback::{PlaybackState, PositionProvenance, Volume};
use tenuto::playlist::PlaylistId;
use tenuto::queue::{Direction, DisplayDuration, DurationSource, QueueEntryId};
use tenuto::tui::geometry::Rect;
use tenuto::tui::input::{handle_key, handle_mouse, routes_to_browser, Effect, LAST_PLAYLIST};
use tenuto::tui::keys::{KeyCode, KeyEvent, KeyKind, MouseButton, MouseEvent, MouseKind};
use tenuto::tui::render::{HitMap, TransportButton};
use tenuto::tui::state::{InputPurpose, Overlay, UiState};

fn id(raw: u64) -> QueueEntryId {
    QueueEntryId::from_raw(raw)
}

fn list(raw: u64) -> PlaylistId {
    PlaylistId::from_raw(raw)
}

fn row(raw: u64) -> QueueRow {
    let path = AbsolutePath::new(format!("/music/{raw}.flac")).expect("absolute");
    QueueRow {
        id: id(raw),
        media: MediaId::LocalFile(path),
        title: format!("Track {raw}"),
        subtitle: None,
        duration: None,
        saved: None,
    }
}

fn tab(raw: u64, name: &str) -> PlaylistTab {
    PlaylistTab { id: list(raw), name: name.to_owned(), playing: raw == 1, shuffled: false }
}

fn view(rows: u64) -> PlayerView {
    PlayerView {
        rows: (1..=rows).map(row).collect(),
        tabs: vec![tab(1, "Default"), tab(2, "Other")],
        viewed: list(2),
        active: None,
        now_playing: None,
        phase: PlaybackPhase::Unloaded,
        volume: Volume::full(),
        status: None,
        persistence: PersistenceStatus::Saving,
        last_requested: None,
        live: false,
        reconnecting: false,
    }
}

fn playing(source: DurationSource, loaded: bool) -> NowPlaying {
    NowPlaying {
        entry: None,
        title: "Track".to_owned(),
        artist: None,
        album: None,
        year: None,
        loaded,
        state: PlaybackState::Playing,
        position: Duration::zero(),
        duration: Some(DisplayDuration { value: Duration::from_secs(100), source }),
        estimated_position: false,
        degraded: false,
        buffering: false,
        seek: None,
        saved: None,
        session_rev: 1,
        load: None,
    }
}

fn key(code: KeyCode) -> KeyEvent {
    KeyEvent { code, kind: KeyKind::Press, control: false, alt: false }
}

fn control(c: char) -> KeyEvent {
    KeyEvent { control: true, ..key(KeyCode::Char(c)) }
}

fn press(ui: &mut UiState, view: &PlayerView, code: KeyCode) -> Vec<Effect> {
    handle_key(key(code), ui, view)
}

fn open(overlay: Overlay) -> UiState {
    let mut ui = UiState::new(true);
    ui.overlay = overlay;
    ui
}

#[test]
fn every_binding_asks_for_its_command() {
    let mut ui = UiState::new(true);
    ui.selected = Some(id(2));
    let shown = view(3);
    for (code, command) in [
        (KeyCode::Char(' '), AppCommand::PlayPause),
        (KeyCode::Char('p'), AppCommand::Play),
        (KeyCode::Char('s'), AppCommand::Stop),
        (KeyCode::Home, AppCommand::Restart),
        (KeyCode::Char('['), AppCommand::Previous),
        (KeyCode::Char(']'), AppCommand::Next),
        (KeyCode::Left, AppCommand::SeekBy(-10)),
        (KeyCode::Right, AppCommand::SeekBy(10)),
        (KeyCode::Char('-'), AppCommand::AdjustVolume(-1)),
        (KeyCode::Char('_'), AppCommand::AdjustVolume(-1)),
        (KeyCode::Char('+'), AppCommand::AdjustVolume(1)),
        (KeyCode::Char('='), AppCommand::AdjustVolume(1)),
        (KeyCode::Enter, AppCommand::PlayEntry(id(2))),
        (KeyCode::Char('d'), AppCommand::Remove(id(2))),
        (KeyCode::Char('K'), AppCommand::Move(id(2), Direction::Up)),
        (KeyCode::Char('J'), AppCommand::Move(id(2), Direction::Down)),
        (KeyCode::Tab, AppCommand::ViewNext),
        (KeyCode::BackTab, AppCommand::ViewPrevious),
        (KeyCode::Char('z'), AppCommand::ToggleShuffle(list(2))),
    ] {
        assert_eq!(press(&mut ui, &shown, code), vec![Effect::App(command)], "{code:?}");
        assert_eq!(ui.overlay, Overlay::Closed);
        assert_eq!(ui.selected, Some(id(2)));
    }
    assert_eq!(press(&mut ui, &shown, KeyCode::Char('b')), vec![Effect::OpenBrowser]);
    assert_eq!(press(&mut ui, &shown, KeyCode::Char('q')), vec![Effect::Quit]);
    assert_eq!(press(&mut ui, &shown, KeyCode::Esc), vec![]);
    assert_eq!(press(&mut ui, &shown, KeyCode::Char('x')), vec![]);
    assert_eq!(
        press(&mut ui, &shown, KeyCode::Char('m')),
        vec![Effect::SetMouseCapture(false)]
    );
    assert!(!ui.mouse_capture);
}

#[test]
fn without_a_selection_there_is_nothing_to_act_on() {
    let mut ui = UiState::new(true);
    let empty = view(0);
    assert_eq!(press(&mut ui, &empty, KeyCode::Enter), vec![Effect::Notice(QUEUE_EMPTY)]);
    for c in ['d', 'K', 'J'] {
        assert_eq!(press(&mut ui, &empty, KeyCode::Char(c)), vec![]);
    }
    ui.selected = Some(id(9));
    press(&mut ui, &empty, KeyCode::Down);
    assert_eq!(ui.selected, None, "no rows, no selection");
}

#[test]
fn the_selection_stops_at_the_ends() {
    let mut ui = UiState::new(true);
    let shown = view(3);
    for (code, expected) in [
        (KeyCode::Down, 1),
        (KeyCode::Down, 2),
        (KeyCode::Char('j'), 3),
        (KeyCode::Down, 3),
        (KeyCode::Up, 2),
        (KeyCode::Char('k'), 1),
        (KeyCode::Up, 1),
    ] {
        assert_eq!(press(&mut ui, &shown, code), vec![]);
        assert_eq!(ui.selected, Some(id(expected)));
    }
    ui.selected = Some(id(99));
    press(&mut ui, &shown, KeyCode::Up);
    assert_eq!(ui.selected, Some(id(1)), "a row that is gone gives way to the first");
}

#[test]
fn a_chord_or_a_release_fires_nothing() {
    let mut ui = UiState::new(true);
    ui.selected = Some(id(1));
    let shown = view(3);
    assert_eq!(handle_key(control('d'), &mut ui, &shown), vec![]);
    let alt = KeyEvent { alt: true, ..key(KeyCode::Char('d')) };
    assert_eq!(handle_key(alt, &mut ui, &shown), vec![]);
    for kind in [KeyKind::Release, KeyKind::Repeat] {
        let event = KeyEvent { kind, ..key(KeyCode::Char('q')) };
        assert_eq!(handle_key(event, &mut ui, &shown), vec![]);
    }
    for overlay in [
        Overlay::Closed,
        Overlay::Help,
        Overlay::Browser,
        Overlay::ConfirmClear(list(1)),
        Overlay::Input(InputPurpose::NewPlaylist),
    ] {
        let mut ui = open(overlay);
        assert_eq!(handle_key(control('c'), &mut ui, &shown), vec![Effect::Quit]);
        assert_eq!(handle_key(control('l'), &mut ui, &shown), vec![Effect::FullRedraw]);
        assert_eq!(ui.overlay, overlay, "what is open stays as it was");
    }
}

#[test]
fn typed_text_goes_where_the_overlay_was_opened_for() {
    let mut ui = UiState::new(true);
    let mut shown = view(1);
    assert_eq!(press(&mut ui, &shown, KeyCode::Char('a')), vec![]);
    assert_eq!(ui.overlay, Overlay::Input(InputPurpose::AddUrl(list(2))));
    for c in " qhttp://h/x ".chars().filter(|c| *c != 'q') {
        assert_eq!(press(&mut ui, &shown, KeyCode::Char(c)), vec![]);
    }
    press(&mut ui, &shown, KeyCode::Char('\u{7}'));
    press(&mut ui, &shown, KeyCode::Char('y'));
    press(&mut ui, &shown, KeyCode::Backspace);
    assert_eq!(ui.input, " http://h/x ");
    shown.viewed = list(1);
    assert_eq!(
        press(&mut ui, &shown, KeyCode::Enter),
        vec![Effect::App(AppCommand::Enqueue {
            dest: list(2),
            items: vec![EnqueueItem::Url("http://h/x".to_owned())],
        })]
    );
    assert_eq!((ui.overlay, ui.input.as_str()), (Overlay::Closed, ""));
}

#[test]
fn names_are_typed_over_the_one_there_is() {
    let mut ui = UiState::new(true);
    let shown = view(1);
    press(&mut ui, &shown, KeyCode::Char('r'));
    assert_eq!(ui.input, "Other");
    press(&mut ui, &shown, KeyCode::Char('s'));
    assert_eq!(
        press(&mut ui, &shown, KeyCode::Enter),
        vec![Effect::App(AppCommand::RenamePlaylist(list(2), "Others".to_owned()))]
    );
    press(&mut ui, &shown, KeyCode::Char('n'));
    assert_eq!(ui.overlay, Overlay::Input(InputPurpose::NewPlaylist));
    assert_eq!(press(&mut ui, &shown, KeyCode::Enter), vec![], "nothing was typed");
    press(&mut ui, &shown, KeyCode::Char('n'));
    press(&mut ui, &shown, KeyCode::Char('x'));
    assert_eq!(
        press(&mut ui, &shown, KeyCode::Enter),
        vec![Effect::App(AppCommand::CreatePlaylist("x".to_owned()))]
    );
    press(&mut ui, &shown, KeyCode::Char('n'));
    press(&mut ui, &shown, KeyCode::Char('x'));
    assert_eq!(press(&mut ui, &shown, KeyCode::Esc), vec![]);
    assert_eq!((ui.overlay, ui.input.as_str()), (Overlay::Closed, ""));
}

#[test]
fn only_a_yes_clears_or_deletes() {
    let mut shown = view(1);
    let mut ui = UiState::new(true);
    press(&mut ui, &shown, KeyCode::Char('c'));
    assert_eq!(ui.overlay, Overlay::ConfirmClear(list(2)));
    shown.viewed = list(1);
    assert_eq!(
        press(&mut ui, &shown, KeyCode::Char('y')),
        vec![Effect::App(AppCommand::ClearPlaylist(list(2)))]
    );
    assert_eq!(ui.overlay, Overlay::Closed);
    for event in [key(KeyCode::Char('n')), key(KeyCode::Enter), control('y')] {
        let mut ui = open(Overlay::ConfirmDelete(list(2)));
        assert_eq!(handle_key(event, &mut ui, &shown), vec![]);
        assert_eq!(ui.overlay, Overlay::Closed);
    }
    press(&mut ui, &shown, KeyCode::Char('D'));
    assert_eq!(ui.overlay, Overlay::ConfirmDelete(list(1)));
    assert_eq!(
        press(&mut ui, &shown, KeyCode::Char('y')),
        vec![Effect::App(AppCommand::DeletePlaylist(list(1)))]
    );
    shown.tabs.truncate(1);
    assert_eq!(
        press(&mut ui, &shown, KeyCode::Char('D')),
        vec![Effect::Notice(LAST_PLAYLIST)]
    );
    assert_eq!(ui.overlay, Overlay::Closed);
}

#[test]
fn help_is_closed_by_its_own_key_or_escape() {
    let shown = view(1);
    let mut ui = UiState::new(true);
    press(&mut ui, &shown, KeyCode::Char('?'));
    assert_eq!(ui.overlay, Overlay::Help);
    assert_eq!(press(&mut ui, &shown, KeyCode::Char('q')), vec![]);
    assert_eq!(ui.overlay, Overlay::Help);
    press(&mut ui, &shown, KeyCode::Char('?'));
    assert_eq!(ui.overlay, Overlay::Closed);
    let mut ui = open(Overlay::Help);
    press(&mut ui, &shown, KeyCode::Esc);
    assert_eq!(ui.overlay, Overlay::Closed);
}

#[test]
fn the_open_browser_takes_every_other_key() {
    let ui = open(Overlay::Browser);
    assert!(routes_to_browser(&key(KeyCode::Char('q')), &ui));
    assert!(!routes_to_browser(&control('c'), &ui));
    assert!(!routes_to_browser(&control('l'), &ui));
    assert!(routes_to_browser(&control('d'), &ui));
    assert!(!routes_to_browser(&key(KeyCode::Char('q')), &UiState::new(true)));
}

fn area(x: u16, y: u16, width: u16) -> Rect {
    Rect { x, y, width, height: 1 }
}

fn hits() -> HitMap {
    HitMap {
        tabs: vec![(area(0, 0, 5), list(1)), (area(5, 0, 5), list(2))],
        rows: vec![(area(0, 2, 20), id(1)), (area(0, 3, 20), id(2))],
        queue: Rect { x: 0, y: 2, width: 20, height: 5 },
        progress: area(10, 9, 50),
        buttons: vec![
            (area(0, 8, 3), TransportButton::Previous),
            (area(3, 8, 3), TransportButton::SeekBack),
            (area(6, 8, 3), TransportButton::PlayPause),
            (area(9, 8, 3), TransportButton::Stop),
            (area(12, 8, 3), TransportButton::SeekForward),
            (area(15, 8, 3), TransportButton::Next),
            (area(18, 8, 3), TransportButton::Shuffle),
        ],
    }
}

fn mouse(kind: MouseKind, column: u16, row: u16) -> MouseEvent {
    MouseEvent { kind, column, row }
}

fn click(ui: &mut UiState, view: &PlayerView, column: u16, row: u16) -> Vec<Effect> {
    handle_mouse(mouse(MouseKind::Down(MouseButton::Left), column, row), &hits(), ui, view)
}

#[test]
fn a_click_acts_on_what_is_under_it() {
    let mut ui = UiState::new(true);
    let shown = view(2);
    assert_eq!(click(&mut ui, &shown, 6, 0), vec![Effect::App(AppCommand::View(list(2)))]);
    for (column, command) in [
        (0, AppCommand::Previous),
        (4, AppCommand::SeekBy(-10)),
        (6, AppCommand::PlayPause),
        (9, AppCommand::Stop),
        (12, AppCommand::SeekBy(10)),
        (15, AppCommand::Next),
        (20, AppCommand::ToggleShuffle(list(2))),
    ] {
        assert_eq!(click(&mut ui, &shown, column, 8), vec![Effect::App(command)]);
    }
    assert_eq!(click(&mut ui, &shown, 3, 3), vec![], "the first click selects");
    assert_eq!(ui.selected, Some(id(2)));
    assert_eq!(
        click(&mut ui, &shown, 3, 3),
        vec![Effect::App(AppCommand::PlayEntry(id(2)))],
        "the second plays"
    );
    assert_eq!(click(&mut ui, &shown, 70, 20), vec![]);
}

#[test]
fn the_bar_seeks_only_within_a_confirmed_length() {
    let mut ui = UiState::new(true);
    let decoded = DurationSource::Decoded(PositionProvenance::Estimated);
    let mut shown = view(2);
    assert_eq!(click(&mut ui, &shown, 20, 9), vec![], "nothing is loaded");
    shown.now_playing = Some(playing(decoded, false));
    assert_eq!(click(&mut ui, &shown, 20, 9), vec![], "it is not open yet");
    shown.now_playing = Some(playing(DurationSource::Declared, true));
    assert_eq!(click(&mut ui, &shown, 20, 9), vec![], "the length is a claim");
    shown.now_playing = Some(playing(decoded, true));
    assert_eq!(
        click(&mut ui, &shown, 35, 9),
        vec![Effect::App(AppCommand::SeekTo(SeekPoint {
            duration: Duration::from_secs(100),
            column: 25,
            columns: 50,
        }))]
    );
    assert_eq!(click(&mut ui, &shown, 60, 9), vec![], "past the bar");
}

#[test]
fn the_wheel_moves_the_selection_over_the_queue() {
    let mut ui = UiState::new(true);
    let shown = view(3);
    ui.selected = Some(id(2));
    handle_mouse(mouse(MouseKind::ScrollDown, 1, 4), &hits(), &mut ui, &shown);
    assert_eq!(ui.selected, Some(id(3)));
    handle_mouse(mouse(MouseKind::ScrollUp, 1, 4), &hits(), &mut ui, &shown);
    assert_eq!(ui.selected, Some(id(2)));
    handle_mouse(mouse(MouseKind::ScrollUp, 1, 9), &hits(), &mut ui, &shown);
    assert_eq!(ui.selected, Some(id(2)), "elsewhere it does nothing");
    for kind in [
        MouseKind::Moved,
        MouseKind::Up(MouseButton::Left),
        MouseKind::Drag(MouseButton::Left),
        MouseKind::Down(MouseButton::Right),
    ] {
        assert_eq!(handle_mouse(mouse(kind, 6, 8), &hits(), &mut ui, &shown), vec![]);
    }
}

#[test]
fn a_click_never_reaches_behind_an_overlay() {
    let shown = view(3);
    let mut covered = open(Overlay::Help);
    assert_eq!(click(&mut covered, &shown, 6, 8), vec![]);
    let mut released = UiState::new(false);
    assert_eq!(click(&mut released, &shown, 6, 8), vec![]);
    assert_eq!(click(&mut released, &shown, 3, 3), vec![]);
    assert_eq!(released.selected, None);
}

#[test]
fn the_selection_follows_the_queue() {
    let mut ui = UiState::new(true);
    ui.reconcile(&view(3), None);
    assert_eq!(ui.selected, Some(id(1)), "the first row to begin with");
    ui.reconcile(&view(3), Some(id(3)));
    assert_eq!(ui.selected, Some(id(3)), "a hint is followed");
    ui.reconcile(&view(3), Some(id(9)));
    assert_eq!(ui.selected, Some(id(3)), "unless it names no row");
    ui.queue_offset = 2;
    ui.reconcile(&view(2), None);
    assert_eq!((ui.selected, ui.queue_offset), (Some(id(1)), 1));
    let mut other = view(2);
    other.viewed = list(1);
    ui.reconcile(&other, None);
    assert_eq!(ui.queue_offset, 0, "another playlist begins at its top");
    ui.reconcile(&view(0), None);
    assert_eq!((ui.selected, ui.queue_offset), (None, 0));
}
