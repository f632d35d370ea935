//! The keyboard and mouse maps: an event, the front end's state and the last
//! drawn frame in, effects out.

use crate::application::command::{AppCommand, CommandView, EnqueueItem, ItemView, SeekPoint};
use crate::application::transport::QUEUE_EMPTY;
use crate::application::view::{PlayerView, ScreenView};
use crate::playlist::PlaylistId;
use crate::queue::{Direction, DisplayDuration, DurationSource, QueueEntryId};
use crate::text::{chars_of, control, pop_char, push_char, trim_text};
use crate::tui::geometry::{Position, Rect};
use crate::tui::keys::{blocks_ordinary_bindings, KeyCode, KeyEvent, KeyKind, MouseButton,
    MouseEvent, MouseKind};
use crate::tui::render::{hit, HitMap, TransportButton};
use crate::tui::state::{InputPurpose, Overlay, UiState, UiView};
use vstd::prelude::*;

verus! {

broadcast use crate::model::group_model;

/// Seconds per press of a seek key.
pub const SEEK_STEP: i64 = 10;

pub const LAST_PLAYLIST: &'static str = "The last playlist cannot be deleted";

/// What an event asks for.
#[derive(Debug, PartialEq, Eq)]
pub enum Effect {
    App(AppCommand),
    Quit,
    SetMouseCapture(bool),
    FullRedraw,
    OpenBrowser,
    CloseBrowser,
    /// A message that has no other effect.
    Notice(&'static str),
}

#[verifier::ext_equal]
pub enum EffectView {
    App(CommandView),
    Quit,
    SetMouseCapture(bool),
    FullRedraw,
    OpenBrowser,
    CloseBrowser,
    Notice(&'static str),
}

impl View for Effect {
    type V = EffectView;

    open spec fn view(&self) -> EffectView {
        match *self {
            Effect::App(command) => EffectView::App(command@),
            Effect::Quit => EffectView::Quit,
            Effect::SetMouseCapture(on) => EffectView::SetMouseCapture(on),
            Effect::FullRedraw => EffectView::FullRedraw,
            Effect::OpenBrowser => EffectView::OpenBrowser,
            Effect::CloseBrowser => EffectView::CloseBrowser,
            Effect::Notice(text) => EffectView::Notice(text),
        }
    }
}

/// The state after an event, and what it asks for.
pub type Reaction = (UiView, Option<EffectView>);

// ---------------------------------------------------------------- the model

impl ScreenView {
    /// The place of the first row for `id`.
    pub open spec fn row_of(self, id: Option<QueueEntryId>) -> Option<int> {
        match id {
            Some(row) => crate::model::position(self.ids(), crate::playlist::entry_is(row), 0),
            None => None,
        }
    }

    /// The row one step from the selected one, never past an end; the first
    /// where none is selected, and none where there are no rows.
    pub open spec fn stepped(self, selected: Option<QueueEntryId>, direction: Direction) -> Option<
        QueueEntryId,
    > {
        if self.rows.len() == 0 {
            None
        } else {
            let next = match self.row_of(selected) {
                None => 0,
                Some(at) => match direction {
                    Direction::Up => if at > 0 {
                        at - 1
                    } else {
                        0
                    },
                    Direction::Down => if at + 1 < self.rows.len() {
                        at + 1
                    } else {
                        self.rows.len() - 1
                    },
                },
            };
            Some(self.rows[next].id)
        }
    }

    /// The name of the viewed playlist's tab.
    pub open spec fn viewed_name(self) -> Seq<char> {
        match crate::model::position(self.tabs, crate::tui::tabs::tab_is(self.viewed), 0) {
            Some(at) => self.tabs[at].name,
            None => Seq::empty(),
        }
    }

    /// Where a click in the bar seeks to: only within a loaded track whose
    /// length the decoder confirmed.
    pub open spec fn seek_at(self, point: Position, progress: Rect) -> Option<CommandView> {
        match self.now_playing {
            Some(now) => match now.duration {
                Some(DisplayDuration { value, source: DurationSource::Decoded(_) }) => if now.loaded
                    && progress.covers(point) {
                    Some(
                        CommandView::SeekTo(
                            SeekPoint {
                                duration: value,
                                column: (point.x - progress.x) as u16,
                                columns: progress.width,
                            },
                        ),
                    )
                } else {
                    None
                },
                _ => None,
            },
            None => None,
        }
    }
}

impl InputPurpose {
    /// What a typed text asks for.
    pub open spec fn command(self, text: Seq<char>) -> CommandView {
        match self {
            InputPurpose::AddUrl(dest) => CommandView::Enqueue {
                dest,
                items: seq![ItemView::typed(text)],
            },
            InputPurpose::NewPlaylist => CommandView::CreatePlaylist(text),
            InputPurpose::Rename(id) => CommandView::RenamePlaylist(id, text),
        }
    }
}

impl TransportButton {
    pub open spec fn command(self, viewed: PlaylistId) -> CommandView {
        match self {
            TransportButton::Previous => CommandView::Previous,
            TransportButton::SeekBack => CommandView::SeekBy((-10int) as i64),
            TransportButton::SeekForward => CommandView::SeekBy(10),
            TransportButton::PlayPause => CommandView::PlayPause,
            TransportButton::Stop => CommandView::Stop,
            TransportButton::Next => CommandView::Next,
            TransportButton::Shuffle => CommandView::ToggleShuffle(viewed),
        }
    }
}

impl UiView {
    pub open spec fn closed(self) -> UiView {
        UiView { overlay: Overlay::Closed, ..self }
    }

    /// With the input overlay open.
    pub open spec fn typing(self, purpose: InputPurpose, initial: Seq<char>) -> UiView {
        UiView { overlay: Overlay::Input(purpose), input: initial, ..self }
    }

    /// A key while a text is typed: printable characters are taken, and no
    /// shortcut fires.
    pub open spec fn typed(self, key: KeyEvent, purpose: InputPurpose) -> Reaction {
        match key.code {
            KeyCode::Backspace => (
                UiView {
                    input: if self.input.len() > 0 {
                        self.input.drop_last()
                    } else {
                        self.input
                    },
                    ..self
                },
                None,
            ),
            KeyCode::Enter => {
                let text = crate::text::trim(self.input);
                (
                    UiView { overlay: Overlay::Closed, input: Seq::empty(), ..self },
                    if text.len() == 0 {
                        None
                    } else {
                        Some(EffectView::App(purpose.command(text)))
                    },
                )
            },
            KeyCode::Esc => (
                UiView { overlay: Overlay::Closed, input: Seq::empty(), ..self },
                None,
            ),
            KeyCode::Char(c) => if !crate::text::is_control(c) && !key.blocks() {
                (UiView { input: self.input.push(c), ..self }, None)
            } else {
                (self, None)
            },
            _ => (self, None),
        }
    }

    /// A key while a question is open: `y` says yes, and any other closes it.
    pub open spec fn answered(self, key: KeyEvent, on_yes: CommandView) -> Reaction {
        (
            self.closed(),
            if key.code == KeyCode::Char('y') && !key.blocks() {
                Some(EffectView::App(on_yes))
            } else {
                None
            },
        )
    }

    /// A key while help is open.
    pub open spec fn helped(self, key: KeyEvent) -> Reaction {
        if key.code == KeyCode::Char('?') || key.code == KeyCode::Esc {
            (self.closed(), None)
        } else {
            (self, None)
        }
    }

    /// A command with the selected entry, if there is one.
    pub open spec fn with_selected(self, command: spec_fn(QueueEntryId) -> CommandView) -> Reaction {
        (
            self,
            match self.selected {
                Some(id) => Some(EffectView::App(command(id))),
                None => None,
            },
        )
    }

    /// A key while nothing is open.
    pub open spec fn bound(self, code: KeyCode, view: ScreenView) -> Reaction {
        match code {
            KeyCode::Enter => (
                self,
                Some(
                    match self.selected {
                        Some(id) => EffectView::App(CommandView::PlayEntry(id)),
                        None => EffectView::Notice(QUEUE_EMPTY),
                    },
                ),
            ),
            KeyCode::Up => (
                UiView { selected: view.stepped(self.selected, Direction::Up), ..self },
                None,
            ),
            KeyCode::Down => (
                UiView { selected: view.stepped(self.selected, Direction::Down), ..self },
                None,
            ),
            KeyCode::Left => (self, Some(EffectView::App(CommandView::SeekBy((-10int) as i64)))),
            KeyCode::Right => (self, Some(EffectView::App(CommandView::SeekBy(10)))),
            KeyCode::Home => (self, Some(EffectView::App(CommandView::Restart))),
            KeyCode::Tab => (self, Some(EffectView::App(CommandView::ViewNext))),
            KeyCode::BackTab => (self, Some(EffectView::App(CommandView::ViewPrevious))),
            KeyCode::Char(c) => self.lettered(c, view),
            _ => (self, None),
        }
    }

    /// A character while nothing is open.
    pub open spec fn lettered(self, c: char, view: ScreenView) -> Reaction {
        if c == ' ' {
            (self, Some(EffectView::App(CommandView::PlayPause)))
        } else if c == 'k' {
            (UiView { selected: view.stepped(self.selected, Direction::Up), ..self }, None)
        } else if c == 'j' {
            (UiView { selected: view.stepped(self.selected, Direction::Down), ..self }, None)
        } else if c == 'K' {
            self.with_selected(|id: QueueEntryId| CommandView::Move(id, Direction::Up))
        } else if c == 'J' {
            self.with_selected(|id: QueueEntryId| CommandView::Move(id, Direction::Down))
        } else if c == '-' || c == '_' {
            (self, Some(EffectView::App(CommandView::AdjustVolume((-1int) as i8))))
        } else if c == '+' || c == '=' {
            (self, Some(EffectView::App(CommandView::AdjustVolume(1))))
        } else if c == 's' {
            (self, Some(EffectView::App(CommandView::Stop)))
        } else if c == 'p' {
            (self, Some(EffectView::App(CommandView::Play)))
        } else if c == '[' {
            (self, Some(EffectView::App(CommandView::Previous)))
        } else if c == ']' {
            (self, Some(EffectView::App(CommandView::Next)))
        } else if c == 'd' {
            self.with_selected(|id: QueueEntryId| CommandView::Remove(id))
        } else if c == 'b' {
            (self, Some(EffectView::OpenBrowser))
        } else if c == 'a' {
            (self.typing(InputPurpose::AddUrl(view.viewed), Seq::empty()), None)
        } else if c == 'c' {
            (UiView { overlay: Overlay::ConfirmClear(view.viewed), ..self }, None)
        } else if c == 'z' {
            (self, Some(EffectView::App(CommandView::ToggleShuffle(view.viewed))))
        } else if c == 'n' {
            (self.typing(InputPurpose::NewPlaylist, Seq::empty()), None)
        } else if c == 'r' {
            (self.typing(InputPurpose::Rename(view.viewed), view.viewed_name()), None)
        } else if c == 'D' {
            if view.tabs.len() <= 1 {
                (self, Some(EffectView::Notice(LAST_PLAYLIST)))
            } else {
                (UiView { overlay: Overlay::ConfirmDelete(view.viewed), ..self }, None)
            }
        } else if c == '?' {
            (UiView { overlay: Overlay::Help, ..self }, None)
        } else if c == 'm' {
            (
                UiView { mouse_capture: !self.mouse_capture, ..self },
                Some(EffectView::SetMouseCapture(!self.mouse_capture)),
            )
        } else if c == 'q' {
            (self, Some(EffectView::Quit))
        } else {
            (self, None)
        }
    }

    /// One key. Control-C quits and Control-L redraws whatever is open; every
    /// other key is for what is open.
    pub open spec fn keyed(self, key: KeyEvent, view: ScreenView) -> Reaction {
        if key.kind != KeyKind::Press {
            (self, None)
        } else if key.is_chord('c') {
            (self, Some(EffectView::Quit))
        } else if key.is_chord('l') {
            (self, Some(EffectView::FullRedraw))
        } else {
            match self.overlay {
                Overlay::Input(purpose) => self.typed(key, purpose),
                Overlay::ConfirmClear(id) => self.answered(key, CommandView::ClearPlaylist(id)),
                Overlay::ConfirmDelete(id) => self.answered(key, CommandView::DeletePlaylist(id)),
                Overlay::Help => self.helped(key),
                Overlay::Browser => (self, None),
                Overlay::Closed => if key.blocks() {
                    (self, None)
                } else {
                    self.bound(key.code, view)
                },
            }
        }
    }

    /// A click: a tab, else a button, else a row, else the bar.
    pub open spec fn clicked(self, point: Position, hits: HitMap, view: ScreenView) -> Reaction {
        let tab = crate::tui::render::hit_at(hits.tabs@, point, 0);
        let button = crate::tui::render::hit_at(hits.buttons@, point, 0);
        let row = crate::tui::render::hit_at(hits.rows@, point, 0);
        if tab is Some {
            (self, Some(EffectView::App(CommandView::View(tab.unwrap()))))
        } else if button is Some {
            (self, Some(EffectView::App(button.unwrap().command(view.viewed))))
        } else if row is Some {
            if self.selected == row {
                (self, Some(EffectView::App(CommandView::PlayEntry(row.unwrap()))))
            } else {
                (UiView { selected: row, ..self }, None)
            }
        } else {
            (
                self,
                match view.seek_at(point, hits.progress) {
                    Some(command) => Some(EffectView::App(command)),
                    None => None,
                },
            )
        }
    }

    /// One mouse event: nothing while the mouse is not captured, and nothing
    /// behind an overlay.
    pub open spec fn moused(self, event: MouseEvent, hits: HitMap, view: ScreenView) -> Reaction {
        let point = Position { x: event.column, y: event.row };
        if !self.mouse_capture || self.overlay != Overlay::Closed {
            (self, None)
        } else {
            match event.kind {
                MouseKind::Down(MouseButton::Left) => self.clicked(point, hits, view),
                MouseKind::ScrollUp => if hits.queue.covers(point) {
                    (UiView { selected: view.stepped(self.selected, Direction::Up), ..self }, None)
                } else {
                    (self, None)
                },
                MouseKind::ScrollDown => if hits.queue.covers(point) {
                    (
                        UiView { selected: view.stepped(self.selected, Direction::Down), ..self },
                        None,
                    )
                } else {
                    (self, None)
                },
                _ => (self, None),
            }
        }
    }
}

// ---------------------------------------------------------------- execution

/// The effects of a reaction: one or none.
pub open spec fn effects_of(effect: Option<EffectView>) -> Seq<EffectView> {
    match effect {
        Some(effect) => seq![effect],
        None => Seq::empty(),
    }
}

fn listed(effect: Option<Effect>) -> (effects: Vec<Effect>)
    ensures
        crate::model::seq(effects@) == effects_of(crate::model::opt(effect)),
{
    let mut effects: Vec<Effect> = Vec::new();
    if let Some(effect) = effect {
        effects.push(effect);
        proof {
            assert(crate::model::seq(effects@) =~= seq![effect@]);
        }
    }
    effects
}

/// One key.
pub fn handle_key(key: KeyEvent, ui: &mut UiState, view: &PlayerView) -> (effects: Vec<Effect>)
    ensures
        final(ui)@ == old(ui)@.keyed(key, view@).0,
        crate::model::seq(effects@) == effects_of(old(ui)@.keyed(key, view@).1),
{
    listed(react(key, ui, view))
}

fn react(key: KeyEvent, ui: &mut UiState, view: &PlayerView) -> (effect: Option<Effect>)
    ensures
        (final(ui)@, crate::model::opt(effect)) == old(ui)@.keyed(key, view@),
{
    if key.kind != KeyKind::Press {
        return None;
    }
    if key.chord('c') {
        return Some(Effect::Quit);
    }
    if key.chord('l') {
        return Some(Effect::FullRedraw);
    }
    match ui.overlay {
        Overlay::Input(purpose) => input_overlay(key, ui, purpose),
        Overlay::ConfirmClear(id) => confirm_overlay(key, ui, AppCommand::ClearPlaylist(id)),
        Overlay::ConfirmDelete(id) => confirm_overlay(key, ui, AppCommand::DeletePlaylist(id)),
        Overlay::Help => help_overlay(key, ui),
        Overlay::Browser => None,
        Overlay::Closed => no_overlay(key, ui, view),
    }
}

/// Whether a key goes to the open browser: every one but Control-C and
/// Control-L.
pub fn routes_to_browser(key: &KeyEvent, ui: &UiState) -> (routed: bool)
    ensures
        routed == (ui@.overlay == Overlay::Browser && !key.is_chord('c') && !key.is_chord('l')),
{
    ui.overlay == Overlay::Browser && !key.chord('c') && !key.chord('l')
}

/// One mouse event.
pub fn handle_mouse(event: MouseEvent, hits: &HitMap, ui: &mut UiState, view: &PlayerView) -> (effects:
    Vec<Effect>)
    ensures
        final(ui)@ == old(ui)@.moused(event, *hits, view@).0,
        crate::model::seq(effects@) == effects_of(old(ui)@.moused(event, *hits, view@).1),
{
    listed(react_to_mouse(event, hits, ui, view))
}

fn react_to_mouse(event: MouseEvent, hits: &HitMap, ui: &mut UiState, view: &PlayerView) -> (effect:
    Option<Effect>)
    ensures
        (final(ui)@, crate::model::opt(effect)) == old(ui)@.moused(event, *hits, view@),
{
    if !ui.mouse_capture || ui.overlay != Overlay::Closed {
        return None;
    }
    let point = Position { x: event.column, y: event.row };
    match event.kind {
        MouseKind::Down(MouseButton::Left) => left_click(point, hits, ui, view),
        MouseKind::ScrollUp => {
            if hits.queue.contains(point) {
                move_selection(ui, view, Direction::Up);
            }
            None
        },
        MouseKind::ScrollDown => {
            if hits.queue.contains(point) {
                move_selection(ui, view, Direction::Down);
            }
            None
        },
        _ => None,
    }
}

fn left_click(point: Position, hits: &HitMap, ui: &mut UiState, view: &PlayerView) -> (effect: Option<
    Effect,
>)
    ensures
        (final(ui)@, crate::model::opt(effect)) == old(ui)@.clicked(point, *hits, view@),
{
    if let Some(id) = hit(&hits.tabs, point) {
        return Some(Effect::App(AppCommand::View(id)));
    }
    if let Some(button) = hit(&hits.buttons, point) {
        return Some(transport_effect(button, view));
    }
    if let Some(id) = hit(&hits.rows, point) {
        return if ui.selected == Some(id) {
            Some(Effect::App(AppCommand::PlayEntry(id)))
        } else {
            ui.selected = Some(id);
            None
        };
    }
    seek_effect(point, hits.progress, view)
}

fn transport_effect(button: TransportButton, view: &PlayerView) -> (effect: Effect)
    ensures
        effect@ == EffectView::App(button.command(view.viewed)),
{
    Effect::App(
        match button {
            TransportButton::Previous => AppCommand::Previous,
            TransportButton::SeekBack => AppCommand::SeekBy(-SEEK_STEP),
            TransportButton::SeekForward => AppCommand::SeekBy(SEEK_STEP),
            TransportButton::PlayPause => AppCommand::PlayPause,
            TransportButton::Stop => AppCommand::Stop,
            TransportButton::Next => AppCommand::Next,
            TransportButton::Shuffle => AppCommand::ToggleShuffle(view.viewed),
        },
    )
}

fn seek_effect(point: Position, progress: Rect, view: &PlayerView) -> (effect: Option<Effect>)
    ensures
        crate::model::opt(effect) == match view@.seek_at(point, progress) {
            Some(command) => Some(EffectView::App(command)),
            None => None,
        },
{
    if !progress.contains(point) {
        return None;
    }
    let now = match &view.now_playing {
        Some(now) => now,
        None => return None,
    };
    if !now.loaded {
        return None;
    }
    match now.duration {
        Some(DisplayDuration { value, source: DurationSource::Decoded(_) }) => Some(
            Effect::App(
                AppCommand::SeekTo(
                    SeekPoint {
                        duration: value,
                        column: point.x - progress.x,
                        columns: progress.width,
                    },
                ),
            ),
        ),
        _ => None,
    }
}

fn input_overlay(key: KeyEvent, ui: &mut UiState, purpose: InputPurpose) -> (effect: Option<Effect>)
    ensures
        (final(ui)@, crate::model::opt(effect)) == old(ui)@.typed(key, purpose),
{
    match key.code {
        KeyCode::Backspace => {
            pop_char(&mut ui.input);
            None
        },
        KeyCode::Enter => {
            let text = trim_text(ui.input.as_str());
            ui.overlay = Overlay::Closed;
            ui.input = String::new();
            if chars_of(text.as_str()).len() == 0 {
                return None;
            }
            Some(
                Effect::App(
                    match purpose {
                        InputPurpose::AddUrl(dest) => {
                            let mut items: Vec<EnqueueItem> = Vec::new();
                            items.push(EnqueueItem::from_input(text.as_str()));
                            proof {
                                assert(crate::model::seq(items@) =~= seq![
                                    ItemView::typed(text@),
                                ]);
                            }
                            AppCommand::Enqueue { dest, items }
                        },
                        InputPurpose::NewPlaylist => AppCommand::CreatePlaylist(text),
                        InputPurpose::Rename(id) => AppCommand::RenamePlaylist(id, text),
                    },
                ),
            )
        },
        KeyCode::Esc => {
            ui.overlay = Overlay::Closed;
            ui.input = String::new();
            None
        },
        KeyCode::Char(c) => {
            if !control(c) && !blocks_ordinary_bindings(&key) {
                push_char(&mut ui.input, c);
            }
            None
        },
        _ => None,
    }
}

fn confirm_overlay(key: KeyEvent, ui: &mut UiState, on_yes: AppCommand) -> (effect: Option<Effect>)
    ensures
        (final(ui)@, crate::model::opt(effect)) == old(ui)@.answered(key, on_yes@),
{
    ui.overlay = Overlay::Closed;
    if key.code == KeyCode::Char('y') && !blocks_ordinary_bindings(&key) {
        Some(Effect::App(on_yes))
    } else {
        None
    }
}

fn help_overlay(key: KeyEvent, ui: &mut UiState) -> (effect: Option<Effect>)
    ensures
        (final(ui)@, crate::model::opt(effect)) == old(ui)@.helped(key),
{
    if key.code == KeyCode::Char('?') || key.code == KeyCode::Esc {
        ui.overlay = Overlay::Closed;
    }
    None
}

fn no_overlay(key: KeyEvent, ui: &mut UiState, view: &PlayerView) -> (effect: Option<Effect>)
    ensures
        (final(ui)@, crate::model::opt(effect)) == if key.blocks() {
            (old(ui)@, None)
        } else {
            old(ui)@.bound(key.code, view@)
        },
{
    if blocks_ordinary_bindings(&key) {
        return None;
    }
    match key.code {
        KeyCode::Enter => Some(
            match ui.selected {
                Some(id) => Effect::App(AppCommand::PlayEntry(id)),
                None => Effect::Notice(QUEUE_EMPTY),
            },
        ),
        KeyCode::Up => {
            move_selection(ui, view, Direction::Up);
            None
        },
        KeyCode::Down => {
            move_selection(ui, view, Direction::Down);
            None
        },
        KeyCode::Left => Some(Effect::App(AppCommand::SeekBy(-SEEK_STEP))),
        KeyCode::Right => Some(Effect::App(AppCommand::SeekBy(SEEK_STEP))),
        KeyCode::Home => Some(Effect::App(AppCommand::Restart)),
        KeyCode::Tab => Some(Effect::App(AppCommand::ViewNext)),
        KeyCode::BackTab => Some(Effect::App(AppCommand::ViewPrevious)),
        KeyCode::Char(c) => letter(c, ui, view),
        _ => None,
    }
}

fn letter(c: char, ui: &mut UiState, view: &PlayerView) -> (effect: Option<Effect>)
    ensures
        (final(ui)@, crate::model::opt(effect)) == old(ui)@.lettered(c, view@),
{
    match c {
        ' ' => Some(Effect::App(AppCommand::PlayPause)),
        'k' => {
            move_selection(ui, view, Direction::Up);
            None
        },
        'j' => {
            move_selection(ui, view, Direction::Down);
            None
        },
        'K' => move_entry(ui, Direction::Up),
        'J' => move_entry(ui, Direction::Down),
        '-' | '_' => Some(Effect::App(AppCommand::AdjustVolume(-1))),
        '+' | '=' => Some(Effect::App(AppCommand::AdjustVolume(1))),
        's' => Some(Effect::App(AppCommand::Stop)),
        'p' => Some(Effect::App(AppCommand::Play)),
        '[' => Some(Effect::App(AppCommand::Previous)),
        ']' => Some(Effect::App(AppCommand::Next)),
        'd' => match ui.selected {
            Some(id) => Some(Effect::App(AppCommand::Remove(id))),
            None => None,
        },
        'b' => Some(Effect::OpenBrowser),
        'a' => {
            open_input(ui, InputPurpose::AddUrl(view.viewed), String::new());
            None
        },
        'c' => {
            ui.overlay = Overlay::ConfirmClear(view.viewed);
            None
        },
        'z' => Some(Effect::App(AppCommand::ToggleShuffle(view.viewed))),
        'n' => {
            open_input(ui, InputPurpose::NewPlaylist, String::new());
            None
        },
        'r' => {
            open_input(ui, InputPurpose::Rename(view.viewed), viewed_name(view));
            None
        },
        'D' => {
            if view.tabs.len() <= 1 {
                Some(Effect::Notice(LAST_PLAYLIST))
            } else {
                ui.overlay = Overlay::ConfirmDelete(view.viewed);
                None
            }
        },
        '?' => {
            ui.overlay = Overlay::Help;
            None
        },
        'm' => {
            ui.mouse_capture = !ui.mouse_capture;
            Some(Effect::SetMouseCapture(ui.mouse_capture))
        },
        'q' => Some(Effect::Quit),
        _ => None,
    }
}

fn viewed_name(view: &PlayerView) -> (name: String)
    ensures
        name@ == view@.viewed_name(),
{
    let ghost wanted = crate::tui::tabs::tab_is(view.viewed);
    let mut at: usize = 0;
    while at < view.tabs.len()
        invariant
            at <= view.tabs@.len(),
            wanted == crate::tui::tabs::tab_is(view.viewed),
            crate::model::position(view@.tabs, wanted, 0) == crate::model::position(
                view@.tabs,
                wanted,
                at as int,
            ),
        decreases view.tabs@.len() - at,
    {
        assert(view@.tabs[at as int] == view.tabs@[at as int]@);
        if view.tabs[at].id == view.viewed {
            return view.tabs[at].name.clone();
        }
        at += 1;
    }
    String::new()
}

fn open_input(ui: &mut UiState, purpose: InputPurpose, initial: String)
    ensures
        final(ui)@ == old(ui)@.typing(purpose, initial@),
{
    ui.overlay = Overlay::Input(purpose);
    ui.input = initial;
}

/// Moves the selection by one row, never past an end.
fn move_selection(ui: &mut UiState, view: &PlayerView, direction: Direction)
    ensures
        final(ui)@ == (UiView { selected: view@.stepped(old(ui)@.selected, direction), ..old(ui)@ }),
{
    if view.rows.len() == 0 {
        ui.selected = None;
        return;
    }
    let next: usize = match row_of(view, ui.selected) {
        None => 0,
        Some(at) => match direction {
            Direction::Up => at.saturating_sub(1),
            Direction::Down => if at < view.rows.len() - 1 {
                at + 1
            } else {
                view.rows.len() - 1
            },
        },
    };
    assert(view@.rows[next as int] == view.rows@[next as int]@);
    ui.selected = Some(view.rows[next].id);
}

pub(crate) fn row_of(view: &PlayerView, id: Option<QueueEntryId>) -> (found: Option<usize>)
    ensures
        match found {
            Some(at) => view@.row_of(id) == Some(at as int) && at < view.rows@.len(),
            None => view@.row_of(id) is None,
        },
{
    let wanted = match id {
        Some(wanted) => wanted,
        None => return None,
    };
    let ghost ids = view@.ids();
    let ghost is_wanted = crate::playlist::entry_is(wanted);
    let mut at: usize = 0;
    while at < view.rows.len()
        invariant
            at <= view.rows@.len(),
            id == Some(wanted),
            ids == view@.ids(),
            is_wanted == crate::playlist::entry_is(wanted),
            crate::model::position(ids, is_wanted, 0) == crate::model::position(
                ids,
                is_wanted,
                at as int,
            ),
        decreases view.rows@.len() - at,
    {
        assert(view@.rows[at as int] == view.rows@[at as int]@);
        assert(ids[at as int] == view.rows@[at as int].id);
        if view.rows[at].id == wanted {
            return Some(at);
        }
        at += 1;
    }
    None
}

/// A move needs an entry, so nothing is sent where none is selected.
fn move_entry(ui: &UiState, direction: Direction) -> (effect: Option<Effect>)
    ensures
        crate::model::opt(effect) == match ui@.selected {
            Some(id) => Some(EffectView::App(CommandView::Move(id, direction))),
            None => None,
        },
{
    match ui.selected {
        Some(id) => Some(Effect::App(AppCommand::Move(id, direction))),
        None => None,
    }
}

// --------------------------------------------------------------------- laws

/// While a text is typed, no key but Enter asks for anything, and what is typed
/// never holds a control character.
pub proof fn typing_fires_no_shortcut(ui: UiView, key: KeyEvent, view: ScreenView)
    requires
        ui.overlay is Input,
        key.kind == KeyKind::Press,
        !key.is_chord('c'),
        !key.is_chord('l'),
    ensures
        ui.keyed(key, view).1 is Some ==> key.code == KeyCode::Enter,
        is_printable(ui.input) ==> is_printable(ui.keyed(key, view).0.input),
{
    let after = ui.keyed(key, view).0.input;
    if is_printable(ui.input) {
        assert forall|i: int| 0 <= i < after.len() implies !crate::text::is_control(
            #[trigger] after[i],
        ) by {
            if i < ui.input.len() {
                assert(!crate::text::is_control(ui.input[i]));
            }
        }
    }
}

/// No control character in `text`.
pub open spec fn is_printable(text: Seq<char>) -> bool {
    forall|i: int| 0 <= i < text.len() ==> !crate::text::is_control(#[trigger] text[i])
}

/// A modified key never fires an ordinary binding: with nothing open it asks
/// for nothing, unless it is Control-C or Control-L.
pub proof fn chords_fire_no_shortcut(ui: UiView, key: KeyEvent, view: ScreenView)
    requires
        key.blocks(),
        !key.is_chord('c'),
        !key.is_chord('l'),
    ensures
        ui.overlay == Overlay::Closed ==> ui.keyed(key, view) == (ui, None::<EffectView>),
        ui.keyed(key, view).1 is Some ==> ui.overlay is Input && key.code == KeyCode::Enter,
{
}

/// A playlist is emptied or deleted only on a `y`, and only the one that the
/// question was opened for.
pub proof fn only_a_yes_discards(ui: UiView, key: KeyEvent, view: ScreenView, id: PlaylistId)
    ensures
        ui.keyed(key, view).1 == Some(EffectView::App(CommandView::ClearPlaylist(id)))
            ==> ui.overlay == Overlay::ConfirmClear(id) && key.code == KeyCode::Char('y'),
        ui.keyed(key, view).1 == Some(EffectView::App(CommandView::DeletePlaylist(id)))
            ==> ui.overlay == Overlay::ConfirmDelete(id) && key.code == KeyCode::Char('y'),
{
}

/// Control-C quits whatever is open.
pub proof fn control_c_always_quits(ui: UiView, key: KeyEvent, view: ScreenView)
    requires
        key.kind == KeyKind::Press,
        key.is_chord('c'),
    ensures
        ui.keyed(key, view) == (ui, Some(EffectView::Quit)),
{
}

/// A click never acts behind an overlay, nor while the mouse is not captured.
pub proof fn overlay_shields_from_clicks(
    ui: UiView,
    event: MouseEvent,
    hits: HitMap,
    view: ScreenView,
)
    requires
        ui.overlay != Overlay::Closed || !ui.mouse_capture,
    ensures
        ui.moused(event, hits, view) == (ui, None::<EffectView>),
{
}

/// Moving the selection keeps it on a row, never past an end.
pub proof fn step_stays_on_the_rows(
    view: ScreenView,
    selected: Option<QueueEntryId>,
    direction: Direction,
)
    requires
        view.rows.len() > 0,
    ensures
        view.stepped(selected, direction) matches Some(id) && view.ids().contains(id),
{
    if let Some(row) = selected {
        crate::model::position_is_first(view.ids(), crate::playlist::entry_is(row), 0);
    }
    let next = match view.row_of(selected) {
        None => 0,
        Some(at) => match direction {
            Direction::Up => if at > 0 {
                at - 1
            } else {
                0
            },
            Direction::Down => if at + 1 < view.rows.len() {
                at + 1
            } else {
                view.rows.len() - 1
            },
        },
    };
    assert(view.ids()[next] == view.rows[next].id);
}

} // verus!
