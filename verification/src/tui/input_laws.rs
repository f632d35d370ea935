//! What the keys and the mouse come to: each law takes an event and the screen it
//! met, and says what is asked for and what is selected.

use crate::application::command::{CommandView, ItemView, SeekPoint};
use crate::application::transport::QUEUE_EMPTY;
use crate::application::view::ScreenView;
use crate::clock::Duration;
use crate::playlist::PlaylistId;
use crate::queue::{Direction, DisplayDuration, DurationSource, QueueEntryId};
use crate::tui::geometry::{Position, Rect};
use crate::tui::input::{EffectView, LAST_PLAYLIST};
use crate::tui::keys::{KeyCode, KeyEvent, KeyKind, MouseButton, MouseEvent, MouseKind};
use crate::tui::render::{HitMap, TransportButton};
use crate::tui::state::{InputPurpose, Overlay, UiView};
use vstd::prelude::*;

verus! {

/// Whether a key is pressed plainly while nothing is open.
pub open spec fn plain(ui: UiView, key: KeyEvent, code: KeyCode) -> bool {
    ui.overlay == Overlay::Closed && key.kind == KeyKind::Press && key.code == code && !key.control
        && !key.alt
}

/// Whether `c` is typed while nothing is open.
pub open spec fn letter(ui: UiView, key: KeyEvent, c: char) -> bool {
    plain(ui, key, KeyCode::Char(c))
}

/// What a key asks of the player, with nothing else changed.
pub open spec fn asks(ui: UiView, key: KeyEvent, view: ScreenView, command: CommandView) -> bool {
    ui.keyed(key, view) == (ui, Some(EffectView::App(command)))
}

/// The transport keys: Space toggles the pause, `p` plays, `s` stops, Home starts
/// over, the brackets step, the arrows seek ten seconds, and plus and minus turn the
/// volume, with Shift or without.
pub proof fn transport_keys(ui: UiView, key: KeyEvent, view: ScreenView)
    ensures
        letter(ui, key, ' ') ==> asks(ui, key, view, CommandView::PlayPause),
        letter(ui, key, 'p') ==> asks(ui, key, view, CommandView::Play),
        letter(ui, key, 's') ==> asks(ui, key, view, CommandView::Stop),
        letter(ui, key, '[') ==> asks(ui, key, view, CommandView::Previous),
        letter(ui, key, ']') ==> asks(ui, key, view, CommandView::Next),
        plain(ui, key, KeyCode::Home) ==> asks(ui, key, view, CommandView::Restart),
        plain(ui, key, KeyCode::Left) ==> (ui.keyed(key, view).1 matches Some(
            EffectView::App(CommandView::SeekBy(by)),
        ) && by == -10),
        plain(ui, key, KeyCode::Right) ==> (ui.keyed(key, view).1 matches Some(
            EffectView::App(CommandView::SeekBy(by)),
        ) && by == 10),
        letter(ui, key, '-') || letter(ui, key, '_') ==> (ui.keyed(key, view).1 matches Some(
            EffectView::App(CommandView::AdjustVolume(by)),
        ) && by == -1),
        letter(ui, key, '+') || letter(ui, key, '=') ==> (ui.keyed(key, view).1 matches Some(
            EffectView::App(CommandView::AdjustVolume(by)),
        ) && by == 1),
{
}

/// The keys that act on the selected row: Enter plays it, `d` removes it, and `K` and
/// `J` move it up and down. With nothing selected Enter says that the queue is empty
/// and the others do nothing.
pub proof fn row_keys(ui: UiView, key: KeyEvent, view: ScreenView, id: QueueEntryId)
    ensures
        ui.selected == Some(id) ==> {
            &&& plain(ui, key, KeyCode::Enter) ==> asks(ui, key, view, CommandView::PlayEntry(id))
            &&& letter(ui, key, 'd') ==> asks(ui, key, view, CommandView::Remove(id))
            &&& letter(ui, key, 'K') ==> asks(ui, key, view, CommandView::Move(id, Direction::Up))
            &&& letter(ui, key, 'J') ==> asks(
                ui,
                key,
                view,
                CommandView::Move(id, Direction::Down),
            )
        },
        ui.selected is None ==> {
            &&& plain(ui, key, KeyCode::Enter) ==> ui.keyed(key, view) == (
                ui,
                Some(EffectView::Notice(QUEUE_EMPTY)),
            )
            &&& letter(ui, key, 'd') || letter(ui, key, 'K') || letter(ui, key, 'J') ==> ui.keyed(
                key,
                view,
            ) == (ui, None::<EffectView>)
        },
{
}

/// The keys that act on playlists: Tab and its reverse view the next and the one
/// before, `z` shuffles the viewed one, `b` opens the browser, `?` the help, `m`
/// switches the mouse, and `q` quits.
pub proof fn playlist_keys(ui: UiView, key: KeyEvent, view: ScreenView)
    ensures
        plain(ui, key, KeyCode::Tab) ==> asks(ui, key, view, CommandView::ViewNext),
        plain(ui, key, KeyCode::BackTab) ==> asks(ui, key, view, CommandView::ViewPrevious),
        letter(ui, key, 'z') ==> asks(ui, key, view, CommandView::ToggleShuffle(view.viewed)),
        letter(ui, key, 'b') ==> ui.keyed(key, view) == (ui, Some(EffectView::OpenBrowser)),
        letter(ui, key, '?') ==> ui.keyed(key, view) == (
            UiView { overlay: Overlay::Help, ..ui },
            None::<EffectView>,
        ),
        letter(ui, key, 'm') ==> ui.keyed(key, view) == (
            UiView { mouse_capture: !ui.mouse_capture, ..ui },
            Some(EffectView::SetMouseCapture(!ui.mouse_capture)),
        ),
        letter(ui, key, 'q') ==> ui.keyed(key, view) == (ui, Some(EffectView::Quit)),
{
}

/// A text is typed for what its key began: `a` an address or a file for the viewed
/// playlist, `n` the name of a new one, `r` another name for the viewed one, whose
/// name stands there to begin with. Enter asks for it without the space around it,
/// and for a blank text for nothing; Esc drops it. Either way nothing is open then.
pub proof fn typed_text_is_asked_for(
    ui: UiView,
    first: KeyEvent,
    key: KeyEvent,
    view: ScreenView,
    purpose: InputPurpose,
    k: int,
)
    requires
        letter(ui, first, 'a') && purpose == InputPurpose::AddUrl(view.viewed) || letter(
            ui,
            first,
            'n',
        ) && purpose == InputPurpose::NewPlaylist || letter(ui, first, 'r') && purpose
            == InputPurpose::Rename(view.viewed),
    ensures
        ui.keyed(first, view).1 is None,
        ui.keyed(first, view).0.overlay == Overlay::Input(purpose),
        !letter(ui, first, 'r') ==> ui.keyed(first, view).0.input.len() == 0,
        letter(ui, first, 'r') && 0 <= k < view.tabs.len() && view.tabs[k].id == view.viewed && (
        forall|i: int| 0 <= i < k ==> (#[trigger] view.tabs[i]).id != view.viewed) ==> ui.keyed(
            first,
            view,
        ).0.input == view.tabs[k].name,
        forall|typed: Seq<char>| #[trigger]
            finishes(
                UiView { overlay: Overlay::Input(purpose), input: typed, ..ui },
                key,
                view,
                purpose,
                typed,
            ),
{
    let wanted = crate::tui::tabs::tab_is(view.viewed);
    crate::model::position_is_first(view.tabs, wanted, 0);
    if 0 <= k < view.tabs.len() && view.tabs[k].id == view.viewed {
        assert(wanted(view.tabs[k]));
        let found = crate::model::position(view.tabs, wanted, 0).unwrap();
        assert(wanted(view.tabs[found]));
        assert(view.tabs[found].id == view.viewed);
    }
}

/// Whether Enter and Esc end the typing of `typed` as they should.
pub open spec fn finishes(
    ui: UiView,
    key: KeyEvent,
    view: ScreenView,
    purpose: InputPurpose,
    typed: Seq<char>,
) -> bool {
    let (after, effect) = ui.keyed(key, view);
    let text = crate::text::trim(typed);
    &&& key.kind == KeyKind::Press && key.code == KeyCode::Enter ==> {
        &&& after == (UiView { overlay: Overlay::Closed, input: Seq::empty(), ..ui })
        &&& text.len() == 0 ==> effect is None
        &&& text.len() > 0 ==> effect == Some(
            EffectView::App(
                match purpose {
                    InputPurpose::AddUrl(dest) => CommandView::Enqueue {
                        dest,
                        items: seq![
                            if "http://"@.is_prefix_of(text) || "https://"@.is_prefix_of(text) {
                                ItemView::Url(text)
                            } else {
                                ItemView::Path(text)
                            },
                        ],
                    },
                    InputPurpose::NewPlaylist => CommandView::CreatePlaylist(text),
                    InputPurpose::Rename(id) => CommandView::RenamePlaylist(id, text),
                },
            ),
        )
    }
    &&& key.kind == KeyKind::Press && key.code == KeyCode::Esc ==> effect is None && after == (
    UiView { overlay: Overlay::Closed, input: Seq::empty(), ..ui })
}

/// `c` and then `y` empty the viewed playlist, and `D` and then `y` delete it unless
/// it is the only one, which is said; any other key in place of the `y` closes the
/// question and does nothing.
pub proof fn discarding_takes_two_keys(
    ui: UiView,
    first: KeyEvent,
    second: KeyEvent,
    view: ScreenView,
)
    requires
        letter(ui, first, 'c') || letter(ui, first, 'D'),
        second.kind == KeyKind::Press,
        !(second.control && (second.code == KeyCode::Char('c') || second.code == KeyCode::Char(
            'l',
        ))),
    ensures
        ({
            let (asked, nothing) = ui.keyed(first, view);
            let (after, effect) = asked.keyed(second, view);
            let yes = second.code == KeyCode::Char('y') && !second.control && !second.alt;
            if letter(ui, first, 'D') && view.tabs.len() <= 1 {
                asked == ui && nothing == Some(EffectView::Notice(LAST_PLAYLIST))
            } else {
                &&& nothing is None && after == ui
                &&& yes && letter(ui, first, 'c') ==> effect == Some(
                    EffectView::App(CommandView::ClearPlaylist(view.viewed)),
                )
                &&& yes && letter(ui, first, 'D') ==> effect == Some(
                    EffectView::App(CommandView::DeletePlaylist(view.viewed)),
                )
                &&& !yes ==> effect is None
            }
        }),
{
}

/// Up and Down, `k` and `j`, and the wheel over the queue move the selection one row,
/// and not past the first or the last; from nothing that is shown, to the first.
pub proof fn selection_moves_by_one(
    ui: UiView,
    key: KeyEvent,
    event: MouseEvent,
    hits: HitMap,
    view: ScreenView,
    k: int,
)
    requires
        0 <= k < view.rows.len(),
        ui.overlay == Overlay::Closed,
        (ui.selected == Some(view.rows[k].id) && forall|i: int|
            0 <= i < k ==> (#[trigger] view.rows[i]).id != view.rows[k].id) || (k == 0 && (
        ui.selected matches Some(id) ==> forall|i: int|
            0 <= i < view.rows.len() ==> (#[trigger] view.rows[i]).id != id)),
    ensures
        ({
            let known = ui.selected == Some(view.rows[k].id);
            let up = if known && k > 0 {
                view.rows[k - 1].id
            } else {
                view.rows[0].id
            };
            let down = if !known {
                view.rows[0].id
            } else if k + 1 < view.rows.len() {
                view.rows[k + 1].id
            } else {
                view.rows[k].id
            };
            let over = ui.mouse_capture && hits.queue.covers(
                Position { x: event.column, y: event.row },
            );
            &&& plain(ui, key, KeyCode::Up) || letter(ui, key, 'k') ==> ui.keyed(key, view) == (
                UiView { selected: Some(up), ..ui },
                None::<EffectView>,
            )
            &&& plain(ui, key, KeyCode::Down) || letter(ui, key, 'j') ==> ui.keyed(key, view) == (
                UiView { selected: Some(down), ..ui },
                None::<EffectView>,
            )
            &&& over && event.kind == MouseKind::ScrollUp ==> ui.moused(event, hits, view) == (
                UiView { selected: Some(up), ..ui },
                None::<EffectView>,
            )
            &&& over && event.kind == MouseKind::ScrollDown ==> ui.moused(event, hits, view) == (
                UiView { selected: Some(down), ..ui },
                None::<EffectView>,
            )
        }),
{
    let ids = view.ids();
    if let Some(id) = ui.selected {
        let wanted = crate::playlist::entry_is(id);
        crate::model::position_is_first(ids, wanted, 0);
        assert(ids[k] == view.rows[k].id);
        if id == view.rows[k].id {
            assert(wanted(ids[k]));
            let found = view.row_of(ui.selected).unwrap();
            assert(wanted(ids[found]));
            assert(ids[found] == view.rows[found].id);
        } else if let Some(found) = view.row_of(ui.selected) {
            assert(wanted(ids[found]));
            assert(ids[found] == view.rows[found].id);
        }
    }
}

/// Whether a point lies in an area.
pub open spec fn lies_in(point: Position, area: Rect) -> bool {
    area.x <= point.x && point.x < area.x + area.width && area.y <= point.y && point.y < area.y
        + area.height
}

/// What a point hits is what the first area that holds it stands for.
pub proof fn first_area_is_hit<T>(hits: Seq<(Rect, T)>, point: Position, k: int, from: int)
    requires
        0 <= from <= k < hits.len(),
        lies_in(point, hits[k].0),
        point.x < u16::MAX,
        point.y < u16::MAX,
        forall|i: int| from <= i < k ==> !lies_in(point, (#[trigger] hits[i]).0),
    ensures
        crate::tui::render::hit_at(hits, point, from) == Some(hits[k].1),
    decreases k - from,
{
    if from < k {
        assert(!lies_in(point, hits[from].0));
        first_area_is_hit(hits, point, k, from + 1);
    }
}

/// And nothing where none holds it.
pub proof fn no_area_is_hit<T>(hits: Seq<(Rect, T)>, point: Position, from: int)
    requires
        0 <= from,
        forall|i: int| from <= i < hits.len() ==> !lies_in(point, (#[trigger] hits[i]).0),
    ensures
        crate::tui::render::hit_at(hits, point, from) is None,
    decreases hits.len() - from,
{
    if from < hits.len() {
        assert(!lies_in(point, hits[from].0));
        no_area_is_hit(hits, point, from + 1);
    }
}

/// A click on a tab views its playlist; on a button does what the button says; on a
/// row selects it, and on the selected row plays it; and in the bar of a loaded track
/// whose length is confirmed seeks to the place that was clicked.
pub proof fn clicks_do_what_is_shown(
    ui: UiView,
    event: MouseEvent,
    hits: HitMap,
    view: ScreenView,
    tab: Option<PlaylistId>,
    button: Option<TransportButton>,
    row: Option<QueueEntryId>,
    length: Duration,
)
    requires
        ui.mouse_capture,
        ui.overlay == Overlay::Closed,
        event.kind == MouseKind::Down(MouseButton::Left),
        tab == crate::tui::render::hit_at(
            hits.tabs@,
            Position { x: event.column, y: event.row },
            0,
        ),
        button == crate::tui::render::hit_at(
            hits.buttons@,
            Position { x: event.column, y: event.row },
            0,
        ),
        row == crate::tui::render::hit_at(
            hits.rows@,
            Position { x: event.column, y: event.row },
            0,
        ),
    ensures
        ({
            let (after, effect) = ui.moused(event, hits, view);
            let point = Position { x: event.column, y: event.row };
            let command = match effect {
                Some(EffectView::App(command)) => Some(command),
                _ => None,
            };
            &&& tab is Some ==> after == ui && command == Some(CommandView::View(tab.unwrap()))
            &&& tab is None && button is Some ==> after == ui && match button.unwrap() {
                TransportButton::Previous => command == Some(CommandView::Previous),
                TransportButton::SeekBack => command matches Some(CommandView::SeekBy(by)) && by
                    == -10,
                TransportButton::SeekForward => command matches Some(CommandView::SeekBy(by)) && by
                    == 10,
                TransportButton::PlayPause => command == Some(CommandView::PlayPause),
                TransportButton::Stop => command == Some(CommandView::Stop),
                TransportButton::Next => command == Some(CommandView::Next),
                TransportButton::Shuffle => command == Some(
                    CommandView::ToggleShuffle(view.viewed),
                ),
            }
            &&& tab is None && button is None && row is Some ==> if ui.selected == row {
                after == ui && command == Some(CommandView::PlayEntry(row.unwrap()))
            } else {
                after == (UiView { selected: row, ..ui }) && effect is None
            }
            &&& tab is None && button is None && row is None && lies_in(point, hits.progress)
                && hits.progress.x + hits.progress.width <= u16::MAX && hits.progress.y
                + hits.progress.height <= u16::MAX ==> after == ui && {
                &&& (view.now_playing matches Some(now) && now.loaded && (
                now.duration matches Some(DisplayDuration {
                    value,
                    source: DurationSource::Decoded(_),
                }) && value == length)) ==> command == Some(
                    CommandView::SeekTo(
                        SeekPoint {
                            duration: length,
                            column: (event.column - hits.progress.x) as u16,
                            columns: hits.progress.width,
                        },
                    ),
                )
                &&& !(view.now_playing matches Some(now) && now.loaded) ==> effect is None
            }
            &&& tab is None && button is None && row is None && !lies_in(point, hits.progress)
                ==> after == ui && effect is None
        }),
{
}

/// After every frame a row that is shown is selected: the one that was asked for,
/// else the one that was selected, else the first.
pub proof fn selection_follows_the_rows(
    ui: UiView,
    view: ScreenView,
    hint: Option<QueueEntryId>,
    k: int,
)
    requires
        0 <= k < view.rows.len(),
    ensures
        ({
            let after = ui.reconciled(view, hint);
            let gone = |id: Option<QueueEntryId>|
                id matches Some(row) ==> forall|i: int|
                    0 <= i < view.rows.len() ==> (#[trigger] view.rows[i]).id != row;
            &&& hint == Some(view.rows[k].id) ==> after.selected == hint
            &&& gone(hint) && ui.selected == Some(view.rows[k].id) ==> after.selected
                == ui.selected
            &&& gone(hint) && gone(ui.selected) ==> after.selected == Some(view.rows[0].id)
            &&& after.viewed == Some(view.viewed)
            &&& ui.viewed != Some(view.viewed) ==> after.queue_offset == 0
            &&& ui.viewed == Some(view.viewed) && ui.queue_offset < view.rows.len()
                ==> after.queue_offset == ui.queue_offset
        }),
{
    let ids = view.ids();
    assert(ids[k] == view.rows[k].id);
    assert forall|id: QueueEntryId| ids.contains(id) implies exists|i: int|
        0 <= i < view.rows.len() && (#[trigger] view.rows[i]).id == id by {
        let i = ids.index_of(id);
        assert(view.rows[i].id == id);
    }
}

/// While a text is typed, each character is taken as it comes and Backspace takes the last
/// one back; while help is open, its key and Esc close it and others do nothing.
pub proof fn open_overlays_take_the_keys(ui: UiView, key: KeyEvent, view: ScreenView)
    requires
        key.kind == KeyKind::Press,
        !(key.control && (key.code == KeyCode::Char('c') || key.code == KeyCode::Char('l'))),
    ensures
        ui.overlay is Input ==> {
            &&& (key.code matches KeyCode::Char(c) && c as u32 >= 0x20 && c as u32 != 0x7f && !(0x80
                <= c as u32 <= 0x9f) && !key.control && !key.alt) ==> ui.keyed(key, view) == (
                UiView { input: ui.input.push(key.code->Char_0), ..ui },
                None::<EffectView>,
            )
            &&& key.code == KeyCode::Backspace && ui.input.len() > 0 ==> ui.keyed(key, view) == (
                UiView { input: ui.input.take(ui.input.len() - 1), ..ui },
                None::<EffectView>,
            )
        },
        ui.overlay == Overlay::Help ==> if key.code == KeyCode::Char('?') || key.code
            == KeyCode::Esc {
            ui.keyed(key, view) == (UiView { overlay: Overlay::Closed, ..ui }, None::<EffectView>)
        } else {
            ui.keyed(key, view) == (ui, None::<EffectView>)
        },
{
    if ui.input.len() > 0 {
        assert(ui.input.drop_last() =~= ui.input.take(ui.input.len() - 1));
    }
}

} // verus!
