//! What the front end remembers between frames that the player does not: the
//! selected row, the open overlay, whether the mouse is captured, the text
//! being typed and how far the queue is scrolled.

use crate::application::view::{PlayerView, QueueRow, ScreenView};
use crate::playlist::PlaylistId;
use crate::queue::QueueEntryId;
use vstd::prelude::*;

verus! {

broadcast use crate::model::group_model;

/// What is being typed, and for which playlist: it is settled when the overlay
/// opens, so that a view that moves on cannot redirect it.
#[derive(Clone, Copy, Debug, PartialEq, Eq, Structural)]
pub enum InputPurpose {
    AddUrl(PlaylistId),
    NewPlaylist,
    Rename(PlaylistId),
}

#[derive(Clone, Copy, Debug, PartialEq, Eq, Structural)]
pub enum Overlay {
    Closed,
    Help,
    ConfirmClear(PlaylistId),
    ConfirmDelete(PlaylistId),
    Input(InputPurpose),
    Browser,
}

#[derive(Debug)]
pub struct UiState {
    /// Independent of what is playing: moving it never touches playback.
    pub selected: Option<QueueEntryId>,
    pub overlay: Overlay,
    pub mouse_capture: bool,
    pub input: String,
    /// The first row that the listing tries to show.
    pub queue_offset: usize,
    /// The playlist that was last shown.
    pub viewed: Option<PlaylistId>,
}

#[verifier::ext_equal]
pub struct UiView {
    pub selected: Option<QueueEntryId>,
    pub overlay: Overlay,
    pub mouse_capture: bool,
    pub input: Seq<char>,
    pub queue_offset: usize,
    pub viewed: Option<PlaylistId>,
}

impl View for UiState {
    type V = UiView;

    open spec fn view(&self) -> UiView {
        UiView {
            selected: self.selected,
            overlay: self.overlay,
            mouse_capture: self.mouse_capture,
            input: self.input@,
            queue_offset: self.queue_offset,
            viewed: self.viewed,
        }
    }
}

impl ScreenView {
    /// The rows' entries, in order.
    pub open spec fn ids(self) -> Seq<QueueEntryId> {
        Seq::new(self.rows.len(), |i: int| self.rows[i].id)
    }

    /// `id`, where a row shows it.
    pub open spec fn present(self, id: Option<QueueEntryId>) -> Option<QueueEntryId> {
        match id {
            Some(row) if self.ids().contains(row) => Some(row),
            _ => None,
        }
    }
}

impl UiView {
    /// With the selection on a row that exists: the hint, or else the row that
    /// is selected, or else the first. Another playlist begins at its top, and
    /// no listing is scrolled past its last row.
    pub open spec fn reconciled(self, view: ScreenView, hint: Option<QueueEntryId>) -> UiView {
        let offset = if self.viewed == Some(view.viewed) {
            self.queue_offset as int
        } else {
            0
        };
        let last = if view.rows.len() > 0 {
            view.rows.len() - 1
        } else {
            0
        };
        UiView {
            selected: if view.present(hint) is Some {
                hint
            } else if view.present(self.selected) is Some {
                self.selected
            } else if view.rows.len() > 0 {
                Some(view.rows[0].id)
            } else {
                None
            },
            queue_offset: if offset <= last {
                offset as usize
            } else {
                last as usize
            },
            viewed: Some(view.viewed),
            ..self
        }
    }
}

fn shows(rows: &Vec<QueueRow>, id: Option<QueueEntryId>) -> (shown: bool)
    ensures
        shown == (id matches Some(row) && exists|i: int|
            0 <= i < rows@.len() && (#[trigger] rows@[i]).id == row),
{
    let wanted = match id {
        Some(wanted) => wanted,
        None => return false,
    };
    let mut at: usize = 0;
    while at < rows.len()
        invariant
            at <= rows@.len(),
            id == Some(wanted),
            forall|i: int| 0 <= i < at ==> (#[trigger] rows@[i]).id != wanted,
        decreases rows@.len() - at,
    {
        if rows[at].id == wanted {
            return true;
        }
        at += 1;
    }
    false
}

proof fn shown_is_present(view: &PlayerView, id: Option<QueueEntryId>)
    ensures
        (view@.present(id) is Some) == (id matches Some(row) && exists|i: int|
            0 <= i < view.rows@.len() && (#[trigger] view.rows@[i]).id == row),
{
    if let Some(row) = id {
        let ids = view@.ids();
        assert forall|i: int| 0 <= i < ids.len() implies #[trigger] ids[i] == view.rows@[i].id by {
            assert(view@.rows[i] == view.rows@[i]@);
        }
        if ids.contains(row) {
            let i = choose|i: int| 0 <= i < ids.len() && ids[i] == row;
            assert(view.rows@[i].id == row);
        }
        if exists|i: int| 0 <= i < view.rows@.len() && (#[trigger] view.rows@[i]).id == row {
            let i = choose|i: int| 0 <= i < view.rows@.len() && (#[trigger] view.rows@[i]).id == row;
            assert(ids[i] == row);
        }
    }
}

impl UiState {
    pub fn new(mouse_capture: bool) -> (ui: Self)
        ensures
            ui@ == (UiView {
                selected: None,
                overlay: Overlay::Closed,
                mouse_capture,
                input: Seq::empty(),
                queue_offset: 0,
                viewed: None,
            }),
    {
        UiState {
            selected: None,
            overlay: Overlay::Closed,
            mouse_capture,
            input: String::new(),
            queue_offset: 0,
            viewed: None,
        }
    }

    /// Keeps the selection on a row that exists after the queue changed.
    pub fn reconcile(&mut self, view: &PlayerView, hint: Option<QueueEntryId>)
        ensures
            final(self)@ == old(self)@.reconciled(view@, hint),
    {
        proof {
            shown_is_present(view, hint);
            shown_is_present(view, self.selected);
        }
        if self.viewed != Some(view.viewed) {
            self.queue_offset = 0;
        }
        self.viewed = Some(view.viewed);
        if shows(&view.rows, hint) {
            self.selected = hint;
        } else if !shows(&view.rows, self.selected) {
            self.selected = if view.rows.len() > 0 {
                assert(view@.rows[0] == view.rows@[0]@);
                Some(view.rows[0].id)
            } else {
                None
            };
        }
        let last: usize = view.rows.len().saturating_sub(1);
        if self.queue_offset > last {
            self.queue_offset = last;
        }
    }
}

/// After reconciling, the selection is on a row, exactly where there is any.
pub proof fn selection_is_a_row(ui: UiView, view: ScreenView, hint: Option<QueueEntryId>)
    ensures
        match ui.reconciled(view, hint).selected {
            Some(id) => view.ids().contains(id),
            None => view.rows.len() == 0,
        },
        view.rows.len() > 0 ==> ui.reconciled(view, hint).queue_offset < view.rows.len(),
{
    if view.rows.len() > 0 {
        assert(view.ids()[0] == view.rows[0].id);
    } else {
        assert(view.ids() =~= Seq::<QueueEntryId>::empty());
    }
}

/// Reconciling with the same rows again changes nothing.
pub proof fn reconciling_settles(ui: UiView, view: ScreenView, hint: Option<QueueEntryId>)
    ensures
        ui.reconciled(view, hint).reconciled(view, None) == ui.reconciled(view, hint),
{
    selection_is_a_row(ui, view, hint);
}

} // verus!
