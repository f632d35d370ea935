//! The transport decision table: given a transport key, the playlists and the
//! playback phase, what should happen.

use crate::clock::Duration;
use crate::playlist::{Playlist, PlaylistView};
use crate::queue::{Direction, QueueEntryId};
use vstd::prelude::*;

verus! {

pub const PLAY_BEFORE_SEEK: &'static str = "Play a track before seeking";

pub const QUEUE_EMPTY: &'static str = "Queue is empty";

pub const TRACK_ENDED: &'static str = "Track ended; press play to replay";

pub const STILL_LOADING: &'static str = "Still loading";

pub const LIVE_NO_SEEK: &'static str = "live stream: seeking is unavailable";

#[derive(Clone, Copy, Debug, PartialEq, Eq, Structural)]
pub enum PlaybackPhase {
    Unloaded,
    Loading,
    LoadFailed,
    Playing,
    /// A live source between a disconnect and the reconnect that ends it. It
    /// is controlled exactly like `Playing`.
    Reconnecting,
    Paused,
    Stopped,
    Ended,
}

#[derive(Clone, Copy, Debug, PartialEq, Eq, Structural)]
pub enum TransportInput {
    Space,
    Play,
    Enter,
    Home,
    SeekBy(i64),
    SeekTo(Duration),
    Previous,
    Next,
}

pub struct TransportSituation<'a> {
    /// The playlist that is stepped through: the playing one, or while loading
    /// the one that holds what was last asked for.
    pub navigation: &'a Playlist,
    pub viewed: &'a Playlist,
    /// The selected row of `viewed`. Only Enter reads it.
    pub selected: Option<QueueEntryId>,
    pub phase: PlaybackPhase,
    /// What was last asked for, while it is still queued anywhere.
    pub retry: Option<QueueEntryId>,
    /// Whether what the engine holds has no timeline to move around in.
    pub live: bool,
}

#[verifier::ext_equal]
pub struct SituationView {
    pub navigation: PlaylistView,
    pub viewed: PlaylistView,
    pub selected: Option<QueueEntryId>,
    pub phase: PlaybackPhase,
    pub retry: Option<QueueEntryId>,
    pub live: bool,
}

impl<'a> View for TransportSituation<'a> {
    type V = SituationView;

    open spec fn view(&self) -> SituationView {
        SituationView {
            navigation: self.navigation@,
            viewed: self.viewed@,
            selected: self.selected,
            phase: self.phase,
            retry: self.retry,
            live: self.live,
        }
    }
}

#[derive(Clone, Copy, Debug, PartialEq, Eq)]
pub enum TransportDecision {
    Load(QueueEntryId),
    TogglePause,
    Play,
    SeekBy(i64),
    SeekTo(Duration),
    Restart,
    Notice(&'static str),
    Nothing,
}

impl TransportInput {
    /// Whether the input moves the position within a track.
    pub open spec fn seeks(self) -> bool {
        self == TransportInput::Home || self is SeekBy || self is SeekTo
    }

    /// What the engine is told when it holds a track that can be controlled.
    pub open spec fn controls(self) -> TransportDecision {
        match self {
            TransportInput::Space => TransportDecision::TogglePause,
            TransportInput::Play => TransportDecision::Play,
            TransportInput::Home => TransportDecision::Restart,
            TransportInput::SeekBy(by) => TransportDecision::SeekBy(by),
            TransportInput::SeekTo(to) => TransportDecision::SeekTo(to),
            _ => TransportDecision::Nothing,
        }
    }
}

impl PlaybackPhase {
    /// Whether the engine holds a track that plays or is paused.
    pub open spec fn runs(self) -> bool {
        self == PlaybackPhase::Playing || self == PlaybackPhase::Reconnecting || self
            == PlaybackPhase::Paused
    }

    /// Whether the engine holds nothing.
    pub open spec fn bare(self) -> bool {
        self == PlaybackPhase::Unloaded || self == PlaybackPhase::LoadFailed
    }
}

/// A load of `id`, or the notice that there is nothing to load.
pub open spec fn load_of(id: Option<QueueEntryId>) -> TransportDecision {
    match id {
        Some(id) => TransportDecision::Load(id),
        None => TransportDecision::Notice(QUEUE_EMPTY),
    }
}

impl SituationView {
    /// What Enter plays: the selected row of the viewed playlist, or its first
    /// row where nothing that is still there is selected.
    pub open spec fn selection(self) -> Option<QueueEntryId> {
        match self.selected {
            Some(id) if self.viewed.queue.holds(id) => Some(id),
            _ => self.viewed.queue.first(),
        }
    }

    /// Where playing begins when nothing is held: the cursor, or the first
    /// entry in playing order.
    pub open spec fn start(self) -> Option<QueueEntryId> {
        match self.navigation.queue.active {
            Some(id) => Some(id),
            None => self.navigation.first_in_order(),
        }
    }

    /// The entry that is stepped from: what is being loaded, or the cursor.
    pub open spec fn anchor(self) -> Option<QueueEntryId> {
        if self.phase == PlaybackPhase::Loading && self.retry is Some {
            self.retry
        } else {
            self.navigation.queue.active
        }
    }

    /// A step in playing order; nothing where there is none to take.
    pub open spec fn step(self, direction: Direction) -> TransportDecision {
        match self.anchor() {
            Some(id) => match self.navigation.neighbor(id, direction) {
                Some(next) => TransportDecision::Load(next),
                None => TransportDecision::Nothing,
            },
            None => TransportDecision::Nothing,
        }
    }

    /// The decision. A live source is never asked to seek. Enter follows the
    /// view. A failed load is tried again wherever it is queued. With nothing
    /// to step through, a running track keeps its controls and everything else
    /// reports it.
    pub open spec fn decision(self, input: TransportInput) -> TransportDecision {
        let starts = input == TransportInput::Space || input == TransportInput::Play;
        let steps = input == TransportInput::Previous || input == TransportInput::Next;
        if self.live && input.seeks() && !self.phase.bare() {
            TransportDecision::Notice(LIVE_NO_SEEK)
        } else if input == TransportInput::Enter {
            load_of(self.selection())
        } else if self.phase == PlaybackPhase::LoadFailed && starts && self.retry is Some {
            TransportDecision::Load(self.retry.unwrap())
        } else if self.navigation.queue.entries.len() == 0 {
            if self.phase.runs() {
                input.controls()
            } else if steps {
                TransportDecision::Nothing
            } else {
                TransportDecision::Notice(QUEUE_EMPTY)
            }
        } else if input == TransportInput::Previous {
            self.step(Direction::Up)
        } else if input == TransportInput::Next {
            self.step(Direction::Down)
        } else if self.phase.runs() || self.phase == PlaybackPhase::Stopped {
            input.controls()
        } else if self.phase == PlaybackPhase::Loading {
            if starts {
                TransportDecision::Nothing
            } else {
                TransportDecision::Notice(STILL_LOADING)
            }
        } else if starts {
            load_of(self.start())
        } else if self.phase == PlaybackPhase::Ended {
            if input == TransportInput::Home {
                TransportDecision::Restart
            } else {
                TransportDecision::Notice(TRACK_ENDED)
            }
        } else {
            TransportDecision::Notice(PLAY_BEFORE_SEEK)
        }
    }
}

fn selection(situation: &TransportSituation<'_>) -> (id: Option<QueueEntryId>)
    ensures
        id == situation@.selection(),
{
    let queue = situation.viewed.queue();
    if let Some(id) = situation.selected {
        if queue.get(id).is_some() {
            return Some(id);
        }
    }
    queue.first()
}

fn start(situation: &TransportSituation<'_>) -> (id: Option<QueueEntryId>)
    ensures
        id == situation@.start(),
{
    match situation.navigation.queue().active() {
        Some(id) => Some(id),
        None => situation.navigation.first_in_order(),
    }
}

fn load_or_notice(id: Option<QueueEntryId>) -> (decision: TransportDecision)
    ensures
        decision == load_of(id),
{
    match id {
        Some(id) => TransportDecision::Load(id),
        None => TransportDecision::Notice(QUEUE_EMPTY),
    }
}

fn navigate(situation: &TransportSituation<'_>, direction: Direction) -> (decision: TransportDecision)
    ensures
        decision == situation@.step(direction),
{
    let cursor = situation.navigation.queue().active();
    let anchor = if situation.phase == PlaybackPhase::Loading && situation.retry.is_some() {
        situation.retry
    } else {
        cursor
    };
    match anchor {
        Some(id) => match situation.navigation.neighbor(id, direction) {
            Some(next) => TransportDecision::Load(next),
            None => TransportDecision::Nothing,
        },
        None => TransportDecision::Nothing,
    }
}

/// What is told to the engine while it runs a track whose queue is empty.
fn decide_engine_with_empty_queue(input: TransportInput) -> (decision: TransportDecision)
    requires
        input != TransportInput::Enter,
    ensures
        decision == input.controls(),
{
    match input {
        TransportInput::Space => TransportDecision::TogglePause,
        TransportInput::Play => TransportDecision::Play,
        TransportInput::Home => TransportDecision::Restart,
        TransportInput::SeekBy(by) => TransportDecision::SeekBy(by),
        TransportInput::SeekTo(to) => TransportDecision::SeekTo(to),
        TransportInput::Previous | TransportInput::Next => TransportDecision::Nothing,
        TransportInput::Enter => TransportDecision::Notice(QUEUE_EMPTY),
    }
}

pub fn decide(input: TransportInput, situation: &TransportSituation<'_>) -> (decision:
    TransportDecision)
    ensures
        decision == situation@.decision(input),
{
    let seeks: bool = match input {
        TransportInput::Home | TransportInput::SeekBy(_) | TransportInput::SeekTo(_) => true,
        _ => false,
    };
    let bare: bool = situation.phase == PlaybackPhase::Unloaded || situation.phase
        == PlaybackPhase::LoadFailed;
    if situation.live && seeks && !bare {
        return TransportDecision::Notice(LIVE_NO_SEEK);
    }
    if input == TransportInput::Enter {
        return load_or_notice(selection(situation));
    }
    let starts: bool = input == TransportInput::Space || input == TransportInput::Play;
    if situation.phase == PlaybackPhase::LoadFailed && starts {
        if let Some(id) = situation.retry {
            return TransportDecision::Load(id);
        }
    }
    if situation.navigation.queue().is_empty() {
        return match situation.phase {
            PlaybackPhase::Playing | PlaybackPhase::Reconnecting | PlaybackPhase::Paused => {
                decide_engine_with_empty_queue(input)
            },
            _ => match input {
                TransportInput::Previous | TransportInput::Next => TransportDecision::Nothing,
                _ => TransportDecision::Notice(QUEUE_EMPTY),
            },
        };
    }
    match input {
        TransportInput::Previous => return navigate(situation, Direction::Up),
        TransportInput::Next => return navigate(situation, Direction::Down),
        _ => {},
    }
    match situation.phase {
        PlaybackPhase::Unloaded | PlaybackPhase::LoadFailed => if starts {
            load_or_notice(start(situation))
        } else {
            TransportDecision::Notice(PLAY_BEFORE_SEEK)
        },
        PlaybackPhase::Ended => if starts {
            load_or_notice(start(situation))
        } else if input == TransportInput::Home {
            TransportDecision::Restart
        } else {
            TransportDecision::Notice(TRACK_ENDED)
        },
        PlaybackPhase::Loading => if starts {
            TransportDecision::Nothing
        } else {
            TransportDecision::Notice(STILL_LOADING)
        },
        _ => decide_engine_with_empty_queue(input),
    }
}

/// Whatever is to be loaded is queued: in the viewed playlist for Enter, and
/// otherwise in the one that is stepped through, or it is the load to retry.
pub proof fn only_queued_entries_are_loaded(situation: SituationView, input: TransportInput)
    requires
        situation.navigation.wf(),
        situation.viewed.wf(),
    ensures
        situation.decision(input) matches TransportDecision::Load(id) ==> {
            ||| input == TransportInput::Enter && situation.viewed.queue.holds(id)
            ||| input != TransportInput::Enter && situation.navigation.queue.holds(id)
            ||| situation.retry == Some(id)
        },
{
    let playlist = situation.navigation;
    let order = playlist.order();
    crate::playlist::order_plays_every_entry_once(playlist);
    if let Some(anchor) = situation.anchor() {
        crate::model::position_is_first(order, crate::playlist::entry_is(anchor), 0);
        if let Some(at) = playlist.rank(anchor) {
            if at > 0 {
                assert(order.contains(order[at - 1]));
            }
            if at + 1 < order.len() {
                assert(order.contains(order[at + 1]));
            }
        }
    }
    if order.len() > 0 {
        assert(order.contains(order[0]));
    }
    if situation.viewed.queue.entries.len() > 0 {
        crate::queue::entry_is_found(situation.viewed.queue, 0);
    }
}

/// A live source is never asked to move, in any phase.
pub proof fn live_source_never_seeks(situation: SituationView, input: TransportInput)
    requires
        situation.live,
    ensures
        !(situation.decision(input) is SeekBy) && !(situation.decision(input) is SeekTo) && !(
        situation.decision(input) is Restart),
{
}

/// Only Enter depends on what is viewed or selected.
pub proof fn only_enter_follows_the_view(
    situation: SituationView,
    viewed: PlaylistView,
    selected: Option<QueueEntryId>,
    input: TransportInput,
)
    requires
        input != TransportInput::Enter,
    ensures
        (SituationView { viewed, selected, ..situation }).decision(input) == situation.decision(
            input,
        ),
{
}

/// A source that reconnects is controlled exactly as one that plays.
pub proof fn reconnecting_is_controlled_as_playing(situation: SituationView, input: TransportInput)
    requires
        situation.phase == PlaybackPhase::Reconnecting,
    ensures
        situation.decision(input) == (SituationView {
            phase: PlaybackPhase::Playing,
            ..situation
        }).decision(input),
{
}

/// In every phase, a step loads the entry that stands directly behind, or before,
/// the one it is taken from in the playing order, and past either end it does
/// nothing. It is taken from the cursor, or from what is being loaded.
pub proof fn steps_follow_the_playing_order(situation: SituationView, from: QueueEntryId, k: int)
    requires
        situation.navigation.wf(),
        0 <= k < situation.navigation.order().len(),
        situation.navigation.order()[k] == from,
        (situation.phase == PlaybackPhase::Loading && situation.retry == Some(from)) || ((
        situation.phase != PlaybackPhase::Loading || situation.retry is None)
            && situation.navigation.queue.active == Some(from)),
    ensures
        ({
            let order = situation.navigation.order();
            &&& situation.decision(TransportInput::Next) == if k + 1 < order.len() {
                TransportDecision::Load(order[k + 1])
            } else {
                TransportDecision::Nothing
            }
            &&& situation.decision(TransportInput::Previous) == if k > 0 {
                TransportDecision::Load(order[k - 1])
            } else {
                TransportDecision::Nothing
            }
        }),
{
    crate::playlist::order_plays_every_entry_once(situation.navigation);
    crate::playlist::rank_is_place(situation.navigation, k);
}

/// With nothing to step from, a step does nothing; nor does it from an entry
/// that the stepped playlist does not hold.
pub proof fn steps_begin_at_an_entry(situation: SituationView, input: TransportInput)
    requires
        situation.navigation.wf(),
        input == TransportInput::Next || input == TransportInput::Previous,
        situation.phase == PlaybackPhase::Loading ==> (situation.retry matches Some(id)
            ==> !situation.navigation.queue.holds(id)),
        situation.phase != PlaybackPhase::Loading || situation.retry is None
            ==> situation.navigation.queue.active is None,
    ensures
        situation.decision(input) == TransportDecision::Nothing,
{
    if let Some(id) = situation.retry {
        crate::playlist::traversal_ends(situation.navigation, id);
    }
}

/// While the engine holds a track, playing, reconnecting, paused or stopped, the
/// keys control that track and nothing is loaded: Space toggles the pause, Play
/// plays, Home starts over, and a seek moves by or to what it says. That needs no
/// queue while the track runs. A live source has no place to move to.
pub proof fn held_track_is_controlled(situation: SituationView, by: i64, to: Duration)
    requires
        situation.phase == PlaybackPhase::Playing || situation.phase
            == PlaybackPhase::Reconnecting || situation.phase == PlaybackPhase::Paused || (
        situation.phase == PlaybackPhase::Stopped && situation.navigation.queue.entries.len() > 0),
    ensures
        situation.decision(TransportInput::Space) == TransportDecision::TogglePause,
        situation.decision(TransportInput::Play) == TransportDecision::Play,
        !situation.live ==> situation.decision(TransportInput::Home) == TransportDecision::Restart
            && situation.decision(TransportInput::SeekBy(by)) == TransportDecision::SeekBy(by)
            && situation.decision(TransportInput::SeekTo(to)) == TransportDecision::SeekTo(to),
        situation.live ==> situation.decision(TransportInput::Home) == TransportDecision::Notice(
            LIVE_NO_SEEK,
        ) && situation.decision(TransportInput::SeekBy(by)) == TransportDecision::Notice(
            LIVE_NO_SEEK,
        ) && situation.decision(TransportInput::SeekTo(to)) == TransportDecision::Notice(
            LIVE_NO_SEEK,
        ),
{
}

/// With nothing held or a track at its end, Space and Play load: a failed load
/// again, as long as it is queued; else the entry under the cursor; else the
/// first one in playing order. With an empty queue they report it.
pub proof fn starting_loads(situation: SituationView, input: TransportInput)
    requires
        input == TransportInput::Space || input == TransportInput::Play,
        situation.phase == PlaybackPhase::Unloaded || situation.phase == PlaybackPhase::LoadFailed
            || situation.phase == PlaybackPhase::Ended,
        situation.navigation.wf(),
    ensures
        situation.phase == PlaybackPhase::LoadFailed ==> (situation.retry matches Some(id)
            ==> situation.decision(input) == TransportDecision::Load(id)),
        situation.phase != PlaybackPhase::LoadFailed || situation.retry is None ==> {
            &&& situation.navigation.queue.entries.len() == 0 ==> situation.decision(input)
                == TransportDecision::Notice(QUEUE_EMPTY)
            &&& situation.navigation.queue.entries.len() > 0 ==> situation.decision(input)
                == TransportDecision::Load(
                match situation.navigation.queue.active {
                    Some(id) => id,
                    None => situation.navigation.order()[0],
                },
            )
        },
{
    crate::playlist::order_plays_every_entry_once(situation.navigation);
}

/// In every phase Enter loads the selected row of the viewed playlist, or its
/// first row where the selected one is no longer there; an empty one is
/// reported.
pub proof fn enter_loads_the_selected_row(situation: SituationView, k: int)
    requires
        situation.viewed.wf(),
    ensures
        0 <= k < situation.viewed.queue.entries.len() && situation.selected == Some(
            situation.viewed.queue.entries[k].id,
        ) ==> situation.decision(TransportInput::Enter) == TransportDecision::Load(
            situation.viewed.queue.entries[k].id,
        ),
        situation.viewed.queue.entries.len() > 0 && (situation.selected matches Some(id)
            ==> forall|i: int|
            0 <= i < situation.viewed.queue.entries.len() ==> (
            #[trigger] situation.viewed.queue.entries[i]).id != id) ==> situation.decision(
            TransportInput::Enter,
        ) == TransportDecision::Load(situation.viewed.queue.entries[0].id),
        situation.viewed.queue.entries.len() == 0 ==> situation.decision(TransportInput::Enter)
            == TransportDecision::Notice(QUEUE_EMPTY),
{
    if let Some(id) = situation.selected {
        crate::queue::found_is_queued(situation.viewed.queue, id);
    }
    if 0 <= k < situation.viewed.queue.entries.len() {
        crate::queue::entry_is_found(situation.viewed.queue, k);
    }
}

/// Where nothing can be moved, a seek says why: that there is nothing queued, that
/// a track must be played first, that it is still loading, or that it has ended.
/// Home plays an ended track again. While loading, Space and Play wait.
pub proof fn seeking_says_why_not(situation: SituationView, input: TransportInput)
    requires
        !situation.live,
        input == TransportInput::Home || input is SeekBy || input is SeekTo,
    ensures
        situation.navigation.queue.entries.len() == 0 && (situation.phase
            == PlaybackPhase::Unloaded || situation.phase == PlaybackPhase::Loading
            || situation.phase == PlaybackPhase::LoadFailed || situation.phase
            == PlaybackPhase::Stopped || situation.phase == PlaybackPhase::Ended)
            ==> situation.decision(input) == TransportDecision::Notice(QUEUE_EMPTY),
        situation.navigation.queue.entries.len() > 0 ==> {
            &&& situation.phase == PlaybackPhase::Unloaded || situation.phase
                == PlaybackPhase::LoadFailed ==> situation.decision(input)
                == TransportDecision::Notice(PLAY_BEFORE_SEEK)
            &&& situation.phase == PlaybackPhase::Loading ==> situation.decision(input)
                == TransportDecision::Notice(STILL_LOADING) && situation.decision(
                TransportInput::Space,
            ) == TransportDecision::Nothing && situation.decision(TransportInput::Play)
                == TransportDecision::Nothing
            &&& situation.phase == PlaybackPhase::Ended ==> situation.decision(input) == if input
                == TransportInput::Home {
                TransportDecision::Restart
            } else {
                TransportDecision::Notice(TRACK_ENDED)
            }
        },
{
}

} // verus!
