//! The state file: what is written of a state, and what is read of it.

use crate::json::{Json, JsonView};
use crate::media::{MediaId, MediaKey};
use crate::persistence::model::{PersistedState, Slot, SlotView, StateView};
use crate::persistence::queue_codec::{encode_playlists, QueueReset};
use crate::persistence::recovery::{migrate_queue, recover_playlists, recover_queue, RawPlaylists,
    RawPlaylistsView, Recovered, RecoveredView};
use crate::playlist::PlaylistView;
use crate::queue::{Queue, QueueView};
use vstd::prelude::*;

verus! {

broadcast use crate::model::group_model;

/// A state file before its playlists are validated. These, and the one queue
/// of an older file, are held as they stand, so that damage to them never
/// touches the checkpoints.
pub struct RawState {
    pub schema_version: u32,
    pub current_media: Option<MediaId>,
    pub volume: u32,
    pub checkpoints: Vec<Slot>,
    pub queue: Option<Json>,
    pub active_entry: Option<Json>,
    pub playlists: Option<Json>,
    pub playing: Option<Json>,
    /// `None` where the member is absent; null is kept apart from that.
    pub next_entry_id: Option<Json>,
    pub next_playlist_id: Option<Json>,
}

#[verifier::ext_equal]
pub struct RawStateView {
    pub schema_version: u32,
    pub current_media: Option<MediaKey>,
    pub volume: u32,
    pub checkpoints: Seq<SlotView>,
    pub queue: Option<JsonView>,
    pub active_entry: Option<JsonView>,
    pub playlists: Option<JsonView>,
    pub playing: Option<JsonView>,
    pub next_entry_id: Option<JsonView>,
    pub next_playlist_id: Option<JsonView>,
}

impl View for RawState {
    type V = RawStateView;

    open spec fn view(&self) -> RawStateView {
        RawStateView {
            schema_version: self.schema_version,
            current_media: crate::model::opt(self.current_media),
            volume: self.volume,
            checkpoints: crate::model::seq(self.checkpoints@),
            queue: crate::model::opt(self.queue),
            active_entry: crate::model::opt(self.active_entry),
            playlists: crate::model::opt(self.playlists),
            playing: crate::model::opt(self.playing),
            next_entry_id: crate::model::opt(self.next_entry_id),
            next_playlist_id: crate::model::opt(self.next_playlist_id),
        }
    }
}

/// The number after `touch`, as far as there is one.
pub open spec fn following(touch: u64) -> u64 {
    if touch < u64::MAX {
        (touch + 1) as u64
    } else {
        u64::MAX
    }
}

/// The sequence number that follows those of the first `count` checkpoints.
pub open spec fn next_sequence(checkpoints: Seq<SlotView>, count: int) -> u64
    decreases count,
{
    if count <= 0 {
        1
    } else {
        let before = next_sequence(checkpoints, count - 1);
        let after = following(checkpoints[count - 1].checkpoint.touch_seq);
        if before < after {
            after
        } else {
            before
        }
    }
}

/// With `slot` in the place of what was remembered of its media, or behind the
/// others.
pub open spec fn put(slots: Seq<SlotView>, slot: SlotView) -> Seq<SlotView> {
    match crate::model::position(slots, crate::persistence::model::slot_is(slot.media), 0) {
        Some(at) => slots.update(at, slot),
        None => slots.push(slot),
    }
}

/// One slot for each media: of those that a file has for one, the last counts.
pub open spec fn gathered(slots: Seq<SlotView>) -> Seq<SlotView>
    decreases slots.len(),
{
    if slots.len() == 0 {
        slots
    } else {
        put(gathered(slots.drop_last()), slots.last())
    }
}

/// Whether no media has two slots.
pub open spec fn distinct_slots(slots: Seq<SlotView>) -> bool {
    forall|i: int, j: int|
        0 <= i < j < slots.len() ==> #[trigger] slots[i].media != #[trigger] slots[j].media
}

/// What is gathered has no media twice, whatever the file holds.
pub proof fn gathered_slots_are_distinct(slots: Seq<SlotView>)
    ensures
        distinct_slots(gathered(slots)),
    decreases slots.len(),
{
    if slots.len() > 0 {
        let before = gathered(slots.drop_last());
        let slot = slots.last();
        gathered_slots_are_distinct(slots.drop_last());
        let wanted = crate::persistence::model::slot_is(slot.media);
        crate::model::position_is_first(before, wanted, 0);
        let after = gathered(slots);
        assert forall|i: int, j: int| 0 <= i < j < after.len() implies #[trigger] after[i].media
            != #[trigger] after[j].media by {
            match crate::model::position(before, wanted, 0) {
                Some(at) => {
                    assert(wanted(before[at]));
                    assert(before[i].media != before[j].media);
                },
                None => {
                    assert(!wanted(before[i]));
                    if j < before.len() {
                        assert(before[i].media != before[j].media);
                    }
                },
            }
        }
    }
}

/// Slots of different media are all kept, in their order.
pub proof fn distinct_slots_are_kept(slots: Seq<SlotView>)
    requires
        distinct_slots(slots),
    ensures
        gathered(slots) == slots,
    decreases slots.len(),
{
    if slots.len() > 0 {
        let before = slots.drop_last();
        let wanted = crate::persistence::model::slot_is(slots.last().media);
        distinct_slots_are_kept(before);
        crate::model::position_is_first(before, wanted, 0);
        if let Some(at) = crate::model::position(before, wanted, 0) {
            assert(slots[at].media != slots[slots.len() - 1].media);
        }
        assert(before.push(slots.last()) =~= slots);
    }
}

/// The slots of a file, one for each media.
fn gather(slots: Vec<Slot>) -> (kept: Vec<Slot>)
    ensures
        crate::model::seq(kept@) == gathered(crate::model::seq(slots@)),
{
    let ghost given = slots@;
    let ghost all = crate::model::seq(slots@);
    let mut kept: Vec<Slot> = Vec::new();
    assert(all.take(0) =~= Seq::<SlotView>::empty());
    for slot in it: slots
        invariant
            it.seq() == given,
            all == crate::model::seq(given),
            crate::model::seq(kept@) == gathered(all.take(it.index() as int)),
    {
        let ghost done = it.index() as int;
        let ghost before = crate::model::seq(kept@);
        let ghost wanted = crate::persistence::model::slot_is(slot@.media);
        assert(all[done] == given[done]@);
        assert(all.take(done + 1).drop_last() =~= all.take(done));
        let mut at: usize = 0;
        while at < kept.len() && !kept[at].media.same(&slot.media)
            invariant
                at <= kept@.len(),
                before == crate::model::seq(kept@),
                wanted == crate::persistence::model::slot_is(slot@.media),
                crate::model::position(before, wanted, 0) == crate::model::position(
                    before,
                    wanted,
                    at as int,
                ),
            decreases kept@.len() - at,
        {
            assert(before[at as int] == kept@[at as int]@);
            at += 1;
        }
        if at < kept.len() {
            assert(before[at as int] == kept@[at as int]@);
            kept[at] = slot;
            assert(crate::model::seq(kept@) =~= before.update(at as int, slot@));
        } else {
            kept.push(slot);
            assert(crate::model::seq(kept@) =~= before.push(slot@));
        }
    }
    assert(all.take(all.len() as int) =~= all);
    kept
}

impl RawStateView {
    pub open spec fn raw_playlists(self) -> RawPlaylistsView {
        RawPlaylistsView {
            playlists: self.playlists,
            playing: self.playing,
            next_entry_id: self.next_entry_id,
            next_playlist_id: self.next_playlist_id,
        }
    }

    /// What its queue data comes to: nothing in a file from before there was
    /// any, or where it is not wanted; one queue in a file of version 3; and
    /// playlists from then on.
    pub open spec fn recovered(self, accept_queue: bool) -> RecoveredView {
        if !accept_queue || self.schema_version < 3 {
            crate::persistence::recovery::queue_migrated(
                QueueView::empty(),
                self.current_media,
                None,
            )
        } else if self.schema_version == 3 {
            let read = crate::persistence::recovery::queue_recovered(
                self.queue,
                self.active_entry,
                self.current_media,
            );
            crate::persistence::recovery::queue_migrated(read.0, self.current_media, read.1)
        } else {
            crate::persistence::recovery::playlists_recovered(
                self.raw_playlists(),
                self.current_media,
            )
        }
    }

    /// The state that the file holds.
    pub open spec fn state(self, accept_queue: bool) -> StateView {
        let recovered = self.recovered(accept_queue);
        StateView {
            schema_version: self.schema_version,
            current_media: recovered.current_media,
            volume: self.volume,
            checkpoints: gathered(self.checkpoints),
            playlists: recovered.playlists,
            playing: recovered.playing,
            next_seq: next_sequence(
                gathered(self.checkpoints),
                gathered(self.checkpoints).len() as int,
            ),
            entry_ids: recovered.entry_ids,
            playlist_ids: recovered.playlist_ids,
        }
    }
}

impl RawState {
    /// The state that the file holds, and what had to be reset for it. The
    /// sequence number is derived from the checkpoints and never stored.
    pub fn into_state(self, accept_queue: bool) -> (read: (PersistedState, Option<QueueReset>))
        ensures
            read.0@ == self@.state(accept_queue),
            read.1 == self@.recovered(accept_queue).reset,
            read.0@.wf(),
            read.0@.cursor_is_current(),
    {
        let ghost whole = self@;
        proof {
            read_state_is_whole(whole, accept_queue);
        }
        let RawState {
            schema_version,
            current_media,
            volume,
            checkpoints,
            queue,
            active_entry,
            playlists,
            playing,
            next_entry_id,
            next_playlist_id,
        } = self;
        let checkpoints = gather(checkpoints);
        let ghost slots = crate::model::seq(checkpoints@);
        let mut next_seq: u64 = 1;
        let mut at: usize = 0;
        while at < checkpoints.len()
            invariant
                at <= checkpoints@.len(),
                slots == crate::model::seq(checkpoints@),
                next_seq == next_sequence(slots, at as int),
            decreases checkpoints@.len() - at,
        {
            assert(slots[at as int] == checkpoints@[at as int]@);
            let after: u64 = checkpoints[at].checkpoint.touch_seq.saturating_add(1);
            if next_seq < after {
                next_seq = after;
            }
            at += 1;
        }
        let recovered = if !accept_queue || schema_version < 3 {
            migrate_queue(Queue::default(), current_media, None)
        } else if schema_version == 3 {
            let (queue, reset) = recover_queue(
                queue.as_ref(),
                active_entry.as_ref(),
                current_media.as_ref(),
            );
            migrate_queue(queue, current_media, reset)
        } else {
            recover_playlists(
                RawPlaylists {
                    playlists: playlists.as_ref(),
                    playing: playing.as_ref(),
                    next_entry_id: next_entry_id.as_ref(),
                    next_playlist_id: next_playlist_id.as_ref(),
                },
                current_media,
            )
        };
        assert(recovered@ == whole.recovered(accept_queue));
        let Recovered { playlists, playing, entry_ids, playlist_ids, current_media, reset } =
            recovered;
        let state = PersistedState::from_parts(
            schema_version,
            current_media,
            volume,
            checkpoints,
            playlists,
            playing,
            next_seq,
            entry_ids,
            playlist_ids,
        );
        assert(state@ =~= whole.state(accept_queue));
        (state, reset)
    }
}

/// A file that is read holds a whole state, whatever is in it.
pub proof fn read_state_is_whole(raw: RawStateView, accept_queue: bool)
    ensures
        raw.state(accept_queue).wf(),
        raw.state(accept_queue).cursor_is_current(),
{
    gathered_slots_are_distinct(raw.checkpoints);
    let rest = raw.state(accept_queue);
    assert(rest.distinct_media());
    if !accept_queue || raw.schema_version < 3 {
        crate::persistence::recovery_laws::migrated_queue_is_whole(
            QueueView::empty(),
            raw.current_media,
            None,
            rest,
        );
    } else if raw.schema_version == 3 {
        let read = crate::persistence::recovery::queue_recovered(
            raw.queue,
            raw.active_entry,
            raw.current_media,
        );
        crate::persistence::recovery_laws::recovered_queue_is_whole(
            raw.queue,
            raw.active_entry,
            raw.current_media,
        );
        crate::persistence::recovery_laws::migrated_queue_is_whole(
            read.0,
            raw.current_media,
            read.1,
            rest,
        );
    } else {
        crate::persistence::recovery_laws::recovered_playlists_are_whole(
            raw.raw_playlists(),
            raw.current_media,
            rest,
        );
    }
    assert(raw.state(accept_queue) =~= raw.recovered(accept_queue).in_state(rest));
}

/// A state as it is written.
pub struct StateFile {
    pub schema_version: u32,
    pub current_media: Option<MediaId>,
    pub volume: u32,
    pub checkpoints: Vec<Slot>,
    pub playlists: Json,
    pub playing: u64,
    /// `None` is written as null: the numbers are used up.
    pub next_entry_id: Option<u64>,
    pub next_playlist_id: Option<u64>,
}

#[verifier::ext_equal]
pub struct StateFileView {
    pub schema_version: u32,
    pub current_media: Option<MediaKey>,
    pub volume: u32,
    pub checkpoints: Seq<SlotView>,
    pub playlists: JsonView,
    pub playing: u64,
    pub next_entry_id: Option<u64>,
    pub next_playlist_id: Option<u64>,
}

impl View for StateFile {
    type V = StateFileView;

    open spec fn view(&self) -> StateFileView {
        StateFileView {
            schema_version: self.schema_version,
            current_media: crate::model::opt(self.current_media),
            volume: self.volume,
            checkpoints: crate::model::seq(self.checkpoints@),
            playlists: self.playlists@,
            playing: self.playing,
            next_entry_id: self.next_entry_id,
            next_playlist_id: self.next_playlist_id,
        }
    }
}

/// A playlist as JSON.
pub open spec fn playlist_json(playlist: PlaylistView) -> JsonView {
    playlist.dto().json()
}

impl StateView {
    /// What is written of a state: all of it but the sequence number.
    pub open spec fn file(self) -> StateFileView {
        StateFileView {
            schema_version: self.schema_version,
            current_media: self.current_media,
            volume: self.volume,
            checkpoints: self.checkpoints,
            playlists: JsonView::Array(
                self.playlists.map_values(|playlist: PlaylistView| playlist_json(playlist)),
            ),
            playing: self.playing.raw,
            next_entry_id: self.entry_ids.next,
            next_playlist_id: self.playlist_ids.next,
        }
    }
}

impl StateFileView {
    /// What there is to read in a file that was written so.
    pub open spec fn raw(self) -> RawStateView {
        RawStateView {
            schema_version: self.schema_version,
            current_media: self.current_media,
            volume: self.volume,
            checkpoints: self.checkpoints,
            queue: None,
            active_entry: None,
            playlists: Some(self.playlists),
            playing: Some(JsonView::Number(self.playing)),
            next_entry_id: Some(
                crate::persistence::queue_codec::number_or_null(self.next_entry_id),
            ),
            next_playlist_id: Some(
                crate::persistence::queue_codec::number_or_null(self.next_playlist_id),
            ),
        }
    }
}

impl PersistedState {
    /// What is written of the state.
    pub fn to_file(&self) -> (file: StateFile)
        ensures
            file@ == self@.file(),
    {
        let ghost all = self@.playlists.map_values(
            |playlist: PlaylistView| playlist_json(playlist),
        );
        let dtos = encode_playlists(self.playlists());
        let ghost views = crate::model::seq(dtos@);
        let mut items: Vec<Json> = Vec::new();
        let mut at: usize = 0;
        assert(views.len() == all.len());
        while at < dtos.len()
            invariant
                at <= dtos@.len(),
                dtos@.len() == all.len(),
                views == crate::model::seq(dtos@),
                views == self@.playlists.map_values(|playlist: PlaylistView| playlist.dto()),
                all == self@.playlists.map_values(
                    |playlist: PlaylistView| playlist_json(playlist),
                ),
                crate::model::seq(items@) == all.take(at as int),
            decreases dtos@.len() - at,
        {
            assert(views[at as int] == dtos@[at as int]@);
            let item = dtos[at].to_json();
            proof {
                assert(all.take(at + 1) =~= all.take(at as int).push(item@));
            }
            items.push(item);
            at += 1;
        }
        proof {
            assert(all.take(at as int) =~= all);
        }
        let slots = self.checkpoints();
        let mut checkpoints: Vec<Slot> = Vec::new();
        let mut at: usize = 0;
        while at < slots.len()
            invariant
                at <= slots@.len(),
                checkpoints@ == slots@.take(at as int),
            decreases slots@.len() - at,
        {
            checkpoints.push(slots[at].clone());
            at += 1;
            proof {
                assert(checkpoints@ =~= slots@.take(at as int));
            }
        }
        proof {
            assert(checkpoints@ =~= slots@);
        }
        let current_media = match self.current_media() {
            Some(media) => Some(media.clone()),
            None => None,
        };
        StateFile {
            schema_version: self.schema_version(),
            current_media,
            volume: self.gain_bits(),
            checkpoints,
            playlists: Json::array(items),
            playing: self.playing().get(),
            next_entry_id: self.entry_ids().next(),
            next_playlist_id: self.playlist_ids().next(),
        }
    }
}

} // verus!
