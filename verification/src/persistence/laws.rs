//! What every change to a saved state keeps.

use crate::clock::{Duration, WallTime};
use crate::media::MediaKey;
use crate::persistence::model::{PersistedCheckpoint, SlotView, StateView, MAX_ENTRIES};
use crate::playlist::{PlaylistId, PlaylistView, MAX_PLAYLISTS};
use crate::queue::{NewEntryView, QueueEntryId, QueueView, MAX_PLAYLIST_ENTRIES};
use vstd::prelude::*;

verus! {

/// A playlist is found where it stands.
pub proof fn playlist_is_found(state: StateView, at: int)
    requires
        state.distinct_playlists(),
        0 <= at < state.playlists.len(),
    ensures
        state.index_of(state.playlists[at].id) == Some(at),
{
    let id = state.playlists[at].id;
    let wanted = crate::persistence::model::playlist_is(id);
    crate::model::position_is_first(state.playlists, wanted, 0);
    assert(wanted(state.playlists[at]));
}

/// A playlist is found exactly where there is one.
pub proof fn found_playlist(state: StateView, id: PlaylistId)
    ensures
        match state.index_of(id) {
            Some(at) => 0 <= at < state.playlists.len() && state.playlists[at].id == id,
            None => forall|i: int| 0 <= i < state.playlists.len() ==> (#[trigger] state.playlists[i]).id
                != id,
        },
{
    let wanted = crate::persistence::model::playlist_is(id);
    crate::model::position_is_first(state.playlists, wanted, 0);
    if state.index_of(id) is None {
        assert forall|i: int| 0 <= i < state.playlists.len() implies (#[trigger] state.playlists[i]).id
            != id by {
            assert(!wanted(state.playlists[i]));
        }
    }
}

/// An entry's owner is the playlist that holds it.
pub proof fn found_owner(state: StateView, entry: QueueEntryId)
    ensures
        match state.owner_index(entry) {
            Some(at) => 0 <= at < state.playlists.len() && state.playlists[at].queue.holds(entry),
            None => forall|i: int|
                0 <= i < state.playlists.len() ==> !(#[trigger] state.playlists[i]).queue.holds(
                    entry,
                ),
        },
{
    let wanted = crate::persistence::model::playlist_holds(entry);
    crate::model::position_is_first(state.playlists, wanted, 0);
    if state.owner_index(entry) is None {
        assert forall|i: int| 0 <= i < state.playlists.len() implies !(
        #[trigger] state.playlists[i]).queue.holds(entry) by {
            assert(!wanted(state.playlists[i]));
        }
    }
}

/// The one playlist that holds an entry is its owner.
pub proof fn owner_is_unique(state: StateView, at: int, entry: QueueEntryId)
    requires
        state.distinct_entries(),
        0 <= at < state.playlists.len(),
        state.playlists[at].queue.holds(entry),
    ensures
        state.owner_index(entry) == Some(at),
        state.find_entry(entry) == state.playlists[at].queue.get(entry),
        state.owner_of(entry) == Some(state.playlists[at].id),
{
    found_owner(state, entry);
    let found = state.owner_index(entry).unwrap();
    if found < at {
        assert(state.playlists[found].queue.holds(entry));
    } else if at < found {
        assert(state.playlists[at].queue.holds(entry));
    }
}

pub proof fn entries_in_prefix(a: Seq<PlaylistView>, b: Seq<PlaylistView>, count: int)
    requires
        count <= a.len(),
        count <= b.len(),
        forall|i: int|
            0 <= i < count ==> (#[trigger] a[i]).queue.entries.len() == (
            #[trigger] b[i]).queue.entries.len(),
    ensures
        crate::persistence::model::entries_in(a, count) == crate::persistence::model::entries_in(
            b,
            count,
        ),
    decreases count,
{
    if count > 0 {
        assert(a[count - 1].queue.entries.len() == b[count - 1].queue.entries.len());
        entries_in_prefix(a, b, count - 1);
    }
}

proof fn entries_in_update(
    playlists: Seq<PlaylistView>,
    at: int,
    playlist: PlaylistView,
    count: int,
)
    requires
        0 <= at < count <= playlists.len(),
    ensures
        crate::persistence::model::entries_in(playlists.update(at, playlist), count)
            + playlists[at].queue.entries.len() == crate::persistence::model::entries_in(
            playlists,
            count,
        ) + playlist.queue.entries.len(),
    decreases count,
{
    if at < count - 1 {
        entries_in_update(playlists, at, playlist, count - 1);
    } else {
        entries_in_prefix(playlists.update(at, playlist), playlists, count - 1);
    }
}

proof fn entries_in_remove(playlists: Seq<PlaylistView>, at: int, count: int)
    requires
        0 <= at < count <= playlists.len(),
    ensures
        crate::persistence::model::entries_in(playlists.remove(at), count - 1)
            + playlists[at].queue.entries.len() == crate::persistence::model::entries_in(
            playlists,
            count,
        ),
    decreases count,
{
    if at < count - 1 {
        entries_in_remove(playlists, at, count - 1);
        assert(playlists.remove(at)[count - 2] == playlists[count - 1]);
    } else {
        entries_in_prefix(playlists.remove(at), playlists, count - 1);
    }
}

/// The invariant survives a change to one playlist that keeps its number and
/// brings in no entry.
pub proof fn changing_a_playlist_keeps_wf(state: StateView, at: int, playlist: PlaylistView)
    requires
        state.wf(),
        0 <= at < state.playlists.len(),
        playlist.wf(),
        playlist.id == state.playlists[at].id,
        playlist.queue.entries.len() <= state.playlists[at].queue.entries.len(),
        forall|id: QueueEntryId| #[trigger]
            playlist.queue.holds(id) ==> state.playlists[at].queue.holds(id),
    ensures
        state.with_playlist(at, playlist).wf(),
{
    let after = state.with_playlist(at, playlist);
    found_playlist(state, state.playing);
    let playing = state.index_of(state.playing).unwrap();
    assert(after.distinct_playlists()) by {
        assert forall|i: int, j: int|
            0 <= i < j < after.playlists.len() implies #[trigger] after.playlists[i].id
            != #[trigger] after.playlists[j].id by {
            assert(after.playlists[i].id == state.playlists[i].id);
            assert(after.playlists[j].id == state.playlists[j].id);
        }
    }
    assert(after.playlists[playing].id == state.playlists[playing].id);
    playlist_is_found(after, playing);
    entries_in_update(state.playlists, at, playlist, state.playlists.len() as int);
    assert forall|i: int, k: int|
        #![trigger after.playlists[i].queue.entries[k]]
        0 <= i < after.playlists.len() && 0 <= k < after.playlists[i].queue.entries.len() implies after.entry_ids.past(
    after.playlists[i].queue.entries[k].id.raw) by {
        if i == at {
            let id = playlist.queue.entries[k].id;
            crate::queue::entry_is_found(playlist.queue, k);
            assert(playlist.queue.holds(id));
            crate::queue::found_is_queued(state.playlists[at].queue, id);
            let from = state.playlists[at].queue.find(id).unwrap();
            assert(state.entry_ids.past(state.playlists[at].queue.entries[from].id.raw));
        } else {
            assert(state.playlists[i].queue.entries[k] == after.playlists[i].queue.entries[k]);
        }
    }
    assert forall|i: int| 0 <= i < after.playlists.len() implies after.playlist_ids.past(
        (#[trigger] after.playlists[i]).id.raw,
    ) by {
        assert(after.playlists[i].id == state.playlists[i].id);
    }
    assert forall|i: int, j: int, id: QueueEntryId|
        0 <= i < j < after.playlists.len() && #[trigger] after.playlists[i].queue.holds(
            id,
        ) implies !#[trigger] after.playlists[j].queue.holds(id) by {
        assert(state.playlists[i].queue.holds(id));
        if after.playlists[j].queue.holds(id) {
            assert(state.playlists[j].queue.holds(id));
        }
    }
}

/// The invariant survives a change to one queue that brings in no entry.
pub proof fn changing_a_queue_keeps_wf(state: StateView, at: int, queue: QueueView)
    requires
        state.wf(),
        0 <= at < state.playlists.len(),
        queue.wf(),
        queue.entries.len() <= state.playlists[at].queue.entries.len(),
        forall|id: QueueEntryId| #[trigger]
            queue.holds(id) ==> state.playlists[at].queue.holds(id),
    ensures
        state.with_queue(at, queue).wf(),
{
    changing_a_playlist_keeps_wf(state, at, state.playlists[at].with_queue(queue));
}

/// The invariant survives entries added under the cap, and no number that was
/// in use is given to one of them.
pub proof fn enqueuing_keeps_wf(state: StateView, at: int, batch: Seq<NewEntryView>)
    requires
        state.wf(),
        0 <= at < state.playlists.len(),
        state.total() + batch.len() <= MAX_PLAYLIST_ENTRIES,
        state.entry_ids.has(batch.len()),
    ensures
        state.enqueued(at, batch).wf(),
        state.enqueued(at, batch).total() == state.total() + batch.len(),
        forall|entry: QueueEntryId|
            state.find_entry(entry) is Some ==> #[trigger] state.enqueued(at, batch).find_entry(
                entry,
            ) == state.find_entry(entry),
{
    let queue = state.playlists[at].queue;
    let ids = state.entry_ids;
    assert forall|i: int| 0 <= i < queue.entries.len() implies ids.past(
        (#[trigger] queue.entries[i]).id.raw,
    ) by {
        assert(ids.past(state.playlists[at].queue.entries[i].id.raw));
    }
    crate::queue::enqueuing_keeps_order(queue, ids, batch);
    let longer = queue.enqueued(ids.first(), batch);
    let after = state.enqueued(at, batch);
    found_playlist(state, state.playing);
    let playing = state.index_of(state.playing).unwrap();
    assert(after.distinct_playlists()) by {
        assert forall|i: int, j: int|
            0 <= i < j < after.playlists.len() implies #[trigger] after.playlists[i].id
            != #[trigger] after.playlists[j].id by {
            assert(after.playlists[i].id == state.playlists[i].id);
            assert(after.playlists[j].id == state.playlists[j].id);
        }
    }
    assert(after.playlists[playing].id == state.playlists[playing].id);
    playlist_is_found(after, playing);
    entries_in_update(
        state.playlists,
        at,
        state.playlists[at].with_queue(longer),
        state.playlists.len() as int,
    );
    assert forall|i: int, k: int|
        #![trigger after.playlists[i].queue.entries[k]]
        0 <= i < after.playlists.len() && 0 <= k < after.playlists[i].queue.entries.len() implies after.entry_ids.past(
    after.playlists[i].queue.entries[k].id.raw) by {
        if i == at {
            assert(ids.after(batch.len()).past(longer.entries[k].id.raw));
        } else {
            assert(state.playlists[i].queue.entries[k] == after.playlists[i].queue.entries[k]);
        }
    }
    assert forall|i: int| 0 <= i < after.playlists.len() implies after.playlist_ids.past(
        (#[trigger] after.playlists[i]).id.raw,
    ) by {
        assert(after.playlists[i].id == state.playlists[i].id);
    }
    assert forall|i: int, j: int, id: QueueEntryId|
        0 <= i < j < after.playlists.len() && #[trigger] after.playlists[i].queue.holds(
            id,
        ) implies !#[trigger] after.playlists[j].queue.holds(id) by {
        if after.playlists[j].queue.holds(id) {
            let other = if i == at {
                j
            } else {
                i
            };
            crate::queue::found_is_queued(longer, id);
            if i == at || j == at {
                let k = longer.find(id).unwrap();
                let m = state.playlists[other].queue;
                crate::queue::found_is_queued(m, id);
                let n = m.find(id).unwrap();
                assert(ids.past(state.playlists[other].queue.entries[n].id.raw));
                assert(longer.entries[k].id == id);
                if k < queue.entries.len() {
                    assert(longer.entries[k] == queue.entries[k]);
                    crate::queue::entry_is_found(queue, k);
                    assert(state.playlists[i].queue.holds(id));
                    assert(state.playlists[j].queue.holds(id));
                }
            } else {
                assert(state.playlists[i].queue.holds(id));
                assert(state.playlists[j].queue.holds(id));
            }
        }
    }
    assert forall|i: int| 0 <= i < after.playlists.len() implies (
    #[trigger] after.playlists[i]).wf() by {
        assert(state.playlists[i].wf());
    }
    assert forall|entry: QueueEntryId| state.find_entry(entry) is Some implies #[trigger] after.find_entry(
    entry) == state.find_entry(entry) by {
        found_owner(state, entry);
        let owner = state.owner_index(entry).unwrap();
        if owner == at {
            assert(queue.holds(entry));
            assert(longer.find(entry) == queue.find(entry));
            crate::queue::found_is_queued(queue, entry);
            let k = queue.find(entry).unwrap();
            assert(longer.entries.take(queue.entries.len() as int)[k] == queue.entries[k]);
        }
        assert(after.playlists[owner].queue.holds(entry));
        owner_is_unique(after, owner, entry);
    }
}

/// The invariant survives a shuffle that begins again.
pub proof fn reshuffling_keeps_wf(state: StateView, at: int)
    requires
        state.wf(),
        0 <= at < state.playlists.len(),
    ensures
        state.reshuffled(at).wf(),
{
    if let Some(shuffle) = state.playlists[at].shuffle {
        changing_a_playlist_keeps_wf(
            state,
            at,
            state.playlists[at].shuffled(Some(shuffle.seed)),
        );
    }
}

/// The invariant survives a new name.
pub proof fn renaming_keeps_wf(state: StateView, at: int, name: Seq<char>)
    requires
        state.wf(),
        0 <= at < state.playlists.len(),
        crate::playlist::is_clean(name),
    ensures
        state.renamed(at, name).wf(),
{
    changing_a_playlist_keeps_wf(state, at, PlaylistView { name, ..state.playlists[at] });
}

/// The invariant survives a new playlist, whose number was never in use.
pub proof fn creating_keeps_wf(state: StateView, name: Seq<char>)
    requires
        state.wf(),
        state.playlists.len() < MAX_PLAYLISTS,
        state.playlist_ids.has(1),
        crate::playlist::is_clean(name),
    ensures
        state.created(name).wf(),
        !state.has_playlist(PlaylistId { raw: state.playlist_ids.first() }),
{
    let after = state.created(name);
    let n = state.playlists.len() as int;
    found_playlist(state, PlaylistId { raw: state.playlist_ids.first() });
    if let Some(i) = state.index_of(PlaylistId { raw: state.playlist_ids.first() }) {
        assert(state.playlist_ids.past(state.playlists[i].id.raw));
    }
    assert forall|i: int| 0 <= i < n implies #[trigger] after.playlists[i]
        == state.playlists[i] by {}
    assert(after.distinct_playlists()) by {
        assert forall|i: int, j: int|
            0 <= i < j < after.playlists.len() implies #[trigger] after.playlists[i].id
            != #[trigger] after.playlists[j].id by {
            assert(after.playlists[i] == state.playlists[i]);
            assert(state.playlist_ids.past(state.playlists[i].id.raw));
            if j < n {
                assert(after.playlists[j] == state.playlists[j]);
            }
        }
    }
    found_playlist(state, state.playing);
    playlist_is_found(after, state.index_of(state.playing).unwrap());
    entries_in_prefix(after.playlists, state.playlists, n);
    let made = after.playlists[n];
    assert(made.wf());
    assert forall|i: int, j: int, id: QueueEntryId|
        0 <= i < j < after.playlists.len() && #[trigger] after.playlists[i].queue.holds(
            id,
        ) implies !#[trigger] after.playlists[j].queue.holds(id) by {
        if j < n {
            assert(state.playlists[i].queue.holds(id));
            assert(after.playlists[j] == state.playlists[j]);
        } else {
            crate::queue::found_is_queued(made.queue, id);
        }
    }
    assert forall|i: int| 0 <= i < after.playlists.len() implies after.playlist_ids.past(
        (#[trigger] after.playlists[i]).id.raw,
    ) by {
        if i < n {
            assert(state.playlist_ids.past(state.playlists[i].id.raw));
        }
    }
    assert forall|i: int, k: int|
        #![trigger after.playlists[i].queue.entries[k]]
        0 <= i < after.playlists.len() && 0 <= k < after.playlists[i].queue.entries.len() implies after.entry_ids.past(
    after.playlists[i].queue.entries[k].id.raw) by {
        assert(after.playlists[i] == state.playlists[i]);
        assert(state.entry_ids.past(state.playlists[i].queue.entries[k].id.raw));
    }
}

/// The invariant survives the loss of a playlist, and the other playlists
/// stay as they were.
pub proof fn removing_keeps_wf(state: StateView, at: int)
    requires
        state.wf(),
        0 <= at < state.playlists.len(),
        state.playlists.len() > 1,
    ensures
        state.without_playlist(at).wf(),
        !state.without_playlist(at).has_playlist(state.playlists[at].id),
        state.without_playlist(at).checkpoints == state.checkpoints,
        forall|id: PlaylistId|
            id != state.playlists[at].id ==> #[trigger] state.without_playlist(at).playlist(id)
                == state.playlist(id),
        state.playing != state.playlists[at].id ==> state.without_playlist(at).playing
            == state.playing && state.without_playlist(at).current_media == state.current_media,
{
    let after = state.without_playlist(at);
    let from = |i: int|
        if i < at {
            i
        } else {
            i + 1
        };
    assert forall|i: int| 0 <= i < after.playlists.len() implies #[trigger] after.playlists[i]
        == state.playlists[from(i)] by {}
    assert(after.distinct_playlists()) by {
        assert forall|i: int, j: int|
            0 <= i < j < after.playlists.len() implies #[trigger] after.playlists[i].id
            != #[trigger] after.playlists[j].id by {
            assert(after.playlists[i] == state.playlists[from(i)]);
            assert(after.playlists[j] == state.playlists[from(j)]);
        }
    }
    found_playlist(after, state.playlists[at].id);
    if let Some(i) = after.index_of(state.playlists[at].id) {
        assert(after.playlists[i] == state.playlists[from(i)]);
    }
    assert forall|id: PlaylistId| id != state.playlists[at].id implies #[trigger] after.playlist(id)
        == state.playlist(id) by {
        found_playlist(state, id);
        found_playlist(after, id);
        match state.index_of(id) {
            Some(i) => {
                let to = if i < at {
                    i
                } else {
                    i - 1
                };
                assert(after.playlists[to] == state.playlists[i]);
                playlist_is_found(after, to);
            },
            None => {
                if let Some(j) = after.index_of(id) {
                    assert(after.playlists[j] == state.playlists[from(j)]);
                }
            },
        }
    }
    found_playlist(state, state.playing);
    if state.playing == state.playlists[at].id {
        let next = if at < after.playlists.len() {
            at
        } else {
            after.playlists.len() - 1
        };
        playlist_is_found(after, next);
    } else {
        assert(after.playlist(state.playing) == state.playlist(state.playing));
    }
    entries_in_remove(state.playlists, at, state.playlists.len() as int);
    assert forall|i: int, j: int, id: QueueEntryId|
        0 <= i < j < after.playlists.len() && #[trigger] after.playlists[i].queue.holds(
            id,
        ) implies !#[trigger] after.playlists[j].queue.holds(id) by {
        assert(after.playlists[i] == state.playlists[from(i)]);
        assert(after.playlists[j] == state.playlists[from(j)]);
        assert(state.playlists[from(i)].queue.holds(id));
    }
    assert forall|i: int, k: int|
        #![trigger after.playlists[i].queue.entries[k]]
        0 <= i < after.playlists.len() && 0 <= k < after.playlists[i].queue.entries.len() implies after.entry_ids.past(
    after.playlists[i].queue.entries[k].id.raw) by {
        assert(after.playlists[i] == state.playlists[from(i)]);
        assert(state.entry_ids.past(state.playlists[from(i)].queue.entries[k].id.raw));
    }
}

/// What is remembered of `media` is what was recorded, and of every other
/// media what it was or, where there were too many, nothing. The current
/// media is never forgotten.
pub proof fn recording_remembers(state: StateView, media: MediaKey, checkpoint: PersistedCheckpoint)
    requires
        state.distinct_media(),
    ensures
        state.remembered(media, checkpoint).entry_for(media) == Some(checkpoint),
        state.remembered(media, checkpoint).distinct_media(),
        state.remembered(media, checkpoint).next_seq == state.next_after(),
        state.checkpoints.len() <= MAX_ENTRIES ==> state.remembered(
            media,
            checkpoint,
        ).checkpoints.len() <= MAX_ENTRIES,
        forall|other: MediaKey|
            #![trigger state.remembered(media, checkpoint).entry_for(other)]
            other != media ==> state.remembered(media, checkpoint).entry_for(other)
                == state.entry_for(other) || (state.remembered(media, checkpoint).entry_for(
                other,
            ) is None && state.checkpoints.len() >= MAX_ENTRIES && state.current_media != Some(
                other,
            )),
{
    let after = state.remembered(media, checkpoint);
    let slot = SlotView { media, checkpoint };
    let len = state.checkpoints.len() as int;
    found_slot(state, media);
    if state.slot_of(media) is None && len >= MAX_ENTRIES {
        victim_exists(state, media);
        let victim = state.victim(media).unwrap();
        assert forall|i: int| 0 <= i < after.checkpoints.len() implies #[trigger] after.checkpoints[i]
            == (if i < victim {
            state.checkpoints[i]
        } else if i < len - 1 {
            state.checkpoints[i + 1]
        } else {
            slot
        }) by {}
    }
    assert(after.distinct_media());
    let placed = match state.slot_of(media) {
        Some(at) => at,
        None => after.checkpoints.len() - 1,
    };
    assert(after.checkpoints[placed] == slot);
    slot_is_found(after, placed);
    assert forall|other: MediaKey| other != media implies #[trigger] after.entry_for(other)
        == state.entry_for(other) || (after.entry_for(other) is None && len >= MAX_ENTRIES
        && state.current_media != Some(other)) by {
        found_slot(state, other);
        found_slot(after, other);
        match state.slot_of(other) {
            Some(i) => {
                if state.slot_of(media) is None && len >= MAX_ENTRIES {
                    let victim = state.victim(media).unwrap();
                    if i == victim {
                        if let Some(j) = after.slot_of(other) {
                            assert(after.checkpoints[j].media == other);
                        }
                    } else {
                        let to = if i < victim {
                            i
                        } else {
                            i - 1
                        };
                        assert(after.checkpoints[to] == state.checkpoints[i]);
                        slot_is_found(after, to);
                    }
                } else {
                    assert(after.checkpoints[i] == state.checkpoints[i]);
                    slot_is_found(after, i);
                }
            },
            None => {
                if let Some(j) = after.slot_of(other) {
                    assert(after.checkpoints[j].media == other);
                    if state.slot_of(media) is None && len >= MAX_ENTRIES {
                        let victim = state.victim(media).unwrap();
                        let from = if j < victim {
                            j
                        } else {
                            j + 1
                        };
                        assert(state.checkpoints[from].media == other);
                    } else {
                        assert(state.checkpoints[j].media == other);
                    }
                }
            },
        }
    }
}

proof fn slot_is_found(state: StateView, at: int)
    requires
        state.distinct_media(),
        0 <= at < state.checkpoints.len(),
    ensures
        state.slot_of(state.checkpoints[at].media) == Some(at),
{
    let media = state.checkpoints[at].media;
    let wanted = crate::persistence::model::slot_is(media);
    crate::model::position_is_first(state.checkpoints, wanted, 0);
    assert(wanted(state.checkpoints[at]));
}

pub proof fn found_slot(state: StateView, media: MediaKey)
    ensures
        match state.slot_of(media) {
            Some(at) => 0 <= at < state.checkpoints.len() && state.checkpoints[at].media == media,
            None => forall|i: int|
                0 <= i < state.checkpoints.len() ==> (#[trigger] state.checkpoints[i]).media
                    != media,
        },
{
    let wanted = crate::persistence::model::slot_is(media);
    crate::model::position_is_first(state.checkpoints, wanted, 0);
    if state.slot_of(media) is None {
        assert forall|i: int|
            0 <= i < state.checkpoints.len() implies (#[trigger] state.checkpoints[i]).media
            != media by {
            assert(!wanted(state.checkpoints[i]));
        }
    }
}

proof fn least_among(state: StateView, incoming: MediaKey, count: int, at: int) -> (least: int)
    requires
        0 <= at < count <= state.checkpoints.len(),
        state.evictable(incoming, at),
    ensures
        0 <= least < count,
        state.evictable(incoming, least),
        forall|other: int|
            #![trigger state.checkpoints[other]]
            other < count && state.evictable(incoming, other) ==> state.goes_first(least, other),
    decreases count,
{
    let last = count - 1;
    if exists|i: int| 0 <= i < last && state.evictable(incoming, i) {
        let some = choose|i: int| 0 <= i < last && state.evictable(incoming, i);
        let least = least_among(state, incoming, last, some);
        crate::persistence::model::slots_go_in_order(state, last, least);
        if state.evictable(incoming, last) && state.goes_first(last, least) {
            last
        } else {
            least
        }
    } else {
        at
    }
}

/// With the slots full and `media` not among them, one can be given up.
proof fn victim_exists(state: StateView, media: MediaKey)
    requires
        state.distinct_media(),
        state.slot_of(media) is None,
        state.checkpoints.len() >= MAX_ENTRIES,
    ensures
        state.victim(media) matches Some(victim) && state.is_victim(media, victim),
{
    found_slot(state, media);
    let one = if state.current_media == Some(state.checkpoints[0].media) {
        1int
    } else {
        0int
    };
    assert(state.checkpoints[0].media != state.checkpoints[1].media);
    assert(state.evictable(media, one));
    let least = least_among(state, media, state.checkpoints.len() as int, one);
    assert(state.is_victim(media, least));
}

/// After a recording, the slots are the new one and some of those before.
pub proof fn remembered_slots(state: StateView, media: MediaKey, checkpoint: PersistedCheckpoint)
    requires
        state.distinct_media(),
    ensures
        exists|at: int|
            0 <= at < state.remembered(media, checkpoint).checkpoints.len()
                && #[trigger] state.remembered(media, checkpoint).checkpoints[at] == (SlotView {
                media,
                checkpoint,
            }),
        forall|i: int|
            0 <= i < state.remembered(media, checkpoint).checkpoints.len() && (
            #[trigger] state.remembered(media, checkpoint).checkpoints[i]) != (SlotView {
                media,
                checkpoint,
            }) ==> exists|from: int|
                0 <= from < state.checkpoints.len() && #[trigger] state.checkpoints[from]
                    == state.remembered(media, checkpoint).checkpoints[i],
{
    let after = state.remembered(media, checkpoint);
    let slot = SlotView { media, checkpoint };
    found_slot(state, media);
    match state.slot_of(media) {
        Some(at) => {
            assert(after.checkpoints[at] == slot);
            assert forall|i: int|
                0 <= i < after.checkpoints.len() && (#[trigger] after.checkpoints[i])
                    != slot implies exists|from: int|
                0 <= from < state.checkpoints.len() && #[trigger] state.checkpoints[from]
                    == after.checkpoints[i] by {
                assert(state.checkpoints[i] == after.checkpoints[i]);
            }
        },
        None => {
            if state.checkpoints.len() >= MAX_ENTRIES {
                victim_exists(state, media);
                let victim = state.victim(media).unwrap();
                assert forall|i: int|
                    0 <= i < after.checkpoints.len() && (#[trigger] after.checkpoints[i])
                        != slot implies exists|from: int|
                    0 <= from < state.checkpoints.len() && #[trigger] state.checkpoints[from]
                        == after.checkpoints[i] by {
                    let from = if i < victim {
                        i
                    } else {
                        i + 1
                    };
                    assert(state.checkpoints[from] == after.checkpoints[i]);
                }
            } else {
                assert forall|i: int|
                    0 <= i < after.checkpoints.len() && (#[trigger] after.checkpoints[i])
                        != slot implies exists|from: int|
                    0 <= from < state.checkpoints.len() && #[trigger] state.checkpoints[from]
                        == after.checkpoints[i] by {
                    assert(state.checkpoints[i] == after.checkpoints[i]);
                }
            }
            assert(after.checkpoints[after.checkpoints.len() - 1] == slot);
        },
    }
}

/// The invariant survives a recording.
pub proof fn recording_keeps_wf(state: StateView, media: MediaKey, checkpoint: PersistedCheckpoint)
    requires
        state.wf(),
    ensures
        state.remembered(media, checkpoint).wf(),
        state.remembered(media, checkpoint).playlists == state.playlists,
        state.remembered(media, checkpoint).current_media == state.current_media,
{
    recording_remembers(state, media, checkpoint);
    let after = state.remembered(media, checkpoint);
    assert(after.index_of(after.playing) == state.index_of(state.playing));
    assert(after.total() == state.total());
}

/// An estimated position never becomes the established one: what was
/// established of a media before stays, and nothing is where nothing was.
pub proof fn estimates_establish_nothing(
    state: StateView,
    media: MediaKey,
    estimated: Duration,
    updated_at: WallTime,
    completed: bool,
)
    requires
        state.distinct_media(),
    ensures
        state.recorded_estimated(media, estimated, updated_at, completed).entry_for(
            media,
        ) matches Some(entry) && entry.estimated == Some(estimated) && entry.completed == completed
            && entry.position == match state.entry_for(media) {
            Some(before) => before.position,
            None => None,
        },
{
    recording_remembers(
        state,
        media,
        PersistedCheckpoint {
            position: match state.entry_for(media) {
                Some(entry) => entry.position,
                None => None,
            },
            completed,
            touch_seq: state.next_seq,
            updated_at,
            estimated: Some(estimated),
        },
    );
}

/// Where there is no room for another media, the one that was touched longest ago gives way,
/// neither the current one nor the one that is recorded; every other stays as it was.
pub proof fn oldest_gives_way(state: StateView, media: MediaKey, checkpoint: PersistedCheckpoint) -> (gone: int)
    requires
        state.distinct_media(),
        state.checkpoints.len() >= MAX_ENTRIES,
        forall|i: int|
            0 <= i < state.checkpoints.len() ==> (#[trigger] state.checkpoints[i]).media != media,
    ensures
        ({
            let after = state.remembered(media, checkpoint);
            &&& 0 <= gone < state.checkpoints.len()
            &&& state.current_media != Some(state.checkpoints[gone].media)
            &&& forall|i: int|
                0 <= i < state.checkpoints.len() && state.current_media != Some(
                    (#[trigger] state.checkpoints[i]).media,
                ) ==> state.checkpoints[gone].checkpoint.touch_seq
                    <= state.checkpoints[i].checkpoint.touch_seq
            &&& after.checkpoints == (state.checkpoints.take(gone) + state.checkpoints.skip(gone
                + 1)).push(SlotView { media, checkpoint })
            &&& after.playlists == state.playlists && after.current_media == state.current_media
        }),
{
    found_slot(state, media);
    if let Some(at) = state.slot_of(media) {
        assert(state.checkpoints[at].media == media);
    }
    victim_exists(state, media);
    let gone = state.victim(media).unwrap();
    assert forall|i: int|
        0 <= i < state.checkpoints.len() && state.current_media != Some(
            (#[trigger] state.checkpoints[i]).media,
        ) implies state.checkpoints[gone].checkpoint.touch_seq
        <= state.checkpoints[i].checkpoint.touch_seq by {
        assert(state.evictable(media, i));
        assert(state.goes_first(gone, i));
    }
    assert(state.remembered(media, checkpoint).checkpoints =~= (state.checkpoints.take(gone)
        + state.checkpoints.skip(gone + 1)).push(SlotView { media, checkpoint }));
    gone
}

/// With room, or for a media that is remembered already, nothing is forgotten: its slot is
/// replaced where it stands, or a new one stands behind the others.
pub proof fn nothing_is_forgotten_with_room(
    state: StateView,
    media: MediaKey,
    checkpoint: PersistedCheckpoint,
    at: int,
)
    requires
        state.distinct_media(),
    ensures
        0 <= at < state.checkpoints.len() && state.checkpoints[at].media == media
            ==> state.remembered(media, checkpoint).checkpoints == state.checkpoints.update(
            at,
            SlotView { media, checkpoint },
        ),
        state.checkpoints.len() < MAX_ENTRIES && (forall|i: int|
            0 <= i < state.checkpoints.len() ==> (#[trigger] state.checkpoints[i]).media != media)
            ==> state.remembered(media, checkpoint).checkpoints == state.checkpoints.push(
            SlotView { media, checkpoint },
        ),
{
    found_slot(state, media);
    if 0 <= at < state.checkpoints.len() && state.checkpoints[at].media == media {
        slot_is_found(state, at);
    }
}

/// What is recorded counts as touched later than anything recorded before it.
pub proof fn recorded_is_the_latest(
    state: StateView,
    media: MediaKey,
    position: Duration,
    now: WallTime,
    completed: bool,
    i: int,
)
    requires
        state.sequenced(),
        state.next_seq < u64::MAX,
        0 <= i < state.checkpoints.len(),
    ensures
        state.checkpoints[i].checkpoint.touch_seq < state.next_seq,
        state.distinct_media() ==> (state.recorded(media, position, now, completed).entry_for(
            media,
        ) matches Some(entry) && entry.touch_seq == state.next_seq && entry.position == Some(
            position,
        ) && entry.completed == completed && entry.updated_at == now),
        state.distinct_media() ==> (state.recorded_estimated(
            media,
            position,
            now,
            completed,
        ).entry_for(media) matches Some(entry) && entry.touch_seq == state.next_seq
            && entry.updated_at == now),
{
    sequence_is_past(state.checkpoints, state.checkpoints.len() as int, i);
    if state.distinct_media() {
        recording_remembers(
            state,
            media,
            PersistedCheckpoint {
                position: Some(position),
                completed,
                touch_seq: state.next_seq,
                updated_at: now,
                estimated: None,
            },
        );
        recording_remembers(
            state,
            media,
            PersistedCheckpoint {
                position: match state.entry_for(media) {
                    Some(entry) => entry.position,
                    None => None,
                },
                completed,
                touch_seq: state.next_seq,
                updated_at: now,
                estimated: Some(position),
            },
        );
    }
}

proof fn sequence_is_past(slots: Seq<SlotView>, count: int, i: int)
    requires
        0 <= i < count <= slots.len(),
        crate::persistence::file::next_sequence(slots, count) < u64::MAX,
    ensures
        slots[i].checkpoint.touch_seq < crate::persistence::file::next_sequence(slots, count),
    decreases count,
{
    if i < count - 1 {
        sequence_is_past(slots, count - 1, i);
    }
}

} // verus!
