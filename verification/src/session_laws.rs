//! What a session keeps, and what it promises.

use crate::clock::{ClockSample, Duration, WallTime};
use crate::media::{MediaCapabilities, MediaKey};
use crate::persistence::model::{PersistedCheckpoint, StateView};
use crate::playback::{LoadRequestId, PlaybackEvent, Progress, StartDisposition};
use crate::playlist::{PlaylistId, PlaylistView};
use crate::queue::{Direction, DisplayView, NewEntryView, QueueEntryId, QueueView,
    MAX_PLAYLIST_ENTRIES};
use crate::session::{LoadTarget, SessionView};
use vstd::prelude::*;

verus! {

// ------------------------------------------------------ the state it keeps

proof fn remembering_keeps_whole(state: StateView, media: MediaKey, checkpoint: PersistedCheckpoint)
    requires
        state.wf(),
        state.sequenced(),
        checkpoint.touch_seq == state.next_seq,
    ensures
        state.remembered(media, checkpoint).wf(),
        state.remembered(media, checkpoint).sequenced(),
        state.remembered(media, checkpoint).playlists == state.playlists,
        state.remembered(media, checkpoint).playing == state.playing,
        state.remembered(media, checkpoint).current_media == state.current_media,
        state.cursor_is_current() ==> state.remembered(media, checkpoint).cursor_is_current(),
{
    crate::persistence::laws::recording_keeps_wf(state, media, checkpoint);
    crate::persistence::round_trip::recording_keeps_sequenced(state, media, checkpoint);
    let after = state.remembered(media, checkpoint);
    assert(after.index_of(after.playing) == state.index_of(state.playing));
}

/// Recording a position, of either kind, keeps a state whole and leaves its
/// playlists alone.
pub proof fn recording_keeps_whole(
    state: StateView,
    media: MediaKey,
    position: Duration,
    at: WallTime,
    completed: bool,
)
    requires
        state.wf(),
        state.sequenced(),
    ensures
        ({
            let a = state.recorded(media, position, at, completed);
            let b = state.recorded_estimated(media, position, at, completed);
            &&& a.wf() && a.sequenced() && a.playlists == state.playlists && a.playing
                == state.playing && a.current_media == state.current_media
            &&& b.wf() && b.sequenced() && b.playlists == state.playlists && b.playing
                == state.playing && b.current_media == state.current_media
            &&& state.cursor_is_current() ==> a.cursor_is_current() && b.cursor_is_current()
        }),
{
    remembering_keeps_whole(
        state,
        media,
        PersistedCheckpoint {
            position: Some(position),
            completed,
            touch_seq: state.next_seq,
            updated_at: at,
            estimated: None,
        },
    );
    remembering_keeps_whole(
        state,
        media,
        PersistedCheckpoint {
            position: match state.entry_for(media) {
                Some(entry) => entry.position,
                None => None,
            },
            completed,
            touch_seq: state.next_seq,
            updated_at: at,
            estimated: Some(position),
        },
    );
}

/// Whether two sessions differ in what is remembered and sampled alone: the
/// same playlists, the same loads, the same load in charge.
pub open spec fn same_but_history(a: SessionView, b: SessionView) -> bool {
    &&& a.state.playlists == b.state.playlists
    &&& a.state.playing == b.state.playing
    &&& a.state.current_media == b.state.current_media
    &&& a.state.schema_version == b.state.schema_version
    &&& a.pending == b.pending
    &&& a.next_request == b.next_request
    &&& a.current_media == b.current_media
    &&& a.adopted == b.adopted
}

proof fn positioning_keeps_wf(session: SessionView, position: Duration, now: ClockSample)
    requires
        session.wf(),
    ensures
        session.established_at(position, now).wf(),
        session.estimated_at(position, now).wf(),
        session.positioned(position, now).wf(),
        session.captured(position, now).wf(),
        same_but_history(session.established_at(position, now), session),
        same_but_history(session.estimated_at(position, now), session),
        same_but_history(session.captured(position, now), session),
{
    if session.writable() {
        let media = session.current_media.unwrap();
        recording_keeps_whole(session.state, media, position, now.wall, session.completed);
        recording_keeps_whole(
            session.state,
            media,
            session.position_for(position),
            now.wall,
            session.completed,
        );
    }
}

pub proof fn capturing_keeps_wf(session: SessionView, progress: Progress, now: ClockSample)
    requires
        session.wf(),
    ensures
        session.current_captured(progress, now).wf(),
        same_but_history(session.current_captured(progress, now), session),
{
    if let Some(media) = session.current_media {
        let live = SessionView { position_provenance: progress.provenance, ..session };
        positioning_keeps_wf(live, progress.position, now);
        if let Some(sample) = session.last_sample {
            let last = SessionView { position_provenance: sample.provenance, ..session };
            positioning_keeps_wf(last, sample.position, now);
        }
    }
}

proof fn parting_keeps_wf(session: SessionView, now: ClockSample)
    requires
        session.wf(),
    ensures
        session.parted(now).wf(),
        same_but_history(session.parted(now), session),
{
    if let Some(sample) = session.last_sample {
        recording_keeps_whole(
            session.state,
            sample.media,
            session.position_for(sample.position),
            now.wall,
            false,
        );
    }
}

/// Moving the cursor keeps a state well formed.
proof fn activating_keeps_wf(state: StateView, active: Option<QueueEntryId>)
    requires
        state.wf(),
    ensures
        state.activated(active).wf(),
        state.activated(active).playing_index() == state.playing_index(),
        state.activated(active).playlists.len() == state.playlists.len(),
        state.sequenced() ==> state.activated(active).sequenced(),
{
    crate::persistence::laws::found_playlist(state, state.playing);
    let at = state.playing_index();
    let queue = state.queue();
    let after = state.activated(active);
    if !(active matches Some(id) && !queue.holds(id)) {
        let moved = queue.with_active(active);
        assert forall|id: QueueEntryId| #[trigger] moved.holds(id) implies queue.holds(id) by {
            crate::queue::same_ids_same_places(moved, queue, id);
        }
        if let Some(id) = active {
            crate::queue::same_ids_same_places(moved, queue, id);
        }
        assert(state.playlists[at].wf());
        crate::persistence::laws::changing_a_queue_keeps_wf(state, at, moved);
        assert(after.playlists[at].id == state.playlists[at].id);
        crate::persistence::laws::playlist_is_found(after, at);
    }
}

proof fn absorbing_keeps_wf(state: StateView, id: QueueEntryId, update: DisplayView)
    requires
        state.wf(),
    ensures
        state.absorbed(id, update).wf(),
        state.absorbed(id, update).queue().active == state.queue().active,
        state.absorbed(id, update).queue().active_media() == state.queue().active_media(),
        state.absorbed(id, update).current_media == state.current_media,
        state.sequenced() ==> state.absorbed(id, update).sequenced(),
{
    crate::persistence::laws::found_owner(state, id);
    crate::persistence::laws::found_playlist(state, state.playing);
    if let Some(at) = state.owner_index(id) {
        let queue = state.playlists[at].queue;
        assert(state.playlists[at].wf());
        crate::queue::showing_keeps_identities(
            queue,
            id,
            MediaKey::LocalFile(Seq::empty()),
            update,
            Seq::empty(),
        );
        changing_shown_keeps_wf(state, at, queue.absorbed(id, update));
    }
}

/// A queue with the same identities in the same order, and the same cursor on
/// the same media, may replace another.
proof fn changing_shown_keeps_wf(state: StateView, at: int, queue: QueueView)
    requires
        state.wf(),
        0 <= at < state.playlists.len(),
        queue.wf(),
        queue.ids() == state.playlists[at].queue.ids(),
        queue.active == state.playlists[at].queue.active,
        queue.active_media() == state.playlists[at].queue.active_media(),
    ensures
        state.with_queue(at, queue).wf(),
        state.with_queue(at, queue).playing_index() == state.playing_index(),
        state.with_queue(at, queue).queue().active == state.queue().active,
        state.with_queue(at, queue).queue().active_media() == state.queue().active_media(),
{
    let before = state.playlists[at].queue;
    let after = state.with_queue(at, queue);
    assert(queue.ids().len() == before.ids().len());
    assert forall|i: int| 0 <= i < queue.entries.len() implies (#[trigger] queue.entries[i]).id == (
    #[trigger] before.entries[i]).id by {
        assert(queue.ids()[i] == before.ids()[i]);
    }
    assert forall|id: QueueEntryId| #[trigger] queue.holds(id) implies before.holds(id) by {
        crate::queue::same_ids_same_places(queue, before, id);
    }
    crate::persistence::laws::changing_a_queue_keeps_wf(state, at, queue);
    crate::persistence::laws::found_playlist(state, state.playing);
    let playing = state.playing_index();
    assert(after.playlists[playing].id == state.playlists[playing].id);
    crate::persistence::laws::playlist_is_found(after, playing);
}

proof fn loading_keeps_wf(
    session: SessionView,
    media: MediaKey,
    position: Duration,
    disposition: StartDisposition,
    capabilities: MediaCapabilities,
    now: ClockSample,
)
    requires
        session.wf(),
    ensures
        ({
            let after = session.loaded(media, position, disposition, capabilities, now);
            &&& after.state.wf()
            &&& after.state.sequenced()
            &&& after.state.playlists == session.state.playlists
            &&& after.state.playing == session.state.playing
            &&& after.state.current_media == Some(media)
            &&& after.pending == session.pending
            &&& after.next_request == session.next_request
        }),
{
    parting_keeps_wf(session, now);
    let left = if session.current_media != Some(media) {
        session.parted(now)
    } else {
        session
    };
    let after = session.loaded(media, position, disposition, capabilities, now);
    assert(after.state.index_of(after.state.playing) == left.state.index_of(left.state.playing));
    assert(after.state.total() == left.state.total());
}

/// A load that takes over keeps the session whole: where it is for an entry,
/// the cursor is on that entry and its media is the current one.
pub proof fn adopting_keeps_wf(
    session: SessionView,
    request: LoadRequestId,
    target: LoadTarget,
    media: MediaKey,
    position: Duration,
    disposition: StartDisposition,
    update: DisplayView,
    capabilities: MediaCapabilities,
    now: ClockSample,
)
    requires
        session.wf(),
        target matches LoadTarget::Queue(id) ==> session.state.find_entry(id) matches Some(entry)
            && entry.media == media,
    ensures
        session.adopting(
            request,
            target,
            media,
            position,
            disposition,
            update,
            capabilities,
            now,
        ).0.wf(),
        target matches LoadTarget::Queue(id) ==> session.adopting(
            request,
            target,
            media,
            position,
            disposition,
            update,
            capabilities,
            now,
        ).0.state.queue().active == Some(id),
{
    let loaded = session.loaded(media, position, disposition, capabilities, now);
    loading_keeps_wf(session, media, position, disposition, capabilities, now);
    let after = session.adopting(
        request,
        target,
        media,
        position,
        disposition,
        update,
        capabilities,
        now,
    ).0;
    match target {
        LoadTarget::Queue(id) => {
            crate::persistence::laws::found_owner(session.state, id);
            let at = session.state.owner_index(id).unwrap();
            crate::persistence::laws::owner_is_unique(loaded.state, at, id);
            let owner = loaded.state.playlists[at].id;
            crate::persistence::laws::playlist_is_found(loaded.state, at);
            let playing = loaded.state.with_playing(owner);
            assert(playing.index_of(owner) == loaded.state.index_of(owner));
            assert(playing.total() == loaded.state.total());
            assert(playing.wf());
            let queue = playing.queue();
            assert(queue == loaded.state.playlists[at].queue);
            activating_keeps_wf(playing, Some(id));
            let active = playing.activated(Some(id));
            assert(active.queue() == queue.with_active(Some(id)));
            crate::queue::same_ids_same_places(active.queue(), queue, id);
            assert(queue.get(id) == session.state.find_entry(id));
            assert(active.queue().active_media() == Some(media));
            absorbing_keeps_wf(active, id, update);
            assert(active.current_media == Some(media));
        },
        LoadTarget::Legacy => {
            crate::persistence::laws::found_playlist(loaded.state, loaded.state.playing);
            activating_keeps_wf(loaded.state, None);
            let idle = loaded.state.activated(None);
            assert(idle.queue().active is None);
        },
    }
}

pub proof fn retiring_keeps_wf(session: SessionView, request: LoadRequestId)
    requires
        session.wf(),
    ensures
        session.retired(request).wf(),
{
    if let Some(at) = session.pending_at(request) {
        crate::model::position_is_first(
            session.pending,
            crate::session::pending_is(request),
            0,
        );
        let after = session.retired(request);
        let from = |i: int|
            if i < at {
                i
            } else {
                i + 1
            };
        assert forall|i: int| 0 <= i < after.pending.len() implies #[trigger] after.pending[i]
            == session.pending[from(i)] by {}
        assert forall|i: int, j: int|
            0 <= i < j < after.pending.len() implies #[trigger] after.pending[i].request.raw
            < #[trigger] after.pending[j].request.raw by {
            assert(after.pending[i] == session.pending[from(i)]);
            assert(after.pending[j] == session.pending[from(j)]);
        }
    }
}

/// Every event keeps the session whole.
pub proof fn observing_keeps_wf(session: SessionView, event: PlaybackEvent, now: ClockSample)
    requires
        session.wf(),
    ensures
        session.observed(event, now).0.wf(),
{
    match event.outcome_of() {
        Some(request) => {
            retiring_keeps_wf(session, request);
            if let Some(at) = session.pending_at(request) {
                if let PlaybackEvent::Loaded {
                    media,
                    metadata,
                    capabilities,
                    position,
                    disposition,
                    ..
                } = event {
                    if event.rev() >= session.latest_engine_rev && session.accepts(event) {
                        let heard = SessionView {
                            latest_engine_rev: event.rev(),
                            last_loaded: Some(request),
                            session_rev: event.rev(),
                            ..session.retired(request)
                        };
                        adopting_keeps_wf(
                            heard,
                            request,
                            session.pending[at].target,
                            media@,
                            position,
                            disposition,
                            metadata.as_update(),
                            capabilities,
                            now,
                        );
                    }
                }
            }
        },
        None => {
            if !session.announces(event) {
                if let PlaybackEvent::VolumeChanged { volume, .. } = event {
                    let after = session.observed(event, now).0;
                    assert(after.state.index_of(after.state.playing) == session.state.index_of(
                        session.state.playing,
                    ));
                    assert(after.state.total() == session.state.total());
                } else if session.owns(event.rev()) {
                    handling_keeps_wf(session.at_rev(event.rev()), event, now);
                }
            }
        },
    }
}

proof fn handling_keeps_wf(session: SessionView, event: PlaybackEvent, now: ClockSample)
    requires
        session.wf(),
    ensures
        session.handled(event, now).0.wf(),
{
    match event {
        PlaybackEvent::SeekTargetStored { target, .. } => {
            let after = SessionView {
                outstanding_target: Some(target),
                ..session.reestablished()
            };
            positioning_keeps_wf(after, target, now);
        },
        PlaybackEvent::EndOfTrack { position, provenance, .. } => {
            if let Some(adopted) = session.adopted {
                let done = SessionView {
                    completion_seen: Some((adopted.request, session.session_rev)),
                    outstanding_target: None,
                    established: true,
                    completed: true,
                    position_provenance: provenance,
                    ..session
                };
                positioning_keeps_wf(done, position, now);
                positioning_keeps_wf(SessionView { protected: None, ..done }, position, now);
            }
        },
        _ => {},
    }
}

/// Every snapshot keeps the session whole.
pub proof fn ticking_keeps_wf(session: SessionView, progress: Progress, now: ClockSample)
    requires
        session.wf(),
    ensures
        session.ticked(progress, now).0.wf(),
{
    if session.accepts_sample(progress) && session.current_media is Some {
        let sampled = SessionView {
            last_sample: Some(
                crate::session::SampleView {
                    session_rev: progress.session_rev,
                    media: session.current_media.unwrap(),
                    position: progress.position,
                    provenance: progress.provenance,
                },
            ),
            position_provenance: progress.provenance,
            ..session
        };
        positioning_keeps_wf(sampled, progress.position, now);
        positioning_keeps_wf(
            SessionView { pending_force: None, ..sampled },
            progress.position,
            now,
        );
    }
}

// --------------------------------------------------------------- queue

/// A queue that brings in no entry, and whose cursor is where it was or off,
/// may replace another.
proof fn changing_keeps_whole(state: StateView, at: int, queue: QueueView)
    requires
        state.whole(),
        0 <= at < state.playlists.len(),
        queue.wf(),
        queue.entries.len() <= state.playlists[at].queue.entries.len(),
        forall|id: QueueEntryId| #[trigger]
            queue.holds(id) ==> state.playlists[at].queue.holds(id),
        queue.active_media() is Some ==> queue.active_media()
            == state.playlists[at].queue.active_media(),
    ensures
        state.with_queue(at, queue).whole(),
{
    crate::persistence::laws::changing_a_queue_keeps_wf(state, at, queue);
    crate::persistence::laws::found_playlist(state, state.playing);
    let after = state.with_queue(at, queue);
    let playing = state.playing_index();
    assert(after.playlists[playing].id == state.playlists[playing].id);
    crate::persistence::laws::playlist_is_found(after, playing);
}

/// Queueing keeps a state whole, and a shuffle that begins again too.
pub proof fn enqueuing_keeps_whole(state: StateView, at: int, batch: Seq<NewEntryView>)
    requires
        state.whole(),
        0 <= at < state.playlists.len(),
        state.total() + batch.len() <= MAX_PLAYLIST_ENTRIES,
        state.entry_ids.has(batch.len()),
    ensures
        state.enqueued(at, batch).whole(),
        state.enqueued(at, batch).reshuffled(at).whole(),
{
    let after = state.enqueued(at, batch);
    crate::persistence::laws::enqueuing_keeps_wf(state, at, batch);
    crate::persistence::laws::found_playlist(state, state.playing);
    let playing = state.playing_index();
    assert(after.playlists[playing].id == state.playlists[playing].id);
    crate::persistence::laws::playlist_is_found(after, playing);
    let queue = state.playlists[playing].queue;
    if let Some(id) = queue.active {
        assert(state.playlists[playing].wf());
        crate::persistence::laws::owner_is_unique(state, playing, id);
        assert(state.find_entry(id) is Some);
        assert(after.find_entry(id) == state.find_entry(id));
        crate::queue::found_is_queued(queue, id);
        let k = queue.find(id).unwrap();
        if playing == at {
            assert(after.playlists[at].queue.entries[k] == queue.entries[k]);
            assert(after.playlists[at].wf());
            crate::queue::entry_is_found(after.playlists[at].queue, k);
        }
    }
    assert(after.whole());
    reshuffling_keeps_whole(after, at);
}

proof fn reshuffling_keeps_whole(state: StateView, at: int)
    requires
        state.whole(),
        0 <= at < state.playlists.len(),
    ensures
        state.reshuffled(at).whole(),
{
    if let Some(shuffle) = state.playlists[at].shuffle {
        changing_order_keeps_whole(
            state,
            at,
            state.playlists[at].shuffled(Some(shuffle.seed)),
        );
    }
}

/// A playlist may take another name or another shuffle.
pub proof fn changing_order_keeps_whole(state: StateView, at: int, playlist: PlaylistView)
    requires
        state.whole(),
        0 <= at < state.playlists.len(),
        playlist.id == state.playlists[at].id,
        playlist.queue == state.playlists[at].queue,
        crate::playlist::is_clean(playlist.name),
    ensures
        state.with_playlist(at, playlist).whole(),
{
    assert(state.playlists[at].wf());
    crate::persistence::laws::changing_a_playlist_keeps_wf(state, at, playlist);
    crate::persistence::laws::found_playlist(state, state.playing);
    let after = state.with_playlist(at, playlist);
    let playing = state.playing_index();
    assert(after.playlists[playing].id == state.playlists[playing].id);
    crate::persistence::laws::playlist_is_found(after, playing);
}

pub proof fn creating_keeps_whole(state: StateView, name: Seq<char>)
    requires
        state.whole(),
        state.playlists.len() < crate::playlist::MAX_PLAYLISTS,
        state.playlist_ids.has(1),
        crate::playlist::is_clean(name),
    ensures
        state.created(name).whole(),
{
    crate::persistence::laws::creating_keeps_wf(state, name);
    crate::persistence::laws::found_playlist(state, state.playing);
    let after = state.created(name);
    let playing = state.playing_index();
    assert(after.playlists[playing] == state.playlists[playing]);
    crate::persistence::laws::playlist_is_found(after, playing);
}

pub proof fn moving_keeps_whole(state: StateView, id: QueueEntryId, direction: Direction)
    requires
        state.whole(),
    ensures
        state.owner_index(id) matches Some(at) ==> state.with_queue(
            at,
            state.playlists[at].queue.moved(id, direction),
        ).whole(),
{
    crate::persistence::laws::found_owner(state, id);
    if let Some(at) = state.owner_index(id) {
        let queue = state.playlists[at].queue;
        let moved = queue.moved(id, direction);
        assert(state.playlists[at].wf());
        crate::queue::found_is_queued(queue, id);
        if queue.can_move(id, direction) {
            crate::queue::moving_swaps_neighbours(queue, id, direction);
            assert forall|other: QueueEntryId| #[trigger] moved.holds(other) implies queue.holds(
                other,
            ) by {
                assert(moved.get(other) == queue.get(other));
            }
            if let Some(active) = queue.active {
                assert(moved.get(active) == queue.get(active));
            }
        }
        changing_keeps_whole(state, at, moved);
    }
}

proof fn removing_keeps_whole(state: StateView, id: QueueEntryId)
    requires
        state.whole(),
    ensures
        state.owner_index(id) matches Some(at) ==> state.with_queue(
            at,
            state.playlists[at].queue.removed(id),
        ).whole(),
{
    crate::persistence::laws::found_owner(state, id);
    if let Some(at) = state.owner_index(id) {
        let queue = state.playlists[at].queue;
        let left = queue.removed(id);
        assert(state.playlists[at].wf());
        crate::queue::found_is_queued(queue, id);
        crate::queue::removing_keeps_the_rest(queue, id);
        assert forall|other: QueueEntryId| #[trigger] left.holds(other) implies queue.holds(
            other,
        ) by {
            if other != id {
                assert(left.get(other) == queue.get(other));
            }
        }
        if let Some(active) = left.active {
            assert(left.get(active) == queue.get(active));
        }
        changing_keeps_whole(state, at, left);
    }
}

pub proof fn barring_keeps_wf(session: SessionView, ids: Seq<QueueEntryId>)
    requires
        session.wf(),
    ensures
        session.barred(ids).wf(),
        session.barred(ids).state == session.state,
        session.barred(ids).adopted == session.adopted,
{
    let after = session.barred(ids);
    assert forall|i: int| 0 <= i < after.pending.len() implies (
    #[trigger] after.pending[i]).request == session.pending[i].request by {}
    assert forall|i: int, j: int|
        0 <= i < j < after.pending.len() implies #[trigger] after.pending[i].request.raw
        < #[trigger] after.pending[j].request.raw by {
        assert(session.pending[i].request.raw < session.pending[j].request.raw);
    }
}

pub proof fn releasing_keeps_wf(session: SessionView, progress: Progress, now: ClockSample)
    requires
        session.wf(),
    ensures
        session.released(progress, now).wf(),
        session.released(progress, now).state.playlists == session.state.playlists,
        session.released(progress, now).state.playing == session.state.playing,
{
    capturing_keeps_wf(session, progress, now);
}

/// Removing an entry keeps the session whole.
pub proof fn removing_entry_keeps_wf(
    session: SessionView,
    id: QueueEntryId,
    progress: Progress,
    now: ClockSample,
)
    requires
        session.wf(),
    ensures
        session.without_entry(id, progress, now).wf(),
{
    let barred = session.barred(seq![id]);
    barring_keeps_wf(session, seq![id]);
    releasing_keeps_wf(barred, progress, now);
    let left = if session.owns_entry(id) {
        barred.released(progress, now)
    } else {
        barred
    };
    removing_keeps_whole(left.state, id);
}

pub proof fn vacating_keeps_wf(
    session: SessionView,
    id: PlaylistId,
    progress: Progress,
    now: ClockSample,
)
    requires
        session.wf(),
    ensures
        session.vacated(id, progress, now).wf(),
        session.vacated(id, progress, now).state.playlists == session.state.playlists,
        session.vacated(id, progress, now).state.playing == session.state.playing,
{
    let ids = match session.state.playlist(id) {
        Some(playlist) => playlist.queue.ids(),
        None => Seq::empty(),
    };
    barring_keeps_wf(session, ids);
    releasing_keeps_wf(session.barred(ids), progress, now);
}

/// Clearing a playlist keeps the session whole.
pub proof fn clearing_keeps_wf(
    session: SessionView,
    id: PlaylistId,
    progress: Progress,
    now: ClockSample,
)
    requires
        session.wf(),
    ensures
        session.cleared(id, progress, now).wf(),
{
    vacating_keeps_wf(session, id, progress, now);
    let left = session.vacated(id, progress, now);
    crate::persistence::laws::found_playlist(left.state, id);
    if let Some(at) = left.state.index_of(id) {
        let empty = QueueView::empty();
        assert forall|other: QueueEntryId| #[trigger]
            empty.holds(other) implies left.state.playlists[at].queue.holds(other) by {
            crate::queue::found_is_queued(empty, other);
        }
        changing_keeps_whole(left.state, at, empty);
    }
}

/// Deleting a playlist keeps the session whole.
pub proof fn deleting_keeps_wf(
    session: SessionView,
    id: PlaylistId,
    progress: Progress,
    now: ClockSample,
)
    requires
        session.wf(),
        session.state.playlists.len() > 1,
    ensures
        session.deleted(id, progress, now).wf(),
{
    vacating_keeps_wf(session, id, progress, now);
    let left = session.vacated(id, progress, now);
    crate::persistence::laws::found_playlist(left.state, id);
    if let Some(at) = left.state.index_of(id) {
        crate::persistence::laws::removing_keeps_wf(left.state, at);
        let after = left.state.without_playlist(at);
        if left.state.playing != left.state.playlists[at].id {
            crate::persistence::laws::found_playlist(left.state, left.state.playing);
            crate::persistence::laws::found_playlist(after, after.playing);
            assert(after.playlist(after.playing) == left.state.playlist(after.playing));
        } else {
            let bare = StateView {
                current_media: left.state.current_media,
                ..after
            };
            assert(bare.index_of(bare.playing) == after.index_of(after.playing));
        }
    }
}

/// Showing something else of a media keeps a state whole.
pub proof fn displaying_keeps_whole(state: StateView, media: MediaKey, update: DisplayView)
    requires
        state.whole(),
    ensures
        state.displayed(media, update).whole(),
{
    let after = state.displayed(media, update);
    displayed_prefix(state, media, update, state.playlists.len() as int);
    assert(displayed_to(state, media, update, state.playlists.len() as int) =~= after);
}

/// With the first `count` playlists updated.
spec fn displayed_to(state: StateView, media: MediaKey, update: DisplayView, count: int) -> StateView {
    StateView {
        playlists: Seq::new(
            state.playlists.len(),
            |i: int|
                if i < count {
                    state.playlists[i].with_queue(state.playlists[i].queue.displayed(media, update))
                } else {
                    state.playlists[i]
                },
        ),
        ..state
    }
}

proof fn displayed_prefix(state: StateView, media: MediaKey, update: DisplayView, count: int)
    requires
        state.whole(),
        0 <= count <= state.playlists.len(),
    ensures
        displayed_to(state, media, update, count).whole(),
    decreases count,
{
    if count > 0 {
        displayed_prefix(state, media, update, count - 1);
        let before = displayed_to(state, media, update, count - 1);
        let at = count - 1;
        let queue = before.playlists[at].queue;
        assert(before.playlists[at] == state.playlists[at]);
        assert(before.playlists[at].wf());
        crate::queue::showing_keeps_identities(
            queue,
            QueueEntryId { raw: 0 },
            media,
            update,
            Seq::empty(),
        );
        changing_shown_keeps_wf(before, at, queue.displayed(media, update));
        assert(displayed_to(state, media, update, count) =~= before.with_queue(
            at,
            queue.displayed(media, update),
        ));
    } else {
        assert(displayed_to(state, media, update, 0) =~= state);
    }
}

/// Another source for an episode keeps a state whole.
pub proof fn refetching_keeps_whole(state: StateView, id: QueueEntryId, url: Seq<char>)
    requires
        state.whole(),
    ensures
        state.owner_index(id) matches Some(at) ==> state.with_queue(
            at,
            state.playlists[at].queue.refetched(id, url),
        ).whole(),
{
    crate::persistence::laws::found_owner(state, id);
    if let Some(at) = state.owner_index(id) {
        let queue = state.playlists[at].queue;
        assert(state.playlists[at].wf());
        crate::queue::showing_keeps_identities(
            queue,
            id,
            MediaKey::LocalFile(Seq::empty()),
            DisplayView::blank(),
            url,
        );
        changing_shown_keeps_wf(state, at, queue.refetched(id, url));
    }
}

pub proof fn observing_all_keeps_wf(
    session: SessionView,
    events: Seq<PlaybackEvent>,
    count: int,
    now: ClockSample,
)
    requires
        session.wf(),
    ensures
        session.observed_all(events, count, now).wf(),
    decreases count,
{
    if count > 0 {
        observing_all_keeps_wf(session, events, count - 1, now);
        observing_keeps_wf(
            session.observed_all(events, count - 1, now),
            events[count - 1],
            now,
        );
    }
}

} // verus!
