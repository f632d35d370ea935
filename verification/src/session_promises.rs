//! What a session promises of every event, whatever its state: who may change
//! it, what is never overwritten, and what is recorded once.

use crate::clock::ClockSample;
use crate::media::{Continuity, MediaKey};
use crate::playback::{LoadRequestId, PlaybackEvent, PlaybackState, PositionProvenance, Progress,
    Urgency};
use crate::playlist::PlaylistId;
use crate::queue::{NewEntryView, QueueEntryId, MAX_PLAYLIST_ENTRIES};
use crate::session::{LoadTarget, SessionView};
use vstd::prelude::*;

verus! {

broadcast use crate::model::group_model;

/// An event that the session does not accept changes nothing and submits
/// nothing, unless it is the outcome or the announcement of a load that is
/// registered.
pub proof fn stranger_changes_nothing(session: SessionView, event: PlaybackEvent, now: ClockSample)
    requires
        !session.accepts(event),
        event.outcome_of() matches Some(request) ==> session.pending_at(request) is None,
        !session.announces(event),
    ensures
        session.observed(event, now) == (session, None::<Urgency>),
{
}

/// An event of a revision behind the newest one never moves what is played,
/// what is saved or who is in charge.
pub proof fn late_event_moves_nothing(session: SessionView, event: PlaybackEvent, now: ClockSample)
    requires
        event.rev() < session.latest_engine_rev,
        event !is VolumeChanged,
    ensures
        ({
            let (after, submitted) = session.observed(event, now);
            &&& submitted is None
            &&& after.state == session.state
            &&& after.adopted == session.adopted
            &&& after.current_media == session.current_media
            &&& after.session_rev == session.session_rev
            &&& after.latest_engine_rev == session.latest_engine_rev
            &&& after.last_loaded == session.last_loaded
        }),
{
}

/// Nothing takes charge of playback but a load that was registered, was not
/// barred, is for the media it was registered for, and is not behind.
pub proof fn only_a_registered_load_takes_over(
    session: SessionView,
    event: PlaybackEvent,
    now: ClockSample,
)
    ensures
        session.observed(event, now).0.adopted != session.adopted ==> {
            &&& event is Loaded
            &&& session.accepts(event)
            &&& session.observed(event, now).0.adopted matches Some(adopted)
            &&& event.outcome_of() == Some(adopted.request)
            &&& session.pending_at(adopted.request) matches Some(at)
            &&& session.pending[at].target == adopted.target
            &&& !session.pending[at].invalidated
        },
{
}

/// A load whose entry was removed while it was under way never takes over: when
/// it ends well, whatever plays because of it is to be stopped, and who is in
/// charge and what is saved stay as they are.
pub proof fn removed_entry_never_takes_over(
    session: SessionView,
    id: QueueEntryId,
    progress: Progress,
    now: ClockSample,
    event: PlaybackEvent,
    later: ClockSample,
)
    requires
        event is Loaded,
        event.outcome_of() matches Some(request) && (session.pending_at(request) matches Some(at)
            && session.pending[at].target == LoadTarget::Queue(id)),
    ensures
        ({
            let left = session.without_entry(id, progress, now);
            let (after, submitted) = left.observed(event, later);
            &&& submitted is None
            &&& after.adopted == left.adopted
            &&& after.state == left.state
            &&& event.rev() >= left.latest_engine_rev ==> after.stop_requested
        }),
{
    let request = event.outcome_of().unwrap();
    let left = session.without_entry(id, progress, now);
    barred_load_stays(session, seq![id], request);
    assert(seq![id].contains(id)) by {
        assert(seq![id][0] == id);
    }
    let barred = session.barred(seq![id]);
    assert(left.pending == barred.pending);
}

/// A load into a playlist that was emptied or deleted while it was under way
/// never takes over.
pub proof fn emptied_playlist_never_takes_over(
    session: SessionView,
    playlist: PlaylistId,
    id: QueueEntryId,
    progress: Progress,
    now: ClockSample,
    event: PlaybackEvent,
    later: ClockSample,
)
    requires
        session.state.playlist(playlist) matches Some(held) && held.queue.ids().contains(id),
        event is Loaded,
        event.outcome_of() matches Some(request) && (session.pending_at(request) matches Some(at)
            && session.pending[at].target == LoadTarget::Queue(id)),
    ensures
        ({
            let cleared = session.cleared(playlist, progress, now);
            let deleted = session.deleted(playlist, progress, now);
            &&& cleared.observed(event, later).0.adopted == cleared.adopted
            &&& cleared.observed(event, later).0.state == cleared.state
            &&& deleted.observed(event, later).0.adopted == deleted.adopted
            &&& deleted.observed(event, later).0.state == deleted.state
        }),
{
    let request = event.outcome_of().unwrap();
    let ids = session.state.playlist(playlist).unwrap().queue.ids();
    barred_load_stays(session, ids, request);
    assert(session.vacated(playlist, progress, now).pending == session.barred(ids).pending);
}

/// A barred load is still registered, in its place, and barred.
proof fn barred_load_stays(session: SessionView, ids: Seq<QueueEntryId>, request: LoadRequestId)
    requires
        session.pending_at(request) is Some,
    ensures
        session.barred(ids).pending_at(request) == session.pending_at(request),
        ({
            let at = session.pending_at(request).unwrap();
            let load = session.pending[at];
            &&& 0 <= at < session.pending.len()
            &&& (load.target matches LoadTarget::Queue(id) && ids.contains(id)) ==> session.barred(
                ids,
            ).pending[at].invalidated
        }),
{
    let after = session.barred(ids);
    crate::model::position_is_first(session.pending, crate::session::pending_is(request), 0);
    crate::model::position_is_first(after.pending, crate::session::pending_is(request), 0);
    assert forall|i: int| 0 <= i < after.pending.len() implies (
    #[trigger] after.pending[i]).request == session.pending[i].request by {}
    let at = session.pending_at(request).unwrap();
    assert(crate::session::pending_is(request)(session.pending[at]));
    assert(crate::session::pending_is(request)(after.pending[at]));
    let found = after.pending_at(request).unwrap();
    assert(crate::session::pending_is(request)(after.pending[found]));
    assert(crate::session::pending_is(request)(session.pending[found]));
}

/// A track that ended is recorded once: the same end again changes nothing and
/// submits nothing.
pub proof fn end_is_recorded_once(
    session: SessionView,
    event: PlaybackEvent,
    now: ClockSample,
    again: PlaybackEvent,
    later: ClockSample,
)
    requires
        event is EndOfTrack,
        again is EndOfTrack,
        again.rev() == event.rev(),
        session.owns(event.rev()),
    ensures
        ({
            let after = session.observed(event, now).0;
            after.observed(again, later) == (after, None::<Urgency>)
        }),
{
    let after = session.observed(event, now).0;
    assert(after.at_rev(again.rev()) =~= after);
}

/// A protected position is never overwritten: only an end that the engine
/// confirmed records anything while it stands, and only such an end, a
/// confirmed landing or another load lifts it.
pub proof fn protected_position_stands(
    session: SessionView,
    event: PlaybackEvent,
    progress: Progress,
    now: ClockSample,
)
    requires
        session.protected is Some,
        !(event matches PlaybackEvent::EndOfTrack { provenance, .. } && provenance
            == PositionProvenance::Established),
    ensures
        session.observed(event, now).0.state.checkpoints == session.state.checkpoints,
        session.ticked(progress, now).0.state == session.state,
        session.ticked(progress, now).0.protected == session.protected,
        session.current_captured(progress, now).state == session.state,
        session.observed(event, now).0.protected != session.protected ==> event is Loaded || (
        event matches PlaybackEvent::SeekCompleted { provenance, .. } && provenance
            == PositionProvenance::Established) || (
        event matches PlaybackEvent::RestartEstablished { provenance, .. } && provenance
            == PositionProvenance::Established),
{
    loads_keep_history(session, event, now);
}

/// A media of indefinite length is never recorded, whatever happens to it.
pub proof fn endless_media_is_never_recorded(
    session: SessionView,
    event: PlaybackEvent,
    progress: Progress,
    now: ClockSample,
)
    requires
        !session.checkpointable,
    ensures
        session.observed(event, now).0.state.checkpoints == session.state.checkpoints,
        session.ticked(progress, now).0.state == session.state,
        session.current_captured(progress, now).state == session.state,
{
    loads_keep_history(session, event, now);
}

/// Taking over records nothing but the position of the media on its way out.
proof fn loads_keep_history(session: SessionView, event: PlaybackEvent, now: ClockSample)
    ensures
        session.parted(now).state.checkpoints == session.state.checkpoints
            && event.outcome_of() is Some ==> session.observed(
            event,
            now,
        ).0.state.checkpoints == session.state.checkpoints,
{
}

/// Only a load makes a media checkpointable again: what is learnt of its
/// capabilities can only close it.
pub proof fn capabilities_never_reopen(session: SessionView, event: PlaybackEvent, now: ClockSample)
    ensures
        !session.checkpointable && session.observed(event, now).0.checkpointable ==> event is Loaded,
        (event matches PlaybackEvent::CapabilitiesChanged { capabilities, .. } && session.owns(
            event.rev(),
        )) ==> session.observed(event, now).0.checkpointable == (session.checkpointable
            && event->CapabilitiesChanged_capabilities.continuity != Continuity::Indefinite),
{
}

/// Until the engine has confirmed a position since the load, no position of
/// the media is taken or saved.
pub proof fn unconfirmed_position_is_never_saved(
    session: SessionView,
    progress: Progress,
    now: ClockSample,
)
    requires
        !session.established,
    ensures
        session.ticked(progress, now).0.state == session.state,
        session.ticked(progress, now).1 is None,
        session.current_captured(progress, now).state == session.state,
        session.parted(now).state == session.state,
{
}

/// A load that has just taken over has confirmed nothing.
pub proof fn load_confirms_nothing(session: SessionView, event: PlaybackEvent, now: ClockSample)
    requires
        event is Loaded,
        session.accepts(event),
    ensures
        !session.observed(event, now).0.established,
        session.observed(event, now).0.session_rev == event.rev(),
        session.observed(event, now).0.pending_force is None,
{
    let request = event.outcome_of().unwrap();
    assert(session.pending_at(request) is Some);
}

/// A position is taken only where one was asked for, or while playing and not
/// sooner than the interval after the last one.
pub proof fn positions_are_taken_at_intervals(
    session: SessionView,
    progress: Progress,
    now: ClockSample,
)
    ensures
        session.ticked(progress, now).1 is Some ==> {
            ||| session.pending_force == Some(session.session_rev)
            ||| session.playback == PlaybackState::Playing && session.due(now)
        },
        session.ticked(progress, now).1 is None ==> session.ticked(progress, now).0.state
            == session.state,
{
}

/// A sampled position that is only an estimate leaves the established one as
/// it was.
pub proof fn estimate_keeps_established(
    session: SessionView,
    progress: Progress,
    now: ClockSample,
)
    requires
        session.wf(),
        progress.provenance != PositionProvenance::Established,
        session.current_media matches Some(media) && session.state.entry_for(media) is Some,
    ensures
        ({
            let media = session.current_media.unwrap();
            let after = session.ticked(progress, now).0;
            &&& after.state.entry_for(media) matches Some(entry)
            &&& entry.position == session.state.entry_for(media).unwrap().position
        }),
{
    let media = session.current_media.unwrap();
    let position = session.position_for(progress.position);
    crate::persistence::laws::estimates_establish_nothing(
        session.state,
        media,
        position,
        now.wall,
        session.completed,
    );
}

/// The target of a seek that is reckoned from an estimate, and an end that is
/// one, leave the established position as it was.
pub proof fn estimated_event_keeps_established(
    session: SessionView,
    event: PlaybackEvent,
    now: ClockSample,
)
    requires
        session.wf(),
        session.current_media matches Some(media) && session.state.entry_for(media) is Some,
        (event is SeekTargetStored && session.position_provenance
            != PositionProvenance::Established) || (event matches PlaybackEvent::EndOfTrack {
            provenance,
            ..
        } && provenance != PositionProvenance::Established),
    ensures
        ({
            let media = session.current_media.unwrap();
            let after = session.observed(event, now).0;
            &&& after.state.entry_for(media) matches Some(entry)
            &&& entry.position == session.state.entry_for(media).unwrap().position
        }),
{
    let media = session.current_media.unwrap();
    let position = match event {
        PlaybackEvent::SeekTargetStored { target, .. } => target,
        PlaybackEvent::EndOfTrack { position, .. } => position,
        _ => arbitrary(),
    };
    crate::persistence::laws::estimates_establish_nothing(
        session.state,
        media,
        position,
        now.wall,
        event is EndOfTrack,
    );
}

/// Tokens are never handed out twice: a new one is above every one before, and
/// no event takes one back.
pub proof fn tokens_rise(
    session: SessionView,
    target: LoadTarget,
    media: MediaKey,
    event: PlaybackEvent,
    progress: Progress,
    now: ClockSample,
)
    requires
        session.wf(),
        session.next_request < u64::MAX,
    ensures
        session.registered(target, media).next_request > session.next_request,
        session.registered(target, media).pending.last().request.raw == session.registered(
            target,
            media,
        ).next_request,
        forall|i: int|
            0 <= i < session.pending.len() ==> (#[trigger] session.pending[i]).request.raw
                < session.registered(target, media).next_request,
        session.observed(event, now).0.next_request == session.next_request,
        session.ticked(progress, now).0.next_request == session.next_request,
{
}

/// The outcome of a load frees its place, whether it is heard or not.
pub proof fn outcome_frees_a_place(session: SessionView, event: PlaybackEvent, now: ClockSample)
    requires
        event.outcome_of() matches Some(request) && session.pending_at(request) is Some,
    ensures
        session.observed(event, now).0.pending.len() == session.pending.len() - 1,
{
    let request = event.outcome_of().unwrap();
    crate::model::position_is_first(session.pending, crate::session::pending_is(request), 0);
}

/// Removing an entry, emptying a playlist or deleting one leaves everything
/// that is remembered of any media, unless what plays is let go: then its own
/// position is saved first.
pub proof fn removal_keeps_history(
    session: SessionView,
    id: QueueEntryId,
    playlist: PlaylistId,
    progress: Progress,
    now: ClockSample,
)
    ensures
        session.without_entry(id, progress, now).state.checkpoints == if session.owns_entry(id) {
            session.current_captured(progress, now).state.checkpoints
        } else {
            session.state.checkpoints
        },
        session.cleared(playlist, progress, now).state.checkpoints == if session.owns_playlist(
            playlist,
        ) {
            session.current_captured(progress, now).state.checkpoints
        } else {
            session.state.checkpoints
        },
        session.deleted(playlist, progress, now).state.checkpoints == if session.owns_playlist(
            playlist,
        ) {
            session.current_captured(progress, now).state.checkpoints
        } else {
            session.state.checkpoints
        },
{
    let ids = match session.state.playlist(playlist) {
        Some(playlist) => playlist.queue.ids(),
        None => Seq::empty(),
    };
    barring_changes_no_capture(session, seq![id], progress, now);
    barring_changes_no_capture(session, ids, progress, now);
}

proof fn barring_changes_no_capture(
    session: SessionView,
    ids: Seq<QueueEntryId>,
    progress: Progress,
    now: ClockSample,
)
    ensures
        session.barred(ids).current_captured(progress, now).state == session.current_captured(
            progress,
            now,
        ).state,
{
}

/// An entry that was just queued is played after the one under the cursor,
/// shuffled or not.
pub proof fn new_entries_play_after_the_cursor(
    session: SessionView,
    at: int,
    batch: Seq<NewEntryView>,
    cursor: QueueEntryId,
    i: int,
)
    requires
        session.wf(),
        0 <= at < session.state.playlists.len(),
        session.state.total() + batch.len() <= MAX_PLAYLIST_ENTRIES,
        session.state.entry_ids.has(batch.len()),
        session.state.playlists[at].queue.active == Some(cursor),
        0 <= i < batch.len(),
    ensures
        ({
            let after = session.enqueued(at, batch).state.playlists[at];
            let new = QueueEntryId { raw: (session.state.entry_ids.first() + i) as u64 };
            &&& after.queue.holds(new)
            &&& after.rank(cursor) matches Some(here)
            &&& after.rank(new) matches Some(there)
            &&& here < there
        }),
{
    let before = session.state.playlists[at];
    let longer = session.state.enqueued(at, batch);
    let new = QueueEntryId { raw: (session.state.entry_ids.first() + i) as u64 };
    crate::persistence::laws::enqueuing_keeps_wf(session.state, at, batch);
    assert(before.wf());
    assert(longer.playlists[at].wf());
    let queue = longer.playlists[at].queue;
    let n = before.queue.entries.len() as int;
    assert(queue.entries[n + i].id == new);
    crate::queue::entry_is_found(queue, n + i);
    crate::queue::found_is_queued(before.queue, cursor);
    let here = before.queue.find(cursor).unwrap();
    assert(queue.entries[here] == before.queue.entries[here]);
    crate::queue::entry_is_found(queue, here);
    if let Some(shuffle) = before.shuffle {
        crate::playlist::shuffling_keeps_the_list_ahead(
            longer.playlists[at],
            shuffle.seed,
            cursor,
            new,
        );
    } else {
        crate::playlist::rank_is_place(longer.playlists[at], here);
        crate::playlist::rank_is_place(longer.playlists[at], n + i);
    }
}

/// Whatever a session saves can be read back as it is: every state that it
/// holds is whole, and a whole state comes back where the addresses in it are
/// read as themselves.
pub proof fn saved_state_reads_back(session: SessionView)
    requires
        session.wf(),
        session.state.storable(),
        session.state.schema_version == crate::persistence::model::SCHEMA_VERSION,
    ensures
        session.state.file().raw().state(true) == session.state.stored(),
        session.state.file().raw().recovered(true).reset is None,
{
    crate::persistence::round_trip::written_state_reads_back(session.state);
}

} // verus!
