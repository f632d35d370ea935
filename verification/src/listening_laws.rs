//! What listening comes to: what is played next, which position is kept of what
//! was heard, and when it is saved. Each law speaks of the events that came and
//! of the state after them.

use crate::application::transport::{SituationView, TransportDecision, TransportInput};
use crate::clock::{ClockSample, Duration};
use crate::media::{Continuity, MediaKey};
use crate::persistence::model::StateView;
use crate::playback::{LoadRequestId, PlaybackEvent, PlaybackState, PositionProvenance, Progress,
    StartDisposition, Urgency};
use crate::queue::QueueEntryId;
use crate::session::{AdoptedLoad, Advance, LoadTarget, PendingView, SessionView};
use vstd::prelude::*;

verus! {

broadcast use crate::model::group_model;

/// Whether the load in charge is `request` for `target`, and hears events of
/// revision `rev`.
pub open spec fn in_charge(
    session: SessionView,
    request: LoadRequestId,
    target: LoadTarget,
    rev: u64,
) -> bool {
    session.adopted == Some(AdoptedLoad { request, target }) && session.last_loaded == Some(request)
        && session.latest_engine_rev <= rev
}

/// Whether `progress` was taken of `media` under the load `request`, at `rev`.
pub open spec fn sampled_from(
    progress: Progress,
    media: MediaKey,
    request: LoadRequestId,
    rev: u64,
) -> bool {
    progress.session_rev == rev && progress.load == Some(request) && crate::model::opt(
        progress.media,
    ) == Some(media)
}

/// Whether `position` is what `state` keeps of `media`: as the established
/// position, or as the estimate beside whatever was established `before`.
pub open spec fn keeps(
    state: StateView,
    media: MediaKey,
    position: Duration,
    provenance: PositionProvenance,
    before: StateView,
) -> bool {
    exists|i: int|
        0 <= i < state.checkpoints.len() && (#[trigger] state.checkpoints[i]).media == media && {
            let kept = state.checkpoints[i].checkpoint;
            if provenance == PositionProvenance::Established {
                kept.position == Some(position) && kept.estimated is None
            } else {
                kept.estimated == Some(position) && kept.position == match before.entry_for(media) {
                    Some(entry) => entry.position,
                    None => None,
                }
            }
        }
}

/// Whether what is kept of `media` says that it was heard to its end.
pub open spec fn heard_out(state: StateView, media: MediaKey, completed: bool) -> bool {
    forall|i: int|
        0 <= i < state.checkpoints.len() && (#[trigger] state.checkpoints[i]).media == media
            ==> state.checkpoints[i].checkpoint.completed == completed
}

pub proof fn recorded_is_kept(
    state: StateView,
    media: MediaKey,
    position: Duration,
    now: ClockSample,
    completed: bool,
)
    requires
        state.distinct_media(),
    ensures
        keeps(
            state.recorded(media, position, now.wall, completed),
            media,
            position,
            PositionProvenance::Established,
            state,
        ),
        heard_out(state.recorded(media, position, now.wall, completed), media, completed),
        forall|provenance: PositionProvenance| provenance != PositionProvenance::Established
            ==> #[trigger] keeps(
            state.recorded_estimated(media, position, now.wall, completed),
            media,
            position,
            provenance,
            state,
        ),
        heard_out(state.recorded_estimated(media, position, now.wall, completed), media, completed),
{
    let established = state.recorded(media, position, now.wall, completed);
    let estimated = state.recorded_estimated(media, position, now.wall, completed);
    let first = crate::persistence::model::PersistedCheckpoint {
        position: Some(position),
        completed,
        touch_seq: state.next_seq,
        updated_at: now.wall,
        estimated: None,
    };
    let second = crate::persistence::model::PersistedCheckpoint {
        position: match state.entry_for(media) {
            Some(entry) => entry.position,
            None => None,
        },
        completed,
        touch_seq: state.next_seq,
        updated_at: now.wall,
        estimated: Some(position),
    };
    crate::persistence::laws::recording_remembers(state, media, first);
    crate::persistence::laws::recording_remembers(state, media, second);
    crate::persistence::laws::found_slot(established, media);
    crate::persistence::laws::found_slot(estimated, media);
    let a = established.slot_of(media).unwrap();
    let b = estimated.slot_of(media).unwrap();
    assert(established.checkpoints[a].checkpoint == first);
    assert(estimated.checkpoints[b].checkpoint == second);
}

/// When the track of a queued entry ends, what is asked for next stands
/// directly behind it in the playing order of the playlist that holds it, and
/// at the end of that order the queue is at its end. It is what a step forward
/// by hand from that entry loads.
pub proof fn end_plays_what_stands_behind(
    session: SessionView,
    event: PlaybackEvent,
    now: ClockSample,
    request: LoadRequestId,
    id: QueueEntryId,
    at: int,
    k: int,
    situation: SituationView,
)
    requires
        session.wf(),
        event is EndOfTrack,
        in_charge(session, request, LoadTarget::Queue(id), event.rev()),
        session.completion_seen != Some((request, event.rev())),
        0 <= at < session.state.playlists.len(),
        0 <= k < session.state.playlists[at].order().len(),
        session.state.playlists[at].order()[k] == id,
    ensures
        ({
            let playlist = session.state.playlists[at];
            let order = playlist.order();
            let (after, submitted) = session.observed(event, now);
            &&& submitted == Some(Urgency::Forced)
            &&& after.advance == Some(
                if k + 1 < order.len() {
                    Advance::Next(order[k + 1])
                } else {
                    Advance::EndOfQueue
                },
            )
            &&& after.state.playlists == session.state.playlists
            &&& situation.navigation == playlist && situation.phase
                != crate::application::transport::PlaybackPhase::Loading
                && playlist.queue.active == Some(id) ==> situation.decision(TransportInput::Next)
                == match after.advance {
                Some(Advance::Next(next)) => TransportDecision::Load(next),
                _ => TransportDecision::Nothing,
            }
        }),
{
    let playlist = session.state.playlists[at];
    assert(playlist.wf());
    crate::playlist::order_plays_every_entry_once(playlist);
    assert(playlist.order().contains(id));
    crate::playlist::rank_is_place(playlist, k);
    crate::persistence::laws::owner_is_unique(session.state, at, id);
    crate::persistence::laws::playlist_is_found(session.state, at);
    let after = session.observed(event, now).0;
    assert(after.state.playlists == session.state.playlists);
}

/// Stopping, pausing what plays, a seek that landed and a restart each save:
/// the next sample of the load in charge is submitted at once, and it is the
/// position that is kept of the media, or the target of a seek that was made
/// while stopped and has not been reached.
pub proof fn interruption_saves(
    session: SessionView,
    event: PlaybackEvent,
    now: ClockSample,
    progress: Progress,
    later: ClockSample,
    request: LoadRequestId,
    target: LoadTarget,
    media: MediaKey,
)
    requires
        session.wf(),
        in_charge(session, request, target, event.rev()),
        session.current_media == Some(media),
        session.checkpointable,
        sampled_from(progress, media, request, event.rev()),
        match event {
            PlaybackEvent::StateChanged { state, .. } => (state == PlaybackState::Stopped || (state
                == PlaybackState::Paused && session.playback == PlaybackState::Playing))
                && session.established && session.protected is None,
            PlaybackEvent::SeekCompleted { provenance, .. } => provenance
                == PositionProvenance::Established || session.protected is None,
            PlaybackEvent::RestartEstablished { provenance, .. } => provenance
                == PositionProvenance::Established || session.protected is None,
            _ => false,
        },
    ensures
        ({
            let told = session.observed(event, now).0;
            let (after, submitted) = told.ticked(progress, later);
            let position = if event is StateChanged && session.outstanding_target is Some {
                session.outstanding_target.unwrap()
            } else {
                progress.position
            };
            &&& submitted == Some(Urgency::Forced)
            &&& keeps(after.state, media, position, progress.provenance, session.state)
            &&& heard_out(
                after.state,
                media,
                event is StateChanged && session.completed,
            )
            &&& after.pending_force is None
        }),
{
    let told = session.observed(event, now).0;
    let position = told.position_for(progress.position);
    recorded_is_kept(session.state, media, position, later, told.completed);
}

/// While a track plays, its position is kept every five seconds: a sample that
/// comes five seconds or more after playing began is submitted and kept, one
/// that comes sooner is not, and from a sample that was kept the count begins
/// again.
pub proof fn playing_saves_every_five_seconds(
    session: SessionView,
    event: PlaybackEvent,
    now: ClockSample,
    progress: Progress,
    later: ClockSample,
    request: LoadRequestId,
    target: LoadTarget,
    media: MediaKey,
)
    requires
        session.wf(),
        event matches PlaybackEvent::StateChanged { state, .. } && state == PlaybackState::Playing,
        in_charge(session, request, target, event.rev()),
        session.current_media == Some(media),
        session.checkpointable,
        session.protected is None,
        session.pending_force is None,
        sampled_from(progress, media, request, event.rev()),
        now.monotonic.nanos <= later.monotonic.nanos,
    ensures
        ({
            let told = session.observed(event, now).0;
            let (after, submitted) = told.ticked(progress, later);
            if later.monotonic.nanos - now.monotonic.nanos >= 5_000_000_000 {
                &&& submitted == Some(Urgency::Ordinary)
                &&& keeps(after.state, media, progress.position, progress.provenance, session.state)
                &&& heard_out(after.state, media, false)
                &&& after.last_capture == Some(later.monotonic)
            } else {
                &&& submitted is None
                &&& after.state == session.state
                &&& after.last_capture == Some(now.monotonic)
            }
        }),
{
    recorded_is_kept(session.state, media, progress.position, later, false);
}

/// A kept sample is followed by another as long as the track plays: the next
/// one five seconds later, and none before.
pub proof fn kept_sample_is_followed(
    session: SessionView,
    last: Duration,
    progress: Progress,
    now: ClockSample,
    request: LoadRequestId,
    target: LoadTarget,
    media: MediaKey,
)
    requires
        session.wf(),
        in_charge(session, request, target, session.latest_engine_rev),
        session.current_media == Some(media),
        session.playback == PlaybackState::Playing,
        session.checkpointable,
        session.established,
        session.protected is None,
        session.pending_force is None,
        session.outstanding_target is None,
        session.last_capture == Some(last),
        sampled_from(progress, media, request, session.session_rev),
        last.nanos <= now.monotonic.nanos,
    ensures
        ({
            let (after, submitted) = session.ticked(progress, now);
            if now.monotonic.nanos - last.nanos >= 5_000_000_000 {
                &&& submitted == Some(Urgency::Ordinary)
                &&& keeps(after.state, media, progress.position, progress.provenance, session.state)
                &&& after.last_capture == Some(now.monotonic)
            } else {
                submitted is None && after.state == session.state && after.last_capture == Some(
                    last,
                )
            }
        }),
{
    recorded_is_kept(session.state, media, progress.position, now, session.completed);
}

/// A track that ended is kept as heard to its end, at the position where it
/// ended, and saved at once.
pub proof fn end_is_kept(
    session: SessionView,
    event: PlaybackEvent,
    now: ClockSample,
    request: LoadRequestId,
    target: LoadTarget,
    media: MediaKey,
)
    requires
        session.wf(),
        event is EndOfTrack,
        in_charge(session, request, target, event.rev()),
        session.completion_seen != Some((request, event.rev())),
        session.current_media == Some(media),
        session.checkpointable,
        session.protected is None || event->EndOfTrack_provenance
            == PositionProvenance::Established,
    ensures
        ({
            let (after, submitted) = session.observed(event, now);
            &&& submitted == Some(Urgency::Forced)
            &&& keeps(
                after.state,
                media,
                event->EndOfTrack_position,
                event->EndOfTrack_provenance,
                session.state,
            )
            &&& heard_out(after.state, media, true)
            &&& after.completed
        }),
{
    recorded_is_kept(session.state, media, event->EndOfTrack_position, now, true);
}

/// The target of a seek made while stopped is kept at once, and it stands for
/// the position until the engine confirms another.
pub proof fn stored_target_is_kept(
    session: SessionView,
    event: PlaybackEvent,
    now: ClockSample,
    request: LoadRequestId,
    target: LoadTarget,
    media: MediaKey,
)
    requires
        session.wf(),
        event is SeekTargetStored,
        in_charge(session, request, target, event.rev()),
        session.current_media == Some(media),
        session.checkpointable,
        session.protected is None,
    ensures
        ({
            let (after, submitted) = session.observed(event, now);
            &&& submitted == Some(Urgency::Forced)
            &&& keeps(
                after.state,
                media,
                event->SeekTargetStored_target,
                session.position_provenance,
                session.state,
            )
            &&& heard_out(after.state, media, false)
            &&& after.outstanding_target == Some(event->SeekTargetStored_target)
        }),
{
    recorded_is_kept(session.state, media, event->SeekTargetStored_target, now, false);
}

/// A load that was registered for a queued entry takes over when it ends well:
/// it is in charge, its media is the current one, the playlist that holds the
/// entry plays and its cursor is on the entry. It is saved at once unless all
/// of that was so before.
pub proof fn load_takes_over(
    session: SessionView,
    event: PlaybackEvent,
    now: ClockSample,
    request: LoadRequestId,
    p: int,
    id: QueueEntryId,
    at: int,
    k: int,
)
    requires
        session.wf(),
        event matches PlaybackEvent::Loaded { request: loaded, .. } && loaded == request,
        event.rev() >= session.latest_engine_rev,
        0 <= p < session.pending.len(),
        session.pending[p] == (PendingView {
            request,
            target: LoadTarget::Queue(id),
            media: event->Loaded_media@,
            invalidated: false,
        }),
        0 <= at < session.state.playlists.len(),
        0 <= k < session.state.playlists[at].queue.entries.len(),
        session.state.playlists[at].queue.entries[k].id == id,
        session.state.playlists[at].queue.entries[k].media == event->Loaded_media@,
    ensures
        ({
            let media = event->Loaded_media@;
            let playlist = session.state.playlists[at];
            let (after, submitted) = session.observed(event, now);
            let same = session.current_media == Some(media) && session.state.playing == playlist.id
                && playlist.queue.active == Some(id);
            &&& after.adopted == Some(AdoptedLoad { request, target: LoadTarget::Queue(id) })
            &&& after.last_loaded == Some(request)
            &&& after.session_rev == event.rev()
            &&& after.current_media == Some(media)
            &&& after.state.current_media == Some(media)
            &&& after.state.playing == playlist.id
            &&& after.state.playlists[at].queue.active == Some(id)
            &&& after.state.playlists[at].queue.ids() == playlist.queue.ids()
            &&& forall|other: int|
                0 <= other < session.state.playlists.len() && other != at ==> (
                #[trigger] after.state.playlists[other]) == session.state.playlists[other]
            &&& after.checkpointable == (event->Loaded_capabilities.continuity
                != Continuity::Indefinite)
            &&& after.protected == match event->Loaded_disposition {
                StartDisposition::ResumeUnavailable { retained } => Some(retained),
                _ => None,
            }
            &&& same ==> submitted is None
            &&& !same ==> submitted == Some(Urgency::Forced)
        }),
{
    let media = event->Loaded_media@;
    let playlist = session.state.playlists[at];
    assert(playlist.wf());
    crate::queue::entry_is_found(playlist.queue, k);
    crate::persistence::laws::owner_is_unique(session.state, at, id);
    crate::persistence::laws::playlist_is_found(session.state, at);
    crate::model::position_is_first(session.pending, crate::session::pending_is(request), 0);
    assert(crate::session::pending_is(request)(session.pending[p]));
    let found = session.pending_at(request).unwrap();
    assert(session.pending[found].request == request);
    assert(found == p);
    let left = session.retired(request);
    let heard = SessionView {
        latest_engine_rev: event.rev(),
        last_loaded: Some(request),
        session_rev: event.rev(),
        ..left
    };
    let loaded = heard.loaded(
        media,
        event->Loaded_position,
        event->Loaded_disposition,
        event->Loaded_capabilities,
        now,
    );
    assert(loaded.state.playlists == session.state.playlists);
    assert(loaded.state.owner_index(id) == Some(at));
    let playing = loaded.state.with_playing(playlist.id);
    assert(playing.playlists == session.state.playlists);
    assert(playing.index_of(playlist.id) == Some(at));
    assert(playing.playing_index() == at);
    let active = playing.activated(Some(id));
    assert(active == playing.with_queue(at, playlist.queue.with_active(Some(id))));
    let queue = active.playlists[at].queue;
    assert(queue.ids() =~= playlist.queue.ids());
    crate::queue::same_ids_same_places(queue, playlist.queue, id);
    crate::persistence::laws::found_owner(active, id);
    let owner = active.owner_index(id).unwrap();
    if owner != at {
        assert(active.playlists[owner] == session.state.playlists[owner]);
        if owner < at {
            assert(!session.state.playlists[at].queue.holds(id));
        } else {
            assert(active.playlists[at].queue.holds(id));
            assert(crate::persistence::model::playlist_holds(id)(active.playlists[at]));
            crate::model::position_is_first(
                active.playlists,
                crate::persistence::model::playlist_holds(id),
                0,
            );
        }
    }
    let update = event->Loaded_metadata.as_update();
    let state = active.absorbed(id, update);
    crate::queue::showing_keeps_identities(queue, id, media, update, Seq::empty());
    assert(state.playlists[at].queue == queue.absorbed(id, update));
    assert(state.index_of(playlist.id) == Some(at)) by {
        crate::model::position_is_first(
            state.playlists,
            crate::persistence::model::playlist_is(playlist.id),
            0,
        );
        assert(crate::persistence::model::playlist_is(playlist.id)(state.playlists[at]));
        let other = state.index_of(playlist.id).unwrap();
        assert(state.playlists[other].id == session.state.playlists[other].id);
    }
}

/// When a load takes over from another media, the last position of the media that is
/// left is kept, unless it was heard out: then what was kept at its end stands.
pub proof fn left_media_is_kept(
    session: SessionView,
    event: PlaybackEvent,
    now: ClockSample,
    request: LoadRequestId,
    p: int,
    sample: crate::session::SampleView,
)
    requires
        session.wf(),
        event matches PlaybackEvent::Loaded { request: loaded, .. } && loaded == request,
        event.rev() >= session.latest_engine_rev,
        0 <= p < session.pending.len(),
        session.pending[p].request == request,
        session.registered_target(request, event->Loaded_media@) is Some,
        session.current_media != Some(event->Loaded_media@),
        session.last_sample == Some(sample),
        session.checkpointable,
        session.established,
        session.protected is None,
    ensures
        ({
            let after = session.observed(event, now).0;
            let position = match session.outstanding_target {
                Some(target) => target,
                None => sample.position,
            };
            &&& !session.completed ==> keeps(
                after.state,
                sample.media,
                position,
                session.position_provenance,
                session.state,
            ) && heard_out(after.state, sample.media, false)
            &&& session.completed ==> after.state.checkpoints == session.state.checkpoints
            &&& after.adopted == Some(AdoptedLoad { request, target: session.pending[p].target })
            &&& after.current_media == Some(event->Loaded_media@)
            &&& session.pending[p].target == LoadTarget::Legacy ==> after.state.queue().active
                is None
        }),
{
    crate::model::position_is_first(session.pending, crate::session::pending_is(request), 0);
    assert(crate::session::pending_is(request)(session.pending[p]));
    let found = session.pending_at(request).unwrap();
    assert(session.pending[found].request == request);
    assert(found == p);
    let position = match session.outstanding_target {
        Some(target) => target,
        None => sample.position,
    };
    recorded_is_kept(session.state, sample.media, position, now, false);
    let heard = SessionView {
        latest_engine_rev: event.rev(),
        last_loaded: Some(request),
        session_rev: event.rev(),
        ..session.retired(request)
    };
    let left = heard.parted(now);
    let after = session.observed(event, now).0;
    let loaded = heard.loaded(
        event->Loaded_media@,
        event->Loaded_position,
        event->Loaded_disposition,
        event->Loaded_capabilities,
        now,
    );
    assert(loaded.state.playlists == session.state.playlists);
    assert(loaded.state.index_of(loaded.state.playing) == session.state.index_of(
        session.state.playing,
    ));
    crate::persistence::laws::found_playlist(session.state, session.state.playing);
    let at = session.state.playing_index();
    assert(after.state.checkpoints == left.state.checkpoints);
    if session.pending[p].target == LoadTarget::Legacy {
        assert(after.state == loaded.state.with_queue(at, loaded.state.queue().with_active(None)));
        assert(after.state.index_of(after.state.playing) == Some(at)) by {
            let wanted = crate::persistence::model::playlist_is(after.state.playing);
            crate::model::position_is_first(after.state.playlists, wanted, 0);
            assert(wanted(after.state.playlists[at]));
            let other = after.state.index_of(after.state.playing).unwrap();
            assert(after.state.playlists[other].id == session.state.playlists[other].id);
        }
    }
    if !session.completed {
        slots_keep(
            left.state,
            after.state,
            sample.media,
            position,
            session.position_provenance,
            session.state,
        );
    }
}

proof fn slots_keep(
    a: StateView,
    b: StateView,
    media: MediaKey,
    position: Duration,
    provenance: PositionProvenance,
    before: StateView,
)
    requires
        a.checkpoints == b.checkpoints,
        keeps(a, media, position, provenance, before),
        heard_out(a, media, false),
    ensures
        keeps(b, media, position, provenance, before),
        heard_out(b, media, false),
{
}

/// At the end of a run the position of what plays is kept: the sample that was taken
/// last of the load in charge or, where the engine gives none, the last one that was
/// heard.
pub proof fn shutdown_keeps_the_position(
    session: SessionView,
    progress: Progress,
    now: ClockSample,
    request: LoadRequestId,
    target: LoadTarget,
    media: MediaKey,
)
    requires
        session.wf(),
        in_charge(session, request, target, session.latest_engine_rev),
        session.current_media == Some(media),
        session.checkpointable,
        session.established,
        session.protected is None,
        session.outstanding_target is None,
    ensures
        sampled_from(progress, media, request, session.session_rev) ==> keeps(
            session.current_captured(progress, now).state,
            media,
            progress.position,
            progress.provenance,
            session.state,
        ),
        progress.session_rev != session.session_rev ==> (session.last_sample matches Some(sample)
            ==> (sample.media == media && sample.session_rev == session.session_rev ==> keeps(
            session.current_captured(progress, now).state,
            media,
            sample.position,
            sample.provenance,
            session.state,
        ))),
{
    recorded_is_kept(session.state, media, progress.position, now, session.completed);
    if let Some(sample) = session.last_sample {
        recorded_is_kept(session.state, media, sample.position, now, session.completed);
    }
}

/// A load is registered exactly where fewer than sixteen are under way and its entry,
/// if it has one, is queued for that media.
pub proof fn loads_are_registered(
    session: SessionView,
    media: MediaKey,
    id: QueueEntryId,
    at: int,
    k: int,
)
    requires
        session.wf(),
    ensures
        session.refusal(LoadTarget::Legacy, media) is None <==> session.pending.len() < 16,
        0 <= at < session.state.playlists.len() && 0 <= k
            < session.state.playlists[at].queue.entries.len()
            && session.state.playlists[at].queue.entries[k].id == id && session.pending.len() < 16
            ==> (session.refusal(LoadTarget::Queue(id), media) is None
            <==> session.state.playlists[at].queue.entries[k].media == media),
        session.pending.len() >= 16 ==> session.refusal(LoadTarget::Queue(id), media) is Some,
        (forall|i: int|
            0 <= i < session.state.playlists.len() ==> !(
            #[trigger] session.state.playlists[i]).queue.holds(id)) ==> session.refusal(
            LoadTarget::Queue(id),
            media,
        ) is Some,
{
    crate::persistence::laws::found_owner(session.state, id);
    if 0 <= at < session.state.playlists.len() && 0 <= k
        < session.state.playlists[at].queue.entries.len()
        && session.state.playlists[at].queue.entries[k].id == id {
        assert(session.state.playlists[at].wf());
        crate::queue::entry_is_found(session.state.playlists[at].queue, k);
        crate::persistence::laws::owner_is_unique(session.state, at, id);
    }
}

/// A load that fails or is cancelled changes nothing that is saved: it is no longer
/// under way, and until another takes over nobody is heard.
pub proof fn failed_load_changes_nothing(
    session: SessionView,
    event: PlaybackEvent,
    now: ClockSample,
    request: LoadRequestId,
    p: int,
)
    requires
        session.wf(),
        event matches PlaybackEvent::LoadCancelled { request: ended, .. } && ended == request || (
        event matches PlaybackEvent::Failed { request: Some(ended), .. } && ended == request),
        event.rev() >= session.latest_engine_rev,
        0 <= p < session.pending.len(),
        session.pending[p].request == request,
    ensures
        ({
            let (after, submitted) = session.observed(event, now);
            &&& submitted is None
            &&& after.state == session.state
            &&& after.adopted == session.adopted
            &&& after.current_media == session.current_media
            &&& after.advance == session.advance
            &&& !after.stop_requested || session.stop_requested
            &&& after.last_loaded is None
            &&& after.pending == session.pending.remove(p)
        }),
{
    crate::model::position_is_first(session.pending, crate::session::pending_is(request), 0);
    assert(crate::session::pending_is(request)(session.pending[p]));
    let found = session.pending_at(request).unwrap();
    assert(session.pending[found].request == request);
    assert(found == p);
}

/// A checkpoint that was asked for is not lost to a newer revision: it then waits for
/// a sample of that one.
pub proof fn asked_checkpoint_waits_on(
    session: SessionView,
    event: PlaybackEvent,
    now: ClockSample,
    request: LoadRequestId,
    target: LoadTarget,
)
    requires
        in_charge(session, request, target, event.rev()),
        session.pending_force is Some,
        event.outcome_of() is None,
        !(event is VolumeChanged),
        !(event matches PlaybackEvent::StateChanged { state, .. } && state
            == PlaybackState::Loading),
    ensures
        session.observed(event, now).0.pending_force == Some(event.rev()),
        session.observed(event, now).0.session_rev == event.rev(),
{
}

/// A volume that the engine reports is kept, whoever is in charge.
pub proof fn volume_is_kept(session: SessionView, event: PlaybackEvent, now: ClockSample)
    requires
        event is VolumeChanged,
    ensures
        session.observed(event, now).0.state.volume == event->VolumeChanged_volume.gain,
        session.observed(event, now).1 == Some(Urgency::Ordinary),
        session.observed(event, now).0.state.checkpoints == session.state.checkpoints,
        session.observed(event, now).0.state.playlists == session.state.playlists,
{
}

/// Playing confirms the position and begins the media anew: what was heard out is not
/// any more, and its end can be recorded again.
pub proof fn playing_confirms(
    session: SessionView,
    event: PlaybackEvent,
    now: ClockSample,
    request: LoadRequestId,
    target: LoadTarget,
)
    requires
        in_charge(session, request, target, event.rev()),
        event matches PlaybackEvent::StateChanged { state, .. } && state == PlaybackState::Playing,
    ensures
        ({
            let after = session.observed(event, now).0;
            &&& after.playback == PlaybackState::Playing
            &&& after.established
            &&& !after.completed
            &&& after.completion_seen is None
            &&& after.outstanding_target is None
            &&& after.state == session.state
        }),
{
}

/// A session begins with nothing in charge, nothing under way and no media of its own: what
/// was current before says nothing of what is played now, and nothing of it is lost.
pub proof fn session_begins_empty(state: StateView)
    ensures
        ({
            let session = SessionView::begun(state);
            &&& session.state == state
            &&& session.adopted is None && session.last_loaded is None
            &&& session.pending.len() == 0 && session.current_media is None
            &&& session.playback == PlaybackState::Idle
            &&& session.advance is None && !session.stop_requested
            &&& session.pending_force is None && session.last_sample is None
            &&& !session.established && session.protected is None
        }),
{
}

/// What is registered takes over later: the load stands behind those under way, under the
/// next token, for its target and its media.
pub proof fn registered_load_is_under_way(session: SessionView, target: LoadTarget, media: MediaKey)
    requires
        session.next_request < u64::MAX,
    ensures
        ({
            let after = session.registered(target, media);
            &&& after.pending == session.pending.push(
                PendingView {
                    request: LoadRequestId { raw: (session.next_request + 1) as u64 },
                    target,
                    media,
                    invalidated: false,
                },
            )
            &&& after.state == session.state && after.adopted == session.adopted
        }),
{
}

/// A load that ends well and may not take over is to be stopped; what plays and what is
/// saved stay.
pub proof fn unwanted_load_is_stopped(
    session: SessionView,
    event: PlaybackEvent,
    now: ClockSample,
    request: LoadRequestId,
    p: int,
)
    requires
        session.wf(),
        event matches PlaybackEvent::Loaded { request: loaded, .. } && loaded == request,
        event.rev() >= session.latest_engine_rev,
        0 <= p < session.pending.len(),
        session.pending[p].request == request,
        session.pending[p].invalidated || session.pending[p].media != event->Loaded_media@,
    ensures
        ({
            let (after, submitted) = session.observed(event, now);
            &&& submitted is None && after.stop_requested
            &&& after.state == session.state && after.adopted == session.adopted
            &&& after.current_media == session.current_media
        }),
{
    crate::model::position_is_first(session.pending, crate::session::pending_is(request), 0);
    assert(crate::session::pending_is(request)(session.pending[p]));
    let found = session.pending_at(request).unwrap();
    assert(session.pending[found].request == request);
    assert(found == p);
}

/// A media that was heard out is still so when it is loaded again, and one that was not is
/// not; and the position where it was loaded is the last that is known of it.
pub proof fn load_recalls_the_media(
    session: SessionView,
    event: PlaybackEvent,
    now: ClockSample,
    request: LoadRequestId,
    p: int,
    i: int,
)
    requires
        session.wf(),
        event matches PlaybackEvent::Loaded { request: loaded, .. } && loaded == request,
        event.rev() >= session.latest_engine_rev,
        0 <= p < session.pending.len(),
        session.pending[p].request == request,
        session.registered_target(request, event->Loaded_media@) is Some,
        session.current_media == Some(event->Loaded_media@) || session.last_sample is None,
    ensures
        ({
            let media = event->Loaded_media@;
            let after = session.observed(event, now).0;
            &&& 0 <= i < session.state.checkpoints.len() && session.state.checkpoints[i].media
                == media ==> after.completed == session.state.checkpoints[i].checkpoint.completed
            &&& (forall|j: int|
                0 <= j < session.state.checkpoints.len() ==> (
                #[trigger] session.state.checkpoints[j]).media != media) ==> !after.completed
            &&& after.last_sample == Some(
                crate::session::SampleView {
                    session_rev: event.rev(),
                    media,
                    position: event->Loaded_position,
                    provenance: PositionProvenance::Established,
                },
            )
            &&& after.outstanding_target is None && after.last_capture is None
            &&& after.state.checkpoints == session.state.checkpoints
        }),
{
    crate::model::position_is_first(session.pending, crate::session::pending_is(request), 0);
    assert(crate::session::pending_is(request)(session.pending[p]));
    let found = session.pending_at(request).unwrap();
    assert(session.pending[found].request == request);
    assert(found == p);
    crate::persistence::laws::found_slot(session.state, event->Loaded_media@);
}

/// Every sample of the load in charge is remembered, saved or not, and what comes from
/// elsewhere is not.
pub proof fn samples_are_remembered(
    session: SessionView,
    progress: Progress,
    now: ClockSample,
    request: LoadRequestId,
    target: LoadTarget,
    media: MediaKey,
)
    requires
        in_charge(session, request, target, session.latest_engine_rev),
        session.current_media == Some(media),
    ensures
        sampled_from(progress, media, request, session.session_rev) ==> session.ticked(
            progress,
            now,
        ).0.last_sample == Some(
            crate::session::SampleView {
                session_rev: session.session_rev,
                media,
                position: progress.position,
                provenance: progress.provenance,
            },
        ),
        !sampled_from(progress, media, request, session.session_rev) ==> session.ticked(
            progress,
            now,
        ) == (session, None::<Urgency>),
{
}

/// Nothing but a stop, a pause of what plays, a landed seek and a restart asks for a
/// checkpoint.
pub proof fn only_interruptions_ask(session: SessionView, event: PlaybackEvent, now: ClockSample)
    requires
        session.pending_force is None,
        session.observed(event, now).0.pending_force is Some,
    ensures
        match event {
            PlaybackEvent::StateChanged { state, .. } => state == PlaybackState::Stopped || (state
                == PlaybackState::Paused && session.playback == PlaybackState::Playing),
            PlaybackEvent::SeekCompleted { .. } => true,
            PlaybackEvent::RestartEstablished { .. } => true,
            _ => false,
        },
{
}

/// Nothing but the end of a queued entry asks for another to be played.
pub proof fn only_an_end_plays_on(session: SessionView, event: PlaybackEvent, now: ClockSample)
    requires
        session.observed(event, now).0.advance != session.advance,
    ensures
        event is EndOfTrack,
        session.adopted matches Some(adopted) && adopted.target is Queue,
{
}

/// Events that were left are taken one after the other, the first of them first.
pub proof fn events_are_taken_in_order(
    session: SessionView,
    events: Seq<PlaybackEvent>,
    count: int,
    now: ClockSample,
)
    requires
        0 < count <= events.len(),
    ensures
        session.observed_all(events, count, now) == session.observed(
            events[0],
            now,
        ).0.observed_all(events.skip(1), count - 1, now),
    decreases count,
{
    let rest = events.skip(1);
    let first = session.observed(events[0], now).0;
    if count > 1 {
        events_are_taken_in_order(session, events, count - 1, now);
        assert(rest[count - 2] == events[count - 1]);
    } else {
        assert(session.observed_all(events, 0, now) == session);
        assert(first.observed_all(rest, 0, now) == first);
    }
}

/// Once a load that is under way was announced nobody is heard until it ends: what still
/// comes of the one before it changes nothing and saves nothing.
pub proof fn announced_load_silences(
    session: SessionView,
    event: PlaybackEvent,
    now: ClockSample,
    request: LoadRequestId,
    p: int,
    late: PlaybackEvent,
    progress: Progress,
    later: ClockSample,
)
    requires
        event matches PlaybackEvent::StateChanged { state, request: announced, .. } && state
            == PlaybackState::Loading && announced == Some(request),
        event.rev() >= session.latest_engine_rev,
        0 <= p < session.pending.len(),
        session.pending[p].request == request,
        late is SeekCompleted || late is SeekTargetStored || late is EndOfTrack
            || late is RestartEstablished || late is CapabilitiesChanged,
    ensures
        ({
            let after = session.observed(event, now).0;
            &&& after.playback == PlaybackState::Loading
            &&& after.state == session.state && after.adopted == session.adopted
            &&& after.pending == session.pending
            &&& after.observed(late, later) == (after, None::<Urgency>)
            &&& after.ticked(progress, later) == (after, None::<Urgency>)
        }),
{
    crate::model::position_is_first(session.pending, crate::session::pending_is(request), 0);
    assert(crate::session::pending_is(request)(session.pending[p]));
}

} // verus!
