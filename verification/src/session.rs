//! The checkpoint policy: what is saved, and when.
//!
//! Every decision is a function of the events, of the one progress snapshot
//! taken per pass, and of a clock sample. The session is also the only source
//! of load tokens, and the only place that decides whether a load may take
//! over: an event that does not belong to the load in charge changes nothing.

use crate::clock::{ClockSample, Duration};
use crate::media::{Continuity, MediaCapabilities, MediaId, MediaKey, MediaMetadata, Url};
use crate::persistence::model::{PersistedCheckpoint, PersistedState, StateView};
use crate::playback::{LoadRequestId, PlaybackCheckpoint, PlaybackEvent, PlaybackState,
    PositionProvenance, Progress, ResumeIntent, ShutdownReport, StartDisposition, Urgency, Volume};
use crate::playlist::{PlaylistError, PlaylistId, PlaylistView};
use crate::queue::{Direction, DisplayUpdate, DisplayView, NewEntryView, NewQueueEntry, QueueEntryId,
    QueueError, QueueView, SourceView, MAX_PLAYLIST_ENTRIES};
use crate::resume::{restart_preference, resume_candidate};
use vstd::prelude::*;

verus! {

broadcast use crate::model::group_model;

/// How often a position is taken while playing, in nanoseconds.
pub const CAPTURE_INTERVAL: u128 = 5_000_000_000;

/// How many loads may be under way at once.
pub const MAX_PENDING_LOADS: usize = 16;

/// What is to be done with the state.
#[derive(Debug, PartialEq, Eq)]
pub enum Action {
    Nothing,
    Submit { state: PersistedState, urgency: Urgency },
}

/// The state to submit, and how urgently; nothing where nothing is.
impl View for Action {
    type V = Option<(StateView, Urgency)>;

    open spec fn view(&self) -> Option<(StateView, Urgency)> {
        match *self {
            Action::Nothing => None,
            Action::Submit { state, urgency } => Some((state@, urgency)),
        }
    }
}

/// What a load is for: a queued entry, or nothing that is queued.
#[derive(Clone, Copy, Debug, PartialEq, Eq, Structural)]
pub enum LoadTarget {
    Queue(QueueEntryId),
    Legacy,
}

/// Why a load was not registered.
#[derive(Clone, Copy, Debug, PartialEq, Eq, Structural)]
pub enum RegisterLoadError {
    /// Too many are under way.
    Busy,
    /// The entry is no longer queued.
    UnknownEntry,
    /// The entry is for another media.
    MediaMismatch,
}

/// The load that is in charge of playback.
#[derive(Clone, Copy, Debug, PartialEq, Eq, Structural)]
pub struct AdoptedLoad {
    pub request: LoadRequestId,
    pub target: LoadTarget,
}

/// What is to be played when a track has ended.
#[derive(Clone, Copy, Debug, PartialEq, Eq, Structural)]
pub enum Advance {
    Next(QueueEntryId),
    EndOfQueue,
}

/// What a removal asks for: the submission, whether playback must stop, and
/// the entry to select next.
#[derive(Debug, PartialEq, Eq)]
pub struct Removal {
    pub action: Action,
    pub stop_playback: bool,
    pub selection: Option<QueueEntryId>,
}

/// A load that was registered and has not ended.
struct PendingLoad {
    request: LoadRequestId,
    target: LoadTarget,
    media: MediaId,
    /// Its entry was removed: it must not take over any more.
    invalidated: bool,
}

#[verifier::ext_equal]
pub struct PendingView {
    pub request: LoadRequestId,
    pub target: LoadTarget,
    pub media: MediaKey,
    pub invalidated: bool,
}

impl View for PendingLoad {
    type V = PendingView;

    closed spec fn view(&self) -> PendingView {
        PendingView {
            request: self.request,
            target: self.target,
            media: self.media@,
            invalidated: self.invalidated,
        }
    }
}

/// A position that was taken of a media.
struct Sample {
    session_rev: u64,
    media: MediaId,
    position: Duration,
    provenance: PositionProvenance,
}

#[verifier::ext_equal]
pub struct SampleView {
    pub session_rev: u64,
    pub media: MediaKey,
    pub position: Duration,
    pub provenance: PositionProvenance,
}

impl View for Sample {
    type V = SampleView;

    closed spec fn view(&self) -> SampleView {
        SampleView {
            session_rev: self.session_rev,
            media: self.media@,
            position: self.position,
            provenance: self.provenance,
        }
    }
}

/// The policy's own state, around the one that is saved.
pub struct Session {
    state: PersistedState,
    session_rev: u64,
    playback: PlaybackState,
    current_media: Option<MediaId>,
    completed: bool,
    last_sample: Option<Sample>,
    last_capture: Option<Duration>,
    pending_force: Option<u64>,
    outstanding_target: Option<Duration>,
    established: bool,
    protected: Option<Duration>,
    position_provenance: PositionProvenance,
    next_request: u64,
    pending: Vec<PendingLoad>,
    adopted: Option<AdoptedLoad>,
    latest_engine_rev: u64,
    last_loaded: Option<LoadRequestId>,
    stop_requested: bool,
    advance: Option<Advance>,
    completion_seen: Option<(LoadRequestId, u64)>,
    checkpointable: bool,
}

#[verifier::ext_equal]
pub struct SessionView {
    /// What is saved.
    pub state: StateView,
    /// The revision of the playback in charge.
    pub session_rev: u64,
    pub playback: PlaybackState,
    pub current_media: Option<MediaKey>,
    /// Whether the current media is completed.
    pub completed: bool,
    /// The last position of the current media.
    pub last_sample: Option<SampleView>,
    /// When a position was last saved.
    pub last_capture: Option<Duration>,
    /// A checkpoint that waits for a position of this revision.
    pub pending_force: Option<u64>,
    /// The target of a seek made while stopped: it stands for the position.
    pub outstanding_target: Option<Duration>,
    /// Whether the engine has confirmed a position since the load.
    pub established: bool,
    /// A position that must not be overwritten.
    pub protected: Option<Duration>,
    pub position_provenance: PositionProvenance,
    /// The last token handed out.
    pub next_request: u64,
    pub pending: Seq<PendingView>,
    pub adopted: Option<AdoptedLoad>,
    /// The highest revision heard of.
    pub latest_engine_rev: u64,
    /// The load that last ended well.
    pub last_loaded: Option<LoadRequestId>,
    pub stop_requested: bool,
    pub advance: Option<Advance>,
    /// The completion that was last recorded.
    pub completion_seen: Option<(LoadRequestId, u64)>,
    /// Whether the media may be checkpointed at all.
    pub checkpointable: bool,
}

impl View for Session {
    type V = SessionView;

    closed spec fn view(&self) -> SessionView {
        SessionView {
            state: self.state@,
            session_rev: self.session_rev,
            playback: self.playback,
            current_media: crate::model::opt(self.current_media),
            completed: self.completed,
            last_sample: crate::model::opt(self.last_sample),
            last_capture: self.last_capture,
            pending_force: self.pending_force,
            outstanding_target: self.outstanding_target,
            established: self.established,
            protected: self.protected,
            position_provenance: self.position_provenance,
            next_request: self.next_request,
            pending: crate::model::seq(self.pending@),
            adopted: self.adopted,
            latest_engine_rev: self.latest_engine_rev,
            last_loaded: self.last_loaded,
            stop_requested: self.stop_requested,
            advance: self.advance,
            completion_seen: self.completion_seen,
            checkpointable: self.checkpointable,
        }
    }
}

/// Being the load `request`.
pub open spec fn pending_is(request: LoadRequestId) -> spec_fn(PendingView) -> bool {
    |load: PendingView| load.request == request
}

impl StateView {
    /// Whether the state is one that a session keeps: it is well formed, the
    /// playing cursor is on the current media, and the sequence goes on from
    /// what is remembered.
    pub open spec fn whole(self) -> bool {
        self.wf() && self.cursor_is_current() && self.sequenced()
    }

    /// With the playing playlist's cursor moved, where that is possible.
    pub open spec fn activated(self, active: Option<QueueEntryId>) -> StateView {
        if active matches Some(id) && !self.queue().holds(id) {
            self
        } else {
            self.with_queue(self.playing_index(), self.queue().with_active(active))
        }
    }

    /// With what a decoder reported shown of the entry `id`.
    pub open spec fn absorbed(self, id: QueueEntryId, update: DisplayView) -> StateView {
        match self.owner_index(id) {
            Some(at) => self.with_queue(at, self.playlists[at].queue.absorbed(id, update)),
            None => self,
        }
    }

    /// The entry played after `id`, in the playlist that holds it.
    pub open spec fn entry_after(self, id: QueueEntryId) -> Option<QueueEntryId> {
        match self.owner_of(id) {
            Some(owner) => match self.playlist(owner) {
                Some(playlist) => playlist.neighbor(id, Direction::Down),
                None => None,
            },
            None => None,
        }
    }

    /// With what is shown of every entry for `media` updated.
    pub open spec fn displayed(self, media: MediaKey, update: DisplayView) -> StateView {
        StateView {
            playlists: self.playlists.map_values(
                |playlist: PlaylistView| playlist.with_queue(
                    playlist.queue.displayed(media, update),
                ),
            ),
            ..self
        }
    }
}

/// A step of the session, and what it submits.
pub type Step = (SessionView, Option<Urgency>);

impl SessionView {
    /// A session that has just begun: what was current before says nothing
    /// about what is played now.
    pub open spec fn begun(state: StateView) -> SessionView {
        SessionView {
            state,
            session_rev: 0,
            playback: PlaybackState::Idle,
            current_media: None,
            completed: false,
            last_sample: None,
            last_capture: None,
            pending_force: None,
            outstanding_target: None,
            established: false,
            protected: None,
            position_provenance: PositionProvenance::Established,
            next_request: 0,
            pending: Seq::empty(),
            adopted: None,
            latest_engine_rev: 0,
            last_loaded: None,
            stop_requested: false,
            advance: None,
            completion_seen: None,
            checkpointable: true,
        }
    }

    /// What a submission of this urgency carries.
    pub open spec fn submission(self, urgency: Option<Urgency>) -> Option<(StateView, Urgency)> {
        match urgency {
            Some(urgency) => Some((self.state, urgency)),
            None => None,
        }
    }

    // ------------------------------------------------------------- loads

    pub open spec fn pending_at(self, request: LoadRequestId) -> Option<int> {
        crate::model::position(self.pending, pending_is(request), 0)
    }

    /// Without the load `request`.
    pub open spec fn retired(self, request: LoadRequestId) -> SessionView {
        match self.pending_at(request) {
            Some(at) => SessionView { pending: self.pending.remove(at), ..self },
            None => self,
        }
    }

    /// Why a load would not be registered.
    pub open spec fn refusal(self, target: LoadTarget, media: MediaKey) -> Option<
        RegisterLoadError,
    > {
        if self.pending.len() >= MAX_PENDING_LOADS {
            Some(RegisterLoadError::Busy)
        } else {
            match target {
                LoadTarget::Queue(id) => match self.state.find_entry(id) {
                    None => Some(RegisterLoadError::UnknownEntry),
                    Some(entry) => if entry.media != media {
                        Some(RegisterLoadError::MediaMismatch)
                    } else {
                        None
                    },
                },
                LoadTarget::Legacy => None,
            }
        }
    }

    /// With a load registered under the next token.
    pub open spec fn registered(self, target: LoadTarget, media: MediaKey) -> SessionView {
        let raw = (self.next_request + 1) as u64;
        SessionView {
            next_request: raw,
            pending: self.pending.push(
                PendingView {
                    request: LoadRequestId { raw },
                    target,
                    media,
                    invalidated: false,
                },
            ),
            ..self
        }
    }

    /// What a load of `media` under `request` may take over: its target, as
    /// long as nothing removed it and it is still for that media.
    pub open spec fn registered_target(self, request: LoadRequestId, media: MediaKey) -> Option<
        LoadTarget,
    > {
        match self.pending_at(request) {
            None => None,
            Some(at) => {
                let load = self.pending[at];
                if load.invalidated || load.media != media {
                    None
                } else {
                    match load.target {
                        LoadTarget::Queue(id) => if self.state.find_entry(id) matches Some(entry)
                            && entry.media == media {
                            Some(load.target)
                        } else {
                            None
                        },
                        LoadTarget::Legacy => Some(load.target),
                    }
                }
            },
        }
    }

    /// Whether events of revision `rev` belong to the load in charge: there is
    /// one, it is the last that loaded, and the revision is not behind.
    pub open spec fn owns(self, rev: u64) -> bool {
        self.adopted matches Some(adopted) && self.last_loaded == Some(adopted.request) && rev
            >= self.latest_engine_rev
    }

    /// Whether the session will act on an event.
    pub open spec fn accepts(self, event: PlaybackEvent) -> bool {
        match event {
            PlaybackEvent::Loaded { request, media, .. } => event.rev() >= self.latest_engine_rev
                && self.registered_target(request, media@) is Some,
            PlaybackEvent::VolumeChanged { .. } => true,
            _ => self.owns(event.rev()),
        }
    }

    /// Whether `progress` is of the load in charge and of its media.
    pub open spec fn accepts_sample(self, progress: Progress) -> bool {
        self.adopted matches Some(adopted) && self.last_loaded == Some(adopted.request)
            && progress.session_rev == self.session_rev && progress.load == Some(adopted.request)
            && crate::model::opt(progress.media) == self.current_media
    }

    // ------------------------------------------------------- checkpoints

    /// The position that a sampled one stands for.
    pub open spec fn position_for(self, sampled: Duration) -> Duration {
        match self.outstanding_target {
            Some(target) => target,
            None => sampled,
        }
    }

    /// Whether the current media may be written.
    pub open spec fn writable(self) -> bool {
        self.checkpointable && self.protected is None && self.current_media is Some
    }

    /// With an established position of the current media recorded.
    pub open spec fn established_at(self, position: Duration, now: ClockSample) -> SessionView {
        if self.writable() {
            SessionView {
                state: self.state.recorded(
                    self.current_media.unwrap(),
                    position,
                    now.wall,
                    self.completed,
                ),
                ..self
            }
        } else {
            self
        }
    }

    /// With an estimated position of the current media recorded.
    pub open spec fn estimated_at(self, position: Duration, now: ClockSample) -> SessionView {
        if self.writable() {
            SessionView {
                state: self.state.recorded_estimated(
                    self.current_media.unwrap(),
                    position,
                    now.wall,
                    self.completed,
                ),
                ..self
            }
        } else {
            self
        }
    }

    /// With a position recorded as what it is: established or estimated.
    pub open spec fn positioned(self, position: Duration, now: ClockSample) -> SessionView {
        if self.position_provenance == PositionProvenance::Established {
            self.established_at(position, now)
        } else {
            self.estimated_at(position, now)
        }
    }

    /// Whether a sampled position may be saved: one that the engine never
    /// confirmed may not, nor one that would replace a protected one.
    pub open spec fn capturing(self) -> bool {
        self.checkpointable && self.established && self.protected is None
    }

    /// With a sampled position saved, where it may be.
    pub open spec fn captured(self, sampled: Duration, now: ClockSample) -> SessionView {
        if self.capturing() {
            self.positioned(self.position_for(sampled), now)
        } else {
            self
        }
    }

    /// With the position of the media on its way out saved, where it may be: a
    /// completed one has been saved when it ended.
    pub open spec fn parted(self, now: ClockSample) -> SessionView {
        match self.last_sample {
            Some(sample) => if !self.checkpointable {
                self
            } else {
                let left = SessionView { last_sample: None, ..self };
                let position = self.position_for(sample.position);
                if self.protected is Some || self.completed || !self.established {
                    left
                } else if self.position_provenance == PositionProvenance::Established {
                    SessionView {
                        state: self.state.recorded(sample.media, position, now.wall, false),
                        ..left
                    }
                } else {
                    SessionView {
                        state: self.state.recorded_estimated(
                            sample.media,
                            position,
                            now.wall,
                            false,
                        ),
                        ..left
                    }
                }
            },
            None => self,
        }
    }

    /// With the current position saved: from a live sample, or else from the
    /// last one of this revision.
    pub open spec fn current_captured(self, progress: Progress, now: ClockSample) -> SessionView {
        match self.current_media {
            None => self,
            Some(media) => if self.accepts_sample(progress) {
                (SessionView { position_provenance: progress.provenance, ..self }).captured(
                    progress.position,
                    now,
                )
            } else {
                match self.last_sample {
                    Some(sample) => if sample.session_rev == self.session_rev && sample.media
                        == media {
                        (SessionView { position_provenance: sample.provenance, ..self }).captured(
                            sample.position,
                            now,
                        )
                    } else {
                        self
                    },
                    None => self,
                }
            },
        }
    }

    // ------------------------------------------------------------ events

    /// With `media` loaded and its position still to be confirmed.
    pub open spec fn loaded(
        self,
        media: MediaKey,
        position: Duration,
        disposition: StartDisposition,
        capabilities: MediaCapabilities,
        now: ClockSample,
    ) -> SessionView {
        let left = if self.current_media != Some(media) {
            self.parted(now)
        } else {
            self
        };
        SessionView {
            state: StateView { current_media: Some(media), ..left.state },
            current_media: Some(media),
            completed: left.state.completed_for(media),
            last_sample: Some(
                SampleView {
                    session_rev: self.session_rev,
                    media,
                    position,
                    provenance: PositionProvenance::Established,
                },
            ),
            last_capture: None,
            pending_force: None,
            outstanding_target: None,
            established: false,
            protected: match disposition {
                StartDisposition::ResumeUnavailable { retained } => Some(retained),
                _ => None,
            },
            position_provenance: PositionProvenance::Established,
            checkpointable: capabilities.continuity != Continuity::Indefinite,
            ..left
        }
    }

    /// With a load in charge: its media loaded, its playlist playing, the
    /// cursor on its entry, and what the decoder reported shown. A load that
    /// is for no entry clears the cursor. Submitted where the media, the
    /// playlist or the cursor changed.
    pub open spec fn adopting(
        self,
        request: LoadRequestId,
        target: LoadTarget,
        media: MediaKey,
        position: Duration,
        disposition: StartDisposition,
        update: DisplayView,
        capabilities: MediaCapabilities,
        now: ClockSample,
    ) -> Step {
        let loaded = self.loaded(media, position, disposition, capabilities, now);
        let state = match target {
            LoadTarget::Queue(id) => {
                let playing = match loaded.state.owner_of(id) {
                    Some(owner) => loaded.state.with_playing(owner),
                    None => loaded.state,
                };
                playing.activated(Some(id)).absorbed(id, update)
            },
            LoadTarget::Legacy => loaded.state.activated(None),
        };
        let after = SessionView {
            state,
            adopted: Some(AdoptedLoad { request, target }),
            ..loaded
        };
        let moved = self.current_media != Some(media) || self.state.playing != state.playing
            || self.state.queue().active != state.queue().active;
        (
            after,
            if moved {
                Some(Urgency::Forced)
            } else {
                None
            },
        )
    }

    /// The end of a load: its registration is gone whatever it was. One that
    /// is not known, or that is behind, has no other effect. One that loaded
    /// takes over, or must be stopped; one that did not leaves nothing loaded.
    pub open spec fn load_ended(
        self,
        event: PlaybackEvent,
        request: LoadRequestId,
        now: ClockSample,
    ) -> Step {
        match self.pending_at(request) {
            None => (self, None),
            Some(at) => {
                let left = self.retired(request);
                if event.rev() < self.latest_engine_rev {
                    (left, None)
                } else {
                    match event {
                        PlaybackEvent::Loaded {
                            media,
                            metadata,
                            capabilities,
                            position,
                            disposition,
                            ..
                        } => {
                            let heard = SessionView {
                                latest_engine_rev: event.rev(),
                                last_loaded: Some(request),
                                ..left
                            };
                            if self.accepts(event) {
                                (SessionView { session_rev: event.rev(), ..heard }).adopting(
                                    request,
                                    self.pending[at].target,
                                    media@,
                                    position,
                                    disposition,
                                    metadata.as_update(),
                                    capabilities,
                                    now,
                                )
                            } else {
                                (SessionView { stop_requested: true, ..heard }, None)
                            }
                        },
                        _ => (
                            SessionView {
                                latest_engine_rev: event.rev(),
                                last_loaded: None,
                                ..left
                            },
                            None,
                        ),
                    }
                }
            },
        }
    }

    /// A registered load has begun: until it ends nobody is in charge.
    pub open spec fn loading(self, rev: u64) -> SessionView {
        let begun = SessionView { playback: PlaybackState::Loading, ..self };
        if rev >= self.latest_engine_rev {
            SessionView { latest_engine_rev: rev, last_loaded: None, ..begun }
        } else {
            begun
        }
    }

    /// At a newer revision; a checkpoint that waits now waits for that one.
    pub open spec fn at_rev(self, rev: u64) -> SessionView {
        SessionView {
            latest_engine_rev: rev,
            session_rev: rev,
            pending_force: if self.pending_force is Some {
                Some(rev)
            } else {
                None
            },
            ..self
        }
    }

    /// With the engine confirmed somewhere that it did not end.
    pub open spec fn reestablished(self) -> SessionView {
        SessionView {
            outstanding_target: None,
            established: true,
            completed: false,
            completion_seen: None,
            ..self
        }
    }

    /// In another playback state. Playing establishes; a pause that interrupts
    /// playing and a stop each ask for a checkpoint.
    pub open spec fn in_state(self, state: PlaybackState, now: ClockSample) -> SessionView {
        let after = SessionView { playback: state, ..self };
        if state == PlaybackState::Playing {
            SessionView { last_capture: Some(now.monotonic), ..after.reestablished() }
        } else if state == PlaybackState::Stopped || (state == PlaybackState::Paused
            && self.playback == PlaybackState::Playing) {
            SessionView { pending_force: Some(self.session_rev), ..after }
        } else {
            after
        }
    }

    /// A seek or a restart has landed. Only a confirmed landing lifts the
    /// protection.
    pub open spec fn landed(self, provenance: PositionProvenance) -> SessionView {
        let after = self.reestablished();
        SessionView {
            position_provenance: provenance,
            protected: if provenance == PositionProvenance::Established {
                None
            } else {
                self.protected
            },
            pending_force: Some(self.session_rev),
            ..after
        }
    }

    /// A seek made while stopped: its target is saved as the position, as
    /// established or estimated as the position it was reckoned from.
    pub open spec fn target_stored(self, target: Duration, now: ClockSample) -> SessionView {
        let after = self.reestablished();
        (SessionView { outstanding_target: Some(target), ..after }).positioned(target, now)
    }

    /// The track has ended. It is recorded once, as established or estimated
    /// as its end is, and the next entry is asked for. Only a confirmed end
    /// lifts the protection.
    pub open spec fn ended(
        self,
        position: Duration,
        provenance: PositionProvenance,
        now: ClockSample,
    ) -> Step {
        match self.adopted {
            None => (self, None),
            Some(adopted) => if self.completion_seen == Some((adopted.request, self.session_rev)) {
                (self, None)
            } else {
                let done = SessionView {
                    completion_seen: Some((adopted.request, self.session_rev)),
                    outstanding_target: None,
                    established: true,
                    completed: true,
                    position_provenance: provenance,
                    ..self
                };
                let recorded = if provenance == PositionProvenance::Established {
                    (SessionView { protected: None, ..done }).established_at(position, now)
                } else {
                    done.estimated_at(position, now)
                };
                let after = match adopted.target {
                    LoadTarget::Queue(id) => SessionView {
                        advance: Some(
                            match recorded.state.entry_after(id) {
                                Some(next) => Advance::Next(next),
                                None => Advance::EndOfQueue,
                            },
                        ),
                        ..recorded
                    },
                    LoadTarget::Legacy => recorded,
                };
                (after, Some(Urgency::Forced))
            },
        }
    }

    /// An event of the load in charge.
    pub open spec fn handled(self, event: PlaybackEvent, now: ClockSample) -> Step {
        match event {
            PlaybackEvent::StateChanged { state, .. } => (self.in_state(state, now), None),
            PlaybackEvent::SeekCompleted { provenance, .. } => (self.landed(provenance), None),
            PlaybackEvent::RestartEstablished { provenance, .. } => (self.landed(provenance), None),
            PlaybackEvent::SeekTargetStored { target, .. } => (
                self.target_stored(target, now),
                Some(Urgency::Forced),
            ),
            PlaybackEvent::EndOfTrack { position, provenance, .. } => self.ended(
                position,
                provenance,
                now,
            ),
            PlaybackEvent::CapabilitiesChanged { capabilities, .. } => (
                SessionView {
                    checkpointable: self.checkpointable && capabilities.continuity
                        != Continuity::Indefinite,
                    ..self
                },
                None,
            ),
            _ => (self, None),
        }
    }

    /// Whether an event announces a load that is registered.
    pub open spec fn announces(self, event: PlaybackEvent) -> bool {
        match event {
            PlaybackEvent::StateChanged { state, request, .. } => state == PlaybackState::Loading
                && (request matches Some(request) && self.pending_at(request) is Some),
            _ => false,
        }
    }

    /// One event. The end of a load comes first; then the announcement of one;
    /// a volume is everyone's; and whatever else is only for the load in
    /// charge.
    pub open spec fn observed(self, event: PlaybackEvent, now: ClockSample) -> Step {
        match event.outcome_of() {
            Some(request) => self.load_ended(event, request, now),
            None => if self.announces(event) {
                (self.loading(event.rev()), None)
            } else {
                match event {
                    PlaybackEvent::VolumeChanged { volume, .. } => (
                        SessionView {
                            state: StateView { volume: volume.gain, ..self.state },
                            ..self
                        },
                        Some(Urgency::Ordinary),
                    ),
                    _ => if self.owns(event.rev()) {
                        self.at_rev(event.rev()).handled(event, now)
                    } else {
                        (self, None)
                    },
                }
            },
        }
    }

    // -------------------------------------------------------------- tick

    /// Whether it is time to take a position.
    pub open spec fn due(self, now: ClockSample) -> bool {
        match self.last_capture {
            Some(last) => now.monotonic.since_spec(last) >= CAPTURE_INTERVAL,
            None => true,
        }
    }

    /// One progress snapshot: it is remembered, and saved where a checkpoint
    /// waits for it, or where it is time while playing.
    pub open spec fn ticked(self, progress: Progress, now: ClockSample) -> Step {
        if !self.accepts_sample(progress) || self.current_media is None {
            (self, None)
        } else {
            let sampled = SessionView {
                last_sample: Some(
                    SampleView {
                        session_rev: progress.session_rev,
                        media: self.current_media.unwrap(),
                        position: progress.position,
                        provenance: progress.provenance,
                    },
                ),
                position_provenance: progress.provenance,
                ..self
            };
            if self.pending_force == Some(progress.session_rev) {
                let answered = SessionView { pending_force: None, ..sampled };
                if answered.capturing() {
                    (
                        SessionView {
                            last_capture: Some(now.monotonic),
                            ..answered.captured(progress.position, now)
                        },
                        Some(Urgency::Forced),
                    )
                } else {
                    (answered, None)
                }
            } else if self.playback == PlaybackState::Playing && self.due(now)
                && sampled.capturing() {
                (
                    SessionView {
                        last_capture: Some(now.monotonic),
                        ..sampled.captured(progress.position, now)
                    },
                    Some(Urgency::Ordinary),
                )
            } else {
                (sampled, None)
            }
        }
    }

    // ------------------------------------------------------------- queue

    /// Whether the load in charge is for the entry `id`.
    pub open spec fn owns_entry(self, id: QueueEntryId) -> bool {
        self.adopted matches Some(adopted) && adopted.target == LoadTarget::Queue(id)
    }

    /// Whether the load in charge is for an entry of the playlist `id`.
    pub open spec fn owns_playlist(self, id: PlaylistId) -> bool {
        self.adopted matches Some(adopted) && (adopted.target matches LoadTarget::Queue(entry)
            && self.state.owner_of(entry) == Some(id))
    }

    /// With every load into one of `ids` barred from taking over.
    pub open spec fn barred(self, ids: Seq<QueueEntryId>) -> SessionView {
        SessionView {
            pending: self.pending.map_values(
                |load: PendingView|
                    if load.target matches LoadTarget::Queue(id) && ids.contains(id) {
                        PendingView { invalidated: true, ..load }
                    } else {
                        load
                    },
            ),
            ..self
        }
    }

    /// With the load in charge let go, its position saved where it may be.
    pub open spec fn released(self, progress: Progress, now: ClockSample) -> SessionView {
        SessionView { adopted: None, last_sample: None, ..self.current_captured(progress, now) }
    }

    /// Without the entry `id`, wherever it is queued.
    pub open spec fn without_entry(
        self,
        id: QueueEntryId,
        progress: Progress,
        now: ClockSample,
    ) -> SessionView {
        let barred = self.barred(seq![id]);
        let left = if self.owns_entry(id) {
            barred.released(progress, now)
        } else {
            barred
        };
        match left.state.owner_index(id) {
            Some(at) => SessionView {
                state: left.state.with_queue(at, left.state.playlists[at].queue.removed(id)),
                ..left
            },
            None => left,
        }
    }

    /// With nothing under way into the playlist `id`, and playback let go if
    /// it is in charge.
    pub open spec fn vacated(self, id: PlaylistId, progress: Progress, now: ClockSample) -> SessionView {
        let barred = self.barred(
            match self.state.playlist(id) {
                Some(playlist) => playlist.queue.ids(),
                None => Seq::empty(),
            },
        );
        if self.owns_playlist(id) {
            barred.released(progress, now)
        } else {
            barred
        }
    }

    /// With the playlist `id` empty.
    pub open spec fn cleared(self, id: PlaylistId, progress: Progress, now: ClockSample) -> SessionView {
        let left = self.vacated(id, progress, now);
        match left.state.index_of(id) {
            Some(at) => SessionView { state: left.state.with_queue(at, QueueView::empty()), ..left },
            None => left,
        }
    }

    /// Without the playlist `id`.
    pub open spec fn deleted(self, id: PlaylistId, progress: Progress, now: ClockSample) -> SessionView {
        let left = self.vacated(id, progress, now);
        match left.state.index_of(id) {
            Some(at) => SessionView { state: left.state.without_playlist(at), ..left },
            None => left,
        }
    }

    /// With `batch` queued; a shuffle begins again at its cursor, so that
    /// nothing new lands behind it.
    pub open spec fn enqueued(self, at: int, batch: Seq<NewEntryView>) -> SessionView {
        let longer = self.state.enqueued(at, batch);
        SessionView {
            state: if batch.len() > 0 {
                longer.reshuffled(at)
            } else {
                longer
            },
            ..self
        }
    }

    /// All events that were left, one after the other.
    pub open spec fn observed_all(self, events: Seq<PlaybackEvent>, count: int, now: ClockSample) -> SessionView
        decreases count,
    {
        if count <= 0 {
            self
        } else {
            self.observed_all(events, count - 1, now).observed(events[count - 1], now).0
        }
    }

    /// What always holds of a session: the state it saves is whole and can be
    /// read back, and its loads are under way under tokens of their own.
    pub open spec fn wf(self) -> bool {
        &&& self.state.whole()
        &&& self.pending.len() <= MAX_PENDING_LOADS
        &&& forall|i: int, j: int|
            0 <= i < j < self.pending.len() ==> #[trigger] self.pending[i].request.raw
                < #[trigger] self.pending[j].request.raw
        &&& forall|i: int|
            0 <= i < self.pending.len() ==> (#[trigger] self.pending[i]).request.raw
                <= self.next_request
    }
}

// ---------------------------------------------------------------- execution

/// Whether two media that may be absent are the same.
fn same_media(a: &Option<MediaId>, b: &Option<MediaId>) -> (same: bool)
    ensures
        same == (crate::model::opt(*a) == crate::model::opt(*b)),
{
    match (a, b) {
        (Some(a), Some(b)) => a.same(b),
        (None, None) => true,
        _ => false,
    }
}

impl Session {
    pub fn new(state: PersistedState) -> (session: Self)
        requires
            state@.whole(),
        ensures
            session@ == SessionView::begun(state@),
            session@.wf(),
    {
        Session {
            state,
            session_rev: 0,
            playback: PlaybackState::Idle,
            current_media: None,
            completed: false,
            last_sample: None,
            last_capture: None,
            pending_force: None,
            outstanding_target: None,
            established: false,
            protected: None,
            position_provenance: PositionProvenance::Established,
            next_request: 0,
            pending: Vec::new(),
            adopted: None,
            latest_engine_rev: 0,
            last_loaded: None,
            stop_requested: false,
            advance: None,
            completion_seen: None,
            checkpointable: true,
        }
    }

    /// The state as it stands.
    pub fn state(&self) -> (state: &PersistedState)
        ensures
            state@ == self@.state,
    {
        &self.state
    }

    fn submit(&self, urgency: Urgency) -> (action: Action)
        ensures
            action@ == self@.submission(Some(urgency)),
    {
        Action::Submit { state: self.state.clone(), urgency }
    }

    // ------------------------------------------------------------- loads

    fn pending_at(&self, request: LoadRequestId) -> (found: Option<usize>)
        ensures
            match found {
                Some(at) => self@.pending_at(request) == Some(at as int) && at
                    < self.pending@.len(),
                None => self@.pending_at(request) is None,
            },
    {
        let ghost views = self@.pending;
        let mut at: usize = 0;
        while at < self.pending.len()
            invariant
                at <= self.pending@.len(),
                views == crate::model::seq(self.pending@),
                crate::model::position(views, pending_is(request), 0) == crate::model::position(
                    views,
                    pending_is(request),
                    at as int,
                ),
            decreases self.pending@.len() - at,
        {
            assert(views[at as int] == self.pending@[at as int]@);
            if self.pending[at].request == request {
                return Some(at);
            }
            at += 1;
        }
        None
    }

    /// Hands out a token for a load that is about to be sent, and remembers
    /// what it is for.
    pub fn register_load(&mut self, target: LoadTarget, media: &MediaId) -> (made: Result<
        LoadRequestId,
        RegisterLoadError,
    >)
        requires
            old(self)@.wf(),
            old(self)@.next_request < u64::MAX,
        ensures
            final(self)@.wf(),
            match made {
                Ok(request) => old(self)@.refusal(target, media@) is None && request.raw == old(
                    self)@.next_request + 1 && final(self)@ == old(self)@.registered(target, media@),
                Err(error) => old(self)@.refusal(target, media@) == Some(error) && final(self)@
                    == old(self)@,
            },
    {
        if self.pending.len() >= MAX_PENDING_LOADS {
            return Err(RegisterLoadError::Busy);
        }
        if let LoadTarget::Queue(id) = target {
            match self.state.find_entry(id) {
                None => return Err(RegisterLoadError::UnknownEntry),
                Some(entry) => {
                    if !entry.media().same(media) {
                        return Err(RegisterLoadError::MediaMismatch);
                    }
                },
            }
        }
        self.next_request = self.next_request + 1;
        let request = LoadRequestId::from_raw(self.next_request);
        self.pending.push(
            PendingLoad { request, target, media: media.clone(), invalidated: false },
        );
        proof {
            let before = old(self)@;
            assert forall|i: int, j: int|
                0 <= i < j < self@.pending.len() implies #[trigger] self@.pending[i].request.raw
                < #[trigger] self@.pending[j].request.raw by {
                assert(self@.pending[i] == before.pending[i]);
                if j < before.pending.len() {
                    assert(self@.pending[j] == before.pending[j]);
                }
            }
        }
        Ok(request)
    }

    /// Drops a registration that was never sent, or is no longer needed.
    pub fn retract_load(&mut self, request: LoadRequestId)
        ensures
            final(self)@ == old(self)@.retired(request),
            old(self)@.wf() ==> final(self)@.wf(),
    {
        proof {
            if self@.wf() {
                crate::session_laws::retiring_keeps_wf(self@, request);
            }
        }
        if let Some(at) = self.pending_at(request) {
            let _ = self.pending.remove(at);
        }
    }

    pub fn pending_load_count(&self) -> (count: usize)
        ensures
            count == self@.pending.len(),
    {
        self.pending.len()
    }

    pub fn adopted(&self) -> (adopted: Option<AdoptedLoad>)
        ensures
            adopted == self@.adopted,
    {
        self.adopted
    }

    fn registered_target(&self, request: LoadRequestId, media: &MediaId) -> (target: Option<
        LoadTarget,
    >)
        ensures
            target == self@.registered_target(request, media@),
    {
        let at: usize = match self.pending_at(request) {
            Some(at) => at,
            None => return None,
        };
        assert(self@.pending[at as int] == self.pending@[at as int]@);
        if self.pending[at].invalidated || !self.pending[at].media.same(media) {
            return None;
        }
        let target = self.pending[at].target;
        match target {
            LoadTarget::Queue(id) => match self.state.find_entry(id) {
                Some(entry) => if entry.media().same(media) {
                    Some(target)
                } else {
                    None
                },
                None => None,
            },
            LoadTarget::Legacy => Some(target),
        }
    }

    fn owns_adopted(&self, rev: u64) -> (owned: bool)
        ensures
            owned == self@.owns(rev),
    {
        match self.adopted {
            Some(adopted) => self.last_loaded == Some(adopted.request) && rev
                >= self.latest_engine_rev,
            None => false,
        }
    }

    /// Whether the session will act on `event`.
    pub fn accepts_media_event(&self, event: &PlaybackEvent) -> (accepted: bool)
        ensures
            accepted == self@.accepts(*event),
    {
        match event {
            PlaybackEvent::Loaded { request, media, .. } => event.session_rev()
                >= self.latest_engine_rev && self.registered_target(*request, media).is_some(),
            PlaybackEvent::VolumeChanged { .. } => true,
            _ => self.owns_adopted(event.session_rev()),
        }
    }

    fn accepts_live_sample(&self, progress: &Progress) -> (accepted: bool)
        ensures
            accepted == self@.accepts_sample(*progress),
    {
        match self.adopted {
            Some(adopted) => self.last_loaded == Some(adopted.request) && progress.session_rev
                == self.session_rev && progress.load == Some(adopted.request) && same_media(
                &progress.media,
                &self.current_media,
            ),
            None => false,
        }
    }

    /// Whether playback must be stopped; asking clears it.
    pub fn take_stop_request(&mut self) -> (stop: bool)
        ensures
            stop == old(self)@.stop_requested,
            final(self)@ == (SessionView { stop_requested: false, ..old(self)@ }),
    {
        let stop: bool = self.stop_requested;
        self.stop_requested = false;
        stop
    }

    /// What is to be played next; asking clears it.
    pub fn take_advance(&mut self) -> (advance: Option<Advance>)
        ensures
            advance == old(self)@.advance,
            final(self)@ == (SessionView { advance: None, ..old(self)@ }),
    {
        let advance = self.advance;
        self.advance = None;
        advance
    }

    // ------------------------------------------------------- checkpoints

    fn position_for(&self, sampled: Duration) -> (position: Duration)
        ensures
            position == self@.position_for(sampled),
    {
        match self.outstanding_target {
            Some(target) => target,
            None => sampled,
        }
    }

    fn record_current(&mut self, position: Duration, now: ClockSample)
        ensures
            final(self)@ == old(self)@.established_at(position, now),
    {
        if !self.checkpointable || self.protected.is_some() {
            return;
        }
        let media = match &self.current_media {
            Some(media) => media.clone(),
            None => return,
        };
        self.state.record(
            &PlaybackCheckpoint { media, position, updated_at: now.wall },
            self.completed,
        );
    }

    fn record_current_estimated(&mut self, position: Duration, now: ClockSample)
        ensures
            final(self)@ == old(self)@.estimated_at(position, now),
    {
        if !self.checkpointable || self.protected.is_some() {
            return;
        }
        let media = match &self.current_media {
            Some(media) => media.clone(),
            None => return,
        };
        self.state.record_estimated(media, position, now.wall, self.completed);
    }

    fn record_position(&mut self, position: Duration, now: ClockSample)
        ensures
            final(self)@ == old(self)@.positioned(position, now),
    {
        if self.position_provenance == PositionProvenance::Established {
            self.record_current(position, now);
        } else {
            self.record_current_estimated(position, now);
        }
    }

    /// Saves a position that came from a snapshot, where that is allowed. Says
    /// whether it was.
    fn checkpoint_from_progress(&mut self, sampled: Duration, now: ClockSample) -> (saved: bool)
        ensures
            saved == old(self)@.capturing(),
            final(self)@ == old(self)@.captured(sampled, now),
    {
        if !self.checkpointable || !self.established || self.protected.is_some() {
            return false;
        }
        let position = self.position_for(sampled);
        self.record_position(position, now);
        true
    }

    fn record_outgoing(&mut self, now: ClockSample)
        ensures
            final(self)@ == old(self)@.parted(now),
    {
        if !self.checkpointable {
            return;
        }
        let previous = match self.last_sample.take() {
            Some(previous) => previous,
            None => return,
        };
        if self.protected.is_some() || self.completed || !self.established {
            return;
        }
        let position = self.position_for(previous.position);
        if self.position_provenance == PositionProvenance::Established {
            self.state.record(
                &PlaybackCheckpoint { media: previous.media, position, updated_at: now.wall },
                false,
            );
        } else {
            self.state.record_estimated(previous.media, position, now.wall, false);
        }
    }

    fn capture_current(&mut self, progress: &Progress, now: ClockSample)
        ensures
            final(self)@ == old(self)@.current_captured(*progress, now),
    {
        let known = match &self.current_media {
            Some(media) => match &self.last_sample {
                Some(sample) => if sample.session_rev == self.session_rev && sample.media.same(
                    media,
                ) {
                    Some((sample.position, sample.provenance))
                } else {
                    None
                },
                None => None,
            },
            None => return,
        };
        let sampled = if self.accepts_live_sample(progress) {
            Some((progress.position, progress.provenance))
        } else {
            known
        };
        if let Some((position, provenance)) = sampled {
            self.position_provenance = provenance;
            let _ = self.checkpoint_from_progress(position, now);
        }
    }

    // ------------------------------------------------------------ events

    /// Takes `media` as loaded. Says whether it is another one than before.
    fn on_loaded(
        &mut self,
        media: &MediaId,
        position: Duration,
        disposition: StartDisposition,
        capabilities: MediaCapabilities,
        now: ClockSample,
    ) -> (switched: bool)
        ensures
            switched == (old(self)@.current_media != Some(media@)),
            final(self)@ == old(self)@.loaded(media@, position, disposition, capabilities, now),
    {
        let switching = match &self.current_media {
            Some(current) => !current.same(media),
            None => true,
        };
        if switching {
            self.record_outgoing(now);
        }
        self.pending_force = None;
        self.outstanding_target = None;
        self.established = false;
        self.last_capture = None;
        self.position_provenance = PositionProvenance::Established;
        self.protected = match disposition {
            StartDisposition::ResumeUnavailable { retained } => Some(retained),
            _ => None,
        };
        self.completed = self.state.completed_for(media);
        self.current_media = Some(media.clone());
        self.state.set_current_media(media.clone());
        self.last_sample = Some(
            Sample {
                session_rev: self.session_rev,
                media: media.clone(),
                position,
                provenance: PositionProvenance::Established,
            },
        );
        self.checkpointable = capabilities.continuity != Continuity::Indefinite;
        switching
    }

    fn adopt_loaded(
        &mut self,
        request: LoadRequestId,
        target: LoadTarget,
        media: &MediaId,
        position: Duration,
        disposition: StartDisposition,
        metadata: &MediaMetadata,
        capabilities: MediaCapabilities,
        now: ClockSample,
    ) -> (action: Action)
        requires
            old(self)@.state.playlists.len() > 0,
        ensures
            ({
                let step = old(self)@.adopting(
                    request,
                    target,
                    media@,
                    position,
                    disposition,
                    metadata.as_update(),
                    capabilities,
                    now,
                );
                &&& final(self)@ == step.0
                &&& action@ == step.0.submission(step.1)
            }),
    {
        let playing = self.state.playing();
        let active = self.state.queue().active();
        let switched: bool = self.on_loaded(media, position, disposition, capabilities, now);
        proof {
            old(self)@.loaded_keeps_playlists(media@, position, disposition, capabilities, now);
        }
        match target {
            LoadTarget::Queue(id) => {
                if let Some(owner) = self.state.owner_of(id) {
                    self.state.set_playing(owner);
                }
                proof {
                    crate::persistence::laws::found_playlist(self@.state, self@.state.playing);
                }
                self.state.activate(Some(id));
                proof {
                    crate::persistence::laws::found_owner(self@.state, id);
                }
                self.state.absorb(id, metadata);
            },
            LoadTarget::Legacy => {
                proof {
                    crate::persistence::laws::found_playlist(self@.state, self@.state.playing);
                }
                self.state.activate(None);
            },
        }
        self.adopted = Some(AdoptedLoad { request, target });
        if switched || playing != self.state.playing() || active != self.state.queue().active() {
            self.submit(Urgency::Forced)
        } else {
            Action::Nothing
        }
    }

    fn on_load_ended(&mut self, event: &PlaybackEvent, request: LoadRequestId, now: ClockSample) -> (action: Action)
        requires
            old(self)@.state.playlists.len() > 0,
            event.outcome_of() == Some(request),
        ensures
            ({
                let step = old(self)@.load_ended(*event, request, now);
                &&& final(self)@ == step.0
                &&& action@ == step.0.submission(step.1)
            }),
    {
        let accepted: bool = self.accepts_media_event(event);
        let at: usize = match self.pending_at(request) {
            Some(at) => at,
            None => return Action::Nothing,
        };
        assert(self@.pending[at as int] == self.pending@[at as int]@);
        let pending = self.pending.remove(at);
        let rev: u64 = event.session_rev();
        if rev < self.latest_engine_rev {
            return Action::Nothing;
        }
        match event {
            PlaybackEvent::Loaded { media, position, disposition, metadata, capabilities, .. } => {
                self.latest_engine_rev = rev;
                self.last_loaded = Some(request);
                if accepted {
                    self.session_rev = rev;
                    self.adopt_loaded(
                        request,
                        pending.target,
                        media,
                        *position,
                        *disposition,
                        metadata,
                        *capabilities,
                        now,
                    )
                } else {
                    self.stop_requested = true;
                    Action::Nothing
                }
            },
            _ => {
                self.latest_engine_rev = rev;
                self.last_loaded = None;
                Action::Nothing
            },
        }
    }

    fn on_state(&mut self, state: PlaybackState, now: ClockSample)
        ensures
            final(self)@ == old(self)@.in_state(state, now),
    {
        let previous = self.playback;
        self.playback = state;
        match state {
            PlaybackState::Playing => {
                self.reestablish();
                self.last_capture = Some(now.monotonic);
            },
            PlaybackState::Paused => {
                if previous == PlaybackState::Playing {
                    self.pending_force = Some(self.session_rev);
                }
            },
            PlaybackState::Stopped => {
                self.pending_force = Some(self.session_rev);
            },
            _ => {},
        }
    }

    fn reestablish(&mut self)
        ensures
            final(self)@ == old(self)@.reestablished(),
    {
        self.outstanding_target = None;
        self.established = true;
        self.completed = false;
        self.completion_seen = None;
    }

    fn on_landed(&mut self, provenance: PositionProvenance)
        ensures
            final(self)@ == old(self)@.landed(provenance),
    {
        self.reestablish();
        self.position_provenance = provenance;
        if provenance == PositionProvenance::Established {
            self.protected = None;
        }
        self.pending_force = Some(self.session_rev);
    }

    fn on_ended(&mut self, position: Duration, provenance: PositionProvenance, now: ClockSample) -> (action: Action)
        ensures
            ({
                let step = old(self)@.ended(position, provenance, now);
                &&& final(self)@ == step.0
                &&& action@ == step.0.submission(step.1)
            }),
    {
        let adopted = match self.adopted {
            Some(adopted) => adopted,
            None => return Action::Nothing,
        };
        if let Some((request, rev)) = self.completion_seen {
            if request == adopted.request && rev == self.session_rev {
                return Action::Nothing;
            }
        }
        self.completion_seen = Some((adopted.request, self.session_rev));
        self.outstanding_target = None;
        self.established = true;
        self.completed = true;
        self.position_provenance = provenance;
        if provenance == PositionProvenance::Established {
            self.protected = None;
            self.record_current(position, now);
        } else {
            self.record_current_estimated(position, now);
        }
        if let LoadTarget::Queue(id) = adopted.target {
            self.advance = Some(
                match self.state.entry_after(id) {
                    Some(next) => Advance::Next(next),
                    None => Advance::EndOfQueue,
                },
            );
        }
        self.submit(Urgency::Forced)
    }

    fn handle(&mut self, event: &PlaybackEvent, now: ClockSample) -> (action: Action)
        ensures
            ({
                let step = old(self)@.handled(*event, now);
                &&& final(self)@ == step.0
                &&& action@ == step.0.submission(step.1)
            }),
    {
        match event {
            PlaybackEvent::StateChanged { state, .. } => {
                self.on_state(*state, now);
                Action::Nothing
            },
            PlaybackEvent::SeekCompleted { provenance, .. } => {
                self.on_landed(*provenance);
                Action::Nothing
            },
            PlaybackEvent::RestartEstablished { provenance, .. } => {
                self.on_landed(*provenance);
                Action::Nothing
            },
            PlaybackEvent::SeekTargetStored { target, .. } => {
                self.reestablish();
                self.outstanding_target = Some(*target);
                self.record_position(*target, now);
                self.submit(Urgency::Forced)
            },
            PlaybackEvent::EndOfTrack { position, provenance, .. } => self.on_ended(
                *position,
                *provenance,
                now,
            ),
            PlaybackEvent::CapabilitiesChanged { capabilities, .. } => {
                if capabilities.continuity == Continuity::Indefinite {
                    self.checkpointable = false;
                }
                Action::Nothing
            },
            _ => Action::Nothing,
        }
    }

    /// Takes one event of the engine, and says what is to be saved.
    pub fn observe(&mut self, event: &PlaybackEvent, now: ClockSample) -> (action: Action)
        requires
            old(self)@.wf(),
        ensures
            ({
                let step = old(self)@.observed(*event, now);
                &&& final(self)@ == step.0
                &&& action@ == step.0.submission(step.1)
            }),
            final(self)@.wf(),
    {
        proof {
            crate::session_laws::observing_keeps_wf(self@, *event, now);
        }
        if let Some(request) = event.load_outcome() {
            return self.on_load_ended(event, request, now);
        }
        let rev: u64 = event.session_rev();
        if let PlaybackEvent::StateChanged { state, request, .. } = event {
            if let Some(request) = request {
                if *state == PlaybackState::Loading && self.pending_at(*request).is_some() {
                    self.playback = PlaybackState::Loading;
                    if rev >= self.latest_engine_rev {
                        self.latest_engine_rev = rev;
                        self.last_loaded = None;
                    }
                    return Action::Nothing;
                }
            }
        }
        if let PlaybackEvent::VolumeChanged { volume, .. } = event {
            self.state.set_volume(*volume);
            return self.submit(Urgency::Ordinary);
        }
        if !self.owns_adopted(rev) {
            return Action::Nothing;
        }
        self.latest_engine_rev = rev;
        self.session_rev = rev;
        if self.pending_force.is_some() {
            self.pending_force = Some(rev);
        }
        self.handle(event, now)
    }

    /// Takes one snapshot, and says what is to be saved.
    pub fn tick(&mut self, progress: &Progress, now: ClockSample) -> (action: Action)
        requires
            old(self)@.wf(),
        ensures
            ({
                let step = old(self)@.ticked(*progress, now);
                &&& final(self)@ == step.0
                &&& action@ == step.0.submission(step.1)
            }),
            final(self)@.wf(),
    {
        proof {
            crate::session_laws::ticking_keeps_wf(self@, *progress, now);
        }
        if !self.accepts_live_sample(progress) {
            return Action::Nothing;
        }
        let media = match &self.current_media {
            Some(media) => media.clone(),
            None => return Action::Nothing,
        };
        self.last_sample = Some(
            Sample {
                session_rev: progress.session_rev,
                media,
                position: progress.position,
                provenance: progress.provenance,
            },
        );
        self.position_provenance = progress.provenance;
        if self.pending_force == Some(progress.session_rev) {
            self.pending_force = None;
            if !self.checkpoint_from_progress(progress.position, now) {
                return Action::Nothing;
            }
            self.last_capture = Some(now.monotonic);
            return self.submit(Urgency::Forced);
        }
        if self.playback != PlaybackState::Playing {
            return Action::Nothing;
        }
        let due = match self.last_capture {
            Some(last) => now.monotonic.since(last).nanos >= CAPTURE_INTERVAL,
            None => true,
        };
        if !due {
            return Action::Nothing;
        }
        if !self.checkpoint_from_progress(progress.position, now) {
            return Action::Nothing;
        }
        self.last_capture = Some(now.monotonic);
        self.submit(Urgency::Ordinary)
    }
}

// -------------------------------------------------------------------- queue

impl Session {
    /// Queues `batch` in `dest`, all of it or nothing. A shuffle begins again
    /// at its cursor, so that nothing new lands behind it.
    pub fn enqueue(&mut self, dest: PlaylistId, batch: Vec<NewQueueEntry>) -> (made: Result<
        (Vec<QueueEntryId>, Action),
        QueueError,
    >)
        requires
            old(self)@.wf(),
        ensures
            final(self)@.wf(),
            match made {
                Ok((ids, action)) => old(self)@.state.index_of(dest) matches Some(at) && old(
                    self)@.state.total() + batch@.len() <= MAX_PLAYLIST_ENTRIES && old(
                    self)@.state.entry_ids.has(batch@.len()) && ids@ == Seq::new(
                    batch@.len(),
                    |i: int|
                        QueueEntryId { raw: (old(self)@.state.entry_ids.first() + i) as u64 },
                ) && final(self)@ == old(self)@.enqueued(at, crate::model::seq(batch@))
                    && action@ == final(self)@.submission(Some(Urgency::Ordinary)),
                Err(error) => final(self)@ == old(self)@ && match error {
                    QueueError::UnknownPlaylist(raw) => old(self)@.state.index_of(dest) is None
                        && raw == dest.raw,
                    QueueError::Capacity { requested, available } => old(
                        self)@.state.has_playlist(dest) && requested == batch@.len() && available
                        == MAX_PLAYLIST_ENTRIES - old(self)@.state.total() && requested
                        > available,
                    QueueError::IdExhausted => old(self)@.state.has_playlist(dest) && old(
                        self)@.state.total() + batch@.len() <= MAX_PLAYLIST_ENTRIES && !old(
                        self)@.state.entry_ids.has(batch@.len()),
                    _ => false,
                },
            },
    {
        let ghost before = self@;
        let ghost views = crate::model::seq(batch@);
        let some: bool = batch.len() > 0;
        let ids = match self.state.enqueue(dest, batch) {
            Ok(ids) => ids,
            Err(error) => return Err(error),
        };
        proof {
            crate::persistence::laws::found_playlist(before.state, dest);
            let at = before.state.index_of(dest).unwrap();
            crate::session_laws::enqueuing_keeps_whole(before.state, at, views);
            crate::persistence::laws::enqueuing_keeps_wf(before.state, at, views);
            assert(self@.state.playlists[at].id == dest);
            crate::persistence::laws::playlist_is_found(self@.state, at);
        }
        if some {
            self.state.reshuffle(dest);
        }
        let action = self.submit(Urgency::Ordinary);
        Ok((ids, action))
    }

    /// Creates an empty playlist.
    pub fn create_playlist(&mut self, name: &str) -> (made: Result<
        (PlaylistId, Action),
        PlaylistError,
    >)
        requires
            old(self)@.wf(),
        ensures
            final(self)@.wf(),
            match made {
                Ok((id, action)) => crate::playlist::cleaned(name@) matches Some(name) && old(
                    self)@.state.playlists.len() < crate::playlist::MAX_PLAYLISTS && old(
                    self)@.state.playlist_ids.has(1) && id.raw == old(
                    self)@.state.playlist_ids.first() && final(self)@ == (SessionView {
                    state: old(self)@.state.created(name),
                    ..old(self)@
                }) && action@ == final(self)@.submission(Some(Urgency::Ordinary)),
                Err(error) => final(self)@ == old(self)@ && match error {
                    PlaylistError::InvalidName => crate::playlist::cleaned(name@) is None,
                    PlaylistError::TooMany => crate::playlist::cleaned(name@) is Some && old(
                        self)@.state.playlists.len() >= crate::playlist::MAX_PLAYLISTS,
                    PlaylistError::IdExhausted => crate::playlist::cleaned(name@) is Some && old(
                        self)@.state.playlists.len() < crate::playlist::MAX_PLAYLISTS && !old(
                        self)@.state.playlist_ids.has(1),
                    _ => false,
                },
            },
    {
        let ghost before = self@;
        match self.state.create_playlist(name) {
            Ok(id) => {
                proof {
                    crate::playlist::cleaning_is_stable(name@);
                    crate::session_laws::creating_keeps_whole(
                        before.state,
                        crate::playlist::cleaned(name@).unwrap(),
                    );
                }
                let action = self.submit(Urgency::Ordinary);
                Ok((id, action))
            },
            Err(error) => Err(error),
        }
    }

    /// Renames a playlist.
    pub fn rename_playlist(&mut self, id: PlaylistId, name: &str) -> (done: Result<
        Action,
        PlaylistError,
    >)
        requires
            old(self)@.wf(),
        ensures
            final(self)@.wf(),
            match done {
                Ok(action) => crate::playlist::cleaned(name@) matches Some(name) && (old(
                    self)@.state.index_of(id) matches Some(at) && final(self)@ == (SessionView {
                    state: old(self)@.state.renamed(at, name),
                    ..old(self)@
                })) && action@ == final(self)@.submission(Some(Urgency::Ordinary)),
                Err(error) => final(self)@ == old(self)@ && match error {
                    PlaylistError::InvalidName => crate::playlist::cleaned(name@) is None,
                    PlaylistError::Unknown(unknown) => unknown == id && crate::playlist::cleaned(
                        name@,
                    ) is Some && old(self)@.state.index_of(id) is None,
                    _ => false,
                },
            },
    {
        let ghost before = self@;
        match self.state.rename_playlist(id, name) {
            Ok(_) => {
                proof {
                    crate::playlist::cleaning_is_stable(name@);
                    crate::persistence::laws::found_playlist(before.state, id);
                    let at = before.state.index_of(id).unwrap();
                    let name = crate::playlist::cleaned(name@).unwrap();
                    crate::session_laws::changing_order_keeps_whole(
                        before.state,
                        at,
                        PlaylistView { name, ..before.state.playlists[at] },
                    );
                }
                Ok(self.submit(Urgency::Ordinary))
            },
            Err(error) => Err(error),
        }
    }

    /// Turns shuffle on, the playlist's own cursor first, or off. What plays
    /// goes on playing.
    pub fn set_shuffle(&mut self, id: PlaylistId, seed: Option<u64>) -> (done: Result<
        Action,
        PlaylistError,
    >)
        requires
            old(self)@.wf(),
        ensures
            final(self)@.wf(),
            match done {
                Ok(action) => (old(self)@.state.index_of(id) matches Some(at) && final(self)@ == (
                SessionView {
                    state: old(self)@.state.with_playlist(
                        at,
                        old(self)@.state.playlists[at].shuffled(seed),
                    ),
                    ..old(self)@
                })) && action@ == final(self)@.submission(Some(Urgency::Ordinary)),
                Err(error) => old(self)@.state.index_of(id) is None && final(self)@ == old(self)@
                    && error == PlaylistError::Unknown(id),
            },
    {
        let ghost before = self@;
        match self.state.set_shuffle(id, seed) {
            Ok(_) => {
                proof {
                    crate::persistence::laws::found_playlist(before.state, id);
                    let at = before.state.index_of(id).unwrap();
                    assert(before.state.playlists[at].wf());
                    crate::session_laws::changing_order_keeps_whole(
                        before.state,
                        at,
                        before.state.playlists[at].shuffled(seed),
                    );
                }
                Ok(self.submit(Urgency::Ordinary))
            },
            Err(error) => Err(error),
        }
    }

    /// Moves an entry one step. Nothing is submitted where it is at that edge.
    pub fn move_entry(&mut self, id: QueueEntryId, direction: Direction) -> (done: Result<
        Action,
        QueueError,
    >)
        requires
            old(self)@.wf(),
        ensures
            final(self)@.wf(),
            match done {
                Ok(action) => old(self)@.state.owner_index(id) matches Some(at) && final(self)@ == (
                SessionView {
                    state: old(self)@.state.with_queue(
                        at,
                        old(self)@.state.playlists[at].queue.moved(id, direction),
                    ),
                    ..old(self)@
                }) && action@ == final(self)@.submission(
                    if old(self)@.state.playlists[at].queue.can_move(id, direction) {
                        Some(Urgency::Ordinary)
                    } else {
                        None
                    },
                ),
                Err(error) => old(self)@.state.owner_index(id) is None && final(self)@ == old(self)@
                    && error == QueueError::UnknownEntry(id),
            },
    {
        proof {
            crate::session_laws::moving_keeps_whole(self@.state, id, direction);
        }
        match self.state.move_entry(id, direction) {
            Ok(moved) => if moved {
                Ok(self.submit(Urgency::Ordinary))
            } else {
                Ok(Action::Nothing)
            },
            Err(error) => Err(error),
        }
    }

    /// Whether the load in charge is for the entry `id`. A cursor is only a
    /// place that is remembered.
    pub fn owns_entry(&self, id: QueueEntryId) -> (owned: bool)
        ensures
            owned == self@.owns_entry(id),
    {
        match self.adopted {
            Some(adopted) => adopted.target == LoadTarget::Queue(id),
            None => false,
        }
    }

    /// Whether the load in charge is for an entry of the playlist `id`.
    pub fn owns_playlist(&self, id: PlaylistId) -> (owned: bool)
        ensures
            owned == self@.owns_playlist(id),
    {
        match self.adopted {
            Some(adopted) => match adopted.target {
                LoadTarget::Queue(entry) => self.state.owner_of(entry) == Some(id),
                LoadTarget::Legacy => false,
            },
            None => false,
        }
    }

    fn invalidate_pending(&mut self, ids: &Vec<QueueEntryId>)
        ensures
            final(self)@ == old(self)@.barred(ids@),
    {
        let ghost before = self@;
        let ghost after = self@.barred(ids@);
        let mut at: usize = 0;
        while at < self.pending.len()
            invariant
                at <= self.pending@.len(),
                after == before.barred(ids@),
                self@ == (SessionView { pending: self@.pending, ..before }),
                self@.pending.len() == before.pending.len() == after.pending.len(),
                forall|i: int| 0 <= i < at ==> self@.pending[i] == after.pending[i],
                forall|i: int|
                    at <= i < self@.pending.len() ==> self@.pending[i] == before.pending[i],
            decreases self.pending@.len() - at,
        {
            assert(self@.pending[at as int] == self.pending@[at as int]@);
            if let LoadTarget::Queue(id) = self.pending[at].target {
                if holds_id(ids, id) {
                    self.pending[at].invalidated = true;
                    assert(self@.pending[at as int] == self.pending@[at as int]@);
                }
            }
            at += 1;
        }
        proof {
            assert(self@ =~= after);
        }
    }

    fn release_active(&mut self, progress: &Progress, now: ClockSample)
        ensures
            final(self)@ == old(self)@.released(*progress, now),
    {
        self.capture_current(progress, now);
        self.adopted = None;
        self.last_sample = None;
    }

    /// Removes one entry, wherever it is queued. A load under way for it is
    /// barred from taking over; playback is let go only where the entry is the
    /// one in charge, and its position is then saved.
    pub fn remove_entry(&mut self, id: QueueEntryId, progress: &Progress, now: ClockSample) -> (done: Result<
        Removal,
        QueueError,
    >)
        requires
            old(self)@.wf(),
        ensures
            final(self)@.wf(),
            match done {
                Ok(removal) => old(self)@.state.owner_index(id) matches Some(at) && final(self)@
                    == old(self)@.without_entry(id, *progress, now) && removal.action@ == final(
                    self)@.submission(Some(Urgency::Forced)) && removal.stop_playback == old(
                    self)@.owns_entry(id) && removal.selection == old(
                    self)@.state.playlists[at].queue.selection_after(id),
                Err(error) => old(self)@.state.owner_index(id) is None && final(self)@ == old(self)@
                    && error == QueueError::UnknownEntry(id),
            },
    {
        proof {
            crate::session_laws::removing_entry_keeps_wf(self@, id, *progress, now);
            crate::persistence::laws::found_owner(self@.state, id);
        }
        if self.state.owner_of(id).is_none() {
            return Err(QueueError::UnknownEntry(id));
        }
        let ghost before = self@;
        let mut ids: Vec<QueueEntryId> = Vec::new();
        ids.push(id);
        assert(ids@ =~= seq![id]);
        self.invalidate_pending(&ids);
        let owned: bool = self.owns_entry(id);
        proof {
            crate::session_laws::barring_keeps_wf(before, seq![id]);
            crate::session_laws::releasing_keeps_wf(self@, *progress, now);
        }
        if owned {
            self.release_active(progress, now);
        }
        assert(self@.state.owner_index(id) == before.state.owner_index(id));
        match self.state.remove_entry(id) {
            Ok(removed) => Ok(
                Removal {
                    action: self.submit(Urgency::Forced),
                    stop_playback: owned,
                    selection: removed.selection,
                },
            ),
            Err(error) => Err(error),
        }
    }

    /// Bars the loads into a playlist, before its entries go, and lets playback
    /// go if that playlist is in charge. Says whether it was.
    fn vacate(&mut self, id: PlaylistId, progress: &Progress, now: ClockSample) -> (owning: bool)
        ensures
            owning == old(self)@.owns_playlist(id),
            final(self)@ == old(self)@.vacated(id, *progress, now),
    {
        let ids = match self.state.playlist(id) {
            Some(playlist) => playlist.queue().ids(),
            None => Vec::new(),
        };
        let owning: bool = self.owns_playlist(id);
        self.invalidate_pending(&ids);
        if owning {
            self.release_active(progress, now);
        }
        owning
    }

    /// Empties one playlist, and keeps it. What is remembered of any media
    /// stays.
    pub fn clear_playlist(&mut self, id: PlaylistId, progress: &Progress, now: ClockSample) -> (done: Result<
        Removal,
        PlaylistError,
    >)
        requires
            old(self)@.wf(),
        ensures
            final(self)@.wf(),
            match done {
                Ok(removal) => old(self)@.state.has_playlist(id) && final(self)@ == old(
                    self)@.cleared(id, *progress, now) && removal.action@ == final(
                    self)@.submission(Some(Urgency::Forced)) && removal.stop_playback == old(
                    self)@.owns_playlist(id) && removal.selection is None,
                Err(error) => old(self)@.state.index_of(id) is None && final(self)@ == old(self)@
                    && error == PlaylistError::Unknown(id),
            },
    {
        proof {
            crate::session_laws::clearing_keeps_wf(self@, id, *progress, now);
        }
        if self.state.playlist(id).is_none() {
            return Err(PlaylistError::Unknown(id));
        }
        let owning: bool = self.vacate(id, progress, now);
        self.state.clear_playlist(id);
        Ok(
            Removal {
                action: self.submit(Urgency::Forced),
                stop_playback: owning,
                selection: None,
            },
        )
    }

    /// Deletes one playlist, never the last: a refusal lets nothing go.
    pub fn delete_playlist(&mut self, id: PlaylistId, progress: &Progress, now: ClockSample) -> (done: Result<
        Removal,
        PlaylistError,
    >)
        requires
            old(self)@.wf(),
        ensures
            final(self)@.wf(),
            match done {
                Ok(removal) => old(self)@.state.has_playlist(id) && old(
                    self)@.state.playlists.len() != 1 && final(self)@ == old(self)@.deleted(
                    id,
                    *progress,
                    now,
                ) && removal.action@ == final(self)@.submission(Some(Urgency::Forced))
                    && removal.stop_playback == old(self)@.owns_playlist(id)
                    && removal.selection is None,
                Err(error) => final(self)@ == old(self)@ && match error {
                    PlaylistError::Unknown(unknown) => unknown == id && old(
                        self)@.state.index_of(id) is None,
                    PlaylistError::LastPlaylist => old(self)@.state.has_playlist(id) && old(
                        self)@.state.playlists.len() == 1,
                    _ => false,
                },
            },
    {
        if self.state.playlist(id).is_none() {
            return Err(PlaylistError::Unknown(id));
        }
        if self.state.playlists().len() == 1 {
            return Err(PlaylistError::LastPlaylist);
        }
        proof {
            crate::session_laws::deleting_keeps_wf(self@, id, *progress, now);
            crate::session_laws::vacating_keeps_wf(self@, id, *progress, now);
        }
        let ghost before = self@;
        let owning: bool = self.vacate(id, progress, now);
        assert(self@.state.index_of(id) == before.state.index_of(id));
        match self.state.remove_playlist(id) {
            Ok(_) => Ok(
                Removal {
                    action: self.submit(Urgency::Forced),
                    stop_playback: owning,
                    selection: None,
                },
            ),
            Err(error) => Err(error),
        }
    }

    /// Sets the volume.
    pub fn set_volume(&mut self, volume: Volume) -> (action: Action)
        ensures
            final(self)@ == (SessionView {
                state: StateView { volume: volume.gain, ..old(self)@.state },
                ..old(self)@
            }),
            action@ == final(self)@.submission(Some(Urgency::Ordinary)),
    {
        self.state.set_volume(volume);
        self.submit(Urgency::Ordinary)
    }

    /// Shows something else of a media, wherever it is queued. Nothing is
    /// submitted where nothing changed.
    pub fn update_display(&mut self, media: &MediaId, update: DisplayUpdate) -> (action: Action)
        requires
            old(self)@.wf(),
        ensures
            final(self)@.wf(),
            final(self)@ == (SessionView {
                state: old(self)@.state.displayed(media@, update@),
                ..old(self)@
            }),
            action@ == final(self)@.submission(
                if final(self)@.state != old(self)@.state {
                    Some(Urgency::Ordinary)
                } else {
                    None
                },
            ),
    {
        proof {
            crate::session_laws::displaying_keeps_whole(self@.state, media@, update@);
        }
        if self.state.update_display(media, &update) {
            self.submit(Urgency::Ordinary)
        } else {
            Action::Nothing
        }
    }

    /// Takes the audio of an episode from another URL. Nothing is submitted
    /// where it is the same one; what is no episode is refused.
    pub fn update_podcast_fallback(&mut self, id: QueueEntryId, url: Url) -> (done: Result<
        Action,
        QueueError,
    >)
        requires
            old(self)@.wf(),
        ensures
            final(self)@.wf(),
            ({
                let source = SourceView::Podcast { fallback: url@ };
                match done {
                    Ok(action) => old(self)@.state.owner_index(id) matches Some(at) && (old(
                        self)@.state.find_entry(id) matches Some(entry) && (entry.source != source
                        ==> source.serves(entry.media)) && action@ == final(self)@.submission(
                        if entry.source != source {
                            Some(Urgency::Ordinary)
                        } else {
                            None
                        },
                    )) && final(self)@ == (SessionView {
                        state: old(self)@.state.with_queue(
                            at,
                            old(self)@.state.playlists[at].queue.refetched(id, url@),
                        ),
                        ..old(self)@
                    }),
                    Err(error) => final(self)@ == old(self)@ && match old(
                        self)@.state.find_entry(id) {
                        Some(entry) => entry.source != source && !source.serves(entry.media)
                            && error == QueueError::SourceMismatch,
                        None => error == QueueError::UnknownEntry(id),
                    },
                }
            }),
    {
        proof {
            crate::session_laws::refetching_keeps_whole(self@.state, id, url@);
        }
        match self.state.refetch(id, url) {
            Ok(changed) => if changed {
                Ok(self.submit(Urgency::Ordinary))
            } else {
                Ok(Action::Nothing)
            },
            Err(error) => Err(error),
        }
    }

    /// The last state: the position is saved where any other would be.
    pub fn shutdown_snapshot(&mut self, progress: &Progress, now: ClockSample) -> (state: PersistedState)
        ensures
            final(self)@ == old(self)@.current_captured(*progress, now),
            state@ == final(self)@.state,
            old(self)@.wf() ==> final(self)@.wf(),
    {
        proof {
            if self@.wf() {
                crate::session_laws::capturing_keeps_wf(self@, *progress, now);
            }
        }
        self.capture_current(progress, now);
        self.state.clone()
    }

    /// Takes the events that nobody read, and then the last state.
    pub fn reconcile_shutdown(&mut self, report: &ShutdownReport, now: ClockSample) -> (state: PersistedState)
        requires
            old(self)@.wf(),
        ensures
            final(self)@ == old(self)@.observed_all(
                report.events@,
                report.events@.len() as int,
                now,
            ).current_captured(report.progress, now),
            state@ == final(self)@.state,
            final(self)@.wf(),
    {
        let ghost before = self@;
        let mut at: usize = 0;
        while at < report.events.len()
            invariant
                at <= report.events@.len(),
                self@ == before.observed_all(report.events@, at as int, now),
                self@.wf(),
            decreases report.events@.len() - at,
        {
            let _ = self.observe(&report.events[at], now);
            at += 1;
        }
        self.shutdown_snapshot(&report.progress, now)
    }

    /// Where `media` is to start: at the beginning where nothing is known.
    pub fn resume_intent(&self, media: &MediaId) -> (intent: ResumeIntent)
        ensures
            intent == match crate::resume::intent_of(self@.state.entry_for(media@)) {
                Some(intent) => intent,
                None => ResumeIntent::StartAt(Duration { nanos: 0 }),
            },
    {
        match resume_intent_for(self.state.entry_for(media)) {
            Some(intent) => intent,
            None => ResumeIntent::StartAt(Duration::zero()),
        }
    }
}

/// Whether `ids` holds `id`.
fn holds_id(ids: &Vec<QueueEntryId>, id: QueueEntryId) -> (holds: bool)
    ensures
        holds == ids@.contains(id),
{
    let mut at: usize = 0;
    while at < ids.len()
        invariant
            at <= ids@.len(),
            forall|i: int| 0 <= i < at ==> ids@[i] != id,
        decreases ids@.len() - at,
    {
        if ids[at] == id {
            return true;
        }
        at += 1;
    }
    false
}

/// Where the media that `entry` remembers is to start. An estimate is
/// preferred, but never for a completed media: that one starts over.
pub fn resume_intent_for(entry: Option<&PersistedCheckpoint>) -> (intent: Option<ResumeIntent>)
    ensures
        intent == crate::resume::intent_of(
            match entry {
                Some(entry) => Some(*entry),
                None => None,
            },
        ),
{
    let entry = match entry {
        Some(entry) => entry,
        None => return None,
    };
    if !entry.completed {
        if let Some(preference) = restart_preference(entry.position, entry.estimated) {
            return Some(
                ResumeIntent::EstimatedCandidate {
                    target: preference.target,
                    established: preference.established,
                },
            );
        }
    }
    match resume_candidate(entry.position, entry.completed) {
        Some(candidate) => Some(ResumeIntent::Candidate(candidate)),
        None => None,
    }
}

impl SessionView {
    /// Taking a media as loaded leaves the playlists alone.
    pub proof fn loaded_keeps_playlists(
        self,
        media: MediaKey,
        position: Duration,
        disposition: StartDisposition,
        capabilities: MediaCapabilities,
        now: ClockSample,
    )
        ensures
            self.loaded(media, position, disposition, capabilities, now).state.playlists
                == self.state.playlists,
            self.loaded(media, position, disposition, capabilities, now).state.playing
                == self.state.playing,
    {
    }
}

} // verus!
