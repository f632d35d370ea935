//! Playback as the policy sees it: what the engine is told, and what it
//! reports.

use crate::clock::{Duration, WallTime};
use crate::media::{MediaCapabilities, MediaId, MediaMetadata};
use vstd::prelude::*;

verus! {

/// Whether a position was confirmed by the decoder or only computed.
#[derive(Clone, Copy, Debug, PartialEq, Eq, Structural)]
pub enum PositionProvenance {
    Established,
    Estimated,
}

/// How sure the engine is of the position it shows.
#[derive(Clone, Copy, Debug, PartialEq, Eq, Structural)]
pub enum PositionQuality {
    Exact,
    Degraded,
}

#[derive(Clone, Copy, Debug, PartialEq, Eq, Structural)]
pub enum PlaybackState {
    Idle,
    Loading,
    Playing,
    Reconnecting,
    Paused,
    Stopped,
    Ended,
    Failed,
}

/// The bits of the `f32` one.
pub const FULL_GAIN: u32 = 0x3F80_0000;

/// The bits of the `f32` infinity: what is not below them is not finite.
pub const INFINITE_GAIN: u32 = 0x7F80_0000;

/// An output gain between none and full, as the bits of an `f32`.
#[derive(Clone, Copy, Debug, PartialEq, Eq, Structural)]
pub struct Volume {
    pub gain: u32,
}

impl Volume {
    /// The gain with these bits, clamped to between none and full; none where
    /// it is negative or not finite.
    pub open spec fn clamped(gain: u32) -> u32 {
        if gain >= INFINITE_GAIN {
            0
        } else if gain > FULL_GAIN {
            FULL_GAIN
        } else {
            gain
        }
    }

    pub fn new(gain: u32) -> (volume: Self)
        ensures
            volume.gain == Self::clamped(gain),
            volume.gain <= FULL_GAIN,
    {
        if gain >= INFINITE_GAIN {
            Volume { gain: 0 }
        } else if gain > FULL_GAIN {
            Volume { gain: FULL_GAIN }
        } else {
            Volume { gain }
        }
    }

    pub fn full() -> (volume: Self)
        ensures
            volume.gain == FULL_GAIN,
    {
        Volume { gain: FULL_GAIN }
    }
}

/// The token of one load.
#[derive(Clone, Copy, Debug, PartialEq, Eq, Structural, PartialOrd, Ord, Hash)]
pub struct LoadRequestId {
    pub raw: u64,
}

impl LoadRequestId {
    pub fn from_raw(raw: u64) -> (id: Self)
        ensures
            id.raw == raw,
    {
        LoadRequestId { raw }
    }

    pub fn get(self) -> (raw: u64)
        ensures
            raw == self.raw,
    {
        self.raw
    }
}

/// A position of a media, and when it was taken.
#[derive(Debug, PartialEq, Eq)]
pub struct PlaybackCheckpoint {
    pub media: MediaId,
    pub position: Duration,
    pub updated_at: WallTime,
}

/// How soon a state has to reach the disk.
#[derive(Clone, Copy, Debug, PartialEq, Eq, Structural)]
pub enum Urgency {
    Ordinary,
    Forced,
}

/// A stored position to resume at.
#[derive(Clone, Copy, Debug, PartialEq, Eq, Structural)]
pub struct ResumeCandidate {
    pub position: Duration,
    pub completed: bool,
}

/// Where a load is to start.
#[derive(Clone, Copy, Debug, PartialEq, Eq, Structural)]
pub enum ResumeIntent {
    StartAt(Duration),
    /// A stored position, to be held against the duration.
    Candidate(ResumeCandidate),
    /// An estimated position, with the established one in reserve.
    EstimatedCandidate { target: Duration, established: Option<Duration> },
}

/// How a load started.
#[derive(Clone, Copy, Debug, PartialEq, Eq, Structural)]
pub enum StartDisposition {
    Fresh,
    Resumed,
    ResumedEstimated { target: Duration },
    /// It started over, because its source cannot resume.
    ResumeUnavailable { retained: Duration },
}

/// What the engine reports, in order and without loss.
#[allow(inconsistent_fields)]
#[derive(Debug, PartialEq, Eq)]
pub enum PlaybackEvent {
    Loaded {
        session_rev: u64,
        request: LoadRequestId,
        media: MediaId,
        metadata: MediaMetadata,
        capabilities: MediaCapabilities,
        position: Duration,
        disposition: StartDisposition,
    },
    StateChanged { session_rev: u64, state: PlaybackState, request: Option<LoadRequestId> },
    SeekCompleted { session_rev: u64, actual: Duration, provenance: PositionProvenance },
    SeekTargetStored { session_rev: u64, target: Duration },
    EndOfTrack { session_rev: u64, position: Duration, provenance: PositionProvenance },
    VolumeChanged { session_rev: u64, volume: Volume },
    RestartEstablished { session_rev: u64, position: Duration, provenance: PositionProvenance },
    CapabilitiesChanged { session_rev: u64, capabilities: MediaCapabilities },
    DeviceRecovered { session_rev: u64 },
    SeekRejected { session_rev: u64 },
    SeekCancelled { session_rev: u64 },
    Warning { session_rev: u64, message: String },
    LoadCancelled { session_rev: u64, request: LoadRequestId },
    /// A failure; of a load where it names one.
    Failed { session_rev: u64, request: Option<LoadRequestId>, message: String },
}

impl PlaybackEvent {
    /// The revision that the event carries.
    pub open spec fn rev(self) -> u64 {
        match self {
            PlaybackEvent::Loaded { session_rev, .. } => session_rev,
            PlaybackEvent::StateChanged { session_rev, .. } => session_rev,
            PlaybackEvent::SeekCompleted { session_rev, .. } => session_rev,
            PlaybackEvent::SeekTargetStored { session_rev, .. } => session_rev,
            PlaybackEvent::EndOfTrack { session_rev, .. } => session_rev,
            PlaybackEvent::VolumeChanged { session_rev, .. } => session_rev,
            PlaybackEvent::RestartEstablished { session_rev, .. } => session_rev,
            PlaybackEvent::CapabilitiesChanged { session_rev, .. } => session_rev,
            PlaybackEvent::DeviceRecovered { session_rev } => session_rev,
            PlaybackEvent::SeekRejected { session_rev } => session_rev,
            PlaybackEvent::SeekCancelled { session_rev } => session_rev,
            PlaybackEvent::Warning { session_rev, .. } => session_rev,
            PlaybackEvent::LoadCancelled { session_rev, .. } => session_rev,
            PlaybackEvent::Failed { session_rev, .. } => session_rev,
        }
    }

    pub fn session_rev(&self) -> (rev: u64)
        ensures
            rev == self.rev(),
    {
        match self {
            PlaybackEvent::Loaded { session_rev, .. } => *session_rev,
            PlaybackEvent::StateChanged { session_rev, .. } => *session_rev,
            PlaybackEvent::SeekCompleted { session_rev, .. } => *session_rev,
            PlaybackEvent::SeekTargetStored { session_rev, .. } => *session_rev,
            PlaybackEvent::EndOfTrack { session_rev, .. } => *session_rev,
            PlaybackEvent::VolumeChanged { session_rev, .. } => *session_rev,
            PlaybackEvent::RestartEstablished { session_rev, .. } => *session_rev,
            PlaybackEvent::CapabilitiesChanged { session_rev, .. } => *session_rev,
            PlaybackEvent::DeviceRecovered { session_rev } => *session_rev,
            PlaybackEvent::SeekRejected { session_rev } => *session_rev,
            PlaybackEvent::SeekCancelled { session_rev } => *session_rev,
            PlaybackEvent::Warning { session_rev, .. } => *session_rev,
            PlaybackEvent::LoadCancelled { session_rev, .. } => *session_rev,
            PlaybackEvent::Failed { session_rev, .. } => *session_rev,
        }
    }

    /// The load that the event ends: it loaded, failed or was cancelled.
    pub open spec fn outcome_of(self) -> Option<LoadRequestId> {
        match self {
            PlaybackEvent::Loaded { request, .. } => Some(request),
            PlaybackEvent::LoadCancelled { request, .. } => Some(request),
            PlaybackEvent::Failed { request, .. } => request,
            _ => None,
        }
    }

    pub fn load_outcome(&self) -> (request: Option<LoadRequestId>)
        ensures
            request == self.outcome_of(),
    {
        match self {
            PlaybackEvent::Loaded { request, .. } => Some(*request),
            PlaybackEvent::LoadCancelled { request, .. } => Some(*request),
            PlaybackEvent::Failed { request, .. } => *request,
            _ => None,
        }
    }
}

/// The latest snapshot of playback.
#[derive(Debug, PartialEq, Eq)]
pub struct Progress {
    pub session_rev: u64,
    pub media: Option<MediaId>,
    pub position: Duration,
    pub quality: PositionQuality,
    pub provenance: PositionProvenance,
    pub buffering: bool,
    pub load: Option<LoadRequestId>,
}

/// What is left when the engine has shut down: the events that nobody read,
/// and the last snapshot.
#[derive(Debug, PartialEq, Eq)]
pub struct ShutdownReport {
    pub events: Vec<PlaybackEvent>,
    pub progress: Progress,
}

/// A gain between none and full is kept, a larger one comes to full, and one that is negative
/// or no number to none.
pub proof fn gain_stays_in_range(gain: u32)
    ensures
        gain <= 0x3F80_0000 ==> Volume::clamped(gain) == gain,
        0x3F80_0000 < gain < 0x7F80_0000 ==> Volume::clamped(gain) == 0x3F80_0000u32,
        gain >= 0x7F80_0000 ==> Volume::clamped(gain) == 0,
{
}

} // verus!
