//! Where a media is resumed.

use crate::clock::Duration;
use crate::playback::{ResumeCandidate, ResumeIntent};
use crate::persistence::model::PersistedCheckpoint;
use vstd::prelude::*;

verus! {

/// An estimated position that is preferred, with the established one in
/// reserve.
#[derive(Clone, Copy, Debug, PartialEq, Eq, Structural)]
pub struct RestartPreference {
    pub target: Duration,
    pub established: Option<Duration>,
}

/// An estimate is preferred wherever there is one.
pub fn restart_preference(position: Option<Duration>, estimated: Option<Duration>) -> (preference:
    Option<RestartPreference>)
    ensures
        preference == match estimated {
            Some(target) => Some(RestartPreference { target, established: position }),
            None => None,
        },
{
    match estimated {
        Some(target) => Some(RestartPreference { target, established: position }),
        None => None,
    }
}

/// The established position that a media may resume at. Without one there is
/// nothing to resume, and no zero is made up for it; but a completed media is
/// played over from the start.
pub open spec fn candidate(position: Option<Duration>, completed: bool) -> Option<ResumeCandidate> {
    match position {
        Some(position) => Some(ResumeCandidate { position, completed }),
        None => if completed {
            Some(ResumeCandidate { position: Duration { nanos: 0 }, completed })
        } else {
            None
        },
    }
}

pub fn resume_candidate(position: Option<Duration>, completed: bool) -> (found: Option<
    ResumeCandidate,
>)
    ensures
        found == candidate(position, completed),
{
    match position {
        Some(position) => Some(ResumeCandidate { position, completed }),
        None => if completed {
            Some(ResumeCandidate { position: Duration::zero(), completed })
        } else {
            None
        },
    }
}

/// Where the media that `entry` remembers is to start: at the estimate where
/// there is one and the media is not completed, else at the candidate.
pub open spec fn intent_of(entry: Option<PersistedCheckpoint>) -> Option<ResumeIntent> {
    match entry {
        None => None,
        Some(entry) => match (entry.completed, entry.estimated) {
            (false, Some(target)) => Some(
                ResumeIntent::EstimatedCandidate { target, established: entry.position },
            ),
            _ => match candidate(entry.position, entry.completed) {
                Some(found) => Some(ResumeIntent::Candidate(found)),
                None => None,
            },
        },
    }
}

} // verus!
