//! Background metadata enrichment: which probes are still wanted, and what is
//! kept of what they found.

use crate::clock::Duration;
use crate::media::{AbsolutePath, MediaId};
use vstd::prelude::*;

verus! {

/// Queued jobs beyond the ones in hand: one per entry that the playlists hold.
pub const REQUEST_CAPACITY: usize = crate::queue::MAX_PLAYLIST_ENTRIES;

/// Finished results that may wait.
pub const RESULT_CAPACITY: usize = 16;

/// The tags of a local file.
#[derive(Debug, PartialEq, Eq)]
pub struct LocalTags {
    pub title: Option<String>,
    pub artist: Option<String>,
    pub album: Option<String>,
    pub year: Option<String>,
    pub duration: Option<Duration>,
    pub front_cover: Option<Vec<u8>>,
}

#[derive(Debug, PartialEq, Eq)]
pub enum EnrichOutcome {
    Tags(LocalTags),
    /// The probe returned an error, as displayable text.
    Failed(String),
    /// The probe panicked; the panic was contained and its state discarded.
    Panicked,
}

#[derive(Debug, PartialEq, Eq)]
pub struct EnrichResult {
    pub media: MediaId,
    /// The generation that the request was made in.
    pub generation: u64,
    pub outcome: EnrichOutcome,
}

/// A probe to make.
#[derive(Debug, PartialEq, Eq)]
pub struct Job {
    pub media: MediaId,
    pub path: AbsolutePath,
    pub generation: u64,
}

/// The requests that are still wanted: those of the current generation.
#[derive(Debug, PartialEq, Eq)]
pub struct MetadataWorkers {
    generation: u64,
}

impl View for MetadataWorkers {
    type V = u64;

    closed spec fn view(&self) -> u64 {
        self.generation
    }
}

/// The generation after `generation`; the numbers begin again after the last.
pub open spec fn next_generation(generation: u64) -> u64 {
    if generation == u64::MAX {
        0
    } else {
        (generation + 1) as u64
    }
}

impl MetadataWorkers {
    pub fn new() -> (workers: Self)
        ensures
            workers@ == 0,
    {
        MetadataWorkers { generation: 0 }
    }

    /// A probe of `path` on behalf of `media`.
    pub fn request(&self, media: MediaId, path: AbsolutePath) -> (job: Job)
        ensures
            job.media == media,
            job.path == path,
            job.generation == self@,
    {
        Job { media, path, generation: self.generation }
    }

    /// Makes every request and result so far unwanted.
    pub fn cancel_all(&mut self)
        ensures
            final(self)@ == next_generation(old(self)@),
    {
        self.generation = self.generation.wrapping_add(1);
    }

    /// Whether a job is still to be done.
    pub fn wants(&self, job: &Job) -> (wanted: bool)
        ensures
            wanted == (job.generation == self@),
    {
        job.generation == self.generation
    }

    /// The first of `results` that is still wanted, in the order they came;
    /// those before it are dropped, those after it stay.
    pub fn try_result(&self, results: &mut Vec<EnrichResult>) -> (found: Option<EnrichResult>)
        ensures
            match found {
                Some(result) => {
                    let at = old(results)@.len() - final(results)@.len() - 1;
                    &&& 0 <= at < old(results)@.len()
                    &&& result == old(results)@[at]
                    &&& result.generation == self@
                    &&& final(results)@ == old(results)@.skip(at + 1)
                    &&& forall|i: int|
                        0 <= i < at ==> (#[trigger] old(results)@[i]).generation != self@
                },
                None => final(results)@.len() == 0 && forall|i: int|
                    0 <= i < old(results)@.len() ==> (#[trigger] old(results)@[i]).generation
                        != self@,
            },
    {
        let ghost before = results@;
        assert(before.skip(0) =~= before);
        while results.len() > 0
            invariant
                before == old(results)@,
                results@.len() <= before.len(),
                results@ == before.skip(before.len() - results@.len()),
                forall|i: int|
                    0 <= i < before.len() - results@.len() ==> (#[trigger] before[i]).generation
                        != self@,
            decreases results@.len(),
        {
            let ghost at = before.len() - results@.len();
            assert(results@[0] == before[at]);
            let result = results.remove(0);
            assert(results@ =~= before.skip(at + 1));
            if result.generation == self.generation {
                return Some(result);
            }
        }
        None
    }
}

/// What came of a probe. Only text and duration are kept: a result never holds
/// a cover that it will not use.
pub fn finished(job: Job, outcome: EnrichOutcome) -> (result: EnrichResult)
    ensures
        result.media == job.media,
        result.generation == job.generation,
        match outcome {
            EnrichOutcome::Tags(tags) => result.outcome == EnrichOutcome::Tags(
                (LocalTags { front_cover: None, ..tags }),
            ),
            _ => result.outcome == outcome,
        },
{
    let outcome = match outcome {
        EnrichOutcome::Tags(tags) => EnrichOutcome::Tags(LocalTags { front_cover: None, ..tags }),
        other => other,
    };
    EnrichResult { media: job.media, generation: job.generation, outcome }
}

/// A job requested before everything was cancelled is never wanted afterwards,
/// until the numbers have come round.
pub proof fn cancelled_generation_is_gone(generation: u64)
    ensures
        next_generation(generation) != generation,
{
}

} // verus!
