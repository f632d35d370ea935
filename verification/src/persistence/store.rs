//! What is made of the file on disk: how it is classified, and what it is
//! called when it is moved or copied aside.

use crate::clock::WallTime;
use crate::media::MediaId;
use crate::persistence::file::{RawState, RawStateView};
use crate::persistence::model::{PersistedCheckpoint, PersistedState, StateView, SCHEMA_VERSION};
use crate::persistence::queue_codec::QueueReset;
use crate::text::{push_char, push_decimal, push_text};
use vstd::prelude::*;

verus! {

broadcast use crate::model::group_model;

/// How many names a quarantine or a backup tries before giving up.
pub const MAX_QUARANTINE_CANDIDATES: u32 = 100;

/// The oldest schema version that can still be brought forward.
pub const OLDEST_MIGRATABLE_VERSION: u32 = 1;

/// What kind of fault a parser found.
#[derive(Clone, Copy, Debug, PartialEq, Eq, Structural)]
pub enum FaultCategory {
    Io,
    Syntax,
    Data,
    Eof,
}

impl FaultCategory {
    pub open spec fn text(self) -> Seq<char> {
        match self {
            FaultCategory::Io => "io"@,
            FaultCategory::Syntax => "syntax"@,
            FaultCategory::Data => "data"@,
            FaultCategory::Eof => "eof"@,
        }
    }

    pub fn name(self) -> (name: &'static str)
        ensures
            name@ == self.text(),
    {
        match self {
            FaultCategory::Io => "io",
            FaultCategory::Syntax => "syntax",
            FaultCategory::Data => "data",
            FaultCategory::Eof => "eof",
        }
    }
}

/// Where a parser stopped and why, and nothing of what it read there.
#[derive(Clone, Copy, Debug, PartialEq, Eq, Structural)]
pub struct ParseFault {
    pub category: FaultCategory,
    pub line: usize,
    pub column: usize,
}

/// Why a state file cannot be had.
#[derive(Debug, PartialEq, Eq)]
pub enum PersistenceError {
    Io { path: String, op: &'static str, reason: String },
    /// Only where the fault is: the text at fault may hold an address.
    Deserialize { path: String, category: &'static str, line: usize, column: usize },
    UnsupportedVersion { path: String, found: u32, supported: u32 },
}

pub open spec fn is_supported(version: u32) -> bool {
    OLDEST_MIGRATABLE_VERSION <= version <= SCHEMA_VERSION
}

/// The fault as an error: its category and place.
pub fn malformed(path: &str, source: ParseFault) -> (error: PersistenceError)
    ensures
        error.tells(path@, source),
{
    PersistenceError::Deserialize {
        path: path.to_owned(),
        category: source.category.name(),
        line: source.line,
        column: source.column,
    }
}

impl PersistenceError {
    /// Whether the error says what a parser found in the file at `path`.
    pub open spec fn tells(self, path: Seq<char>, source: ParseFault) -> bool {
        self matches PersistenceError::Deserialize { path: at, category, line, column } && at@
            == path && category@ == source.category.text() && line == source.line && column
            == source.column
    }
}

impl RawStateView {
    /// The state that a file of this version holds, under the current one.
    pub open spec fn current(self, version: u32, accept_queue: bool) -> StateView {
        if version == SCHEMA_VERSION {
            self.state(accept_queue)
        } else {
            StateView { schema_version: SCHEMA_VERSION, ..self.state(accept_queue) }
        }
    }
}

/// The state that a file holds. The version is looked at first, so that a newer
/// file is never taken for garbage; `version` and `model` are what a parser made
/// of the bytes.
pub fn decode_state(
    path: &str,
    version: Result<u32, ParseFault>,
    model: Result<RawState, ParseFault>,
    accept_queue: bool,
) -> (decoded: Result<(PersistedState, Option<QueueReset>), PersistenceError>)
    ensures
        match version {
            Err(fault) => decoded matches Err(error) && error.tells(path@, fault),
            Ok(version) => if !is_supported(version) {
                decoded matches Err(PersistenceError::UnsupportedVersion {
                    path: at,
                    found,
                    supported,
                }) && at@ == path@ && found == version && supported == SCHEMA_VERSION
            } else {
                match model {
                    Err(fault) => decoded matches Err(error) && error.tells(path@, fault),
                    Ok(raw) => decoded matches Ok(read) && read.0@ == raw@.current(
                        version,
                        accept_queue,
                    ) && read.1 == raw@.recovered(accept_queue).reset && read.0@.whole(),
                }
            },
        },
{
    let version: u32 = match version {
        Ok(version) => version,
        Err(fault) => return Err(malformed(path, fault)),
    };
    if version > SCHEMA_VERSION || version < OLDEST_MIGRATABLE_VERSION {
        return Err(
            PersistenceError::UnsupportedVersion {
                path: path.to_owned(),
                found: version,
                supported: SCHEMA_VERSION,
            },
        );
    }
    let raw = match model {
        Ok(raw) => raw,
        Err(fault) => return Err(malformed(path, fault)),
    };
    let (mut state, reset) = raw.into_state(accept_queue);
    if version != SCHEMA_VERSION {
        state.migrate_to_current_schema();
    }
    Ok((state, reset))
}

// ------------------------------------------------------------------- loading

#[derive(Debug, PartialEq, Eq)]
pub enum LoadReason {
    Loaded,
    Missing,
    /// The file was garbage and has been moved aside; writing goes on.
    Quarantined { moved_to: String },
    /// The file was garbage and could not be moved aside; nothing is written
    /// over it.
    QuarantineFailed,
    /// A version that is not supported; kept in place.
    UnsupportedVersion { found: u32 },
    /// There, but not readable; kept in place.
    Unreadable,
}

/// Whether the original bytes were copied aside before a repaired state could
/// be written.
#[derive(Debug, PartialEq, Eq)]
pub enum QueueBackup {
    Saved(String),
    Failed,
}

/// What was reset, and whether the bytes before that were kept.
#[derive(Debug, PartialEq, Eq)]
pub struct QueueRepair {
    pub reset: QueueReset,
    pub backup: QueueBackup,
}

#[derive(Debug)]
pub struct LoadOutcome {
    pub state: PersistedState,
    pub writable: bool,
    pub reason: LoadReason,
    pub queue_repair: Option<QueueRepair>,
}

impl LoadOutcome {
    /// Whether this is the outcome of a file that gives nothing.
    pub open spec fn is_fresh(self, writable: bool, reason: LoadReason) -> bool {
        self.state@ == StateView::fresh() && self.state@.whole() && self.writable == writable
            && self.reason == reason && self.queue_repair is None
    }

    fn fresh(writable: bool, reason: LoadReason) -> (outcome: LoadOutcome)
        ensures
            outcome.is_fresh(writable, reason),
    {
        LoadOutcome { state: PersistedState::default(), writable, reason, queue_repair: None }
    }
}

/// What reading the file came to.
#[derive(Debug)]
pub enum StateRead {
    Missing,
    Unreadable,
    Decoded(Result<(PersistedState, Option<QueueReset>), PersistenceError>),
}

/// What is to be done about what was read.
#[derive(Debug)]
pub enum LoadStep {
    Done(LoadOutcome),
    /// The file is to be copied aside before anything can replace it.
    BackUp { state: PersistedState, reset: QueueReset },
    /// The file is to be moved aside.
    Quarantine,
}

/// A file that is missing or unsupported, or that cannot be read, gives a fresh
/// state; only over one that is missing may be written. One that was repaired
/// is copied aside first, and garbage is moved aside.
pub fn begin_load(read: StateRead) -> (step: LoadStep)
    ensures
        match read {
            StateRead::Missing => step matches LoadStep::Done(outcome) && outcome.is_fresh(
                true,
                LoadReason::Missing,
            ),
            StateRead::Unreadable => step matches LoadStep::Done(outcome) && outcome.is_fresh(
                false,
                LoadReason::Unreadable,
            ),
            StateRead::Decoded(Ok((state, None))) => step matches LoadStep::Done(outcome)
                && outcome.state@ == state@ && outcome.writable && outcome.reason
                == LoadReason::Loaded && outcome.queue_repair is None,
            StateRead::Decoded(Ok((state, Some(reset)))) => step matches LoadStep::BackUp {
                state: kept,
                reset: why,
            } && kept@ == state@ && why == reset,
            StateRead::Decoded(
                Err(PersistenceError::UnsupportedVersion { found, .. }),
            ) => step matches LoadStep::Done(outcome) && outcome.is_fresh(
                false,
                LoadReason::UnsupportedVersion { found },
            ),
            StateRead::Decoded(Err(_)) => step is Quarantine,
        },
        step matches LoadStep::Done(outcome) ==> outcome.writable == (outcome.reason
            == LoadReason::Loaded || outcome.reason == LoadReason::Missing),
{
    match read {
        StateRead::Missing => LoadStep::Done(LoadOutcome::fresh(true, LoadReason::Missing)),
        StateRead::Unreadable => LoadStep::Done(LoadOutcome::fresh(false, LoadReason::Unreadable)),
        StateRead::Decoded(Ok((state, None))) => LoadStep::Done(
            LoadOutcome { state, writable: true, reason: LoadReason::Loaded, queue_repair: None },
        ),
        StateRead::Decoded(Ok((state, Some(reset)))) => LoadStep::BackUp { state, reset },
        StateRead::Decoded(Err(PersistenceError::UnsupportedVersion { found, .. })) => {
            LoadStep::Done(LoadOutcome::fresh(false, LoadReason::UnsupportedVersion { found }))
        },
        StateRead::Decoded(Err(_)) => LoadStep::Quarantine,
    }
}

/// A repaired state may be written only where the original was kept.
pub fn backed_up(state: PersistedState, reset: QueueReset, backup: QueueBackup) -> (outcome:
    LoadOutcome)
    ensures
        outcome.state@ == state@,
        outcome.writable == (backup is Saved),
        outcome.reason == LoadReason::Loaded,
        outcome.queue_repair == Some((QueueRepair { reset, backup })),
{
    let writable: bool = match &backup {
        QueueBackup::Saved(_) => true,
        QueueBackup::Failed => false,
    };
    LoadOutcome {
        state,
        writable,
        reason: LoadReason::Loaded,
        queue_repair: Some(QueueRepair { reset, backup }),
    }
}

/// After garbage a fresh state is written only where the garbage was moved.
pub fn quarantined(moved_to: Option<String>) -> (outcome: LoadOutcome)
    ensures
        match moved_to {
            Some(moved_to) => outcome.is_fresh(true, LoadReason::Quarantined { moved_to }),
            None => outcome.is_fresh(false, LoadReason::QuarantineFailed),
        },
{
    match moved_to {
        Some(moved_to) => LoadOutcome::fresh(true, LoadReason::Quarantined { moved_to }),
        None => LoadOutcome::fresh(false, LoadReason::QuarantineFailed),
    }
}

// ---------------------------------------------------------------- candidates

/// Which file is put aside, and why.
#[derive(Clone, Copy, Debug, PartialEq, Eq, Structural)]
pub enum Aside {
    RejectedState,
    RecoveredQueue,
    RejectedStations,
}

impl Aside {
    pub open spec fn prefix(self) -> Seq<char> {
        match self {
            Aside::RejectedState => "state.json.rejected-"@,
            Aside::RecoveredQueue => "state.json.queue-recovery-"@,
            Aside::RejectedStations => "stations.json.rejected-"@,
        }
    }

    /// The name to try at the `suffix`-th attempt.
    pub open spec fn candidate(self, at: WallTime, suffix: u32) -> Seq<char> {
        let name = self.prefix() + crate::clock::stamp_text(at);
        if suffix == 1 {
            name
        } else {
            name + seq!['-'] + crate::text::decimal(suffix as nat)
        }
    }
}

pub fn candidate_name(aside: Aside, at: WallTime, suffix: u32) -> (name: String)
    ensures
        name@ == aside.candidate(at, suffix),
{
    let mut name = match aside {
        Aside::RejectedState => "state.json.rejected-".to_owned(),
        Aside::RecoveredQueue => "state.json.queue-recovery-".to_owned(),
        Aside::RejectedStations => "stations.json.rejected-".to_owned(),
    };
    push_text(&mut name, crate::clock::stamp(at).as_str());
    if suffix != 1 {
        push_char(&mut name, '-');
        push_decimal(&mut name, suffix as u64);
        proof {
            assert(name@ =~= aside.candidate(at, suffix));
        }
    }
    name
}

/// What came of one name.
#[derive(Clone, Copy, Debug, PartialEq, Eq, Structural)]
pub enum Attempt {
    /// There is already a file of that name.
    Taken,
    Done,
    Failed,
}

/// What follows an attempt.
#[derive(Clone, Copy, Debug, PartialEq, Eq, Structural)]
pub enum NextAttempt {
    Try(u32),
    Done,
    GiveUp,
}

/// A name that is taken is passed over, up to the last one; any other outcome
/// ends the search.
pub fn after_attempt(suffix: u32, attempt: Attempt) -> (next: NextAttempt)
    ensures
        next == match attempt {
            Attempt::Done => NextAttempt::Done,
            Attempt::Failed => NextAttempt::GiveUp,
            Attempt::Taken => if suffix < MAX_QUARANTINE_CANDIDATES {
                NextAttempt::Try((suffix + 1) as u32)
            } else {
                NextAttempt::GiveUp
            },
        },
{
    match attempt {
        Attempt::Done => NextAttempt::Done,
        Attempt::Failed => NextAttempt::GiveUp,
        Attempt::Taken => if suffix < MAX_QUARANTINE_CANDIDATES {
            NextAttempt::Try(suffix + 1)
        } else {
            NextAttempt::GiveUp
        },
    }
}

// ------------------------------------------------------------------ snapshot

/// A state that can be looked at and not changed.
#[derive(Debug)]
pub struct StateSnapshot {
    state: PersistedState,
}

impl View for StateSnapshot {
    type V = StateView;

    closed spec fn view(&self) -> StateView {
        self.state@
    }
}

impl StateSnapshot {
    pub fn entry_for(&self, media: &MediaId) -> (found: Option<&PersistedCheckpoint>)
        ensures
            match found {
                Some(entry) => self@.entry_for(media@) == Some(*entry),
                None => self@.entry_for(media@) is None,
            },
    {
        self.state.entry_for(media)
    }

    pub fn completed_for(&self, media: &MediaId) -> (completed: bool)
        ensures
            completed == self@.completed_for(media@),
    {
        self.state.completed_for(media)
    }
}

/// What a listing reads: nothing has ever played where the file is missing, and
/// anything else that cannot be read is an error. `unreadable` is why a file
/// that is there could not be read.
pub fn snapshot_of(path: &str, read: StateRead, unreadable: String) -> (snapshot: Result<
    StateSnapshot,
    PersistenceError,
>)
    ensures
        match read {
            StateRead::Missing => snapshot matches Ok(shot) && shot@ == StateView::fresh(),
            StateRead::Unreadable => snapshot matches Err(PersistenceError::Io {
                path: at,
                op,
                reason,
            }) && at@ == path@ && op@ == "read"@ && reason == unreadable,
            StateRead::Decoded(Ok((state, _))) => snapshot matches Ok(shot) && shot@ == state@,
            StateRead::Decoded(Err(error)) => snapshot == Err::<StateSnapshot, _>(error),
        },
{
    match read {
        StateRead::Missing => Ok(StateSnapshot { state: PersistedState::default() }),
        StateRead::Unreadable => Err(
            PersistenceError::Io { path: path.to_owned(), op: "read", reason: unreadable },
        ),
        StateRead::Decoded(Ok((state, _))) => Ok(StateSnapshot { state }),
        StateRead::Decoded(Err(error)) => Err(error),
    }
}

// ---------------------------------------------------------------------- laws

/// No name is tried twice.
pub proof fn candidates_differ(aside: Aside, at: WallTime, a: u32, b: u32)
    requires
        1 <= a < b,
    ensures
        aside.candidate(at, a) != aside.candidate(at, b),
{
    let name = aside.prefix() + crate::clock::stamp_text(at);
    let tail = name + seq!['-'] + crate::text::decimal(b as nat);
    assert(tail.len() > name.len());
    if a != 1 {
        crate::text::decimals_differ(a as nat, b as nat);
        let other = name + seq!['-'] + crate::text::decimal(a as nat);
        if other == tail {
            assert(other.skip(name.len() as int + 1) =~= crate::text::decimal(a as nat));
            assert(tail.skip(name.len() as int + 1) =~= crate::text::decimal(b as nat));
        }
    }
}

/// A state that was just read under a supported version is written under the
/// current one, so that the next reading accepts it.
pub proof fn written_version_is_supported(raw: RawStateView, version: u32, accept_queue: bool)
    requires
        is_supported(version),
        raw.schema_version == version,
    ensures
        raw.current(version, accept_queue).schema_version == SCHEMA_VERSION,
        is_supported(raw.current(version, accept_queue).file().schema_version),
{
}

} // verus!
