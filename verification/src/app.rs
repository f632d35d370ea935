//! Playing one source: what the command line asks for, what the engine is told,
//! what the status row shows, and when the run is over.

use crate::cli::{ArtworkMode, Cli, CliCommand, MouseMode};
use crate::clock::{format_hms, ClockSample, Duration};
use crate::media::{display_name, episode_name, Continuity, MediaCapabilities, MediaId, MediaKey,
    SeekSupport, Url};
use crate::persistence::model::PersistedCheckpoint;
use crate::persistence::store::LoadOutcome;
use crate::playback::{LoadRequestId, PlaybackEvent, PlaybackState, PositionProvenance,
    PositionQuality, Progress, ResumeIntent, Volume};
use crate::session::{resume_intent_for, Action, LoadTarget, Session, SessionView};
use crate::text::{displayable, push_decimal, push_text};
use crate::tui::keys::{KeyCode, KeyEvent, KeyKind};
use crate::width::{clip, width_of};
use vstd::prelude::*;

verus! {

broadcast use crate::model::group_model;

/// Seconds per press of a seek key.
pub const SEEK_STEP_SECS: i64 = 10;

/// Where the audio is.
#[derive(Debug, PartialEq, Eq)]
pub enum SourceLocation {
    LocalPath(String),
    Http(Url),
}

/// What the engine is told.
#[derive(Debug, PartialEq, Eq)]
pub enum PlaybackCommand {
    SetVolume(Volume),
    /// A number of volume steps, down or up.
    AdjustVolume(i8),
    Load { request: LoadRequestId, media: MediaId, source: SourceLocation, resume: ResumeIntent },
    PlayLoaded { request: LoadRequestId },
    TogglePause,
    SeekBy(i64),
    Restart,
    Stop,
    Play,
    Shutdown,
}

// ------------------------------------------------------------------- routing

/// What a command line asks for.
#[derive(Debug, PartialEq, Eq)]
pub enum RunPlan {
    /// The full-screen player.
    Tui { mouse: MouseMode, artwork: ArtworkMode },
    /// Open a source, say what was found, and end.
    Probe { source: String },
    Play { source: String },
    /// An episode, to be found among a feed's first.
    PlayEpisode { slug: String, index: usize, probe_only: bool },
    /// A command on the library.
    Library(CliCommand),
}

/// No command opens the player with the modes it has by default. A probe of a
/// plain source needs nothing resolved first; that of an episode does.
pub fn plan(cli: Cli) -> (plan: RunPlan)
    ensures
        plan == match cli.command {
            None => RunPlan::Tui { mouse: MouseMode::On, artwork: ArtworkMode::Auto },
            Some(CliCommand::Play { source, index: None, probe_only }) => if probe_only {
                RunPlan::Probe { source }
            } else {
                RunPlan::Play { source }
            },
            Some(
                CliCommand::Play { source, index: Some(index), probe_only },
            ) => RunPlan::PlayEpisode { slug: source, index, probe_only },
            Some(CliCommand::Tui { mouse, artwork }) => RunPlan::Tui { mouse, artwork },
            Some(command) => RunPlan::Library(command),
        },
{
    match cli.command {
        None => RunPlan::Tui { mouse: MouseMode::default(), artwork: ArtworkMode::default() },
        Some(CliCommand::Play { source, index: None, probe_only }) => if probe_only {
            RunPlan::Probe { source }
        } else {
            RunPlan::Play { source }
        },
        Some(CliCommand::Play { source, index: Some(index), probe_only }) => RunPlan::PlayEpisode {
            slug: source,
            index,
            probe_only,
        },
        Some(CliCommand::Tui { mouse, artwork }) => RunPlan::Tui { mouse, artwork },
        Some(command) => RunPlan::Library(command),
    }
}

/// What is done with an episode that was found.
#[derive(Debug, PartialEq, Eq)]
pub enum EpisodePlan {
    Play { media: MediaId, source: SourceLocation },
    /// Probe this address.
    Probe(Url),
    /// The cache holds an episode that is not on the web.
    Malformed,
}

/// The episode is played under its own identity, whatever its audio is fetched
/// from; a probe looks at that audio.
pub fn episode_plan(media: MediaId, source: SourceLocation, probe_only: bool) -> (plan: EpisodePlan)
    ensures
        plan == if !probe_only {
            EpisodePlan::Play { media, source }
        } else {
            match source {
                SourceLocation::Http(url) => EpisodePlan::Probe(url),
                SourceLocation::LocalPath(_) => EpisodePlan::Malformed,
            }
        },
{
    if !probe_only {
        return EpisodePlan::Play { media, source };
    }
    match source {
        SourceLocation::Http(url) => EpisodePlan::Probe(url),
        SourceLocation::LocalPath(_) => EpisodePlan::Malformed,
    }
}

/// How a run ended.
#[derive(Clone, Copy, Debug, PartialEq, Eq, Structural)]
pub enum RunOutcome {
    Completed,
    Signalled(i32),
}

/// What a run reports: a signal that was recorded stands before anything else,
/// a failure too.
pub fn run_outcome(signalled: RunOutcome, failure: Option<String>) -> (outcome: Result<
    RunOutcome,
    String,
>)
    ensures
        match (signalled, failure) {
            (RunOutcome::Signalled(number), _) => outcome == Ok::<_, String>(
                RunOutcome::Signalled(number),
            ),
            (RunOutcome::Completed, None) => outcome == Ok::<_, String>(RunOutcome::Completed),
            (RunOutcome::Completed, Some(message)) => outcome == Err::<RunOutcome, _>(message),
        },
{
    match signalled {
        RunOutcome::Signalled(number) => Ok(RunOutcome::Signalled(number)),
        RunOutcome::Completed => match failure {
            Some(message) => Err(message),
            None => Ok(RunOutcome::Completed),
        },
    }
}

// -------------------------------------------------------------------- launch

/// Where a media starts when the program is launched on it: as it is
/// remembered, but a local file always from the beginning.
pub open spec fn launch_intent(
    media: MediaKey,
    entry: Option<PersistedCheckpoint>,
) -> Option<ResumeIntent> {
    if media is LocalFile {
        None
    } else {
        crate::resume::intent_of(entry)
    }
}

/// What a run begins with.
pub struct Launch {
    pub session: Session,
    /// Where the media is to start, to be held against its duration.
    pub resume: Option<ResumeIntent>,
    pub volume: Volume,
    /// Whether anything that is submitted can reach the disk.
    pub persisting: bool,
}

/// What a run begins with, from what was loaded.
pub fn launch(outcome: LoadOutcome, media: &MediaId) -> (launch: Launch)
    requires
        outcome.state@.whole(),
    ensures
        launch.session@ == SessionView::begun(outcome.state@),
        launch.session@.wf(),
        launch.resume == launch_intent(media@, outcome.state@.entry_for(media@)),
        launch.volume.gain == Volume::clamped(outcome.state@.volume),
        launch.persisting == outcome.writable,
{
    let resume = match media {
        MediaId::LocalFile(_) => None,
        _ => resume_intent_for(outcome.state.entry_for(media)),
    };
    let volume = outcome.state.volume();
    Launch { session: Session::new(outcome.state), resume, volume, persisting: outcome.writable }
}

/// The first commands. The volume comes first, so that it is in force from the
/// first buffer on.
pub open spec fn first_commands(
    media: MediaId,
    source: SourceLocation,
    resume: Option<ResumeIntent>,
    volume: Volume,
    request: LoadRequestId,
) -> Seq<PlaybackCommand> {
    seq![
        PlaybackCommand::SetVolume(volume),
        PlaybackCommand::Load {
            request,
            media,
            source,
            resume: match resume {
                Some(resume) => resume,
                None => ResumeIntent::StartAt(Duration { nanos: 0 }),
            },
        },
        PlaybackCommand::PlayLoaded { request },
    ]
}

/// The commands that a run begins with.
pub fn resume_commands(
    media: MediaId,
    source: SourceLocation,
    resume: Option<ResumeIntent>,
    volume: Volume,
    request: LoadRequestId,
) -> (commands: [PlaybackCommand; 3])
    ensures
        commands@ == first_commands(media, source, resume, volume, request),
{
    let resume = match resume {
        Some(resume) => resume,
        None => ResumeIntent::StartAt(Duration::zero()),
    };
    [
        PlaybackCommand::SetVolume(volume),
        PlaybackCommand::Load { request, media, source, resume },
        PlaybackCommand::PlayLoaded { request },
    ]
}

// --------------------------------------------------------------------- flush

/// How the last write ended.
#[derive(Debug, PartialEq, Eq)]
pub enum ShutdownOutcome {
    Written,
    Failed(String),
    /// It was not confirmed in time.
    Unconfirmed,
}

#[derive(Debug, PartialEq, Eq)]
pub enum FlushReport {
    Written,
    Failed(String),
    Unconfirmed,
    /// Nothing is ever written in this session.
    Disabled,
}

/// What is reported of the last write. Where nothing is written at all, a write
/// that was answered as done was none.
pub fn classify_flush(outcome: ShutdownOutcome, persisting: bool) -> (report: FlushReport)
    ensures
        report == if !persisting {
            FlushReport::Disabled
        } else {
            match outcome {
                ShutdownOutcome::Written => FlushReport::Written,
                ShutdownOutcome::Failed(error) => FlushReport::Failed(error),
                ShutdownOutcome::Unconfirmed => FlushReport::Unconfirmed,
            }
        },
        !persisting ==> report != FlushReport::Written,
{
    if !persisting {
        return FlushReport::Disabled;
    }
    match outcome {
        ShutdownOutcome::Written => FlushReport::Written,
        ShutdownOutcome::Failed(error) => FlushReport::Failed(error),
        ShutdownOutcome::Unconfirmed => FlushReport::Unconfirmed,
    }
}

// -------------------------------------------------------------------- mirror

/// What is shown of playback, rebuilt from its events and refreshed from its
/// progress.
#[derive(Debug, PartialEq, Eq)]
pub struct Mirror {
    pub session_rev: u64,
    pub name: Option<String>,
    pub duration: Option<Duration>,
    pub state: PlaybackState,
    pub position: Duration,
    pub quality: PositionQuality,
    /// Whether the position is confirmed, whatever its quality.
    pub provenance: PositionProvenance,
    pub volume: Volume,
    /// `None` until something is loaded.
    pub capabilities: Option<MediaCapabilities>,
    /// Whether a read is waiting for the network: a detail of playing, and no
    /// state of its own.
    pub buffering: bool,
}

#[verifier::ext_equal]
pub struct MirrorView {
    pub session_rev: u64,
    pub name: Option<Seq<char>>,
    pub duration: Option<Duration>,
    pub state: PlaybackState,
    pub position: Duration,
    pub quality: PositionQuality,
    pub provenance: PositionProvenance,
    pub volume: Volume,
    pub capabilities: Option<MediaCapabilities>,
    pub buffering: bool,
}

impl View for Mirror {
    type V = MirrorView;

    open spec fn view(&self) -> MirrorView {
        MirrorView {
            session_rev: self.session_rev,
            name: crate::model::opt(self.name),
            duration: self.duration,
            state: self.state,
            position: self.position,
            quality: self.quality,
            provenance: self.provenance,
            volume: self.volume,
            capabilities: self.capabilities,
            buffering: self.buffering,
        }
    }
}

impl Default for Mirror {
    fn default() -> (mirror: Self)
        ensures
            mirror@ == MirrorView::blank(),
    {
        Mirror {
            session_rev: 0,
            name: None,
            duration: None,
            state: PlaybackState::Idle,
            position: Duration::zero(),
            quality: PositionQuality::Exact,
            provenance: PositionProvenance::Established,
            volume: Volume::full(),
            capabilities: None,
            buffering: false,
        }
    }
}

impl MirrorView {
    /// Before anything was played.
    pub open spec fn blank() -> MirrorView {
        MirrorView {
            session_rev: 0,
            name: None,
            duration: None,
            state: PlaybackState::Idle,
            position: Duration { nanos: 0 },
            quality: PositionQuality::Exact,
            provenance: PositionProvenance::Established,
            volume: Volume { gain: crate::playback::FULL_GAIN },
            capabilities: None,
            buffering: false,
        }
    }

    /// After an event. A load begins everything anew but the volume; a landing
    /// moves the position; every event brings its revision.
    pub open spec fn shown(self, event: PlaybackEvent) -> MirrorView {
        let heard = MirrorView { session_rev: event.rev(), ..self };
        match event {
            PlaybackEvent::Loaded { media, metadata, capabilities, position, .. } => MirrorView {
                name: Some(
                    match media@ {
                        MediaKey::PodcastEpisode { .. } => crate::media::episode_title(
                            crate::model::opt(metadata.title),
                        ),
                        other => other.name(),
                    },
                ),
                duration: metadata.duration,
                capabilities: Some(capabilities),
                position,
                quality: PositionQuality::Exact,
                provenance: PositionProvenance::Established,
                state: PlaybackState::Loading,
                buffering: false,
                ..heard
            },
            PlaybackEvent::StateChanged { state, .. } => MirrorView { state, ..heard },
            PlaybackEvent::SeekCompleted { actual, .. } => MirrorView { position: actual, ..heard },
            PlaybackEvent::SeekTargetStored { target, .. } => MirrorView {
                position: target,
                ..heard
            },
            PlaybackEvent::EndOfTrack { position, .. } => MirrorView {
                position,
                state: PlaybackState::Ended,
                ..heard
            },
            PlaybackEvent::VolumeChanged { volume, .. } => MirrorView { volume, ..heard },
            PlaybackEvent::RestartEstablished { position, .. } => MirrorView { position, ..heard },
            PlaybackEvent::CapabilitiesChanged { capabilities, .. } => MirrorView {
                capabilities: Some(capabilities),
                ..heard
            },
            _ => heard,
        }
    }

    /// After a progress snapshot. While a seek is outstanding the position is
    /// left as it is shown: playback has not moved there yet.
    pub open spec fn refreshed(self, progress: Progress, seeking: bool) -> MirrorView {
        let heard = MirrorView { buffering: progress.buffering, ..self };
        if seeking {
            heard
        } else {
            MirrorView {
                position: progress.position,
                quality: progress.quality,
                provenance: progress.provenance,
                ..heard
            }
        }
    }
}

impl Mirror {
    pub fn apply(&mut self, event: PlaybackEvent)
        ensures
            final(self)@ == old(self)@.shown(event),
    {
        self.session_rev = event.session_rev();
        match event {
            PlaybackEvent::Loaded { media, metadata, capabilities, position, .. } => {
                self.name = Some(
                    match &media {
                        MediaId::PodcastEpisode { .. } => match &metadata.title {
                            Some(title) => episode_name(Some(title.as_str())),
                            None => episode_name(None),
                        },
                        other => display_name(other),
                    },
                );
                self.duration = metadata.duration;
                self.capabilities = Some(capabilities);
                self.position = position;
                self.quality = PositionQuality::Exact;
                self.provenance = PositionProvenance::Established;
                self.state = PlaybackState::Loading;
                self.buffering = false;
            },
            PlaybackEvent::StateChanged { state, .. } => {
                self.state = state;
            },
            PlaybackEvent::SeekCompleted { actual, .. } => {
                self.position = actual;
            },
            PlaybackEvent::SeekTargetStored { target, .. } => {
                self.position = target;
            },
            PlaybackEvent::EndOfTrack { position, .. } => {
                self.position = position;
                self.state = PlaybackState::Ended;
            },
            PlaybackEvent::VolumeChanged { volume, .. } => {
                self.volume = volume;
            },
            PlaybackEvent::RestartEstablished { position, .. } => {
                self.position = position;
            },
            PlaybackEvent::CapabilitiesChanged { capabilities, .. } => {
                self.capabilities = Some(capabilities);
            },
            PlaybackEvent::DeviceRecovered { .. } | PlaybackEvent::SeekRejected { .. }
            | PlaybackEvent::SeekCancelled { .. } | PlaybackEvent::Warning { .. }
            | PlaybackEvent::LoadCancelled { .. } | PlaybackEvent::Failed { .. } => {},
        }
    }

    /// Shows where a seek is expected to land. It is a guess until it does, and
    /// reaches only what is shown.
    pub fn predict(&mut self, position: Duration)
        ensures
            final(self)@ == (MirrorView {
                position,
                provenance: PositionProvenance::Estimated,
                ..old(self)@
            }),
    {
        self.position = position;
        self.provenance = PositionProvenance::Estimated;
    }
}

/// Takes a progress snapshot into what is shown.
pub fn apply_progress(mirror: &mut Mirror, progress: &Progress, seeking: bool)
    ensures
        final(mirror)@ == old(mirror)@.refreshed(*progress, seeking),
{
    mirror.buffering = progress.buffering;
    if seeking {
        return;
    }
    mirror.position = progress.position;
    mirror.quality = progress.quality;
    mirror.provenance = progress.provenance;
}

// ---------------------------------------------------------------- status row

impl PlaybackState {
    pub open spec fn word(self) -> Seq<char> {
        match self {
            PlaybackState::Idle => "idle"@,
            PlaybackState::Loading => "loading"@,
            PlaybackState::Playing => "playing"@,
            PlaybackState::Reconnecting => "reconnecting"@,
            PlaybackState::Paused => "paused"@,
            PlaybackState::Stopped => "stopped"@,
            PlaybackState::Ended => "ended"@,
            PlaybackState::Failed => "failed"@,
        }
    }

    pub fn label(self) -> (label: &'static str)
        ensures
            label@ == self.word(),
    {
        match self {
            PlaybackState::Idle => "idle",
            PlaybackState::Loading => "loading",
            PlaybackState::Playing => "playing",
            PlaybackState::Reconnecting => "reconnecting",
            PlaybackState::Paused => "paused",
            PlaybackState::Stopped => "stopped",
            PlaybackState::Ended => "ended",
            PlaybackState::Failed => "failed",
        }
    }
}

impl MirrorView {
    /// What is playing, safe to print.
    pub open spec fn name_shown(self) -> Seq<char> {
        crate::text::shown_text(
            match self.name {
                Some(name) => name,
                None => "(no media)"@,
            },
        )
    }

    pub open spec fn is_live(self) -> bool {
        self.capabilities matches Some(capabilities) && capabilities.continuity
            == Continuity::Indefinite
    }

    /// The state, and that it waits for the network while it plays.
    pub open spec fn state_shown(self) -> Seq<char> {
        if self.buffering && self.state == PlaybackState::Playing {
            self.state.word() + " buffering"@
        } else {
            self.state.word()
        }
    }

    /// Whether seeking is not resolved yet, or not possible.
    pub open spec fn seek_shown(self) -> Seq<char> {
        match self.capabilities {
            Some(capabilities) => match capabilities.seek {
                SeekSupport::Unknown => " seek?"@,
                SeekSupport::Unsupported => " no-seek"@,
                SeekSupport::Native => ""@,
            },
            None => ""@,
        }
    }

    /// The marks of a position: that it may be off, and that it was never
    /// confirmed.
    pub open spec fn marks_shown(self) -> Seq<char> {
        (if self.quality == PositionQuality::Degraded {
            " ~"@
        } else {
            ""@
        }) + (if self.provenance == PositionProvenance::Estimated {
            " ~est"@
        } else {
            ""@
        })
    }

    /// The length: live where there is none, dashes where it is not known.
    pub open spec fn length_shown(self) -> Seq<char> {
        if self.is_live() {
            "live"@
        } else {
            match self.duration {
                Some(duration) => duration.hms_spec(),
                None => "--:--:--"@,
            }
        }
    }

    /// The fields after the name.
    pub open spec fn fields_shown(self, percent: u64) -> Seq<char> {
        " ["@ + self.state_shown() + "]"@ + self.seek_shown() + " "@ + self.position.hms_spec()
            + self.marks_shown() + " / "@ + self.length_shown() + "  vol "@ + crate::text::decimal(
            percent as nat,
        ) + "%"@
    }
}

/// The status row as its two halves, the name and the fields, so that the name
/// can give way. `percent` is the volume.
pub fn status_parts(mirror: &Mirror, percent: u64) -> (parts: (String, String))
    ensures
        parts.0@ == mirror@.name_shown(),
        parts.1@ == mirror@.fields_shown(percent),
{
    proof {
        reveal_strlit("");
    }
    let name = match &mirror.name {
        Some(name) => displayable(name.as_str()),
        None => displayable("(no media)"),
    };
    let mut fields = " [".to_owned();
    push_text(&mut fields, mirror.state.label());
    if mirror.buffering && mirror.state == PlaybackState::Playing {
        push_text(&mut fields, " buffering");
    }
    proof {
        assert(fields@ =~= " ["@ + mirror@.state_shown());
    }
    push_text(&mut fields, "]");
    let seek_note = match mirror.capabilities {
        Some(capabilities) => match capabilities.seek {
            SeekSupport::Unknown => " seek?",
            SeekSupport::Unsupported => " no-seek",
            SeekSupport::Native => "",
        },
        None => "",
    };
    push_text(&mut fields, seek_note);
    push_text(&mut fields, " ");
    push_text(&mut fields, format_hms(mirror.position).as_str());
    let ghost front = fields@;
    if mirror.quality == PositionQuality::Degraded {
        push_text(&mut fields, " ~");
    }
    if mirror.provenance == PositionProvenance::Estimated {
        push_text(&mut fields, " ~est");
    }
    proof {
        assert(fields@ =~= front + mirror@.marks_shown());
    }
    push_text(&mut fields, " / ");
    let live: bool = match mirror.capabilities {
        Some(capabilities) => capabilities.continuity == Continuity::Indefinite,
        None => false,
    };
    if live {
        push_text(&mut fields, "live");
    } else {
        match mirror.duration {
            Some(duration) => push_text(&mut fields, format_hms(duration).as_str()),
            None => push_text(&mut fields, "--:--:--"),
        }
    }
    push_text(&mut fields, "  vol ");
    push_decimal(&mut fields, percent);
    push_text(&mut fields, "%");
    proof {
        assert(fields@ =~= mirror@.fields_shown(percent));
    }
    (name, fields)
}

/// The status row in one, before it is fitted to a terminal.
pub fn status_line(mirror: &Mirror, percent: u64) -> (line: String)
    ensures
        line@ == mirror@.name_shown() + mirror@.fields_shown(percent),
{
    let (name, fields) = status_parts(mirror, percent);
    let mut line = name;
    push_text(&mut line, fields.as_str());
    line
}

/// A status row of `width` columns whose fields take `taken`: the name gives
/// way, and only where the fields alone do not fit is the whole row cut.
pub open spec fn fitted(name: Seq<char>, fields: Seq<char>, taken: usize, width: usize) -> Seq<char> {
    if taken >= width {
        crate::width::clipped(name + fields, width)
    } else {
        crate::width::clipped(name, (width - taken) as usize) + fields
    }
}

/// Fits a status row whose fields are measured.
pub fn fit_measured(name: &str, fields: &str, taken: usize, width: usize) -> (row: String)
    ensures
        row@ == fitted(name@, fields@, taken, width),
{
    if taken >= width {
        let mut whole = name.to_owned();
        push_text(&mut whole, fields);
        return clip(whole.as_str(), width);
    }
    let mut row = clip(name, width - taken);
    push_text(&mut row, fields);
    row
}

/// Fits a status row into `width` columns, by shortening the name first.
pub fn fit_status(name: &str, fields: &str, width: usize) -> (row: String)
    ensures
        row@ == fitted(name@, fields@, crate::width::text_width(fields@), width),
{
    fit_measured(name, fields, width_of(fields), width)
}

// ---------------------------------------------------------------------- keys

/// What a key asks of the engine. Each direction of the volume has a key that
/// needs no Shift.
pub open spec fn command_of(key: KeyEvent) -> Option<PlaybackCommand> {
    if key.kind != KeyKind::Press {
        None
    } else if key.is_chord('c') {
        Some(PlaybackCommand::Shutdown)
    } else {
        match key.code {
            KeyCode::Left => Some(PlaybackCommand::SeekBy((-10int) as i64)),
            KeyCode::Right => Some(PlaybackCommand::SeekBy(10)),
            KeyCode::Home => Some(PlaybackCommand::Restart),
            KeyCode::Char(c) => if c == ' ' {
                Some(PlaybackCommand::TogglePause)
            } else if c == '-' || c == '_' {
                Some(PlaybackCommand::AdjustVolume((-1int) as i8))
            } else if c == '+' || c == '=' {
                Some(PlaybackCommand::AdjustVolume(1))
            } else if c == 's' {
                Some(PlaybackCommand::Stop)
            } else if c == 'p' {
                Some(PlaybackCommand::Play)
            } else if c == 'q' {
                Some(PlaybackCommand::Shutdown)
            } else {
                None
            },
            _ => None,
        }
    }
}

pub fn to_command(key: KeyEvent) -> (command: Option<PlaybackCommand>)
    ensures
        command == command_of(key),
{
    if key.kind != KeyKind::Press {
        return None;
    }
    if key.chord('c') {
        return Some(PlaybackCommand::Shutdown);
    }
    match key.code {
        KeyCode::Char(' ') => Some(PlaybackCommand::TogglePause),
        KeyCode::Left => Some(PlaybackCommand::SeekBy(-SEEK_STEP_SECS)),
        KeyCode::Right => Some(PlaybackCommand::SeekBy(SEEK_STEP_SECS)),
        KeyCode::Home => Some(PlaybackCommand::Restart),
        KeyCode::Char('-' | '_') => Some(PlaybackCommand::AdjustVolume(-1)),
        KeyCode::Char('+' | '=') => Some(PlaybackCommand::AdjustVolume(1)),
        KeyCode::Char('s') => Some(PlaybackCommand::Stop),
        KeyCode::Char('p') => Some(PlaybackCommand::Play),
        KeyCode::Char('q') => Some(PlaybackCommand::Shutdown),
        _ => None,
    }
}

/// What reading a key came to.
#[derive(Clone, Copy, Debug, PartialEq, Eq, Structural)]
pub enum KeyRead {
    Key(KeyEvent),
    /// Nothing came in time, or it was no key.
    Nothing,
    /// The input ended or failed.
    Ended,
}

/// What follows it.
#[derive(Debug, PartialEq, Eq)]
pub enum KeyStep {
    /// The run is to end.
    Stop,
    Send(PlaybackCommand),
    GoOn,
}

/// One pass of key handling: a quit and the end of the input each end the run.
pub fn key_step(read: KeyRead) -> (step: KeyStep)
    ensures
        step == match read {
            KeyRead::Ended => KeyStep::Stop,
            KeyRead::Nothing => KeyStep::GoOn,
            KeyRead::Key(key) => match command_of(key) {
                Some(PlaybackCommand::Shutdown) => KeyStep::Stop,
                Some(command) => KeyStep::Send(command),
                None => KeyStep::GoOn,
            },
        },
{
    match read {
        KeyRead::Ended => KeyStep::Stop,
        KeyRead::Nothing => KeyStep::GoOn,
        KeyRead::Key(key) => match to_command(key) {
            Some(PlaybackCommand::Shutdown) => KeyStep::Stop,
            Some(command) => KeyStep::Send(command),
            None => KeyStep::GoOn,
        },
    }
}

// ---------------------------------------------------------------------- loop

/// What a pass learnt from the events it read.
#[derive(Debug, PartialEq, Eq)]
pub struct Drained {
    /// The message of the last failure.
    pub failure: Option<String>,
    pub loaded: bool,
}

/// The message of the last failure among the first `count` events.
pub open spec fn last_failure(events: Seq<PlaybackEvent>, count: int) -> Option<Seq<char>>
    decreases count,
{
    if count <= 0 {
        None
    } else {
        match events[count - 1] {
            PlaybackEvent::Failed { message, .. } => Some(message@),
            _ => last_failure(events, count - 1),
        }
    }
}

impl Drained {
    pub fn new() -> (drained: Self)
        ensures
            drained.failure is None,
            !drained.loaded,
    {
        Drained { failure: None, loaded: false }
    }

    /// Takes note of one event.
    pub fn note(&mut self, event: &PlaybackEvent)
        ensures
            crate::model::opt(final(self).failure) == match *event {
                PlaybackEvent::Failed { message, .. } => Some(message@),
                _ => crate::model::opt(old(self).failure),
            },
            final(self).loaded == (old(self).loaded || *event is Loaded),
    {
        match event {
            PlaybackEvent::Failed { message, .. } => {
                self.failure = Some(message.clone());
            },
            PlaybackEvent::Loaded { .. } => {
                self.loaded = true;
            },
            _ => {},
        }
    }
}

/// Takes note of all the events of a pass.
pub fn drain(events: &Vec<PlaybackEvent>) -> (drained: Drained)
    ensures
        crate::model::opt(drained.failure) == last_failure(events@, events@.len() as int),
        drained.loaded == exists|i: int| 0 <= i < events@.len() && (#[trigger] events@[i]) is Loaded,
{
    let mut drained = Drained::new();
    let mut at: usize = 0;
    while at < events.len()
        invariant
            at <= events@.len(),
            crate::model::opt(drained.failure) == last_failure(events@, at as int),
            drained.loaded == exists|i: int| 0 <= i < at && (#[trigger] events@[i]) is Loaded,
        decreases events@.len() - at,
    {
        let ghost before = drained.loaded;
        drained.note(&events[at]);
        proof {
            if before {
                let i = choose|i: int| 0 <= i < at && (#[trigger] events@[i]) is Loaded;
                assert(events@[i] is Loaded);
            }
            if events@[at as int] is Loaded {
                assert(events@[at as int] is Loaded);
            }
        }
        at += 1;
    }
    drained
}

/// What a pass decides.
#[derive(Debug, PartialEq, Eq)]
pub enum Phase {
    /// The next pass follows.
    GoOn,
    /// What was being loaded plays from here on.
    Loaded,
    Done,
    Failed(String),
}

/// The end of a pass while the source is still being loaded. A failure ends the
/// run before anything was shown.
pub fn after_loading_pass(drained: Drained) -> (phase: Phase)
    ensures
        phase == match drained.failure {
            Some(message) => Phase::Failed(message),
            None => if drained.loaded {
                Phase::Loaded
            } else {
                Phase::GoOn
            },
        },
{
    match drained.failure {
        Some(message) => Phase::Failed(message),
        None => if drained.loaded {
            Phase::Loaded
        } else {
            Phase::GoOn
        },
    }
}

/// The end of a pass while the source plays. Without a terminal no key can end
/// the run, so the end of the track does.
pub fn after_playing_pass(drained: Drained, terminal: bool, state: PlaybackState) -> (phase: Phase)
    ensures
        phase == match drained.failure {
            Some(message) => Phase::Failed(message),
            None => if !terminal && state == PlaybackState::Ended {
                Phase::Done
            } else {
                Phase::GoOn
            },
        },
{
    match drained.failure {
        Some(message) => Phase::Failed(message),
        None => if !terminal && state == PlaybackState::Ended {
            Phase::Done
        } else {
            Phase::GoOn
        },
    }
}

/// Whether a progress snapshot belongs to what is shown: it may overtake the
/// events that are still queued.
pub fn shows_progress(mirror: &Mirror, progress: &Progress) -> (shown: bool)
    ensures
        shown == (progress.session_rev == mirror.session_rev),
{
    progress.session_rev == mirror.session_rev
}

// ------------------------------------------------------------------ playing

/// One run: what is remembered, and what is shown.
pub struct Playing {
    pub session: Session,
    pub mirror: Mirror,
}

/// Registers the one load of a run, and gives its first commands. The load is
/// registered before anything is sent, so that its outcome is recognised.
pub fn begin(launch: Launch, media: MediaId, source: SourceLocation) -> (begun: (
    Playing,
    [PlaybackCommand; 3],
))
    requires
        launch.session@.wf(),
        launch.session@.pending.len() == 0,
        launch.session@.next_request < u64::MAX,
    ensures
        begun.0.session@ == launch.session@.registered(LoadTarget::Legacy, media@),
        begun.0.session@.wf(),
        begun.0.mirror@ == MirrorView::blank(),
        ({
            let request = LoadRequestId { raw: (launch.session@.next_request + 1) as u64 };
            begun.1@ == first_commands(media, source, launch.resume, launch.volume, request)
        }),
{
    let mut session = launch.session;
    let request = match session.register_load(LoadTarget::Legacy, &media) {
        Ok(request) => request,
        Err(_) => {
            proof {
                assert(false);
            }
            LoadRequestId::from_raw(0)
        },
    };
    let commands = resume_commands(media, source, launch.resume, launch.volume, request);
    (Playing { session, mirror: Mirror::default() }, commands)
}

impl Playing {
    /// Takes in one event: it is remembered, noted, and shown.
    pub fn hear(&mut self, event: PlaybackEvent, now: ClockSample, drained: &mut Drained) -> (action:
        Action)
        requires
            old(self).session@.wf(),
        ensures
            ({
                let step = old(self).session@.observed(event, now);
                &&& final(self).session@ == step.0
                &&& action@ == step.0.submission(step.1)
            }),
            final(self).session@.wf(),
            final(self).mirror@ == old(self).mirror@.shown(event),
            crate::model::opt(final(drained).failure) == match event {
                PlaybackEvent::Failed { message, .. } => Some(message@),
                _ => crate::model::opt(old(drained).failure),
            },
            final(drained).loaded == (old(drained).loaded || event is Loaded),
    {
        drained.note(&event);
        let action = self.session.observe(&event, now);
        self.mirror.apply(event);
        action
    }

    /// Takes in a progress snapshot. It is shown only where it belongs to what
    /// is shown: it may overtake events that are still queued.
    pub fn refresh(&mut self, progress: &Progress, seeking: bool, now: ClockSample) -> (action: Action)
        requires
            old(self).session@.wf(),
        ensures
            ({
                let step = old(self).session@.ticked(*progress, now);
                &&& final(self).session@ == step.0
                &&& action@ == step.0.submission(step.1)
            }),
            final(self).session@.wf(),
            final(self).mirror@ == if progress.session_rev == old(self).mirror@.session_rev {
                old(self).mirror@.refreshed(*progress, seeking)
            } else {
                old(self).mirror@
            },
    {
        let action = self.session.tick(progress, now);
        if shows_progress(&self.mirror, progress) {
            apply_progress(&mut self.mirror, progress, seeking);
        }
        action
    }
}

// -------------------------------------------------------------------- probing

/// Whether a probe has to try a seek: only that tells a source that cannot seek
/// from one that nobody has asked yet.
pub fn tries_seek(capabilities: MediaCapabilities) -> (tries: bool)
    ensures
        tries == (capabilities.seek == SeekSupport::Unknown),
{
    capabilities.seek == SeekSupport::Unknown
}

/// What a probe calls its source.
pub fn probe_title(title: Option<&str>) -> (name: String)
    ensures
        name@ == crate::text::shown_text(
            match title {
                Some(title) => title@,
                None => "(untitled)"@,
            },
        ),
{
    match title {
        Some(title) => displayable(title),
        None => displayable("(untitled)"),
    }
}

// ---------------------------------------------------------------------- laws

/// While a seek is outstanding, no progress moves the position that is shown,
/// and once it is not, the landing corrects it.
pub proof fn seeking_holds_the_position(mirror: MirrorView, progress: Progress)
    ensures
        mirror.refreshed(progress, true).position == mirror.position,
        mirror.refreshed(progress, true).provenance == mirror.provenance,
        mirror.refreshed(progress, false).position == progress.position,
        mirror.refreshed(progress, false).provenance == progress.provenance,
{
}

/// The name that is shown holds no control character, whatever the media calls
/// itself.
pub proof fn name_is_safe_to_print(mirror: MirrorView)
    ensures
        crate::text::is_plain(mirror.name_shown()),
{
    crate::text::shown_text_is_plain(
        match mirror.name {
            Some(name) => name,
            None => "(no media)"@,
        },
    );
}

/// The fields survive whole wherever they fit: the name is what is cut.
pub proof fn fields_survive(name: Seq<char>, fields: Seq<char>, taken: usize, width: usize)
    requires
        taken < width,
    ensures
        fitted(name, fields, taken, width).len() >= fields.len(),
        fitted(name, fields, taken, width).skip(
            fitted(name, fields, taken, width).len() - fields.len(),
        ) == fields,
{
    let row = fitted(name, fields, taken, width);
    let front = crate::width::clipped(name, (width - taken) as usize);
    assert(row == front + fields);
    assert(row.skip(row.len() - fields.len()) =~= fields);
}

/// The keys while a track is played from the command line: Space toggles the pause, the
/// arrows seek ten seconds, Home starts over, plus and minus turn the volume with Shift or
/// without, `s` stops, `p` plays, and `q` and Control-C end the run. A key that is let go
/// does nothing.
pub proof fn keys_ask_the_engine(key: KeyEvent)
    ensures
        key.kind != KeyKind::Press ==> command_of(key) is None,
        key.kind == KeyKind::Press && key.control && key.code == KeyCode::Char('c') ==> command_of(
            key,
        ) == Some(PlaybackCommand::Shutdown),
        key.kind == KeyKind::Press && !(key.control && key.code == KeyCode::Char('c')) ==> {
            &&& key.code == KeyCode::Char(' ') ==> command_of(key) == Some(
                PlaybackCommand::TogglePause,
            )
            &&& key.code == KeyCode::Left ==> (command_of(key) matches Some(
                PlaybackCommand::SeekBy(by),
            ) && by == -10)
            &&& key.code == KeyCode::Right ==> (command_of(key) matches Some(
                PlaybackCommand::SeekBy(by),
            ) && by == 10)
            &&& key.code == KeyCode::Home ==> command_of(key) == Some(PlaybackCommand::Restart)
            &&& key.code == KeyCode::Char('-') || key.code == KeyCode::Char('_') ==> (command_of(
                key,
            ) matches Some(PlaybackCommand::AdjustVolume(by)) && by == -1)
            &&& key.code == KeyCode::Char('+') || key.code == KeyCode::Char('=') ==> (command_of(
                key,
            ) matches Some(PlaybackCommand::AdjustVolume(by)) && by == 1)
            &&& key.code == KeyCode::Char('s') ==> command_of(key) == Some(PlaybackCommand::Stop)
            &&& key.code == KeyCode::Char('p') ==> command_of(key) == Some(PlaybackCommand::Play)
            &&& key.code == KeyCode::Char('q') ==> command_of(key) == Some(
                PlaybackCommand::Shutdown,
            )
        },
{
}

/// A file is played from its beginning whatever is remembered of it; anything else from
/// where it was.
pub proof fn files_start_over(media: MediaKey, entry: PersistedCheckpoint)
    ensures
        media is LocalFile ==> launch_intent(media, Some(entry)) is None,
        !(media is LocalFile) && entry.completed == false && entry.estimated is None
            && entry.position is Some ==> (launch_intent(media, Some(entry)) matches Some(
            ResumeIntent::Candidate(found),
        ) && Some(found.position) == entry.position && !found.completed),
        launch_intent(media, None) is None,
{
}

/// The volume is set before anything is loaded, and what is loaded is played, from where it
/// was asked or else from the beginning.
pub proof fn run_begins_in_order(
    media: MediaId,
    source: SourceLocation,
    resume: Option<ResumeIntent>,
    volume: Volume,
    request: LoadRequestId,
)
    ensures
        ({
            let commands = first_commands(media, source, resume, volume, request);
            &&& commands.len() == 3
            &&& commands[0] == PlaybackCommand::SetVolume(volume)
            &&& commands[1] matches PlaybackCommand::Load {
                request: asked,
                media: loaded,
                source: from,
                resume: at,
            }
            &&& asked == request && loaded == media && from == source
            &&& resume is Some ==> at == resume.unwrap()
            &&& resume is None ==> at == ResumeIntent::StartAt(Duration { nanos: 0 })
            &&& commands[2] == (PlaybackCommand::PlayLoaded { request })
        }),
{
}

/// What is shown follows the engine: the state, the position and the volume that it last
/// reported, and of a load its media, its length and where it begins.
pub proof fn mirror_follows_the_engine(mirror: MirrorView, event: PlaybackEvent)
    ensures
        mirror.shown(event).session_rev == event.rev(),
        event matches PlaybackEvent::StateChanged { state, .. } ==> mirror.shown(event).state
            == state && mirror.shown(event).position == mirror.position,
        event matches PlaybackEvent::SeekCompleted { actual, .. } ==> mirror.shown(event).position
            == actual,
        event matches PlaybackEvent::SeekTargetStored { target, .. } ==> mirror.shown(
            event,
        ).position == target,
        event matches PlaybackEvent::RestartEstablished { position, .. } ==> mirror.shown(
            event,
        ).position == position,
        event matches PlaybackEvent::EndOfTrack { position, .. } ==> mirror.shown(event).position
            == position && mirror.shown(event).state == PlaybackState::Ended,
        event matches PlaybackEvent::VolumeChanged { volume, .. } ==> mirror.shown(event).volume
            == volume,
        event matches PlaybackEvent::CapabilitiesChanged { capabilities, .. } ==> mirror.shown(
            event,
        ).capabilities == Some(capabilities),
        event matches PlaybackEvent::Loaded { metadata, capabilities, position, .. }
            ==> mirror.shown(event).position == position && mirror.shown(event).duration
            == metadata.duration && mirror.shown(event).capabilities == Some(capabilities)
            && mirror.shown(event).volume == mirror.volume && mirror.shown(event).name is Some,
        !(event is VolumeChanged) ==> mirror.shown(event).volume == mirror.volume,
{
}

/// The last of several failures is the one that is told, and none where there was none.
pub proof fn last_failure_is_told(events: Seq<PlaybackEvent>, count: int, at: int)
    requires
        0 <= count <= events.len(),
    ensures
        0 <= at < count && (events[at] is Failed) && (forall|i: int|
            at < i < count ==> !(#[trigger] events[i] is Failed)) ==> last_failure(events, count)
            == Some(events[at]->Failed_message@),
        (forall|i: int| 0 <= i < count ==> !(#[trigger] events[i] is Failed)) ==> last_failure(
            events,
            count,
        ) is None,
    decreases count,
{
    if count > 0 {
        last_failure_is_told(events, count - 1, at);
    }
}

/// The status row tells the state, the position and the volume of what plays, and that it
/// is live or its length.
pub proof fn status_tells(mirror: MirrorView, percent: u64)
    ensures
        mirror.is_live() ==> mirror.length_shown() == "live"@,
        !mirror.is_live() && mirror.duration is Some ==> mirror.length_shown()
            == mirror.duration.unwrap().hms_spec(),
        !mirror.is_live() && mirror.duration is None ==> mirror.length_shown() == "--:--:--"@,
        mirror.fields_shown(percent) == " ["@ + mirror.state_shown() + "]"@ + mirror.seek_shown()
            + " "@ + mirror.position.hms_spec() + mirror.marks_shown() + " / "@
            + mirror.length_shown() + "  vol "@ + crate::text::decimal(percent as nat) + "%"@,
        mirror.name matches Some(name) ==> mirror.name_shown() == crate::text::shown_text(name),
{
}

/// Live is what has no end, and its length is not told; what waits for the network while it
/// plays, what cannot be moved in, and a position that is off or was never confirmed are
/// each told, and otherwise nothing is.
pub proof fn marks_are_told(mirror: MirrorView)
    ensures
        mirror.is_live() <==> (mirror.capabilities matches Some(capabilities)
            && capabilities.continuity == Continuity::Indefinite),
        mirror.state == PlaybackState::Playing && mirror.buffering ==> mirror.state_shown()
            == "playing"@ + " buffering"@,
        mirror.state == PlaybackState::Playing && !mirror.buffering ==> mirror.state_shown()
            == "playing"@,
        mirror.state == PlaybackState::Paused ==> mirror.state_shown() == "paused"@,
        mirror.capabilities is None ==> mirror.seek_shown() == ""@,
        mirror.capabilities matches Some(capabilities) ==> (capabilities.seek
            == SeekSupport::Unsupported ==> mirror.seek_shown() == " no-seek"@) && (
        capabilities.seek == SeekSupport::Unknown ==> mirror.seek_shown() == " seek?"@) && (
        capabilities.seek == SeekSupport::Native ==> mirror.seek_shown() == ""@),
        mirror.quality != PositionQuality::Degraded && mirror.provenance
            != PositionProvenance::Estimated ==> mirror.marks_shown() == ""@ + ""@,
        mirror.quality == PositionQuality::Degraded && mirror.provenance
            == PositionProvenance::Estimated ==> mirror.marks_shown() == " ~"@ + " ~est"@,
        mirror.quality == PositionQuality::Degraded && mirror.provenance
            != PositionProvenance::Estimated ==> mirror.marks_shown() == " ~"@ + ""@,
        mirror.quality != PositionQuality::Degraded && mirror.provenance
            == PositionProvenance::Estimated ==> mirror.marks_shown() == ""@ + " ~est"@,
{
}

/// Every playback state has a word of its own.
pub proof fn states_are_told_apart(a: PlaybackState, b: PlaybackState)
    requires
        a != b,
    ensures
        a.word() != b.word(),
{
    reveal_strlit("idle");
    reveal_strlit("loading");
    reveal_strlit("failed");
    reveal_strlit("playing");
    reveal_strlit("reconnecting");
    reveal_strlit("paused");
    reveal_strlit("stopped");
    reveal_strlit("ended");
    assert("idle"@.len() == 4 && "loading"@.len() == 7 && "failed"@.len() == 6);
    assert("playing"@.len() == 7 && "paused"@.len() == 6 && "stopped"@.len() == 7);
    assert("ended"@.len() == 5 && "reconnecting"@.len() == 12);
    assert("loading"@[0] == 'l' && "playing"@[0] == 'p' && "stopped"@[0] == 's');
    assert("failed"@[0] == 'f' && "paused"@[0] == 'p');
}

} // verus!
