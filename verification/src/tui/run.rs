//! The decisions of the front end's loop: how it starts, what an event leads
//! to, what a pass ends with, and how a run is reported.

use crate::app::{FlushReport, RunOutcome};
use crate::application::browse::{BrowseRequest, BrowseResult, RequestView, ResultView,
    TreeCollected};
use crate::application::command::{AppCommand, CommandView};
use crate::application::transport::PlaybackPhase;
use crate::persistence::store::{QueueBackup, QueueRepair};
use crate::playlist::PlaylistId;
use crate::text::push_text;
use crate::tui::browser::{BrowserEffect, BrowserEffectView, BrowserState, BrowserView};
use crate::tui::geometry::Rect;
use crate::tui::input::{routes_to_browser, Effect, EffectView};
use crate::tui::keys::{Event, MouseKind};
use crate::tui::state::{Overlay, UiState, UiView};
use vstd::prelude::*;

verus! {

broadcast use crate::model::group_model;

/// How long a pass waits for its first event, in milliseconds; also how late a
/// signal or a panic elsewhere is seen at most.
pub const INPUT_POLL: u64 = 50;

/// How many events are handled before the next frame, so that a flood of them
/// cannot starve drawing.
pub const MAX_EVENTS_PER_PASS: usize = 256;

pub const STATE_NOT_SAVED: &'static str = "This session is not saved";

// ------------------------------------------------------------------- startup

/// Why a run goes no further.
#[derive(Clone, Copy, Debug, PartialEq, Eq, Structural)]
pub enum Interruption {
    /// The quit key, Control-C, or a signal.
    Requested,
    /// A panic on another thread.
    WorkerPanicked,
}

/// Whether a run may go on. A panic elsewhere stands before a request.
pub open spec fn interruption(fatal: bool, requested: bool) -> Option<Interruption> {
    if fatal {
        Some(Interruption::WorkerPanicked)
    } else if requested {
        Some(Interruption::Requested)
    } else {
        None
    }
}

pub fn interrupted(fatal: bool, requested: bool) -> (found: Option<Interruption>)
    ensures
        found == interruption(fatal, requested),
{
    if fatal {
        Some(Interruption::WorkerPanicked)
    } else if requested {
        Some(Interruption::Requested)
    } else {
        None
    }
}

/// What startup does, in this order.
#[derive(Clone, Copy, Debug, PartialEq, Eq, Structural)]
pub enum Stage {
    Lock,
    Load,
    Log,
    Runtime,
    Terminal,
    Detection,
    Loop,
}

impl Stage {
    pub open spec fn place(self) -> int {
        match self {
            Stage::Lock => 0,
            Stage::Load => 1,
            Stage::Log => 2,
            Stage::Runtime => 3,
            Stage::Terminal => 4,
            Stage::Detection => 5,
            Stage::Loop => 6,
        }
    }
}

#[derive(Clone, Copy, Debug, PartialEq, Eq, Structural)]
pub enum StageStep {
    Start(Stage),
    End(Interruption),
}

/// What follows the stages done so far: the next one, unless the run was
/// interrupted meanwhile.
pub fn next_stage(done: Option<Stage>, fatal: bool, requested: bool) -> (step: StageStep)
    requires
        done != Some(Stage::Loop),
    ensures
        match interruption(fatal, requested) {
            Some(found) => step == StageStep::End(found),
            None => step matches StageStep::Start(stage) && stage.place() == match done {
                Some(last) => last.place() + 1,
                None => 0,
            },
        },
{
    if let Some(found) = interrupted(fatal, requested) {
        return StageStep::End(found);
    }
    StageStep::Start(
        match done {
            None => Stage::Lock,
            Some(Stage::Lock) => Stage::Load,
            Some(Stage::Load) => Stage::Log,
            Some(Stage::Log) => Stage::Runtime,
            Some(Stage::Runtime) => Stage::Terminal,
            Some(Stage::Terminal) => Stage::Detection,
            Some(_) => Stage::Loop,
        },
    )
}

/// What the first frame says of the state that was loaded.
pub open spec fn first_status(repair: Option<QueueRepair>, writable: bool) -> Option<Seq<char>> {
    match repair {
        Some(repair) => {
            let reset = "Queue data was reset ("@ + match repair.reset {
                crate::persistence::queue_codec::QueueReset::ActiveReference(_) =>
                    "the active queue entry"@,
                crate::persistence::queue_codec::QueueReset::WholeQueue(_) =>
                    "the queue and its active entry"@,
                crate::persistence::queue_codec::QueueReset::Playlists(_) =>
                    "one or more playlists"@,
            };
            Some(
                match repair.backup {
                    QueueBackup::Saved(path) => reset + "); backup at "@ + path@,
                    QueueBackup::Failed => reset + "); this session is not saved"@,
                },
            )
        },
        None => if writable {
            None
        } else {
            Some(STATE_NOT_SAVED@)
        },
    }
}

pub fn startup_status(repair: &Option<QueueRepair>, writable: bool) -> (status: Option<String>)
    ensures
        crate::model::opt(status) == first_status(*repair, writable),
{
    match repair {
        Some(repair) => {
            let mut text = "Queue data was reset (".to_owned();
            push_text(&mut text, repair.reset.fields_reset());
            match &repair.backup {
                QueueBackup::Saved(path) => {
                    push_text(&mut text, "); backup at ");
                    push_text(&mut text, path.as_str());
                },
                QueueBackup::Failed => {
                    push_text(&mut text, "); this session is not saved");
                },
            }
            Some(text)
        },
        None => if writable {
            None
        } else {
            Some(STATE_NOT_SAVED.to_owned())
        },
    }
}

// ------------------------------------------------------------------- draining

/// Whether a pass may take another pending event.
#[derive(Clone, Copy, Debug, PartialEq, Eq, Structural)]
pub enum Drain {
    Continue,
    Stop,
}

impl Event {
    /// Mouse motion, which nothing acts on.
    pub open spec fn is_motion(self) -> bool {
        self matches Event::Mouse(mouse) && match mouse.kind {
            MouseKind::Moved => true,
            MouseKind::Drag(_) => true,
            MouseKind::Up(_) => true,
            _ => false,
        }
    }

    pub open spec fn drain(self) -> Drain {
        if self.is_motion() {
            Drain::Continue
        } else {
            Drain::Stop
        }
    }
}

/// Whether draining may go on after `event`: only after mouse motion. Every
/// other event has a frame of its own, so that a click is tested against the
/// frame drawn after the action before it.
pub fn drain_after(event: &Event) -> (drain: Drain)
    ensures
        drain == event.drain(),
{
    match event {
        Event::Mouse(mouse) => match mouse.kind {
            MouseKind::Moved => Drain::Continue,
            MouseKind::Drag(_) => Drain::Continue,
            MouseKind::Up(_) => Drain::Continue,
            _ => Drain::Stop,
        },
        _ => Drain::Stop,
    }
}

/// One pass over the pending events.
#[derive(Clone, Copy, Debug, PartialEq, Eq, Structural)]
pub struct Pass {
    /// How many were handled.
    pub handled: usize,
    pub stopped: bool,
}

impl Pass {
    pub open spec fn wf(self) -> bool {
        self.handled <= MAX_EVENTS_PER_PASS
    }

    pub open spec fn first() -> Pass {
        Pass { handled: 0, stopped: false }
    }

    /// How long the next read may wait, in milliseconds; none once the pass is
    /// over. Only the first waits.
    pub open spec fn patience(self) -> Option<u64> {
        if self.stopped || self.handled >= MAX_EVENTS_PER_PASS {
            None
        } else if self.handled == 0 {
            Some(INPUT_POLL)
        } else {
            Some(0)
        }
    }

    /// After an event that was handled.
    pub open spec fn after(self, drain: Drain) -> Pass {
        Pass { handled: (self.handled + 1) as usize, stopped: drain == Drain::Stop }
    }

    pub fn new() -> (pass: Self)
        ensures
            pass == Pass::first(),
            pass.wf(),
    {
        Pass { handled: 0, stopped: false }
    }

    /// How long the next read may wait, in milliseconds; none once the pass is
    /// over.
    pub fn wait(&self) -> (wait: Option<u64>)
        ensures
            wait == self.patience(),
    {
        if self.stopped || self.handled >= MAX_EVENTS_PER_PASS {
            None
        } else if self.handled == 0 {
            Some(INPUT_POLL)
        } else {
            Some(0)
        }
    }

    /// Nothing was pending.
    pub fn idle(&mut self)
        ensures
            *final(self) == (Pass { stopped: true, ..*old(self) }),
    {
        self.stopped = true;
    }

    /// An event was handled. An interruption ends the pass whatever the event
    /// was.
    pub fn note(&mut self, drain: Drain, interrupted: bool)
        requires
            old(self).patience() is Some,
        ensures
            *final(self) == old(self).after(
                if interrupted {
                    Drain::Stop
                } else {
                    drain
                },
            ),
            final(self).wf(),
    {
        self.handled = self.handled + 1;
        self.stopped = interrupted || drain == Drain::Stop;
    }
}

// --------------------------------------------------------------------- events

/// Where an event goes.
#[derive(Clone, Copy, Debug, PartialEq, Eq, Structural)]
pub enum Route {
    /// The open browser.
    Browser,
    /// Nowhere: the browser's overlay is open without a browser, and closes.
    Orphaned,
    Keys,
    Mouse,
    /// The prepared cover no longer fits the screen.
    Resized,
    Nowhere,
}

/// Where an event goes.
pub fn route(event: &Event, ui: &UiState, browsing: bool) -> (route: Route)
    ensures
        route == match *event {
            Event::Key(key) => if ui@.overlay == Overlay::Browser && !key.is_chord('c')
                && !key.is_chord('l') {
                if browsing {
                    Route::Browser
                } else {
                    Route::Orphaned
                }
            } else {
                Route::Keys
            },
            Event::Mouse(_) => Route::Mouse,
            Event::Resize(_, _) => Route::Resized,
            Event::Other => Route::Nowhere,
        },
{
    match event {
        Event::Key(key) => if routes_to_browser(key, ui) {
            if browsing {
                Route::Browser
            } else {
                Route::Orphaned
            }
        } else {
            Route::Keys
        },
        Event::Mouse(_) => Route::Mouse,
        Event::Resize(_, _) => Route::Resized,
        Event::Other => Route::Nowhere,
    }
}

/// What an effect of the browser comes to: a read for its worker, or an effect
/// like any other.
#[derive(Debug, PartialEq, Eq)]
pub enum BrowserTask {
    Read(BrowseRequest),
    Perform(Effect),
}

#[verifier::ext_equal]
pub enum BrowserTaskView {
    Read(RequestView),
    Perform(EffectView),
}

impl View for BrowserTask {
    type V = BrowserTaskView;

    open spec fn view(&self) -> BrowserTaskView {
        match *self {
            BrowserTask::Read(request) => BrowserTaskView::Read(request@),
            BrowserTask::Perform(effect) => BrowserTaskView::Perform(effect@),
        }
    }
}

/// An enqueue leaves the browser open.
pub fn browser_task(effect: BrowserEffect) -> (task: BrowserTask)
    ensures
        task@ == match effect@ {
            BrowserEffectView::Request(request) => BrowserTaskView::Read(request),
            BrowserEffectView::Enqueue { dest, items } => BrowserTaskView::Perform(
                EffectView::App(CommandView::Enqueue { dest, items }),
            ),
            BrowserEffectView::Remove(id) => BrowserTaskView::Perform(
                EffectView::App(CommandView::Remove(id)),
            ),
            BrowserEffectView::Close => BrowserTaskView::Perform(EffectView::CloseBrowser),
        },
{
    match effect {
        BrowserEffect::Request(request) => BrowserTask::Read(request),
        BrowserEffect::Enqueue { dest, items } => BrowserTask::Perform(
            Effect::App(AppCommand::Enqueue { dest, items }),
        ),
        BrowserEffect::Remove(id) => BrowserTask::Perform(Effect::App(AppCommand::Remove(id))),
        BrowserEffect::Close => BrowserTask::Perform(Effect::CloseBrowser),
    }
}

/// Whether an effect may still be performed: once the screen was handed back,
/// the mouse is not captured again.
pub fn may_perform(effect: &Effect, rendering_disabled: bool) -> (may: bool)
    ensures
        may == !(rendering_disabled && effect@ is SetMouseCapture),
{
    match effect {
        Effect::SetMouseCapture(_) => !rendering_disabled,
        _ => true,
    }
}

// ------------------------------------------------------------------- browsing

/// The browser, while it is open.
#[derive(Debug)]
pub struct Browsing {
    pub state: Option<BrowserState>,
}

/// Where an answer of the worker goes.
#[derive(Debug, PartialEq, Eq)]
pub enum Landed {
    /// A folder walk: it belongs to the player, whatever became of the browser
    /// that asked for it.
    Tree(TreeCollected),
    /// The browser took it, and asks for something else.
    FollowUp(BrowseRequest),
    Taken,
}

#[verifier::ext_equal]
pub enum LandedView {
    Tree { dest: PlaylistId, items: Seq<Seq<char>> },
    FollowUp(RequestView),
    Taken,
}

impl View for Landed {
    type V = LandedView;

    open spec fn view(&self) -> LandedView {
        match *self {
            Landed::Tree(tree) => LandedView::Tree {
                dest: tree.dest,
                items: crate::model::seq(tree.items@),
            },
            Landed::FollowUp(request) => LandedView::FollowUp(request@),
            Landed::Taken => LandedView::Taken,
        }
    }
}

/// Where an answer goes, and the browser after it.
pub open spec fn landing(browser: Option<BrowserView>, result: ResultView) -> (
    Option<BrowserView>,
    LandedView,
) {
    match result {
        ResultView::TreeCollected { dest, items } => (browser, LandedView::Tree { dest, items }),
        _ => match browser {
            None => (None, LandedView::Taken),
            Some(state) => {
                let (after, follow_up) = state.applied(result);
                (
                    Some(after),
                    match follow_up {
                        Some(request) => LandedView::FollowUp(request),
                        None => LandedView::Taken,
                    },
                )
            },
        },
    }
}

impl View for Browsing {
    type V = Option<BrowserView>;

    open spec fn view(&self) -> Option<BrowserView> {
        crate::model::opt(self.state)
    }
}

impl Browsing {
    pub fn new() -> (browsing: Self)
        ensures
            browsing@ is None,
    {
        Browsing { state: None }
    }

    /// Opens the browser at `cwd`. What is added there goes to `dest` for as
    /// long as it is open. Says what is to be read first.
    pub fn open(&mut self, cwd: String, dest: PlaylistId, ui: &mut UiState) -> (first: BrowseRequest)
        ensures
            final(self)@ == Some(BrowserView::fresh(cwd@, dest)),
            final(ui)@ == (UiView { overlay: Overlay::Browser, ..old(ui)@ }),
            first@ == RequestView::Directory(cwd@),
    {
        let first = BrowseRequest::Directory(cwd.clone());
        self.state = Some(BrowserState::new(cwd, dest));
        ui.overlay = Overlay::Browser;
        first
    }

    pub fn close(&mut self, ui: &mut UiState)
        ensures
            final(self)@ is None,
            final(ui)@ == (UiView {
                overlay: if old(ui)@.overlay == Overlay::Browser {
                    Overlay::Closed
                } else {
                    old(ui)@.overlay
                },
                ..old(ui)@
            }),
    {
        self.state = None;
        if ui.overlay == Overlay::Browser {
            ui.overlay = Overlay::Closed;
        }
    }

    /// Takes in an answer of the worker.
    pub fn land(&mut self, result: BrowseResult) -> (landed: Landed)
        ensures
            (final(self)@, landed@) == landing(old(self)@, result@),
    {
        match result {
            BrowseResult::TreeCollected(tree) => Landed::Tree(tree),
            other => match self.state.take() {
                None => Landed::Taken,
                Some(mut state) => {
                    let follow_up = state.apply(other);
                    self.state = Some(state);
                    match follow_up {
                        Some(request) => Landed::FollowUp(request),
                        None => Landed::Taken,
                    }
                },
            },
        }
    }
}

/// Where the browser opens: at the active entry's directory, else the working
/// one, else the root.
pub fn start_directory(active: Option<String>, working: Option<String>) -> (cwd: String)
    ensures
        cwd@ == match (active, working) {
            (Some(active), _) => active@,
            (None, Some(working)) => working@,
            (None, None) => "/"@,
        },
{
    match (active, working) {
        (Some(active), _) => active,
        (None, Some(working)) => working,
        (None, None) => "/".to_owned(),
    }
}

// --------------------------------------------------------------------- passes

/// What ends a pass.
#[derive(Clone, Copy, Debug, PartialEq, Eq, Structural)]
pub enum PassStep {
    End(Interruption),
    /// Nothing is drawn any more.
    Skip,
    Draw,
}

pub fn pass_step(fatal: bool, requested: bool, rendering_disabled: bool) -> (step: PassStep)
    ensures
        step == match interruption(fatal, requested) {
            Some(found) => PassStep::End(found),
            None => if rendering_disabled {
                PassStep::Skip
            } else {
                PassStep::Draw
            },
        },
{
    if let Some(found) = interrupted(fatal, requested) {
        return PassStep::End(found);
    }
    if rendering_disabled {
        PassStep::Skip
    } else {
        PassStep::Draw
    }
}

/// Whether the spectrum is analysed: only while it has a place on the screen
/// and something plays.
pub fn wants_analysis(place: Option<Rect>, phase: PlaybackPhase) -> (wants: bool)
    ensures
        wants == (place is Some && phase == PlaybackPhase::Playing),
{
    place.is_some() && phase == PlaybackPhase::Playing
}

// ------------------------------------------------------------------- teardown

/// How a run came to its end.
#[derive(Debug, PartialEq, Eq)]
pub enum Ending<E> {
    Interrupted(Interruption),
    Failed(E),
}

/// Why a run failed.
#[derive(Debug, PartialEq, Eq)]
pub enum RunError<E> {
    WorkerPanicked,
    Failed(E),
}

/// What a run reports. A signal that was recorded stands before a failure, but
/// not before a panic elsewhere.
pub fn report<E>(ending: Ending<E>, signalled: RunOutcome) -> (outcome: Result<
    RunOutcome,
    RunError<E>,
>)
    ensures
        outcome == match ending {
            Ending::Interrupted(Interruption::WorkerPanicked) => Err(RunError::WorkerPanicked),
            Ending::Interrupted(Interruption::Requested) => Ok(signalled),
            Ending::Failed(error) => match signalled {
                RunOutcome::Signalled(_) => Ok(signalled),
                RunOutcome::Completed => Err(RunError::Failed(error)),
            },
        },
{
    match ending {
        Ending::Interrupted(Interruption::WorkerPanicked) => Err(RunError::WorkerPanicked),
        Ending::Interrupted(Interruption::Requested) => Ok(signalled),
        Ending::Failed(error) => match signalled {
            RunOutcome::Signalled(_) => Ok(signalled),
            RunOutcome::Completed => Err(RunError::Failed(error)),
        },
    }
}

/// What is printed of the last write, where it did not succeed.
pub fn flush_message(report: &Option<FlushReport>) -> (message: Option<String>)
    ensures
        crate::model::opt(message) == match *report {
            Some(FlushReport::Failed(error)) => Some("State was not saved: "@ + error@),
            Some(FlushReport::Unconfirmed) => Some(
                "State was not saved: the final write was not confirmed in time"@,
            ),
            _ => None,
        },
{
    match report {
        Some(FlushReport::Failed(error)) => {
            let mut message = "State was not saved: ".to_owned();
            push_text(&mut message, error.as_str());
            Some(message)
        },
        Some(FlushReport::Unconfirmed) => Some(
            "State was not saved: the final write was not confirmed in time".to_owned(),
        ),
        _ => None,
    }
}

// ----------------------------------------------------------------------- laws

/// How many of the pending events a pass takes that no handler interrupts.
pub open spec fn taken(pass: Pass, pending: Seq<Event>) -> int
    decreases pending.len(),
{
    if pass.patience() is None || pending.len() == 0 {
        0
    } else {
        1 + taken(pass.after(pending[0].drain()), pending.skip(1))
    }
}

proof fn taken_from(pass: Pass, pending: Seq<Event>)
    requires
        pass.wf(),
        !pass.stopped,
    ensures
        0 <= taken(pass, pending) <= pending.len(),
        pass.handled + taken(pass, pending) <= MAX_EVENTS_PER_PASS,
        forall|i: int|
            0 <= i < taken(pass, pending) - 1 ==> (#[trigger] pending[i]).is_motion(),
        taken(pass, pending) < pending.len() && pass.handled + taken(pass, pending)
            < MAX_EVENTS_PER_PASS ==> taken(pass, pending) > 0 && !pending[taken(pass, pending)
            - 1].is_motion(),
    decreases pending.len(),
{
    if pass.patience() is Some && pending.len() > 0 {
        let next = pass.after(pending[0].drain());
        let rest = pending.skip(1);
        if !next.stopped {
            taken_from(next, rest);
            assert forall|i: int| 0 <= i < taken(pass, pending) - 1 implies (
            #[trigger] pending[i]).is_motion() by {
                if i > 0 {
                    assert(rest[i - 1] == pending[i]);
                }
            }
        }
    }
}

/// A pass takes a bounded number of events, nothing but mouse motion before the
/// last of them; and it stops short of both the bound and the end of what is
/// pending only behind an event that something acts on. So a flood of motion
/// holds a key back by no more than one pass for each full bound of it.
pub proof fn motion_holds_nothing_back(pending: Seq<Event>)
    ensures
        ({
            let count = taken(Pass::first(), pending);
            &&& 0 <= count <= pending.len()
            &&& count <= MAX_EVENTS_PER_PASS
            &&& forall|i: int| 0 <= i < count - 1 ==> (#[trigger] pending[i]).is_motion()
            &&& count < pending.len() && count < MAX_EVENTS_PER_PASS ==> count > 0
                && !pending[count - 1].is_motion()
        }),
{
    taken_from(Pass::first(), pending);
}

/// A folder walk reaches the player whether its browser is open, closed, or
/// showing something else, and it goes to the playlist that it was asked for.
pub proof fn tree_always_lands(
    browser: Option<BrowserView>,
    dest: PlaylistId,
    items: Seq<Seq<char>>,
)
    ensures
        landing(browser, ResultView::TreeCollected { dest, items }) == (
            browser,
            LandedView::Tree { dest, items },
        ),
{
}

/// A key, a click, the wheel and a new size each end the pass, so that each has a frame of
/// its own; the mouse in motion does not. A pass begins by waiting and waits no more once
/// something came, and it is over after its bound.
pub proof fn acted_events_end_the_pass(event: Event, pass: Pass)
    requires
        pass.handled < MAX_EVENTS_PER_PASS,
        !pass.stopped,
    ensures
        event is Key || event is Resize || event is Other ==> pass.after(event.drain()).patience()
            is None,
        (event matches Event::Mouse(mouse) && (mouse.kind is Down || mouse.kind
            == MouseKind::ScrollUp || mouse.kind == MouseKind::ScrollDown)) ==> pass.after(
            event.drain(),
        ).patience() is None,
        (event matches Event::Mouse(mouse) && (mouse.kind == MouseKind::Moved || mouse.kind is Drag
            || mouse.kind is Up)) && pass.handled + 1 < MAX_EVENTS_PER_PASS ==> pass.after(
            event.drain(),
        ).patience() == Some(0u64),
        Pass::first().patience() == Some(INPUT_POLL),
        pass.handled + 1 >= MAX_EVENTS_PER_PASS ==> pass.after(event.drain()).patience() is None,
{
}

/// A panic elsewhere ends a run before any request does, and nothing else ends it.
pub proof fn panic_stands_before_a_request(fatal: bool, requested: bool)
    ensures
        fatal ==> interruption(fatal, requested) == Some(Interruption::WorkerPanicked),
        !fatal && requested ==> interruption(fatal, requested) == Some(Interruption::Requested),
        !fatal && !requested ==> interruption(fatal, requested) is None,
{
}

/// An answer is taken in by the browser that is open, and what that asks for then is asked;
/// with none open it is dropped.
pub proof fn answers_reach_the_browser(browser: Option<BrowserView>, result: ResultView)
    requires
        !(result is TreeCollected),
    ensures
        browser is None ==> landing(browser, result) == (None::<BrowserView>, LandedView::Taken),
        browser matches Some(state) ==> landing(browser, result).0 == Some(state.applied(result).0)
            && landing(browser, result).1 == match state.applied(result).1 {
            Some(request) => LandedView::FollowUp(request),
            None => LandedView::Taken,
        },
{
}

/// The first frame says nothing of a state that was read whole and can be written, and
/// otherwise what was lost: where the bytes before a repair were kept, or that nothing is
/// saved.
pub proof fn loss_is_told(repair: Option<QueueRepair>, writable: bool)
    ensures
        first_status(repair, writable) is None <==> repair is None && writable,
        repair is None && !writable ==> first_status(repair, writable) == Some(STATE_NOT_SAVED@),
        (repair matches Some(repair) && repair.backup matches QueueBackup::Saved(path)) ==> {
            let path = repair.unwrap().backup->Saved_0@;
            let text = first_status(repair, writable).unwrap();
            text.len() >= path.len() && text.skip(text.len() - path.len()) == path
        },
        (repair matches Some(repair) && repair.backup is Failed) ==> {
            let end = "); this session is not saved"@;
            let text = first_status(repair, writable).unwrap();
            text.len() >= end.len() && text.skip(text.len() - end.len()) == end
        },
{
    if let Some(repair) = repair {
        let text = first_status(Some(repair), writable).unwrap();
        match repair.backup {
            QueueBackup::Saved(path) => {
                assert(text.skip(text.len() - path@.len()) =~= path@);
            },
            QueueBackup::Failed => {
                let end = "); this session is not saved"@;
                assert(text.skip(text.len() - end.len()) =~= end);
            },
        }
    }
}

} // verus!
