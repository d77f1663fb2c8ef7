//! Driving a checker through its windows: wait for the main window, send the
//! keys that open the checker and make it write a report, and wait for the
//! report.
//!
//! A [`GuiSession`] decides and the caller acts. Each step gives the caller
//! one [`GuiAction`] to carry out; the caller reports what came of it as an
//! [`Event`], which leads to the next step, until the action is `Finish`.

use vstd::prelude::*;
use crate::event::{Event, EventView};
use crate::input::{InputEvent, InputEventView, Key};
use crate::poller::{
    await_file, lemma_poll_comes_to_an_end, PollerStep, PollerStepView, ReportPoller,
};
use crate::timeouts::Timeouts;
use crate::window::{
    wait_for_child_window, LocatorStep, LocatorStepView, WindowHandle, WindowLocator,
};
use crate::workflow::{ScriptStep, Workflow};

verus! {

/// The pause between two looks for the report, in milliseconds.
pub const REPORT_POLL_INTERVAL_MS: u128 = 100;

/// Why the main window was not found.
#[derive(Debug, Clone, Copy, PartialEq, Eq, Structural)]
pub enum SynchronizationError {
    /// It did not appear in time.
    NotFound,
    /// So many windows appeared where one was waited for.
    Ambiguous(usize),
}

/// Why a checker gave no report.
#[derive(Debug, Clone, PartialEq, Eq)]
pub enum GuiError {
    /// The main window was not found.
    Synchronization(SynchronizationError),
    /// The report of an earlier run could not be removed, for this reason.
    Cleanup(String),
    /// The report was not there after so many milliseconds.
    Timeout(u128),
    /// The report was there and could not be read, for this reason.
    Read(String),
}

/// A `GuiError`, with its texts as sequences of characters.
pub enum GuiErrorView {
    Synchronization(SynchronizationError),
    Cleanup(Seq<char>),
    Timeout(u128),
    Read(Seq<char>),
}

impl View for GuiError {
    type V = GuiErrorView;

    open spec fn view(&self) -> GuiErrorView {
        match self {
            GuiError::Synchronization(error) => GuiErrorView::Synchronization(*error),
            GuiError::Cleanup(reason) => GuiErrorView::Cleanup(reason@),
            GuiError::Timeout(millis) => GuiErrorView::Timeout(*millis),
            GuiError::Read(reason) => GuiErrorView::Read(reason@),
        }
    }
}

/// What the caller is asked to do next.
#[derive(Debug, PartialEq, Eq)]
pub enum GuiAction {
    /// Search the visible windows of this process whose name matches the
    /// pattern, and report what the search printed as `Output`.
    Search(String),
    /// Pause for so many milliseconds.
    Sleep(u128),
    /// Give this window the focus, and wait until it has it.
    Focus(WindowHandle),
    /// Take this window off the screen, and wait until it is gone.
    Unmap(WindowHandle),
    /// Send this to the window with the focus.
    Input(InputEvent),
    /// Remove the file at this path if there is one, and report a failure to
    /// do so as `Failed`.
    RemoveStale(String),
    /// Look whether there is a file at this path, and report it as `Present`.
    Probe(String),
    /// Read the file at this path, and report what it holds as `Output` or
    /// why it cannot be read as `Failed`.
    Read(String),
    /// The session is over: this is the text of the report, or why there is
    /// none.
    Finish(Result<String, GuiError>),
    /// The session was over before: there is nothing to do.
    Idle,
}

/// A `GuiAction`, with its texts as sequences of characters.
pub enum GuiActionView {
    Search(Seq<char>),
    Sleep(u128),
    Focus(Seq<char>),
    Unmap(Seq<char>),
    Input(InputEventView),
    RemoveStale(Seq<char>),
    Probe(Seq<char>),
    Read(Seq<char>),
    Finish(Result<Seq<char>, GuiErrorView>),
    Idle,
}

impl View for GuiAction {
    type V = GuiActionView;

    open spec fn view(&self) -> GuiActionView {
        match self {
            GuiAction::Search(pattern) => GuiActionView::Search(pattern@),
            GuiAction::Sleep(millis) => GuiActionView::Sleep(*millis),
            GuiAction::Focus(window) => GuiActionView::Focus(window@),
            GuiAction::Unmap(window) => GuiActionView::Unmap(window@),
            GuiAction::Input(event) => GuiActionView::Input(event@),
            GuiAction::RemoveStale(path) => GuiActionView::RemoveStale(path@),
            GuiAction::Probe(path) => GuiActionView::Probe(path@),
            GuiAction::Read(path) => GuiActionView::Read(path@),
            GuiAction::Finish(Ok(text)) => GuiActionView::Finish(Ok(text@)),
            GuiAction::Finish(Err(error)) => GuiActionView::Finish(Err(error@)),
            GuiAction::Idle => GuiActionView::Idle,
        }
    }
}

/// What a session is doing.
#[derive(Debug, Clone, Copy, PartialEq, Eq, Structural)]
pub enum GuiPhase {
    /// It waits for the main window.
    Locating,
    /// It is on its way through the windows.
    Scripting,
    /// It waits for the report.
    Awaiting,
    /// It is over.
    Finished,
}

/// A session with a checker.
#[derive(Debug)]
pub struct GuiSession {
    pub workflow: Workflow,
    pub timeouts: Timeouts,
    pub phase: GuiPhase,
    /// The wait for the main window.
    pub locator: WindowLocator,
    /// Which step of the way through the windows was asked for last.
    pub at: usize,
    /// The wait for the report.
    pub poller: ReportPoller,
    /// The main window, once it was found.
    pub window: Option<WindowHandle>,
}

/// A session, with the handle of its window as a sequence of characters.
pub struct GuiSessionView {
    pub workflow: Workflow,
    pub timeouts: Timeouts,
    pub phase: GuiPhase,
    pub locator: WindowLocator,
    pub at: usize,
    pub poller: ReportPoller,
    pub window: Option<Seq<char>>,
}

impl View for GuiSession {
    type V = GuiSessionView;

    open spec fn view(&self) -> GuiSessionView {
        GuiSessionView {
            workflow: self.workflow,
            timeouts: self.timeouts,
            phase: self.phase,
            locator: self.locator,
            at: self.at,
            poller: self.poller,
            window: match self.window {
                Some(window) => Some(window@),
                None => None,
            },
        }
    }
}

impl GuiSessionView {
    /// The session in the phase `phase`.
    pub open spec fn in_phase(self, phase: GuiPhase) -> GuiSessionView {
        GuiSessionView { phase, ..self }
    }

    /// The handle of the main window; empty while there is none.
    pub open spec fn handle(self) -> Seq<char> {
        match self.window {
            Some(window) => window,
            None => Seq::empty(),
        }
    }

    /// What the caller is asked to do for the step `step`. A dialog is given
    /// the time that the session allows for it to open.
    pub open spec fn action_of(self, step: ScriptStep) -> GuiActionView {
        match step {
            ScriptStep::Tap(key) => GuiActionView::Input(InputEventView::Tap(key)),
            ScriptStep::Combo(modifier, key) => GuiActionView::Input(
                InputEventView::Combo(modifier, key),
            ),
            ScriptStep::TypeReportPath => GuiActionView::Input(
                InputEventView::Text(self.workflow.report_path_of()),
            ),
            ScriptStep::Settle => GuiActionView::Sleep(self.timeouts.popup_launch),
            ScriptStep::FocusWindow => GuiActionView::Focus(self.handle()),
            ScriptStep::UnmapWindow => GuiActionView::Unmap(self.handle()),
        }
    }

    /// The session as it takes the step `at` of its way through the windows.
    /// Behind the last step the wait for the report begins, with the removal
    /// of what an earlier run has left.
    pub open spec fn script_from(self, at: int) -> (GuiSessionView, GuiActionView) {
        if 0 <= at < self.workflow.script_of().len() {
            (
                GuiSessionView { phase: GuiPhase::Scripting, at: at as usize, ..self },
                self.action_of(self.workflow.script_of()[at]),
            )
        } else {
            (
                self.in_phase(GuiPhase::Awaiting),
                GuiActionView::RemoveStale(self.workflow.report_path_of()),
            )
        }
    }

    /// The session after a step of its wait for the main window. The first
    /// window that was found is the main window, and the way through the
    /// windows begins; a wait that failed ends the session.
    pub open spec fn after_search(self, stepped: (WindowLocator, LocatorStepView)) -> (
        GuiSessionView,
        GuiActionView,
    ) {
        let session = GuiSessionView { locator: stepped.0, ..self };
        match stepped.1 {
            LocatorStepView::Search => (
                session,
                GuiActionView::Search(self.workflow.window_pattern_of()),
            ),
            LocatorStepView::Sleep(millis) => (session, GuiActionView::Sleep(millis)),
            LocatorStepView::Found(windows) => GuiSessionView {
                window: if windows.len() > 0 {
                    Some(windows[0])
                } else {
                    None
                },
                ..session
            }.script_from(0),
            LocatorStepView::Ambiguous(count) => (
                session.in_phase(GuiPhase::Finished),
                GuiActionView::Finish(
                    Err(GuiErrorView::Synchronization(SynchronizationError::Ambiguous(count))),
                ),
            ),
            LocatorStepView::NotFound => (
                session.in_phase(GuiPhase::Finished),
                GuiActionView::Finish(
                    Err(GuiErrorView::Synchronization(SynchronizationError::NotFound)),
                ),
            ),
        }
    }

    /// The session after a step of its wait for the report. Once nothing is
    /// in the way of the report, the key that starts the checker is sent.
    pub open spec fn after_poll(self, stepped: (ReportPoller, PollerStepView)) -> (
        GuiSessionView,
        GuiActionView,
    ) {
        let session = GuiSessionView { poller: stepped.0, ..self };
        let path = self.workflow.report_path_of();
        match stepped.1 {
            PollerStepView::RemoveStale => (session, GuiActionView::RemoveStale(path)),
            PollerStepView::Ready => (
                session,
                GuiActionView::Input(InputEventView::Tap(Key::Return)),
            ),
            PollerStepView::Probe => (session, GuiActionView::Probe(path)),
            PollerStepView::Sleep(millis) => (session, GuiActionView::Sleep(millis)),
            PollerStepView::Read => (session, GuiActionView::Read(path)),
            PollerStepView::Contents(text) => (
                session.in_phase(GuiPhase::Finished),
                GuiActionView::Finish(Ok(text)),
            ),
            PollerStepView::CleanupError(reason) => (
                session.in_phase(GuiPhase::Finished),
                GuiActionView::Finish(Err(GuiErrorView::Cleanup(reason))),
            ),
            PollerStepView::ReadError(reason) => (
                session.in_phase(GuiPhase::Finished),
                GuiActionView::Finish(Err(GuiErrorView::Read(reason))),
            ),
            PollerStepView::Timeout(millis) => (
                session.in_phase(GuiPhase::Finished),
                GuiActionView::Finish(Err(GuiErrorView::Timeout(millis))),
            ),
        }
    }

    /// The session after `event`, and what the caller is asked to do then.
    /// What comes in after a step of the way through the windows is not
    /// looked at: keys and pauses are sent, and nothing answers them.
    pub open spec fn next(self, event: EventView) -> (GuiSessionView, GuiActionView) {
        match self.phase {
            GuiPhase::Locating => self.after_search(self.locator.next(event)),
            GuiPhase::Scripting => self.script_from(self.at + 1),
            GuiPhase::Awaiting => self.after_poll(self.poller.next(event)),
            GuiPhase::Finished => (self, GuiActionView::Idle),
        }
    }

    /// The session with the checker of `workflow` as it begins, and what the
    /// caller is asked to do first. It waits for one main window as long as
    /// `timeouts.window_launch` says, gives each dialog the time
    /// `timeouts.popup_launch`, and waits for the report as long as
    /// `timeouts.execution` says.
    pub open spec fn start(workflow: Workflow, timeouts: Timeouts) -> (
        GuiSessionView,
        GuiActionView,
    ) {
        GuiSessionView {
            workflow,
            timeouts,
            phase: GuiPhase::Locating,
            locator: WindowLocator::start(timeouts.window_launch, 1).0,
            at: 0,
            poller: ReportPoller::start(REPORT_POLL_INTERVAL_MS, timeouts.execution).unwrap(),
            window: None,
        }.after_search(WindowLocator::start(timeouts.window_launch, 1))
    }
}

impl GuiSession {
    /// A copy of the handle of the main window.
    fn handle(&self) -> (handle: WindowHandle)
        ensures
            handle@ == self@.handle(),
    {
        match &self.window {
            Some(window) => window.clone(),
            None => WindowHandle { id: String::new() },
        }
    }

    /// What the caller is asked to do for the step `step`.
    fn action_for(&self, step: ScriptStep) -> (action: GuiAction)
        ensures
            action@ == self@.action_of(step),
    {
        match step {
            ScriptStep::Tap(key) => GuiAction::Input(InputEvent::Tap(key)),
            ScriptStep::Combo(modifier, key) => GuiAction::Input(InputEvent::Combo(modifier, key)),
            ScriptStep::TypeReportPath => GuiAction::Input(
                InputEvent::Text(self.workflow.report_path().to_owned()),
            ),
            ScriptStep::Settle => GuiAction::Sleep(self.timeouts.popup_launch),
            ScriptStep::FocusWindow => GuiAction::Focus(self.handle()),
            ScriptStep::UnmapWindow => GuiAction::Unmap(self.handle()),
        }
    }

    /// Ends the session.
    fn finish(self) -> (ended: GuiSession)
        ensures
            ended@ == self@.in_phase(GuiPhase::Finished),
    {
        let mut ended = self;
        ended.phase = GuiPhase::Finished;
        ended
    }

    /// Takes the step `at` of the way through the windows, if there is one.
    fn script_from(self, at: Option<usize>) -> (stepped: (GuiSession, GuiAction))
        ensures
            (stepped.0@, stepped.1@) == self@.script_from(
                match at {
                    Some(at) => at as int,
                    None => -1,
                },
            ),
    {
        let script = self.workflow.script();
        let mut session = self;
        match at {
            Some(at) if at < script.len() => {
                let action = session.action_for(script[at]);
                session.phase = GuiPhase::Scripting;
                session.at = at;
                (session, action)
            },
            _ => {
                let path = session.workflow.report_path().to_owned();
                session.phase = GuiPhase::Awaiting;
                (session, GuiAction::RemoveStale(path))
            },
        }
    }

    /// Goes on after a step of the wait for the main window.
    fn after_search(self, locator: WindowLocator, step: LocatorStep) -> (stepped: (
        GuiSession,
        GuiAction,
    ))
        ensures
            (stepped.0@, stepped.1@) == self@.after_search((locator, step@)),
    {
        let mut session = self;
        session.locator = locator;
        match step {
            LocatorStep::Search => {
                let pattern = session.workflow.window_pattern().to_owned();
                (session, GuiAction::Search(pattern))
            },
            LocatorStep::Sleep(millis) => (session, GuiAction::Sleep(millis)),
            LocatorStep::Found(windows) => {
                if windows.len() > 0 {
                    session.window = Some(windows[0].clone());
                } else {
                    session.window = None;
                }
                session.script_from(Some(0))
            },
            LocatorStep::Ambiguous(count) => (
                session.finish(),
                GuiAction::Finish(
                    Err(GuiError::Synchronization(SynchronizationError::Ambiguous(count))),
                ),
            ),
            LocatorStep::NotFound => (
                session.finish(),
                GuiAction::Finish(
                    Err(GuiError::Synchronization(SynchronizationError::NotFound)),
                ),
            ),
        }
    }

    /// Goes on after a step of the wait for the report.
    fn after_poll(self, poller: ReportPoller, step: PollerStep) -> (stepped: (
        GuiSession,
        GuiAction,
    ))
        ensures
            (stepped.0@, stepped.1@) == self@.after_poll((poller, step@)),
    {
        let mut session = self;
        session.poller = poller;
        match step {
            PollerStep::RemoveStale => {
                let path = session.workflow.report_path().to_owned();
                (session, GuiAction::RemoveStale(path))
            },
            PollerStep::Ready => (session, GuiAction::Input(InputEvent::Tap(Key::Return))),
            PollerStep::Probe => {
                let path = session.workflow.report_path().to_owned();
                (session, GuiAction::Probe(path))
            },
            PollerStep::Sleep(millis) => (session, GuiAction::Sleep(millis)),
            PollerStep::Read => {
                let path = session.workflow.report_path().to_owned();
                (session, GuiAction::Read(path))
            },
            PollerStep::Contents(text) => (session.finish(), GuiAction::Finish(Ok(text))),
            PollerStep::CleanupError(reason) => (
                session.finish(),
                GuiAction::Finish(Err(GuiError::Cleanup(reason))),
            ),
            PollerStep::ReadError(reason) => (
                session.finish(),
                GuiAction::Finish(Err(GuiError::Read(reason))),
            ),
            PollerStep::Timeout(millis) => (
                session.finish(),
                GuiAction::Finish(Err(GuiError::Timeout(millis))),
            ),
        }
    }

    /// Begins the session with the checker of `workflow`: see
    /// [`GuiSessionView::start`].
    pub fn begin(workflow: Workflow, timeouts: Timeouts) -> (begun: (GuiSession, GuiAction))
        ensures
            (begun.0@, begun.1@) == GuiSessionView::start(workflow, timeouts),
    {
        let (locator, step) = WindowLocator::new(timeouts.window_launch, 1);
        let poller = ReportPoller::new(REPORT_POLL_INTERVAL_MS, timeouts.execution).unwrap();
        let session = GuiSession {
            workflow,
            timeouts,
            phase: GuiPhase::Locating,
            locator,
            at: 0,
            poller,
            window: None,
        };
        session.after_search(locator, step)
    }

    /// Takes the session one step on, after `event`: see
    /// [`GuiSessionView::next`].
    pub fn advance(self, event: Event) -> (stepped: (GuiSession, GuiAction))
        ensures
            (stepped.0@, stepped.1@) == self@.next(event@),
    {
        match self.phase {
            GuiPhase::Locating => {
                let (locator, step) = wait_for_child_window(self.locator, &event);
                self.after_search(locator, step)
            },
            GuiPhase::Scripting => {
                let at = self.at.checked_add(1);
                self.script_from(at)
            },
            GuiPhase::Awaiting => {
                let (poller, step) = await_file(self.poller, event);
                self.after_poll(poller, step)
            },
            GuiPhase::Finished => (self, GuiAction::Idle),
        }
    }
}

/// Begins a session with the electrical rules checker: the schematic editor
/// is running, and the session goes from its main window to the report. What
/// comes back is the session and what the caller is asked to do first.
pub fn get_erc_output_from_gui(timeouts: Timeouts) -> (begun: (GuiSession, GuiAction))
    ensures
        (begun.0@, begun.1@) == GuiSessionView::start(Workflow::Erc, timeouts),
{
    GuiSession::begin(Workflow::Erc, timeouts)
}

/// Begins a session with the design rules checker: the board editor is
/// running, and the session goes from its main window to the report. What
/// comes back is the session and what the caller is asked to do first.
pub fn get_drc_output_from_gui(timeouts: Timeouts) -> (begun: (GuiSession, GuiAction))
    ensures
        (begun.0@, begun.1@) == GuiSessionView::start(Workflow::Drc, timeouts),
{
    GuiSession::begin(Workflow::Drc, timeouts)
}

impl GuiSessionView {
    /// How many steps of the way through the windows are still to be asked
    /// for.
    pub open spec fn script_left(self) -> nat {
        if self.at < self.workflow.script_of().len() {
            (self.workflow.script_of().len() - self.at) as nat
        } else {
            0
        }
    }

    /// More steps than the session can still take, whatever comes in.
    pub open spec fn steps_left(self) -> nat {
        match self.phase {
            GuiPhase::Locating => self.locator.steps_left() + self.workflow.script_of().len()
                + self.poller.steps_left() + 3,
            GuiPhase::Scripting => self.script_left() + self.poller.steps_left() + 2,
            GuiPhase::Awaiting => self.poller.steps_left() + 1,
            GuiPhase::Finished => 0,
        }
    }

    /// More steps than a session with the checker of `workflow` can take
    /// from its beginning.
    pub open spec fn steps_at_most(workflow: Workflow, timeouts: Timeouts) -> nat {
        WindowLocator::start(timeouts.window_launch, 1).0.steps_left()
            + workflow.script_of().len() + ReportPoller::start(
            REPORT_POLL_INTERVAL_MS,
            timeouts.execution,
        ).unwrap().steps_left() + 3
    }
}

/// Whatever comes in, each step of a session that is not over leaves fewer
/// steps to take than there were, so that no session goes on for ever:
/// provided that the pause between two looks for the report is not 0, which
/// the step keeps so. A session that asks for `Finish` is over.
pub proof fn lemma_session_comes_to_an_end(session: GuiSessionView, event: EventView)
    requires
        session.poller.interval > 0,
    ensures
        session.next(event).0.poller.interval == session.poller.interval,
        session.phase != GuiPhase::Finished ==> session.next(event).0.steps_left()
            < session.steps_left(),
        session.next(event).1 is Finish ==> session.next(event).0.phase == GuiPhase::Finished,
{
    lemma_poll_comes_to_an_end(session.poller, event);
}

/// A session begins with the pause between two looks for the report that is
/// not 0, and with no more steps to take than `steps_at_most` says.
pub proof fn lemma_session_begins_bounded(workflow: Workflow, timeouts: Timeouts)
    ensures
        GuiSessionView::start(workflow, timeouts).0.poller.interval > 0,
        GuiSessionView::start(workflow, timeouts).0.steps_left() <= GuiSessionView::steps_at_most(
            workflow,
            timeouts,
        ),
{
}

} // verus!
