//! A whole run of a checker: check the file, start the display and the
//! editor, drive the checker to its report, read the report, and let go of
//! what was started.
//!
//! A [`Session`] decides and the caller acts, as with a
//! [`GuiSession`](crate::gui::GuiSession). The run keeps the programs that
//! were started in the order in which they were started, and has them let go
//! in the opposite order before it ends, whatever way it ends.

use vstd::prelude::*;
use crate::event::{Event, EventView};
use crate::gui::{
    lemma_session_comes_to_an_end, GuiAction, GuiActionView, GuiError, GuiErrorView, GuiPhase,
    GuiSession, GuiSessionView,
};
use crate::process::{
    display_name, input_check, path_extension, Eeschema, Launch, LaunchView, Pcbnew,
    StreamPolicy, ValidationError, Xvfb, XVFB_PORT,
};
use crate::report::ParseError;
use crate::timeouts::{DrcOptions, ErcOptions, Timeouts};
use crate::workflow::{Outcome, ScriptStep, Workflow};

verus! {

/// A program that a run starts.
#[derive(Debug, Clone, Copy, PartialEq, Eq, Structural)]
pub enum Process {
    /// The virtual display.
    Display,
    /// The editor whose checker is run.
    Cad,
}

/// Why a run gave no result.
#[derive(Debug, Clone, PartialEq, Eq)]
pub enum SessionError {
    /// The file cannot be handed to the checker. Nothing was started.
    Validation(ValidationError),
    /// This program could not be started, for this reason.
    Spawn(Process, String),
    /// The checker gave no report.
    Gui(GuiError),
    /// The report, which is this text, could not be read into counts.
    Parse(ParseError, String),
}

/// A `SessionError`, with its texts as sequences of characters.
pub enum SessionErrorView {
    Validation(ValidationError),
    Spawn(Process, Seq<char>),
    Gui(GuiErrorView),
    Parse(ParseError, Seq<char>),
}

impl View for SessionError {
    type V = SessionErrorView;

    open spec fn view(&self) -> SessionErrorView {
        match self {
            SessionError::Validation(error) => SessionErrorView::Validation(*error),
            SessionError::Spawn(process, reason) => SessionErrorView::Spawn(*process, reason@),
            SessionError::Gui(error) => SessionErrorView::Gui(error@),
            SessionError::Parse(error, text) => SessionErrorView::Parse(*error, text@),
        }
    }
}

/// What the caller is asked to do next.
#[derive(Debug, PartialEq, Eq)]
pub enum Action {
    /// Start this program in this way, keep it, and report a failure to start
    /// it as `Failed`.
    Spawn(Process, Launch),
    /// Do this for the session with the checker.
    Gui(GuiAction),
    /// Read what this program has written to the streams that are kept of it.
    CaptureDiagnostics(Process),
    /// End this program and let go of it.
    Release(Process),
    /// The run is over: this is what the checker found, or why there is no
    /// result.
    Finish(Result<Outcome, SessionError>),
    /// The run was over before: there is nothing to do.
    Idle,
}

/// An `Action`, with its texts as sequences of characters.
pub enum ActionView {
    Spawn(Process, LaunchView),
    Gui(GuiActionView),
    CaptureDiagnostics(Process),
    Release(Process),
    Finish(Result<Outcome, SessionErrorView>),
    Idle,
}

impl View for Action {
    type V = ActionView;

    open spec fn view(&self) -> ActionView {
        match self {
            Action::Spawn(process, launch) => ActionView::Spawn(*process, launch@),
            Action::Gui(action) => ActionView::Gui(action@),
            Action::CaptureDiagnostics(process) => ActionView::CaptureDiagnostics(*process),
            Action::Release(process) => ActionView::Release(*process),
            Action::Finish(Ok(outcome)) => ActionView::Finish(Ok(*outcome)),
            Action::Finish(Err(error)) => ActionView::Finish(Err(error@)),
            Action::Idle => ActionView::Idle,
        }
    }
}

/// How far a run has come.
#[derive(Debug, Clone, Copy, PartialEq, Eq, Structural)]
pub enum Stage {
    /// Nothing is running.
    Idle,
    /// The display is running.
    DisplayReady,
    /// The editor is running, and its main window is waited for.
    ProcessSpawned,
    /// The main window is there, and is given or denied the focus.
    WindowLocated,
    /// Keys are sent.
    InputSequenced,
    /// A dialog is given the time to open.
    PopupWaited,
    /// The report is waited for.
    ArtifactAwaited,
    /// The run has what the checker found.
    Parsed,
    /// The run has failed.
    Failed,
}

/// What a run is doing.
#[derive(Debug, Clone, Copy, PartialEq, Eq, Structural)]
pub enum SessionPhase {
    /// The start of the display was asked for.
    SpawningDisplay,
    /// The start of the editor was asked for.
    SpawningCad,
    /// The session with the checker is under way.
    Driving,
    /// What the programs have written is being read, after a failure.
    Capturing,
    /// The programs are being let go.
    Releasing,
    /// The run is over.
    Finished,
}

/// A run of a checker.
#[derive(Debug)]
pub struct Session {
    pub workflow: Workflow,
    pub timeouts: Timeouts,
    /// Where the file is that the checker is run on.
    pub path: String,
    pub phase: SessionPhase,
    /// The programs that were started and not let go yet, in the order in
    /// which they were started.
    pub held: Vec<Process>,
    /// Of how many of these the streams have been asked for.
    pub captured: usize,
    /// The session with the checker, once the editor is running.
    pub gui: Option<GuiSession>,
    /// How the run ends, once that is known.
    pub result: Option<Result<Outcome, SessionError>>,
    /// Whether the run ends, or has ended, with what the checker found.
    pub succeeded: bool,
}

/// A `Session`, with its texts as sequences of characters.
pub struct SessionView {
    pub workflow: Workflow,
    pub timeouts: Timeouts,
    pub path: Seq<char>,
    pub phase: SessionPhase,
    pub held: Seq<Process>,
    pub captured: nat,
    pub gui: Option<GuiSessionView>,
    pub result: Option<Result<Outcome, SessionErrorView>>,
    pub succeeded: bool,
}

/// How a run ends, with its texts as sequences of characters.
pub open spec fn result_view(result: Option<Result<Outcome, SessionError>>) -> Option<
    Result<Outcome, SessionErrorView>,
> {
    match result {
        Some(Ok(outcome)) => Some(Ok(outcome)),
        Some(Err(error)) => Some(Err(error@)),
        None => None,
    }
}

impl View for Session {
    type V = SessionView;

    open spec fn view(&self) -> SessionView {
        SessionView {
            workflow: self.workflow,
            timeouts: self.timeouts,
            path: self.path@,
            phase: self.phase,
            held: self.held@,
            captured: self.captured as nat,
            gui: match self.gui {
                Some(gui) => Some(gui@),
                None => None,
            },
            result: result_view(self.result),
            succeeded: self.succeeded,
        }
    }
}

/// How the virtual display is started.
pub open spec fn display_launch() -> LaunchView {
    LaunchView {
        program: "Xvfb"@,
        args: seq![display_name(XVFB_PORT), "-ac"@, "-nolisten"@, "tcp"@],
        stdout: StreamPolicy::Inherit,
        stderr: StreamPolicy::Capture,
    }
}

/// How the editor of `workflow` is started on the file at `path`.
pub open spec fn cad_launch(workflow: Workflow, path: Seq<char>) -> LaunchView {
    LaunchView {
        program: workflow.program_of(),
        args: seq![path],
        stdout: StreamPolicy::Discard,
        stderr: StreamPolicy::Discard,
    }
}

/// The reason that `event` gives for a failure; empty where it gives none.
pub open spec fn reason_of(event: EventView) -> Seq<char> {
    match event {
        EventView::Failed(reason) => reason,
        _ => Seq::empty(),
    }
}

/// How far a run is that takes the step `step` of the way through the
/// windows.
pub open spec fn step_stage(step: ScriptStep) -> Stage {
    match step {
        ScriptStep::Settle => Stage::PopupWaited,
        ScriptStep::FocusWindow => Stage::WindowLocated,
        ScriptStep::UnmapWindow => Stage::WindowLocated,
        _ => Stage::InputSequenced,
    }
}

/// How far a run is whose session with the checker is `gui`.
pub open spec fn gui_stage(gui: GuiSessionView) -> Stage {
    match gui.phase {
        GuiPhase::Locating => Stage::ProcessSpawned,
        GuiPhase::Scripting => if gui.at < gui.workflow.script_of().len() {
            step_stage(gui.workflow.script_of()[gui.at as int])
        } else {
            Stage::InputSequenced
        },
        GuiPhase::Awaiting => Stage::ArtifactAwaited,
        GuiPhase::Finished => Stage::Failed,
    }
}

impl SessionView {
    /// How far the run has come.
    pub open spec fn stage(self) -> Stage {
        match self.phase {
            SessionPhase::SpawningDisplay => Stage::Idle,
            SessionPhase::SpawningCad => if self.held.len() > 0 {
                Stage::DisplayReady
            } else {
                Stage::Idle
            },
            SessionPhase::Driving => match self.gui {
                Some(gui) => gui_stage(gui),
                None => Stage::Failed,
            },
            _ => if self.succeeded {
                Stage::Parsed
            } else {
                Stage::Failed
            },
        }
    }

    /// The run as it lets go of the program that was started last, and ends
    /// once none is left.
    pub open spec fn release_next(self) -> (SessionView, ActionView) {
        if self.held.len() > 0 {
            (
                SessionView {
                    phase: SessionPhase::Releasing,
                    held: self.held.drop_last(),
                    ..self
                },
                ActionView::Release(self.held.last()),
            )
        } else {
            (
                SessionView { phase: SessionPhase::Finished, result: None, ..self },
                match self.result {
                    Some(result) => ActionView::Finish(result),
                    None => ActionView::Idle,
                },
            )
        }
    }

    /// The run as it asks for the streams of the next program, from the one
    /// that was started last to the one that was started first, and lets go
    /// of the programs once it has asked for all.
    pub open spec fn capture_next(self, captured: int) -> (SessionView, ActionView) {
        if 0 <= captured < self.held.len() {
            (
                SessionView {
                    phase: SessionPhase::Capturing,
                    captured: captured as nat,
                    ..self
                },
                ActionView::CaptureDiagnostics(self.held[self.held.len() - 1 - captured]),
            )
        } else {
            self.release_next()
        }
    }

    /// The run as it begins to end with `result`. Where `diagnose` holds, the
    /// streams of the programs are asked for first.
    pub open spec fn unwind(self, result: Result<Outcome, SessionErrorView>, diagnose: bool) -> (
        SessionView,
        ActionView,
    ) {
        let ending = SessionView { result: Some(result), succeeded: result is Ok, ..self };
        if diagnose {
            ending.capture_next(0)
        } else {
            ending.release_next()
        }
    }

    /// The run after a step of the session with the checker. A report is
    /// read, and what it says or why it cannot be read ends the run. A
    /// checker that gave no report ends the run too, after the streams of the
    /// programs have been asked for.
    pub open spec fn drive(self, stepped: (GuiSessionView, GuiActionView)) -> (
        SessionView,
        ActionView,
    ) {
        let session = SessionView { phase: SessionPhase::Driving, gui: Some(stepped.0), ..self };
        match stepped.1 {
            GuiActionView::Finish(Ok(text)) => match self.workflow.outcome_of(text) {
                Ok(outcome) => session.unwind(Ok(outcome), false),
                Err(error) => session.unwind(Err(SessionErrorView::Parse(error, text)), false),
            },
            GuiActionView::Finish(Err(error)) => session.unwind(
                Err(SessionErrorView::Gui(error)),
                true,
            ),
            GuiActionView::Idle => (
                SessionView { phase: SessionPhase::Finished, ..session },
                ActionView::Idle,
            ),
            action => (session, ActionView::Gui(action)),
        }
    }

    /// The run as it asks for the start of the editor.
    pub open spec fn spawn_cad(self) -> (SessionView, ActionView) {
        (
            SessionView { phase: SessionPhase::SpawningCad, ..self },
            ActionView::Spawn(Process::Cad, cad_launch(self.workflow, self.path)),
        )
    }

    /// The run after `event`, and what the caller is asked to do then.
    ///
    /// A program whose start is reported as `Done` is kept. Any other event
    /// says that the program could not be started, which ends the run, and so
    /// does whatever ends the session with the checker: the programs that are
    /// kept are let go, and then the run is over. What comes in after the
    /// streams of a program were asked for, or after a program was to be let
    /// go, is not looked at: a failure there does not change how the run
    /// ends.
    pub open spec fn next(self, event: EventView) -> (SessionView, ActionView) {
        match self.phase {
            SessionPhase::SpawningDisplay => if event == EventView::Done {
                SessionView { held: self.held.push(Process::Display), ..self }.spawn_cad()
            } else {
                self.unwind(
                    Err(SessionErrorView::Spawn(Process::Display, reason_of(event))),
                    false,
                )
            },
            SessionPhase::SpawningCad => if event == EventView::Done {
                SessionView { held: self.held.push(Process::Cad), ..self }.drive(
                    GuiSessionView::start(self.workflow, self.timeouts),
                )
            } else {
                self.unwind(Err(SessionErrorView::Spawn(Process::Cad, reason_of(event))), false)
            },
            SessionPhase::Driving => match self.gui {
                Some(gui) => self.drive(gui.next(event)),
                None => (SessionView { phase: SessionPhase::Finished, ..self }, ActionView::Idle),
            },
            SessionPhase::Capturing => self.capture_next(self.captured as int + 1),
            SessionPhase::Releasing => self.release_next(),
            SessionPhase::Finished => (self, ActionView::Idle),
        }
    }

    /// The run of the checker of `workflow` on the file at `path` as it
    /// begins, where `checked` is what the check of the file gave. A file
    /// that did not pass ends the run before anything is started. Otherwise
    /// the display is started first where `headless` asks for one, and then
    /// the editor.
    pub open spec fn start(
        workflow: Workflow,
        timeouts: Timeouts,
        headless: bool,
        path: Seq<char>,
        checked: Result<(), ValidationError>,
    ) -> (SessionView, ActionView) {
        let session = SessionView {
            workflow,
            timeouts,
            path,
            phase: SessionPhase::Finished,
            held: Seq::empty(),
            captured: 0,
            gui: None,
            result: None,
            succeeded: false,
        };
        match checked {
            Err(error) => (session, ActionView::Finish(Err(SessionErrorView::Validation(error)))),
            Ok(()) => if headless {
                (
                    SessionView { phase: SessionPhase::SpawningDisplay, ..session },
                    ActionView::Spawn(Process::Display, display_launch()),
                )
            } else {
                session.spawn_cad()
            },
        }
    }
}

impl Session {
    /// Says how far the run has come.
    pub fn stage(&self) -> (stage: Stage)
        ensures
            stage == self@.stage(),
    {
        match self.phase {
            SessionPhase::SpawningDisplay => Stage::Idle,
            SessionPhase::SpawningCad => if self.held.len() > 0 {
                Stage::DisplayReady
            } else {
                Stage::Idle
            },
            SessionPhase::Driving => match &self.gui {
                Some(gui) => match gui.phase {
                    GuiPhase::Locating => Stage::ProcessSpawned,
                    GuiPhase::Scripting => {
                        let script = gui.workflow.script();
                        if gui.at < script.len() {
                            match script[gui.at] {
                                ScriptStep::Settle => Stage::PopupWaited,
                                ScriptStep::FocusWindow => Stage::WindowLocated,
                                ScriptStep::UnmapWindow => Stage::WindowLocated,
                                _ => Stage::InputSequenced,
                            }
                        } else {
                            Stage::InputSequenced
                        }
                    },
                    GuiPhase::Awaiting => Stage::ArtifactAwaited,
                    GuiPhase::Finished => Stage::Failed,
                },
                None => Stage::Failed,
            },
            _ => if self.succeeded {
                Stage::Parsed
            } else {
                Stage::Failed
            },
        }
    }

    /// Lets go of the program that was started last, or ends the run.
    fn release_next(self) -> (stepped: (Session, Action))
        ensures
            (stepped.0@, stepped.1@) == self@.release_next(),
    {
        let Session {
            workflow,
            timeouts,
            path,
            phase: _,
            held,
            captured,
            gui,
            result,
            succeeded,
        } = self;
        let mut held = held;
        match held.pop() {
            Some(process) => (
                Session {
                    workflow,
                    timeouts,
                    path,
                    phase: SessionPhase::Releasing,
                    held,
                    captured,
                    gui,
                    result,
                    succeeded,
                },
                Action::Release(process),
            ),
            None => (
                Session {
                    workflow,
                    timeouts,
                    path,
                    phase: SessionPhase::Finished,
                    held,
                    captured,
                    gui,
                    result: None,
                    succeeded,
                },
                match result {
                    Some(result) => Action::Finish(result),
                    None => Action::Idle,
                },
            ),
        }
    }

    /// Asks for the streams of the next program, or lets go of the programs.
    fn capture_next(self, captured: usize) -> (stepped: (Session, Action))
        ensures
            (stepped.0@, stepped.1@) == self@.capture_next(captured as int),
    {
        if captured < self.held.len() {
            let process = self.held[self.held.len() - 1 - captured];
            let mut session = self;
            session.phase = SessionPhase::Capturing;
            session.captured = captured;
            (session, Action::CaptureDiagnostics(process))
        } else {
            self.release_next()
        }
    }

    /// Begins to end the run with `result`.
    fn unwind(self, result: Result<Outcome, SessionError>, diagnose: bool) -> (stepped: (
        Session,
        Action,
    ))
        ensures
            (stepped.0@, stepped.1@) == self@.unwind(
                match result {
                    Ok(outcome) => Ok(outcome),
                    Err(error) => Err(error@),
                },
                diagnose,
            ),
    {
        let mut session = self;
        session.succeeded = result.is_ok();
        session.result = Some(result);
        if diagnose {
            session.capture_next(0)
        } else {
            session.release_next()
        }
    }

    /// Goes on after a step of the session with the checker.
    fn drive(self, gui: GuiSession, action: GuiAction) -> (stepped: (Session, Action))
        ensures
            (stepped.0@, stepped.1@) == self@.drive((gui@, action@)),
    {
        let mut session = self;
        session.phase = SessionPhase::Driving;
        session.gui = Some(gui);
        match action {
            GuiAction::Finish(Ok(text)) => match session.workflow.read_report(text.as_str()) {
                Ok(outcome) => session.unwind(Ok(outcome), false),
                Err(error) => session.unwind(Err(SessionError::Parse(error, text)), false),
            },
            GuiAction::Finish(Err(error)) => session.unwind(Err(SessionError::Gui(error)), true),
            GuiAction::Idle => {
                session.phase = SessionPhase::Finished;
                (session, Action::Idle)
            },
            action => (session, Action::Gui(action)),
        }
    }

    /// Asks for the start of the editor.
    fn spawn_cad(self) -> (stepped: (Session, Action))
        ensures
            (stepped.0@, stepped.1@) == self@.spawn_cad(),
    {
        let launch = match self.workflow {
            Workflow::Erc => Eeschema { path_to_sch: self.path.clone() }.launch(),
            Workflow::Drc => Pcbnew { path_to_kicad_pcb: self.path.clone() }.launch(),
        };
        let mut session = self;
        session.phase = SessionPhase::SpawningCad;
        (session, Action::Spawn(Process::Cad, launch))
    }

    /// Begins the run of the checker of `workflow` on the file at `path`,
    /// where `checked` is what the check of the file gave: see
    /// [`SessionView::start`].
    pub fn begin(
        workflow: Workflow,
        timeouts: Timeouts,
        headless: bool,
        path: &str,
        checked: Result<(), ValidationError>,
    ) -> (begun: (Session, Action))
        ensures
            (begun.0@, begun.1@) == SessionView::start(
                workflow,
                timeouts,
                headless,
                path@,
                checked,
            ),
    {
        let session = Session {
            workflow,
            timeouts,
            path: path.to_owned(),
            phase: SessionPhase::Finished,
            held: Vec::new(),
            captured: 0,
            gui: None,
            result: None,
            succeeded: false,
        };
        match checked {
            Err(error) => (session, Action::Finish(Err(SessionError::Validation(error)))),
            Ok(()) => if headless {
                let mut session = session;
                session.phase = SessionPhase::SpawningDisplay;
                (session, Action::Spawn(Process::Display, Xvfb::run(XVFB_PORT).launch()))
            } else {
                session.spawn_cad()
            },
        }
    }

    /// Takes the run one step on, after `event`: see [`SessionView::next`].
    pub fn advance(self, event: Event) -> (stepped: (Session, Action))
        ensures
            (stepped.0@, stepped.1@) == self@.next(event@),
    {
        match self.phase {
            SessionPhase::SpawningDisplay => match event {
                Event::Done => {
                    let mut session = self;
                    session.held.push(Process::Display);
                    session.spawn_cad()
                },
                Event::Failed(reason) => self.unwind(
                    Err(SessionError::Spawn(Process::Display, reason)),
                    false,
                ),
                _ => self.unwind(Err(SessionError::Spawn(Process::Display, String::new())), false),
            },
            SessionPhase::SpawningCad => match event {
                Event::Done => {
                    let (gui, action) = GuiSession::begin(self.workflow, self.timeouts);
                    let mut session = self;
                    session.held.push(Process::Cad);
                    session.drive(gui, action)
                },
                Event::Failed(reason) => self.unwind(
                    Err(SessionError::Spawn(Process::Cad, reason)),
                    false,
                ),
                _ => self.unwind(Err(SessionError::Spawn(Process::Cad, String::new())), false),
            },
            SessionPhase::Driving => {
                let Session {
                    workflow,
                    timeouts,
                    path,
                    phase,
                    held,
                    captured,
                    gui,
                    result,
                    succeeded,
                } = self;
                let session = Session {
                    workflow,
                    timeouts,
                    path,
                    phase,
                    held,
                    captured,
                    gui: None,
                    result,
                    succeeded,
                };
                match gui {
                    Some(gui) => {
                        let (gui, action) = gui.advance(event);
                        session.drive(gui, action)
                    },
                    None => {
                        let mut session = session;
                        session.phase = SessionPhase::Finished;
                        (session, Action::Idle)
                    },
                }
            },
            SessionPhase::Capturing => match self.captured.checked_add(1) {
                Some(captured) => self.capture_next(captured),
                None => {
                    assert(self.held@.len() == self.held.len());
                    self.release_next()
                },
            },
            SessionPhase::Releasing => self.release_next(),
            SessionPhase::Finished => (self, Action::Idle),
        }
    }
}

/// Begins a run of the electrical rules checker on the schematic that `args`
/// names, of which `exists` says whether it is there. What comes back is the
/// run and what the caller is asked to do first.
pub fn run_erc(args: &ErcOptions, exists: bool) -> (begun: (Session, Action))
    ensures
        (begun.0@, begun.1@) == SessionView::start(
            Workflow::Erc,
            args.timeouts(),
            args.headless,
            args.path_to_sch@,
            input_check(exists, path_extension(args.path_to_sch@), Workflow::Erc.extension_of()),
        ),
{
    let checked = Eeschema::check_schematic_file_looks_valid(args.path_to_sch.as_str(), exists);
    Session::begin(
        Workflow::Erc,
        args.get_timeouts(),
        args.headless,
        args.path_to_sch.as_str(),
        checked,
    )
}

/// Begins a run of the design rules checker on the board that `args` names,
/// of which `exists` says whether it is there. What comes back is the run and
/// what the caller is asked to do first.
pub fn run_drc(args: &DrcOptions, exists: bool) -> (begun: (Session, Action))
    ensures
        (begun.0@, begun.1@) == SessionView::start(
            Workflow::Drc,
            args.timeouts(),
            args.headless,
            args.path_to_kicad_pcb@,
            input_check(
                exists,
                path_extension(args.path_to_kicad_pcb@),
                Workflow::Drc.extension_of(),
            ),
        ),
{
    let checked = Pcbnew::check_schematic_file_looks_valid(args.path_to_kicad_pcb.as_str(), exists);
    Session::begin(
        Workflow::Drc,
        args.get_timeouts(),
        args.headless,
        args.path_to_kicad_pcb.as_str(),
        checked,
    )
}

impl SessionView {
    /// What the caller is asked to do when `events` come in, one thing after
    /// each.
    pub open spec fn actions(self, events: Seq<EventView>) -> Seq<ActionView>
        decreases events.len(),
    {
        if events.len() == 0 {
            Seq::empty()
        } else {
            seq![self.next(events[0]).1] + self.next(events[0]).0.actions(events.skip(1))
        }
    }
}

/// A run that is over asks for nothing, whatever comes in.
pub proof fn lemma_finished_run_is_idle(session: SessionView, events: Seq<EventView>)
    requires
        session.phase == SessionPhase::Finished,
    ensures
        session.actions(events).len() == events.len(),
        forall|i: int| 0 <= i < events.len() ==> session.actions(events)[i] == ActionView::Idle,
    decreases events.len(),
{
    if events.len() > 0 {
        lemma_finished_run_is_idle(session, events.skip(1));
    }
}

/// A run on a file that did not pass the check ends at once with the error
/// of the check, and never asks for anything: no program is started.
pub proof fn lemma_unfit_file_starts_nothing(
    workflow: Workflow,
    timeouts: Timeouts,
    headless: bool,
    path: Seq<char>,
    error: ValidationError,
    events: Seq<EventView>,
)
    ensures
        SessionView::start(workflow, timeouts, headless, path, Err(error)).1 == ActionView::Finish(
            Err(SessionErrorView::Validation(error)),
        ),
        forall|i: int|
            0 <= i < events.len() ==> SessionView::start(
                workflow,
                timeouts,
                headless,
                path,
                Err(error),
            ).0.actions(events)[i] == ActionView::Idle,
{
    lemma_finished_run_is_idle(
        SessionView::start(workflow, timeouts, headless, path, Err(error)).0,
        events,
    );
}

/// The programs that a run keeps change in three ways only. A program whose
/// start was asked for and is reported done is kept as the last. A program
/// that the caller is asked to let go is the last that is kept, and is kept
/// no longer. And where the run ends, no program is kept.
pub proof fn lemma_programs_are_let_go(session: SessionView, event: EventView)
    ensures
        session.next(event).0.held == if session.next(event).1 is Release {
            session.held.drop_last()
        } else if session.phase == SessionPhase::SpawningDisplay && event == EventView::Done {
            session.held.push(Process::Display)
        } else if session.phase == SessionPhase::SpawningCad && event == EventView::Done {
            session.held.push(Process::Cad)
        } else {
            session.held
        },
        session.next(event).1 matches ActionView::Release(process) ==> session.held.len() > 0
            && process == session.held.last(),
        session.next(event).1 is Finish ==> session.next(event).0.held.len() == 0,
        session.next(event).1 is Finish ==> session.next(event).0.phase == SessionPhase::Finished,
{
}

/// The streams of the programs are asked for only after the session with the
/// checker has failed: where the caller is first asked for the streams of a
/// program, the run is to end with the error of that session.
pub proof fn lemma_streams_are_read_after_failure(session: SessionView, event: EventView)
    ensures
        session.next(event).1 is CaptureDiagnostics && session.phase != SessionPhase::Capturing
            ==> (session.next(event).0.result matches Some(Err(SessionErrorView::Gui(_)))),
{
}

impl SessionView {
    /// Whether the session with the checker, where there is one, pauses
    /// between two looks for the report.
    pub open spec fn pauses(self) -> bool {
        self.gui matches Some(gui) ==> gui.poller.interval > 0
    }

    /// Of how many programs the streams are still to be asked for.
    pub open spec fn captures_left(self) -> nat {
        if self.captured < self.held.len() {
            (self.held.len() - self.captured) as nat
        } else {
            0
        }
    }

    /// More steps than the run can still take, whatever comes in.
    pub open spec fn steps_left(self) -> nat {
        let most = GuiSessionView::steps_at_most(self.workflow, self.timeouts);
        match self.phase {
            SessionPhase::SpawningDisplay => most + 2 * self.held.len() + 9,
            SessionPhase::SpawningCad => most + 2 * self.held.len() + 6,
            SessionPhase::Driving => 2 * self.held.len() + 3 + match self.gui {
                Some(gui) => gui.steps_left(),
                None => 0,
            },
            SessionPhase::Capturing => self.captures_left() + self.held.len() + 2,
            SessionPhase::Releasing => self.held.len() + 1,
            SessionPhase::Finished => 0,
        }
    }
}

/// Whatever comes in, each step of a run that is not over leaves fewer steps
/// to take than there were, so that no run goes on for ever. This holds
/// provided that the session with the checker pauses between two looks for
/// the report, which the step keeps so and which holds of every run as it
/// begins with `start`.
pub proof fn lemma_run_comes_to_an_end(session: SessionView, event: EventView)
    requires
        session.pauses(),
    ensures
        session.next(event).0.pauses(),
        session.phase != SessionPhase::Finished ==> session.next(event).0.steps_left()
            < session.steps_left(),
{
    match session.gui {
        Some(gui) => {
            lemma_session_comes_to_an_end(gui, event);
        },
        None => {},
    }
}

/// A run begins without a session with the checker, so that the law of
/// `lemma_run_comes_to_an_end` holds of it from its first step.
pub proof fn lemma_run_begins_bounded(
    workflow: Workflow,
    timeouts: Timeouts,
    headless: bool,
    path: Seq<char>,
    checked: Result<(), ValidationError>,
)
    ensures
        SessionView::start(workflow, timeouts, headless, path, checked).0.pauses(),
{
}


/// The requests to let go of the programs `held`, from the one that was
/// started last to the one that was started first.
pub open spec fn releases(held: Seq<Process>) -> Seq<ActionView>
    decreases held.len(),
{
    if held.len() == 0 {
        Seq::empty()
    } else {
        seq![ActionView::Release(held.last())] + releases(held.drop_last())
    }
}

/// The requests for the streams of the programs `held`, from the one that
/// was started last to the one that was started first, without the `done`
/// that were asked for before.
pub open spec fn captures(held: Seq<Process>, done: nat) -> Seq<ActionView>
    decreases held.len() - done,
{
    if done >= held.len() {
        Seq::empty()
    } else {
        seq![ActionView::CaptureDiagnostics(held[held.len() - 1 - done])] + captures(
            held,
            done + 1,
        )
    }
}

/// A run that lets go of its programs asks for each of them once, from the
/// one that was started last to the one that was started first, whatever
/// comes in, and then ends with its result.
pub proof fn lemma_letting_go(
    session: SessionView,
    result: Result<Outcome, SessionErrorView>,
    events: Seq<EventView>,
)
    requires
        session.result == Some(result),
        events.len() == session.held.len(),
    ensures
        seq![session.release_next().1] + session.release_next().0.actions(events) == releases(
            session.held,
        ) + seq![ActionView::Finish(result)],
    decreases session.held.len(),
{
    if session.held.len() > 0 {
        lemma_letting_go(session.release_next().0, result, events.skip(1));
    }
}

/// A run that asks for the streams of its programs asks for those of each
/// once, from the one that was started last to the one that was started
/// first, and then lets go of the programs in the same order and ends with
/// its result.
pub proof fn lemma_asking_for_streams(
    session: SessionView,
    done: nat,
    result: Result<Outcome, SessionErrorView>,
    events: Seq<EventView>,
)
    requires
        session.result == Some(result),
        done <= session.held.len(),
        events.len() == session.held.len() - done + session.held.len(),
    ensures
        seq![session.capture_next(done as int).1] + session.capture_next(done as int).0.actions(
            events,
        ) == captures(session.held, done) + releases(session.held) + seq![
            ActionView::Finish(result),
        ],
    decreases session.held.len() - done,
{
    if done < session.held.len() {
        lemma_asking_for_streams(
            session.capture_next(done as int).0,
            done + 1,
            result,
            events.skip(1),
        );
    } else {
        lemma_letting_go(session, result, events);
    }
}

/// However a run comes to its end, it lets go of every program that it
/// keeps, once, in the opposite order of their start, before it gives its
/// result: after it has asked for the streams of each where the session with
/// the checker has failed, and at once otherwise.
pub proof fn lemma_unwinding(
    session: SessionView,
    result: Result<Outcome, SessionErrorView>,
    diagnose: bool,
    events: Seq<EventView>,
)
    requires
        events.len() == if diagnose {
            2 * session.held.len()
        } else {
            session.held.len()
        },
    ensures
        seq![session.unwind(result, diagnose).1] + session.unwind(result, diagnose).0.actions(
            events,
        ) == (if diagnose {
            captures(session.held, 0)
        } else {
            Seq::empty()
        }) + releases(session.held) + seq![ActionView::Finish(result)],
{
    let ending = SessionView { result: Some(result), succeeded: result is Ok, ..session };
    if diagnose {
        lemma_asking_for_streams(ending, 0, result, events);
    } else {
        lemma_letting_go(ending, result, events);
    }
}

} // verus!
