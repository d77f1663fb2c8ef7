use kicad_cli::event::Event;
use kicad_cli::gui::{GuiAction, GuiError, SynchronizationError};
use kicad_cli::workflow::{Outcome, Workflow};
use kicad_cli::process::{Launch, StreamPolicy, ValidationError};
use kicad_cli::report::{DrcOutput, ErcOutput, ParseError};
use kicad_cli::session::{
    run_drc, run_erc, Action, Process, Session, SessionError, SessionPhase, Stage,
};
use kicad_cli::timeouts::{DrcOptions, ErcOptions, Timeouts};

fn cad(program: &str, path: &str) -> Action {
    Action::Spawn(
        Process::Cad,
        Launch {
            program: program.to_string(),
            args: vec![path.to_string()],
            stdout: StreamPolicy::Discard,
            stderr: StreamPolicy::Discard,
        },
    )
}

fn display() -> Action {
    Action::Spawn(
        Process::Display,
        Launch {
            program: "Xvfb".to_string(),
            args: vec![
                ":99".to_string(),
                "-ac".to_string(),
                "-nolisten".to_string(),
                "tcp".to_string(),
            ],
            stdout: StreamPolicy::Inherit,
            stderr: StreamPolicy::Capture,
        },
    )
}

/// Plays the part of the caller for a checker that writes `report` at once:
/// it gives back all that the run asked for.
fn play(begun: (Session, Action), report: Option<&str>) -> Vec<Action> {
    let (mut session, mut action) = begun;
    let mut asked = Vec::new();
    for _ in 0..10_000 {
        let event = match &action {
            Action::Finish(_) | Action::Idle => {
                asked.push(action);
                assert_eq!(session.phase, SessionPhase::Finished);
                assert!(session.held.is_empty());
                return asked;
            }
            Action::Gui(GuiAction::Search(_)) => Event::Output("4194311\n".to_string()),
            Action::Gui(GuiAction::Probe(_)) => Event::Present(report.is_some()),
            Action::Gui(GuiAction::Read(_)) => Event::Output(report.unwrap().to_string()),
            _ => Event::Done,
        };
        asked.push(action);
        let (next, then) = session.advance(event);
        session = next;
        action = then;
    }
    panic!("the run does not end");
}

fn spawns(asked: &[Action]) -> usize {
    asked.iter().filter(|a| matches!(a, Action::Spawn(_, _))).count()
}

#[test]
fn design_rules_run_with_three_errors_and_seven_pads() {
    let options = DrcOptions::new("board.kicad_pcb".to_string(), false);
    let report = "** Drc report for board.kicad_pcb **\n** Found 3 DRC errors **\n** Found 7 unconnected pads **\n** End of Report **\n";
    let asked = play(run_drc(&options, true), Some(report));
    assert_eq!(asked[0], cad("pcbnew", "board.kicad_pcb"));
    assert_eq!(asked[1], Action::Gui(GuiAction::Search("Pcbnew".to_string())));
    assert_eq!(spawns(&asked), 1);
    let n = asked.len();
    assert_eq!(asked[n - 2], Action::Release(Process::Cad));
    assert_eq!(
        asked[n - 1],
        Action::Finish(Ok(Outcome::Drc(DrcOutput { num_errors: 3, num_unconnected_pads: 7 })))
    );
}

#[test]
fn electrical_rules_run_without_a_screen() {
    let options = ErcOptions::new("design.sch".to_string(), true);
    let report = " ** ERC messages: 5  Errors 3  Warnings 2\n";
    let asked = play(run_erc(&options, true), Some(report));
    assert_eq!(asked[0], display());
    assert_eq!(asked[1], cad("eeschema", "design.sch"));
    assert_eq!(asked[2], Action::Gui(GuiAction::Search("Eeschema.*".to_string())));
    assert_eq!(spawns(&asked), 2);
    let n = asked.len();
    assert_eq!(asked[n - 3], Action::Release(Process::Cad));
    assert_eq!(asked[n - 2], Action::Release(Process::Display));
    assert_eq!(
        asked[n - 1],
        Action::Finish(Ok(Outcome::Erc(ErcOutput { num_errors: 3, num_warnings: 2 })))
    );
    assert!(!asked.iter().any(|a| matches!(a, Action::CaptureDiagnostics(_))));
}

#[test]
fn file_with_the_wrong_extension_starts_nothing() {
    let options = ErcOptions::new("design.txt".to_string(), true);
    let (session, action) = run_erc(&options, true);
    assert_eq!(
        action,
        Action::Finish(Err(SessionError::Validation(ValidationError::WrongExtension)))
    );
    assert_eq!(session.phase, SessionPhase::Finished);
    assert!(session.held.is_empty());
    let (session, action) = session.advance(Event::Done);
    assert_eq!(action, Action::Idle);
    let (_, action) = session.advance(Event::Output("1\n".to_string()));
    assert_eq!(action, Action::Idle);
    let asked = play(run_erc(&options, true), None);
    assert_eq!(spawns(&asked), 0);
    assert_eq!(asked.len(), 1);
}

#[test]
fn file_that_is_not_there_starts_nothing() {
    let options = DrcOptions::new("board.kicad_pcb".to_string(), false);
    let asked = play(run_drc(&options, false), None);
    assert_eq!(
        asked,
        vec![Action::Finish(Err(SessionError::Validation(ValidationError::NoSuchFile)))]
    );
}

#[test]
fn display_that_cannot_be_started() {
    let options = ErcOptions::new("design.sch".to_string(), true);
    let (session, action) = run_erc(&options, true);
    assert_eq!(action, display());
    let (session, action) = session.advance(Event::Failed("No such file or directory".to_string()));
    assert_eq!(
        action,
        Action::Finish(Err(SessionError::Spawn(
            Process::Display,
            "No such file or directory".to_string()
        )))
    );
    assert_eq!(session.phase, SessionPhase::Finished);
}

#[test]
fn editor_that_cannot_be_started() {
    let options = DrcOptions::new("board.kicad_pcb".to_string(), true);
    let (session, _) = run_drc(&options, true);
    let (session, action) = session.advance(Event::Done);
    assert_eq!(action, cad("pcbnew", "board.kicad_pcb"));
    assert_eq!(session.held, vec![Process::Display]);
    let (session, action) = session.advance(Event::Failed("not found".to_string()));
    assert_eq!(action, Action::Release(Process::Display));
    let (session, action) = session.advance(Event::Done);
    assert_eq!(
        action,
        Action::Finish(Err(SessionError::Spawn(Process::Cad, "not found".to_string())))
    );
    assert!(session.held.is_empty());
}

#[test]
fn report_that_never_comes_is_diagnosed() {
    let options = ErcOptions {
        path_to_sch: "design.sch".to_string(),
        headless: true,
        eeschema_launch_timeout_in_s: 1,
        popup_timeout_in_s: 0,
        erc_timeout_in_s: 1,
    };
    let asked = play(run_erc(&options, true), None);
    let n = asked.len();
    assert_eq!(asked[n - 5], Action::CaptureDiagnostics(Process::Cad));
    assert_eq!(asked[n - 4], Action::CaptureDiagnostics(Process::Display));
    assert_eq!(asked[n - 3], Action::Release(Process::Cad));
    assert_eq!(asked[n - 2], Action::Release(Process::Display));
    assert_eq!(asked[n - 1], Action::Finish(Err(SessionError::Gui(GuiError::Timeout(1000)))));
    let pauses = asked.iter().filter(|a| matches!(a, Action::Gui(GuiAction::Sleep(100)))).count();
    assert_eq!(pauses, 10);
}

#[test]
fn window_that_never_comes_is_diagnosed() {
    let options = DrcOptions {
        path_to_kicad_pcb: "board.kicad_pcb".to_string(),
        headless: false,
        pcbnew_launch_timeout_in_s: 0,
        popup_timeout_in_s: 1,
        drc_timeout_in_s: 1,
    };
    let (session, _) = run_drc(&options, true);
    let (session, action) = session.advance(Event::Done);
    assert_eq!(action, Action::CaptureDiagnostics(Process::Cad));
    let (session, action) = session.advance(Event::Done);
    assert_eq!(action, Action::Release(Process::Cad));
    let (_, action) = session.advance(Event::Done);
    assert_eq!(action, Action::Finish(Err(SessionError::Gui(GuiError::Synchronization(SynchronizationError::NotFound)))));
}

#[test]
fn report_that_cannot_be_read_into_counts() {
    let options = ErcOptions::new("design.sch".to_string(), false);
    let report = " ** ERC messages: 9  Errors 3  Warnings 2\n";
    let asked = play(run_erc(&options, true), Some(report));
    let n = asked.len();
    assert_eq!(asked[n - 2], Action::Release(Process::Cad));
    assert_eq!(
        asked[n - 1],
        Action::Finish(Err(SessionError::Parse(
            ParseError::InconsistentTotals,
            report.to_string()
        )))
    );
    assert!(!asked.iter().any(|a| matches!(a, Action::CaptureDiagnostics(_))));
}

#[test]
fn run_that_begins_with_a_given_check() {
    let waits = Timeouts { window_launch: 1000, popup_launch: 0, execution: 1000 };
    let (_, action) = Session::begin(
        Workflow::Drc,
        waits,
        true,
        "anything",
        Err(ValidationError::WrongExtension),
    );
    assert_eq!(
        action,
        Action::Finish(Err(SessionError::Validation(ValidationError::WrongExtension)))
    );
    let (session, action) = Session::begin(Workflow::Drc, waits, false, "anything", Ok(()));
    assert_eq!(action, cad("pcbnew", "anything"));
    assert_eq!(session.phase, SessionPhase::SpawningCad);
    assert_eq!(Workflow::Erc.read_report(""), Err(ParseError::MissingSummaryLine));
    assert_eq!(Workflow::Drc.read_report(""), Err(ParseError::MissingField));
}

#[test]
fn stages_of_a_run() {
    let options = DrcOptions::new("board.kicad_pcb".to_string(), true);
    let (mut session, mut action) = run_drc(&options, true);
    let mut stages = vec![session.stage()];
    for _ in 0..100 {
        let event = match &action {
            Action::Finish(_) => break,
            Action::Gui(GuiAction::Search(_)) => Event::Output("23\n".to_string()),
            Action::Gui(GuiAction::Probe(_)) => Event::Present(true),
            Action::Gui(GuiAction::Read(_)) => Event::Output(
                "** Found 0 DRC errors **\n** Found 0 unconnected pads **\n".to_string(),
            ),
            _ => Event::Done,
        };
        let (next, then) = session.advance(event);
        session = next;
        action = then;
        if stages.last() != Some(&session.stage()) {
            stages.push(session.stage());
        }
    }
    assert_eq!(
        stages,
        vec![
            Stage::Idle,
            Stage::DisplayReady,
            Stage::ProcessSpawned,
            Stage::WindowLocated,
            Stage::InputSequenced,
            Stage::PopupWaited,
            Stage::WindowLocated,
            Stage::InputSequenced,
            Stage::ArtifactAwaited,
            Stage::Parsed,
        ]
    );
    let failed = run_drc(&DrcOptions::new("board.txt".to_string(), true), true).0;
    assert_eq!(failed.stage(), Stage::Failed);
}
