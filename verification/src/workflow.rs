//! The two checkers: where each is found, how its dialog is reached, and
//! what its report says.

use vstd::prelude::*;
use crate::input::{Key, Modifier};
use crate::report::{
    drc_output, erc_output, parse_drc, parse_erc, DrcOutput, ErcOutput, ParseError,
};

verus! {

/// What a checker found.
#[derive(Debug, Clone, Copy, PartialEq, Eq, Structural)]
pub enum Outcome {
    Erc(ErcOutput),
    Drc(DrcOutput),
}

/// Which of the two checkers a session runs.
#[derive(Debug, Clone, Copy, PartialEq, Eq, Structural)]
pub enum Workflow {
    /// The electrical rules checker of the schematic editor.
    Erc,
    /// The design rules checker of the board editor.
    Drc,
}

/// One step of the way through the windows of a checker.
#[derive(Debug, Clone, Copy, PartialEq, Eq, Structural)]
pub enum ScriptStep {
    /// Press a key and let it go.
    Tap(Key),
    /// Press a key and let it go while a modifier is held down.
    Combo(Modifier, Key),
    /// Type the path of the report.
    TypeReportPath,
    /// Give a dialog the time to open.
    Settle,
    /// Give the main window the focus.
    FocusWindow,
    /// Take the main window off the screen, so that it takes no keys.
    UnmapWindow,
}

impl Workflow {
    /// The name of the main window of the checker's program, as a pattern.
    pub open spec fn window_pattern_of(self) -> Seq<char> {
        match self {
            Workflow::Erc => "Eeschema.*"@,
            Workflow::Drc => "Pcbnew"@,
        }
    }

    /// Where the checker writes its report.
    pub open spec fn report_path_of(self) -> Seq<char> {
        match self {
            Workflow::Erc => "/tmp/erc_output"@,
            Workflow::Drc => "/tmp/drc_output.rpt"@,
        }
    }

    /// The way from the main window to the dialog that asks where the report
    /// goes, with the path of the report typed in. The key that then starts
    /// the checker is not part of it.
    ///
    /// For the electrical rules: open the menu Inspect and pick the checker,
    /// let its dialog open, go to the box that asks for a report file and tick
    /// it, run, let the file dialog open, and put the path in place of what is
    /// there. For the design rules: take the focus, open the menu Inspect and
    /// pick the checker from its end, let the dialog open, take the main window
    /// off the screen, tick the box that reports all errors for tracks and the
    /// box that asks for a report file, and type the path.
    pub open spec fn script_of(self) -> Seq<ScriptStep> {
        match self {
            Workflow::Erc => seq![
                ScriptStep::Combo(Modifier::Alt, Key::Character('i')),
                ScriptStep::Tap(Key::Character('c')),
                ScriptStep::Settle,
                ScriptStep::Tap(Key::Tab),
                ScriptStep::Tap(Key::Tab),
                ScriptStep::Tap(Key::Tab),
                ScriptStep::Tap(Key::Tab),
                ScriptStep::Tap(Key::Space),
                ScriptStep::Tap(Key::Return),
                ScriptStep::Settle,
                ScriptStep::Tap(Key::Home),
                ScriptStep::Combo(Modifier::Control, Key::Character('a')),
                ScriptStep::TypeReportPath,
            ],
            Workflow::Drc => seq![
                ScriptStep::FocusWindow,
                ScriptStep::Combo(Modifier::Alt, Key::Character('i')),
                ScriptStep::Tap(Key::Up),
                ScriptStep::Tap(Key::Return),
                ScriptStep::Settle,
                ScriptStep::UnmapWindow,
                ScriptStep::Tap(Key::Down),
                ScriptStep::Tap(Key::Down),
                ScriptStep::Tap(Key::Down),
                ScriptStep::Tap(Key::Down),
                ScriptStep::Tap(Key::Space),
                ScriptStep::Tap(Key::Down),
                ScriptStep::Tap(Key::Down),
                ScriptStep::Tap(Key::Space),
                ScriptStep::TypeReportPath,
            ],
        }
    }

    /// Gives the name of the main window, as a pattern.
    pub fn window_pattern(&self) -> (pattern: &'static str)
        ensures
            pattern@ == self.window_pattern_of(),
    {
        match self {
            Workflow::Erc => "Eeschema.*",
            Workflow::Drc => "Pcbnew",
        }
    }

    /// Gives the path of the report.
    pub fn report_path(&self) -> (path: &'static str)
        ensures
            path@ == self.report_path_of(),
    {
        match self {
            Workflow::Erc => "/tmp/erc_output",
            Workflow::Drc => "/tmp/drc_output.rpt",
        }
    }

    /// Gives the way through the windows.
    pub fn script(&self) -> (steps: Vec<ScriptStep>)
        ensures
            steps@ == self.script_of(),
    {
        let steps = match self {
            Workflow::Erc => vec![
                ScriptStep::Combo(Modifier::Alt, Key::Character('i')),
                ScriptStep::Tap(Key::Character('c')),
                ScriptStep::Settle,
                ScriptStep::Tap(Key::Tab),
                ScriptStep::Tap(Key::Tab),
                ScriptStep::Tap(Key::Tab),
                ScriptStep::Tap(Key::Tab),
                ScriptStep::Tap(Key::Space),
                ScriptStep::Tap(Key::Return),
                ScriptStep::Settle,
                ScriptStep::Tap(Key::Home),
                ScriptStep::Combo(Modifier::Control, Key::Character('a')),
                ScriptStep::TypeReportPath,
            ],
            Workflow::Drc => vec![
                ScriptStep::FocusWindow,
                ScriptStep::Combo(Modifier::Alt, Key::Character('i')),
                ScriptStep::Tap(Key::Up),
                ScriptStep::Tap(Key::Return),
                ScriptStep::Settle,
                ScriptStep::UnmapWindow,
                ScriptStep::Tap(Key::Down),
                ScriptStep::Tap(Key::Down),
                ScriptStep::Tap(Key::Down),
                ScriptStep::Tap(Key::Down),
                ScriptStep::Tap(Key::Space),
                ScriptStep::Tap(Key::Down),
                ScriptStep::Tap(Key::Down),
                ScriptStep::Tap(Key::Space),
                ScriptStep::TypeReportPath,
            ],
        };
        assert(steps@ =~= self.script_of());
        steps
    }

    /// The extension that the checker asks of the name of its file.
    pub open spec fn extension_of(self) -> Seq<char> {
        match self {
            Workflow::Erc => "sch"@,
            Workflow::Drc => "kicad_pcb"@,
        }
    }

    /// The program of the checker.
    pub open spec fn program_of(self) -> Seq<char> {
        match self {
            Workflow::Erc => "eeschema"@,
            Workflow::Drc => "pcbnew"@,
        }
    }

    /// What a report with the text `text` says.
    pub open spec fn outcome_of(self, text: Seq<char>) -> Result<Outcome, ParseError> {
        match self {
            Workflow::Erc => match erc_output(text) {
                Ok(output) => Ok(Outcome::Erc(output)),
                Err(error) => Err(error),
            },
            Workflow::Drc => match drc_output(text) {
                Ok(output) => Ok(Outcome::Drc(output)),
                Err(error) => Err(error),
            },
        }
    }

    /// Reads the report with the text `text`.
    pub fn read_report(&self, text: &str) -> (outcome: Result<Outcome, ParseError>)
        ensures
            outcome == self.outcome_of(text@),
    {
        match self {
            Workflow::Erc => match parse_erc(text) {
                Ok(output) => Ok(Outcome::Erc(output)),
                Err(error) => Err(error),
            },
            Workflow::Drc => match parse_drc(text) {
                Ok(output) => Ok(Outcome::Drc(output)),
                Err(error) => Err(error),
            },
        }
    }
}

} // verus!
