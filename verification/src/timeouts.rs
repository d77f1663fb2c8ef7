//! How long a session waits, and the options that say so.

use vstd::prelude::*;

verus! {

/// How long eeschema gets to show its window, in seconds, where nothing else
/// is asked for.
pub const EESCHEMA_LAUNCH_TIMEOUT_IN_S: u64 = 5;

/// How long pcbnew gets to show its window, in seconds, where nothing else is
/// asked for.
pub const PCBNEW_LAUNCH_TIMEOUT_IN_S: u64 = 10;

/// How long a dialog gets to open, in seconds, where nothing else is asked
/// for.
pub const POPUP_TIMEOUT_IN_S: u64 = 1;

/// How long the electrical rules checker gets to write its report, in
/// seconds, where nothing else is asked for.
pub const ERC_TIMEOUT_IN_S: u64 = 5;

/// How long the design rules checker gets to write its report, in seconds,
/// where nothing else is asked for.
pub const DRC_TIMEOUT_IN_S: u64 = 20;

/// The three waits of a session, each in milliseconds.
#[derive(Debug, Clone, Copy, PartialEq, Eq, Structural)]
pub struct Timeouts {
    /// How long the main window gets to appear.
    pub window_launch: u128,
    /// How long a dialog is given to open before keys are sent to it.
    pub popup_launch: u128,
    /// How long the checker gets to write its report.
    pub execution: u128,
}

/// The milliseconds in `seconds` seconds.
pub open spec fn millis_of(seconds: u64) -> u128 {
    (seconds * 1000) as u128
}

/// Gives `seconds` seconds in milliseconds.
pub fn seconds(count: u64) -> (millis: u128)
    ensures
        millis == millis_of(count),
        millis == count * 1000,
{
    (count as u128) * 1000
}

/// The options of a run of the electrical rules checker.
#[derive(Debug, Clone)]
pub struct ErcOptions {
    /// Where the schematic is.
    pub path_to_sch: String,
    /// Whether a virtual display is started for the run.
    pub headless: bool,
    pub eeschema_launch_timeout_in_s: u64,
    pub popup_timeout_in_s: u64,
    pub erc_timeout_in_s: u64,
}

impl ErcOptions {
    /// The options for the schematic at `path_to_sch`, with the waits that
    /// hold where nothing else is asked for.
    pub fn new(path_to_sch: String, headless: bool) -> (options: Self)
        ensures
            options.path_to_sch == path_to_sch,
            options.headless == headless,
            options.eeschema_launch_timeout_in_s == EESCHEMA_LAUNCH_TIMEOUT_IN_S,
            options.popup_timeout_in_s == POPUP_TIMEOUT_IN_S,
            options.erc_timeout_in_s == ERC_TIMEOUT_IN_S,
    {
        ErcOptions {
            path_to_sch,
            headless,
            eeschema_launch_timeout_in_s: EESCHEMA_LAUNCH_TIMEOUT_IN_S,
            popup_timeout_in_s: POPUP_TIMEOUT_IN_S,
            erc_timeout_in_s: ERC_TIMEOUT_IN_S,
        }
    }

    /// The waits that these options ask for: each number of seconds, in
    /// milliseconds.
    pub open spec fn timeouts(&self) -> Timeouts {
        Timeouts {
            window_launch: millis_of(self.eeschema_launch_timeout_in_s),
            popup_launch: millis_of(self.popup_timeout_in_s),
            execution: millis_of(self.erc_timeout_in_s),
        }
    }

    /// Gives the waits that these options ask for.
    pub fn get_timeouts(&self) -> (timeouts: Timeouts)
        ensures
            timeouts == self.timeouts(),
    {
        Timeouts {
            window_launch: seconds(self.eeschema_launch_timeout_in_s),
            popup_launch: seconds(self.popup_timeout_in_s),
            execution: seconds(self.erc_timeout_in_s),
        }
    }
}

/// The options of a run of the design rules checker.
#[derive(Debug, Clone)]
pub struct DrcOptions {
    /// Where the board is.
    pub path_to_kicad_pcb: String,
    /// Whether a virtual display is started for the run.
    pub headless: bool,
    pub pcbnew_launch_timeout_in_s: u64,
    pub popup_timeout_in_s: u64,
    pub drc_timeout_in_s: u64,
}

impl DrcOptions {
    /// The options for the board at `path_to_kicad_pcb`, with the waits that
    /// hold where nothing else is asked for.
    pub fn new(path_to_kicad_pcb: String, headless: bool) -> (options: Self)
        ensures
            options.path_to_kicad_pcb == path_to_kicad_pcb,
            options.headless == headless,
            options.pcbnew_launch_timeout_in_s == PCBNEW_LAUNCH_TIMEOUT_IN_S,
            options.popup_timeout_in_s == POPUP_TIMEOUT_IN_S,
            options.drc_timeout_in_s == DRC_TIMEOUT_IN_S,
    {
        DrcOptions {
            path_to_kicad_pcb,
            headless,
            pcbnew_launch_timeout_in_s: PCBNEW_LAUNCH_TIMEOUT_IN_S,
            popup_timeout_in_s: POPUP_TIMEOUT_IN_S,
            drc_timeout_in_s: DRC_TIMEOUT_IN_S,
        }
    }

    /// The waits that these options ask for: each number of seconds, in
    /// milliseconds.
    pub open spec fn timeouts(&self) -> Timeouts {
        Timeouts {
            window_launch: millis_of(self.pcbnew_launch_timeout_in_s),
            popup_launch: millis_of(self.popup_timeout_in_s),
            execution: millis_of(self.drc_timeout_in_s),
        }
    }

    /// Gives the waits that these options ask for.
    pub fn get_timeouts(&self) -> (timeouts: Timeouts)
        ensures
            timeouts == self.timeouts(),
    {
        Timeouts {
            window_launch: seconds(self.pcbnew_launch_timeout_in_s),
            popup_launch: seconds(self.popup_timeout_in_s),
            execution: seconds(self.drc_timeout_in_s),
        }
    }
}

} // verus!
