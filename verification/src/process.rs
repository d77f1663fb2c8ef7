//! The programs that a session starts, and the check of the file that a
//! checker is started on.
//!
//! Nothing is started here. A value of [`Eeschema`], [`Pcbnew`] or [`Xvfb`]
//! says how its program is to be started; who starts it owns the process and
//! ends it when the session lets it go.

use vstd::prelude::*;
use vstd::string::StringExecFns;
use crate::text::{chars_of, decimal_value, is_count, matches_at};

verus! {

/// The number of the display that a session without a screen runs on.
pub const XVFB_PORT: u8 = 99;

/// Why a file cannot be handed to a checker.
#[derive(Debug, Clone, Copy, PartialEq, Eq, Structural)]
pub enum ValidationError {
    /// There is no such file.
    NoSuchFile,
    /// The name of the file does not end in the extension that the checker
    /// asks for.
    WrongExtension,
}

/// What becomes of an output stream of a program.
#[derive(Debug, Clone, Copy, PartialEq, Eq, Structural)]
pub enum StreamPolicy {
    /// It goes where that of the session goes.
    Inherit,
    /// It is thrown away.
    Discard,
    /// It is kept, to be read if the session fails.
    Capture,
}

/// How a program is started.
#[derive(Debug, PartialEq, Eq)]
pub struct Launch {
    pub program: String,
    pub args: Vec<String>,
    pub stdout: StreamPolicy,
    pub stderr: StreamPolicy,
}

/// How a program is started, with its texts as sequences of characters.
pub struct LaunchView {
    pub program: Seq<char>,
    pub args: Seq<Seq<char>>,
    pub stdout: StreamPolicy,
    pub stderr: StreamPolicy,
}

/// The views of the strings in `strings`.
pub open spec fn string_views(strings: Seq<String>) -> Seq<Seq<char>> {
    strings.map_values(|s: String| s@)
}

impl View for Launch {
    type V = LaunchView;

    open spec fn view(&self) -> LaunchView {
        LaunchView {
            program: self.program@,
            args: string_views(self.args@),
            stdout: self.stdout,
            stderr: self.stderr,
        }
    }
}

/// The extension of the file that `path` names, as `std::path::Path` reads
/// paths on this platform; none where it finds no extension.
pub uninterp spec fn path_extension(path: Seq<char>) -> Option<Seq<char>>;

/// The text of `text`, if there is one.
pub open spec fn text_of(text: Option<String>) -> Option<Seq<char>> {
    match text {
        Some(t) => Some(t@),
        None => None,
    }
}

/// Calls `std::path::Path::extension` on `path`. Nothing is claimed of the
/// result but that it is the extension that `path_extension` stands for: the
/// same path has the same extension.
#[verifier::external_body]
fn extension_of(path: &str) -> (extension: Option<String>)
    ensures
        text_of(extension) == path_extension(path@),
{
    let extension = std::path::Path::new(path).extension()?;
    Some(extension.to_string_lossy().into_owned())
}

/// Whether a file may be handed to a checker: it is there, and `extension`,
/// the extension of its name, is `wanted`. That the file is missing is said
/// first.
pub open spec fn input_check(exists: bool, extension: Option<Seq<char>>, wanted: Seq<char>)
    -> Result<(), ValidationError> {
    if !exists {
        Err(ValidationError::NoSuchFile)
    } else if extension != Some(wanted) {
        Err(ValidationError::WrongExtension)
    } else {
        Ok(())
    }
}

/// Checks a file of which the caller knows whether it is there and what the
/// extension of its name is.
pub fn check_input(exists: bool, extension: Option<&str>, wanted: &str) -> (checked: Result<
    (),
    ValidationError,
>)
    ensures
        checked == input_check(
            exists,
            match extension {
                Some(e) => Some(e@),
                None => None,
            },
            wanted@,
        ),
{
    if !exists {
        return Err(ValidationError::NoSuchFile);
    }
    match extension {
        None => Err(ValidationError::WrongExtension),
        Some(e) => {
            let have = chars_of(e);
            let want = chars_of(wanted);
            if have.len() == want.len() && matches_at(&have, &want, 0) {
                assert(have@.subrange(0, want@.len() as int) =~= have@);
                Ok(())
            } else {
                proof {
                    if have@ == want@ {
                        assert(have@.subrange(0, want@.len() as int) =~= have@);
                    }
                }
                Err(ValidationError::WrongExtension)
            }
        },
    }
}

/// Checks the file at `path`, of which the caller knows whether it is there.
fn check_file(path: &str, exists: bool, wanted: &str) -> (checked: Result<(), ValidationError>)
    ensures
        checked == input_check(exists, path_extension(path@), wanted@),
{
    match extension_of(path) {
        Some(extension) => check_input(exists, Some(extension.as_str()), wanted),
        None => check_input(exists, None, wanted),
    }
}

/// The program `program`, started on the file at `path`, with its output
/// thrown away.
fn quiet_launch(program: &str, path: &str) -> (launch: Launch)
    ensures
        launch@ == (LaunchView {
            program: program@,
            args: seq![path@],
            stdout: StreamPolicy::Discard,
            stderr: StreamPolicy::Discard,
        }),
{
    let mut args: Vec<String> = Vec::new();
    args.push(path.to_owned());
    assert(string_views(args@) =~= seq![path@]);
    Launch {
        program: program.to_owned(),
        args,
        stdout: StreamPolicy::Discard,
        stderr: StreamPolicy::Discard,
    }
}

/// The schematic editor, to be started on a schematic that was checked.
#[derive(Debug, PartialEq, Eq)]
pub struct Eeschema {
    pub path_to_sch: String,
}

impl Eeschema {
    /// Checks that the file at `p` is there, which `exists` says, and that
    /// its name has the extension `sch`.
    pub fn check_schematic_file_looks_valid(p: &str, exists: bool) -> (checked: Result<
        (),
        ValidationError,
    >)
        ensures
            checked == input_check(exists, path_extension(p@), "sch"@),
    {
        check_file(p, exists, "sch")
    }

    /// The schematic editor for the schematic at `path_to_sch`, where the
    /// file passes the check.
    pub fn run(path_to_sch: &str, exists: bool) -> (ran: Result<Self, ValidationError>)
        ensures
            match ran {
                Ok(eeschema) => input_check(exists, path_extension(path_to_sch@), "sch"@) is Ok
                    && eeschema.path_to_sch@ == path_to_sch@,
                Err(error) => input_check(exists, path_extension(path_to_sch@), "sch"@) == Err::<
                    (),
                    ValidationError,
                >(error),
            },
    {
        match Self::check_schematic_file_looks_valid(path_to_sch, exists) {
            Ok(()) => Ok(Eeschema { path_to_sch: path_to_sch.to_owned() }),
            Err(error) => Err(error),
        }
    }

    /// How the schematic editor is started: `eeschema` with the schematic,
    /// and its output thrown away.
    pub fn launch(&self) -> (launch: Launch)
        ensures
            launch@ == (LaunchView {
                program: "eeschema"@,
                args: seq![self.path_to_sch@],
                stdout: StreamPolicy::Discard,
                stderr: StreamPolicy::Discard,
            }),
    {
        quiet_launch("eeschema", self.path_to_sch.as_str())
    }
}

/// The board editor, to be started on a board that was checked.
#[derive(Debug, PartialEq, Eq)]
pub struct Pcbnew {
    pub path_to_kicad_pcb: String,
}

impl Pcbnew {
    /// Checks that the file at `p` is there, which `exists` says, and that
    /// its name has the extension `kicad_pcb`.
    pub fn check_schematic_file_looks_valid(p: &str, exists: bool) -> (checked: Result<
        (),
        ValidationError,
    >)
        ensures
            checked == input_check(exists, path_extension(p@), "kicad_pcb"@),
    {
        check_file(p, exists, "kicad_pcb")
    }

    /// The board editor for the board at `path_to_kicad_pcb`, where the file
    /// passes the check.
    pub fn run(path_to_kicad_pcb: &str, exists: bool) -> (ran: Result<Self, ValidationError>)
        ensures
            match ran {
                Ok(pcbnew) => input_check(exists, path_extension(path_to_kicad_pcb@), "kicad_pcb"@)
                    is Ok && pcbnew.path_to_kicad_pcb@ == path_to_kicad_pcb@,
                Err(error) => input_check(
                    exists,
                    path_extension(path_to_kicad_pcb@),
                    "kicad_pcb"@,
                ) == Err::<(), ValidationError>(error),
            },
    {
        match Self::check_schematic_file_looks_valid(path_to_kicad_pcb, exists) {
            Ok(()) => Ok(Pcbnew { path_to_kicad_pcb: path_to_kicad_pcb.to_owned() }),
            Err(error) => Err(error),
        }
    }

    /// How the board editor is started: `pcbnew` with the board, and its
    /// output thrown away.
    pub fn launch(&self) -> (launch: Launch)
        ensures
            launch@ == (LaunchView {
                program: "pcbnew"@,
                args: seq![self.path_to_kicad_pcb@],
                stdout: StreamPolicy::Discard,
                stderr: StreamPolicy::Discard,
            }),
    {
        quiet_launch("pcbnew", self.path_to_kicad_pcb.as_str())
    }
}

/// The character that writes the digit `d`.
pub open spec fn digit_char(d: nat) -> char {
    if d == 0 {
        '0'
    } else if d == 1 {
        '1'
    } else if d == 2 {
        '2'
    } else if d == 3 {
        '3'
    } else if d == 4 {
        '4'
    } else if d == 5 {
        '5'
    } else if d == 6 {
        '6'
    } else if d == 7 {
        '7'
    } else if d == 8 {
        '8'
    } else {
        '9'
    }
}

/// `n` in base ten, without leading zeros.
pub open spec fn decimal_digits(n: nat) -> Seq<char>
    decreases n,
{
    if n < 10 {
        seq![digit_char(n)]
    } else {
        decimal_digits(n / 10).push(digit_char(n % 10))
    }
}

/// The digits of a number write that number.
pub proof fn lemma_decimal_digits(n: nat)
    ensures
        is_count(decimal_digits(n)),
        decimal_value(decimal_digits(n)) == n,
    decreases n,
{
    let digits = decimal_digits(n);
    if n >= 10 {
        lemma_decimal_digits(n / 10);
        assert(digits.drop_last() =~= decimal_digits(n / 10));
    } else {
        assert(decimal_value(digits.drop_last()) == 0);
    }
}

/// The name of the display with the number `port`: a colon and the number.
pub open spec fn display_name(port: u8) -> Seq<char> {
    seq![':'] + decimal_digits(port as nat)
}

/// The digit `d` as a text.
fn digit_text(d: u8) -> (text: &'static str)
    requires
        d < 10,
    ensures
        text@ == seq![digit_char(d as nat)],
{
    proof {
        reveal_strlit("0");
        reveal_strlit("1");
        reveal_strlit("2");
        reveal_strlit("3");
        reveal_strlit("4");
        reveal_strlit("5");
        reveal_strlit("6");
        reveal_strlit("7");
        reveal_strlit("8");
        reveal_strlit("9");
    }
    let text = if d == 0 {
        "0"
    } else if d == 1 {
        "1"
    } else if d == 2 {
        "2"
    } else if d == 3 {
        "3"
    } else if d == 4 {
        "4"
    } else if d == 5 {
        "5"
    } else if d == 6 {
        "6"
    } else if d == 7 {
        "7"
    } else if d == 8 {
        "8"
    } else {
        "9"
    };
    text
}

/// The virtual display, to be started for a session without a screen.
#[derive(Debug, Clone, Copy, PartialEq, Eq, Structural)]
pub struct Xvfb {
    pub port: u8,
}

impl Xvfb {
    /// The virtual display with the number `port`.
    pub fn run(port: u8) -> (xvfb: Self)
        ensures
            xvfb.port == port,
    {
        Xvfb { port }
    }

    /// The name under which programs find this display.
    pub fn display(&self) -> (name: String)
        ensures
            name@ == display_name(self.port),
    {
        proof {
            reveal_strlit(":");
            reveal_with_fuel(decimal_digits, 3);
        }
        let mut name = String::from_str(":");
        if self.port >= 100 {
            name.append(digit_text(self.port / 100));
        }
        if self.port >= 10 {
            name.append(digit_text((self.port / 10) % 10));
        }
        name.append(digit_text(self.port % 10));
        name
    }

    /// How the display is started: `Xvfb` with the name of the display,
    /// without access control and without a TCP port, and with its error
    /// stream kept.
    pub fn launch(&self) -> (launch: Launch)
        ensures
            launch@ == (LaunchView {
                program: "Xvfb"@,
                args: seq![display_name(self.port), "-ac"@, "-nolisten"@, "tcp"@],
                stdout: StreamPolicy::Inherit,
                stderr: StreamPolicy::Capture,
            }),
    {
        let mut args: Vec<String> = Vec::new();
        args.push(self.display());
        args.push("-ac".to_owned());
        args.push("-nolisten".to_owned());
        args.push("tcp".to_owned());
        assert(string_views(args@) =~= seq![
            display_name(self.port),
            "-ac"@,
            "-nolisten"@,
            "tcp"@,
        ]);
        Launch {
            program: "Xvfb".to_owned(),
            args,
            stdout: StreamPolicy::Inherit,
            stderr: StreamPolicy::Capture,
        }
    }
}

} // verus!
