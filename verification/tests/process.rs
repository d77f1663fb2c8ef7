use kicad_cli::process::{
    check_input, Eeschema, Launch, Pcbnew, StreamPolicy, ValidationError, Xvfb, XVFB_PORT,
};

#[test]
fn file_with_the_extension_that_is_asked_for() {
    assert_eq!(Eeschema::check_schematic_file_looks_valid("design.sch", true), Ok(()));
    assert_eq!(Eeschema::check_schematic_file_looks_valid("/a/b.c/design.v2.sch", true), Ok(()));
    assert_eq!(Pcbnew::check_schematic_file_looks_valid("board.kicad_pcb", true), Ok(()));
}

#[test]
fn file_with_another_extension() {
    assert_eq!(
        Eeschema::check_schematic_file_looks_valid("design.txt", true),
        Err(ValidationError::WrongExtension)
    );
    assert_eq!(
        Eeschema::check_schematic_file_looks_valid("sch", true),
        Err(ValidationError::WrongExtension)
    );
    assert_eq!(
        Eeschema::check_schematic_file_looks_valid(".sch", true),
        Err(ValidationError::WrongExtension)
    );
    assert_eq!(
        Eeschema::check_schematic_file_looks_valid("design.sch.bak", true),
        Err(ValidationError::WrongExtension)
    );
    assert_eq!(
        Eeschema::check_schematic_file_looks_valid("design.SCH", true),
        Err(ValidationError::WrongExtension)
    );
    assert_eq!(
        Pcbnew::check_schematic_file_looks_valid("design.sch", true),
        Err(ValidationError::WrongExtension)
    );
}

#[test]
fn file_that_is_not_there() {
    assert_eq!(
        Eeschema::check_schematic_file_looks_valid("design.sch", false),
        Err(ValidationError::NoSuchFile)
    );
    assert_eq!(
        Pcbnew::check_schematic_file_looks_valid("design.txt", false),
        Err(ValidationError::NoSuchFile)
    );
}

#[test]
fn check_of_a_known_extension() {
    assert_eq!(check_input(true, Some("sch"), "sch"), Ok(()));
    assert_eq!(check_input(true, Some("sc"), "sch"), Err(ValidationError::WrongExtension));
    assert_eq!(check_input(true, Some("schh"), "sch"), Err(ValidationError::WrongExtension));
    assert_eq!(check_input(true, None, "sch"), Err(ValidationError::WrongExtension));
    assert_eq!(check_input(false, Some("sch"), "sch"), Err(ValidationError::NoSuchFile));
    assert_eq!(check_input(true, Some(""), ""), Ok(()));
}

#[test]
fn editors_are_started_on_their_file() {
    let eeschema = Eeschema::run("design.sch", true).unwrap();
    assert_eq!(
        eeschema.launch(),
        Launch {
            program: "eeschema".to_string(),
            args: vec!["design.sch".to_string()],
            stdout: StreamPolicy::Discard,
            stderr: StreamPolicy::Discard,
        }
    );
    let pcbnew = Pcbnew::run("board.kicad_pcb", true).unwrap();
    assert_eq!(
        pcbnew.launch(),
        Launch {
            program: "pcbnew".to_string(),
            args: vec!["board.kicad_pcb".to_string()],
            stdout: StreamPolicy::Discard,
            stderr: StreamPolicy::Discard,
        }
    );
    assert_eq!(Eeschema::run("design.txt", true), Err(ValidationError::WrongExtension));
    assert_eq!(Pcbnew::run("board.kicad_pcb", false), Err(ValidationError::NoSuchFile));
}

#[test]
fn display_is_started_under_its_number() {
    assert_eq!(XVFB_PORT, 99);
    let xvfb = Xvfb::run(XVFB_PORT);
    assert_eq!(xvfb.display(), ":99");
    assert_eq!(
        xvfb.launch(),
        Launch {
            program: "Xvfb".to_string(),
            args: vec![
                ":99".to_string(),
                "-ac".to_string(),
                "-nolisten".to_string(),
                "tcp".to_string()
            ],
            stdout: StreamPolicy::Inherit,
            stderr: StreamPolicy::Capture,
        }
    );
}

#[test]
fn display_names_of_one_two_and_three_digits() {
    assert_eq!(Xvfb::run(0).display(), ":0");
    assert_eq!(Xvfb::run(7).display(), ":7");
    assert_eq!(Xvfb::run(10).display(), ":10");
    assert_eq!(Xvfb::run(100).display(), ":100");
    assert_eq!(Xvfb::run(205).display(), ":205");
    assert_eq!(Xvfb::run(255).display(), ":255");
}
