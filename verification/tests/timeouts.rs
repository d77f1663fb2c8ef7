use kicad_cli::input::{
    tap_combo, tap_key, type_string, InputEvent, Key, Modifier, Pacing, TapDelays,
};
use kicad_cli::timeouts::{seconds, DrcOptions, ErcOptions, Timeouts};

#[test]
fn waits_of_the_electrical_rules_checker() {
    let options = ErcOptions::new("design.sch".to_string(), false);
    assert_eq!(options.path_to_sch, "design.sch");
    assert!(!options.headless);
    assert_eq!(
        options.get_timeouts(),
        Timeouts { window_launch: 5000, popup_launch: 1000, execution: 5000 }
    );
}

#[test]
fn waits_of_the_design_rules_checker() {
    let options = DrcOptions::new("board.kicad_pcb".to_string(), true);
    assert_eq!(options.path_to_kicad_pcb, "board.kicad_pcb");
    assert!(options.headless);
    assert_eq!(
        options.get_timeouts(),
        Timeouts { window_launch: 10_000, popup_launch: 1000, execution: 20_000 }
    );
}

#[test]
fn waits_that_are_asked_for() {
    let options = ErcOptions {
        path_to_sch: "design.sch".to_string(),
        headless: true,
        eeschema_launch_timeout_in_s: 0,
        popup_timeout_in_s: 2,
        erc_timeout_in_s: u64::MAX,
    };
    assert_eq!(
        options.get_timeouts(),
        Timeouts { window_launch: 0, popup_launch: 2000, execution: 18_446_744_073_709_551_615_000 }
    );
    let options = DrcOptions {
        path_to_kicad_pcb: "board.kicad_pcb".to_string(),
        headless: false,
        pcbnew_launch_timeout_in_s: 30,
        popup_timeout_in_s: 3,
        drc_timeout_in_s: 60,
    };
    assert_eq!(
        options.get_timeouts(),
        Timeouts { window_launch: 30_000, popup_launch: 3000, execution: 60_000 }
    );
}

#[test]
fn seconds_in_milliseconds() {
    assert_eq!(seconds(0), 0);
    assert_eq!(seconds(1), 1000);
    assert_eq!(seconds(u64::MAX), u64::MAX as u128 * 1000);
}

#[test]
fn keys_and_their_delays() {
    let pacing = Pacing::standard();
    assert_eq!(pacing, Pacing { key_delay: 50, modifier_delay: 50 });
    let tap = tap_key(Key::Tab);
    assert_eq!(tap, InputEvent::Tap(Key::Tab));
    assert_eq!(pacing.delays(&tap), Some(TapDelays { key_delay: 50, modifier_delay: 0 }));
    let combo = tap_combo(Modifier::Alt, Key::Character('i'));
    assert_eq!(combo, InputEvent::Combo(Modifier::Alt, Key::Character('i')));
    assert_eq!(pacing.delays(&combo), Some(TapDelays { key_delay: 50, modifier_delay: 50 }));
    let text = type_string("/tmp/erc_output");
    assert_eq!(text, InputEvent::Text("/tmp/erc_output".to_string()));
    assert_eq!(pacing.delays(&text), None);
    let slow = Pacing { key_delay: 200, modifier_delay: 10 };
    assert_eq!(slow.delays(&combo), Some(TapDelays { key_delay: 200, modifier_delay: 10 }));
    assert_eq!(slow.delays(&tap), Some(TapDelays { key_delay: 200, modifier_delay: 0 }));
}
