use kicad_cli::event::Event;
use kicad_cli::window::{
    parse_window_ids, wait_for_child_window, LocatorPhase, LocatorStep, WindowHandle,
    WindowLocator, WINDOW_POLL_INTERVAL_MS,
};

fn handle(id: &str) -> WindowHandle {
    WindowHandle { id: id.to_string() }
}

fn output(text: &str) -> Event {
    Event::Output(text.to_string())
}

#[test]
fn window_ids_are_the_lines_that_are_not_empty() {
    assert_eq!(parse_window_ids(""), Vec::<WindowHandle>::new());
    assert_eq!(parse_window_ids("\n\n"), Vec::<WindowHandle>::new());
    assert_eq!(parse_window_ids("4194311\n"), vec![handle("4194311")]);
    assert_eq!(parse_window_ids("4194311"), vec![handle("4194311")]);
    assert_eq!(
        parse_window_ids("4194311\n\n6291459\n"),
        vec![handle("4194311"), handle("6291459")]
    );
    assert_eq!(parse_window_ids("\n a b \nc"), vec![handle(" a b "), handle("c")]);
}

#[test]
fn as_many_searches_as_intervals_fit() {
    let (locator, step) = WindowLocator::new(5000, 1);
    assert_eq!(step, LocatorStep::Search);
    assert_eq!(
        locator,
        WindowLocator { expected: 1, polls_left: 50, phase: LocatorPhase::Searching }
    );
    let (locator, _) = WindowLocator::new(199, 1);
    assert_eq!(locator.polls_left, 1);
}

#[test]
fn no_search_where_no_interval_fits() {
    let (locator, step) = WindowLocator::new(99, 1);
    assert_eq!(step, LocatorStep::NotFound);
    assert_eq!(locator.phase, LocatorPhase::Finished);
    let (locator, step) = wait_for_child_window(locator, &output("1\n"));
    assert_eq!(step, LocatorStep::NotFound);
    assert_eq!(locator.phase, LocatorPhase::Finished);
}

#[test]
fn window_found_after_searches_in_vain() {
    let misses = 3;
    let (mut locator, first) = WindowLocator::new(1000, 1);
    assert_eq!(first, LocatorStep::Search);
    let mut paused: u128 = 0;
    for _ in 0..misses {
        let (next, step) = wait_for_child_window(locator, &output(""));
        assert_eq!(step, LocatorStep::Sleep(WINDOW_POLL_INTERVAL_MS));
        paused += WINDOW_POLL_INTERVAL_MS;
        let (next, step) = wait_for_child_window(next, &Event::Done);
        assert_eq!(step, LocatorStep::Search);
        locator = next;
    }
    let (locator, step) = wait_for_child_window(locator, &output("4194311\n"));
    assert_eq!(step, LocatorStep::Found(vec![handle("4194311")]));
    assert_eq!(locator.phase, LocatorPhase::Finished);
    assert_eq!(paused, 300);
}

#[test]
fn window_found_at_the_first_search() {
    let (locator, _) = WindowLocator::new(1000, 1);
    let (_, step) = wait_for_child_window(locator, &output("77\n"));
    assert_eq!(step, LocatorStep::Found(vec![handle("77")]));
}

#[test]
fn two_windows_where_one_is_waited_for() {
    let (locator, _) = WindowLocator::new(60_000, 1);
    let (locator, step) = wait_for_child_window(locator, &output("1\n2\n"));
    assert_eq!(step, LocatorStep::Ambiguous(2));
    assert_eq!(locator.phase, LocatorPhase::Finished);
    assert_eq!(locator.polls_left, 0);
    let (_, step) = wait_for_child_window(locator, &Event::Done);
    assert_eq!(step, LocatorStep::NotFound);
}

#[test]
fn window_that_never_comes() {
    let (mut locator, first) = WindowLocator::new(350, 1);
    assert_eq!(first, LocatorStep::Search);
    for round in 0..3 {
        let (next, step) = wait_for_child_window(locator, &output("\n"));
        assert_eq!(step, LocatorStep::Sleep(100));
        let (next, step) = wait_for_child_window(next, &Event::Done);
        if round < 2 {
            assert_eq!(step, LocatorStep::Search);
        } else {
            assert_eq!(step, LocatorStep::NotFound);
        }
        locator = next;
    }
    assert_eq!(locator.phase, LocatorPhase::Finished);
}

#[test]
fn other_numbers_of_windows() {
    let (locator, _) = WindowLocator::new(1000, 2);
    let (locator, step) = wait_for_child_window(locator, &output("1\n2\n3\n"));
    assert_eq!(step, LocatorStep::Sleep(100));
    let (locator, _) = wait_for_child_window(locator, &Event::Done);
    let (_, step) = wait_for_child_window(locator, &output("1\n2\n"));
    assert_eq!(step, LocatorStep::Found(vec![handle("1"), handle("2")]));
    let (locator, _) = WindowLocator::new(1000, 0);
    let (_, step) = wait_for_child_window(locator, &output(""));
    assert_eq!(step, LocatorStep::Found(vec![]));
}

#[test]
fn a_search_that_reports_no_output_found_nothing() {
    let (locator, _) = WindowLocator::new(1000, 1);
    let (_, step) = wait_for_child_window(locator, &Event::Failed("no xdotool".to_string()));
    assert_eq!(step, LocatorStep::Sleep(100));
}
