use kicad_cli::event::Event;
use kicad_cli::poller::{await_file, PollerPhase, PollerStep, ReportPoller};

fn never_comes(interval: u128, timeout: u128) -> (u128, PollerStep) {
    let poller = ReportPoller::new(interval, timeout).unwrap();
    let (poller, step) = await_file(poller, Event::Done);
    assert_eq!(step, PollerStep::Ready);
    let (mut poller, step) = await_file(poller, Event::Done);
    assert_eq!(step, PollerStep::Probe);
    let mut paused = 0;
    loop {
        let (next, step) = await_file(poller, Event::Present(false));
        match step {
            PollerStep::Sleep(millis) => {
                assert_eq!(millis, interval);
                paused += millis;
            }
            last => return (paused, last),
        }
        let (next, step) = await_file(next, Event::Done);
        assert_eq!(step, PollerStep::Probe);
        poller = next;
    }
}

#[test]
fn no_wait_without_an_interval() {
    assert_eq!(ReportPoller::new(0, 1000), None);
    assert_eq!(
        ReportPoller::new(100, 1000),
        Some(ReportPoller { interval: 100, timeout: 1000, elapsed: 0, phase: PollerPhase::Clearing })
    );
}

#[test]
fn report_that_never_comes_times_out_twice() {
    for _ in 0..2 {
        let (paused, last) = never_comes(100, 1000);
        assert_eq!(last, PollerStep::Timeout(1000));
        assert_eq!(paused, 1000);
    }
}

#[test]
fn timeout_not_before_the_time_is_up() {
    let (paused, last) = never_comes(300, 1000);
    assert_eq!(last, PollerStep::Timeout(1000));
    assert_eq!(paused, 1200);
    let (paused, last) = never_comes(100, 0);
    assert_eq!(last, PollerStep::Timeout(0));
    assert_eq!(paused, 0);
    let (paused, last) = never_comes(u128::MAX, u128::MAX);
    assert_eq!(last, PollerStep::Timeout(u128::MAX));
    assert_eq!(paused, u128::MAX);
}

#[test]
fn report_that_comes_is_read() {
    let poller = ReportPoller::new(100, 1000).unwrap();
    let (poller, _) = await_file(poller, Event::Done);
    let (poller, _) = await_file(poller, Event::Done);
    let (poller, step) = await_file(poller, Event::Present(false));
    assert_eq!(step, PollerStep::Sleep(100));
    let (poller, step) = await_file(poller, Event::Done);
    assert_eq!(step, PollerStep::Probe);
    assert_eq!(poller.elapsed, 100);
    let (poller, step) = await_file(poller, Event::Present(true));
    assert_eq!(step, PollerStep::Read);
    let (poller, step) = await_file(poller, Event::Output("the report".to_string()));
    assert_eq!(step, PollerStep::Contents("the report".to_string()));
    assert_eq!(poller.phase, PollerPhase::Finished);
}

#[test]
fn report_that_is_there_when_the_time_is_up_is_read() {
    let poller = ReportPoller::new(100, 0).unwrap();
    let (poller, _) = await_file(poller, Event::Done);
    let (poller, _) = await_file(poller, Event::Done);
    let (_, step) = await_file(poller, Event::Present(true));
    assert_eq!(step, PollerStep::Read);
}

#[test]
fn earlier_report_that_cannot_be_removed() {
    let poller = ReportPoller::new(100, 1000).unwrap();
    let (poller, step) = await_file(poller, Event::Failed("permission denied".to_string()));
    assert_eq!(step, PollerStep::CleanupError("permission denied".to_string()));
    assert_eq!(poller.phase, PollerPhase::Finished);
    let (_, step) = await_file(poller, Event::Done);
    assert_eq!(step, PollerStep::Timeout(1000));
}

#[test]
fn report_that_cannot_be_read() {
    let poller = ReportPoller { interval: 100, timeout: 1000, elapsed: 0, phase: PollerPhase::Reading };
    let (_, step) = await_file(poller, Event::Failed("is a directory".to_string()));
    assert_eq!(step, PollerStep::ReadError("is a directory".to_string()));
    let (_, step) = await_file(poller, Event::Done);
    assert_eq!(step, PollerStep::ReadError(String::new()));
}
