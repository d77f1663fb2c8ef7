//! Waiting for a report: the file at a known place that a checker writes when
//! it is done.
//!
//! A report that lies there from an earlier run is removed first, so that a
//! file that is found is the one that was waited for.

use vstd::prelude::*;
use crate::event::{Event, EventView};

verus! {

/// What a wait for a report is doing.
#[derive(Debug, Clone, Copy, PartialEq, Eq, Structural)]
pub enum PollerPhase {
    /// The removal of an earlier report was asked for.
    Clearing,
    /// The caller was told that the way is clear.
    Ready,
    /// A look whether the report is there was asked for.
    Probing,
    /// A pause was asked for.
    Sleeping,
    /// The reading of the report was asked for.
    Reading,
    /// The wait is over.
    Finished,
}

/// A wait for a report: the pause between two looks, the time that the wait
/// may last and the time that it has paused so far, all in milliseconds.
#[derive(Debug, Clone, Copy, PartialEq, Eq, Structural)]
pub struct ReportPoller {
    pub interval: u128,
    pub timeout: u128,
    pub elapsed: u128,
    pub phase: PollerPhase,
}

/// What a wait for a report asks for next, or how it ended.
#[derive(Debug, Clone, PartialEq, Eq)]
pub enum PollerStep {
    /// Remove the report if there is one, and report a failure to do so.
    RemoveStale,
    /// No earlier report is in the way: start what writes the report.
    Ready,
    /// Look whether the report is there.
    Probe,
    /// Pause for so many milliseconds.
    Sleep(u128),
    /// Read the report.
    Read,
    /// The wait ended: this is what the report holds.
    Contents(String),
    /// The wait ended: the earlier report could not be removed.
    CleanupError(String),
    /// The wait ended: the report was there and could not be read.
    ReadError(String),
    /// The wait ended: the report was not there after so many milliseconds.
    Timeout(u128),
}

/// A step of a wait, with its texts as sequences of characters.
pub enum PollerStepView {
    RemoveStale,
    Ready,
    Probe,
    Sleep(u128),
    Read,
    Contents(Seq<char>),
    CleanupError(Seq<char>),
    ReadError(Seq<char>),
    Timeout(u128),
}

impl View for PollerStep {
    type V = PollerStepView;

    open spec fn view(&self) -> PollerStepView {
        match self {
            PollerStep::RemoveStale => PollerStepView::RemoveStale,
            PollerStep::Ready => PollerStepView::Ready,
            PollerStep::Probe => PollerStepView::Probe,
            PollerStep::Sleep(millis) => PollerStepView::Sleep(*millis),
            PollerStep::Read => PollerStepView::Read,
            PollerStep::Contents(text) => PollerStepView::Contents(text@),
            PollerStep::CleanupError(reason) => PollerStepView::CleanupError(reason@),
            PollerStep::ReadError(reason) => PollerStepView::ReadError(reason@),
            PollerStep::Timeout(millis) => PollerStepView::Timeout(*millis),
        }
    }
}

impl ReportPoller {
    /// The wait in the phase `phase`.
    pub open spec fn in_phase(self, phase: PollerPhase) -> ReportPoller {
        ReportPoller {
            interval: self.interval,
            timeout: self.timeout,
            elapsed: self.elapsed,
            phase,
        }
    }

    /// The wait after one more pause, about to look again. The time paused
    /// stops counting at the largest number that can be held.
    pub open spec fn paused(self) -> ReportPoller {
        ReportPoller {
            interval: self.interval,
            timeout: self.timeout,
            elapsed: if self.elapsed + self.interval > u128::MAX {
                u128::MAX
            } else {
                (self.elapsed + self.interval) as u128
            },
            phase: PollerPhase::Probing,
        }
    }

    /// The wait that pauses `interval` milliseconds between two looks and may
    /// last `timeout` milliseconds, before its first step, which is
    /// `RemoveStale`. There is none where `interval` is 0: that wait would
    /// never end.
    pub open spec fn start(interval: u128, timeout: u128) -> Option<ReportPoller> {
        if interval == 0 {
            None
        } else {
            Some(ReportPoller { interval, timeout, elapsed: 0, phase: PollerPhase::Clearing })
        }
    }

    /// The wait after `event`, and the step that it then takes.
    ///
    /// A failure to remove the earlier report ends the wait; after any other
    /// event the caller is told that the way is clear, and then the looks
    /// begin. A look that finds the report, which only `Present(true)` says,
    /// is followed by its reading, which ends the wait: with what the report
    /// holds, which `Output` says, or else as an error. A look that does not
    /// find it ends the wait once the pauses add up to the time that the wait
    /// may last, and is followed by a pause and another look before that. A
    /// wait that has ended stays ended.
    pub open spec fn next(self, event: EventView) -> (ReportPoller, PollerStepView) {
        match self.phase {
            PollerPhase::Clearing => match event {
                EventView::Failed(reason) => (
                    self.in_phase(PollerPhase::Finished),
                    PollerStepView::CleanupError(reason),
                ),
                _ => (self.in_phase(PollerPhase::Ready), PollerStepView::Ready),
            },
            PollerPhase::Ready => (self.in_phase(PollerPhase::Probing), PollerStepView::Probe),
            PollerPhase::Probing => if event == EventView::Present(true) {
                (self.in_phase(PollerPhase::Reading), PollerStepView::Read)
            } else if self.elapsed >= self.timeout {
                (self.in_phase(PollerPhase::Finished), PollerStepView::Timeout(self.timeout))
            } else {
                (self.in_phase(PollerPhase::Sleeping), PollerStepView::Sleep(self.interval))
            },
            PollerPhase::Sleeping => (self.paused(), PollerStepView::Probe),
            PollerPhase::Reading => (
                self.in_phase(PollerPhase::Finished),
                match event {
                    EventView::Output(text) => PollerStepView::Contents(text),
                    EventView::Failed(reason) => PollerStepView::ReadError(reason),
                    _ => PollerStepView::ReadError(Seq::empty()),
                },
            ),
            PollerPhase::Finished => (self, PollerStepView::Timeout(self.timeout)),
        }
    }

    /// Begins a wait: see [`ReportPoller::start`]. The first step of the wait
    /// is `RemoveStale`.
    pub fn new(interval: u128, timeout: u128) -> (begun: Option<ReportPoller>)
        ensures
            begun == ReportPoller::start(interval, timeout),
    {
        if interval == 0 {
            None
        } else {
            Some(ReportPoller { interval, timeout, elapsed: 0, phase: PollerPhase::Clearing })
        }
    }

    /// Puts the wait into the phase `phase`.
    fn into_phase(self, phase: PollerPhase) -> (moved: ReportPoller)
        ensures
            moved == self.in_phase(phase),
    {
        ReportPoller {
            interval: self.interval,
            timeout: self.timeout,
            elapsed: self.elapsed,
            phase,
        }
    }
}

/// Takes the wait `poller` one step on, after `event`: see
/// [`ReportPoller::next`].
pub fn await_file(poller: ReportPoller, event: Event) -> (stepped: (ReportPoller, PollerStep))
    ensures
        (stepped.0, stepped.1@) == poller.next(event@),
{
    match poller.phase {
        PollerPhase::Clearing => match event {
            Event::Failed(reason) => (
                poller.into_phase(PollerPhase::Finished),
                PollerStep::CleanupError(reason),
            ),
            _ => (poller.into_phase(PollerPhase::Ready), PollerStep::Ready),
        },
        PollerPhase::Ready => (poller.into_phase(PollerPhase::Probing), PollerStep::Probe),
        PollerPhase::Probing => {
            let there = match event {
                Event::Present(there) => there,
                _ => false,
            };
            if there {
                (poller.into_phase(PollerPhase::Reading), PollerStep::Read)
            } else if poller.elapsed >= poller.timeout {
                (poller.into_phase(PollerPhase::Finished), PollerStep::Timeout(poller.timeout))
            } else {
                (poller.into_phase(PollerPhase::Sleeping), PollerStep::Sleep(poller.interval))
            }
        },
        PollerPhase::Sleeping => {
            let elapsed = match poller.elapsed.checked_add(poller.interval) {
                Some(sum) => sum,
                None => u128::MAX,
            };
            (
                ReportPoller {
                    interval: poller.interval,
                    timeout: poller.timeout,
                    elapsed,
                    phase: PollerPhase::Probing,
                },
                PollerStep::Probe,
            )
        },
        PollerPhase::Reading => (
            poller.into_phase(PollerPhase::Finished),
            match event {
                Event::Output(text) => PollerStep::Contents(text),
                Event::Failed(reason) => PollerStep::ReadError(reason),
                _ => PollerStep::ReadError(String::new()),
            },
        ),
        PollerPhase::Finished => (poller, PollerStep::Timeout(poller.timeout)),
    }
}

impl ReportPoller {
    /// The steps that the wait takes when `events` come in, one after each.
    pub open spec fn steps(self, events: Seq<EventView>) -> Seq<PollerStepView>
        decreases events.len(),
    {
        if events.len() == 0 {
            Seq::empty()
        } else {
            seq![self.next(events[0]).1] + self.next(events[0]).0.steps(events.skip(1))
        }
    }

    /// The wait after `n` more pauses, about to look again.
    pub open spec fn paused_times(self, n: nat) -> ReportPoller
        decreases n,
    {
        if n == 0 {
            self.in_phase(PollerPhase::Probing)
        } else {
            self.paused().paused_times((n - 1) as nat)
        }
    }
}

/// What comes in while `n` looks in a row do not find the report: each time
/// that it is not there, and then the end of the pause.
pub open spec fn looks_in_vain(n: nat) -> Seq<EventView>
    decreases n,
{
    if n == 0 {
        Seq::empty()
    } else {
        seq![EventView::Present(false), EventView::Done] + looks_in_vain((n - 1) as nat)
    }
}

/// `n` times a pause of `interval` milliseconds and then a look.
pub open spec fn pauses_and_looks(n: nat, interval: u128) -> Seq<PollerStepView>
    decreases n,
{
    if n == 0 {
        Seq::empty()
    } else {
        seq![PollerStepView::Sleep(interval), PollerStepView::Probe] + pauses_and_looks(
            (n - 1) as nat,
            interval,
        )
    }
}

/// After `n` pauses that do not add up to more than can be held, the time
/// paused is `n` intervals more.
pub proof fn lemma_paused_times(poller: ReportPoller, n: nat)
    requires
        poller.elapsed + n * poller.interval <= u128::MAX,
    ensures
        poller.paused_times(n) == (ReportPoller {
            interval: poller.interval,
            timeout: poller.timeout,
            elapsed: (poller.elapsed + n * poller.interval) as u128,
            phase: PollerPhase::Probing,
        }),
    decreases n,
{
    if n > 0 {
        assert(n * poller.interval == (n - 1) * poller.interval + poller.interval)
            by (nonlinear_arith);
        assert((n - 1) * poller.interval >= 0) by (nonlinear_arith)
            requires
                n >= 1,
                poller.interval >= 0,
        ;
        lemma_paused_times(poller.paused(), (n - 1) as nat);
    } else {
        assert(n * poller.interval == 0) by (nonlinear_arith)
            requires
                n == 0,
        ;
    }
}

/// While the looks do not find the report and the pauses so far add up to
/// less than the time that the wait may last, the wait pauses one interval
/// after each look and looks again.
pub proof fn lemma_poll_goes_on(poller: ReportPoller, n: nat, then: Seq<EventView>)
    requires
        poller.phase == PollerPhase::Probing,
        n > 0 ==> poller.elapsed + (n - 1) * poller.interval < poller.timeout,
    ensures
        poller.steps(looks_in_vain(n) + then) == pauses_and_looks(n, poller.interval)
            + poller.paused_times(n).steps(then),
    decreases n,
{
    if n > 0 {
        assert((n - 1) * poller.interval >= 0) by (nonlinear_arith)
            requires
                n >= 1,
                poller.interval >= 0,
        ;
        let events = looks_in_vain(n) + then;
        let sleeping = poller.next(events[0]).0;
        let probing = sleeping.next(events[1]).0;
        let rest = looks_in_vain((n - 1) as nat) + then;
        assert(events.skip(1).skip(1) =~= rest);
        assert(sleeping.steps(events.skip(1)) == seq![sleeping.next(events[1]).1]
            + probing.steps(rest));
        if n > 1 {
            assert((n - 1) * poller.interval == (n - 2) * poller.interval + poller.interval)
                by (nonlinear_arith);
            assert((n - 2) * poller.interval >= 0) by (nonlinear_arith)
                requires
                    n >= 2,
                    poller.interval >= 0,
            ;
        }
        lemma_poll_goes_on(probing, (n - 1) as nat, then);
    }
}

/// Where the report never comes, the wait ends as timed out, and it does so
/// after the first look at which the pauses add up to the time that it may
/// last or more: after `n` pauses, where `n` intervals are at least that time
/// and `n - 1` are less. This holds of every such wait, so of a second one for
/// the same report as well.
pub proof fn lemma_report_never_comes(interval: u128, timeout: u128, n: nat)
    requires
        interval > 0,
        n * interval >= timeout,
        n > 0 ==> (n - 1) * interval < timeout,
    ensures
        ReportPoller::start(interval, timeout) is Some,
        ReportPoller::start(interval, timeout).unwrap().steps(
            seq![EventView::Done, EventView::Done] + looks_in_vain(n) + seq![
                EventView::Present(false),
            ],
        ) == seq![PollerStepView::Ready, PollerStepView::Probe] + pauses_and_looks(n, interval)
            + seq![PollerStepView::Timeout(timeout)],
{
    let poller = ReportPoller::start(interval, timeout).unwrap();
    let last = seq![EventView::Present(false)];
    let events = seq![EventView::Done, EventView::Done] + looks_in_vain(n) + last;
    let ready = poller.next(events[0]).0;
    let probing = ready.next(events[1]).0;
    let rest = looks_in_vain(n) + last;
    assert(events.skip(1).skip(1) =~= rest);
    assert(ready.steps(events.skip(1)) == seq![ready.next(events[1]).1] + probing.steps(rest));
    lemma_poll_goes_on(probing, n, last);
    let end = probing.paused_times(n);
    assert(end.phase == PollerPhase::Probing && end.elapsed >= timeout && end.timeout == timeout)
        by {
        if n > 0 {
            assert(n * interval == (n - 1) * interval + interval) by (nonlinear_arith);
            lemma_paused_times(probing, (n - 1) as nat);
            lemma_paused_commutes(probing, (n - 1) as nat);
        }
    }
    assert(end.next(last[0]).0.steps(last.skip(1)) =~= Seq::<PollerStepView>::empty());
}

/// One pause and then `n` more are `n` pauses and then one more.
proof fn lemma_paused_commutes(poller: ReportPoller, n: nat)
    ensures
        poller.paused().paused_times(n) == poller.paused_times(n).paused(),
    decreases n,
{
    if n > 0 {
        lemma_paused_commutes(poller.paused(), (n - 1) as nat);
    }
}

impl ReportPoller {
    /// How many pauses are still to come if the report does not: as many as
    /// it takes for the time paused to reach the time that the wait may last.
    pub open spec fn pauses_left(self) -> nat {
        if self.elapsed >= self.timeout || self.interval == 0 {
            0
        } else {
            ((self.timeout - self.elapsed - 1) / (self.interval as int) + 1) as nat
        }
    }

    /// More steps than the wait can still take, whatever comes in.
    pub open spec fn steps_left(self) -> nat {
        match self.phase {
            PollerPhase::Clearing => 2 * self.pauses_left() + 5,
            PollerPhase::Ready => 2 * self.pauses_left() + 4,
            PollerPhase::Probing => 2 * self.pauses_left() + 3,
            PollerPhase::Sleeping => 2 * self.paused().pauses_left() + 4,
            PollerPhase::Reading => 1,
            PollerPhase::Finished => 0,
        }
    }
}

/// A pause that was due leaves fewer pauses to come.
pub proof fn lemma_pause_counts(poller: ReportPoller)
    requires
        poller.interval > 0,
        poller.elapsed < poller.timeout,
    ensures
        poller.paused().pauses_left() < poller.pauses_left(),
{
    let i = poller.interval as int;
    let before = poller.timeout - poller.elapsed - 1;
    if poller.elapsed + poller.interval < poller.timeout {
        let after = before - i;
        assert(after / i + 1 == before / i) by (nonlinear_arith)
            requires
                i > 0,
                after >= 0,
                before == after + i,
        ;
    } else {
        assert(before / i >= 0) by (nonlinear_arith)
            requires
                i > 0,
                before >= 0,
        ;
    }
}

/// Whatever comes in, each step of a wait that is not finished leaves fewer
/// steps to take than there were, so that no wait for a report goes on for
/// ever: provided that the pause between two looks is not 0, which the step
/// keeps so.
pub proof fn lemma_poll_comes_to_an_end(poller: ReportPoller, event: EventView)
    requires
        poller.interval > 0,
    ensures
        poller.next(event).0.interval == poller.interval,
        poller.phase != PollerPhase::Finished ==> poller.next(event).0.steps_left()
            < poller.steps_left(),
{
    if poller.phase == PollerPhase::Probing && poller.elapsed < poller.timeout {
        lemma_pause_counts(poller);
    }
}

} // verus!
