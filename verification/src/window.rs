//! Waiting for a window: what a search printed, and what to do about it.

use vstd::prelude::*;
use vstd::string::StrSliceExecFns;
use crate::event::{Event, EventView};
use crate::text::{chars_of, pieces};

verus! {

/// The time between two searches, in milliseconds.
pub const WINDOW_POLL_INTERVAL_MS: u128 = 100;

/// The name that the window manager has for a window. It stands for the
/// window only while the window is there.
#[derive(Debug, PartialEq, Eq)]
pub struct WindowHandle {
    pub id: String,
}

impl View for WindowHandle {
    type V = Seq<char>;

    open spec fn view(&self) -> Seq<char> {
        self.id@
    }
}

impl Clone for WindowHandle {
    fn clone(&self) -> (copy: Self)
        ensures
            copy@ == self@,
    {
        WindowHandle { id: self.id.clone() }
    }
}

/// The views of the handles in `handles`.
pub open spec fn handle_views(handles: Seq<WindowHandle>) -> Seq<Seq<char>> {
    handles.map_values(|h: WindowHandle| h@)
}

/// Those of `ls` that are not empty, in their order.
pub open spec fn non_empty(ls: Seq<Seq<char>>) -> Seq<Seq<char>>
    decreases ls.len(),
{
    if ls.len() == 0 {
        Seq::empty()
    } else if ls.last().len() > 0 {
        non_empty(ls.drop_last()).push(ls.last())
    } else {
        non_empty(ls.drop_last())
    }
}

/// The windows that a search found, where `output` is what it printed: one
/// name on each line that is not empty.
pub open spec fn window_ids(output: Seq<char>) -> Seq<Seq<char>> {
    non_empty(pieces(output))
}

/// Reads what a search printed into the handles of the windows it found.
pub fn parse_window_ids(output: &str) -> (handles: Vec<WindowHandle>)
    ensures
        handle_views(handles@) == window_ids(output@),
{
    let chars = chars_of(output);
    let mut handles: Vec<WindowHandle> = Vec::new();
    let mut start: usize = 0;
    let mut i: usize = 0;
    while i < chars.len()
        invariant
            chars@ == output@,
            start <= i <= chars.len(),
            pieces(chars@.take(i as int)).len() > 0,
            pieces(chars@.take(i as int)).last() == chars@.subrange(start as int, i as int),
            non_empty(pieces(chars@.take(i as int)).drop_last()) == handle_views(handles@),
        decreases chars.len() - i,
    {
        let ghost before = pieces(chars@.take(i as int));
        assert(chars@.take(i + 1).drop_last() =~= chars@.take(i as int));
        if chars[i] == '\n' {
            assert(before.push(Seq::empty()).drop_last() =~= before);
            if start < i {
                let id = output.substring_char(start, i).to_owned();
                handles.push(WindowHandle { id });
            }
            start = i + 1;
        } else {
            assert(before.drop_last().push(before.last().push(chars@[i as int])).drop_last()
                =~= before.drop_last());
        }
        i += 1;
    }
    assert(chars@.take(i as int) =~= chars@);
    if start < i {
        let id = output.substring_char(start, i).to_owned();
        handles.push(WindowHandle { id });
    }
    handles
}

/// What a wait for a window is doing.
#[derive(Debug, Clone, Copy, PartialEq, Eq, Structural)]
pub enum LocatorPhase {
    /// A search was asked for; what it printed comes next.
    Searching,
    /// A pause was asked for; its end comes next.
    Sleeping,
    /// The wait is over.
    Finished,
}

/// A wait for windows: for how many it waits, and how many searches it may
/// still make.
#[derive(Debug, Clone, Copy, PartialEq, Eq, Structural)]
pub struct WindowLocator {
    pub expected: usize,
    pub polls_left: u128,
    pub phase: LocatorPhase,
}

/// What a wait for a window asks for next, or how it ended.
#[derive(Debug, Clone, PartialEq, Eq)]
pub enum LocatorStep {
    /// Search for the windows, and report what the search printed.
    Search,
    /// Pause for so many milliseconds.
    Sleep(u128),
    /// The wait ended: these are the windows.
    Found(Vec<WindowHandle>),
    /// The wait ended: one window was waited for, and so many were there.
    Ambiguous(usize),
    /// The wait ended: the time ran out.
    NotFound,
}

/// A step of a wait, with the handles as sequences of characters.
pub enum LocatorStepView {
    Search,
    Sleep(u128),
    Found(Seq<Seq<char>>),
    Ambiguous(usize),
    NotFound,
}

impl View for LocatorStep {
    type V = LocatorStepView;

    open spec fn view(&self) -> LocatorStepView {
        match self {
            LocatorStep::Search => LocatorStepView::Search,
            LocatorStep::Sleep(millis) => LocatorStepView::Sleep(*millis),
            LocatorStep::Found(handles) => LocatorStepView::Found(handle_views(handles@)),
            LocatorStep::Ambiguous(count) => LocatorStepView::Ambiguous(*count),
            LocatorStep::NotFound => LocatorStepView::NotFound,
        }
    }
}

/// The windows that an event reports: those that the search printed, and none
/// where the event is no output of a search.
pub open spec fn reported_ids(event: EventView) -> Seq<Seq<char>> {
    match event {
        EventView::Output(text) => window_ids(text),
        _ => Seq::empty(),
    }
}

impl WindowLocator {
    /// A wait that is over.
    pub open spec fn over(self) -> WindowLocator {
        WindowLocator { expected: self.expected, polls_left: 0, phase: LocatorPhase::Finished }
    }

    /// The wait for `expected` windows that may last `timeout` milliseconds,
    /// and its first step.
    pub open spec fn start(timeout: u128, expected: usize) -> (WindowLocator, LocatorStepView) {
        let polls = timeout / WINDOW_POLL_INTERVAL_MS;
        if polls == 0 {
            (
                WindowLocator { expected, polls_left: 0, phase: LocatorPhase::Finished },
                LocatorStepView::NotFound,
            )
        } else {
            (
                WindowLocator { expected, polls_left: polls, phase: LocatorPhase::Searching },
                LocatorStepView::Search,
            )
        }
    }

    /// The wait after `event`, and the step that it then takes.
    ///
    /// After a search: as many windows as were waited for end the wait with
    /// these; more than one where one was waited for end it as ambiguous; any
    /// other number is followed by a pause. After a pause: the next search,
    /// unless the searches are used up, which ends the wait.
    pub open spec fn next(self, event: EventView) -> (WindowLocator, LocatorStepView) {
        match self.phase {
            LocatorPhase::Searching => {
                let ids = reported_ids(event);
                if ids.len() == self.expected {
                    (self.over(), LocatorStepView::Found(ids))
                } else if self.expected == 1 && ids.len() > 1 {
                    (self.over(), LocatorStepView::Ambiguous(ids.len() as usize))
                } else {
                    (
                        WindowLocator {
                            expected: self.expected,
                            polls_left: self.polls_left,
                            phase: LocatorPhase::Sleeping,
                        },
                        LocatorStepView::Sleep(WINDOW_POLL_INTERVAL_MS),
                    )
                }
            },
            LocatorPhase::Sleeping => if self.polls_left <= 1 {
                (self.over(), LocatorStepView::NotFound)
            } else {
                (
                    WindowLocator {
                        expected: self.expected,
                        polls_left: (self.polls_left - 1) as u128,
                        phase: LocatorPhase::Searching,
                    },
                    LocatorStepView::Search,
                )
            },
            LocatorPhase::Finished => (self, LocatorStepView::NotFound),
        }
    }

    /// Begins the wait for `expected` windows, which may last `timeout`
    /// milliseconds: as many searches as intervals fit into that time. No
    /// search is made where not one interval fits.
    pub fn new(timeout: u128, expected: usize) -> (begun: (WindowLocator, LocatorStep))
        ensures
            (begun.0, begun.1@) == WindowLocator::start(timeout, expected),
    {
        let polls = timeout / WINDOW_POLL_INTERVAL_MS;
        if polls == 0 {
            (
                WindowLocator { expected, polls_left: 0, phase: LocatorPhase::Finished },
                LocatorStep::NotFound,
            )
        } else {
            (
                WindowLocator { expected, polls_left: polls, phase: LocatorPhase::Searching },
                LocatorStep::Search,
            )
        }
    }

    /// Ends the wait.
    fn finish(self) -> (ended: WindowLocator)
        ensures
            ended == self.over(),
    {
        WindowLocator { expected: self.expected, polls_left: 0, phase: LocatorPhase::Finished }
    }
}

/// Takes the wait `locator` one step on, after `event`: see
/// [`WindowLocator::next`].
pub fn wait_for_child_window(locator: WindowLocator, event: &Event) -> (stepped: (
    WindowLocator,
    LocatorStep,
))
    ensures
        (stepped.0, stepped.1@) == locator.next(event@),
{
    match locator.phase {
        LocatorPhase::Searching => {
            let handles = match event {
                Event::Output(text) => parse_window_ids(text.as_str()),
                _ => Vec::new(),
            };
            proof {
                if !(event@ is Output) {
                    assert(handle_views(handles@) =~= Seq::<Seq<char>>::empty());
                }
            }
            if handles.len() == locator.expected {
                (locator.finish(), LocatorStep::Found(handles))
            } else if locator.expected == 1 && handles.len() > 1 {
                (locator.finish(), LocatorStep::Ambiguous(handles.len()))
            } else {
                (
                    WindowLocator {
                        expected: locator.expected,
                        polls_left: locator.polls_left,
                        phase: LocatorPhase::Sleeping,
                    },
                    LocatorStep::Sleep(WINDOW_POLL_INTERVAL_MS),
                )
            }
        },
        LocatorPhase::Sleeping => if locator.polls_left <= 1 {
            (locator.finish(), LocatorStep::NotFound)
        } else {
            (
                WindowLocator {
                    expected: locator.expected,
                    polls_left: locator.polls_left - 1,
                    phase: LocatorPhase::Searching,
                },
                LocatorStep::Search,
            )
        },
        LocatorPhase::Finished => (locator, LocatorStep::NotFound),
    }
}

impl WindowLocator {
    /// The steps that the wait takes when `events` come in, one after each.
    pub open spec fn steps(self, events: Seq<EventView>) -> Seq<LocatorStepView>
        decreases events.len(),
    {
        if events.len() == 0 {
            Seq::empty()
        } else {
            seq![self.next(events[0]).1] + self.next(events[0]).0.steps(events.skip(1))
        }
    }

    /// The wait after `n` searches and pauses, about to search again.
    pub open spec fn searching_after(self, n: nat) -> WindowLocator {
        WindowLocator {
            expected: self.expected,
            polls_left: (self.polls_left - n) as u128,
            phase: LocatorPhase::Searching,
        }
    }

    /// Whether a search that finds `count` windows leaves the wait going on.
    pub open spec fn misses(self, count: nat) -> bool {
        count != self.expected && !(self.expected == 1 && count > 1)
    }
}

/// What comes in while searches in a row print `outputs`, one after the
/// other: each time what the search printed, and then the end of the pause.
pub open spec fn searches_in_vain(outputs: Seq<Seq<char>>) -> Seq<EventView>
    decreases outputs.len(),
{
    if outputs.len() == 0 {
        Seq::empty()
    } else {
        seq![EventView::Output(outputs[0]), EventView::Done] + searches_in_vain(outputs.skip(1))
    }
}

/// `n` times a pause of one interval and then a search.
pub open spec fn pauses_and_searches(n: nat) -> Seq<LocatorStepView>
    decreases n,
{
    if n == 0 {
        Seq::empty()
    } else {
        seq![LocatorStepView::Sleep(WINDOW_POLL_INTERVAL_MS), LocatorStepView::Search]
            + pauses_and_searches((n - 1) as nat)
    }
}

impl WindowLocator {
    /// Whether each of the searches that print `outputs` leaves the wait
    /// going on.
    pub open spec fn misses_all(self, outputs: Seq<Seq<char>>) -> bool {
        forall|i: int|
            0 <= i < outputs.len() ==> self.misses(#[trigger] window_ids(outputs[i]).len())
    }
}

/// While searches find another number of windows than the wait is for, and
/// searches are left, the wait pauses one interval after each and searches
/// again.
pub proof fn lemma_wait_goes_on(
    locator: WindowLocator,
    outputs: Seq<Seq<char>>,
    then: Seq<EventView>,
)
    requires
        locator.phase == LocatorPhase::Searching,
        outputs.len() < locator.polls_left,
        locator.misses_all(outputs),
    ensures
        locator.steps(searches_in_vain(outputs) + then) == pauses_and_searches(outputs.len())
            + locator.searching_after(outputs.len()).steps(then),
    decreases outputs.len(),
{
    if outputs.len() > 0 {
        let events = searches_in_vain(outputs) + then;
        let sleeping = locator.next(events[0]).0;
        let searching = sleeping.next(events[1]).0;
        let rest = searches_in_vain(outputs.skip(1)) + then;
        assert(events.skip(1).skip(1) =~= rest);
        assert(sleeping.steps(events.skip(1)) == seq![sleeping.next(events[1]).1]
            + searching.steps(rest));
        lemma_wait_goes_on(searching, outputs.skip(1), then);
    }
}

/// Where searches in a row find another number of windows than the wait is
/// for, and the next search finds that number, the wait ends with the windows
/// of that search, after as many pauses of one interval each as searches
/// were in vain, and not before: provided that more intervals than that fit
/// into the time it may last.
pub proof fn lemma_wait_converges(
    timeout: u128,
    expected: usize,
    misses: Seq<Seq<char>>,
    hit: Seq<char>,
)
    requires
        misses.len() < timeout / WINDOW_POLL_INTERVAL_MS,
        WindowLocator::start(timeout, expected).0.misses_all(misses),
        window_ids(hit).len() == expected,
    ensures
        WindowLocator::start(timeout, expected).1 == LocatorStepView::Search,
        WindowLocator::start(timeout, expected).0.steps(
            searches_in_vain(misses) + seq![EventView::Output(hit)],
        ) == pauses_and_searches(misses.len()) + seq![LocatorStepView::Found(window_ids(hit))],
{
    let locator = WindowLocator::start(timeout, expected).0;
    let last = seq![EventView::Output(hit)];
    lemma_wait_goes_on(locator, misses, last);
    let searching = locator.searching_after(misses.len());
    assert(searching.next(last[0]).0.steps(last.skip(1)) =~= Seq::<LocatorStepView>::empty());
}

/// Where one window is waited for and a search finds more than one, the wait
/// ends at once as ambiguous, whatever time is left, and stays ended.
pub proof fn lemma_wait_stops_when_ambiguous(locator: WindowLocator, output: Seq<char>)
    requires
        locator.phase == LocatorPhase::Searching,
        locator.expected == 1,
        window_ids(output).len() > 1,
    ensures
        locator.next(EventView::Output(output)).1 == LocatorStepView::Ambiguous(
            window_ids(output).len() as usize,
        ),
        locator.next(EventView::Output(output)).0.phase == LocatorPhase::Finished,
        forall|event: EventView| #[trigger]
            locator.next(EventView::Output(output)).0.next(event) == (
                locator.next(EventView::Output(output)).0,
                LocatorStepView::NotFound,
            ),
{
}

/// Where every search finds another number of windows than the wait is for,
/// the wait ends as not found after as many searches, each with its pause, as
/// intervals fit into the time it may last.
pub proof fn lemma_wait_runs_out(timeout: u128, expected: usize, misses: Seq<Seq<char>>)
    requires
        misses.len() > 0,
        misses.len() == timeout / WINDOW_POLL_INTERVAL_MS,
        WindowLocator::start(timeout, expected).0.misses_all(misses),
    ensures
        WindowLocator::start(timeout, expected).0.steps(searches_in_vain(misses))
            == pauses_and_searches((misses.len() - 1) as nat) + seq![
            LocatorStepView::Sleep(WINDOW_POLL_INTERVAL_MS),
            LocatorStepView::NotFound,
        ],
{
    let locator = WindowLocator::start(timeout, expected).0;
    let last = seq![EventView::Output(misses.last()), EventView::Done];
    lemma_searches_in_vain_end(misses);
    lemma_wait_goes_on(locator, misses.drop_last(), last);
    let searching = locator.searching_after((misses.len() - 1) as nat);
    let sleeping = searching.next(last[0]).0;
    assert(sleeping.next(EventView::Done).0.steps(last.skip(1).skip(1)) =~= Seq::<
        LocatorStepView,
    >::empty());
    assert(sleeping.steps(last.skip(1)) =~= seq![LocatorStepView::NotFound]);
}

/// The last search in vain adds its two events at the end.
proof fn lemma_searches_in_vain_end(outputs: Seq<Seq<char>>)
    requires
        outputs.len() > 0,
    ensures
        searches_in_vain(outputs) == searches_in_vain(outputs.drop_last()) + seq![
            EventView::Output(outputs.last()),
            EventView::Done,
        ],
    decreases outputs.len(),
{
    if outputs.len() > 1 {
        lemma_searches_in_vain_end(outputs.skip(1));
        assert(outputs.skip(1).drop_last() =~= outputs.drop_last().skip(1));
    } else {
        assert(outputs.drop_last() =~= Seq::<Seq<char>>::empty());
        assert(outputs.skip(1) =~= Seq::<Seq<char>>::empty());
    }
}

impl WindowLocator {
    /// More steps than the wait can still take, whatever comes in.
    pub open spec fn steps_left(self) -> nat {
        match self.phase {
            LocatorPhase::Searching => 2 * self.polls_left as nat + 2,
            LocatorPhase::Sleeping => 2 * self.polls_left as nat + 1,
            LocatorPhase::Finished => 0,
        }
    }
}

/// Whatever comes in, each step of a wait that is not finished leaves fewer
/// steps to take than there were, so that no wait for a window goes on for
/// ever. A step that asks for no search and no pause finishes the wait.
pub proof fn lemma_wait_comes_to_an_end(locator: WindowLocator, event: EventView)
    ensures
        locator.phase != LocatorPhase::Finished ==> locator.next(event).0.steps_left()
            < locator.steps_left(),
        locator.next(event).1 is Search || locator.next(event).1 is Sleep
            || locator.next(event).0.phase == LocatorPhase::Finished,
{
}

} // verus!
