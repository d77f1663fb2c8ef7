//! What the caller reports back after it has carried out an action.

use vstd::prelude::*;

verus! {

/// What came of the action that the caller was last asked for.
#[derive(Debug, Clone, PartialEq, Eq)]
pub enum Event {
    /// The action was carried out, and there is nothing to say of it.
    Done,
    /// The action failed, for the reason given.
    Failed(String),
    /// The action produced this text: what a search printed, what a file
    /// holds.
    Output(String),
    /// Whether what the action looked for is there.
    Present(bool),
}

/// An event, with its texts as sequences of characters.
pub enum EventView {
    Done,
    Failed(Seq<char>),
    Output(Seq<char>),
    Present(bool),
}

impl View for Event {
    type V = EventView;

    open spec fn view(&self) -> EventView {
        match self {
            Event::Done => EventView::Done,
            Event::Failed(reason) => EventView::Failed(reason@),
            Event::Output(text) => EventView::Output(text@),
            Event::Present(there) => EventView::Present(*there),
        }
    }
}

} // verus!
