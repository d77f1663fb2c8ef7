//! The keys that a session sends, and how they are paced.
//!
//! Keys go to whatever window has the focus. Nothing comes back from them:
//! whether they arrived shows only in the report.

use vstd::prelude::*;

verus! {

/// How long a key is held down, in milliseconds, where nothing else is asked
/// for.
pub const KEY_TAP_DELAY_IN_MS: u64 = 50;

/// How long a modifier is held down before its key is pressed, in
/// milliseconds, where nothing else is asked for.
pub const MOD_TAP_DELAY_IN_MS: u64 = 50;

/// A key of the keyboard.
#[derive(Debug, Clone, Copy, PartialEq, Eq, Structural)]
pub enum Key {
    Down,
    Home,
    Return,
    Space,
    Tab,
    Up,
    /// The key that writes this character.
    Character(char),
}

/// A key that is held down while another is pressed.
#[derive(Debug, Clone, Copy, PartialEq, Eq, Structural)]
pub enum Modifier {
    Control,
    Alt,
}

/// One thing that is sent to the window with the focus.
#[derive(Debug, Clone, PartialEq, Eq)]
pub enum InputEvent {
    /// A key, pressed and let go.
    Tap(Key),
    /// A key, pressed and let go while a modifier is held down.
    Combo(Modifier, Key),
    /// A text, typed character by character.
    Text(String),
}

/// An input event, with its text as a sequence of characters.
pub enum InputEventView {
    Tap(Key),
    Combo(Modifier, Key),
    Text(Seq<char>),
}

impl View for InputEvent {
    type V = InputEventView;

    open spec fn view(&self) -> InputEventView {
        match self {
            InputEvent::Tap(key) => InputEventView::Tap(*key),
            InputEvent::Combo(modifier, key) => InputEventView::Combo(*modifier, *key),
            InputEvent::Text(text) => InputEventView::Text(text@),
        }
    }
}

/// The delays of the keys, in milliseconds.
#[derive(Debug, Clone, Copy, PartialEq, Eq, Structural)]
pub struct Pacing {
    /// How long a key is held down.
    pub key_delay: u64,
    /// How long a modifier is held down before its key is pressed.
    pub modifier_delay: u64,
}

/// The two delays with which one key is sent.
#[derive(Debug, Clone, Copy, PartialEq, Eq, Structural)]
pub struct TapDelays {
    pub key_delay: u64,
    pub modifier_delay: u64,
}

impl Pacing {
    /// The delays that hold where nothing else is asked for.
    pub fn standard() -> (pacing: Pacing)
        ensures
            pacing == (Pacing {
                key_delay: KEY_TAP_DELAY_IN_MS,
                modifier_delay: MOD_TAP_DELAY_IN_MS,
            }),
    {
        Pacing { key_delay: KEY_TAP_DELAY_IN_MS, modifier_delay: MOD_TAP_DELAY_IN_MS }
    }

    /// The delays with which `event` is sent: a key alone has no modifier to
    /// wait for, and a text is not paced by these delays at all.
    pub open spec fn delays_of(self, event: InputEventView) -> Option<TapDelays> {
        match event {
            InputEventView::Tap(_) => Some(
                TapDelays { key_delay: self.key_delay, modifier_delay: 0 },
            ),
            InputEventView::Combo(_, _) => Some(
                TapDelays { key_delay: self.key_delay, modifier_delay: self.modifier_delay },
            ),
            InputEventView::Text(_) => None,
        }
    }

    /// Gives the delays with which `event` is sent.
    pub fn delays(&self, event: &InputEvent) -> (delays: Option<TapDelays>)
        ensures
            delays == self.delays_of(event@),
    {
        match event {
            InputEvent::Tap(_) => Some(TapDelays { key_delay: self.key_delay, modifier_delay: 0 }),
            InputEvent::Combo(_, _) => Some(
                TapDelays { key_delay: self.key_delay, modifier_delay: self.modifier_delay },
            ),
            InputEvent::Text(_) => None,
        }
    }
}

/// The event that presses `key` and lets it go.
pub fn tap_key(key: Key) -> (event: InputEvent)
    ensures
        event@ == InputEventView::Tap(key),
{
    InputEvent::Tap(key)
}

/// The event that presses `key` and lets it go while `flag` is held down.
pub fn tap_combo(flag: Modifier, key: Key) -> (event: InputEvent)
    ensures
        event@ == InputEventView::Combo(flag, key),
{
    InputEvent::Combo(flag, key)
}

/// The event that types `s`.
pub fn type_string(s: &str) -> (event: InputEvent)
    ensures
        event@ == InputEventView::Text(s@),
{
    InputEvent::Text(s.to_owned())
}

} // verus!
