//! Input events as plain values: what the terminal input collaborator
//! decodes is modelled here so every component can react to it.

use vstd::prelude::*;

verus! {

/// A key, as decoded by the terminal input collaborator.
#[derive(Clone, Copy, Debug, PartialEq, Eq)]
pub enum KeyCode {
    /// A printable character
    Char(char),
    Enter,
    Backspace,
    Tab,
    BackTab,
    Up,
    Down,
    Esc,
    CapsLock,
    /// Any key the components do not react to
    Other,
}

/// One key event: the key, whether control was held, and whether this is a
/// press (as opposed to a release or a repeat).
#[derive(Clone, Copy, Debug, PartialEq, Eq)]
pub struct KeyEvent {
    pub code: KeyCode,
    pub ctrl: bool,
    pub is_press: bool,
}

/// One event from the terminal: a key event, or anything else (a resize, a
/// mouse move, a focus change), which the components ignore.
#[derive(Clone, Copy, Debug, PartialEq, Eq)]
pub enum Event {
    Key(KeyEvent),
    Other,
}

/// The key press carried by an event, if it is one.
pub open spec fn spec_key_press(event: Event) -> Option<KeyEvent> {
    match event {
        Event::Key(k) => if k.is_press {
            Some(k)
        } else {
            Option::None
        },
        Event::Other => Option::None,
    }
}

impl Event {
    /// The key press carried by this event, if it is one.
    pub fn as_key_press_event(&self) -> (r: Option<KeyEvent>)
        ensures
            r == spec_key_press(*self),
    {
        match self {
            Event::Key(k) => if k.is_press {
                Some(*k)
            } else {
                None
            },
            Event::Other => None,
        }
    }

    /// Builds the event for one pressed key without modifiers.
    pub fn key_press(code: KeyCode) -> (r: Event)
        ensures
            spec_key_press(r) == Some(KeyEvent { code, ctrl: false, is_press: true }),
    {
        Event::Key(KeyEvent { code, ctrl: false, is_press: true })
    }

    /// Builds the event for one pressed key with control held.
    pub fn ctrl_key_press(code: KeyCode) -> (r: Event)
        ensures
            spec_key_press(r) == Some(KeyEvent { code, ctrl: true, is_press: true }),
    {
        Event::Key(KeyEvent { code, ctrl: true, is_press: true })
    }
}

} // verus!
