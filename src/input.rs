//! Keyboard, mouse and cursor state, folded from window events.
//!
//! Keys and mouse buttons are identified by integer codes; the window layer
//! maps the windowing library's key and button values onto them.

use vstd::prelude::*;
use std::collections::HashSet;
use crate::geometry::Point;

verus! {

broadcast use vstd::std_specs::hash::group_hash_axioms;

/// Possible errors that can occur from input related actions.
#[derive(Clone, Debug, PartialEq, Eq)]
pub enum InputError {
    /// An internal error occurred; the message says which.
    InternalError(String),
}

impl InputError {
    /// The message that describes this error.
    pub fn message(&self) -> (s: String)
        ensures
            match self {
                InputError::InternalError(m) => s@ == m@,
            },
    {
        match self {
            InputError::InternalError(m) => m.clone(),
        }
    }
}

/// A window event that the input state takes notice of.
#[derive(Clone, Copy, Debug, PartialEq, Eq, Structural)]
pub enum Event {
    /// The user asked to close the window.
    CloseRequested,
    /// A key went down (`pressed`) or up.
    Key { code: u32, pressed: bool },
    /// A mouse button went down (`pressed`) or up.
    Button { code: u32, pressed: bool },
    /// The cursor moved to this position.
    CursorMoved(Point),
}

/// The observable content of an [`Input`].
pub struct InputModel {
    pub keys: Set<u32>,
    pub buttons: Set<u32>,
    pub cursor: Point,
}

impl InputModel {
    /// The model after `event`.
    pub open spec fn after(self, event: Event) -> InputModel {
        match event {
            Event::CloseRequested => self,
            Event::Key { code, pressed } => InputModel {
                keys: if pressed {
                    self.keys.insert(code)
                } else {
                    self.keys.remove(code)
                },
                ..self
            },
            Event::Button { code, pressed } => InputModel {
                buttons: if pressed {
                    self.buttons.insert(code)
                } else {
                    self.buttons.remove(code)
                },
                ..self
            },
            Event::CursorMoved(p) => InputModel { cursor: p, ..self },
        }
    }
}

/// Contains all input related state: the keys and buttons held down and the
/// last known cursor position.
pub struct Input {
    keys: HashSet<u32>,
    buttons: HashSet<u32>,
    cursor: Point,
}

impl View for Input {
    type V = InputModel;

    closed spec fn view(&self) -> InputModel {
        InputModel { keys: self.keys@, buttons: self.buttons@, cursor: self.cursor }
    }
}

impl Input {
    /// Nothing held down, the cursor at the origin.
    pub fn new() -> (i: Input)
        ensures
            i@.keys == Set::<u32>::empty(),
            i@.buttons == Set::<u32>::empty(),
            i@.cursor == (Point { x: 0, y: 0 }),
    {
        Input { keys: HashSet::new(), buttons: HashSet::new(), cursor: Point { x: 0, y: 0 } }
    }

    /// Whether the key is pressed.
    pub fn get_key_state(&self, key: u32) -> (r: bool)
        ensures
            r == self@.keys.contains(key),
    {
        self.keys.contains(&key)
    }

    /// Whether the mouse button is pressed.
    pub fn get_button_state(&self, button: u32) -> (r: bool)
        ensures
            r == self@.buttons.contains(button),
    {
        self.buttons.contains(&button)
    }

    /// The current position of the cursor.
    pub fn get_cursor_point(&self) -> (p: Point)
        ensures
            p == self@.cursor,
    {
        self.cursor
    }

    /// Records the cursor position, once the window has moved the cursor there.
    pub fn set_cursor_point(&mut self, point: Point)
        ensures
            final(self)@ == (InputModel { cursor: point, ..old(self)@ }),
    {
        self.cursor = point;
    }

    /// Folds one event into the state. Returns false when the event asks for
    /// the window to close, true otherwise.
    pub fn handle_event(&mut self, event: Event) -> (open: bool)
        ensures
            final(self)@ == old(self)@.after(event),
            open == !(event is CloseRequested),
    {
        match event {
            Event::CloseRequested => false,
            Event::Key { code, pressed } => {
                if pressed {
                    self.keys.insert(code);
                } else {
                    self.keys.remove(&code);
                }
                true
            },
            Event::Button { code, pressed } => {
                if pressed {
                    self.buttons.insert(code);
                } else {
                    self.buttons.remove(&code);
                }
                true
            },
            Event::CursorMoved(p) => {
                self.cursor = p;
                true
            },
        }
    }
}

} // verus!
