//! The input events the programs react to, as plain values.
//!
//! The terminal delivers keyboard input as key events that carry a key
//! identity and a kind (press, release or repeat). Only presses are acted on;
//! releases and repeats, which some platforms emit as well, are filtered out
//! by the event handlers. Anything that is not a key event (a resize, focus
//! change, and so on) is carried as `InputEvent::Other`.

use vstd::prelude::*;

verus! {

/// The identity of a pressed key. Only the arrow keys and character keys are
/// distinguished; every other key is `Other`.
#[derive(Clone, Copy, PartialEq, Eq, Structural, Debug)]
pub enum KeyCode {
    /// A character key, such as `q`.
    Char(char),
    /// The left arrow key.
    Left,
    /// The right arrow key.
    Right,
    /// The up arrow key.
    Up,
    /// The down arrow key.
    Down,
    /// Any other key.
    Other,
}

/// Whether a key event reports a press, a release, or an auto-repeat.
#[derive(Clone, Copy, PartialEq, Eq, Structural, Debug)]
pub enum KeyEventKind {
    /// The key went down.
    Press,
    /// The key came back up.
    Release,
    /// The key is being held down.
    Repeat,
}

/// One keyboard event: a key identity together with its kind.
#[derive(Clone, Copy, PartialEq, Eq, Structural, Debug)]
pub struct KeyEvent {
    /// Which key the event is about.
    pub code: KeyCode,
    /// Whether the key was pressed, released, or repeated.
    pub kind: KeyEventKind,
}

/// One input event read from the terminal.
#[derive(Clone, Copy, PartialEq, Eq, Structural, Debug)]
pub enum InputEvent {
    /// A keyboard event.
    Key(KeyEvent),
    /// Any non-keyboard event.
    Other,
}

impl KeyEvent {
    /// Builds a key-press event for `code`.
    pub fn press(code: KeyCode) -> (e: KeyEvent)
        ensures
            e.code == code,
            e.kind == KeyEventKind::Press,
    {
        KeyEvent { code, kind: KeyEventKind::Press }
    }
}

} // verus!
