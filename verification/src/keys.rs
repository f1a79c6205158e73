//! The key-event model the console reacts to.
//!
//! Terminal input arrives from outside the library; callers translate
//! whatever their backend reports into these plain values before handing
//! them to a screen or widget.

use vstd::prelude::*;

verus! {

/// The key codes the console distinguishes.  Every key the core does not
/// care about maps to `Other`.
#[derive(Debug, Clone, Copy, PartialEq, Eq, Structural)]
pub enum KeyCode {
    /// A printable character.
    Char(char),
    /// The Enter key: submits the prompt line.
    Enter,
    /// The Escape key: opens or confirms the exit dialog.
    Esc,
    /// Arrow up: moves the list selection.
    Up,
    /// Arrow down: moves the list selection.
    Down,
    /// Arrow left: moves the prompt cursor.
    Left,
    /// Arrow right: moves the prompt cursor.
    Right,
    /// Deletes the character before the cursor.
    Backspace,
    /// Deletes the character under the cursor.
    Delete,
    /// Moves the prompt cursor to the start of the line.
    Home,
    /// Moves the prompt cursor to the end of the line.
    End,
    /// Any key the console ignores.
    Other,
}

/// Whether the event reports a key going down, up, or auto-repeating.
/// The core reacts to presses only, so terminals that report both a press
/// and a release do not trigger an action twice.
#[derive(Debug, Clone, Copy, PartialEq, Eq, Structural)]
pub enum KeyEventKind {
    /// The key was pressed.
    Press,
    /// The key was released.
    Release,
    /// The key is auto-repeating while held.
    Repeat,
}

/// One input event: a key code plus the kind of the event.
#[derive(Debug, Clone, Copy, PartialEq, Eq, Structural)]
pub struct KeyEvent {
    /// Which key the event is about.
    pub code: KeyCode,
    /// Press, release, or repeat.
    pub kind: KeyEventKind,
}

impl KeyEvent {
    /// A press event for the given key, the only kind the core acts on.
    pub fn press(code: KeyCode) -> (r: KeyEvent)
        ensures
            r == (KeyEvent { code, kind: KeyEventKind::Press }),
    {
        KeyEvent { code, kind: KeyEventKind::Press }
    }
}

} // verus!
