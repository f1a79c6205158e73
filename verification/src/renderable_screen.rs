//! The screen capability: like a widget, but it owns the whole frame and
//! may compose several widgets and one nested overlay screen.
//!
//! As with widgets, drawing stays outside the library; a screen exposes
//! its state through read-only accessors, and this trait contracts the
//! input side.

use vstd::prelude::*;

use crate::keys::KeyEvent;

verus! {

/// A unit that consumes key input for the whole frame.
pub trait RenderableScreen {
    /// The screen's internal well-formedness.
    spec fn inv(&self) -> bool;

    /// Whether the screen may be handed the next key.
    spec fn ready(&self) -> bool;

    /// Reacts to one key event, mutating internal state only.
    fn handle_input(&mut self, key: KeyEvent)
        requires
            old(self).inv(),
            old(self).ready(),
        ensures
            final(self).inv(),
    ;
}

} // verus!
