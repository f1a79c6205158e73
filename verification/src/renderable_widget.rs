//! The widget capability: a unit that consumes key input and exposes its
//! state for a renderer to draw into a sub-region of the frame.
//!
//! Rendering itself stays outside the library: a widget offers read-only
//! accessors (`&self`, so a redraw can never mutate state), and the
//! input side is the contract here.

use vstd::prelude::*;

use crate::keys::KeyEvent;

verus! {

/// A unit that consumes key input.  `inv` is the widget's internal
/// well-formedness, preserved by every key; `ready` says when the owner
/// may hand it the next key (a prompt, for one, first wants its pending
/// command drained).
pub trait RenderableWidget {
    /// The widget's internal well-formedness.
    spec fn inv(&self) -> bool;

    /// Whether the widget may be handed the next key.
    spec fn ready(&self) -> bool;

    /// Reacts to one key event, mutating internal state only.
    fn handle_input(&mut self, key: KeyEvent)
        requires
            old(self).inv(),
            old(self).ready(),
        ensures
            final(self).inv(),
    ;
}

} // verus!
