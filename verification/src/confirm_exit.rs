//! The exit-confirmation overlay: a two-key state machine.
//!
//! It is entered pending, and the very next key press resolves it:
//! `Esc` confirms the exit, any other key cancels it.  The owner reads
//! the resolution and discards it at once.

use vstd::prelude::*;

use crate::keys::{KeyCode, KeyEvent};
use crate::renderable_screen::RenderableScreen;

verus! {

/// The exit-confirmation overlay.  `None` means still pending;
/// `Some(true)` confirms the exit, `Some(false)` cancels it.
#[derive(Debug)]
pub struct ConfirmExitScreen {
    /// The resolution, once a key arrived.
    pub should_exit: Option<bool>,
}

impl ConfirmExitScreen {
    /// A pending confirmation.
    pub fn new() -> (r: ConfirmExitScreen)
        ensures
            r.should_exit is None,
    {
        ConfirmExitScreen { should_exit: None }
    }

    /// The warning line a renderer shows in the overlay box.
    pub fn warning_text(&self) -> (r: String)
        ensures
            r@ == "Press esc again to exit, any other key to go back"@,
    {
        "Press esc again to exit, any other key to go back".to_owned()
    }
}

impl RenderableScreen for ConfirmExitScreen {
    open spec fn inv(&self) -> bool {
        true
    }

    open spec fn ready(&self) -> bool {
        true
    }

    /// Any key resolves the confirmation: `Esc` confirms, everything
    /// else cancels.
    fn handle_input(&mut self, key: KeyEvent)
        ensures
            final(self).should_exit == Some(key.code == KeyCode::Esc),
    {
        match key.code {
            KeyCode::Esc => {
                self.should_exit = Some(true);
            },
            _ => {
                self.should_exit = Some(false);
            },
        }
    }
}

impl Default for ConfirmExitScreen {
    /// Same as [`ConfirmExitScreen::new`]: still pending.
    fn default() -> (r: ConfirmExitScreen)
        ensures
            r.should_exit is None,
    {
        ConfirmExitScreen::new()
    }
}

} // verus!
