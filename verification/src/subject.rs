//! The subject half of the observer capability: a unit that holds
//! emitted values for another to pick up.

use vstd::prelude::*;

verus! {

/// A source of emitted values: one can look at the pending value, or
/// take it out.
pub trait Subject<T> {
    /// Looks at the pending value without consuming it.
    fn observe(&self) -> Option<T>;

    /// Takes the pending value out.
    fn consume(&mut self) -> Option<T>;
}

} // verus!
