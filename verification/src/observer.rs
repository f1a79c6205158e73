//! The observer half of the observer capability: a unit that follows a
//! subject and collects what it emits.

use vstd::prelude::*;

use crate::subject::Subject;

verus! {

/// A consumer of values a [`Subject`] emits.
pub trait Observer<'a, T, A> where T: Subject<A> {
    /// Starts following the given subject.
    fn watch(&'a mut self, subject: &'a mut T);

    /// Collects whatever the followed subject emitted since last time.
    fn update(&mut self) -> Vec<Option<A>>;
}

} // verus!
