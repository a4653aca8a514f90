//! The life of a lease: live until its value is either stolen or given back.

use crate::slot::return_value;
use crate::sync::{contents, try_lock, upgrade, Origin};
use vstd::prelude::*;

verus! {

/// The state of a [`Lease`](crate::Lease).
#[verifier::reject_recursive_types(T)]
pub struct State<T>(Inner<T>);

#[verifier::reject_recursive_types(T)]
enum Inner<T> {
    Dropped,
    Stolen,
    Live { value: T, slot: Origin<T> },
}

impl<T> State<T> {
    /// The lease still owns its value.
    pub closed spec fn spec_is_live(&self) -> bool {
        self.0 is Live
    }

    /// The lease still owns its value.
    #[verifier::when_used_as_spec(spec_is_live)]
    pub fn is_live(&self) -> (live: bool)
        ensures
            live == self.is_live(),
    {
        match &self.0 {
            Inner::Live { .. } => true,
            _ => false,
        }
    }

    /// The value was stolen: it will never return to its slot.
    pub closed spec fn is_stolen(&self) -> bool {
        self.0 is Stolen
    }

    /// The lease is over.
    pub closed spec fn is_dropped(&self) -> bool {
        self.0 is Dropped
    }

    /// The value that a live lease owns.
    pub closed spec fn value(&self) -> T
        recommends
            self.is_live(),
    {
        self.0->value
    }

    /// The slot that a live lease gives its value back to.
    pub closed spec fn origin(&self) -> Origin<T>
        recommends
            self.is_live(),
    {
        self.0->slot
    }

    pub(crate) fn new(value: T, slot: Origin<T>) -> (state: Self)
        ensures
            state.is_live(),
            state.value() == value,
            state.origin() == slot,
    {
        State(Inner::Live { value, slot })
    }

    pub(crate) fn as_ref(&self) -> (value: &T)
        requires
            self.is_live(),
        ensures
            *value == self.value(),
    {
        match &self.0 {
            Inner::Live { value, .. } => value,
            _ => vstd::pervasive::unreached(),
        }
    }

    pub(crate) fn as_mut(&mut self) -> (value: &mut T)
        requires
            old(self).is_live(),
        ensures
            *value == old(self).value(),
            final(self).is_live(),
            final(self).value() == *final(value),
            final(self).origin() == old(self).origin(),
    {
        match &mut self.0 {
            Inner::Live { value, .. } => value,
            _ => vstd::pervasive::unreached(),
        }
    }

    /// Ends the lease. A live lease tries to give its value back: the value
    /// goes into the cell of its slot if the slot is still there, its cell
    /// can be locked and holds nothing. A value that meets an occupied cell
    /// is handed to the caller; in every other case the result is `None`.
    pub(crate) fn drop(&mut self) -> (rejected: Option<T>)
        ensures
            final(self).is_dropped(),
            rejected matches Some(value) ==> old(self).is_live() && value == old(self).value(),
        opens_invariants none
        no_unwind
    {
        let mut state = Inner::Dropped;
        std::mem::swap(&mut self.0, &mut state);
        match state {
            Inner::Dropped => None,
            Inner::Stolen => None,
            Inner::Live { value, slot } => {
                match upgrade(&slot) {
                    Some(cell) => match try_lock(&cell) {
                        Some(mut locked) => return_value(contents(&mut locked), value),
                        None => None,
                    },
                    None => None,
                }
            },
        }
    }

    /// Takes the value for good.
    pub(crate) fn steal(&mut self) -> (value: T)
        requires
            old(self).is_live(),
        ensures
            value == old(self).value(),
            final(self).is_stolen(),
    {
        let mut state = Inner::Stolen;
        std::mem::swap(&mut self.0, &mut state);
        match state {
            Inner::Live { value, .. } => value,
            _ => vstd::pervasive::unreached(),
        }
    }
}

} // verus!
