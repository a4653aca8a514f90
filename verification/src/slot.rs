//! Transferring ownership of a value.
//!
//! The [`Slot`] and [`Lease`] types share access to a value. The slot is the
//! primary owner of the value, and access can be leased to one other owner
//! through an associated lease.
//!
//! The value lives in a cell that the slot shares with its leases. A cell
//! holds the value or nothing, and whoever gets at it locks it for a moment
//! and does one of two things to what is found there: take the value out
//! ([`lease_step`], by [`take_value`]) or put a value in ([`return_step`],
//! by [`return_value`]). What a cell holds when it is locked depends on
//! everybody who has been there before, so the two steps are what this module
//! states its laws of.
//!
//! While this is safe to use across threads, leasing and dropping leases of
//! one slot at the same time is not supported: a lease that finds the cell
//! locked drops its value. It is meant for consumers that take turns.

use crate::lease::State;
use crate::sync::{contents, downgrade, new_cell, share, try_lock};
use std::sync::Arc;
use vstd::prelude::*;

verus! {

/// What becomes of a cell when its value is asked for: the value that is
/// handed out, and what the cell holds afterwards.
pub open spec fn lease_step<T>(cell: Option<T>) -> (Option<T>, Option<T>) {
    (cell, None)
}

/// What becomes of a cell when `value` comes back to it: what the cell holds
/// afterwards, and the value that was turned away because the cell was
/// occupied.
pub open spec fn return_step<T>(cell: Option<T>, value: T) -> (Option<T>, Option<T>) {
    match cell {
        None => (Some(value), None),
        Some(_) => (cell, Some(value)),
    }
}

/// What a cell holds after `n` leases in a row, with nothing given back in
/// between.
pub open spec fn after_leases<T>(cell: Option<T>, n: nat) -> Option<T>
    decreases n,
{
    if n == 0 {
        cell
    } else {
        lease_step(after_leases(cell, (n - 1) as nat)).1
    }
}

/// At most one lease. Of any number of leases in a row the first gets what
/// the cell holds, and each one after it gets nothing, until a value is given
/// back: the lease after that gets that value.
pub proof fn lemma_at_most_one_lease<T>(cell: Option<T>, n: nat)
    requires
        n >= 1,
    ensures
        lease_step(after_leases(cell, 0)).0 == cell,
        lease_step(after_leases(cell, n)).0 is None,
        forall|value: T|
            lease_step(#[trigger] return_step(after_leases(cell, n), value).0).0 == Some(value),
    decreases n,
{
    if n > 1 {
        lemma_at_most_one_lease(cell, (n - 1) as nat);
    }
}

/// Round trip. A value that is leased from its slot and given back is in the
/// slot again: nothing is turned away, and the next to ask gets the value.
pub proof fn lemma_round_trip<T>(value: T)
    ensures
        lease_step(Some(value)).0 == Some(value),
        return_step(lease_step(Some(value)).1, value).1 is None,
        lease_step(return_step(lease_step(Some(value)).1, value).0).0 == Some(value),
{
}

/// Theft is permanent. A value that is leased and never given back leaves
/// its slot empty: of any number of leases after it, each gets nothing.
pub proof fn lemma_theft_is_permanent<T>(value: T, n: nat)
    ensures
        lease_step(Some(value)).0 == Some(value),
        lease_step(after_leases(lease_step(Some(value)).1, n)).0 is None,
    decreases n,
{
    if n > 0 {
        lemma_theft_is_permanent(value, (n - 1) as nat);
    }
}

/// Takes the value out of a cell, leaving it empty.
pub fn take_value<T>(cell: &mut Option<T>) -> (leased: Option<T>)
    ensures
        leased == lease_step(*old(cell)).0,
        *final(cell) == lease_step(*old(cell)).1,
{
    cell.take()
}

/// Puts `value` into an empty cell. An occupied cell is left as it is, and
/// `value` is handed back.
pub fn return_value<T>(cell: &mut Option<T>, value: T) -> (rejected: Option<T>)
    ensures
        *final(cell) == return_step(*old(cell), value).0,
        rejected == return_step(*old(cell), value).1,
    opens_invariants none
    no_unwind
{
    match cell {
        Some(_) => Some(value),
        None => {
            *cell = Some(value);
            None
        },
    }
}

/// A slot that may contain a value that can be leased.
///
/// The slot itself is opaque, the only way to see the value (if any) is with
/// `lease` or `into_inner`.
#[verifier::reject_recursive_types(T)]
pub struct Slot<T>(Arc<parking_lot::Mutex<Option<T>>>);

impl<T> Slot<T> {
    /// Construct a new `Slot` holding the given value.
    pub fn new(value: T) -> Self {
        Slot(Arc::new(new_cell(Some(value))))
    }

    /// Construct a new `Slot` and an immediately acquired `Lease`.
    ///
    /// The slot starts out empty, and the lease holds `value`.
    pub fn new_leased(value: T) -> (pair: (Self, Lease<T>))
        ensures
            pair.1.is_live(),
            pair.1@ == value,
    {
        let cell = Arc::new(new_cell(None));
        let lease = Lease::new(value, downgrade(&cell));
        (Slot(cell), lease)
    }

    /// Lease the value from the slot, leaving it empty.
    ///
    /// Ownership of the contained value moves to the `Lease` for the
    /// duration. The value may return to the slot when the `Lease` is
    /// dropped, or the value may be "stolen", leaving the slot permanently
    /// empty. An empty slot has nothing to lease, and neither has one whose
    /// cell is locked at this moment: the result is `None`. This never
    /// waits.
    pub fn lease(&mut self) -> (lease: Option<Lease<T>>)
        ensures
            lease matches Some(lease) ==> lease.is_live(),
    {
        match try_lock(&self.0) {
            Some(mut locked) => match take_value(contents(&mut locked)) {
                Some(value) => Some(Lease::new(value, downgrade(&self.0))),
                None => None,
            },
            None => None,
        }
    }

    /// One more handle on the same slot: what is leased through one is
    /// missing through the other.
    pub(crate) fn share(&self) -> (shared: Self)
        ensures
            shared == *self,
    {
        Slot(share(&self.0))
    }

    /// Get the inner value from the slot, if any.
    ///
    /// Note that if this returns `Some`, there are no outstanding leases. If
    /// it returns `None` then the value has been leased, and since this
    /// consumes the slot the value will be dropped once the lease is done.
    pub fn into_inner(self) -> Option<T> {
        match try_lock(&self.0) {
            Some(mut locked) => take_value(contents(&mut locked)),
            None => None,
        }
    }
}

/// A lease of a value from a `Slot`.
#[verifier::reject_recursive_types(T)]
pub struct Lease<T>(State<T>);

impl<T> View for Lease<T> {
    type V = T;

    closed spec fn view(&self) -> T {
        self.0.value()
    }
}

impl<T> Lease<T> {
    /// The lease owns its value. Every lease that a slot gives out does.
    pub closed spec fn spec_is_live(&self) -> bool {
        self.0.is_live()
    }

    /// The lease owns its value. Every lease that a slot gives out does.
    #[verifier::when_used_as_spec(spec_is_live)]
    pub fn is_live(&self) -> (live: bool)
        ensures
            live == self.is_live(),
    {
        self.0.is_live()
    }

    fn new(value: T, slot: crate::sync::Origin<T>) -> (lease: Self)
        ensures
            lease.is_live(),
            lease@ == value,
    {
        Lease(State::new(value, slot))
    }

    /// Steal the value, meaning it will never return to the slot.
    pub fn steal(self) -> (value: T)
        requires
            self.is_live(),
        ensures
            value == self@,
    {
        let mut lease = self;
        lease.0.steal()
    }

    /// Ends the lease now, rather than when it is dropped, and tells how it
    /// went.
    ///
    /// The value goes back into the slot if the slot is still there and
    /// holds nothing. Without a slot the value is dropped. A slot that holds
    /// a value already keeps it, and the value of this lease is handed to
    /// the caller: the result is `Some` in this case only, which no use of
    /// this library leads to, and a caller may well treat as fatal.
    pub fn release(self) -> (rejected: Option<T>)
        ensures
            rejected matches Some(value) ==> self.is_live() && value == self@,
    {
        let mut lease = self;
        lease.0.drop()
    }

    /// The value.
    pub fn as_ref(&self) -> (value: &T)
        requires
            self.is_live(),
        ensures
            *value == self@,
    {
        self.0.as_ref()
    }

    /// The value, to work on. What it is when the lease is dropped is what
    /// goes back to the slot.
    pub fn as_mut(&mut self) -> (value: &mut T)
        requires
            old(self).is_live(),
        ensures
            *value == old(self)@,
            final(self).is_live(),
            final(self)@ == *final(value),
    {
        self.0.as_mut()
    }
}

impl<T> Drop for Lease<T> {
    /// Gives the value back to the slot, as [`release`](Lease::release)
    /// does, unless it was stolen. A value that cannot go back is dropped.
    fn drop(&mut self)
        opens_invariants none
        no_unwind
    {
        let _ = self.0.drop();
    }
}

} // verus!
