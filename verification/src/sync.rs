//! The shared cell behind a [`Slot`](crate::Slot): a `parking_lot` mutex,
//! reached through a strong handle by the slot and through a weak one by its
//! leases.
//!
//! Nothing in this module is proved. What the cell holds at the moment it is
//! locked depends on every other holder of a handle, so no contract here
//! speaks of it: callers are verified for whatever they find.

use std::sync::Arc;
use vstd::prelude::*;

verus! {

/// `lock_api::Mutex`, which `parking_lot::Mutex` is an alias of. Opaque.
#[verifier::external_type_specification]
#[verifier::external_body]
#[verifier::reject_recursive_types(R)]
#[verifier::reject_recursive_types(T)]
pub struct ExMutex<R, T: ?Sized>(parking_lot::lock_api::Mutex<R, T>);

/// `parking_lot::RawMutex`, the lock inside a `parking_lot::Mutex`. Opaque.
#[verifier::external_type_specification]
#[verifier::external_body]
pub struct ExRawMutex(parking_lot::RawMutex);

/// A held lock: `parking_lot::MutexGuard`. The mutex is unlocked when this
/// is dropped.
///
/// The guard is bounded by `lock_api::RawMutex`, a trait that cannot be
/// declared here, so it is kept behind this struct.
#[verifier::external_body]
#[verifier::reject_recursive_types(T)]
pub struct Locked<'a, T> {
    guard: parking_lot::MutexGuard<'a, T>,
}

/// Where a leased value came from: a `std::sync::Weak` handle on the cell of
/// the slot, which does not keep the cell alive.
#[verifier::external_body]
#[verifier::reject_recursive_types(T)]
pub struct Origin<T> {
    cell: std::sync::Weak<parking_lot::Mutex<Option<T>>>,
}

/// `parking_lot::Mutex::new`: a new, unlocked mutex around `value`.
#[verifier::external_body]
pub(crate) fn new_cell<T>(value: T) -> parking_lot::Mutex<T> {
    parking_lot::Mutex::new(value)
}

/// `parking_lot::Mutex::try_lock`: the lock, if nobody holds it right now.
/// It never blocks, and it does not unwind.
#[verifier::external_body]
pub(crate) fn try_lock<'a, T>(cell: &'a parking_lot::Mutex<T>) -> Option<Locked<'a, T>>
    opens_invariants none
    no_unwind
{
    cell.try_lock().map(|guard| Locked { guard })
}

/// `DerefMut::deref_mut` of `parking_lot::MutexGuard`: what the mutex
/// guards, for as long as the lock is borrowed. It does not unwind.
#[verifier::external_body]
pub(crate) fn contents<'a, 'b, T>(locked: &'a mut Locked<'b, T>) -> &'a mut T
    opens_invariants none
    no_unwind
{
    &mut *locked.guard
}

/// `Arc::clone`: one more strong handle on the same mutex.
#[verifier::external_body]
pub(crate) fn share<T>(cell: &Arc<parking_lot::Mutex<T>>) -> (shared: Arc<parking_lot::Mutex<T>>)
    ensures
        shared == *cell,
{
    Arc::clone(cell)
}

/// `Arc::downgrade`: a weak handle on the cell.
#[verifier::external_body]
pub(crate) fn downgrade<T>(cell: &Arc<parking_lot::Mutex<Option<T>>>) -> Origin<T> {
    Origin { cell: Arc::downgrade(cell) }
}

/// `Weak::upgrade`: the cell, unless every strong handle on it is gone. It
/// does not unwind: it would only with more strong handles on one cell than
/// can be counted, and there is one per slot and one per lease that ends.
#[verifier::external_body]
pub(crate) fn upgrade<T>(origin: &Origin<T>) -> Option<Arc<parking_lot::Mutex<Option<T>>>>
    opens_invariants none
    no_unwind
{
    origin.cell.upgrade()
}

} // verus!
