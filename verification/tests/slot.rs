use std::cell::Cell;
use std::rc::Rc;

use axum_sqlx_tx::slot::{return_value, take_value};
use axum_sqlx_tx::Slot;

/// Counts how often it is dropped.
struct Counted {
    name: &'static str,
    drops: Rc<Cell<u32>>,
}

impl Drop for Counted {
    fn drop(&mut self) {
        self.drops.set(self.drops.get() + 1);
    }
}

fn counted(name: &'static str) -> (Counted, Rc<Cell<u32>>) {
    let drops = Rc::new(Cell::new(0));
    (
        Counted {
            name,
            drops: drops.clone(),
        },
        drops,
    )
}

#[test]
fn lease_and_return() {
    // Create a slot containing a resource.
    let mut slot = Slot::new("Hello".to_string());

    // Lease the resource, taking it from the slot.
    let lease = slot.lease().unwrap();

    {
        let mut lease = lease;

        // We have exclusive access to the resource through the lease
        lease.as_mut().push_str(", world!");

        // By default the value is returned to the slot on drop
    }

    // The value is now back in the slot
    assert_eq!(
        slot.lease().as_ref().map(|lease| lease.as_ref().as_str()),
        Some("Hello, world!")
    );

    // We can also take ownership of the value in the slot (if any)
    assert_eq!(slot.into_inner(), Some("Hello, world!".to_string()));
}

#[test]
fn lease_and_steal() {
    let mut slot = Slot::new("Hello".to_string());

    let lease = slot.lease().unwrap();
    {
        // We can steal ownership of the resource, leaving the slot permanently empty
        let _: String = lease.steal();
    }

    // The slot is now permanently empty
    assert!(slot.lease().is_none());
}

#[test]
fn only_the_first_of_many_leases_succeeds() {
    let mut slot = Slot::new(5u8);

    let first = slot.lease();
    assert!(first.is_some());
    for _ in 0..10 {
        assert!(slot.lease().is_none());
    }

    // once the value is back the next lease succeeds, and only that one
    drop(first);
    let second = slot.lease().unwrap();
    assert_eq!(*second.as_ref(), 5);
    assert!(slot.lease().is_none());
    assert!(slot.lease().is_none());
}

#[test]
fn a_dropped_lease_gives_the_value_back() {
    let mut slot = Slot::new(vec![1, 2, 3]);
    drop(slot.lease().unwrap());
    assert_eq!(slot.into_inner(), Some(vec![1, 2, 3]));
}

#[test]
fn a_released_lease_gives_the_value_back() {
    let mut slot = Slot::new(vec![1, 2, 3]);
    let mut lease = slot.lease().unwrap();
    lease.as_mut().push(4);
    assert_eq!(lease.release(), None);
    assert_eq!(slot.into_inner(), Some(vec![1, 2, 3, 4]));
}

#[test]
fn a_stolen_value_never_returns() {
    let mut slot = Slot::new("mine".to_string());
    let stolen = slot.lease().unwrap().steal();
    assert_eq!(stolen, "mine");
    for _ in 0..10 {
        assert!(slot.lease().is_none());
    }
    assert_eq!(slot.into_inner(), None);
}

#[test]
fn a_stolen_value_is_not_dropped_with_its_lease() {
    let (value, drops) = counted("stolen");
    let mut slot = Slot::new(value);
    let stolen = slot.lease().unwrap().steal();
    assert_eq!(drops.get(), 0);
    assert_eq!(stolen.name, "stolen");
    drop(slot);
    assert_eq!(drops.get(), 0);
    drop(stolen);
    assert_eq!(drops.get(), 1);
}

#[test]
fn into_inner_of_a_leased_slot_is_empty() {
    let (value, drops) = counted("leased");
    let mut slot = Slot::new(value);
    let lease = slot.lease().unwrap();

    assert!(slot.into_inner().is_none());
    assert_eq!(drops.get(), 0);

    // the slot is gone, so the value goes with the lease
    assert_eq!(lease.as_ref().name, "leased");
    drop(lease);
    assert_eq!(drops.get(), 1);
}

#[test]
fn releasing_without_a_slot_drops_the_value() {
    let (value, drops) = counted("orphan");
    let mut slot = Slot::new(value);
    let lease = slot.lease().unwrap();
    drop(slot);

    assert!(lease.release().is_none());
    assert_eq!(drops.get(), 1);
}

#[test]
fn a_value_in_a_slot_is_dropped_with_the_slot() {
    let (value, drops) = counted("kept");
    let mut slot = Slot::new(value);
    drop(slot.lease());
    assert_eq!(drops.get(), 0);
    drop(slot);
    assert_eq!(drops.get(), 1);
}

#[test]
fn new_leased_starts_out_leased() {
    let (mut slot, lease) = Slot::new_leased(17u64);
    assert_eq!(*lease.as_ref(), 17);
    assert!(slot.lease().is_none());

    drop(lease);
    assert_eq!(slot.lease().map(|lease| lease.steal()), Some(17));
    assert!(slot.lease().is_none());
}

#[test]
fn as_mut_changes_what_goes_back() {
    let mut slot = Slot::new(1u32);
    {
        let mut lease = slot.lease().unwrap();
        *lease.as_mut() += 41;
        assert_eq!(*lease.as_ref(), 42);
    }
    assert_eq!(slot.into_inner(), Some(42));
}

#[test]
fn leases_and_slots_can_be_sent() {
    fn assert_send<T: Send>(_: &T) {}

    let mut slot = Slot::new(String::from("sendable"));
    let lease = slot.lease().unwrap();
    assert_send(&lease);
    assert_send(&slot);
}

#[test]
fn cell_steps() {
    let mut cell = Some(7u32);
    assert_eq!(take_value(&mut cell), Some(7));
    assert_eq!(cell, None);
    assert_eq!(take_value(&mut cell), None);
    assert_eq!(cell, None);

    assert_eq!(return_value(&mut cell, 8), None);
    assert_eq!(cell, Some(8));

    // an occupied cell keeps what it holds and turns the newcomer away
    assert_eq!(return_value(&mut cell, 9), Some(9));
    assert_eq!(cell, Some(8));
}
