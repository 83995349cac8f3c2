use std::sync::Arc;

use crossbeam::queue::ArrayQueue;
use vstd::prelude::*;

use crate::types::Update;

verus! {

#[verifier::external_type_specification]
#[verifier::external_body]
#[verifier::reject_recursive_types(T)]
pub struct ExArrayQueue<T>(ArrayQueue<T>);

/// The capacity that a queue was made with.
pub uninterp spec fn slot_capacity(q: ArrayQueue<Update>) -> nat;

/// Relies on `ArrayQueue::new`: an empty queue of capacity `cap`. It panics on
/// a capacity of zero.
#[verifier::external_body]
fn new_slot(cap: usize) -> (r: ArrayQueue<Update>)
    requires
        cap > 0,
    ensures
        slot_capacity(r) == cap as nat,
{
    ArrayQueue::new(cap)
}

/// Relies on `ArrayQueue::force_push`: it never blocks and never fails; when
/// the queue is full the oldest element is replaced and handed back.
pub assume_specification<T>[ ArrayQueue::<T>::force_push ](q: &ArrayQueue<T>, value: T) -> Option<T>;

/// Relies on `ArrayQueue::pop`: it never blocks. What it returns depends on
/// the other thread that shares the queue, so nothing is stated of it.
pub assume_specification<T>[ ArrayQueue::<T>::pop ](q: &ArrayQueue<T>) -> Option<T>;

/// Relies on `Arc::clone`: a second pointer to the same queue, so that what
/// one end pushes the other end pops.
#[verifier::external_body]
fn share_slot(a: &Arc<ArrayQueue<Update>>) -> (r: Arc<ArrayQueue<Update>>)
    ensures
        r == *a,
{
    Arc::clone(a)
}

/// A single-slot, overwrite-on-write, consume-on-read cell shared by exactly
/// one writer (the worker) and one reader (the owning text file).
pub struct Mailbox {
    slot: Arc<ArrayQueue<Update>>,
}

impl Mailbox {
    /// How many updates the mailbox can hold at once.
    pub closed spec fn capacity(&self) -> nat {
        slot_capacity(*self.slot)
    }

    /// An empty mailbox with room for one pending update.
    pub fn new() -> (r: Mailbox)
        ensures
            r.capacity() == 1,
    {
        Mailbox { slot: Arc::new(new_slot(1)) }
    }

    /// A second end of the same mailbox.
    pub fn share(&self) -> (r: Mailbox)
        ensures
            r == *self,
    {
        Mailbox { slot: share_slot(&self.slot) }
    }

    /// Leaves `u` in the mailbox; an update still pending there is dropped.
    pub fn push(&self, u: Update) {
        let _displaced = self.slot.force_push(u);
    }

    /// Takes the pending update out of the mailbox, if there is one.
    pub fn pop(&self) -> (r: Option<Update>) {
        self.slot.pop()
    }
}

} // verus!
