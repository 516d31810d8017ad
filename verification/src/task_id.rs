//! Task identifiers: a monotonically increasing unsigned 32-bit counter.
//! Each in-flight async task gets a fresh id; ids are unique for the life of
//! the counter (wraparound is out of scope, so the counter must stay below
//! `u32::MAX`).

use vstd::prelude::*;

verus! {

/// The source of task ids. The embedder keeps one counter per process and
/// threads it through every id request.
pub struct TaskIdCounter {
    next: u32,
}

impl TaskIdCounter {
    /// The id the counter will hand out next.
    pub closed spec fn next_id(self) -> u32 {
        self.next
    }

    /// A fresh counter starts at zero, so the first task gets id 0.
    pub fn new() -> (c: TaskIdCounter)
        ensures
            c.next_id() == 0,
    {
        TaskIdCounter { next: 0 }
    }

    /// The id the counter will hand out next, read without stepping it.
    pub fn current(&self) -> (id: u32)
        ensures
            id == self.next_id(),
    {
        self.next
    }
}

/// Generate a unique task id: return the counter's current value and step it.
/// Two calls on the same counter never return the same id.
pub fn generate_task_id(counter: &mut TaskIdCounter) -> (id: u32)
    requires
        old(counter).next_id() < u32::MAX,
    ensures
        id == old(counter).next_id(),
        final(counter).next_id() == old(counter).next_id() + 1,
{
    let id = counter.next;
    counter.next = counter.next + 1;
    id
}

/// Ids handed out by one counter are unique: a later call returns a strictly
/// larger id than an earlier one, since every call steps the counter up and
/// returns its pre-step value.
pub proof fn lemma_task_ids_strictly_increase(id1: u32, c1: TaskIdCounter, id2: u32)
    requires
        // the first call returned `id1` and left the counter at `c1`
        id1 < c1.next_id(),
        // any later call returns the counter's current value, which only grows
        id2 >= c1.next_id(),
    ensures
        id1 != id2,
{
}

} // verus!
