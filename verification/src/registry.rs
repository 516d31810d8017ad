//! The async task registry: pairs each in-flight native future with the
//! engine-side promise resolver that will settle it.
//!
//! A registered task holds a resolver slot — the opaque integer under which
//! the embedder pins the engine's promise resolver as a persistent handle.
//! Registration binds a fresh task id to the slot; settlement removes the
//! binding and hands the slot back exactly once. The map lives behind
//! `dashmap`, the concurrent hash map the embedder shares with the engine's
//! host callbacks.

use vstd::prelude::*;
use std::collections::hash_map::RandomState;
use crate::task_id::{TaskIdCounter, generate_task_id};

verus! {

#[verifier::external_type_specification]
#[verifier::external_body]
#[verifier::reject_recursive_types(K)]
#[verifier::reject_recursive_types(V)]
#[verifier::reject_recursive_types(S)]
pub struct ExDashMap<K, V, S>(dashmap::DashMap<K, V, S>);

/// The bindings a task map holds, as a mathematical map from task id to
/// resolver slot.
pub uninterp spec fn task_map_contents(m: dashmap::DashMap<u32, u64, RandomState>) -> Map<u32, u64>;

/// The pending-task map: task id to resolver slot.
pub type TaskMap = dashmap::DashMap<u32, u64, RandomState>;

/// The map with no pending task.
pub open spec fn empty_task_map() -> Map<u32, u64> {
    Map::empty()
}

/// Relies on dashmap::DashMap::new: it creates an empty map.
#[verifier::external_body]
fn task_map_new() -> (m: TaskMap)
    ensures
        task_map_contents(m) == empty_task_map(),
{
    dashmap::DashMap::new()
}

/// Relies on dashmap::DashMap::insert: it binds the key to the value and
/// returns the value the key was bound to before, if any.
#[verifier::external_body]
fn task_map_insert(
    m: &mut dashmap::DashMap<u32, u64, RandomState>,
    key: u32,
    value: u64,
) -> (prev: Option<u64>)
    ensures
        task_map_contents(*final(m)) == task_map_contents(*old(m)).insert(key, value),
        prev == (if task_map_contents(*old(m)).contains_key(key) {
            Some(task_map_contents(*old(m))[key])
        } else {
            None::<u64>
        }),
{
    m.insert(key, value)
}

/// Relies on dashmap::DashMap::remove: it drops the key's binding and returns
/// the key and the value it was bound to, if the key was present.
#[verifier::external_body]
fn task_map_remove(m: &mut dashmap::DashMap<u32, u64, RandomState>, key: u32) -> (removed: Option<u64>)
    ensures
        task_map_contents(*final(m)) == task_map_contents(*old(m)).remove(key),
        removed == (if task_map_contents(*old(m)).contains_key(key) {
            Some(task_map_contents(*old(m))[key])
        } else {
            None::<u64>
        }),
{
    m.remove(&key).map(|entry| entry.1)
}

/// Relies on dashmap::DashMap::len: it returns the number of entries.
#[verifier::external_body]
fn task_map_len(m: &dashmap::DashMap<u32, u64, RandomState>) -> (n: usize)
    requires
        task_map_contents(*m).dom().finite(),
    ensures
        n == task_map_contents(*m).dom().len(),
{
    m.len()
}

/// The registry that makes a native future look to script like a promise.
/// It owns the pending-task map and the id counter; the embedder owns the
/// executor that runs the futures and the channel that delivers their
/// completions.
pub struct TokioAsyncTaskManager {
    tasks: dashmap::DashMap<u32, u64, RandomState>,
    ids: TaskIdCounter,
}

impl TokioAsyncTaskManager {
    /// The pending tasks: each registered, not yet settled task id, bound to
    /// its resolver slot.
    pub closed spec fn pending(self) -> Map<u32, u64> {
        task_map_contents(self.tasks)
    }

    /// The id the next registered task will receive.
    pub closed spec fn next_id(self) -> u32 {
        self.ids.next_id()
    }

    /// Every pending id was handed out earlier by the counter, and the set of
    /// pending tasks is finite.
    pub closed spec fn wf(self) -> bool {
        &&& self.pending().dom().finite()
        &&& forall|id: u32| self.pending().contains_key(id) ==> id < self.next_id()
    }

    /// A fresh registry holds no pending task and will number tasks from zero.
    pub fn new() -> (m: TokioAsyncTaskManager)
        ensures
            m.wf(),
            m.pending() == empty_task_map(),
            m.next_id() == 0,
    {
        TokioAsyncTaskManager { tasks: task_map_new(), ids: TaskIdCounter::new() }
    }

    /// Bind a fresh task id to the given resolver slot. The id was not
    /// pending before the call — the returned promise belongs to the new
    /// task alone — and is pending, bound to exactly this slot, after it.
    pub fn register_task(&mut self, resolver_slot: u64) -> (task_id: u32)
        requires
            old(self).wf(),
            old(self).next_id() < u32::MAX,
        ensures
            final(self).wf(),
            task_id == old(self).next_id(),
            !old(self).pending().contains_key(task_id),
            final(self).pending() == old(self).pending().insert(task_id, resolver_slot),
            final(self).next_id() == old(self).next_id() + 1,
    {
        let task_id = generate_task_id(&mut self.ids);
        task_map_insert(&mut self.tasks, task_id, resolver_slot);
        task_id
    }

    /// Settle the task: drop its binding and hand back its resolver slot.
    /// Returns `None`, and changes nothing, when the id is not pending — a
    /// completion for an unknown task is dropped silently.
    pub fn complete_task(&mut self, task_id: u32) -> (slot: Option<u64>)
        requires
            old(self).wf(),
        ensures
            final(self).wf(),
            final(self).pending() == old(self).pending().remove(task_id),
            slot == (if old(self).pending().contains_key(task_id) {
                Some(old(self).pending()[task_id])
            } else {
                None::<u64>
            }),
            final(self).next_id() == old(self).next_id(),
    {
        task_map_remove(&mut self.tasks, task_id)
    }

    /// The id the next registered task will receive; ids run out at the
    /// counter's cap.
    pub fn next_id_value(&self) -> (id: u32)
        ensures
            id == self.next_id(),
    {
        self.ids.current()
    }

    /// How many tasks are pending.
    pub fn pending_count(&self) -> (n: usize)
        requires
            self.wf(),
        ensures
            n == self.pending().dom().len(),
    {
        task_map_len(&self.tasks)
    }
}

impl Default for TokioAsyncTaskManager {
    /// The default registry is the fresh one.
    fn default() -> (m: TokioAsyncTaskManager)
        ensures
            m.wf(),
            m.pending() == empty_task_map(),
            m.next_id() == 0,
    {
        TokioAsyncTaskManager::new()
    }
}

/// Registry bijection: a map binds each pending id to exactly one resolver
/// slot; registering a fresh id binds it to the slot given at registration,
/// and settling that id removes id and slot together, leaving the other
/// bindings untouched.
pub proof fn lemma_registry_bijection(pending: Map<u32, u64>, id: u32, slot: u64)
    requires
        !pending.contains_key(id),
    ensures
        ({
            let registered = pending.insert(id, slot);
            &&& registered.contains_key(id)
            &&& registered[id] == slot
            &&& !registered.remove(id).contains_key(id)
            &&& registered.remove(id) =~= pending
        }),
{
}

} // verus!
