//! The event loop's settlement logic: what happens to the registry and to the
//! engine for each completion message the loop dequeues.
//!
//! For each message the loop removes the pending entry for the message's task
//! id, settles the engine promise behind the recorded resolver slot with the
//! message's payload, and then forces a microtask checkpoint, so that the
//! continuations of one settlement run before the next message is dequeued.
//! A message whose task id is not pending is dropped silently.

use vstd::prelude::*;
use crate::registry::TokioAsyncTaskManager;
use crate::values::{AsyncTaskMessage, AsyncTaskResult};

verus! {

/// One settlement the embedder must perform: open the resolver pinned under
/// `resolver_slot` and settle it with the bridged payload, then force a
/// microtask checkpoint.
pub struct Settlement {
    pub task_id: u32,
    pub resolver_slot: u64,
    pub payload: AsyncTaskResult,
}

/// The settlements a run of the loop performs, in order: one per dequeued
/// message whose task id is pending at the time it is dequeued, carrying the
/// resolver slot recorded for that id and the message's payload.
pub open spec fn settlements_of(pending: Map<u32, u64>, msgs: Seq<AsyncTaskMessage>) -> Seq<
    Settlement,
>
    decreases msgs.len(),
{
    if msgs.len() == 0 {
        Seq::empty()
    } else {
        let m = msgs[0];
        if pending.contains_key(m.task_id) {
            seq![
                Settlement {
                    task_id: m.task_id,
                    resolver_slot: pending[m.task_id],
                    payload: m.payload,
                },
            ] + settlements_of(pending.remove(m.task_id), msgs.drop_first())
        } else {
            settlements_of(pending, msgs.drop_first())
        }
    }
}

/// The pending map left after a run of the loop: every dequeued task id has
/// been removed.
pub open spec fn pending_after(pending: Map<u32, u64>, msgs: Seq<AsyncTaskMessage>) -> Map<
    u32,
    u64,
>
    decreases msgs.len(),
{
    if msgs.len() == 0 {
        pending
    } else {
        pending_after(pending.remove(msgs[0].task_id), msgs.drop_first())
    }
}

impl TokioAsyncTaskManager {
    /// Handle one dequeued completion message: remove the pending entry for
    /// its task id and say how to settle the promise, or say that the message
    /// is to be dropped because no task with that id is pending.
    pub fn handle_message(&mut self, msg: AsyncTaskMessage) -> (settle: Option<Settlement>)
        requires
            old(self).wf(),
        ensures
            final(self).wf(),
            final(self).next_id() == old(self).next_id(),
            final(self).pending() == old(self).pending().remove(msg.task_id),
            settle matches Some(s) ==> {
                &&& old(self).pending().contains_key(msg.task_id)
                &&& s.task_id == msg.task_id
                &&& s.resolver_slot == old(self).pending()[msg.task_id]
                &&& s.payload == msg.payload
            },
            settle is None <==> !old(self).pending().contains_key(msg.task_id),
    {
        let task_id = msg.task_id;
        match self.complete_task(task_id) {
            Some(slot) => Some(
                Settlement { task_id, resolver_slot: slot, payload: msg.payload },
            ),
            None => None,
        }
    }

    /// The loop's whole run over the messages the completion channel yields,
    /// in arrival order: settlements occur in that order, each binding taken
    /// from the registry exactly once.
    pub fn run_event_loop(&mut self, msgs: Vec<AsyncTaskMessage>) -> (settlements: Vec<Settlement>)
        requires
            old(self).wf(),
        ensures
            final(self).wf(),
            final(self).next_id() == old(self).next_id(),
            settlements@ == settlements_of(old(self).pending(), msgs@),
            final(self).pending() == pending_after(old(self).pending(), msgs@),
    {
        let ghost pending0 = self.pending();
        let ghost all = msgs@;
        let mut queue = msgs;
        let mut settlements: Vec<Settlement> = Vec::new();
        while queue.len() > 0
            invariant
                self.wf(),
                self.next_id() == old(self).next_id(),
                settlements@ + settlements_of(self.pending(), queue@) =~= settlements_of(
                    pending0,
                    all,
                ),
                pending_after(self.pending(), queue@) == pending_after(pending0, all),
            decreases queue.len(),
        {
            let ghost queue_before = queue@;
            let ghost pending_before = self.pending();
            let ghost settlements_before = settlements@;
            let msg = queue.remove(0);
            proof {
                assert(queue@ =~= queue_before.drop_first());
                assert(msg == queue_before[0]);
            }
            match self.handle_message(msg) {
                Some(s) => settlements.push(s),
                None => {},
            }
            proof {
                let m0 = queue_before[0];
                if pending_before.contains_key(m0.task_id) {
                    let head = Settlement {
                        task_id: m0.task_id,
                        resolver_slot: pending_before[m0.task_id],
                        payload: m0.payload,
                    };
                    assert(settlements_of(pending_before, queue_before) =~= seq![head]
                        + settlements_of(
                        pending_before.remove(m0.task_id),
                        queue_before.drop_first(),
                    ));
                    assert(settlements@ =~= settlements_before + seq![head]);
                    assert(settlements@ + settlements_of(self.pending(), queue@)
                        =~= settlements_before + settlements_of(pending_before, queue_before));
                } else {
                    assert(self.pending() =~= pending_before);
                    assert(self.pending() == pending_before);
                    assert(settlements_of(pending_before, queue_before) == settlements_of(
                        pending_before,
                        queue_before.drop_first(),
                    ));
                }
                assert(settlements@ + settlements_of(self.pending(), queue@) =~= settlements_of(
                    pending0,
                    all,
                ));
            }
        }
        proof {
            assert(settlements@ =~= settlements_of(pending0, all));
        }
        settlements
    }
}

/// Every settlement of a run settles a task that was pending when the run
/// began.
pub proof fn lemma_settlements_from_pending(
    pending: Map<u32, u64>,
    msgs: Seq<AsyncTaskMessage>,
    i: int,
)
    requires
        0 <= i < settlements_of(pending, msgs).len(),
    ensures
        pending.contains_key(settlements_of(pending, msgs)[i].task_id),
    decreases msgs.len(),
{
    if msgs.len() > 0 {
        let m = msgs[0];
        if pending.contains_key(m.task_id) {
            if i >= 1 {
                lemma_settlements_from_pending(
                    pending.remove(m.task_id),
                    msgs.drop_first(),
                    i - 1,
                );
            }
        } else {
            lemma_settlements_from_pending(pending, msgs.drop_first(), i);
        }
    }
}

/// A task settles at most once in a run: settling removes its binding, so no
/// two settlements of one run share a task id, however many completion
/// messages carried it.
pub proof fn lemma_settle_at_most_once(
    pending: Map<u32, u64>,
    msgs: Seq<AsyncTaskMessage>,
    i: int,
    j: int,
)
    requires
        0 <= i < j < settlements_of(pending, msgs).len(),
    ensures
        settlements_of(pending, msgs)[i].task_id != settlements_of(pending, msgs)[j].task_id,
    decreases msgs.len(),
{
    if msgs.len() > 0 {
        let m = msgs[0];
        if pending.contains_key(m.task_id) {
            if i == 0 {
                lemma_settlements_from_pending(
                    pending.remove(m.task_id),
                    msgs.drop_first(),
                    j - 1,
                );
            } else {
                lemma_settle_at_most_once(
                    pending.remove(m.task_id),
                    msgs.drop_first(),
                    i - 1,
                    j - 1,
                );
            }
        } else {
            lemma_settle_at_most_once(pending, msgs.drop_first(), i, j);
        }
    }
}

/// A step of the loop as script can observe it: a settlement of one task's
/// promise, or a forced drain of the engine's microtask queue.
#[derive(PartialEq, Eq, Structural, Clone, Copy, Debug)]
pub enum LoopStep {
    Settle(u32),
    Checkpoint,
}

/// The observable trace of a run that settles the given task ids in the given
/// order: each settlement is followed at once by a microtask checkpoint.
pub open spec fn checkpointed(settled: Seq<u32>) -> Seq<LoopStep>
    decreases settled.len(),
{
    if settled.len() == 0 {
        Seq::empty()
    } else {
        seq![LoopStep::Settle(settled[0]), LoopStep::Checkpoint] + checkpointed(
            settled.drop_first(),
        )
    }
}

/// Settling one more task appends its settlement and its checkpoint to the
/// trace.
pub proof fn lemma_checkpointed_push(settled: Seq<u32>, id: u32)
    ensures
        checkpointed(settled.push(id)) == checkpointed(settled) + seq![
            LoopStep::Settle(id),
            LoopStep::Checkpoint,
        ],
    decreases settled.len(),
{
    if settled.len() == 0 {
        assert(settled.push(id).drop_first() =~= Seq::empty());
        assert(settled.push(id)[0] == id);
        assert(checkpointed(settled.push(id)) == seq![
            LoopStep::Settle(id),
            LoopStep::Checkpoint,
        ] + checkpointed(settled.push(id).drop_first()));
        assert(checkpointed(settled.push(id)) =~= checkpointed(settled) + seq![
            LoopStep::Settle(id),
            LoopStep::Checkpoint,
        ]);
    } else {
        lemma_checkpointed_push(settled.drop_first(), id);
        assert(settled.push(id).drop_first() =~= settled.drop_first().push(id));
        assert(settled.push(id)[0] == settled[0]);
        assert(checkpointed(settled.push(id)) == seq![
            LoopStep::Settle(settled[0]),
            LoopStep::Checkpoint,
        ] + checkpointed(settled.drop_first().push(id)));
        assert(checkpointed(settled.push(id)) =~= checkpointed(settled) + seq![
            LoopStep::Settle(id),
            LoopStep::Checkpoint,
        ]);
    }
}

/// The steps the embedder performs for a run's settlements, in order: settle
/// each task's promise, then force a microtask checkpoint, before touching
/// the next settlement.
pub fn settlement_trace(settlements: &Vec<Settlement>) -> (trace: Vec<LoopStep>)
    ensures
        trace@ == checkpointed(settlements@.map_values(|s: Settlement| s.task_id)),
{
    let ghost ids = settlements@.map_values(|s: Settlement| s.task_id);
    let mut trace: Vec<LoopStep> = Vec::new();
    let mut i: usize = 0;
    while i < settlements.len()
        invariant
            i <= settlements@.len(),
            ids == settlements@.map_values(|s: Settlement| s.task_id),
            trace@ == checkpointed(ids.take(i as int)),
        decreases settlements@.len() - i,
    {
        let id = settlements[i].task_id;
        trace.push(LoopStep::Settle(id));
        trace.push(LoopStep::Checkpoint);
        proof {
            lemma_checkpointed_push(ids.take(i as int), id);
            assert(ids.take(i as int).push(id) =~= ids.take(i + 1));
            assert(trace@ =~= checkpointed(ids.take(i + 1)));
        }
        i = i + 1;
    }
    proof {
        assert(ids.take(settlements@.len() as int) =~= ids);
    }
    trace
}

/// In a checkpointed trace, every settlement is followed at once by a
/// microtask checkpoint.
pub proof fn lemma_settle_then_checkpoint(settled: Seq<u32>, k: int)
    requires
        0 <= k < checkpointed(settled).len(),
        checkpointed(settled)[k] is Settle,
    ensures
        k + 1 < checkpointed(settled).len(),
        checkpointed(settled)[k + 1] is Checkpoint,
    decreases settled.len(),
{
    if settled.len() > 0 && k >= 2 {
        lemma_settle_then_checkpoint(settled.drop_first(), k - 2);
    }
}

/// Microtask ordering: when promise A settles before promise B in one run of
/// the loop, A's checkpoint — where A's continuations run — comes strictly
/// before B's settlement. Continuations of the earlier settlement therefore
/// run before the later promise settles.
pub proof fn lemma_microtask_ordering(settled: Seq<u32>, k1: int, k2: int)
    requires
        0 <= k1 < k2 < checkpointed(settled).len(),
        checkpointed(settled)[k1] is Settle,
        checkpointed(settled)[k2] is Settle,
    ensures
        checkpointed(settled)[k1 + 1] is Checkpoint,
        k1 + 1 < k2,
{
    lemma_settle_then_checkpoint(settled, k1);
}

} // verus!
