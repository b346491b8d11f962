//! The adaptor's state and the decisions of one polling-and-reconciliation
//! cycle. A cycle runs the reconciler (deliver stored results for pending
//! tasks) and then the poller (turn new inbound messages into tasks); the
//! surrounding program performs the store and channel calls and feeds their
//! outcomes back in.

use vstd::prelude::*;
use crate::channel::{
    creatable_msgs, ids_ascending, lemma_max_is_last, spec_max_id, ChatMessage,
    PollError, Update,
};
use crate::json::{string_field, string_field_of};
use crate::registry::PendingRegistry;
use crate::task::{build_task_plan, plan_matches, result_key, TaskPlan};

verus! {

/// The adaptor's whole mutable state: the update cursor and the pending-task
/// registry. The cursor is the last processed update identifier plus one.
pub struct AdaptorState {
    pub cursor: i64,
    pub registry: PendingRegistry,
}

/// One planned delivery: the chat to notify, the text to send, and the store
/// key of the result record to delete once the send succeeds.
pub struct Delivery {
    pub chat_id: i64,
    pub text: String,
    pub result_key: String,
}

/// The registrations a batch of plans adds, in order: each plan's task mapped
/// to the chat in its configuration.
pub open spec fn register_all(m: Map<Seq<char>, i64>, plans: Seq<TaskPlan>) -> Map<Seq<char>, i64>
    decreases plans.len(),
{
    if plans.len() == 0 {
        m
    } else {
        register_all(m, plans.drop_last()).insert(
            plans.last().task_id@,
            plans.last().record.config.chat_id,
        )
    }
}

/// A registration, once made, survives every poll: ingesting a batch only
/// adds registrations, so an entry lives from the task's creation until its
/// result is successfully delivered (and forever if delivery keeps failing).
pub proof fn lemma_poll_keeps_registrations(
    m: Map<Seq<char>, i64>,
    plans: Seq<TaskPlan>,
    k: Seq<char>,
)
    requires
        m.contains_key(k),
    ensures
        register_all(m, plans).contains_key(k),
        plans.len() == 0 ==> register_all(m, plans) == m,
    decreases plans.len(),
{
    if plans.len() > 0 {
        lemma_poll_keeps_registrations(m, plans.drop_last(), k);
    }
}

/// What one reconciliation step does to the registry for one task: the entry
/// is removed exactly when a result with a string payload was found, the task
/// was registered, and the send succeeded; in every other case the registry is
/// untouched.
pub open spec fn reconcile_step(
    reg: Map<Seq<char>, i64>,
    id: Seq<char>,
    found_text: Option<Seq<char>>,
    delivered: bool,
) -> Map<Seq<char>, i64> {
    if found_text is Some && reg.contains_key(id) && delivered {
        reg.remove(id)
    } else {
        reg
    }
}

/// A reconciliation step attempts a send exactly when a result with a string
/// payload was found for a registered task.
pub open spec fn step_attempts_send(
    reg: Map<Seq<char>, i64>,
    id: Seq<char>,
    found_text: Option<Seq<char>>,
) -> bool {
    found_text is Some && reg.contains_key(id)
}

/// A whole reconciliation pass over a snapshot of task identifiers, each with
/// the result text found for it and whether its send succeeded.
pub open spec fn reconcile_cycle(
    reg: Map<Seq<char>, i64>,
    ids: Seq<Seq<char>>,
    found: Seq<Option<Seq<char>>>,
    delivered: Seq<bool>,
) -> Map<Seq<char>, i64>
    decreases ids.len(),
{
    if ids.len() == 0 || found.len() != ids.len() || delivered.len() != ids.len() {
        reg
    } else {
        reconcile_step(
            reconcile_cycle(reg, ids.drop_last(), found.drop_last(), delivered.drop_last()),
            ids.last(),
            found.last(),
            delivered.last(),
        )
    }
}

/// A registered pending task is removed from the registry if and only if a
/// result was both found for it and successfully delivered.
pub proof fn lemma_removed_iff_delivered(
    reg: Map<Seq<char>, i64>,
    id: Seq<char>,
    found_text: Option<Seq<char>>,
    delivered: bool,
)
    requires
        reg.contains_key(id),
    ensures
        !reconcile_step(reg, id, found_text, delivered).contains_key(id) <==> (found_text is Some
            && delivered),
{
}

/// A reconciliation pass in which no task has a deliverable result leaves the
/// registry unchanged and attempts no send (so the store is untouched too):
/// re-running reconciliation with no new results is idempotent.
pub proof fn lemma_reconcile_idempotent(
    reg: Map<Seq<char>, i64>,
    ids: Seq<Seq<char>>,
    found: Seq<Option<Seq<char>>>,
    delivered: Seq<bool>,
)
    requires
        found.len() == ids.len(),
        delivered.len() == ids.len(),
        forall|k: int| 0 <= k < found.len() ==> found[k] is None,
    ensures
        reconcile_cycle(reg, ids, found, delivered) == reg,
        forall|k: int| 0 <= k < ids.len() ==> !step_attempts_send(reg, ids[k], found[k]),
    decreases ids.len(),
{
    if ids.len() > 0 {
        assert(found.drop_last().len() == ids.drop_last().len());
        lemma_reconcile_idempotent(
            reg,
            ids.drop_last(),
            found.drop_last(),
            delivered.drop_last(),
        );
        assert(found.last() is None);
    }
}

impl AdaptorState {
    /// The registry's identifiers are pairwise distinct.
    pub open spec fn wf(&self) -> bool {
        self.registry.wf()
    }

    /// The outstanding registrations: task identifier to chat identifier.
    pub open spec fn pending(&self) -> Map<Seq<char>, i64> {
        self.registry@
    }

    /// A fresh adaptor: cursor at the start of the update stream, nothing
    /// pending. Registrations do not survive a restart, so in-flight
    /// deliveries across one are dropped by design.
    pub fn new() -> (r: Self)
        ensures
            r.wf(),
            r.cursor == 0,
            r.pending() == Map::<Seq<char>, i64>::empty(),
    {
        AdaptorState { cursor: 0, registry: PendingRegistry::new() }
    }

    /// The task creator: build the plan for one message and register the
    /// fresh task before anything is written to the store, so a
    /// reconciliation pass can never observe a result with no registered
    /// recipient. The caller then writes the record and pushes the queue
    /// entry; if either write fails the registration survives, and the
    /// reconciler simply never finds a result for it.
    pub fn create_task(&mut self, msg: &ChatMessage) -> (plan: TaskPlan)
        requires
            old(self).wf(),
            msg.text@.len() > 0,
        ensures
            final(self).wf(),
            final(self).cursor == old(self).cursor,
            plan_matches(plan, *msg),
            final(self).pending() == old(self).pending().insert(plan.task_id@, msg.chat_id),
    {
        let plan = build_task_plan(msg);
        self.registry.insert(plan.task_id.clone(), msg.chat_id);
        plan
    }

    /// The update poller's decision on one fetched batch. A non-success
    /// envelope fails the poll and changes nothing. Otherwise the cursor
    /// advances to the largest update identifier plus one — eagerly, whether
    /// or not the store writes that follow succeed — and a task is planned
    /// and registered for exactly the updates that carry a message with
    /// non-empty text, in batch order.
    pub fn ingest_updates(&mut self, ok: bool, updates: Vec<Update>) -> (r: Result<
        Vec<TaskPlan>,
        PollError,
    >)
        requires
            old(self).wf(),
            ids_ascending(updates@),
            forall|i: int| 0 <= i < updates@.len() ==> (#[trigger] updates@[i].update_id)
                < i64::MAX,
        ensures
            final(self).wf(),
            (r is Err) == !ok,
            !ok ==> final(self).cursor == old(self).cursor && final(self).pending() == old(
                self,
            ).pending(),
            r matches Ok(plans) ==> {
                &&& plans@.len() == creatable_msgs(updates@).len()
                &&& (forall|k: int|
                    0 <= k < plans@.len() ==> plan_matches(
                        #[trigger] plans@[k],
                        creatable_msgs(updates@)[k],
                    ))
                &&& final(self).pending() == register_all(old(self).pending(), plans@)
                &&& (updates@.len() == 0 ==> final(self).cursor == old(self).cursor)
                &&& (updates@.len() > 0 ==> final(self).cursor == spec_max_id(updates@) + 1)
            },
    {
        if !ok {
            return Err(PollError::ChannelRejected);
        }
        let ghost pending0 = self.pending();
        let ghost cursor0 = self.cursor;
        let mut plans: Vec<TaskPlan> = Vec::new();
        let n = updates.len();
        let mut i: usize = 0;
        while i < n
            invariant
                n == updates@.len(),
                0 <= i <= n,
                self.wf(),
                ids_ascending(updates@),
                forall|t: int| 0 <= t < n ==> (#[trigger] updates@[t].update_id) < i64::MAX,
                plans@.len() == creatable_msgs(updates@.subrange(0, i as int)).len(),
                forall|k: int|
                    0 <= k < plans@.len() ==> plan_matches(
                        #[trigger] plans@[k],
                        creatable_msgs(updates@.subrange(0, i as int))[k],
                    ),
                self.pending() == register_all(pending0, plans@),
                i == 0 ==> self.cursor == cursor0,
                i > 0 ==> self.cursor == updates@[i - 1].update_id + 1,
            decreases n - i,
        {
            self.cursor = updates[i].update_id + 1;
            let ghost prefix = updates@.subrange(0, i as int);
            let ghost plans0 = plans@;
            match &updates[i].message {
                Some(m) => {
                    if !m.text.as_str().is_empty() {
                        let plan = self.create_task(m);
                        plans.push(plan);
                        proof {
                            assert(plans@.drop_last() =~= plans0);
                        }
                    }
                },
                None => {},
            }
            proof {
                assert(updates@.subrange(0, i + 1).drop_last() =~= prefix);
                assert(updates@.subrange(0, i + 1).last() == updates@[i as int]);
                assert forall|k: int|
                    0 <= k < plans@.len() implies plan_matches(
                    #[trigger] plans@[k],
                    creatable_msgs(updates@.subrange(0, i + 1))[k],
                ) by {
                    if k < plans0.len() {
                        assert(creatable_msgs(updates@.subrange(0, i + 1))[k] == creatable_msgs(
                            prefix,
                        )[k]);
                    }
                }
            }
            i += 1;
        }
        proof {
            assert(updates@.subrange(0, n as int) =~= updates@);
            if n > 0 {
                lemma_max_is_last(updates@);
            }
        }
        Ok(plans)
    }

    /// The identifiers of the currently pending tasks: exactly the registry's
    /// keys, each once. The reconciler walks this snapshot.
    pub fn pending_snapshot(&self) -> (r: Vec<String>)
        requires
            self.wf(),
        ensures
            forall|i: int| 0 <= i < r@.len() ==> self.pending().contains_key(#[trigger] r@[i]@),
            forall|k: Seq<char>|
                self.pending().contains_key(k) ==> exists|i: int| 0 <= i < r@.len() && r@[i]@ == k,
            forall|i: int, j: int| 0 <= i < j < r@.len() ==> r@[i]@ != r@[j]@,
    {
        self.registry.task_ids()
    }

    /// The reconciler's decision for one pending task, given the raw result
    /// record fetched from the store (or nothing). A delivery is planned
    /// exactly when a record was found, it carries a string `result` field,
    /// and the task is registered; the plan names the registered chat, the
    /// result text, and the result record to delete after a successful send.
    /// Nothing is planned otherwise, and a record without a string `result`
    /// field leaves the registration in place indefinitely.
    pub fn plan_delivery(&self, task_id: &String, fetched: &Option<String>) -> (r: Option<Delivery>)
        requires
            self.wf(),
        ensures
            (r is Some) == (fetched matches Some(raw) && string_field_of(raw@, "result"@) is Some
                && self.pending().contains_key(task_id@)),
            r matches Some(d) ==> {
                &&& fetched matches Some(raw) && Some(d.text@) == string_field_of(
                    raw@,
                    "result"@,
                )
                &&& d.chat_id == self.pending()[task_id@]
                &&& d.result_key@ == "result:"@ + task_id@
            },
    {
        match fetched {
            None => None,
            Some(raw) => {
                match string_field(raw.as_str(), "result") {
                    None => None,
                    Some(text) => {
                        match self.registry.get(task_id) {
                            None => None,
                            Some(chat_id) => Some(
                                Delivery { chat_id, text, result_key: result_key(task_id) },
                            ),
                        }
                    },
                }
            },
        }
    }

    /// The reconciler's bookkeeping after a send attempt. On success the
    /// registration is dropped and the caller is told to delete the stored
    /// result record; on failure both are left intact, so a later cycle
    /// retries — at-least-once delivery toward the chat.
    pub fn confirm_delivery(&mut self, task_id: &String, delivered: bool) -> (cleanup: bool)
        requires
            old(self).wf(),
        ensures
            final(self).wf(),
            final(self).cursor == old(self).cursor,
            delivered ==> final(self).pending() == old(self).pending().remove(task_id@) && cleanup,
            !delivered ==> final(self).pending() == old(self).pending() && !cleanup,
    {
        if delivered {
            let _removed = self.registry.remove(task_id);
            true
        } else {
            false
        }
    }
}

} // verus!
