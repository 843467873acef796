//! What holds of the manager in every state and over every sequence of
//! events: the limit on running tasks, the dropping of duplicates, and what
//! a cancellation achieves.

use vstd::prelude::*;
use crate::conversion::manager::{
    lemma_drop_first_wf, lemma_push_wf, lemma_release_wf, task_ids, Effect, ManagerMessage,
    ManagerState,
};
use crate::conversion::types::ConversionTask;

verus! {

/// Whether `effects` asks to run a worker for the task `id`.
pub open spec fn spawns_id(effects: Seq<Effect>, id: Seq<char>) -> bool {
    exists|i: int|
        0 <= i < effects.len() && (#[trigger] effects[i] matches Effect::Spawn(t) && t.id@ == id)
}

/// Whether `msg` is about the task `id`.
pub open spec fn concerns(msg: ManagerMessage, id: Seq<char>) -> bool {
    match msg {
        ManagerMessage::Enqueue(task) => task.id@ == id,
        ManagerMessage::TaskStarted(other, _) => other@ == id,
        ManagerMessage::TaskCompleted(other) => other@ == id,
        ManagerMessage::TaskError(other, _) => other@ == id,
    }
}

/// What happens to a manager: a message arrives, or the client cancels a
/// task or sets the limit.
pub enum Event {
    Message(ManagerMessage),
    Cancel(Seq<char>),
    SetLimit(nat),
}

/// The state after an event, and what the manager asks for. A cancellation
/// and a new limit ask for nothing by themselves; a limit of zero is
/// rejected and changes nothing.
pub open spec fn apply(s: ManagerState, event: Event) -> (ManagerState, Seq<Effect>) {
    match event {
        Event::Message(msg) => s.step(msg),
        Event::Cancel(id) => (s.cancel(id), Seq::empty()),
        Event::SetLimit(limit) => if limit == 0 {
            (s, Seq::empty())
        } else {
            (s.set_limit(limit), Seq::empty())
        },
    }
}

/// Whether an event is a message about the task `id`.
pub open spec fn reports_on(event: Event, id: Seq<char>) -> bool {
    event matches Event::Message(msg) && concerns(msg, id)
}

/// The state after the events have happened one after the other.
pub open spec fn run(s: ManagerState, events: Seq<Event>) -> ManagerState
    decreases events.len(),
{
    if events.len() == 0 {
        s
    } else {
        run(apply(s, events[0]).0, events.drop_first())
    }
}

/// Everything that was asked for while the events happened, in order.
pub open spec fn run_effects(s: ManagerState, events: Seq<Event>) -> Seq<Effect>
    decreases events.len(),
{
    if events.len() == 0 {
        Seq::empty()
    } else {
        apply(s, events[0]).1 + run_effects(apply(s, events[0]).0, events.drop_first())
    }
}

/// Whether the limit is never set below the number of tasks that run at the
/// time, while the events happen.
pub open spec fn never_undercut(s: ManagerState, events: Seq<Event>) -> bool
    decreases events.len(),
{
    if events.len() == 0 {
        true
    } else {
        &&& events[0] matches Event::SetLimit(limit) ==> limit == 0 || limit >= s.running.len()
        &&& never_undercut(apply(s, events[0]).0, events.drop_first())
    }
}

/// Whether `effects` asks to run a worker at all.
pub open spec fn spawns_any(effects: Seq<Effect>) -> bool {
    exists|i: int| 0 <= i < effects.len() && #[trigger] effects[i] is Spawn
}

/// What draining does and does not change.
///
/// The state stays well-formed. The limit, the recorded processes and the
/// tasks that ran before are kept. No task is started while as many run as
/// the limit allows, or more. Every task that is started waited before and
/// had no cancellation mark; a waiting task without a mark either still
/// waits or runs; a mark is only ever removed from a task that waited, and
/// then the task leaves the queue with it.
pub proof fn lemma_drain(s: ManagerState)
    requires
        s.wf(),
    ensures
        s.drain().0.wf(),
        s.drain().0.limit == s.limit,
        s.drain().0.active == s.active,
        s.running.subset_of(s.drain().0.running),
        s.drain().0.cancelled.subset_of(s.cancelled),
        s.running.len() <= s.limit ==> s.drain().0.running.len() <= s.limit,
        s.running.len() >= s.limit ==> s.drain() == (s, Seq::<ConversionTask>::empty()),
        forall|id: Seq<char>| #[trigger]
            s.drain().0.queued_ids().contains(id) ==> s.queued_ids().contains(id),
        forall|id: Seq<char>| #[trigger]
            s.drain().0.running.contains(id) ==> s.running.contains(id) || (s.queued_ids().contains(
                id,
            ) && !s.cancelled.contains(id)),
        forall|id: Seq<char>|
            s.cancelled.contains(id) && s.drain().0.queued_ids().contains(id) ==> (
            #[trigger] s.drain().0.cancelled.contains(id)),
        forall|i: int|
            0 <= i < s.drain().1.len() ==> {
                let id = (#[trigger] s.drain().1[i]).id@;
                &&& s.queued_ids().contains(id)
                &&& !s.cancelled.contains(id)
                &&& s.drain().0.running.contains(id)
            },
        forall|id: Seq<char>|
            s.queued_ids().contains(id) && !s.cancelled.contains(id) ==> (
            #[trigger] s.drain().0.queued_ids().contains(id)) || s.drain().0.running.contains(id),
        forall|id: Seq<char>|
            !s.queued_ids().contains(id) ==> (#[trigger] s.drain().0.cancelled.contains(id)
                <==> s.cancelled.contains(id)),
    decreases s.pending.len(),
{
    if s.running.len() >= s.limit || s.pending.len() == 0 {
    } else {
        let front = s.pending[0].id@;
        lemma_drop_first_wf(s);
        assert(task_ids(s.pending)[0] == front);
        assert(s.queued_ids().contains(front));
        assert(!s.running.contains(front));
        let next = if s.cancelled.contains(front) {
            s.discard_front()
        } else {
            s.start_front()
        };
        lemma_drain(next);
        assert forall|id: Seq<char>| #[trigger]
            next.queued_ids().contains(id) implies s.queued_ids().contains(id) by {
            assert(task_ids(s.pending.drop_first()).contains(id));
        }
        assert forall|id: Seq<char>|
            s.queued_ids().contains(id) && id != front implies next.queued_ids().contains(id) by {
            let ids = task_ids(s.pending);
            let rest = task_ids(s.pending.drop_first());
            let j = choose|j: int| 0 <= j < ids.len() && ids[j] == id;
            assert(j > 0);
            assert(rest[j - 1] == id);
        }
        assert(!next.queued_ids().contains(front));
        if s.cancelled.contains(front) {
            assert(s.drain() == next.drain());
        } else {
            assert(s.drain() == (next.drain().0, seq![s.pending[0]] + next.drain().1));
            assert forall|i: int| 0 <= i < s.drain().1.len() implies {
                let id = (#[trigger] s.drain().1[i]).id@;
                &&& s.queued_ids().contains(id)
                &&& !s.cancelled.contains(id)
                &&& s.drain().0.running.contains(id)
            } by {
                if i > 0 {
                    assert(s.drain().1[i] == next.drain().1[i - 1]);
                }
            }
        }
    }
}

/// Taking a message keeps the state well-formed.
pub proof fn lemma_step_wf(s: ManagerState, msg: ManagerMessage)
    requires
        s.wf(),
    ensures
        s.step(msg).0.wf(),
        s.step(msg).0.limit == s.limit,
{
    match msg {
        ManagerMessage::Enqueue(task) => {
            if s.running.contains(task.id@) || s.queued_ids().contains(task.id@) {
            } else {
                lemma_push_wf(s, task);
                lemma_drain(
                    ManagerState {
                        pending: s.pending.push(task),
                        cancelled: s.cancelled.remove(task.id@),
                        ..s
                    },
                );
            }
        },
        ManagerMessage::TaskStarted(id, _) => {
            if s.cancelled.contains(id@) {
                lemma_release_wf(s, id@);
                lemma_drain(ManagerState { cancelled: s.cancelled, ..s.release(id@) });
            }
        },
        ManagerMessage::TaskCompleted(id) => {
            lemma_release_wf(s, id@);
            lemma_drain(s.release(id@));
        },
        ManagerMessage::TaskError(id, _) => {
            lemma_release_wf(s, id@);
            lemma_drain(s.release(id@));
        },
    }
}

/// While no more tasks run than the limit allows, no message makes it
/// otherwise.
pub proof fn lemma_step_keeps_limit(s: ManagerState, msg: ManagerMessage)
    requires
        s.wf(),
        s.within_limit(),
    ensures
        s.step(msg).0.within_limit(),
{
    match msg {
        ManagerMessage::Enqueue(task) => {
            if s.running.contains(task.id@) || s.queued_ids().contains(task.id@) {
            } else {
                lemma_push_wf(s, task);
                lemma_drain(
                    ManagerState {
                        pending: s.pending.push(task),
                        cancelled: s.cancelled.remove(task.id@),
                        ..s
                    },
                );
            }
        },
        ManagerMessage::TaskStarted(id, _) => {
            if s.cancelled.contains(id@) {
                lemma_release_wf(s, id@);
                let freed = ManagerState { cancelled: s.cancelled, ..s.release(id@) };
                assert(freed.running.len() <= s.running.len()) by {
                    vstd::set_lib::lemma_len_subset(freed.running, s.running);
                }
                lemma_drain(freed);
            }
        },
        ManagerMessage::TaskCompleted(id) => {
            lemma_release_wf(s, id@);
            assert(s.release(id@).running.len() <= s.running.len()) by {
                vstd::set_lib::lemma_len_subset(s.release(id@).running, s.running);
            }
            lemma_drain(s.release(id@));
        },
        ManagerMessage::TaskError(id, _) => {
            lemma_release_wf(s, id@);
            assert(s.release(id@).running.len() <= s.running.len()) by {
                vstd::set_lib::lemma_len_subset(s.release(id@).running, s.running);
            }
            lemma_drain(s.release(id@));
        },
    }
}

/// Where the limit was lowered while tasks ran, so that more run than it
/// allows, no message adds to them: the number of running tasks does not
/// grow until it has fallen below the limit.
pub proof fn lemma_step_never_overfills(s: ManagerState, msg: ManagerMessage)
    requires
        s.wf(),
        s.running.len() >= s.limit,
    ensures
        s.step(msg).0.running.len() <= s.running.len(),
{
    match msg {
        ManagerMessage::Enqueue(task) => {
            if s.running.contains(task.id@) || s.queued_ids().contains(task.id@) {
            } else {
                lemma_push_wf(s, task);
                lemma_drain(
                    ManagerState {
                        pending: s.pending.push(task),
                        cancelled: s.cancelled.remove(task.id@),
                        ..s
                    },
                );
            }
        },
        ManagerMessage::TaskStarted(id, _) => {
            if s.cancelled.contains(id@) {
                lemma_release_wf(s, id@);
                let freed = ManagerState { cancelled: s.cancelled, ..s.release(id@) };
                lemma_released_count(s, id@);
                lemma_drain(freed);
            }
        },
        ManagerMessage::TaskCompleted(id) => {
            lemma_release_wf(s, id@);
            lemma_released_count(s, id@);
            lemma_drain(s.release(id@));
        },
        ManagerMessage::TaskError(id, _) => {
            lemma_release_wf(s, id@);
            lemma_released_count(s, id@);
            lemma_drain(s.release(id@));
        },
    }
}

/// Releasing a task frees its slot, and no other.
proof fn lemma_released_count(s: ManagerState, id: Seq<char>)
    requires
        s.wf(),
    ensures
        s.release(id).running.len() == if s.running.contains(id) {
            s.running.len() - 1
        } else {
            s.running.len() as int
        },
{
}

/// An event keeps the state well-formed.
pub proof fn lemma_apply_wf(s: ManagerState, event: Event)
    requires
        s.wf(),
    ensures
        apply(s, event).0.wf(),
{
    match event {
        Event::Message(msg) => {
            lemma_step_wf(s, msg);
        },
        _ => {},
    }
}

/// A task is started only within the limit: whenever an event asks for a
/// worker, no more tasks run afterwards than the limit allows. This holds
/// in every state, also where the limit was lowered while more tasks ran.
pub proof fn lemma_start_within_limit(s: ManagerState, event: Event)
    requires
        s.wf(),
        spawns_any(apply(s, event).1),
    ensures
        apply(s, event).0.within_limit(),
{
    let effects = apply(s, event).1;
    let i = choose|i: int| 0 <= i < effects.len() && #[trigger] effects[i] is Spawn;
    match event {
        Event::Message(msg) => {
            match msg {
                ManagerMessage::Enqueue(task) => {
                    if s.running.contains(task.id@) || s.queued_ids().contains(task.id@) {
                    } else {
                        lemma_push_wf(s, task);
                        lemma_drain(admitted(s, task));
                    }
                },
                ManagerMessage::TaskStarted(id, pid) => {
                    if s.cancelled.contains(id@) {
                        lemma_release_wf(s, id@);
                        let freed = ManagerState { cancelled: s.cancelled, ..s.release(id@) };
                        lemma_drain(freed);
                        if freed.running.len() >= freed.limit {
                            assert(effects =~= if pid > 0 {
                                seq![Effect::Terminate(pid)]
                            } else {
                                Seq::<Effect>::empty()
                            });
                        }
                    }
                },
                ManagerMessage::TaskCompleted(id) => {
                    lemma_release_wf(s, id@);
                    lemma_drain(s.release(id@));
                },
                ManagerMessage::TaskError(id, _) => {
                    lemma_release_wf(s, id@);
                    lemma_drain(s.release(id@));
                    if s.release(id@).running.len() >= s.limit {
                        assert(effects.len() == 2);
                    }
                },
            }
        },
        _ => {},
    }
}

/// No event adds to the running tasks beyond the limit: afterwards no more
/// run than ran before, or no more than the limit then in effect allows.
pub proof fn lemma_apply_never_overfills(s: ManagerState, event: Event)
    requires
        s.wf(),
    ensures
        apply(s, event).0.running.len() <= s.running.len() || apply(s, event).0.within_limit(),
{
    match event {
        Event::Message(msg) => {
            if s.running.len() >= s.limit {
                lemma_step_never_overfills(s, msg);
            } else {
                lemma_step_keeps_limit(s, msg);
            }
        },
        _ => {},
    }
}

/// For every sequence of events that begins in a state in which no more
/// tasks run than the limit allows, and in which the limit is never set
/// below the number of tasks that run at the time: no more tasks run
/// afterwards than the limit allows.
pub proof fn lemma_run_keeps_limit(s: ManagerState, events: Seq<Event>)
    requires
        s.wf(),
        s.within_limit(),
        never_undercut(s, events),
    ensures
        run(s, events).wf(),
        run(s, events).within_limit(),
    decreases events.len(),
{
    if events.len() > 0 {
        lemma_apply_wf(s, events[0]);
        match events[0] {
            Event::Message(msg) => {
                lemma_step_keeps_limit(s, msg);
            },
            _ => {},
        }
        lemma_run_keeps_limit(apply(s, events[0]).0, events.drop_first());
    }
}

/// For every sequence of messages, from the state of a new manager: no more
/// tasks run afterwards than the limit allows.
pub proof fn lemma_messages_keep_limit(msgs: Seq<ManagerMessage>)
    ensures
        run(ManagerState::initial(), msgs.map_values(|m: ManagerMessage| Event::Message(m))).within_limit(),
{
    let s = ManagerState::initial();
    let events = msgs.map_values(|m: ManagerMessage| Event::Message(m));
    assert(task_ids(s.pending) =~= Seq::<Seq<char>>::empty());
    assert(s.queued_ids() =~= Set::<Seq<char>>::empty());
    lemma_only_messages(s, events);
    lemma_run_keeps_limit(s, events);
}

/// A sequence that holds messages only never sets the limit.
proof fn lemma_only_messages(s: ManagerState, events: Seq<Event>)
    requires
        forall|i: int| 0 <= i < events.len() ==> #[trigger] events[i] is Message,
    ensures
        never_undercut(s, events),
    decreases events.len(),
{
    if events.len() > 0 {
        let rest = events.drop_first();
        assert forall|i: int| 0 <= i < rest.len() implies #[trigger] rest[i] is Message by {
            assert(rest[i] == events[i + 1]);
        }
        lemma_only_messages(apply(s, events[0]).0, rest);
    }
}

/// Setting the limit to a value that is not below the number of running
/// tasks leaves no more running than it allows.
pub proof fn lemma_set_limit_keeps_limit(s: ManagerState, limit: nat)
    requires
        s.wf(),
        limit >= 1,
        limit >= s.running.len(),
    ensures
        s.set_limit(limit).wf(),
        s.set_limit(limit).within_limit(),
{
}

/// The state in which `task` has joined the queue and lost its stale mark.
pub open spec fn admitted(s: ManagerState, task: ConversionTask) -> ManagerState {
    ManagerState {
        pending: s.pending.push(task),
        cancelled: s.cancelled.remove(task.id@),
        ..s
    }
}

/// The identifiers that wait after `task` has joined the queue.
proof fn lemma_admitted_ids(s: ManagerState, task: ConversionTask)
    ensures
        forall|id: Seq<char>| #[trigger]
            admitted(s, task).queued_ids().contains(id) <==> s.queued_ids().contains(id) || id
                == task.id@,
{
    let ids = task_ids(s.pending);
    let more = task_ids(s.pending.push(task));
    assert(more =~= ids.push(task.id@));
    assert forall|id: Seq<char>| #[trigger]
        more.to_set().contains(id) <==> ids.to_set().contains(id) || id == task.id@ by {
        if more.to_set().contains(id) {
            let j = choose|j: int| 0 <= j < more.len() && more[j] == id;
            if j < ids.len() {
                assert(ids[j] == id);
            }
        }
        if ids.to_set().contains(id) {
            let j = choose|j: int| 0 <= j < ids.len() && ids[j] == id;
            assert(more[j] == id);
        }
        if id == task.id@ {
            assert(more[ids.len() as int] == id);
        }
    }
}

/// Enqueuing a task whose identifier already waits or runs changes neither
/// the queue nor the running tasks nor the recorded processes, and starts
/// nothing.
pub proof fn lemma_enqueue_known(s: ManagerState, task: ConversionTask)
    requires
        s.running.contains(task.id@) || s.queued_ids().contains(task.id@),
    ensures
        s.step(ManagerMessage::Enqueue(task)).1 == Seq::<Effect>::empty(),
        s.step(ManagerMessage::Enqueue(task)).0.pending == s.pending,
        s.step(ManagerMessage::Enqueue(task)).0.running == s.running,
        s.step(ManagerMessage::Enqueue(task)).0.active == s.active,
{
}

/// After a task has been enqueued its identifier waits or runs, so that a
/// second task with the same identifier, enqueued right after it, is dropped:
/// the queue and the running tasks stay as they are and nothing is started.
pub proof fn lemma_enqueue_twice(s: ManagerState, first: ConversionTask, second: ConversionTask)
    requires
        s.wf(),
        first.id@ == second.id@,
    ensures
        ({
            let once = s.step(ManagerMessage::Enqueue(first)).0;
            let twice = once.step(ManagerMessage::Enqueue(second));
            &&& once.queued_ids().contains(first.id@) || once.running.contains(first.id@)
            &&& twice.1 == Seq::<Effect>::empty()
            &&& twice.0.pending == once.pending
            &&& twice.0.running == once.running
        }),
{
    if s.running.contains(first.id@) || s.queued_ids().contains(first.id@) {
    } else {
        lemma_push_wf(s, first);
        lemma_admitted_ids(s, first);
        lemma_drain(admitted(s, first));
    }
}

/// No task is started while a task with its identifier runs: whatever the
/// message, a worker is asked for only where none ran for that identifier.
pub proof fn lemma_spawn_is_fresh(s: ManagerState, msg: ManagerMessage, id: Seq<char>)
    requires
        s.wf(),
        spawns_id(s.step(msg).1, id),
    ensures
        !s.running.contains(id),
        s.step(msg).0.running.contains(id),
{
    let effects = s.step(msg).1;
    let i = choose|i: int|
        0 <= i < effects.len() && (#[trigger] effects[i] matches Effect::Spawn(t) && t.id@ == id);
    match msg {
        ManagerMessage::Enqueue(task) => {
            if s.running.contains(task.id@) || s.queued_ids().contains(task.id@) {
            } else {
                lemma_push_wf(s, task);
                lemma_admitted_ids(s, task);
                lemma_drain(admitted(s, task));
                assert(admitted(s, task).drain().1[i].id@ == id);
            }
        },
        ManagerMessage::TaskStarted(other, pid) => {
            if s.cancelled.contains(other@) {
                lemma_release_wf(s, other@);
                let freed = ManagerState { cancelled: s.cancelled, ..s.release(other@) };
                lemma_drain(freed);
                if pid > 0 {
                    assert(i > 0);
                    assert(freed.drain().1[i - 1].id@ == id);
                } else {
                    assert(freed.drain().1[i].id@ == id);
                }
            }
        },
        ManagerMessage::TaskCompleted(other) => {
            lemma_release_wf(s, other@);
            lemma_drain(s.release(other@));
            assert(s.release(other@).drain().1[i].id@ == id);
        },
        ManagerMessage::TaskError(other, _) => {
            lemma_release_wf(s, other@);
            lemma_drain(s.release(other@));
            assert(i >= 2);
            assert(s.release(other@).drain().1[i - 2].id@ == id);
        },
    }
}

/// What the cancellation of a waiting task rests on: the task `id` does not
/// wait without a cancellation mark.
pub open spec fn held_back(s: ManagerState, id: Seq<char>) -> bool {
    s.queued_ids().contains(id) ==> s.cancelled.contains(id)
}

/// A message that is not about a held-back task does not start it, and the
/// task stays held back.
pub proof fn lemma_step_holds_back(s: ManagerState, msg: ManagerMessage, id: Seq<char>)
    requires
        s.wf(),
        held_back(s, id),
        !s.running.contains(id),
        !concerns(msg, id),
    ensures
        !spawns_id(s.step(msg).1, id),
        held_back(s.step(msg).0, id),
        !s.step(msg).0.running.contains(id),
{
    let effects = s.step(msg).1;
    match msg {
        ManagerMessage::Enqueue(task) => {
            if s.running.contains(task.id@) || s.queued_ids().contains(task.id@) {
            } else {
                lemma_push_wf(s, task);
                lemma_admitted_ids(s, task);
                lemma_drain(admitted(s, task));
                lemma_drain_holds_back(admitted(s, task), id);
            }
        },
        ManagerMessage::TaskStarted(other, pid) => {
            if s.cancelled.contains(other@) {
                lemma_release_wf(s, other@);
                let freed = ManagerState { cancelled: s.cancelled, ..s.release(other@) };
                lemma_drain(freed);
                lemma_drain_holds_back(freed, id);
                if spawns_id(effects, id) {
                    let i = choose|i: int|
                        0 <= i < effects.len() && (#[trigger] effects[i] matches Effect::Spawn(t) && t.id@ == id);
                    if pid > 0 {
                        assert(i > 0);
                        assert(freed.drain().1[i - 1].id@ == id);
                    } else {
                        assert(freed.drain().1[i].id@ == id);
                    }
                }
            }
        },
        ManagerMessage::TaskCompleted(other) => {
            lemma_release_wf(s, other@);
            lemma_drain(s.release(other@));
            lemma_drain_holds_back(s.release(other@), id);
        },
        ManagerMessage::TaskError(other, _) => {
            lemma_release_wf(s, other@);
            lemma_drain(s.release(other@));
            lemma_drain_holds_back(s.release(other@), id);
            if spawns_id(effects, id) {
                let i = choose|i: int|
                    0 <= i < effects.len() && (#[trigger] effects[i] matches Effect::Spawn(t) && t.id@ == id);
                assert(i >= 2);
                assert(s.release(other@).drain().1[i - 2].id@ == id);
            }
        },
    }
}

/// Draining does not start a held-back task, and keeps it held back.
proof fn lemma_drain_holds_back(s: ManagerState, id: Seq<char>)
    requires
        s.wf(),
        held_back(s, id),
        !s.running.contains(id),
    ensures
        forall|i: int| 0 <= i < s.drain().1.len() ==> (#[trigger] s.drain().1[i]).id@ != id,
        !spawns_id(crate::conversion::manager::spawns(s.drain().1), id),
        held_back(s.drain().0, id),
        !s.drain().0.running.contains(id),
{
    lemma_drain(s);
    let effects = crate::conversion::manager::spawns(s.drain().1);
    if spawns_id(effects, id) {
        let i = choose|i: int|
            0 <= i < effects.len() && (#[trigger] effects[i] matches Effect::Spawn(t) && t.id@ == id);
        assert(s.drain().1[i].id@ == id);
    }
}

/// An event that is no message about a held-back task does not start it,
/// and the task stays held back.
pub proof fn lemma_apply_holds_back(s: ManagerState, event: Event, id: Seq<char>)
    requires
        s.wf(),
        held_back(s, id),
        !s.running.contains(id),
        !reports_on(event, id),
    ensures
        !spawns_id(apply(s, event).1, id),
        held_back(apply(s, event).0, id),
        !apply(s, event).0.running.contains(id),
{
    match event {
        Event::Message(msg) => {
            lemma_step_holds_back(s, msg, id);
        },
        _ => {},
    }
}

/// A task that is cancelled while it waits is never started: whatever
/// happens afterwards, as long as no message about the task itself arrives,
/// no worker is asked for it.
pub proof fn lemma_cancelled_in_queue_never_starts(
    s: ManagerState,
    id: Seq<char>,
    events: Seq<Event>,
)
    requires
        s.wf(),
        s.queued_ids().contains(id),
        forall|i: int| 0 <= i < events.len() ==> !reports_on(#[trigger] events[i], id),
    ensures
        !spawns_id(run_effects(s.cancel(id), events), id),
        !run(s.cancel(id), events).running.contains(id),
{
    lemma_held_back_never_starts(s.cancel(id), id, events);
}

/// A held-back task that does not run is not started by events that are no
/// messages about it.
pub proof fn lemma_held_back_never_starts(s: ManagerState, id: Seq<char>, events: Seq<Event>)
    requires
        s.wf(),
        held_back(s, id),
        !s.running.contains(id),
        forall|i: int| 0 <= i < events.len() ==> !reports_on(#[trigger] events[i], id),
    ensures
        !spawns_id(run_effects(s, events), id),
        !run(s, events).running.contains(id),
    decreases events.len(),
{
    if events.len() > 0 {
        let next = apply(s, events[0]).0;
        let rest = events.drop_first();
        lemma_apply_wf(s, events[0]);
        lemma_apply_holds_back(s, events[0], id);
        assert forall|i: int| 0 <= i < rest.len() implies !reports_on(#[trigger] rest[i], id) by {
            assert(rest[i] == events[i + 1]);
        }
        lemma_held_back_never_starts(next, id, rest);
        let head = apply(s, events[0]).1;
        let tail = run_effects(next, rest);
        let all = run_effects(s, events);
        assert(all == head + tail);
        if spawns_id(all, id) {
            let i = choose|i: int|
                0 <= i < all.len() && (#[trigger] all[i] matches Effect::Spawn(t) && t.id@ == id);
            if i < head.len() {
                assert(head[i] == all[i]);
            } else {
                assert(tail[i - head.len()] == all[i]);
            }
        }
    }
}

/// A task that is cancelled after its worker has launched a process, but
/// before the manager has heard of that process, loses it: when the report
/// of the process arrives, the first thing asked for is its end, and the
/// task no longer runs nor has a process recorded.
pub proof fn lemma_cancel_before_started(s: ManagerState, id: String, pid: u32)
    requires
        s.wf(),
        s.running.contains(id@),
        pid > 0,
    ensures
        ({
            let (after, effects) = s.cancel(id@).step(ManagerMessage::TaskStarted(id, pid));
            &&& effects.len() > 0
            &&& effects[0] == Effect::Terminate(pid)
            &&& !after.running.contains(id@)
            &&& !after.active.contains_key(id@)
        }),
{
    let marked = s.cancel(id@);
    let freed = ManagerState {
        running: marked.running.remove(id@),
        active: marked.active.remove(id@),
        ..marked
    };
    assert(freed.wf());
    lemma_drain(freed);
    assert(!freed.queued_ids().contains(id@));
}

/// A cancellation mark stays until a message about its task arrives: no
/// message about another task removes the mark of a task that does not wait.
pub proof fn lemma_mark_survives(s: ManagerState, msg: ManagerMessage, id: Seq<char>)
    requires
        s.wf(),
        s.cancelled.contains(id),
        !s.queued_ids().contains(id),
        !concerns(msg, id),
    ensures
        s.step(msg).0.cancelled.contains(id),
        !s.step(msg).0.queued_ids().contains(id),
{
    match msg {
        ManagerMessage::Enqueue(task) => {
            if s.running.contains(task.id@) || s.queued_ids().contains(task.id@) {
            } else {
                lemma_push_wf(s, task);
                lemma_admitted_ids(s, task);
                lemma_drain(admitted(s, task));
            }
        },
        ManagerMessage::TaskStarted(other, _) => {
            if s.cancelled.contains(other@) {
                lemma_release_wf(s, other@);
                lemma_drain(ManagerState { cancelled: s.cancelled, ..s.release(other@) });
            }
        },
        ManagerMessage::TaskCompleted(other) => {
            lemma_release_wf(s, other@);
            lemma_drain(s.release(other@));
        },
        ManagerMessage::TaskError(other, _) => {
            lemma_release_wf(s, other@);
            lemma_drain(s.release(other@));
        },
    }
}

/// A cancellation mark of a task that does not wait stays, whatever happens,
/// until a message about the task arrives.
pub proof fn lemma_mark_outlasts(s: ManagerState, id: Seq<char>, events: Seq<Event>)
    requires
        s.wf(),
        s.cancelled.contains(id),
        !s.queued_ids().contains(id),
        forall|i: int| 0 <= i < events.len() ==> !reports_on(#[trigger] events[i], id),
    ensures
        run(s, events).wf(),
        run(s, events).cancelled.contains(id),
        !run(s, events).queued_ids().contains(id),
    decreases events.len(),
{
    if events.len() > 0 {
        let rest = events.drop_first();
        lemma_apply_wf(s, events[0]);
        match events[0] {
            Event::Message(msg) => {
                lemma_mark_survives(s, msg, id);
            },
            _ => {},
        }
        assert forall|i: int| 0 <= i < rest.len() implies !reports_on(#[trigger] rest[i], id) by {
            assert(rest[i] == events[i + 1]);
        }
        lemma_mark_outlasts(apply(s, events[0]).0, id, rest);
    }
}

/// No process survives the cancellation of its task. Where a running task
/// is cancelled before the manager has heard of its process, then, whatever
/// happens in between that is no message about the task, the report of the
/// process is answered by the request to end that very process, first of
/// all, and the task neither runs nor has a process recorded afterwards.
pub proof fn lemma_cancelled_process_is_terminated(
    s: ManagerState,
    id: String,
    events: Seq<Event>,
    pid: u32,
)
    requires
        s.wf(),
        s.running.contains(id@),
        pid > 0,
        forall|i: int| 0 <= i < events.len() ==> !reports_on(#[trigger] events[i], id@),
    ensures
        ({
            let reached = run(s.cancel(id@), events);
            let (after, effects) = reached.step(ManagerMessage::TaskStarted(id, pid));
            &&& effects.len() > 0
            &&& effects[0] == Effect::Terminate(pid)
            &&& !after.running.contains(id@)
            &&& !after.active.contains_key(id@)
        }),
{
    lemma_mark_outlasts(s.cancel(id@), id@, events);
    let reached = run(s.cancel(id@), events);
    let freed = ManagerState {
        running: reached.running.remove(id@),
        active: reached.active.remove(id@),
        ..reached
    };
    assert(freed.wf());
    lemma_drain(freed);
}

/// While every report of a process is about a task that runs, a process is
/// recorded only for tasks that run.
pub proof fn lemma_step_keeps_registry(s: ManagerState, msg: ManagerMessage)
    requires
        s.wf(),
        s.registry_consistent(),
        msg matches ManagerMessage::TaskStarted(id, _) ==> s.running.contains(id@),
    ensures
        s.step(msg).0.registry_consistent(),
{
    match msg {
        ManagerMessage::Enqueue(task) => {
            if s.running.contains(task.id@) || s.queued_ids().contains(task.id@) {
            } else {
                lemma_push_wf(s, task);
                lemma_drain(admitted(s, task));
            }
        },
        ManagerMessage::TaskStarted(other, _) => {
            if s.cancelled.contains(other@) {
                lemma_release_wf(s, other@);
                lemma_drain(ManagerState { cancelled: s.cancelled, ..s.release(other@) });
            }
        },
        ManagerMessage::TaskCompleted(other) => {
            lemma_release_wf(s, other@);
            lemma_drain(s.release(other@));
        },
        ManagerMessage::TaskError(other, _) => {
            lemma_release_wf(s, other@);
            lemma_drain(s.release(other@));
        },
    }
}

} // verus!
