//! The manager of the spatial conversions, which run one at a time.

use std::collections::VecDeque;
use vstd::prelude::*;
use vstd::string::StringExecFns;
use crate::id_set::IdSet;
use crate::pid_map::PidMap;
use crate::spatial::error::SpatialError;
use crate::spatial::types::{SpatialErrorPayload, SpatialLogPayload, SpatialTask};
use crate::text::str_eq;

verus! {

/// What a worker, or the client, tells the manager.
pub enum SpatialMessage {
    Enqueue(SpatialTask),
    TaskStarted(String, u32),
    TaskCompleted(String),
    TaskError(String, SpatialError),
}

/// What the manager asks its surroundings to do after it has taken a message.
pub enum SpatialAction {
    /// Run a worker for the enclosed job.
    Spawn(SpatialTask),
    /// End the process with this identifier.
    Terminate(u32),
    /// Show a line of text to the client.
    Log(SpatialLogPayload),
    /// Tell the client that a job has failed.
    Error(SpatialErrorPayload),
}

/// A [`SpatialAction`] as a mathematical value.
pub enum SpatialEffect {
    Spawn(SpatialTask),
    Terminate(u32),
    Log { id: Seq<char>, line: Seq<char> },
    Error { id: Seq<char>, error: Seq<char> },
}

impl View for SpatialAction {
    type V = SpatialEffect;

    open spec fn view(&self) -> SpatialEffect {
        match self {
            SpatialAction::Spawn(task) => SpatialEffect::Spawn(*task),
            SpatialAction::Terminate(pid) => SpatialEffect::Terminate(*pid),
            SpatialAction::Log(p) => SpatialEffect::Log { id: p.id@, line: p.line@ },
            SpatialAction::Error(p) => SpatialEffect::Error { id: p.id@, error: p.error@ },
        }
    }
}

/// The effects that a list of actions stands for.
pub open spec fn spatial_effects(actions: Seq<SpatialAction>) -> Seq<SpatialEffect> {
    actions.map_values(|a: SpatialAction| a@)
}

/// The identifiers of a list of jobs, position by position.
pub open spec fn spatial_ids(tasks: Seq<SpatialTask>) -> Seq<Seq<char>> {
    tasks.map_values(|t: SpatialTask| t.id@)
}

/// The manager's bookkeeping as a mathematical value. One job runs at a
/// time, as the work is bound to a single accelerator.
pub struct SpatialState {
    /// Jobs that wait, oldest first.
    pub pending: Seq<SpatialTask>,
    /// The identifier of the job that runs, if one does.
    pub running: Option<Seq<char>>,
    /// For each job, the process that works for it.
    pub active: Map<Seq<char>, u32>,
    /// Identifiers marked for cancellation.
    pub cancelled: Set<Seq<char>>,
}

impl SpatialState {
    /// The state of a manager that has seen nothing yet.
    pub open spec fn initial() -> SpatialState {
        SpatialState {
            pending: Seq::empty(),
            running: None,
            active: Map::empty(),
            cancelled: Set::empty(),
        }
    }

    /// The identifiers of the jobs that wait.
    pub open spec fn queued_ids(self) -> Set<Seq<char>> {
        spatial_ids(self.pending).to_set()
    }

    /// The first waiting job without a cancellation mark starts, and those
    /// in front of it go, each with its mark: the state afterwards, and the
    /// job that started, if one did.
    pub open spec fn start_next(self) -> (SpatialState, Option<SpatialTask>)
        decreases self.pending.len(),
    {
        if self.pending.len() == 0 {
            (self, None)
        } else {
            let task = self.pending[0];
            let rest = self.pending.drop_first();
            if self.cancelled.contains(task.id@) {
                SpatialState {
                    pending: rest,
                    cancelled: self.cancelled.remove(task.id@),
                    ..self
                }.start_next()
            } else {
                (SpatialState { pending: rest, running: Some(task.id@), ..self }, Some(task))
            }
        }
    }

    /// Starts a waiting job unless one runs.
    pub open spec fn drain(self) -> (SpatialState, Option<SpatialTask>) {
        if self.running is Some {
            (self, None)
        } else {
            self.start_next()
        }
    }

    /// The effect of starting `task`, if there is one.
    pub open spec fn spawn_of(task: Option<SpatialTask>) -> Seq<SpatialEffect> {
        match task {
            Some(t) => seq![SpatialEffect::Spawn(t)],
            None => Seq::empty(),
        }
    }

    /// The state in which nothing runs and no trace of `id` is left among
    /// the recorded processes and the cancellation marks.
    pub open spec fn release(self, id: Seq<char>) -> SpatialState {
        SpatialState {
            running: None,
            active: self.active.remove(id),
            cancelled: self.cancelled.remove(id),
            ..self
        }
    }

    /// The state after `msg` has been taken, and what is to be done.
    pub open spec fn step(self, msg: SpatialMessage) -> (SpatialState, Seq<SpatialEffect>) {
        match msg {
            SpatialMessage::Enqueue(task) => {
                let cleared = SpatialState { cancelled: self.cancelled.remove(task.id@), ..self };
                if self.running == Some(task.id@) || self.queued_ids().contains(task.id@) {
                    (cleared, Seq::empty())
                } else {
                    let (after, started) = SpatialState {
                        pending: self.pending.push(task),
                        ..cleared
                    }.drain();
                    (after, Self::spawn_of(started))
                }
            },
            SpatialMessage::TaskStarted(id, pid) => {
                if self.cancelled.contains(id@) {
                    let (after, started) = SpatialState {
                        running: None,
                        active: self.active.remove(id@),
                        ..self
                    }.drain();
                    let kill = if pid > 0 {
                        seq![SpatialEffect::Terminate(pid)]
                    } else {
                        Seq::empty()
                    };
                    (after, kill + Self::spawn_of(started))
                } else {
                    (SpatialState { active: self.active.insert(id@, pid), ..self }, Seq::empty())
                }
            },
            SpatialMessage::TaskCompleted(id) => {
                let (after, started) = self.release(id@).drain();
                (after, Self::spawn_of(started))
            },
            SpatialMessage::TaskError(id, err) => {
                let (after, started) = self.release(id@).drain();
                let report = seq![
                    SpatialEffect::Log { id: id@, line: "[ERROR] "@ + err.message_view() },
                    SpatialEffect::Error { id: id@, error: err.message_view() },
                ];
                (after, report + Self::spawn_of(started))
            },
        }
    }

    /// The state after the client has asked to cancel `id`.
    pub open spec fn cancel(self, id: Seq<char>) -> SpatialState {
        SpatialState { cancelled: self.cancelled.insert(id), ..self }
    }

    /// The process that a cancellation of `id` ends: the one recorded for
    /// it, unless none is recorded or the recorded identifier is zero.
    pub open spec fn controllable(self, id: Seq<char>) -> Option<u32> {
        if self.active.contains_key(id) && self.active[id] > 0 {
            Some(self.active[id])
        } else {
            None
        }
    }
}

/// The scheduler of the spatial conversions.
pub struct SpatialManager {
    queue: VecDeque<SpatialTask>,
    running: Option<String>,
    active: PidMap,
    cancelled: IdSet,
}

impl View for SpatialManager {
    type V = SpatialState;

    closed spec fn view(&self) -> SpatialState {
        SpatialState {
            pending: self.queue@,
            running: match self.running {
                Some(id) => Some(id@),
                None => None,
            },
            active: self.active@,
            cancelled: self.cancelled@,
        }
    }
}

impl SpatialManager {
    /// The manager's own invariant.
    pub closed spec fn wf(&self) -> bool {
        self.active.wf() && self.cancelled.wf()
    }

    /// A manager with nothing queued and nothing running.
    pub fn new() -> (manager: Self)
        ensures
            manager.wf(),
            manager@ == SpatialState::initial(),
    {
        SpatialManager {
            queue: VecDeque::new(),
            running: None,
            active: PidMap::new(),
            cancelled: IdSet::new(),
        }
    }

    fn is_queued(&self, id: &str) -> (found: bool)
        ensures
            found == self@.queued_ids().contains(id@),
    {
        let mut i: usize = 0;
        while i < self.queue.len()
            invariant
                i <= self.queue@.len(),
                forall|j: int| 0 <= j < i ==> self.queue@[j].id@ != id@,
            decreases self.queue@.len() - i,
        {
            if str_eq(self.queue[i].id.as_str(), id) {
                proof {
                    let ids = spatial_ids(self.queue@);
                    assert(ids[i as int] == id@);
                    assert(ids.contains(id@));
                }
                return true;
            }
            i += 1;
        }
        proof {
            let ids = spatial_ids(self.queue@);
            if ids.to_set().contains(id@) {
                let j = choose|j: int| 0 <= j < ids.len() && ids[j] == id@;
                assert(self.queue@[j].id@ == id@);
            }
        }
        false
    }

    fn is_running(&self, id: &str) -> (yes: bool)
        ensures
            yes == (self@.running == Some(id@)),
    {
        match &self.running {
            Some(current) => str_eq(current.as_str(), id),
            None => false,
        }
    }

    fn drain_into(&mut self, actions: &mut Vec<SpatialAction>)
        requires
            old(self).wf(),
        ensures
            final(self).wf(),
            final(self)@ == old(self)@.drain().0,
            spatial_effects(final(actions)@) == spatial_effects(old(actions)@) + SpatialState::spawn_of(
                old(self)@.drain().1,
            ),
    {
        let ghost before_actions = spatial_effects(actions@);
        assert(before_actions + Seq::<SpatialEffect>::empty() =~= before_actions);
        if self.running.is_some() {
            return ;
        }
        loop
            invariant
                self.wf(),
                self@.running is None,
                old(self)@.drain() == self@.start_next(),
                actions@ == old(actions)@,
                before_actions == spatial_effects(old(actions)@),
            decreases self.queue@.len(),
        {
            let ghost before = self@;
            match self.queue.pop_front() {
                None => {
                    assert(self@ == before);
                    return ;
                },
                Some(task) => {
                    assert(self.queue@ =~= before.pending.drop_first());
                    let marked = self.cancelled.remove(task.id.as_str());
                    if !marked {
                        assert(self@.cancelled =~= before.cancelled);
                        self.running = Some(task.id.clone());
                        actions.push(SpatialAction::Spawn(task));
                        assert(spatial_effects(actions@) =~= before_actions + seq![
                            SpatialEffect::Spawn(task),
                        ]);
                        return ;
                    }
                },
            }
        }
    }

    fn forget(&mut self, id: &str)
        requires
            old(self).wf(),
        ensures
            final(self).wf(),
            final(self)@ == old(self)@.release(id@),
    {
        self.running = None;
        let _ = self.cancelled.remove(id);
        self.active.remove(id);
    }

    /// Takes one message: brings the bookkeeping up to date and returns what
    /// is to be done, in order.
    pub fn handle_message(&mut self, msg: SpatialMessage) -> (actions: Vec<SpatialAction>)
        requires
            old(self).wf(),
        ensures
            final(self).wf(),
            final(self)@ == old(self)@.step(msg).0,
            spatial_effects(actions@) == old(self)@.step(msg).1,
    {
        let mut actions: Vec<SpatialAction> = Vec::new();
        let ghost before = self@;
        assert(spatial_effects(actions@) =~= Seq::<SpatialEffect>::empty());
        match msg {
            SpatialMessage::Enqueue(task) => {
                let _ = self.cancelled.remove(task.id.as_str());
                if self.is_running(task.id.as_str()) || self.is_queued(task.id.as_str()) {
                    return actions;
                }
                self.queue.push_back(task);
                self.drain_into(&mut actions);
                assert(Seq::<SpatialEffect>::empty() + before.step(msg).1 =~= before.step(msg).1);
            },
            SpatialMessage::TaskStarted(id, pid) => {
                if self.cancelled.contains(id.as_str()) {
                    if pid > 0 {
                        actions.push(SpatialAction::Terminate(pid));
                        assert(spatial_effects(actions@) =~= seq![SpatialEffect::Terminate(pid)]);
                    }
                    self.running = None;
                    self.active.remove(id.as_str());
                    self.drain_into(&mut actions);
                } else {
                    self.active.insert(id, pid);
                }
            },
            SpatialMessage::TaskCompleted(id) => {
                self.forget(id.as_str());
                self.drain_into(&mut actions);
                assert(Seq::<SpatialEffect>::empty() + before.step(msg).1 =~= before.step(msg).1);
            },
            SpatialMessage::TaskError(id, err) => {
                let text = err.message();
                let line = String::from_str("[ERROR] ").concat(text.as_str());
                actions.push(SpatialAction::Log(SpatialLogPayload { id: id.clone(), line }));
                actions.push(SpatialAction::Error(SpatialErrorPayload { id: id.clone(), error: text }));
                assert(spatial_effects(actions@) =~= seq![
                    SpatialEffect::Log { id: id@, line: "[ERROR] "@ + err.message_view() },
                    SpatialEffect::Error { id: id@, error: err.message_view() },
                ]);
                self.forget(id.as_str());
                self.drain_into(&mut actions);
            },
        }
        actions
    }

    /// The identifier of the job that runs, if one does.
    pub fn running_id(&self) -> (id: Option<&String>)
        ensures
            match id {
                Some(text) => self@.running == Some(text@),
                None => self@.running is None,
            },
    {
        match &self.running {
            Some(id) => Some(id),
            None => None,
        }
    }

    /// How many jobs wait.
    pub fn queued_count(&self) -> (count: usize)
        ensures
            count == self@.pending.len(),
    {
        self.queue.len()
    }

    /// Marks `id` as cancelled and returns the process to end, if one is
    /// known for it.
    pub fn cancel_task(&mut self, id: &str) -> (terminate: Option<u32>)
        requires
            old(self).wf(),
        ensures
            final(self).wf(),
            final(self)@ == old(self)@.cancel(id@),
            terminate == old(self)@.controllable(id@),
    {
        let _ = self.cancelled.insert(String::from_str(id));
        match self.active.get(id) {
            Some(pid) => {
                if pid > 0 {
                    Some(pid)
                } else {
                    None
                }
            },
            None => None,
        }
    }
}

/// A job that runs keeps the others waiting: while one runs, no message
/// about another job starts a worker.
pub proof fn lemma_one_at_a_time(s: SpatialState, msg: SpatialMessage)
    requires
        s.running is Some,
        msg is Enqueue || (msg matches SpatialMessage::TaskStarted(id, _) && !s.cancelled.contains(id@)),
    ensures
        forall|i: int| 0 <= i < s.step(msg).1.len() ==> !(#[trigger] s.step(msg).1[i] is Spawn),
        s.step(msg).0.running == s.running,
{
}

} // verus!
