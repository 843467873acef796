//! The manager: the queue of waiting tasks, the running tasks, their
//! processes, the cancellation marks and the limit on concurrency.
//!
//! The manager decides and remembers; it starts nothing itself. Each
//! message yields the actions that its surroundings are to carry out.

use std::collections::VecDeque;
use vstd::prelude::*;
use vstd::string::StringExecFns;
use crate::conversion::error::ConversionError;
use crate::conversion::types::{ConversionTask, ErrorPayload, LogPayload, DEFAULT_MAX_CONCURRENCY};
use crate::id_set::IdSet;
use crate::pid_map::PidMap;

verus! {

/// What a worker, or the client, tells the manager.
pub enum ManagerMessage {
    Enqueue(ConversionTask),
    TaskStarted(String, u32),
    TaskCompleted(String),
    TaskError(String, ConversionError),
}

/// What the manager asks its surroundings to do after it has taken a message.
pub enum ManagerAction {
    /// Run a worker for the enclosed job.
    Spawn(ConversionTask),
    /// End the process with this identifier.
    Terminate(u32),
    /// Show a line of text to the client.
    Log(LogPayload),
    /// Tell the client that a task has failed.
    Error(ErrorPayload),
}

/// A [`ManagerAction`] as a mathematical value.
pub enum Effect {
    Spawn(ConversionTask),
    Terminate(u32),
    Log { id: Seq<char>, line: Seq<char> },
    Error { id: Seq<char>, error: Seq<char> },
}

impl View for ManagerAction {
    type V = Effect;

    open spec fn view(&self) -> Effect {
        match self {
            ManagerAction::Spawn(task) => Effect::Spawn(*task),
            ManagerAction::Terminate(pid) => Effect::Terminate(*pid),
            ManagerAction::Log(p) => Effect::Log { id: p.id@, line: p.line@ },
            ManagerAction::Error(p) => Effect::Error { id: p.id@, error: p.error@ },
        }
    }
}

/// The effects that a list of actions stands for.
pub open spec fn effects_of(actions: Seq<ManagerAction>) -> Seq<Effect> {
    actions.map_values(|a: ManagerAction| a@)
}

/// The identifiers of a list of tasks, position by position.
pub open spec fn task_ids(tasks: Seq<ConversionTask>) -> Seq<Seq<char>> {
    tasks.map_values(|t: ConversionTask| t.id@)
}

/// One `Spawn` effect for each task, in order.
pub open spec fn spawns(tasks: Seq<ConversionTask>) -> Seq<Effect> {
    tasks.map_values(|t: ConversionTask| Effect::Spawn(t))
}

/// The name of the scratch directory of a task.
pub open spec fn temp_dir_name(id: Seq<char>) -> Seq<char> {
    "frame_upscale_"@ + id
}

/// The manager's bookkeeping as a mathematical value.
pub struct ManagerState {
    /// Tasks that wait for a free slot, oldest first.
    pub pending: Seq<ConversionTask>,
    /// Identifiers of the tasks that run.
    pub running: Set<Seq<char>>,
    /// For each task, the process that currently works for it.
    pub active: Map<Seq<char>, u32>,
    /// Identifiers marked for cancellation.
    pub cancelled: Set<Seq<char>>,
    /// How many tasks may run at once.
    pub limit: nat,
}

impl ManagerState {
    /// The state of a manager that has seen nothing yet.
    pub open spec fn initial() -> ManagerState {
        ManagerState {
            pending: Seq::empty(),
            running: Set::empty(),
            active: Map::empty(),
            cancelled: Set::empty(),
            limit: DEFAULT_MAX_CONCURRENCY as nat,
        }
    }

    /// The identifiers of the tasks that wait.
    pub open spec fn queued_ids(self) -> Set<Seq<char>> {
        task_ids(self.pending).to_set()
    }

    /// What holds of every state that the manager reaches: finitely many tasks
    /// run, no identifier waits twice, none both waits and runs, and the limit
    /// is positive.
    pub open spec fn wf(self) -> bool {
        &&& self.running.finite()
        &&& task_ids(self.pending).no_duplicates()
        &&& forall|id: Seq<char>| self.queued_ids().contains(id) ==> !self.running.contains(id)
        &&& self.limit >= 1
    }

    /// No more tasks run than the limit allows.
    pub open spec fn within_limit(self) -> bool {
        self.running.len() <= self.limit
    }

    /// A process is recorded only for tasks that run.
    pub open spec fn registry_consistent(self) -> bool {
        forall|id: Seq<char>| self.active.contains_key(id) ==> self.running.contains(id)
    }

    /// The state after the oldest waiting task, which was marked for
    /// cancellation, has been dropped together with its mark.
    pub open spec fn discard_front(self) -> ManagerState
        recommends
            self.pending.len() > 0,
    {
        ManagerState {
            pending: self.pending.drop_first(),
            cancelled: self.cancelled.remove(self.pending[0].id@),
            ..self
        }
    }

    /// The state after the oldest waiting task has started to run.
    pub open spec fn start_front(self) -> ManagerState
        recommends
            self.pending.len() > 0,
    {
        ManagerState {
            pending: self.pending.drop_first(),
            running: self.running.insert(self.pending[0].id@),
            ..self
        }
    }

    /// Starts waiting tasks while a slot is free: the state afterwards, and
    /// the tasks that were started, in the order in which they waited. A task
    /// that was marked for cancellation is dropped, and its mark with it.
    pub open spec fn drain(self) -> (ManagerState, Seq<ConversionTask>)
        decreases self.pending.len(),
    {
        if self.running.len() >= self.limit || self.pending.len() == 0 {
            (self, Seq::empty())
        } else if self.cancelled.contains(self.pending[0].id@) {
            self.discard_front().drain()
        } else {
            let (after, started) = self.start_front().drain();
            (after, seq![self.pending[0]] + started)
        }
    }

    /// The state without any trace of `id` among the running tasks, the
    /// recorded processes and the cancellation marks.
    pub open spec fn release(self, id: Seq<char>) -> ManagerState {
        ManagerState {
            running: self.running.remove(id),
            active: self.active.remove(id),
            cancelled: self.cancelled.remove(id),
            ..self
        }
    }

    /// The state after `msg` has been taken, and what is to be done.
    pub open spec fn step(self, msg: ManagerMessage) -> (ManagerState, Seq<Effect>) {
        match msg {
            ManagerMessage::Enqueue(task) => {
                let cleared = ManagerState { cancelled: self.cancelled.remove(task.id@), ..self };
                if self.running.contains(task.id@) || self.queued_ids().contains(task.id@) {
                    (cleared, Seq::empty())
                } else {
                    let (after, started) = ManagerState {
                        pending: self.pending.push(task),
                        ..cleared
                    }.drain();
                    (after, spawns(started))
                }
            },
            ManagerMessage::TaskStarted(id, pid) => {
                if self.cancelled.contains(id@) {
                    let (after, started) = ManagerState {
                        running: self.running.remove(id@),
                        active: self.active.remove(id@),
                        ..self
                    }.drain();
                    let kill = if pid > 0 {
                        seq![Effect::Terminate(pid)]
                    } else {
                        Seq::empty()
                    };
                    (after, kill + spawns(started))
                } else {
                    (ManagerState { active: self.active.insert(id@, pid), ..self }, Seq::empty())
                }
            },
            ManagerMessage::TaskCompleted(id) => {
                let (after, started) = self.release(id@).drain();
                (after, spawns(started))
            },
            ManagerMessage::TaskError(id, err) => {
                let (after, started) = self.release(id@).drain();
                let report = seq![
                    Effect::Log { id: id@, line: "[ERROR] "@ + err.message_view() },
                    Effect::Error { id: id@, error: err.message_view() },
                ];
                (after, report + spawns(started))
            },
        }
    }

    /// The state after the limit has been set to `limit`.
    pub open spec fn set_limit(self, limit: nat) -> ManagerState {
        ManagerState { limit, ..self }
    }

    /// The state after the client has asked to cancel `id`.
    pub open spec fn cancel(self, id: Seq<char>) -> ManagerState {
        ManagerState { cancelled: self.cancelled.insert(id), ..self }
    }

    /// The process that a pause, a resume or a cancellation of `id` acts on:
    /// the one recorded for it, unless none is recorded or the recorded
    /// identifier is zero, which stands for "not yet known".
    pub open spec fn controllable(self, id: Seq<char>) -> Option<u32> {
        if self.active.contains_key(id) && self.active[id] > 0 {
            Some(self.active[id])
        } else {
            None
        }
    }
}

/// What a cancellation asks its surroundings to do.
pub struct CancelPlan {
    /// The process to end, where one is known.
    pub terminate: Option<u32>,
    /// The scratch directory to remove from the system's temporary directory,
    /// if it exists.
    pub temp_dir: String,
}

/// The scheduler: the waiting tasks, the running ones, the processes that
/// work for them, the cancellation marks and the concurrency limit.
pub struct ConversionManager {
    queue: VecDeque<ConversionTask>,
    running: IdSet,
    active: PidMap,
    cancelled: IdSet,
    max_concurrency: usize,
}

impl View for ConversionManager {
    type V = ManagerState;

    closed spec fn view(&self) -> ManagerState {
        ManagerState {
            pending: self.queue@,
            running: self.running@,
            active: self.active@,
            cancelled: self.cancelled@,
            limit: self.max_concurrency as nat,
        }
    }
}

impl ConversionManager {
    /// The manager's own invariant; it implies that of its view.
    pub closed spec fn wf(&self) -> bool {
        &&& self.running.wf()
        &&& self.active.wf()
        &&& self.cancelled.wf()
        &&& self@.wf()
    }

    /// A well-formed manager has a well-formed view.
    pub proof fn lemma_wf_view(&self)
        requires
            self.wf(),
        ensures
            self@.wf(),
    {
    }

    /// A manager with nothing queued, nothing running and the default limit.
    pub fn new() -> (manager: Self)
        ensures
            manager.wf(),
            manager@ == ManagerState::initial(),
    {
        let manager = ConversionManager {
            queue: VecDeque::new(),
            running: IdSet::new(),
            active: PidMap::new(),
            cancelled: IdSet::new(),
            max_concurrency: DEFAULT_MAX_CONCURRENCY,
        };
        proof {
            assert(task_ids(manager.queue@) =~= Seq::<Seq<char>>::empty());
            assert(manager@.queued_ids() =~= Set::<Seq<char>>::empty());
        }
        manager
    }

    /// Whether a task with this identifier waits in the queue.
    fn is_queued(&self, id: &str) -> (found: bool)
        ensures
            found == self@.queued_ids().contains(id@),
    {
        let mut i: usize = 0;
        while i < self.queue.len()
            invariant
                i <= self.queue@.len(),
                forall|j: int| 0 <= j < i ==> self.queue@[j].id@ != id@,
            decreases self.queue@.len() - i,
        {
            if crate::text::str_eq(self.queue[i].id.as_str(), id) {
                proof {
                    let ids = task_ids(self.queue@);
                    assert(ids[i as int] == id@);
                    assert(ids.contains(id@));
                }
                return true;
            }
            i += 1;
        }
        proof {
            let ids = task_ids(self.queue@);
            if ids.to_set().contains(id@) {
                let j = choose|j: int| 0 <= j < ids.len() && ids[j] == id@;
                assert(self.queue@[j].id@ == id@);
            }
        }
        false
    }

    /// Starts waiting tasks while a slot is free, and adds one `Spawn` action
    /// for each to `actions`.
    fn drain_into(&mut self, actions: &mut Vec<ManagerAction>)
        requires
            old(self).wf(),
        ensures
            final(self).wf(),
            final(self)@ == old(self)@.drain().0,
            effects_of(final(actions)@) == effects_of(old(actions)@) + spawns(old(self)@.drain().1),
    {
        let ghost mut started: Seq<ConversionTask> = Seq::empty();
        loop
            invariant
                self.wf(),
                old(self)@.drain().0 == self@.drain().0,
                old(self)@.drain().1 == started + self@.drain().1,
                effects_of(actions@) == effects_of(old(actions)@) + spawns(started),
            decreases self.queue@.len(),
        {
            let ghost before = self@;
            if self.running.len() >= self.max_concurrency {
                assert(started + Seq::<ConversionTask>::empty() =~= started);
                return ;
            }
            match self.queue.pop_front() {
                None => {
                    assert(self@ == before);
                    assert(started + Seq::<ConversionTask>::empty() =~= started);
                    return ;
                },
                Some(task) => {
                    proof {
                        lemma_drop_first_wf(before);
                        assert(self.queue@ =~= before.pending.drop_first());
                    }
                    let marked = self.cancelled.remove(task.id.as_str());
                    if !marked {
                        let _ = self.running.insert(task.id.clone());
                        proof {
                            assert(self@.cancelled =~= before.cancelled);
                            assert(self@ == before.start_front());
                            assert(started.push(task) + self@.drain().1 =~= started + (seq![task]
                                + self@.drain().1));
                            assert(effects_of(actions@.push(ManagerAction::Spawn(task)))
                                =~= effects_of(actions@).push(Effect::Spawn(task)));
                            assert(spawns(started.push(task)) =~= spawns(started).push(
                                Effect::Spawn(task),
                            ));
                            assert(effects_of(actions@.push(ManagerAction::Spawn(task)))
                                =~= effects_of(old(actions)@) + spawns(started.push(task)));
                            started = started.push(task);
                        }
                        actions.push(ManagerAction::Spawn(task));
                    } else {
                        proof {
                            assert(self@ == before.discard_front());
                        }
                    }
                },
            }
        }
    }

    /// Starts waiting tasks while a slot is free: one `Spawn` action for each
    /// task that starts, in the order in which they waited.
    pub fn process_queue(&mut self) -> (actions: Vec<ManagerAction>)
        requires
            old(self).wf(),
        ensures
            final(self).wf(),
            final(self)@ == old(self)@.drain().0,
            effects_of(actions@) == spawns(old(self)@.drain().1),
    {
        let mut actions: Vec<ManagerAction> = Vec::new();
        self.drain_into(&mut actions);
        proof {
            assert(effects_of(Seq::<ManagerAction>::empty()) =~= Seq::<Effect>::empty());
            assert(Seq::<Effect>::empty() + spawns(old(self)@.drain().1) =~= spawns(
                old(self)@.drain().1,
            ));
        }
        actions
    }

    /// Takes one message: brings the bookkeeping up to date and returns what
    /// is to be done, in order.
    pub fn handle_message(&mut self, msg: ManagerMessage) -> (actions: Vec<ManagerAction>)
        requires
            old(self).wf(),
        ensures
            final(self).wf(),
            final(self)@ == old(self)@.step(msg).0,
            effects_of(actions@) == old(self)@.step(msg).1,
    {
        let mut actions: Vec<ManagerAction> = Vec::new();
        let ghost before = self@;
        proof {
            assert(effects_of(actions@) =~= Seq::<Effect>::empty());
        }
        match msg {
            ManagerMessage::Enqueue(task) => {
                let _ = self.cancelled.remove(task.id.as_str());
                if self.running.contains(task.id.as_str()) || self.is_queued(task.id.as_str()) {
                    return actions;
                }
                self.queue.push_back(task);
                proof {
                    lemma_push_wf(before, task);
                }
                self.drain_into(&mut actions);
                proof {
                    assert(Seq::<Effect>::empty() + before.step(msg).1 =~= before.step(msg).1);
                }
            },
            ManagerMessage::TaskStarted(id, pid) => {
                if self.cancelled.contains(id.as_str()) {
                    if pid > 0 {
                        actions.push(ManagerAction::Terminate(pid));
                        proof {
                            assert(effects_of(actions@) =~= seq![Effect::Terminate(pid)]);
                        }
                    }
                    let _ = self.running.remove(id.as_str());
                    self.active.remove(id.as_str());
                    proof {
                        lemma_release_wf(before, id@);
                    }
                    self.drain_into(&mut actions);
                } else {
                    self.active.insert(id, pid);
                }
            },
            ManagerMessage::TaskCompleted(id) => {
                self.forget(id.as_str());
                self.drain_into(&mut actions);
                proof {
                    assert(Seq::<Effect>::empty() + before.step(msg).1 =~= before.step(msg).1);
                }
            },
            ManagerMessage::TaskError(id, err) => {
                let text = err.message();
                let line = String::from_str("[ERROR] ").concat(text.as_str());
                actions.push(ManagerAction::Log(LogPayload { id: id.clone(), line }));
                actions.push(ManagerAction::Error(ErrorPayload { id: id.clone(), error: text }));
                proof {
                    assert(effects_of(actions@) =~= seq![
                        Effect::Log { id: id@, line: "[ERROR] "@ + err.message_view() },
                        Effect::Error { id: id@, error: err.message_view() },
                    ]);
                }
                self.forget(id.as_str());
                self.drain_into(&mut actions);
            },
        }
        actions
    }

    /// Removes every trace of `id` from the running tasks, the recorded
    /// processes and the cancellation marks.
    fn forget(&mut self, id: &str)
        requires
            old(self).wf(),
        ensures
            final(self).wf(),
            final(self)@ == old(self)@.release(id@),
    {
        let ghost before = self@;
        let _ = self.running.remove(id);
        let _ = self.cancelled.remove(id);
        self.active.remove(id);
        proof {
            lemma_release_wf(before, id@);
        }
    }

    /// How many tasks run.
    pub fn running_count(&self) -> (count: usize)
        requires
            self.wf(),
        ensures
            count == self@.running.len(),
    {
        self.running.len()
    }

    /// How many tasks wait.
    pub fn queued_count(&self) -> (count: usize)
        ensures
            count == self@.pending.len(),
    {
        self.queue.len()
    }

    /// Whether a task with this identifier runs.
    pub fn is_running(&self, id: &str) -> (running: bool)
        ensures
            running == self@.running.contains(id@),
    {
        self.running.contains(id)
    }

    /// Whether a task with this identifier waits.
    pub fn is_waiting(&self, id: &str) -> (waiting: bool)
        ensures
            waiting == self@.queued_ids().contains(id@),
    {
        self.is_queued(id)
    }

    /// Whether this identifier is marked for cancellation.
    pub fn is_cancelled(&self, id: &str) -> (cancelled: bool)
        ensures
            cancelled == self@.cancelled.contains(id@),
    {
        self.cancelled.contains(id)
    }

    /// The process that is recorded for a task, if one is.
    pub fn active_process(&self, id: &str) -> (pid: Option<u32>)
        requires
            self.wf(),
        ensures
            pid == if self@.active.contains_key(id@) {
                Some(self@.active[id@])
            } else {
                None
            },
    {
        self.active.get(id)
    }

    /// The limit on the number of tasks that run at once.
    pub fn current_max_concurrency(&self) -> (limit: usize)
        ensures
            limit == self@.limit,
    {
        self.max_concurrency
    }

    /// Sets the limit on the number of tasks that run at once. Zero is
    /// rejected and leaves the limit as it was; tasks that already run are
    /// not touched either way.
    pub fn update_max_concurrency(&mut self, value: usize) -> (result: Result<(), ConversionError>)
        requires
            old(self).wf(),
        ensures
            final(self).wf(),
            value == 0 ==> final(self)@ == old(self)@,
            value == 0 ==> (result matches Err(ConversionError::InvalidInput(m)) && m@
                == "Max concurrency must be at least 1"@),
            value > 0 ==> (result is Ok),
            value > 0 ==> final(self)@ == old(self)@.set_limit(value as nat),
    {
        if value == 0 {
            return Err(
                ConversionError::InvalidInput(
                    String::from_str("Max concurrency must be at least 1"),
                ),
            );
        }
        self.max_concurrency = value;
        Ok(())
    }

    /// The process to suspend for a pause of `id`, or `TaskNotFound` where
    /// none is known.
    pub fn pause_task(&self, id: &str) -> (result: Result<u32, ConversionError>)
        requires
            self.wf(),
        ensures
            match self@.controllable(id@) {
                Some(pid) => result == Ok::<u32, ConversionError>(pid),
                None => (result matches Err(ConversionError::TaskNotFound(m)) && m@ == id@),
            },
    {
        self.find_process(id)
    }

    /// The process to continue for a resume of `id`, or `TaskNotFound` where
    /// none is known.
    pub fn resume_task(&self, id: &str) -> (result: Result<u32, ConversionError>)
        requires
            self.wf(),
        ensures
            match self@.controllable(id@) {
                Some(pid) => result == Ok::<u32, ConversionError>(pid),
                None => (result matches Err(ConversionError::TaskNotFound(m)) && m@ == id@),
            },
    {
        self.find_process(id)
    }

    fn find_process(&self, id: &str) -> (result: Result<u32, ConversionError>)
        requires
            self.wf(),
        ensures
            match self@.controllable(id@) {
                Some(pid) => result == Ok::<u32, ConversionError>(pid),
                None => (result matches Err(ConversionError::TaskNotFound(m)) && m@ == id@),
            },
    {
        match self.active.get(id) {
            Some(pid) => {
                if pid == 0 {
                    Err(ConversionError::TaskNotFound(String::from_str(id)))
                } else {
                    Ok(pid)
                }
            },
            None => Err(ConversionError::TaskNotFound(String::from_str(id))),
        }
    }

    /// Marks `id` as cancelled and says what is to be done: which process to
    /// end, if one is known, and which scratch directory to remove. What the
    /// cancellation comes to in the end is for [`cancel_outcome`] to say.
    pub fn cancel_task(&mut self, id: &str) -> (plan: CancelPlan)
        requires
            old(self).wf(),
        ensures
            final(self).wf(),
            final(self)@ == old(self)@.cancel(id@),
            plan.terminate == old(self)@.controllable(id@),
            plan.temp_dir@ == temp_dir_name(id@),
    {
        let _ = self.cancelled.insert(String::from_str(id));
        let terminate = match self.active.get(id) {
            Some(pid) => {
                if pid > 0 {
                    Some(pid)
                } else {
                    None
                }
            },
            None => None,
        };
        CancelPlan { terminate, temp_dir: String::from_str("frame_upscale_").concat(id) }
    }
}

/// What a cancellation comes to, once its plan has been carried out:
/// `termination` is how the ending of the process went, where the plan named
/// one. Where no process was known for the task, the task was not found; the
/// mark is set and the scratch directory is removed all the same. Where the
/// process could not be ended, that failure is the result. Else the
/// cancellation has succeeded.
pub fn cancel_outcome(
    id: &str,
    plan: &CancelPlan,
    termination: Option<Result<(), ConversionError>>,
) -> (result: Result<(), ConversionError>)
    ensures
        match (plan.terminate, termination) {
            (None, _) => (result matches Err(ConversionError::TaskNotFound(m)) && m@ == id@),
            (Some(_), Some(Err(e))) => result == Err::<(), ConversionError>(e),
            (Some(_), _) => result is Ok,
        },
{
    match plan.terminate {
        None => Err(ConversionError::TaskNotFound(String::from_str(id))),
        Some(_) => match termination {
            Some(Err(e)) => Err(e),
            _ => Ok(()),
        },
    }
}

/// Taking the oldest task out of the queue keeps the state well-formed,
/// whether the task is dropped or starts to run.
pub proof fn lemma_drop_first_wf(s: ManagerState)
    requires
        s.wf(),
        s.pending.len() > 0,
    ensures
        s.discard_front().wf(),
        s.start_front().wf(),
        !task_ids(s.pending.drop_first()).contains(s.pending[0].id@),
        forall|id: Seq<char>| #[trigger]
            task_ids(s.pending.drop_first()).contains(id) ==> task_ids(s.pending).contains(id),
{
    let ids = task_ids(s.pending);
    let rest = task_ids(s.pending.drop_first());
    assert(rest =~= ids.drop_first());
    assert forall|id: Seq<char>| #[trigger] rest.contains(id) implies ids.contains(id) by {
        let j = choose|j: int| 0 <= j < rest.len() && rest[j] == id;
        assert(ids[j + 1] == id);
    }
    assert(ids[0] == s.pending[0].id@);
    if rest.contains(s.pending[0].id@) {
        let j = choose|j: int| 0 <= j < rest.len() && rest[j] == s.pending[0].id@;
        assert(ids[j + 1] == ids[0]);
    }
    assert(rest.no_duplicates());
}

/// Forgetting a task keeps the state well-formed.
pub proof fn lemma_release_wf(s: ManagerState, id: Seq<char>)
    requires
        s.wf(),
    ensures
        s.release(id).wf(),
        (ManagerState { cancelled: s.cancelled, ..s.release(id) }).wf(),
{
}

/// A task whose identifier neither waits nor runs may join the queue.
pub proof fn lemma_push_wf(s: ManagerState, task: ConversionTask)
    requires
        s.wf(),
        !s.running.contains(task.id@),
        !s.queued_ids().contains(task.id@),
    ensures
        (ManagerState {
            pending: s.pending.push(task),
            cancelled: s.cancelled.remove(task.id@),
            ..s
        }).wf(),
{
    let ids = task_ids(s.pending);
    let more = task_ids(s.pending.push(task));
    assert(more =~= ids.push(task.id@));
    assert forall|id: Seq<char>| more.to_set().contains(id) implies !s.running.contains(id) by {
        let j = choose|j: int| 0 <= j < more.len() && more[j] == id;
        if j < ids.len() {
            assert(ids[j] == id);
            assert(ids.contains(id));
        }
    }
    assert(!ids.contains(task.id@));
    assert(more.no_duplicates());
}

} // verus!
