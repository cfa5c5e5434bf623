use vstd::prelude::*;

verus! {

/// Marker for the task state machine.
#[derive(Clone, Copy, Debug, Default)]
pub struct TaskMachine;

/// The states of a task's state machine; `_Root` is the machine's root and never a leaf.
#[derive(Clone, Copy, Debug, PartialEq, Eq, Hash, Structural)]
pub enum TaskState {
    _Root,
    Pending,
    Running,
    Completed,
    Stopped,
    Failed,
}

/// The events a task's state machine reacts to.
#[derive(Clone, Copy, Debug, PartialEq, Eq, Structural)]
pub enum TaskEvent {
    Reset,
    Activate,
    Execute,
    Complete,
    Stop,
    TimeOut,
}

/// An event to dispatch to the state machine of a task entity.
#[derive(Clone, Copy, Debug, PartialEq, Eq, Structural)]
pub struct TaskDispatch {
    pub task: u64,
    pub event: TaskEvent,
}

/// An entity event that a task state triggers when it is entered.
#[derive(Clone, Copy, Debug, PartialEq, Eq, Structural)]
pub enum TaskTrigger {
    /// Tells the task's own logic to begin.
    ExecuteTask(u64),
    /// The task has completed.
    TaskCompleted(u64),
    /// The task has been stopped.
    TaskStopped(u64),
    /// Tells the task's owner that one of its subtasks completed.
    NotifyTaskCompletion(u64),
}

/// What entering a task state does: entity events to trigger, then events for other tasks.
pub struct TaskStateActions {
    pub triggers: Vec<TaskTrigger>,
    pub dispatches: Vec<TaskDispatch>,
}

pub open spec fn task_state_id_spec(s: TaskState) -> u16 {
    match s {
        TaskState::_Root => 0,
        TaskState::Pending => 1,
        TaskState::Running => 2,
        TaskState::Completed => 3,
        TaskState::Stopped => 4,
        TaskState::Failed => 5,
    }
}

/// The transitions of the task machine: the state that `event` leads to from `state`, if any.
pub open spec fn task_transition_spec(state: TaskState, event: TaskEvent) -> Option<TaskState> {
    match (state, event) {
        (TaskState::Pending, TaskEvent::Activate) => Some(TaskState::Running),
        (TaskState::Running, TaskEvent::Complete) => Some(TaskState::Completed),
        (TaskState::Running, TaskEvent::Stop) => Some(TaskState::Stopped),
        (TaskState::Running, TaskEvent::TimeOut) => Some(TaskState::Stopped),
        (TaskState::Completed, TaskEvent::Reset) => Some(TaskState::Pending),
        (TaskState::Stopped, TaskEvent::Reset) => Some(TaskState::Pending),
        (TaskState::Failed, TaskEvent::Reset) => Some(TaskState::Pending),
        _ => None,
    }
}

/// One `Activate` dispatch for each subtask, in order.
pub open spec fn activate_all(subtasks: Seq<u64>) -> Seq<TaskDispatch> {
    subtasks.map_values(|t: u64| TaskDispatch { task: t, event: TaskEvent::Activate })
}

/// The triggers that entering `state` raises for `task_id`.
pub open spec fn task_enter_triggers(state: TaskState, task_id: u64) -> Seq<TaskTrigger> {
    match state {
        TaskState::Running => seq![TaskTrigger::ExecuteTask(task_id)],
        TaskState::Completed => seq![
            TaskTrigger::TaskCompleted(task_id),
            TaskTrigger::NotifyTaskCompletion(task_id),
        ],
        TaskState::Stopped => seq![TaskTrigger::TaskStopped(task_id)],
        _ => seq![],
    }
}

/// The dispatches that entering `state` sends to the task's subtasks (`None`: it has none).
pub open spec fn task_enter_dispatches(state: TaskState, subtasks: Option<Seq<u64>>) -> Seq<
    TaskDispatch,
> {
    match (state, subtasks) {
        (TaskState::Running, Some(s)) => activate_all(s),
        _ => seq![],
    }
}

impl TaskState {
    /// The state's identifier in the machine definition.
    pub fn state_id(self) -> (r: u16)
        ensures
            r == task_state_id_spec(self),
    {
        match self {
            TaskState::_Root => 0,
            TaskState::Pending => 1,
            TaskState::Running => 2,
            TaskState::Completed => 3,
            TaskState::Stopped => 4,
            TaskState::Failed => 5,
        }
    }
}

impl TaskMachine {
    /// The machine's initial state.
    pub fn initial_state() -> (r: TaskState)
        ensures
            r == TaskState::Pending,
    {
        TaskState::Pending
    }

    /// Looks up the transition that `event` takes from `state`.
    pub fn transition(state: TaskState, event: TaskEvent) -> (r: Option<TaskState>)
        ensures
            r == task_transition_spec(state, event),
    {
        match (state, event) {
            (TaskState::Pending, TaskEvent::Activate) => Some(TaskState::Running),
            (TaskState::Running, TaskEvent::Complete) => Some(TaskState::Completed),
            (TaskState::Running, TaskEvent::Stop) => Some(TaskState::Stopped),
            (TaskState::Running, TaskEvent::TimeOut) => Some(TaskState::Stopped),
            (TaskState::Completed, TaskEvent::Reset) => Some(TaskState::Pending),
            (TaskState::Stopped, TaskEvent::Reset) => Some(TaskState::Pending),
            (TaskState::Failed, TaskEvent::Reset) => Some(TaskState::Pending),
            _ => None,
        }
    }

    /// What entering `state` does for task `task_id`, whose subtasks are `subtasks` (`None` when
    /// the task has no subtask list). A running task starts its own logic and activates every
    /// subtask; a completed one reports completion to itself and to its owner; a stopped one
    /// reports that it stopped.
    pub fn on_enter(state: TaskState, task_id: u64, subtasks: Option<&Vec<u64>>) -> (r:
        TaskStateActions)
        ensures
            r.triggers@ == task_enter_triggers(state, task_id),
            r.dispatches@ == task_enter_dispatches(
                state,
                match subtasks {
                    Some(s) => Some(s@),
                    None => None,
                },
            ),
    {
        let mut triggers: Vec<TaskTrigger> = Vec::new();
        let mut dispatches: Vec<TaskDispatch> = Vec::new();
        match state {
            TaskState::Running => {
                triggers.push(TaskTrigger::ExecuteTask(task_id));
                if let Some(subs) = subtasks {
                    dispatches = activate_each(subs);
                }
            },
            TaskState::Completed => {
                triggers.push(TaskTrigger::TaskCompleted(task_id));
                triggers.push(TaskTrigger::NotifyTaskCompletion(task_id));
            },
            TaskState::Stopped => {
                triggers.push(TaskTrigger::TaskStopped(task_id));
            },
            _ => {},
        }
        proof {
            assert(triggers@ =~= task_enter_triggers(state, task_id));
        }
        TaskStateActions { triggers, dispatches }
    }
}

/// One `Activate` dispatch per task of `tasks`, in order.
pub fn activate_each(tasks: &Vec<u64>) -> (r: Vec<TaskDispatch>)
    ensures
        r@ == activate_all(tasks@),
{
    dispatch_each(tasks, TaskEvent::Activate)
}

/// One dispatch of `event` per task of `tasks`, in order.
pub fn dispatch_each(tasks: &Vec<u64>, event: TaskEvent) -> (r: Vec<TaskDispatch>)
    ensures
        r@ == tasks@.map_values(|t: u64| TaskDispatch { task: t, event }),
{
    let mut r: Vec<TaskDispatch> = Vec::new();
    let mut i: usize = 0;
    while i < tasks.len()
        invariant
            i <= tasks.len(),
            r@ =~= tasks@.subrange(0, i as int).map_values(|t: u64| TaskDispatch { task: t, event }),
        decreases tasks.len() - i,
    {
        r.push(TaskDispatch { task: tasks[i], event });
        i += 1;
    }
    proof {
        assert(tasks@.subrange(0, tasks@.len() as int) =~= tasks@);
    }
    r
}

/// A finished task, whether it completed, stopped or failed, goes back to pending when it is
/// reset; a pending or running task does not react to a reset.
pub proof fn lemma_reset_returns_to_pending(state: TaskState)
    ensures
        (state == TaskState::Completed || state == TaskState::Stopped || state == TaskState::Failed)
            ==> task_transition_spec(state, TaskEvent::Reset) == Some(TaskState::Pending),
        (state == TaskState::Pending || state == TaskState::Running) ==> task_transition_spec(
            state,
            TaskEvent::Reset,
        ) is None,
{
}

/// A task completes or stops only from the running state, and starts running only from pending.
pub proof fn lemma_finish_only_from_running(state: TaskState, event: TaskEvent)
    ensures
        task_transition_spec(state, event) == Some(TaskState::Completed) ==> state
            == TaskState::Running && event == TaskEvent::Complete,
        task_transition_spec(state, event) == Some(TaskState::Stopped) ==> state
            == TaskState::Running && (event == TaskEvent::Stop || event == TaskEvent::TimeOut),
        task_transition_spec(state, event) == Some(TaskState::Running) ==> state
            == TaskState::Pending && event == TaskEvent::Activate,
{
}

} // verus!
