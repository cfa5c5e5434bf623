use vitality::ability_state::{AbilityDispatch, AbilityEvent};
use vitality::task_states::{TaskDispatch, TaskEvent, TaskMachine, TaskState, TaskTrigger};
use vitality::tasks::{
    find_ability_ancestor, on_execute_task, on_task_completion_notification, Complete,
    CompletionOutcome, TaskScope, TaskStatus,
};

const ALL_TASK_STATES: [TaskState; 6] = [
    TaskState::_Root,
    TaskState::Pending,
    TaskState::Running,
    TaskState::Completed,
    TaskState::Stopped,
    TaskState::Failed,
];
const ALL_TASK_EVENTS: [TaskEvent; 6] = [
    TaskEvent::Reset,
    TaskEvent::Activate,
    TaskEvent::Execute,
    TaskEvent::Complete,
    TaskEvent::Stop,
    TaskEvent::TimeOut,
];

#[test]
fn task_states_print_mermaid_state_machine() {
    println!("stateDiagram-v2");
    println!("    [*] --> {:?}", TaskMachine::initial_state());
    for state in ALL_TASK_STATES {
        for event in ALL_TASK_EVENTS {
            if let Some(next) = TaskMachine::transition(state, event) {
                println!("    {:?} --> {:?} : {:?}", state, next, event);
            }
        }
    }
}

#[test]
fn task_transition_table() {
    assert_eq!(TaskMachine::initial_state(), TaskState::Pending);
    assert_eq!(TaskMachine::transition(TaskState::Pending, TaskEvent::Activate), Some(TaskState::Running));
    assert_eq!(TaskMachine::transition(TaskState::Running, TaskEvent::Complete), Some(TaskState::Completed));
    assert_eq!(TaskMachine::transition(TaskState::Running, TaskEvent::Stop), Some(TaskState::Stopped));
    assert_eq!(TaskMachine::transition(TaskState::Running, TaskEvent::TimeOut), Some(TaskState::Stopped));
    for s in [TaskState::Completed, TaskState::Stopped, TaskState::Failed] {
        assert_eq!(TaskMachine::transition(s, TaskEvent::Reset), Some(TaskState::Pending));
    }
    assert_eq!(TaskMachine::transition(TaskState::Running, TaskEvent::Reset), None);
    assert_eq!(TaskMachine::transition(TaskState::Pending, TaskEvent::Execute), None);
    assert_eq!(TaskState::Failed.state_id(), 5);
    assert_eq!(TaskState::Pending.state_id(), 1);
}

#[test]
fn task_enter_actions() {
    let subs = vec![8, 9];
    let run = TaskMachine::on_enter(TaskState::Running, 4, Some(&subs));
    assert_eq!(run.triggers, vec![TaskTrigger::ExecuteTask(4)]);
    assert_eq!(
        run.dispatches,
        vec![
            TaskDispatch { task: 8, event: TaskEvent::Activate },
            TaskDispatch { task: 9, event: TaskEvent::Activate },
        ]
    );
    let run_alone = TaskMachine::on_enter(TaskState::Running, 4, None);
    assert_eq!(run_alone.triggers, vec![TaskTrigger::ExecuteTask(4)]);
    assert!(run_alone.dispatches.is_empty());
    let done = TaskMachine::on_enter(TaskState::Completed, 4, Some(&subs));
    assert_eq!(
        done.triggers,
        vec![TaskTrigger::TaskCompleted(4), TaskTrigger::NotifyTaskCompletion(4)]
    );
    assert!(done.dispatches.is_empty());
    let stopped = TaskMachine::on_enter(TaskState::Stopped, 4, None);
    assert_eq!(stopped.triggers, vec![TaskTrigger::TaskStopped(4)]);
    let pending = TaskMachine::on_enter(TaskState::Pending, 4, Some(&subs));
    assert!(pending.triggers.is_empty() && pending.dispatches.is_empty());
    let failed = TaskMachine::on_enter(TaskState::Failed, 4, None);
    assert!(failed.triggers.is_empty() && failed.dispatches.is_empty());
}

#[test]
fn completion_all_and_any() {
    let done = vec![true, false];
    assert_eq!(
        on_task_completion_notification(3, Some((Complete::All, &done)), false),
        CompletionOutcome::Propagate(false)
    );
    assert_eq!(
        on_task_completion_notification(3, Some((Complete::Any, &done)), false),
        CompletionOutcome::Propagate(true)
    );
    let none: Vec<bool> = vec![];
    assert_eq!(
        on_task_completion_notification(3, Some((Complete::All, &none)), false),
        CompletionOutcome::Propagate(true)
    );
    assert_eq!(
        on_task_completion_notification(3, Some((Complete::Any, &none)), false),
        CompletionOutcome::Propagate(false)
    );
    assert_eq!(on_task_completion_notification(3, None, true), CompletionOutcome::NoSubtasks);
}

#[test]
fn completion_ends_ability() {
    let all_done = vec![true, true];
    assert_eq!(
        on_task_completion_notification(11, Some((Complete::All, &all_done)), true),
        CompletionOutcome::EndAbility(AbilityDispatch { ability: 11, event: AbilityEvent::EndAbility })
    );
    let partly = vec![false, true];
    assert_eq!(
        on_task_completion_notification(11, Some((Complete::All, &partly)), true),
        CompletionOutcome::Pending
    );
    assert_eq!(Complete::default(), Complete::All);
}

#[test]
fn execute_task_outcome() {
    assert_eq!(TaskStatus::default(), TaskStatus::Complete);
    assert_eq!(
        on_execute_task(5, TaskStatus::Complete),
        Some(TaskDispatch { task: 5, event: TaskEvent::Complete })
    );
    assert_eq!(on_execute_task(5, TaskStatus::Running), None);
    assert_eq!(on_execute_task(5, TaskStatus::Failed), None);
}

#[test]
fn ancestor_is_nearest_ability() {
    // 1 -> 2 -> 3 -> 4, abilities are 3 and 4
    let owners = vec![(1, 2), (2, 3), (3, 4)];
    let abilities = vec![4, 3];
    assert_eq!(find_ability_ancestor(1, &owners, &abilities), 3);
    assert_eq!(find_ability_ancestor(3, &owners, &abilities), 4);
    // a task whose owner is the ability itself
    assert_eq!(find_ability_ancestor(2, &owners, &abilities), 3);
}

#[test]
fn task_scope_events() {
    let scope = TaskScope::new(12);
    assert_eq!(scope.execute(), Some(TaskDispatch { task: 12, event: TaskEvent::Execute }));
    assert_eq!(scope.complete(), Some(TaskDispatch { task: 12, event: TaskEvent::Complete }));
    assert_eq!(scope.stop(), Some(TaskDispatch { task: 12, event: TaskEvent::Stop }));
    let empty = TaskScope::empty();
    assert_eq!(empty.execute(), None);
    assert_eq!(empty.complete(), None);
    assert_eq!(empty.stop(), None);
}
