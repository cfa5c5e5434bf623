use vstd::prelude::*;
use crate::ability_state::{AbilityDispatch, AbilityEvent};
use crate::systems::{all_of, all_true, any_of, any_true};
use crate::task_states::{TaskDispatch, TaskEvent};

verus! {

/// What a task's activation reports.
#[derive(Clone, Copy, Debug, PartialEq, Eq, Structural)]
pub enum TaskStatus {
    Complete,
    Running,
    Failed,
}

impl Default for TaskStatus {
    fn default() -> (r: Self)
        ensures
            r == TaskStatus::Complete,
    {
        TaskStatus::Complete
    }
}

/// When a task with subtasks counts as complete: once all of them completed, or once any did.
#[derive(Clone, Copy, Debug, PartialEq, Eq, Structural)]
pub enum Complete {
    All,
    Any,
}

impl Default for Complete {
    fn default() -> (r: Self)
        ensures
            r == Complete::All,
    {
        Complete::All
    }
}

/// What a completion notice arriving at an entity leads to.
#[derive(Clone, Copy, Debug, PartialEq, Eq, Structural)]
pub enum CompletionOutcome {
    /// The entity has no subtasks: nothing to do.
    NoSubtasks,
    /// The entity is a task: the notice travels on to its owner only if the flag is set.
    Propagate(bool),
    /// The entity is an ability whose tasks are done: the ability ends.
    EndAbility(AbilityDispatch),
    /// The entity is an ability whose tasks are not done yet.
    Pending,
}

/// Whether the subtasks, given by their completed flags, satisfy the rule.
pub open spec fn rule_satisfied(rule: Complete, completed: Seq<bool>) -> bool {
    match rule {
        Complete::All => all_true(completed),
        Complete::Any => any_true(completed),
    }
}

/// What a completion notice at `entity` leads to. `subtasks` holds the entity's completion rule
/// and, for each subtask, whether it is in the completed state; `None` when it has no subtasks.
pub open spec fn completion_outcome(entity: u64, subtasks: Option<(Complete, Seq<bool>)>, is_ability: bool) -> CompletionOutcome {
    match subtasks {
        None => CompletionOutcome::NoSubtasks,
        Some((rule, completed)) => if !is_ability {
            CompletionOutcome::Propagate(rule_satisfied(rule, completed))
        } else if rule_satisfied(rule, completed) {
            CompletionOutcome::EndAbility(
                AbilityDispatch { ability: entity, event: AbilityEvent::EndAbility },
            )
        } else {
            CompletionOutcome::Pending
        },
    }
}

/// Handles a completion notice that reached `entity`: a task forwards whether its own rule is
/// now satisfied, and an ability whose rule is satisfied ends.
pub fn on_task_completion_notification(
    entity: u64,
    subtasks: Option<(Complete, &Vec<bool>)>,
    is_ability: bool,
) -> (r: CompletionOutcome)
    ensures
        r == completion_outcome(
            entity,
            match subtasks {
                Some((rule, completed)) => Some((rule, completed@)),
                None => None,
            },
            is_ability,
        ),
{
    match subtasks {
        None => CompletionOutcome::NoSubtasks,
        Some((rule, completed)) => {
            let result = match rule {
                Complete::All => all_of(completed),
                Complete::Any => any_of(completed),
            };
            if !is_ability {
                CompletionOutcome::Propagate(result)
            } else if result {
                CompletionOutcome::EndAbility(
                    AbilityDispatch { ability: entity, event: AbilityEvent::EndAbility },
                )
            } else {
                CompletionOutcome::Pending
            }
        },
    }
}

/// What a task's activation leads to: a task that reports completion completes at once.
pub fn on_execute_task(task_id: u64, status: TaskStatus) -> (r: Option<TaskDispatch>)
    ensures
        r == (if status == TaskStatus::Complete {
            Some(TaskDispatch { task: task_id, event: TaskEvent::Complete })
        } else {
            None
        }),
{
    match status {
        TaskStatus::Complete => Some(TaskDispatch { task: task_id, event: TaskEvent::Complete }),
        _ => None,
    }
}

/// The owner of `e` in the owner relation `owners` (pairs of task and owner; the first pair for
/// `e` counts).
pub open spec fn owner_of(owners: Seq<(u64, u64)>, e: u64) -> Option<u64>
    decreases owners.len(),
{
    if owners.len() == 0 {
        None
    } else if owners[0].0 == e {
        Some(owners[0].1)
    } else {
        owner_of(owners.drop_first(), e)
    }
}

/// The `k`-th ancestor of `e` through the owner relation, if the chain is that long.
pub open spec fn ancestor(owners: Seq<(u64, u64)>, e: u64, k: nat) -> Option<u64>
    decreases k,
{
    if k == 0 {
        Some(e)
    } else {
        match ancestor(owners, e, (k - 1) as nat) {
            Some(a) => owner_of(owners, a),
            None => None,
        }
    }
}

/// The `k`-th ancestor of `e` exists and is an ability.
pub open spec fn ability_at(owners: Seq<(u64, u64)>, abilities: Seq<u64>, e: u64, k: nat) -> bool {
    match ancestor(owners, e, k) {
        Some(a) => abilities.contains(a),
        None => false,
    }
}

/// Some proper ancestor of `e` is an ability.
pub open spec fn has_ability_ancestor(owners: Seq<(u64, u64)>, abilities: Seq<u64>, e: u64) -> bool {
    exists|k: nat| k >= 1 && ability_at(owners, abilities, e, k)
}

/// Looks up the owner of `e`.
pub fn find_owner(owners: &Vec<(u64, u64)>, e: u64) -> (r: Option<u64>)
    ensures
        r == owner_of(owners@, e),
{
    let mut i: usize = 0;
    proof {
        assert(owners@.skip(0) =~= owners@);
    }
    while i < owners.len()
        invariant
            i <= owners.len(),
            owner_of(owners@, e) == owner_of(owners@.skip(i as int), e),
        decreases owners.len() - i,
    {
        let (task, owner) = owners[i];
        proof {
            assert(owners@.skip(i as int).drop_first() =~= owners@.skip(i + 1));
        }
        if task == e {
            return Some(owner);
        }
        i += 1;
    }
    None
}

/// Whether `e` is among `items`.
pub fn contains_entity(items: &Vec<u64>, e: u64) -> (r: bool)
    ensures
        r == items@.contains(e),
{
    let mut i: usize = 0;
    while i < items.len()
        invariant
            i <= items.len(),
            forall|j: int| 0 <= j < i ==> items@[j] != e,
        decreases items.len() - i,
    {
        if items[i] == e {
            proof {
                assert(items@[i as int] == e);
            }
            return true;
        }
        i += 1;
    }
    false
}

/// Finds the ability that a task belongs to: the nearest proper ancestor of `task` through the
/// owner relation that is an ability. Such an ancestor must exist.
pub fn find_ability_ancestor(task: u64, owners: &Vec<(u64, u64)>, abilities: &Vec<u64>) -> (r: u64)
    requires
        has_ability_ancestor(owners@, abilities@, task),
    ensures
        exists|m: nat|
            #![trigger ancestor(owners@, task, m)]
            m >= 1 && ancestor(owners@, task, m) == Some(r) && abilities@.contains(r) && forall|
                j: nat,
            |
                1 <= j < m ==> !#[trigger] ability_at(owners@, abilities@, task, j),
{
    let ghost bound: nat = choose|k: nat| k >= 1 && ability_at(owners@, abilities@, task, k);
    let ghost mut steps: nat = 0;
    let mut current = task;
    loop
        invariant
            bound >= 1,
            ability_at(owners@, abilities@, task, bound),
            steps < bound,
            ancestor(owners@, task, steps) == Some(current),
            forall|j: nat| 1 <= j <= steps ==> !#[trigger] ability_at(owners@, abilities@, task, j),
        decreases bound - steps,
    {
        let parent = find_owner(owners, current);
        proof {
            assert(ancestor(owners@, task, steps + 1) == owner_of(owners@, current));
        }
        match parent {
            None => {
                proof {
                    lemma_ancestor_stops(owners@, task, steps + 1, bound);
                }
                assert(false);
                return current;
            },
            Some(p) => {
                if contains_entity(abilities, p) {
                    proof {
                        assert(ancestor(owners@, task, (steps + 1) as nat) == Some(p));
                    }
                    return p;
                }
                proof {
                    assert(!ability_at(owners@, abilities@, task, (steps + 1) as nat));
                    steps = steps + 1;
                }
                current = p;
            },
        }
    }
}

/// Once the chain of ancestors ends, it stays ended.
pub proof fn lemma_ancestor_stops(owners: Seq<(u64, u64)>, e: u64, k: nat, l: nat)
    requires
        ancestor(owners, e, k) is None,
        k <= l,
    ensures
        ancestor(owners, e, l) is None,
    decreases l - k,
{
    if k < l {
        lemma_ancestor_stops(owners, e, k, (l - 1) as nat);
    }
}

/// With no subtasks recorded, the all-rule is satisfied and the any-rule is not; whenever the
/// all-rule holds for a non-empty list, the any-rule holds too.
pub proof fn lemma_completion_rules(completed: Seq<bool>)
    ensures
        completed.len() == 0 ==> rule_satisfied(Complete::All, completed) && !rule_satisfied(
            Complete::Any,
            completed,
        ),
        completed.len() > 0 && rule_satisfied(Complete::All, completed) ==> rule_satisfied(
            Complete::Any,
            completed,
        ),
{
    if completed.len() > 0 && rule_satisfied(Complete::All, completed) {
        assert(completed[0]);
    }
}

/// An ability ends on a completion notice exactly when its rule is satisfied; a task never
/// ends an ability but forwards whether its rule is satisfied.
pub proof fn lemma_notice_ends_ability_iff_rule(entity: u64, rule: Complete, completed: Seq<bool>, is_ability: bool)
    ensures
        completion_outcome(entity, Some((rule, completed)), is_ability) is EndAbility <==> (
        is_ability && rule_satisfied(rule, completed)),
        !is_ability ==> completion_outcome(entity, Some((rule, completed)), is_ability)
            == CompletionOutcome::Propagate(rule_satisfied(rule, completed)),
{
}

/// A handle on one task (or on none) for sending it machine events.
#[derive(Clone, Copy, Debug, PartialEq, Eq, Structural)]
pub struct TaskScope {
    pub task_id: Option<u64>,
}

impl TaskScope {
    /// A scope on `task`.
    pub fn new(task: u64) -> (r: Self)
        ensures
            r.task_id == Some(task),
    {
        TaskScope { task_id: Some(task) }
    }

    /// A scope on no task: its operations do nothing.
    pub fn empty() -> (r: Self)
        ensures
            r.task_id is None,
    {
        TaskScope { task_id: None }
    }

    /// The dispatch of `event` to the scoped task, if there is one.
    pub open spec fn dispatch_spec(self, event: TaskEvent) -> Option<TaskDispatch> {
        match self.task_id {
            Some(t) => Some(TaskDispatch { task: t, event }),
            None => None,
        }
    }

    fn send(&self, event: TaskEvent) -> (r: Option<TaskDispatch>)
        ensures
            r == self.dispatch_spec(event),
    {
        match self.task_id {
            Some(t) => Some(TaskDispatch { task: t, event }),
            None => None,
        }
    }

    /// Tells the task to execute.
    pub fn execute(&self) -> (r: Option<TaskDispatch>)
        ensures
            r == self.dispatch_spec(TaskEvent::Execute),
    {
        self.send(TaskEvent::Execute)
    }

    /// Tells the task that it completed.
    pub fn complete(&self) -> (r: Option<TaskDispatch>)
        ensures
            r == self.dispatch_spec(TaskEvent::Complete),
    {
        self.send(TaskEvent::Complete)
    }

    /// Tells the task to stop.
    pub fn stop(&self) -> (r: Option<TaskDispatch>)
        ensures
            r == self.dispatch_spec(TaskEvent::Stop),
    {
        self.send(TaskEvent::Stop)
    }
}

/// An empty scope sends nothing; a scope on a task sends each event to that task.
pub proof fn lemma_scope_dispatch(scope: TaskScope, event: TaskEvent)
    ensures
        scope.task_id is None ==> scope.dispatch_spec(event) is None,
        scope.task_id matches Some(t) ==> scope.dispatch_spec(event) == Some(
            TaskDispatch { task: t, event },
        ),
{
}

} // verus!
