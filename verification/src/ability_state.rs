use vstd::prelude::*;
use crate::ability::{AbilityRecovery, BeginAbility, ExecuteAbility, TargetData};
use crate::systems::{ActivateAbility, all_of, all_true, can_activate_ability};
use crate::task_states::{TaskDispatch, TaskEvent, dispatch_each};

verus! {

/// Marker for the ability state machine.
#[derive(Clone, Copy, Debug, Default)]
pub struct AbilityMachine;

/// The states of an ability's state machine; `_Root` is the machine's root and never a leaf.
#[derive(Clone, Copy, Debug, PartialEq, Eq, Hash, Structural)]
pub enum AbilityState {
    _Root,
    Ready,
    Active,
    Recovery,
}

/// The events an ability's state machine reacts to.
#[derive(Clone, Copy, Debug, PartialEq, Eq, Structural)]
pub enum AbilityEvent {
    TryActivate { source: u64, target: TargetData },
    Activate,
    CancelAbility,
    EndAbility,
    TimerExpired,
    Recovered,
}

/// Whether a state's handler consumed an event.
#[derive(Clone, Copy, Debug, PartialEq, Eq, Structural)]
pub enum EventResult {
    Handled,
    Ignored,
}

/// An event to dispatch to the state machine of an ability entity.
#[derive(Clone, Copy, Debug, PartialEq, Eq, Structural)]
pub struct AbilityDispatch {
    pub ability: u64,
    pub event: AbilityEvent,
}

/// What the ready state's handler read from the world before it decides on an activation
/// request: whether each lookup succeeded, and the value of each condition of the ability's
/// definition.
pub struct TryActivateLookups {
    /// The ability entity carries an ability.
    pub ability_found: bool,
    /// The requesting source is an actor with granted abilities.
    pub source_found: bool,
    /// When the request aims at an entity, that entity is an actor.
    pub target_found: bool,
    /// The ability's definition is loaded.
    pub definition_found: bool,
    /// The definition's execution conditions, evaluated on the source actor.
    pub execution_conditions: Vec<bool>,
    /// The definition's cost conditions, evaluated on caster, ability and target.
    pub cost_conditions: Vec<bool>,
}

/// The events raised when an activation request succeeds.
#[derive(Clone, Copy, Debug, PartialEq, Eq, Structural)]
pub struct AbilityActivation {
    pub begin: BeginAbility,
    pub activate: ActivateAbility,
    pub execute: ExecuteAbility,
}

/// The ready state's answer to an event: whether it handled it, the events it queues on its own
/// machine, and the events it raises for a successful activation.
pub struct ReadyOutcome {
    pub result: EventResult,
    pub internal_events: Vec<AbilityEvent>,
    pub activation: Option<AbilityActivation>,
}

/// A timer to start on the ability's own machine: after `nanos` nanoseconds it raises `event`,
/// provided the machine is then still in `state`.
#[derive(Clone, Copy, Debug, PartialEq, Eq, Structural)]
pub struct TimerRequest {
    pub nanos: u128,
    pub event: AbilityEvent,
    pub state: AbilityState,
}

/// What entering or leaving an ability state does: events queued on the ability's own machine,
/// events dispatched to its tasks, and the timer it starts, if any.
pub struct AbilityActions {
    pub internal_events: Vec<AbilityEvent>,
    pub task_dispatches: Vec<TaskDispatch>,
    pub timer: Option<TimerRequest>,
}

/// The timer that recovery starts: the cooldown, then `Recovered`, only while still recovering.
pub open spec fn recovery_timer(cooldown_nanos: u128) -> TimerRequest {
    TimerRequest { nanos: cooldown_nanos, event: AbilityEvent::Recovered, state: AbilityState::Recovery }
}

pub open spec fn ability_state_id_spec(s: AbilityState) -> u16 {
    match s {
        AbilityState::_Root => 0,
        AbilityState::Ready => 1,
        AbilityState::Active => 2,
        AbilityState::Recovery => 3,
    }
}

/// The transitions of the ability machine: the state that `event` leads to from `state`.
pub open spec fn ability_transition_spec(state: AbilityState, event: AbilityEvent) -> Option<
    AbilityState,
> {
    match (state, event) {
        (AbilityState::Ready, AbilityEvent::Activate) => Some(AbilityState::Active),
        (AbilityState::Active, AbilityEvent::EndAbility) => Some(AbilityState::Recovery),
        (AbilityState::Active, AbilityEvent::CancelAbility) => Some(AbilityState::Recovery),
        (AbilityState::Recovery, AbilityEvent::Recovered) => Some(AbilityState::Ready),
        _ => None,
    }
}

/// The lookups that precede reading the ability's definition all succeeded.
pub open spec fn lookups_reach_definition(target: TargetData, lk: TryActivateLookups) -> bool {
    &&& lk.ability_found
    &&& lk.source_found
    &&& (target is Target ==> lk.target_found)
}

/// The handler reads the ability's definition for `event`: it is an activation request whose
/// lookups all succeeded.
pub open spec fn definition_needed(event: AbilityEvent, lk: TryActivateLookups) -> bool {
    match event {
        AbilityEvent::TryActivate { source, target } => lookups_reach_definition(target, lk),
        _ => false,
    }
}

/// The request passes every check up to the cost conditions.
pub open spec fn request_admitted(target: TargetData, lk: TryActivateLookups) -> bool {
    lookups_reach_definition(target, lk) && all_true(lk.execution_conditions@)
}

/// The request activates the ability: it is admitted and the caster can pay.
pub open spec fn request_activates(target: TargetData, lk: TryActivateLookups) -> bool {
    request_admitted(target, lk) && all_true(lk.cost_conditions@)
}

/// The ready state's answer to `event`: an activation request is handled once it is admitted,
/// and every other event is ignored.
pub open spec fn ready_result(event: AbilityEvent, lk: TryActivateLookups) -> EventResult {
    match event {
        AbilityEvent::TryActivate { source, target } => if request_admitted(target, lk) {
            EventResult::Handled
        } else {
            EventResult::Ignored
        },
        _ => EventResult::Ignored,
    }
}

/// The events that a successful activation of `ability` by `source` on `target` raises.
pub open spec fn activation_events(ability: u64, source: u64, target: TargetData) -> AbilityActivation {
    AbilityActivation {
        begin: BeginAbility { source, ability },
        activate: ActivateAbility { target, source, ability },
        execute: ExecuteAbility { ability, target, source },
    }
}

/// The ready state's activation for `event`, if it activates.
pub open spec fn ready_activation(ability: u64, event: AbilityEvent, lk: TryActivateLookups) -> Option<
    AbilityActivation,
> {
    match event {
        AbilityEvent::TryActivate { source, target } => if request_activates(target, lk) {
            Some(activation_events(ability, source, target))
        } else {
            None
        },
        _ => None,
    }
}

/// Events the ready state queues on its own machine: `Activate` exactly when it activates.
pub open spec fn ready_internal_events(ability: u64, event: AbilityEvent, lk: TryActivateLookups) -> Seq<
    AbilityEvent,
> {
    if ready_activation(ability, event, lk) is Some {
        seq![AbilityEvent::Activate]
    } else {
        seq![]
    }
}

/// Stop dispatches for the descendant tasks that are running, in order.
pub open spec fn stop_running(descendants: Seq<(u64, bool)>) -> Seq<TaskDispatch>
    decreases descendants.len(),
{
    if descendants.len() == 0 {
        seq![]
    } else {
        let last = descendants.last();
        let rest = stop_running(descendants.drop_last());
        if last.1 {
            rest.push(TaskDispatch { task: last.0, event: TaskEvent::Stop })
        } else {
            rest
        }
    }
}

/// Dispatches of `event` to each task, in order.
pub open spec fn dispatch_all(tasks: Seq<u64>, event: TaskEvent) -> Seq<TaskDispatch> {
    tasks.map_values(|t: u64| TaskDispatch { task: t, event })
}

impl AbilityState {
    /// The state's identifier in the machine definition.
    pub fn state_id(self) -> (r: u16)
        ensures
            r == ability_state_id_spec(self),
    {
        match self {
            AbilityState::_Root => 0,
            AbilityState::Ready => 1,
            AbilityState::Active => 2,
            AbilityState::Recovery => 3,
        }
    }
}

impl AbilityMachine {
    /// The machine's initial state.
    pub fn initial_state() -> (r: AbilityState)
        ensures
            r == AbilityState::Ready,
    {
        AbilityState::Ready
    }

    /// Looks up the transition that `event` takes from `state`.
    pub fn transition(state: AbilityState, event: &AbilityEvent) -> (r: Option<AbilityState>)
        ensures
            r == ability_transition_spec(state, *event),
    {
        match (state, event) {
            (AbilityState::Ready, AbilityEvent::Activate) => Some(AbilityState::Active),
            (AbilityState::Active, AbilityEvent::EndAbility) => Some(AbilityState::Recovery),
            (AbilityState::Active, AbilityEvent::CancelAbility) => Some(AbilityState::Recovery),
            (AbilityState::Recovery, AbilityEvent::Recovered) => Some(AbilityState::Ready),
            _ => None,
        }
    }

    /// The ready state's handler. An activation request is ignored when the ability, the source
    /// actor or the aimed-at actor cannot be found, or when an execution condition fails; it is
    /// handled otherwise, and if moreover every cost condition holds the ability activates: it
    /// queues `Activate` on its own machine and raises `BeginAbility`, `ActivateAbility` and
    /// `ExecuteAbility`.
    pub fn ready_on_event(ability_id: u64, event: &AbilityEvent, lookups: &TryActivateLookups) -> (r:
        ReadyOutcome)
        requires
            definition_needed(*event, *lookups) ==> lookups.definition_found,
        ensures
            r.result == ready_result(*event, *lookups),
            r.activation == ready_activation(ability_id, *event, *lookups),
            r.internal_events@ == ready_internal_events(ability_id, *event, *lookups),
    {
        let ignored = ReadyOutcome {
            result: EventResult::Ignored,
            internal_events: Vec::new(),
            activation: None,
        };
        match event {
            AbilityEvent::TryActivate { source, target } => {
                if !lookups.ability_found {
                    return ignored;
                }
                if !lookups.source_found {
                    return ignored;
                }
                if let TargetData::Target(_) = target {
                    if !lookups.target_found {
                        return ignored;
                    }
                }
                if !all_of(&lookups.execution_conditions) {
                    return ignored;
                }
                let can_activate = can_activate_ability(true, &lookups.cost_conditions);
                if can_activate {
                    let mut internal_events: Vec<AbilityEvent> = Vec::new();
                    internal_events.push(AbilityEvent::Activate);
                    let activation = AbilityActivation {
                        begin: BeginAbility { source: *source, ability: ability_id },
                        activate: ActivateAbility {
                            target: *target,
                            source: *source,
                            ability: ability_id,
                        },
                        execute: ExecuteAbility {
                            ability: ability_id,
                            target: *target,
                            source: *source,
                        },
                    };
                    proof {
                        assert(internal_events@ =~= seq![AbilityEvent::Activate]);
                    }
                    ReadyOutcome {
                        result: EventResult::Handled,
                        internal_events,
                        activation: Some(activation),
                    }
                } else {
                    ReadyOutcome {
                        result: EventResult::Handled,
                        internal_events: Vec::new(),
                        activation: None,
                    }
                }
            },
            _ => ignored,
        }
    }

    /// Entering the active state: without a task list nothing happens; with an empty one the
    /// ability ends at once; otherwise every task is told to activate.
    pub fn active_on_enter(tasks: Option<&Vec<u64>>) -> (r: AbilityActions)
        ensures
            r.internal_events@ == (match tasks {
                Some(t) => if t@.len() == 0 {
                    seq![AbilityEvent::EndAbility]
                } else {
                    seq![]
                },
                None => seq![],
            }),
            r.task_dispatches@ == (match tasks {
                Some(t) => dispatch_all(t@, TaskEvent::Activate),
                None => seq![],
            }),
            r.timer is None,
    {
        match tasks {
            None => AbilityActions {
                internal_events: Vec::new(),
                task_dispatches: Vec::new(),
                timer: None,
            },
            Some(t) => {
                if t.len() == 0 {
                    let mut internal_events: Vec<AbilityEvent> = Vec::new();
                    internal_events.push(AbilityEvent::EndAbility);
                    proof {
                        assert(internal_events@ =~= seq![AbilityEvent::EndAbility]);
                        assert(dispatch_all(t@, TaskEvent::Activate) =~= seq![]);
                    }
                    AbilityActions { internal_events, task_dispatches: Vec::new(), timer: None }
                } else {
                    let task_dispatches = dispatch_each(t, TaskEvent::Activate);
                    AbilityActions { internal_events: Vec::new(), task_dispatches, timer: None }
                }
            },
        }
    }

    /// Entering recovery: the recovery time starts again from zero, a timer of the cooldown as it
    /// stands now (`cooldown_nanos`) is started that raises `Recovered` while the machine is still
    /// recovering, and every descendant task that is running (the flag beside it) is told to stop.
    pub fn recovery_on_enter(
        recovery: &mut AbilityRecovery,
        cooldown_nanos: u128,
        descendants: &Vec<(u64, bool)>,
    ) -> (r: AbilityActions)
        ensures
            final(recovery)@ == 0,
            r.internal_events@ == Seq::<AbilityEvent>::empty(),
            r.task_dispatches@ == stop_running(descendants@),
            r.timer == Some(recovery_timer(cooldown_nanos)),
    {
        recovery.reset();
        let mut task_dispatches: Vec<TaskDispatch> = Vec::new();
        let mut i: usize = 0;
        while i < descendants.len()
            invariant
                i <= descendants.len(),
                task_dispatches@ == stop_running(descendants@.take(i as int)),
            decreases descendants.len() - i,
        {
            let (task, running) = descendants[i];
            proof {
                assert(descendants@.take(i + 1).drop_last() =~= descendants@.take(i as int));
            }
            if running {
                task_dispatches.push(TaskDispatch { task, event: TaskEvent::Stop });
            }
            i += 1;
        }
        proof {
            assert(descendants@.take(descendants@.len() as int) =~= descendants@);
        }
        let timer = TimerRequest {
            nanos: cooldown_nanos,
            event: AbilityEvent::Recovered,
            state: AbilityState::Recovery,
        };
        AbilityActions { internal_events: Vec::new(), task_dispatches, timer: Some(timer) }
    }

    /// Leaving recovery: every descendant task is reset.
    pub fn recovery_on_exit(descendants: &Vec<u64>) -> (r: AbilityActions)
        ensures
            r.internal_events@ == Seq::<AbilityEvent>::empty(),
            r.task_dispatches@ == dispatch_all(descendants@, TaskEvent::Reset),
            r.timer is None,
    {
        let task_dispatches = dispatch_each(descendants, TaskEvent::Reset);
        AbilityActions { internal_events: Vec::new(), task_dispatches, timer: None }
    }
}

/// No state reacts to an activation request by a transition: a request only ever activates the
/// ability through the ready state's handler.
pub proof fn lemma_try_activate_never_transitions(state: AbilityState, source: u64, target: TargetData)
    ensures
        ability_transition_spec(state, AbilityEvent::TryActivate { source, target }) is None,
{
}

/// Only a ready ability can become active.
pub proof fn lemma_activate_only_from_ready(state: AbilityState)
    ensures
        ability_transition_spec(state, AbilityEvent::Activate) is Some <==> state
            == AbilityState::Ready,
        ability_transition_spec(state, AbilityEvent::Activate) is Some
            ==> ability_transition_spec(state, AbilityEvent::Activate) == Some(AbilityState::Active),
{
}

/// An ability goes round its life cycle: a ready ability that activates, then ends or is
/// cancelled, then recovers, is ready again.
pub proof fn lemma_ability_life_cycle()
    ensures
        ability_transition_spec(AbilityState::Ready, AbilityEvent::Activate) == Some(
            AbilityState::Active,
        ),
        ability_transition_spec(AbilityState::Active, AbilityEvent::EndAbility) == Some(
            AbilityState::Recovery,
        ),
        ability_transition_spec(AbilityState::Active, AbilityEvent::CancelAbility) == Some(
            AbilityState::Recovery,
        ),
        ability_transition_spec(AbilityState::Recovery, AbilityEvent::Recovered) == Some(
            AbilityState::Ready,
        ),
{
}

/// The ability machine's edges, and no others: a ready ability becomes active only on
/// `Activate`; an active one goes into recovery only when it ends or is cancelled; a recovering
/// one becomes ready only when it has recovered; nothing ever leads to the root.
pub proof fn lemma_transition_edges(state: AbilityState, event: AbilityEvent)
    ensures
        ability_transition_spec(state, event) == Some(AbilityState::Active) <==> (state
            == AbilityState::Ready && event == AbilityEvent::Activate),
        ability_transition_spec(state, event) == Some(AbilityState::Recovery) <==> (state
            == AbilityState::Active && (event == AbilityEvent::EndAbility || event
            == AbilityEvent::CancelAbility)),
        ability_transition_spec(state, event) == Some(AbilityState::Ready) <==> (state
            == AbilityState::Recovery && event == AbilityEvent::Recovered),
        ability_transition_spec(state, event) != Some(AbilityState::_Root),
        state == AbilityState::Ready && ability_transition_spec(state, event) is Some ==> event
            == AbilityEvent::Activate,
        state == AbilityState::_Root ==> ability_transition_spec(state, event) is None,
{
}

/// An activation request in the ready state, whatever its kind of target (the caster itself, an
/// actor or a location): it activates exactly when the ability and the source are found, the
/// aimed-at actor is found (asked only of a request aimed at an actor), and every execution and
/// cost condition holds. It then raises `BeginAbility`, `ActivateAbility` and `ExecuteAbility`
/// for that source, ability and target and queues one `Activate`; otherwise it queues nothing.
/// It is handled exactly when everything but the cost conditions holds.
pub proof fn lemma_request_activates_iff(
    ability: u64,
    source: u64,
    target: TargetData,
    lk: TryActivateLookups,
)
    ensures
        ready_activation(ability, AbilityEvent::TryActivate { source, target }, lk) is Some <==> {
            &&& lk.ability_found
            &&& lk.source_found
            &&& (target is Target ==> lk.target_found)
            &&& forall|i: int|
                0 <= i < lk.execution_conditions@.len() ==> #[trigger] lk.execution_conditions@[i]
            &&& forall|i: int|
                0 <= i < lk.cost_conditions@.len() ==> #[trigger] lk.cost_conditions@[i]
        },
        ready_activation(ability, AbilityEvent::TryActivate { source, target }, lk) is Some ==> {
            let a = ready_activation(ability, AbilityEvent::TryActivate { source, target }, lk)->0;
            &&& a.begin.source == source && a.begin.ability == ability
            &&& a.activate.target == target && a.activate.source == source && a.activate.ability
                == ability
            &&& a.execute.ability == ability && a.execute.target == target && a.execute.source
                == source
            &&& ready_internal_events(ability, AbilityEvent::TryActivate { source, target }, lk)
                == seq![AbilityEvent::Activate]
            &&& ready_result(AbilityEvent::TryActivate { source, target }, lk)
                == EventResult::Handled
        },
        ready_activation(ability, AbilityEvent::TryActivate { source, target }, lk) is None
            ==> ready_internal_events(ability, AbilityEvent::TryActivate { source, target }, lk)
            == Seq::<AbilityEvent>::empty(),
        ready_result(AbilityEvent::TryActivate { source, target }, lk) == EventResult::Handled
            <==> {
            &&& lk.ability_found
            &&& lk.source_found
            &&& (target is Target ==> lk.target_found)
            &&& forall|i: int|
                0 <= i < lk.execution_conditions@.len() ==> #[trigger] lk.execution_conditions@[i]
        },
{
}

/// An activation happens only when every lookup succeeded and every execution and cost
/// condition holds; it is then handled, and it queues exactly one `Activate`.
pub proof fn lemma_activation_needs_all_conditions(ability: u64, source: u64, target: TargetData, lk: TryActivateLookups)
    requires
        ready_activation(ability, AbilityEvent::TryActivate { source, target }, lk) is Some,
    ensures
        lk.ability_found && lk.source_found,
        target is Target ==> lk.target_found,
        all_true(lk.execution_conditions@),
        all_true(lk.cost_conditions@),
        ready_result(AbilityEvent::TryActivate { source, target }, lk) == EventResult::Handled,
        ready_internal_events(ability, AbilityEvent::TryActivate { source, target }, lk) == seq![
            AbilityEvent::Activate,
        ],
{
}

/// The timer that recovery starts brings the ability back: it waits for the cooldown taken when
/// recovery began, and its event, raised in the state it names, makes the ability ready again.
/// No other event leads out of recovery.
pub proof fn lemma_recovery_timer_makes_ready(cooldown_nanos: u128, event: AbilityEvent)
    ensures
        recovery_timer(cooldown_nanos).nanos == cooldown_nanos,
        ability_transition_spec(recovery_timer(cooldown_nanos).state, recovery_timer(cooldown_nanos).event)
            == Some(AbilityState::Ready),
        ability_transition_spec(AbilityState::Recovery, event) is Some ==> event
            == recovery_timer(cooldown_nanos).event,
{
}

/// Entering recovery stops exactly the running descendant tasks: every dispatch is a stop of a
/// running descendant, and every running descendant is stopped.
pub proof fn lemma_recovery_stops_exactly_running(descendants: Seq<(u64, bool)>)
    ensures
        forall|i: int|
            0 <= i < stop_running(descendants).len() ==> (#[trigger] stop_running(descendants)[i]).event
                == TaskEvent::Stop && descendants.contains((stop_running(descendants)[i].task, true)),
        forall|j: int|
            0 <= j < descendants.len() && (#[trigger] descendants[j]).1 ==> stop_running(
                descendants,
            ).contains(TaskDispatch { task: descendants[j].0, event: TaskEvent::Stop }),
    decreases descendants.len(),
{
    if descendants.len() > 0 {
        let rest = descendants.drop_last();
        lemma_recovery_stops_exactly_running(rest);
        let r = stop_running(descendants);
        let rr = stop_running(rest);
        assert forall|i: int| 0 <= i < r.len() implies (#[trigger] r[i]).event == TaskEvent::Stop
            && descendants.contains((r[i].task, true)) by {
            if i < rr.len() {
                assert(r[i] == rr[i]);
                let k = choose|k: int| 0 <= k < rest.len() && rest[k] == (rr[i].task, true);
                assert(descendants[k] == rest[k]);
            } else {
                assert(descendants[descendants.len() - 1] == descendants.last());
            }
        }
        assert forall|j: int| 0 <= j < descendants.len() && (#[trigger] descendants[j]).1 implies r.contains(
            TaskDispatch { task: descendants[j].0, event: TaskEvent::Stop },
        ) by {
            if j < rest.len() {
                assert(rest[j] == descendants[j]);
                let d = TaskDispatch { task: descendants[j].0, event: TaskEvent::Stop };
                assert(rr.contains(d));
                let k = choose|k: int| 0 <= k < rr.len() && rr[k] == d;
                assert(r[k] == d);
            } else {
                assert(r[r.len() - 1] == TaskDispatch { task: descendants[j].0, event: TaskEvent::Stop });
            }
        }
    }
}

} // verus!
