use vitality::ability::{AbilityError, AbilityRecovery, BeginAbility, ExecuteAbility, TargetData};
use vitality::ability_state::{
    AbilityEvent, AbilityMachine, AbilityState, EventResult, TimerRequest, TryActivateLookups,
};
use vitality::systems::ActivateAbility;
use vitality::task_states::{TaskDispatch, TaskEvent};

fn lookups(exec: Vec<bool>, cost: Vec<bool>) -> TryActivateLookups {
    TryActivateLookups {
        ability_found: true,
        source_found: true,
        target_found: true,
        definition_found: true,
        execution_conditions: exec,
        cost_conditions: cost,
    }
}

const ALL_STATES: [AbilityState; 4] =
    [AbilityState::_Root, AbilityState::Ready, AbilityState::Active, AbilityState::Recovery];

fn all_events() -> Vec<AbilityEvent> {
    vec![
        AbilityEvent::TryActivate { source: 1, target: TargetData::SelfCast },
        AbilityEvent::Activate,
        AbilityEvent::CancelAbility,
        AbilityEvent::EndAbility,
        AbilityEvent::TimerExpired,
        AbilityEvent::Recovered,
    ]
}

#[test]
fn ability_state_print_mermaid_state_machine() {
    println!("stateDiagram-v2");
    println!("    [*] --> {:?}", AbilityMachine::initial_state());
    for state in ALL_STATES {
        for event in all_events() {
            if let Some(next) = AbilityMachine::transition(state, &event) {
                println!("    {:?} --> {:?} : {:?}", state, next, event);
            }
        }
    }
}

#[test]
fn ability_transition_table() {
    assert_eq!(AbilityMachine::initial_state(), AbilityState::Ready);
    assert_eq!(
        AbilityMachine::transition(AbilityState::Ready, &AbilityEvent::Activate),
        Some(AbilityState::Active)
    );
    assert_eq!(
        AbilityMachine::transition(AbilityState::Active, &AbilityEvent::EndAbility),
        Some(AbilityState::Recovery)
    );
    assert_eq!(
        AbilityMachine::transition(AbilityState::Active, &AbilityEvent::CancelAbility),
        Some(AbilityState::Recovery)
    );
    assert_eq!(
        AbilityMachine::transition(AbilityState::Recovery, &AbilityEvent::Recovered),
        Some(AbilityState::Ready)
    );
    assert_eq!(AbilityMachine::transition(AbilityState::Ready, &AbilityEvent::EndAbility), None);
    assert_eq!(AbilityMachine::transition(AbilityState::Active, &AbilityEvent::Activate), None);
    assert_eq!(AbilityMachine::transition(AbilityState::Recovery, &AbilityEvent::TimerExpired), None);
}

#[test]
fn ability_try_activate_is_never_a_transition() {
    for state in ALL_STATES {
        for target in [TargetData::SelfCast, TargetData::Target(9), TargetData::Location(0, 0, 0)] {
            let ev = AbilityEvent::TryActivate { source: 3, target };
            assert_eq!(AbilityMachine::transition(state, &ev), None);
        }
    }
}

#[test]
fn ability_life_cycle_returns_to_ready() {
    let mut s = AbilityMachine::initial_state();
    for ev in [AbilityEvent::Activate, AbilityEvent::CancelAbility, AbilityEvent::Recovered] {
        s = AbilityMachine::transition(s, &ev).unwrap();
    }
    assert_eq!(s, AbilityState::Ready);
}

#[test]
fn ability_state_ids() {
    assert_eq!(AbilityState::_Root.state_id(), 0);
    assert_eq!(AbilityState::Ready.state_id(), 1);
    assert_eq!(AbilityState::Active.state_id(), 2);
    assert_eq!(AbilityState::Recovery.state_id(), 3);
}

#[test]
fn ready_activates_when_all_conditions_hold() {
    let ev = AbilityEvent::TryActivate { source: 10, target: TargetData::Target(20) };
    let out = AbilityMachine::ready_on_event(7, &ev, &lookups(vec![true, true], vec![true]));
    assert_eq!(out.result, EventResult::Handled);
    assert_eq!(out.internal_events, vec![AbilityEvent::Activate]);
    let act = out.activation.unwrap();
    assert_eq!(act.begin, BeginAbility { source: 10, ability: 7 });
    assert_eq!(
        act.activate,
        ActivateAbility { target: TargetData::Target(20), source: 10, ability: 7 }
    );
    assert_eq!(act.execute, ExecuteAbility { ability: 7, target: TargetData::Target(20), source: 10 });
}

#[test]
fn ready_handles_but_does_not_activate_without_cost() {
    let ev = AbilityEvent::TryActivate { source: 10, target: TargetData::SelfCast };
    let out = AbilityMachine::ready_on_event(7, &ev, &lookups(vec![], vec![true, false]));
    assert_eq!(out.result, EventResult::Handled);
    assert!(out.internal_events.is_empty());
    assert!(out.activation.is_none());
}

#[test]
fn ready_ignores_failed_execution_condition() {
    let ev = AbilityEvent::TryActivate { source: 10, target: TargetData::SelfCast };
    let out = AbilityMachine::ready_on_event(7, &ev, &lookups(vec![true, false], vec![true]));
    assert_eq!(out.result, EventResult::Ignored);
    assert!(out.activation.is_none());
}

#[test]
fn ready_ignores_missing_lookups() {
    let ev = AbilityEvent::TryActivate { source: 10, target: TargetData::Target(4) };
    let mut lk = lookups(vec![], vec![]);
    lk.ability_found = false;
    assert_eq!(AbilityMachine::ready_on_event(7, &ev, &lk).result, EventResult::Ignored);
    let mut lk = lookups(vec![], vec![]);
    lk.source_found = false;
    assert_eq!(AbilityMachine::ready_on_event(7, &ev, &lk).result, EventResult::Ignored);
    let mut lk = lookups(vec![], vec![]);
    lk.target_found = false;
    assert_eq!(AbilityMachine::ready_on_event(7, &ev, &lk).result, EventResult::Ignored);
    // A location needs no target actor.
    let ev = AbilityEvent::TryActivate { source: 10, target: TargetData::Location(1, 2, 3) };
    let out = AbilityMachine::ready_on_event(7, &ev, &lk);
    assert_eq!(out.result, EventResult::Handled);
    assert!(out.activation.is_some());
}

#[test]
fn ready_ignores_other_events() {
    let out = AbilityMachine::ready_on_event(7, &AbilityEvent::Activate, &lookups(vec![], vec![]));
    assert_eq!(out.result, EventResult::Ignored);
    assert!(out.internal_events.is_empty());
}

#[test]
fn active_enter_without_tasks_ends() {
    let none = AbilityMachine::active_on_enter(None);
    assert!(none.internal_events.is_empty() && none.task_dispatches.is_empty());
    assert_eq!(none.timer, None);
    let empty: Vec<u64> = vec![];
    let out = AbilityMachine::active_on_enter(Some(&empty));
    assert_eq!(out.internal_events, vec![AbilityEvent::EndAbility]);
    assert!(out.task_dispatches.is_empty());
}

#[test]
fn active_enter_activates_tasks() {
    let tasks = vec![5, 6];
    let out = AbilityMachine::active_on_enter(Some(&tasks));
    assert!(out.internal_events.is_empty());
    assert_eq!(
        out.task_dispatches,
        vec![
            TaskDispatch { task: 5, event: TaskEvent::Activate },
            TaskDispatch { task: 6, event: TaskEvent::Activate },
        ]
    );
}

#[test]
fn recovery_enter_resets_and_stops_running() {
    let mut rec = AbilityRecovery::from_nanos(1_500_000_000);
    let out = AbilityMachine::recovery_on_enter(
        &mut rec,
        2_000_000_000,
        &vec![(1, true), (2, false), (3, true)],
    );
    assert_eq!(rec.elapsed_nanos(), 0);
    assert!(out.internal_events.is_empty());
    assert_eq!(
        out.timer,
        Some(TimerRequest {
            nanos: 2_000_000_000,
            event: AbilityEvent::Recovered,
            state: AbilityState::Recovery,
        })
    );
    assert_eq!(
        out.task_dispatches,
        vec![
            TaskDispatch { task: 1, event: TaskEvent::Stop },
            TaskDispatch { task: 3, event: TaskEvent::Stop },
        ]
    );
}

#[test]
fn recovery_exit_resets_all() {
    let out = AbilityMachine::recovery_on_exit(&vec![1, 2]);
    assert_eq!(out.timer, None);
    assert_eq!(
        out.task_dispatches,
        vec![
            TaskDispatch { task: 1, event: TaskEvent::Reset },
            TaskDispatch { task: 2, event: TaskEvent::Reset },
        ]
    );
}

#[test]
fn recovery_timer_ticks() {
    let mut rec = AbilityRecovery::default();
    assert_eq!(rec.elapsed_nanos(), 0);
    rec.tick(250);
    rec.tick(750);
    assert_eq!(rec.elapsed_nanos(), 1000);
    rec.reset();
    assert_eq!(rec.elapsed_nanos(), 0);
}

#[test]
fn ability_error_messages() {
    let e = bevy::ecs::entity::Entity::from_raw_u32(5).unwrap();
    let bits = e.to_bits();
    assert_eq!(
        AbilityError::GrantingAbilityToNonActor(bits).message(),
        "5v0: Cannot grant ability to entities that are not actors. with TypeId  not present on entity."
    );
    assert_eq!(
        AbilityError::AbilityDoesNotExist(bits).message(),
        "5v0: The entity is not an ability (e.g. No Ability component)."
    );
}

#[test]
fn entity_text_cases() {
    let placeholder = bevy::ecs::entity::Entity::PLACEHOLDER.to_bits();
    assert_eq!(placeholder, 1);
    assert_eq!(
        AbilityError::AbilityDoesNotExist(placeholder).message(),
        "PLACEHOLDER: The entity is not an ability (e.g. No Ability component)."
    );
    let five = bevy::ecs::entity::Entity::from_raw_u32(5).unwrap().to_bits();
    assert_eq!(five, 0xFFFF_FFFA);
    let later = (3u64 << 32) | 0xFFFF_FFFA;
    assert_eq!(
        AbilityError::AbilityDoesNotExist(later).message(),
        "5v3: The entity is not an ability (e.g. No Ability component)."
    );
}

#[test]
fn recovery_timer_snapshots_cooldown_and_returns_to_ready() {
    let mut rec = AbilityRecovery::default();
    let out = AbilityMachine::recovery_on_enter(&mut rec, 0, &vec![]);
    assert!(out.task_dispatches.is_empty());
    let timer = out.timer.unwrap();
    assert_eq!(timer.nanos, 0);
    assert_eq!(
        AbilityMachine::transition(timer.state, &timer.event),
        Some(AbilityState::Ready)
    );
}
