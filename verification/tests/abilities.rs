use vitality::abilities::{AbilityRecord, Abilities, ActorRecord, MachineRecord, SpawnAbility};
use vitality::ability::{AbilityError, TargetData};
use vitality::ability_state::{AbilityDispatch, AbilityEvent, AbilityState};
use vitality::systems::{can_activate_ability, AbilityContextEntities, ActivateAbility};

fn world() -> Abilities {
    Abilities {
        actors: vec![
            ActorRecord { entity: 1, granted: vec![10, 11, 12] },
            ActorRecord { entity: 2, granted: vec![] },
        ],
        abilities: vec![
            AbilityRecord { entity: 10, handle: 100 },
            AbilityRecord { entity: 11, handle: 200 },
            AbilityRecord { entity: 12, handle: 200 },
        ],
        definitions: vec![100],
        machines: vec![
            MachineRecord { entity: 10, state: AbilityState::Ready },
            MachineRecord { entity: 11, state: AbilityState::Recovery },
            MachineRecord { entity: 50, state: AbilityState::Ready },
        ],
    }
}

#[test]
fn grant_requires_actor() {
    let w = world();
    assert_eq!(w.grant_ability(100, 1), Ok(SpawnAbility { handle: 100, parent: 1 }));
    assert_eq!(w.grant_ability(100, 10), Err(AbilityError::GrantingAbilityToNonActor(10)));
}

#[test]
fn ability_definition_lookup() {
    let w = world();
    assert_eq!(w.ability_def(10), Ok(100));
    assert_eq!(w.ability_def(11), Err(AbilityError::AbilityDoesNotExist(11)));
    assert_eq!(w.ability_def(1), Err(AbilityError::AbilityDoesNotExist(1)));
}

#[test]
fn ability_readiness() {
    let w = world();
    assert!(w.is_ability_ready(10));
    assert!(!w.is_ability_ready(11));
    assert!(!w.is_ability_ready(12));
    assert!(!w.is_ability_ready(99));
    // only the machine is asked: an entity without an ability record but with a ready machine
    assert!(w.is_ability_ready(50));
}

#[test]
fn find_ability_by_handle() {
    let w = world();
    assert_eq!(w.get_ability_entity_by_handle(1, 200), Some(11));
    assert_eq!(w.get_ability_entity_by_handle(1, 300), None);
    assert_eq!(w.get_ability_entity_by_handle(2, 100), None);
    assert_eq!(w.get_ability_entity_by_handle(7, 100), None);
    assert!(w.has_ability(1, 100));
    assert!(!w.has_ability(2, 100));
}

#[test]
fn abilities_by_tag() {
    let w = world();
    assert_eq!(w.get_abilities_by_tag(1, &vec![12, 10, 99]), vec![10, 12]);
    assert_eq!(w.get_abilities_by_tag(5, &vec![10]), Vec::<u64>::new());
}

#[test]
fn activation_requests() {
    let w = world();
    assert_eq!(
        w.try_activate(1, 100, TargetData::SelfCast),
        Some(AbilityDispatch {
            ability: 10,
            event: AbilityEvent::TryActivate { source: 1, target: TargetData::SelfCast }
        })
    );
    assert_eq!(w.try_activate(2, 100, TargetData::SelfCast), None);
    let by_tag = w.try_activate_by_tag(1, &vec![11, 12], TargetData::Target(2));
    assert_eq!(
        by_tag,
        vec![
            AbilityDispatch {
                ability: 11,
                event: AbilityEvent::TryActivate { source: 1, target: TargetData::Target(2) }
            },
            AbilityDispatch {
                ability: 12,
                event: AbilityEvent::TryActivate { source: 1, target: TargetData::Target(2) }
            },
        ]
    );
    assert_eq!(w.task(4).task_id, Some(4));
}

#[test]
fn activation_cost_check() {
    assert!(can_activate_ability(true, &vec![true, true]));
    assert!(can_activate_ability(true, &vec![]));
    assert!(!can_activate_ability(true, &vec![true, false]));
    assert!(!can_activate_ability(false, &vec![true]));
}

#[test]
fn activation_context_entities() {
    let self_cast = ActivateAbility { target: TargetData::SelfCast, source: 1, ability: 9 };
    assert_eq!(
        self_cast.context_entities(),
        AbilityContextEntities { caster: 1, target: None, ability: 9 }
    );
    let on_self = ActivateAbility { target: TargetData::Target(1), source: 1, ability: 9 };
    assert_eq!(on_self.context_entities().target, None);
    let other = ActivateAbility { target: TargetData::Target(2), source: 1, ability: 9 };
    assert_eq!(other.context_entities().target, Some(2));
    let place = ActivateAbility { target: TargetData::Location(1, 2, 3), source: 1, ability: 9 };
    assert_eq!(place.context_entities().target, None);
}
