use vstd::prelude::*;
use crate::ability::{AbilityError, TargetData};
use crate::ability_state::{AbilityDispatch, AbilityEvent, AbilityState};
use crate::tasks::{TaskScope, contains_entity};

verus! {

/// An actor and the abilities granted to it, in the order they were granted.
pub struct ActorRecord {
    pub entity: u64,
    pub granted: Vec<u64>,
}

/// An ability entity and the definition it was made from.
#[derive(Clone, Copy, Debug, PartialEq, Eq, Structural)]
pub struct AbilityRecord {
    pub entity: u64,
    pub handle: u64,
}

/// The state that the ability machine of `entity` is in.
#[derive(Clone, Copy, Debug, PartialEq, Eq, Structural)]
pub struct MachineRecord {
    pub entity: u64,
    pub state: AbilityState,
}

/// A new ability entity to spawn under `parent`, made from definition `handle`.
#[derive(Clone, Copy, Debug, PartialEq, Eq, Structural)]
pub struct SpawnAbility {
    pub handle: u64,
    pub parent: u64,
}

/// What the ability queries of the world see: the actors, the ability entities, the loaded
/// ability definitions (by handle) and the entities that run an ability machine.
pub struct Abilities {
    pub actors: Vec<ActorRecord>,
    pub abilities: Vec<AbilityRecord>,
    pub definitions: Vec<u64>,
    pub machines: Vec<MachineRecord>,
}

/// The state of the ability machine of `e`, if `e` runs one (the first record for `e` counts).
pub open spec fn machine_state_of(machines: Seq<MachineRecord>, e: u64) -> Option<AbilityState>
    decreases machines.len(),
{
    if machines.len() == 0 {
        None
    } else if machines[0].entity == e {
        Some(machines[0].state)
    } else {
        machine_state_of(machines.drop_first(), e)
    }
}

/// The abilities granted to `e`, if `e` is an actor (the first record for `e` counts).
pub open spec fn granted_of(actors: Seq<ActorRecord>, e: u64) -> Option<Seq<u64>>
    decreases actors.len(),
{
    if actors.len() == 0 {
        None
    } else if actors[0].entity == e {
        Some(actors[0].granted@)
    } else {
        granted_of(actors.drop_first(), e)
    }
}

/// The record of ability entity `e`, if it is one (the first record for `e` counts).
pub open spec fn record_of(abilities: Seq<AbilityRecord>, e: u64) -> Option<AbilityRecord>
    decreases abilities.len(),
{
    if abilities.len() == 0 {
        None
    } else if abilities[0].entity == e {
        Some(abilities[0])
    } else {
        record_of(abilities.drop_first(), e)
    }
}

/// Whether `e` is an ability entity made from definition `handle`.
pub open spec fn made_from(abilities: Seq<AbilityRecord>, e: u64, handle: u64) -> bool {
    match record_of(abilities, e) {
        Some(r) => r.handle == handle,
        None => false,
    }
}

/// The first of `granted` that is an ability made from `handle`.
pub open spec fn first_with_handle(granted: Seq<u64>, abilities: Seq<AbilityRecord>, handle: u64) -> Option<u64>
    decreases granted.len(),
{
    if granted.len() == 0 {
        None
    } else if made_from(abilities, granted[0], handle) {
        Some(granted[0])
    } else {
        first_with_handle(granted.drop_first(), abilities, handle)
    }
}

/// The abilities among `granted` that carry the tag (are listed in `tagged`), in order.
pub open spec fn tagged_abilities(granted: Seq<u64>, abilities: Seq<AbilityRecord>, tagged: Seq<u64>) -> Seq<u64>
    decreases granted.len(),
{
    if granted.len() == 0 {
        seq![]
    } else {
        let rest = tagged_abilities(granted.drop_last(), abilities, tagged);
        let e = granted.last();
        if record_of(abilities, e) is Some && tagged.contains(e) {
            rest.push(e)
        } else {
            rest
        }
    }
}

/// The ability entity of `actor` made from definition `handle`, if the actor has one.
pub open spec fn ability_entity_of(a: Abilities, actor: u64, handle: u64) -> Option<u64> {
    match granted_of(a.actors@, actor) {
        Some(g) => first_with_handle(g, a.abilities@, handle),
        None => None,
    }
}

/// The activation request for `actor`'s ability made from `handle`, aimed at `target`.
pub open spec fn activation_request(a: Abilities, actor: u64, handle: u64, target: TargetData) -> Option<AbilityDispatch> {
    match ability_entity_of(a, actor, handle) {
        Some(e) => Some(
            AbilityDispatch { ability: e, event: AbilityEvent::TryActivate { source: actor, target } },
        ),
        None => None,
    }
}

/// The activation request sent to an ability of `actor`.
pub open spec fn request_for(actor: u64, target: TargetData) -> spec_fn(u64) -> AbilityDispatch {
    |e: u64| AbilityDispatch { ability: e, event: AbilityEvent::TryActivate { source: actor, target } }
}

impl Abilities {
    /// Finds the record of `e` among the actors.
    pub fn find_actor(&self, e: u64) -> (r: Option<&Vec<u64>>)
        ensures
            match r {
                Some(g) => granted_of(self.actors@, e) == Some(g@),
                None => granted_of(self.actors@, e) is None,
            },
    {
        let mut i: usize = 0;
        proof {
            assert(self.actors@.skip(0) =~= self.actors@);
        }
        while i < self.actors.len()
            invariant
                i <= self.actors.len(),
                granted_of(self.actors@, e) == granted_of(self.actors@.skip(i as int), e),
            decreases self.actors.len() - i,
        {
            proof {
                assert(self.actors@.skip(i as int).drop_first() =~= self.actors@.skip(i + 1));
            }
            if self.actors[i].entity == e {
                return Some(&self.actors[i].granted);
            }
            i += 1;
        }
        None
    }

    /// Finds the record of ability entity `e`.
    pub fn find_ability(&self, e: u64) -> (r: Option<AbilityRecord>)
        ensures
            r == record_of(self.abilities@, e),
    {
        let mut i: usize = 0;
        proof {
            assert(self.abilities@.skip(0) =~= self.abilities@);
        }
        while i < self.abilities.len()
            invariant
                i <= self.abilities.len(),
                record_of(self.abilities@, e) == record_of(self.abilities@.skip(i as int), e),
            decreases self.abilities.len() - i,
        {
            proof {
                assert(self.abilities@.skip(i as int).drop_first() =~= self.abilities@.skip(i + 1));
            }
            if self.abilities[i].entity == e {
                return Some(self.abilities[i]);
            }
            i += 1;
        }
        None
    }

    /// Checks a grant of definition `ability` to `ability_parent`: only actors can be granted
    /// abilities. On success, the ability entity to spawn.
    pub fn grant_ability(&self, ability: u64, ability_parent: u64) -> (r: Result<
        SpawnAbility,
        AbilityError,
    >)
        ensures
            r == (if granted_of(self.actors@, ability_parent) is Some {
                Ok(SpawnAbility { handle: ability, parent: ability_parent })
            } else {
                Err(AbilityError::GrantingAbilityToNonActor(ability_parent))
            }),
    {
        match self.find_actor(ability_parent) {
            None => Err(AbilityError::GrantingAbilityToNonActor(ability_parent)),
            Some(_) => Ok(SpawnAbility { handle: ability, parent: ability_parent }),
        }
    }

    /// The definition (by handle) of ability entity `entity`; an error if `entity` is not an
    /// ability or its definition is not loaded.
    pub fn ability_def(&self, entity: u64) -> (r: Result<u64, AbilityError>)
        ensures
            r == (match record_of(self.abilities@, entity) {
                Some(rec) => if self.definitions@.contains(rec.handle) {
                    Ok(rec.handle)
                } else {
                    Err(AbilityError::AbilityDoesNotExist(entity))
                },
                None => Err(AbilityError::AbilityDoesNotExist(entity)),
            }),
    {
        match self.find_ability(entity) {
            None => Err(AbilityError::AbilityDoesNotExist(entity)),
            Some(rec) => {
                if contains_entity(&self.definitions, rec.handle) {
                    Ok(rec.handle)
                } else {
                    Err(AbilityError::AbilityDoesNotExist(entity))
                }
            },
        }
    }

    /// Finds the state of the ability machine of `e`.
    pub fn find_machine(&self, e: u64) -> (r: Option<AbilityState>)
        ensures
            r == machine_state_of(self.machines@, e),
    {
        let mut i: usize = 0;
        proof {
            assert(self.machines@.skip(0) =~= self.machines@);
        }
        while i < self.machines.len()
            invariant
                i <= self.machines.len(),
                machine_state_of(self.machines@, e) == machine_state_of(self.machines@.skip(i as int), e),
            decreases self.machines.len() - i,
        {
            proof {
                assert(self.machines@.skip(i as int).drop_first() =~= self.machines@.skip(i + 1));
            }
            if self.machines[i].entity == e {
                return Some(self.machines[i].state);
            }
            i += 1;
        }
        None
    }

    /// Whether the ability machine of `ability_entity` is in the ready state; an entity without
    /// an ability machine is not ready.
    pub fn is_ability_ready(&self, ability_entity: u64) -> (r: bool)
        ensures
            r == (machine_state_of(self.machines@, ability_entity) == Some(AbilityState::Ready)),
    {
        match self.find_machine(ability_entity) {
            Some(AbilityState::Ready) => true,
            _ => false,
        }
    }

    /// The first ability granted to `actor` that was made from definition `handle`.
    pub fn get_ability_entity_by_handle(&self, actor: u64, handle: u64) -> (r: Option<u64>)
        ensures
            r == ability_entity_of(*self, actor, handle),
    {
        let granted = match self.find_actor(actor) {
            Some(g) => g,
            None => return None,
        };
        let mut i: usize = 0;
        proof {
            assert(granted@.skip(0) =~= granted@);
        }
        while i < granted.len()
            invariant
                i <= granted.len(),
                granted_of(self.actors@, actor) == Some(granted@),
                first_with_handle(granted@, self.abilities@, handle) == first_with_handle(
                    granted@.skip(i as int),
                    self.abilities@,
                    handle,
                ),
            decreases granted.len() - i,
        {
            let e = granted[i];
            proof {
                assert(granted@.skip(i as int).drop_first() =~= granted@.skip(i + 1));
                assert(granted@.skip(i as int)[0] == e);
            }
            if let Some(rec) = self.find_ability(e) {
                if rec.handle == handle {
                    return Some(e);
                }
            }
            i += 1;
        }
        None
    }

    /// Whether `actor` has been granted an ability made from definition `handle`.
    pub fn has_ability(&self, actor: u64, handle: u64) -> (r: bool)
        ensures
            r == ability_entity_of(*self, actor, handle) is Some,
    {
        self.get_ability_entity_by_handle(actor, handle).is_some()
    }

    /// The abilities granted to `actor` that carry a tag, given as the list `tagged` of entities
    /// that carry it; none if `actor` is not an actor.
    pub fn get_abilities_by_tag(&self, actor: u64, tagged: &Vec<u64>) -> (r: Vec<u64>)
        ensures
            r@ == (match granted_of(self.actors@, actor) {
                Some(g) => tagged_abilities(g, self.abilities@, tagged@),
                None => seq![],
            }),
    {
        let granted = match self.find_actor(actor) {
            Some(g) => g,
            None => return Vec::new(),
        };
        let mut r: Vec<u64> = Vec::new();
        let mut i: usize = 0;
        while i < granted.len()
            invariant
                i <= granted.len(),
                granted_of(self.actors@, actor) == Some(granted@),
                r@ == tagged_abilities(granted@.take(i as int), self.abilities@, tagged@),
            decreases granted.len() - i,
        {
            let e = granted[i];
            proof {
                assert(granted@.take(i + 1).drop_last() =~= granted@.take(i as int));
            }
            let is_ability = self.find_ability(e).is_some();
            if is_ability && contains_entity(tagged, e) {
                r.push(e);
            }
            i += 1;
        }
        proof {
            assert(granted@.take(granted@.len() as int) =~= granted@);
        }
        r
    }

    /// The activation request for `actor`'s ability made from definition `handle`; none if the
    /// actor has no such ability.
    pub fn try_activate(&self, actor: u64, handle: u64, target_data: TargetData) -> (r: Option<
        AbilityDispatch,
    >)
        ensures
            r == activation_request(*self, actor, handle, target_data),
    {
        match self.get_ability_entity_by_handle(actor, handle) {
            None => None,
            Some(e) => Some(
                AbilityDispatch {
                    ability: e,
                    event: AbilityEvent::TryActivate { source: actor, target: target_data },
                },
            ),
        }
    }

    /// Activation requests for each ability of `actor` that carries a tag, in order.
    pub fn try_activate_by_tag(&self, actor_id: u64, tagged: &Vec<u64>, target_data: TargetData) -> (r:
        Vec<AbilityDispatch>)
        ensures
            r@ == (match granted_of(self.actors@, actor_id) {
                Some(g) => tagged_abilities(g, self.abilities@, tagged@),
                None => seq![],
            }).map_values(request_for(actor_id, target_data)),
    {
        let abilities = self.get_abilities_by_tag(actor_id, tagged);
        let mut r: Vec<AbilityDispatch> = Vec::new();
        let mut i: usize = 0;
        while i < abilities.len()
            invariant
                i <= abilities.len(),
                r@ =~= abilities@.take(i as int).map_values(request_for(actor_id, target_data)),
            decreases abilities.len() - i,
        {
            r.push(
                AbilityDispatch {
                    ability: abilities[i],
                    event: AbilityEvent::TryActivate { source: actor_id, target: target_data },
                },
            );
            i += 1;
        }
        proof {
            assert(abilities@.take(abilities@.len() as int) =~= abilities@);
        }
        r
    }

    /// A scope for sending events to task `task_id`.
    pub fn task(&self, task_id: u64) -> (r: TaskScope)
        ensures
            r.task_id == Some(task_id),
    {
        TaskScope::new(task_id)
    }
}

/// An activation request is produced exactly when the actor has an ability made from the
/// definition, and it goes to that ability with the actor as its source.
pub proof fn lemma_request_iff_granted(a: Abilities, actor: u64, handle: u64, target: TargetData)
    ensures
        activation_request(a, actor, handle, target) is Some <==> ability_entity_of(
            a,
            actor,
            handle,
        ) is Some,
        ability_entity_of(a, actor, handle) matches Some(e) ==> activation_request(
            a,
            actor,
            handle,
            target,
        ) == Some(
            AbilityDispatch { ability: e, event: AbilityEvent::TryActivate { source: actor, target } },
        ),
{
}

/// The ability found for a definition is granted to the actor and made from that definition.
pub proof fn lemma_found_ability_is_granted(granted: Seq<u64>, abilities: Seq<AbilityRecord>, handle: u64)
    ensures
        first_with_handle(granted, abilities, handle) matches Some(e) ==> granted.contains(e)
            && made_from(abilities, e, handle),
        first_with_handle(granted, abilities, handle) is None ==> forall|i: int|
            0 <= i < granted.len() ==> !made_from(abilities, #[trigger] granted[i], handle),
    decreases granted.len(),
{
    if granted.len() > 0 {
        lemma_found_ability_is_granted(granted.drop_first(), abilities, handle);
        if let Some(e) = first_with_handle(granted, abilities, handle) {
            if !made_from(abilities, granted[0], handle) {
                let k = choose|k: int|
                    0 <= k < granted.drop_first().len() && granted.drop_first()[k] == e;
                assert(granted[k + 1] == e);
            } else {
                assert(granted[0] == e);
            }
        }
        if first_with_handle(granted, abilities, handle) is None {
            assert forall|i: int| 0 <= i < granted.len() implies !made_from(
                abilities,
                #[trigger] granted[i],
                handle,
            ) by {
                if i > 0 {
                    assert(granted[i] == granted.drop_first()[i - 1]);
                }
            }
        }
    }
}

/// Every ability found by tag is granted to the actor, is an ability entity and carries the
/// tag; every granted ability entity that carries the tag is found.
pub proof fn lemma_tagged_abilities_exact(granted: Seq<u64>, abilities: Seq<AbilityRecord>, tagged: Seq<u64>)
    ensures
        forall|e: u64|
            #[trigger] tagged_abilities(granted, abilities, tagged).contains(e) <==> (granted.contains(
                e,
            ) && record_of(abilities, e) is Some && tagged.contains(e)),
    decreases granted.len(),
{
    if granted.len() > 0 {
        let rest = granted.drop_last();
        lemma_tagged_abilities_exact(rest, abilities, tagged);
        let r = tagged_abilities(granted, abilities, tagged);
        let rr = tagged_abilities(rest, abilities, tagged);
        assert forall|e: u64| #[trigger] r.contains(e) <==> (granted.contains(e) && record_of(
            abilities,
            e,
        ) is Some && tagged.contains(e)) by {
            if r.contains(e) {
                let k = choose|k: int| 0 <= k < r.len() && r[k] == e;
                if k < rr.len() {
                    assert(r[k] == rr[k]);
                    assert(rr.contains(e));
                    let m = choose|m: int| 0 <= m < rest.len() && rest[m] == e;
                    assert(granted[m] == e);
                } else {
                    assert(granted[granted.len() - 1] == e);
                }
            }
            if granted.contains(e) && record_of(abilities, e) is Some && tagged.contains(e) {
                let m = choose|m: int| 0 <= m < granted.len() && granted[m] == e;
                if m < granted.len() - 1 {
                    assert(rest[m] == e);
                    assert(rr.contains(e));
                    let k = choose|k: int| 0 <= k < rr.len() && rr[k] == e;
                    assert(r[k] == e);
                } else {
                    assert(r[r.len() - 1] == e);
                }
            }
        }
    }
}

} // verus!
