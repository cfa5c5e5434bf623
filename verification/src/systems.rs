use vstd::prelude::*;
use crate::ability::{TargetData, target_entity};

verus! {

/// Every value of `s` is true.
pub open spec fn all_true(s: Seq<bool>) -> bool {
    forall|i: int| 0 <= i < s.len() ==> #[trigger] s[i]
}

/// Some value of `s` is true.
pub open spec fn any_true(s: Seq<bool>) -> bool {
    exists|i: int| 0 <= i < s.len() && #[trigger] s[i]
}

/// Whether all values of `values` are true.
pub fn all_of(values: &Vec<bool>) -> (r: bool)
    ensures
        r == all_true(values@),
{
    let mut i: usize = 0;
    while i < values.len()
        invariant
            i <= values.len(),
            forall|j: int| 0 <= j < i ==> values@[j],
        decreases values.len() - i,
    {
        if !values[i] {
            return false;
        }
        i += 1;
    }
    true
}

/// Whether some value of `values` is true.
pub fn any_of(values: &Vec<bool>) -> (r: bool)
    ensures
        r == any_true(values@),
{
    let mut i: usize = 0;
    while i < values.len()
        invariant
            i <= values.len(),
            forall|j: int| 0 <= j < i ==> !values@[j],
        decreases values.len() - i,
    {
        if values[i] {
            return true;
        }
        i += 1;
    }
    false
}

/// Whether an ability may be activated: the caller's extra condition holds and every cost
/// condition of the ability's definition holds (the caster can pay).
pub fn can_activate_ability(conditions_met: bool, cost_conditions: &Vec<bool>) -> (r: bool)
    ensures
        r == (conditions_met && all_true(cost_conditions@)),
{
    if !conditions_met {
        return false;
    }
    all_of(cost_conditions)
}

/// Raised to commit an activated ability: its execution plans run, then its costs are paid.
#[derive(Clone, Copy, Debug, PartialEq, Eq, Structural)]
pub struct ActivateAbility {
    pub target: TargetData,
    pub source: u64,
    pub ability: u64,
}

/// The entities whose attributes an ability's plans read and write: the caster, a distinct
/// target if there is one, and the ability itself.
#[derive(Clone, Copy, Debug, PartialEq, Eq, Structural)]
pub struct AbilityContextEntities {
    pub caster: u64,
    pub target: Option<u64>,
    pub ability: u64,
}

/// The target of the plans' context: the aimed-at entity when it differs from the caster.
pub open spec fn distinct_target(source: u64, target: TargetData) -> Option<u64> {
    match target_entity(source, target) {
        Some(t) => if t == source {
            None
        } else {
            Some(t)
        },
        None => None,
    }
}

impl ActivateAbility {
    /// The entities to fetch for the ability's plans. A cast on the caster itself (or on a
    /// location) has no separate target.
    pub fn context_entities(&self) -> (r: AbilityContextEntities)
        ensures
            r.caster == self.source,
            r.ability == self.ability,
            r.target == distinct_target(self.source, self.target),
    {
        let target = match self.target {
            TargetData::SelfCast => None,
            TargetData::Target(t) => if t == self.source {
                None
            } else {
                Some(t)
            },
            TargetData::Location(..) => None,
        };
        AbilityContextEntities { caster: self.source, target, ability: self.ability }
    }
}

} // verus!
