use vstd::prelude::*;
use crate::modifier::{AbilitySubject, EffectSubject};

verus! {

/// Role marker: the actor that causes something.
#[derive(Clone, Copy, Debug, Default)]
pub struct Source;

/// Role marker: the actor that something is aimed at.
#[derive(Clone, Copy, Debug, Default)]
pub struct Target;

/// Role marker: the actor that casts an ability.
#[derive(Clone, Copy, Debug, Default)]
pub struct Caster;

/// What an actor expression sees: one datum per actor (the single actor).
#[derive(Clone, Copy, Debug)]
pub struct ActorExprContext<A> {
    pub actor_context: A,
}

/// What an effect expression sees: one datum per participant. Without a target, the target role
/// falls back to the source.
#[derive(Clone, Copy, Debug)]
pub struct EffectExprContext<A> {
    pub source_actor: A,
    pub target_actor: Option<A>,
    pub effect_holder: A,
}

/// What an ability expression sees: one datum per participant. Without a target, the target
/// role falls back to the caster.
#[derive(Clone, Copy, Debug)]
pub struct AbilityExprContext<A> {
    pub caster_ref: A,
    pub target_ref: Option<A>,
    pub ability_ref: A,
}

impl<A: Copy> ActorExprContext<A> {
    /// The datum of the actor.
    pub fn get_actor(&self) -> (r: A)
        ensures
            r == self.actor_context,
    {
        self.actor_context
    }
}

impl<A: Copy> EffectExprContext<A> {
    /// The datum of the participant that `who` names.
    pub open spec fn subject(self, who: EffectSubject) -> A {
        match who {
            EffectSubject::Target => match self.target_actor {
                Some(t) => t,
                None => self.source_actor,
            },
            EffectSubject::Source => self.source_actor,
            EffectSubject::Effect => self.effect_holder,
        }
    }

    /// The context with the datum of the participant that `who` names replaced by `v`.
    pub open spec fn with_subject(self, who: EffectSubject, v: A) -> Self {
        match who {
            EffectSubject::Target => match self.target_actor {
                Some(_) => EffectExprContext { target_actor: Some(v), ..self },
                None => EffectExprContext { source_actor: v, ..self },
            },
            EffectSubject::Source => EffectExprContext { source_actor: v, ..self },
            EffectSubject::Effect => EffectExprContext { effect_holder: v, ..self },
        }
    }

    /// The datum of the participant that `who` names.
    pub fn get_actor(&self, who: EffectSubject) -> (r: A)
        ensures
            r == self.subject(who),
    {
        match who {
            EffectSubject::Target => match self.target_actor {
                Some(t) => t,
                None => self.source_actor,
            },
            EffectSubject::Source => self.source_actor,
            EffectSubject::Effect => self.effect_holder,
        }
    }

    /// Replaces the datum of the participant that `who` names.
    pub fn set_actor(&mut self, who: EffectSubject, v: A)
        ensures
            *final(self) == old(self).with_subject(who, v),
            who == EffectSubject::Source ==> final(self).source_actor == v
                && final(self).target_actor == old(self).target_actor
                && final(self).effect_holder == old(self).effect_holder,
            who == EffectSubject::Effect ==> final(self).effect_holder == v
                && final(self).source_actor == old(self).source_actor
                && final(self).target_actor == old(self).target_actor,
            who == EffectSubject::Target && old(self).target_actor is Some ==> final(self).target_actor
                == Some(v) && final(self).source_actor == old(self).source_actor
                && final(self).effect_holder == old(self).effect_holder,
            who == EffectSubject::Target && old(self).target_actor is None ==> final(self).source_actor
                == v && final(self).target_actor is None && final(self).effect_holder
                == old(self).effect_holder,
    {
        match who {
            EffectSubject::Target => {
                if self.target_actor.is_some() {
                    self.target_actor = Some(v);
                } else {
                    self.source_actor = v;
                }
            },
            EffectSubject::Source => {
                self.source_actor = v;
            },
            EffectSubject::Effect => {
                self.effect_holder = v;
            },
        }
    }
}

impl<A: Copy> AbilityExprContext<A> {
    /// The datum of the participant that `who` names.
    pub open spec fn subject(self, who: AbilitySubject) -> A {
        match who {
            AbilitySubject::Caster => self.caster_ref,
            AbilitySubject::Target => match self.target_ref {
                Some(t) => t,
                None => self.caster_ref,
            },
            AbilitySubject::Ability => self.ability_ref,
        }
    }

    /// The datum of the participant that an effect subject names in an ability context: the
    /// source is the caster and the effect is the ability.
    pub open spec fn effect_subject(self, who: EffectSubject) -> A {
        match who {
            EffectSubject::Target => self.subject(AbilitySubject::Target),
            EffectSubject::Source => self.caster_ref,
            EffectSubject::Effect => self.ability_ref,
        }
    }

    /// The datum of the participant that `who` names.
    pub fn get_actor(&self, who: AbilitySubject) -> (r: A)
        ensures
            r == self.subject(who),
            who == AbilitySubject::Caster ==> r == self.caster_ref,
            who == AbilitySubject::Ability ==> r == self.ability_ref,
            who == AbilitySubject::Target ==> r == (match self.target_ref {
                Some(t) => t,
                None => self.caster_ref,
            }),
    {
        match who {
            AbilitySubject::Caster => self.caster_ref,
            AbilitySubject::Target => match self.target_ref {
                Some(t) => t,
                None => self.caster_ref,
            },
            AbilitySubject::Ability => self.ability_ref,
        }
    }

    /// The datum of the participant that an effect subject names in an ability context.
    pub fn get_effect_subject(&self, who: EffectSubject) -> (r: A)
        ensures
            r == self.effect_subject(who),
    {
        match who {
            EffectSubject::Target => self.get_actor(AbilitySubject::Target),
            EffectSubject::Source => self.caster_ref,
            EffectSubject::Effect => self.ability_ref,
        }
    }
}

/// Writing a participant's datum and reading it back gives the written datum, and the other
/// participants keep theirs (the target falls back to the source when there is none).
pub proof fn lemma_write_then_read<A: Copy>(ctx: EffectExprContext<A>, who: EffectSubject, v: A)
    ensures
        ctx.with_subject(who, v).subject(who) == v,
        ctx.with_subject(who, v).target_actor is Some == ctx.target_actor is Some,
        who == EffectSubject::Effect ==> ctx.with_subject(who, v).source_actor == ctx.source_actor
            && ctx.with_subject(who, v).target_actor == ctx.target_actor,
        who != EffectSubject::Effect ==> ctx.with_subject(who, v).effect_holder == ctx.effect_holder,
{
}

/// Writing one participant's datum leaves every other participant as it was. Writing the source
/// touches only the source; writing the effect touches only the effect; writing the target
/// touches only the target when there is one, and only the source (which stands in for it) when
/// there is none.
pub proof fn lemma_write_touches_only_subject<A: Copy>(ctx: EffectExprContext<A>, who: EffectSubject, v: A)
    ensures
        who == EffectSubject::Source ==> ctx.with_subject(who, v).source_actor == v
            && ctx.with_subject(who, v).target_actor == ctx.target_actor
            && ctx.with_subject(who, v).effect_holder == ctx.effect_holder,
        who == EffectSubject::Effect ==> ctx.with_subject(who, v).effect_holder == v
            && ctx.with_subject(who, v).source_actor == ctx.source_actor
            && ctx.with_subject(who, v).target_actor == ctx.target_actor,
        who == EffectSubject::Target && ctx.target_actor is Some ==> ctx.with_subject(who, v).target_actor
            == Some(v) && ctx.with_subject(who, v).source_actor == ctx.source_actor
            && ctx.with_subject(who, v).effect_holder == ctx.effect_holder,
        who == EffectSubject::Target && ctx.target_actor is None ==> ctx.with_subject(who, v).source_actor
            == v && ctx.with_subject(who, v).target_actor is None && ctx.with_subject(
            who,
            v,
        ).effect_holder == ctx.effect_holder,
{
}

/// In an ability context each role names its own participant: the caster role the caster, the
/// ability role the ability, and the target role the target whenever there is one; only without
/// a target does the target role fall back to the caster. In effect terms the source is the
/// caster, the effect is the ability, and the target is the ability's target.
pub proof fn lemma_ability_roles<A: Copy>(ctx: AbilityExprContext<A>)
    ensures
        ctx.subject(AbilitySubject::Caster) == ctx.caster_ref,
        ctx.subject(AbilitySubject::Ability) == ctx.ability_ref,
        forall|t: A| ctx.target_ref == Some(t) ==> ctx.subject(AbilitySubject::Target) == t,
        ctx.target_ref is None ==> ctx.subject(AbilitySubject::Target) == ctx.caster_ref,
        ctx.effect_subject(EffectSubject::Source) == ctx.caster_ref,
        ctx.effect_subject(EffectSubject::Effect) == ctx.ability_ref,
        forall|t: A| ctx.target_ref == Some(t) ==> ctx.effect_subject(EffectSubject::Target) == t,
        ctx.target_ref is None ==> ctx.effect_subject(EffectSubject::Target) == ctx.caster_ref,
{
}

/// An effect to apply: raised on `entity` (the target), applied by `source` to `target`.
#[derive(Clone, Copy, Debug, PartialEq, Eq, Structural)]
pub struct EffectApplication {
    pub entity: u64,
    pub source: u64,
    pub target: u64,
    pub handle: u64,
}

/// The answer to a request for the global actor: the one that exists, or that one must be
/// created.
#[derive(Clone, Copy, Debug, PartialEq, Eq, Structural)]
pub enum GlobalActor {
    Existing(u64),
    Create,
}

/// The global actor among `actors` (at most one), or that one must be created.
pub open spec fn global_actor_of(actors: Seq<u64>) -> GlobalActor {
    if actors.len() == 0 {
        GlobalActor::Create
    } else {
        GlobalActor::Existing(actors[0])
    }
}

/// The global actor and the global effects, which apply to every actor.
pub struct Vitality {
    pub global_actors: Vec<u64>,
    pub global_effects: Vec<u64>,
}

/// The application of the effect made from `handle` by `source` to `target`.
pub open spec fn application(target: u64, source: u64, handle: u64) -> EffectApplication {
    EffectApplication { entity: target, source, target, handle }
}

impl Vitality {
    /// Applies the effect made from `handle` by `source` to `target`.
    pub fn apply_effect_to_target(&self, target: u64, source: u64, handle: u64) -> (r:
        EffectApplication)
        ensures
            r == application(target, source, handle),
    {
        EffectApplication { entity: target, source, target, handle }
    }

    /// Applies the effect made from `handle` by `source` to itself.
    pub fn apply_effect_to_self(&self, source: u64, handle: u64) -> (r: EffectApplication)
        ensures
            r == application(source, source, handle),
    {
        self.apply_effect_to_target(source, source, handle)
    }

    /// Adds an effect to the global effects.
    pub fn add_global_effect(&mut self, handle: u64)
        ensures
            final(self).global_effects@ == old(self).global_effects@.push(handle),
            final(self).global_actors@ == old(self).global_actors@,
    {
        self.global_effects.push(handle);
    }

    /// Gets the global actor, or says that one must be created (there is none yet). Global
    /// effects are attached to this actor and applied to every actor. There is at most one.
    pub fn get_global_actor(&self) -> (r: GlobalActor)
        requires
            self.global_actors@.len() <= 1,
        ensures
            r == global_actor_of(self.global_actors@),
    {
        if self.global_actors.len() == 0 {
            GlobalActor::Create
        } else {
            GlobalActor::Existing(self.global_actors[0])
        }
    }

    /// Records the global actor that was created because there was none.
    pub fn add_global_actor(&mut self, actor: u64)
        requires
            old(self).global_actors@.len() == 0,
        ensures
            final(self).global_actors@ == seq![actor],
            final(self).global_effects@ == old(self).global_effects@,
    {
        self.global_actors.push(actor);
        proof {
            assert(self.global_actors@ =~= seq![actor]);
        }
    }

    /// Applies every global effect, from the global actor, to `target_actor`, in order. When
    /// there is no global actor yet, none is applied and the answer is that one must be created
    /// first.
    pub fn spawn_global_effects(&self, target_actor: u64) -> (r: Option<Vec<EffectApplication>>)
        requires
            self.global_actors@.len() <= 1,
        ensures
            (r is None) == (self.global_actors@.len() == 0),
            r matches Some(v) ==> v@ == self.global_effects@.map_values(
                |h: u64| application(target_actor, self.global_actors@[0], h),
            ),
    {
        let global_actor = match self.get_global_actor() {
            GlobalActor::Create => return None,
            GlobalActor::Existing(a) => a,
        };
        let mut r: Vec<EffectApplication> = Vec::new();
        let mut i: usize = 0;
        while i < self.global_effects.len()
            invariant
                i <= self.global_effects.len(),
                global_actor == self.global_actors@[0],
                r@ =~= self.global_effects@.take(i as int).map_values(
                    |h: u64| application(target_actor, global_actor, h),
                ),
            decreases self.global_effects.len() - i,
        {
            r.push(self.apply_effect_to_target(target_actor, global_actor, self.global_effects[i]));
            i += 1;
        }
        proof {
            assert(self.global_effects@.take(self.global_effects@.len() as int)
                =~= self.global_effects@);
        }
        Some(r)
    }
}

/// Applying an effect to oneself is applying it with oneself as both source and target.
pub proof fn lemma_self_application(source: u64, handle: u64)
    ensures
        application(source, source, handle).source == application(source, source, handle).target,
        application(source, source, handle).entity == source,
{
}

} // verus!
