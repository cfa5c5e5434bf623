use vstd::prelude::*;
use vstd::string::StringExecFns;
use smol_str::SmolStr;
use crate::attributes::{Attribute, GameValue};
use crate::context::EffectExprContext;
use crate::tasks::contains_entity;

verus! {

#[verifier::external_type_specification]
#[verifier::external_body]
pub struct ExSmolStr(smol_str::SmolStr);

/// The text that a `SmolStr` holds (what its `as_str` gives back).
pub uninterp spec fn smol_str_text(s: SmolStr) -> Seq<char>;

/// Trusted: `SmolStr::from(String)` builds a `SmolStr` that holds exactly the given text.
#[verifier::external_body]
fn smol_str_from_string(text: String) -> (r: SmolStr)
    ensures
        smol_str_text(r) == text@,
{
    SmolStr::from(text)
}

/// Marker carried by every modifier entity.
#[derive(Clone, Copy, Debug, Default)]
pub struct ModifierMarker;

/// Read access to a modifier for inspection tools.
pub trait AccessModifier {
    fn describe(&self) -> String;

    fn name(&self) -> String;
}

/// Whose attributes an effect modifier reads or writes.
#[derive(Clone, Copy, Debug, PartialEq, Eq, Structural)]
pub enum EffectSubject {
    Target,
    Source,
    Effect,
}

/// Whose attributes an ability expression reads or writes.
#[derive(Clone, Copy, Debug, PartialEq, Eq, Structural)]
pub enum AbilitySubject {
    Caster,
    Ability,
    Target,
}

/// The only subject of an actor expression.
#[derive(Clone, Copy, Debug, PartialEq, Eq, Structural)]
pub enum ActorSubject {
    Actor,
}

pub open spec fn effect_subject_text(s: EffectSubject) -> Seq<char> {
    match s {
        EffectSubject::Target => "target"@,
        EffectSubject::Source => "source"@,
        EffectSubject::Effect => "effect"@,
    }
}

pub open spec fn ability_subject_text(s: AbilitySubject) -> Seq<char> {
    match s {
        AbilitySubject::Caster => "caster"@,
        AbilitySubject::Ability => "ability"@,
        AbilitySubject::Target => "target"@,
    }
}

pub open spec fn actor_subject_text(s: ActorSubject) -> Seq<char> {
    match s {
        ActorSubject::Actor => "actor"@,
    }
}

impl EffectSubject {
    /// The lower-case name of the subject, as it is displayed.
    pub fn to_display_string(&self) -> (r: String)
        ensures
            r@ == effect_subject_text(*self),
    {
        match self {
            EffectSubject::Target => String::from_str("target"),
            EffectSubject::Source => String::from_str("source"),
            EffectSubject::Effect => String::from_str("effect"),
        }
    }

    /// The displayed name as a small string.
    pub fn to_smol_str(self) -> (r: SmolStr)
        ensures
            smol_str_text(r) == effect_subject_text(self),
    {
        smol_str_from_string(self.to_display_string())
    }
}

impl AbilitySubject {
    /// The lower-case name of the subject, as it is displayed.
    pub fn to_display_string(&self) -> (r: String)
        ensures
            r@ == ability_subject_text(*self),
    {
        match self {
            AbilitySubject::Caster => String::from_str("caster"),
            AbilitySubject::Ability => String::from_str("ability"),
            AbilitySubject::Target => String::from_str("target"),
        }
    }

    /// The displayed name as a small string.
    pub fn to_smol_str(self) -> (r: SmolStr)
        ensures
            smol_str_text(r) == ability_subject_text(self),
    {
        smol_str_from_string(self.to_display_string())
    }
}

impl ActorSubject {
    /// The lower-case name of the subject, as it is displayed.
    pub fn to_display_string(&self) -> (r: String)
        ensures
            r@ == actor_subject_text(*self),
    {
        match self {
            ActorSubject::Actor => String::from_str("actor"),
        }
    }

    /// The displayed name as a small string.
    pub fn to_smol_str(self) -> (r: SmolStr)
        ensures
            smol_str_text(r) == actor_subject_text(self),
    {
        smol_str_from_string(self.to_display_string())
    }
}

/// The dependencies of a modifier's expression, split by whether an observer can be attached
/// for them (their attribute type is registered) or not.
pub struct DependencySplit {
    pub registered: Vec<u64>,
    pub unregistered: Vec<u64>,
}

/// The dependencies among `deps` that are (or are not) in `known`, in order.
pub open spec fn deps_split(deps: Seq<u64>, known: Seq<u64>, want: bool) -> Seq<u64>
    decreases deps.len(),
{
    if deps.len() == 0 {
        seq![]
    } else {
        let rest = deps_split(deps.drop_last(), known, want);
        if known.contains(deps.last()) == want {
            rest.push(deps.last())
        } else {
            rest
        }
    }
}

/// Splits the dependencies `deps` of a persistent modifier's expression (attribute types, by
/// id) into those with a registered dependency observer in `known`, which get one attached to
/// the actor, and the rest, which are reported as errors and skipped.
pub fn split_dependencies(deps: &Vec<u64>, known: &Vec<u64>) -> (r: DependencySplit)
    ensures
        r.registered@ == deps_split(deps@, known@, true),
        r.unregistered@ == deps_split(deps@, known@, false),
{
    let mut registered: Vec<u64> = Vec::new();
    let mut unregistered: Vec<u64> = Vec::new();
    let mut i: usize = 0;
    while i < deps.len()
        invariant
            i <= deps.len(),
            registered@ == deps_split(deps@.take(i as int), known@, true),
            unregistered@ == deps_split(deps@.take(i as int), known@, false),
        decreases deps.len() - i,
    {
        let d = deps[i];
        proof {
            assert(deps@.take(i + 1).drop_last() =~= deps@.take(i as int));
        }
        if contains_entity(known, d) {
            registered.push(d);
        } else {
            unregistered.push(d);
        }
        i += 1;
    }
    proof {
        assert(deps@.take(deps@.len() as int) =~= deps@);
    }
    DependencySplit { registered, unregistered }
}

/// Every dependency lands in exactly one group: the registered group holds just the known ones
/// and the other group the rest, and together they are as many as the dependencies.
pub proof fn lemma_split_partitions(deps: Seq<u64>, known: Seq<u64>)
    ensures
        deps_split(deps, known, true).len() + deps_split(deps, known, false).len() == deps.len(),
        forall|d: u64| #[trigger] deps_split(deps, known, true).contains(d) <==> (deps.contains(d)
            && known.contains(d)),
        forall|d: u64| #[trigger] deps_split(deps, known, false).contains(d) <==> (deps.contains(d)
            && !known.contains(d)),
    decreases deps.len(),
{
    if deps.len() > 0 {
        let rest = deps.drop_last();
        lemma_split_partitions(rest, known);
        assert forall|want: bool, d: u64| #[trigger] deps_split(deps, known, want).contains(d) <==> (
        deps.contains(d) && known.contains(d) == want) by {
            let r = deps_split(deps, known, want);
            let rr = deps_split(rest, known, want);
            if r.contains(d) {
                let k = choose|k: int| 0 <= k < r.len() && r[k] == d;
                if k < rr.len() {
                    assert(r[k] == rr[k]);
                    assert(rr.contains(d));
                    let m = choose|m: int| 0 <= m < rest.len() && rest[m] == d;
                    assert(deps[m] == d);
                } else {
                    assert(deps[deps.len() - 1] == d);
                }
            }
            if deps.contains(d) && known.contains(d) == want {
                let m = choose|m: int| 0 <= m < deps.len() && deps[m] == d;
                if m < deps.len() - 1 {
                    assert(rest[m] == d);
                    assert(rr.contains(d));
                    let k = choose|k: int| 0 <= k < rr.len() && rr[k] == d;
                    assert(r[k] == d);
                } else {
                    assert(r[r.len() - 1] == d);
                }
            }
        }
    }
}

/// A modifier of one attribute type: the value its expression last produced and whose attribute
/// it changes.
#[derive(Clone, Copy, Debug)]
pub struct AttributeModifier<V> {
    pub value: V,
    pub who: EffectSubject,
}

impl<V: GameValue> AttributeModifier<V> {
    pub fn new(value: V, who: EffectSubject) -> (r: Self)
        ensures
            r.value == value,
            r.who == who,
    {
        AttributeModifier { value, who }
    }

    /// Applies the modifier at once to the attribute of its subject in `context` (each
    /// participant holds its attribute, if it has it). `calculator` is the calculation that the
    /// modifier stands for. The new base value is the calculation applied to the old base value;
    /// it is written, and `true` reported, only if it differs from the current value. A subject
    /// without the attribute is left alone and `false` reported.
    pub fn apply_immediate<T: Attribute<Property = V>, F: Fn(V) -> V>(
        &self,
        context: &mut EffectExprContext<Option<T>>,
        calculator: &F,
    ) -> (changed: bool)
        requires
            old(context).subject(self.who) matches Some(a) ==> call_requires(
                *calculator,
                (a.base_spec(),),
            ),
        ensures
            match old(context).subject(self.who) {
                None => !changed && *final(context) == *old(context),
                Some(a) => exists|new_val: V|
                    #![trigger call_ensures(*calculator, (a.base_spec(),), new_val)]
                    call_ensures(*calculator, (a.base_spec(),), new_val) && changed == (
                    new_val.as_int() != a.current_spec().as_int()) && if changed {
                        exists|b: T|
                            #![trigger old(context).with_subject(self.who, Some(b))]
                            b.base_spec() == new_val && b.current_spec() == a.current_spec()
                                && *final(context) == old(context).with_subject(self.who, Some(b))
                    } else {
                        *final(context) == *old(context)
                    },
            },
    {
        let slot = context.get_actor(self.who);
        match slot {
            None => false,
            Some(a) => {
                let base = a.base_value();
                let new_val = calculator(base);
                proof {
                    assert(call_ensures(*calculator, (base,), new_val));
                }
                let has_changed = new_val.are_different(a.current_value());
                if has_changed {
                    let mut b = a;
                    b.set_base_value(new_val);
                    context.set_actor(self.who, Some(b));
                }
                has_changed
            },
        }
    }
}

} // verus!
