use vstd::prelude::*;
use vstd::string::StringExecFns;
use crate::attributes::GameValue;
use crate::decimal::{decimal_string, decimal_text};
use crate::context::{AbilityExprContext, EffectExprContext};
use crate::modifier::{EffectSubject, effect_subject_text};

verus! {

/// One end of a range of attribute values.
#[derive(Clone, Copy, Debug, PartialEq, Eq, Structural)]
pub enum AttributeBound<V> {
    Included(V),
    Excluded(V),
    Unbounded,
}

/// `v` lies on the inner side of the lower end `b`.
pub open spec fn above_start<V: GameValue>(b: AttributeBound<V>, v: V) -> bool {
    match b {
        AttributeBound::Included(s) => s.as_int() <= v.as_int(),
        AttributeBound::Excluded(s) => s.as_int() < v.as_int(),
        AttributeBound::Unbounded => true,
    }
}

/// `v` lies on the inner side of the upper end `b`.
pub open spec fn below_end<V: GameValue>(b: AttributeBound<V>, v: V) -> bool {
    match b {
        AttributeBound::Included(e) => v.as_int() <= e.as_int(),
        AttributeBound::Excluded(e) => v.as_int() < e.as_int(),
        AttributeBound::Unbounded => true,
    }
}

/// `v` lies in the range with ends `bounds`.
pub open spec fn within<V: GameValue>(bounds: (AttributeBound<V>, AttributeBound<V>), v: V) -> bool {
    above_start(bounds.0, v) && below_end(bounds.1, v)
}

/// Whether `v` lies in the range with ends `bounds`.
pub fn bounds_contain<V: GameValue>(bounds: &(AttributeBound<V>, AttributeBound<V>), v: V) -> (r: bool)
    ensures
        r == within(*bounds, v),
{
    let lower_ok = match bounds.0 {
        AttributeBound::Included(s) => s.le_value(v),
        AttributeBound::Excluded(s) => s.lt_value(v),
        AttributeBound::Unbounded => true,
    };
    if !lower_ok {
        return false;
    }
    match bounds.1 {
        AttributeBound::Included(e) => v.le_value(e),
        AttributeBound::Excluded(e) => v.lt_value(e),
        AttributeBound::Unbounded => true,
    }
}

/// A range unbounded at both ends holds every value; an inclusive range holds exactly the values
/// between its ends; an empty exclusive range holds nothing.
pub proof fn lemma_range_membership<V: GameValue>(lo: V, hi: V, v: V)
    ensures
        within((AttributeBound::Unbounded, AttributeBound::Unbounded), v),
        within((AttributeBound::Included(lo), AttributeBound::Included(hi)), v) <==> (lo.as_int()
            <= v.as_int() <= hi.as_int()),
        within((AttributeBound::Excluded(lo), AttributeBound::Excluded(lo)), v) == false,
{
}

/// Holds when an attribute of the chosen participant lies in a range.
pub struct IsAttributeWithinBounds<V> {
    pub who: EffectSubject,
    pub bounds: (AttributeBound<V>, AttributeBound<V>),
}

/// The debug name of a subject.
pub open spec fn subject_debug_text(s: EffectSubject) -> Seq<char> {
    match s {
        EffectSubject::Target => "Target"@,
        EffectSubject::Source => "Source"@,
        EffectSubject::Effect => "Effect"@,
    }
}

/// How the lower end of a range is written.
pub open spec fn start_text<V: GameValue>(b: AttributeBound<V>) -> Seq<char> {
    match b {
        AttributeBound::Included(v) => "["@ + decimal_text(v.as_int()),
        AttributeBound::Excluded(v) => "]"@ + decimal_text(v.as_int()),
        AttributeBound::Unbounded => "(-∞"@,
    }
}

/// How the upper end of a range is written.
pub open spec fn end_text<V: GameValue>(b: AttributeBound<V>) -> Seq<char> {
    match b {
        AttributeBound::Included(v) => decimal_text(v.as_int()) + "]"@,
        AttributeBound::Excluded(v) => decimal_text(v.as_int()) + "["@,
        AttributeBound::Unbounded => "∞)"@,
    }
}

fn subject_debug_string(s: EffectSubject) -> (r: String)
    ensures
        r@ == subject_debug_text(s),
{
    match s {
        EffectSubject::Target => String::from_str("Target"),
        EffectSubject::Source => String::from_str("Source"),
        EffectSubject::Effect => String::from_str("Effect"),
    }
}

impl<V: GameValue> IsAttributeWithinBounds<V> {
    /// The condition that `who`'s attribute lies between `start` and `end`.
    pub fn new(start: AttributeBound<V>, end: AttributeBound<V>, who: EffectSubject) -> (r: Self)
        ensures
            r.who == who,
            r.bounds == (start, end),
    {
        IsAttributeWithinBounds { who, bounds: (start, end) }
    }

    /// The condition on the target's attribute.
    pub fn target(start: AttributeBound<V>, end: AttributeBound<V>) -> (r: Self)
        ensures
            r.who == EffectSubject::Target,
            r.bounds == (start, end),
    {
        Self::new(start, end, EffectSubject::Target)
    }

    /// The condition on the source's attribute.
    pub fn source(start: AttributeBound<V>, end: AttributeBound<V>) -> (r: Self)
        ensures
            r.who == EffectSubject::Source,
            r.bounds == (start, end),
    {
        Self::new(start, end, EffectSubject::Source)
    }

    /// Evaluates the condition; each participant of `ctx` holds its current attribute value, if
    /// it has the attribute. A participant without the attribute fails the condition.
    pub fn eval(&self, ctx: &EffectExprContext<Option<V>>) -> (r: bool)
        ensures
            r == (match ctx.subject(self.who) {
                Some(v) => within(self.bounds, v),
                None => false,
            }),
    {
        match ctx.get_actor(self.who) {
            None => false,
            Some(v) => bounds_contain(&self.bounds, v),
        }
    }

    /// How the condition is displayed, for an attribute type named `kind_label`.
    pub fn describe(&self, kind_label: &str) -> (r: String)
        ensures
            r@ == "Attribute "@ + kind_label@ + " on "@ + subject_debug_text(self.who)
                + " in range "@ + start_text(self.bounds.0) + ", "@ + end_text(self.bounds.1),
    {
        let start_str = match self.bounds.0 {
            AttributeBound::Included(v) => String::from_str("[").concat(
                decimal_string(v.widen()).as_str(),
            ),
            AttributeBound::Excluded(v) => String::from_str("]").concat(
                decimal_string(v.widen()).as_str(),
            ),
            AttributeBound::Unbounded => String::from_str("(-∞"),
        };
        let end_str = match self.bounds.1 {
            AttributeBound::Included(v) => decimal_string(v.widen()).concat("]"),
            AttributeBound::Excluded(v) => decimal_string(v.widen()).concat("["),
            AttributeBound::Unbounded => String::from_str("∞)"),
        };
        let r = String::from_str("Attribute ").concat(kind_label).concat(" on ").concat(
            subject_debug_string(self.who).as_str(),
        ).concat(" in range ").concat(start_str.as_str()).concat(", ").concat(end_str.as_str());
        r
    }
}

/// Holds when the chosen participant carries a component.
#[derive(Clone, Copy, Debug, PartialEq, Eq, Structural)]
pub struct HasComponent {
    pub who: EffectSubject,
}

impl HasComponent {
    pub fn new(target: EffectSubject) -> (r: Self)
        ensures
            r.who == target,
    {
        HasComponent { who: target }
    }

    pub fn source() -> (r: Self)
        ensures
            r.who == EffectSubject::Source,
    {
        Self::new(EffectSubject::Source)
    }

    pub fn target() -> (r: Self)
        ensures
            r.who == EffectSubject::Target,
    {
        Self::new(EffectSubject::Target)
    }

    pub fn effect() -> (r: Self)
        ensures
            r.who == EffectSubject::Effect,
    {
        Self::new(EffectSubject::Effect)
    }

    /// Evaluates the condition in an effect context; each participant holds whether it carries
    /// the component.
    pub fn eval_effect(&self, ctx: &EffectExprContext<bool>) -> (r: bool)
        ensures
            r == ctx.subject(self.who),
    {
        ctx.get_actor(self.who)
    }

    /// Evaluates the condition in an ability context, where the source is the caster and the
    /// effect is the ability.
    pub fn eval_ability(&self, ctx: &AbilityExprContext<bool>) -> (r: bool)
        ensures
            r == ctx.effect_subject(self.who),
    {
        ctx.get_effect_subject(self.who)
    }

    /// How the condition is displayed, for a component type named `kind_label`.
    pub fn describe(&self, kind_label: &str) -> (r: String)
        ensures
            r@ == "Has Tag "@ + kind_label@ + " on "@ + effect_subject_text(self.who),
    {
        String::from_str("Has Tag ").concat(kind_label).concat(" on ").concat(
            self.who.to_display_string().as_str(),
        )
    }
}

/// Holds when the ability in the context was made from a given definition.
#[derive(Clone, Copy, Debug, PartialEq, Eq, Structural)]
pub struct IsAbility {
    pub asset: u64,
}

impl IsAbility {
    pub fn new(asset: u64) -> (r: Self)
        ensures
            r.asset == asset,
    {
        IsAbility { asset }
    }

    /// Evaluates the condition; `ability_asset` is the definition of the context's ability
    /// entity, `None` if that entity is not an ability.
    pub fn eval(&self, ability_asset: Option<u64>) -> (r: bool)
        ensures
            r == (ability_asset == Some(self.asset)),
    {
        match ability_asset {
            Some(a) => a == self.asset,
            None => false,
        }
    }
}

} // verus!
