use vitality::decimal::{decimal_string, digits_string};
use vitality::conditions::{AttributeBound, HasComponent, IsAbility, IsAttributeWithinBounds};
use vitality::context::{AbilityExprContext, EffectExprContext};
use vitality::modifier::EffectSubject;

#[test]
fn within_bounds_on_target_and_fallback() {
    let cond = IsAttributeWithinBounds::<i32>::target(
        AttributeBound::Included(0),
        AttributeBound::Excluded(10),
    );
    let ctx = EffectExprContext { source_actor: Some(50), target_actor: Some(Some(10)), effect_holder: None };
    assert!(!cond.eval(&ctx));
    let ctx = EffectExprContext { source_actor: Some(50), target_actor: Some(Some(0)), effect_holder: None };
    assert!(cond.eval(&ctx));
    // no target: the source is read
    let ctx = EffectExprContext { source_actor: Some(9), target_actor: None, effect_holder: None };
    assert!(cond.eval(&ctx));
    // target without the attribute
    let ctx = EffectExprContext { source_actor: Some(9), target_actor: Some(None), effect_holder: None };
    assert!(!cond.eval(&ctx));
}

#[test]
fn within_bounds_on_source_and_effect() {
    let cond = IsAttributeWithinBounds::<u32>::source(AttributeBound::Excluded(1), AttributeBound::Unbounded);
    let ctx = EffectExprContext { source_actor: Some(2u32), target_actor: Some(Some(0)), effect_holder: Some(0) };
    assert!(cond.eval(&ctx));
    let on_effect = IsAttributeWithinBounds::<u32>::new(
        AttributeBound::Unbounded,
        AttributeBound::Included(0),
        EffectSubject::Effect,
    );
    assert!(on_effect.eval(&ctx));
}

#[test]
fn within_bounds_description() {
    let cond = IsAttributeWithinBounds::<i64>::target(
        AttributeBound::Included(-5),
        AttributeBound::Excluded(12),
    );
    assert_eq!(cond.describe("Health"), "Attribute Health on Target in range [-5, 12[");
    let open = IsAttributeWithinBounds::<i64>::source(AttributeBound::Unbounded, AttributeBound::Unbounded);
    assert_eq!(open.describe("Mana"), "Attribute Mana on Source in range (-∞, ∞)");
    let mixed = IsAttributeWithinBounds::<i64>::new(
        AttributeBound::Excluded(3),
        AttributeBound::Included(4),
        EffectSubject::Effect,
    );
    assert_eq!(mixed.describe("X"), "Attribute X on Effect in range ]3, 4]");
}

#[test]
fn has_component_conditions() {
    let ctx = EffectExprContext { source_actor: true, target_actor: Some(false), effect_holder: false };
    assert!(!HasComponent::target().eval_effect(&ctx));
    assert!(HasComponent::source().eval_effect(&ctx));
    assert!(!HasComponent::effect().eval_effect(&ctx));
    let no_target = EffectExprContext { source_actor: true, target_actor: None, effect_holder: false };
    assert!(HasComponent::new(EffectSubject::Target).eval_effect(&no_target));
    let actx = AbilityExprContext { caster_ref: false, target_ref: None, ability_ref: true };
    assert!(HasComponent::effect().eval_ability(&actx));
    assert!(!HasComponent::target().eval_ability(&actx));
    assert_eq!(HasComponent::target().describe("Stunned"), "Has Tag Stunned on target");
}

#[test]
fn is_ability_condition() {
    let cond = IsAbility::new(42);
    assert!(cond.eval(Some(42)));
    assert!(!cond.eval(Some(41)));
    assert!(!cond.eval(None));
}

#[test]
fn decimal_strings() {
    assert_eq!(decimal_string(0), "0");
    assert_eq!(decimal_string(-7), "-7");
    assert_eq!(decimal_string(1234567890), "1234567890");
    assert_eq!(decimal_string(i128::MIN), i128::MIN.to_string());
    assert_eq!(decimal_string(i128::MAX), i128::MAX.to_string());
    assert_eq!(digits_string(u128::MAX), u128::MAX.to_string());
}
