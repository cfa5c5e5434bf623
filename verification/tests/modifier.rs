use smol_str::SmolStr;
use vitality::attributes::{Attribute, AttributeValue};
use vitality::context::{EffectExprContext, Vitality, EffectApplication, ActorExprContext, GlobalActor};
use vitality::modifier::{AbilitySubject, ActorSubject, AttributeModifier, EffectSubject};

#[test]
fn subject_names() {
    assert_eq!(EffectSubject::Target.to_display_string(), "target");
    assert_eq!(EffectSubject::Source.to_display_string(), "source");
    assert_eq!(EffectSubject::Effect.to_display_string(), "effect");
    assert_eq!(AbilitySubject::Caster.to_display_string(), "caster");
    assert_eq!(AbilitySubject::Ability.to_display_string(), "ability");
    assert_eq!(AbilitySubject::Target.to_display_string(), "target");
    assert_eq!(ActorSubject::Actor.to_display_string(), "actor");
}

#[test]
fn subject_small_strings() {
    assert_eq!(EffectSubject::Source.to_smol_str(), SmolStr::new("source"));
    assert_eq!(AbilitySubject::Ability.to_smol_str().as_str(), "ability");
    assert_eq!(ActorSubject::Actor.to_smol_str(), SmolStr::new("actor"));
}

fn attr(base: i32, current: i32) -> AttributeValue<i32> {
    let mut a = AttributeValue::new(base);
    a.set_current_value(current);
    a
}

#[test]
fn apply_immediate_writes_base_when_changed() {
    let m = AttributeModifier::new(5, EffectSubject::Target);
    let mut ctx = EffectExprContext {
        source_actor: Some(attr(1, 1)),
        target_actor: Some(Some(attr(10, 10))),
        effect_holder: None,
    };
    assert!(m.apply_immediate(&mut ctx, &|b: i32| b + 5));
    let t = ctx.target_actor.unwrap().unwrap();
    assert_eq!(t.base_value(), 15);
    assert_eq!(t.current_value(), 10);
    assert_eq!(ctx.source_actor.unwrap().base_value(), 1);
}

#[test]
fn apply_immediate_compares_with_current_value() {
    // new base equals the current value: nothing is written
    let m = AttributeModifier::new(0, EffectSubject::Source);
    let mut ctx = EffectExprContext { source_actor: Some(attr(4, 8)), target_actor: None, effect_holder: None };
    assert!(!m.apply_immediate(&mut ctx, &|b: i32| b * 2));
    assert_eq!(ctx.source_actor.unwrap().base_value(), 4);
    // target falls back to the source
    let m = AttributeModifier::new(0, EffectSubject::Target);
    assert!(m.apply_immediate(&mut ctx, &|_b: i32| 100));
    assert_eq!(ctx.source_actor.unwrap().base_value(), 100);
}

#[test]
fn apply_immediate_without_attribute() {
    let m = AttributeModifier::new(3, EffectSubject::Effect);
    let mut ctx: EffectExprContext<Option<AttributeValue<i32>>> =
        EffectExprContext { source_actor: Some(attr(1, 1)), target_actor: None, effect_holder: None };
    assert!(!m.apply_immediate(&mut ctx, &|b: i32| b + 1));
    assert!(ctx.effect_holder.is_none());
    assert_eq!(m.value, 3);
}

#[test]
fn context_roles() {
    let mut ctx = EffectExprContext { source_actor: 1u64, target_actor: None, effect_holder: 3 };
    assert_eq!(ctx.get_actor(EffectSubject::Target), 1);
    ctx.set_actor(EffectSubject::Target, 7);
    assert_eq!(ctx.source_actor, 7);
    ctx.target_actor = Some(2);
    ctx.set_actor(EffectSubject::Target, 9);
    assert_eq!(ctx.target_actor, Some(9));
    assert_eq!(ctx.get_actor(EffectSubject::Effect), 3);
    assert_eq!(ActorExprContext { actor_context: 5u8 }.get_actor(), 5);
}

#[test]
fn global_effects_apply_from_global_actor() {
    let mut v = Vitality { global_actors: vec![99], global_effects: vec![1] };
    v.add_global_effect(2);
    assert_eq!(v.get_global_actor(), GlobalActor::Existing(99));
    assert_eq!(
        v.spawn_global_effects(5),
        Some(vec![
            EffectApplication { entity: 5, source: 99, target: 5, handle: 1 },
            EffectApplication { entity: 5, source: 99, target: 5, handle: 2 },
        ])
    );
    assert_eq!(
        v.apply_effect_to_self(4, 8),
        EffectApplication { entity: 4, source: 4, target: 4, handle: 8 }
    );
}

#[test]
fn dependencies_split_by_registration() {
    let split = vitality::modifier::split_dependencies(&vec![3, 1, 4, 5], &vec![4, 3]);
    assert_eq!(split.registered, vec![3, 4]);
    assert_eq!(split.unregistered, vec![1, 5]);
}

#[test]
fn global_actor_is_created_when_missing() {
    let mut v = Vitality { global_actors: vec![], global_effects: vec![7] };
    assert_eq!(v.get_global_actor(), GlobalActor::Create);
    assert_eq!(v.spawn_global_effects(5), None);
    v.add_global_actor(42);
    assert_eq!(v.get_global_actor(), GlobalActor::Existing(42));
    assert_eq!(
        v.spawn_global_effects(5),
        Some(vec![EffectApplication { entity: 5, source: 42, target: 5, handle: 7 }])
    );
}
