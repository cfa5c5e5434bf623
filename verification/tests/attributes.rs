use vitality::attributes::{
    apply_assignment, notify_targets, AssignmentOp, Attribute, AttributeCalculatorCached,
    AttributeQueryDataItem, AttributeValue, GameValue,
};

fn item(base: i32, current: i32) -> AttributeQueryDataItem<AttributeValue<i32>, fn(i32) -> i32> {
    let mut attribute = AttributeValue::<i32>::new(base);
    attribute.set_current_value(current);
    fn double(v: i32) -> i32 {
        v * 2
    }
    AttributeQueryDataItem {
        entity: 3,
        attribute,
        calculator_cache: AttributeCalculatorCached { calculator: double as fn(i32) -> i32 },
    }
}

#[test]
fn update_attribute_reports_change() {
    let mut it = item(10, 10);
    let changed = it.update_attribute(&|b: i32| b + 5);
    assert!(changed);
    assert_eq!(it.attribute.current_value(), 15);
    assert_eq!(it.attribute.base_value(), 10);
    // same calculation again: no change
    assert!(!it.update_attribute(&|b: i32| b + 5));
    assert_eq!(it.attribute.val(), 15);
}

#[test]
fn update_attribute_from_cache_uses_cached_calculator() {
    let mut it = item(7, 7);
    assert!(it.update_attribute_from_cache());
    assert_eq!(it.attribute.current_value(), 14);
    assert!(!it.update_attribute_from_cache());
    let mut same = item(0, 0);
    assert!(!same.update_attribute_from_cache());
    assert_eq!(same.entity, 3);
}

#[test]
fn assignments_change_base_only() {
    let mut slot = Some(AttributeValue::<i64>::new(100));
    assert!(apply_assignment(&mut slot, AssignmentOp::Add, 20));
    assert_eq!(slot.unwrap().base(), 120);
    assert_eq!(slot.unwrap().current_value(), 100);
    assert!(apply_assignment(&mut slot, AssignmentOp::Sub, 20));
    assert_eq!(slot.unwrap().base(), 100);
    assert!(apply_assignment(&mut slot, AssignmentOp::Replace, 3));
    assert_eq!(slot.unwrap().base_value(), 3);
    let mut empty: Option<AttributeValue<i64>> = None;
    assert!(!apply_assignment(&mut empty, AssignmentOp::Add, 1));
    assert!(empty.is_none());
}

#[test]
fn game_value_operations() {
    assert!(5u32.are_different(6));
    assert!(!5u64.are_different(5));
    assert_eq!(7i32.add_value(-9), -2);
    assert_eq!(7u64.sub_value(2), 5);
    assert!(3i64.le_value(3));
    assert!(!3i64.lt_value(3));
    assert_eq!((-4i32).widen(), -4i128);
}

#[test]
fn notify_targets_removes_duplicates() {
    assert_eq!(notify_targets(&vec![4, 2, 4, 9, 2]), vec![4, 2, 9]);
    assert_eq!(notify_targets(&vec![]), Vec::<u64>::new());
}

#[test]
fn read_attribute_values() {
    let mut a = AttributeValue::<u32>::new(4);
    a.set_current_value(9);
    assert_eq!(vitality::attributes::read_current(&Some(a)), 9);
    assert_eq!(vitality::attributes::read_base(&Some(a)), 4);
}

#[test]
fn ability_costs() {
    let mut mana = AttributeValue::<u32>::new(30);
    mana.set_current_value(25);
    assert!(vitality::attributes::can_pay_cost(&mana, 25));
    assert!(!vitality::attributes::can_pay_cost(&mana, 26));
    vitality::attributes::pay_cost(&mut mana, 10);
    assert_eq!(mana.base_value(), 15);
    assert_eq!(mana.current_value(), 25);
}
