use vstd::prelude::*;
use crate::tasks::contains_entity;

verus! {

/// A numeric value that attributes hold. Values are compared and combined by their integer
/// meaning.
pub trait GameValue: Copy + Sized {
    /// The integer that the value stands for.
    spec fn as_int(self) -> int;

    /// The smallest integer the type holds.
    spec fn min_int() -> int;

    /// The largest integer the type holds.
    spec fn max_int() -> int;

    proof fn lemma_in_range(self)
        ensures
            Self::min_int() <= self.as_int() <= Self::max_int(),
    ;

    proof fn lemma_as_int_injective(self, other: Self)
        ensures
            self.as_int() == other.as_int() ==> self == other,
    ;

    /// Whether two values differ enough to count as a change.
    fn are_different(self, other: Self) -> (r: bool)
        ensures
            r == (self.as_int() != other.as_int()),
    ;

    fn add_value(self, other: Self) -> (r: Self)
        requires
            Self::min_int() <= self.as_int() + other.as_int() <= Self::max_int(),
        ensures
            r.as_int() == self.as_int() + other.as_int(),
    ;

    fn sub_value(self, other: Self) -> (r: Self)
        requires
            Self::min_int() <= self.as_int() - other.as_int() <= Self::max_int(),
        ensures
            r.as_int() == self.as_int() - other.as_int(),
    ;

    fn le_value(self, other: Self) -> (r: bool)
        ensures
            r == (self.as_int() <= other.as_int()),
    ;

    fn lt_value(self, other: Self) -> (r: bool)
        ensures
            r == (self.as_int() < other.as_int()),
    ;

    /// The value as a wide signed integer.
    fn widen(self) -> (r: i128)
        ensures
            r == self.as_int(),
    ;
}

impl GameValue for i32 {
    open spec fn as_int(self) -> int {
        self as int
    }

    open spec fn min_int() -> int {
        i32::MIN as int
    }

    open spec fn max_int() -> int {
        i32::MAX as int
    }

    proof fn lemma_in_range(self) {
    }

    proof fn lemma_as_int_injective(self, other: Self) {
    }

    fn are_different(self, other: Self) -> (r: bool) {
        self != other
    }

    fn add_value(self, other: Self) -> (r: Self) {
        self + other
    }

    fn sub_value(self, other: Self) -> (r: Self) {
        self - other
    }

    fn le_value(self, other: Self) -> (r: bool) {
        self <= other
    }

    fn lt_value(self, other: Self) -> (r: bool) {
        self < other
    }

    fn widen(self) -> (r: i128) {
        self as i128
    }
}

impl GameValue for i64 {
    open spec fn as_int(self) -> int {
        self as int
    }

    open spec fn min_int() -> int {
        i64::MIN as int
    }

    open spec fn max_int() -> int {
        i64::MAX as int
    }

    proof fn lemma_in_range(self) {
    }

    proof fn lemma_as_int_injective(self, other: Self) {
    }

    fn are_different(self, other: Self) -> (r: bool) {
        self != other
    }

    fn add_value(self, other: Self) -> (r: Self) {
        self + other
    }

    fn sub_value(self, other: Self) -> (r: Self) {
        self - other
    }

    fn le_value(self, other: Self) -> (r: bool) {
        self <= other
    }

    fn lt_value(self, other: Self) -> (r: bool) {
        self < other
    }

    fn widen(self) -> (r: i128) {
        self as i128
    }
}

impl GameValue for u32 {
    open spec fn as_int(self) -> int {
        self as int
    }

    open spec fn min_int() -> int {
        0
    }

    open spec fn max_int() -> int {
        u32::MAX as int
    }

    proof fn lemma_in_range(self) {
    }

    proof fn lemma_as_int_injective(self, other: Self) {
    }

    fn are_different(self, other: Self) -> (r: bool) {
        self != other
    }

    fn add_value(self, other: Self) -> (r: Self) {
        self + other
    }

    fn sub_value(self, other: Self) -> (r: Self) {
        self - other
    }

    fn le_value(self, other: Self) -> (r: bool) {
        self <= other
    }

    fn lt_value(self, other: Self) -> (r: bool) {
        self < other
    }

    fn widen(self) -> (r: i128) {
        self as i128
    }
}

impl GameValue for u64 {
    open spec fn as_int(self) -> int {
        self as int
    }

    open spec fn min_int() -> int {
        0
    }

    open spec fn max_int() -> int {
        u64::MAX as int
    }

    proof fn lemma_in_range(self) {
    }

    proof fn lemma_as_int_injective(self, other: Self) {
    }

    fn are_different(self, other: Self) -> (r: bool) {
        self != other
    }

    fn add_value(self, other: Self) -> (r: Self) {
        self + other
    }

    fn sub_value(self, other: Self) -> (r: Self) {
        self - other
    }

    fn le_value(self, other: Self) -> (r: bool) {
        self <= other
    }

    fn lt_value(self, other: Self) -> (r: bool) {
        self < other
    }

    fn widen(self) -> (r: i128) {
        self as i128
    }
}

/// A game attribute: a base value, which effects change permanently, and a current value, which
/// the base value turns into once the active modifiers are applied.
pub trait Attribute: Copy + Sized {
    type Property: GameValue;

    spec fn base_spec(&self) -> Self::Property;

    spec fn current_spec(&self) -> Self::Property;

    /// An attribute whose base and current values are both `value`.
    fn new(value: Self::Property) -> (r: Self)
        ensures
            r.base_spec() == value,
            r.current_spec() == value,
    ;

    fn base_value(&self) -> (r: Self::Property)
        ensures
            r == self.base_spec(),
    ;

    fn base(&self) -> (r: Self::Property)
        ensures
            r == self.base_spec(),
    ;

    fn set_base_value(&mut self, value: Self::Property)
        ensures
            final(self).base_spec() == value,
            final(self).current_spec() == old(self).current_spec(),
    ;

    fn current_value(&self) -> (r: Self::Property)
        ensures
            r == self.current_spec(),
    ;

    fn val(&self) -> (r: Self::Property)
        ensures
            r == self.current_spec(),
    ;

    fn set_current_value(&mut self, value: Self::Property)
        ensures
            final(self).current_spec() == value,
            final(self).base_spec() == old(self).base_spec(),
    ;

    /// An attribute is its base and current value: two with the same values are the same.
    proof fn lemma_values_determine(a: Self, b: Self)
        ensures
            a.base_spec() == b.base_spec() && a.current_spec() == b.current_spec() ==> a == b,
    ;
}

/// The attribute component of one attribute type: a base and a current value.
#[derive(Clone, Copy)]
pub struct AttributeValue<V: GameValue> {
    pub base_value: V,
    current_value: V,
}

impl<V: GameValue> Attribute for AttributeValue<V> {
    type Property = V;

    closed spec fn base_spec(&self) -> V {
        self.base_value
    }

    closed spec fn current_spec(&self) -> V {
        self.current_value
    }

    fn new(value: V) -> (r: Self) {
        AttributeValue { base_value: value, current_value: value }
    }

    fn base_value(&self) -> (r: V) {
        self.base_value
    }

    fn base(&self) -> (r: V) {
        self.base_value
    }

    fn set_base_value(&mut self, value: V) {
        self.base_value = value;
    }

    fn current_value(&self) -> (r: V) {
        self.current_value
    }

    fn val(&self) -> (r: V) {
        self.current_value
    }

    fn set_current_value(&mut self, value: V) {
        self.current_value = value;
    }

    proof fn lemma_values_determine(a: Self, b: Self) {
    }
}

/// Marker for actors whose attributes the system manages.
#[derive(Clone, Copy, Debug, Default)]
pub struct ManageAttributes;

/// The calculator stored beside an attribute; it maps a base value to a current value.
pub struct AttributeCalculatorCached<C> {
    pub calculator: C,
}

/// One attribute of one entity, with the entity's cached calculator for it.
pub struct AttributeQueryDataItem<T, C> {
    pub entity: u64,
    pub attribute: T,
    pub calculator_cache: AttributeCalculatorCached<C>,
}

/// Whether a newly calculated value counts as a change of the old current value, and the current
/// value afterwards.
pub open spec fn refreshed<V: GameValue>(old_current: V, new_val: V) -> (bool, V) {
    if new_val.as_int() != old_current.as_int() {
        (true, new_val)
    } else {
        (false, old_current)
    }
}

/// The calculator gives one answer for each base value.
pub open spec fn calculator_is_function<V, F: Fn(V) -> V>(calc: F) -> bool {
    forall|x: V, a: V, b: V|
        #![trigger call_ensures(calc, (x,), a), call_ensures(calc, (x,), b)]
        call_ensures(calc, (x,), a) && call_ensures(calc, (x,), b) ==> a == b
}

/// One recalculation of an item's attribute with `calc`, from `before` to `after`, reporting
/// `changed`: the calculator's value for the base value becomes the current value if it differs
/// from the old one, in which case `changed` is set; otherwise nothing changes. The base value,
/// the entity and the cached calculator stay as they were.
pub open spec fn update_step<T: Attribute, C, F: Fn(T::Property) -> T::Property>(
    calc: F,
    before: AttributeQueryDataItem<T, C>,
    after: AttributeQueryDataItem<T, C>,
    changed: bool,
) -> bool {
    &&& exists|new_val: T::Property|
        #![trigger call_ensures(calc, (before.attribute.base_spec(),), new_val)]
        call_ensures(calc, (before.attribute.base_spec(),), new_val) && (
        changed,
        after.attribute.current_spec(),
    ) == refreshed(before.attribute.current_spec(), new_val)
    &&& after.attribute.base_spec() == before.attribute.base_spec()
    &&& !changed ==> after.attribute == before.attribute
    &&& after.entity == before.entity
    &&& after.calculator_cache == before.calculator_cache
}

impl<T: Attribute, C: Fn(T::Property) -> T::Property> AttributeQueryDataItem<T, C> {
    /// Recalculates the current value from the base value with `calculator`; stores it and
    /// reports `true` only if it differs from the old current value.
    pub fn update_attribute<F: Fn(T::Property) -> T::Property>(&mut self, calculator: &F) -> (changed:
        bool)
        requires
            call_requires(*calculator, (old(self).attribute.base_spec(),)),
        ensures
            update_step(*calculator, *old(self), *final(self), changed),
    {
        let old_val = self.attribute.current_value();
        let base = self.attribute.base_value();
        let new_val = calculator(base);
        proof {
            assert(call_ensures(*calculator, (base,), new_val));
        }
        let has_changed = old_val.are_different(new_val);
        if has_changed {
            self.attribute.set_current_value(new_val);
        }
        proof {
            assert((has_changed, self.attribute.current_spec()) == refreshed(old_val, new_val));
        }
        has_changed
    }

    /// Recalculates the current value with the cached calculator, as `update_attribute` does.
    pub fn update_attribute_from_cache(&mut self) -> (changed: bool)
        requires
            call_requires(old(self).calculator_cache.calculator, (old(self).attribute.base_spec(),)),
        ensures
            update_step(old(self).calculator_cache.calculator, *old(self), *final(self), changed),
    {
        let old_val = self.attribute.current_value();
        let base = self.attribute.base_value();
        let new_val = (self.calculator_cache.calculator)(base);
        proof {
            assert(call_ensures(self.calculator_cache.calculator, (base,), new_val));
        }
        let has_changed = old_val.are_different(new_val);
        if has_changed {
            self.attribute.set_current_value(new_val);
        }
        proof {
            assert((has_changed, self.attribute.current_spec()) == refreshed(old_val, new_val));
        }
        has_changed
    }
}

/// Recalculating twice with a calculator that gives one answer per base value: the second
/// recalculation reports no change and leaves the item as the first one left it.
pub proof fn lemma_update_twice_changes_nothing<T: Attribute, C, F: Fn(T::Property) -> T::Property>(
    calc: F,
    s0: AttributeQueryDataItem<T, C>,
    s1: AttributeQueryDataItem<T, C>,
    c1: bool,
    s2: AttributeQueryDataItem<T, C>,
    c2: bool,
)
    requires
        calculator_is_function(calc),
        update_step(calc, s0, s1, c1),
        update_step(calc, s1, s2, c2),
    ensures
        !c2,
        s2 == s1,
{
    let v1 = choose|v: T::Property|
        call_ensures(calc, (s0.attribute.base_spec(),), v) && (c1, s1.attribute.current_spec())
            == refreshed(s0.attribute.current_spec(), v);
    let v2 = choose|v: T::Property|
        call_ensures(calc, (s1.attribute.base_spec(),), v) && (c2, s2.attribute.current_spec())
            == refreshed(s1.attribute.current_spec(), v);
    assert(v1 == v2);
    lemma_refresh_idempotent(s0.attribute.current_spec(), v1);
    assert(s1.attribute.current_spec() == v1);
    assert(!c2);
    assert(s2.attribute == s1.attribute);
}

/// Recalculating from the cache does what recalculating with the cached calculator does: with
/// a calculator that gives one answer per base value, the two report the same and leave the
/// item in the same state.
pub proof fn lemma_cache_update_agrees<T: Attribute, C: Fn(T::Property) -> T::Property>(
    before: AttributeQueryDataItem<T, C>,
    with_calculator: AttributeQueryDataItem<T, C>,
    c1: bool,
    from_cache: AttributeQueryDataItem<T, C>,
    c2: bool,
)
    requires
        calculator_is_function(before.calculator_cache.calculator),
        update_step(before.calculator_cache.calculator, before, with_calculator, c1),
        update_step(before.calculator_cache.calculator, before, from_cache, c2),
    ensures
        c1 == c2,
        with_calculator == from_cache,
{
    let calc = before.calculator_cache.calculator;
    let v1 = choose|v: T::Property|
        call_ensures(calc, (before.attribute.base_spec(),), v) && (
        c1,
        with_calculator.attribute.current_spec(),
    ) == refreshed(before.attribute.current_spec(), v);
    let v2 = choose|v: T::Property|
        call_ensures(calc, (before.attribute.base_spec(),), v) && (
        c2,
        from_cache.attribute.current_spec(),
    ) == refreshed(before.attribute.current_spec(), v);
    assert(v1 == v2);
    T::lemma_values_determine(with_calculator.attribute, from_cache.attribute);
    assert(with_calculator.attribute == from_cache.attribute);
}

/// After a refresh with a calculated value, the current value is that value; refreshing again
/// with the same value reports no change and keeps it.
pub proof fn lemma_refresh_idempotent<V: GameValue>(old_current: V, new_val: V)
    ensures
        refreshed(old_current, new_val).1 == new_val,
        refreshed(refreshed(old_current, new_val).1, new_val) == (false, new_val),
{
    old_current.lemma_as_int_injective(new_val);
}

/// Reads the current value of an attribute that a participant must have (expression nodes of
/// attributes read it this way).
pub fn read_current<T: Attribute>(attribute: &Option<T>) -> (r: T::Property)
    requires
        *attribute is Some,
    ensures
        r == attribute->0.current_spec(),
{
    let a = (*attribute).unwrap();
    a.current_value()
}

/// Reads the base value of an attribute that a participant must have.
pub fn read_base<T: Attribute>(attribute: &Option<T>) -> (r: T::Property)
    requires
        *attribute is Some,
    ensures
        r == attribute->0.base_spec(),
{
    let a = (*attribute).unwrap();
    a.base_value()
}

/// Whether the caster can pay `cost` from the attribute: the cost does not exceed the current
/// value.
pub fn can_pay_cost<T: Attribute>(attribute: &T, cost: T::Property) -> (r: bool)
    ensures
        r == (cost.as_int() <= attribute.current_spec().as_int()),
{
    cost.le_value(attribute.current_value())
}

/// Pays `cost` from the attribute: the base value becomes the current value less the cost.
pub fn pay_cost<T: Attribute>(attribute: &mut T, cost: T::Property)
    requires
        T::Property::min_int() <= old(attribute).current_spec().as_int() - cost.as_int()
            <= T::Property::max_int(),
    ensures
        final(attribute).base_spec().as_int() == old(attribute).current_spec().as_int()
            - cost.as_int(),
        final(attribute).current_spec() == old(attribute).current_spec(),
{
    let v = attribute.current_value().sub_value(cost);
    attribute.set_base_value(v);
}

/// A cost that can be paid and is not negative can always be paid without leaving the value's
/// range, and leaves a base value between zero and the old current value.
pub proof fn lemma_affordable_cost_fits<V: GameValue>(current: V, cost: V)
    requires
        cost.as_int() <= current.as_int(),
        0 <= cost.as_int(),
        V::min_int() <= 0,
    ensures
        V::min_int() <= current.as_int() - cost.as_int() <= V::max_int(),
        0 <= current.as_int() - cost.as_int() <= current.as_int(),
{
    current.lemma_in_range();
}

/// How an assignment step changes an attribute's base value.
#[derive(Clone, Copy, Debug, PartialEq, Eq, Structural)]
pub enum AssignmentOp {
    Add,
    Sub,
    Replace,
}

/// The base value that an assignment of `value` gives to base value `base`.
pub open spec fn assigned_base(op: AssignmentOp, base: int, value: int) -> int {
    match op {
        AssignmentOp::Add => base + value,
        AssignmentOp::Sub => base - value,
        AssignmentOp::Replace => value,
    }
}

/// The assignment fits the attribute's value type.
pub open spec fn assignment_fits<V: GameValue>(op: AssignmentOp, base: V, value: V) -> bool {
    V::min_int() <= assigned_base(op, base.as_int(), value.as_int()) <= V::max_int()
}

/// Applies an assignment step to the attribute in `slot`: adds `value` to, subtracts it from, or
/// sets the base value. An empty slot (the actor lacks the attribute) is left as it is and the
/// step reports `false`.
pub fn apply_assignment<T: Attribute>(slot: &mut Option<T>, op: AssignmentOp, value: T::Property) -> (applied: bool)
    requires
        *old(slot) matches Some(a) ==> assignment_fits(op, a.base_spec(), value),
    ensures
        applied == (*old(slot) is Some),
        (*final(slot) is Some) == (*old(slot) is Some),
        *old(slot) matches Some(a) ==> {
            &&& (*final(slot))->0.base_spec().as_int() == assigned_base(
                op,
                a.base_spec().as_int(),
                value.as_int(),
            )
            &&& (*final(slot))->0.current_spec() == a.current_spec()
            &&& op == AssignmentOp::Replace ==> (*final(slot))->0.base_spec().as_int()
                == value.as_int()
            &&& op == AssignmentOp::Add ==> (*final(slot))->0.base_spec().as_int()
                == a.base_spec().as_int() + value.as_int()
            &&& op == AssignmentOp::Sub ==> (*final(slot))->0.base_spec().as_int()
                == a.base_spec().as_int() - value.as_int()
        },
{
    match *slot {
        None => false,
        Some(a) => {
            let mut attr = a;
            let base = attr.base();
            let new_base = match op {
                AssignmentOp::Add => base.add_value(value),
                AssignmentOp::Sub => base.sub_value(value),
                AssignmentOp::Replace => value,
            };
            attr.set_base_value(new_base);
            *slot = Some(attr);
            true
        },
    }
}

/// Subtracting a value undoes adding it; setting a value twice is the same as setting it once.
pub proof fn lemma_assignments_compose(base: int, value: int)
    ensures
        assigned_base(AssignmentOp::Sub, assigned_base(AssignmentOp::Add, base, value), value)
            == base,
        assigned_base(AssignmentOp::Add, assigned_base(AssignmentOp::Sub, base, value), value)
            == base,
        assigned_base(AssignmentOp::Replace, assigned_base(AssignmentOp::Replace, base, value), value)
            == assigned_base(AssignmentOp::Replace, base, value),
{
}

/// A replacing assignment sets the base value to the given value whatever the old base was, so
/// it can raise the base as well as lower it; adding and subtracting move the base by exactly
/// the value, in opposite directions.
pub proof fn lemma_assignment_results(base: int, other_base: int, value: int)
    ensures
        assigned_base(AssignmentOp::Replace, base, value) == value,
        assigned_base(AssignmentOp::Replace, base, value) == assigned_base(
            AssignmentOp::Replace,
            other_base,
            value,
        ),
        value > base ==> assigned_base(AssignmentOp::Replace, base, value) > base,
        assigned_base(AssignmentOp::Add, base, value) - base == value,
        base - assigned_base(AssignmentOp::Sub, base, value) == value,
{
}

/// The distinct entities of `dependents`, each once, in order of first appearance.
pub fn notify_targets(dependents: &Vec<u64>) -> (r: Vec<u64>)
    ensures
        r@.no_duplicates(),
        forall|e: u64| r@.contains(e) <==> dependents@.contains(e),
{
    let mut r: Vec<u64> = Vec::new();
    let mut i: usize = 0;
    while i < dependents.len()
        invariant
            i <= dependents.len(),
            r@.no_duplicates(),
            forall|j: int| 0 <= j < i ==> r@.contains(#[trigger] dependents@[j]),
            forall|k: int|
                0 <= k < r@.len() ==> exists|j: int|
                    0 <= j < i && #[trigger] dependents@[j] == #[trigger] r@[k],
        decreases dependents.len() - i,
    {
        let e = dependents[i];
        let ghost old_r = r@;
        if !contains_entity(&r, e) {
            r.push(e);
            proof {
                assert(r@[r@.len() - 1] == e);
                assert forall|k: int| 0 <= k < r@.len() implies exists|j: int|
                    0 <= j < i + 1 && #[trigger] dependents@[j] == #[trigger] r@[k] by {
                    if k < old_r.len() {
                        assert(r@[k] == old_r[k]);
                    } else {
                        assert(dependents@[i as int] == r@[k]);
                    }
                }
                assert forall|j: int| 0 <= j < i + 1 implies r@.contains(#[trigger] dependents@[j]) by {
                    if j < i {
                        assert(old_r.contains(dependents@[j]));
                        let k = choose|k: int| 0 <= k < old_r.len() && old_r[k] == dependents@[j];
                        assert(r@[k] == dependents@[j]);
                    } else {
                        assert(r@[r@.len() - 1] == dependents@[j]);
                    }
                }
            }
        }
        i += 1;
    }
    proof {
        assert forall|e: u64| r@.contains(e) <==> dependents@.contains(e) by {
            if r@.contains(e) {
                let k = choose|k: int| 0 <= k < r@.len() && r@[k] == e;
                let j = choose|j: int| 0 <= j < dependents@.len() && dependents@[j] == r@[k];
                assert(dependents@[j] == e);
            }
            if dependents@.contains(e) {
                let j = choose|j: int| 0 <= j < dependents@.len() && dependents@[j] == e;
                assert(r@.contains(dependents@[j]));
            }
        }
    }
    r
}

} // verus!
