use vstd::prelude::*;
use vstd::string::StringExecFns;
use crate::decimal::decimal_text;

verus! {

/// What an ability is aimed at. A location is carried as the bit patterns of its three coordinates;
/// no decision of the library reads them.
#[derive(Clone, Copy, Debug, PartialEq, Eq, Structural)]
pub enum TargetData {
    SelfCast,
    Target(u64),
    Location(u32, u32, u32),
}

/// The entity that an ability is aimed at, if it is aimed at one: the caster itself for a self
/// cast, the given entity for a target, none for a location.
pub open spec fn target_entity(source: u64, target: TargetData) -> Option<u64> {
    match target {
        TargetData::SelfCast => Some(source),
        TargetData::Target(t) => Some(t),
        TargetData::Location(..) => None,
    }
}

/// Raised on an ability when it begins.
#[derive(Clone, Copy, Debug, PartialEq, Eq, Structural)]
pub struct BeginAbility {
    pub source: u64,
    pub ability: u64,
}

/// Raised on an ability when it executes.
#[derive(Clone, Copy, Debug, PartialEq, Eq, Structural)]
pub struct ExecuteAbility {
    pub ability: u64,
    pub target: TargetData,
    pub source: u64,
}

/// Raised on an ability when it ends.
#[derive(Clone, Copy, Debug, PartialEq, Eq, Structural)]
pub struct EndAbility {
    pub ability: u64,
    pub source: u64,
}

/// Raised on an ability when it is cancelled.
#[derive(Clone, Copy, Debug, PartialEq, Eq, Structural)]
pub struct AbilityCancel {
    pub ability: u64,
    pub source: u64,
}

/// The largest number of nanoseconds that a `std::time::Duration` holds.
pub open spec fn max_duration_nanos() -> int {
    18_446_744_073_709_551_615int * 1_000_000_000 + 999_999_999
}

/// Time elapsed since an ability entered recovery, in nanoseconds.
#[derive(Clone, Copy, Debug)]
pub struct AbilityRecovery {
    duration_nanos: u128,
}

impl View for AbilityRecovery {
    type V = nat;

    closed spec fn view(&self) -> nat {
        self.duration_nanos as nat
    }
}

impl AbilityRecovery {
    #[verifier::type_invariant]
    closed spec fn wf(self) -> bool {
        self.duration_nanos <= max_duration_nanos()
    }

    /// A recovery timer that has measured `nanos` nanoseconds.
    pub fn from_nanos(nanos: u128) -> (r: Self)
        requires
            nanos <= max_duration_nanos(),
        ensures
            r@ == nanos,
    {
        AbilityRecovery { duration_nanos: nanos }
    }

    /// The time measured so far, in nanoseconds.
    pub fn elapsed_nanos(&self) -> (r: u128)
        ensures
            r == self@,
            r <= max_duration_nanos(),
    {
        proof {
            use_type_invariant(self);
        }
        self.duration_nanos
    }

    /// Adds the frame time `delta_nanos` to the measured time.
    pub fn tick(&mut self, delta_nanos: u128)
        requires
            old(self)@ + delta_nanos <= max_duration_nanos(),
        ensures
            final(self)@ == old(self)@ + delta_nanos,
    {
        self.duration_nanos = self.duration_nanos + delta_nanos;
    }

    /// Starts measuring again from zero.
    pub fn reset(&mut self)
        ensures
            final(self)@ == 0,
    {
        self.duration_nanos = 0;
    }
}

impl Default for AbilityRecovery {
    fn default() -> (r: Self)
        ensures
            r@ == 0,
    {
        AbilityRecovery { duration_nanos: 0 }
    }
}

/// The bit pattern of the placeholder entity: index `u32::MAX - 1` (held as its complement, 1)
/// and the first generation.
pub open spec fn placeholder_bits() -> u64 {
    1
}

/// The text that the engine prints for the entity whose bit pattern is `bits`: `PLACEHOLDER`
/// for the placeholder entity, otherwise the index (held in the low half as its complement),
/// `v`, and the generation (the high half), in decimal.
pub open spec fn entity_text(bits: u64) -> Seq<char> {
    if bits == placeholder_bits() {
        "PLACEHOLDER"@
    } else {
        decimal_text(0xFFFF_FFFF - (bits % 0x1_0000_0000) as int) + "v"@ + decimal_text(
            (bits / 0x1_0000_0000) as int,
        )
    }
}

/// Whether `bits` can stand for an engine entity: the low half, which holds the entity index, is
/// not zero.
pub open spec fn is_entity_bits(bits: u64) -> bool {
    bits % 0x1_0000_0000 != 0
}

/// Formats an entity, given by its bit pattern, as `bevy::ecs::entity::Entity` displays it.
/// Trusted: calls `Entity::from_bits` and `Entity`'s `Display`, which writes `PLACEHOLDER` for
/// the placeholder entity and otherwise the index (`NonMaxU32::get`, the complement of the low
/// half), `v` and the generation.
#[verifier::external_body]
fn entity_display(bits: u64) -> (r: String)
    requires
        is_entity_bits(bits),
    ensures
        r@ == entity_text(bits),
{
    format!("{}", bevy::ecs::entity::Entity::from_bits(bits))
}

/// Errors of granting and looking up abilities.
#[derive(Clone, Copy, Debug, PartialEq, Eq)]
pub enum AbilityError {
    GrantingAbilityToNonActor(u64),
    AbilityDoesNotExist(u64),
}

pub open spec fn ability_error_text(e: AbilityError) -> Seq<char> {
    match e {
        AbilityError::GrantingAbilityToNonActor(bits) => entity_text(bits)
            + ": Cannot grant ability to entities that are not actors. with TypeId  not present on entity."@,
        AbilityError::AbilityDoesNotExist(bits) => entity_text(bits)
            + ": The entity is not an ability (e.g. No Ability component)."@,
    }
}

impl AbilityError {
    pub open spec fn entity(self) -> u64 {
        match self {
            AbilityError::GrantingAbilityToNonActor(bits) => bits,
            AbilityError::AbilityDoesNotExist(bits) => bits,
        }
    }

    /// The message that describes this error.
    pub fn message(&self) -> (r: String)
        requires
            is_entity_bits(self.entity()),
        ensures
            r@ == ability_error_text(*self),
    {
        match self {
            AbilityError::GrantingAbilityToNonActor(bits) => {
                let s = entity_display(*bits);
                s.concat(": Cannot grant ability to entities that are not actors. with TypeId  not present on entity.")
            },
            AbilityError::AbilityDoesNotExist(bits) => {
                let s = entity_display(*bits);
                s.concat(": The entity is not an ability (e.g. No Ability component).")
            },
        }
    }
}

} // verus!
