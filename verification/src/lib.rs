//! Verified core of an ability and attribute system for an entity-component game engine.
pub mod ability;
pub mod modifier;
pub mod task_states;
pub mod systems;
pub mod ability_state;
pub mod tasks;
pub mod attributes;
pub mod abilities;
pub mod context;
pub mod conditions;
pub mod decimal;
