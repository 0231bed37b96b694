//! Data-storage core of an entity-component system.
//!
//! Systems attach component values to opaque entity handles, read them back
//! by entity or by component type, and are told when components of a type
//! come and go. Every operation carries a contract over a mathematical model
//! of the store, and the contracts are checked by Verus.

pub mod commands;
pub mod ecs;
pub mod input;
