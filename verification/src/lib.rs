//! A minimal entity-component engine: component values are attached to
//! entities under per-type identifiers, entities are spawned through a
//! command buffer, and a world runs startup systems once, in order.

pub mod buffer;
pub mod component;
pub mod errors;
pub mod registry;
pub mod store;
pub mod systems;
pub mod world;
