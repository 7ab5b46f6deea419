//! Game objects: a variant-tagged record of kind, position and velocity.
//!
//! Coordinate and velocity components are carried as opaque 32-bit words that
//! the core never interprets; an embedding application may store IEEE-754
//! single-precision bit patterns in them and convert at its own edge.

use vstd::prelude::*;

verus! {

/// The kind of a game object.
#[derive(Clone, Copy, Debug, PartialEq, Eq, Structural)]
pub enum EntityType {
    Player,
    Enemy,
    Projectile,
}

/// A game object: its kind, and position and velocity as pairs of opaque
/// 32-bit coordinate words.
#[derive(Clone, Copy, Debug, PartialEq, Eq)]
pub struct Entity {
    pub entity_type: EntityType,
    pub position: (u32, u32),
    pub velocity: (u32, u32),
}

/// Builds a player entity at the given position, at rest.
pub fn create_player(x: u32, y: u32) -> (entity: Entity)
    ensures
        entity.entity_type == EntityType::Player,
        entity.position == (x, y),
        entity.velocity == (0u32, 0u32),
{
    Entity { entity_type: EntityType::Player, position: (x, y), velocity: (0, 0) }
}

} // verus!
