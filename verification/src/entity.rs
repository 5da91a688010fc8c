//! Entities and their components.
//!
//! An entity is a handle plus a record of components. What an entity does is
//! decided by the components it carries, not by a hierarchy of types.

use crate::angle::TAU;
use crate::vector::{circles_overlap, overlapping, Vec2};
use vstd::prelude::*;

verus! {

/// The collision radius of the ship: forty units.
pub const PLAYER_RADIUS: u32 = 40_000;

/// The collision radius of an asteroid: fifty units.
pub const ASTEROID_RADIUS: u32 = 50_000;

/// Where the thrust flame sits, counted from the ship's centre along the
/// ship's own forward axis: forty units behind.
pub const FLAME_Y: i32 = -40_000;

/// What an entity is. Each entity has exactly one role.
#[derive(Clone, Copy, Debug, PartialEq, Eq, Hash, Structural)]
pub enum Role {
    Player,
    Asteroid,
    Effect,
    ThrustIndicator,
}

/// A handle to an entity: the slot it lives in and the generation of that
/// slot. A slot's generation changes when its entity is destroyed, so a handle
/// kept beyond that never names a later entity.
#[derive(Clone, Copy, Debug, PartialEq, Eq, Hash, Structural)]
pub struct EntityId {
    pub index: usize,
    pub generation: u32,
}

/// The components of one entity.
#[derive(Clone, Copy, Debug, PartialEq, Eq)]
pub struct Entity {
    pub role: Role,
    /// Where the entity is. For an entity with a parent this is counted from
    /// the parent, in the parent's own frame.
    pub position: Vec2,
    /// Which way the entity faces, in nanoradians, less than a full turn.
    pub orientation: u64,
    /// Displacement in one tick; `None` for what never moves.
    pub velocity: Option<Vec2>,
    /// Spin in nanoradians per tick.
    pub angular_velocity: Option<i64>,
    /// The radius of the circle that collisions are tested with; `None` for
    /// what nothing can hit.
    pub radius: Option<u32>,
    /// Whether the entity wraps around at the arena's edges.
    pub wrap_eligible: bool,
    pub visible: bool,
    /// The entity this one is drawn with. A parent does not own its children:
    /// the link is only followed from child to parent.
    pub parent: Option<EntityId>,
}

impl Entity {
    /// Whether the components are in their ranges.
    pub open spec fn wf(self) -> bool {
        self.orientation < TAU
    }

    /// The ship as it starts: at rest at the centre of the arena, facing along
    /// the angle zero.
    pub open spec fn spec_player() -> Entity {
        Entity {
            role: Role::Player,
            position: Vec2 { x: 0, y: 0 },
            orientation: 0,
            velocity: Some(Vec2 { x: 0, y: 0 }),
            angular_velocity: None,
            radius: Some(PLAYER_RADIUS),
            wrap_eligible: true,
            visible: true,
            parent: None,
        }
    }

    /// The flame that shows while the ship thrusts: hidden at first, behind
    /// the ship's centre.
    pub open spec fn spec_thrust_indicator(ship: EntityId) -> Entity {
        Entity {
            role: Role::ThrustIndicator,
            position: Vec2 { x: 0, y: FLAME_Y },
            orientation: 0,
            velocity: None,
            angular_velocity: None,
            radius: None,
            wrap_eligible: false,
            visible: false,
            parent: Some(ship),
        }
    }

    /// An asteroid at `position`, drifting by `velocity` each tick.
    pub open spec fn spec_asteroid(position: Vec2, velocity: Vec2, spin: i64) -> Entity {
        Entity {
            role: Role::Asteroid,
            position,
            orientation: 0,
            velocity: Some(velocity),
            angular_velocity: Some(spin),
            radius: Some(ASTEROID_RADIUS),
            wrap_eligible: true,
            visible: true,
            parent: None,
        }
    }

    /// The explosion left where `wreck` was destroyed: in its place, facing
    /// its way, and doing nothing else.
    pub open spec fn spec_explosion(wreck: Entity) -> Entity {
        Entity {
            role: Role::Effect,
            position: wreck.position,
            orientation: wreck.orientation,
            velocity: None,
            angular_velocity: None,
            radius: None,
            wrap_eligible: false,
            visible: true,
            parent: None,
        }
    }

    /// Whether the collision circles of two entities overlap. An entity
    /// without a radius touches nothing.
    pub open spec fn touches(self, other: Entity) -> bool {
        match (self.radius, other.radius) {
            (Some(own), Some(theirs)) => overlapping(self.position, own, other.position, theirs),
            _ => false,
        }
    }

    pub fn player() -> (e: Entity)
        ensures
            e == Entity::spec_player(),
            e.wf(),
    {
        Entity {
            role: Role::Player,
            position: Vec2 { x: 0, y: 0 },
            orientation: 0,
            velocity: Some(Vec2 { x: 0, y: 0 }),
            angular_velocity: None,
            radius: Some(PLAYER_RADIUS),
            wrap_eligible: true,
            visible: true,
            parent: None,
        }
    }

    pub fn thrust_indicator(ship: EntityId) -> (e: Entity)
        ensures
            e == Entity::spec_thrust_indicator(ship),
            e.wf(),
    {
        Entity {
            role: Role::ThrustIndicator,
            position: Vec2 { x: 0, y: FLAME_Y },
            orientation: 0,
            velocity: None,
            angular_velocity: None,
            radius: None,
            wrap_eligible: false,
            visible: false,
            parent: Some(ship),
        }
    }

    pub fn asteroid(position: Vec2, velocity: Vec2, spin: i64) -> (e: Entity)
        ensures
            e == Entity::spec_asteroid(position, velocity, spin),
            e.wf(),
    {
        Entity {
            role: Role::Asteroid,
            position,
            orientation: 0,
            velocity: Some(velocity),
            angular_velocity: Some(spin),
            radius: Some(ASTEROID_RADIUS),
            wrap_eligible: true,
            visible: true,
            parent: None,
        }
    }

    pub fn explosion(wreck: &Entity) -> (e: Entity)
        ensures
            e == Entity::spec_explosion(*wreck),
            wreck.wf() ==> e.wf(),
    {
        Entity {
            role: Role::Effect,
            position: wreck.position,
            orientation: wreck.orientation,
            velocity: None,
            angular_velocity: None,
            radius: None,
            wrap_eligible: false,
            visible: true,
            parent: None,
        }
    }

    /// Tests the collision circles of two entities for overlap.
    pub fn collides_with(&self, other: &Entity) -> (hit: bool)
        ensures
            hit == self.touches(*other),
    {
        match (self.radius, other.radius) {
            (Some(own), Some(theirs)) => circles_overlap(self.position, own, other.position, theirs),
            _ => false,
        }
    }

    /// Whether the entity is the child of `parent`.
    pub open spec fn is_child_of(self, parent: EntityId) -> bool {
        self.parent == Some(parent)
    }

    /// Tests whether the entity is the child of `parent`.
    pub fn has_parent(&self, parent: EntityId) -> (yes: bool)
        ensures
            yes == self.is_child_of(parent),
    {
        match self.parent {
            Some(p) => p.index == parent.index && p.generation == parent.generation,
            None => false,
        }
    }
}

} // verus!
