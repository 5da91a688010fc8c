//! What one tick does to one entity: steering and thrust for the ship, drift
//! for whatever has a velocity, and the wrap at the arena's edges.

use crate::angle::{steer, steered};
use crate::arena::Viewport;
use crate::entity::Entity;
use crate::vector::{lemma_scaled_shrinks, scale, scaled, Vec2};
use vstd::prelude::*;

verus! {

/// The greatest speed of the ship: ten units in a tick.
pub const MAX_SPEED: u32 = 10_000;

/// Thrust adds the ship's forward vector divided by this: a tenth of a unit in
/// a tick for a forward vector one unit long.
pub const THRUST_DIVISOR: u64 = 10;

/// The keys held during a tick.
#[derive(Clone, Copy, Debug, PartialEq, Eq, Structural)]
pub struct Controls {
    pub rotate_left: bool,
    pub rotate_right: bool,
    pub thrust: bool,
}

/// What one tick of thrust adds to the velocity of a ship facing along
/// `forward`.
pub open spec fn thrust_push(forward: Vec2) -> Vec2 {
    Vec2 {
        x: scaled(forward.x as int, 1, THRUST_DIVISOR as nat) as i32,
        y: scaled(forward.y as int, 1, THRUST_DIVISOR as nat) as i32,
    }
}

/// A velocity after one tick of thrust: pushed along `forward`, then cut down
/// to the greatest speed.
pub open spec fn thrusted(velocity: Vec2, forward: Vec2) -> Vec2 {
    velocity.plus(thrust_push(forward)).capped(MAX_SPEED)
}

/// Computes what one tick of thrust adds to the velocity.
pub fn push_of(forward: Vec2) -> (push: Vec2)
    ensures
        push == thrust_push(forward),
{
    proof {
        lemma_scaled_shrinks(forward.x as int, 1, THRUST_DIVISOR as nat);
        lemma_scaled_shrinks(forward.y as int, 1, THRUST_DIVISOR as nat);
    }
    let x: i64 = scale(forward.x, 1, THRUST_DIVISOR);
    let y: i64 = scale(forward.y, 1, THRUST_DIVISOR);
    Vec2 { x: x as i32, y: y as i32 }
}

/// Applies one tick of thrust to a velocity.
pub fn thrust(velocity: Vec2, forward: Vec2) -> (r: Vec2)
    ensures
        r == thrusted(velocity, forward),
        r.length_squared() <= MAX_SPEED * MAX_SPEED,
{
    velocity.advance(push_of(forward)).cap_length(MAX_SPEED)
}

impl Controls {
    /// No key held.
    pub open spec fn spec_idle() -> Controls {
        Controls { rotate_left: false, rotate_right: false, thrust: false }
    }

    pub fn idle() -> (c: Controls)
        ensures
            c == Controls::spec_idle(),
    {
        Controls { rotate_left: false, rotate_right: false, thrust: false }
    }
}

impl Entity {
    /// The ship after the keys of one tick: turned by the turning keys and, if
    /// the thrust key is held, pushed along `forward`. Nothing else changes.
    pub open spec fn steered(self, controls: Controls, forward: Vec2, elapsed: u64) -> Entity {
        Entity {
            orientation: steered(
                self.orientation as int,
                controls.rotate_left,
                controls.rotate_right,
                elapsed as int,
            ) as u64,
            velocity: match self.velocity {
                Some(v) if controls.thrust => Some(thrusted(v, forward)),
                _ => self.velocity,
            },
            ..self
        }
    }

    /// The entity with its visibility set.
    pub open spec fn shown(self, visible: bool) -> Entity {
        Entity { visible, ..self }
    }

    /// The entity after drifting for one tick: moved by its velocity, if it
    /// has one.
    pub open spec fn slid(self) -> Entity {
        match self.velocity {
            Some(v) => Entity { position: self.position.plus(v), ..self },
            None => self,
        }
    }

    /// The entity after the wrap: brought back into the arena if it wraps and
    /// there is an arena.
    pub open spec fn wrapped(self, viewport: Option<Viewport>) -> Entity {
        match viewport {
            Some(v) if self.wrap_eligible => Entity { position: v.wrapped(self.position), ..self },
            _ => self,
        }
    }

    /// Applies the keys of one tick to the ship.
    pub fn steer(&self, controls: &Controls, forward: Vec2, elapsed: u64) -> (e: Entity)
        ensures
            e == self.steered(*controls, forward, elapsed),
            self.wf() ==> e.wf(),
    {
        let orientation: u64 = steer(
            self.orientation,
            controls.rotate_left,
            controls.rotate_right,
            elapsed,
        );
        let velocity: Option<Vec2> = match self.velocity {
            Some(v) => if controls.thrust {
                Some(thrust(v, forward))
            } else {
                Some(v)
            },
            None => None,
        };
        Entity {
            role: self.role,
            position: self.position,
            orientation,
            velocity,
            angular_velocity: self.angular_velocity,
            radius: self.radius,
            wrap_eligible: self.wrap_eligible,
            visible: self.visible,
            parent: self.parent,
        }
    }

    /// Sets the visibility.
    pub fn show(&self, visible: bool) -> (e: Entity)
        ensures
            e == self.shown(visible),
    {
        Entity {
            role: self.role,
            position: self.position,
            orientation: self.orientation,
            velocity: self.velocity,
            angular_velocity: self.angular_velocity,
            radius: self.radius,
            wrap_eligible: self.wrap_eligible,
            visible,
            parent: self.parent,
        }
    }

    /// Moves the entity by its velocity.
    pub fn slide(&self) -> (e: Entity)
        ensures
            e == self.slid(),
    {
        match self.velocity {
            Some(v) => Entity {
                role: self.role,
                position: self.position.advance(v),
                orientation: self.orientation,
                velocity: self.velocity,
                angular_velocity: self.angular_velocity,
                radius: self.radius,
                wrap_eligible: self.wrap_eligible,
                visible: self.visible,
                parent: self.parent,
            },
            None => *self,
        }
    }

    /// Wraps the entity at the arena's edges.
    pub fn wrap(&self, viewport: Option<Viewport>) -> (e: Entity)
        ensures
            e == self.wrapped(viewport),
    {
        match viewport {
            Some(v) => if self.wrap_eligible {
                Entity {
                    role: self.role,
                    position: v.wrap(self.position),
                    orientation: self.orientation,
                    velocity: self.velocity,
                    angular_velocity: self.angular_velocity,
                    radius: self.radius,
                    wrap_eligible: self.wrap_eligible,
                    visible: self.visible,
                    parent: self.parent,
                }
            } else {
                *self
            },
            None => *self,
        }
    }
}

} // verus!
