//! The arena and its wrap-around edges.
//!
//! The arena is centred on the origin and reaches half the viewport's width
//! and height to each side. Whatever leaves it on one side comes back in on
//! the opposite side.

use crate::vector::Vec2;
use vstd::prelude::*;

verus! {

/// The size of the visible arena, in fixed-point steps.
#[derive(Clone, Copy, Debug, PartialEq, Eq, Structural)]
pub struct Viewport {
    pub width: u32,
    pub height: u32,
}

/// A coordinate after wrapping: one below `-half` becomes `half`, one above
/// `half` becomes `-half`, any other stays.
pub open spec fn wrapped_axis(p: int, half: int) -> int {
    if p < -half {
        half
    } else if p > half {
        -half
    } else {
        p
    }
}

/// Wraps one coordinate of an arena that is `size` steps wide along that
/// coordinate's axis.
pub fn wrap_axis(p: i32, size: u32) -> (r: i32)
    ensures
        r == wrapped_axis(p as int, size as int / 2),
        -(size as int / 2) <= r <= size as int / 2,
{
    let half: i32 = (size / 2) as i32;
    if p < -half {
        half
    } else if p > half {
        -half
    } else {
        p
    }
}

impl Viewport {
    /// Half the width: how far the arena reaches to the left and to the right.
    pub open spec fn half_width(self) -> int {
        self.width as int / 2
    }

    /// Half the height: how far the arena reaches up and down.
    pub open spec fn half_height(self) -> int {
        self.height as int / 2
    }

    /// A point after wrapping, each axis on its own.
    pub open spec fn wrapped(self, p: Vec2) -> Vec2 {
        Vec2 {
            x: wrapped_axis(p.x as int, self.half_width()) as i32,
            y: wrapped_axis(p.y as int, self.half_height()) as i32,
        }
    }

    /// Whether a point lies inside the arena, edges included.
    pub open spec fn holds(self, p: Vec2) -> bool {
        &&& -self.half_width() <= p.x <= self.half_width()
        &&& -self.half_height() <= p.y <= self.half_height()
    }

    pub fn new(width: u32, height: u32) -> (v: Viewport)
        ensures
            v == (Viewport { width, height }),
    {
        Viewport { width, height }
    }

    /// Wraps a point into the arena, each axis on its own.
    pub fn wrap(self, p: Vec2) -> (r: Vec2)
        ensures
            r == self.wrapped(p),
            self.holds(r),
    {
        Vec2 { x: wrap_axis(p.x, self.width), y: wrap_axis(p.y, self.height) }
    }

    /// Wrapping a second time changes nothing.
    pub proof fn lemma_wrap_idempotent(self, p: Vec2)
        ensures
            self.wrapped(self.wrapped(p)) == self.wrapped(p),
    {
    }

    /// Wrapping brings every point into the arena.
    pub proof fn lemma_wrap_lands_inside(self, p: Vec2)
        ensures
            self.holds(self.wrapped(p)),
    {
    }

    /// Wrapping leaves a point inside the arena where it is.
    pub proof fn lemma_wrap_keeps_inside(self, p: Vec2)
        requires
            self.holds(p),
        ensures
            self.wrapped(p) == p,
    {
    }

    /// A point just past an edge comes back on the opposite edge.
    pub proof fn lemma_wrap_past_edge(self, p: Vec2)
        ensures
            p.x < -self.half_width() ==> self.wrapped(p).x == self.half_width(),
            p.x > self.half_width() ==> self.wrapped(p).x == -self.half_width(),
            p.y < -self.half_height() ==> self.wrapped(p).y == self.half_height(),
            p.y > self.half_height() ==> self.wrapped(p).y == -self.half_height(),
    {
    }
}

} // verus!
