//! Plain component records shared by every entity kind.
use vstd::prelude::*;
use crate::vector::{Vec2, UNIT};

verus! {

/// Position and heading of an entity. The heading is stored as the
/// fixed-point pair `(cos, sin)`.
#[derive(Clone, Copy, Debug, PartialEq, Eq, Structural)]
pub struct Transform {
    pub position: Vec2,
    pub orientation: Vec2,
}

/// Velocity, this tick's accumulated acceleration, and mass.
#[derive(Clone, Copy, Debug, PartialEq, Eq, Structural)]
pub struct Kinematics {
    pub velocity: Vec2,
    pub acceleration: Vec2,
    pub mass: i64,
}

/// Resistance coefficient read by the integrator.
#[derive(Clone, Copy, Debug, PartialEq, Eq, Structural)]
pub struct Drag {
    pub coefficient: i64,
}

/// Collision disc registered for an entity at spawn time.
#[derive(Clone, Copy, Debug, PartialEq, Eq, Structural)]
pub struct Ball {
    pub radius: i64,
}

/// Elapsed time of the current tick, in fixed-point seconds.
#[derive(Clone, Copy, Debug, PartialEq, Eq, Structural)]
pub struct DeltaTime(pub i64);

impl Transform {
    /// A transform at `position`, facing along the x axis.
    pub open spec fn new_spec(position: Vec2) -> Transform {
        Transform { position, orientation: Vec2 { x: UNIT, y: 0 } }
    }

    /// A transform at `position`, facing along the x axis.
    pub fn new(position: Vec2) -> (r: Transform)
        ensures
            r == Transform::new_spec(position),
    {
        Transform { position, orientation: Vec2 { x: UNIT, y: 0 } }
    }

    pub fn position(&self) -> (r: Vec2)
        ensures
            r == self.position,
    {
        self.position
    }

    /// Sets the heading from its fixed-point cosine and sine.
    pub fn set_angle_cos_sin(&mut self, cos: i64, sin: i64)
        ensures
            final(self).position == old(self).position,
            final(self).orientation == (Vec2 { x: cos, y: sin }),
    {
        self.orientation = Vec2 { x: cos, y: sin };
    }
}

impl Kinematics {
    /// At rest, with the given mass.
    pub fn from_mass(mass: i64) -> (r: Kinematics)
        requires
            mass > 0,
        ensures
            r.velocity == (Vec2 { x: 0, y: 0 }),
            r.acceleration == (Vec2 { x: 0, y: 0 }),
            r.mass == mass,
    {
        Kinematics { velocity: Vec2 { x: 0, y: 0 }, acceleration: Vec2 { x: 0, y: 0 }, mass }
    }
}

} // verus!
