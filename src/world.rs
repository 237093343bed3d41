//! Entities as indices into one dense store per component type.
use vstd::prelude::*;
use crate::car_system::CarComponent;
use crate::components::{Ball, Drag, Kinematics, Transform};
use crate::humans::Human;
use crate::vector::Vec2;

verus! {

/// All component stores. Entity `e` owns slot `e` of every store; an empty
/// slot means that the entity lacks that component.
pub struct World {
    pub transforms: Vec<Option<Transform>>,
    pub kinematics: Vec<Option<Kinematics>>,
    pub drags: Vec<Option<Drag>>,
    pub humans: Vec<Option<Human>>,
    pub cars: Vec<Option<CarComponent>>,
    pub shapes: Vec<Option<Ball>>,
    pub selectable: Vec<bool>,
    pub movable: Vec<bool>,
}

impl World {
    /// Number of entities.
    pub open spec fn len(&self) -> nat {
        self.transforms@.len()
    }

    /// Every store has one slot per entity, masses are positive, drag
    /// coefficients are not negative, and no entity is of two kinds.
    pub open spec fn wf(&self) -> bool {
        &&& self.kinematics@.len() == self.len()
        &&& self.drags@.len() == self.len()
        &&& self.humans@.len() == self.len()
        &&& self.cars@.len() == self.len()
        &&& self.shapes@.len() == self.len()
        &&& self.selectable@.len() == self.len()
        &&& self.movable@.len() == self.len()
        &&& forall|i: int| 0 <= i < self.len() && #[trigger] self.kinematics@[i] is Some
            ==> self.kinematics@[i]->0.mass > 0
        &&& forall|i: int| 0 <= i < self.len() && #[trigger] self.drags@[i] is Some
            ==> self.drags@[i]->0.coefficient >= 0
        &&& forall|i: int| 0 <= i < self.len() ==> !(#[trigger] self.humans@[i] is Some && self.cars@[i] is Some)
    }

    /// The stores that no decision system writes are those of `o`.
    pub open spec fn same_fixed_stores(&self, o: World) -> bool {
        &&& self.drags@ == o.drags@
        &&& self.shapes@ == o.shapes@
        &&& self.selectable@ == o.selectable@
        &&& self.movable@ == o.movable@
    }

    /// Every store but the kinematics one is that of `o`.
    pub open spec fn same_except_kinematics(&self, o: World) -> bool {
        &&& self.same_fixed_stores(o)
        &&& self.transforms@ == o.transforms@
        &&& self.humans@ == o.humans@
        &&& self.cars@ == o.cars@
    }

    /// A world without entities.
    pub fn new() -> (r: World)
        ensures
            r.wf(),
            r.len() == 0,
    {
        World {
            transforms: Vec::new(),
            kinematics: Vec::new(),
            drags: Vec::new(),
            humans: Vec::new(),
            cars: Vec::new(),
            shapes: Vec::new(),
            selectable: Vec::new(),
            movable: Vec::new(),
        }
    }

    /// Whether the stores are well formed, checked slot by slot.
    pub fn is_wf(&self) -> (r: bool)
        ensures
            r == self.wf(),
    {
        let n = self.transforms.len();
        if self.kinematics.len() != n || self.drags.len() != n || self.humans.len() != n
            || self.cars.len() != n || self.shapes.len() != n || self.selectable.len() != n
            || self.movable.len() != n {
            return false;
        }
        let mut i: usize = 0;
        while i < n
            invariant
                n == self.len(),
                self.kinematics@.len() == n,
                self.drags@.len() == n,
                self.humans@.len() == n,
                self.cars@.len() == n,
                0 <= i <= n,
                forall|j: int| 0 <= j < i && #[trigger] self.kinematics@[j] is Some
                    ==> self.kinematics@[j]->0.mass > 0,
                forall|j: int| 0 <= j < i && #[trigger] self.drags@[j] is Some
                    ==> self.drags@[j]->0.coefficient >= 0,
                forall|j: int| 0 <= j < i ==> !(#[trigger] self.humans@[j] is Some && self.cars@[j] is Some),
            decreases n - i,
        {
            if let Some(k) = &self.kinematics[i] {
                if k.mass <= 0 {
                    return false;
                }
            }
            if let Some(d) = &self.drags[i] {
                if d.coefficient < 0 {
                    return false;
                }
            }
            if self.humans[i].is_some() && self.cars[i].is_some() {
                return false;
            }
            i += 1;
        }
        true
    }

    /// Pushes one slot onto every store and returns the new entity.
    fn push_entity(
        &mut self,
        t: Transform,
        k: Kinematics,
        d: Drag,
        h: Option<Human>,
        c: Option<CarComponent>,
        shape: Ball,
    ) -> (e: usize)
        requires
            old(self).wf(),
            old(self).len() < usize::MAX,
            k.mass > 0,
            d.coefficient >= 0,
            !(h is Some && c is Some),
        ensures
            final(self).wf(),
            e == old(self).len(),
            final(self).transforms@ == old(self).transforms@.push(Some(t)),
            final(self).kinematics@ == old(self).kinematics@.push(Some(k)),
            final(self).drags@ == old(self).drags@.push(Some(d)),
            final(self).humans@ == old(self).humans@.push(h),
            final(self).cars@ == old(self).cars@.push(c),
            final(self).shapes@ == old(self).shapes@.push(Some(shape)),
            final(self).selectable@ == old(self).selectable@.push(true),
            final(self).movable@ == old(self).movable@.push(true),
    {
        let e = self.transforms.len();
        self.transforms.push(Some(t));
        self.kinematics.push(Some(k));
        self.drags.push(Some(d));
        self.humans.push(h);
        self.cars.push(c);
        self.shapes.push(Some(shape));
        self.selectable.push(true);
        self.movable.push(true);
        proof {
            assert forall|i: int| 0 <= i < final(self).len() && #[trigger] final(self).kinematics@[i] is Some
                implies final(self).kinematics@[i]->0.mass > 0 by {
                if i < old(self).len() {
                    assert(final(self).kinematics@[i] == old(self).kinematics@[i]);
                }
            }
            assert forall|i: int| 0 <= i < final(self).len() && #[trigger] final(self).drags@[i] is Some
                implies final(self).drags@[i]->0.coefficient >= 0 by {
                if i < old(self).len() {
                    assert(final(self).drags@[i] == old(self).drags@[i]);
                }
            }
            assert forall|i: int| 0 <= i < final(self).len()
                implies !(#[trigger] final(self).humans@[i] is Some && final(self).cars@[i] is Some) by {
                if i < old(self).len() {
                    assert(final(self).humans@[i] == old(self).humans@[i]);
                    assert(final(self).cars@[i] == old(self).cars@[i]);
                }
            }
        }
        e
    }

    /// Spawns a pedestrian at `position` walking to `objective`, with a
    /// collision disc of `radius`, and tagged selectable and movable.
    pub fn spawn_human(&mut self, position: Vec2, objective: Vec2, radius: i64, mass: i64, drag: i64) -> (e: usize)
        requires
            old(self).wf(),
            old(self).len() < usize::MAX,
            mass > 0,
            drag >= 0,
        ensures
            final(self).wf(),
            e == old(self).len(),
            final(self).transforms@ == old(self).transforms@.push(Some(Transform::new_spec(position))),
            final(self).kinematics@ == old(self).kinematics@.push(Some(Kinematics {
                velocity: Vec2 { x: 0, y: 0 },
                acceleration: Vec2 { x: 0, y: 0 },
                mass,
            })),
            final(self).drags@ == old(self).drags@.push(Some(Drag { coefficient: drag })),
            final(self).humans@ == old(self).humans@.push(Some(Human { objective })),
            final(self).cars@ == old(self).cars@.push(None),
            final(self).shapes@ == old(self).shapes@.push(Some(Ball { radius })),
            final(self).selectable@ == old(self).selectable@.push(true),
            final(self).movable@ == old(self).movable@.push(true),
    {
        self.push_entity(
            Transform::new(position),
            Kinematics::from_mass(mass),
            Drag { coefficient: drag },
            Some(Human::new(objective)),
            None,
            Ball { radius },
        )
    }

    /// Spawns a vehicle at `position` with heading angle `heading` (fixed-point
    /// radians) whose unit direction is `direction`, moving at `velocity`.
    pub fn spawn_car(
        &mut self,
        position: Vec2,
        heading: i64,
        direction: Vec2,
        velocity: Vec2,
        half_length: i64,
        mass: i64,
        drag: i64,
    ) -> (e: usize)
        requires
            old(self).wf(),
            old(self).len() < usize::MAX,
            mass > 0,
            drag >= 0,
        ensures
            final(self).wf(),
            e == old(self).len(),
            final(self).transforms@ == old(self).transforms@.push(Some(Transform { position, orientation: direction })),
            final(self).kinematics@ == old(self).kinematics@.push(Some(Kinematics {
                velocity,
                acceleration: Vec2 { x: 0, y: 0 },
                mass,
            })),
            final(self).drags@ == old(self).drags@.push(Some(Drag { coefficient: drag })),
            final(self).humans@ == old(self).humans@.push(None),
            final(self).cars@ == old(self).cars@.push(Some(CarComponent { direction, heading })),
            final(self).shapes@ == old(self).shapes@.push(Some(Ball { radius: half_length })),
            final(self).selectable@ == old(self).selectable@.push(true),
            final(self).movable@ == old(self).movable@.push(true),
    {
        self.push_entity(
            Transform { position, orientation: direction },
            Kinematics { velocity, acceleration: Vec2::zero(), mass },
            Drag { coefficient: drag },
            None,
            Some(CarComponent { direction, heading }),
            Ball { radius: half_length },
        )
    }
}

} // verus!
