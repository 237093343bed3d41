//! Pedestrians: stop on arrival, otherwise accumulate a steering acceleration.
use vstd::prelude::*;
use crate::components::{DeltaTime, Kinematics, Transform};
use crate::vector::{add_spec, dist2, sat, sat_i128, Vec2, UNIT};
use crate::world::World;

verus! {

/// Pedestrian data: the point the entity walks to.
#[derive(Clone, Copy, Debug, PartialEq, Eq, Structural)]
pub struct Human {
    pub objective: Vec2,
}

/// Whether `position` is within one unit of `objective`.
pub open spec fn arrived(position: Vec2, objective: Vec2) -> bool {
    dist2(position, objective) < UNIT * UNIT
}

impl Human {
    /// The steering acceleration of a pedestrian.
    pub open spec fn acceleration_spec(self, kin: Kinematics) -> Vec2 {
        Vec2 { x: 0, y: 0 }
    }

    pub fn new(objective: Vec2) -> (r: Human)
        ensures
            r.objective == objective,
    {
        Human { objective }
    }

    /// Steering acceleration; no steering law is applied yet, so it is zero.
    pub fn calc_acceleration(&self, kin: &Kinematics) -> (r: Vec2)
        ensures
            r == self.acceleration_spec(*kin),
    {
        Vec2::zero()
    }
}

/// Kinematics of a pedestrian after one tick.
pub open spec fn human_step(t: Transform, k: Kinematics, h: Human) -> Kinematics {
    if arrived(t.position, h.objective) {
        Kinematics { velocity: Vec2 { x: 0, y: 0 }, ..k }
    } else {
        Kinematics { acceleration: add_spec(k.acceleration, h.acceleration_spec(k)), ..k }
    }
}

/// Entity `i`'s kinematics after the pass: stepped when it has all three
/// components, untouched otherwise.
pub open spec fn human_entry(
    ts: Seq<Option<Transform>>,
    ks: Seq<Option<Kinematics>>,
    hs: Seq<Option<Human>>,
    i: int,
) -> Option<Kinematics> {
    if ts[i] is Some && ks[i] is Some && hs[i] is Some {
        Some(human_step(ts[i]->0, ks[i]->0, hs[i]->0))
    } else {
        ks[i]
    }
}

/// The kinematics store after one pedestrian pass.
pub open spec fn human_pass(
    ts: Seq<Option<Transform>>,
    ks: Seq<Option<Kinematics>>,
    hs: Seq<Option<Human>>,
) -> Seq<Option<Kinematics>> {
    Seq::new(ks.len(), |i: int| human_entry(ts, ks, hs, i))
}

/// The kinematics store after updating only entity `i`, reading its current slot.
pub open spec fn human_apply(
    ts: Seq<Option<Transform>>,
    hs: Seq<Option<Human>>,
    ks: Seq<Option<Kinematics>>,
    i: int,
) -> Seq<Option<Kinematics>> {
    ks.update(i, human_entry(ts, ks, hs, i))
}

/// The kinematics store after updating the entities one at a time, in `order`.
pub open spec fn human_apply_all(
    ts: Seq<Option<Transform>>,
    hs: Seq<Option<Human>>,
    ks: Seq<Option<Kinematics>>,
    order: Seq<int>,
) -> Seq<Option<Kinematics>>
    decreases order.len(),
{
    if order.len() == 0 {
        ks
    } else {
        human_apply(ts, hs, human_apply_all(ts, hs, ks, order.drop_last()), order.last())
    }
}

/// A pedestrian that is within one unit of its objective ends the pass at rest.
pub proof fn lemma_arrived_stops(
    ts: Seq<Option<Transform>>,
    ks: Seq<Option<Kinematics>>,
    hs: Seq<Option<Human>>,
    i: int,
)
    requires
        0 <= i < ks.len(),
        ts[i] is Some,
        ks[i] is Some,
        hs[i] is Some,
        arrived(ts[i]->0.position, hs[i]->0.objective),
    ensures
        human_pass(ts, ks, hs)[i] is Some,
        human_pass(ts, ks, hs)[i]->0.velocity == (Vec2 { x: 0, y: 0 }),
{
}

/// A pedestrian one unit or more from its objective keeps its velocity and
/// mass: the pass changes only its acceleration.
pub proof fn lemma_far_keeps_velocity(
    ts: Seq<Option<Transform>>,
    ks: Seq<Option<Kinematics>>,
    hs: Seq<Option<Human>>,
    i: int,
)
    requires
        0 <= i < ks.len(),
        ts[i] is Some,
        ks[i] is Some,
        hs[i] is Some,
        !arrived(ts[i]->0.position, hs[i]->0.objective),
    ensures
        human_pass(ts, ks, hs)[i] is Some,
        human_pass(ts, ks, hs)[i]->0.velocity == ks[i]->0.velocity,
        human_pass(ts, ks, hs)[i]->0.mass == ks[i]->0.mass,
{
}

proof fn lemma_apply_all_slots(
    ts: Seq<Option<Transform>>,
    hs: Seq<Option<Human>>,
    ks: Seq<Option<Kinematics>>,
    order: Seq<int>,
)
    requires
        ts.len() == ks.len(),
        hs.len() == ks.len(),
        order.no_duplicates(),
        forall|k: int| 0 <= k < order.len() ==> 0 <= #[trigger] order[k] < ks.len(),
    ensures
        human_apply_all(ts, hs, ks, order).len() == ks.len(),
        forall|j: int| 0 <= j < ks.len() ==> #[trigger] human_apply_all(ts, hs, ks, order)[j] == if order.contains(j) {
            human_entry(ts, ks, hs, j)
        } else {
            ks[j]
        },
    decreases order.len(),
{
    if order.len() > 0 {
        let prefix = order.drop_last();
        let last = order.last();
        assert(prefix.no_duplicates()) by {
            assert forall|a: int, b: int| 0 <= a < b < prefix.len() implies prefix[a] != prefix[b] by {
                assert(prefix[a] == order[a] && prefix[b] == order[b]);
            }
        }
        assert forall|k: int| 0 <= k < prefix.len() implies 0 <= #[trigger] prefix[k] < ks.len() by {
            assert(prefix[k] == order[k]);
        }
        lemma_apply_all_slots(ts, hs, ks, prefix);
        assert(!prefix.contains(last)) by {
            if prefix.contains(last) {
                let a = choose|a: int| 0 <= a < prefix.len() && prefix[a] == last;
                assert(order[a] == order[order.len() - 1]);
            }
        }
        let prev = human_apply_all(ts, hs, ks, prefix);
        assert(0 <= last < ks.len()) by {
            assert(last == order[order.len() - 1]);
        }
        assert(prev[last] == ks[last]);
        assert forall|j: int| 0 <= j < ks.len() implies #[trigger] human_apply_all(ts, hs, ks, order)[j] == if order.contains(j) {
            human_entry(ts, ks, hs, j)
        } else {
            ks[j]
        } by {
            if j == last {
                assert(order[order.len() - 1] == j);
            } else {
                assert(order.contains(j) == prefix.contains(j)) by {
                    if order.contains(j) {
                        let a = choose|a: int| 0 <= a < order.len() && order[a] == j;
                        assert(a != order.len() - 1);
                        assert(prefix[a] == j);
                    }
                    if prefix.contains(j) {
                        let a = choose|a: int| 0 <= a < prefix.len() && prefix[a] == j;
                        assert(order[a] == j);
                    }
                }
            }
        }
    }
}

/// Each pedestrian's update reads and writes only its own slots, so updating
/// the entities one at a time in any order, each once, gives the result of
/// the pass.
pub proof fn lemma_pass_order_independent(
    ts: Seq<Option<Transform>>,
    hs: Seq<Option<Human>>,
    ks: Seq<Option<Kinematics>>,
    order: Seq<int>,
)
    requires
        ts.len() == ks.len(),
        hs.len() == ks.len(),
        order.no_duplicates(),
        forall|k: int| 0 <= k < order.len() ==> 0 <= #[trigger] order[k] < ks.len(),
        forall|j: int| 0 <= j < ks.len() ==> order.contains(j),
    ensures
        human_apply_all(ts, hs, ks, order) == human_pass(ts, ks, hs),
{
    lemma_apply_all_slots(ts, hs, ks, order);
    assert(human_apply_all(ts, hs, ks, order) =~= human_pass(ts, ks, hs));
}

/// Whether `p` and `o` are less than one unit apart.
pub fn is_arrived(p: Vec2, o: Vec2) -> (r: bool)
    ensures
        r == arrived(p, o),
{
    let dx: i128 = o.x as i128 - p.x as i128;
    let dy: i128 = o.y as i128 - p.y as i128;
    let u: i128 = UNIT as i128;
    if dx <= -u || dx >= u || dy <= -u || dy >= u {
        assert(dx * dx + dy * dy >= u * u) by (nonlinear_arith)
            requires
                dx <= -u || dx >= u || dy <= -u || dy >= u,
                u > 0,
        ;
        false
    } else {
        assert(0 <= dx * dx <= 1_000_000 && 0 <= dy * dy <= 1_000_000) by (nonlinear_arith)
            requires
                -1000 < dx < 1000,
                -1000 < dy < 1000,
        ;
        dx * dx + dy * dy < u * u
    }
}

/// One pedestrian's update.
pub fn human_tick(t: &Transform, k: &mut Kinematics, h: &Human)
    ensures
        *final(k) == human_step(*t, *old(k), *h),
{
    if is_arrived(t.position, h.objective) {
        k.velocity = Vec2::zero();
        return;
    }
    let acc = h.calc_acceleration(k);
    k.acceleration = k.acceleration.add(&acc);
}

/// The pedestrian decision system.
#[derive(Clone, Copy, Debug, PartialEq, Eq, Structural)]
pub struct HumanUpdate;

impl HumanUpdate {
    /// Updates every entity that has a transform, kinematics and pedestrian
    /// data; every other store and entity is left as it was.
    pub fn run(&mut self, world: &mut World, delta: &DeltaTime)
        requires
            old(world).wf(),
        ensures
            final(world).wf(),
            final(world).kinematics@ == human_pass(
                old(world).transforms@,
                old(world).kinematics@,
                old(world).humans@,
            ),
            final(world).transforms@ == old(world).transforms@,
            final(world).humans@ == old(world).humans@,
            final(world).same_except_kinematics(*old(world)),
    {
        let n: usize = world.kinematics.len();
        let mut i: usize = 0;
        while i < n
            invariant
                world.wf(),
                n == world.kinematics@.len(),
                0 <= i <= n,
                world.same_except_kinematics(*old(world)),
                world.transforms@ == old(world).transforms@,
                world.humans@ == old(world).humans@,
                forall|j: int| 0 <= j < i ==> world.kinematics@[j] == human_entry(
                    old(world).transforms@, old(world).kinematics@, old(world).humans@, j),
                forall|j: int| i <= j < n ==> world.kinematics@[j] == old(world).kinematics@[j],
            decreases n - i,
        {
            match (&world.transforms[i], &world.kinematics[i], &world.humans[i]) {
                (Some(t), Some(k), Some(h)) => {
                    let mut k2 = *k;
                    human_tick(t, &mut k2, h);
                    world.kinematics[i] = Some(k2);
                },
                _ => {},
            }
            i += 1;
        }
        assert(world.kinematics@ =~= human_pass(
            old(world).transforms@, old(world).kinematics@, old(world).humans@));
    }
}

/// Side of the square in which pedestrians are placed, in fixed-point units.
pub const SPAWN_SCALE: i64 = 100 * UNIT;

/// Mass of a spawned pedestrian, fixed-point.
pub const HUMAN_MASS: i64 = 70 * UNIT;

/// The x coordinate of a pedestrian's objective, mirrored from its start.
pub open spec fn mirrored_x(x: int) -> int {
    sat(5 * SPAWN_SCALE - x)
}

/// Spawns one pedestrian at `(x, y)`, with a disc of radius one, walking to
/// `(5 * SPAWN_SCALE - x, y)`.
pub fn setup_at(world: &mut World, x: i64, y: i64) -> (e: usize)
    requires
        old(world).wf(),
        old(world).len() < usize::MAX,
    ensures
        final(world).wf(),
        e == old(world).len(),
        final(world).len() == old(world).len() + 1,
        final(world).transforms@.last() == Some(Transform::new_spec(Vec2 { x, y })),
        final(world).humans@.last() == Some(Human { objective: Vec2 { x: mirrored_x(x as int) as i64, y } }),
        final(world).kinematics@.last() == Some(Kinematics {
            velocity: Vec2 { x: 0, y: 0 },
            acceleration: Vec2 { x: 0, y: 0 },
            mass: HUMAN_MASS,
        }),
{
    let ox = sat_i128(5 * SPAWN_SCALE as i128 - x as i128);
    world.spawn_human(Vec2::new(x, y), Vec2::new(ox, y), UNIT, HUMAN_MASS, 0)
}

} // verus!
