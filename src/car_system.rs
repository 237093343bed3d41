//! Vehicles: integrate speed and heading from a decision, keep heading caches in step.
use vstd::prelude::*;
use crate::components::{DeltaTime, Kinematics, Transform};
use crate::vector::{UNIT, fx_div, is_isqrt, isqrt, norm2, sat, sat_i128, div_fx, scale_spec, Vec2};
use crate::world::World;

verus! {

/// Vehicle data: the cached unit heading vector and the heading angle in
/// fixed-point radians from which it was computed.
#[derive(Clone, Copy, Debug, PartialEq, Eq, Structural)]
pub struct CarComponent {
    pub direction: Vec2,
    pub heading: i64,
}

/// What a vehicle's decision function asks for: a change of speed per second
/// and a change of heading per second, both fixed-point.
#[derive(Clone, Copy, Debug, PartialEq, Eq, Structural)]
pub struct Decision {
    pub speed_delta: i64,
    pub angular_delta: i64,
}

/// Length of `v` in fixed-point steps, rounded down.
pub open spec fn magnitude(v: Vec2) -> int {
    choose|r: int| is_isqrt(norm2(v), r)
}

/// Speed after the tick: the current speed plus `speed_delta * dt`.
pub open spec fn car_speed(k: Kinematics, d: Decision, dt: int) -> int {
    sat(magnitude(k.velocity) + fx_div(d.speed_delta * dt))
}

/// Heading after the tick: the current heading plus `angular_delta * dt`.
pub open spec fn car_heading(c: CarComponent, d: Decision, dt: int) -> int {
    sat(c.heading + fx_div(d.angular_delta * dt))
}

/// A vehicle's components after the tick, where `dir` is the unit vector of
/// the new heading.
pub open spec fn car_step(
    t: Transform,
    k: Kinematics,
    c: CarComponent,
    d: Decision,
    dt: int,
    dir: Vec2,
) -> (Transform, Kinematics, CarComponent) {
    (
        Transform { orientation: dir, ..t },
        Kinematics { velocity: scale_spec(dir, car_speed(k, d, dt)), ..k },
        CarComponent { direction: dir, heading: car_heading(c, d, dt) as i64 },
    )
}

/// Whether `after` is a possible result of one tick on `before`: `decide`
/// answered for the current position, and the new direction is the cached
/// one if the heading did not change, else what `direction_of` answered for
/// the new heading.
pub open spec fn car_outcome<D: Fn(Vec2) -> Decision, R: Fn(i64) -> Vec2>(
    decide: D,
    direction_of: R,
    dt: int,
    t: Transform,
    k: Kinematics,
    c: CarComponent,
    after: (Transform, Kinematics, CarComponent),
) -> bool {
    exists|d: Decision, dir: Vec2|
        {
            &&& decide.ensures((t.position,), d)
            &&& if car_heading(c, d, dt) == c.heading {
                dir == c.direction
            } else {
                direction_of.ensures((car_heading(c, d, dt) as i64,), dir)
            }
            &&& after == #[trigger] car_step(t, k, c, d, dt, dir)
        }
}

/// Whether entity `i` of `w` has a transform, kinematics and vehicle data.
pub open spec fn is_car(w: World, i: int) -> bool {
    w.transforms@[i] is Some && w.kinematics@[i] is Some && w.cars@[i] is Some
}

/// The vehicle components of entity `i`.
pub open spec fn car_of(w: World, i: int) -> (Transform, Kinematics, CarComponent) {
    (w.transforms@[i]->0, w.kinematics@[i]->0, w.cars@[i]->0)
}

/// Whether `after` is a possible result of the vehicle pass on `before`:
/// each vehicle is updated from its own components alone; the other entities
/// and the stores that the pass does not write are unchanged.
pub open spec fn car_pass<D: Fn(Vec2) -> Decision, R: Fn(i64) -> Vec2>(
    decide: D,
    direction_of: R,
    dt: int,
    before: World,
    after: World,
) -> bool {
    &&& after.len() == before.len()
    &&& after.same_fixed_stores(before)
    &&& after.humans@ == before.humans@
    &&& forall|i: int| 0 <= i < before.len() ==> {
        if #[trigger] is_car(before, i) {
            &&& is_car(after, i)
            &&& car_outcome(decide, direction_of, dt, before.transforms@[i]->0, before.kinematics@[i]->0, before.cars@[i]->0, car_of(after, i))
        } else {
            &&& after.transforms@[i] == before.transforms@[i]
            &&& after.kinematics@[i] == before.kinematics@[i]
            &&& after.cars@[i] == before.cars@[i]
        }
    }
}

/// Whether `v` has unit length, up to the rounding of its two fixed-point
/// coordinates.
pub open spec fn is_unit(v: Vec2) -> bool {
    UNIT * UNIT - 2 * UNIT <= norm2(v) <= UNIT * UNIT + 2 * UNIT
}

/// After the vehicle pass, each vehicle's transform faces along its cached
/// direction; and that direction is of unit length whenever it was before
/// and `direction_of` only gives unit vectors.
pub proof fn lemma_heading_in_step<D: Fn(Vec2) -> Decision, R: Fn(i64) -> Vec2>(
    decide: D,
    direction_of: R,
    dt: int,
    before: World,
    after: World,
    i: int,
)
    requires
        car_pass(decide, direction_of, dt, before, after),
        0 <= i < before.len(),
        is_car(before, i),
    ensures
        is_car(after, i),
        after.transforms@[i]->0.orientation == after.cars@[i]->0.direction,
        is_unit(before.cars@[i]->0.direction) && (forall|h: i64, v: Vec2| direction_of.ensures((h,), v) ==> is_unit(v))
            ==> is_unit(after.cars@[i]->0.direction),
{
    assert(is_car(before, i));
    let t = before.transforms@[i]->0;
    let k = before.kinematics@[i]->0;
    let c = before.cars@[i]->0;
    let (d, dir) = choose|d: Decision, dir: Vec2|
        {
            &&& decide.ensures((t.position,), d)
            &&& if car_heading(c, d, dt) == c.heading {
                dir == c.direction
            } else {
                direction_of.ensures((car_heading(c, d, dt) as i64,), dir)
            }
            &&& car_of(after, i) == #[trigger] car_step(t, k, c, d, dt, dir)
        };
}

/// A vehicle whose decision is to change neither speed nor heading keeps its
/// heading and direction, and moves along that direction at its current
/// speed (rounded down to a whole fixed-point step).
pub proof fn lemma_idle_keeps_motion<D: Fn(Vec2) -> Decision, R: Fn(i64) -> Vec2>(
    decide: D,
    direction_of: R,
    dt: int,
    before: World,
    after: World,
    i: int,
)
    requires
        car_pass(decide, direction_of, dt, before, after),
        0 <= i < before.len(),
        is_car(before, i),
        forall|d: Decision| #[trigger] decide.ensures((before.transforms@[i]->0.position,), d)
            ==> d == (Decision { speed_delta: 0, angular_delta: 0 }),
    ensures
        is_car(after, i),
        after.cars@[i] == before.cars@[i],
        after.transforms@[i]->0.orientation == before.cars@[i]->0.direction,
        after.transforms@[i]->0.position == before.transforms@[i]->0.position,
        after.kinematics@[i]->0.velocity == scale_spec(
            before.cars@[i]->0.direction,
            sat(magnitude(before.kinematics@[i]->0.velocity)),
        ),
{
    assert(is_car(before, i));
    let t = before.transforms@[i]->0;
    let k = before.kinematics@[i]->0;
    let c = before.cars@[i]->0;
    let (d, dir) = choose|d: Decision, dir: Vec2|
        {
            &&& decide.ensures((t.position,), d)
            &&& if car_heading(c, d, dt) == c.heading {
                dir == c.direction
            } else {
                direction_of.ensures((car_heading(c, d, dt) as i64,), dir)
            }
            &&& car_of(after, i) == #[trigger] car_step(t, k, c, d, dt, dir)
        };
    assert(d.angular_delta * dt == 0 && d.speed_delta * dt == 0);
    assert(car_heading(c, d, dt) == c.heading);
    assert(after.cars@[i] == Some(car_of(after, i).2));
}

proof fn lemma_isqrt_unique(n: int, a: int, b: int)
    requires
        is_isqrt(n, a),
        is_isqrt(n, b),
    ensures
        a == b,
{
    if a < b {
        assert((a + 1) * (a + 1) <= b * b) by (nonlinear_arith)
            requires 0 <= a, a + 1 <= b;
    } else if b < a {
        assert((b + 1) * (b + 1) <= a * a) by (nonlinear_arith)
            requires 0 <= b, b + 1 <= a;
    }
}

/// Current speed of a moving body, rounded down.
pub fn speed(v: &Vec2) -> (r: u128)
    ensures
        r == magnitude(*v),
        r < 0x1_0000_0000_0000_0000,
{
    let n = v.norm2();
    let r = isqrt(n);
    proof {
        let m = magnitude(*v);
        assert(is_isqrt(norm2(*v), m));
        lemma_isqrt_unique(norm2(*v), r as int, m);
        assert(r < 0x1_0000_0000_0000_0000) by (nonlinear_arith)
            requires r * r <= n, n < 0x1_0000_0000_0000_0000_0000_0000_0000_0000;
    }
    r
}

/// Fixed-point `a * dt`, as an `i128` that cannot overflow later sums.
fn rate_times(a: i64, dt: i64) -> (r: i128)
    ensures
        r == fx_div(a * dt),
        -0x4000_0000_0000_0000_0000_0000_0000_0000 <= r <= 0x4000_0000_0000_0000_0000_0000_0000_0000,
{
    assert(-0x4000_0000_0000_0000_0000_0000_0000_0000 <= a * dt <= 0x4000_0000_0000_0000_0000_0000_0000_0000)
        by (nonlinear_arith)
        requires
            i64::MIN <= a <= i64::MAX,
            i64::MIN <= dt <= i64::MAX,
    ;
    div_fx(a as i128 * dt as i128)
}

/// Heading after one tick under decision `d`.
pub fn next_heading(c: &CarComponent, d: &Decision, dt: i64) -> (r: i64)
    ensures
        r == car_heading(*c, *d, dt as int),
{
    sat_i128(c.heading as i128 + rate_times(d.angular_delta, dt))
}

/// One vehicle's update under decision `d`, given the unit vector `dir` of
/// the new heading.
pub fn car_tick(
    t: &mut Transform,
    k: &mut Kinematics,
    c: &mut CarComponent,
    d: &Decision,
    dt: i64,
    dir: Vec2,
)
    ensures
        (*final(t), *final(k), *final(c)) == car_step(*old(t), *old(k), *old(c), *d, dt as int, dir),
{
    let s: u128 = speed(&k.velocity);
    let new_speed: i64 = sat_i128(s as i128 + rate_times(d.speed_delta, dt));
    let h = next_heading(c, d, dt);
    c.direction = dir;
    c.heading = h;
    t.set_angle_cos_sin(c.direction.x, c.direction.y);
    k.velocity = c.direction.scale(new_speed);
}

/// The vehicle decision system.
#[derive(Clone, Copy, Debug, PartialEq, Eq, Structural)]
pub struct CarDecision;

impl CarDecision {
    /// Updates every entity that has a transform, kinematics and vehicle data.
    /// `decide` is the vehicles' decision function, asked with the current
    /// position; `direction_of` gives the unit vector of a heading, and is
    /// asked only when the heading changes.
    pub fn run<D: Fn(Vec2) -> Decision, R: Fn(i64) -> Vec2>(
        &mut self,
        world: &mut World,
        delta: &DeltaTime,
        decide: D,
        direction_of: R,
    )
        requires
            old(world).wf(),
            forall|p: Vec2| decide.requires((p,)),
            forall|h: i64| direction_of.requires((h,)),
        ensures
            final(world).wf(),
            car_pass(decide, direction_of, delta.0 as int, *old(world), *final(world)),
    {
        let dt = delta.0;
        let n: usize = world.transforms.len();
        let mut i: usize = 0;
        while i < n
            invariant
                world.wf(),
                n == world.len(),
                0 <= i <= n,
                forall|p: Vec2| decide.requires((p,)),
                forall|h: i64| direction_of.requires((h,)),
                world.len() == old(world).len(),
                world.same_fixed_stores(*old(world)),
                world.humans@ == old(world).humans@,
                forall|j: int| 0 <= j < i ==> {
                    if #[trigger] is_car(*old(world), j) {
                        &&& is_car(*world, j)
                        &&& car_outcome(decide, direction_of, dt as int, old(world).transforms@[j]->0, old(world).kinematics@[j]->0, old(world).cars@[j]->0, car_of(*world, j))
                    } else {
                        &&& world.transforms@[j] == old(world).transforms@[j]
                        &&& world.kinematics@[j] == old(world).kinematics@[j]
                        &&& world.cars@[j] == old(world).cars@[j]
                    }
                },
                forall|j: int| i <= j < n ==> #[trigger] world.transforms@[j] == old(world).transforms@[j],
                forall|j: int| i <= j < n ==> #[trigger] world.kinematics@[j] == old(world).kinematics@[j],
                forall|j: int| i <= j < n ==> #[trigger] world.cars@[j] == old(world).cars@[j],
            decreases n - i,
        {
            match (world.transforms[i], world.kinematics[i], world.cars[i]) {
                (Some(t0), Some(k0), Some(c0)) => {
                    let mut t = t0;
                    let mut k = k0;
                    let mut c = c0;
                    let d = decide(t.position);
                    let h = next_heading(&c, &d, dt);
                    let dir = if h == c.heading {
                        c.direction
                    } else {
                        direction_of(h)
                    };
                    car_tick(&mut t, &mut k, &mut c, &d, dt, dir);
                    assert((t, k, c) == car_step(t0, k0, c0, d, dt as int, dir));
                    assert(car_outcome(decide, direction_of, dt as int, t0, k0, c0, (t, k, c)));
                    world.transforms[i] = Some(t);
                    world.kinematics[i] = Some(k);
                    world.cars[i] = Some(c);
                    assert(car_of(*world, i as int) == (t, k, c));
                },
                _ => {},
            }
            i += 1;
        }
    }
}

} // verus!
