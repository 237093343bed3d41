use scale::car_system::{car_tick, next_heading, speed, CarComponent, CarDecision, Decision};
use scale::components::{DeltaTime, Kinematics, Transform};
use scale::humans::{human_tick, is_arrived, setup_at, Human, HumanUpdate, HUMAN_MASS};
use scale::vector::{isqrt, mul_fx, sat_i128, Vec2, UNIT};
use scale::world::World;

fn v(x: i64, y: i64) -> Vec2 {
    Vec2::new(x, y)
}

fn no_turn(_h: i64) -> Vec2 {
    panic!("the heading did not change")
}

#[test]
fn human_at_objective_stops() {
    let mut w = World::new();
    let e = w.spawn_human(v(0, 0), v(500, 0), UNIT, 70 * UNIT, 0);
    w.kinematics[e].as_mut().unwrap().velocity = v(3 * UNIT, -UNIT);
    HumanUpdate.run(&mut w, &DeltaTime(UNIT));
    assert_eq!(w.kinematics[e].unwrap().velocity, v(0, 0));
}

#[test]
fn human_far_from_objective_keeps_velocity() {
    let mut w = World::new();
    let e = w.spawn_human(v(0, 0), v(UNIT, 0), UNIT, 70 * UNIT, 0);
    w.kinematics[e].as_mut().unwrap().velocity = v(3 * UNIT, -UNIT);
    w.kinematics[e].as_mut().unwrap().acceleration = v(12, 34);
    HumanUpdate.run(&mut w, &DeltaTime(UNIT));
    let k = w.kinematics[e].unwrap();
    assert_eq!(k.velocity, v(3 * UNIT, -UNIT));
    assert_eq!(k.acceleration, v(12, 34));
}

#[test]
fn human_end_to_end_at_rest() {
    let mut w = World::new();
    let e = w.spawn_human(v(0, 0), v(500 * UNIT, 0), UNIT, 70 * UNIT, 0);
    HumanUpdate.run(&mut w, &DeltaTime(UNIT));
    let k = w.kinematics[e].unwrap();
    assert_eq!(k.acceleration, v(0, 0));
    assert_eq!(k.velocity, v(0, 0));
    assert_eq!(w.transforms[e].unwrap().position, v(0, 0));
}

#[test]
fn arrival_threshold_is_one_unit() {
    assert!(is_arrived(v(0, 0), v(999, 0)));
    assert!(!is_arrived(v(0, 0), v(1000, 0)));
    assert!(is_arrived(v(0, 0), v(707, 707)));
    assert!(!is_arrived(v(0, 0), v(708, 708)));
    assert!(!is_arrived(v(i64::MIN, i64::MIN), v(i64::MAX, i64::MAX)));
}

#[test]
fn human_pass_matches_one_by_one_in_any_order() {
    let mut w = World::new();
    let a = w.spawn_human(v(0, 0), v(200, 0), UNIT, 70 * UNIT, 0);
    let b = w.spawn_human(v(0, 0), v(9 * UNIT, 0), UNIT, 70 * UNIT, 0);
    let c = w.spawn_car(v(5, 5), 0, v(UNIT, 0), v(UNIT, 0), UNIT, UNIT, 0);
    w.kinematics[a].as_mut().unwrap().velocity = v(4, 4);
    w.kinematics[b].as_mut().unwrap().velocity = v(6, 6);
    let before = w.kinematics.clone();
    HumanUpdate.run(&mut w, &DeltaTime(UNIT));

    let mut ks = before.clone();
    for i in [b, a] {
        let mut k = ks[i].unwrap();
        human_tick(&w.transforms[i].unwrap(), &mut k, &w.humans[i].unwrap());
        ks[i] = Some(k);
    }
    assert_eq!(ks, w.kinematics);
    assert_eq!(w.kinematics[c], before[c]);
    assert_eq!(w.kinematics[a].unwrap().velocity, v(0, 0));
    assert_eq!(w.kinematics[b].unwrap().velocity, v(6, 6));
}

#[test]
fn car_speeds_up_along_its_heading() {
    let mut w = World::new();
    let e = w.spawn_car(v(0, 0), 0, v(UNIT, 0), v(5 * UNIT, 0), UNIT, UNIT, 0);
    CarDecision.run(&mut w, &DeltaTime(UNIT), |_p: Vec2| Decision { speed_delta: 2 * UNIT, angular_delta: 0 }, no_turn);
    assert_eq!(w.kinematics[e].unwrap().velocity, v(7 * UNIT, 0));
    assert_eq!(w.cars[e].unwrap().direction, v(UNIT, 0));
    assert_eq!(w.cars[e].unwrap().heading, 0);
    assert_eq!(w.transforms[e].unwrap().orientation, v(UNIT, 0));
}

#[test]
fn idle_car_keeps_speed_and_heading() {
    let mut w = World::new();
    let e = w.spawn_car(v(3, 4), 785, v(707, 707), v(3 * UNIT, 4 * UNIT), UNIT, UNIT, 0);
    CarDecision.run(&mut w, &DeltaTime(UNIT), |_p: Vec2| Decision { speed_delta: 0, angular_delta: 0 }, no_turn);
    let c = w.cars[e].unwrap();
    assert_eq!(c, CarComponent { direction: v(707, 707), heading: 785 });
    assert_eq!(w.transforms[e].unwrap().orientation, v(707, 707));
    assert_eq!(w.transforms[e].unwrap().position, v(3, 4));
    assert_eq!(w.kinematics[e].unwrap().velocity, v(3535, 3535));
}

#[test]
fn turning_car_takes_the_new_direction_everywhere() {
    let mut w = World::new();
    let e = w.spawn_car(v(0, 0), 0, v(UNIT, 0), v(5 * UNIT, 0), UNIT, UNIT, 0);
    let h = w.spawn_human(v(0, 0), v(0, 0), UNIT, UNIT, 0);
    let humans_before = w.kinematics[h];
    CarDecision.run(
        &mut w,
        &DeltaTime(500),
        |_p: Vec2| Decision { speed_delta: 0, angular_delta: UNIT },
        |heading: i64| {
            assert_eq!(heading, 500);
            Vec2::new(878, 479)
        },
    );
    let c = w.cars[e].unwrap();
    assert_eq!(c.heading, 500);
    assert_eq!(c.direction, v(878, 479));
    assert_eq!(w.transforms[e].unwrap().orientation, c.direction);
    assert_eq!(w.kinematics[e].unwrap().velocity, v(4390, 2395));
    assert_eq!(w.kinematics[h], humans_before);
}

#[test]
fn car_decision_sees_position() {
    let mut w = World::new();
    let e = w.spawn_car(v(-UNIT, 2 * UNIT), 0, v(UNIT, 0), v(0, 0), UNIT, UNIT, 0);
    CarDecision.run(
        &mut w,
        &DeltaTime(UNIT),
        |p: Vec2| {
            assert_eq!(p, Vec2::new(-UNIT, 2 * UNIT));
            Decision { speed_delta: -UNIT, angular_delta: 0 }
        },
        no_turn,
    );
    assert_eq!(w.kinematics[e].unwrap().velocity, v(-UNIT, 0));
}

#[test]
fn car_tick_and_heading() {
    let mut t = Transform::new(v(1, 2));
    let mut k = Kinematics::from_mass(UNIT);
    k.velocity = v(0, -2 * UNIT);
    let mut c = CarComponent { direction: v(0, -UNIT), heading: -1571 };
    let d = Decision { speed_delta: UNIT, angular_delta: 3142 };
    assert_eq!(next_heading(&c, &d, 1000), 1571);
    car_tick(&mut t, &mut k, &mut c, &d, 1000, v(0, UNIT));
    assert_eq!(c, CarComponent { direction: v(0, UNIT), heading: 1571 });
    assert_eq!(t.orientation, v(0, UNIT));
    assert_eq!(t.position, v(1, 2));
    assert_eq!(k.velocity, v(0, 3 * UNIT));
}

#[test]
fn fixed_point_arithmetic() {
    assert_eq!(isqrt(0), 0);
    assert_eq!(isqrt(24), 4);
    assert_eq!(isqrt(25), 5);
    assert_eq!(isqrt(u128::MAX), u64::MAX as u128);
    assert_eq!(speed(&v(3000, -4000)), 5000);
    assert_eq!(speed(&v(i64::MIN, i64::MIN)), 13043817825332782212);
    assert_eq!(mul_fx(-1500, 1001), -1501);
    assert_eq!(mul_fx(1500, 1001), 1501);
    assert_eq!(mul_fx(i64::MAX, i64::MAX), i64::MAX);
    assert_eq!(sat_i128(i128::MIN), i64::MIN);
    assert_eq!(v(i64::MAX, 1).add(&v(1, 2)), v(i64::MAX, 3));
    assert_eq!(v(2000, -3000).scale(1500), v(3000, -4500));
    assert_eq!(v(3, -4).norm2(), 25);
}

#[test]
fn setup_places_mirrored_objective() {
    let mut w = World::new();
    let e = setup_at(&mut w, 20 * UNIT, 30 * UNIT);
    assert_eq!(e, 0);
    assert_eq!(w.humans[e], Some(Human::new(v(480 * UNIT, 30 * UNIT))));
    assert_eq!(w.kinematics[e].unwrap().mass, HUMAN_MASS);
    assert_eq!(w.transforms[e].unwrap().position, v(20 * UNIT, 30 * UNIT));
    assert_eq!(w.shapes[e].unwrap().radius, UNIT);
    assert!(w.selectable[e] && w.movable[e]);
    assert!(w.cars[e].is_none());
}
