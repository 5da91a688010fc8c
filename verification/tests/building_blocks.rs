use asteroids::angle::{steer, sweep, turn_left, turn_right, TAU};
use asteroids::arena::{wrap_axis, Viewport};
use asteroids::entity::{Entity, EntityId, Role, ASTEROID_RADIUS, PLAYER_RADIUS};
use asteroids::motion::{push_of, thrust, Controls, MAX_SPEED};
use asteroids::vector::{advance_axis, axis_gap, ceil_sqrt_of, circles_overlap, scale, Vec2, UNIT};

#[test]
fn unit_is_a_thousand_steps() {
    assert_eq!(UNIT, 1000);
    assert_eq!(PLAYER_RADIUS, 40 * 1000);
    assert_eq!(ASTEROID_RADIUS, 50 * 1000);
    assert_eq!(MAX_SPEED, 10 * 1000);
}

#[test]
fn advance_adds_components() {
    assert_eq!(Vec2::new(3, -4).advance(Vec2::new(10, 20)), Vec2::new(13, 16));
    assert_eq!(Vec2::zero(), Vec2::new(0, 0));
    assert_eq!(advance_axis(-7, 7), 0);
}

#[test]
fn advance_stops_at_the_end_of_the_range() {
    assert_eq!(advance_axis(i32::MAX, 1), i32::MAX);
    assert_eq!(advance_axis(i32::MIN, -1), i32::MIN);
    assert_eq!(advance_axis(i32::MAX - 5, 5), i32::MAX);
    assert_eq!(
        Vec2::new(i32::MAX, i32::MIN).advance(Vec2::new(i32::MAX, i32::MIN)),
        Vec2::new(i32::MAX, i32::MIN)
    );
}

#[test]
fn axis_gap_is_the_distance() {
    assert_eq!(axis_gap(5, 2), 3);
    assert_eq!(axis_gap(2, 5), 3);
    assert_eq!(axis_gap(i32::MIN, i32::MAX), u32::MAX as u64);
}

#[test]
fn distance_squared_values() {
    assert_eq!(Vec2::new(0, 0).distance_squared_to(Vec2::new(3, 4)), 25);
    assert_eq!(Vec2::new(-3, -4).distance_squared_to(Vec2::new(3, 4)), 100);
    let far = (u32::MAX as u128) * (u32::MAX as u128) * 2;
    assert_eq!(
        Vec2::new(i32::MIN, i32::MIN).distance_squared_to(Vec2::new(i32::MAX, i32::MAX)),
        far
    );
    assert_eq!(Vec2::new(-3, 4).length_squared_of(), 25);
    assert_eq!(Vec2::new(i32::MIN, i32::MIN).length_squared_of(), 1u64 << 63);
}

#[test]
fn ceil_sqrt_values() {
    assert_eq!(ceil_sqrt_of(0), 0);
    assert_eq!(ceil_sqrt_of(1), 1);
    assert_eq!(ceil_sqrt_of(2), 2);
    assert_eq!(ceil_sqrt_of(4), 2);
    assert_eq!(ceil_sqrt_of(5), 3);
    assert_eq!(ceil_sqrt_of(100_000_000), 10_000);
    assert_eq!(ceil_sqrt_of(100_000_001), 10_001);
    assert_eq!(ceil_sqrt_of(1u64 << 63), 3_037_000_500);
    assert_eq!(ceil_sqrt_of(u64::MAX), 4_294_967_296);
}

#[test]
fn scale_rounds_toward_zero() {
    assert_eq!(scale(15, 1, 10), 1);
    assert_eq!(scale(-15, 1, 10), -1);
    assert_eq!(scale(9, 1, 10), 0);
    assert_eq!(scale(-9, 1, 10), 0);
    assert_eq!(scale(8000, 10_000, 11_314), 7070);
    assert_eq!(scale(i32::MIN, u32::MAX, 1), -(1i64 << 31) * (u32::MAX as i64));
}

#[test]
fn cap_length_leaves_short_vectors() {
    assert_eq!(Vec2::new(6000, 8000).cap_length(10_000), Vec2::new(6000, 8000));
    assert_eq!(Vec2::new(0, 0).cap_length(0), Vec2::new(0, 0));
    assert_eq!(Vec2::new(-10_000, 0).cap_length(10_000), Vec2::new(-10_000, 0));
}

#[test]
fn cap_length_shortens_long_vectors() {
    assert_eq!(Vec2::new(8000, 8000).cap_length(10_000), Vec2::new(7070, 7070));
    assert_eq!(Vec2::new(-8000, 8000).cap_length(10_000), Vec2::new(-7070, 7070));
    assert_eq!(Vec2::new(10_050, 0).cap_length(10_000), Vec2::new(10_000, 0));
    assert_eq!(Vec2::new(3000, -12_000).cap_length(10_000), Vec2::new(2425, -9700));
    assert_eq!(Vec2::new(6001, 8000).cap_length(10_000), Vec2::new(6000, 7999));
    assert_eq!(Vec2::new(5, 5).cap_length(0), Vec2::new(0, 0));
}

#[test]
fn capped_vectors_are_within_the_limit() {
    let samples = [
        Vec2::new(i32::MAX, i32::MAX),
        Vec2::new(i32::MIN, i32::MIN),
        Vec2::new(i32::MIN, i32::MAX),
        Vec2::new(10_001, 0),
        Vec2::new(7072, 7072),
        Vec2::new(-1, 10_000),
    ];
    for v in samples {
        let capped = v.cap_length(10_000);
        assert!(capped.length_squared_of() <= 100_000_000);
        assert_eq!(capped.x.signum() * v.x.signum() >= 0, true);
        assert_eq!(capped.y.signum() * v.y.signum() >= 0, true);
    }
}

#[test]
fn collision_threshold() {
    let ship = Vec2::new(0, 0);
    // The circles of radius 40 and 50 reach 90 units together.
    assert!(circles_overlap(ship, 40_000, Vec2::new(89_000, 0), 50_000));
    assert!(circles_overlap(ship, 40_000, Vec2::new(89_999, 0), 50_000));
    assert!(!circles_overlap(ship, 40_000, Vec2::new(90_000, 0), 50_000));
    assert!(!circles_overlap(ship, 40_000, Vec2::new(90_001, 0), 50_000));
    assert!(!circles_overlap(ship, 40_000, Vec2::new(91_000, 0), 50_000));
}

#[test]
fn collision_threshold_off_axis() {
    let ship = Vec2::new(10_000, -20_000);
    // 54 and 72 units along the axes are exactly 90 units apart.
    assert!(!circles_overlap(ship, 40_000, Vec2::new(64_000, 52_000), 50_000));
    assert!(circles_overlap(ship, 40_000, Vec2::new(63_999, 52_000), 50_000));
    assert!(circles_overlap(ship, 40_000, Vec2::new(64_000, 51_999), 50_000));
    assert!(!circles_overlap(ship, 0, ship, 0));
    assert!(circles_overlap(ship, 0, ship, 1));
    assert!(circles_overlap(
        Vec2::new(i32::MIN, i32::MIN),
        u32::MAX,
        Vec2::new(i32::MAX, i32::MAX),
        u32::MAX
    ));
}

#[test]
fn entities_collide_by_their_radii() {
    let ship = Entity::player();
    let mut rock = Entity::asteroid(Vec2::new(89_999, 0), Vec2::new(0, 0), 0);
    assert!(ship.collides_with(&rock));
    assert!(rock.collides_with(&ship));
    rock.position = Vec2::new(90_000, 0);
    assert!(!ship.collides_with(&rock));
    rock.position = Vec2::new(0, 0);
    rock.radius = None;
    assert!(!ship.collides_with(&rock));
    let flame = Entity::thrust_indicator(EntityId { index: 0, generation: 0 });
    assert!(!flame.collides_with(&ship));
}

#[test]
fn entity_constructors() {
    let ship = Entity::player();
    assert_eq!(ship.role, Role::Player);
    assert_eq!(ship.position, Vec2::new(0, 0));
    assert_eq!(ship.orientation, 0);
    assert_eq!(ship.velocity, Some(Vec2::new(0, 0)));
    assert_eq!(ship.angular_velocity, None);
    assert_eq!(ship.radius, Some(40_000));
    assert!(ship.wrap_eligible);
    assert!(ship.visible);
    assert_eq!(ship.parent, None);

    let id = EntityId { index: 3, generation: 7 };
    let flame = Entity::thrust_indicator(id);
    assert_eq!(flame.role, Role::ThrustIndicator);
    assert_eq!(flame.position, Vec2::new(0, -40_000));
    assert_eq!(flame.velocity, None);
    assert_eq!(flame.radius, None);
    assert!(!flame.wrap_eligible);
    assert!(!flame.visible);
    assert_eq!(flame.parent, Some(id));
    assert!(flame.has_parent(id));
    assert!(!flame.has_parent(EntityId { index: 3, generation: 8 }));
    assert!(!ship.has_parent(id));

    let rock = Entity::asteroid(Vec2::new(1, 2), Vec2::new(3, 4), -5);
    assert_eq!(rock.role, Role::Asteroid);
    assert_eq!(rock.position, Vec2::new(1, 2));
    assert_eq!(rock.velocity, Some(Vec2::new(3, 4)));
    assert_eq!(rock.angular_velocity, Some(-5));
    assert_eq!(rock.radius, Some(50_000));
    assert!(rock.wrap_eligible);

    let mut wreck = ship;
    wreck.position = Vec2::new(11, 12);
    wreck.orientation = 13;
    let boom = Entity::explosion(&wreck);
    assert_eq!(boom.role, Role::Effect);
    assert_eq!(boom.position, Vec2::new(11, 12));
    assert_eq!(boom.orientation, 13);
    assert_eq!(boom.velocity, None);
    assert_eq!(boom.radius, None);
    assert!(!boom.wrap_eligible);
    assert!(boom.visible);
}

#[test]
fn wrap_past_the_left_and_right_edges() {
    let view = Viewport::new(1_280_000, 720_000);
    assert_eq!(view.wrap(Vec2::new(-640_001, 5)), Vec2::new(640_000, 5));
    assert_eq!(view.wrap(Vec2::new(640_001, 5)), Vec2::new(-640_000, 5));
    // One whole unit past the edge.
    assert_eq!(view.wrap(Vec2::new(-641_000, 0)), Vec2::new(640_000, 0));
    assert_eq!(view.wrap(Vec2::new(641_000, 0)), Vec2::new(-640_000, 0));
}

#[test]
fn wrap_past_the_upper_and_lower_edges() {
    let view = Viewport::new(1_280_000, 720_000);
    assert_eq!(view.wrap(Vec2::new(5, -360_001)), Vec2::new(5, 360_000));
    assert_eq!(view.wrap(Vec2::new(5, 360_001)), Vec2::new(5, -360_000));
    assert_eq!(view.wrap(Vec2::new(5, -361_000)), Vec2::new(5, 360_000));
    assert_eq!(view.wrap(Vec2::new(5, 361_000)), Vec2::new(5, -360_000));
}

#[test]
fn wrap_leaves_the_inside_alone() {
    let view = Viewport::new(1_280_000, 720_000);
    assert_eq!(view.wrap(Vec2::new(0, 0)), Vec2::new(0, 0));
    assert_eq!(view.wrap(Vec2::new(640_000, 360_000)), Vec2::new(640_000, 360_000));
    assert_eq!(view.wrap(Vec2::new(-640_000, -360_000)), Vec2::new(-640_000, -360_000));
}

#[test]
fn wrap_treats_each_axis_on_its_own() {
    let view = Viewport::new(1_280_000, 720_000);
    assert_eq!(view.wrap(Vec2::new(700_000, -400_000)), Vec2::new(-640_000, 360_000));
    assert_eq!(view.wrap(Vec2::new(-700_000, 400_000)), Vec2::new(640_000, -360_000));
}

#[test]
fn wrap_twice_is_wrap_once() {
    let view = Viewport::new(1_280_001, 719_999);
    let points = [
        Vec2::new(0, 0),
        Vec2::new(1_280_001, 719_999),
        Vec2::new(-1_280_001, -719_999),
        Vec2::new(640_001, -360_000),
        Vec2::new(i32::MAX, i32::MIN),
        Vec2::new(i32::MIN, i32::MAX),
    ];
    for p in points {
        let once = view.wrap(p);
        assert_eq!(view.wrap(once), once);
    }
    // Half of an odd size is rounded down.
    assert_eq!(view.wrap(Vec2::new(640_001, 0)), Vec2::new(-640_000, 0));
    assert_eq!(view.wrap(Vec2::new(0, 359_999)), Vec2::new(0, 359_999));
    assert_eq!(view.wrap(Vec2::new(0, 360_000)), Vec2::new(0, -359_999));
}

#[test]
fn wrap_in_an_arena_without_size() {
    let view = Viewport::new(0, 1);
    assert_eq!(view.wrap(Vec2::new(5, -5)), Vec2::new(0, 0));
    assert_eq!(view.wrap(Vec2::new(0, 0)), Vec2::new(0, 0));
    assert_eq!(wrap_axis(-1, 0), 0);
    assert_eq!(wrap_axis(7, 14), 7);
    assert_eq!(wrap_axis(8, 14), -7);
    assert_eq!(wrap_axis(8, 15), -7);
    assert_eq!(wrap_axis(-8, 15), 7);
    assert_eq!(wrap_axis(i32::MIN, u32::MAX), i32::MAX);
    assert_eq!(wrap_axis(i32::MAX, u32::MAX), i32::MAX);
}

#[test]
fn sweep_is_twelve_radians_a_second() {
    assert_eq!(sweep(0), 0);
    assert_eq!(sweep(1), 12);
    assert_eq!(sweep(16_666_667), 200_000_004);
    assert_eq!(sweep(1_000_000_000), 5_716_814_693);
    assert_eq!(sweep(u64::MAX), 2_456_605_100);
}

#[test]
fn turning_left_and_right() {
    assert_eq!(turn_left(0, 16_666_667), 200_000_004);
    assert_eq!(turn_right(0, 16_666_667), 6_083_185_303);
    assert_eq!(turn_left(TAU - 1, 1), 11);
    assert_eq!(turn_right(5, 1), TAU - 7);
    assert_eq!(turn_right(200_000_004, 16_666_667), 0);
}

#[test]
fn steering_by_keys() {
    assert_eq!(steer(100, false, false, 1_000), 100);
    assert_eq!(steer(100, true, false, 1_000), 12_100);
    assert_eq!(steer(100, false, true, 1_000), TAU - 11_900);
    assert_eq!(steer(100, true, true, 1_000), 100);
    assert_eq!(steer(TAU - 1, true, true, u64::MAX), TAU - 1);
    // An angle of more than a full turn is first brought below one.
    assert_eq!(turn_left(TAU + 5, 0), 5);
    assert_eq!(turn_right(u64::MAX, 0), 2_299_112_194);
    assert_eq!(steer(TAU + 5, false, false, 1_000), TAU + 5);
}

#[test]
fn rotation_does_not_depend_on_the_frame_rate() {
    let whole = 16_666_666u64;
    let half = whole / 2;
    for (left, right) in [(true, false), (false, true), (true, true), (false, false)] {
        for start in [0u64, 1, 3_000_000_000, TAU - 1] {
            let in_two = steer(steer(start, left, right, half), left, right, half);
            let in_one = steer(start, left, right, whole);
            assert_eq!(in_two, in_one);
        }
    }
    assert_eq!(steer(steer(0, true, false, half), true, false, half), 199_999_992);
    // Five seconds in one tick, or in a second and four more.
    let long = steer(steer(7, false, true, 1_000_000_000), false, true, 4_000_000_000);
    assert_eq!(long, steer(7, false, true, 5_000_000_000));
    assert_eq!(long, (7 + TAU - 3_451_332_237) % TAU);
}

#[test]
fn thrust_pushes_by_a_tenth_of_forward() {
    assert_eq!(push_of(Vec2::new(0, 1000)), Vec2::new(0, 100));
    assert_eq!(push_of(Vec2::new(-707, 707)), Vec2::new(-70, 70));
    assert_eq!(push_of(Vec2::new(9, -9)), Vec2::new(0, 0));
    assert_eq!(thrust(Vec2::new(0, 0), Vec2::new(0, 1000)), Vec2::new(0, 100));
    assert_eq!(thrust(Vec2::new(50, -50), Vec2::new(1000, 0)), Vec2::new(150, -50));
}

#[test]
fn thrust_stops_at_the_greatest_speed() {
    assert_eq!(thrust(Vec2::new(9_950, 0), Vec2::new(1000, 0)), Vec2::new(10_000, 0));
    assert_eq!(thrust(Vec2::new(10_000, 0), Vec2::new(1000, 0)), Vec2::new(10_000, 0));
    assert_eq!(thrust(Vec2::new(0, -10_000), Vec2::new(0, -1000)), Vec2::new(0, -10_000));
    assert_eq!(thrust(Vec2::new(7_900, 8_000), Vec2::new(1000, 0)), Vec2::new(7070, 7070));
    // A ship already too fast is cut down as well.
    assert_eq!(thrust(Vec2::new(8_000, 8_000), Vec2::new(0, 0)), Vec2::new(7070, 7070));
}

#[test]
fn entity_motion_steps() {
    let ship = Entity::player();
    let keys = Controls { rotate_left: true, rotate_right: false, thrust: true };
    let steered = ship.steer(&keys, Vec2::new(0, 1000), 16_666_667);
    assert_eq!(steered.orientation, 200_000_004);
    assert_eq!(steered.velocity, Some(Vec2::new(0, 100)));
    assert_eq!(steered.position, ship.position);
    assert_eq!(steered.radius, ship.radius);

    let idle = ship.steer(&Controls::idle(), Vec2::new(0, 1000), 16_666_667);
    assert_eq!(idle, ship);

    let slid = steered.slide();
    assert_eq!(slid.position, Vec2::new(0, 100));
    assert_eq!(slid.velocity, steered.velocity);

    let flame = Entity::thrust_indicator(EntityId { index: 0, generation: 0 });
    assert_eq!(flame.slide(), flame);
    assert!(flame.show(true).visible);
    assert!(!flame.show(true).show(false).visible);

    let view = Viewport::new(100, 100);
    let mut stray = ship;
    stray.position = Vec2::new(51, -51);
    assert_eq!(stray.wrap(Some(view)).position, Vec2::new(-50, 50));
    assert_eq!(stray.wrap(None), stray);
    stray.wrap_eligible = false;
    assert_eq!(stray.wrap(Some(view)), stray);
}
