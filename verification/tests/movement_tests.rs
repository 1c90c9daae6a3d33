//! Drag, acceleration cap, dash and jump, on concrete fixed-point values.

use playerctl::math::Vec3Milli;
use playerctl::movement::{
    accumulate_direction, accelerate_toward, clamp_delta, dash, drag_tick, jumping,
    scale_to_speed, MoveKeys,
};
use playerctl::timer::DashCooldown;
use playerctl::ground::{BodyPos, Contact};

fn v3(x: i64, y: i64, z: i64) -> Vec3Milli {
    Vec3Milli { x, y, z }
}

fn len_sq(v: Vec3Milli) -> i128 {
    (v.x as i128) * (v.x as i128) + (v.y as i128) * (v.y as i128) + (v.z as i128) * (v.z as i128)
}

#[test]
fn drag_keeps_85_percent() {
    // 2.0 units/s becomes exactly 1.7 units/s after one unsteered tick.
    let r = drag_tick(v3(2000, 0, 0));
    assert_eq!(r, v3(1700, 0, 0));
}

#[test]
fn drag_rounds_toward_zero_on_negative_components() {
    let r = drag_tick(v3(-2000, 1, -1));
    // -2000*85/100 = -1700; +-1*85/100 truncates to 0.
    assert_eq!(r, v3(-1700, 0, 0));
}

#[test]
fn drag_snaps_small_velocity_to_exact_zero() {
    // 30*85/100 = 25 and 25^2 = 625 < 1000: snapped.
    let r = drag_tick(v3(30, 0, 0));
    assert_eq!(r, v3(0, 0, 0));
}

#[test]
fn repeated_drag_reaches_exact_zero() {
    let mut v = v3(7000, -3500, 1234);
    let mut guard: u32 = 0;
    while v != v3(0, 0, 0) {
        v = drag_tick(v);
        guard += 1;
        assert!(guard < 200, "drag failed to converge");
    }
    assert_eq!(v, v3(0, 0, 0));
    // And it stays zero.
    assert_eq!(drag_tick(v), v3(0, 0, 0));
}

#[test]
fn direction_accumulates_basis_vectors() {
    let fwd = v3(0, 0, -1000);
    let rgt = v3(1000, 0, 0);
    let d = accumulate_direction(
        MoveKeys { forward: true, back: false, left: false, right: true },
        fwd,
        rgt,
    );
    assert_eq!(d, v3(1000, 0, -1000));
    let none = accumulate_direction(
        MoveKeys { forward: true, back: true, left: true, right: true },
        fwd,
        rgt,
    );
    assert_eq!(none, v3(0, 0, 0));
}

#[test]
fn desired_velocity_has_top_speed() {
    let s = scale_to_speed(v3(0, 0, -1000));
    assert_eq!(s, v3(0, 0, -7000));
    // A diagonal normalizes before scaling: 7000000/1414 truncates to 4950.
    let d = scale_to_speed(v3(1000, 0, -1000));
    assert_eq!(d, v3(4950, 0, -4950));
}

#[test]
fn clamp_leaves_short_deltas_alone() {
    assert_eq!(clamp_delta(v3(100, -200, 50), 480), v3(100, -200, 50));
}

#[test]
fn clamp_caps_long_deltas() {
    // |(9000,0,0)| = 9000 > 300: scaled to 9000*300/9000 = 300.
    assert_eq!(clamp_delta(v3(9000, 0, 0), 300), v3(300, 0, 0));
}

#[test]
fn velocity_change_never_exceeds_rate_times_dt() {
    // Acceleration cap: desired speed 7.0, rate 30 units/s^2, over a 16 ms
    // tick the change is at most 30*16 = 480 milli-units/s, however far the
    // current velocity is from the target.
    let max_change: i64 = 480;
    let starts = [
        v3(0, 0, 0),
        v3(-7000, 0, 0),
        v3(20000, -9000, 4000),
        v3(-1, 2, -3),
        v3(1_000_000_000, -1_000_000_000, 1_000_000_000),
    ];
    let desired = v3(7000, 0, 0);
    for v in starts {
        let r = accelerate_toward(v, desired, max_change);
        let delta = v3(r.x - v.x, r.y - v.y, r.z - v.z);
        assert!(len_sq(delta) <= (max_change as i128) * (max_change as i128));
    }
    // From rest the full cap is spent straight toward the target.
    let r = accelerate_toward(v3(0, 0, 0), desired, max_change);
    assert_eq!(r, v3(480, 0, 0));
}

#[test]
fn dash_does_nothing_while_cooling_down() {
    let mut cd = DashCooldown::new(1000);
    let v = v3(100, 200, 300);
    let r = dash(v, v3(0, 0, -1000), &mut cd, true);
    assert_eq!(r, v);
    assert_eq!(cd.elapsed_ms, 0);
}

#[test]
fn dash_adds_twenty_times_forward_and_spends_cooldown() {
    let mut cd = DashCooldown::new(1000);
    cd.tick(1000);
    assert!(cd.ready());
    let fwd = v3(0, -100, -990);
    let r = dash(v3(100, 200, 300), fwd, &mut cd, true);
    // Exactly v + 20 * forward, additive on top of momentum.
    assert_eq!(r, v3(100, 200 + 20 * -100, 300 + 20 * -990));
    assert!(!cd.ready());
    assert_eq!(cd.elapsed_ms, 0);
}

#[test]
fn dash_needs_the_key_held() {
    let mut cd = DashCooldown::new(1000);
    cd.tick(1000);
    let v = v3(1, 2, 3);
    let r = dash(v, v3(0, 0, -1000), &mut cd, false);
    assert_eq!(r, v);
    assert!(cd.ready());
}

#[test]
fn jump_sets_vertical_velocity_when_grounded() {
    let contacts = vec![Contact { entity_a: 1, entity_b: 2 }];
    let positions = vec![
        BodyPos { entity: 1, y_milli: 1500 },
        BodyPos { entity: 2, y_milli: 1400 },
    ];
    // Overrides, not adds: prior vertical velocity is discarded.
    let r = jumping(v3(5, -9000, 7), true, &contacts, &positions, 1);
    assert_eq!(r, v3(5, 12000, 7));
    let r2 = jumping(v3(5, 500, 7), true, &contacts, &positions, 1);
    assert_eq!(r2, v3(5, 12000, 7));
}

#[test]
fn jump_needs_ground_and_edge() {
    let contacts = vec![Contact { entity_a: 1, entity_b: 2 }];
    let grounded_positions = vec![
        BodyPos { entity: 1, y_milli: 1500 },
        BodyPos { entity: 2, y_milli: 1400 },
    ];
    let airborne_positions = vec![
        BodyPos { entity: 1, y_milli: 1500 },
        BodyPos { entity: 2, y_milli: 1600 },
    ];
    let v = v3(5, -300, 7);
    // Grounded but no edge: unchanged.
    assert_eq!(jumping(v, false, &contacts, &grounded_positions, 1), v);
    // Edge but airborne: unchanged.
    assert_eq!(jumping(v, true, &contacts, &airborne_positions, 1), v);
}
