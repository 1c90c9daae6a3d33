//! Ground classification from per-tick contact events.

use playerctl::ground::{lookup_y, touching_ground, BodyPos, Contact, GROUND_EPSILON_MILLI};

const ME: u64 = 7;

fn contact(a: u64, b: u64) -> Contact {
    Contact { entity_a: a, entity_b: b }
}

fn pos(e: u64, y: i64) -> BodyPos {
    BodyPos { entity: e, y_milli: y }
}

#[test]
fn partner_well_below_grounds() {
    // Partner 0.1 units below with epsilon 0.05: grounded.
    let contacts = vec![contact(ME, 2)];
    let positions = vec![pos(ME, 1000), pos(2, 900)];
    assert!(touching_ground(&contacts, &positions, ME));
}

#[test]
fn partner_above_does_not_ground() {
    // Partner 0.1 units above: airborne.
    let contacts = vec![contact(ME, 2)];
    let positions = vec![pos(ME, 1000), pos(2, 1100)];
    assert!(!touching_ground(&contacts, &positions, ME));
}

#[test]
fn epsilon_boundary_is_strict() {
    // Exactly at self_y - epsilon the comparison is strict: not grounded.
    let at_eps = vec![pos(ME, 1000), pos(2, 1000 - GROUND_EPSILON_MILLI)];
    assert!(!touching_ground(&vec![contact(ME, 2)], &at_eps, ME));
    // One milli-unit further down: grounded.
    let below_eps = vec![pos(ME, 1000), pos(2, 1000 - GROUND_EPSILON_MILLI - 1)];
    assert!(touching_ground(&vec![contact(ME, 2)], &below_eps, ME));
}

#[test]
fn no_contacts_means_airborne() {
    let positions = vec![pos(ME, 1000)];
    assert!(!touching_ground(&Vec::new(), &positions, ME));
}

#[test]
fn contacts_of_other_bodies_are_skipped() {
    let contacts = vec![contact(2, 3), contact(4, 5)];
    let positions = vec![pos(ME, 1000), pos(2, 0), pos(3, 0), pos(4, 0), pos(5, 0)];
    assert!(!touching_ground(&contacts, &positions, ME));
}

#[test]
fn missing_position_skips_the_contact() {
    // The partner has no recorded position: skipped, not fatal.
    let contacts = vec![contact(ME, 2)];
    let positions = vec![pos(ME, 1000)];
    assert!(!touching_ground(&contacts, &positions, ME));
    // Own position missing: same.
    let positions2 = vec![pos(2, 0)];
    assert!(!touching_ground(&contacts, &positions2, ME));
}

#[test]
fn controller_on_either_side_of_the_pair() {
    let positions = vec![pos(ME, 1000), pos(2, 800)];
    assert!(touching_ground(&vec![contact(ME, 2)], &positions, ME));
    assert!(touching_ground(&vec![contact(2, ME)], &positions, ME));
}

#[test]
fn one_qualifying_contact_among_many_wins() {
    let contacts = vec![contact(2, 3), contact(ME, 4), contact(ME, 5)];
    let positions = vec![pos(ME, 1000), pos(2, 0), pos(3, 0), pos(4, 2000), pos(5, 100)];
    // Contact with 4 is above; contact with 5 is far below: grounded.
    assert!(touching_ground(&contacts, &positions, ME));
}

#[test]
fn low_side_wall_contact_grounds_too() {
    // The check is positional, not normal-based: a wall whose reference
    // point sits below the controller registers as ground. Kept as the
    // documented quirk.
    let wall = 9;
    let contacts = vec![contact(ME, wall)];
    let positions = vec![pos(ME, 1500), pos(wall, 800)];
    assert!(touching_ground(&contacts, &positions, ME));
}

#[test]
fn lookup_takes_the_first_entry() {
    let positions = vec![pos(2, 10), pos(2, 20), pos(3, 30)];
    assert_eq!(lookup_y(&positions, 2), Some(10));
    assert_eq!(lookup_y(&positions, 3), Some(30));
    assert_eq!(lookup_y(&positions, 4), None);
}
