//! The cooldown timer: ready exactly once the ticked time reaches the
//! duration, staying ready until reset.

use playerctl::timer::DashCooldown;

#[test]
fn fresh_timer_not_ready() {
    let t = DashCooldown::new(1000);
    assert!(!t.ready());
    assert_eq!(t.elapsed_ms, 0);
    assert_eq!(t.duration_ms, 1000);
}

#[test]
fn ready_exactly_at_duration() {
    let mut t = DashCooldown::new(1000);
    t.tick(400);
    assert!(!t.ready());
    t.tick(599);
    assert!(!t.ready());
    t.tick(1);
    assert!(t.ready());
}

#[test]
fn elapsed_clamps_at_duration() {
    let mut t = DashCooldown::new(1000);
    t.tick(250);
    assert_eq!(t.elapsed_ms, 250);
    t.tick(10_000);
    assert_eq!(t.elapsed_ms, 1000);
    assert!(t.ready());
}

#[test]
fn stays_ready_until_reset() {
    let mut t = DashCooldown::new(1000);
    t.tick(1500);
    assert!(t.ready());
    t.tick(5);
    assert!(t.ready());
    t.tick(0);
    assert!(t.ready());
    t.reset();
    assert!(!t.ready());
    assert_eq!(t.elapsed_ms, 0);
    t.tick(999);
    assert!(!t.ready());
    t.tick(1);
    assert!(t.ready());
}

#[test]
fn many_small_ticks_sum_to_ready() {
    let mut t = DashCooldown::new(1000);
    for _ in 0..999 {
        t.tick(1);
    }
    assert!(!t.ready());
    t.tick(1);
    assert!(t.ready());
}

#[test]
fn zero_duration_timer_is_ready_at_once() {
    let t = DashCooldown::new(0);
    assert!(t.ready());
}

#[test]
fn huge_tick_does_not_overflow() {
    let mut t = DashCooldown::new(1000);
    t.tick(u64::MAX);
    assert!(t.ready());
    assert_eq!(t.elapsed_ms, 1000);
}
