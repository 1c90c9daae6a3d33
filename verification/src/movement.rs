//! The movement integrator: held keys to velocity, once per tick.
//!
//! Held directional keys are summed into a desired direction from the
//! camera's horizontal basis vectors. With no direction held the velocity
//! decays by a fixed drag factor and snaps to zero below a small threshold;
//! with one held it is steered toward the desired velocity under a hard cap
//! on the per-tick change, so acceleration is frame-rate independent. Dash
//! and jump are impulses on top: dash adds along the full view direction
//! when its cooldown is ready, jump overrides the vertical component when
//! the controller is grounded. Holding escape aborts the whole tick's
//! movement processing: no velocity, look or cooldown change at all.

use vstd::prelude::*;
use crate::math::{
    Vec3Milli, sq, len_sq, div_trunc, in_bounds, sqrt_floor, sqrt_ceil, lemma_sq_bound,
    lemma_scale_within, div_toward_zero, isqrt, isqrt_ceil,
};
use crate::timer::{DashCooldown, spec_ready, spec_tick};
use crate::ground::{Contact, BodyPos, ys_bounded, spec_grounded, touching_ground};
use vstd::arithmetic::div_mod::{lemma_multiply_divide_le, lemma_multiply_divide_lt,
    lemma_div_pos_is_pos};

verus! {

/// Top speed the integrator steers toward, in milli-units per second (7
/// world units per second).
pub const MAX_SPEED_MILLI: i64 = 7000;

/// Acceleration cap in world units per second squared; over a tick of
/// `dt` milliseconds the velocity may change by at most `30 * dt`
/// milli-units per second.
pub const ACCEL_RATE: i64 = 30;

/// Dash impulse factor: the forward unit vector (in milli-units) times this,
/// i.e. 20 world units per second along the view direction.
pub const DASH_FACTOR: i64 = 20;

/// Vertical launch speed on a jump, in milli-units per second.
pub const JUMP_SPEED_MILLI: i64 = 12000;

/// Drag keeps 85% of the velocity each tick the direction input is zero.
pub const DRAG_KEEP_NUM: i64 = 85;

/// Denominator of the drag factor.
pub const DRAG_KEEP_DEN: i64 = 100;

/// Below this squared speed (milli-units squared; 0.001 world units squared)
/// a dragged velocity snaps to exactly zero.
pub const SNAP_SQ_MILLI: i64 = 1000;

/// Largest component magnitude accepted for a basis vector: twice a unit,
/// room enough for any slightly denormalized horizontal projection.
pub const BASIS_LIMIT_MILLI: i64 = 2000;

/// Largest velocity component the integrator accepts.
pub const VEL_LIMIT_MILLI: i64 = 1_400_000_000;

/// Longest tick accepted, in milliseconds.
pub const DT_LIMIT_MS: u64 = 1_000_000;

/// The four held movement keys.
#[derive(Clone, Copy, Debug, PartialEq, Eq, Structural)]
pub struct MoveKeys {
    pub forward: bool,
    pub back: bool,
    pub left: bool,
    pub right: bool,
}

/// Signed axis contribution of an opposed key pair.
pub open spec fn spec_axis(pos: bool, neg: bool) -> int {
    (if pos {
        1int
    } else {
        0int
    }) - (if neg {
        1int
    } else {
        0int
    })
}

/// The accumulated desired direction: forward/back along the camera's
/// horizontal forward vector, right/left along its horizontal right vector.
pub open spec fn spec_direction(k: MoveKeys, fwd: Vec3Milli, rgt: Vec3Milli) -> Vec3Milli {
    Vec3Milli {
        x: (fwd.x * spec_axis(k.forward, k.back) + rgt.x * spec_axis(k.right, k.left)) as i64,
        y: (fwd.y * spec_axis(k.forward, k.back) + rgt.y * spec_axis(k.right, k.left)) as i64,
        z: (fwd.z * spec_axis(k.forward, k.back) + rgt.z * spec_axis(k.right, k.left)) as i64,
    }
}

/// One velocity component after drag: 85% of it, rounded toward zero.
pub open spec fn spec_drag_component(x: int) -> int {
    div_trunc(x * DRAG_KEEP_NUM, DRAG_KEEP_DEN as int)
}

/// The velocity after the drag scaling, before the snap to zero.
pub open spec fn spec_drag_scaled(v: Vec3Milli) -> Vec3Milli {
    Vec3Milli {
        x: spec_drag_component(v.x as int) as i64,
        y: spec_drag_component(v.y as int) as i64,
        z: spec_drag_component(v.z as int) as i64,
    }
}

/// The velocity after one drag tick: scaled by the retention factor, then
/// snapped to exactly zero if the remaining squared speed is below the
/// threshold.
pub open spec fn spec_drag(v: Vec3Milli) -> Vec3Milli {
    let s = spec_drag_scaled(v);
    if len_sq(s) < SNAP_SQ_MILLI {
        Vec3Milli { x: 0, y: 0, z: 0 }
    } else {
        s
    }
}

/// The desired velocity: the direction normalized (by its floor length) and
/// scaled to top speed.
pub open spec fn spec_desired_velocity(dir: Vec3Milli) -> Vec3Milli
    recommends
        len_sq(dir) > 0,
{
    let len = sqrt_floor(len_sq(dir));
    Vec3Milli {
        x: div_trunc(dir.x * MAX_SPEED_MILLI, len) as i64,
        y: div_trunc(dir.y * MAX_SPEED_MILLI, len) as i64,
        z: div_trunc(dir.z * MAX_SPEED_MILLI, len) as i64,
    }
}

/// A velocity change clamped to magnitude `max`: unchanged when already
/// within it, otherwise scaled down by `max` over the ceiling of its length.
pub open spec fn spec_clamp_delta(d: Vec3Milli, max: int) -> Vec3Milli {
    if len_sq(d) <= sq(max) {
        d
    } else {
        let len = sqrt_ceil(len_sq(d));
        Vec3Milli {
            x: div_trunc(d.x * max, len) as i64,
            y: div_trunc(d.y * max, len) as i64,
            z: div_trunc(d.z * max, len) as i64,
        }
    }
}

/// The velocity after one capped acceleration step toward `desired`.
pub open spec fn spec_accelerate(v: Vec3Milli, desired: Vec3Milli, max: int) -> Vec3Milli {
    let d = Vec3Milli {
        x: (desired.x - v.x) as i64,
        y: (desired.y - v.y) as i64,
        z: (desired.z - v.z) as i64,
    };
    let c = spec_clamp_delta(d, max);
    Vec3Milli { x: (v.x + c.x) as i64, y: (v.y + c.y) as i64, z: (v.z + c.z) as i64 }
}

/// The velocity after a dash impulse along the full view direction.
pub open spec fn spec_dash_velocity(v: Vec3Milli, fwd: Vec3Milli) -> Vec3Milli {
    Vec3Milli {
        x: (v.x + fwd.x * DASH_FACTOR) as i64,
        y: (v.y + fwd.y * DASH_FACTOR) as i64,
        z: (v.z + fwd.z * DASH_FACTOR) as i64,
    }
}

/// The velocity after the jump check: vertical component set to the launch
/// speed exactly when the jump key edge fires while grounded.
pub open spec fn spec_jump(v: Vec3Milli, jump_edge: bool, grounded: bool) -> Vec3Milli {
    if jump_edge && grounded {
        Vec3Milli { x: v.x, y: JUMP_SPEED_MILLI, z: v.z }
    } else {
        v
    }
}

/// One drag component, exact.
fn drag_component(x: i64) -> (r: i64)
    requires
        -VEL_LIMIT_MILLI <= x <= VEL_LIMIT_MILLI,
    ensures
        r == spec_drag_component(x as int),
        -VEL_LIMIT_MILLI <= r <= VEL_LIMIT_MILLI,
{
    let r: i64 = div_toward_zero(x * DRAG_KEEP_NUM, DRAG_KEEP_DEN);
    proof {
        if x >= 0 {
            lemma_multiply_divide_le(x as int * DRAG_KEEP_NUM, DRAG_KEEP_DEN as int, x as int);
        } else {
            lemma_multiply_divide_le(
                -(x as int) * DRAG_KEEP_NUM,
                DRAG_KEEP_DEN as int,
                -(x as int),
            );
        }
    }
    r
}

/// One tick of drag on an unsteered velocity: scale by the retention factor,
/// then snap to exactly zero once the squared speed falls below the
/// threshold, so the velocity cannot creep asymptotically.
pub fn drag_tick(v: Vec3Milli) -> (r: Vec3Milli)
    requires
        in_bounds(v, VEL_LIMIT_MILLI as int),
    ensures
        r == spec_drag(v),
        in_bounds(r, VEL_LIMIT_MILLI as int),
{
    let s = Vec3Milli {
        x: drag_component(v.x),
        y: drag_component(v.y),
        z: drag_component(v.z),
    };
    let ls: i64 = s.length_squared();
    if ls < SNAP_SQ_MILLI {
        Vec3Milli { x: 0, y: 0, z: 0 }
    } else {
        s
    }
}

/// Sum the held keys into a desired direction from the camera's horizontal
/// basis.
pub fn accumulate_direction(k: MoveKeys, fwd: Vec3Milli, rgt: Vec3Milli) -> (r: Vec3Milli)
    requires
        in_bounds(fwd, BASIS_LIMIT_MILLI as int),
        in_bounds(rgt, BASIS_LIMIT_MILLI as int),
    ensures
        r == spec_direction(k, fwd, rgt),
        in_bounds(r, 2 * BASIS_LIMIT_MILLI as int),
{
    let cf: i64 = (if k.forward {
        1i64
    } else {
        0i64
    }) - (if k.back {
        1i64
    } else {
        0i64
    });
    let cr: i64 = (if k.right {
        1i64
    } else {
        0i64
    }) - (if k.left {
        1i64
    } else {
        0i64
    });
    proof {
        lemma_axis_product_bounds(fwd.x as int, cf as int);
        lemma_axis_product_bounds(fwd.y as int, cf as int);
        lemma_axis_product_bounds(fwd.z as int, cf as int);
        lemma_axis_product_bounds(rgt.x as int, cr as int);
        lemma_axis_product_bounds(rgt.y as int, cr as int);
        lemma_axis_product_bounds(rgt.z as int, cr as int);
    }
    Vec3Milli {
        x: fwd.x * cf + rgt.x * cr,
        y: fwd.y * cf + rgt.y * cr,
        z: fwd.z * cf + rgt.z * cr,
    }
}

/// A basis component times a key coefficient stays within the basis bound.
proof fn lemma_axis_product_bounds(b: int, c: int)
    by (nonlinear_arith)
    requires
        -BASIS_LIMIT_MILLI <= b <= BASIS_LIMIT_MILLI,
        -1 <= c <= 1,
    ensures
        -BASIS_LIMIT_MILLI <= b * c <= BASIS_LIMIT_MILLI,
{
}

/// Normalize the direction (floor length) and scale it to top speed.
pub fn scale_to_speed(dir: Vec3Milli) -> (r: Vec3Milli)
    requires
        in_bounds(dir, 2 * BASIS_LIMIT_MILLI as int),
        len_sq(dir) > 0,
    ensures
        r == spec_desired_velocity(dir),
        in_bounds(r, MAX_SPEED_MILLI as int),
{
    let ls: i64 = dir.length_squared();
    proof {
        lemma_sq_bound(dir.x as int, 2 * BASIS_LIMIT_MILLI as int);
        lemma_sq_bound(dir.y as int, 2 * BASIS_LIMIT_MILLI as int);
        lemma_sq_bound(dir.z as int, 2 * BASIS_LIMIT_MILLI as int);
    }
    let len: u64 = isqrt(ls as u64);
    proof {
        assert(len >= 1) by (nonlinear_arith)
            requires
                (ls as int) < sq(len as int + 1),
                ls >= 1,
                len >= 0,
        ;
        assert(-(len as int) <= dir.x as int <= len as int) by (nonlinear_arith)
            requires
                sq(dir.x as int) <= ls as int,
                (ls as int) < sq(len as int + 1),
                len >= 0,
        ;
        assert(-(len as int) <= dir.y as int <= len as int) by (nonlinear_arith)
            requires
                sq(dir.y as int) <= ls as int,
                (ls as int) < sq(len as int + 1),
                len >= 0,
        ;
        assert(-(len as int) <= dir.z as int <= len as int) by (nonlinear_arith)
            requires
                sq(dir.z as int) <= ls as int,
                (ls as int) < sq(len as int + 1),
                len >= 0,
        ;
        lemma_div_trunc_within(dir.x as int, MAX_SPEED_MILLI as int, len as int);
        lemma_div_trunc_within(dir.y as int, MAX_SPEED_MILLI as int, len as int);
        lemma_div_trunc_within(dir.z as int, MAX_SPEED_MILLI as int, len as int);
    }
    Vec3Milli {
        x: div_toward_zero(dir.x * MAX_SPEED_MILLI, len as i64),
        y: div_toward_zero(dir.y * MAX_SPEED_MILLI, len as i64),
        z: div_toward_zero(dir.z * MAX_SPEED_MILLI, len as i64),
    }
}

/// For `|d| <= len`, scaling by `m / len` keeps a component within `m`.
proof fn lemma_div_trunc_within(d: int, m: int, len: int)
    requires
        len >= 1,
        m >= 0,
        -len <= d <= len,
    ensures
        -m <= div_trunc(d * m, len) <= m,
{
    if d >= 0 {
        assert(d * m <= len * m) by (nonlinear_arith)
            requires
                0 <= d <= len,
                m >= 0,
        ;
        assert(d * m >= 0) by (nonlinear_arith)
            requires
                d >= 0,
                m >= 0,
        ;
        lemma_multiply_divide_le(d * m, len, m);
        lemma_div_pos_is_pos(d * m, len);
    } else {
        assert(-(d * m) <= len * m) by (nonlinear_arith)
            requires
                -len <= d < 0,
                m >= 0,
        ;
        assert(-(d * m) >= 0) by (nonlinear_arith)
            requires
                d < 0,
                m >= 0,
        ;
        lemma_multiply_divide_le(-(d * m), len, m);
        lemma_div_pos_is_pos(-(d * m), len);
    }
}

/// Clamp a velocity change to magnitude `max`: the returned change never has
/// squared length above `max` squared, however far the current velocity is
/// from the target.
pub fn clamp_delta(d: Vec3Milli, max: i64) -> (r: Vec3Milli)
    requires
        in_bounds(d, 1_500_000_000int),
        0 <= max <= 100_000_000,
    ensures
        r == spec_clamp_delta(d, max as int),
        len_sq(r) <= sq(max as int),
        in_bounds(r, max as int),
{
    let ls: i64 = d.length_squared();
    proof {
        lemma_sq_bound(d.x as int, 1_500_000_000int);
        lemma_sq_bound(d.y as int, 1_500_000_000int);
        lemma_sq_bound(d.z as int, 1_500_000_000int);
        lemma_sq_bound(max as int, 100_000_000int);
        assert(-200_000_000_000_000_000int <= d.x as int * max <= 200_000_000_000_000_000int)
            by (nonlinear_arith)
            requires
                -1_500_000_000 <= d.x as int <= 1_500_000_000,
                0 <= max <= 100_000_000,
        ;
        assert(-200_000_000_000_000_000int <= d.y as int * max <= 200_000_000_000_000_000int)
            by (nonlinear_arith)
            requires
                -1_500_000_000 <= d.y as int <= 1_500_000_000,
                0 <= max <= 100_000_000,
        ;
        assert(-200_000_000_000_000_000int <= d.z as int * max <= 200_000_000_000_000_000int)
            by (nonlinear_arith)
            requires
                -1_500_000_000 <= d.z as int <= 1_500_000_000,
                0 <= max <= 100_000_000,
        ;
    }
    if ls <= max * max {
        proof {
            lemma_sq_within_bounds(d, max as int);
        }
        d
    } else {
        let len: u64 = isqrt_ceil(ls as u64);
        proof {
            assert(len >= 1);
            assert(-(len as int) <= d.x as int <= len as int) by (nonlinear_arith)
                requires
                    sq(d.x as int) <= ls as int,
                    (ls as int) <= sq(len as int),
                    len >= 0,
            ;
            assert(-(len as int) <= d.y as int <= len as int) by (nonlinear_arith)
                requires
                    sq(d.y as int) <= ls as int,
                    (ls as int) <= sq(len as int),
                    len >= 0,
            ;
            assert(-(len as int) <= d.z as int <= len as int) by (nonlinear_arith)
                requires
                    sq(d.z as int) <= ls as int,
                    (ls as int) <= sq(len as int),
                    len >= 0,
            ;
            lemma_div_trunc_within(d.x as int, max as int, len as int);
            lemma_div_trunc_within(d.y as int, max as int, len as int);
            lemma_div_trunc_within(d.z as int, max as int, len as int);
            lemma_scale_within(d.x as int, d.y as int, d.z as int, max as int, len as int);
        }
        Vec3Milli {
            x: div_toward_zero(d.x * max, len as i64),
            y: div_toward_zero(d.y * max, len as i64),
            z: div_toward_zero(d.z * max, len as i64),
        }
    }
}

/// Components of a vector whose squared length is within `sq(b)` are within
/// `b`.
proof fn lemma_sq_within_bounds(v: Vec3Milli, b: int)
    requires
        b >= 0,
        len_sq(v) <= sq(b),
    ensures
        in_bounds(v, b),
{
    assert(in_bounds(v, b)) by (nonlinear_arith)
        requires
            b >= 0,
            sq(v.x as int) + sq(v.y as int) + sq(v.z as int) <= sq(b),
    ;
}

/// One capped acceleration step: move the velocity toward `desired`, never
/// changing it by more than `max_change` in magnitude in one tick.
pub fn accelerate_toward(v: Vec3Milli, desired: Vec3Milli, max_change: i64) -> (r: Vec3Milli)
    requires
        in_bounds(v, VEL_LIMIT_MILLI as int),
        in_bounds(desired, MAX_SPEED_MILLI as int),
        0 <= max_change <= 100_000_000,
    ensures
        r == spec_accelerate(v, desired, max_change as int),
        len_sq(
            Vec3Milli { x: (r.x - v.x) as i64, y: (r.y - v.y) as i64, z: (r.z - v.z) as i64 },
        ) <= sq(max_change as int),
        in_bounds(r, VEL_LIMIT_MILLI + 100_000_000int),
{
    let d = Vec3Milli { x: desired.x - v.x, y: desired.y - v.y, z: desired.z - v.z };
    let c = clamp_delta(d, max_change);
    Vec3Milli { x: v.x + c.x, y: v.y + c.y, z: v.z + c.z }
}

/// The dash impulse: while the dash key is held and the cooldown is ready,
/// add the full view direction times the dash factor to the velocity and
/// start the cooldown over; otherwise change nothing. The impulse is
/// additive, so it stacks with whatever momentum the tick built up.
pub fn dash(
    v: Vec3Milli,
    fwd_full: Vec3Milli,
    cooldown: &mut DashCooldown,
    dash_held: bool,
) -> (r: Vec3Milli)
    requires
        in_bounds(v, VEL_LIMIT_MILLI + 100_000_000int),
        in_bounds(fwd_full, BASIS_LIMIT_MILLI as int),
        old(cooldown).wf(),
    ensures
        dash_held && spec_ready(*old(cooldown)) ==> r == spec_dash_velocity(v, fwd_full)
            && *final(cooldown) == (DashCooldown {
            duration_ms: old(cooldown).duration_ms,
            elapsed_ms: 0,
        }),
        !(dash_held && spec_ready(*old(cooldown))) ==> r == v && *final(cooldown) == *old(
            cooldown,
        ),
        final(cooldown).wf(),
        in_bounds(r, VEL_LIMIT_MILLI + 100_100_000int),
{
    if dash_held && cooldown.ready() {
        cooldown.reset();
        Vec3Milli {
            x: v.x + fwd_full.x * DASH_FACTOR,
            y: v.y + fwd_full.y * DASH_FACTOR,
            z: v.z + fwd_full.z * DASH_FACTOR,
        }
    } else {
        v
    }
}

/// The jump check, on the tick the jump key goes down: if the ground
/// classifier reports support from below, the vertical velocity is set (not
/// added to) the launch speed; otherwise the velocity is untouched.
pub fn jumping(
    v: Vec3Milli,
    jump_edge: bool,
    contacts: &Vec<Contact>,
    positions: &Vec<BodyPos>,
    me: u64,
) -> (r: Vec3Milli)
    requires
        ys_bounded(positions@),
    ensures
        r == spec_jump(v, jump_edge, spec_grounded(contacts@, positions@, me)),
{
    if jump_edge {
        if touching_ground(contacts, positions, me) {
            return Vec3Milli { x: v.x, y: JUMP_SPEED_MILLI, z: v.z };
        }
    }
    v
}

/// Everything the input layer reports for one tick of player movement.
#[derive(Clone, Copy, Debug, PartialEq, Eq, Structural)]
pub struct PlayerInput {
    /// The four held directional keys.
    pub keys: MoveKeys,
    /// Dash key held this tick.
    pub dash_held: bool,
    /// Escape held: abort this tick's movement processing entirely.
    pub escape_held: bool,
    /// Accumulated pointer motion, sideways.
    pub pointer_dx: i64,
    /// Accumulated pointer motion, vertical.
    pub pointer_dy: i64,
}

/// Velocity and cooldown after the movement steps of one tick: drag or
/// capped acceleration from the held keys, then the dash impulse if it
/// fires, then the cooldown advanced by the tick.
pub open spec fn spec_movement(
    v: Vec3Milli,
    cd: DashCooldown,
    keys: MoveKeys,
    dash_held: bool,
    fwd_xz: Vec3Milli,
    rgt_xz: Vec3Milli,
    fwd_full: Vec3Milli,
    dt_ms: u64,
) -> (Vec3Milli, DashCooldown) {
    let dir = spec_direction(keys, fwd_xz, rgt_xz);
    let v1 = if len_sq(dir) == 0 {
        spec_drag(v)
    } else {
        spec_accelerate(v, spec_desired_velocity(dir), ACCEL_RATE * dt_ms)
    };
    let fire = dash_held && spec_ready(cd);
    let v2 = if fire {
        spec_dash_velocity(v1, fwd_full)
    } else {
        v1
    };
    let cd1 = if fire {
        DashCooldown { duration_ms: cd.duration_ms, elapsed_ms: 0 }
    } else {
        cd
    };
    (v2, spec_tick(cd1, dt_ms))
}

/// One full movement tick over the player: direction from held keys, drag
/// or capped acceleration, the dash impulse, the pointer applied to the
/// view, the upright-rotation reset, and the cooldown advanced — unless
/// escape is held, which short-circuits the whole tick and leaves velocity,
/// view and cooldown untouched.
///
/// The camera basis vectors are handed in by the caller: `fwd_xz` and
/// `rgt_xz` are the view's forward and right directions projected onto the
/// horizontal plane, `fwd_full` is the full view direction the dash follows,
/// all as fixed-point near-unit vectors. The returned flag reports whether
/// the player body's rotation is to be reset to identity this tick (always,
/// except on the escape short-circuit).
pub fn update_player(
    vel: &mut Vec3Milli,
    look: &mut crate::look::LookState,
    cooldown: &mut DashCooldown,
    inp: &PlayerInput,
    sens: &crate::look::CameraSensitivity,
    fwd_xz: Vec3Milli,
    rgt_xz: Vec3Milli,
    fwd_full: Vec3Milli,
    dt_ms: u64,
) -> (reset_rotation: bool)
    requires
        in_bounds(*old(vel), VEL_LIMIT_MILLI as int),
        old(look).wf(),
        old(cooldown).wf(),
        in_bounds(fwd_xz, BASIS_LIMIT_MILLI as int),
        in_bounds(rgt_xz, BASIS_LIMIT_MILLI as int),
        in_bounds(fwd_full, BASIS_LIMIT_MILLI as int),
        dt_ms <= DT_LIMIT_MS,
        -crate::look::POINTER_DELTA_LIMIT <= inp.pointer_dx <= crate::look::POINTER_DELTA_LIMIT,
        -crate::look::POINTER_DELTA_LIMIT <= inp.pointer_dy <= crate::look::POINTER_DELTA_LIMIT,
        0 <= sens.x_urad <= crate::look::SENSITIVITY_LIMIT,
        0 <= sens.y_urad <= crate::look::SENSITIVITY_LIMIT,
    ensures
        inp.escape_held ==> !reset_rotation && *final(vel) == *old(vel) && *final(look) == *old(
            look,
        ) && *final(cooldown) == *old(cooldown),
        !inp.escape_held ==> reset_rotation && *final(vel) == spec_movement(
            *old(vel),
            *old(cooldown),
            inp.keys,
            inp.dash_held,
            fwd_xz,
            rgt_xz,
            fwd_full,
            dt_ms,
        ).0 && *final(cooldown) == spec_movement(
            *old(vel),
            *old(cooldown),
            inp.keys,
            inp.dash_held,
            fwd_xz,
            rgt_xz,
            fwd_full,
            dt_ms,
        ).1 && *final(look) == crate::look::spec_look(
            *old(look),
            inp.pointer_dx as int,
            inp.pointer_dy as int,
            *sens,
        ),
        final(look).wf(),
        final(cooldown).wf(),
        in_bounds(*final(vel), VEL_LIMIT_MILLI + 100_100_000int),
{
    if inp.escape_held {
        return false;
    }
    let dir: Vec3Milli = accumulate_direction(inp.keys, fwd_xz, rgt_xz);
    let ls: i64 = dir.length_squared();
    let v1: Vec3Milli = if ls == 0 {
        drag_tick(*vel)
    } else {
        let desired: Vec3Milli = scale_to_speed(dir);
        accelerate_toward(*vel, desired, ACCEL_RATE * (dt_ms as i64))
    };
    let v2: Vec3Milli = dash(v1, fwd_full, cooldown, inp.dash_held);
    *vel = v2;
    crate::look::apply_look(look, inp.pointer_dx, inp.pointer_dy, sens);
    cooldown.tick(dt_ms);
    true
}

/// Magnitude of a component.
pub open spec fn iabs(x: int) -> int {
    if x < 0 {
        -x
    } else {
        x
    }
}

/// Sum of component magnitudes: the measure drag descends on.
pub open spec fn abs_sum(v: Vec3Milli) -> int {
    iabs(v.x as int) + iabs(v.y as int) + iabs(v.z as int)
}

/// The velocity after `n` consecutive drag ticks.
pub open spec fn spec_drag_iter(v: Vec3Milli, n: nat) -> Vec3Milli
    decreases n,
{
    if n == 0 {
        v
    } else {
        spec_drag_iter(spec_drag(v), (n - 1) as nat)
    }
}

/// Repeated drag ticks converge to exactly zero: after at most `abs_sum(v)`
/// ticks (and then forever) the velocity is the zero vector itself, not
/// merely small.
pub proof fn lemma_drag_converges(v: Vec3Milli, n: nat)
    requires
        in_bounds(v, VEL_LIMIT_MILLI as int),
        n >= abs_sum(v),
    ensures
        spec_drag_iter(v, n) == (Vec3Milli { x: 0, y: 0, z: 0 }),
    decreases n,
{
    let zero = Vec3Milli { x: 0, y: 0, z: 0 };
    if v == zero {
        assert(spec_drag(zero) == zero);
        if n > 0 {
            lemma_drag_converges(zero, (n - 1) as nat);
        }
    } else {
        lemma_drag_strictly_shrinks(v);
        lemma_drag_component_shrinks(v.x as int);
        lemma_drag_component_shrinks(v.y as int);
        lemma_drag_component_shrinks(v.z as int);
        lemma_drag_converges(spec_drag(v), (n - 1) as nat);
    }
}

/// Repeated drag ticks reach exactly zero: every tick on a nonzero velocity
/// strictly shrinks the sum of component magnitudes, and once the squared
/// speed falls under the snap threshold the result is the zero vector
/// itself.
pub proof fn lemma_drag_strictly_shrinks(v: Vec3Milli)
    requires
        in_bounds(v, VEL_LIMIT_MILLI as int),
        v != (Vec3Milli { x: 0, y: 0, z: 0 }),
    ensures
        abs_sum(spec_drag(v)) < abs_sum(v),
        abs_sum(spec_drag(v)) >= 0,
{
    lemma_drag_component_shrinks(v.x as int);
    lemma_drag_component_shrinks(v.y as int);
    lemma_drag_component_shrinks(v.z as int);
}

/// Drag never grows a component, and strictly shrinks a nonzero one.
proof fn lemma_drag_component_shrinks(x: int)
    requires
        -VEL_LIMIT_MILLI <= x <= VEL_LIMIT_MILLI,
    ensures
        iabs(spec_drag_component(x)) <= iabs(x),
        x != 0 ==> iabs(spec_drag_component(x)) < iabs(x),
{
    if x > 0 {
        lemma_multiply_divide_lt(x * DRAG_KEEP_NUM, DRAG_KEEP_DEN as int, x);
        lemma_div_pos_is_pos(x * DRAG_KEEP_NUM, DRAG_KEEP_DEN as int);
    } else if x < 0 {
        lemma_multiply_divide_lt(-x * DRAG_KEEP_NUM, DRAG_KEEP_DEN as int, -x);
        lemma_div_pos_is_pos(-x * DRAG_KEEP_NUM, DRAG_KEEP_DEN as int);
    }
}

} // verus!
