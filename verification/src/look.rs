//! Camera orientation from accumulated pointer motion.
//!
//! Only the look entity carries yaw and pitch; the player body itself is
//! kept upright, so roll is always zero and does not appear in the state.
//! Angles are in microradians. Yaw is free and wraps around the full turn;
//! pitch is clamped just short of straight up and straight down so the view
//! can never flip over the pole. A tick whose pointer delta is exactly zero
//! leaves the orientation untouched, bit for bit.

use vstd::prelude::*;

verus! {

/// One full turn in microradians.
pub const TAU_MICRORAD: i64 = 6_283_185;

/// The pitch bound in microradians: a hundredth of a radian short of a
/// quarter turn.
pub const PITCH_LIMIT_MICRORAD: i64 = 1_560_796;

/// Largest single-tick pointer delta the controller accepts, in counts.
pub const POINTER_DELTA_LIMIT: i64 = 1_000_000_000;

/// Largest sensitivity the controller accepts: one radian per count.
pub const SENSITIVITY_LIMIT: i64 = 1_000_000;

/// Scale from pointer counts to view rotation, in microradians per count.
#[derive(Clone, Copy, Debug, PartialEq, Eq, Structural)]
pub struct CameraSensitivity {
    pub x_urad: i64,
    pub y_urad: i64,
}

impl Default for CameraSensitivity {
    /// The stock sensitivity: 0.003 radians per count sideways, 0.002
    /// vertically.
    fn default() -> (r: CameraSensitivity)
        ensures
            r == (CameraSensitivity { x_urad: 3000, y_urad: 2000 }),
    {
        CameraSensitivity { x_urad: 3000, y_urad: 2000 }
    }
}

/// The look entity's local orientation.
#[derive(Clone, Copy, Debug, PartialEq, Eq, Structural)]
pub struct LookState {
    pub yaw_urad: i64,
    pub pitch_urad: i64,
}

/// Clamped to the closed interval `[lo, hi]`.
pub open spec fn spec_clamp(x: int, lo: int, hi: int) -> int
    recommends
        lo <= hi,
{
    if x < lo {
        lo
    } else if x > hi {
        hi
    } else {
        x
    }
}

/// An angle brought into `[0, TAU_MICRORAD)`.
pub open spec fn spec_wrap_angle(a: int) -> int {
    a % (TAU_MICRORAD as int)
}

/// The orientation after one tick of pointer motion `(dx, dy)`: unchanged on
/// a zero delta, otherwise yaw turns by `-dx` scaled and wraps, and pitch
/// turns by `-dy` scaled and is clamped inside the pole limits.
pub open spec fn spec_look(st: LookState, dx: int, dy: int, sens: CameraSensitivity) -> LookState {
    if dx == 0 && dy == 0 {
        st
    } else {
        LookState {
            yaw_urad: spec_wrap_angle(st.yaw_urad + -dx * sens.x_urad) as i64,
            pitch_urad: spec_clamp(
                st.pitch_urad + -dy * sens.y_urad,
                -PITCH_LIMIT_MICRORAD as int,
                PITCH_LIMIT_MICRORAD as int,
            ) as i64,
        }
    }
}

impl LookState {
    /// Yaw within one turn, pitch within the pole limits.
    pub open spec fn wf(self) -> bool {
        0 <= self.yaw_urad < TAU_MICRORAD && -PITCH_LIMIT_MICRORAD <= self.pitch_urad
            <= PITCH_LIMIT_MICRORAD
    }

    /// The straight-ahead orientation.
    pub fn level() -> (r: LookState)
        ensures
            r == (LookState { yaw_urad: 0, pitch_urad: 0 }),
            r.wf(),
    {
        LookState { yaw_urad: 0, pitch_urad: 0 }
    }
}

/// An angle reduced into `[0, TAU_MICRORAD)`.
fn wrap_angle(a: i64) -> (r: i64)
    requires
        -0x4000_0000_0000_0000 < a < 0x4000_0000_0000_0000,
    ensures
        r == spec_wrap_angle(a as int),
        0 <= r < TAU_MICRORAD,
{
    if a >= 0 {
        a % TAU_MICRORAD
    } else {
        let m: i64 = (-a) % TAU_MICRORAD;
        if m == 0 {
            0
        } else {
            TAU_MICRORAD - m
        }
    }
}

/// Apply one tick of pointer motion to the view: no write at all on a zero
/// delta, otherwise the yaw wraps freely and the pitch stays clamped within
/// the pole limits, whatever motion accumulated.
pub fn apply_look(st: &mut LookState, dx: i64, dy: i64, sens: &CameraSensitivity)
    requires
        old(st).wf(),
        -POINTER_DELTA_LIMIT <= dx <= POINTER_DELTA_LIMIT,
        -POINTER_DELTA_LIMIT <= dy <= POINTER_DELTA_LIMIT,
        0 <= sens.x_urad <= SENSITIVITY_LIMIT,
        0 <= sens.y_urad <= SENSITIVITY_LIMIT,
    ensures
        *final(st) == spec_look(*old(st), dx as int, dy as int, *sens),
        final(st).wf(),
        -PITCH_LIMIT_MICRORAD <= final(st).pitch_urad <= PITCH_LIMIT_MICRORAD,
{
    if dx == 0 && dy == 0 {
        return;
    }
    proof {
        assert(-0x1000_0000_0000_0000 <= -dx * sens.x_urad <= 0x1000_0000_0000_0000)
            by (nonlinear_arith)
            requires
                -POINTER_DELTA_LIMIT <= dx <= POINTER_DELTA_LIMIT,
                0 <= sens.x_urad <= SENSITIVITY_LIMIT,
        ;
        assert(-0x1000_0000_0000_0000 <= -dy * sens.y_urad <= 0x1000_0000_0000_0000)
            by (nonlinear_arith)
            requires
                -POINTER_DELTA_LIMIT <= dy <= POINTER_DELTA_LIMIT,
                0 <= sens.y_urad <= SENSITIVITY_LIMIT,
        ;
    }
    let dyaw: i64 = -dx * sens.x_urad;
    let dpitch: i64 = -dy * sens.y_urad;
    st.yaw_urad = wrap_angle(st.yaw_urad + dyaw);
    let p: i64 = st.pitch_urad + dpitch;
    st.pitch_urad = if p < -PITCH_LIMIT_MICRORAD {
        -PITCH_LIMIT_MICRORAD
    } else if p > PITCH_LIMIT_MICRORAD {
        PITCH_LIMIT_MICRORAD
    } else {
        p
    };
}

} // verus!
