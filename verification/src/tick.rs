//! One simulation tick over the whole controller.
//!
//! The frame order is fixed: the mode gates which systems run; the ground
//! classifier consumes this tick's contact events and jumping services the
//! jump edge; the movement integrator reads held keys and the cooldown and
//! writes velocity and view; and the mode-toggle check runs last,
//! unconditionally, so the player can always pause and unpause. Contact
//! events are only valid for the tick that produced them: the caller hands
//! the whole batch in and discards it afterwards.

use vstd::prelude::*;
use crate::math::{Vec3Milli, in_bounds};
use crate::timer::DashCooldown;
use crate::look::{LookState, CameraSensitivity, spec_look, POINTER_DELTA_LIMIT,
    SENSITIVITY_LIMIT};
use crate::mode::{GameState, ModeEffects, spec_toggle, spec_effects, guard, input};
use crate::ground::{Contact, BodyPos, ys_bounded, spec_grounded};
use crate::movement::{
    PlayerInput, spec_jump, spec_movement, jumping, update_player, VEL_LIMIT_MILLI,
    BASIS_LIMIT_MILLI, DT_LIMIT_MS, JUMP_SPEED_MILLI,
};

verus! {

/// The controller entity's mutable state across ticks.
#[derive(Clone, Copy, Debug, PartialEq, Eq, Structural)]
pub struct PlayerState {
    /// Linear velocity, milli-units per second.
    pub vel: Vec3Milli,
    /// The look entity's local orientation.
    pub look: LookState,
    /// The dash cooldown.
    pub cooldown: DashCooldown,
}

/// Everything the input layer reports for one tick.
#[derive(Clone, Copy, Debug, PartialEq, Eq, Structural)]
pub struct FrameInput {
    /// Held keys, pointer motion and the escape short-circuit.
    pub player: PlayerInput,
    /// The jump key went down this tick.
    pub jump_edge: bool,
    /// The mode-toggle key went down this tick.
    pub toggle_edge: bool,
}

/// What one tick tells the collaborators to do.
#[derive(Clone, Copy, Debug, PartialEq, Eq, Structural)]
pub struct TickOutcome {
    /// The mode for the next tick.
    pub mode: GameState,
    /// Pointer and physics-clock regime for the mode in force.
    pub effects: ModeEffects,
    /// Reset the player body's rotation to identity after physics, keeping
    /// it upright; only the look entity carries yaw and pitch.
    pub reset_rotation: bool,
}

impl PlayerState {
    /// Velocity within the integrator's limit, view well formed, cooldown
    /// well formed.
    pub open spec fn wf(self) -> bool {
        in_bounds(self.vel, VEL_LIMIT_MILLI as int) && self.look.wf() && self.cooldown.wf()
    }
}

/// One whole simulation tick: jumping and movement run only while playing,
/// the mode-toggle check always. While paused the player state is untouched
/// bit for bit. While playing, the jump check (over this tick's contact
/// events) runs first, then the movement integrator — unless escape is
/// held, which leaves everything but the jump untouched. The outcome
/// carries the next mode and its pointer/clock regime.
pub fn frame_tick(
    mode: GameState,
    st: &mut PlayerState,
    inp: &FrameInput,
    sens: &CameraSensitivity,
    contacts: &Vec<Contact>,
    positions: &Vec<BodyPos>,
    me: u64,
    fwd_xz: Vec3Milli,
    rgt_xz: Vec3Milli,
    fwd_full: Vec3Milli,
    dt_ms: u64,
) -> (out: TickOutcome)
    requires
        old(st).wf(),
        ys_bounded(positions@),
        in_bounds(fwd_xz, BASIS_LIMIT_MILLI as int),
        in_bounds(rgt_xz, BASIS_LIMIT_MILLI as int),
        in_bounds(fwd_full, BASIS_LIMIT_MILLI as int),
        dt_ms <= DT_LIMIT_MS,
        -POINTER_DELTA_LIMIT <= inp.player.pointer_dx <= POINTER_DELTA_LIMIT,
        -POINTER_DELTA_LIMIT <= inp.player.pointer_dy <= POINTER_DELTA_LIMIT,
        0 <= sens.x_urad <= SENSITIVITY_LIMIT,
        0 <= sens.y_urad <= SENSITIVITY_LIMIT,
    ensures
        out.mode == (if inp.toggle_edge {
            spec_toggle(mode)
        } else {
            mode
        }),
        out.effects == spec_effects(out.mode),
        mode == GameState::Menu ==> *final(st) == *old(st) && !out.reset_rotation,
        mode == GameState::Game ==> ({
            let vj = spec_jump(
                old(st).vel,
                inp.jump_edge,
                spec_grounded(contacts@, positions@, me),
            );
            &&& inp.player.escape_held ==> *final(st) == (PlayerState {
                vel: vj,
                look: old(st).look,
                cooldown: old(st).cooldown,
            }) && !out.reset_rotation
            &&& !inp.player.escape_held ==> final(st).vel == spec_movement(
                vj,
                old(st).cooldown,
                inp.player.keys,
                inp.player.dash_held,
                fwd_xz,
                rgt_xz,
                fwd_full,
                dt_ms,
            ).0 && final(st).cooldown == spec_movement(
                vj,
                old(st).cooldown,
                inp.player.keys,
                inp.player.dash_held,
                fwd_xz,
                rgt_xz,
                fwd_full,
                dt_ms,
            ).1 && final(st).look == spec_look(
                old(st).look,
                inp.player.pointer_dx as int,
                inp.player.pointer_dy as int,
                *sens,
            ) && out.reset_rotation
        }),
        final(st).look.wf(),
        final(st).cooldown.wf(),
{
    let g = guard(mode);
    let mut reset_rotation: bool = false;
    if g.run_jumping {
        st.vel = jumping(st.vel, inp.jump_edge, contacts, positions, me);
    }
    if g.run_update_player {
        reset_rotation = update_player(
            &mut st.vel,
            &mut st.look,
            &mut st.cooldown,
            &inp.player,
            sens,
            fwd_xz,
            rgt_xz,
            fwd_full,
            dt_ms,
        );
    }
    let (next_mode, effects) = input(mode, inp.toggle_edge);
    TickOutcome { mode: next_mode, effects, reset_rotation }
}

} // verus!
