//! Two-state Playing/Paused machine gating the whole controller.
//!
//! `Game` is the playing state: the pointer is captured and hidden and the
//! physics clock runs. `Menu` is the paused state: the pointer is released
//! and visible and the physics clock is stopped. The state flips only on the
//! rising edge of the toggle key, never while the key is merely held, and the
//! toggle check itself runs in both states.

use vstd::prelude::*;

verus! {

/// The process-wide simulation mode. `Game` is the initial state.
#[derive(Clone, Copy, Debug, PartialEq, Eq, Structural)]
pub enum GameState {
    Game,
    Menu,
}

/// What the windowing layer and the physics clock are told on entering a
/// state.
#[derive(Clone, Copy, Debug, PartialEq, Eq, Structural)]
pub struct ModeEffects {
    /// Pointer locked to the window center.
    pub pointer_locked: bool,
    /// Pointer drawn on screen.
    pub pointer_visible: bool,
    /// Physics clock stopped: no physics-driven system sees time advance.
    pub physics_paused: bool,
}

/// The state after one toggle edge.
pub open spec fn spec_toggle(s: GameState) -> GameState {
    match s {
        GameState::Game => GameState::Menu,
        GameState::Menu => GameState::Game,
    }
}

/// The pointer and clock regime each state demands.
pub open spec fn spec_effects(s: GameState) -> ModeEffects {
    match s {
        GameState::Game => ModeEffects {
            pointer_locked: true,
            pointer_visible: false,
            physics_paused: false,
        },
        GameState::Menu => ModeEffects {
            pointer_locked: false,
            pointer_visible: true,
            physics_paused: true,
        },
    }
}

/// Which gated systems run in a state: movement and jumping only while
/// playing; the toggle check always.
#[derive(Clone, Copy, Debug, PartialEq, Eq, Structural)]
pub struct SystemGuard {
    pub run_jumping: bool,
    pub run_update_player: bool,
    pub run_input: bool,
}

/// The mode-toggle step, run unconditionally every tick: on a rising edge of
/// the toggle key the state flips and the new state's pointer and clock
/// regime is (re)issued; without an edge nothing changes.
pub fn input(current: GameState, toggle_edge: bool) -> (r: (GameState, ModeEffects))
    ensures
        toggle_edge ==> r.0 == spec_toggle(current),
        !toggle_edge ==> r.0 == current,
        r.1 == spec_effects(r.0),
{
    let next: GameState = if toggle_edge {
        match current {
            GameState::Game => GameState::Menu,
            GameState::Menu => GameState::Game,
        }
    } else {
        current
    };
    let fx: ModeEffects = match next {
        GameState::Game => ModeEffects {
            pointer_locked: true,
            pointer_visible: false,
            physics_paused: false,
        },
        GameState::Menu => ModeEffects {
            pointer_locked: false,
            pointer_visible: true,
            physics_paused: true,
        },
    };
    (next, fx)
}

/// The guard table: movement and jumping are gated on playing, the toggle
/// check is not.
pub fn guard(s: GameState) -> (g: SystemGuard)
    ensures
        g.run_jumping == (s == GameState::Game),
        g.run_update_player == (s == GameState::Game),
        g.run_input,
{
    let playing: bool = match s {
        GameState::Game => true,
        GameState::Menu => false,
    };
    SystemGuard { run_jumping: playing, run_update_player: playing, run_input: true }
}

/// One toggle edge from playing pauses and frees the pointer; a second edge
/// returns to playing with the pointer captured and hidden; the whole cycle
/// is an involution from any state.
pub proof fn lemma_toggle_round_trip(s: GameState)
    ensures
        spec_toggle(spec_toggle(s)) == s,
        spec_toggle(GameState::Game) == GameState::Menu,
        spec_effects(GameState::Menu).pointer_visible,
        !spec_effects(GameState::Menu).pointer_locked,
        spec_effects(GameState::Menu).physics_paused,
        spec_effects(GameState::Game).pointer_locked,
        !spec_effects(GameState::Game).pointer_visible,
        !spec_effects(GameState::Game).physics_paused,
{
}

} // verus!
