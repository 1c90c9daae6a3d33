//! The Playing/Paused machine and its pointer and clock commands.

use playerctl::mode::{guard, input, GameState};

#[test]
fn toggle_edge_pauses_and_frees_the_pointer() {
    let (m, fx) = input(GameState::Game, true);
    assert_eq!(m, GameState::Menu);
    assert!(fx.pointer_visible);
    assert!(!fx.pointer_locked);
    assert!(fx.physics_paused);
}

#[test]
fn second_edge_resumes_and_captures_the_pointer() {
    let (m1, _) = input(GameState::Game, true);
    let (m2, fx) = input(m1, true);
    assert_eq!(m2, GameState::Game);
    assert!(!fx.pointer_visible);
    assert!(fx.pointer_locked);
    assert!(!fx.physics_paused);
}

#[test]
fn holding_without_an_edge_changes_nothing() {
    let (m, fx) = input(GameState::Menu, false);
    assert_eq!(m, GameState::Menu);
    assert!(fx.pointer_visible);
    let (m2, fx2) = input(GameState::Game, false);
    assert_eq!(m2, GameState::Game);
    assert!(fx2.pointer_locked);
}

#[test]
fn movement_systems_run_only_while_playing() {
    let playing = guard(GameState::Game);
    assert!(playing.run_jumping && playing.run_update_player && playing.run_input);
    let paused = guard(GameState::Menu);
    assert!(!paused.run_jumping && !paused.run_update_player);
    // The toggle check itself always runs, so the player can always escape.
    assert!(paused.run_input);
}
