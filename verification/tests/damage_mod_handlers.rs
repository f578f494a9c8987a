use rand::Rng;
use ptcgp::actions::SlotRef;
use ptcgp::effects::damage_mod_handlers::{
    coin_flip_extra_damage, damage_all_opponent_bench, extra_damage, extra_damage_if_damaged, prevent_damage_next_turn,
    reduce_opponent_attack_damage, self_damage,
};
use ptcgp::effects::EffectContext;
use ptcgp::state::{GameState, PokemonSlot};


fn make_state() -> GameState {
    let mut state = GameState::new(12345);
    // Player 0 active
    state.players[0].active = Some(PokemonSlot::new(0, 100));
    // Player 1 active + two bench slots
    state.players[1].active = Some(PokemonSlot::new(1, 80));
    state.players[1].bench[0] = Some(PokemonSlot::new(2, 60));
    state.players[1].bench[1] = Some(PokemonSlot::new(3, 60));
    state
}

fn ctx(acting: usize) -> EffectContext {
    EffectContext::new(acting)
}

// --- prevent_damage_next_turn sets the flag ---
#[test]
fn test_prevent_damage_next_turn_sets_flag() {
    let mut state = make_state();
    let c = ctx(0);
    assert!(!state.players[0].active.as_ref().unwrap().prevent_damage_next_turn);
    prevent_damage_next_turn(&mut state, &c);
    assert!(state.players[0].active.as_ref().unwrap().prevent_damage_next_turn);
}

// --- prevent_damage_next_turn does not affect opponent ---
#[test]
fn test_prevent_damage_next_turn_does_not_affect_opponent() {
    let mut state = make_state();
    let c = ctx(0);
    prevent_damage_next_turn(&mut state, &c);
    assert!(!state.players[1].active.as_ref().unwrap().prevent_damage_next_turn);
}

// --- damage_all_opponent_bench deals to all bench slots ---
#[test]
fn test_damage_all_opponent_bench() {
    let mut state = make_state();
    let c = ctx(0); // acting player = 0, opponent = 1
    damage_all_opponent_bench(&mut state, 20, &c);
    // bench[0] and bench[1] each lose 20 HP
    assert_eq!(state.players[1].bench[0].as_ref().unwrap().current_hp, 40);
    assert_eq!(state.players[1].bench[1].as_ref().unwrap().current_hp, 40);
    // Opponent *active* untouched
    assert_eq!(state.players[1].active.as_ref().unwrap().current_hp, 80);
}

// --- damage_all_opponent_bench clamps HP to 0 ---
#[test]
fn test_damage_all_opponent_bench_clamps_to_zero() {
    let mut state = make_state();
    let c = ctx(0);
    damage_all_opponent_bench(&mut state, 200, &c);
    assert_eq!(state.players[1].bench[0].as_ref().unwrap().current_hp, 0);
    assert_eq!(state.players[1].bench[1].as_ref().unwrap().current_hp, 0);
}

// --- extra_damage returns the flat amount unchanged ---
#[test]
fn test_extra_damage_flat() {
    let mut state = make_state();
    let c = ctx(0);
    assert_eq!(extra_damage(&mut state, 30, &c), 30);
}

// --- extra_damage_if_damaged returns 0 when opponent is at full HP ---
#[test]
fn test_extra_damage_if_damaged_full_hp() {
    let mut state = make_state();
    let c = ctx(0);
    assert_eq!(extra_damage_if_damaged(&mut state, 40, &c), 0);
}

// --- extra_damage_if_damaged returns bonus when opponent is damaged ---
#[test]
fn test_extra_damage_if_damaged_has_damage() {
    let mut state = make_state();
    state.players[1].active.as_mut().unwrap().current_hp = 50; // damaged
    let c = ctx(0);
    assert_eq!(extra_damage_if_damaged(&mut state, 40, &c), 40);
}

// --- reduce_opponent_attack_damage sets incoming_damage_reduction ---
#[test]
fn test_reduce_opponent_attack_damage() {
    let mut state = make_state();
    let c = ctx(0);
    reduce_opponent_attack_damage(&mut state, 20, &c);
    assert_eq!(
        state.players[0].active.as_ref().unwrap().incoming_damage_reduction,
        20
    );
}

// --- coin_flip_extra_damage with 0 flips returns 0 ---
#[test]
fn test_coin_flip_extra_damage_zero_flips() {
    let mut state = make_state();
    let c = ctx(0);
    assert_eq!(coin_flip_extra_damage(&mut state, 30, 0, &c), 0);
}

// --- self_damage reduces own HP ---
#[test]
fn test_self_damage() {
    let mut state = make_state();
    let c = ctx(0);
    let src = Some(SlotRef::active(0));
    self_damage(&mut state, 10, src, &c);
    assert_eq!(state.players[0].active.as_ref().unwrap().current_hp, 90);
}

#[test]
fn no_coin_to_flip_leaves_the_generator_alone() {
    let mut state = make_state();
    let mut twin = make_state();
    let c = ctx(0);
    coin_flip_extra_damage(&mut state, 30, 0, &c);
    let a: u64 = state.rng.gen();
    let b: u64 = twin.rng.gen();
    assert_eq!(a, b);
}
