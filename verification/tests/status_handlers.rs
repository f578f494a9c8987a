use ptcgp::effects::status_handlers::{
    apply_burn, apply_confusion, apply_paralysis, apply_poison, apply_random_status, apply_sleep, coin_flip_apply_paralysis,
    coin_flip_attack_block_next_turn, coin_flip_self_cant_attack_next_turn, self_block_on_flip_result, self_confuse, self_sleep,
    toxic_poison,
};
use ptcgp::effects::EffectContext;
use ptcgp::state::{GameState, PokemonSlot};
use ptcgp::types::StatusEffect;


fn make_state_with_two_active() -> (GameState, EffectContext) {
    let mut state = GameState::new(12345);
    state.players[0].active = Some(PokemonSlot::new(0, 100));
    state.players[1].active = Some(PokemonSlot::new(1, 100));
    let ctx = EffectContext::new(0); // acting_player = 0, opponent = 1
    (state, ctx)
}

#[test]
fn apply_poison_sets_poisoned_on_opponent() {
    let (mut state, ctx) = make_state_with_two_active();
    apply_poison(&mut state, &ctx);
    let opp_active = state.players[1].active.as_ref().unwrap();
    assert!(opp_active.has_status(StatusEffect::Poisoned));
    // Acting player's active should be unaffected
    let own_active = state.players[0].active.as_ref().unwrap();
    assert!(!own_active.has_status(StatusEffect::Poisoned));
}

#[test]
fn apply_burn_sets_burned_on_opponent() {
    let (mut state, ctx) = make_state_with_two_active();
    apply_burn(&mut state, &ctx);
    let opp_active = state.players[1].active.as_ref().unwrap();
    assert!(opp_active.has_status(StatusEffect::Burned));
}

#[test]
fn apply_sleep_sets_asleep_on_opponent() {
    let (mut state, ctx) = make_state_with_two_active();
    apply_sleep(&mut state, &ctx);
    let opp_active = state.players[1].active.as_ref().unwrap();
    assert!(opp_active.has_status(StatusEffect::Asleep));
}

#[test]
fn apply_paralysis_sets_paralyzed_on_opponent() {
    let (mut state, ctx) = make_state_with_two_active();
    apply_paralysis(&mut state, &ctx);
    let opp_active = state.players[1].active.as_ref().unwrap();
    assert!(opp_active.has_status(StatusEffect::Paralyzed));
}

#[test]
fn apply_confusion_sets_confused_on_opponent() {
    let (mut state, ctx) = make_state_with_two_active();
    apply_confusion(&mut state, &ctx);
    let opp_active = state.players[1].active.as_ref().unwrap();
    assert!(opp_active.has_status(StatusEffect::Confused));
}

#[test]
fn self_confuse_sets_confused_on_acting_player() {
    let (mut state, ctx) = make_state_with_two_active();
    self_confuse(&mut state, &ctx);
    let own_active = state.players[0].active.as_ref().unwrap();
    assert!(own_active.has_status(StatusEffect::Confused));
    // Opponent should be unaffected
    let opp_active = state.players[1].active.as_ref().unwrap();
    assert!(!opp_active.has_status(StatusEffect::Confused));
}

#[test]
fn self_sleep_sets_asleep_on_acting_player() {
    let (mut state, ctx) = make_state_with_two_active();
    self_sleep(&mut state, &ctx);
    let own_active = state.players[0].active.as_ref().unwrap();
    assert!(own_active.has_status(StatusEffect::Asleep));
}

#[test]
fn toxic_poison_applies_poisoned() {
    let (mut state, ctx) = make_state_with_two_active();
    toxic_poison(&mut state, &ctx);
    let opp_active = state.players[1].active.as_ref().unwrap();
    assert!(opp_active.has_status(StatusEffect::Poisoned));
}

#[test]
fn apply_random_status_sets_some_status_on_opponent() {
    let (mut state, ctx) = make_state_with_two_active();
    apply_random_status(&mut state, &ctx);
    let opp_active = state.players[1].active.as_ref().unwrap();
    assert!(opp_active.has_any_status(), "opponent should have at least one status after apply_random_status");
}

#[test]
fn coin_flip_apply_paralysis_roughly_50_percent() {
    let trials = 1000;
    let mut heads_count = 0usize;
    // Use different seeds to get independent results
    for seed in 0..trials {
        let (mut state, ctx) = (GameState::new(seed as u64), EffectContext::new(0));
        state.players[0].active = Some(PokemonSlot::new(0, 100));
        state.players[1].active = Some(PokemonSlot::new(1, 100));
        coin_flip_apply_paralysis(&mut state, &ctx);
        if state.players[1].active.as_ref().unwrap().has_status(StatusEffect::Paralyzed) {
            heads_count += 1;
        }
    }
    // Expect roughly 450-550 out of 1000
    assert!(
        heads_count >= 420 && heads_count <= 580,
        "coin flip paralysis out of expected range: {} / {}",
        heads_count,
        trials
    );
}

#[test]
fn coin_flip_attack_block_next_turn_sets_cant_attack_on_opponent() {
    // Run many times to ensure it sometimes fires; check that when it does, it's on the opponent
    let mut any_blocked = false;
    for seed in 0..200u64 {
        let (mut state, ctx) = (GameState::new(seed), EffectContext::new(0));
        state.players[0].active = Some(PokemonSlot::new(0, 100));
        state.players[1].active = Some(PokemonSlot::new(1, 100));
        coin_flip_attack_block_next_turn(&mut state, &ctx);
        let opp = state.players[1].active.as_ref().unwrap();
        let own = state.players[0].active.as_ref().unwrap();
        if opp.cant_attack_next_turn {
            any_blocked = true;
            assert!(!own.cant_attack_next_turn, "own should not have cant_attack set");
        }
    }
    assert!(any_blocked, "Expected at least one heads in 200 trials");
}

#[test]
fn coin_flip_self_cant_attack_next_turn_sets_flag_on_self() {
    let mut any_blocked = false;
    for seed in 0..200u64 {
        let (mut state, ctx) = (GameState::new(seed), EffectContext::new(0));
        state.players[0].active = Some(PokemonSlot::new(0, 100));
        state.players[1].active = Some(PokemonSlot::new(1, 100));
        coin_flip_self_cant_attack_next_turn(&mut state, &ctx);
        let own = state.players[0].active.as_ref().unwrap();
        let opp = state.players[1].active.as_ref().unwrap();
        if own.cant_attack_next_turn {
            any_blocked = true;
            assert!(!opp.cant_attack_next_turn, "opponent should not have cant_attack set");
        }
    }
    assert!(any_blocked, "Expected at least one heads in 200 trials");
}

#[test]
fn self_block_coin_blocks_only_on_heads() {
    let (mut state, ctx) = make_state_with_two_active();
    self_block_on_flip_result(&mut state, &ctx, false);
    assert!(!state.players[0].active.as_ref().unwrap().cant_attack_next_turn);
    assert!(!state.players[0].active.as_ref().unwrap().cant_attack_next_turn_incoming);
    self_block_on_flip_result(&mut state, &ctx, true);
    let s = state.players[0].active.as_ref().unwrap();
    assert!(s.cant_attack_next_turn || s.cant_attack_next_turn_incoming);
    let o = state.players[1].active.as_ref().unwrap();
    assert!(!o.cant_attack_next_turn && !o.cant_attack_next_turn_incoming);
}
