use ptcgp::effects::misc_handlers::{
    big_malasada, cant_retreat_next_turn, discard_random_card_on_flip, prevent_damage_on_flip, shuffle_opponent_card_on_flip,
    shuffle_opponent_cards_for_heads, full_heal, hp_bonus, may_swap_pokemon, opponent_no_supporter_next_turn, potion_heal,
    reduce_retreat_cost, self_attack_buff_next_turn, take_less_damage_next_turn, take_more_damage_next_turn,
};
use ptcgp::card::{Card, CardDb};
use ptcgp::effects::EffectContext;
use ptcgp::types::{CardKind, Element, Stage};
use ptcgp::state::{GameState, PokemonSlot};


fn make_state() -> GameState {
    let mut state = GameState::new(42);
    // Place a basic Pokémon in each player's active slot.
    state.players[0].active = Some(PokemonSlot::new(0, 100));
    state.players[1].active = Some(PokemonSlot::new(0, 100));
    state
}

fn make_ctx(acting_player: usize) -> EffectContext {
    EffectContext::new(acting_player)
}

// ---- cant_retreat_next_turn ----

#[test]
fn test_cant_retreat_sets_flag_on_opponent() {
    let mut state = make_state();
    let ctx = make_ctx(0);

    // Before: flag is false
    assert!(!state.players[1].active.as_ref().unwrap().cant_retreat_next_turn_incoming);

    cant_retreat_next_turn(&mut state, &ctx);

    // After: flag is true on opponent (player 1) — written to _incoming for promotion
    assert!(state.players[1].active.as_ref().unwrap().cant_retreat_next_turn_incoming);
    // Acting player's flag is untouched
    assert!(!state.players[0].active.as_ref().unwrap().cant_retreat_next_turn_incoming);
}

#[test]
fn test_cant_retreat_player1_acting() {
    let mut state = make_state();
    let ctx = make_ctx(1);
    cant_retreat_next_turn(&mut state, &ctx);
    // Player 1 is acting, so player 0 is the opponent
    assert!(state.players[0].active.as_ref().unwrap().cant_retreat_next_turn_incoming);
    assert!(!state.players[1].active.as_ref().unwrap().cant_retreat_next_turn_incoming);
}

// ---- full_heal ----

#[test]
fn test_full_heal_clears_all_status_bits() {
    let mut state = make_state();
    let ctx = make_ctx(0);

    // Set a non-zero status on the acting player's active
    state.players[0].active.as_mut().unwrap().status = 0b1111_1111;

    full_heal(&mut state, &ctx);

    assert_eq!(state.players[0].active.as_ref().unwrap().status, 0);
    // Opponent's status should be untouched
    assert_eq!(state.players[1].active.as_ref().unwrap().status, 0);
}

#[test]
fn test_full_heal_no_panic_if_no_active() {
    let mut state = GameState::new(1);
    let ctx = make_ctx(0);
    // No active Pokémon — should not panic
    full_heal(&mut state, &ctx);
}

// ---- potion_heal ----

#[test]
fn test_potion_heal_restores_hp() {
    let mut state = make_state();
    let ctx = make_ctx(0);
    state.players[0].active.as_mut().unwrap().current_hp = 60;

    potion_heal(&mut state, 30, &ctx);

    assert_eq!(state.players[0].active.as_ref().unwrap().current_hp, 90);
}

#[test]
fn test_potion_heal_does_not_exceed_max_hp() {
    let mut state = make_state();
    let ctx = make_ctx(0);
    // Already at max
    potion_heal(&mut state, 50, &ctx);
    assert_eq!(state.players[0].active.as_ref().unwrap().current_hp, 100);
}

// ---- self_attack_buff_next_turn ----

#[test]
fn test_self_attack_buff_next_turn_sets_field() {
    let mut state = make_state();
    let ctx = make_ctx(0);
    self_attack_buff_next_turn(&mut state, 20, &ctx);
    assert_eq!(
        state.players[0].active.as_ref().unwrap().attack_bonus_next_turn_self_incoming,
        20
    );
}

// ---- take_less_damage_next_turn ----

#[test]
fn test_take_less_damage_stores_reduction() {
    let mut state = make_state();
    let ctx = make_ctx(0);
    take_less_damage_next_turn(&mut state, 30, &ctx);
    assert_eq!(
        state.players[0].active.as_ref().unwrap().incoming_damage_reduction_incoming,
        30
    );
}

// ---- take_more_damage_next_turn ----

#[test]
fn test_take_more_damage_stores_negative_reduction() {
    let mut state = make_state();
    let ctx = make_ctx(0);
    take_more_damage_next_turn(&mut state, 30, &ctx);
    assert_eq!(
        state.players[0].active.as_ref().unwrap().incoming_damage_reduction_incoming,
        -30
    );
}

// ---- opponent_no_supporter_next_turn ----

#[test]
fn test_opponent_no_supporter_sets_flag() {
    let mut state = make_state();
    let ctx = make_ctx(0);
    assert!(!state.players[1].cant_play_supporter_incoming);
    opponent_no_supporter_next_turn(&mut state, &ctx);
    assert!(state.players[1].cant_play_supporter_incoming);
    assert!(!state.players[0].cant_play_supporter_incoming);
}

// ---- reduce_retreat_cost ----

#[test]
fn test_reduce_retreat_cost_lowers_modifier() {
    let mut state = make_state();
    let ctx = make_ctx(0);
    assert_eq!(state.players[0].retreat_cost_modifier, 0);
    reduce_retreat_cost(&mut state, 1, &ctx);
    assert_eq!(state.players[0].retreat_cost_modifier, -1);
}

// ---- big_malasada ----

#[test]
fn test_big_malasada_heals_and_cures() {
    let mut state = make_state();
    let ctx = make_ctx(0);
    state.players[0].active.as_mut().unwrap().current_hp = 70;
    state.players[0].active.as_mut().unwrap().status = 0b0000_0011;

    big_malasada(&mut state, &ctx);

    let active = state.players[0].active.as_ref().unwrap();
    assert_eq!(active.current_hp, 90);
    assert_eq!(active.status, 0);
}

// ---- hp_bonus ----

#[test]
fn test_hp_bonus_increases_max_and_current_hp() {
    let mut state = make_state();
    // Default: no target_slot in extra => acts on acting player's active
    let ctx = make_ctx(0);

    hp_bonus(&mut state, 20, &ctx);

    let active = state.players[0].active.as_ref().unwrap();
    assert_eq!(active.max_hp, 120);
    assert_eq!(active.current_hp, 120);
}

fn swap_card(idx: u16, kind: CardKind) -> Card {
    Card {
        id: format!("s-{}", idx),
        idx,
        name: format!("Card{}", idx),
        kind,
        stage: if kind == CardKind::Pokemon { Some(Stage::Basic) } else { None },
        element: Some(Element::Water),
        hp: 60,
        weakness: None,
        retreat_cost: 1,
        is_ex: false,
        is_mega_ex: false,
        evolves_from: None,
        attacks: vec![],
        ability: None,
        trainer_effect_text: String::new(),
        trainer_handler: String::new(),
        trainer_effects: vec![],
        trainer_legal_conditions: vec![],
        ko_points: 1,
    }
}

#[test]
fn swapping_pokemon_keeps_hand_and_deck_sizes() {
    let mut db = CardDb::new_empty();
    db.cards.push(swap_card(0, CardKind::Pokemon));
    db.cards.push(swap_card(1, CardKind::Item));
    db.cards.push(swap_card(2, CardKind::Pokemon));
    let mut state = make_state();
    state.players[0].hand = vec![1, 1];
    state.players[0].deck = vec![0, 1, 2, 1];
    may_swap_pokemon(&mut state, &db, &make_ctx(0), 2);
    assert_eq!(state.players[0].hand.len(), 2);
    assert_eq!(state.players[0].deck.len(), 4);
    let mut all: Vec<u16> = state.players[0].hand.iter().chain(state.players[0].deck.iter()).copied().collect();
    all.sort();
    assert_eq!(all, vec![0, 1, 1, 1, 1, 2]);
}

#[test]
fn shield_coin_protects_only_on_heads() {
    let mut state = make_state();
    prevent_damage_on_flip(&mut state, &make_ctx(0), false);
    assert!(!state.players[0].active.as_ref().unwrap().prevent_damage_next_turn_incoming);
    prevent_damage_on_flip(&mut state, &make_ctx(0), true);
    assert!(state.players[0].active.as_ref().unwrap().prevent_damage_next_turn_incoming);
    assert!(!state.players[1].active.as_ref().unwrap().prevent_damage_next_turn_incoming);
}

#[test]
fn discard_coin_discards_one_opponent_card_on_heads() {
    let mut state = make_state();
    state.players[1].hand = vec![4, 5, 6];
    discard_random_card_on_flip(&mut state, &make_ctx(0), false);
    assert_eq!(state.players[1].hand.len(), 3);
    discard_random_card_on_flip(&mut state, &make_ctx(0), true);
    assert_eq!(state.players[1].hand.len(), 2);
    assert_eq!(state.players[1].discard.len(), 1);
    let mut all: Vec<u16> = state.players[1].hand.iter().chain(state.players[1].discard.iter()).copied().collect();
    all.sort();
    assert_eq!(all, vec![4, 5, 6]);
}

#[test]
fn shuffle_coins_send_one_card_per_heads_to_the_deck() {
    let mut state = make_state();
    state.players[1].hand = vec![4, 5, 6];
    state.players[1].deck = vec![9];
    shuffle_opponent_card_on_flip(&mut state, &make_ctx(0), true);
    assert_eq!(state.players[1].hand.len(), 2);
    assert_eq!(state.players[1].deck.len(), 2);
    shuffle_opponent_cards_for_heads(&mut state, 0, &make_ctx(0));
    assert_eq!(state.players[1].hand.len(), 2);
    shuffle_opponent_cards_for_heads(&mut state, 5, &make_ctx(0));
    assert_eq!(state.players[1].hand.len(), 0);
    let mut deck = state.players[1].deck.clone();
    deck.sort();
    assert_eq!(deck, vec![4, 5, 6, 9]);
}
