use ptcgp::card::{Card, CardDb};
use ptcgp::effects::draw_handlers::{
    discard_random_card_opponent, draw_cards, iono_hand_shuffle, mars_hand_shuffle, search_deck_named, shuffle_hand_into_deck,
};
use ptcgp::types::{CardKind, Element, Stage};
use ptcgp::effects::EffectContext;
use ptcgp::state::GameState;


fn make_state_with_deck(seed: u64, deck_size: u16) -> GameState {
    let mut state = GameState::new(seed);
    // Fill player 0's deck with card indices 0..deck_size
    state.players[0].deck = (0..deck_size).collect();
    state
}

#[test]
fn draw_cards_moves_from_deck_to_hand() {
    let mut state = make_state_with_deck(1, 10);
    let ctx = EffectContext::new(0);
    assert_eq!(state.players[0].hand.len(), 0);
    assert_eq!(state.players[0].deck.len(), 10);

    draw_cards(&mut state, 3, &ctx);

    assert_eq!(state.players[0].hand.len(), 3);
    assert_eq!(state.players[0].deck.len(), 7);
}

#[test]
fn draw_cards_does_not_panic_on_empty_deck() {
    let mut state = GameState::new(42);
    let ctx = EffectContext::new(0);
    // deck is empty — should silently skip
    draw_cards(&mut state, 5, &ctx);
    assert_eq!(state.players[0].hand.len(), 0);
}

#[test]
fn shuffle_hand_into_deck_empties_hand_and_grows_deck() {
    let mut state = make_state_with_deck(2, 5);
    state.players[0].hand = vec![10, 11, 12];
    let ctx = EffectContext::new(0);

    shuffle_hand_into_deck(&mut state, &ctx);

    assert_eq!(state.players[0].hand.len(), 0);
    assert_eq!(state.players[0].deck.len(), 8); // 5 from before + 3 from hand
}

#[test]
fn iono_each_player_draws_own_hand_size() {
    let mut state = GameState::new(3);
    // Player 0 has 3 cards in hand, player 1 has 5 cards in hand
    state.players[0].hand = vec![1, 2, 3];
    state.players[1].hand = vec![4, 5, 6, 7, 8];
    // Give each player a deck to draw from
    state.players[0].deck = (10..20).collect();
    state.players[1].deck = (20..30).collect();

    let ctx = EffectContext::new(0); // player 0 plays Iono

    iono_hand_shuffle(&mut state, &ctx);

    // Each player draws cards equal to their OWN pre-shuffle hand size.
    // Player 0 had 3 in hand, draws 3.
    assert_eq!(state.players[0].hand.len(), 3);
    // Player 1 had 5 in hand, draws 5.
    assert_eq!(state.players[1].hand.len(), 5);
}

#[test]
fn discard_random_card_opponent_reduces_opponent_hand() {
    let mut state = GameState::new(4);
    state.players[1].hand = vec![10, 11, 12];
    let ctx = EffectContext::new(0);

    discard_random_card_opponent(&mut state, &ctx);

    assert_eq!(state.players[1].hand.len(), 2);
    assert_eq!(state.players[1].discard.len(), 1);
}

/// Bulbasaur and its evolutions at indices 0 to 2, written out here rather
/// than read from the card files.
fn apex_db() -> CardDb {
    let mut db = CardDb::new_empty();
    for (i, (id, name, stage)) in [("a1-001", "Bulbasaur", Stage::Basic), ("a1-002", "Ivysaur", Stage::Stage1), ("a1-004", "Venusaur ex", Stage::Stage2)]
        .into_iter()
        .enumerate()
    {
        db.cards.push(Card {
            id: id.to_string(),
            idx: i as u16,
            name: name.to_string(),
            kind: CardKind::Pokemon,
            stage: Some(stage),
            element: Some(Element::Grass),
            hp: 70,
            weakness: Some(Element::Fire),
            retreat_cost: 1,
            is_ex: false,
            is_mega_ex: false,
            evolves_from: None,
            attacks: vec![],
            ability: None,
            trainer_effect_text: String::new(),
            trainer_handler: String::new(),
            trainer_effects: vec![],
            trainer_legal_conditions: vec![],
            ko_points: 1,
        });
        db.id_to_idx.insert(id.to_string(), i as u16);
    }
    db
}

#[test]
fn search_deck_named_finds_correct_card() {
    let db = apex_db();
    let idx = db.get_idx_by_id("a1-001").unwrap();

    let mut state = GameState::new(7);
    state.players[0].deck = vec![idx, idx + 1, idx + 2];
    let ctx = EffectContext::new(0);

    search_deck_named(&mut state, &db, "Bulbasaur", &ctx);

    assert!(state.players[0].hand.contains(&idx));
    assert_eq!(state.players[0].deck.len(), 2);
}

#[test]
fn mars_refills_to_the_missing_points_or_what_is_left() {
    let mut state = GameState::new(5);
    state.players[1].points = 1;
    state.players[1].hand = vec![1, 2, 3, 4, 5];
    mars_hand_shuffle(&mut state, &EffectContext::new(0));
    assert_eq!(state.players[1].hand.len(), 2);
    assert_eq!(state.players[1].deck.len(), 3);
    let mut all: Vec<u16> = state.players[1].hand.iter().chain(state.players[1].deck.iter()).copied().collect();
    all.sort();
    assert_eq!(all, vec![1, 2, 3, 4, 5]);
    assert_eq!(state.players[1].points, 1);
    assert!(state.players[0].hand.is_empty() && state.players[0].deck.is_empty());

    let mut short = GameState::new(6);
    short.players[1].hand = vec![7];
    mars_hand_shuffle(&mut short, &EffectContext::new(0));
    assert_eq!(short.players[1].hand.len(), 1);
    assert_eq!(short.players[1].deck.len(), 0);
}

#[test]
fn a_fresh_game_starts_with_every_counter_cleared() {
    let s = GameState::new(9);
    for p in &s.players {
        assert_eq!(p.energy_discard, [0u8; 8]);
        assert_eq!(p.extra_poison_damage, 0);
        assert_eq!(p.attack_damage_bonus, 0);
        assert!(p.attack_damage_bonus_names.is_empty());
        assert!(p.energy_types.is_empty());
        assert!(p.energy_available.is_none());
    }
}
