use ptcgp::actions::SlotRef;
use ptcgp::card::{Card, CardDb};
use ptcgp::effects::energy_handlers::{
    attach_colorless_energy_zone_bench, attach_energy_zone_self, attach_n_energy_zone_bench, attach_water_two_bench,
    coin_flip_until_tails_attach_energy, coin_flip_until_tails_discard_energy, discard_all_energy_self,
    discard_all_typed_energy_self, discard_energy_self, discard_n_energy_self, discard_random_energy_both_active,
    discard_random_energy_opponent, discard_random_energy_opponent_on_flip, discard_top_deck, move_all_electric_to_active_named, move_bench_energy_to_active,
};
use ptcgp::effects::EffectContext;
use ptcgp::state::{GameState, PokemonSlot};
use ptcgp::types::{CardKind, Element, Stage};


fn make_state() -> GameState {
    let mut state = GameState::new(42);
    state.players[0].active = Some(PokemonSlot::new(0, 100));
    state.players[1].active = Some(PokemonSlot::new(1, 100));
    state
}

fn ctx(acting: usize) -> EffectContext {
    EffectContext::new(acting)
}

fn ctx_with_source(acting: usize, src: SlotRef) -> EffectContext {
    EffectContext::new(acting).with_source(src)
}

// ---- attach tests ----

#[test]
fn attach_energy_zone_self_adds_energy() {
    let mut state = make_state();
    let ctx = ctx_with_source(0, SlotRef::active(0));
    let before: u8 = state.players[0].active.as_ref().unwrap().total_energy();
    attach_energy_zone_self(&mut state, &ctx, Element::Fire, 2);
    let after: u8 = state.players[0].active.as_ref().unwrap().total_energy();
    assert_eq!(after, before + 2);
    assert_eq!(
        state.players[0].active.as_ref().unwrap().energy[Element::Fire as usize],
        2
    );
}

#[test]
fn attach_energy_zone_self_defaults_to_active_when_no_source_ref() {
    let mut state = make_state();
    let ctx = ctx(0); // no source_ref
    attach_energy_zone_self(&mut state, &ctx, Element::Water, 1);
    assert_eq!(
        state.players[0].active.as_ref().unwrap().energy[Element::Water as usize],
        1
    );
}

#[test]
fn attach_n_energy_zone_bench_adds_energy_to_bench() {
    let mut state = make_state();
    state.players[0].bench[0] = Some(PokemonSlot::new(10, 60));
    let ctx = ctx(0);
    // No CardDb available in tests — use no target_ref so we pick first occupied bench
    attach_n_energy_zone_bench(
        &mut state,
        &CardDb::new_empty(),
        &ctx,
        Element::Lightning,
        3,
    );
    assert_eq!(
        state.players[0].bench[0]
            .as_ref()
            .unwrap()
            .energy[Element::Lightning as usize],
        3
    );
}

// ---- discard tests ----

#[test]
fn discard_energy_self_removes_exactly_one() {
    let mut state = make_state();
    if let Some(slot) = state.players[0].active.as_mut() {
        slot.energy[Element::Fire as usize] = 2;
    }
    let ctx = ctx_with_source(0, SlotRef::active(0));
    discard_energy_self(&mut state, &ctx, Element::Fire);
    assert_eq!(
        state.players[0].active.as_ref().unwrap().energy[Element::Fire as usize],
        1
    );
    assert_eq!(state.players[0].active.as_ref().unwrap().total_energy(), 1);
}

#[test]
fn discard_energy_self_noop_when_no_energy() {
    let mut state = make_state();
    let ctx = ctx_with_source(0, SlotRef::active(0));
    discard_energy_self(&mut state, &ctx, Element::Fire); // slot has 0 Fire
    assert_eq!(state.players[0].active.as_ref().unwrap().total_energy(), 0);
}

#[test]
fn discard_n_energy_self_removes_n() {
    let mut state = make_state();
    if let Some(slot) = state.players[0].active.as_mut() {
        slot.energy[Element::Water as usize] = 5;
    }
    let ctx = ctx_with_source(0, SlotRef::active(0));
    discard_n_energy_self(&mut state, &ctx, Element::Water, 3);
    assert_eq!(
        state.players[0].active.as_ref().unwrap().energy[Element::Water as usize],
        2
    );
}

#[test]
fn discard_all_energy_self_zeroes_all() {
    let mut state = make_state();
    if let Some(slot) = state.players[0].active.as_mut() {
        slot.energy[Element::Fire as usize] = 2;
        slot.energy[Element::Water as usize] = 1;
    }
    let ctx = ctx_with_source(0, SlotRef::active(0));
    discard_all_energy_self(&mut state, &ctx);
    assert_eq!(state.players[0].active.as_ref().unwrap().total_energy(), 0);
}

#[test]
fn discard_all_typed_energy_self_only_removes_that_type() {
    let mut state = make_state();
    if let Some(slot) = state.players[0].active.as_mut() {
        slot.energy[Element::Fire as usize] = 3;
        slot.energy[Element::Water as usize] = 2;
    }
    let ctx = ctx_with_source(0, SlotRef::active(0));
    discard_all_typed_energy_self(&mut state, &ctx, Element::Fire);
    let slot = state.players[0].active.as_ref().unwrap();
    assert_eq!(slot.energy[Element::Fire as usize], 0);
    assert_eq!(slot.energy[Element::Water as usize], 2);
}

#[test]
fn discard_random_energy_opponent_removes_exactly_one() {
    let mut state = make_state();
    if let Some(slot) = state.players[1].active.as_mut() {
        slot.energy[Element::Psychic as usize] = 3;
    }
    let ctx = ctx(0); // acting = 0, opponent = 1
    discard_random_energy_opponent(&mut state, &ctx);
    assert_eq!(
        state.players[1].active.as_ref().unwrap().total_energy(),
        2
    );
}

#[test]
fn discard_random_energy_opponent_noop_when_no_energy() {
    let mut state = make_state();
    // opponent active has 0 energy
    let ctx = ctx(0);
    discard_random_energy_opponent(&mut state, &ctx);
    assert_eq!(
        state.players[1].active.as_ref().unwrap().total_energy(),
        0
    );
}

#[test]
fn discard_random_energy_both_active_removes_one_from_each() {
    let mut state = make_state();
    if let Some(slot) = state.players[0].active.as_mut() {
        slot.energy[Element::Fire as usize] = 2;
    }
    if let Some(slot) = state.players[1].active.as_mut() {
        slot.energy[Element::Water as usize] = 2;
    }
    let ctx = ctx(0);
    discard_random_energy_both_active(&mut state, &ctx);
    assert_eq!(
        state.players[0].active.as_ref().unwrap().total_energy(),
        1
    );
    assert_eq!(
        state.players[1].active.as_ref().unwrap().total_energy(),
        1
    );
}

// ---- move tests ----

#[test]
fn move_bench_energy_to_active_moves_one() {
    let mut state = make_state();
    state.players[0].bench[1] = Some(PokemonSlot::new(5, 80));
    if let Some(b) = state.players[0].bench[1].as_mut() {
        b.energy[Element::Lightning as usize] = 2;
    }
    let ctx = ctx(0);
    move_bench_energy_to_active(&mut state, &ctx);
    assert_eq!(
        state.players[0].bench[1]
            .as_ref()
            .unwrap()
            .energy[Element::Lightning as usize],
        1
    );
    assert_eq!(
        state.players[0]
            .active
            .as_ref()
            .unwrap()
            .energy[Element::Lightning as usize],
        1
    );
}

#[test]
fn move_all_electric_to_active_named_moves_all_lightning() {
    let mut state = make_state();
    // Bench slots each get 2 Lightning
    state.players[0].bench[0] = Some(PokemonSlot::new(2, 60));
    state.players[0].bench[1] = Some(PokemonSlot::new(3, 60));
    for i in 0..2 {
        if let Some(b) = state.players[0].bench[i].as_mut() {
            b.energy[Element::Lightning as usize] = 2;
        }
    }
    // Pass empty names => skip name check
    let ctx = ctx(0);
    move_all_electric_to_active_named(
        &mut state,
        &CardDb::new_empty(),
        &ctx,
        &[],
    );
    // Total moved = 4
    assert_eq!(
        state.players[0]
            .active
            .as_ref()
            .unwrap()
            .energy[Element::Lightning as usize],
        4
    );
    for i in 0..2 {
        assert_eq!(
            state.players[0].bench[i]
                .as_ref()
                .unwrap()
                .energy[Element::Lightning as usize],
            0
        );
    }
}

#[test]
fn discard_top_deck_removes_correct_number() {
    let mut state = GameState::new(1);
    // deck Vec uses pop() for draw, so top of deck = LAST element.
    // For deck [1, 2, 3, 4, 5], the top is 5.
    state.players[0].deck = vec![1, 2, 3, 4, 5];
    let ctx = ctx(0);
    discard_top_deck(&mut state, &ctx, 3);
    assert_eq!(state.players[0].deck.len(), 2);
    assert_eq!(state.players[0].discard.len(), 3);
    // Top 3 (5, 4, 3) discarded; bottom 2 (1, 2) remain.
    assert_eq!(state.players[0].deck, vec![1, 2]);
    assert_eq!(state.players[0].discard, vec![3, 4, 5]);
}

#[test]
fn attach_colorless_energy_zone_bench_is_noop() {
    let mut state = make_state();
    state.players[0].bench[0] = Some(PokemonSlot::new(10, 60));
    let ctx = ctx(0);
    attach_colorless_energy_zone_bench(&mut state, &ctx);
    // No energy should have been added
    assert_eq!(
        state.players[0].bench[0].as_ref().unwrap().total_energy(),
        0
    );
}

#[test]
fn coin_flip_until_tails_discard_energy_discards_at_least_sometimes() {
    // Over many seeds, the loop should discard ≥1 energy at least once.
    let mut any_discarded = false;
    for seed in 0..300u64 {
        let mut state = GameState::new(seed); // use distinct seeds
        state.players[0].active = Some(PokemonSlot::new(0, 100));
        state.players[1].active = Some(PokemonSlot::new(1, 100));
        if let Some(slot) = state.players[0].active.as_mut() {
            slot.energy[Element::Fire as usize] = 5;
        }
        let ctx = ctx_with_source(0, SlotRef::active(0));
        coin_flip_until_tails_discard_energy(&mut state, &ctx, Element::Fire);
        let remaining = state.players[0].active.as_ref().unwrap().energy[Element::Fire as usize];
        if remaining < 5 {
            any_discarded = true;
            break;
        }
    }
    assert!(any_discarded, "Expected at least one energy discard in 300 trials");
}

// ---- Misty / coin_flip_until_tails_attach_energy element-filter tests ----

fn make_card(idx: u16, name: &str, element: Option<Element>) -> Card {
    Card {
        id: format!("test-{}", idx),
        idx,
        name: name.to_string(),
        kind: CardKind::Pokemon,
        stage: Some(Stage::Basic),
        element,
        hp: 100,
        weakness: None,
        retreat_cost: 1,
        is_ex: false,
        is_mega_ex: false,
        evolves_from: None,
        attacks: vec![],
        ability: None,
        trainer_effect_text: String::new(),
        trainer_handler: String::new(),
        trainer_effects: vec![],
        trainer_legal_conditions: vec![],
        ko_points: 1,
    }
}

fn make_db_with(cards: Vec<Card>) -> CardDb {
    let mut db = CardDb::new_empty();
    for c in cards {
        let idx = c.idx;
        db.id_to_idx.insert(c.id.clone(), idx);
        db.name_to_indices.entry(c.name.clone()).or_insert_with(Vec::new).push(idx);
        db.cards.push(c);
    }
    db
}

#[test]
fn misty_attaches_to_water_target() {
    // Build a DB with a Water Pokémon at idx=0.
    let db = make_db_with(vec![make_card(0, "Squirtle", Some(Element::Water))]);
    // Find a seed where Misty produces at least 1 head.
    for seed in 0..200u64 {
        let mut state = GameState::new(seed);
        state.players[0].active = Some(PokemonSlot::new(0, 100));
        let ctx = EffectContext::new(0)
            .with_target(SlotRef::active(0));
        coin_flip_until_tails_attach_energy(&mut state, &db, &ctx, Element::Water);
        let attached = state.players[0]
            .active.as_ref().unwrap()
            .energy[Element::Water as usize];
        if attached > 0 {
            // Found a seed with heads — attach went through to Water target.
            return;
        }
    }
    panic!("Expected at least one Water-target attach in 200 seeds");
}

#[test]
fn misty_does_not_attach_to_non_water_target() {
    // Target is a Fire Pokémon — Water energy attach must be skipped
    // even when heads are flipped.
    let db = make_db_with(vec![make_card(0, "Charmander", Some(Element::Fire))]);
    for seed in 0..200u64 {
        let mut state = GameState::new(seed);
        state.players[0].active = Some(PokemonSlot::new(0, 100));
        let ctx = EffectContext::new(0)
            .with_target(SlotRef::active(0));
        coin_flip_until_tails_attach_energy(&mut state, &db, &ctx, Element::Water);
        // Regardless of the heads count, NO water energy should land on a Fire target.
        let attached = state.players[0]
            .active.as_ref().unwrap()
            .energy[Element::Water as usize];
        assert_eq!(
            attached, 0,
            "Misty Water energy should not attach to a Fire target (seed={})", seed
        );
    }
}

#[test]
fn attach_water_two_bench_honors_player_chosen_targets() {
    // Player picks bench[0] and bench[2] explicitly (skipping bench[1]).
    let mut state = GameState::new(123);
    state.players[0].bench[0] = Some(PokemonSlot::new(0, 100));
    state.players[0].bench[1] = Some(PokemonSlot::new(0, 100));
    state.players[0].bench[2] = Some(PokemonSlot::new(0, 100));
    let ctx = EffectContext::new(0)
        .with_target(SlotRef::bench(0, 0))
        .with_extra_target(SlotRef::bench(0, 2));
    attach_water_two_bench(&mut state, &ctx);
    // bench[0] and bench[2] each got 1 Water energy; bench[1] untouched.
    assert_eq!(state.players[0].bench[0].as_ref().unwrap().energy[Element::Water as usize], 1);
    assert_eq!(state.players[0].bench[1].as_ref().unwrap().energy[Element::Water as usize], 0);
    assert_eq!(state.players[0].bench[2].as_ref().unwrap().energy[Element::Water as usize], 1);
}

#[test]
fn attach_water_two_bench_skips_invalid_target_and_uses_only_valid_one() {
    // Only one bench slot is occupied; supplied second target points to
    // an empty bench slot. Handler should attach only to the valid one.
    let mut state = GameState::new(456);
    state.players[0].bench[1] = Some(PokemonSlot::new(0, 100));
    let ctx = EffectContext::new(0)
        .with_target(SlotRef::bench(0, 1))
        .with_extra_target(SlotRef::bench(0, 0)); // empty
    attach_water_two_bench(&mut state, &ctx);
    // bench[1] still gets its energy; nothing else mutated.
    assert_eq!(state.players[0].bench[1].as_ref().unwrap().energy[Element::Water as usize], 1);
    assert!(state.players[0].bench[0].is_none());
    assert!(state.players[0].bench[2].is_none());
}

#[test]
fn coin_flip_until_tails_discard_energy_never_goes_negative() {
    // Give only 2 energy; even if all coins are heads the energy can't go below 0.
    let mut state = GameState::new(12345);
    state.players[0].active = Some(PokemonSlot::new(0, 100));
    if let Some(slot) = state.players[0].active.as_mut() {
        slot.energy[Element::Fire as usize] = 2;
    }
    let ctx = ctx_with_source(0, SlotRef::active(0));
    coin_flip_until_tails_discard_energy(&mut state, &ctx, Element::Fire);
    let remaining = state.players[0].active.as_ref().unwrap().energy[Element::Fire as usize];
    assert!(remaining <= 2, "Energy should not exceed starting amount");
    // energy is always >= 0 by type (u8)
}

#[test]
fn energy_coin_discards_one_opponent_energy_on_heads() {
    let mut state = make_state();
    let mut slot = PokemonSlot::new(0, 100);
    slot.add_energy(Element::Fire, 2);
    state.players[1].active = Some(slot);
    let ctx = EffectContext::new(0);
    discard_random_energy_opponent_on_flip(&mut state, &ctx, false);
    assert_eq!(state.players[1].active.as_ref().unwrap().total_energy(), 2);
    discard_random_energy_opponent_on_flip(&mut state, &ctx, true);
    assert_eq!(state.players[1].active.as_ref().unwrap().total_energy(), 1);
    assert_eq!(state.players[1].energy_discard[Element::Fire.idx()], 1);
}
