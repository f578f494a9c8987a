use ptcgp::card::{Card, CardDb};
use ptcgp::effects::dispatch::compute_damage_modifier;
use ptcgp::effects::{EffectContext, EffectKind};
use ptcgp::state::{GameState, PokemonSlot};
use ptcgp::types::{CardKind, Element, Stage};


fn make_card(idx: u16, name: &str, element: Option<Element>) -> Card {
    Card {
        id: format!("test-{}", idx),
        idx,
        name: name.to_string(),
        kind: CardKind::Pokemon,
        stage: Some(Stage::Basic),
        element,
        hp: 100,
        weakness: None,
        retreat_cost: 1,
        is_ex: false,
        is_mega_ex: false,
        evolves_from: None,
        attacks: vec![],
        ability: None,
        trainer_effect_text: String::new(),
        trainer_handler: String::new(),
        trainer_effects: vec![],
        trainer_legal_conditions: vec![],
        ko_points: 1,
    }
}

fn make_db(cards: Vec<Card>) -> CardDb {
    let mut db = CardDb::new_empty();
    for c in cards {
        let idx = c.idx;
        db.id_to_idx.insert(c.id.clone(), idx);
        db.name_to_indices.entry(c.name.clone())
            .or_insert_with(Vec::new).push(idx);
        db.cards.push(c);
    }
    db
}

/// Pikachu ex Circle Circuit: 30 damage per Lightning bench Pokémon.
#[test]
fn pikachu_ex_circle_circuit_bonus_per_bench_element() {
    let pikachu = make_card(0, "Pikachu ex", Some(Element::Lightning));
    let raichu  = make_card(1, "Raichu",     Some(Element::Lightning));
    let other   = make_card(2, "Bulbasaur",  Some(Element::Grass));
    let db = make_db(vec![pikachu, raichu, other]);

    let mut state = GameState::new(0);
    // Active = Pikachu ex
    state.players[0].active = Some(PokemonSlot::new(0, 70));
    // Bench = 2 Lightning + 1 Grass
    state.players[0].bench[0] = Some(PokemonSlot::new(1, 90));
    state.players[0].bench[1] = Some(PokemonSlot::new(1, 90));
    state.players[0].bench[2] = Some(PokemonSlot::new(2, 70));
    // Opponent active dummy
    state.players[1].active = Some(PokemonSlot::new(2, 70));

    let ctx = EffectContext::new(0);
    let effects = vec![EffectKind::BonusPerBenchElement {
        per: 30,
        element: "Lightning".to_string(),
    }];
    let (final_damage, _, _) = compute_damage_modifier(&mut state, &db, 0, &effects, &ctx);
    // 2 Lightning bench × 30 = 60
    assert_eq!(final_damage, 60);
}

/// Alakazam Psychic: +20 damage per energy on opponent's active.
#[test]
fn alakazam_psychic_bonus_per_opponent_energy() {
    let alakazam = make_card(0, "Alakazam", Some(Element::Psychic));
    let mewtwo   = make_card(1, "Mewtwo",   Some(Element::Psychic));
    let db = make_db(vec![alakazam, mewtwo]);

    let mut state = GameState::new(0);
    state.players[0].active = Some(PokemonSlot::new(0, 100));
    let mut opp = PokemonSlot::new(1, 100);
    opp.add_energy(Element::Psychic, 2);
    opp.add_energy(Element::Water, 1);
    state.players[1].active = Some(opp);

    let ctx = EffectContext::new(0);
    let effects = vec![EffectKind::BonusPerOpponentEnergy { per: 20 }];
    let base = 60;
    let (final_damage, _, _) = compute_damage_modifier(&mut state, &db, base, &effects, &ctx);
    // base 60 + 3 energies × 20 = 60 + 60 = 120
    assert_eq!(final_damage, 120);
}

/// Marowak ex Bonemerang: 80 damage per heads on 2 coin flips.
/// With deterministic seed we just check it's one of the valid outcomes (0/80/160).
#[test]
fn marowak_ex_bonemerang_multi_coin_damage() {
    let marowak = make_card(0, "Marowak ex", Some(Element::Fighting));
    let dummy   = make_card(1, "Dummy",      Some(Element::Grass));
    let db = make_db(vec![marowak, dummy]);

    let mut state = GameState::new(123); // fixed seed
    state.players[0].active = Some(PokemonSlot::new(0, 100));
    state.players[1].active = Some(PokemonSlot::new(1, 100));

    let ctx = EffectContext::new(0);
    let effects = vec![EffectKind::MultiCoinDamage { count: 2, per: 80 }];
    let (final_damage, _, _) = compute_damage_modifier(&mut state, &db, 0, &effects, &ctx);
    assert!(
        final_damage == 0 || final_damage == 80 || final_damage == 160,
        "expected 0/80/160 — got {}", final_damage
    );

    // Sample many flips: average should be ~80 (1 head expected on 2 flips × 80).
    let mut total: i64 = 0;
    let trials = 2000;
    for seed in 0..trials {
        let mut s = GameState::new(seed);
        s.players[0].active = Some(PokemonSlot::new(0, 100));
        s.players[1].active = Some(PokemonSlot::new(1, 100));
        let (d, _, _) = compute_damage_modifier(&mut s, &db, 0, &effects, &ctx);
        total += d as i64;
    }
    let avg = total as f64 / trials as f64;
    // Expected = 80; allow loose tolerance.
    assert!(avg > 60.0 && avg < 100.0, "avg = {}", avg);
}
