use ptcgp::card::{Card, CardDb};
use ptcgp::effects::legality::{enumerate_legal_actions, parse_legal_array, BaseAction, LegalCondition};
use ptcgp::state::{GameState, PokemonSlot};
use ptcgp::types::{CardKind, Element, GamePhase, Stage};


fn make_card(idx: u16, name: &str, element: Option<Element>, stage: Option<Stage>) -> Card {
    Card {
        id: format!("test-{}", idx),
        idx,
        name: name.to_string(),
        kind: CardKind::Pokemon,
        stage,
        element,
        hp: 100,
        weakness: None,
        retreat_cost: 1,
        is_ex: false,
        is_mega_ex: false,
        evolves_from: None,
        attacks: vec![],
        ability: None,
        trainer_effect_text: String::new(),
        trainer_handler: String::new(),
        trainer_effects: vec![],
        trainer_legal_conditions: vec![],
        ko_points: 1,
    }
}

fn db_with(cards: Vec<Card>) -> CardDb {
    let mut db = CardDb::new_empty();
    for c in cards {
        let idx = c.idx;
        db.id_to_idx.insert(c.id.clone(), idx);
        db.name_to_indices.entry(c.name.clone()).or_insert_with(Vec::new).push(idx);
        db.cards.push(c);
    }
    db
}

fn empty_state() -> GameState {
    let mut s = GameState::new(0);
    s.phase = GamePhase::Main;
    s
}

#[test]
fn parse_simple_legal_array() {
    let conds = parse_legal_array(&["own_bench_at_least(count=2)".to_string()]);
    assert_eq!(conds, vec![LegalCondition::OwnBenchAtLeast { count: 2 }]);
}

#[test]
fn parse_named_list() {
    let conds = parse_legal_array(&["active_is_named(names=Mew ex)".to_string()]);
    assert_eq!(
        conds,
        vec![LegalCondition::ActiveIsNamed { names: vec!["Mew ex".to_string()] }]
    );
}

#[test]
fn parse_three_condition_array() {
    let conds = parse_legal_array(&[
        "opp_points_at_least(count=1)".to_string(),
        "own_in_play_subtype(subtype=Ultra Beast)".to_string(),
        "own_energy_discard_at_least(count=2)".to_string(),
    ]);
    assert_eq!(conds.len(), 3);
}

#[test]
fn parse_unknown_skipped() {
    let conds = parse_legal_array(&["foo_bar(x=1)".to_string()]);
    assert!(conds.is_empty());
}

#[test]
fn opp_bench_at_least_empty_fails() {
    let pikachu = make_card(0, "Pikachu", Some(Element::Lightning), Some(Stage::Basic));
    let db = db_with(vec![pikachu]);
    let mut s = empty_state();
    s.players[0].active = Some(PokemonSlot::new(0, 100));
    s.players[1].active = Some(PokemonSlot::new(0, 100));
    let conds = vec![LegalCondition::OppBenchAtLeast { count: 1 }];
    let out = enumerate_legal_actions(&conds, &s, &db, 0, BaseAction::PlayItem { hand_index: 0 });
    assert!(out.is_empty(), "Sabrina-style precondition should reject empty opp bench");
}

#[test]
fn opp_bench_at_least_one_pokemon_passes() {
    let pikachu = make_card(0, "Pikachu", Some(Element::Lightning), Some(Stage::Basic));
    let db = db_with(vec![pikachu]);
    let mut s = empty_state();
    s.players[0].active = Some(PokemonSlot::new(0, 100));
    s.players[1].active = Some(PokemonSlot::new(0, 100));
    s.players[1].bench[0] = Some(PokemonSlot::new(0, 100));
    let conds = vec![LegalCondition::OppBenchAtLeast { count: 1 }];
    let out = enumerate_legal_actions(&conds, &s, &db, 0, BaseAction::PlayItem { hand_index: 0 });
    assert_eq!(out.len(), 1, "Sabrina-style precondition should pass when opp has bench");
}

#[test]
fn dawn_no_bench_energy_fails() {
    let pikachu = make_card(0, "Pikachu", Some(Element::Lightning), Some(Stage::Basic));
    let db = db_with(vec![pikachu]);
    let mut s = empty_state();
    s.players[0].active = Some(PokemonSlot::new(0, 100));
    s.players[0].bench[0] = Some(PokemonSlot::new(0, 100)); // no energy
    let conds = vec![LegalCondition::OwnBenchHasEnergy];
    let out = enumerate_legal_actions(&conds, &s, &db, 0, BaseAction::PlayItem { hand_index: 0 });
    assert!(out.is_empty());
}

#[test]
fn dawn_with_bench_energy_passes() {
    let pikachu = make_card(0, "Pikachu", Some(Element::Lightning), Some(Stage::Basic));
    let db = db_with(vec![pikachu]);
    let mut s = empty_state();
    s.players[0].active = Some(PokemonSlot::new(0, 100));
    let mut bench = PokemonSlot::new(0, 100);
    bench.add_energy(Element::Lightning, 1);
    s.players[0].bench[0] = Some(bench);
    let conds = vec![LegalCondition::OwnBenchHasEnergy];
    let out = enumerate_legal_actions(&conds, &s, &db, 0, BaseAction::PlayItem { hand_index: 0 });
    assert_eq!(out.len(), 1);
}

#[test]
fn x_speed_active_zero_retreat_fails() {
    let mut pikachu = make_card(0, "Pikachu", Some(Element::Lightning), Some(Stage::Basic));
    pikachu.retreat_cost = 0;
    let db = db_with(vec![pikachu]);
    let mut s = empty_state();
    s.players[0].active = Some(PokemonSlot::new(0, 100));
    let conds = vec![LegalCondition::ActiveRetreatCostAtLeast { amount: 1 }];
    let out = enumerate_legal_actions(&conds, &s, &db, 0, BaseAction::PlayItem { hand_index: 0 });
    assert!(out.is_empty());
}

#[test]
fn potion_emits_one_action_per_damaged() {
    let pikachu = make_card(0, "Pikachu", Some(Element::Lightning), Some(Stage::Basic));
    let db = db_with(vec![pikachu]);
    let mut s = empty_state();
    let mut active = PokemonSlot::new(0, 100);
    active.current_hp = 60;
    s.players[0].active = Some(active);
    let mut bench0 = PokemonSlot::new(0, 100); // full HP
    bench0.current_hp = 100;
    s.players[0].bench[0] = Some(bench0);
    let mut bench1 = PokemonSlot::new(0, 100);
    bench1.current_hp = 70;
    s.players[0].bench[1] = Some(bench1);

    let conds = vec![LegalCondition::HealOwnTarget { element: None, stage: None }];
    let out = enumerate_legal_actions(&conds, &s, &db, 0, BaseAction::PlayItem { hand_index: 0 });
    assert_eq!(out.len(), 2, "expected one Action per damaged Pokémon (active + bench1)");
}

#[test]
fn inflatable_boat_only_water_targets() {
    let charmander = make_card(0, "Charmander", Some(Element::Fire), Some(Stage::Basic));
    let squirtle = make_card(1, "Squirtle", Some(Element::Water), Some(Stage::Basic));
    let db = db_with(vec![charmander, squirtle]);
    let mut s = empty_state();
    s.players[0].active = Some(PokemonSlot::new(0, 100));   // Fire active
    s.players[0].bench[0] = Some(PokemonSlot::new(1, 100)); // Water bench

    let conds = vec![LegalCondition::ToolTarget { element: Some(Element::Water) }];
    let out = enumerate_legal_actions(&conds, &s, &db, 0, BaseAction::AttachTool { hand_index: 0 });
    assert_eq!(out.len(), 1, "Inflatable Boat should only attach to Water Pokémon");
}

#[test]
fn lusamine_three_conditions_all_must_pass() {
    let nihilego = make_card(0, "Nihilego", Some(Element::Darkness), Some(Stage::Basic));
    let db = db_with(vec![nihilego]);
    let mut s = empty_state();
    s.players[0].active = Some(PokemonSlot::new(0, 100));

    let conds = vec![
        LegalCondition::OppPointsAtLeast { count: 1 },
        LegalCondition::OwnInPlaySubtype { subtype: "Ultra Beast".to_string() },
        LegalCondition::OwnEnergyDiscardAtLeast { count: 2, element: None },
    ];
    // Opp has 0 points → fail.
    let out = enumerate_legal_actions(&conds, &s, &db, 0, BaseAction::PlayItem { hand_index: 0 });
    assert!(out.is_empty(), "Lusamine should fail when opp has 0 points");

    // Opp has 1 point but discard pile empty → fail.
    s.players[1].points = 1;
    let out = enumerate_legal_actions(&conds, &s, &db, 0, BaseAction::PlayItem { hand_index: 0 });
    assert!(out.is_empty(), "Lusamine should fail when discard pile empty");

    // Add 2 discarded energies → pass.
    s.players[0].energy_discard[Element::Darkness.idx()] = 2;
    let out = enumerate_legal_actions(&conds, &s, &db, 0, BaseAction::PlayItem { hand_index: 0 });
    assert_eq!(out.len(), 1, "Lusamine should be legal when all 3 conditions pass");
}

#[test]
fn red_card_opp_hand_below_threshold_fails() {
    let pikachu = make_card(0, "Pikachu", Some(Element::Lightning), Some(Stage::Basic));
    let db = db_with(vec![pikachu]);
    let mut s = empty_state();
    s.players[0].active = Some(PokemonSlot::new(0, 100));
    s.players[1].active = Some(PokemonSlot::new(0, 100));
    s.players[1].hand = vec![0u16, 0u16]; // 2 cards
    let conds = vec![LegalCondition::OppHandAtLeast { count: 3 }];
    let out = enumerate_legal_actions(&conds, &s, &db, 0, BaseAction::PlayItem { hand_index: 0 });
    assert!(out.is_empty());

    s.players[1].hand.push(0u16); // 3 cards
    let out = enumerate_legal_actions(&conds, &s, &db, 0, BaseAction::PlayItem { hand_index: 0 });
    assert_eq!(out.len(), 1);
}
