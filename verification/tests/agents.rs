use ptcgp::actions::{Action, SlotRef};
use ptcgp::agents::{
    count_basics_in_play, energy_attach_attack_gain, estimate_damage, opponent_expected_damage_to, parse_sims, should_retreat_now,
    HeuristicAgent, RandomAgent,
};
use ptcgp::card::{Attack, Card, CardDb};
use ptcgp::effects::EffectKind;
use ptcgp::state::{GameState, PokemonSlot};
use ptcgp::types::{ActionKind, CardKind, CostSymbol, Element, GamePhase, Stage};

fn attack(name: &str, damage: i16, cost: usize, effects: Vec<EffectKind>) -> Attack {
    Attack {
        name: name.to_string(),
        damage,
        cost: vec![CostSymbol::Colorless; cost],
        effect_text: String::new(),
        handler: String::new(),
        effects,
        legal_conditions: vec![],
    }
}

fn mon(idx: u16, name: &str, stage: Stage, element: Element, weakness: Option<Element>, attacks: Vec<Attack>) -> Card {
    Card {
        id: format!("a-{}", idx),
        idx,
        name: name.to_string(),
        kind: CardKind::Pokemon,
        stage: Some(stage),
        element: Some(element),
        hp: 100,
        weakness,
        retreat_cost: 1,
        is_ex: false,
        is_mega_ex: false,
        evolves_from: None,
        attacks,
        ability: None,
        trainer_effect_text: String::new(),
        trainer_handler: String::new(),
        trainer_effects: vec![],
        trainer_legal_conditions: vec![],
        ko_points: 1,
    }
}

/// Card 0: a Lightning attacker weak to Fighting; card 1: a Fighting
/// hitter weak to Lightning; card 2: a Stage 1 Pokémon.
fn db() -> CardDb {
    let mut db = CardDb::new_empty();
    db.cards.push(mon(
        0,
        "Pikachu",
        Stage::Basic,
        Element::Lightning,
        Some(Element::Fighting),
        vec![attack("Gnaw", 30, 1, vec![]), attack("Thunder", 60, 2, vec![])],
    ));
    db.cards.push(mon(1, "Machop", Stage::Basic, Element::Fighting, Some(Element::Lightning), vec![attack("Chop", 50, 1, vec![])]));
    db.cards.push(mon(2, "Raichu", Stage::Stage1, Element::Lightning, None, vec![attack("Bolt", 90, 3, vec![])]));
    db
}

fn board() -> GameState {
    let mut s = GameState::new(11);
    s.players[0].active = Some(PokemonSlot::new(0, 60));
    s.players[0].bench[0] = Some(PokemonSlot::new(2, 90));
    s.players[0].bench[2] = Some(PokemonSlot::new(1, 70));
    s.players[1].active = Some(PokemonSlot::new(1, 70));
    s
}

#[test]
fn basics_in_play_skip_evolved_pokemon() {
    let s = board();
    assert_eq!(count_basics_in_play(&s, &db(), 0), 2);
    assert_eq!(count_basics_in_play(&s, &db(), 1), 1);
}

#[test]
fn expected_hit_counts_weakness_and_reduction() {
    let s = board();
    let d = db();
    let mine = s.players[0].active.unwrap();
    assert_eq!(opponent_expected_damage_to(&s, &d, 0, &mine), 70);
    let mut shielded = mine;
    shielded.incoming_damage_reduction = 30;
    assert_eq!(opponent_expected_damage_to(&s, &d, 0, &shielded), 40);
    shielded.incoming_damage_reduction = 100;
    assert_eq!(opponent_expected_damage_to(&s, &d, 0, &shielded), 0);
    let mut alone = board();
    alone.players[1].active = None;
    assert_eq!(opponent_expected_damage_to(&alone, &d, 0, &mine), 0);
}

#[test]
fn retreat_is_advised_only_with_a_ready_bench_attacker() {
    let mut s = board();
    let d = db();
    // Pikachu (60 HP) is knocked out by Chop with weakness (70), but no
    // benched Pokémon has energy yet.
    assert!(!should_retreat_now(&s, &d, 0));
    s.players[0].bench[2].as_mut().unwrap().add_energy(Element::Fighting, 1);
    assert!(should_retreat_now(&s, &d, 0));
    // With full HP above the threat, staying is fine.
    s.players[0].active.as_mut().unwrap().current_hp = 80;
    assert!(!should_retreat_now(&s, &d, 0));
}

#[test]
fn estimate_counts_aura_weakness_and_cost() {
    let mut s = board();
    let d = db();
    // Gnaw against a Fighting type that is weak to Lightning: 30 + 20.
    assert_eq!(estimate_damage(&s, &d, 0, 0, true), 50);
    assert_eq!(estimate_damage(&s, &d, 0, 0, false), 0);
    assert_eq!(estimate_damage(&s, &d, 0, 5, true), 0);
    s.players[0].attack_damage_bonus = 10;
    assert_eq!(estimate_damage(&s, &d, 0, 1, true), 90);
}

#[test]
fn estimate_follows_the_attack_effects() {
    let mut d = db();
    d.cards[0].attacks[0].effects = vec![EffectKind::CoinFlipNothing];
    d.cards[0].attacks[1].effects = vec![EffectKind::RandomMultiHit { count: 4, amount: 50 }];
    let mut s = board();
    assert_eq!(estimate_damage(&s, &d, 0, 0, true), 25);
    assert_eq!(estimate_damage(&s, &d, 0, 1, true), 200);
    d.cards[0].attacks[0].effects = vec![EffectKind::MultiCoinPerEnergyDamage { per: -7 }];
    s.players[0].active.as_mut().unwrap().add_energy(Element::Lightning, 3);
    // Half of 3 x -7, rounded toward zero.
    assert_eq!(estimate_damage(&s, &d, 0, 0, true), -10);
    d.cards[0].attacks[0].effects = vec![EffectKind::BonusIfOpponentPoisoned { bonus: 40 }];
    assert_eq!(estimate_damage(&s, &d, 0, 0, true), 50);
    s.players[1].active.as_mut().unwrap().status = 1;
    assert_eq!(estimate_damage(&s, &d, 0, 0, true), 90);
}

#[test]
fn one_more_energy_gain_compares_with_the_best_attack_now() {
    let mut s = board();
    let d = db();
    // One energy attached: Thunder (2 energy) is one short.  Now only Gnaw
    // is payable: 50; Thunder would do 60 + 20 = 80.
    s.players[0].active.as_mut().unwrap().add_energy(Element::Lightning, 1);
    assert_eq!(energy_attach_attack_gain(&s, &d, 0, &[true, false]), 30);
    // Nothing is gained when Thunder can already be paid.
    assert_eq!(energy_attach_attack_gain(&s, &d, 0, &[true, true]), 0);
    s.players[1].active = None;
    assert_eq!(energy_attach_attack_gain(&s, &d, 0, &[true, false]), 0);
}

#[test]
fn random_player_picks_a_legal_action_or_ends_the_turn() {
    let s = board();
    let agent = RandomAgent;
    let actions = vec![Action::attach_energy(SlotRef::active(0)), Action::retreat(SlotRef::bench(0, 0))];
    for _ in 0..3 {
        let a = agent.select_action(&s, 0, &actions);
        assert!(actions.contains(&a));
    }
    assert_eq!(agent.select_action(&s, 0, &[]).kind, ActionKind::EndTurn);
}

#[test]
fn random_player_seed_mixes_the_state() {
    let mut s = GameState::new(0);
    s.turn_number = 5;
    s.current_player = 1;
    s.players[0].hand = vec![0, 1];
    assert_eq!(RandomAgent.decision_seed(&s, 1, 3), 0x9d37_79b9_7f4a_7e12);
}

#[test]
fn heuristic_setup_always_places_when_it_can() {
    let agent = HeuristicAgent;
    let place = Action::play_basic(0, SlotRef::bench(0, 1));
    assert_eq!(agent.select_bench_placement(&[Action::end_turn()]).kind, ActionKind::EndTurn);
    assert_eq!(agent.select_bench_placement(&[Action::end_turn(), place.clone()]), place);
    assert_eq!(agent.select_bench_placement(&[Action::end_turn(), Action::end_turn()]).kind, ActionKind::EndTurn);
}

#[test]
fn simulation_counts_follow_the_colon() {
    assert_eq!(parse_sims(":720"), Some(720));
    assert_eq!(parse_sims("::5"), Some(5));
    assert_eq!(parse_sims(":+7"), Some(7));
    assert_eq!(parse_sims(""), None);
    assert_eq!(parse_sims(":"), None);
    assert_eq!(parse_sims(":abc"), None);
    assert_eq!(parse_sims(":-3"), None);
    assert_eq!(parse_sims(":99999999999999999999999999"), None);
}

#[test]
fn playing_a_card_moves_the_random_seed() {
    let mut s = GameState::new(0);
    s.players[0].hand = vec![0, 1, 2];
    let before = RandomAgent.decision_seed(&s, 0, 4);
    s.players[0].hand.pop();
    let after = RandomAgent.decision_seed(&s, 0, 4);
    assert_ne!(before, after);
}

/// Player 0's Fire attacker with two Fire energy against a Defender at 30
/// HP that is weak to Fire.
fn build_combat_state() -> GameState {
    let mut state = GameState::new(42);
    state.phase = GamePhase::Main;
    state.turn_number = 3;
    state.current_player = 0;
    let mut attacker_slot = PokemonSlot::new(0, 80);
    attacker_slot.add_energy(Element::Fire, 2);
    state.players[0].active = Some(attacker_slot);
    state.players[1].active = Some(PokemonSlot::new(1, 30));
    state
}

#[test]
fn random_agent_returns_valid_action() {
    let state = build_combat_state();
    // The legal actions of that position: the attack, or ending the turn.
    let legal = vec![Action::attack(0, None), Action::end_turn()];
    let agent = RandomAgent;
    let action = agent.select_action(&state, 0, &legal);
    assert!(
        action.kind == ActionKind::Attack || action.kind == ActionKind::EndTurn,
        "RandomAgent returned unexpected action kind: {:?}",
        action.kind
    );
}

#[test]
fn random_agent_promotion_phase() {
    let mut state = GameState::new(7);
    state.phase = GamePhase::AwaitingBenchPromotion;
    state.players[0].bench[1] = Some(PokemonSlot::new(0, 80));
    // The only legal action: promoting the Pokémon on bench spot 1.
    let legal = vec![Action::promote(SlotRef::bench(0, 1))];
    let agent = RandomAgent;
    let action = agent.select_action(&state, 0, &legal);
    assert_eq!(action.kind, ActionKind::Promote);
}
