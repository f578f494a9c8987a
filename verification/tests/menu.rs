use ptcgp::actions::{Action, SlotRef};
use ptcgp::card::{Ability, Attack, Card, CardDb};
use ptcgp::menu::{
    build_menu_items, card_level1_label, describe_setup_action, describe_target, parse_menu_choice, slot_pos_label, HumanAgent,
};
use ptcgp::state::{GameState, PokemonSlot};
use ptcgp::types::{CardKind, Element, Stage};

fn card(idx: u16, name: &str, kind: CardKind, stage: Option<Stage>) -> Card {
    Card {
        id: format!("c-{}", idx),
        idx,
        name: name.to_string(),
        kind,
        stage,
        element: Some(Element::Lightning),
        hp: 60,
        weakness: None,
        retreat_cost: 1,
        is_ex: false,
        is_mega_ex: false,
        evolves_from: None,
        attacks: vec![],
        ability: None,
        trainer_effect_text: String::new(),
        trainer_handler: String::new(),
        trainer_effects: vec![],
        trainer_legal_conditions: vec![],
        ko_points: 1,
    }
}

fn db() -> CardDb {
    let mut db = CardDb::new_empty();
    let mut pika = card(0, "Pikachu", CardKind::Pokemon, Some(Stage::Basic));
    pika.attacks.push(Attack {
        name: "Gnaw".to_string(),
        damage: 20,
        cost: vec![],
        effect_text: String::new(),
        handler: String::new(),
        effects: vec![],
        legal_conditions: vec![],
    });
    db.cards.push(pika);
    let mut raichu = card(1, "Raichu", CardKind::Pokemon, Some(Stage::Stage1));
    raichu.evolves_from = Some("Pikachu".to_string());
    db.cards.push(raichu);
    let mut zapdos = card(2, "Zapdos", CardKind::Pokemon, Some(Stage::Basic));
    zapdos.ability = Some(Ability {
        name: "Static Charge".to_string(),
        effect_text: String::new(),
        is_passive: false,
        handler: String::new(),
        effects: vec![],
    });
    db.cards.push(zapdos);
    db.cards.push(card(3, "Potion", CardKind::Item, None));
    db
}

fn board() -> GameState {
    let mut s = GameState::new(3);
    s.players[0].active = Some(PokemonSlot::new(0, 60));
    s.players[0].bench[0] = Some(PokemonSlot::new(2, 100));
    s.players[0].hand = vec![1, 0];
    s
}

#[test]
fn spot_labels_read_active_and_bench_number() {
    assert_eq!(slot_pos_label(SlotRef::active(0)), "active");
    assert_eq!(slot_pos_label(SlotRef::bench(1, 2)), "bench 2");
}

#[test]
fn setup_choices_name_the_card_and_spot() {
    let s = board();
    let d = db();
    let place = Action::play_basic(1, SlotRef::bench(0, 1));
    assert_eq!(describe_setup_action(&place, &s, &d, 0), "Place Pikachu on bench 1");
    assert_eq!(describe_setup_action(&Action::end_turn(), &s, &d, 0), "Done (end setup)");
    let promote = Action::promote(SlotRef::bench(0, 0));
    assert_eq!(describe_setup_action(&promote, &s, &d, 0), "Promote Zapdos to Active");
}

#[test]
fn evolve_entry_with_one_target_names_both_cards() {
    let s = board();
    let d = db();
    let evolve = Action::evolve(0, SlotRef::active(0));
    let actions = vec![evolve.clone()];
    let label = card_level1_label(&evolve, &[0], &actions, &s, &d, 0);
    assert_eq!(label, "Evolve Pikachu → Raichu  (active)");
}

#[test]
fn menu_groups_bench_plays_and_lists_each_kind_once() {
    let s = board();
    let d = db();
    let actions = vec![
        Action::play_basic(1, SlotRef::bench(0, 1)),
        Action::play_basic(1, SlotRef::bench(0, 2)),
        Action::attach_energy(SlotRef::active(0)),
        Action::use_ability(SlotRef::bench(0, 0)),
        Action::attack(0, None),
        Action::retreat(SlotRef::bench(0, 0)),
        Action::end_turn(),
    ];
    let costs = vec!["L".to_string()];
    let items = build_menu_items(&actions, &s, &d, 0, "L", &costs);
    let labels: Vec<&str> = items.iter().map(|m| m.label.as_str()).collect();
    assert_eq!(
        labels,
        vec![
            "Play Pikachu to bench",
            "Attach L energy → Pikachu (active)",
            "Use Zapdos's Static Charge (bench 0)",
            "Attack: Gnaw (20dmg)  [L]",
            "Retreat → switch in Zapdos (bench 0)",
            "End turn",
        ]
    );
    // A Basic Pokémon goes to the first free bench spot without a second menu.
    assert_eq!(items[0].action_indices, vec![0]);
    assert_eq!(items[5].action_indices, vec![6]);
}

#[test]
fn several_targets_lead_to_a_target_menu() {
    let s = board();
    let d = db();
    let actions = vec![
        Action::attach_energy(SlotRef::active(0)),
        Action::attach_energy(SlotRef::bench(0, 0)),
    ];
    let items = build_menu_items(&actions, &s, &d, 0, "L", &[]);
    assert_eq!(items.len(), 1);
    assert_eq!(items[0].label, "Attach L energy");
    assert_eq!(items[0].action_indices, vec![0, 1]);
    let retreat = Action::retreat(SlotRef::bench(0, 0));
    assert_eq!(describe_target(&retreat, &s, &d, 0), "Zapdos (bench 0, 100/100 HP)");
}

#[test]
fn terminal_player_keeps_its_seat() {
    assert_eq!(HumanAgent::new(1).player_index, 1);
}

#[test]
fn typed_choices_count_from_one() {
    assert_eq!(parse_menu_choice(" 2\n", 3), Some(1));
    assert_eq!(parse_menu_choice("3", 3), Some(2));
    assert_eq!(parse_menu_choice("0", 3), None);
    assert_eq!(parse_menu_choice("4", 3), None);
    assert_eq!(parse_menu_choice("two", 3), None);
    assert_eq!(parse_menu_choice("", 3), None);
}
