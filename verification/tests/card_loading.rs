use ptcgp::card::CardDb;
use ptcgp::card_load::{
    build_evo_cache, card_info_score, detect_is_passive, parse_card, parse_cost, parse_damage, RawAbility, RawAttack,
    RawCard, RawValue,
};
use ptcgp::effects::EffectKind;
use ptcgp::types::{CardKind, CostSymbol, Element, Stage};

fn num(n: i64) -> RawValue {
    RawValue::Number { as_i64: Some(n), as_u64: if n >= 0 { Some(n as u64) } else { None } }
}

fn pokemon(id: &str, name: &str, subtype: &str, evolves_from: Option<&str>) -> RawCard {
    RawCard {
        id: id.to_string(),
        name: Some(name.to_string()),
        card_type: Some("Pokemon".to_string()),
        subtype: Some(subtype.to_string()),
        element: Some("Grass".to_string()),
        health: Some(num(70)),
        retreat_cost: Some(num(1)),
        weakness: Some("Fire".to_string()),
        attacks: Some(vec![RawAttack {
            name: Some("Vine Whip".to_string()),
            damage: Some(num(40)),
            cost: Some(vec!["Grass".to_string(), "Colorless".to_string()]),
            effect: None,
            handler: None,
        }]),
        abilities: None,
        evolves_from: evolves_from.map(|s| s.to_string()),
        rarity: None,
    }
}

fn trainer(id: &str, name: &str, subtype: &str, handler: &str) -> RawCard {
    RawCard {
        id: id.to_string(),
        name: Some(name.to_string()),
        card_type: Some("Trainer".to_string()),
        subtype: Some(subtype.to_string()),
        element: None,
        health: None,
        retreat_cost: None,
        weakness: None,
        attacks: None,
        abilities: Some(vec![RawAbility {
            name: None,
            effect: Some("Draw 2 cards.".to_string()),
            handler: Some(handler.to_string()),
        }]),
        evolves_from: None,
        rarity: None,
    }
}

#[test]
fn parse_card_reads_a_basic_pokemon() {
    let c = parse_card(&pokemon("a1-001", "Bulbasaur", "Basic", None));
    assert_eq!(c.name, "Bulbasaur");
    assert_eq!(c.kind, CardKind::Pokemon);
    assert_eq!(c.stage, Some(Stage::Basic));
    assert_eq!(c.element, Some(Element::Grass));
    assert_eq!(c.hp, 70);
    assert_eq!(c.weakness, Some(Element::Fire));
    assert_eq!(c.retreat_cost, 1);
    assert_eq!(c.attacks.len(), 1);
    assert_eq!(c.attacks[0].name, "Vine Whip");
    assert_eq!(c.attacks[0].damage, 40);
    assert_eq!(c.attacks[0].cost, vec![CostSymbol::Grass, CostSymbol::Colorless]);
    assert_eq!(c.ko_points, 1);
    assert!(!c.is_ex);
}

#[test]
fn parse_card_marks_ex_and_mega_ex() {
    let ex = parse_card(&pokemon("x1", "Venusaur ex", "Stage 2", Some("Ivysaur")));
    assert!(ex.is_ex);
    assert!(!ex.is_mega_ex);
    assert_eq!(ex.ko_points, 2);
    assert_eq!(ex.stage, Some(Stage::Stage2));
    let mega = parse_card(&pokemon("x2", "Mega Charizard Ex", "Stage 2", None));
    assert!(mega.is_ex);
    assert!(mega.is_mega_ex);
    assert_eq!(mega.ko_points, 3);
}

#[test]
fn parse_card_reads_a_trainer() {
    let c = parse_card(&trainer("pa-007", "Professor's Research", "Supporter", "draw_cards(count=2)"));
    assert_eq!(c.kind, CardKind::Supporter);
    assert_eq!(c.trainer_effect_text, "Draw 2 cards.");
    assert_eq!(c.trainer_effects, vec![EffectKind::DrawCards { count: 2 }]);
    assert_eq!(c.hp, 0);
    assert!(c.attacks.is_empty());
    let tool = parse_card(&trainer("t", "Giant Cape", "TOOL", ""));
    assert_eq!(tool.kind, CardKind::Tool);
    let item = parse_card(&trainer("i", "Potion", "Item", ""));
    assert_eq!(item.kind, CardKind::Item);
}

#[test]
fn parse_card_skips_repeated_attacks() {
    let mut raw = pokemon("a", "Oddish", "Basic", None);
    let atk = raw.attacks.as_ref().unwrap()[0].clone();
    raw.attacks.as_mut().unwrap().push(atk);
    let c = parse_card(&raw);
    assert_eq!(c.attacks.len(), 1);
}

#[test]
fn parse_damage_reads_numbers_and_strings() {
    assert_eq!(parse_damage(&num(50)), 50);
    assert_eq!(parse_damage(&RawValue::Text("30+".to_string())), 30);
    assert_eq!(parse_damage(&RawValue::Text("50x".to_string())), 50);
    assert_eq!(parse_damage(&RawValue::Text("".to_string())), 0);
    assert_eq!(parse_damage(&RawValue::Other), 0);
}

#[test]
fn retreat_cost_over_four_reads_as_zero() {
    let mut raw = pokemon("a", "Snorlax", "Basic", None);
    raw.retreat_cost = Some(num(999));
    assert_eq!(parse_card(&raw).retreat_cost, 0);
    raw.retreat_cost = Some(RawValue::Text("3".to_string()));
    assert_eq!(parse_card(&raw).retreat_cost, 3);
}

#[test]
fn parse_cost_skips_unknown_symbols() {
    let cost = parse_cost(&["Fire".to_string(), "Rainbow".to_string(), "colorless".to_string()]);
    assert_eq!(cost, vec![CostSymbol::Fire, CostSymbol::Colorless]);
}

#[test]
fn passive_abilities_are_detected() {
    assert!(detect_is_passive("Thick Fat", "As long as this Pokémon is in play, ..."));
    assert!(detect_is_passive("Iron BODY", "Prevents damage."));
    assert!(!detect_is_passive("Psy Shadow", "Take a Psychic Energy from your Energy Zone."));
}

#[test]
fn info_score_counts_ability_texts_and_trainer_text() {
    let c = parse_card(&trainer("t", "Potion", "Item", "potion_heal(amount=20)"));
    assert_eq!(card_info_score(&c), 3);
    let mut raw = pokemon("p", "Pikachu", "Basic", None);
    raw.attacks.as_mut().unwrap()[0].effect = Some("Flip a coin.".to_string());
    raw.abilities = Some(vec![RawAbility { name: Some("Static".to_string()), effect: Some("x".to_string()), handler: None }]);
    assert_eq!(card_info_score(&parse_card(&raw)), 3);
}

#[test]
fn build_from_raw_keeps_each_id_once_and_the_richer_record() {
    let plain = pokemon("a1-001", "Bulbasaur", "Basic", None);
    let mut rich = pokemon("a1-001", "Bulbasaur", "Basic", None);
    rich.attacks.as_mut().unwrap()[0].effect = Some("Heal 10.".to_string());
    let other = pokemon("a1-002", "Ivysaur", "Stage 1", Some("Bulbasaur"));
    let db = CardDb::build_from_raw(vec![plain, other, rich]);
    assert_eq!(db.len(), 2);
    let b = db.get_by_id("a1-001").unwrap();
    assert_eq!(b.idx, 0);
    assert_eq!(b.attacks[0].effect_text, "Heal 10.");
    assert_eq!(db.get_idx_by_id("a1-002"), Some(1));
    assert_eq!(db.get_idx_by_id("zz"), None);
    assert_eq!(db.name_to_indices.get("Ivysaur"), Some(&vec![1u16]));
}

#[test]
fn evo_cache_links_basics_to_stage2() {
    let cards = vec![
        parse_card(&pokemon("1", "Bulbasaur", "Basic", None)),
        parse_card(&pokemon("2", "Ivysaur", "Stage 1", Some("Bulbasaur"))),
        parse_card(&pokemon("3", "Venusaur", "Stage 2", Some("Ivysaur"))),
    ];
    let cache = build_evo_cache(&cards);
    assert_eq!(cache.get("Bulbasaur"), Some(&vec!["Venusaur".to_string()]));
    assert_eq!(cache.len(), 1);
}

/// The database built from the Bulbasaur record as the card files give it
/// (written out here, as the card files give it).
fn bulbasaur_db() -> CardDb {
    CardDb::build_from_raw(vec![pokemon("a1-001", "Bulbasaur", "Basic", None)])
}

#[test]
fn bulbasaur_parsed_correctly() {
    let db = bulbasaur_db();
    let card = db.get_by_id("a1-001").expect("a1-001 not found");
    assert_eq!(card.name, "Bulbasaur");
    assert_eq!(card.kind, CardKind::Pokemon);
    assert_eq!(card.stage, Some(Stage::Basic));
    assert_eq!(card.element, Some(Element::Grass));
    assert_eq!(card.hp, 70);
    assert_eq!(card.weakness, Some(Element::Fire));
    assert_eq!(card.retreat_cost, 1);
    assert_eq!(card.attacks.len(), 1);
    assert_eq!(card.attacks[0].name, "Vine Whip");
    assert_eq!(card.attacks[0].damage, 40);
    assert_eq!(card.attacks[0].cost, vec![CostSymbol::Grass, CostSymbol::Colorless]);
}

#[test]
fn ko_points_correct() {
    let db = bulbasaur_db();
    let bulb = db.get_by_id("a1-001").unwrap();
    assert_eq!(bulb.ko_points, 1);
}
