use ptcgp::card::{Card, CardDb};
use ptcgp::decks::{all_deck_names, get_sample_deck, resolve_deck, resolve_deck_pool, validate_deck};
use ptcgp::types::{CardKind, Element, Stage};

fn card(idx: u16, name: &str, kind: CardKind, stage: Option<Stage>) -> Card {
    Card {
        id: format!("c-{}", idx),
        idx,
        name: name.to_string(),
        kind,
        stage,
        element: Some(Element::Grass),
        hp: 60,
        weakness: None,
        retreat_cost: 1,
        is_ex: false,
        is_mega_ex: false,
        evolves_from: None,
        attacks: vec![],
        ability: None,
        trainer_effect_text: String::new(),
        trainer_handler: String::new(),
        trainer_effects: vec![],
        trainer_legal_conditions: vec![],
        ko_points: 1,
    }
}

/// Ten Basic Pokémon with distinct names, then ten Items with distinct names.
fn db() -> CardDb {
    let mut db = CardDb::new_empty();
    for i in 0..10u16 {
        db.cards.push(card(i, &format!("Mon{}", i), CardKind::Pokemon, Some(Stage::Basic)));
    }
    for i in 10..20u16 {
        db.cards.push(card(i, &format!("Item{}", i), CardKind::Item, None));
    }
    db
}

fn two_of_each(first: u16) -> Vec<u16> {
    let mut d = Vec::new();
    for i in first..first + 10 {
        d.push(i);
        d.push(i);
    }
    d
}

#[test]
fn every_listed_sample_deck_is_known_with_twenty_cards() {
    for name in all_deck_names() {
        let (ids, energy) = get_sample_deck(name).expect("listed deck");
        assert_eq!(ids.len(), 20);
        assert!(!energy.is_empty() && energy.len() <= 3);
    }
}

#[test]
fn sample_deck_names_ignore_case_and_spaces() {
    let (ids, energy) = get_sample_deck("  VenuSaur ").unwrap();
    assert_eq!(ids[0], "a1-001");
    assert_eq!(energy, vec![Element::Grass]);
    assert!(get_sample_deck("nosuchdeck").is_none());
    let (_, dragonite) = get_sample_deck("dragonite").unwrap();
    assert_eq!(dragonite, vec![Element::Water, Element::Lightning]);
}

#[test]
fn valid_deck_passes() {
    let db = db();
    let deck = two_of_each(0);
    assert_eq!(validate_deck(&db, &deck, &[Element::Grass]), Ok(()));
}

#[test]
fn wrong_size_is_reported_first() {
    let db = db();
    let mut deck = two_of_each(0);
    deck.pop();
    assert_eq!(validate_deck(&db, &deck, &[]), Err("deck must contain exactly 20 cards, got 19".to_string()));
}

#[test]
fn unknown_card_is_reported() {
    let db = db();
    let mut deck = two_of_each(0);
    deck[5] = 999;
    assert_eq!(validate_deck(&db, &deck, &[Element::Grass]), Err("card index 999 not found in CardDb".to_string()));
}

#[test]
fn third_copy_is_reported() {
    let db = db();
    let mut deck = two_of_each(0);
    deck[2] = 0;
    assert_eq!(
        validate_deck(&db, &deck, &[Element::Grass]),
        Err("more than 2 copies of 'Mon0' in deck (found 3)".to_string())
    );
}

#[test]
fn deck_without_basic_is_reported() {
    let db = db();
    let deck = two_of_each(10);
    assert_eq!(
        validate_deck(&db, &deck, &[Element::Grass]),
        Err("deck must contain at least one Basic Pokémon".to_string())
    );
}

#[test]
fn energy_type_count_is_checked() {
    let db = db();
    let deck = two_of_each(0);
    assert_eq!(validate_deck(&db, &deck, &[]), Err("deck must declare at least 1 energy type".to_string()));
    let four = [Element::Grass, Element::Fire, Element::Water, Element::Lightning];
    assert_eq!(validate_deck(&db, &deck, &four), Err("deck may declare at most 3 energy types, got 4".to_string()));
}

fn db_with_ids() -> CardDb {
    let mut d = db();
    d.id_to_idx.insert("a1-105".to_string(), 3);
    d.id_to_idx.insert("a1-096".to_string(), 4);
    d
}

#[test]
fn resolving_a_deck_keeps_only_known_cards() {
    let d = db_with_ids();
    let (cards, energy) = resolve_deck(&d, " Pikachu ").unwrap();
    assert_eq!(energy, vec![Element::Lightning]);
    assert!(cards.len() >= 4);
    assert!(cards.iter().all(|&i| i == 3 || i == 4));
    assert_eq!(&cards[..2], &[3, 3]);
}

#[test]
fn resolving_an_unknown_deck_lists_the_names() {
    let err = resolve_deck(&db_with_ids(), "blastoise").unwrap_err();
    assert_eq!(
        err,
        "Unknown deck 'blastoise'. Available: venusaur, charizard, mewtwo, nihilego, celebi, mew, dragonite, rampardos, gyarados, guzzlord, pikachu, magnezone, suicune, megacharizard"
    );
}

#[test]
fn resolving_a_deck_with_no_known_card_is_refused() {
    let err = resolve_deck(&db(), "mewtwo").unwrap_err();
    assert_eq!(
        err,
        "Deck 'mewtwo' resolved to 0 cards. Check that PTCGP_ASSETS points to the correct directory."
    );
}

#[test]
fn deck_pool_skips_blank_unknown_and_empty_decks() {
    let d = db_with_ids();
    let pool = resolve_deck_pool(&d, "pikachu, ,blastoise,mewtwo , PIKACHU");
    assert_eq!(pool.len(), 2);
    assert_eq!(pool[0].1, vec![Element::Lightning]);
    assert_eq!(pool[0], pool[1]);
}

/// The Genetic Apex cards of the venusaur sample deck, Bulbasaur first,
/// then twelve more Trainer cards, written out here rather than read from
/// the card files.
fn apex_db() -> CardDb {
    let list: Vec<(&str, &str, CardKind, Option<Stage>)> = vec![
        ("a1-001", "Bulbasaur", CardKind::Pokemon, Some(Stage::Basic)),
        ("a1-002", "Ivysaur", CardKind::Pokemon, Some(Stage::Stage1)),
        ("a1-004", "Venusaur ex", CardKind::Pokemon, Some(Stage::Stage2)),
        ("a1-029", "Petilil", CardKind::Pokemon, Some(Stage::Basic)),
        ("a1-030", "Lilligant", CardKind::Pokemon, Some(Stage::Stage1)),
        ("a1-219", "Erika", CardKind::Supporter, None),
        ("a1-225", "Sabrina", CardKind::Supporter, None),
        ("pa-001", "Potion", CardKind::Item, None),
        ("pa-002", "X Speed", CardKind::Item, None),
        ("pa-003", "Hand Scope", CardKind::Item, None),
        ("pa-004", "Pokédex", CardKind::Item, None),
        ("pa-005", "Poké Ball", CardKind::Item, None),
        ("pa-006", "Red Card", CardKind::Item, None),
        ("pa-007", "Professor's Research", CardKind::Supporter, None),
        ("a1-216", "Helix Fossil", CardKind::Item, None),
        ("a1-217", "Dome Fossil", CardKind::Item, None),
        ("a1-218", "Old Amber", CardKind::Item, None),
        ("a1-220", "Misty", CardKind::Supporter, None),
        ("a1-221", "Blaine", CardKind::Supporter, None),
        ("a1-222", "Koga", CardKind::Supporter, None),
        ("a1-223", "Giovanni", CardKind::Supporter, None),
        ("a1-224", "Brock", CardKind::Supporter, None),
        ("a1-226", "Lt. Surge", CardKind::Supporter, None),
    ];
    let mut db = CardDb::new_empty();
    for (i, (id, name, kind, stage)) in list.into_iter().enumerate() {
        let mut c = card(i as u16, name, kind, stage);
        c.id = id.to_string();
        db.cards.push(c);
        db.id_to_idx.insert(id.to_string(), i as u16);
    }
    db
}

fn resolve(db: &CardDb, ids: &[&str]) -> Vec<u16> {
    ids.iter().filter_map(|id| db.get_idx_by_id(id)).collect()
}

#[test]
fn valid_sample_deck_passes() {
    let db = apex_db();
    let (ids, energy) = get_sample_deck("venusaur").unwrap();
    let deck = resolve(&db, &ids);
    assert_eq!(deck.len(), 20, "sample venusaur deck should resolve to 20 cards");
    assert!(validate_deck(&db, &deck, &energy).is_ok());
}

#[test]
fn deck_size_not_20_fails() {
    let db = apex_db();
    let (ids, energy) = get_sample_deck("venusaur").unwrap();
    let mut deck = resolve(&db, &ids);
    deck.pop();
    let err = validate_deck(&db, &deck, &energy).unwrap_err();
    assert!(err.contains("20"), "expected size error, got: {err}");
}

#[test]
fn more_than_two_copies_fails() {
    let db = apex_db();
    let bulba = db.get_idx_by_id("a1-001").unwrap();
    let mut deck = vec![bulba, bulba, bulba];
    for c in db.cards.iter() {
        if deck.len() == 20 {
            break;
        }
        if c.name == "Bulbasaur" {
            continue;
        }
        deck.push(c.idx);
    }
    let err = validate_deck(&db, &deck, &[Element::Grass]).unwrap_err();
    assert!(err.contains("more than 2 copies"), "expected copy error, got: {err}");
}

#[test]
fn zero_basics_fails() {
    let db = apex_db();
    let mut deck: Vec<u16> = Vec::new();
    let mut name_counts: std::collections::HashMap<String, u8> = std::collections::HashMap::new();
    for c in db.cards.iter() {
        if deck.len() == 20 {
            break;
        }
        if matches!(c.kind, CardKind::Pokemon) && c.stage == Some(Stage::Basic) {
            continue;
        }
        let entry = name_counts.entry(c.name.clone()).or_insert(0);
        if *entry >= 2 {
            continue;
        }
        *entry += 1;
        deck.push(c.idx);
    }
    assert_eq!(deck.len(), 20, "should have constructed a 20-card non-Basic deck");
    let err = validate_deck(&db, &deck, &[Element::Grass]).unwrap_err();
    assert!(err.contains("Basic"), "expected basic error, got: {err}");
}

#[test]
fn more_than_three_energy_types_fails() {
    let db = apex_db();
    let (ids, _) = get_sample_deck("venusaur").unwrap();
    let deck = resolve(&db, &ids);
    let energy = vec![Element::Grass, Element::Fire, Element::Water, Element::Lightning];
    let err = validate_deck(&db, &deck, &energy).unwrap_err();
    assert!(err.contains("3 energy types"), "expected energy error, got: {err}");
}

#[test]
fn zero_energy_types_fails() {
    let db = apex_db();
    let (ids, _) = get_sample_deck("venusaur").unwrap();
    let deck = resolve(&db, &ids);
    let err = validate_deck(&db, &deck, &[]).unwrap_err();
    assert!(err.contains("at least 1 energy"), "expected energy error, got: {err}");
}
