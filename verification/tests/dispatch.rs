use ptcgp::actions::{Action, SlotRef};
use ptcgp::card::{Card, CardDb};
use ptcgp::effects::dispatch::{apply_effect, apply_effects, compute_damage_modifier};
use ptcgp::effects::{EffectContext, EffectKind};
use ptcgp::state::{GameState, PokemonSlot};
use ptcgp::types::{CardKind, Element, Stage};

fn mon(idx: u16, name: &str, element: Element, is_ex: bool) -> Card {
    Card {
        id: format!("m-{}", idx),
        idx,
        name: name.to_string(),
        kind: CardKind::Pokemon,
        stage: Some(Stage::Basic),
        element: Some(element),
        hp: 100,
        weakness: None,
        retreat_cost: 1,
        is_ex,
        is_mega_ex: false,
        evolves_from: None,
        attacks: vec![],
        ability: None,
        trainer_effect_text: String::new(),
        trainer_handler: String::new(),
        trainer_effects: vec![],
        trainer_legal_conditions: vec![],
        ko_points: 1,
    }
}

fn db() -> CardDb {
    let mut db = CardDb::new_empty();
    db.cards.push(mon(0, "Pikachu", Element::Lightning, false));
    db.cards.push(mon(1, "Mewtwo ex", Element::Psychic, true));
    db
}

fn board() -> GameState {
    let mut s = GameState::new(7);
    s.players[0].active = Some(PokemonSlot::new(0, 100));
    s.players[1].active = Some(PokemonSlot::new(1, 100));
    s
}

fn all_cards(s: &GameState, p: usize) -> Vec<u16> {
    let mut v: Vec<u16> = Vec::new();
    v.extend(s.players[p].hand.iter());
    v.extend(s.players[p].deck.iter());
    v.extend(s.players[p].discard.iter());
    v.sort();
    v
}

#[test]
fn status_effect_goes_to_its_handler() {
    let mut s = board();
    apply_effect(&mut s, &db(), &EffectKind::ApplyPoison, &EffectContext::new(0));
    assert_eq!(s.players[1].active.as_ref().unwrap().status, 1);
}

#[test]
fn splash_own_bench_damages_each_benched_pokemon() {
    let mut s = board();
    s.players[0].bench[0] = Some(PokemonSlot::new(0, 30));
    s.players[0].bench[2] = Some(PokemonSlot::new(0, 50));
    apply_effect(&mut s, &db(), &EffectKind::SplashBenchOwn { amount: 40 }, &EffectContext::new(0));
    assert_eq!(s.players[0].bench[0].as_ref().unwrap().current_hp, 0);
    assert_eq!(s.players[0].bench[2].as_ref().unwrap().current_hp, 10);
    assert_eq!(s.players[0].active.as_ref().unwrap().current_hp, 100);
}

#[test]
fn random_multi_hit_spreads_all_hits_over_the_opponent() {
    let mut s = board();
    s.players[1].bench[1] = Some(PokemonSlot::new(0, 100));
    apply_effect(&mut s, &db(), &EffectKind::RandomMultiHit { count: 4, amount: 10 }, &EffectContext::new(0));
    let lost = (100 - s.players[1].active.as_ref().unwrap().current_hp)
        + (100 - s.players[1].bench[1].as_ref().unwrap().current_hp);
    assert_eq!(lost, 40);
    assert_eq!(s.players[0].active.as_ref().unwrap().current_hp, 100);
}

#[test]
fn self_damage_needs_a_knock_out() {
    let mut s = board();
    let mut ctx = EffectContext::new(0).with_source(SlotRef::active(0));
    apply_effect(&mut s, &db(), &EffectKind::SelfDamage { amount: 30 }, &ctx);
    assert_eq!(s.players[0].active.as_ref().unwrap().current_hp, 100);
    ctx.extra.insert("opponent_ko".to_string(), 1);
    apply_effect(&mut s, &db(), &EffectKind::SelfDamage { amount: 30 }, &ctx);
    assert_eq!(s.players[0].active.as_ref().unwrap().current_hp, 70);
}

#[test]
fn all_opponent_tools_go_to_the_discard() {
    let mut s = board();
    s.players[1].active.as_mut().unwrap().tool_idx = Some(42);
    let mut b = PokemonSlot::new(0, 60);
    b.tool_idx = Some(43);
    s.players[1].bench[2] = Some(b);
    apply_effect(&mut s, &db(), &EffectKind::DiscardAllOpponentTools, &EffectContext::new(0));
    assert!(s.players[1].active.as_ref().unwrap().tool_idx.is_none());
    assert!(s.players[1].bench[2].as_ref().unwrap().tool_idx.is_none());
    assert_eq!(s.players[1].discard, vec![42, 43]);
}

#[test]
fn moving_damage_heals_self_and_hurts_the_opponent() {
    let mut s = board();
    s.players[0].active.as_mut().unwrap().current_hp = 60;
    apply_effect(&mut s, &db(), &EffectKind::MoveDamageToOpponent { amount: 30 }, &EffectContext::new(0));
    assert_eq!(s.players[0].active.as_ref().unwrap().current_hp, 90);
    assert_eq!(s.players[1].active.as_ref().unwrap().current_hp, 70);
}

#[test]
fn halving_rounds_down() {
    let mut s = board();
    s.players[1].active.as_mut().unwrap().current_hp = 75;
    apply_effect(&mut s, &db(), &EffectKind::HalveOpponentHp, &EffectContext::new(0));
    assert_eq!(s.players[1].active.as_ref().unwrap().current_hp, 37);
}

#[test]
fn zone_attach_uses_the_first_declared_energy_type() {
    let mut s = board();
    s.players[0].energy_types = vec![Element::Psychic];
    s.players[0].energy_available = Some(Element::Fire);
    apply_effect(&mut s, &db(), &EffectKind::AttachEnergyZoneSelf, &EffectContext::new(0));
    assert_eq!(s.players[0].active.as_ref().unwrap().energy[Element::Psychic.idx()], 1);
    apply_effect(&mut s, &db(), &EffectKind::AttachEnergyDiscardNamed { name: "x".to_string() }, &EffectContext::new(0));
    assert_eq!(s.players[0].active.as_ref().unwrap().energy[Element::Fire.idx()], 1);
}

#[test]
fn repeated_bench_attach_stacks_on_the_first_benched_pokemon() {
    let mut s = board();
    s.players[0].bench[1] = Some(PokemonSlot::new(0, 60));
    apply_effect(&mut s, &db(), &EffectKind::AttachEnergyZoneBench { count: 3 }, &EffectContext::new(0));
    assert_eq!(s.players[0].bench[1].as_ref().unwrap().energy[Element::Grass.idx()], 3);
}

#[test]
fn discarding_n_random_energy_stops_when_empty() {
    let mut s = board();
    s.players[0].active.as_mut().unwrap().energy[Element::Water.idx()] = 2;
    apply_effect(&mut s, &db(), &EffectKind::DiscardNEnergySelf { count: 5 }, &EffectContext::new(0));
    assert_eq!(s.players[0].active.as_ref().unwrap().total_energy(), 0);
    assert_eq!(s.players[0].energy_discard[Element::Water.idx()], 2);
}

#[test]
fn no_healing_marks_both_players() {
    let mut s = board();
    apply_effect(&mut s, &db(), &EffectKind::PassiveNoHealing, &EffectContext::new(1));
    assert!(s.players[0].cant_heal_this_turn && s.players[1].cant_heal_this_turn);
}

#[test]
fn damage_modifiers_change_nothing_when_applied() {
    let mut s = board();
    apply_effect(&mut s, &db(), &EffectKind::BonusPerBench { per: 10 }, &EffectContext::new(0));
    assert_eq!(s.players[1].active.as_ref().unwrap().current_hp, 100);
    assert!(s.coin_flip_log.is_empty());
}

#[test]
fn effects_apply_in_order() {
    let mut s = board();
    s.players[0].deck = vec![1, 2, 3, 4];
    let effs = vec![EffectKind::DrawCards { count: 2 }, EffectKind::ShuffleHandIntoDeck, EffectKind::DrawOneCard];
    apply_effects(&mut s, &db(), &effs, &EffectContext::new(0));
    assert_eq!(s.players[0].hand.len(), 1);
    assert_eq!(s.players[0].deck.len(), 3);
}

#[test]
fn card_moving_effects_keep_every_card() {
    let mut s = board();
    s.players[0].deck = vec![1, 2, 3, 4, 5, 6];
    s.players[0].hand = vec![7, 8];
    s.players[1].deck = vec![9, 10, 11];
    s.players[1].hand = vec![12, 13, 14];
    let before0 = all_cards(&s, 0);
    let before1 = all_cards(&s, 1);
    let effs = vec![
        EffectKind::IonoHandShuffle,
        EffectKind::DiscardToDraw { count: 1 },
        EffectKind::DiscardTopDeck,
        EffectKind::DiscardRandomCardOpponent,
        EffectKind::MarsHandShuffle,
    ];
    apply_effects(&mut s, &db(), &effs, &EffectContext::new(0));
    assert_eq!(all_cards(&s, 0), before0);
    assert_eq!(all_cards(&s, 1), before1);
}

#[test]
fn base_damage_is_kept_without_effects() {
    let mut s = board();
    let (d, skip, extra) = compute_damage_modifier(&mut s, &db(), 70, &[], &EffectContext::new(0));
    assert_eq!(d, 70);
    assert!(!skip);
    assert!(extra.is_empty());
}

#[test]
fn supporter_aura_applies_to_ex_defenders_only_when_named() {
    let mut s = board();
    s.players[0].attack_damage_bonus = 20;
    s.players[0].attack_damage_bonus_names = vec!["ex".to_string()];
    let (d, _, _) = compute_damage_modifier(&mut s, &db(), 50, &[], &EffectContext::new(0));
    assert_eq!(d, 70);
    s.players[1].active = Some(PokemonSlot::new(0, 100));
    let (d2, _, _) = compute_damage_modifier(&mut s, &db(), 50, &[], &EffectContext::new(0));
    assert_eq!(d2, 50);
}

#[test]
fn coin_damage_is_narrated() {
    let mut s = board();
    let effs = vec![EffectKind::MultiCoinDamage { count: 3, per: 20 }];
    let (d, _, _) = compute_damage_modifier(&mut s, &db(), 0, &effs, &EffectContext::new(0));
    assert_eq!(s.coin_flip_log.len(), 1);
    let line = &s.coin_flip_log[0];
    assert!(line.starts_with("🪙 3 flips: "));
    assert!(line.ends_with(&format!(" → {}dmg", d)));
    let heads = line.matches('H').count() as i16;
    assert_eq!(d, heads * 20);
}

#[test]
fn flip_until_tails_bonus_ends_with_tails() {
    let mut s = board();
    let effs = vec![EffectKind::FlipUntilTailsBonus { per: 10 }];
    let (d, _, _) = compute_damage_modifier(&mut s, &db(), 30, &effs, &EffectContext::new(0));
    let line = &s.coin_flip_log[0];
    assert!(line.starts_with("🪙 Flip until tails: "));
    let heads = line.matches('H').count() as i16;
    assert!(line.contains("T →"));
    assert_eq!(d, 30 + heads * 10);
}

#[test]
fn bonus_if_opponent_ex_reads_the_defender_card() {
    let mut s = board();
    let effs = vec![EffectKind::BonusIfOpponentEx { bonus: 30 }, EffectKind::BonusIfOpponentDamaged { bonus: 10 }];
    let (d, _, _) = compute_damage_modifier(&mut s, &db(), 40, &effs, &EffectContext::new(0));
    assert_eq!(d, 70);
}

#[test]
fn action_text_lists_every_part() {
    let a = Action::play_rare_candy(2, SlotRef::bench(0, 1), 4);
    assert_eq!(a.to_string(), "Action(PlayCard hand=2 target=p0:bench[1] extra_hand=4)");
    assert_eq!(SlotRef::active(1).to_string(), "p1:active");
    assert_eq!(Action::end_turn().to_string(), "Action(EndTurn)");
}
