use ptcgp::effects::{parse_handler_string, EffectKind};


#[test]
fn parse_simple_handler() {
    let effects = parse_handler_string("heal_self(amount=30)");
    assert_eq!(effects.len(), 1);
    assert_eq!(effects[0], EffectKind::HealSelf { amount: 30 });
}

#[test]
fn parse_chained_handler() {
    let effects = parse_handler_string("apply_poison | self_damage(amount=20)");
    assert_eq!(effects.len(), 2);
    assert_eq!(effects[0], EffectKind::ApplyPoison);
    assert_eq!(effects[1], EffectKind::SelfDamage { amount: 20 });
}

#[test]
fn parse_draw_cards() {
    let effects = parse_handler_string("draw_cards(count=2)");
    assert_eq!(effects[0], EffectKind::DrawCards { count: 2 });
}

#[test]
fn parse_unknown_is_skipped() {
    let effects = parse_handler_string("some_future_effect(x=1)");
    assert!(effects.is_empty());
}

#[test]
fn parse_multi_coin() {
    let effects = parse_handler_string("multi_coin_damage(count=4, per=50)");
    assert_eq!(
        effects[0],
        EffectKind::MultiCoinDamage { count: 4, per: 50 }
    );
}
