use ptcgp::actions::{Action, SlotRef};
use ptcgp::types::ActionKind;


#[test]
fn slot_ref_constructors() {
    let active = SlotRef::active(0);
    assert!(active.is_active());
    assert!(!active.is_bench());
    assert_eq!(active.player, 0);

    let bench = SlotRef::bench(1, 2);
    assert!(bench.is_bench());
    assert_eq!(bench.bench_index(), 2);
    assert_eq!(bench.player, 1);
}

#[test]
fn action_display() {
    let a = Action::attack(0, None);
    let s = a.to_string();
    assert!(s.contains("Attack"));
}

#[test]
fn action_end_turn() {
    let a = Action::end_turn();
    assert_eq!(a.kind, ActionKind::EndTurn);
    assert!(a.hand_index.is_none());
    assert!(a.target.is_none());
}
