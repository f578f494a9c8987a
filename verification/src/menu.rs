//! The labels of the terminal player's menus: one entry per thing to do
//! (a card, attaching energy, an ability, an attack, retreating, ending the
//! turn), and the target choices behind an entry.
use vstd::prelude::*;
use crate::actions::{Action, SlotRef, kind_name};
use crate::card::{Card, CardDb};
use crate::effects::EffectKind;
use crate::state::{GameState, GameView, PokemonSlot, energy_sum, get_slot, read_slot};
use crate::text::{
    chars_eq, decimal, decimal_u64, join_with, joined, parse_usize, parse_usize_chars, push_str, str_eq, string_from_chars, to_chars,
    trim, trim_chars,
};
use crate::types::{ActionKind, CardKind, Stage};

verus! {

/// Every Pokémon on the board, and every card in player `p`'s hand, is a
/// card of the database.
pub open spec fn board_known(g: GameView, db: CardDb, p: int) -> bool {
    &&& forall|r: SlotRef| #[trigger] g.slot(r) matches Some(s) ==> (s.card_idx as int) < db.cards@.len()
    &&& forall|i: int| 0 <= i < g.players[p].hand.len() ==> (#[trigger] g.players[p].hand[i] as int) < db.cards@.len()
}

/// How a spot reads: "active", or "bench" and its number.
pub open spec fn pos_label(r: SlotRef) -> Seq<char> {
    if r.slot == -1 {
        "active"@
    } else {
        "bench "@ + decimal(r.slot as int)
    }
}

/// How an optional spot reads (nothing without one).
pub open spec fn opt_pos(t: Option<SlotRef>) -> Seq<char> {
    match t {
        Some(r) => pos_label(r),
        None => Seq::empty(),
    }
}

/// The name of the Pokémon at spot `t`, if there is one.
pub open spec fn name_at(g: GameView, db: CardDb, t: Option<SlotRef>) -> Option<Seq<char>> {
    match t {
        Some(r) => match g.slot(r) {
            Some(s) => Some(db.cards@[s.card_idx as int].name@),
            None => None,
        },
        None => None,
    }
}

/// `o`'s text, or `dflt`.
pub open spec fn or_else(o: Option<Seq<char>>, dflt: Seq<char>) -> Seq<char> {
    match o {
        Some(n) => n,
        None => dflt,
    }
}

/// The card in player `p`'s hand at `h`, if there is one.
pub open spec fn hand_card(g: GameView, db: CardDb, p: int, h: Option<usize>) -> Option<Card> {
    match h {
        Some(i) => if i < g.players[p].hand.len() {
            Some(db.cards@[g.players[p].hand[i as int] as int])
        } else {
            None
        },
        None => None,
    }
}

fn push_chars(v: &mut Vec<char>, w: &Vec<char>)
    ensures
        final(v)@ == old(v)@ + w@,
{
    let mut i: usize = 0;
    while i < w.len()
        invariant
            i <= w@.len(),
            v@ == old(v)@ + w@.subrange(0, i as int),
        decreases w.len() - i,
    {
        v.push(w[i]);
        i = i + 1;
        assert(v@ =~= old(v)@ + w@.subrange(0, i as int));
    }
    assert(w@.subrange(0, w@.len() as int) =~= w@);
}

fn push_pos(v: &mut Vec<char>, r: SlotRef)
    ensures
        final(v)@ == old(v)@ + pos_label(r),
{
    let ghost v0 = v@;
    if r.slot == -1 {
        push_str(v, "active");
    } else {
        push_str(v, "bench ");
        if r.slot < 0 {
            v.push('-');
            let d = decimal_u64((-(r.slot as i16)) as u64);
            push_chars(v, &d);
            assert(decimal(r.slot as int) =~= seq!['-'] + decimal(-(r.slot as int)));
        } else {
            let d = decimal_u64(r.slot as u64);
            push_chars(v, &d);
        }
        assert(v@ =~= v0 + pos_label(r));
    }
}

fn push_opt_pos(v: &mut Vec<char>, t: Option<SlotRef>)
    ensures
        final(v)@ == old(v)@ + opt_pos(t),
{
    match t {
        Some(r) => push_pos(v, r),
        None => {
            assert(v@ =~= v@ + opt_pos(t));
        },
    }
}

/// The name of the Pokémon at `t`, or `dflt`.
fn push_name_at(v: &mut Vec<char>, state: &GameState, db: &CardDb, t: Option<SlotRef>, dflt: &str)
    requires
        board_known(state@, *db, 0) || board_known(state@, *db, 1),
    ensures
        final(v)@ == old(v)@ + or_else(name_at(state@, *db, t), dflt@),
{
    let slot = match t {
        Some(r) => get_slot(state, r),
        None => None,
    };
    match slot {
        Some(s) => {
            let ghost r = t->0;
            assert(state@.slot(r) matches Some(x) && (x.card_idx as int) < db.cards@.len());
            push_str(v, db.get_by_idx(s.card_idx).name.as_str());
        },
        None => push_str(v, dflt),
    }
}

fn label(v: Vec<char>) -> (r: String)
    ensures
        r@ == v@,
{
    string_from_chars(v.as_slice())
}

/// How a spot reads in a menu: "active" or "bench" and its number.
pub fn slot_pos_label(slot_ref: SlotRef) -> (r: String)
    ensures
        r@ == pos_label(slot_ref),
{
    let mut v: Vec<char> = Vec::new();
    push_pos(&mut v, slot_ref);
    assert(v@ =~= pos_label(slot_ref));
    label(v)
}

/// How a setup-phase choice reads.
pub open spec fn setup_text(a: Action, g: GameView, db: CardDb, p: int) -> Seq<char> {
    match a.kind {
        ActionKind::EndTurn => "Done (end setup)"@,
        ActionKind::Promote => "Promote "@ + or_else(name_at(g, db, a.target), "?"@) + " to Active"@,
        ActionKind::PlayCard => match hand_card(g, db, p, a.hand_index) {
            Some(c) => match a.target {
                Some(t) => "Place "@ + c.name@ + " on "@ + (if t.slot == -1 { "active"@ } else { "bench "@ + decimal(t.slot as int) }),
                None => "Place "@ + c.name@,
            },
            None => "Play card"@,
        },
        _ => kind_name(a.kind),
    }
}

fn push_kind(v: &mut Vec<char>, k: ActionKind)
    ensures
        final(v)@ == old(v)@ + kind_name(k),
{
    match k {
        ActionKind::EndTurn => push_str(v, "EndTurn"),
        ActionKind::Attack => push_str(v, "Attack"),
        ActionKind::PlayCard => push_str(v, "PlayCard"),
        ActionKind::AttachEnergy => push_str(v, "AttachEnergy"),
        ActionKind::Evolve => push_str(v, "Evolve"),
        ActionKind::UseAbility => push_str(v, "UseAbility"),
        ActionKind::Retreat => push_str(v, "Retreat"),
        ActionKind::Promote => push_str(v, "Promote"),
    }
}

/// The card of player `p`'s hand at `h`, if there is one.
fn hand_card_of<'a>(state: &GameState, db: &'a CardDb, p: usize, h: Option<usize>) -> (r: Option<&'a Card>)
    requires
        p < 2,
        board_known(state@, *db, p as int),
    ensures
        match hand_card(state@, *db, p as int, h) {
            Some(c) => r == Some(&c),
            None => r is None,
        },
{
    match h {
        Some(i) => {
            if i < state.players[p].hand.len() {
                let ci = state.players[p].hand[i];
                assert(state@.players[p as int].hand[i as int] == ci);
                Some(db.get_by_idx(ci))
            } else {
                None
            }
        },
        None => None,
    }
}

/// How a choice of the setup phase (or of promoting a benched Pokémon) reads.
pub fn describe_setup_action(action: &Action, state: &GameState, db: &CardDb, player_idx: usize) -> (r: String)
    requires
        player_idx < 2,
        board_known(state@, *db, player_idx as int),
    ensures
        r@ == setup_text(*action, state@, *db, player_idx as int),
{
    let mut v: Vec<char> = Vec::new();
    match action.kind {
        ActionKind::EndTurn => push_str(&mut v, "Done (end setup)"),
        ActionKind::Promote => {
            push_str(&mut v, "Promote ");
            push_name_at(&mut v, state, db, action.target, "?");
            push_str(&mut v, " to Active");
        },
        ActionKind::PlayCard => {
            match hand_card_of(state, db, player_idx, action.hand_index) {
                Some(card) => {
                    push_str(&mut v, "Place ");
                    push_str(&mut v, card.name.as_str());
                    if let Some(t) = action.target {
                        push_str(&mut v, " on ");
                        push_pos(&mut v, t);
                    }
                },
                None => push_str(&mut v, "Play card"),
            }
        },
        _ => push_kind(&mut v, action.kind),
    }
    assert(v@ =~= setup_text(*action, state@, *db, player_idx as int));
    label(v)
}


/// `", <hp>/<max hp> HP"` for the Pokémon at `t` (nothing without one).
pub open spec fn hp_suffix(g: GameView, t: Option<SlotRef>) -> Seq<char> {
    match t {
        Some(r) => match g.slot(r) {
            Some(s) => ", "@ + decimal(s.current_hp as int) + "/"@ + decimal(s.max_hp as int) + " HP"@,
            None => Seq::empty(),
        },
        None => Seq::empty(),
    }
}

/// `", <n> energy attached"` for the Pokémon at `t` (nothing without one).
pub open spec fn energy_suffix(g: GameView, t: Option<SlotRef>) -> Seq<char> {
    match t {
        Some(r) => match g.slot(r) {
            Some(s) => ", "@ + decimal(energy_sum(s.energy@)) + " energy attached"@,
            None => Seq::empty(),
        },
        None => Seq::empty(),
    }
}

/// The name of the card of player `p`'s hand at `h`, if there is one.
pub open spec fn hand_name(g: GameView, db: CardDb, p: int, h: Option<usize>) -> Option<Seq<char>> {
    match hand_card(g, db, p, h) {
        Some(c) => Some(c.name@),
        None => None,
    }
}

/// How a target choice reads.
pub open spec fn target_text(a: Action, g: GameView, db: CardDb, p: int) -> Seq<char> {
    let name = or_else(name_at(g, db, a.target), "?"@);
    match a.kind {
        ActionKind::PlayCard => match hand_card(g, db, p, a.hand_index) {
            None => "?"@,
            Some(c) => if a.extra_hand_index is Some {
                name + " ("@ + opt_pos(a.target) + ") → "@ + or_else(hand_name(g, db, p, a.extra_hand_index), "?"@)
            } else {
                match a.target {
                    Some(t) => match c.kind {
                        CardKind::Item => name + " ("@ + pos_label(t) + hp_suffix(g, a.target) + ")"@,
                        CardKind::Pokemon => "bench slot "@ + decimal(t.slot as int),
                        _ => name + " ("@ + pos_label(t) + ")"@,
                    },
                    None => "?"@,
                }
            },
        },
        ActionKind::Evolve => name + " ("@ + opt_pos(a.target) + ")"@,
        ActionKind::AttachEnergy => name + " ("@ + opt_pos(a.target) + energy_suffix(g, a.target) + ")"@,
        ActionKind::Retreat => name + " ("@ + opt_pos(a.target) + hp_suffix(g, a.target) + ")"@,
        _ => kind_name(a.kind),
    }
}

fn push_i16(v: &mut Vec<char>, n: i16)
    ensures
        final(v)@ == old(v)@ + decimal(n as int),
{
    if n < 0 {
        v.push('-');
        let d = decimal_u64((-(n as i32)) as u64);
        push_chars(v, &d);
        assert(decimal(n as int) =~= seq!['-'] + decimal(-(n as int)));
    } else {
        let d = decimal_u64(n as u64);
        push_chars(v, &d);
    }
}

fn push_hp_suffix(v: &mut Vec<char>, state: &GameState, t: Option<SlotRef>)
    ensures
        final(v)@ == old(v)@ + hp_suffix(state@, t),
{
    let ghost v0 = v@;
    let slot = match t {
        Some(r) => read_slot(state, r),
        None => None,
    };
    match slot {
        Some(s) => {
            push_str(v, ", ");
            push_i16(v, s.current_hp);
            push_str(v, "/");
            push_i16(v, s.max_hp);
            push_str(v, " HP");
        },
        None => {},
    }
    assert(v@ =~= v0 + hp_suffix(state@, t));
}

/// Every Pokémon on the board carries at most 255 energy.
pub open spec fn energy_counts_fit(g: GameView) -> bool {
    forall|r: SlotRef| #[trigger] g.slot(r) matches Some(s) ==> energy_sum(s.energy@) <= 255
}

fn push_energy_suffix(v: &mut Vec<char>, state: &GameState, t: Option<SlotRef>)
    requires
        energy_counts_fit(state@),
    ensures
        final(v)@ == old(v)@ + energy_suffix(state@, t),
{
    let ghost v0 = v@;
    let slot = match t {
        Some(r) => read_slot(state, r),
        None => None,
    };
    match slot {
        Some(s) => {
            push_str(v, ", ");
            let total = s.total_energy();
            let d = decimal_u64(total as u64);
            push_chars(v, &d);
            push_str(v, " energy attached");
        },
        None => {},
    }
    assert(v@ =~= v0 + energy_suffix(state@, t));
}

/// How a target choice of the second menu level reads.
pub fn describe_target(action: &Action, state: &GameState, db: &CardDb, player_idx: usize) -> (r: String)
    requires
        player_idx < 2,
        board_known(state@, *db, player_idx as int),
        energy_counts_fit(state@),
    ensures
        r@ == target_text(*action, state@, *db, player_idx as int),
{
    let ghost g = state@;
    let ghost p = player_idx as int;
    let ghost name = or_else(name_at(g, *db, action.target), "?"@);
    let mut v: Vec<char> = Vec::new();
    match action.kind {
        ActionKind::PlayCard => {
            match hand_card_of(state, db, player_idx, action.hand_index) {
                None => push_str(&mut v, "?"),
                Some(card) => {
                    if action.extra_hand_index.is_some() {
                        push_name_at(&mut v, state, db, action.target, "?");
                        push_str(&mut v, " (");
                        push_opt_pos(&mut v, action.target);
                        push_str(&mut v, ") → ");
                        match hand_card_of(state, db, player_idx, action.extra_hand_index) {
                            Some(evo) => push_str(&mut v, evo.name.as_str()),
                            None => push_str(&mut v, "?"),
                        }
                    } else {
                        match action.target {
                            Some(t) => {
                                match card.kind {
                                    CardKind::Item => {
                                        push_name_at(&mut v, state, db, action.target, "?");
                                        push_str(&mut v, " (");
                                        push_pos(&mut v, t);
                                        push_hp_suffix(&mut v, state, action.target);
                                        push_str(&mut v, ")");
                                    },
                                    CardKind::Pokemon => {
                                        push_str(&mut v, "bench slot ");
                                        if t.slot < 0 {
                                            v.push('-');
                                            let d = decimal_u64((-(t.slot as i16)) as u64);
                                            push_chars(&mut v, &d);
                                            assert(decimal(t.slot as int) =~= seq!['-'] + decimal(-(t.slot as int)));
                                        } else {
                                            let d = decimal_u64(t.slot as u64);
                                            push_chars(&mut v, &d);
                                        }
                                    },
                                    _ => {
                                        push_name_at(&mut v, state, db, action.target, "?");
                                        push_str(&mut v, " (");
                                        push_pos(&mut v, t);
                                        push_str(&mut v, ")");
                                    },
                                }
                            },
                            None => push_str(&mut v, "?"),
                        }
                    }
                },
            }
        },
        ActionKind::Evolve => {
            push_name_at(&mut v, state, db, action.target, "?");
            push_str(&mut v, " (");
            push_opt_pos(&mut v, action.target);
            push_str(&mut v, ")");
        },
        ActionKind::AttachEnergy => {
            push_name_at(&mut v, state, db, action.target, "?");
            push_str(&mut v, " (");
            push_opt_pos(&mut v, action.target);
            push_energy_suffix(&mut v, state, action.target);
            push_str(&mut v, ")");
        },
        ActionKind::Retreat => {
            push_name_at(&mut v, state, db, action.target, "?");
            push_str(&mut v, " (");
            push_opt_pos(&mut v, action.target);
            push_hp_suffix(&mut v, state, action.target);
            push_str(&mut v, ")");
        },
        _ => push_kind(&mut v, action.kind),
    }
    assert(v@ =~= target_text(*action, state@, *db, player_idx as int));
    label(v)
}


/// The texts of `s`, each kept at its first occurrence only.
pub open spec fn firsts(s: Seq<Seq<char>>) -> Seq<Seq<char>>
    decreases s.len(),
{
    if s.len() == 0 {
        Seq::empty()
    } else {
        let prev = firsts(s.drop_last());
        if prev.contains(s.last()) {
            prev
        } else {
            prev.push(s.last())
        }
    }
}

/// For the actions of `group`, the names of the Stage 2 cards they play
/// from the hand, where the hand has them.
pub open spec fn evo_names(g: GameView, db: CardDb, p: int, acts: Seq<Action>, group: Seq<usize>) -> Seq<Seq<char>>
    decreases group.len(),
{
    if group.len() == 0 {
        Seq::empty()
    } else {
        evo_names(g, db, p, acts, group.drop_last()) + match hand_name(g, db, p, acts[group.last() as int].extra_hand_index) {
            Some(n) => seq![n],
            None => Seq::empty(),
        }
    }
}

/// For the actions of `group`, the names of the Pokémon they target ("?"
/// for none).
pub open spec fn base_names(g: GameView, db: CardDb, acts: Seq<Action>, group: Seq<usize>) -> Seq<Seq<char>>
    decreases group.len(),
{
    if group.len() == 0 {
        Seq::empty()
    } else {
        base_names(g, db, acts, group.drop_last()).push(or_else(name_at(g, db, acts[group.last() as int].target), "?"@))
    }
}

/// The card heals a chosen Pokémon.
pub open spec fn heals_target(c: Card) -> bool {
    exists|i: int|
        0 <= i < c.trainer_effects@.len() && (#[trigger] c.trainer_effects@[i] is HealTarget || c.trainer_effects@[i] is HealAndCureStatus)
}

/// `" (<hp>/<max hp>HP)"` for the Pokémon at `t` (nothing without one).
pub open spec fn hp_tag(g: GameView, t: Option<SlotRef>) -> Seq<char> {
    match t {
        Some(r) => match g.slot(r) {
            Some(s) => " ("@ + decimal(s.current_hp as int) + "/"@ + decimal(s.max_hp as int) + "HP)"@,
            None => Seq::empty(),
        },
        None => Seq::empty(),
    }
}

/// How the first-level entry of a card reads; `first` is the first of its
/// actions, `group` all of them (positions in `acts`).
pub open spec fn card_entry_text(first: Action, group: Seq<usize>, acts: Seq<Action>, g: GameView, db: CardDb, p: int) -> Seq<char> {
    match hand_card(g, db, p, first.hand_index) {
        None => "Play card"@,
        Some(card) => match first.kind {
            ActionKind::Evolve => {
                let base_name = match card.evolves_from {
                    Some(e) => e@,
                    None => "?"@,
                };
                if group.len() == 1 {
                    "Evolve "@ + or_else(name_at(g, db, first.target), base_name) + " → "@ + card.name@ + "  ("@ + opt_pos(first.target)
                        + ")"@
                } else {
                    "Evolve "@ + base_name + " → "@ + card.name@ + " (choose target)"@
                }
            },
            ActionKind::PlayCard => if first.extra_hand_index is Some {
                let bases = joined(firsts(base_names(g, db, acts, group)), " / "@);
                let evos = joined(firsts(evo_names(g, db, p, acts, group)), " / "@);
                if group.len() == 1 {
                    "Rare Candy: "@ + bases + " → "@ + evos + "  ("@ + opt_pos(first.target) + ")"@
                } else {
                    "Rare Candy: "@ + bases + " → "@ + evos
                }
            } else {
                match card.kind {
                    CardKind::Pokemon => "Play "@ + card.name@ + " to bench"@,
                    CardKind::Tool => if group.len() == 1 {
                        "Attach "@ + card.name@ + " to "@ + or_else(name_at(g, db, first.target), "?"@) + " ("@ + opt_pos(first.target)
                            + ")"@
                    } else {
                        "Attach "@ + card.name@ + " (choose target)"@
                    },
                    CardKind::Item => if heals_target(card) && group.len() == 1 {
                        "Play "@ + card.name@ + " → heal "@ + or_else(name_at(g, db, first.target), "?"@) + hp_tag(g, first.target)
                    } else {
                        "Play "@ + card.name@
                    },
                    CardKind::Supporter => "Play "@ + card.name@,
                }
            },
            _ => "Play card"@,
        },
    }
}

/// Whether `list` holds `x`.
fn list_has(list: &Vec<Vec<char>>, x: &Vec<char>) -> (r: bool)
    ensures
        r == list@.map_values(|v: Vec<char>| v@).contains(x@),
{
    let ghost ls = list@.map_values(|v: Vec<char>| v@);
    let mut i: usize = 0;
    while i < list.len()
        invariant
            i <= list@.len(),
            ls == list@.map_values(|v: Vec<char>| v@),
            forall|j: int| 0 <= j < i ==> ls[j] != x@,
        decreases list.len() - i,
    {
        if chars_eq(list[i].as_slice(), x.as_slice()) {
            assert(ls[i as int] == x@);
            return true;
        }
        i = i + 1;
    }
    proof {
        if ls.contains(x@) {
            let j = choose|j: int| 0 <= j < ls.len() && ls[j] == x@;
            assert(ls[j] != x@);
        }
    }
    false
}

/// Appends `x` to `list` unless it is there already.
fn push_first(list: &mut Vec<Vec<char>>, x: Vec<char>)
    ensures
        ({
            let before = old(list)@.map_values(|v: Vec<char>| v@);
            final(list)@.map_values(|v: Vec<char>| v@) == if before.contains(x@) { before } else { before.push(x@) }
        }),
{
    let ghost before = list@.map_values(|v: Vec<char>| v@);
    if !list_has(list, &x) {
        let ghost xv = x@;
        list.push(x);
        assert(list@.map_values(|v: Vec<char>| v@) =~= before.push(xv));
    }
}

/// The characters of the name of the Pokémon at `t`, or `dflt`.
fn name_chars_at(state: &GameState, db: &CardDb, t: Option<SlotRef>, dflt: &str) -> (r: Vec<char>)
    requires
        board_known(state@, *db, 0) || board_known(state@, *db, 1),
    ensures
        r@ == or_else(name_at(state@, *db, t), dflt@),
{
    let mut v: Vec<char> = Vec::new();
    push_name_at(&mut v, state, db, t, dflt);
    assert(v@ =~= or_else(name_at(state@, *db, t), dflt@));
    v
}

/// The Rare Candy names of a group: the targets' names and the Stage 2
/// names, each kept once, joined by " / ".
fn candy_names(
    group: &[usize],
    all_actions: &[Action],
    state: &GameState,
    db: &CardDb,
    player_idx: usize,
) -> (r: (Vec<char>, Vec<char>))
    requires
        player_idx < 2,
        board_known(state@, *db, player_idx as int),
        forall|k: int| 0 <= k < group@.len() ==> (#[trigger] group@[k] as int) < all_actions@.len(),
    ensures
        r.0@ == joined(firsts(base_names(state@, *db, all_actions@, group@)), " / "@),
        r.1@ == joined(firsts(evo_names(state@, *db, player_idx as int, all_actions@, group@)), " / "@),
{
    let mut bases: Vec<Vec<char>> = Vec::new();
    let mut evos: Vec<Vec<char>> = Vec::new();
    let mut k: usize = 0;
    while k < group.len()
        invariant
            player_idx < 2,
            board_known(state@, *db, player_idx as int),
            k <= group@.len(),
            forall|q: int| 0 <= q < group@.len() ==> (#[trigger] group@[q] as int) < all_actions@.len(),
            bases@.map_values(|v: Vec<char>| v@) == firsts(base_names(state@, *db, all_actions@, group@.subrange(0, k as int))),
            evos@.map_values(|v: Vec<char>| v@) == firsts(evo_names(state@, *db, player_idx as int, all_actions@, group@.subrange(0, k as int))),
        decreases group.len() - k,
    {
        let ghost pre = group@.subrange(0, k as int);
        let ghost now = group@.subrange(0, k + 1);
        assert(now.drop_last() =~= pre);
        assert(now.last() == group@[k as int]);
        let a = &all_actions[group[k]];
        match hand_card_of(state, db, player_idx, a.extra_hand_index) {
            Some(evo) => {
                let n = to_chars(evo.name.as_str());
                push_first(&mut evos, n);
                proof {
                    let en = evo_names(state@, *db, player_idx as int, all_actions@, now);
                    assert(en =~= evo_names(state@, *db, player_idx as int, all_actions@, pre).push(evo.name@));
                    assert(en.drop_last() =~= evo_names(state@, *db, player_idx as int, all_actions@, pre));
                    assert(en.last() == evo.name@);
                }
            },
            None => {
                assert(evo_names(state@, *db, player_idx as int, all_actions@, now) =~= evo_names(state@, *db, player_idx as int, all_actions@, pre));
            },
        }
        let b = name_chars_at(state, db, a.target, "?");
        let ghost bv = b@;
        push_first(&mut bases, b);
        proof {
            let bn = base_names(state@, *db, all_actions@, now);
            assert(bn =~= base_names(state@, *db, all_actions@, pre).push(bv));
            assert(bn.drop_last() =~= base_names(state@, *db, all_actions@, pre));
            assert(bn.last() == bv);
        }
        k = k + 1;
    }
    assert(group@.subrange(0, group@.len() as int) =~= group@);
    (join_with(&bases, " / "), join_with(&evos, " / "))
}


/// Whether the card heals a chosen Pokémon.
fn card_heals_target(c: &Card) -> (r: bool)
    ensures
        r == heals_target(*c),
{
    let mut i: usize = 0;
    while i < c.trainer_effects.len()
        invariant
            i <= c.trainer_effects@.len(),
            forall|j: int| 0 <= j < i ==> !(#[trigger] c.trainer_effects@[j] is HealTarget || c.trainer_effects@[j] is HealAndCureStatus),
        decreases c.trainer_effects.len() - i,
    {
        match &c.trainer_effects[i] {
            EffectKind::HealTarget { .. } | EffectKind::HealAndCureStatus { .. } => {
                return true;
            },
            _ => {},
        }
        i = i + 1;
    }
    false
}

fn push_hp_tag(v: &mut Vec<char>, state: &GameState, t: Option<SlotRef>)
    ensures
        final(v)@ == old(v)@ + hp_tag(state@, t),
{
    let ghost v0 = v@;
    let slot = match t {
        Some(r) => read_slot(state, r),
        None => None,
    };
    match slot {
        Some(s) => {
            push_str(v, " (");
            push_i16(v, s.current_hp);
            push_str(v, "/");
            push_i16(v, s.max_hp);
            push_str(v, "HP)");
        },
        None => {},
    }
    assert(v@ =~= v0 + hp_tag(state@, t));
}

/// How the first-level menu entry of a card reads: `first` is the first of
/// its actions, `group` the positions of all of them in `all_actions`.
pub fn card_level1_label(
    first: &Action,
    group: &[usize],
    all_actions: &[Action],
    state: &GameState,
    db: &CardDb,
    player_idx: usize,
) -> (r: String)
    requires
        player_idx < 2,
        board_known(state@, *db, player_idx as int),
        forall|k: int| 0 <= k < group@.len() ==> (#[trigger] group@[k] as int) < all_actions@.len(),
    ensures
        r@ == card_entry_text(*first, group@, all_actions@, state@, *db, player_idx as int),
{
    let card = match hand_card_of(state, db, player_idx, first.hand_index) {
        Some(c) => c,
        None => {
            return label(to_chars("Play card"));
        },
    };
    let mut v: Vec<char> = Vec::new();
    match first.kind {
        ActionKind::Evolve => {
            let base_name: Vec<char> = match &card.evolves_from {
                Some(e) => to_chars(e.as_str()),
                None => to_chars("?"),
            };
            push_str(&mut v, "Evolve ");
            if group.len() == 1 {
                let name = match first.target {
                    Some(t) => match get_slot(state, t) {
                        Some(s) => {
                            assert(state@.slot(t) matches Some(x) && (x.card_idx as int) < db.cards@.len());
                            to_chars(db.get_by_idx(s.card_idx).name.as_str())
                        },
                        None => base_name,
                    },
                    None => base_name,
                };
                push_chars(&mut v, &name);
                push_str(&mut v, " → ");
                push_str(&mut v, card.name.as_str());
                push_str(&mut v, "  (");
                push_opt_pos(&mut v, first.target);
                push_str(&mut v, ")");
            } else {
                push_chars(&mut v, &base_name);
                push_str(&mut v, " → ");
                push_str(&mut v, card.name.as_str());
                push_str(&mut v, " (choose target)");
            }
        },
        ActionKind::PlayCard => {
            if first.extra_hand_index.is_some() {
                let (bases, evos) = candy_names(group, all_actions, state, db, player_idx);
                push_str(&mut v, "Rare Candy: ");
                push_chars(&mut v, &bases);
                push_str(&mut v, " → ");
                push_chars(&mut v, &evos);
                if group.len() == 1 {
                    push_str(&mut v, "  (");
                    push_opt_pos(&mut v, first.target);
                    push_str(&mut v, ")");
                }
            } else {
                match card.kind {
                    CardKind::Pokemon => {
                        push_str(&mut v, "Play ");
                        push_str(&mut v, card.name.as_str());
                        push_str(&mut v, " to bench");
                    },
                    CardKind::Tool => {
                        push_str(&mut v, "Attach ");
                        push_str(&mut v, card.name.as_str());
                        if group.len() == 1 {
                            push_str(&mut v, " to ");
                            push_name_at(&mut v, state, db, first.target, "?");
                            push_str(&mut v, " (");
                            push_opt_pos(&mut v, first.target);
                            push_str(&mut v, ")");
                        } else {
                            push_str(&mut v, " (choose target)");
                        }
                    },
                    CardKind::Item => {
                        push_str(&mut v, "Play ");
                        push_str(&mut v, card.name.as_str());
                        if card_heals_target(card) && group.len() == 1 {
                            push_str(&mut v, " → heal ");
                            push_name_at(&mut v, state, db, first.target, "?");
                            push_hp_tag(&mut v, state, first.target);
                        }
                    },
                    CardKind::Supporter => {
                        push_str(&mut v, "Play ");
                        push_str(&mut v, card.name.as_str());
                    },
                }
            }
        },
        _ => push_str(&mut v, "Play card"),
    }
    assert(v@ =~= card_entry_text(*first, group@, all_actions@, state@, *db, player_idx as int));
    label(v)
}


/// The player at the terminal, who picks from these menus.
pub struct HumanAgent {
    pub player_index: usize,
}

impl HumanAgent {
    pub fn new(player_index: usize) -> (r: Self)
        ensures
            r.player_index == player_index,
    {
        Self { player_index }
    }
}

/// One entry of the first-level menu: its label, and the positions (in the
/// list of legal actions) of the actions behind it: one runs at once,
/// several open the target menu.
pub struct MenuItem {
    pub label: String,
    pub action_indices: Vec<usize>,
}

/// The mathematical picture of a menu entry.
pub struct MenuEntry {
    pub label: Seq<char>,
    pub indices: Seq<usize>,
}

/// The pictures of `items`.
pub open spec fn menu_view(items: Seq<MenuItem>) -> Seq<MenuEntry> {
    items.map_values(|m: MenuItem| MenuEntry { label: m.label@, indices: m.action_indices@ })
}

/// An action that plays or evolves with a card of the hand.
pub open spec fn is_card_action(a: Action) -> bool {
    a.kind == ActionKind::PlayCard || a.kind == ActionKind::Evolve
}

/// The positions below `k` of the card actions using hand card `h`.
pub open spec fn hand_group(acts: Seq<Action>, k: int, h: usize) -> Seq<usize>
    decreases k,
{
    if k <= 0 {
        Seq::empty()
    } else {
        hand_group(acts, k - 1, h) + if is_card_action(acts[k - 1]) && acts[k - 1].hand_index == Some(h) {
            seq![(k - 1) as usize]
        } else {
            Seq::empty()
        }
    }
}

/// The positions below `k` of the actions of kind `kind`.
pub open spec fn kind_positions(acts: Seq<Action>, k: int, kind: ActionKind) -> Seq<usize>
    decreases k,
{
    if k <= 0 {
        Seq::empty()
    } else {
        kind_positions(acts, k - 1, kind) + if acts[k - 1].kind == kind { seq![(k - 1) as usize] } else { Seq::empty() }
    }
}

/// Action `i` is the first card action of its hand card.
pub open spec fn first_for_hand(acts: Seq<Action>, i: int) -> bool {
    &&& is_card_action(acts[i])
    &&& acts[i].hand_index is Some
    &&& forall|j: int| 0 <= j < i ==> !(is_card_action(#[trigger] acts[j]) && acts[j].hand_index == acts[i].hand_index)
}

/// The menu entry of the card that action `i` plays: all the actions of
/// that card, or only the first when a Basic Pokémon goes to the bench
/// (its bench spot is picked for the player).
pub open spec fn card_entry(acts: Seq<Action>, i: int, g: GameView, db: CardDb, p: int) -> MenuEntry {
    let h = acts[i].hand_index->0;
    let group = hand_group(acts, acts.len() as int, h);
    let basic_to_bench = acts[i].kind == ActionKind::PlayCard && (hand_card(g, db, p, Some(h)) matches Some(c)
        && c.kind == CardKind::Pokemon && c.stage == Some(Stage::Basic)) && group.len() > 1;
    MenuEntry {
        label: card_entry_text(acts[i], group, acts, g, db, p),
        indices: if basic_to_bench { seq![group[0]] } else { group },
    }
}

/// The card entries for the actions below `k`.
pub open spec fn card_entries(acts: Seq<Action>, k: int, g: GameView, db: CardDb, p: int) -> Seq<MenuEntry>
    decreases k,
{
    if k <= 0 {
        Seq::empty()
    } else {
        card_entries(acts, k - 1, g, db, p) + if first_for_hand(acts, k - 1) {
            seq![card_entry(acts, k - 1, g, db, p)]
        } else {
            Seq::empty()
        }
    }
}

/// The entry for attaching energy, if any action attaches energy; `mark`
/// stands for the energy on offer.
pub open spec fn attach_entries(acts: Seq<Action>, g: GameView, db: CardDb, mark: Seq<char>) -> Seq<MenuEntry> {
    let a = kind_positions(acts, acts.len() as int, ActionKind::AttachEnergy);
    if a.len() == 0 {
        Seq::empty()
    } else {
        let t = acts[a[0] as int].target;
        seq![
            MenuEntry {
                label: if a.len() == 1 {
                    "Attach "@ + mark + " energy → "@ + or_else(name_at(g, db, t), "?"@) + " ("@ + opt_pos(t) + ")"@
                } else {
                    "Attach "@ + mark + " energy"@
                },
                indices: a,
            },
        ]
    }
}

/// The name of the ability of the Pokémon at `t` ("ability" without one).
pub open spec fn ability_name(g: GameView, db: CardDb, t: Option<SlotRef>) -> Seq<char> {
    match t {
        Some(r) => match g.slot(r) {
            Some(s) => match db.cards@[s.card_idx as int].ability {
                Some(ab) => ab.name@,
                None => "ability"@,
            },
            None => "ability"@,
        },
        None => "ability"@,
    }
}

/// One entry per ability use below `k`.
pub open spec fn ability_entries(acts: Seq<Action>, k: int, g: GameView, db: CardDb) -> Seq<MenuEntry>
    decreases k,
{
    if k <= 0 {
        Seq::empty()
    } else {
        let a = acts[k - 1];
        ability_entries(acts, k - 1, g, db) + if a.kind == ActionKind::UseAbility {
            seq![
                MenuEntry {
                    label: "Use "@ + or_else(name_at(g, db, a.target), "?"@) + "'s "@ + ability_name(g, db, a.target) + " ("@
                        + opt_pos(a.target) + ")"@,
                    indices: seq![(k - 1) as usize],
                },
            ]
        } else {
            Seq::empty()
        }
    }
}

/// How an attack entry reads; `costs` are the cost texts of the active
/// card's attacks.
pub open spec fn attack_text(a: Action, g: GameView, db: CardDb, p: int, costs: Seq<Seq<char>>) -> Seq<char> {
    match g.players[p].active {
        Some(s) => {
            let card = db.cards@[s.card_idx as int];
            let ai: int = match a.attack_index {
                Some(x) => x as int,
                None => 0,
            };
            if ai < card.attacks@.len() {
                "Attack: "@ + card.attacks@[ai].name@ + " ("@ + decimal(card.attacks@[ai].damage as int) + "dmg)  ["@ + costs[ai] + "]"@
            } else {
                "Attack"@
            }
        },
        None => "Attack"@,
    }
}

/// One entry per attack below `k`.
pub open spec fn attack_entries(acts: Seq<Action>, k: int, g: GameView, db: CardDb, p: int, costs: Seq<Seq<char>>) -> Seq<MenuEntry>
    decreases k,
{
    if k <= 0 {
        Seq::empty()
    } else {
        attack_entries(acts, k - 1, g, db, p, costs) + if acts[k - 1].kind == ActionKind::Attack {
            seq![MenuEntry { label: attack_text(acts[k - 1], g, db, p, costs), indices: seq![(k - 1) as usize] }]
        } else {
            Seq::empty()
        }
    }
}

/// The entry for retreating, if any action retreats.
pub open spec fn retreat_entries(acts: Seq<Action>, g: GameView, db: CardDb) -> Seq<MenuEntry> {
    let r = kind_positions(acts, acts.len() as int, ActionKind::Retreat);
    if r.len() == 0 {
        Seq::empty()
    } else {
        let t = acts[r[0] as int].target;
        seq![
            MenuEntry {
                label: if r.len() == 1 {
                    "Retreat → switch in "@ + or_else(name_at(g, db, t), "?"@) + " ("@ + opt_pos(t) + ")"@
                } else {
                    "Retreat"@
                },
                indices: r,
            },
        ]
    }
}

/// The entry for ending the turn, for the first such action.
pub open spec fn end_entries(acts: Seq<Action>) -> Seq<MenuEntry> {
    let e = kind_positions(acts, acts.len() as int, ActionKind::EndTurn);
    if e.len() == 0 {
        Seq::empty()
    } else {
        seq![MenuEntry { label: "End turn"@, indices: seq![e[0]] }]
    }
}

/// The first-level menu: the cards (one entry per hand card), attaching
/// energy, each ability, each attack, retreating, ending the turn.
pub open spec fn menu_entries(acts: Seq<Action>, g: GameView, db: CardDb, p: int, mark: Seq<char>, costs: Seq<Seq<char>>) -> Seq<MenuEntry> {
    card_entries(acts, acts.len() as int, g, db, p) + attach_entries(acts, g, db, mark) + ability_entries(acts, acts.len() as int, g, db)
        + attack_entries(acts, acts.len() as int, g, db, p, costs) + retreat_entries(acts, g, db) + end_entries(acts)
}


proof fn lemma_hand_group_bounded(acts: Seq<Action>, k: int, h: usize)
    requires
        0 <= k <= acts.len(),
    ensures
        forall|q: int| 0 <= q < hand_group(acts, k, h).len() ==> (#[trigger] hand_group(acts, k, h)[q] as int) < k,
        hand_group(acts, k, h).len() <= k,
    decreases k,
{
    if k > 0 {
        lemma_hand_group_bounded(acts, k - 1, h);
    }
}

proof fn lemma_kind_positions_bounded(acts: Seq<Action>, k: int, kind: ActionKind)
    requires
        0 <= k <= acts.len(),
    ensures
        forall|q: int| 0 <= q < kind_positions(acts, k, kind).len() ==> (#[trigger] kind_positions(acts, k, kind)[q] as int) < k,
        kind_positions(acts, k, kind).len() <= k,
    decreases k,
{
    if k > 0 {
        lemma_kind_positions_bounded(acts, k - 1, kind);
    }
}

/// The positions of the card actions that use hand card `h`.
fn hand_group_of(actions: &[Action], h: usize) -> (r: Vec<usize>)
    ensures
        r@ == hand_group(actions@, actions@.len() as int, h),
{
    let mut r: Vec<usize> = Vec::new();
    let mut j: usize = 0;
    while j < actions.len()
        invariant
            j <= actions@.len(),
            r@ == hand_group(actions@, j as int, h),
        decreases actions.len() - j,
    {
        let a = &actions[j];
        let is_card = a.kind == ActionKind::PlayCard || a.kind == ActionKind::Evolve;
        if is_card && a.hand_index == Some(h) {
            r.push(j);
        }
        assert(r@ =~= hand_group(actions@, j + 1, h));
        j = j + 1;
    }
    r
}

/// The positions of the actions of kind `kind`.
fn positions_of_kind(actions: &[Action], kind: ActionKind) -> (r: Vec<usize>)
    ensures
        r@ == kind_positions(actions@, actions@.len() as int, kind),
{
    let mut r: Vec<usize> = Vec::new();
    let mut j: usize = 0;
    while j < actions.len()
        invariant
            j <= actions@.len(),
            r@ == kind_positions(actions@, j as int, kind),
        decreases actions.len() - j,
    {
        if actions[j].kind == kind {
            r.push(j);
        }
        assert(r@ =~= kind_positions(actions@, j + 1, kind));
        j = j + 1;
    }
    r
}

/// Whether a card action before `i` uses the same hand card as action `i`.
fn hand_seen_before(actions: &[Action], i: usize) -> (r: bool)
    requires
        i < actions@.len(),
    ensures
        r == exists|j: int|
            0 <= j < i && is_card_action(#[trigger] actions@[j]) && actions@[j].hand_index == actions@[i as int].hand_index,
{
    let mut j: usize = 0;
    while j < i
        invariant
            j <= i < actions@.len(),
            forall|q: int| 0 <= q < j ==> !(is_card_action(#[trigger] actions@[q]) && actions@[q].hand_index == actions@[i as int].hand_index),
        decreases i - j,
    {
        let a = &actions[j];
        let is_card = a.kind == ActionKind::PlayCard || a.kind == ActionKind::Evolve;
        if is_card && a.hand_index == actions[i].hand_index {
            return true;
        }
        j = j + 1;
    }
    false
}

fn push_entry(items: &mut Vec<MenuItem>, text: Vec<char>, indices: Vec<usize>)
    ensures
        menu_view(final(items)@) == menu_view(old(items)@).push(MenuEntry { label: text@, indices: indices@ }),
{
    let item = MenuItem { label: label(text), action_indices: indices };
    let ghost before = items@;
    items.push(item);
    assert(menu_view(items@) =~= menu_view(before).push(MenuEntry { label: text@, indices: indices@ }));
}

/// The Basic Pokémon that `action` plays goes to the bench, with several
/// spots to choose from.
fn basic_to_bench(action: &Action, h: usize, group_len: usize, state: &GameState, db: &CardDb, player_idx: usize) -> (r: bool)
    requires
        player_idx < 2,
        board_known(state@, *db, player_idx as int),
    ensures
        r == (action.kind == ActionKind::PlayCard && (hand_card(state@, *db, player_idx as int, Some(h)) matches Some(c)
            && c.kind == CardKind::Pokemon && c.stage == Some(Stage::Basic)) && group_len > 1),
{
    if action.kind != ActionKind::PlayCard {
        return false;
    }
    match hand_card_of(state, db, player_idx, Some(h)) {
        Some(c) => {
            let basic = match c.stage {
                Some(Stage::Basic) => true,
                _ => false,
            };
            c.kind == CardKind::Pokemon && basic && group_len > 1
        },
        None => false,
    }
}

/// Appends one entry per hand card that some action plays or evolves with.
fn push_card_items(items: &mut Vec<MenuItem>, actions: &[Action], state: &GameState, db: &CardDb, player_idx: usize)
    requires
        player_idx < 2,
        board_known(state@, *db, player_idx as int),
    ensures
        menu_view(final(items)@) == menu_view(old(items)@) + card_entries(actions@, actions@.len() as int, state@, *db, player_idx as int),
{
    let ghost acts = actions@;
    let ghost g = state@;
    let ghost p = player_idx as int;
    let ghost start = menu_view(items@);
    let mut i: usize = 0;
    while i < actions.len()
        invariant
            i <= acts.len(),
            acts == actions@,
            g == state@,
            p == player_idx as int,
            player_idx < 2,
            board_known(state@, *db, player_idx as int),
            menu_view(items@) == start + card_entries(acts, i as int, g, *db, p),
        decreases actions.len() - i,
    {
        let action = &actions[i];
        let is_card = action.kind == ActionKind::PlayCard || action.kind == ActionKind::Evolve;
        let first = is_card && action.hand_index.is_some() && !hand_seen_before(actions, i);
        assert(first == first_for_hand(acts, i as int));
        if first {
            let h = match action.hand_index {
                Some(h) => h,
                None => 0,
            };
            let group = hand_group_of(actions, h);
            proof {
                lemma_hand_group_bounded(acts, acts.len() as int, h);
            }
            let text = card_level1_label(action, group.as_slice(), actions, state, db, player_idx);
            let to_bench = basic_to_bench(action, h, group.len(), state, db, player_idx);
            let indices = if to_bench {
                vec![group[0]]
            } else {
                group
            };
            proof {
                let e = card_entry(acts, i as int, g, *db, p);
                assert(h == acts[i as int].hand_index->0);
                assert(text@ == e.label);
                assert(indices@ =~= e.indices);
            }
            let entry = MenuItem { label: text, action_indices: indices };
            let ghost before = items@;
            items.push(entry);
            proof {
                let e = card_entry(acts, i as int, g, *db, p);
                assert(menu_view(items@) =~= menu_view(before).push(e));
            }
        }
        assert(card_entries(acts, i + 1, g, *db, p) =~= card_entries(acts, i as int, g, *db, p) + if first_for_hand(acts, i as int) {
            seq![card_entry(acts, i as int, g, *db, p)]
        } else {
            Seq::<MenuEntry>::empty()
        });
        i = i + 1;
    }
}

/// Appends the entry for attaching energy, if any action attaches energy.
fn push_attach_item(items: &mut Vec<MenuItem>, actions: &[Action], state: &GameState, db: &CardDb, player_idx: usize, energy_mark: &str)
    requires
        player_idx < 2,
        board_known(state@, *db, player_idx as int),
    ensures
        menu_view(final(items)@) == menu_view(old(items)@) + attach_entries(actions@, state@, *db, energy_mark@),
{
    let attach = positions_of_kind(actions, ActionKind::AttachEnergy);
    if attach.len() == 0 {
        assert(menu_view(items@) =~= menu_view(items@) + attach_entries(actions@, state@, *db, energy_mark@));
        return;
    }
    proof {
        lemma_kind_positions_bounded(actions@, actions@.len() as int, ActionKind::AttachEnergy);
        assert(attach@[0] == attach[0]);
    }
    let mut v: Vec<char> = Vec::new();
    push_str(&mut v, "Attach ");
    push_str(&mut v, energy_mark);
    if attach.len() == 1 {
        let t = actions[attach[0]].target;
        push_str(&mut v, " energy → ");
        push_name_at(&mut v, state, db, t, "?");
        push_str(&mut v, " (");
        push_opt_pos(&mut v, t);
        push_str(&mut v, ")");
    } else {
        push_str(&mut v, " energy");
    }
    let ghost before = menu_view(items@);
    let ghost e = attach_entries(actions@, state@, *db, energy_mark@)[0];
    assert(v@ =~= e.label);
    push_entry(items, v, attach);
    assert(menu_view(items@) =~= before + attach_entries(actions@, state@, *db, energy_mark@));
}

/// The characters of the ability name of the Pokémon at `t`.
fn ability_chars(state: &GameState, db: &CardDb, t: Option<SlotRef>) -> (r: Vec<char>)
    requires
        board_known(state@, *db, 0) || board_known(state@, *db, 1),
    ensures
        r@ == ability_name(state@, *db, t),
{
    let slot = match t {
        Some(r) => get_slot(state, r),
        None => None,
    };
    match slot {
        Some(s) => {
            assert(state@.slot(t->0) matches Some(x) && (x.card_idx as int) < db.cards@.len());
            match &db.get_by_idx(s.card_idx).ability {
                Some(ab) => to_chars(ab.name.as_str()),
                None => to_chars("ability"),
            }
        },
        None => to_chars("ability"),
    }
}

/// Appends one entry per ability use.
fn push_ability_items(items: &mut Vec<MenuItem>, actions: &[Action], state: &GameState, db: &CardDb, player_idx: usize)
    requires
        player_idx < 2,
        board_known(state@, *db, player_idx as int),
    ensures
        menu_view(final(items)@) == menu_view(old(items)@) + ability_entries(actions@, actions@.len() as int, state@, *db),
{
    let ghost start = menu_view(items@);
    let mut i: usize = 0;
    while i < actions.len()
        invariant
            i <= actions@.len(),
            player_idx < 2,
            board_known(state@, *db, player_idx as int),
            menu_view(items@) == start + ability_entries(actions@, i as int, state@, *db),
        decreases actions.len() - i,
    {
        let a = &actions[i];
        if a.kind == ActionKind::UseAbility {
            let mut v: Vec<char> = Vec::new();
            push_str(&mut v, "Use ");
            push_name_at(&mut v, state, db, a.target, "?");
            push_str(&mut v, "'s ");
            let ab = ability_chars(state, db, a.target);
            push_chars(&mut v, &ab);
            push_str(&mut v, " (");
            push_opt_pos(&mut v, a.target);
            push_str(&mut v, ")");
            let ix = vec![i];
            assert(ix@ =~= seq![i]);
            push_entry(items, v, ix);
            assert(menu_view(items@) =~= start + ability_entries(actions@, i + 1, state@, *db));
        } else {
            assert(ability_entries(actions@, i + 1, state@, *db) =~= ability_entries(actions@, i as int, state@, *db));
        }
        i = i + 1;
    }
}

/// The characters of an attack entry.
fn attack_chars(a: &Action, state: &GameState, db: &CardDb, player_idx: usize, attack_costs: &[String]) -> (r: Vec<char>)
    requires
        player_idx < 2,
        board_known(state@, *db, player_idx as int),
        state@.players[player_idx as int].active matches Some(s) ==> attack_costs@.len() == db.cards@[s.card_idx as int].attacks@.len(),
    ensures
        r@ == attack_text(*a, state@, *db, player_idx as int, attack_costs@.map_values(|c: String| c@)),
{
    match &state.players[player_idx].active {
        Some(s) => {
            proof {
                let r = SlotRef { player: player_idx as u8, slot: -1i8 };
                assert(state@.slot(r) == state@.players[player_idx as int].active);
            }
            let card = db.get_by_idx(s.card_idx);
            let ai: usize = match a.attack_index {
                Some(x) => x,
                None => 0,
            };
            if ai < card.attacks.len() {
                let atk = &card.attacks[ai];
                let mut v: Vec<char> = Vec::new();
                push_str(&mut v, "Attack: ");
                push_str(&mut v, atk.name.as_str());
                push_str(&mut v, " (");
                push_i16(&mut v, atk.damage);
                push_str(&mut v, "dmg)  [");
                push_str(&mut v, attack_costs[ai].as_str());
                push_str(&mut v, "]");
                v
            } else {
                to_chars("Attack")
            }
        },
        None => to_chars("Attack"),
    }
}

/// Appends one entry per attack.
fn push_attack_items(items: &mut Vec<MenuItem>, actions: &[Action], state: &GameState, db: &CardDb, player_idx: usize, attack_costs: &[String])
    requires
        player_idx < 2,
        board_known(state@, *db, player_idx as int),
        state@.players[player_idx as int].active matches Some(s) ==> attack_costs@.len() == db.cards@[s.card_idx as int].attacks@.len(),
    ensures
        menu_view(final(items)@) == menu_view(old(items)@) + attack_entries(
            actions@,
            actions@.len() as int,
            state@,
            *db,
            player_idx as int,
            attack_costs@.map_values(|c: String| c@),
        ),
{
    let ghost costs = attack_costs@.map_values(|c: String| c@);
    let ghost start = menu_view(items@);
    let mut i: usize = 0;
    while i < actions.len()
        invariant
            i <= actions@.len(),
            player_idx < 2,
            board_known(state@, *db, player_idx as int),
            state@.players[player_idx as int].active matches Some(s) ==> attack_costs@.len() == db.cards@[s.card_idx as int].attacks@.len(),
            costs == attack_costs@.map_values(|c: String| c@),
            menu_view(items@) == start + attack_entries(actions@, i as int, state@, *db, player_idx as int, costs),
        decreases actions.len() - i,
    {
        let a = &actions[i];
        if a.kind == ActionKind::Attack {
            let v = attack_chars(a, state, db, player_idx, attack_costs);
            let ix = vec![i];
            assert(ix@ =~= seq![i]);
            push_entry(items, v, ix);
            assert(menu_view(items@) =~= start + attack_entries(actions@, i + 1, state@, *db, player_idx as int, costs));
        } else {
            assert(attack_entries(actions@, i + 1, state@, *db, player_idx as int, costs) =~= attack_entries(
                actions@,
                i as int,
                state@,
                *db,
                player_idx as int,
                costs,
            ));
        }
        i = i + 1;
    }
}

/// Appends the entry for retreating, if any action retreats.
fn push_retreat_item(items: &mut Vec<MenuItem>, actions: &[Action], state: &GameState, db: &CardDb, player_idx: usize)
    requires
        player_idx < 2,
        board_known(state@, *db, player_idx as int),
    ensures
        menu_view(final(items)@) == menu_view(old(items)@) + retreat_entries(actions@, state@, *db),
{
    let retreat = positions_of_kind(actions, ActionKind::Retreat);
    if retreat.len() == 0 {
        assert(menu_view(items@) =~= menu_view(items@) + retreat_entries(actions@, state@, *db));
        return;
    }
    proof {
        lemma_kind_positions_bounded(actions@, actions@.len() as int, ActionKind::Retreat);
        assert(retreat@[0] == retreat[0]);
    }
    let mut v: Vec<char> = Vec::new();
    if retreat.len() == 1 {
        let t = actions[retreat[0]].target;
        push_str(&mut v, "Retreat → switch in ");
        push_name_at(&mut v, state, db, t, "?");
        push_str(&mut v, " (");
        push_opt_pos(&mut v, t);
        push_str(&mut v, ")");
    } else {
        push_str(&mut v, "Retreat");
    }
    let ghost before = menu_view(items@);
    let ghost e = retreat_entries(actions@, state@, *db)[0];
    assert(v@ =~= e.label);
    push_entry(items, v, retreat);
    assert(menu_view(items@) =~= before + retreat_entries(actions@, state@, *db));
}

/// Appends the entry for ending the turn, if any action ends it.
fn push_end_item(items: &mut Vec<MenuItem>, actions: &[Action])
    ensures
        menu_view(final(items)@) == menu_view(old(items)@) + end_entries(actions@),
{
    let ends = positions_of_kind(actions, ActionKind::EndTurn);
    if ends.len() == 0 {
        assert(menu_view(items@) =~= menu_view(items@) + end_entries(actions@));
        return;
    }
    let ghost before = menu_view(items@);
    let ix = vec![ends[0]];
    assert(ix@ =~= seq![ends@[0]]);
    push_entry(items, to_chars("End turn"), ix);
    assert(menu_view(items@) =~= before + end_entries(actions@));
}

/// The first-level menu for player `player_idx` over the legal `actions`:
/// one entry per hand card played or evolved with, then attaching energy,
/// each ability, each attack, retreating and ending the turn.
/// `energy_mark` shows the energy on offer, `attack_costs` the cost of
/// each attack of the active Pokémon.
pub fn build_menu_items(
    actions: &[Action],
    state: &GameState,
    db: &CardDb,
    player_idx: usize,
    energy_mark: &str,
    attack_costs: &[String],
) -> (r: Vec<MenuItem>)
    requires
        player_idx < 2,
        board_known(state@, *db, player_idx as int),
        state@.players[player_idx as int].active matches Some(s) ==> attack_costs@.len() == db.cards@[s.card_idx as int].attacks@.len(),
    ensures
        menu_view(r@) == menu_entries(
            actions@,
            state@,
            *db,
            player_idx as int,
            energy_mark@,
            attack_costs@.map_values(|c: String| c@),
        ),
{
    let mut items: Vec<MenuItem> = Vec::new();
    assert(menu_view(items@) =~= Seq::<MenuEntry>::empty());
    push_card_items(&mut items, actions, state, db, player_idx);
    push_attach_item(&mut items, actions, state, db, player_idx, energy_mark);
    push_ability_items(&mut items, actions, state, db, player_idx);
    push_attack_items(&mut items, actions, state, db, player_idx, attack_costs);
    push_retreat_item(&mut items, actions, state, db, player_idx);
    push_end_item(&mut items, actions);
    let ghost costs = attack_costs@.map_values(|c: String| c@);
    assert(menu_view(items@) =~= menu_entries(actions@, state@, *db, player_idx as int, energy_mark@, costs));
    items
}

/// The entry leads to at least one action, and only to actions of the list.
pub open spec fn entry_points_into(e: MenuEntry, n: int) -> bool {
    &&& e.indices.len() > 0
    &&& forall|j: int| 0 <= j < e.indices.len() ==> (#[trigger] e.indices[j] as int) < n
}

proof fn lemma_hand_group_has(acts: Seq<Action>, k: int, h: usize, i: int)
    requires
        0 <= i < k <= acts.len(),
        is_card_action(acts[i]),
        acts[i].hand_index == Some(h),
    ensures
        hand_group(acts, k, h).len() > 0,
    decreases k,
{
    if i < k - 1 {
        lemma_hand_group_has(acts, k - 1, h, i);
    }
}

proof fn lemma_card_entries_point_into(acts: Seq<Action>, k: int, g: GameView, db: CardDb, p: int)
    requires
        0 <= k <= acts.len(),
    ensures
        forall|i: int|
            0 <= i < card_entries(acts, k, g, db, p).len() ==> entry_points_into(#[trigger] card_entries(acts, k, g, db, p)[i], acts.len() as int),
    decreases k,
{
    if k > 0 {
        lemma_card_entries_point_into(acts, k - 1, g, db, p);
        let prev = card_entries(acts, k - 1, g, db, p);
        let cur = card_entries(acts, k, g, db, p);
        if first_for_hand(acts, k - 1) {
            let h = acts[k - 1].hand_index->0;
            lemma_hand_group_has(acts, acts.len() as int, h, k - 1);
            lemma_hand_group_bounded(acts, acts.len() as int, h);
            let e = card_entry(acts, k - 1, g, db, p);
            assert(entry_points_into(e, acts.len() as int));
            assert(cur =~= prev.push(e));
        } else {
            assert(cur =~= prev);
        }
        assert forall|i: int| 0 <= i < cur.len() implies entry_points_into(#[trigger] cur[i], acts.len() as int) by {
            if i < prev.len() {
                assert(cur[i] == prev[i]);
            }
        }
    }
}

proof fn lemma_ability_entries_point_into(acts: Seq<Action>, k: int, g: GameView, db: CardDb)
    requires
        0 <= k <= acts.len(),
    ensures
        forall|i: int|
            0 <= i < ability_entries(acts, k, g, db).len() ==> entry_points_into(#[trigger] ability_entries(acts, k, g, db)[i], acts.len() as int),
    decreases k,
{
    if k > 0 {
        lemma_ability_entries_point_into(acts, k - 1, g, db);
        let prev = ability_entries(acts, k - 1, g, db);
        let cur = ability_entries(acts, k, g, db);
        assert forall|i: int| 0 <= i < cur.len() implies entry_points_into(#[trigger] cur[i], acts.len() as int) by {
            if i < prev.len() {
                assert(cur[i] == prev[i]);
            }
        }
    }
}

proof fn lemma_attack_entries_point_into(acts: Seq<Action>, k: int, g: GameView, db: CardDb, p: int, costs: Seq<Seq<char>>)
    requires
        0 <= k <= acts.len(),
    ensures
        forall|i: int|
            0 <= i < attack_entries(acts, k, g, db, p, costs).len() ==> entry_points_into(
                #[trigger] attack_entries(acts, k, g, db, p, costs)[i],
                acts.len() as int,
            ),
    decreases k,
{
    if k > 0 {
        lemma_attack_entries_point_into(acts, k - 1, g, db, p, costs);
        let prev = attack_entries(acts, k - 1, g, db, p, costs);
        let cur = attack_entries(acts, k, g, db, p, costs);
        assert forall|i: int| 0 <= i < cur.len() implies entry_points_into(#[trigger] cur[i], acts.len() as int) by {
            if i < prev.len() {
                assert(cur[i] == prev[i]);
            }
        }
    }
}

/// Every entry of the first-level menu leads to at least one action, and
/// every position it holds is a position in the list of legal actions.
pub proof fn lemma_menu_entries_point_into_actions(
    acts: Seq<Action>,
    g: GameView,
    db: CardDb,
    p: int,
    mark: Seq<char>,
    costs: Seq<Seq<char>>,
)
    ensures
        forall|i: int|
            0 <= i < menu_entries(acts, g, db, p, mark, costs).len() ==> entry_points_into(
                #[trigger] menu_entries(acts, g, db, p, mark, costs)[i],
                acts.len() as int,
            ),
{
    let n = acts.len() as int;
    lemma_card_entries_point_into(acts, n, g, db, p);
    lemma_ability_entries_point_into(acts, n, g, db);
    lemma_attack_entries_point_into(acts, n, g, db, p, costs);
    lemma_kind_positions_bounded(acts, n, ActionKind::AttachEnergy);
    lemma_kind_positions_bounded(acts, n, ActionKind::Retreat);
    lemma_kind_positions_bounded(acts, n, ActionKind::EndTurn);
    let c = card_entries(acts, n, g, db, p);
    let a = attach_entries(acts, g, db, mark);
    let u = ability_entries(acts, n, g, db);
    let t = attack_entries(acts, n, g, db, p, costs);
    let r = retreat_entries(acts, g, db);
    let e = end_entries(acts);
    assert forall|i: int| 0 <= i < a.len() implies entry_points_into(#[trigger] a[i], n) by {}
    assert forall|i: int| 0 <= i < r.len() implies entry_points_into(#[trigger] r[i], n) by {}
    assert forall|i: int| 0 <= i < e.len() implies entry_points_into(#[trigger] e[i], n) by {}
    let all = menu_entries(acts, g, db, p, mark, costs);
    assert(all =~= c + a + u + t + r + e);
    assert forall|i: int| 0 <= i < all.len() implies entry_points_into(#[trigger] all[i], n) by {
        let k1 = c.len() as int;
        let k2 = k1 + a.len();
        let k3 = k2 + u.len();
        let k4 = k3 + t.len();
        let k5 = k4 + r.len();
        if i < k1 {
            assert(all[i] == c[i]);
        } else if i < k2 {
            assert(all[i] == a[i - k1]);
        } else if i < k3 {
            assert(all[i] == u[i - k2]);
        } else if i < k4 {
            assert(all[i] == t[i - k3]);
        } else if i < k5 {
            assert(all[i] == r[i - k4]);
        } else {
            assert(all[i] == e[i - k5]);
        }
    }
}

/// The entry a typed line picks from a menu of `max` entries numbered
/// from 1: its position from 0, or `None` for anything else (0, a number
/// past the end, or no number).
pub open spec fn menu_choice(line: Seq<char>, max: int) -> Option<usize> {
    match parse_usize(trim(line)) {
        Some(n) => if 1 <= n <= max { Some((n - 1) as usize) } else { None },
        None => None,
    }
}

/// Reads a typed line as a choice among `max` numbered entries.
pub fn parse_menu_choice(line: &str, max: usize) -> (r: Option<usize>)
    ensures
        r == menu_choice(line@, max as int),
{
    let cs = to_chars(line);
    let t = trim_chars(cs.as_slice());
    match parse_usize_chars(t.as_slice()) {
        Some(n) => {
            if n >= 1 && n <= max {
                Some(n - 1)
            } else {
                None
            }
        },
        None => None,
    }
}

}
