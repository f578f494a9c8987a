//! Next-turn flags, Trainer effects, passive markers and other effects that
//! fit no larger family.
use vstd::prelude::*;
use crate::actions::SlotRef;
use crate::card::{CardDb, CardFilter};
use crate::effects::{EffectContext, extra_get};
use crate::effects::search::{has_match, move_random_cards, move_random_match, random_moves, took_match};
use crate::rng::coin_below_half;
use crate::state::{
    GameState, GameView, Pile, PlayerView, PokemonSlot, active_ref, lemma_move_card_conserves, lemma_reorder_conserves,
    read_slot, write_slot,
};
use crate::types::{CardKind, Element};
use crate::constants::{WEAKNESS_BONUS, weak_to, is_weak_to};
use crate::text::{decimal, decimal_chars, push_str, string_from_chars};

verus! {

/// `s` unable to retreat during its player's next turn.
pub open spec fn no_retreat_incoming(s: PokemonSlot) -> PokemonSlot {
    PokemonSlot { cant_retreat_next_turn_incoming: true, ..s }
}

/// `s` unable to attack during its player's next turn.
pub open spec fn no_attack_incoming(s: PokemonSlot) -> PokemonSlot {
    PokemonSlot { cant_attack_next_turn_incoming: true, ..s }
}

/// `s` with its next-turn attack bonus set to `v`.
pub open spec fn attack_bonus_incoming(s: PokemonSlot, v: i8) -> PokemonSlot {
    PokemonSlot { attack_bonus_next_turn_self_incoming: v, ..s }
}

/// `s` protected from damage during the opponent's next turn.
pub open spec fn protected_incoming(s: PokemonSlot) -> PokemonSlot {
    PokemonSlot { prevent_damage_next_turn_incoming: true, ..s }
}

/// `s` with its next-turn damage reduction set to `v`.
pub open spec fn reduction_incoming(s: PokemonSlot, v: i8) -> PokemonSlot {
    PokemonSlot { incoming_damage_reduction_incoming: v, ..s }
}

/// `s` without any special condition.
pub open spec fn cured(s: PokemonSlot) -> PokemonSlot {
    PokemonSlot { status: 0, ..s }
}

/// `s` healed by `amount`, never above its maximum HP.
pub open spec fn healed(s: PokemonSlot, amount: int) -> PokemonSlot {
    PokemonSlot { current_hp: if s.current_hp + amount > s.max_hp { s.max_hp } else { (s.current_hp + amount) as i16 }, ..s }
}

/// The opponent's active Pokémon can't retreat during the opponent's next turn.
pub fn cant_retreat_next_turn(state: &mut GameState, ctx: &EffectContext)
    requires
        ctx.acting_player < 2,
    ensures
        final(state)@ == old(state)@.map_slot(active_ref(1 - ctx.acting_player), |s: PokemonSlot| no_retreat_incoming(s)),
{
    let r = SlotRef::active(1 - ctx.acting_player);
    match read_slot(state, r) {
        Some(s) => {
            let mut s2 = s;
            s2.cant_retreat_next_turn_incoming = true;
            write_slot(state, r, Some(s2));
        },
        None => {},
    }
}

/// The opponent's active Pokémon can't attack during the opponent's next
/// turn (any coin flip is the caller's business).
pub fn cant_attack_next_turn(state: &mut GameState, ctx: &EffectContext)
    requires
        ctx.acting_player < 2,
    ensures
        final(state)@ == old(state)@.map_slot(active_ref(1 - ctx.acting_player), |s: PokemonSlot| no_attack_incoming(s)),
{
    let r = SlotRef::active(1 - ctx.acting_player);
    match read_slot(state, r) {
        Some(s) => {
            let mut s2 = s;
            s2.cant_attack_next_turn_incoming = true;
            write_slot(state, r, Some(s2));
        },
        None => {},
    }
}

/// Blocks the next-turn attack of the active Pokémon of player `p`.
fn block_own_attack(state: &mut GameState, p: usize)
    requires
        p < 2,
    ensures
        final(state)@ == old(state)@.map_slot(active_ref(p as int), |s: PokemonSlot| no_attack_incoming(s)),
{
    let r = SlotRef::active(p);
    match read_slot(state, r) {
        Some(s) => {
            let mut s2 = s;
            s2.cant_attack_next_turn_incoming = true;
            write_slot(state, r, Some(s2));
        },
        None => {},
    }
}

/// What `coin_flip_self_cant_attack_next_turn` does for a given coin.
pub open spec fn self_block_on_tails(g: GameView, p: int, heads: bool) -> GameView {
    if heads {
        g.log("🪙 Heads! Self can attack next turn"@)
    } else {
        g.log("🪙 Tails! Self cannot attack next turn"@).map_slot(active_ref(p), |s: PokemonSlot| no_attack_incoming(s))
    }
}

/// Flips a coin; on tails the acting player's own active Pokémon can't
/// attack during that player's next turn.  The flip is narrated.
pub fn coin_flip_self_cant_attack_next_turn(state: &mut GameState, ctx: &EffectContext)
    requires
        ctx.acting_player < 2,
    ensures
        exists|heads: bool| final(state)@ == #[trigger] self_block_on_tails(old(state)@, ctx.acting_player as int, heads),
{
    let heads = coin_below_half(&mut state.rng);
    if heads {
        state.push_log("🪙 Heads! Self can attack next turn".to_string());
    } else {
        state.push_log("🪙 Tails! Self cannot attack next turn".to_string());
        block_own_attack(state, ctx.acting_player);
    }
    assert(final(state)@ == self_block_on_tails(old(state)@, ctx.acting_player as int, heads));
}

/// The acting player's active Pokémon can't attack during that player's next turn.
pub fn self_cant_attack_next_turn(state: &mut GameState, ctx: &EffectContext)
    requires
        ctx.acting_player < 2,
    ensures
        final(state)@ == old(state)@.map_slot(active_ref(ctx.acting_player as int), |s: PokemonSlot| no_attack_incoming(s)),
{
    block_own_attack(state, ctx.acting_player);
}

/// One attack of the acting Pokémon is blocked next turn; the block covers
/// every attack.
pub fn self_cant_use_specific_attack(state: &mut GameState, ctx: &EffectContext)
    requires
        ctx.acting_player < 2,
    ensures
        final(state)@ == old(state)@.map_slot(active_ref(ctx.acting_player as int), |s: PokemonSlot| no_attack_incoming(s)),
{
    block_own_attack(state, ctx.acting_player);
}

/// The acting player's active Pokémon gets `amount` extra attack damage on
/// its next turn.
pub fn self_attack_buff_next_turn(state: &mut GameState, amount: i8, ctx: &EffectContext)
    requires
        ctx.acting_player < 2,
    ensures
        final(state)@ == old(state)@.map_slot(active_ref(ctx.acting_player as int), |s: PokemonSlot| attack_bonus_incoming(s, amount)),
{
    let r = SlotRef::active(ctx.acting_player);
    match read_slot(state, r) {
        Some(s) => {
            let mut s2 = s;
            s2.attack_bonus_next_turn_self_incoming = amount;
            write_slot(state, r, Some(s2));
        },
        None => {},
    }
}

/// What the shielding coin does once flipped: on heads the acting player's
/// active Pokémon is protected from all damage during the opponent's next
/// turn; on tails nothing happens.
pub fn prevent_damage_on_flip(state: &mut GameState, ctx: &EffectContext, heads: bool)
    requires
        ctx.acting_player < 2,
    ensures
        final(state)@ == if heads {
            old(state)@.map_slot(active_ref(ctx.acting_player as int), |s: PokemonSlot| protected_incoming(s))
        } else {
            old(state)@
        },
{
    if heads {
        let r = SlotRef::active(ctx.acting_player);
        match read_slot(state, r) {
            Some(s) => {
                let mut s2 = s;
                s2.prevent_damage_next_turn_incoming = true;
                write_slot(state, r, Some(s2));
            },
            None => {},
        }
    }
}

/// Flips a coin; on heads the acting player's active Pokémon is protected
/// from all damage during the opponent's next turn.
pub fn prevent_damage_next_turn(state: &mut GameState, ctx: &EffectContext)
    requires
        ctx.acting_player < 2,
    ensures
        final(state)@ == old(state)@
            || final(state)@ == old(state)@.map_slot(active_ref(ctx.acting_player as int), |s: PokemonSlot| protected_incoming(s)),
{
    let heads = coin_below_half(&mut state.rng);
    prevent_damage_on_flip(state, ctx, heads);
}

/// Sets the next-turn damage reduction of the active Pokémon of player `p`.
fn set_reduction_incoming(state: &mut GameState, p: usize, v: i8)
    requires
        p < 2,
    ensures
        final(state)@ == old(state)@.map_slot(active_ref(p as int), |s: PokemonSlot| reduction_incoming(s, v)),
{
    let r = SlotRef::active(p);
    match read_slot(state, r) {
        Some(s) => {
            let mut s2 = s;
            s2.incoming_damage_reduction_incoming = v;
            write_slot(state, r, Some(s2));
        },
        None => {},
    }
}

/// The acting player's active Pokémon takes `amount` less damage during the
/// opponent's next turn.
pub fn take_less_damage_next_turn(state: &mut GameState, amount: i8, ctx: &EffectContext)
    requires
        ctx.acting_player < 2,
    ensures
        final(state)@ == old(state)@.map_slot(active_ref(ctx.acting_player as int), |s: PokemonSlot| reduction_incoming(s, amount)),
{
    set_reduction_incoming(state, ctx.acting_player, amount);
}

/// The acting player's active Pokémon takes `amount` more damage during the
/// opponent's next turn (a negative reduction).
pub fn take_more_damage_next_turn(state: &mut GameState, amount: i8, ctx: &EffectContext)
    requires
        ctx.acting_player < 2,
        old(state)@.players[ctx.acting_player as int].active is Some ==> amount != i8::MIN,
    ensures
        final(state)@ == old(state)@.map_slot(
            active_ref(ctx.acting_player as int),
            |s: PokemonSlot| reduction_incoming(s, (-amount) as i8),
        ),
{
    let p = ctx.acting_player;
    if state.players[p].active.is_some() {
        set_reduction_incoming(state, p, -amount);
    } else {
        assert(old(state)@.slot(active_ref(p as int)) is None);
    }
}

/// The opponent's active Pokémon does `amount` less damage with its attacks
/// during the opponent's next turn.
pub fn defender_attacks_do_less_damage(state: &mut GameState, amount: i8, ctx: &EffectContext)
    requires
        ctx.acting_player < 2,
        old(state)@.players[1 - ctx.acting_player].active is Some ==> amount != i8::MIN,
    ensures
        final(state)@ == old(state)@.map_slot(
            active_ref(1 - ctx.acting_player),
            |s: PokemonSlot| attack_bonus_incoming(s, (-amount) as i8),
        ),
{
    let r = SlotRef::active(1 - ctx.acting_player);
    match read_slot(state, r) {
        Some(s) => {
            let mut s2 = s;
            s2.attack_bonus_next_turn_self_incoming = -amount;
            write_slot(state, r, Some(s2));
        },
        None => {},
    }
}

/// The acting player's active Pokémon takes `amount` less damage during the
/// opponent's next turn.
pub fn next_turn_all_damage_reduction(state: &mut GameState, amount: i8, ctx: &EffectContext)
    requires
        ctx.acting_player < 2,
    ensures
        final(state)@ == old(state)@.map_slot(active_ref(ctx.acting_player as int), |s: PokemonSlot| reduction_incoming(s, amount)),
{
    set_reduction_incoming(state, ctx.acting_player, amount);
}

/// The acting player's active Pokémon takes `amount` less damage from Metal
/// attackers during the opponent's next turn; the reduction is stored as for
/// every attacker and the damage step checks the type.
pub fn next_turn_metal_damage_reduction(state: &mut GameState, amount: i8, ctx: &EffectContext)
    requires
        ctx.acting_player < 2,
    ensures
        final(state)@ == old(state)@.map_slot(active_ref(ctx.acting_player as int), |s: PokemonSlot| reduction_incoming(s, amount)),
{
    set_reduction_incoming(state, ctx.acting_player, amount);
}

/// The opponent can't play Supporters during the next turn.
pub fn opponent_no_supporter_next_turn(state: &mut GameState, ctx: &EffectContext)
    requires
        ctx.acting_player < 2,
    ensures
        ({
            let o = 1 - ctx.acting_player;
            final(state)@ == old(state)@.with_player(o, PlayerView { cant_play_supporter_incoming: true, ..old(state)@.players[o] })
        }),
{
    let o = 1 - ctx.acting_player;
    state.players[o].cant_play_supporter_incoming = true;
    assert(final(state)@.players =~= old(state)@.with_player(
        o as int,
        PlayerView { cant_play_supporter_incoming: true, ..old(state)@.players[o as int] },
    ).players);
}

/// The opponent can't play Items during the next turn.
pub fn opponent_no_items_next_turn(state: &mut GameState, ctx: &EffectContext)
    requires
        ctx.acting_player < 2,
    ensures
        ({
            let o = 1 - ctx.acting_player;
            final(state)@ == old(state)@.with_player(o, PlayerView { cant_play_items_incoming: true, ..old(state)@.players[o] })
        }),
{
    let o = 1 - ctx.acting_player;
    state.players[o].cant_play_items_incoming = true;
    assert(final(state)@.players =~= old(state)@.with_player(
        o as int,
        PlayerView { cant_play_items_incoming: true, ..old(state)@.players[o as int] },
    ).players);
}

/// The opponent can't take energy from the Energy Zone during the next turn.
pub fn opponent_no_energy_next_turn(state: &mut GameState, ctx: &EffectContext)
    requires
        ctx.acting_player < 2,
    ensures
        ({
            let o = 1 - ctx.acting_player;
            final(state)@ == old(state)@.with_player(o, PlayerView { cant_attach_energy_incoming: true, ..old(state)@.players[o] })
        }),
{
    let o = 1 - ctx.acting_player;
    state.players[o].cant_attach_energy_incoming = true;
    assert(final(state)@.players =~= old(state)@.with_player(
        o as int,
        PlayerView { cant_attach_energy_incoming: true, ..old(state)@.players[o as int] },
    ).players);
}

/// The opponent's costs rise next turn; this is carried out as a retreat
/// block on the opponent's active Pokémon.
pub fn opponent_cost_increase_next_turn(state: &mut GameState, ctx: &EffectContext)
    requires
        ctx.acting_player < 2,
    ensures
        final(state)@ == old(state)@.map_slot(active_ref(1 - ctx.acting_player), |s: PokemonSlot| no_retreat_incoming(s)),
{
    cant_retreat_next_turn(state, ctx);
}

/// The player after a damage aura of `amount`: the bonus only grows.
pub open spec fn aura_bonus(pv: PlayerView, amount: i8) -> i8 {
    if amount > pv.attack_damage_bonus { amount } else { pv.attack_damage_bonus }
}

/// A copy of `names`.
fn clone_names(names: &Vec<String>) -> (r: Vec<String>)
    ensures
        r@ == names@,
{
    let mut copy: Vec<String> = Vec::new();
    let mut i: usize = 0;
    while i < names.len()
        invariant
            i <= names@.len(),
            copy@ == names@.subrange(0, i as int),
        decreases names.len() - i,
    {
        copy.push(names[i].clone());
        i = i + 1;
        assert(copy@ =~= names@.subrange(0, i as int));
    }
    assert(names@.subrange(0, names@.len() as int) =~= names@);
    copy
}

/// Giovanni, Blaine: this turn's attacks do `amount` more damage (the larger
/// bonus wins); a non-empty `names` limits the bonus to attackers with those
/// names.
pub fn supporter_damage_aura(state: &mut GameState, amount: i8, names: &Vec<String>, ctx: &EffectContext)
    requires
        ctx.acting_player < 2,
    ensures
        ({
            let p = ctx.acting_player as int;
            let pv = old(state)@.players[p];
            final(state)@ == old(state)@.with_player(
                p,
                PlayerView {
                    attack_damage_bonus: aura_bonus(pv, amount),
                    attack_damage_bonus_names: if names@.len() > 0 {
                        names@.map_values(|s: String| s@)
                    } else {
                        pv.attack_damage_bonus_names
                    },
                    ..pv
                },
            )
        }),
{
    let p = ctx.acting_player;
    let ghost pv = old(state)@.players[p as int];
    let ghost target = PlayerView {
        attack_damage_bonus: aura_bonus(pv, amount),
        attack_damage_bonus_names: if names@.len() > 0 {
            names@.map_values(|s: String| s@)
        } else {
            pv.attack_damage_bonus_names
        },
        ..pv
    };
    if amount > state.players[p].attack_damage_bonus {
        state.players[p].attack_damage_bonus = amount;
    }
    if names.len() > 0 {
        let copy = clone_names(names);
        state.players[p].attack_damage_bonus_names = copy;
    }
    assert(final(state)@.players[p as int] =~~= target);
    assert(final(state)@.players =~= old(state)@.with_player(p as int, target).players);
}

/// A damage aura against ex Pokémon: the bonus grows to `amount` and the
/// name filter becomes the single marker `"ex"`, which the damage step reads.
pub fn supporter_damage_aura_vs_ex(state: &mut GameState, amount: i8, ctx: &EffectContext)
    requires
        ctx.acting_player < 2,
    ensures
        ({
            let p = ctx.acting_player as int;
            let pv = old(state)@.players[p];
            final(state)@ == old(state)@.with_player(
                p,
                PlayerView { attack_damage_bonus: aura_bonus(pv, amount), attack_damage_bonus_names: seq!["ex"@], ..pv },
            )
        }),
{
    let p = ctx.acting_player;
    if amount > state.players[p].attack_damage_bonus {
        state.players[p].attack_damage_bonus = amount;
    }
    let mut names: Vec<String> = Vec::new();
    names.push("ex".to_string());
    state.players[p].attack_damage_bonus_names = names;
    let ghost pv = old(state)@.players[p as int];
    assert(final(state)@.players =~~= old(state)@.with_player(
        p as int,
        PlayerView { attack_damage_bonus: aura_bonus(pv, amount), attack_damage_bonus_names: seq!["ex"@], ..pv },
    ).players);
}

/// X Speed: the acting player's retreat cost modifier drops by `amount`.
pub fn reduce_retreat_cost(state: &mut GameState, amount: i8, ctx: &EffectContext)
    requires
        ctx.acting_player < 2,
        i8::MIN <= old(state)@.players[ctx.acting_player as int].retreat_cost_modifier - amount <= i8::MAX,
    ensures
        ({
            let p = ctx.acting_player as int;
            let pv = old(state)@.players[p];
            final(state)@ == old(state)@.with_player(
                p,
                PlayerView { retreat_cost_modifier: (pv.retreat_cost_modifier - amount) as i8, ..pv },
            )
        }),
{
    let p = ctx.acting_player;
    state.players[p].retreat_cost_modifier = state.players[p].retreat_cost_modifier - amount;
    let ghost pv = old(state)@.players[p as int];
    assert(final(state)@.players =~= old(state)@.with_player(
        p as int,
        PlayerView { retreat_cost_modifier: (pv.retreat_cost_modifier - amount) as i8, ..pv },
    ).players);
}

/// Full Heal: the acting player's active Pokémon loses every special condition.
pub fn full_heal(state: &mut GameState, ctx: &EffectContext)
    requires
        ctx.acting_player < 2,
    ensures
        final(state)@ == old(state)@.map_slot(active_ref(ctx.acting_player as int), |s: PokemonSlot| cured(s)),
{
    let r = SlotRef::active(ctx.acting_player);
    match read_slot(state, r) {
        Some(s) => {
            let mut s2 = s;
            s2.status = 0;
            write_slot(state, r, Some(s2));
        },
        None => {},
    }
}

/// Potion: heals `amount` damage from the acting player's active Pokémon,
/// never above its maximum HP.
pub fn potion_heal(state: &mut GameState, amount: i16, ctx: &EffectContext)
    requires
        ctx.acting_player < 2,
        match old(state)@.players[ctx.acting_player as int].active {
            Some(s) => s.current_hp + amount <= i16::MAX && s.current_hp + amount >= i16::MIN,
            None => true,
        },
    ensures
        final(state)@ == old(state)@.map_slot(active_ref(ctx.acting_player as int), |s: PokemonSlot| healed(s, amount as int)),
{
    let r = SlotRef::active(ctx.acting_player);
    match read_slot(state, r) {
        Some(s) => {
            let mut s2 = s;
            let hp = s.current_hp + amount;
            s2.current_hp = if hp > s.max_hp { s.max_hp } else { hp };
            write_slot(state, r, Some(s2));
        },
        None => {},
    }
}

/// Poké Ball: a random Basic Pokémon from the deck goes to the hand.
pub fn pokeball_search(state: &mut GameState, db: &CardDb, ctx: &EffectContext)
    requires
        ctx.acting_player < 2,
        db.knows_all(old(state)@.pile(ctx.acting_player as int, Pile::Deck)),
    ensures
        took_match(old(state)@, final(state)@, ctx.acting_player as int, Pile::Deck, Pile::Hand, *db, CardFilter::BasicPokemon),
{
    move_random_match(state, ctx.acting_player, Pile::Deck, Pile::Hand, db, &CardFilter::BasicPokemon);
}

/// Big Malasada: heals 20 damage and cures every special condition of the
/// acting player's active Pokémon.
pub fn big_malasada(state: &mut GameState, ctx: &EffectContext)
    requires
        ctx.acting_player < 2,
        match old(state)@.players[ctx.acting_player as int].active {
            Some(s) => s.current_hp + 20 <= i16::MAX,
            None => true,
        },
    ensures
        final(state)@ == old(state)@.map_slot(active_ref(ctx.acting_player as int), |s: PokemonSlot| cured(healed(s, 20))),
{
    let r = SlotRef::active(ctx.acting_player);
    match read_slot(state, r) {
        Some(s) => {
            let mut s2 = s;
            let hp = s.current_hp + 20;
            s2.current_hp = if hp > s.max_hp { s.max_hp } else { hp };
            s2.status = 0;
            write_slot(state, r, Some(s2));
        },
        None => {},
    }
}

/// The top card of the deck is a Psychic Pokémon.
pub open spec fn top_is_psychic_pokemon(g: GameView, p: int, db: CardDb) -> bool {
    let d = g.pile(p, Pile::Deck);
    d.len() > 0 && db.matches(d.last(), CardFilter::PokemonOfElement(Element::Psychic))
}

/// Mythical Slab: if the top card of the deck is a Psychic Pokémon it goes to
/// the hand; otherwise it stays on top.
pub fn mythical_slab(state: &mut GameState, db: &CardDb, ctx: &EffectContext)
    requires
        ctx.acting_player < 2,
        old(state)@.pile(ctx.acting_player as int, Pile::Deck).len() > 0 ==> (old(state)@.pile(
            ctx.acting_player as int,
            Pile::Deck,
        ).last() as int) < db.cards@.len(),
    ensures
        final(state)@ == if top_is_psychic_pokemon(old(state)@, ctx.acting_player as int, *db) {
            old(state)@.draw_one(ctx.acting_player as int)
        } else {
            old(state)@
        },
{
    let p = ctx.acting_player;
    let n = state.pile_len(p, Pile::Deck);
    if n == 0 {
        return;
    }
    let top = state.pile_card(p, Pile::Deck, n - 1);
    if db.card_matches(top, &CardFilter::PokemonOfElement(Element::Psychic)) {
        state.draw_one_for(p);
    }
}

/// Beast Wall: handled by the damage step; nothing to do here.
pub fn beast_wall_protection(state: &mut GameState, ctx: &EffectContext)
    ensures
        final(state)@ == old(state)@,
{
}

/// Passive damage reduction: handled by the damage step.
pub fn passive_damage_reduction(state: &mut GameState, ctx: &EffectContext)
    ensures
        final(state)@ == old(state)@,
{
}

/// Passive retaliation: handled by the attack step.
pub fn passive_retaliate(state: &mut GameState, ctx: &EffectContext)
    ensures
        final(state)@ == old(state)@,
{
}

/// Ditto's Impostor: a registration marker with nothing to do here.
pub fn passive_ditto_impostor(state: &mut GameState, ctx: &EffectContext)
    ensures
        final(state)@ == old(state)@,
{
}

/// Passive Supporter block: the opponent can't play Supporters this turn or
/// the next.
pub fn passive_block_supporters(state: &mut GameState, ctx: &EffectContext)
    requires
        ctx.acting_player < 2,
    ensures
        ({
            let o = 1 - ctx.acting_player;
            final(state)@ == old(state)@.with_player(
                o,
                PlayerView {
                    cant_play_supporter_this_turn: true,
                    cant_play_supporter_incoming: true,
                    ..old(state)@.players[o]
                },
            )
        }),
{
    let o = 1 - ctx.acting_player;
    state.players[o].cant_play_supporter_this_turn = true;
    state.players[o].cant_play_supporter_incoming = true;
    assert(final(state)@.players =~= old(state)@.with_player(
        o as int,
        PlayerView {
            cant_play_supporter_this_turn: true,
            cant_play_supporter_incoming: true,
            ..old(state)@.players[o as int]
        },
    ).players);
}

/// Discards a random Tool from the opponent's hand.
pub fn discard_random_tool_from_hand(state: &mut GameState, db: &CardDb, ctx: &EffectContext)
    requires
        ctx.acting_player < 2,
        db.knows_all(old(state)@.pile(1 - ctx.acting_player, Pile::Hand)),
    ensures
        took_match(old(state)@, final(state)@, 1 - ctx.acting_player, Pile::Hand, Pile::Discard, *db, CardFilter::Tool),
{
    move_random_match(state, 1 - ctx.acting_player, Pile::Hand, Pile::Discard, db, &CardFilter::Tool);
}

/// Discards a random Item from the opponent's hand.
pub fn discard_random_item_from_hand(state: &mut GameState, db: &CardDb, ctx: &EffectContext)
    requires
        ctx.acting_player < 2,
        db.knows_all(old(state)@.pile(1 - ctx.acting_player, Pile::Hand)),
    ensures
        took_match(old(state)@, final(state)@, 1 - ctx.acting_player, Pile::Hand, Pile::Discard, *db, CardFilter::Item),
{
    move_random_match(state, 1 - ctx.acting_player, Pile::Hand, Pile::Discard, db, &CardFilter::Item);
}

/// What the discarding coin does once flipped: on heads a random card of
/// the opponent's hand (if any) goes to the opponent's discard pile; on
/// tails nothing happens.
pub fn discard_random_card_on_flip(state: &mut GameState, ctx: &EffectContext, heads: bool)
    requires
        ctx.acting_player < 2,
    ensures
        heads ==> random_moves(old(state)@, final(state)@, 1 - ctx.acting_player, Pile::Hand, Pile::Discard, 1),
        !heads ==> final(state)@ == old(state)@,
{
    if !heads {
        return;
    }
    move_random_cards(state, 1 - ctx.acting_player, Pile::Hand, Pile::Discard, 1);
}

/// Flips a coin; on heads a random card of the opponent's hand is discarded.
pub fn discard_random_card_opponent(state: &mut GameState, ctx: &EffectContext)
    requires
        ctx.acting_player < 2,
    ensures
        final(state)@ == old(state)@ || random_moves(
            old(state)@,
            final(state)@,
            1 - ctx.acting_player,
            Pile::Hand,
            Pile::Discard,
            1,
        ),
{
    let heads = coin_below_half(&mut state.rng);
    discard_random_card_on_flip(state, ctx, heads);
}

/// What the shuffling coin does once flipped: on heads, when the opponent
/// holds a card, a random card of the opponent's hand goes into the
/// opponent's deck, which is then shuffled; otherwise nothing happens.
pub fn shuffle_opponent_card_on_flip(state: &mut GameState, ctx: &EffectContext, heads: bool)
    requires
        ctx.acting_player < 2,
    ensures
        ({
            let o = 1 - ctx.acting_player;
            if heads && old(state)@.pile(o, Pile::Hand).len() > 0 {
                exists|g1: GameView|
                    #[trigger] random_moves(old(state)@, g1, o, Pile::Hand, Pile::Deck, 1) && g1.reordered(final(state)@, o, Pile::Deck)
            } else {
                final(state)@ == old(state)@
            }
        }),
{
    if !heads {
        return;
    }
    let o = 1 - ctx.acting_player;
    if state.pile_len(o, Pile::Hand) == 0 {
        return;
    }
    move_random_cards(state, o, Pile::Hand, Pile::Deck, 1);
    let ghost g1 = state@;
    state.shuffle_pile(o, Pile::Deck);
    assert(random_moves(old(state)@, g1, o as int, Pile::Hand, Pile::Deck, 1));
}

/// Flips a coin; on heads a random card of the opponent's hand is shuffled
/// into the opponent's deck.
pub fn coin_flip_shuffle_opponent_card(state: &mut GameState, ctx: &EffectContext)
    requires
        ctx.acting_player < 2,
    ensures
        ({
            let o = 1 - ctx.acting_player;
            ||| final(state)@ == old(state)@
            ||| exists|g1: GameView|
                #[trigger] random_moves(old(state)@, g1, o, Pile::Hand, Pile::Deck, 1) && g1.reordered(final(state)@, o, Pile::Deck)
                    && old(state)@.pile(o, Pile::Hand).len() > 0
        }),
{
    let heads = coin_below_half(&mut state.rng);
    shuffle_opponent_card_on_flip(state, ctx, heads);
}

/// What the shuffling coins do once flipped, given the number of heads: a
/// random card of the opponent's hand per heads (as far as the hand goes)
/// goes into the opponent's deck, which is then shuffled when it holds any
/// card; nothing happens without heads.
pub fn shuffle_opponent_cards_for_heads(state: &mut GameState, heads: u8, ctx: &EffectContext)
    requires
        ctx.acting_player < 2,
    ensures
        ({
            let o = 1 - ctx.acting_player;
            if heads == 0 {
                final(state)@ == old(state)@
            } else {
                exists|g1: GameView|
                    #[trigger] random_moves(old(state)@, g1, o, Pile::Hand, Pile::Deck, heads as nat) && (if g1.pile(
                        o,
                        Pile::Deck,
                    ).len() > 0 {
                        g1.reordered(final(state)@, o, Pile::Deck)
                    } else {
                        final(state)@ == g1
                    })
            }
        }),
        heads == 0 ==> *final(state) == *old(state),
{
    if heads == 0 {
        return;
    }
    let o = 1 - ctx.acting_player;
    move_random_cards(state, o, Pile::Hand, Pile::Deck, heads);
    let ghost g1 = state@;
    if state.pile_len(o, Pile::Deck) > 0 {
        state.shuffle_pile(o, Pile::Deck);
    }
    assert(random_moves(old(state)@, g1, o as int, Pile::Hand, Pile::Deck, heads as nat));
}

/// Flips `count` coins; for each heads a random card of the opponent's hand
/// is put into the opponent's deck, which is then shuffled (when it holds
/// any card).
pub fn multi_coin_shuffle_opponent_cards(state: &mut GameState, count: u8, ctx: &EffectContext)
    requires
        ctx.acting_player < 2,
    ensures
        ({
            let o = 1 - ctx.acting_player;
            ||| final(state)@ == old(state)@
            ||| exists|heads: nat, g1: GameView|
                1 <= heads <= count && #[trigger] random_moves(old(state)@, g1, o, Pile::Hand, Pile::Deck, heads) && (if g1.pile(
                    o,
                    Pile::Deck,
                ).len() > 0 {
                    g1.reordered(final(state)@, o, Pile::Deck)
                } else {
                    final(state)@ == g1
                })
        }),
        count == 0 ==> *final(state) == *old(state),
{
    let mut heads: u8 = 0;
    let mut i: u8 = 0;
    while i < count
        invariant
            heads <= i <= count,
            state@ == old(state)@,
            i == 0 ==> *state == *old(state),
        decreases count - i,
    {
        if coin_below_half(&mut state.rng) {
            heads = heads + 1;
        }
        i = i + 1;
    }
    shuffle_opponent_cards_for_heads(state, heads, ctx);
}

/// `raw / 10`, rounded toward zero.
pub open spec fn quot10(raw: i32) -> int {
    if raw >= 0 { raw / 10 } else { -((-raw) / 10) }
}

/// `raw % 10`, with the sign of `raw`.
pub open spec fn rem10(raw: i32) -> int {
    if raw >= 0 { (raw as int) % 10 } else { -((-raw) % 10) }
}

/// `raw` encodes a slot: `player * 10 + code`, code 0 for the active spot and
/// 1 to 3 for the bench spots.
pub open spec fn slot_code_ok(raw: i32) -> bool {
    rem10(raw) == 0 || 1 <= rem10(raw) <= 3
}

/// The slot that `raw` encodes.
pub open spec fn decoded_slot(raw: i32) -> SlotRef {
    let player = (quot10(raw) as usize) as u8;
    if rem10(raw) == 0 {
        SlotRef { player, slot: -1i8 }
    } else {
        SlotRef { player, slot: (rem10(raw) - 1) as i8 }
    }
}

/// Decodes a slot written as `player * 10 + code`.
fn decode_slot(raw: i32) -> (r: SlotRef)
    requires
        slot_code_ok(raw),
    ensures
        r == decoded_slot(raw),
{
    let (q, m): (i32, i32) = if raw >= 0 {
        (raw / 10, raw % 10)
    } else {
        let n: i32 = -raw;
        (-(n / 10), -(n % 10))
    };
    let player = q as usize;
    if m == 0 {
        SlotRef::active(player)
    } else {
        SlotRef::bench(player, (m - 1) as usize)
    }
}

/// The slot an effect aims at: the one encoded under `"target_slot"` in the
/// side table, else the acting player's active spot.
pub open spec fn extra_target(ctx: EffectContext) -> SlotRef {
    match ctx.extra_value("target_slot"@) {
        Some(raw) => decoded_slot(raw),
        None => active_ref(ctx.acting_player as int),
    }
}

/// The side table holds no malformed slot code.
pub open spec fn extra_target_ok(ctx: EffectContext) -> bool {
    match ctx.extra_value("target_slot"@) {
        Some(raw) => slot_code_ok(raw),
        None => true,
    }
}

/// Reads the target slot out of the side table.
fn target_from_extra(ctx: &EffectContext) -> (r: SlotRef)
    requires
        extra_target_ok(*ctx),
    ensures
        r == extra_target(*ctx),
{
    match extra_get(&ctx.extra, "target_slot") {
        Some(raw) => decode_slot(raw),
        None => SlotRef::active(ctx.acting_player),
    }
}

/// `s` with `amount` more maximum and current HP.
pub open spec fn hp_raised(s: PokemonSlot, amount: i16) -> PokemonSlot {
    PokemonSlot { max_hp: (s.max_hp + amount) as i16, current_hp: (s.current_hp + amount) as i16, ..s }
}

/// Giant Cape: the target Pokémon (see `extra_target`) gets `amount` more
/// maximum and current HP.
pub fn hp_bonus(state: &mut GameState, amount: i16, ctx: &EffectContext)
    requires
        extra_target_ok(*ctx),
        match old(state)@.slot(extra_target(*ctx)) {
            Some(s) => i16::MIN <= s.max_hp + amount <= i16::MAX && i16::MIN <= s.current_hp + amount <= i16::MAX,
            None => true,
        },
    ensures
        final(state)@ == old(state)@.map_slot(extra_target(*ctx), |s: PokemonSlot| hp_raised(s, amount)),
{
    let target = target_from_extra(ctx);
    match read_slot(state, target) {
        Some(s) => {
            let mut s2 = s;
            s2.max_hp = s.max_hp + amount;
            s2.current_hp = s.current_hp + amount;
            write_slot(state, target, Some(s2));
        },
        None => {},
    }
}

/// `s` evolved into card `evo` with `new_hp` maximum HP, keeping its damage.
pub open spec fn evolved(s: PokemonSlot, evo: u16, new_hp: i16) -> PokemonSlot {
    let taken = s.max_hp - s.current_hp;
    PokemonSlot {
        card_idx: evo,
        max_hp: new_hp,
        current_hp: if new_hp - taken < 0 { 0 } else { (new_hp - taken) as i16 },
        status: 0,
        evolved_this_turn: true,
        ability_used_this_turn: false,
        ..s
    }
}

/// The Stage 2 card that Rare Candy plays, from the side table.
pub open spec fn candy_card(ctx: EffectContext) -> Option<u16> {
    match ctx.extra_value("evo_card_idx"@) {
        Some(v) => if v >= 0 { Some(v as u16) } else { None },
        None => None,
    }
}

/// The hand after Rare Candy: the Stage 2 card leaves it when the side table
/// points at it.
pub open spec fn candy_hand(g: GameView, ctx: EffectContext, evo: u16) -> GameView {
    let p = ctx.acting_player as int;
    let h = g.pile(p, Pile::Hand);
    match ctx.extra_value("evo_hand_pos"@) {
        Some(pos) => {
            let i = (pos as usize) as int;
            if i < h.len() && h[i] == evo {
                g.with_pile(p, Pile::Hand, h.remove(i))
            } else {
                g
            }
        },
        None => g,
    }
}

/// Rare Candy: the target Pokémon (see `extra_target`) evolves straight into
/// the Stage 2 card named in the side table, keeping its damage and losing
/// its special conditions, and that card leaves the hand.
pub fn rare_candy_evolve(state: &mut GameState, db: &CardDb, ctx: &EffectContext)
    requires
        ctx.acting_player < 2,
        match candy_card(*ctx) {
            Some(evo) => {
                &&& (evo as int) < db.cards@.len()
                &&& extra_target_ok(*ctx)
                &&& match old(state)@.slot(extra_target(*ctx)) {
                    Some(s) => {
                        &&& i16::MIN <= s.max_hp - s.current_hp <= i16::MAX
                        &&& i16::MIN <= db.cards@[evo as int].hp - (s.max_hp - s.current_hp) <= i16::MAX
                    },
                    None => true,
                }
            },
            None => true,
        },
    ensures
        final(state)@ == match candy_card(*ctx) {
            Some(evo) => candy_hand(
                old(state)@.map_slot(extra_target(*ctx), |s: PokemonSlot| evolved(s, evo, db.cards@[evo as int].hp)),
                *ctx,
                evo,
            ),
            None => old(state)@,
        },
{
    let evo: u16 = match extra_get(&ctx.extra, "evo_card_idx") {
        Some(v) => {
            if v >= 0 {
                v as u16
            } else {
                return;
            }
        },
        None => {
            return;
        },
    };
    let target = target_from_extra(ctx);
    let new_hp = db.get_by_idx(evo).hp;
    match read_slot(state, target) {
        Some(s) => {
            let taken = s.max_hp - s.current_hp;
            let mut s2 = s;
            s2.card_idx = evo;
            s2.max_hp = new_hp;
            let hp = new_hp - taken;
            s2.current_hp = if hp < 0 { 0 } else { hp };
            s2.status = 0;
            s2.evolved_this_turn = true;
            s2.ability_used_this_turn = false;
            write_slot(state, target, Some(s2));
        },
        None => {},
    }
    match extra_get(&ctx.extra, "evo_hand_pos") {
        Some(pos) => {
            let p = ctx.acting_player;
            let i = pos as usize;
            if i < state.pile_len(p, Pile::Hand) && state.pile_card(p, Pile::Hand, i) == evo {
                state.take_from_pile(p, Pile::Hand, i);
            }
        },
        None => {},
    }
}

/// The active Pokémon of player `p` has the type named `required` (any
/// active Pokémon will do when `required` is empty).
pub open spec fn active_is_type(g: GameView, db: CardDb, p: int, required: Seq<char>) -> bool {
    if required.len() == 0 {
        g.players[p].active is Some
    } else {
        match Element::parse(required) {
            None => false,
            Some(e) => match g.players[p].active {
                None => false,
                Some(s) => db.card(s.card_idx) matches Some(c) && c.element == Some(e),
            },
        }
    }
}

/// Whether the active Pokémon of `player` has the type named `required`.
fn active_matches_type(state: &GameState, db: &CardDb, player: usize, required_active_type: &str) -> (r: bool)
    requires
        player < 2,
    ensures
        r == active_is_type(state@, *db, player as int, required_active_type@),
{
    if required_active_type.unicode_len() == 0 {
        return state.players[player].active.is_some();
    }
    let required = match Element::from_str(required_active_type) {
        Some(e) => e,
        None => {
            return false;
        },
    };
    let active = match &state.players[player].active {
        Some(s) => s,
        None => {
            return false;
        },
    };
    match db.try_get_by_idx(active.card_idx) {
        Some(c) => match c.element {
            Some(e) => e == required,
            None => false,
        },
        None => false,
    }
}

/// Ignition-style effects: one energy of the type named `energy_type`
/// attaches to the acting player's active Pokémon when it has the type named
/// `required_active_type`.
pub fn attach_energy_to_active_typed(
    state: &mut GameState,
    db: &CardDb,
    ctx: &EffectContext,
    energy_type: &str,
    required_active_type: &str,
)
    requires
        ctx.acting_player < 2,
    ensures
        final(state)@ == match Element::parse(energy_type@) {
            Some(e) => if active_is_type(old(state)@, *db, ctx.acting_player as int, required_active_type@) {
                old(state)@.map_slot(active_ref(ctx.acting_player as int), |s: PokemonSlot| s.with_energy_added(e, 1))
            } else {
                old(state)@
            },
            None => old(state)@,
        },
{
    let p = ctx.acting_player;
    if !active_matches_type(state, db, p, required_active_type) {
        return;
    }
    let element = match Element::from_str(energy_type) {
        Some(e) => e,
        None => {
            return;
        },
    };
    let r = SlotRef::active(p);
    match read_slot(state, r) {
        Some(s) => {
            let mut s2 = s;
            s2.add_energy(element, 1);
            write_slot(state, r, Some(s2));
        },
        None => {},
    }
}

/// Flame Patch: one energy of the type named `energy_type` moves from the
/// acting player's energy discard to the active Pokémon, when the discard
/// holds one and the active Pokémon has the type named `required_active_type`.
pub fn attach_discarded_energy_to_active(
    state: &mut GameState,
    db: &CardDb,
    ctx: &EffectContext,
    energy_type: &str,
    required_active_type: &str,
)
    requires
        ctx.acting_player < 2,
    ensures
        ({
            let p = ctx.acting_player as int;
            let g = old(state)@;
            final(state)@ == match Element::parse(energy_type@) {
                Some(e) => if g.players[p].energy_discard[e.index()] > 0 && active_is_type(g, *db, p, required_active_type@) {
                    let g1 = g.with_player(
                        p,
                        PlayerView {
                            energy_discard: g.players[p].energy_discard.update(
                                e.index(),
                                (g.players[p].energy_discard[e.index()] - 1) as u8,
                            ),
                            ..g.players[p]
                        },
                    );
                    g1.map_slot(active_ref(p), |s: PokemonSlot| s.with_energy_added(e, 1))
                } else {
                    g
                },
                None => g,
            }
        }),
{
    let p = ctx.acting_player;
    let element = match Element::from_str(energy_type) {
        Some(e) => e,
        None => {
            return;
        },
    };
    let i = element.idx();
    if state.players[p].energy_discard[i] == 0 {
        return;
    }
    if !active_matches_type(state, db, p, required_active_type) {
        return;
    }
    state.players[p].energy_discard.set(i, state.players[p].energy_discard[i] - 1);
    let ghost g0 = old(state)@;
    proof {
        assert(state@.players =~= g0.with_player(
            p as int,
            PlayerView {
                energy_discard: g0.players[p as int].energy_discard.update(
                    element.index(),
                    (g0.players[p as int].energy_discard[element.index()] - 1) as u8,
                ),
                ..g0.players[p as int]
            },
        ).players);
    }
    let r = SlotRef::active(p);
    match read_slot(state, r) {
        Some(s) => {
            let mut s2 = s;
            s2.add_energy(element, 1);
            write_slot(state, r, Some(s2));
        },
        None => {},
    }
}

/// The narration when the copied attack does no base damage.
pub open spec fn copy_zero_line(name: Seq<char>) -> Seq<char> {
    "🪿 Copy: opponent's first attack '"@ + name + "' has 0 base damage; effect tokens not yet supported"@
}

/// The narration when the copied attack is stopped by a damage shield.
pub open spec fn copy_prevented_line(name: Seq<char>, dmg: int) -> Seq<char> {
    "🪿 Copy: '"@ + name + "' for "@ + decimal(dmg) + "dmg — prevented by defender's prevent_damage_next_turn"@
}

/// The narration when the copied attack hits.
pub open spec fn copy_used_line(name: Seq<char>, dmg: int) -> Seq<char> {
    "🪿 Copy: used opponent's '"@ + name + "' for "@ + decimal(dmg) + "dmg (effect tokens not applied)"@
}

/// Damage of the copied attack before the defender's reduction: base
/// damage, the acting player's aura bonus and weakness.
pub open spec fn copy_raw_damage(g: GameView, db: CardDb, p: int) -> int {
    let a = g.players[p].active->0;
    let d = g.players[1 - p].active->0;
    let ac = db.cards@[a.card_idx as int];
    let dc = db.cards@[d.card_idx as int];
    dc.attacks@[0].damage + g.players[p].attack_damage_bonus + if ac.element is Some && dc.weakness == ac.element {
        20int
    } else {
        0int
    }
}

/// Damage of the copied attack after the defender's reduction, never negative.
pub open spec fn copy_damage(g: GameView, db: CardDb, p: int) -> int {
    let d = g.players[1 - p].active->0;
    let v = copy_raw_damage(g, db, p) - d.incoming_damage_reduction;
    if v < 0 { 0 } else { v }
}

/// Both active Pokémon exist and the defender's card has an attack to copy.
pub open spec fn copy_applies(g: GameView, db: CardDb, p: int) -> bool {
    &&& g.players[p].active is Some
    &&& g.players[1 - p].active is Some
    &&& db.cards@[g.players[1 - p].active->0.card_idx as int].attacks@.len() > 0
}

/// Every step of the copied attack's damage fits in an `i16`.
pub open spec fn copy_fits(g: GameView, db: CardDb, p: int) -> bool {
    let a = g.players[p].active->0;
    let d = g.players[1 - p].active->0;
    let ac = db.cards@[a.card_idx as int];
    let dc = db.cards@[d.card_idx as int];
    let base = dc.attacks@[0].damage;
    &&& i16::MIN <= base + g.players[p].attack_damage_bonus <= i16::MAX
    &&& i16::MIN <= copy_raw_damage(g, db, p) <= i16::MAX
    &&& i16::MIN <= copy_raw_damage(g, db, p) - d.incoming_damage_reduction <= i16::MAX
    &&& i16::MIN <= d.current_hp - copy_damage(g, db, p) <= i16::MAX
}

/// What copying the opponent's attack does to the game.
pub open spec fn copy_outcome(g: GameView, db: CardDb, p: int) -> GameView {
    if !copy_applies(g, db, p) {
        g
    } else {
        let d = g.players[1 - p].active->0;
        let atk = db.cards@[d.card_idx as int].attacks@[0];
        if atk.damage == 0 {
            g.log(copy_zero_line(atk.name@))
        } else if d.prevent_damage_next_turn {
            g.log(copy_prevented_line(atk.name@, copy_damage(g, db, p)))
        } else {
            g.damage_at(active_ref(1 - p), copy_damage(g, db, p) as i16).log(copy_used_line(atk.name@, copy_damage(g, db, p)))
        }
    }
}

/// Builds a narration line from its pieces.
fn copy_line(head: &str, name: &str, mid: &str, dmg: Option<i16>, tail: &str) -> (r: String)
    ensures
        r@ == match dmg {
            Some(d) => head@ + name@ + mid@ + decimal(d as int) + tail@,
            None => head@ + name@ + tail@,
        },
{
    let mut v: Vec<char> = Vec::new();
    push_str(&mut v, head);
    push_str(&mut v, name);
    match dmg {
        Some(d) => {
            push_str(&mut v, mid);
            let digits = decimal_chars(d as i32);
            let mut i: usize = 0;
            let ghost before = v@;
            while i < digits.len()
                invariant
                    i <= digits@.len(),
                    v@ == before + digits@.subrange(0, i as int),
                decreases digits.len() - i,
            {
                v.push(digits[i]);
                i = i + 1;
                assert(v@ =~= before + digits@.subrange(0, i as int));
            }
            assert(digits@.subrange(0, digits@.len() as int) =~= digits@);
        },
        None => {},
    }
    push_str(&mut v, tail);
    proof {
        match dmg {
            Some(d) => {
                assert(v@ =~= head@ + name@ + mid@ + decimal(d as int) + tail@);
            },
            None => {
                assert(v@ =~= head@ + name@ + tail@);
            },
        }
    }
    string_from_chars(v.as_slice())
}

/// Copies the opponent's first attack: its base damage, with the acting
/// player's aura bonus and weakness, less the defender's damage reduction,
/// hits the defending active Pokémon unless it is shielded; the attack's own
/// effects are not carried out.  Each outcome is narrated.
pub fn copy_opponent_attack(state: &mut GameState, db: &CardDb, ctx: &EffectContext)
    requires
        ctx.acting_player < 2,
        old(state)@.players[ctx.acting_player as int].active is Some ==> card_in_db(old(state)@, active_ref(ctx.acting_player as int), *db),
        old(state)@.players[1 - ctx.acting_player].active is Some ==> card_in_db(old(state)@, active_ref(1 - ctx.acting_player), *db),
        copy_applies(old(state)@, *db, ctx.acting_player as int) ==> copy_fits(old(state)@, *db, ctx.acting_player as int),
    ensures
        final(state)@ == copy_outcome(old(state)@, *db, ctx.acting_player as int),
{
    let p = ctx.acting_player;
    let opp = 1 - p;
    let attacker = match &state.players[p].active {
        Some(s) => s.card_idx,
        None => {
            return;
        },
    };
    let (defender, reduction, shielded, def_hp) = match &state.players[opp].active {
        Some(s) => (s.card_idx, s.incoming_damage_reduction, s.prevent_damage_next_turn, s.current_hp),
        None => {
            return;
        },
    };
    let attacker_card = db.get_by_idx(attacker);
    let opp_card = db.get_by_idx(defender);
    if opp_card.attacks.len() == 0 {
        return;
    }
    let copied = &opp_card.attacks[0];
    let base_damage = copied.damage;
    if base_damage == 0 {
        let line = copy_line(
            "🪿 Copy: opponent's first attack '",
            copied.name.as_str(),
            "",
            None,
            "' has 0 base damage; effect tokens not yet supported",
        );
        state.push_log(line);
        return;
    }
    let mut damage = base_damage + state.players[p].attack_damage_bonus as i16;
    let weak = match attacker_card.element {
        Some(_) => is_weak_to(opp_card.weakness, attacker_card.element),
        None => false,
    };
    if weak {
        damage = damage + WEAKNESS_BONUS;
    }
    let d = damage - reduction as i16;
    damage = if d < 0 { 0 } else { d };
    assert(damage == copy_damage(old(state)@, *db, p as int));
    if shielded {
        let line = copy_line(
            "🪿 Copy: '",
            copied.name.as_str(),
            "' for ",
            Some(damage),
            "dmg — prevented by defender's prevent_damage_next_turn",
        );
        state.push_log(line);
        return;
    }
    let r = SlotRef::active(opp);
    match read_slot(state, r) {
        Some(s) => {
            let mut s2 = s;
            let hp = s.current_hp - damage;
            s2.current_hp = if hp < 0 { 0 } else { hp };
            write_slot(state, r, Some(s2));
        },
        None => {},
    }
    let line = copy_line(
        "🪿 Copy: used opponent's '",
        copied.name.as_str(),
        "' for ",
        Some(damage),
        "dmg (effect tokens not applied)",
    );
    state.push_log(line);
}

/// The card of the Pokémon at `r` exists in `db`.
pub open spec fn card_in_db(g: GameView, r: SlotRef, db: CardDb) -> bool {
    (g.slot(r)->0.card_idx as int) < db.cards@.len()
}

/// `g1` differs from `g0` only in the hand and deck of player `p`, and that
/// player holds the same cards.
pub open spec fn hand_deck_swapped(g0: GameView, g1: GameView, p: int) -> bool {
    &&& g1.players[p].cards() == g0.players[p].cards()
    &&& g1 == g0.with_player(p, PlayerView { hand: g1.players[p].hand, deck: g1.players[p].deck, ..g0.players[p] })
}

/// A card moving between hand and deck keeps `hand_deck_swapped`.
proof fn lemma_swap_step(gs: GameView, g0: GameView, g1: GameView, p: int, from: Pile, to: Pile, db: CardDb, f: CardFilter)
    requires
        gs.wf(),
        g0.wf(),
        0 <= p < 2,
        (from == Pile::Hand && to == Pile::Deck) || (from == Pile::Deck && to == Pile::Hand),
        hand_deck_swapped(gs, g0, p),
        took_match(g0, g1, p, from, to, db, f),
    ensures
        hand_deck_swapped(gs, g1, p),
        g1.wf(),
{
    if has_match(g0.pile(p, from), db, f) {
        let i = choose|i: int|
            0 <= i < g0.pile(p, from).len() && #[trigger] db.matches(g0.pile(p, from)[i], f) && g1 == g0.move_card(p, from, i, to);
        lemma_move_card_conserves(g0, p, from, to, i);
        assert(g1.players =~= gs.with_player(p, PlayerView { hand: g1.players[p].hand, deck: g1.players[p].deck, ..gs.players[p] }).players);
    }
}

/// How many cards of `s` pass `f`.
pub open spec fn match_count(s: Seq<u16>, db: CardDb, f: CardFilter) -> nat
    decreases s.len(),
{
    if s.len() == 0 {
        0
    } else {
        match_count(s.drop_last(), db, f) + if db.matches(s.last(), f) { 1nat } else { 0nat }
    }
}

proof fn lemma_match_count_push(s: Seq<u16>, x: u16, db: CardDb, f: CardFilter)
    ensures
        match_count(s.push(x), db, f) == match_count(s, db, f) + if db.matches(x, f) { 1nat } else { 0nat },
{
    assert(s.push(x).drop_last() =~= s);
}

proof fn lemma_match_count_remove(s: Seq<u16>, i: int, db: CardDb, f: CardFilter)
    requires
        0 <= i < s.len(),
    ensures
        match_count(s.remove(i), db, f) + (if db.matches(s[i], f) { 1nat } else { 0nat }) == match_count(s, db, f),
    decreases s.len(),
{
    if i < s.len() - 1 {
        lemma_match_count_remove(s.drop_last(), i, db, f);
        assert(s.remove(i).drop_last() =~= s.drop_last().remove(i));
        assert(s.remove(i).last() == s.last());
    } else {
        assert(s.remove(i) =~= s.drop_last());
    }
}

proof fn lemma_match_count_has_match(s: Seq<u16>, db: CardDb, f: CardFilter)
    requires
        match_count(s, db, f) > 0,
    ensures
        has_match(s, db, f),
    decreases s.len(),
{
    if db.matches(s.last(), f) {
        assert(db.matches(s[s.len() - 1], f));
    } else {
        lemma_match_count_has_match(s.drop_last(), db, f);
        let i = choose|i: int| 0 <= i < s.drop_last().len() && #[trigger] db.matches(s.drop_last()[i], f);
        assert(db.matches(s[i], f));
    }
}

/// One card moving from pile `from` to pile `to` of player `p`: the piles'
/// sizes and counts of cards passing `f` before and after.
proof fn lemma_moved_counts(g0: GameView, g1: GameView, p: int, from: Pile, to: Pile, db: CardDb, f: CardFilter)
    requires
        0 <= p < 2,
        g0.players.len() == 2,
        from != to,
        has_match(g0.pile(p, from), db, f),
        took_match(g0, g1, p, from, to, db, f),
    ensures
        g1.pile(p, from).len() + 1 == g0.pile(p, from).len(),
        g1.pile(p, to).len() == g0.pile(p, to).len() + 1,
        match_count(g1.pile(p, from), db, f) + 1 == match_count(g0.pile(p, from), db, f),
        match_count(g1.pile(p, to), db, f) == match_count(g0.pile(p, to), db, f) + 1,
{
    let i = choose|i: int|
        0 <= i < g0.pile(p, from).len() && #[trigger] db.matches(g0.pile(p, from)[i], f) && g1 == g0.move_card(p, from, i, to);
    lemma_match_count_remove(g0.pile(p, from), i, db, f);
    assert(g1.pile(p, from) == g0.pile(p, from).remove(i));
    assert(g1.pile(p, to) == g0.pile(p, to).push(g0.pile(p, from)[i]));
    lemma_match_count_push(g0.pile(p, to), g0.pile(p, from)[i], db, f);
}

/// May: up to `count` random Pokémon go from the deck to the hand; then the
/// deck is shuffled and, for each Pokémon taken, a random Pokémon from the
/// hand is shuffled back into the deck.  Only the hand and deck change, the
/// player keeps the same cards, and nothing happens when `count` is 0 or
/// the deck holds no Pokémon.
pub fn may_swap_pokemon(state: &mut GameState, db: &CardDb, ctx: &EffectContext, count: u8)
    requires
        ctx.acting_player < 2,
    ensures
        hand_deck_swapped(old(state)@, final(state)@, ctx.acting_player as int),
        final(state)@.pile(ctx.acting_player as int, Pile::Hand).len() == old(state)@.pile(ctx.acting_player as int, Pile::Hand).len(),
        final(state)@.pile(ctx.acting_player as int, Pile::Deck).len() == old(state)@.pile(ctx.acting_player as int, Pile::Deck).len(),
        count == 0 || !has_match(old(state)@.pile(ctx.acting_player as int, Pile::Deck), *db, CardFilter::Pokemon)
            ==> final(state)@ == old(state)@,
        count == 0 ==> *final(state) == *old(state),
{
    let p = ctx.acting_player;
    let ghost g0 = state@;
    assert(g0.players[0].bench.len() == 3 && g0.players[1].bench.len() == 3);
    assert(hand_deck_swapped(g0, g0, p as int)) by {
        assert(g0.players =~= g0.with_player(p as int, PlayerView { hand: g0.players[p as int].hand, deck: g0.players[p as int].deck, ..g0.players[p as int] }).players);
    }
    if count == 0 {
        return;
    }
    let mut pulled: u8 = 0;
    let mut i: u8 = 0;
    while i < count
        invariant
            p < 2,
            g0 == old(state)@,
            g0.wf(),
            state@.wf(),
            pulled <= i <= count,
            hand_deck_swapped(g0, state@, p as int),
            state@.pile(p as int, Pile::Hand).len() == g0.pile(p as int, Pile::Hand).len() + pulled,
            state@.pile(p as int, Pile::Deck).len() + pulled == g0.pile(p as int, Pile::Deck).len(),
            match_count(state@.pile(p as int, Pile::Hand), *db, CardFilter::Pokemon) == match_count(
                g0.pile(p as int, Pile::Hand),
                *db,
                CardFilter::Pokemon,
            ) + pulled,
            pulled == 0 ==> state@ == g0,
            pulled > 0 ==> has_match(g0.pile(p as int, Pile::Deck), *db, CardFilter::Pokemon),
            i > 0 && pulled == 0 ==> !has_match(g0.pile(p as int, Pile::Deck), *db, CardFilter::Pokemon),
        decreases count - i,
    {
        let ghost before = state@;
        let moved = move_random_match(state, p, Pile::Deck, Pile::Hand, db, &CardFilter::Pokemon);
        proof {
            lemma_swap_step(g0, before, state@, p as int, Pile::Deck, Pile::Hand, *db, CardFilter::Pokemon);
            if moved {
                lemma_moved_counts(before, state@, p as int, Pile::Deck, Pile::Hand, *db, CardFilter::Pokemon);
            }
        }
        if !moved {
            break;
        }
        pulled = pulled + 1;
        i = i + 1;
    }
    if pulled == 0 {
        return;
    }
    let ghost before_shuffle = state@;
    state.shuffle_pile(p, Pile::Deck);
    proof {
        lemma_reorder_conserves(before_shuffle, state@, p as int, Pile::Deck);
        assert(state@.pile(p as int, Pile::Deck).len() == before_shuffle.pile(p as int, Pile::Deck).len()) by {
            vstd::seq_lib::to_multiset_len(state@.pile(p as int, Pile::Deck));
            vstd::seq_lib::to_multiset_len(before_shuffle.pile(p as int, Pile::Deck));
        }
        assert(state@.pile(p as int, Pile::Hand) == before_shuffle.pile(p as int, Pile::Hand));
        assert(state@.players =~= g0.with_player(p as int, PlayerView { hand: state@.players[p as int].hand, deck: state@.players[p as int].deck, ..g0.players[p as int] }).players);
    }
    let mut j: u8 = 0;
    while j < pulled
        invariant
            p < 2,
            g0 == old(state)@,
            g0.wf(),
            state@.wf(),
            j <= pulled,
            0 < pulled <= count,
            has_match(g0.pile(p as int, Pile::Deck), *db, CardFilter::Pokemon),
            hand_deck_swapped(g0, state@, p as int),
            state@.pile(p as int, Pile::Hand).len() + j == g0.pile(p as int, Pile::Hand).len() + pulled,
            state@.pile(p as int, Pile::Deck).len() + pulled == g0.pile(p as int, Pile::Deck).len() + j,
            match_count(state@.pile(p as int, Pile::Hand), *db, CardFilter::Pokemon) + j == match_count(
                g0.pile(p as int, Pile::Hand),
                *db,
                CardFilter::Pokemon,
            ) + pulled,
        ensures
            j == pulled,
        decreases pulled - j,
    {
        let ghost before = state@;
        proof {
            lemma_match_count_has_match(before.pile(p as int, Pile::Hand), *db, CardFilter::Pokemon);
        }
        let moved = move_random_match(state, p, Pile::Hand, Pile::Deck, db, &CardFilter::Pokemon);
        proof {
            lemma_swap_step(g0, before, state@, p as int, Pile::Hand, Pile::Deck, *db, CardFilter::Pokemon);
            lemma_moved_counts(before, state@, p as int, Pile::Hand, Pile::Deck, *db, CardFilter::Pokemon);
        }
        assert(moved);
        if !moved {
            break;
        }
        let ghost mid = state@;
        state.shuffle_pile(p, Pile::Deck);
        proof {
            lemma_reorder_conserves(mid, state@, p as int, Pile::Deck);
            assert(state@.pile(p as int, Pile::Deck).len() == mid.pile(p as int, Pile::Deck).len()) by {
            vstd::seq_lib::to_multiset_len(state@.pile(p as int, Pile::Deck));
            vstd::seq_lib::to_multiset_len(mid.pile(p as int, Pile::Deck));
        }
            assert(state@.pile(p as int, Pile::Hand) == mid.pile(p as int, Pile::Hand));
            assert(state@.players =~= g0.with_player(p as int, PlayerView { hand: state@.players[p as int].hand, deck: state@.players[p as int].deck, ..g0.players[p as int] }).players);
        }
        j = j + 1;
    }
}

}
