//! Attaching, discarding and moving energy, and discarding the top of the deck.
use vstd::prelude::*;
use rand::rngs::SmallRng;
use crate::actions::SlotRef;
use crate::card::CardDb;
use crate::effects::EffectContext;
use crate::rng::{coin_below_half, flip_coin, random_index};
use crate::state::{
    GameState, GameView, Pile, PlayerView, PokemonSlot, active_ref, bench_ref, energy_sum, read_slot,
    write_slot,
};
use crate::types::Element;
use crate::text::{str_eq, to_lowercase, lowered};
use vstd::array::{spec_array_fill_for_copy_type, spec_array_update};

verus! {

/// `s` with energy counter `i` set to `v`.
pub open spec fn with_energy(s: PokemonSlot, i: int, v: u8) -> PokemonSlot {
    PokemonSlot { energy: spec_array_update(s.energy, i, v), ..s }
}

/// The game with `n` more energy of type `i` in player `p`'s energy discard.
pub open spec fn add_to_energy_discard(g: GameView, p: int, i: int, n: int) -> GameView {
    g.with_player(
        p,
        PlayerView {
            energy_discard: g.players[p].energy_discard.update(i, (g.players[p].energy_discard[i] + n) as u8),
            ..g.players[p]
        },
    )
}

/// The game after one energy of type `i` leaves the Pokémon at `r`, going to
/// its owner's energy discard when `to_pile` is set.
pub open spec fn unit_removed(g: GameView, r: SlotRef, i: int, to_pile: bool) -> GameView {
    let g1 = g.map_slot(r, |s: PokemonSlot| with_energy(s, i, (s.energy@[i] - 1) as u8));
    if to_pile {
        add_to_energy_discard(g1, r.player as int, i, 1)
    } else {
        g1
    }
}

/// Energy attached to the Pokémon at `r` (0 if the spot is empty).
pub open spec fn energy_at(g: GameView, r: SlotRef) -> int {
    match g.slot(r) {
        Some(s) => energy_sum(s.energy@),
        None => 0,
    }
}

/// `g1` is `g0` after one energy unit, picked at random, left the Pokémon at
/// `r` (nothing happens when it has none).
pub open spec fn random_unit_removed(g0: GameView, g1: GameView, r: SlotRef, to_pile: bool) -> bool {
    if energy_at(g0, r) == 0 {
        g1 == g0
    } else {
        exists|i: int| 0 <= i < 8 && g0.slot(r)->0.energy@[i] > 0 && g1 == #[trigger] unit_removed(g0, r, i, to_pile)
    }
}

/// The game counts at most 255 energy on the Pokémon at `r`, and each type it
/// carries has room for one more in its owner's energy discard.
pub open spec fn discard_room(g: GameView, r: SlotRef) -> bool {
    match g.slot(r) {
        Some(s) => {
            &&& energy_sum(s.energy@) <= 255
            &&& forall|i: int| 0 <= i < 8 && s.energy@[i] > 0 ==> #[trigger] g.players[r.player as int].energy_discard[i] < 255
        },
        None => true,
    }
}

/// A counter array with a zero sum has only zeros.
proof fn lemma_sum_zero(e: Seq<u8>, i: int)
    requires
        energy_sum(e) == 0,
        0 <= i < e.len(),
    ensures
        e[i] == 0,
    decreases e.len(),
{
    lemma_sum_nonneg(e.drop_last());
    if i < e.len() - 1 {
        lemma_sum_zero(e.drop_last(), i);
    }
}

/// A counter array of zeros sums to zero.
proof fn lemma_zeros_sum(e: Seq<u8>)
    requires
        forall|i: int| 0 <= i < e.len() ==> e[i] == 0,
    ensures
        energy_sum(e) == 0,
    decreases e.len(),
{
    if e.len() > 0 {
        lemma_zeros_sum(e.drop_last());
    }
}

/// Each counter is at most the sum.
proof fn lemma_sum_bounds(e: Seq<u8>, i: int)
    requires
        0 <= i < e.len(),
    ensures
        e[i] <= energy_sum(e),
        energy_sum(e) >= 0,
    decreases e.len(),
{
    lemma_sum_nonneg(e.drop_last());
    if i < e.len() - 1 {
        lemma_sum_bounds(e.drop_last(), i);
    }
}

proof fn lemma_sum_nonneg(e: Seq<u8>)
    ensures
        energy_sum(e) >= 0,
    decreases e.len(),
{
    if e.len() > 0 {
        lemma_sum_nonneg(e.drop_last());
    }
}

/// Picks one unit of the energy on `s` at random, each unit as likely as
/// any other, and returns its type index.
fn pick_energy_unit(rng: &mut SmallRng, s: &PokemonSlot) -> (r: Option<usize>)
    requires
        energy_sum(s.energy@) <= 255,
    ensures
        match r {
            Some(i) => i < 8 && s.energy@[i as int] > 0,
            None => energy_sum(s.energy@) == 0,
        },
{
    let total = s.total_energy();
    if total == 0 {
        return None;
    }
    let pick = random_index(rng, total as usize);
    let mut acc: usize = 0;
    let mut i: usize = 0;
    while i < 8
        invariant
            i <= 8,
            total as int == energy_sum(s.energy@),
            pick < total,
            acc == energy_sum(s.energy@.subrange(0, i as int)),
            acc <= pick,
        decreases 8 - i,
    {
        proof {
            let t = s.energy@.subrange(0, i + 1);
            assert(t.drop_last() =~= s.energy@.subrange(0, i as int));
        }
        acc = acc + s.energy[i] as usize;
        if acc > pick {
            return Some(i);
        }
        i = i + 1;
    }
    assert(s.energy@.subrange(0, 8) =~= s.energy@);
    None
}

/// Takes one energy of type `i` off the Pokémon at `r`, into its owner's
/// energy discard when `to_pile` is set.
fn remove_energy_unit(state: &mut GameState, r: SlotRef, i: usize, to_pile: bool)
    requires
        r.valid(),
        i < 8,
        old(state)@.slot(r) is Some,
        old(state)@.slot(r)->0.energy@[i as int] > 0,
        to_pile ==> old(state)@.players[r.player as int].energy_discard[i as int] < 255,
    ensures
        final(state)@ == unit_removed(old(state)@, r, i as int, to_pile),
{
    let s = read_slot(state, r).unwrap();
    let mut s2 = s;
    s2.energy[i] = s.energy[i] - 1;
    write_slot(state, r, Some(s2));
    if to_pile {
        add_discard_unit(state, r.player as usize, i);
    }
}

/// One more energy of type `i` in player `p`'s energy discard.
fn add_discard_unit(state: &mut GameState, p: usize, i: usize)
    requires
        p < 2,
        i < 8,
        old(state)@.players[p as int].energy_discard[i as int] < 255,
    ensures
        final(state)@ == add_to_energy_discard(old(state)@, p as int, i as int, 1),
{
    let v = state.players[p].energy_discard[i];
    state.players[p].energy_discard[i] = v + 1;
    proof {
        assert(state@.players =~= add_to_energy_discard(old(state)@, p as int, i as int, 1).players);
    }
}

/// `n` more energy of type `i` in player `p`'s energy discard.
fn add_discard_n(state: &mut GameState, p: usize, i: usize, n: u8)
    requires
        p < 2,
        i < 8,
        old(state)@.players[p as int].energy_discard[i as int] + n <= 255,
    ensures
        final(state)@ == add_to_energy_discard(old(state)@, p as int, i as int, n as int),
{
    let v = state.players[p].energy_discard[i];
    state.players[p].energy_discard[i] = v + n;
    proof {
        assert(state@.players =~= add_to_energy_discard(old(state)@, p as int, i as int, n as int).players);
    }
}

/// Moves `m` energy of type `i` from the Pokémon at `r` to its owner's
/// energy discard.
fn move_units_to_pile(state: &mut GameState, r: SlotRef, i: usize, m: u8)
    requires
        r.valid(),
        i < 8,
        old(state)@.slot(r) is Some,
        old(state)@.slot(r)->0.energy@[i as int] >= m,
        old(state)@.players[r.player as int].energy_discard[i as int] + m <= 255,
    ensures
        final(state)@ == units_moved_to_pile(old(state)@, r, i as int, m as int),
{
    let s = read_slot(state, r).unwrap();
    let mut s2 = s;
    s2.energy[i] = s.energy[i] - m;
    write_slot(state, r, Some(s2));
    let ghost g1 = state@;
    assert(g1 == old(state)@.map_slot(r, |t: PokemonSlot| with_energy(t, i as int, (t.energy@[i as int] - m) as u8)));
    add_discard_n(state, r.player as usize, i, m);
}

/// Takes one random unit of energy off the Pokémon at `r`.
fn discard_random_unit(state: &mut GameState, r: SlotRef, to_pile: bool)
    requires
        r.valid(),
        match old(state)@.slot(r) {
            Some(s) => energy_sum(s.energy@) <= 255,
            None => true,
        },
        to_pile ==> discard_room(old(state)@, r),
    ensures
        random_unit_removed(old(state)@, final(state)@, r, to_pile),
{
    match read_slot(state, r) {
        None => {},
        Some(s) => {
            match pick_energy_unit(&mut state.rng, &s) {
                None => {},
                Some(i) => {
                    remove_energy_unit(state, r, i, to_pile);
                    assert(energy_at(old(state)@, r) > 0) by {
                        lemma_sum_bounds(s.energy@, i as int);
                    }
                },
            }
        },
    }
}

/// Takes one random unit of energy off `slot` (nothing happens when it has
/// none); the energy is not kept anywhere.
pub fn discard_random_energy(slot: &mut PokemonSlot, rng: &mut SmallRng)
    requires
        energy_sum(old(slot).energy@) <= 255,
    ensures
        energy_sum(old(slot).energy@) == 0 ==> *final(slot) == *old(slot),
        energy_sum(old(slot).energy@) > 0 ==> exists|i: int|
            0 <= i < 8 && old(slot).energy@[i] > 0 && *final(slot) == #[trigger] with_energy(
                *old(slot),
                i,
                (old(slot).energy@[i] - 1) as u8,
            ),
{
    match pick_energy_unit(rng, slot) {
        None => {},
        Some(i) => {
            proof {
                lemma_sum_bounds(old(slot).energy@, i as int);
            }
            let v = slot.energy[i];
            slot.energy[i] = v - 1;
            assert(*slot == with_energy(*old(slot), i as int, (old(slot).energy@[i as int] - 1) as u8));
        },
    }
}

/// First occupied bench spot of `player`.
pub open spec fn first_bench(g: GameView, player: int) -> Option<int> {
    if g.players[player].bench[0] is Some {
        Some(0)
    } else if g.players[player].bench[1] is Some {
        Some(1)
    } else if g.players[player].bench[2] is Some {
        Some(2)
    } else {
        None
    }
}

/// The Pokémon `s` has a card of type `el`.
pub open spec fn slot_is_type(s: PokemonSlot, db: CardDb, el: Element) -> bool {
    db.card(s.card_idx) matches Some(c) && c.element == Some(el)
}

/// Bench spot `i` of `player` holds a Pokémon of type `el`.
pub open spec fn bench_is_type(g: GameView, db: CardDb, player: int, i: int, el: Element) -> bool {
    g.players[player].bench[i] matches Some(s) && slot_is_type(s, db, el)
}

/// First bench spot of `player` holding a Pokémon of type `el`.
pub open spec fn first_bench_of_type(g: GameView, db: CardDb, player: int, el: Element) -> Option<int> {
    if bench_is_type(g, db, player, 0, el) {
        Some(0)
    } else if bench_is_type(g, db, player, 1, el) {
        Some(1)
    } else if bench_is_type(g, db, player, 2, el) {
        Some(2)
    } else {
        None
    }
}

/// Whether `s` has a card of type `el`.
fn slot_has_type(s: &PokemonSlot, db: &CardDb, el: Element) -> (r: bool)
    ensures
        r == slot_is_type(*s, *db, el),
{
    match db.try_get_by_idx(s.card_idx) {
        Some(c) => match c.element {
            Some(e) => e == el,
            None => false,
        },
        None => false,
    }
}

/// The first occupied bench spot of `player`.
fn find_bench_occupied(state: &GameState, player: usize) -> (r: Option<usize>)
    requires
        player < 2,
    ensures
        match first_bench(state@, player as int) {
            Some(i) => r == Some(i as usize),
            None => r is None,
        },
{
    let mut i: usize = 0;
    while i < 3
        invariant
            player < 2,
            i <= 3,
            forall|j: int| 0 <= j < i ==> state@.players[player as int].bench[j] is None,
        decreases 3 - i,
    {
        if state.players[player].bench[i].is_some() {
            return Some(i);
        }
        i = i + 1;
    }
    None
}

/// The first bench spot of `player` holding a Pokémon of type `filter_el`.
fn find_bench_by_element(state: &GameState, db: &CardDb, player: usize, filter_el: Element) -> (r: Option<usize>)
    requires
        player < 2,
    ensures
        match first_bench_of_type(state@, *db, player as int, filter_el) {
            Some(i) => r == Some(i as usize),
            None => r is None,
        },
{
    let mut i: usize = 0;
    while i < 3
        invariant
            player < 2,
            i <= 3,
            forall|j: int| 0 <= j < i ==> !bench_is_type(state@, *db, player as int, j, filter_el),
        decreases 3 - i,
    {
        match &state.players[player].bench[i] {
            Some(s) => {
                if slot_has_type(s, db, filter_el) {
                    return Some(i);
                }
            },
            None => {},
        }
        i = i + 1;
    }
    None
}

/// Adds `n` energy of `el` (saturating) to the Pokémon at `r`, if any.
fn add_energy_at(state: &mut GameState, r: SlotRef, el: Element, n: u8)
    requires
        r.valid(),
    ensures
        final(state)@ == old(state)@.map_slot(r, |s: PokemonSlot| s.with_energy_added(el, n)),
{
    match read_slot(state, r) {
        Some(s) => {
            let mut s2 = s;
            s2.add_energy(el, n);
            write_slot(state, r, Some(s2));
        },
        None => {},
    }
}

/// Attaches `count` energy of `element` from the Energy Zone to the acting
/// player's active Pokémon.
pub fn attach_energy_zone_self(state: &mut GameState, ctx: &EffectContext, element: Element, count: u8)
    requires
        ctx.acting_player < 2,
    ensures
        final(state)@ == old(state)@.map_slot(
            active_ref(ctx.acting_player as int),
            |s: PokemonSlot| s.with_energy_added(element, count),
        ),
{
    add_energy_at(state, SlotRef::active(ctx.acting_player), element, count);
}

/// One Psychic energy to the acting player's active Pokémon; the turn then
/// ends, which the engine handles.
pub fn ability_attach_energy_end_turn(state: &mut GameState, ctx: &EffectContext)
    requires
        ctx.acting_player < 2,
    ensures
        final(state)@ == old(state)@.map_slot(
            active_ref(ctx.acting_player as int),
            |s: PokemonSlot| s.with_energy_added(Element::Psychic, 1),
        ),
{
    attach_energy_zone_self(state, ctx, Element::Psychic, 1);
}

/// First-turn energy: handled by the engine, nothing to do here.
pub fn first_turn_energy_attach(state: &mut GameState, ctx: &EffectContext, element: Element)
    ensures
        final(state)@ == old(state)@,
{
}

/// The bench spot an attach effect aims at: the chosen own bench spot, else
/// `fallback`.
pub open spec fn chosen_bench(ctx: EffectContext, fallback: Option<int>) -> Option<int> {
    match ctx.target_ref {
        Some(r) if r.slot >= 0 && r.player as int == ctx.acting_player => Some(r.slot as int),
        _ => fallback,
    }
}

/// A chosen own bench spot names one of the three spots.
pub open spec fn chosen_bench_ok(ctx: EffectContext) -> bool {
    match ctx.target_ref {
        Some(r) => r.slot >= 0 && r.player as int == ctx.acting_player ==> r.slot <= 2,
        None => true,
    }
}

/// The chosen own bench spot, if the context names one.
fn own_bench_target(ctx: &EffectContext) -> (r: Option<usize>)
    requires
        chosen_bench_ok(*ctx),
    ensures
        match chosen_bench(*ctx, None) {
            Some(i) => r == Some(i as usize) && i <= 2,
            None => r is None,
        },
{
    match ctx.target_ref {
        Some(t) => {
            if t.is_bench() && t.player as usize == ctx.acting_player {
                Some(t.bench_index())
            } else {
                None
            }
        },
        None => None,
    }
}

/// One energy of `element` to a benched Pokémon of the acting player: the
/// chosen bench spot, else the first benched Pokémon (of type `target_type`
/// when one is given).
pub fn attach_energy_zone_bench(
    state: &mut GameState,
    db: &CardDb,
    ctx: &EffectContext,
    element: Element,
    target_type: Option<Element>,
)
    requires
        ctx.acting_player < 2,
        chosen_bench_ok(*ctx),
    ensures
        ({
            let p = ctx.acting_player as int;
            let fb = match target_type {
                Some(t) => first_bench_of_type(old(state)@, *db, p, t),
                None => first_bench(old(state)@, p),
            };
            final(state)@ == match chosen_bench(*ctx, fb) {
                Some(i) => old(state)@.map_slot(bench_ref(p, i), |s: PokemonSlot| s.with_energy_added(element, 1)),
                None => old(state)@,
            }
        }),
{
    let pi = ctx.acting_player;
    let idx = match own_bench_target(ctx) {
        Some(i) => Some(i),
        None => match target_type {
            Some(t) => find_bench_by_element(state, db, pi, t),
            None => find_bench_occupied(state, pi),
        },
    };
    if let Some(i) = idx {
        add_energy_at(state, SlotRef::bench(pi, i), element, 1);
    }
}

/// `count` energy of `element` to one benched Pokémon of the acting player:
/// the chosen bench spot, else the first benched Pokémon.
pub fn attach_n_energy_zone_bench(
    state: &mut GameState,
    db: &CardDb,
    ctx: &EffectContext,
    element: Element,
    count: u8,
)
    requires
        ctx.acting_player < 2,
        chosen_bench_ok(*ctx),
    ensures
        ({
            let p = ctx.acting_player as int;
            final(state)@ == match chosen_bench(*ctx, first_bench(old(state)@, p)) {
                Some(i) => old(state)@.map_slot(bench_ref(p, i), |s: PokemonSlot| s.with_energy_added(element, count)),
                None => old(state)@,
            }
        }),
{
    let pi = ctx.acting_player;
    let idx = match own_bench_target(ctx) {
        Some(i) => Some(i),
        None => find_bench_occupied(state, pi),
    };
    if let Some(i) = idx {
        add_energy_at(state, SlotRef::bench(pi, i), element, count);
    }
}

/// Colorless energy is not in the Energy Zone: nothing happens.
pub fn attach_colorless_energy_zone_bench(state: &mut GameState, ctx: &EffectContext)
    ensures
        final(state)@ == old(state)@,
{
}

/// The own bench spot that `t` names, if it holds a Pokémon.
pub open spec fn valid_own_bench(g: GameView, p: int, t: Option<SlotRef>) -> Option<int> {
    match t {
        Some(r) => if r.player as int == p && r.slot >= 0 && g.players[p].bench[r.slot as int] is Some {
            Some(r.slot as int)
        } else {
            None
        },
        None => None,
    }
}

/// The occupied bench spots of player `p`, in order.
pub open spec fn occupied_benches(g: GameView, p: int) -> Seq<int> {
    (if g.players[p].bench[0] is Some { seq![0int] } else { Seq::<int>::empty() })
        + (if g.players[p].bench[1] is Some { seq![1int] } else { Seq::<int>::empty() })
        + (if g.players[p].bench[2] is Some { seq![2int] } else { Seq::<int>::empty() })
}

/// The first occupied bench spot of player `p` other than `x`.
pub open spec fn first_other_bench(g: GameView, p: int, x: int) -> Option<int> {
    if g.players[p].bench[0] is Some && x != 0 {
        Some(0)
    } else if g.players[p].bench[1] is Some && x != 1 {
        Some(1)
    } else if g.players[p].bench[2] is Some && x != 2 {
        Some(2)
    } else {
        None
    }
}

/// The bench spots that get a Water energy from `attach_water_two_bench`:
/// the valid chosen spots, topped up (or replaced, when none is valid) with
/// the first occupied spots, two at most.
pub open spec fn water_picks(g: GameView, ctx: EffectContext) -> Seq<int> {
    let p = ctx.acting_player as int;
    let c1: Seq<int> = match valid_own_bench(g, p, ctx.target_ref) {
        Some(i) => seq![i],
        None => Seq::empty(),
    };
    let c2: Seq<int> = match valid_own_bench(g, p, ctx.extra_target_ref) {
        Some(j) => if c1.contains(j) { c1 } else { c1.push(j) },
        None => c1,
    };
    if c2.len() == 0 {
        let o = occupied_benches(g, p);
        if o.len() > 2 { o.subrange(0, 2) } else { o }
    } else if c2.len() == 1 {
        match first_other_bench(g, p, c2[0]) {
            Some(k) => c2.push(k),
            None => c2,
        }
    } else {
        c2
    }
}

/// The game after each bench spot in `picks` (of player `p`), in order,
/// gets `n` energy of `el`.
pub open spec fn attach_each(g: GameView, p: int, picks: Seq<int>, el: Element, n: u8) -> GameView
    decreases picks.len(),
{
    if picks.len() == 0 {
        g
    } else {
        attach_each(g, p, picks.drop_last(), el, n).map_slot(bench_ref(p, picks.last()), |s: PokemonSlot| s.with_energy_added(el, n))
    }
}

/// Both chosen targets, when they are own bench spots, name one of the three.
pub open spec fn two_targets_ok(ctx: EffectContext) -> bool {
    &&& chosen_bench_ok(ctx)
    &&& match ctx.extra_target_ref {
        Some(r) => r.slot >= 0 && r.player as int == ctx.acting_player ==> r.slot <= 2,
        None => true,
    }
}

/// The own bench spot that `t` names, if it holds a Pokémon.
fn own_occupied_bench(state: &GameState, p: usize, t: Option<SlotRef>) -> (r: Option<usize>)
    requires
        p < 2,
        match t {
            Some(x) => x.slot >= 0 && x.player as int == p ==> x.slot <= 2,
            None => true,
        },
    ensures
        match valid_own_bench(state@, p as int, t) {
            Some(i) => r == Some(i as usize) && 0 <= i <= 2,
            None => r is None,
        },
{
    match t {
        Some(x) => {
            if x.player as usize != p || !x.is_bench() {
                return None;
            }
            let bi = x.bench_index();
            if state.players[p].bench[bi].is_some() {
                Some(bi)
            } else {
                None
            }
        },
        None => None,
    }
}

/// Manaphy: one Water energy to each of two benched Pokémon of the acting
/// player, those chosen when valid, else the first occupied ones.
pub fn attach_water_two_bench(state: &mut GameState, ctx: &EffectContext)
    requires
        ctx.acting_player < 2,
        two_targets_ok(*ctx),
    ensures
        final(state)@ == attach_each(old(state)@, ctx.acting_player as int, water_picks(old(state)@, *ctx), Element::Water, 1),
{
    let pi = ctx.acting_player;
    let mut chosen: Vec<usize> = Vec::new();
    if let Some(bi) = own_occupied_bench(state, pi, ctx.target_ref) {
        chosen.push(bi);
    }
    if let Some(bj) = own_occupied_bench(state, pi, ctx.extra_target_ref) {
        if !(chosen.len() == 1 && chosen[0] == bj) {
            chosen.push(bj);
        }
    }
    let b0 = state.players[pi].bench[0].is_some();
    let b1 = state.players[pi].bench[1].is_some();
    let b2 = state.players[pi].bench[2].is_some();
    if chosen.len() == 0 {
        if b0 {
            chosen.push(0);
        }
        if b1 {
            chosen.push(1);
        }
        if b2 && chosen.len() < 2 {
            chosen.push(2);
        }
    } else if chosen.len() == 1 {
        let first = chosen[0];
        if b0 && first != 0 {
            chosen.push(0);
        } else if b1 && first != 1 {
            chosen.push(1);
        } else if b2 && first != 2 {
            chosen.push(2);
        }
    }
    assert(chosen@.map_values(|x: usize| x as int) =~= water_picks(old(state)@, *ctx));
    let mut k: usize = 0;
    while k < chosen.len()
        invariant
            pi < 2,
            k <= chosen@.len(),
            forall|j: int| 0 <= j < chosen@.len() ==> chosen@[j] <= 2,
            state@ == attach_each(old(state)@, pi as int, chosen@.map_values(|x: usize| x as int).subrange(0, k as int), Element::Water, 1),
        decreases chosen.len() - k,
    {
        let ghost before = chosen@.map_values(|x: usize| x as int).subrange(0, k as int);
        add_energy_at(state, SlotRef::bench(pi, chosen[k]), Element::Water, 1);
        proof {
            let after = chosen@.map_values(|x: usize| x as int).subrange(0, k + 1);
            assert(after.drop_last() =~= before);
        }
        k = k + 1;
    }
    assert(chosen@.map_values(|x: usize| x as int).subrange(0, chosen@.len() as int) =~= chosen@.map_values(|x: usize| x as int));
}

/// The active Pokémon of player `p` has type `el`.
pub open spec fn active_is(g: GameView, db: CardDb, p: int, el: Element) -> bool {
    g.players[p].active matches Some(s) && slot_is_type(s, db, el)
}

/// The game after one Grass energy goes to player `p`'s active Pokémon when
/// it is a Grass Pokémon, else to the first benched Grass Pokémon.
pub open spec fn grass_attached(g: GameView, db: CardDb, p: int) -> GameView {
    if active_is(g, db, p, Element::Grass) {
        g.map_slot(active_ref(p), |s: PokemonSlot| s.with_energy_added(Element::Grass, 1))
    } else {
        match first_bench_of_type(g, db, p, Element::Grass) {
            Some(i) => g.map_slot(bench_ref(p, i), |s: PokemonSlot| s.with_energy_added(Element::Grass, 1)),
            None => g,
        }
    }
}

/// One Grass energy to the acting player's active Pokémon when it is a Grass
/// Pokémon, else to the first benched Grass Pokémon.
pub fn attach_energy_zone_to_grass(state: &mut GameState, db: &CardDb, ctx: &EffectContext)
    requires
        ctx.acting_player < 2,
    ensures
        final(state)@ == grass_attached(old(state)@, *db, ctx.acting_player as int),
{
    let pi = ctx.acting_player;
    let active_grass = match &state.players[pi].active {
        Some(s) => slot_has_type(s, db, Element::Grass),
        None => false,
    };
    if active_grass {
        add_energy_at(state, SlotRef::active(pi), Element::Grass, 1);
        return;
    }
    if let Some(i) = find_bench_by_element(state, db, pi, Element::Grass) {
        add_energy_at(state, SlotRef::bench(pi, i), Element::Grass, 1);
    }
}

/// One of `names` matches `name`, both lower-cased.
pub open spec fn name_listed(names: Seq<Seq<char>>, name: Seq<char>) -> bool {
    exists|i: int| 0 <= i < names.len() && lowered(#[trigger] names[i]) == lowered(name)
}

/// The characters of each name.
pub open spec fn str_views(names: Seq<&str>) -> Seq<Seq<char>> {
    names.map_values(|n: &str| n@)
}

/// The Pokémon `s` has a card whose name is one of `names` (case ignored).
pub open spec fn slot_named(s: PokemonSlot, db: CardDb, names: Seq<Seq<char>>) -> bool {
    db.card(s.card_idx) matches Some(c) && name_listed(names, c.name@)
}

/// Whether one of `names` matches `name`, both lower-cased.
fn listed(names: &[&str], name: &str) -> (r: bool)
    ensures
        r == name_listed(str_views(names@), name@),
{
    let target = to_lowercase(name);
    let mut i: usize = 0;
    while i < names.len()
        invariant
            i <= names@.len(),
            target@ == lowered(name@),
            forall|j: int| 0 <= j < i ==> lowered(#[trigger] str_views(names@)[j]) != lowered(name@),
        decreases names.len() - i,
    {
        let n = to_lowercase(names[i]);
        if str_eq(n.as_str(), target.as_str()) {
            assert(lowered(str_views(names@)[i as int]) == lowered(name@));
            return true;
        }
        i = i + 1;
    }
    false
}

/// Whether `s` has a card whose name is one of `names`.
fn has_listed_name(s: &PokemonSlot, db: &CardDb, names: &[&str]) -> (r: bool)
    ensures
        r == slot_named(*s, *db, str_views(names@)),
{
    match db.try_get_by_idx(s.card_idx) {
        Some(c) => listed(names, c.name.as_str()),
        None => false,
    }
}

/// Bench spot `i` of player `p` holds a Pokémon named in `names`.
pub open spec fn bench_named(g: GameView, db: CardDb, p: int, i: int, names: Seq<Seq<char>>) -> bool {
    g.players[p].bench[i] matches Some(s) && slot_named(s, db, names)
}

/// The game after one energy of `element` goes to player `p`'s active
/// Pokémon when its name is one of `names`, else to the first benched
/// Pokémon with such a name.
pub open spec fn named_attached(g: GameView, db: CardDb, p: int, element: Element, names: Seq<Seq<char>>) -> GameView {
    let first = if bench_named(g, db, p, 0, names) {
        Some(0int)
    } else if bench_named(g, db, p, 1, names) {
        Some(1int)
    } else if bench_named(g, db, p, 2, names) {
        Some(2int)
    } else {
        None
    };
    if g.players[p].active matches Some(a) && slot_named(a, db, names) {
        g.map_slot(active_ref(p), |s: PokemonSlot| s.with_energy_added(element, 1))
    } else {
        match first {
            Some(i) => g.map_slot(bench_ref(p, i), |s: PokemonSlot| s.with_energy_added(element, 1)),
            None => g,
        }
    }
}

/// One energy of `element` to the acting player's active Pokémon when its
/// name is one of `names` (case ignored), else to the first benched Pokémon
/// with such a name.
pub fn attach_energy_zone_named(state: &mut GameState, db: &CardDb, ctx: &EffectContext, element: Element, names: &[&str])
    requires
        ctx.acting_player < 2,
    ensures
        final(state)@ == named_attached(old(state)@, *db, ctx.acting_player as int, element, str_views(names@)),
{
    let pi = ctx.acting_player;
    let active_ok = match &state.players[pi].active {
        Some(s) => has_listed_name(s, db, names),
        None => false,
    };
    if active_ok {
        add_energy_at(state, SlotRef::active(pi), element, 1);
        return;
    }
    let mut i: usize = 0;
    while i < 3
        invariant
            pi < 2,
            pi == ctx.acting_player,
            i <= 3,
            state@ == old(state)@,
            !(old(state)@.players[pi as int].active matches Some(a) && slot_named(a, *db, str_views(names@))),
            forall|j: int| 0 <= j < i ==> !bench_named(old(state)@, *db, pi as int, j, str_views(names@)),
        decreases 3 - i,
    {
        let hit = match &state.players[pi].bench[i] {
            Some(s) => has_listed_name(s, db, names),
            None => false,
        };
        if hit {
            add_energy_at(state, SlotRef::bench(pi, i), element, 1);
            return;
        }
        i = i + 1;
    }
}

/// What Misty-style attaching does for a given number of heads: `heads`
/// energy of `element` to the chosen target (the acting player's active
/// Pokémon by default); Water energy only lands on a Water Pokémon.
pub open spec fn heads_attached(g: GameView, db: CardDb, ctx: EffectContext, element: Element, heads: u8) -> GameView {
    let tgt = match ctx.target_ref {
        Some(t) => t,
        None => active_ref(ctx.acting_player as int),
    };
    if heads == 0 {
        g
    } else if element == Element::Water && !(g.slot(tgt) matches Some(s) && slot_is_type(s, db, Element::Water)) {
        g
    } else {
        g.map_slot(tgt, |s: PokemonSlot| s.with_energy_added(element, heads))
    }
}

/// Flips until tails (the count of heads stops growing at 255; flipping
/// stops only after 2^64 - 1 heads in a row),
/// then attaches one energy of `element` per heads to the chosen target, or
/// to the acting player's active Pokémon; Water energy only lands on a Water
/// Pokémon.
pub fn coin_flip_until_tails_attach_energy(state: &mut GameState, db: &CardDb, ctx: &EffectContext, element: Element)
    requires
        ctx.acting_player < 2,
    ensures
        exists|heads: u8| final(state)@ == #[trigger] heads_attached(old(state)@, *db, *ctx, element, heads),
{
    let mut heads: u8 = 0;
    let mut flips: u64 = 0;
    while flips < u64::MAX && coin_below_half(&mut state.rng)
        invariant
            state@ == old(state)@,
        decreases u64::MAX - flips,
    {
        heads = if heads < 255 { heads + 1 } else { 255 };
        flips = flips + 1;
    }
    if heads == 0 {
        assert(final(state)@ == heads_attached(old(state)@, *db, *ctx, element, 0));
        return;
    }
    let tgt = match ctx.target_ref {
        Some(t) => t,
        None => SlotRef::active(ctx.acting_player),
    };
    if matches!(element, Element::Water) {
        let is_water = match read_slot(state, tgt) {
            Some(s) => slot_has_type(&s, db, Element::Water),
            None => false,
        };
        if !is_water {
            assert(final(state)@ == heads_attached(old(state)@, *db, *ctx, element, heads));
            return;
        }
    }
    if tgt.player < 2 && tgt.slot >= -1 && tgt.slot <= 2 {
        add_energy_at(state, tgt, element, heads);
    }
    assert(final(state)@ == heads_attached(old(state)@, *db, *ctx, element, heads));
}

/// Bench spot `i` of player `p` holds a Pokémon eligible for
/// `multi_coin_attach_bench` (of type `filter_el` when one is given).
pub open spec fn bench_eligible(g: GameView, db: CardDb, p: int, i: int, filter_el: Option<Element>) -> bool {
    g.players[p].bench[i] matches Some(s) && match filter_el {
        Some(fe) => slot_is_type(s, db, fe),
        None => true,
    }
}

/// The eligible bench spots of player `p`, in order.
pub open spec fn eligible_benches(g: GameView, db: CardDb, p: int, filter_el: Option<Element>) -> Seq<int> {
    (if bench_eligible(g, db, p, 0, filter_el) { seq![0int] } else { Seq::<int>::empty() })
        + (if bench_eligible(g, db, p, 1, filter_el) { seq![1int] } else { Seq::<int>::empty() })
        + (if bench_eligible(g, db, p, 2, filter_el) { seq![2int] } else { Seq::<int>::empty() })
}

/// The game after `h` energy of `el` are dealt one at a time, round-robin,
/// to the bench spots `elig` of player `p`.
pub open spec fn round_robin(g: GameView, p: int, elig: Seq<int>, el: Element, h: nat) -> GameView
    decreases h,
{
    if h == 0 {
        g
    } else {
        round_robin(g, p, elig, el, (h - 1) as nat).map_slot(
            bench_ref(p, elig[((h - 1) as int) % (elig.len() as int)]),
            |s: PokemonSlot| s.with_energy_added(el, 1),
        )
    }
}

/// Whether bench spot `i` of player `p` is eligible.
fn bench_ok_for(state: &GameState, db: &CardDb, p: usize, i: usize, filter_el: Option<Element>) -> (r: bool)
    requires
        p < 2,
        i < 3,
    ensures
        r == bench_eligible(state@, *db, p as int, i as int, filter_el),
{
    match &state.players[p].bench[i] {
        Some(s) => match filter_el {
            Some(fe) => slot_has_type(s, db, fe),
            None => true,
        },
        None => false,
    }
}

/// `g1` is `g0` after some number of heads, at most `count`, each dealt one
/// energy of `element` round-robin to player `p`'s eligible benched Pokémon;
/// with none eligible, nothing changes.
pub open spec fn coins_attached(
    g0: GameView,
    g1: GameView,
    db: CardDb,
    p: int,
    count: u8,
    element: Element,
    filter_el: Option<Element>,
) -> bool {
    let elig = eligible_benches(g0, db, p, filter_el);
    if elig.len() == 0 {
        g1 == g0
    } else {
        exists|h: nat| h <= count && g1 == #[trigger] round_robin(g0, p, elig, element, h)
    }
}

/// Flips `count` coins; one energy of `element` per heads is dealt
/// round-robin to the acting player's benched Pokémon (of type `filter_el`
/// when one is given).  Nothing happens, and no coin is flipped, without
/// such a Pokémon.
pub fn multi_coin_attach_bench(
    state: &mut GameState,
    db: &CardDb,
    ctx: &EffectContext,
    count: u8,
    element: Element,
    filter_el: Option<Element>,
)
    requires
        ctx.acting_player < 2,
    ensures
        coins_attached(old(state)@, final(state)@, *db, ctx.acting_player as int, count, element, filter_el),
        (count == 0 || eligible_benches(old(state)@, *db, ctx.acting_player as int, filter_el).len() == 0) ==> *final(state)
            == *old(state),
{
    let pi = ctx.acting_player;
    let mut eligible: Vec<usize> = Vec::new();
    let e0 = bench_ok_for(state, db, pi, 0, filter_el);
    let e1 = bench_ok_for(state, db, pi, 1, filter_el);
    let e2 = bench_ok_for(state, db, pi, 2, filter_el);
    if e0 {
        eligible.push(0);
    }
    if e1 {
        eligible.push(1);
    }
    if e2 {
        eligible.push(2);
    }
    assert(eligible@.map_values(|x: usize| x as int) =~= eligible_benches(old(state)@, *db, pi as int, filter_el));
    if eligible.len() == 0 {
        return;
    }
    let mut heads: u8 = 0;
    let mut c: u8 = 0;
    while c < count
        invariant
            heads <= c <= count,
            state@ == old(state)@,
            c == 0 ==> *state == *old(state),
        decreases count - c,
    {
        if coin_below_half(&mut state.rng) {
            heads = heads + 1;
        }
        c = c + 1;
    }
    let ghost elig = eligible@.map_values(|x: usize| x as int);
    let mut k: usize = 0;
    while k < heads as usize
        invariant
            pi < 2,
            k <= heads,
            eligible@.len() > 0,
            elig == eligible@.map_values(|x: usize| x as int),
            forall|j: int| 0 <= j < eligible@.len() ==> eligible@[j] < 3,
            state@ == round_robin(old(state)@, pi as int, elig, element, k as nat),
            heads == 0 && count == 0 ==> *state == *old(state),
        decreases heads as usize - k,
    {
        let idx = eligible[k % eligible.len()];
        add_energy_at(state, SlotRef::bench(pi, idx), element, 1);
        k = k + 1;
    }
}

/// The Pokémon a self-discard effect concerns: the source, else the acting
/// player's active Pokémon.
pub open spec fn source_of(ctx: EffectContext) -> SlotRef {
    match ctx.source_ref {
        Some(r) => r,
        None => active_ref(ctx.acting_player as int),
    }
}

pub(crate) fn source_slot(ctx: &EffectContext) -> (r: SlotRef)
    ensures
        r == source_of(*ctx),
{
    match ctx.source_ref {
        Some(r) => r,
        None => SlotRef::active(ctx.acting_player),
    }
}

fn is_valid_ref(r: SlotRef) -> (b: bool)
    ensures
        b == r.valid(),
{
    r.player < 2 && r.slot >= -1 && r.slot <= 2
}

/// Discards one random energy from the source Pokémon into its owner's
/// energy discard.
pub fn discard_random_energy_self(state: &mut GameState, ctx: &EffectContext)
    requires
        ctx.acting_player < 2,
        discard_room(old(state)@, source_of(*ctx)),
    ensures
        random_unit_removed(old(state)@, final(state)@, source_of(*ctx), true),
{
    let src = source_slot(ctx);
    if is_valid_ref(src) {
        discard_random_unit(state, src, true);
    }
}

/// The source Pokémon has energy of type `i`, and its owner's energy discard
/// has room for `n` more of that type.
pub open spec fn typed_room(g: GameView, r: SlotRef, i: int, n: int) -> bool {
    match g.slot(r) {
        Some(s) => g.players[r.player as int].energy_discard[i] + n <= 255,
        None => true,
    }
}

/// Discards one energy of `element` from the source Pokémon into its
/// owner's energy discard, if it has one.
pub fn discard_energy_self(state: &mut GameState, ctx: &EffectContext, element: Element)
    requires
        ctx.acting_player < 2,
        match old(state)@.slot(source_of(*ctx)) {
            Some(s) => s.energy@[element.index()] > 0 ==> typed_room(old(state)@, source_of(*ctx), element.index(), 1),
            None => true,
        },
    ensures
        final(state)@ == match old(state)@.slot(source_of(*ctx)) {
            Some(s) => if s.energy@[element.index()] > 0 {
                unit_removed(old(state)@, source_of(*ctx), element.index(), true)
            } else {
                old(state)@
            },
            None => old(state)@,
        },
{
    let src = source_slot(ctx);
    let i = element.idx();
    match read_slot(state, src) {
        Some(s) => {
            if s.energy[i] > 0 {
                remove_energy_unit(state, src, i, true);
            }
        },
        None => {},
    }
}

/// The game after `m` energy of type `i` move from the Pokémon at `r` to its
/// owner's energy discard.
pub open spec fn units_moved_to_pile(g: GameView, r: SlotRef, i: int, m: int) -> GameView {
    let g1 = g.map_slot(r, |s: PokemonSlot| with_energy(s, i, (s.energy@[i] - m) as u8));
    if g.slot(r) is Some {
        add_to_energy_discard(g1, r.player as int, i, m)
    } else {
        g1
    }
}

/// Discards up to `count` energy of `element` from the source Pokémon into
/// its owner's energy discard, stopping when none is left.
pub fn discard_n_energy_self(state: &mut GameState, ctx: &EffectContext, element: Element, count: u8)
    requires
        ctx.acting_player < 2,
        match old(state)@.slot(source_of(*ctx)) {
            Some(s) => typed_room(
                old(state)@,
                source_of(*ctx),
                element.index(),
                if count < s.energy@[element.index()] { count as int } else { s.energy@[element.index()] as int },
            ),
            None => true,
        },
    ensures
        final(state)@ == match old(state)@.slot(source_of(*ctx)) {
            Some(s) => units_moved_to_pile(
                old(state)@,
                source_of(*ctx),
                element.index(),
                if count < s.energy@[element.index()] { count as int } else { s.energy@[element.index()] as int },
            ),
            None => old(state)@,
        },
{
    let src = source_slot(ctx);
    let i = element.idx();
    let s0 = match read_slot(state, src) {
        Some(s) => s,
        None => {
            return;
        },
    };
    let e0 = s0.energy[i];
    let m: u8 = if count < e0 { count } else { e0 };
    move_units_to_pile(state, src, i, m);
}

/// The first `k` counters of `e` added to the matching counters of `d`.
pub open spec fn partial_plus(d: Seq<u8>, e: Seq<u8>, k: int) -> Seq<u8> {
    Seq::new(8, |j: int| if j < k { (d[j] + e[j]) as u8 } else { d[j] })
}

/// Every counter of `e` added to the matching counter of `d`.
pub open spec fn pile_plus(d: Seq<u8>, e: Seq<u8>) -> Seq<u8> {
    Seq::new(8, |i: int| (d[i] + e[i]) as u8)
}

/// The game after every energy of the Pokémon at `r` goes to its owner's
/// energy discard.
pub open spec fn all_discarded(g: GameView, r: SlotRef) -> GameView {
    match g.slot(r) {
        Some(s) => {
            let g1 = g.with_slot(r, Some(PokemonSlot { energy: spec_array_fill_for_copy_type::<u8, 8>(0u8), ..s }));
            g1.with_player(
                r.player as int,
                PlayerView { energy_discard: pile_plus(g1.players[r.player as int].energy_discard, s.energy@), ..g1.players[r.player as int] },
            )
        },
        None => g,
    }
}

/// Adds every counter of `dropped` to player `p`'s energy discard.
fn add_all_to_discard(state: &mut GameState, p: usize, dropped: [u8; 8])
    requires
        p < 2,
        old(state)@.wf(),
        forall|j: int| 0 <= j < 8 ==> #[trigger] old(state)@.players[p as int].energy_discard[j] + dropped@[j] <= 255,
    ensures
        final(state)@ == old(state)@.with_player(
            p as int,
            PlayerView { energy_discard: pile_plus(old(state)@.players[p as int].energy_discard, dropped@), ..old(state)@.players[p as int] },
        ),
{
    let ghost g1 = state@;
    let ghost d_before = state@.players[p as int].energy_discard;
    assert(g1.players[0].bench.len() == 3 && g1.players[1].bench.len() == 3);
    assert(d_before.len() == 8);
    assert(partial_plus(d_before, dropped@, 0) =~= d_before);
    assert(state@.players =~= g1.with_player(p as int, PlayerView { energy_discard: partial_plus(d_before, dropped@, 0), ..g1.players[p as int] }).players);
    let mut i: usize = 0;
    while i < 8
        invariant
            p < 2,
            i <= 8,
            g1.wf(),
            d_before == g1.players[p as int].energy_discard,
            d_before.len() == 8,
            forall|j: int| 0 <= j < 8 ==> d_before[j] + dropped@[j] <= 255,
            state@ == g1.with_player(p as int, PlayerView { energy_discard: partial_plus(d_before, dropped@, i as int), ..g1.players[p as int] }),
        decreases 8 - i,
    {
        add_discard_n(state, p, i, dropped[i]);
        proof {
            assert(partial_plus(d_before, dropped@, i as int).update(i as int, (d_before[i as int] + dropped@[i as int]) as u8)
                =~= partial_plus(d_before, dropped@, i + 1));
            assert(state@.players =~= g1.with_player(p as int, PlayerView { energy_discard: partial_plus(d_before, dropped@, i + 1), ..g1.players[p as int] }).players);
        }
        i = i + 1;
    }
    proof {
        assert(partial_plus(d_before, dropped@, 8) =~= pile_plus(d_before, dropped@));
    }
}

/// Discards every energy of the source Pokémon into its owner's energy
/// discard.
pub fn discard_all_energy_self(state: &mut GameState, ctx: &EffectContext)
    requires
        ctx.acting_player < 2,
        match old(state)@.slot(source_of(*ctx)) {
            Some(s) => forall|i: int| 0 <= i < 8 ==> #[trigger] old(state)@.players[source_of(*ctx).player as int].energy_discard[i] + s.energy@[i] <= 255,
            None => true,
        },
    ensures
        final(state)@ == all_discarded(old(state)@, source_of(*ctx)),
{
    let src = source_slot(ctx);
    let s0 = match read_slot(state, src) {
        Some(s) => s,
        None => {
            return;
        },
    };
    let dropped = s0.energy;
    let mut s2 = s0;
    s2.energy = [0u8; 8];
    write_slot(state, src, Some(s2));
    let p = src.player as usize;
    proof {
        assert(state@.players[p as int].energy_discard == old(state)@.players[p as int].energy_discard);
    }
    add_all_to_discard(state, p, dropped);
}

/// Discards every energy of `element` from the source Pokémon into its
/// owner's energy discard.
pub fn discard_all_typed_energy_self(state: &mut GameState, ctx: &EffectContext, element: Element)
    requires
        ctx.acting_player < 2,
        match old(state)@.slot(source_of(*ctx)) {
            Some(s) => typed_room(old(state)@, source_of(*ctx), element.index(), s.energy@[element.index()] as int),
            None => true,
        },
    ensures
        final(state)@ == match old(state)@.slot(source_of(*ctx)) {
            Some(s) => units_moved_to_pile(old(state)@, source_of(*ctx), element.index(), s.energy@[element.index()] as int),
            None => old(state)@,
        },
{
    let src = source_slot(ctx);
    let i = element.idx();
    let s0 = match read_slot(state, src) {
        Some(s) => s,
        None => {
            return;
        },
    };
    let n = s0.energy[i];
    move_units_to_pile(state, src, i, n);
}

/// Discards one random energy from the opponent's active Pokémon into the
/// opponent's energy discard.
pub fn discard_random_energy_opponent(state: &mut GameState, ctx: &EffectContext)
    requires
        ctx.acting_player < 2,
        discard_room(old(state)@, active_ref(1 - ctx.acting_player)),
    ensures
        random_unit_removed(old(state)@, final(state)@, active_ref(1 - ctx.acting_player), true),
{
    discard_random_unit(state, SlotRef::active(1 - ctx.acting_player), true);
}

/// What the energy-discarding coin does once flipped: on heads one random
/// energy of the opponent's active Pokémon is discarded; on tails nothing
/// happens.
pub fn discard_random_energy_opponent_on_flip(state: &mut GameState, ctx: &EffectContext, heads: bool)
    requires
        ctx.acting_player < 2,
        discard_room(old(state)@, active_ref(1 - ctx.acting_player)),
    ensures
        heads ==> random_unit_removed(old(state)@, final(state)@, active_ref(1 - ctx.acting_player), true),
        !heads ==> final(state)@ == old(state)@,
{
    if heads {
        discard_random_energy_opponent(state, ctx);
    }
}

/// Flips a coin; on heads, discards one random energy from the opponent's
/// active Pokémon.
pub fn coin_flip_discard_random_energy_opponent(state: &mut GameState, ctx: &EffectContext)
    requires
        ctx.acting_player < 2,
        discard_room(old(state)@, active_ref(1 - ctx.acting_player)),
    ensures
        final(state)@ == old(state)@ || random_unit_removed(old(state)@, final(state)@, active_ref(1 - ctx.acting_player), true),
{
    let heads = coin_below_half(&mut state.rng);
    discard_random_energy_opponent_on_flip(state, ctx, heads);
}

/// Discards one random energy from each active Pokémon, player 0 first,
/// into each owner's energy discard.
pub fn discard_random_energy_both_active(state: &mut GameState, ctx: &EffectContext)
    requires
        discard_room(old(state)@, active_ref(0)),
        discard_room(old(state)@, active_ref(1)),
    ensures
        exists|g1: GameView|
            #[trigger] random_unit_removed(old(state)@, g1, active_ref(0), true) && random_unit_removed(g1, final(state)@, active_ref(1), true),
{
    let ghost g0 = state@;
    discard_random_unit(state, SlotRef::active(0), true);
    let ghost g1 = state@;
    proof {
        if energy_at(g0, active_ref(0)) != 0 {
            let i = choose|i: int| 0 <= i < 8 && g0.slot(active_ref(0))->0.energy@[i] > 0 && g1 == #[trigger] unit_removed(g0, active_ref(0), i, true);
            assert(g1.players[1] == g0.players[1]);
        }
        assert(g1.slot(active_ref(1)) == g0.slot(active_ref(1)));
    }
    discard_random_unit(state, SlotRef::active(1), true);
}

/// Taking one unit of type `i` off a counter array lowers its sum by one.
proof fn lemma_sum_dec(e: Seq<u8>, i: int)
    requires
        0 <= i < e.len(),
        e[i] > 0,
    ensures
        energy_sum(e.update(i, (e[i] - 1) as u8)) == energy_sum(e) - 1,
    decreases e.len(),
{
    let f = e.update(i, (e[i] - 1) as u8);
    if i == e.len() - 1 {
        assert(f.drop_last() =~= e.drop_last());
    } else {
        assert(f.drop_last() =~= e.drop_last().update(i, (e[i] - 1) as u8));
        lemma_sum_dec(e.drop_last(), i);
    }
}

/// The Pokémon at `r` carries a unit of type `i`.
pub open spec fn has_unit(g: GameView, r: SlotRef, i: int) -> bool {
    g.slot(r) matches Some(s) && s.energy@[i] > 0
}

/// The game after the units of types `picks` leave, one by one, the Pokémon
/// at `r` for its owner's energy discard.
pub open spec fn apply_units(g0: GameView, r: SlotRef, picks: Seq<int>) -> GameView
    decreases picks.len(),
{
    if picks.len() == 0 {
        g0
    } else {
        unit_removed(apply_units(g0, r, picks.drop_last()), r, picks.last(), true)
    }
}

/// Each type in `picks` is one the Pokémon still carries when its turn comes.
pub open spec fn valid_units(g0: GameView, r: SlotRef, picks: Seq<int>) -> bool
    decreases picks.len(),
{
    picks.len() == 0 || (valid_units(g0, r, picks.drop_last()) && 0 <= picks.last() < 8
        && has_unit(apply_units(g0, r, picks.drop_last()), r, picks.last()))
}

/// All the energy on the Pokémon at `r` fits in its owner's energy discard,
/// and the game counts at most 255 of it.
pub open spec fn discard_fits_all(g: GameView, r: SlotRef) -> bool {
    match g.slot(r) {
        Some(s) => {
            &&& energy_sum(s.energy@) <= 255
            &&& s.energy@.len() == 8
            &&& forall|i: int| 0 <= i < 8 ==> #[trigger] g.players[r.player as int].energy_discard[i] + s.energy@[i] <= 255
        },
        None => true,
    }
}

/// Removing a unit keeps `discard_fits_all`.
#[verifier::rlimit(40)]
pub(crate) proof fn lemma_fits_after_unit(g: GameView, r: SlotRef, i: int)
    requires
        g.wf(),
        r.valid(),
        0 <= i < 8,
        g.slot(r) matches Some(s) && s.energy@[i] > 0,
        g.players[r.player as int].energy_discard.len() == 8,
        discard_fits_all(g, r),
    ensures
        discard_fits_all(unit_removed(g, r, i, true), r),
        unit_removed(g, r, i, true).wf(),
        unit_removed(g, r, i, true).players[r.player as int].energy_discard.len() == 8,
{
    let s = g.slot(r)->0;
    let h = unit_removed(g, r, i, true);
    lemma_sum_dec(s.energy@, i);
    assert(h.slot(r)->0.energy@ =~= s.energy@.update(i, (s.energy@[i] - 1) as u8));
    assert forall|q: int| 0 <= q < 2 implies #[trigger] h.players[q].bench.len() == 3 by {
        assert(g.players[q].bench.len() == 3);
    }
}

/// Flips until tails (the count of heads stops growing at `u32::MAX`;
/// flipping stops only after 2^64 - 1 heads in a row), then discards one
/// random energy from the opponent's active Pokémon per heads, into the
/// opponent's energy discard, while it has any.
pub fn coin_flip_until_tails_discard_random_energy_opponent(state: &mut GameState, ctx: &EffectContext)
    requires
        ctx.acting_player < 2,
        discard_fits_all(old(state)@, active_ref(1 - ctx.acting_player)),
    ensures
        exists|picks: Seq<int>|
            #[trigger] valid_units(old(state)@, active_ref(1 - ctx.acting_player), picks) && final(state)@ == apply_units(
                old(state)@,
                active_ref(1 - ctx.acting_player),
                picks,
            ),
{
    let mut heads: u32 = 0;
    let mut flips: u64 = 0;
    while flips < u64::MAX && flip_coin(&mut state.rng)
        invariant
            state@ == old(state)@,
        decreases u64::MAX - flips,
    {
        heads = if heads < u32::MAX { heads + 1 } else { u32::MAX };
        flips = flips + 1;
    }
    let opp = 1 - ctx.acting_player;
    let r = SlotRef::active(opp);
    let ghost g0 = state@;
    assert(g0.players[0].bench.len() == 3 && g0.players[1].bench.len() == 3);
    assert(g0.players[opp as int].energy_discard.len() == 8);
    let ghost mut picks: Seq<int> = Seq::empty();
    let mut k: u32 = 0;
    while k < heads
        invariant
            opp < 2,
            r == active_ref(opp as int),
            g0 == old(state)@,
            valid_units(g0, r, picks),
            state@ == apply_units(g0, r, picks),
            state@.wf(),
            state@.players[opp as int].energy_discard.len() == 8,
            discard_fits_all(state@, r),
        decreases heads - k,
    {
        let total: u8 = match &state.players[opp].active {
            Some(s) => s.total_energy(),
            None => 0,
        };
        if total == 0 {
            break;
        }
        let s = read_slot(state, r).unwrap();
        let i = match pick_energy_unit(&mut state.rng, &s) {
            Some(i) => i,
            None => {
                break;
            },
        };
        let ghost before = state@;
        proof {
            lemma_fits_after_unit(before, r, i as int);
        }
        remove_energy_unit(state, r, i, true);
        proof {
            let np = picks.push(i as int);
            assert(np.drop_last() =~= picks);
            picks = np;
        }
        k = k + 1;
    }
}

/// Discards one random energy from the Pokémon at `r` into its owner's
/// energy discard, `count` times, stopping once it carries none.
pub fn discard_random_units(state: &mut GameState, r: SlotRef, count: u8)
    requires
        discard_fits_all(old(state)@, r),
    ensures
        exists|picks: Seq<int>|
            #[trigger] valid_units(old(state)@, r, picks) && picks.len() <= count && final(state)@ == apply_units(old(state)@, r, picks),
{
    let ghost g0 = state@;
    assert(g0.players[0].bench.len() == 3 && g0.players[1].bench.len() == 3);
    assert(g0.players[0].energy_discard.len() == 8 && g0.players[1].energy_discard.len() == 8);
    let ghost mut picks: Seq<int> = Seq::empty();
    let mut k: u8 = 0;
    while k < count
        invariant
            g0 == old(state)@,
            k <= count,
            picks.len() <= k,
            valid_units(g0, r, picks),
            state@ == apply_units(g0, r, picks),
            state@.wf(),
            r.valid() ==> state@.players[r.player as int].energy_discard.len() == 8,
            discard_fits_all(state@, r),
        decreases count - k,
    {
        let s = match read_slot(state, r) {
            Some(s) => s,
            None => {
                break;
            },
        };
        let i = match pick_energy_unit(&mut state.rng, &s) {
            Some(i) => i,
            None => {
                break;
            },
        };
        let ghost before = state@;
        proof {
            lemma_fits_after_unit(before, r, i as int);
        }
        remove_energy_unit(state, r, i, true);
        proof {
            let np = picks.push(i as int);
            assert(np.drop_last() =~= picks);
            picks = np;
        }
        k = k + 1;
    }
}

/// Every unit of energy in play, as (spot, type) pairs: one pair per unit.
fn push_units(flat: &mut Vec<(SlotRef, usize)>, r: SlotRef, s: &PokemonSlot)
    ensures
        forall|j: int| 0 <= j < old(flat)@.len() ==> #[trigger] final(flat)@[j] == old(flat)@[j],
        final(flat)@.len() >= old(flat)@.len(),
        forall|j: int| old(flat)@.len() <= j < final(flat)@.len() ==> (#[trigger] final(flat)@[j]).0 == r && final(flat)@[j].1 < 8
            && s.energy@[final(flat)@[j].1 as int] > 0,
        final(flat)@.len() == old(flat)@.len() <==> forall|i: int| 0 <= i < 8 ==> s.energy@[i] == 0,
{
    let mut i: usize = 0;
    while i < 8
        invariant
            i <= 8,
            forall|j: int| 0 <= j < old(flat)@.len() ==> #[trigger] flat@[j] == old(flat)@[j],
            flat@.len() >= old(flat)@.len(),
            forall|j: int| old(flat)@.len() <= j < flat@.len() ==> (#[trigger] flat@[j]).0 == r && flat@[j].1 < 8
                && s.energy@[flat@[j].1 as int] > 0,
            flat@.len() == old(flat)@.len() <==> forall|q: int| 0 <= q < i ==> s.energy@[q] == 0,
        decreases 8 - i,
    {
        let n = s.energy[i];
        let mut c: u8 = 0;
        let ghost start = flat@.len();
        while c < n
            invariant
                i < 8,
                n == s.energy@[i as int],
                c <= n,
                flat@.len() == start + c,
                forall|j: int| 0 <= j < old(flat)@.len() ==> #[trigger] flat@[j] == old(flat)@[j],
                forall|j: int| old(flat)@.len() <= j < flat@.len() ==> (#[trigger] flat@[j]).0 == r && flat@[j].1 < 8
                    && s.energy@[flat@[j].1 as int] > 0,
                start >= old(flat)@.len(),
            decreases n - c,
        {
            flat.push((r, i));
            c = c + 1;
        }
        i = i + 1;
    }
}

/// Some Pokémon in play carries energy.
pub open spec fn any_energy(g: GameView) -> bool {
    exists|r: SlotRef, i: int| r.valid() && 0 <= i < 8 && #[trigger] has_unit(g, r, i)
}

/// Takes one unit of energy, picked at random among every unit on every
/// Pokémon in play, off its Pokémon; the energy is not kept anywhere.
pub fn discard_random_energy_all_pokemon(state: &mut GameState, ctx: &EffectContext)
    ensures
        !any_energy(old(state)@) ==> final(state)@ == old(state)@,
        any_energy(old(state)@) ==> exists|r: SlotRef, i: int|
            r.valid() && 0 <= i < 8 && has_unit(old(state)@, r, i) && final(state)@ == #[trigger] unit_removed(old(state)@, r, i, false),
{
    let mut flat: Vec<(SlotRef, usize)> = Vec::new();
    let mut p: usize = 0;
    while p < 2
        invariant
            p <= 2,
            state@ == old(state)@,
            forall|j: int| 0 <= j < flat@.len() ==> (#[trigger] flat@[j]).0.valid() && flat@[j].1 < 8 && has_unit(state@, flat@[j].0, flat@[j].1 as int),
            flat@.len() == 0 ==> forall|r: SlotRef, i: int| r.valid() && r.player < p && 0 <= i < 8 ==> !#[trigger] has_unit(state@, r, i),
        decreases 2 - p,
    {
        let mut k: i8 = -1;
        while k < 3
            invariant
                p < 2,
                -1 <= k <= 3,
                state@ == old(state)@,
                forall|j: int| 0 <= j < flat@.len() ==> (#[trigger] flat@[j]).0.valid() && flat@[j].1 < 8 && has_unit(state@, flat@[j].0, flat@[j].1 as int),
                flat@.len() == 0 ==> forall|r: SlotRef, i: int| r.valid() && (r.player < p || (r.player == p && r.slot < k)) && 0 <= i < 8 ==> !#[trigger] has_unit(state@, r, i),
            decreases 3 - k,
        {
            let r = SlotRef { player: p as u8, slot: k };
            match read_slot(state, r) {
                Some(s) => {
                    push_units(&mut flat, r, &s);
                },
                None => {},
            }
            k = k + 1;
        }
        p = p + 1;
    }
    if flat.len() == 0 {
        return;
    }
    let pick = random_index(&mut state.rng, flat.len());
    let (r, i) = flat[pick];
    remove_energy_unit(state, r, i, false);
}

/// Bench spot `i` of player `p` carries energy.
pub open spec fn bench_has_energy(g: GameView, p: int, i: int) -> bool {
    g.players[p].bench[i] matches Some(s) && energy_sum(s.energy@) > 0
}

/// The bench spot Dawn takes energy from: the chosen own bench spot when it
/// carries energy (no other spot then), else the first bench spot that does.
pub open spec fn dawn_source(g: GameView, ctx: EffectContext) -> Option<int> {
    let p = ctx.acting_player as int;
    match ctx.target_ref {
        Some(r) if r.slot >= 0 && r.player as int == p => if bench_has_energy(g, p, r.slot as int) {
            Some(r.slot as int)
        } else {
            None
        },
        _ => if bench_has_energy(g, p, 0) {
            Some(0)
        } else if bench_has_energy(g, p, 1) {
            Some(1)
        } else if bench_has_energy(g, p, 2) {
            Some(2)
        } else {
            None
        },
    }
}

/// The first type of which `e` holds a unit.
pub open spec fn first_unit(e: Seq<u8>) -> int {
    choose|i: int| 0 <= i < 8 && e[i] > 0 && forall|j: int| 0 <= j < i ==> e[j] == 0
}

/// The game after one energy of type `i` moves from bench spot `b` to the
/// active Pokémon of player `p`.
pub open spec fn unit_to_active(g: GameView, p: int, b: int, i: int) -> GameView {
    g.map_slot(bench_ref(p, b), |s: PokemonSlot| with_energy(s, i, (s.energy@[i] - 1) as u8)).map_slot(
        active_ref(p),
        |s: PokemonSlot| with_energy(s, i, (s.energy@[i] + 1) as u8),
    )
}

/// Position of the first non-zero counter of `e`.
fn first_nonzero(e: &[u8; 8]) -> (r: Option<usize>)
    ensures
        match r {
            Some(i) => i < 8 && e@[i as int] > 0 && forall|j: int| 0 <= j < i ==> e@[j] == 0,
            None => forall|j: int| 0 <= j < 8 ==> e@[j] == 0,
        },
{
    let mut i: usize = 0;
    while i < 8
        invariant
            i <= 8,
            forall|j: int| 0 <= j < i ==> e@[j] == 0,
        decreases 8 - i,
    {
        if e[i] > 0 {
            return Some(i);
        }
        i = i + 1;
    }
    None
}

/// Moves one energy of type `i` from bench spot `b` to the active Pokémon of
/// player `p`.
fn move_unit_to_active(state: &mut GameState, p: usize, b: usize, i: usize)
    requires
        p < 2,
        b < 3,
        i < 8,
        old(state)@.players[p as int].bench[b as int] matches Some(s) && s.energy@[i as int] > 0,
        old(state)@.players[p as int].active matches Some(a) && a.energy@[i as int] < 255,
    ensures
        final(state)@ == unit_to_active(old(state)@, p as int, b as int, i as int),
{
    let br = SlotRef::bench(p, b);
    let s = read_slot(state, br).unwrap();
    let mut s2 = s;
    s2.energy[i] = s.energy[i] - 1;
    write_slot(state, br, Some(s2));
    let ar = SlotRef::active(p);
    let a = read_slot(state, ar).unwrap();
    let mut a2 = a;
    a2.energy[i] = a.energy[i] + 1;
    write_slot(state, ar, Some(a2));
}

/// The game after Dawn moves one energy to the acting player's active Pokémon.
pub open spec fn dawn_result(g: GameView, ctx: EffectContext) -> GameView {
    let p = ctx.acting_player as int;
    if g.players[p].active is None {
        g
    } else {
        match dawn_source(g, ctx) {
            Some(b) => unit_to_active(g, p, b, first_unit(g.players[p].bench[b]->0.energy@)),
            None => g,
        }
    }
}

/// Dawn: one energy moves from a benched Pokémon (the chosen one, else the
/// first with energy) to the acting player's active Pokémon; the type moved
/// is the first type the benched Pokémon carries.
pub fn move_bench_energy_to_active(state: &mut GameState, ctx: &EffectContext)
    requires
        ctx.acting_player < 2,
        chosen_bench_ok(*ctx),
        old(state)@.players[ctx.acting_player as int].active matches Some(a) ==> forall|i: int| 0 <= i < 8 ==> #[trigger] a.energy@[i] < 255,
    ensures
        final(state)@ == dawn_result(old(state)@, *ctx),
{
    let pi = ctx.acting_player;
    if state.players[pi].active.is_none() {
        return;
    }
    let src: Option<usize> = match own_bench_target(ctx) {
        Some(b) => {
            let has = match &state.players[pi].bench[b] {
                Some(s) => s.total_energy() > 0,
                None => false,
            };
            if has {
                Some(b)
            } else {
                None
            }
        },
        None => {
            let mut found: Option<usize> = None;
            let mut i: usize = 0;
            while i < 3
                invariant
                    pi < 2,
                    i <= 3,
                    state@ == old(state)@,
                    match found {
                        Some(b) => b < 3 && bench_has_energy(state@, pi as int, b as int) && forall|j: int| 0 <= j < b ==> !bench_has_energy(state@, pi as int, j),
                        None => forall|j: int| 0 <= j < i ==> !bench_has_energy(state@, pi as int, j),
                    },
                decreases 3 - i,
            {
                if found.is_none() {
                    let has = match &state.players[pi].bench[i] {
                        Some(s) => s.total_energy() > 0,
                        None => false,
                    };
                    if has {
                        found = Some(i);
                    }
                }
                i = i + 1;
            }
            found
        },
    };
    let b = match src {
        Some(b) => b,
        None => {
            return;
        },
    };
    let e = match &state.players[pi].bench[b] {
        Some(s) => s.energy,
        None => {
            return;
        },
    };
    let el = match first_nonzero(&e) {
        Some(i) => i,
        None => {
            proof {
                lemma_zeros_sum(e@);
            }
            return;
        },
    };
    proof {
        let ghost w = el as int;
        assert(0 <= w < 8 && e@[w] > 0 && forall|j: int| 0 <= j < w ==> e@[j] == 0);
        assert(first_unit(e@) == w) by {
            let c = first_unit(e@);
            if c < w {
                assert(e@[c] == 0);
            }
            if c > w {
                assert(e@[w] == 0);
            }
        }
    }
    move_unit_to_active(state, pi, b, el);
}

/// Bench spot `i` of player `p` holds a Water Pokémon with Water energy.
pub open spec fn water_source(g: GameView, db: CardDb, p: int, i: int) -> bool {
    g.players[p].bench[i] matches Some(s) && slot_is_type(s, db, Element::Water) && s.energy@[Element::Water.index()] > 0
}

/// The game after one Water energy moves from player `p`'s first benched
/// Water Pokémon carrying one to the active Pokémon.
pub open spec fn water_moved(g: GameView, db: CardDb, p: int) -> GameView {
    let w = Element::Water.index();
    if g.players[p].active is None {
        g
    } else if water_source(g, db, p, 0) {
        unit_to_active(g, p, 0, w)
    } else if water_source(g, db, p, 1) {
        unit_to_active(g, p, 1, w)
    } else if water_source(g, db, p, 2) {
        unit_to_active(g, p, 2, w)
    } else {
        g
    }
}

/// One Water energy moves from the first benched Water Pokémon carrying one
/// to the acting player's active Pokémon.
pub fn move_water_bench_to_active(state: &mut GameState, db: &CardDb, ctx: &EffectContext)
    requires
        ctx.acting_player < 2,
        old(state)@.players[ctx.acting_player as int].active matches Some(a) ==> a.energy@[Element::Water.index()] < 255,
    ensures
        final(state)@ == water_moved(old(state)@, *db, ctx.acting_player as int),
{
    let pi = ctx.acting_player;
    if state.players[pi].active.is_none() {
        return;
    }
    let w = Element::Water.idx();
    let mut i: usize = 0;
    while i < 3
        invariant
            pi < 2,
            pi == ctx.acting_player,
            w == Element::Water.index(),
            i <= 3,
            state@ == old(state)@,
            old(state)@.players[pi as int].active is Some,
            old(state)@.players[pi as int].active matches Some(a) ==> a.energy@[w as int] < 255,
            forall|j: int| 0 <= j < i ==> !water_source(old(state)@, *db, pi as int, j),
        decreases 3 - i,
    {
        let ok = match &state.players[pi].bench[i] {
            Some(s) => slot_has_type(s, db, Element::Water) && s.energy[w] > 0,
            None => false,
        };
        if ok {
            move_unit_to_active(state, pi, i, w);
            return;
        }
        i = i + 1;
    }
}

/// Bench spot `i` of player `p` can give up its energy of type `el` (of type
/// `filter_el` itself when one is given).
pub open spec fn typed_source(g: GameView, db: CardDb, p: int, i: int, el: Element, filter_el: Option<Element>) -> bool {
    g.players[p].bench[i] matches Some(s) && (match filter_el {
        Some(fe) => slot_is_type(s, db, fe),
        None => true,
    }) && s.energy@[el.index()] > 0
}

/// The game after all energy of type `i` moves from bench spot `b` to the
/// active Pokémon of player `p` (the active counter saturates at 255).
pub open spec fn all_to_active(g: GameView, p: int, b: int, i: int) -> GameView {
    let n = g.players[p].bench[b]->0.energy@[i];
    let a = g.players[p].active->0.energy@[i];
    energy_set_at(energy_set_at(g, bench_ref(p, b), i, 0), active_ref(p), i, sat_add(a as int, n as int))
}

/// All energy of type `i` from bench spot `b` to the active Pokémon.
/// Sets energy counter `i` of the Pokémon at `r` to `v`.
fn set_energy_at(state: &mut GameState, r: SlotRef, i: usize, v: u8)
    requires
        r.valid(),
        i < 8,
    ensures
        final(state)@ == energy_set_at(old(state)@, r, i as int, v),
{
    match read_slot(state, r) {
        Some(s) => {
            let mut s2 = s;
            s2.energy[i] = v;
            write_slot(state, r, Some(s2));
        },
        None => {},
    }
}

/// Energy counter `i` of the Pokémon at `r` (0 for an empty spot).
fn energy_of(state: &GameState, r: SlotRef, i: usize) -> (n: u8)
    requires
        i < 8,
    ensures
        n == match state@.slot(r) {
            Some(s) => s.energy@[i as int],
            None => 0,
        },
{
    match read_slot(state, r) {
        Some(s) => s.energy[i],
        None => 0,
    }
}

/// `a + b`, saturating at 255.
pub open spec fn sat_add(a: int, b: int) -> u8 {
    if a + b > 255 { 255 } else { (a + b) as u8 }
}

fn sat_add_u8(a: u8, b: u8) -> (r: u8)
    ensures
        r == sat_add(a as int, b as int),
{
    if a as u16 + b as u16 > 255 {
        255
    } else {
        a + b
    }
}

/// All energy of type `i` from bench spot `b` to the active Pokémon.
fn move_all_to_active(state: &mut GameState, p: usize, b: usize, i: usize)
    requires
        p < 2,
        b < 3,
        i < 8,
        old(state)@.players[p as int].bench[b as int] is Some,
        old(state)@.players[p as int].active is Some,
    ensures
        final(state)@ == all_to_active(old(state)@, p as int, b as int, i as int),
{
    let br = SlotRef::bench(p, b);
    let ar = SlotRef::active(p);
    let n = energy_of(state, br, i);
    set_energy_at(state, br, i, 0);
    let a = energy_of(state, ar, i);
    set_energy_at(state, ar, i, sat_add_u8(a, n));
}

/// The game after all energy of type `energy_el` moves from player `p`'s
/// first eligible benched Pokémon carrying some to the active Pokémon.
pub open spec fn typed_moved(g: GameView, db: CardDb, p: int, energy_el: Element, filter_el: Option<Element>) -> GameView {
    let i = energy_el.index();
    if g.players[p].active is None {
        g
    } else if typed_source(g, db, p, 0, energy_el, filter_el) {
        all_to_active(g, p, 0, i)
    } else if typed_source(g, db, p, 1, energy_el, filter_el) {
        all_to_active(g, p, 1, i)
    } else if typed_source(g, db, p, 2, energy_el, filter_el) {
        all_to_active(g, p, 2, i)
    } else {
        g
    }
}

/// All energy of type `energy_el` moves from the first benched Pokémon
/// carrying some (of type `filter_el` when one is given) to the acting
/// player's active Pokémon.
pub fn move_all_typed_energy_bench_to_active(
    state: &mut GameState,
    db: &CardDb,
    ctx: &EffectContext,
    energy_el: Element,
    filter_el: Option<Element>,
)
    requires
        ctx.acting_player < 2,
    ensures
        final(state)@ == typed_moved(old(state)@, *db, ctx.acting_player as int, energy_el, filter_el),
{
    let pi = ctx.acting_player;
    if state.players[pi].active.is_none() {
        return;
    }
    let ei = energy_el.idx();
    let mut i: usize = 0;
    while i < 3
        invariant
            pi < 2,
            pi == ctx.acting_player,
            ei == energy_el.index(),
            i <= 3,
            state@ == old(state)@,
            old(state)@.players[pi as int].active is Some,
            forall|j: int| 0 <= j < i ==> !typed_source(old(state)@, *db, pi as int, j, energy_el, filter_el),
        decreases 3 - i,
    {
        let ok = match &state.players[pi].bench[i] {
            Some(s) => (match filter_el {
                Some(fe) => slot_has_type(s, db, fe),
                None => true,
            }) && s.energy[ei] > 0,
            None => false,
        };
        if ok {
            move_all_to_active(state, pi, i, ei);
            return;
        }
        i = i + 1;
    }
}

/// Lightning energy on bench spot `i` of player `p` (0 when empty).
pub open spec fn bench_lightning(g: GameView, p: int, i: int) -> int {
    match g.players[p].bench[i] {
        Some(s) => s.energy@[Element::Lightning.index()] as int,
        None => 0,
    }
}

/// Lightning energy moved by `move_all_electric_to_active_named`: the sum
/// over the bench, saturating at 255.
pub open spec fn lightning_moved(g: GameView, p: int) -> int {
    let a = bench_lightning(g, p, 0);
    let b = if a + bench_lightning(g, p, 1) > 255 { 255 } else { a + bench_lightning(g, p, 1) };
    if b + bench_lightning(g, p, 2) > 255 { 255 } else { b + bench_lightning(g, p, 2) }
}

/// The game with no Lightning energy left on player `p`'s bench.
pub open spec fn bench_lightning_cleared(g: GameView, p: int) -> GameView {
    let l = Element::Lightning.index();
    energy_set_at(energy_set_at(energy_set_at(g, bench_ref(p, 0), l, 0), bench_ref(p, 1), l, 0), bench_ref(p, 2), l, 0)
}

/// Clears the Lightning energy of bench spot `i`, returning how much it had.
fn take_bench_lightning(state: &mut GameState, p: usize, i: usize) -> (n: u8)
    requires
        p < 2,
        i < 3,
    ensures
        n == bench_lightning(old(state)@, p as int, i as int),
        final(state)@ == energy_set_at(old(state)@, bench_ref(p as int, i as int), Element::Lightning.index(), 0),
{
    let l = Element::Lightning.idx();
    let r = SlotRef::bench(p, i);
    let n = energy_of(state, r, l);
    set_energy_at(state, r, l, 0);
    n
}

/// The game after all Lightning energy on player `p`'s bench moves to the
/// active Pokémon, when its name is one of `names` (any active Pokémon when
/// `names` is empty).
pub open spec fn electric_moved(g: GameView, db: CardDb, p: int, names: Seq<Seq<char>>) -> GameView {
    let l = Element::Lightning.index();
    let allowed = if names.len() > 0 {
        g.players[p].active matches Some(a) && slot_named(a, db, names)
    } else {
        g.players[p].active is Some
    };
    let m = lightning_moved(g, p);
    let g1 = bench_lightning_cleared(g, p);
    if !allowed {
        g
    } else if m > 0 {
        energy_set_at(g1, active_ref(p), l, sat_add(g.players[p].active->0.energy@[l] as int, m))
    } else {
        g1
    }
}

/// All Lightning energy on the acting player's bench moves to the active
/// Pokémon, when its name is one of `names` (case ignored; an empty list
/// accepts any active Pokémon).  The amount moved and the active counter
/// saturate at 255.
#[verifier::rlimit(40)]
pub fn move_all_electric_to_active_named(state: &mut GameState, db: &CardDb, ctx: &EffectContext, names: &[&str])
    requires
        ctx.acting_player < 2,
    ensures
        final(state)@ == electric_moved(old(state)@, *db, ctx.acting_player as int, str_views(names@)),
{
    let pi = ctx.acting_player;
    if names.len() > 0 {
        let ok = match &state.players[pi].active {
            Some(s) => has_listed_name(s, db, names),
            None => false,
        };
        if !ok {
            return;
        }
    } else if state.players[pi].active.is_none() {
        return;
    }
    let ghost g = state@;
    let n0 = take_bench_lightning(state, pi, 0);
    let n1 = take_bench_lightning(state, pi, 1);
    let n2 = take_bench_lightning(state, pi, 2);
    proof {
        assert(n1 == bench_lightning(g, pi as int, 1));
        assert(n2 == bench_lightning(g, pi as int, 2));
    }
    let moved = sat_add_u8(sat_add_u8(n0, n1), n2);
    if moved > 0 {
        let l = Element::Lightning.idx();
        let ar = SlotRef::active(pi);
        let a = energy_of(state, ar, l);
        set_energy_at(state, ar, l, sat_add_u8(a, moved));
    }
}

/// The game with energy counter `i` of the Pokémon at `r` set to `v`.
pub open spec fn energy_set_at(g: GameView, r: SlotRef, i: int, v: u8) -> GameView {
    g.map_slot(r, |t: PokemonSlot| with_energy(t, i, v))
}

/// Flips until tails, one energy of `element` leaving the source Pokémon per
/// heads (the energy is not kept); flipping stops when none is left.
pub fn coin_flip_until_tails_discard_energy(state: &mut GameState, ctx: &EffectContext, element: Element)
    requires
        ctx.acting_player < 2,
    ensures
        ({
            let r = source_of(*ctx);
            let i = element.index();
            match old(state)@.slot(r) {
                Some(s) => exists|m: int|
                    0 <= m <= s.energy@[i] && final(state)@ == #[trigger] energy_set_at(old(state)@, r, i, (s.energy@[i] - m) as u8),
                None => final(state)@ == old(state)@,
            }
        }),
{
    let src = source_slot(ctx);
    let i = element.idx();
    let s0 = match read_slot(state, src) {
        Some(s) => s,
        None => {
            return;
        },
    };
    let e0 = s0.energy[i];
    let mut cur: u8 = e0;
    while cur > 0 && flip_coin(&mut state.rng)
        invariant
            cur <= e0,
            state@ == old(state)@,
        decreases cur,
    {
        cur = cur - 1;
    }
    let mut s2 = s0;
    s2.energy[i] = cur;
    write_slot(state, src, Some(s2));
    proof {
        let m = (e0 - cur) as int;
        assert(with_energy(s0, i as int, (s0.energy@[i as int] - m) as u8) == s2);
        assert(state@ == energy_set_at(old(state)@, src, i as int, (s0.energy@[i as int] - m) as u8));
    }
}

/// Discards the top `count` cards of the deck (fewer if the deck is
/// smaller), keeping their order, onto the discard pile.
pub fn discard_top_deck(state: &mut GameState, ctx: &EffectContext, count: usize)
    requires
        ctx.acting_player < 2,
    ensures
        ({
            let p = ctx.acting_player as int;
            let d = old(state)@.pile(p, Pile::Deck);
            let k = if count < d.len() { count as int } else { d.len() as int };
            let cut = d.len() - k;
            let g1 = old(state)@.with_pile(p, Pile::Deck, d.subrange(0, cut));
            final(state)@ == if k == 0 {
                old(state)@
            } else {
                g1.with_pile(p, Pile::Discard, g1.pile(p, Pile::Discard) + d.subrange(cut, d.len() as int))
            }
        }),
{
    let p = ctx.acting_player;
    let len = state.players[p].deck.len();
    let k = if count < len { count } else { len };
    if k == 0 {
        return;
    }
    let cut = len - k;
    let mut top = state.players[p].deck.split_off(cut);
    state.players[p].discard.append(&mut top);
    proof {
        let d = old(state)@.pile(p as int, Pile::Deck);
        let g1 = old(state)@.with_pile(p as int, Pile::Deck, d.subrange(0, cut as int));
        assert(state@.players =~= g1.with_pile(p as int, Pile::Discard, g1.pile(p as int, Pile::Discard) + d.subrange(cut as int, d.len() as int)).players);
    }
}


/// The energy of type `t` on the Pokémon at `r` (0 if none) plus the energy
/// of type `t` in its owner's energy discard.
pub open spec fn energy_held(g: GameView, r: SlotRef, t: int) -> int {
    (match g.slot(r) {
        Some(s) => s.energy@[t] as int,
        None => 0,
    }) + g.players[r.player as int].energy_discard[t]
}

/// One unit sent to the energy discard keeps, for each type, the energy on
/// the Pokémon plus its owner's discarded energy.
proof fn lemma_unit_keeps_held(g: GameView, r: SlotRef, i: int)
    requires
        g.wf(),
        r.valid(),
        0 <= i < 8,
        has_unit(g, r, i),
        g.players[r.player as int].energy_discard.len() == 8,
        g.players[r.player as int].energy_discard[i] < 255,
    ensures
        forall|t: int| 0 <= t < 8 ==> #[trigger] energy_held(unit_removed(g, r, i, true), r, t) == energy_held(g, r, t),
{
    let s = g.slot(r)->0;
    let h = unit_removed(g, r, i, true);
    assert(h.slot(r)->0.energy@ =~= s.energy@.update(i, (s.energy@[i] - 1) as u8));
    assert(h.players[r.player as int].energy_discard =~= g.players[r.player as int].energy_discard.update(
        i,
        (g.players[r.player as int].energy_discard[i] + 1) as u8,
    ));
}

/// Sending energy units one by one from the Pokémon at `r` to its owner's
/// energy discard keeps, for each type, the energy on the Pokémon plus its
/// owner's discarded energy: no energy is lost or made.
pub proof fn lemma_discarded_units_keep_energy(g0: GameView, r: SlotRef, picks: Seq<int>)
    requires
        g0.wf(),
        r.valid(),
        g0.players[r.player as int].energy_discard.len() == 8,
        discard_fits_all(g0, r),
        valid_units(g0, r, picks),
    ensures
        apply_units(g0, r, picks).wf(),
        apply_units(g0, r, picks).players[r.player as int].energy_discard.len() == 8,
        discard_fits_all(apply_units(g0, r, picks), r),
        forall|t: int| 0 <= t < 8 ==> #[trigger] energy_held(apply_units(g0, r, picks), r, t) == energy_held(g0, r, t),
    decreases picks.len(),
{
    if picks.len() > 0 {
        let pre = picks.drop_last();
        lemma_discarded_units_keep_energy(g0, r, pre);
        let g = apply_units(g0, r, pre);
        let i = picks.last();
        let s = g.slot(r)->0;
        assert(g.players[r.player as int].energy_discard[i] + s.energy@[i] <= 255);
        lemma_unit_keeps_held(g, r, i);
        lemma_fits_after_unit(g, r, i);
    }
}

/// The Grass energy of the zone goes to a benched Pokémon when the active
/// one is not a Grass Pokémon: the first benched Grass Pokémon (in spot
/// order) gains exactly one Grass energy and keeps everything else, while the
/// active Pokémon, the other benched ones and the opponent's side are left
/// as they were.
pub proof fn lemma_grass_energy_to_first_grass_bench(g: GameView, db: CardDb, p: int, i: int)
    requires
        g.wf(),
        0 <= p < 2,
        0 <= i < 3,
        !(g.players[p].active matches Some(s) && db.card(s.card_idx) matches Some(c) && c.element == Some(Element::Grass)),
        g.players[p].bench[i] matches Some(s) && db.card(s.card_idx) matches Some(c) && c.element == Some(Element::Grass),
        forall|j: int|
            0 <= j < i ==> !(#[trigger] g.players[p].bench[j] matches Some(s) && db.card(s.card_idx) matches Some(c) && c.element
                == Some(Element::Grass)),
        g.players[p].bench[i]->0.energy@[0] < 255,
    ensures
        ({
            let s0 = g.players[p].bench[i]->0;
            let after = grass_attached(g, db, p);
            &&& after.players[p].bench[i] matches Some(s1)
            &&& s1.energy@[0] == s0.energy@[0] + 1
            &&& forall|t: int| 1 <= t < 8 ==> s1.energy@[t] == s0.energy@[t]
            &&& s1.card_idx == s0.card_idx && s1.current_hp == s0.current_hp
            &&& after.players[p].active == g.players[p].active
            &&& forall|j: int| 0 <= j < 3 && j != i ==> after.players[p].bench[j] == g.players[p].bench[j]
            &&& after.players[1 - p] == g.players[1 - p]
        }),
{
    assert(!active_is(g, db, p, Element::Grass));
    if i > 0 {
        assert(!bench_is_type(g, db, p, 0, Element::Grass));
    }
    if i > 1 {
        assert(!bench_is_type(g, db, p, 1, Element::Grass));
    }
    assert(bench_is_type(g, db, p, i, Element::Grass));
    assert(first_bench_of_type(g, db, p, Element::Grass) == Some(i));
    let r = bench_ref(p, i);
    assert(r.valid());
    assert(g.slot(r) == g.players[p].bench[i]);
}

}
