//! Damage modifiers and damage side effects.
//!
//! Handlers that compute a bonus return it as an `i16` for the caller to add
//! to the base damage; handlers that prevent, reduce or splash damage change
//! the game directly.
use vstd::prelude::*;
use crate::actions::SlotRef;
use crate::card::CardDb;
use crate::effects::EffectContext;
use crate::rng::coin_below_half;
use crate::state::{
    GameState, GameView, PlayerView, PokemonSlot, active_ref, bench_ref, get_slot, read_slot,
    write_slot,
};

verus! {

/// Deals `amount` damage to the Pokémon at `slot_ref`, HP clamped at 0.
/// Knock-outs are left to the caller.
pub(crate) fn damage_slot(state: &mut GameState, slot_ref: SlotRef, amount: i16)
    requires
        old(state)@.can_damage(slot_ref, amount),
    ensures
        final(state)@ == old(state)@.damage_at(slot_ref, amount),
{
    match read_slot(state, slot_ref) {
        Some(s) => {
            let mut s2 = s;
            let hp = s.current_hp - amount;
            s2.current_hp = if hp < 0 { 0 } else { hp };
            write_slot(state, slot_ref, Some(s2));
        },
        None => {},
    }
}

/// The Pokémon that `r` refers to, if any.
pub open spec fn slot_of(g: GameView, r: Option<SlotRef>) -> Option<PokemonSlot> {
    match r {
        Some(x) => g.slot(x),
        None => None,
    }
}

/// Energy counted on the Pokémon that `r` refers to (0 if there is none).
pub open spec fn energy_on(g: GameView, r: Option<SlotRef>) -> int {
    match slot_of(g, r) {
        Some(s) => s.energy_count(),
        None => 0,
    }
}

/// The Pokémon that `r` refers to has taken damage.
pub open spec fn is_damaged(g: GameView, r: Option<SlotRef>) -> bool {
    match slot_of(g, r) {
        Some(s) => s.current_hp < s.max_hp,
        None => false,
    }
}

/// `v` fits in an `i16`.
pub open spec fn fits_i16(v: int) -> bool {
    i16::MIN <= v <= i16::MAX
}

/// Flat bonus damage.
pub fn extra_damage(state: &mut GameState, amount: i16, ctx: &EffectContext) -> (r: i16)
    ensures
        r == amount,
        final(state)@ == old(state)@,
{
    amount
}

/// `amount` for each energy attached to the attacker.
pub fn extra_damage_per_own_energy(
    state: &mut GameState,
    db: &CardDb,
    amount: i16,
    source_ref: Option<SlotRef>,
    ctx: &EffectContext,
) -> (r: i16)
    requires
        fits_i16(amount * energy_on(old(state)@, source_ref)),
    ensures
        r == amount * energy_on(old(state)@, source_ref),
        final(state)@ == old(state)@,
{
    let total: i16 = match source_ref {
        Some(sr) => match get_slot(state, sr) {
            Some(s) => s.total_energy() as i16,
            None => 0,
        },
        None => 0,
    };
    amount * total
}

/// `amount` if the opponent's active Pokémon has taken damage, else 0.
pub fn extra_damage_if_damaged(state: &mut GameState, amount: i16, ctx: &EffectContext) -> (r: i16)
    requires
        ctx.acting_player < 2,
    ensures
        r == (if is_damaged(old(state)@, Some(active_ref(1 - ctx.acting_player))) { amount } else { 0 }),
        final(state)@ == old(state)@,
{
    let opp = 1 - ctx.acting_player;
    let damaged = match &state.players[opp].active {
        Some(s) => s.current_hp < s.max_hp,
        None => false,
    };
    if damaged {
        amount
    } else {
        0
    }
}

/// `amount` if the attacker itself has taken damage, else 0.
pub fn extra_damage_if_self_damaged(
    state: &mut GameState,
    amount: i16,
    source_ref: Option<SlotRef>,
    ctx: &EffectContext,
) -> (r: i16)
    ensures
        r == (if is_damaged(old(state)@, source_ref) { amount } else { 0 }),
        final(state)@ == old(state)@,
{
    let damaged = match source_ref {
        Some(sr) => match get_slot(state, sr) {
            Some(s) => s.current_hp < s.max_hp,
            None => false,
        },
        None => false,
    };
    if damaged {
        amount
    } else {
        0
    }
}

/// `amount` for each energy attached to the opponent's active Pokémon.
pub fn extra_damage_per_opponent_energy(state: &mut GameState, amount: i16, ctx: &EffectContext) -> (r: i16)
    requires
        ctx.acting_player < 2,
        fits_i16(amount * energy_on(old(state)@, Some(active_ref(1 - ctx.acting_player)))),
    ensures
        r == amount * energy_on(old(state)@, Some(active_ref(1 - ctx.acting_player))),
        final(state)@ == old(state)@,
{
    let opp = 1 - ctx.acting_player;
    let total: i16 = match &state.players[opp].active {
        Some(s) => s.total_energy() as i16,
        None => 0,
    };
    amount * total
}

/// `amount` for each of the acting player's benched Pokémon.
pub fn extra_damage_per_own_bench(state: &mut GameState, amount: i16, ctx: &EffectContext) -> (r: i16)
    requires
        ctx.acting_player < 2,
        fits_i16(amount * old(state)@.players[ctx.acting_player as int].bench_occupied()),
    ensures
        r == amount * old(state)@.players[ctx.acting_player as int].bench_occupied(),
        final(state)@ == old(state)@,
{
    let count = state.players[ctx.acting_player].bench_count() as i16;
    amount * count
}

/// `amount` for each of the opponent's benched Pokémon.
pub fn extra_damage_per_opponent_bench(state: &mut GameState, amount: i16, ctx: &EffectContext) -> (r: i16)
    requires
        ctx.acting_player < 2,
        fits_i16(amount * old(state)@.players[1 - ctx.acting_player].bench_occupied()),
    ensures
        r == amount * old(state)@.players[1 - ctx.acting_player].bench_occupied(),
        final(state)@ == old(state)@,
{
    let opp = 1 - ctx.acting_player;
    let count = state.players[opp].bench_count() as i16;
    amount * count
}

/// The card of the Pokémon at `r` (if any) is known to `db`.
pub open spec fn card_known(g: GameView, r: SlotRef, db: CardDb) -> bool {
    match g.slot(r) {
        Some(s) => (s.card_idx as int) < db.cards@.len(),
        None => true,
    }
}

/// The opponent's active Pokémon is an ex.
pub open spec fn opponent_active_is_ex(g: GameView, ctx: EffectContext, db: CardDb) -> bool {
    match g.slot(active_ref(1 - ctx.acting_player)) {
        Some(s) => db.cards@[s.card_idx as int].is_ex,
        None => false,
    }
}

/// `amount` if the opponent's active Pokémon is an ex, else 0.
pub fn extra_damage_if_opponent_ex(state: &mut GameState, db: &CardDb, amount: i16, ctx: &EffectContext) -> (r: i16)
    requires
        ctx.acting_player < 2,
        card_known(old(state)@, active_ref(1 - ctx.acting_player), *db),
    ensures
        r == (if opponent_active_is_ex(old(state)@, *ctx, *db) { amount } else { 0 }),
        final(state)@ == old(state)@,
{
    let opp = 1 - ctx.acting_player;
    let is_ex = match &state.players[opp].active {
        Some(s) => db.get_by_idx(s.card_idx).is_ex,
        None => false,
    };
    if is_ex {
        amount
    } else {
        0
    }
}

/// Damage already taken by the Pokémon that `r` refers to (never negative).
pub open spec fn damage_taken(g: GameView, r: Option<SlotRef>) -> int {
    match slot_of(g, r) {
        Some(s) => if s.max_hp - s.current_hp < 0 { 0 } else { s.max_hp - s.current_hp },
        None => 0,
    }
}

/// Bonus equal to the damage the attacker has already taken.
pub fn extra_damage_equal_to_damage_taken(
    state: &mut GameState,
    source_ref: Option<SlotRef>,
    ctx: &EffectContext,
) -> (r: i16)
    requires
        match slot_of(old(state)@, source_ref) {
            Some(s) => fits_i16(s.max_hp - s.current_hp),
            None => true,
        },
    ensures
        r == damage_taken(old(state)@, source_ref),
        final(state)@ == old(state)@,
{
    match source_ref {
        Some(sr) => match get_slot(state, sr) {
            Some(s) => {
                let d = s.max_hp - s.current_hp;
                if d < 0 {
                    0
                } else {
                    d
                }
            },
            None => 0,
        },
        None => 0,
    }
}

/// The bonus for `heads` heads at `amount` each.
pub open spec fn per_heads(amount: i16, heads: int) -> int {
    amount * heads
}

/// Flips `flips` coins; the bonus is `amount` per heads.
pub fn coin_flip_extra_damage(state: &mut GameState, amount: i16, flips: u8, ctx: &EffectContext) -> (r: i16)
    requires
        fits_i16(amount * flips),
    ensures
        exists|heads: int| 0 <= heads <= flips && r == #[trigger] per_heads(amount, heads),
        final(state)@ == old(state)@,
        flips == 0 ==> *final(state) == *old(state),
{
    let mut heads: u8 = 0;
    let mut i: u8 = 0;
    while i < flips
        invariant
            heads <= i <= flips,
            state@ == old(state)@,
            i == 0 ==> *state == *old(state),
        decreases flips - i,
    {
        if coin_below_half(&mut state.rng) {
            heads = heads + 1;
        }
        i = i + 1;
    }
    let h = heads as i16;
    assert(fits_i16(amount * h)) by (nonlinear_arith)
        requires
            fits_i16(amount * flips),
            0 <= h <= flips,
    {
        if amount >= 0 {
            assert(amount * h <= amount * flips);
            assert(0 <= amount * h);
        } else {
            assert(amount * flips <= amount * h);
            assert(amount * h <= 0);
        }
    }
    assert(per_heads(amount, h as int) == amount * h);
    amount * h
}

/// The longest run of heads counted by `flip_until_tails_extra_damage`:
/// beyond it the bonus would no longer fit in an `i16`.
pub open spec fn heads_cap(amount: i16) -> int {
    let a: int = if amount < 0 { -amount } else { amount as int };
    if a == 0 { 32767 } else { 32767int / a }
}

/// Flips until tails; the bonus is `amount` per heads.  The run is cut off
/// at `heads_cap(amount)` heads, where the bonus would stop fitting in an
/// `i16`.
pub fn flip_until_tails_extra_damage(state: &mut GameState, amount: i16, ctx: &EffectContext) -> (r: i16)
    ensures
        exists|heads: int| 0 <= heads <= heads_cap(amount) && r == #[trigger] per_heads(amount, heads),
        final(state)@ == old(state)@,
{
    let a: i32 = amount as i32;
    let abs: i32 = if a < 0 { -a } else { a };
    let cap: i32 = if abs == 0 { 32767 } else { 32767 / abs };
    assert(cap == heads_cap(amount));
    let mut heads: i32 = 0;
    while heads < cap && coin_below_half(&mut state.rng)
        invariant
            0 <= heads <= cap,
            cap == heads_cap(amount),
            0 <= cap <= 32767,
            state@ == old(state)@,
        decreases cap - heads,
    {
        heads = heads + 1;
    }
    assert(fits_i16(a * heads)) by (nonlinear_arith)
        requires
            abs == (if a < 0 { -a } else { a as int }),
            cap == (if abs == 0 { 32767int } else { 32767int / (abs as int) }),
            0 <= heads <= cap,
            -32768 <= a <= 32767,
    {
        if abs != 0 {
            assert(abs * cap <= 32767);
            assert(abs * heads <= abs * cap);
        }
    }
    assert(per_heads(amount, heads as int) == a * heads);
    (a * heads) as i16
}

/// One coin: heads gives `(bonus, 0)`, tails gives `(0, self_damage_amount)`;
/// the caller applies the self-damage.
pub fn coin_flip_bonus_or_self_damage(
    state: &mut GameState,
    bonus: i16,
    self_damage_amount: i16,
    ctx: &EffectContext,
) -> (r: (i16, i16))
    ensures
        r == (bonus, 0i16) || r == (0i16, self_damage_amount),
        final(state)@ == old(state)@,
{
    if coin_below_half(&mut state.rng) {
        (bonus, 0)
    } else {
        (0, self_damage_amount)
    }
}

/// `s` protected from all damage during the opponent's next turn.
pub open spec fn protected(s: PokemonSlot) -> PokemonSlot {
    PokemonSlot { prevent_damage_next_turn: true, ..s }
}

/// Prevents all damage to the acting player's active Pokémon during the
/// opponent's next turn.
pub fn prevent_damage_next_turn(state: &mut GameState, ctx: &EffectContext)
    requires
        ctx.acting_player < 2,
    ensures
        final(state)@ == old(state)@.map_slot(active_ref(ctx.acting_player as int), |s: PokemonSlot| protected(s)),
{
    let r = SlotRef::active(ctx.acting_player);
    match read_slot(state, r) {
        Some(s) => {
            let mut s2 = s;
            s2.prevent_damage_next_turn = true;
            write_slot(state, r, Some(s2));
        },
        None => {},
    }
}

/// `s` with its incoming damage reduction set to `v`.
pub open spec fn with_reduction(s: PokemonSlot, v: i8) -> PokemonSlot {
    PokemonSlot { incoming_damage_reduction: v, ..s }
}

/// Attacks against the acting player's active Pokémon do `amount` less
/// damage next turn (the amount is kept as an `i8`, truncating).
pub fn reduce_opponent_attack_damage(state: &mut GameState, amount: i16, ctx: &EffectContext)
    requires
        ctx.acting_player < 2,
    ensures
        final(state)@ == old(state)@.map_slot(
            active_ref(ctx.acting_player as int),
            |s: PokemonSlot| with_reduction(s, amount as i8),
        ),
{
    let r = SlotRef::active(ctx.acting_player);
    match read_slot(state, r) {
        Some(s) => {
            let mut s2 = s;
            s2.incoming_damage_reduction = amount as i8;
            write_slot(state, r, Some(s2));
        },
        None => {},
    }
}

/// The acting player's board with its retreat cost modifier set to `v`.
pub open spec fn with_retreat_modifier(g: GameView, p: int, v: i8) -> GameView {
    g.with_player(p, PlayerView { retreat_cost_modifier: v, ..g.players[p] })
}

/// The retreat cost of the acting player's active Pokémon as a signed
/// byte (0 without an active Pokémon).
pub open spec fn active_retreat_cost(g: GameView, p: int, db: CardDb) -> i8 {
    match g.players[p].active {
        Some(s) => db.cards@[s.card_idx as int].retreat_cost as i8,
        None => 0,
    }
}

/// Lets the acting player's active Pokémon retreat for free this turn: the
/// retreat cost modifier becomes minus the card's retreat cost.
pub fn set_retreat_cost_zero(state: &mut GameState, ctx: &EffectContext, db: &CardDb)
    requires
        ctx.acting_player < 2,
        card_known(old(state)@, active_ref(ctx.acting_player as int), *db),
        active_retreat_cost(old(state)@, ctx.acting_player as int, *db) != i8::MIN,
    ensures
        final(state)@ == with_retreat_modifier(
            old(state)@,
            ctx.acting_player as int,
            (-active_retreat_cost(old(state)@, ctx.acting_player as int, *db)) as i8,
        ),
{
    let p = ctx.acting_player;
    let retreat_cost: i8 = match &state.players[p].active {
        Some(s) => db.get_by_idx(s.card_idx).retreat_cost as i8,
        None => 0,
    };
    state.players[p].retreat_cost_modifier = -retreat_cost;
    proof {
        assert(final(state)@.players =~= with_retreat_modifier(
            old(state)@,
            p as int,
            (-active_retreat_cost(old(state)@, p as int, *db)) as i8,
        ).players);
    }
}

/// `a - b` saturated to the `i8` range.
pub open spec fn i8_saturating_sub(a: i8, b: i8) -> i8 {
    if a - b < i8::MIN {
        i8::MIN
    } else if a - b > i8::MAX {
        i8::MAX
    } else {
        (a - b) as i8
    }
}

/// Lowers the acting player's retreat cost modifier by `amount` (taken as
/// an `i8`, truncating), saturating at the `i8` bounds.
pub fn reduce_retreat_cost(state: &mut GameState, amount: i16, ctx: &EffectContext)
    requires
        ctx.acting_player < 2,
    ensures
        final(state)@ == with_retreat_modifier(
            old(state)@,
            ctx.acting_player as int,
            i8_saturating_sub(old(state)@.players[ctx.acting_player as int].retreat_cost_modifier, amount as i8),
        ),
{
    let p = ctx.acting_player;
    let current = state.players[p].retreat_cost_modifier;
    let d: i16 = current as i16 - (amount as i8) as i16;
    let v: i8 = if d < -128 {
        -128
    } else if d > 127 {
        127
    } else {
        d as i8
    };
    state.players[p].retreat_cost_modifier = v;
    proof {
        assert(final(state)@.players =~= with_retreat_modifier(
            old(state)@,
            p as int,
            i8_saturating_sub(old(state)@.players[p as int].retreat_cost_modifier, amount as i8),
        ).players);
    }
}

/// Every Pokémon on player `p`'s bench can take `amount` damage within `i16`.
pub open spec fn bench_can_damage(g: GameView, p: int, amount: i16) -> bool {
    &&& g.can_damage(bench_ref(p, 0), amount)
    &&& g.can_damage(bench_ref(p, 1), amount)
    &&& g.can_damage(bench_ref(p, 2), amount)
}

/// The game after every benched Pokémon of player `p` takes `amount` damage.
pub open spec fn damage_bench(g: GameView, p: int, amount: i16) -> GameView {
    g.damage_at(bench_ref(p, 0), amount).damage_at(bench_ref(p, 1), amount).damage_at(bench_ref(p, 2), amount)
}

/// Damages each occupied bench spot of player `p` in turn.
pub(crate) fn damage_bench_of(state: &mut GameState, p: usize, amount: i16)
    requires
        p < 2,
        bench_can_damage(old(state)@, p as int, amount),
    ensures
        final(state)@ == damage_bench(old(state)@, p as int, amount),
{
    let ghost g0 = state@;
    damage_slot(state, SlotRef::bench(p, 0), amount);
    let ghost g1 = state@;
    assert(g1.slot(bench_ref(p as int, 1)) == g0.slot(bench_ref(p as int, 1)));
    assert(g1.slot(bench_ref(p as int, 2)) == g0.slot(bench_ref(p as int, 2)));
    damage_slot(state, SlotRef::bench(p, 1), amount);
    let ghost g2 = state@;
    assert(g2.slot(bench_ref(p as int, 2)) == g1.slot(bench_ref(p as int, 2)));
    damage_slot(state, SlotRef::bench(p, 2), amount);
}

/// `amount` damage to each of the opponent's benched Pokémon (not the
/// active one); HP is clamped at 0 and knock-outs are left to the caller.
pub fn damage_all_opponent_bench(state: &mut GameState, amount: i16, ctx: &EffectContext)
    requires
        ctx.acting_player < 2,
        bench_can_damage(old(state)@, 1 - ctx.acting_player, amount),
    ensures
        final(state)@ == damage_bench(old(state)@, 1 - ctx.acting_player, amount),
{
    damage_bench_of(state, 1 - ctx.acting_player, amount);
}

/// Damage to the spot `r` leaves every other spot as it was.
proof fn lemma_damage_elsewhere(g: GameView, r: SlotRef, q: SlotRef, amount: i16)
    requires
        r.valid(),
        q.valid(),
        r != q,
        g.wf(),
    ensures
        g.damage_at(r, amount).slot(q) == g.slot(q),
        g.damage_at(r, amount).wf(),
{
    let h = g.damage_at(r, amount);
    assert forall|p: int| 0 <= p < 2 implies #[trigger] h.players[p].bench.len() == 3 by {
        assert(g.players[p].bench.len() == 3);
    }
}

/// `amount` damage to every benched Pokémon on both sides, the acting
/// player's bench first.
pub fn damage_all_bench(state: &mut GameState, amount: i16, ctx: &EffectContext)
    requires
        ctx.acting_player < 2,
        bench_can_damage(old(state)@, ctx.acting_player as int, amount),
        bench_can_damage(old(state)@, 1 - ctx.acting_player, amount),
    ensures
        final(state)@ == damage_bench(
            damage_bench(old(state)@, ctx.acting_player as int, amount),
            1 - ctx.acting_player,
            amount,
        ),
{
    let me = ctx.acting_player;
    let opp = 1 - me;
    let ghost g0 = state@;
    assert(g0.players[0].bench.len() == 3 && g0.players[1].bench.len() == 3);
    damage_bench_of(state, me, amount);
    proof {
        let a = g0.damage_at(bench_ref(me as int, 0), amount);
        let b = a.damage_at(bench_ref(me as int, 1), amount);
        assert forall|j: int| 0 <= j < 3 implies #[trigger] state@.slot(bench_ref(opp as int, j)) == g0.slot(bench_ref(opp as int, j)) by {
            lemma_damage_elsewhere(g0, bench_ref(me as int, 0), bench_ref(opp as int, j), amount);
            lemma_damage_elsewhere(a, bench_ref(me as int, 1), bench_ref(opp as int, j), amount);
            lemma_damage_elsewhere(b, bench_ref(me as int, 2), bench_ref(opp as int, j), amount);
        }
        assert(state@.slot(bench_ref(opp as int, 0)) == g0.slot(bench_ref(opp as int, 0)));
        assert(state@.slot(bench_ref(opp as int, 1)) == g0.slot(bench_ref(opp as int, 1)));
        assert(state@.slot(bench_ref(opp as int, 2)) == g0.slot(bench_ref(opp as int, 2)));
    }
    damage_bench_of(state, opp, amount);
}

/// Which spot `damage_specific_bench` hits: the chosen target when it is a
/// bench spot of the opponent, else the opponent's first occupied bench spot.
pub open spec fn specific_bench_target(g: GameView, target_ref: Option<SlotRef>, opp: int) -> Option<SlotRef> {
    match target_ref {
        Some(t) if t.player == opp && t.slot >= 0 => Some(t),
        _ => if g.players[opp].bench[0] is Some {
            Some(bench_ref(opp, 0))
        } else if g.players[opp].bench[1] is Some {
            Some(bench_ref(opp, 1))
        } else if g.players[opp].bench[2] is Some {
            Some(bench_ref(opp, 2))
        } else {
            None
        },
    }
}

/// `amount` damage to the chosen opponent bench spot, or to the opponent's
/// first occupied bench spot when no such spot was chosen.
pub fn damage_specific_bench(state: &mut GameState, amount: i16, target_ref: Option<SlotRef>, ctx: &EffectContext)
    requires
        ctx.acting_player < 2,
        match specific_bench_target(old(state)@, target_ref, 1 - ctx.acting_player) {
            Some(t) => old(state)@.can_damage(t, amount),
            None => true,
        },
    ensures
        final(state)@ == match specific_bench_target(old(state)@, target_ref, 1 - ctx.acting_player) {
            Some(t) => old(state)@.damage_at(t, amount),
            None => old(state)@,
        },
{
    let opp = 1 - ctx.acting_player;
    if let Some(target) = target_ref {
        if target.player == opp as u8 && target.slot >= 0 {
            damage_slot(state, target, amount);
            return;
        }
    }
    let mut i: usize = 0;
    while i < 3
        invariant
            i <= 3,
            opp < 2,
            opp == 1 - ctx.acting_player,
            state@ == old(state)@,
            forall|j: int| 0 <= j < i ==> old(state)@.players[opp as int].bench[j] is None,
            specific_bench_target(old(state)@, target_ref, opp as int) == (match target_ref {
                Some(t) if t.player == opp && t.slot >= 0 => Some(t),
                _ => if old(state)@.players[opp as int].bench[0] is Some {
                    Some(bench_ref(opp as int, 0))
                } else if old(state)@.players[opp as int].bench[1] is Some {
                    Some(bench_ref(opp as int, 1))
                } else if old(state)@.players[opp as int].bench[2] is Some {
                    Some(bench_ref(opp as int, 2))
                } else {
                    None
                },
            }),
            !(target_ref matches Some(t) && t.player == opp && t.slot >= 0),
            match specific_bench_target(old(state)@, target_ref, opp as int) {
                Some(t) => old(state)@.can_damage(t, amount),
                None => true,
            },
        decreases 3 - i,
    {
        assert(state@.players[opp as int].bench[i as int] == state.players[opp as int].bench[i as int]);
        if state.players[opp].bench[i].is_some() {
            assert(specific_bench_target(old(state)@, target_ref, opp as int) == Some(bench_ref(opp as int, i as int)));
            let t = SlotRef::bench(opp, i);
            assert(t == bench_ref(opp as int, i as int));
            damage_slot(state, t, amount);
            return;
        }
        i = i + 1;
    }
}

/// `amount` damage to the attacker itself.
pub fn self_damage(state: &mut GameState, amount: i16, source_ref: Option<SlotRef>, ctx: &EffectContext)
    requires
        match source_ref {
            Some(r) => old(state)@.can_damage(r, amount),
            None => true,
        },
    ensures
        final(state)@ == match source_ref {
            Some(r) => old(state)@.damage_at(r, amount),
            None => old(state)@,
        },
{
    if let Some(src) = source_ref {
        damage_slot(state, src, amount);
    }
}

/// `amount` damage to every Pokémon of the opponent, active first.
pub fn damage_all_opponent(state: &mut GameState, amount: i16, ctx: &EffectContext)
    requires
        ctx.acting_player < 2,
        old(state)@.can_damage(active_ref(1 - ctx.acting_player), amount),
        bench_can_damage(old(state)@, 1 - ctx.acting_player, amount),
    ensures
        final(state)@ == damage_bench(
            old(state)@.damage_at(active_ref(1 - ctx.acting_player), amount),
            1 - ctx.acting_player,
            amount,
        ),
{
    let opp = 1 - ctx.acting_player;
    let ghost g0 = state@;
    assert(g0.players[0].bench.len() == 3 && g0.players[1].bench.len() == 3);
    damage_slot(state, SlotRef::active(opp), amount);
    proof {
        assert forall|j: int| 0 <= j < 3 implies #[trigger] state@.slot(bench_ref(opp as int, j)) == g0.slot(bench_ref(opp as int, j)) by {
            lemma_damage_elsewhere(g0, active_ref(opp as int), bench_ref(opp as int, j), amount);
        }
        assert(state@.slot(bench_ref(opp as int, 0)) == g0.slot(bench_ref(opp as int, 0)));
        assert(state@.slot(bench_ref(opp as int, 1)) == g0.slot(bench_ref(opp as int, 1)));
        assert(state@.slot(bench_ref(opp as int, 2)) == g0.slot(bench_ref(opp as int, 2)));
    }
    damage_bench_of(state, opp, amount);
}

}
