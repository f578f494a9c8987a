//! Special conditions and attack blocks.
use vstd::prelude::*;
use crate::actions::SlotRef;
use crate::effects::EffectContext;
use crate::rng::{coin_below_half, random_index};
use crate::state::{GameState, GameView, PlayerView, PokemonSlot, active_ref, read_slot, write_slot};
use crate::types::StatusEffect;

verus! {

/// The opponent of the acting player.
pub open spec fn opponent(ctx: EffectContext) -> int {
    1 - ctx.acting_player
}

/// `s` with the bits `m` set in its status byte.
pub open spec fn with_status(s: PokemonSlot, m: u8) -> PokemonSlot {
    PokemonSlot { status: s.status | m, ..s }
}

/// The game with condition `se` set on the Pokémon at `r` (if any).
pub open spec fn add_status_at(g: GameView, r: SlotRef, se: StatusEffect) -> GameView {
    g.map_slot(r, |s: PokemonSlot| with_status(s, se.mask()))
}

/// Sets a status bit on the given slot.
fn set_status(state: &mut GameState, target: SlotRef, se: StatusEffect)
    ensures
        final(state)@ == add_status_at(old(state)@, target, se),
{
    match read_slot(state, target) {
        Some(s) => {
            let mut s2 = s;
            s2.add_status(se);
            write_slot(state, target, Some(s2));
        },
        None => {},
    }
}

/// Apply Poisoned to the opponent's active Pokémon.
pub fn apply_poison(state: &mut GameState, ctx: &EffectContext)
    requires
        ctx.acting_player < 2,
    ensures
        final(state)@ == add_status_at(old(state)@, active_ref(opponent(*ctx)), StatusEffect::Poisoned),
{
    let target = SlotRef::active(1 - ctx.acting_player);
    set_status(state, target, StatusEffect::Poisoned);
}


/// Apply Burned to the opponent's active Pokémon.
pub fn apply_burn(state: &mut GameState, ctx: &EffectContext)
    requires
        ctx.acting_player < 2,
    ensures
        final(state)@ == add_status_at(old(state)@, active_ref(opponent(*ctx)), StatusEffect::Burned),
{
    let target = SlotRef::active(1 - ctx.acting_player);
    set_status(state, target, StatusEffect::Burned);
}

/// Apply Asleep to the opponent's active Pokémon.
pub fn apply_sleep(state: &mut GameState, ctx: &EffectContext)
    requires
        ctx.acting_player < 2,
    ensures
        final(state)@ == add_status_at(old(state)@, active_ref(opponent(*ctx)), StatusEffect::Asleep),
{
    let target = SlotRef::active(1 - ctx.acting_player);
    set_status(state, target, StatusEffect::Asleep);
}

/// Apply Paralyzed to the opponent's active Pokémon.
pub fn apply_paralysis(state: &mut GameState, ctx: &EffectContext)
    requires
        ctx.acting_player < 2,
    ensures
        final(state)@ == add_status_at(old(state)@, active_ref(opponent(*ctx)), StatusEffect::Paralyzed),
{
    let target = SlotRef::active(1 - ctx.acting_player);
    set_status(state, target, StatusEffect::Paralyzed);
}

/// Apply Confused to the opponent's active Pokémon.
pub fn apply_confusion(state: &mut GameState, ctx: &EffectContext)
    requires
        ctx.acting_player < 2,
    ensures
        final(state)@ == add_status_at(old(state)@, active_ref(opponent(*ctx)), StatusEffect::Confused),
{
    let target = SlotRef::active(1 - ctx.acting_player);
    set_status(state, target, StatusEffect::Confused);
}

/// Apply Confused to the acting player's own active Pokémon.
pub fn self_confuse(state: &mut GameState, ctx: &EffectContext)
    requires
        ctx.acting_player < 2,
    ensures
        final(state)@ == add_status_at(old(state)@, active_ref(ctx.acting_player as int), StatusEffect::Confused),
{
    let target = SlotRef::active(ctx.acting_player);
    set_status(state, target, StatusEffect::Confused);
}

/// Apply Asleep to the acting player's own active Pokémon.
pub fn self_sleep(state: &mut GameState, ctx: &EffectContext)
    requires
        ctx.acting_player < 2,
    ensures
        final(state)@ == add_status_at(old(state)@, active_ref(ctx.acting_player as int), StatusEffect::Asleep),
{
    let target = SlotRef::active(ctx.acting_player);
    set_status(state, target, StatusEffect::Asleep);
}

/// The conditions `apply_random_status` draws from, in draw order.
pub open spec fn random_status_choice(i: int) -> StatusEffect {
    if i == 0 {
        StatusEffect::Poisoned
    } else if i == 1 {
        StatusEffect::Burned
    } else if i == 2 {
        StatusEffect::Paralyzed
    } else if i == 3 {
        StatusEffect::Asleep
    } else {
        StatusEffect::Confused
    }
}

/// Applies the `i`-th condition of the random draw to the opponent's active Pokémon.
pub fn apply_status_choice(state: &mut GameState, ctx: &EffectContext, i: usize)
    requires
        ctx.acting_player < 2,
    ensures
        final(state)@ == add_status_at(old(state)@, active_ref(opponent(*ctx)), random_status_choice(i as int)),
{
    let chosen = if i == 0 {
        StatusEffect::Poisoned
    } else if i == 1 {
        StatusEffect::Burned
    } else if i == 2 {
        StatusEffect::Paralyzed
    } else if i == 3 {
        StatusEffect::Asleep
    } else {
        StatusEffect::Confused
    };
    let target = SlotRef::active(1 - ctx.acting_player);
    set_status(state, target, chosen);
}

/// Picks one of Poisoned, Burned, Paralyzed, Asleep, Confused at random and
/// applies it to the opponent's active Pokémon.
pub fn apply_random_status(state: &mut GameState, ctx: &EffectContext)
    requires
        ctx.acting_player < 2,
    ensures
        exists|i: int|
            0 <= i < 5 && final(state)@ == add_status_at(
                old(state)@,
                active_ref(opponent(*ctx)),
                #[trigger] random_status_choice(i),
            ),
{
    let idx = random_index(&mut state.rng, 5);
    apply_status_choice(state, ctx, idx);
}

/// Toxic poison: Poisoned, and the opponent's per-turn poison damage grows by 20.
pub fn toxic_poison(state: &mut GameState, ctx: &EffectContext)
    requires
        ctx.acting_player < 2,
        old(state)@.players[1 - ctx.acting_player].extra_poison_damage + 20 <= i16::MAX,
    ensures
        ({
            let g = add_status_at(old(state)@, active_ref(opponent(*ctx)), StatusEffect::Poisoned);
            let opp = opponent(*ctx);
            final(state)@ == g.with_player(
                opp,
                PlayerView {
                    extra_poison_damage: (g.players[opp].extra_poison_damage + 20) as i16,
                    ..g.players[opp]
                },
            )
        }),
{
    apply_poison(state, ctx);
    let opp = 1 - ctx.acting_player;
    state.players[opp].extra_poison_damage = state.players[opp].extra_poison_damage + 20;
    proof {
        let g = add_status_at(old(state)@, active_ref(opponent(*ctx)), StatusEffect::Poisoned);
        assert(final(state)@.players =~= g.with_player(
            opp as int,
            PlayerView {
                extra_poison_damage: (g.players[opp as int].extra_poison_damage + 20) as i16,
                ..g.players[opp as int]
            },
        ).players);
    }
}

/// Appends `line` to the coin-flip narration.
fn log_line(state: &mut GameState, line: &str)
    ensures
        final(state)@ == old(state)@.log(line@),
{
    let s = line.to_string();
    state.coin_flip_log.push(s);
    proof {
        assert(final(state)@.coin_flip_log =~= old(state)@.coin_flip_log.push(line@));
    }
}

/// What `coin_flip_apply_paralysis` does for a given coin.
pub open spec fn paralysis_on_flip(g: GameView, ctx: EffectContext, heads: bool) -> GameView {
    if heads {
        add_status_at(g.log("🪙 Heads! Opponent is Paralyzed"@), active_ref(opponent(ctx)), StatusEffect::Paralyzed)
    } else {
        g.log("🪙 Tails! No Paralysis"@)
    }
}

/// Flip a coin. On heads, apply Paralyzed to the opponent's active Pokémon.
pub fn coin_flip_apply_paralysis(state: &mut GameState, ctx: &EffectContext)
    requires
        ctx.acting_player < 2,
    ensures
        exists|heads: bool| final(state)@ == #[trigger] paralysis_on_flip(old(state)@, *ctx, heads),
{
    let heads = coin_below_half(&mut state.rng);
    if heads {
        log_line(state, "🪙 Heads! Opponent is Paralyzed");
        apply_paralysis(state, ctx);
    } else {
        log_line(state, "🪙 Tails! No Paralysis");
    }
    assert(final(state)@ == paralysis_on_flip(old(state)@, *ctx, heads));
}

/// What `coin_flip_apply_sleep` does for a given coin.
pub open spec fn sleep_on_flip(g: GameView, ctx: EffectContext, heads: bool) -> GameView {
    if heads {
        add_status_at(g.log("🪙 Heads! Opponent is Asleep"@), active_ref(opponent(ctx)), StatusEffect::Asleep)
    } else {
        g.log("🪙 Tails! No Sleep"@)
    }
}

/// Flip a coin. On heads, apply Asleep to the opponent's active Pokémon.
pub fn coin_flip_apply_sleep(state: &mut GameState, ctx: &EffectContext)
    requires
        ctx.acting_player < 2,
    ensures
        exists|heads: bool| final(state)@ == #[trigger] sleep_on_flip(old(state)@, *ctx, heads),
{
    let heads = coin_below_half(&mut state.rng);
    if heads {
        log_line(state, "🪙 Heads! Opponent is Asleep");
        apply_sleep(state, ctx);
    } else {
        log_line(state, "🪙 Tails! No Sleep");
    }
    assert(final(state)@ == sleep_on_flip(old(state)@, *ctx, heads));
}

/// `s` unable to attack during its next turn.
pub open spec fn blocked(s: PokemonSlot) -> PokemonSlot {
    PokemonSlot { cant_attack_next_turn: true, ..s }
}

/// What `coin_flip_attack_block_next_turn` does for a given coin.
pub open spec fn attack_block_on_flip(g: GameView, ctx: EffectContext, heads: bool) -> GameView {
    if heads {
        g.log("🪙 Heads! Opponent can't attack next turn"@).map_slot(active_ref(opponent(ctx)), |s: PokemonSlot| blocked(s))
    } else {
        g.log("🪙 Tails! No effect"@)
    }
}

/// Sets `cant_attack_next_turn` on the active Pokémon of player `p`, if there is one.
fn block_active(state: &mut GameState, p: usize)
    requires
        p < 2,
    ensures
        final(state)@ == old(state)@.map_slot(active_ref(p as int), |s: PokemonSlot| blocked(s)),
{
    let r = SlotRef::active(p);
    match read_slot(state, r) {
        Some(s) => {
            let mut s2 = s;
            s2.cant_attack_next_turn = true;
            write_slot(state, r, Some(s2));
        },
        None => {},
    }
}

/// Flip a coin. On heads, the opponent's active Pokémon can't attack during
/// the opponent's next turn.
pub fn coin_flip_attack_block_next_turn(state: &mut GameState, ctx: &EffectContext)
    requires
        ctx.acting_player < 2,
    ensures
        exists|heads: bool| final(state)@ == #[trigger] attack_block_on_flip(old(state)@, *ctx, heads),
{
    let heads = coin_below_half(&mut state.rng);
    if heads {
        log_line(state, "🪙 Heads! Opponent can't attack next turn");
        block_active(state, 1 - ctx.acting_player);
    } else {
        log_line(state, "🪙 Tails! No effect");
    }
    assert(final(state)@ == attack_block_on_flip(old(state)@, *ctx, heads));
}

/// What `coin_flip_self_cant_attack_next_turn` does for a given coin.
pub open spec fn self_block_on_flip(g: GameView, ctx: EffectContext, heads: bool) -> GameView {
    if heads {
        g.map_slot(active_ref(ctx.acting_player as int), |s: PokemonSlot| blocked(s))
    } else {
        g
    }
}

/// What the self-blocking coin does once flipped: on heads the acting
/// player's own active Pokémon can't attack next turn; on tails nothing
/// happens.
pub fn self_block_on_flip_result(state: &mut GameState, ctx: &EffectContext, heads: bool)
    requires
        ctx.acting_player < 2,
    ensures
        final(state)@ == self_block_on_flip(old(state)@, *ctx, heads),
{
    if heads {
        block_active(state, ctx.acting_player);
    }
}

/// Flip a coin. On heads, the acting player's own active Pokémon can't attack
/// next turn.
pub fn coin_flip_self_cant_attack_next_turn(state: &mut GameState, ctx: &EffectContext)
    requires
        ctx.acting_player < 2,
    ensures
        exists|heads: bool| final(state)@ == #[trigger] self_block_on_flip(old(state)@, *ctx, heads),
{
    let heads = coin_below_half(&mut state.rng);
    self_block_on_flip_result(state, ctx, heads);
    assert(final(state)@ == self_block_on_flip(old(state)@, *ctx, heads));
}

}
