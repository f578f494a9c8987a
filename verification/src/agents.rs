//! How the computer players size up a position: what the opponent can hit
//! for, whether the active Pokémon should leave, what an attack is likely
//! to deal, and the choice of the random player.
use vstd::prelude::*;
use crate::actions::Action;
use crate::card::{Attack, Card, CardDb};
use crate::rng::{random_index, rng_from_seed};
use crate::constants::{WEAKNESS_BONUS, is_weak_to, weak_to};
use crate::state::{GameState, GameView, PokemonSlot};
use crate::effects::EffectKind;
use crate::text::{parse_usize, parse_usize_chars, sub_chars, to_chars};
use crate::types::{ActionKind, Element, Stage, StatusEffect};

verus! {

/// Every Pokémon on the board is a card of the database.
pub open spec fn pokemon_known(g: GameView, db: CardDb) -> bool {
    &&& forall|p: int, i: int|
        0 <= p < 2 && 0 <= i < g.players[p].bench.len() ==> (#[trigger] g.players[p].bench[i] matches Some(s) ==> (s.card_idx as int)
            < db.cards@.len())
    &&& forall|p: int| 0 <= p < 2 ==> (#[trigger] g.players[p].active matches Some(s) ==> (s.card_idx as int) < db.cards@.len())
}

/// The highest base damage among `atks` (0 when there is none).
pub open spec fn best_damage(atks: Seq<Attack>) -> int
    decreases atks.len(),
{
    if atks.len() == 0 {
        0
    } else if atks.len() == 1 {
        atks[0].damage as int
    } else {
        let prev = best_damage(atks.drop_last());
        if atks.last().damage > prev {
            atks.last().damage as int
        } else {
            prev
        }
    }
}

/// The highest base damage of the card's attacks (0 when it has none).
fn best_attack_damage(card: &Card) -> (r: i16)
    ensures
        r == best_damage(card.attacks@),
{
    let mut best: i16 = 0;
    let mut i: usize = 0;
    while i < card.attacks.len()
        invariant
            i <= card.attacks@.len(),
            best == best_damage(card.attacks@.subrange(0, i as int)),
        decreases card.attacks.len() - i,
    {
        proof {
            let s = card.attacks@.subrange(0, i + 1);
            assert(s.drop_last() =~= card.attacks@.subrange(0, i as int));
        }
        let d = card.attacks[i].damage;
        if i == 0 || d > best {
            best = d;
        }
        i = i + 1;
    }
    assert(card.attacks@.subrange(0, card.attacks@.len() as int) =~= card.attacks@);
    best
}

/// 1 for a Pokémon whose card is a Basic Pokémon of the database, else 0.
pub open spec fn basic_in(db: CardDb, o: Option<PokemonSlot>) -> int {
    match o {
        Some(s) => match db.card(s.card_idx) {
            Some(c) => if c.stage == Some(Stage::Basic) { 1 } else { 0 },
            None => 0,
        },
        None => 0,
    }
}

/// How many of `slots` hold a Basic Pokémon.
pub open spec fn basics_among(db: CardDb, slots: Seq<Option<PokemonSlot>>) -> int
    decreases slots.len(),
{
    if slots.len() == 0 {
        0
    } else {
        basics_among(db, slots.drop_last()) + basic_in(db, slots.last())
    }
}

/// How many Basic Pokémon player `p` has in play (active and bench).
pub open spec fn basics_in_play(g: GameView, db: CardDb, p: int) -> int {
    basic_in(db, g.players[p].active) + basics_among(db, g.players[p].bench)
}

fn is_basic_at(db: &CardDb, o: &Option<PokemonSlot>) -> (r: bool)
    ensures
        r == (basic_in(*db, *o) == 1),
{
    match o {
        Some(s) => match db.try_get_by_idx(s.card_idx) {
            Some(c) => match c.stage {
                Some(Stage::Basic) => true,
                _ => false,
            },
            None => false,
        },
        None => false,
    }
}

/// Counts player `player_idx`'s Basic Pokémon in play, active and bench
/// (cards the database does not hold count for nothing).
pub fn count_basics_in_play(state: &GameState, db: &CardDb, player_idx: usize) -> (r: usize)
    requires
        player_idx < 2,
    ensures
        r == basics_in_play(state@, *db, player_idx as int),
{
    let p = &state.players[player_idx];
    assert(state@.players[player_idx as int] == p@);
    let mut n: usize = 0;
    if is_basic_at(db, &p.active) {
        n = n + 1;
    }
    let mut i: usize = 0;
    while i < 3
        invariant
            i <= 3,
            p.bench@.len() == 3,
            n == basic_in(*db, p.active) + basics_among(*db, p.bench@.subrange(0, i as int)),
            n <= 1 + i,
        decreases 3 - i,
    {
        proof {
            let s = p.bench@.subrange(0, i + 1);
            assert(s.drop_last() =~= p.bench@.subrange(0, i as int));
        }
        if is_basic_at(db, &p.bench[i]) {
            n = n + 1;
        }
        i = i + 1;
    }
    assert(p.bench@.subrange(0, 3) =~= p.bench@);
    n
}

/// The most the opponent's active Pokémon can hit `slot` for with its
/// strongest attack next turn: base damage plus weakness, less the slot's
/// damage reduction, never below 0 (0 when the opponent has no active
/// Pokémon).
pub open spec fn expected_hit(g: GameView, db: CardDb, p: int, slot: PokemonSlot) -> int {
    match g.players[1 - p].active {
        None => 0,
        Some(o) => {
            let v = expected_hit_raw(g, db, p, slot) - slot.incoming_damage_reduction;
            if v < 0 { 0 } else { v }
        },
    }
}

/// The opponent's strongest base damage with weakness against `slot`.
pub open spec fn expected_hit_raw(g: GameView, db: CardDb, p: int, slot: PokemonSlot) -> int {
    let oc = db.cards@[g.players[1 - p].active->0.card_idx as int];
    let sc = db.cards@[slot.card_idx as int];
    best_damage(oc.attacks@) + if weak_to(sc.weakness, oc.element) { 20int } else { 0int }
}

/// Every step of `expected_hit` fits in an `i16`.
pub open spec fn expected_hit_fits(g: GameView, db: CardDb, p: int, slot: PokemonSlot) -> bool {
    &&& expected_hit_raw(g, db, p, slot) <= i16::MAX
    &&& i16::MIN <= expected_hit_raw(g, db, p, slot) - slot.incoming_damage_reduction <= i16::MAX
}

/// What the opponent's active Pokémon can be expected to hit `slot` for
/// next turn.
pub fn opponent_expected_damage_to(state: &GameState, db: &CardDb, player_idx: usize, slot: &PokemonSlot) -> (r: i16)
    requires
        player_idx < 2,
        state@.players[1 - player_idx].active matches Some(o) ==> {
            &&& (o.card_idx as int) < db.cards@.len()
            &&& (slot.card_idx as int) < db.cards@.len()
            &&& expected_hit_fits(state@, *db, player_idx as int, *slot)
        },
    ensures
        r == expected_hit(state@, *db, player_idx as int, *slot),
{
    let opp_idx = 1 - player_idx;
    let opp_active = match &state.players[opp_idx].active {
        Some(s) => s,
        None => {
            return 0;
        },
    };
    assert(state@.players[opp_idx as int].active == Some(*opp_active));
    let opp_card = db.get_by_idx(opp_active.card_idx);
    let slot_card = db.get_by_idx(slot.card_idx);
    let raw = best_attack_damage(opp_card);
    let with_weak = if is_weak_to(slot_card.weakness, opp_card.element) {
        raw + WEAKNESS_BONUS
    } else {
        raw
    };
    let v = with_weak - slot.incoming_damage_reduction as i16;
    if v < 0 {
        0
    } else {
        v
    }
}

/// The position of the attack with the highest base damage (the last of
/// several equal ones); 0 for fewer than two attacks.
pub open spec fn top_attack(atks: Seq<Attack>) -> int
    decreases atks.len(),
{
    if atks.len() <= 1 {
        0
    } else {
        let k = top_attack(atks.drop_last());
        if atks.last().damage >= atks[k].damage {
            atks.len() - 1
        } else {
            k
        }
    }
}

/// How many energy the strongest attack costs, as a byte (0 without attacks).
pub open spec fn top_attack_cost(atks: Seq<Attack>) -> int {
    if atks.len() == 0 {
        0
    } else {
        (atks[top_attack(atks)].cost@.len() as u8) as int
    }
}

/// The Pokémon in `o` has energy enough for its strongest attack, and that
/// attack costs something.
pub open spec fn ready_attacker(db: CardDb, o: Option<PokemonSlot>) -> bool {
    match o {
        Some(b) => {
            let cost = top_attack_cost(db.cards@[b.card_idx as int].attacks@);
            cost > 0 && b.energy_count() >= cost
        },
        None => false,
    }
}

/// The opponent's active Pokémon can knock out player `p`'s active one with
/// its strongest attack (weakness counted).
pub open spec fn threatened(g: GameView, db: CardDb, p: int) -> bool {
    match g.players[1 - p].active {
        Some(o) => {
            let a = g.players[p].active->0;
            let oc = db.cards@[o.card_idx as int];
            let ac = db.cards@[a.card_idx as int];
            a.current_hp <= best_damage(oc.attacks@) + if weak_to(ac.weakness, oc.element) { 20int } else { 0int }
        },
        None => false,
    }
}

/// Player `p`'s active Pokémon is threatened and a benched one is ready to
/// attack.
pub open spec fn retreat_advised(g: GameView, db: CardDb, p: int) -> bool {
    &&& g.players[p].active is Some
    &&& threatened(g, db, p)
    &&& exists|i: int| 0 <= i < g.players[p].bench.len() && ready_attacker(db, #[trigger] g.players[p].bench[i])
}

/// Whether the opponent's strongest attack, with weakness, fits in an `i16`.
pub open spec fn threat_fits(g: GameView, db: CardDb, p: int) -> bool {
    match (g.players[p].active, g.players[1 - p].active) {
        (Some(a), Some(o)) => best_damage(db.cards@[o.card_idx as int].attacks@) + 20 <= i16::MAX,
        _ => true,
    }
}

/// The energy cost of the strongest of the card's attacks, as a byte.
fn top_cost_of(card: &Card) -> (r: u8)
    ensures
        r == top_attack_cost(card.attacks@),
{
    let n = card.attacks.len();
    if n == 0 {
        return 0;
    }
    let mut k: usize = 0;
    let mut i: usize = 1;
    while i < n
        invariant
            1 <= i <= n,
            n == card.attacks@.len(),
            k == top_attack(card.attacks@.subrange(0, i as int)),
            k < i,
        decreases n - i,
    {
        proof {
            let s = card.attacks@.subrange(0, i + 1);
            assert(s.drop_last() =~= card.attacks@.subrange(0, i as int));
        }
        if card.attacks[i].damage >= card.attacks[k].damage {
            k = i;
        }
        i = i + 1;
    }
    assert(card.attacks@.subrange(0, n as int) =~= card.attacks@);
    #[verifier::truncate]
    (card.attacks[k].cost.len() as u8)
}

fn ready_at(db: &CardDb, o: &Option<PokemonSlot>) -> (r: bool)
    requires
        o matches Some(b) ==> (b.card_idx as int) < db.cards@.len(),
    ensures
        r == ready_attacker(*db, *o),
{
    match o {
        Some(b) => {
            let c = db.get_by_idx(b.card_idx);
            let cost = top_cost_of(c);
            cost > 0 && b.total_energy() >= cost
        },
        None => false,
    }
}

/// Whether player `player_idx` should pull back the active Pokémon: the
/// opponent's strongest attack (with weakness) would knock it out, and a
/// benched Pokémon has the energy for its own strongest attack.
pub fn should_retreat_now(state: &GameState, db: &CardDb, player_idx: usize) -> (r: bool)
    requires
        player_idx < 2,
        pokemon_known(state@, *db),
        threat_fits(state@, *db, player_idx as int),
    ensures
        r == retreat_advised(state@, *db, player_idx as int),
{
    let player = &state.players[player_idx];
    assert(state@.players[player_idx as int] == player@);
    let active = match &player.active {
        Some(s) => s,
        None => {
            return false;
        },
    };
    let active_card = db.get_by_idx(active.card_idx);
    let opp_idx = 1 - player_idx;
    assert(state@.players[opp_idx as int] == state.players[opp_idx as int]@);
    let under_threat = match &state.players[opp_idx].active {
        Some(opp) => {
            let opp_card = db.get_by_idx(opp.card_idx);
            let opp_dmg = best_attack_damage(opp_card);
            let with_weak = if is_weak_to(active_card.weakness, opp_card.element) {
                opp_dmg + WEAKNESS_BONUS
            } else {
                opp_dmg
            };
            active.current_hp <= with_weak
        },
        None => false,
    };
    let mut bench_ready = false;
    let mut i: usize = 0;
    while i < 3
        invariant
            i <= 3,
            player.bench@.len() == 3,
            player_idx < 2,
            state@.players[player_idx as int] == player@,
            pokemon_known(state@, *db),
            bench_ready == exists|j: int| 0 <= j < i && ready_attacker(*db, #[trigger] player.bench@[j]),
        decreases 3 - i,
    {
        assert(player@.bench[i as int] == player.bench@[i as int]);
        if ready_at(db, &player.bench[i]) {
            bench_ready = true;
        }
        i = i + 1;
    }
    assert(state@.players[player_idx as int].bench == player.bench@);
    assert(under_threat == threatened(state@, *db, player_idx as int));
    under_threat && bench_ready
}

/// The seed of the random player's choice: the turn, the player, whose
/// turn it is, the sizes of both players' hands, decks and discard piles
/// and the number of choices, each shifted to its own byte and combined
/// by exclusive or.
pub open spec fn decision_seed(g: GameView, p: int, n: int) -> u64 {
    let p0 = g.players[0];
    let p1 = g.players[1];
    (g.turn_number as u64) ^ (p as u64).wrapping_mul(0x9E37_79B9_7F4A_7C15u64) ^ ((g.current_player as u64) << 1u64) ^ ((
    p0.hand.len() as u64) << 8u64) ^ ((p1.hand.len() as u64) << 16u64) ^ ((p0.deck.len() as u64) << 24u64) ^ ((p1.deck.len() as u64)
        << 32u64) ^ ((p0.discard.len() as u64) << 40u64) ^ ((p1.discard.len() as u64) << 48u64) ^ ((n as u64) << 56u64)
}

/// The player that picks one of the legal actions at random.
pub struct RandomAgent;

impl RandomAgent {
    /// The seed its choice is drawn from.  The game state is only read, so
    /// the seed mixes in everything that changes as the player acts.
    pub fn decision_seed(&self, state: &GameState, player_idx: usize, n_actions: usize) -> (r: u64)
        ensures
            r == decision_seed(state@, player_idx as int, n_actions as int),
    {
        let p0 = &state.players[0];
        let p1 = &state.players[1];
        assert(state@.players[0] == p0@ && state@.players[1] == p1@);
        (state.turn_number as u64) ^ (player_idx as u64).wrapping_mul(0x9E37_79B9_7F4A_7C15u64) ^ ((state.current_player as u64)
            << 1u64) ^ ((p0.hand.len() as u64) << 8u64) ^ ((p1.hand.len() as u64) << 16u64) ^ ((p0.deck.len() as u64) << 24u64) ^ ((
        p1.deck.len() as u64) << 32u64) ^ ((p0.discard.len() as u64) << 40u64) ^ ((p1.discard.len() as u64) << 48u64) ^ ((
        n_actions as u64) << 56u64)
    }

    /// Picks one of the legal `actions` with a generator seeded from the
    /// state; ends the turn when there is none.
    pub fn select_action(&self, state: &GameState, player_idx: usize, actions: &[Action]) -> (r: Action)
        ensures
            actions@.len() == 0 ==> r == Action::of(ActionKind::EndTurn, None, None, None, None, None),
            actions@.len() > 0 ==> actions@.contains(r),
    {
        if actions.len() == 0 {
            return Action::end_turn();
        }
        let seed = self.decision_seed(state, player_idx, actions.len());
        let mut rng = rng_from_seed(seed);
        let i = random_index(&mut rng, actions.len());
        let r = actions[i].duplicate();
        assert(actions@[i as int] == r);
        r
    }
}

/// The player that scores the legal actions and plays the best one.
pub struct HeuristicAgent;

impl HeuristicAgent {
    /// The choice while filling the bench at setup from the legal `opts`:
    /// always place a Pokémon when one can be placed (the first such
    /// option), and end the setup when only ending it is left.
    pub fn select_bench_placement(&self, opts: &[Action]) -> (r: Action)
        ensures
            opts@.len() <= 1 ==> r == Action::of(ActionKind::EndTurn, None, None, None, None, None),
            opts@.len() > 1 ==> match first_placement(opts@) {
                Some(i) => r == opts@[i],
                None => r == Action::of(ActionKind::EndTurn, None, None, None, None, None),
            },
    {
        if opts.len() <= 1 {
            return Action::end_turn();
        }
        let mut i: usize = 0;
        while i < opts.len()
            invariant
                1 < opts@.len(),
                i <= opts@.len(),
                forall|j: int| 0 <= j < i ==> (#[trigger] opts@[j]).kind == ActionKind::EndTurn,
            decreases opts.len() - i,
        {
            if opts[i].kind != ActionKind::EndTurn {
                proof {
                    lemma_first_placement(opts@, i as int);
                }
                return opts[i].duplicate();
            }
            i = i + 1;
        }
        proof {
            lemma_no_placement(opts@);
        }
        Action::end_turn()
    }
}

/// The position of the first option that does not end the turn.
pub open spec fn first_placement(opts: Seq<Action>) -> Option<int>
    decreases opts.len(),
{
    if opts.len() == 0 {
        None
    } else {
        match first_placement(opts.drop_last()) {
            Some(i) => Some(i),
            None => if opts.last().kind != ActionKind::EndTurn { Some(opts.len() - 1) } else { None },
        }
    }
}

proof fn lemma_first_placement(opts: Seq<Action>, i: int)
    requires
        0 <= i < opts.len(),
        opts[i].kind != ActionKind::EndTurn,
        forall|j: int| 0 <= j < i ==> (#[trigger] opts[j]).kind == ActionKind::EndTurn,
    ensures
        first_placement(opts) == Some(i),
    decreases opts.len(),
{
    if i < opts.len() - 1 {
        lemma_first_placement(opts.drop_last(), i);
    } else {
        lemma_no_placement(opts.drop_last());
    }
}

proof fn lemma_no_placement(opts: Seq<Action>)
    requires
        forall|j: int| 0 <= j < opts.len() ==> (#[trigger] opts[j]).kind == ActionKind::EndTurn,
    ensures
        first_placement(opts) is None,
    decreases opts.len(),
{
    if opts.len() > 0 {
        lemma_no_placement(opts.drop_last());
    }
}

/// `x / 2` rounded toward zero, as integer division does.
pub open spec fn half_toward_zero(x: int) -> int {
    if x >= 0 { x / 2 } else { -((-x) / 2) }
}

/// `x` held to the range of an `i16`.
pub open spec fn clamp_i16(x: int) -> int {
    if x < i16::MIN { i16::MIN as int } else if x > i16::MAX { i16::MAX as int } else { x }
}

/// A Pokémon of `bench` has taken damage.
pub open spec fn bench_damaged(bench: Seq<Option<PokemonSlot>>) -> bool {
    exists|i: int| 0 <= i < bench.len() && (#[trigger] bench[i] matches Some(s) && s.current_hp < s.max_hp)
}

/// The energy on `a` that a bonus counts: all of it for an empty type
/// name, that of the named type otherwise (none for an unknown name).
pub open spec fn counted_energy(a: PokemonSlot, energy_type: Seq<char>) -> int {
    if energy_type.len() == 0 {
        a.energy_count()
    } else {
        match Element::parse(energy_type) {
            Some(el) => a.energy@[el.index()] as int,
            None => 0,
        }
    }
}

/// The attacking and defending active Pokémon of an estimate.
pub open spec fn attacker(g: GameView, p: int) -> PokemonSlot {
    g.players[p].active->0
}

pub open spec fn defender(g: GameView, p: int) -> PokemonSlot {
    g.players[1 - p].active->0
}

/// The estimate after one effect of the attack, from `dmg` before it:
/// a spread of hits counts in full, bench hits and copied attacks take the
/// damage aura, a damage-per-energy coin attack counts half its energy
/// (rounded toward zero and held to an `i16`), an all-or-nothing coin
/// halves the damage, a bonus coin adds half the bonus, and conditional
/// bonuses add when their condition holds.
pub open spec fn est_effect(g: GameView, db: CardDb, p: int, e: EffectKind, dmg: int) -> int {
    let a = attacker(g, p);
    let o = defender(g, p);
    let aura = g.players[p].attack_damage_bonus as int;
    match e {
        EffectKind::RandomMultiHit { count, amount } => count * amount,
        EffectKind::BenchHitOpponent { amount } => amount + aura,
        EffectKind::MultiCoinPerEnergyDamage { per } => clamp_i16(half_toward_zero(a.energy_count() * per)),
        EffectKind::CoinFlipNothing => half_toward_zero(dmg),
        EffectKind::CoinFlipBonusDamage { amount } => dmg + half_toward_zero(amount as int),
        EffectKind::CopyOpponentAttack => best_damage(db.cards@[o.card_idx as int].attacks@) + aura,
        EffectKind::BonusIfBenchDamaged { bonus } => if bench_damaged(g.players[p].bench) { dmg + bonus } else { dmg },
        EffectKind::BonusIfExtraEnergy { threshold, bonus, energy_type } => if counted_energy(a, energy_type@) >= threshold {
            dmg + bonus
        } else {
            dmg
        },
        EffectKind::BonusIfOpponentPoisoned { bonus } => if o.status_has(StatusEffect::Poisoned) { dmg + bonus } else { dmg },
        EffectKind::BonusIfOpponentHasStatus { bonus } => if o.status != 0 { dmg + bonus } else { dmg },
        _ => dmg,
    }
}

/// The effect's step stays within an `i16`.
pub open spec fn est_effect_fits(g: GameView, db: CardDb, p: int, e: EffectKind, dmg: int) -> bool {
    let aura = g.players[p].attack_damage_bonus as int;
    match e {
        EffectKind::RandomMultiHit { count, amount } => i16::MIN <= count * amount <= i16::MAX,
        EffectKind::BenchHitOpponent { amount } => i16::MIN <= amount + aura <= i16::MAX,
        EffectKind::CopyOpponentAttack => i16::MIN <= best_damage(db.cards@[defender(g, p).card_idx as int].attacks@) + aura
            <= i16::MAX,
        _ => i16::MIN <= est_effect(g, db, p, e, dmg) <= i16::MAX,
    }
}

/// The estimate before the attack's effects: base damage, the damage
/// aura and weakness, less the defender's damage reduction, never below 0.
pub open spec fn est_base(g: GameView, db: CardDb, p: int, ai: int) -> int {
    let v = est_raw(g, db, p, ai) - defender(g, p).incoming_damage_reduction;
    if v < 0 { 0 } else { v }
}

pub open spec fn est_raw(g: GameView, db: CardDb, p: int, ai: int) -> int {
    let card = db.cards@[attacker(g, p).card_idx as int];
    let oc = db.cards@[defender(g, p).card_idx as int];
    card.attacks@[ai].damage + g.players[p].attack_damage_bonus + if weak_to(oc.weakness, card.element) { 20int } else { 0int }
}

/// The estimate after the first `k` effects of attack `ai`.
pub open spec fn est_upto(g: GameView, db: CardDb, p: int, ai: int, k: int) -> int
    decreases k,
{
    if k <= 0 {
        est_base(g, db, p, ai)
    } else {
        let effects = db.cards@[attacker(g, p).card_idx as int].attacks@[ai].effects@;
        est_effect(g, db, p, effects[k - 1], est_upto(g, db, p, ai, k - 1))
    }
}

/// Every step of the estimate of attack `ai` stays within an `i16`.
pub open spec fn est_fits(g: GameView, db: CardDb, p: int, ai: int) -> bool {
    let card = db.cards@[attacker(g, p).card_idx as int];
    let effects = card.attacks@[ai].effects@;
    &&& i16::MIN <= card.attacks@[ai].damage + g.players[p].attack_damage_bonus <= i16::MAX
    &&& i16::MIN <= est_raw(g, db, p, ai) <= i16::MAX
    &&& i16::MIN <= est_raw(g, db, p, ai) - defender(g, p).incoming_damage_reduction <= i16::MAX
    &&& forall|k: int| 0 <= k < effects.len() ==> est_effect_fits(g, db, p, #[trigger] effects[k], est_upto(g, db, p, ai, k))
}

/// The estimate reaches the attack's effects: both active Pokémon are
/// there, the attack exists and its cost can be paid.
pub open spec fn est_applies(g: GameView, db: CardDb, p: int, ai: int, can_pay: bool) -> bool {
    &&& g.players[p].active is Some
    &&& g.players[1 - p].active is Some
    &&& ai < db.cards@[attacker(g, p).card_idx as int].attacks@.len()
    &&& can_pay
}

/// The damage player `p`'s active Pokémon can be expected to deal with its
/// attack `ai` (0 when it cannot attack with it).
pub open spec fn estimated_damage(g: GameView, db: CardDb, p: int, ai: int, can_pay: bool) -> int {
    if est_applies(g, db, p, ai, can_pay) {
        est_upto(g, db, p, ai, db.cards@[attacker(g, p).card_idx as int].attacks@[ai].effects@.len() as int)
    } else {
        0
    }
}

/// What the estimate needs of the state: the active Pokémon are cards of
/// the database, and each step fits in an `i16` where the estimate is made.
pub open spec fn est_ok(g: GameView, db: CardDb, p: int, ai: int, can_pay: bool) -> bool {
    &&& 0 <= p < 2
    &&& g.players[p].active matches Some(a) ==> (a.card_idx as int) < db.cards@.len()
    &&& g.players[1 - p].active matches Some(o) ==> (o.card_idx as int) < db.cards@.len()
    &&& est_applies(g, db, p, ai, can_pay) ==> est_fits(g, db, p, ai)
}

fn bench_has_damage(bench: &[Option<PokemonSlot>; 3]) -> (r: bool)
    ensures
        r == bench_damaged(bench@),
{
    let mut i: usize = 0;
    while i < 3
        invariant
            i <= 3,
            bench@.len() == 3,
            forall|j: int| 0 <= j < i ==> !(#[trigger] bench@[j] matches Some(s) && s.current_hp < s.max_hp),
        decreases 3 - i,
    {
        match &bench[i] {
            Some(s) => {
                if s.current_hp < s.max_hp {
                    assert(bench@[i as int] matches Some(x) && x.current_hp < x.max_hp);
                    return true;
                }
            },
            None => {},
        }
        i = i + 1;
    }
    false
}

fn energy_counted(a: &PokemonSlot, energy_type: &str) -> (r: i16)
    ensures
        r == counted_energy(*a, energy_type@),
{
    if energy_type.unicode_len() == 0 {
        a.total_energy() as i16
    } else {
        match Element::from_str(energy_type) {
            Some(el) => a.energy[el.idx()] as i16,
            None => 0,
        }
    }
}

/// One step of the estimate: `dmg` after `effect`.
fn est_effect_step(state: &GameState, db: &CardDb, player_idx: usize, effect: &EffectKind, dmg: i16) -> (r: i16)
    requires
        player_idx < 2,
        state@.players[player_idx as int].active is Some,
        state@.players[1 - player_idx].active matches Some(o) && (o.card_idx as int) < db.cards@.len(),
        est_effect_fits(state@, *db, player_idx as int, *effect, dmg as int),
    ensures
        r == est_effect(state@, *db, player_idx as int, *effect, dmg as int),
{
    let player = &state.players[player_idx];
    assert(state@.players[player_idx as int] == player@);
    assert(state@.players[1 - player_idx] == state.players[1 - player_idx as int]@);
    let active = match &player.active {
        Some(s) => s,
        None => {
            return dmg;
        },
    };
    let opp_active = match &state.players[1 - player_idx].active {
        Some(s) => s,
        None => {
            return dmg;
        },
    };
    let aura = player.attack_damage_bonus as i16;
    match effect {
        EffectKind::RandomMultiHit { count, amount } => (*count as i16) * *amount,
        EffectKind::BenchHitOpponent { amount } => *amount + aura,
        EffectKind::MultiCoinPerEnergyDamage { per } => {
            let e: i32 = active.total_energy() as i32;
            let q: i32 = *per as i32;
            assert(-10_000_000 <= e * q <= 10_000_000) by (nonlinear_arith)
                requires
                    0 <= e <= 255,
                    -32768 <= q <= 32767,
            ;
            let x: i32 = e * q;
            let h: i32 = x / 2;
            if h < -32768 {
                -32768
            } else if h > 32767 {
                32767
            } else {
                h as i16
            }
        },
        EffectKind::CoinFlipNothing => dmg / 2,
        EffectKind::CoinFlipBonusDamage { amount } => dmg + *amount / 2,
        EffectKind::CopyOpponentAttack => {
            let opp_card = db.get_by_idx(opp_active.card_idx);
            best_attack_damage(opp_card) + aura
        },
        EffectKind::BonusIfBenchDamaged { bonus } => {
            if bench_has_damage(&player.bench) {
                dmg + *bonus
            } else {
                dmg
            }
        },
        EffectKind::BonusIfExtraEnergy { threshold, bonus, energy_type } => {
            if energy_counted(active, energy_type.as_str()) >= *threshold {
                dmg + *bonus
            } else {
                dmg
            }
        },
        EffectKind::BonusIfOpponentPoisoned { bonus } => {
            if opp_active.has_status(StatusEffect::Poisoned) {
                dmg + *bonus
            } else {
                dmg
            }
        },
        EffectKind::BonusIfOpponentHasStatus { bonus } => {
            if opp_active.has_any_status() {
                dmg + *bonus
            } else {
                dmg
            }
        },
        _ => dmg,
    }
}

/// The damage player `player_idx`'s active Pokémon can be expected to deal
/// with its attack `attack_index`: base damage, damage aura and weakness,
/// less the defender's reduction (never below 0), then adjusted by each of
/// the attack's effects in turn (see `est_effect`).  0 when either active
/// Pokémon is missing, the attack does not exist, or its cost cannot be
/// paid; `can_pay` is the game's verdict on that cost.
pub fn estimate_damage(state: &GameState, db: &CardDb, player_idx: usize, attack_index: usize, can_pay: bool) -> (r: i16)
    requires
        est_ok(state@, *db, player_idx as int, attack_index as int, can_pay),
    ensures
        r == estimated_damage(state@, *db, player_idx as int, attack_index as int, can_pay),
{
    let player = &state.players[player_idx];
    assert(state@.players[player_idx as int] == player@);
    assert(state@.players[1 - player_idx] == state.players[1 - player_idx as int]@);
    let active = match &player.active {
        Some(s) => s,
        None => {
            return 0;
        },
    };
    let card = db.get_by_idx(active.card_idx);
    let opp = 1 - player_idx;
    let opp_active = match &state.players[opp].active {
        Some(s) => s,
        None => {
            return 0;
        },
    };
    let opp_card = db.get_by_idx(opp_active.card_idx);
    if attack_index >= card.attacks.len() {
        return 0;
    }
    let attack = &card.attacks[attack_index];
    if !can_pay {
        return 0;
    }
    let mut dmg = attack.damage;
    dmg = dmg + player.attack_damage_bonus as i16;
    if is_weak_to(opp_card.weakness, card.element) {
        dmg = dmg + WEAKNESS_BONUS;
    }
    let v = dmg - opp_active.incoming_damage_reduction as i16;
    dmg = if v < 0 {
        0
    } else {
        v
    };
    let ghost g = state@;
    let ghost p = player_idx as int;
    let ghost ai = attack_index as int;
    let mut k: usize = 0;
    while k < attack.effects.len()
        invariant
            k <= attack.effects@.len(),
            g == state@,
            p == player_idx as int,
            ai == attack_index as int,
            player_idx < 2,
            est_ok(g, *db, p, ai, can_pay),
            est_applies(g, *db, p, ai, can_pay),
            *attack == db.cards@[attacker(g, p).card_idx as int].attacks@[ai],
            dmg == est_upto(g, *db, p, ai, k as int),
        decreases attack.effects.len() - k,
    {
        dmg = est_effect_step(state, db, player_idx, &attack.effects[k], dmg);
        k = k + 1;
    }
    dmg
}

/// The best estimate among the first `n` attacks of the active Pokémon
/// (0 when `n` is 0); `payable[i]` says whether attack `i` can be paid.
pub open spec fn best_estimate(g: GameView, db: CardDb, p: int, payable: Seq<bool>, n: int) -> int
    decreases n,
{
    if n <= 0 {
        0
    } else if n == 1 {
        estimated_damage(g, db, p, 0, payable[0])
    } else {
        let prev = best_estimate(g, db, p, payable, n - 1);
        let cur = estimated_damage(g, db, p, n - 1, payable[n - 1]);
        if cur > prev { cur } else { prev }
    }
}

/// One effect's part in the damage an attack would deal once one more
/// energy is attached: a copied attack takes the opponent's best damage
/// and the aura, a bench hit counts its amount when nothing else does, a
/// spread of hits counts in full.
pub open spec fn gain_effect(g: GameView, db: CardDb, p: int, e: EffectKind, dmg: int) -> int {
    match e {
        EffectKind::CopyOpponentAttack => best_damage(db.cards@[defender(g, p).card_idx as int].attacks@)
            + g.players[p].attack_damage_bonus,
        EffectKind::BenchHitOpponent { amount } => if dmg == 0 { amount as int } else { dmg },
        EffectKind::RandomMultiHit { count, amount } => count * amount,
        _ => dmg,
    }
}

/// The base part of that damage: base damage, aura and weakness, less
/// the defender's reduction, never below 0.
pub open spec fn gain_base(g: GameView, db: CardDb, p: int, atk: Attack) -> int {
    let card = db.cards@[attacker(g, p).card_idx as int];
    let oc = db.cards@[defender(g, p).card_idx as int];
    let raw = atk.damage + g.players[p].attack_damage_bonus + if weak_to(oc.weakness, card.element) { 20int } else { 0int };
    let v = raw - defender(g, p).incoming_damage_reduction;
    if v < 0 { 0 } else { v }
}

/// That damage after the first `k` effects of `atk`.
pub open spec fn gain_upto(g: GameView, db: CardDb, p: int, atk: Attack, k: int) -> int
    decreases k,
{
    if k <= 0 {
        gain_base(g, db, p, atk)
    } else {
        gain_effect(g, db, p, atk.effects@[k - 1], gain_upto(g, db, p, atk, k - 1))
    }
}

/// Every step of that damage for `atk` stays within an `i16`.
pub open spec fn gain_fits(g: GameView, db: CardDb, p: int, atk: Attack) -> bool {
    let card = db.cards@[attacker(g, p).card_idx as int];
    let oc = db.cards@[defender(g, p).card_idx as int];
    let aura = g.players[p].attack_damage_bonus as int;
    let raw = atk.damage + aura + if weak_to(oc.weakness, card.element) { 20int } else { 0int };
    &&& i16::MIN <= atk.damage + aura <= i16::MAX
    &&& i16::MIN <= raw <= i16::MAX
    &&& i16::MIN <= raw - defender(g, p).incoming_damage_reduction <= i16::MAX
    &&& forall|k: int|
        0 <= k < atk.effects@.len() ==> i16::MIN <= #[trigger] gain_upto(g, db, p, atk, k + 1) <= i16::MAX
}

/// The attack costs exactly one energy more than player `p`'s active
/// Pokémon has.
pub open spec fn one_energy_short(g: GameView, p: int, atk: Attack) -> bool {
    (atk.cost@.len() as u8) as int == attacker(g, p).energy_count() + 1
}

/// The best damage among the first `n` attacks that are one energy short
/// (`None` when none is).
pub open spec fn best_one_short(g: GameView, db: CardDb, p: int, atks: Seq<Attack>, n: int) -> Option<int>
    decreases n,
{
    if n <= 0 {
        None
    } else {
        let prev = best_one_short(g, db, p, atks, n - 1);
        let atk = atks[n - 1];
        if one_energy_short(g, p, atk) {
            let d = gain_upto(g, db, p, atk, atk.effects@.len() as int);
            match prev {
                Some(b) => Some(if d >= b { d } else { b }),
                None => Some(d),
            }
        } else {
            prev
        }
    }
}

/// How much more damage player `p`'s active Pokémon could deal with one
/// more energy attached this turn: the best attack that costs exactly one
/// energy more than it has, against the best estimate now, never below 0
/// (0 without both active Pokémon).
pub open spec fn attach_gain(g: GameView, db: CardDb, p: int, payable: Seq<bool>) -> int {
    if g.players[p].active is None || g.players[1 - p].active is None {
        0
    } else {
        let atks = db.cards@[attacker(g, p).card_idx as int].attacks@;
        let extra = match best_one_short(g, db, p, atks, atks.len() as int) {
            Some(d) => d,
            None => 0,
        };
        let v = extra - best_estimate(g, db, p, payable, atks.len() as int);
        if v < 0 { 0 } else { v }
    }
}

/// What `attach_gain` needs of the state: the active Pokémon are cards
/// of the database, one verdict per attack on its cost, and each step of
/// the arithmetic fits in its integer type.
pub open spec fn attach_gain_ok(g: GameView, db: CardDb, p: int, payable: Seq<bool>) -> bool {
    &&& 0 <= p < 2
    &&& g.players[p].active matches Some(a) ==> (a.card_idx as int) < db.cards@.len()
    &&& g.players[1 - p].active matches Some(o) ==> (o.card_idx as int) < db.cards@.len()
    &&& g.players[p].active is Some ==> {
        let atks = db.cards@[attacker(g, p).card_idx as int].attacks@;
        &&& payable.len() == atks.len()
        &&& forall|i: int| 0 <= i < atks.len() ==> est_ok(g, db, p, i, #[trigger] payable[i])
        &&& (g.players[1 - p].active is Some && atks.len() > 0) ==> {
            &&& attacker(g, p).energy_count() < 255
            &&& forall|i: int| 0 <= i < atks.len() && one_energy_short(g, p, #[trigger] atks[i]) ==> gain_fits(g, db, p, atks[i])
            &&& i16::MIN <= (match best_one_short(g, db, p, atks, atks.len() as int) {
                Some(d) => d,
                None => 0,
            }) - best_estimate(g, db, p, payable, atks.len() as int) <= i16::MAX
        }
    }
}

/// The damage `atk` would deal once one more energy is attached.
fn damage_one_short(state: &GameState, db: &CardDb, player_idx: usize, atk: &Attack) -> (r: i16)
    requires
        player_idx < 2,
        state@.players[player_idx as int].active matches Some(a) && (a.card_idx as int) < db.cards@.len(),
        state@.players[1 - player_idx].active matches Some(o) && (o.card_idx as int) < db.cards@.len(),
        gain_fits(state@, *db, player_idx as int, *atk),
    ensures
        r == gain_upto(state@, *db, player_idx as int, *atk, atk.effects@.len() as int),
{
    let player = &state.players[player_idx];
    assert(state@.players[player_idx as int] == player@);
    assert(state@.players[1 - player_idx] == state.players[1 - player_idx as int]@);
    let (active_idx, opp_idx, reduction) = match (&player.active, &state.players[1 - player_idx].active) {
        (Some(a), Some(o)) => (a.card_idx, o.card_idx, o.incoming_damage_reduction),
        _ => {
            return 0;
        },
    };
    let card = db.get_by_idx(active_idx);
    let opp_card = db.get_by_idx(opp_idx);
    let aura = player.attack_damage_bonus as i16;
    let mut dmg = atk.damage + aura;
    if is_weak_to(opp_card.weakness, card.element) {
        dmg = dmg + WEAKNESS_BONUS;
    }
    let v = dmg - reduction as i16;
    dmg = if v < 0 {
        0
    } else {
        v
    };
    let ghost g = state@;
    let ghost p = player_idx as int;
    let mut k: usize = 0;
    while k < atk.effects.len()
        invariant
            k <= atk.effects@.len(),
            g == state@,
            p == player_idx as int,
            player_idx < 2,
            state@.players[1 - player_idx].active matches Some(o) && (o.card_idx as int) < db.cards@.len(),
            *opp_card == db.cards@[defender(g, p).card_idx as int],
            aura == g.players[p].attack_damage_bonus,
            gain_fits(g, *db, p, *atk),
            dmg == gain_upto(g, *db, p, *atk, k as int),
        decreases atk.effects.len() - k,
    {
        assert(i16::MIN <= gain_upto(g, *db, p, *atk, k + 1) <= i16::MAX);
        match &atk.effects[k] {
            EffectKind::CopyOpponentAttack => {
                dmg = best_attack_damage(opp_card) + aura;
            },
            EffectKind::BenchHitOpponent { amount } => {
                if dmg == 0 {
                    dmg = *amount;
                }
            },
            EffectKind::RandomMultiHit { count, amount } => {
                dmg = (*count as i16) * *amount;
            },
            _ => {},
        }
        k = k + 1;
    }
    dmg
}

/// How much more damage player `player_idx`'s active Pokémon could deal
/// if one more energy were attached this turn: the best attack costing
/// exactly one energy more than it has, against the best it can do now,
/// never below 0.  `payable[i]` is the game's verdict on whether attack
/// `i` can be paid now.
pub fn energy_attach_attack_gain(state: &GameState, db: &CardDb, player_idx: usize, payable: &[bool]) -> (r: i16)
    requires
        attach_gain_ok(state@, *db, player_idx as int, payable@),
    ensures
        r == attach_gain(state@, *db, player_idx as int, payable@),
{
    let ghost g = state@;
    let ghost p = player_idx as int;
    let player = &state.players[player_idx];
    assert(state@.players[player_idx as int] == player@);
    assert(state@.players[1 - player_idx] == state.players[1 - player_idx as int]@);
    let active = match &player.active {
        Some(s) => s,
        None => {
            return 0;
        },
    };
    let card = db.get_by_idx(active.card_idx);
    let cur_energy = active.total_energy();
    let n = card.attacks.len();
    let mut dmg_now: i16 = 0;
    let mut i: usize = 0;
    while i < n
        invariant
            i <= n,
            n == card.attacks@.len(),
            g == state@,
            p == player_idx as int,
            *card == db.cards@[attacker(g, p).card_idx as int],
            attach_gain_ok(g, *db, p, payable@),
            g.players[p].active is Some,
            dmg_now == best_estimate(g, *db, p, payable@, i as int),
        decreases n - i,
    {
        let d = estimate_damage(state, db, player_idx, i, payable[i]);
        if i == 0 || d > dmg_now {
            dmg_now = d;
        }
        i = i + 1;
    }
    let opp = 1 - player_idx;
    let opp_active = match &state.players[opp].active {
        Some(s) => s,
        None => {
            return 0;
        },
    };
    let mut best: Option<i16> = None;
    let mut j: usize = 0;
    while j < n
        invariant
            j <= n,
            n == card.attacks@.len(),
            g == state@,
            p == player_idx as int,
            *card == db.cards@[attacker(g, p).card_idx as int],
            attach_gain_ok(g, *db, p, payable@),
            g.players[p].active is Some,
            g.players[1 - p].active is Some,
            cur_energy == attacker(g, p).energy_count(),
            match best {
                Some(b) => best_one_short(g, *db, p, card.attacks@, j as int) == Some(b as int),
                None => best_one_short(g, *db, p, card.attacks@, j as int) is None,
            },
        decreases n - j,
    {
        let atk = &card.attacks[j];
        let cost = #[verifier::truncate] (atk.cost.len() as u8);
        if cost == cur_energy + 1 {
            assert(one_energy_short(g, p, card.attacks@[j as int]));
            let d = damage_one_short(state, db, player_idx, atk);
            best = match best {
                Some(b) => Some(if d >= b { d } else { b }),
                None => Some(d),
            };
        }
        j = j + 1;
    }
    let extra: i16 = match best {
        Some(b) => b,
        None => 0,
    };
    let v = extra - dmg_now;
    if v < 0 {
        0
    } else {
        v
    }
}

/// How many colons `s` starts with.
pub open spec fn lead_colons(s: Seq<char>) -> nat
    decreases s.len(),
{
    if s.len() > 0 && s[0] == ':' {
        1 + lead_colons(s.drop_first())
    } else {
        0
    }
}

/// The number of simulations at the end of an agent name such as
/// `mcts-raw:720`, given what follows the name (`":720"`): the leading
/// colons are dropped and the rest read as a number; nothing, or anything
/// but a number, gives `None`.
pub fn parse_sims(rest: &str) -> (r: Option<usize>)
    ensures
        r == parse_usize(rest@.subrange(lead_colons(rest@) as int, rest@.len() as int)),
{
    let cs = to_chars(rest);
    let n = cs.len();
    let mut i: usize = 0;
    assert(rest@.subrange(0, n as int) =~= rest@);
    while i < n && cs[i] == ':'
        invariant
            i <= n,
            n == cs@.len(),
            cs@ == rest@,
            lead_colons(rest@) == i + lead_colons(rest@.subrange(i as int, n as int)),
        decreases n - i,
    {
        proof {
            let t = rest@.subrange(i as int, n as int);
            assert(t.drop_first() =~= rest@.subrange(i + 1, n as int));
        }
        i = i + 1;
    }
    proof {
        let t = rest@.subrange(i as int, n as int);
        if i < n {
            assert(t[0] == cs@[i as int]);
        }
        assert(lead_colons(t) == 0);
    }
    if i == n {
        assert(rest@.subrange(n as int, n as int) =~= Seq::<char>::empty());
        return None;
    }
    let tail = sub_chars(cs.as_slice(), i, n);
    parse_usize_chars(tail.as_slice())
}

proof fn lemma_xor_shift_differs(a: u64, b: u64, x: u64, y: u64, k: u64)
    by (bit_vector)
    requires
        k <= 16,
        x != y,
        x < 0x100_0000_0000,
        y < 0x100_0000_0000,
    ensures
        (a ^ (x << k) ^ b) != (a ^ (y << k) ^ b),
{
}

/// The random player's seed follows the size of the acting player's hand:
/// two positions that differ only there (sizes below 2^40) give different
/// seeds, so playing a card changes the draw.
pub proof fn lemma_seed_follows_hand_size(g1: GameView, g2: GameView, p: int, n: int)
    requires
        0 <= p < 2,
        g1.players.len() == 2,
        g2.players.len() == 2,
        g1.turn_number == g2.turn_number,
        g1.current_player == g2.current_player,
        g1.players[1 - p].hand.len() == g2.players[1 - p].hand.len(),
        forall|q: int| 0 <= q < 2 ==> (#[trigger] g1.players[q]).deck.len() == g2.players[q].deck.len(),
        forall|q: int| 0 <= q < 2 ==> (#[trigger] g1.players[q]).discard.len() == g2.players[q].discard.len(),
        g1.players[p].hand.len() != g2.players[p].hand.len(),
        g1.players[p].hand.len() < 0x100_0000,
        g2.players[p].hand.len() < 0x100_0000,
    ensures
        decision_seed(g1, p, n) != decision_seed(g2, p, n),
{
    let h1 = g1.players[p].hand.len() as u64;
    let h2 = g2.players[p].hand.len() as u64;
    assert(g1.players[0].deck.len() == g2.players[0].deck.len() && g1.players[1].deck.len() == g2.players[1].deck.len());
    assert(g1.players[0].discard.len() == g2.players[0].discard.len() && g1.players[1].discard.len() == g2.players[1].discard.len());
    let t = g1.turn_number as u64;
    let m = (p as u64).wrapping_mul(0x9E37_79B9_7F4A_7C15u64);
    let c = (g1.current_player as u64) << 1u64;
    let d0 = (g1.players[0].deck.len() as u64) << 24u64;
    let d1 = (g1.players[1].deck.len() as u64) << 32u64;
    let r0 = (g1.players[0].discard.len() as u64) << 40u64;
    let r1 = (g1.players[1].discard.len() as u64) << 48u64;
    let nn = (n as u64) << 56u64;
    let s1 = decision_seed(g1, p, n);
    let s2 = decision_seed(g2, p, n);
    if p == 0 {
        let o = (g1.players[1].hand.len() as u64) << 16u64;
        let a = t ^ m ^ c;
        let b = o ^ d0 ^ d1 ^ r0 ^ r1 ^ nn;
        lemma_xor_shift_differs(a, b, h1, h2, 8);
        assert(s1 == t ^ m ^ c ^ (h1 << 8u64) ^ o ^ d0 ^ d1 ^ r0 ^ r1 ^ nn);
        assert(s1 == a ^ (h1 << 8u64) ^ b) by (bit_vector)
            requires
                s1 == t ^ m ^ c ^ (h1 << 8u64) ^ o ^ d0 ^ d1 ^ r0 ^ r1 ^ nn,
                a == t ^ m ^ c,
                b == o ^ d0 ^ d1 ^ r0 ^ r1 ^ nn,
        ;
        assert(s2 == t ^ m ^ c ^ (h2 << 8u64) ^ o ^ d0 ^ d1 ^ r0 ^ r1 ^ nn);
        assert(s2 == a ^ (h2 << 8u64) ^ b) by (bit_vector)
            requires
                s2 == t ^ m ^ c ^ (h2 << 8u64) ^ o ^ d0 ^ d1 ^ r0 ^ r1 ^ nn,
                a == t ^ m ^ c,
                b == o ^ d0 ^ d1 ^ r0 ^ r1 ^ nn,
        ;
    } else {
        let o = (g1.players[0].hand.len() as u64) << 8u64;
        let a = t ^ m ^ c ^ o;
        let b = d0 ^ d1 ^ r0 ^ r1 ^ nn;
        lemma_xor_shift_differs(a, b, h1, h2, 16);
        assert(s1 == t ^ m ^ c ^ o ^ (h1 << 16u64) ^ d0 ^ d1 ^ r0 ^ r1 ^ nn);
        assert(s1 == a ^ (h1 << 16u64) ^ b) by (bit_vector)
            requires
                s1 == t ^ m ^ c ^ o ^ (h1 << 16u64) ^ d0 ^ d1 ^ r0 ^ r1 ^ nn,
                a == t ^ m ^ c ^ o,
                b == d0 ^ d1 ^ r0 ^ r1 ^ nn,
        ;
        assert(s2 == t ^ m ^ c ^ o ^ (h2 << 16u64) ^ d0 ^ d1 ^ r0 ^ r1 ^ nn);
        assert(s2 == a ^ (h2 << 16u64) ^ b) by (bit_vector)
            requires
                s2 == t ^ m ^ c ^ o ^ (h2 << 16u64) ^ d0 ^ d1 ^ r0 ^ r1 ^ nn,
                a == t ^ m ^ c ^ o,
                b == d0 ^ d1 ^ r0 ^ r1 ^ nn,
        ;
    }
}

/// An attack whose one effect is "more damage if one of your benched
/// Pokémon is damaged" is estimated at its estimate without effects, plus
/// `bonus` exactly when one of the attacking player's own benched Pokémon
/// is below its maximum HP; the opponent's bench plays no part.
pub proof fn lemma_bench_damaged_estimate(g: GameView, db: CardDb, p: int, ai: int, bonus: i16)
    requires
        est_applies(g, db, p, ai, true),
        db.cards@[attacker(g, p).card_idx as int].attacks@[ai].effects@ == seq![EffectKind::BonusIfBenchDamaged { bonus }],
    ensures
        estimated_damage(g, db, p, ai, true) == est_base(g, db, p, ai) + (if exists|i: int|
            0 <= i < g.players[p].bench.len() && (#[trigger] g.players[p].bench[i] matches Some(s) && s.current_hp < s.max_hp) {
            bonus as int
        } else {
            0
        }),
{
    assert(est_upto(g, db, p, ai, 0) == est_base(g, db, p, ai));
}

}
