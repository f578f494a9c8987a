//! The damage an attack deals once its effects have modified it: coin-flip
//! damage, conditional bonuses and the Supporter damage aura.
use vstd::prelude::*;
use std::collections::HashMap;
use crate::card::CardDb;
use crate::effects::damage_mod_handlers::heads_cap;
use crate::effects::{EffectContext, EffectKind, empty_extra, extra_entries};
use crate::rng::flip_coin;
use crate::state::{GameState, GameView, PlayerView, PokemonSlot, active_ref, damage_fits, read_slot, write_slot};
use crate::text::{decimal, decimal_chars, eq_ignore_ascii_case, push_str, str_eq, str_eq_ignore_ascii_case, string_from_chars};
use crate::types::{Element, Stage, StatusEffect};

verus! {

/// `v` fits in an `i16`.
pub open spec fn fits16(v: int) -> bool {
    i16::MIN <= v <= i16::MAX
}

/// The letter a coin shows in the narration.
pub open spec fn coin_letter(heads: bool) -> Seq<char> {
    if heads { "H"@ } else { "T"@ }
}

/// The coins of `fl`, as letters separated by single spaces.
pub open spec fn coin_letters(fl: Seq<bool>) -> Seq<char>
    decreases fl.len(),
{
    if fl.len() == 0 {
        Seq::empty()
    } else if fl.len() == 1 {
        coin_letter(fl[0])
    } else {
        coin_letters(fl.drop_last()) + " "@ + coin_letter(fl.last())
    }
}

/// How many heads `fl` holds.
pub open spec fn heads_in(fl: Seq<bool>) -> int
    decreases fl.len(),
{
    if fl.len() == 0 {
        0
    } else {
        heads_in(fl.drop_last()) + if fl.last() { 1int } else { 0int }
    }
}

/// The plural ending for `n` flips.
pub open spec fn plural(n: int) -> Seq<char> {
    if n == 1 { Seq::empty() } else { "s"@ }
}

/// A run of flips that stops at the first tails, or after `cap` heads.
pub open spec fn until_tails(fl: Seq<bool>, cap: int) -> bool {
    let k = heads_in(fl);
    &&& forall|i: int| 0 <= i < k ==> #[trigger] fl[i]
    &&& (fl.len() == k + 1 && k < cap && !fl[k]) || (fl.len() == k && k == cap)
}

/// Heads at one coin: the bonus line.
pub open spec fn heads_bonus_line(amount: int) -> Seq<char> {
    "🪙 Heads! +"@ + decimal(amount) + "dmg"@
}

/// `n` flips and their damage.
pub open spec fn flips_line(n: int, fl: Seq<bool>, total: int, wide: bool) -> Seq<char> {
    "🪙 "@ + decimal(n) + " flip"@ + plural(n) + ": "@ + coin_letters(fl) + (if wide { "  → "@ } else { " → "@ }) + decimal(total)
        + "dmg"@
}

/// `n` flips and the bonus they add.
pub open spec fn flips_bonus_line(n: int, fl: Seq<bool>, add: int) -> Seq<char> {
    "🪙 "@ + decimal(n) + " flip"@ + plural(n) + ": "@ + coin_letters(fl) + " → +"@ + decimal(add) + "dmg"@
}

/// A run until tails and its damage.
pub open spec fn until_line(fl: Seq<bool>, total: int) -> Seq<char> {
    "🪙 Flip until tails: "@ + coin_letters(fl) + " → "@ + decimal(total) + "dmg"@
}

/// A run until tails and the bonus it adds.
pub open spec fn until_bonus_line(fl: Seq<bool>, add: int) -> Seq<char> {
    "🪙 Flip until tails: "@ + coin_letters(fl) + " → +"@ + decimal(add) + "dmg"@
}

/// Two coins that are not both heads, and what was missed.
pub open spec fn two_coins_line(h1: bool, h2: bool, missed: Seq<char>) -> Seq<char> {
    "🪙 "@ + coin_letter(h1) + " "@ + coin_letter(h2) + " — no "@ + missed
}

/// Appends the characters of `w` to `v`.
fn push_chars(v: &mut Vec<char>, w: &Vec<char>)
    ensures
        final(v)@ == old(v)@ + w@,
{
    let mut i: usize = 0;
    while i < w.len()
        invariant
            i <= w@.len(),
            v@ == old(v)@ + w@.subrange(0, i as int),
        decreases w.len() - i,
    {
        v.push(w[i]);
        i = i + 1;
        assert(v@ =~= old(v)@ + w@.subrange(0, i as int));
    }
    assert(w@.subrange(0, w@.len() as int) =~= w@);
}

/// Appends `n` in decimal to `v`.
fn push_decimal(v: &mut Vec<char>, n: i32)
    ensures
        final(v)@ == old(v)@ + decimal(n as int),
{
    let d = decimal_chars(n);
    push_chars(v, &d);
}

/// The coins of `fl` as letters separated by single spaces.
fn letters_of(fl: &Vec<bool>) -> (r: Vec<char>)
    ensures
        r@ == coin_letters(fl@),
{
    let mut v: Vec<char> = Vec::new();
    let mut i: usize = 0;
    while i < fl.len()
        invariant
            i <= fl@.len(),
            v@ == coin_letters(fl@.subrange(0, i as int)),
        decreases fl.len() - i,
    {
        let ghost before = fl@.subrange(0, i as int);
        if i > 0 {
            v.push(' ');
        }
        if fl[i] {
            v.push('H');
        } else {
            v.push('T');
        }
        proof {
            let now = fl@.subrange(0, i + 1);
            assert(now.drop_last() =~= before);
            reveal_strlit("H");
            reveal_strlit("T");
            reveal_strlit(" ");
            if i == 0 {
                assert(v@ =~= coin_letter(fl@[0]));
            } else {
                assert(v@ =~= coin_letters(before) + " "@ + coin_letter(now.last()));
            }
        }
        i = i + 1;
    }
    assert(fl@.subrange(0, fl@.len() as int) =~= fl@);
    v
}

/// Flips `n` coins.
fn flip_n(state: &mut GameState, n: u16) -> (r: (Vec<bool>, u16))
    ensures
        r.0@.len() == n,
        r.1 == heads_in(r.0@),
        r.1 <= n,
        final(state)@ == old(state)@,
{
    let mut fl: Vec<bool> = Vec::new();
    let mut heads: u16 = 0;
    let mut i: u16 = 0;
    while i < n
        invariant
            i <= n,
            fl@.len() == i,
            heads == heads_in(fl@),
            heads <= i,
            state@ == old(state)@,
        decreases n - i,
    {
        let h = flip_coin(&mut state.rng);
        let ghost before = fl@;
        fl.push(h);
        assert(fl@.drop_last() =~= before);
        if h {
            heads = heads + 1;
        }
        i = i + 1;
    }
    (fl, heads)
}

/// Flips until tails, stopping after `heads_cap(per)` heads.
fn flip_until_tails(state: &mut GameState, per: i16) -> (r: (Vec<bool>, u16))
    ensures
        until_tails(r.0@, heads_cap(per)),
        r.1 == heads_in(r.0@),
        0 <= r.1 <= heads_cap(per),
        final(state)@ == old(state)@,
{
    let a: i32 = per as i32;
    let abs: i32 = if a < 0 { -a } else { a };
    let cap: u16 = if abs == 0 { 32767 } else { (32767 / abs) as u16 };
    assert(cap == heads_cap(per));
    let mut fl: Vec<bool> = Vec::new();
    let mut heads: u16 = 0;
    loop
        invariant_except_break
            fl@.len() == heads,
            forall|i: int| 0 <= i < heads ==> #[trigger] fl@[i],
        invariant
            heads <= cap,
            cap == heads_cap(per),
            cap <= 32767,
            heads == heads_in(fl@),
            state@ == old(state)@,
        ensures
            until_tails(fl@, cap as int),
            heads == heads_in(fl@),
            heads <= cap,
            state@ == old(state)@,
        decreases cap - heads,
    {
        if heads >= cap {
            break;
        }
        let h = flip_coin(&mut state.rng);
        let ghost before = fl@;
        fl.push(h);
        assert(fl@.drop_last() =~= before);
        if h {
            heads = heads + 1;
        } else {
            assert(heads_in(fl@) == heads);
            assert(!fl@[heads as int]);
            break;
        }
    }
    (fl, heads)
}


/// The HP of the Pokémon in `o` (0 without one).
pub open spec fn hp_or_zero(o: Option<PokemonSlot>) -> int {
    match o {
        Some(s) => s.current_hp as int,
        None => 0,
    }
}

/// The Pokémon `o` has less HP than its maximum.
pub open spec fn damaged(o: Option<PokemonSlot>) -> bool {
    o matches Some(s) && s.current_hp < s.max_hp
}

/// The card of the Pokémon `s` has type `el`.
pub open spec fn slot_of_element(s: Option<PokemonSlot>, db: CardDb, el: Element) -> bool {
    s matches Some(x) && db.card(x.card_idx) matches Some(c) && c.element == Some(el)
}

/// The card of the Pokémon `s` is named `name` (ASCII case ignored).
pub open spec fn slot_named_ci(s: Option<PokemonSlot>, db: CardDb, name: Seq<char>) -> bool {
    s matches Some(x) && db.card(x.card_idx) matches Some(c) && eq_ignore_ascii_case(c.name@, name)
}

/// The card of the Pokémon `s` is named one of `names` (ASCII case ignored).
pub open spec fn slot_named_any(s: Option<PokemonSlot>, db: CardDb, names: Seq<Seq<char>>) -> bool {
    exists|i: int| 0 <= i < names.len() && slot_named_ci(s, db, #[trigger] names[i])
}

/// 1 when `b` holds, else 0.
pub open spec fn one_if(b: bool) -> int {
    if b { 1 } else { 0 }
}

/// How many benched Pokémon of `pv` are of type `el`.
pub open spec fn bench_of_element(pv: PlayerView, db: CardDb, el: Element) -> int {
    one_if(slot_of_element(pv.bench[0], db, el)) + one_if(slot_of_element(pv.bench[1], db, el)) + one_if(
        slot_of_element(pv.bench[2], db, el),
    )
}

/// How many benched Pokémon of `pv` are named `name`.
pub open spec fn bench_named(pv: PlayerView, db: CardDb, name: Seq<char>) -> int {
    one_if(slot_named_ci(pv.bench[0], db, name)) + one_if(slot_named_ci(pv.bench[1], db, name)) + one_if(
        slot_named_ci(pv.bench[2], db, name),
    )
}

/// A benched Pokémon of `pv` is damaged.
pub open spec fn bench_damaged(pv: PlayerView) -> bool {
    damaged(pv.bench[0]) || damaged(pv.bench[1]) || damaged(pv.bench[2])
}

/// One of `pv`'s Pokémon in play is named one of `names`.
pub open spec fn named_in_play(pv: PlayerView, db: CardDb, names: Seq<Seq<char>>) -> bool {
    slot_named_any(pv.active, db, names) || slot_named_any(pv.bench[0], db, names) || slot_named_any(pv.bench[1], db, names)
        || slot_named_any(pv.bench[2], db, names)
}

/// The energy counted against a threshold: all of it when no type is
/// named, else the energy of the named type (0 for an unknown type).
pub open spec fn threshold_energy(o: Option<PokemonSlot>, energy_type: Seq<char>) -> int {
    match o {
        Some(s) => if energy_type.len() == 0 {
            s.energy_count()
        } else {
            match Element::parse(energy_type) {
                Some(el) => s.energy@[el.index()] as int,
                None => 0,
            }
        },
        None => 0,
    }
}

/// The Water energy on the Pokémon in `o` (0 without one).
pub open spec fn water_energy(o: Option<PokemonSlot>) -> int {
    match o {
        Some(s) => s.energy@[Element::Water.index()] as int,
        None => 0,
    }
}

/// The card of the Pokémon in `o` passes `f`.
pub open spec fn card_is(o: Option<PokemonSlot>, db: CardDb, f: spec_fn(crate::card::Card) -> bool) -> bool {
    o matches Some(s) && f(db.cards@[s.card_idx as int])
}

/// The effects that add a bonus read off the board, with no coin.
pub open spec fn is_board_bonus(e: EffectKind) -> bool {
    ||| e is BonusIfOpponentPoisoned
    ||| e is BonusIfOpponentHasStatus
    ||| e is BonusPerBench
    ||| e is BonusPerOpponentBench
    ||| e is BonusIfOpponentDamaged
    ||| e is BonusIfOpponentEx
    ||| e is BonusIfOpponentBasic
    ||| e is BonusIfOpponentElement
    ||| e is BonusIfBenchDamaged
    ||| e is BonusIfExtraEnergy
    ||| e is BonusIfExtraWaterEnergy
    ||| e is BonusPerOpponentEnergy
    ||| e is BonusPerBenchElement
    ||| e is BonusPerBenchNamed
    ||| e is BonusIfSelfDamaged
    ||| e is BonusIfToolAttached
    ||| e is BonusIfOpponentHasTool
    ||| e is BonusIfOpponentHasAbility
    ||| e is BonusIfKoLastTurn
    ||| e is BonusIfPlayedSupporter
    ||| e is BonusIfJustPromoted
    ||| e is BonusIfOpponentMoreHp
    ||| e is BonusIfNamedInPlay
    ||| e is BonusEqualToDamageTaken
}

/// The bonus a board effect adds, on game `g`.
pub open spec fn board_bonus(e: EffectKind, g: GameView, ctx: EffectContext, db: CardDb) -> int {
    let a = ctx.acting_player as int;
    let own = g.players[a].active;
    let opp = g.players[1 - a].active;
    match e {
        EffectKind::BonusIfOpponentPoisoned { bonus } => if opp matches Some(s) && s.status_has(StatusEffect::Poisoned) {
            bonus as int
        } else {
            0
        },
        EffectKind::BonusIfOpponentHasStatus { bonus } => if opp matches Some(s) && s.status != 0 { bonus as int } else { 0 },
        EffectKind::BonusPerBench { per } => per * g.players[a].bench_occupied(),
        EffectKind::BonusPerOpponentBench { per } => per * g.players[1 - a].bench_occupied(),
        EffectKind::BonusIfOpponentDamaged { bonus } => if damaged(opp) { bonus as int } else { 0 },
        EffectKind::BonusIfOpponentEx { bonus } => if card_is(opp, db, |c: crate::card::Card| c.is_ex) { bonus as int } else { 0 },
        EffectKind::BonusIfOpponentBasic { bonus } => if card_is(opp, db, |c: crate::card::Card| c.stage == Some(Stage::Basic)) {
            bonus as int
        } else {
            0
        },
        EffectKind::BonusIfOpponentElement { bonus, element } => match Element::parse(element@) {
            Some(el) => if card_is(opp, db, |c: crate::card::Card| c.element == Some(el)) { bonus as int } else { 0 },
            None => 0,
        },
        EffectKind::BonusIfBenchDamaged { bonus } => if bench_damaged(g.players[a]) { bonus as int } else { 0 },
        EffectKind::BonusIfExtraEnergy { threshold, bonus, energy_type } => if threshold_energy(own, energy_type@) >= threshold {
            bonus as int
        } else {
            0
        },
        EffectKind::BonusIfExtraWaterEnergy { threshold, bonus } => if water_energy(own) >= threshold {
            bonus as int
        } else {
            0
        },
        EffectKind::BonusPerOpponentEnergy { per } => per * threshold_energy(opp, Seq::empty()),
        EffectKind::BonusPerBenchElement { per, element } => match Element::parse(element@) {
            Some(el) => per * bench_of_element(g.players[a], db, el),
            None => 0,
        },
        EffectKind::BonusPerBenchNamed { per, name } => per * bench_named(g.players[a], db, name@),
        EffectKind::BonusIfSelfDamaged { bonus } => if damaged(own) { bonus as int } else { 0 },
        EffectKind::BonusIfToolAttached { bonus } => if own matches Some(s) && s.tool_idx is Some { bonus as int } else { 0 },
        EffectKind::BonusIfOpponentHasTool { bonus } => if opp matches Some(s) && s.tool_idx is Some { bonus as int } else { 0 },
        EffectKind::BonusIfOpponentHasAbility { bonus } => if opp matches Some(s) && db.card(s.card_idx) matches Some(c)
            && c.ability is Some {
            bonus as int
        } else {
            0
        },
        EffectKind::BonusIfPlayedSupporter { bonus } => if g.players[a].has_played_supporter { bonus as int } else { 0 },
        EffectKind::BonusIfOpponentMoreHp { bonus } => if hp_or_zero(opp) > hp_or_zero(own) { bonus as int } else { 0 },
        EffectKind::BonusIfNamedInPlay { bonus, names } => if named_in_play(g.players[a], db, names@.map_values(|n: String| n@)) {
            bonus as int
        } else {
            0
        },
        EffectKind::BonusEqualToDamageTaken => match own {
            Some(s) => s.max_hp - s.current_hp,
            None => 0,
        },
        _ => 0,
    }
}

/// Working out a board bonus stays within `i16` and reads only cards that exist.
pub open spec fn board_bonus_safe(e: EffectKind, g: GameView, ctx: EffectContext, db: CardDb) -> bool {
    let a = ctx.acting_player as int;
    let opp = g.players[1 - a].active;
    let in_db = opp matches Some(s) ==> (s.card_idx as int) < db.cards@.len();
    match e {
        EffectKind::BonusPerBench { .. } | EffectKind::BonusPerOpponentBench { .. } | EffectKind::BonusPerOpponentEnergy { .. }
        | EffectKind::BonusPerBenchElement { .. } | EffectKind::BonusPerBenchNamed { .. }
        | EffectKind::BonusEqualToDamageTaken => fits16(board_bonus(e, g, ctx, db)),
        EffectKind::BonusIfOpponentEx { .. } | EffectKind::BonusIfOpponentBasic { .. } => in_db,
        EffectKind::BonusIfOpponentElement { element, .. } => Element::parse(element@) is Some ==> in_db,
        _ => true,
    }
}


fn slot_element_is(db: &CardDb, o: &Option<PokemonSlot>, el: Element) -> (r: bool)
    ensures
        r == slot_of_element(*o, *db, el),
{
    match o {
        Some(x) => match db.try_get_by_idx(x.card_idx) {
            Some(c) => match c.element {
                Some(e) => e == el,
                None => false,
            },
            None => false,
        },
        None => false,
    }
}

fn slot_named_is(db: &CardDb, o: &Option<PokemonSlot>, name: &str) -> (r: bool)
    ensures
        r == slot_named_ci(*o, *db, name@),
{
    match o {
        Some(x) => match db.try_get_by_idx(x.card_idx) {
            Some(c) => str_eq_ignore_ascii_case(c.name.as_str(), name),
            None => false,
        },
        None => false,
    }
}

fn slot_named_among(db: &CardDb, o: &Option<PokemonSlot>, names: &Vec<String>) -> (r: bool)
    ensures
        r == slot_named_any(*o, *db, names@.map_values(|n: String| n@)),
{
    let ghost ns = names@.map_values(|n: String| n@);
    let mut i: usize = 0;
    while i < names.len()
        invariant
            i <= names@.len(),
            ns == names@.map_values(|n: String| n@),
            forall|j: int| 0 <= j < i ==> !slot_named_ci(*o, *db, #[trigger] ns[j]),
        decreases names.len() - i,
    {
        if slot_named_is(db, o, names[i].as_str()) {
            assert(slot_named_ci(*o, *db, ns[i as int]));
            return true;
        }
        i = i + 1;
    }
    false
}

fn threshold_energy_of(o: &Option<PokemonSlot>, energy_type: &str) -> (r: i16)
    ensures
        r == threshold_energy(*o, energy_type@),
{
    match o {
        Some(s) => {
            if energy_type.unicode_len() == 0 {
                s.total_energy() as i16
            } else {
                match Element::from_str(energy_type) {
                    Some(el) => s.energy[el.idx()] as i16,
                    None => 0,
                }
            }
        },
        None => 0,
    }
}

fn damaged_of(o: &Option<PokemonSlot>) -> (r: bool)
    ensures
        r == damaged(*o),
{
    match o {
        Some(s) => s.current_hp < s.max_hp,
        None => false,
    }
}

fn hp_of(o: &Option<PokemonSlot>) -> (r: i16)
    ensures
        r == hp_or_zero(*o),
{
    match o {
        Some(s) => s.current_hp,
        None => 0,
    }
}

fn board_bonus_opp(state: &GameState, db: &CardDb, e: &EffectKind, ctx: &EffectContext) -> (r: i16)
    requires
        ctx.acting_player < 2,
        *e is BonusIfOpponentPoisoned || *e is BonusIfOpponentHasStatus || *e is BonusIfOpponentDamaged || *e is BonusIfOpponentEx || *e is BonusIfOpponentBasic || *e is BonusIfOpponentElement || *e is BonusIfOpponentHasTool || *e is BonusIfOpponentHasAbility || *e is BonusIfOpponentMoreHp,
        board_bonus_safe(*e, state@, *ctx, *db),
    ensures
        r == board_bonus(*e, state@, *ctx, *db),
{
    let a = ctx.acting_player;
    let me = &state.players[a];
    let them = &state.players[1 - a];
    let ghost g = state@;
    assert(g.players[a as int] == state.players[a as int]@);
    assert(g.players[1 - a] == state.players[1 - a]@);
    match e {
        EffectKind::BonusIfOpponentPoisoned { bonus } => match &them.active {
            Some(s) => if s.has_status(StatusEffect::Poisoned) { *bonus } else { 0 },
            None => 0,
        },
        EffectKind::BonusIfOpponentHasStatus { bonus } => match &them.active {
            Some(s) => if s.has_any_status() { *bonus } else { 0 },
            None => 0,
        },
        EffectKind::BonusIfOpponentDamaged { bonus } => if damaged_of(&them.active) { *bonus } else { 0 },
        EffectKind::BonusIfOpponentEx { bonus } => match &them.active {
            Some(s) => if db.get_by_idx(s.card_idx).is_ex { *bonus } else { 0 },
            None => 0,
        },
        EffectKind::BonusIfOpponentBasic { bonus } => match &them.active {
            Some(s) => match db.get_by_idx(s.card_idx).stage {
                Some(Stage::Basic) => *bonus,
                _ => 0,
            },
            None => 0,
        },
        EffectKind::BonusIfOpponentElement { bonus, element } => match Element::from_str(element.as_str()) {
            Some(el) => match &them.active {
                Some(s) => match db.get_by_idx(s.card_idx).element {
                    Some(x) => if x == el { *bonus } else { 0 },
                    None => 0,
                },
                None => 0,
            },
            None => 0,
        },
        EffectKind::BonusIfOpponentHasTool { bonus } => match &them.active {
            Some(s) => if s.tool_idx.is_some() { *bonus } else { 0 },
            None => 0,
        },
        EffectKind::BonusIfOpponentHasAbility { bonus } => match &them.active {
            Some(s) => match db.try_get_by_idx(s.card_idx) {
                Some(c) => if c.ability.is_some() { *bonus } else { 0 },
                None => 0,
            },
            None => 0,
        },
        EffectKind::BonusIfOpponentMoreHp { bonus } => if hp_of(&them.active) > hp_of(&me.active) { *bonus } else { 0 },
        _ => 0,
    }
}

fn board_bonus_count(state: &GameState, db: &CardDb, e: &EffectKind, ctx: &EffectContext) -> (r: i16)
    requires
        ctx.acting_player < 2,
        *e is BonusPerBench || *e is BonusPerOpponentBench || *e is BonusPerOpponentEnergy || *e is BonusPerBenchElement || *e is BonusPerBenchNamed || *e is BonusEqualToDamageTaken,
        board_bonus_safe(*e, state@, *ctx, *db),
    ensures
        r == board_bonus(*e, state@, *ctx, *db),
{
    let a = ctx.acting_player;
    let me = &state.players[a];
    let them = &state.players[1 - a];
    let ghost g = state@;
    assert(g.players[a as int] == state.players[a as int]@);
    assert(g.players[1 - a] == state.players[1 - a]@);
    match e {
        EffectKind::BonusPerBench { per } => *per * (me.bench_count() as i16),
        EffectKind::BonusPerOpponentBench { per } => *per * (them.bench_count() as i16),
        EffectKind::BonusPerOpponentEnergy { per } => {
            let n = threshold_energy_of(&them.active, "");
            proof {
                reveal_strlit("");
            }
            *per * n
        },
        EffectKind::BonusPerBenchElement { per, element } => match Element::from_str(element.as_str()) {
            Some(el) => {
                let n: i16 = (if slot_element_is(db, &me.bench[0], el) { 1i16 } else { 0i16 }) + (if slot_element_is(db, &me.bench[1], el) {
                    1i16
                } else {
                    0i16
                }) + (if slot_element_is(db, &me.bench[2], el) { 1i16 } else { 0i16 });
                *per * n
            },
            None => 0,
        },
        EffectKind::BonusPerBenchNamed { per, name } => {
            let n: i16 = (if slot_named_is(db, &me.bench[0], name.as_str()) { 1i16 } else { 0i16 }) + (if slot_named_is(
                db,
                &me.bench[1],
                name.as_str(),
            ) {
                1i16
            } else {
                0i16
            }) + (if slot_named_is(db, &me.bench[2], name.as_str()) { 1i16 } else { 0i16 });
            *per * n
        },
        EffectKind::BonusEqualToDamageTaken => match &me.active {
            Some(s) => s.max_hp - s.current_hp,
            None => 0,
        },
        _ => 0,
    }
}

fn board_bonus_own(state: &GameState, db: &CardDb, e: &EffectKind, ctx: &EffectContext) -> (r: i16)
    requires
        ctx.acting_player < 2,
        *e is BonusIfBenchDamaged || *e is BonusIfExtraEnergy || *e is BonusIfExtraWaterEnergy || *e is BonusIfSelfDamaged || *e is BonusIfToolAttached || *e is BonusIfPlayedSupporter || *e is BonusIfNamedInPlay,
        board_bonus_safe(*e, state@, *ctx, *db),
    ensures
        r == board_bonus(*e, state@, *ctx, *db),
{
    let a = ctx.acting_player;
    let me = &state.players[a];
    let them = &state.players[1 - a];
    let ghost g = state@;
    assert(g.players[a as int] == state.players[a as int]@);
    assert(g.players[1 - a] == state.players[1 - a]@);
    match e {
        EffectKind::BonusIfBenchDamaged { bonus } => {
            if damaged_of(&me.bench[0]) || damaged_of(&me.bench[1]) || damaged_of(&me.bench[2]) {
                *bonus
            } else {
                0
            }
        },
        EffectKind::BonusIfExtraEnergy { threshold, bonus, energy_type } => {
            if threshold_energy_of(&me.active, energy_type.as_str()) >= *threshold {
                *bonus
            } else {
                0
            }
        },
        EffectKind::BonusIfExtraWaterEnergy { threshold, bonus } => {
            let count: i16 = match &me.active {
                Some(s) => s.energy[Element::Water.idx()] as i16,
                None => 0,
            };
            if count >= *threshold {
                *bonus
            } else {
                0
            }
        },
        EffectKind::BonusIfSelfDamaged { bonus } => if damaged_of(&me.active) { *bonus } else { 0 },
        EffectKind::BonusIfToolAttached { bonus } => match &me.active {
            Some(s) => if s.tool_idx.is_some() { *bonus } else { 0 },
            None => 0,
        },
        EffectKind::BonusIfPlayedSupporter { bonus } => if me.has_played_supporter { *bonus } else { 0 },
        EffectKind::BonusIfNamedInPlay { bonus, names } => {
            let found = slot_named_among(db, &me.active, names) || slot_named_among(db, &me.bench[0], names)
                || slot_named_among(db, &me.bench[1], names) || slot_named_among(db, &me.bench[2], names);
            if found {
                *bonus
            } else {
                0
            }
        },
        _ => 0,
    }
}

/// The bonus a board effect adds.
fn board_bonus_of(state: &GameState, db: &CardDb, e: &EffectKind, ctx: &EffectContext) -> (r: i16)
    requires
        ctx.acting_player < 2,
        is_board_bonus(*e),
        board_bonus_safe(*e, state@, *ctx, *db),
    ensures
        r == board_bonus(*e, state@, *ctx, *db),
{
    match e {
        EffectKind::BonusIfOpponentPoisoned { .. }
        | EffectKind::BonusIfOpponentHasStatus { .. }
        | EffectKind::BonusIfOpponentDamaged { .. }
        | EffectKind::BonusIfOpponentEx { .. }
        | EffectKind::BonusIfOpponentBasic { .. }
        | EffectKind::BonusIfOpponentElement { .. }
        | EffectKind::BonusIfOpponentHasTool { .. }
        | EffectKind::BonusIfOpponentHasAbility { .. }
        | EffectKind::BonusIfOpponentMoreHp { .. } => board_bonus_opp(state, db, e, ctx),
        EffectKind::BonusPerBench { .. }
        | EffectKind::BonusPerOpponentBench { .. }
        | EffectKind::BonusPerOpponentEnergy { .. }
        | EffectKind::BonusPerBenchElement { .. }
        | EffectKind::BonusPerBenchNamed { .. }
        | EffectKind::BonusEqualToDamageTaken => board_bonus_count(state, db, e, ctx),
        EffectKind::BonusIfBenchDamaged { .. }
        | EffectKind::BonusIfExtraEnergy { .. }
        | EffectKind::BonusIfExtraWaterEnergy { .. }
        | EffectKind::BonusIfSelfDamaged { .. }
        | EffectKind::BonusIfToolAttached { .. }
        | EffectKind::BonusIfPlayedSupporter { .. }
        | EffectKind::BonusIfNamedInPlay { .. } => board_bonus_own(state, db, e, ctx),
        _ => 0,
    }
}


/// The effects that flip coins.
pub open spec fn is_coin_effect(e: EffectKind) -> bool {
    ||| e is CoinFlipBonusDamage
    ||| e is MultiCoinPerEnergyDamage
    ||| e is MultiCoinDamage
    ||| e is FlipUntilTailsDamage
    ||| e is MultiCoinPerTypedEnergyDamage
    ||| e is MultiCoinPerPokemonDamage
    ||| e is BothCoinsBonus
    ||| e is MultiCoinBonus
    ||| e is FlipUntilTailsBonus
    ||| e is CoinFlipBonusOrSelfDamage
    ||| e is DoubleHeadsInstantKo
}

/// The energy of the type named `energy_type` on the Pokémon in `o` (0 for
/// an unknown type or without a Pokémon).
pub open spec fn typed_energy(o: Option<PokemonSlot>, energy_type: Seq<char>) -> int {
    match Element::parse(energy_type) {
        Some(el) => match o {
            Some(s) => s.energy@[el.index()] as int,
            None => 0,
        },
        None => 0,
    }
}

/// How many coins a fixed-count coin effect flips, on game `g`.
pub open spec fn coins_for(e: EffectKind, g: GameView, ctx: EffectContext) -> int {
    let pv = g.players[ctx.acting_player as int];
    match e {
        EffectKind::MultiCoinPerEnergyDamage { .. } => threshold_energy(pv.active, Seq::empty()),
        EffectKind::MultiCoinDamage { count, .. } | EffectKind::MultiCoinBonus { count, .. } => count as int,
        EffectKind::MultiCoinPerTypedEnergyDamage { energy_type, .. } => typed_energy(pv.active, energy_type@),
        EffectKind::MultiCoinPerPokemonDamage { .. } => one_if(pv.active is Some) + pv.bench_occupied(),
        EffectKind::CoinFlipBonusDamage { .. } | EffectKind::CoinFlipBonusOrSelfDamage { .. } => 1,
        EffectKind::BothCoinsBonus { .. } | EffectKind::DoubleHeadsInstantKo => 2,
        _ => 0,
    }
}

/// `fl` is a possible run of coins for effect `e` on game `g`.
pub open spec fn flips_ok(e: EffectKind, g: GameView, ctx: EffectContext, fl: Seq<bool>) -> bool {
    match e {
        EffectKind::FlipUntilTailsDamage { per } | EffectKind::FlipUntilTailsBonus { per } => until_tails(fl, heads_cap(per)),
        _ => fl.len() == coins_for(e, g, ctx),
    }
}

/// What the damage computation carries from one effect to the next: the
/// bonus so far, the damage that replaces the base, and the game.
pub struct DamageAcc {
    pub bonus: int,
    pub replaced: Option<int>,
    pub g: GameView,
}

/// A coin effect with coins `fl`.
pub open spec fn coin_step(e: EffectKind, acc: DamageAcc, fl: Seq<bool>, ctx: EffectContext) -> DamageAcc {
    let a = ctx.acting_player as int;
    let g = acc.g;
    let n = coins_for(e, g, ctx);
    match e {
        EffectKind::CoinFlipBonusDamage { amount } => if fl[0] {
            DamageAcc { bonus: acc.bonus + amount, g: g.log(heads_bonus_line(amount as int)), ..acc }
        } else {
            DamageAcc { g: g.log("🪙 Tails! No bonus damage"@), ..acc }
        },
        EffectKind::MultiCoinPerEnergyDamage { per } => {
            let t = heads_in(fl) * per;
            DamageAcc { replaced: Some(t), g: if n > 0 { g.log(flips_line(n, fl, t, true)) } else { g }, ..acc }
        },
        EffectKind::MultiCoinDamage { count, per } => {
            let t = heads_in(fl) * per;
            DamageAcc { replaced: Some(t), g: g.log(flips_line(count as int, fl, t, false)), ..acc }
        },
        EffectKind::FlipUntilTailsDamage { per } => {
            let t = heads_in(fl) * per;
            DamageAcc { replaced: Some(t), g: g.log(until_line(fl, t)), ..acc }
        },
        EffectKind::MultiCoinPerTypedEnergyDamage { per, .. } | EffectKind::MultiCoinPerPokemonDamage { per } => {
            let t = heads_in(fl) * per;
            DamageAcc { replaced: Some(t), g: if n > 0 { g.log(flips_line(n, fl, t, false)) } else { g }, ..acc }
        },
        EffectKind::BothCoinsBonus { amount } => if fl[0] && fl[1] {
            DamageAcc { bonus: acc.bonus + amount, g: g.log("🪙 H H! +"@ + decimal(amount as int) + "dmg"@), ..acc }
        } else {
            DamageAcc { g: g.log(two_coins_line(fl[0], fl[1], "bonus"@)), ..acc }
        },
        EffectKind::MultiCoinBonus { count, per } => {
            let add = heads_in(fl) * per;
            DamageAcc { bonus: acc.bonus + add, g: g.log(flips_bonus_line(count as int, fl, add)), ..acc }
        },
        EffectKind::FlipUntilTailsBonus { per } => {
            let add = heads_in(fl) * per;
            DamageAcc { bonus: acc.bonus + add, g: g.log(until_bonus_line(fl, add)), ..acc }
        },
        EffectKind::CoinFlipBonusOrSelfDamage { bonus, self_damage } => if fl[0] {
            DamageAcc { bonus: acc.bonus + bonus, g: g.log(heads_bonus_line(bonus as int)), ..acc }
        } else {
            DamageAcc {
                g: g.log("🪙 Tails! Self-damage "@ + decimal(self_damage as int)).damage_at(active_ref(a), self_damage),
                ..acc
            }
        },
        EffectKind::DoubleHeadsInstantKo => if fl[0] && fl[1] {
            DamageAcc { replaced: Some(hp_or_zero(g.players[1 - a].active)), g: g.log("🪙 H H! Instant KO"@), ..acc }
        } else {
            DamageAcc { g: g.log(two_coins_line(fl[0], fl[1], "KO"@)), ..acc }
        },
        _ => acc,
    }
}

/// Every run of coins for effect `e` keeps its arithmetic within `i16`.
pub open spec fn coin_safe(e: EffectKind, acc: DamageAcc, ctx: EffectContext) -> bool {
    let n = coins_for(e, acc.g, ctx);
    let own = acc.g.players[ctx.acting_player as int].active;
    match e {
        EffectKind::CoinFlipBonusDamage { amount } | EffectKind::BothCoinsBonus { amount } => fits16(acc.bonus + amount),
        EffectKind::MultiCoinPerEnergyDamage { per } | EffectKind::MultiCoinDamage { per, .. }
        | EffectKind::MultiCoinPerTypedEnergyDamage { per, .. } | EffectKind::MultiCoinPerPokemonDamage { per } => fits16(n * per),
        EffectKind::MultiCoinBonus { per, .. } => fits16(n * per) && fits16(acc.bonus + n * per),
        EffectKind::FlipUntilTailsBonus { per } => fits16(acc.bonus + heads_cap(per) * per),
        EffectKind::CoinFlipBonusOrSelfDamage { bonus, self_damage } => {
            &&& fits16(acc.bonus + bonus)
            &&& own matches Some(s) ==> damage_fits(s, self_damage)
        },
        _ => true,
    }
}


/// The characters of `s`.
fn chars_of(s: &str) -> (r: Vec<char>)
    ensures
        r@ == s@,
{
    let mut v: Vec<char> = Vec::new();
    push_str(&mut v, s);
    assert(v@ =~= s@);
    v
}

fn heads_bonus_text(amount: i16) -> (r: Vec<char>)
    ensures
        r@ == heads_bonus_line(amount as int),
{
    let mut v = chars_of("🪙 Heads! +");
    push_decimal(&mut v, amount as i32);
    push_str(&mut v, "dmg");
    v
}

fn flips_text(n: i32, fl: &Vec<bool>, total: i32, wide: bool) -> (r: Vec<char>)
    ensures
        r@ == flips_line(n as int, fl@, total as int, wide),
{
    let mut v = chars_of("🪙 ");
    push_decimal(&mut v, n);
    push_str(&mut v, " flip");
    let ghost before = v@;
    if n != 1 {
        push_str(&mut v, "s");
    }
    assert(v@ =~= before + plural(n as int));
    push_str(&mut v, ": ");
    let l = letters_of(fl);
    push_chars(&mut v, &l);
    if wide {
        push_str(&mut v, "  → ");
    } else {
        push_str(&mut v, " → ");
    }
    push_decimal(&mut v, total);
    push_str(&mut v, "dmg");
    v
}

fn flips_bonus_text(n: i32, fl: &Vec<bool>, add: i32) -> (r: Vec<char>)
    ensures
        r@ == flips_bonus_line(n as int, fl@, add as int),
{
    let mut v = chars_of("🪙 ");
    push_decimal(&mut v, n);
    push_str(&mut v, " flip");
    let ghost before = v@;
    if n != 1 {
        push_str(&mut v, "s");
    }
    assert(v@ =~= before + plural(n as int));
    push_str(&mut v, ": ");
    let l = letters_of(fl);
    push_chars(&mut v, &l);
    push_str(&mut v, " → +");
    push_decimal(&mut v, add);
    push_str(&mut v, "dmg");
    v
}

fn until_text(fl: &Vec<bool>, total: i32, bonus: bool) -> (r: Vec<char>)
    ensures
        r@ == if bonus { until_bonus_line(fl@, total as int) } else { until_line(fl@, total as int) },
{
    let mut v = chars_of("🪙 Flip until tails: ");
    let l = letters_of(fl);
    push_chars(&mut v, &l);
    if bonus {
        push_str(&mut v, " → +");
    } else {
        push_str(&mut v, " → ");
    }
    push_decimal(&mut v, total);
    push_str(&mut v, "dmg");
    v
}

fn two_coins_text(h1: bool, h2: bool, missed: &str) -> (r: Vec<char>)
    ensures
        r@ == two_coins_line(h1, h2, missed@),
{
    let mut v = chars_of("🪙 ");
    if h1 {
        push_str(&mut v, "H");
    } else {
        push_str(&mut v, "T");
    }
    push_str(&mut v, " ");
    if h2 {
        push_str(&mut v, "H");
    } else {
        push_str(&mut v, "T");
    }
    push_str(&mut v, " — no ");
    push_str(&mut v, missed);
    v
}

fn log_chars(state: &mut GameState, v: &Vec<char>)
    ensures
        final(state)@ == old(state)@.log(v@),
{
    let line = string_from_chars(v.as_slice());
    state.push_log(line);
}


/// `o` as a mathematical option.
pub open spec fn opt_int(o: Option<i16>) -> Option<int> {
    match o {
        Some(v) => Some(v as int),
        None => None,
    }
}

/// A run of coins holds between none and all heads.
proof fn lemma_heads_bounds(fl: Seq<bool>)
    ensures
        0 <= heads_in(fl) <= fl.len(),
    decreases fl.len(),
{
    if fl.len() > 0 {
        lemma_heads_bounds(fl.drop_last());
    }
}

/// `n * per` within `i16` for every `0 <= h <= n`.
proof fn lemma_scaled_fits(h: int, n: int, per: int)
    requires
        0 <= h <= n,
        fits16(n * per),
    ensures
        fits16(h * per),
{
    if per >= 0 {
        assert(0 <= h * per <= n * per) by (nonlinear_arith)
            requires
                0 <= h <= n,
                per >= 0,
        ;
    } else {
        assert(n * per <= h * per <= 0) by (nonlinear_arith)
            requires
                0 <= h <= n,
                per < 0,
        ;
    }
}

/// `h * per` fits in an `i16` for `h` up to `heads_cap(per)`.
proof fn lemma_capped_fits(h: int, per: i16)
    requires
        0 <= h <= heads_cap(per),
    ensures
        fits16(h * per),
{
    let a: int = if per < 0 { -(per as int) } else { per as int };
    let c = heads_cap(per);
    if a != 0 {
        assert(c == 32767int / a);
        assert(a * c <= 32767) by (nonlinear_arith)
            requires
                a > 0,
                c == 32767int / a,
        ;
        assert(a * h <= a * c) by (nonlinear_arith)
            requires
                a > 0,
                0 <= h <= c,
        ;
        assert(a * h >= 0) by (nonlinear_arith)
            requires
                a > 0,
                0 <= h,
        ;
        if per < 0 {
            assert(h * per == -(a * h)) by (nonlinear_arith)
                requires
                    a == -per,
            ;
        } else {
            assert(h * per == a * h) by (nonlinear_arith)
                requires
                    a == per,
            ;
        }
    } else {
        assert(per == 0);
        assert(h * per == 0) by (nonlinear_arith)
            requires
                per == 0,
        ;
    }
}

/// Flips `n` coins for `per` each; the damage that replaces the base.
fn flip_for_damage(state: &mut GameState, n: u16, per: i16) -> (r: (Vec<bool>, i16))
    requires
        n <= 255,
        fits16(n * per),
    ensures
        r.0@.len() == n,
        r.1 == heads_in(r.0@) * per,
        0 <= heads_in(r.0@) <= n,
        final(state)@ == old(state)@,
{
    let (fl, heads) = flip_n(state, n);
    proof {
        lemma_heads_bounds(fl@);
    }
    proof {
        lemma_scaled_fits(heads as int, n as int, per as int);
    }
    let t = (heads as i16) * per;
    assert(t == heads_in(fl@) * per);
    (fl, t)
}

/// A coin effect that replaces the base damage.
fn coin_replace(state: &mut GameState, e: &EffectKind, ctx: &EffectContext, Ghost(acc): Ghost<DamageAcc>) -> (r: (i16, Vec<bool>))
    requires
        ctx.acting_player < 2,
        e is MultiCoinPerEnergyDamage || e is MultiCoinDamage || e is FlipUntilTailsDamage || e is MultiCoinPerTypedEnergyDamage
            || e is MultiCoinPerPokemonDamage,
        acc.g == old(state)@,
        coin_safe(*e, acc, *ctx),
    ensures
        flips_ok(*e, acc.g, *ctx, r.1@),
        coin_step(*e, acc, r.1@, *ctx) == (DamageAcc { replaced: Some(r.0 as int), g: final(state)@, ..acc }),
{
    let a = ctx.acting_player;
    let ghost g = state@;
    assert(g.players[a as int] == state.players[a as int]@);
    match e {
        EffectKind::MultiCoinPerEnergyDamage { per } => {
            let n: u16 = match &state.players[a].active {
                Some(s) => s.total_energy() as u16,
                None => 0,
            };
            proof {
                reveal_strlit("");
            }
            let (fl, t) = flip_for_damage(state, n, *per);
            if n > 0 {
                let v = flips_text(n as i32, &fl, t as i32, true);
                log_chars(state, &v);
            }
            (t, fl)
        },
        EffectKind::MultiCoinDamage { count, per } => {
            let (fl, t) = flip_for_damage(state, *count as u16, *per);
            let v = flips_text(*count as i32, &fl, t as i32, false);
            log_chars(state, &v);
            (t, fl)
        },
        EffectKind::FlipUntilTailsDamage { per } => {
            let pv: i16 = *per;
            let (fl, heads) = flip_until_tails(state, pv);
            proof {
                lemma_capped_fits(heads as int, pv);
            }
            let t: i32 = (heads as i32) * (pv as i32);
            let v = until_text(&fl, t, false);
            log_chars(state, &v);
            (t as i16, fl)
        },
        EffectKind::MultiCoinPerTypedEnergyDamage { per, energy_type } => {
            let n: u16 = match Element::from_str(energy_type.as_str()) {
                Some(el) => match &state.players[a].active {
                    Some(s) => s.energy[el.idx()] as u16,
                    None => 0,
                },
                None => 0,
            };
            let (fl, t) = flip_for_damage(state, n, *per);
            if n > 0 {
                let v = flips_text(n as i32, &fl, t as i32, false);
                log_chars(state, &v);
            }
            (t, fl)
        },
        EffectKind::MultiCoinPerPokemonDamage { per } => {
            let n: u16 = state.players[a].total_pokemon_count() as u16;
            let (fl, t) = flip_for_damage(state, n, *per);
            if n > 0 {
                let v = flips_text(n as i32, &fl, t as i32, false);
                log_chars(state, &v);
            }
            (t, fl)
        },
        _ => (0, Vec::new()),
    }
}


/// A coin effect that adds to the bonus, or decides an instant knock-out.
fn coin_bonus(
    state: &mut GameState,
    e: &EffectKind,
    ctx: &EffectContext,
    bonus: i16,
    replaced: Option<i16>,
    Ghost(acc): Ghost<DamageAcc>,
) -> (r: (i16, Option<i16>, Vec<bool>))
    requires
        ctx.acting_player < 2,
        e is CoinFlipBonusDamage || e is BothCoinsBonus || e is MultiCoinBonus || e is FlipUntilTailsBonus
            || e is CoinFlipBonusOrSelfDamage || e is DoubleHeadsInstantKo,
        acc.g == old(state)@,
        acc.bonus == bonus,
        acc.replaced == opt_int(replaced),
        coin_safe(*e, acc, *ctx),
    ensures
        flips_ok(*e, acc.g, *ctx, r.2@),
        coin_step(*e, acc, r.2@, *ctx) == (DamageAcc { bonus: r.0 as int, replaced: opt_int(r.1), g: final(state)@ }),
{
    let a = ctx.acting_player;
    match e {
        EffectKind::CoinFlipBonusDamage { amount } => {
            let (fl, _h) = flip_n(state, 1);
            if fl[0] {
                let v = heads_bonus_text(*amount);
                log_chars(state, &v);
                (bonus + *amount, replaced, fl)
            } else {
                let v = chars_of("🪙 Tails! No bonus damage");
                log_chars(state, &v);
                (bonus, replaced, fl)
            }
        },
        EffectKind::BothCoinsBonus { amount } => {
            let (fl, _h) = flip_n(state, 2);
            if fl[0] && fl[1] {
                let mut v = chars_of("🪙 H H! +");
                push_decimal(&mut v, *amount as i32);
                push_str(&mut v, "dmg");
                log_chars(state, &v);
                (bonus + *amount, replaced, fl)
            } else {
                let v = two_coins_text(fl[0], fl[1], "bonus");
                log_chars(state, &v);
                (bonus, replaced, fl)
            }
        },
        EffectKind::MultiCoinBonus { count, per } => {
            let (fl, add) = flip_for_damage(state, *count as u16, *per);
            proof {
                lemma_scaled_fits(heads_in(fl@), *count as int, *per as int);
                assert(fits16(bonus + add)) by (nonlinear_arith)
                    requires
                        fits16(bonus as int),
                        fits16(bonus + *count * *per),
                        add == heads_in(fl@) * *per,
                        0 <= heads_in(fl@) <= *count,
                {
                    if *per >= 0 {
                        assert(0 <= heads_in(fl@) * *per <= *count * *per);
                    } else {
                        assert(*count * *per <= heads_in(fl@) * *per <= 0);
                    }
                }
            }
            let v = flips_bonus_text(*count as i32, &fl, add as i32);
            log_chars(state, &v);
            (bonus + add, replaced, fl)
        },
        EffectKind::FlipUntilTailsBonus { per } => {
            let pv: i16 = *per;
            let (fl, heads) = flip_until_tails(state, pv);
            proof {
                lemma_capped_fits(heads as int, pv);
                assert(fits16(bonus + heads * pv)) by (nonlinear_arith)
                    requires
                        fits16(bonus as int),
                        fits16(bonus + heads_cap(pv) * pv),
                        0 <= heads <= heads_cap(pv),
                {
                    if pv >= 0 {
                        assert(0 <= heads * pv <= heads_cap(pv) * pv);
                    } else {
                        assert(heads_cap(pv) * pv <= heads * pv <= 0);
                    }
                }
            }
            let add: i16 = ((heads as i32) * (pv as i32)) as i16;
            let v = until_text(&fl, add as i32, true);
            log_chars(state, &v);
            (bonus + add, replaced, fl)
        },
        EffectKind::CoinFlipBonusOrSelfDamage { bonus: b, self_damage } => {
            let (fl, _h) = flip_n(state, 1);
            if fl[0] {
                let v = heads_bonus_text(*b);
                log_chars(state, &v);
                (bonus + *b, replaced, fl)
            } else {
                let mut v = chars_of("🪙 Tails! Self-damage ");
                push_decimal(&mut v, *self_damage as i32);
                log_chars(state, &v);
                let ghost g1 = state@;
                assert(g1.players[a as int].active == old(state)@.players[a as int].active);
                crate::effects::damage_mod_handlers::damage_slot(state, crate::actions::SlotRef::active(a), *self_damage);
                (bonus, replaced, fl)
            }
        },
        EffectKind::DoubleHeadsInstantKo => {
            let (fl, _h) = flip_n(state, 2);
            if fl[0] && fl[1] {
                let target: i16 = match &state.players[1 - a].active {
                    Some(s) => s.current_hp,
                    None => 0,
                };
                assert(target == hp_or_zero(old(state)@.players[1 - a].active));
                let v = chars_of("🪙 H H! Instant KO");
                log_chars(state, &v);
                (bonus, Some(target), fl)
            } else {
                let v = two_coins_text(fl[0], fl[1], "KO");
                log_chars(state, &v);
                (bonus, replaced, fl)
            }
        },
        _ => (bonus, replaced, Vec::new()),
    }
}


/// One effect of the damage computation, with coins `fl`.
pub open spec fn damage_step(e: EffectKind, acc: DamageAcc, fl: Seq<bool>, ctx: EffectContext, db: CardDb) -> DamageAcc {
    if is_board_bonus(e) {
        DamageAcc { bonus: acc.bonus + board_bonus(e, acc.g, ctx, db), ..acc }
    } else if is_coin_effect(e) {
        coin_step(e, acc, fl, ctx)
    } else {
        acc
    }
}

/// `fl` is a possible run of coins for `e` (none for an effect without coins).
pub open spec fn step_flips_ok(e: EffectKind, acc: DamageAcc, fl: Seq<bool>, ctx: EffectContext) -> bool {
    if is_coin_effect(e) {
        flips_ok(e, acc.g, ctx, fl)
    } else {
        fl.len() == 0
    }
}

/// Every outcome of `e` keeps the arithmetic within `i16` and reads only
/// cards that exist.
pub open spec fn step_safe(e: EffectKind, acc: DamageAcc, ctx: EffectContext, db: CardDb) -> bool {
    if is_board_bonus(e) {
        board_bonus_safe(e, acc.g, ctx, db) && fits16(acc.bonus + board_bonus(e, acc.g, ctx, db))
    } else if is_coin_effect(e) {
        coin_safe(e, acc, ctx)
    } else {
        true
    }
}

/// Where the computation stands after the first `k` effects, with coins `fls`.
pub open spec fn damage_upto(effs: Seq<EffectKind>, fls: Seq<Seq<bool>>, k: int, acc0: DamageAcc, ctx: EffectContext, db: CardDb) -> DamageAcc
    decreases k,
{
    if k <= 0 {
        acc0
    } else {
        damage_step(effs[k - 1], damage_upto(effs, fls, k - 1, acc0, ctx, db), fls[k - 1], ctx, db)
    }
}

/// The coins `fls` are possible for the first `k` effects.
pub open spec fn flips_upto(effs: Seq<EffectKind>, fls: Seq<Seq<bool>>, k: int, acc0: DamageAcc, ctx: EffectContext, db: CardDb) -> bool
    decreases k,
{
    k <= 0 || (flips_upto(effs, fls, k - 1, acc0, ctx, db) && step_flips_ok(
        effs[k - 1],
        damage_upto(effs, fls, k - 1, acc0, ctx, db),
        fls[k - 1],
        ctx,
    ))
}

/// Where the computation starts: no bonus, the base damage kept, game `g`.
pub open spec fn damage_start(g: GameView) -> DamageAcc {
    DamageAcc { bonus: 0, replaced: None, g }
}

/// The Supporter damage aura of player `a` applies to this attack: it names
/// no Pokémon, or names "ex" and the defender is a Pokémon ex, or names the
/// attacker.
pub open spec fn aura_applies(g: GameView, a: int, db: CardDb) -> bool {
    let names = g.players[a].attack_damage_bonus_names;
    if names.len() == 0 {
        true
    } else if names.contains("ex"@) {
        g.players[1 - a].active matches Some(s) && db.cards@[s.card_idx as int].is_ex
    } else {
        g.players[a].active matches Some(s) && names.contains(db.cards@[s.card_idx as int].name@)
    }
}

/// The bonus with the aura added when it applies.
pub open spec fn final_bonus(acc: DamageAcc, ctx: EffectContext, db: CardDb) -> int {
    let a = ctx.acting_player as int;
    let aura = acc.g.players[a].attack_damage_bonus;
    if aura != 0 && aura_applies(acc.g, a, db) {
        acc.bonus + aura
    } else {
        acc.bonus
    }
}

/// The damage the attack deals: the replacing damage (else the base) plus
/// the bonus.
pub open spec fn final_damage(acc: DamageAcc, base: i16, ctx: EffectContext, db: CardDb) -> int {
    (match acc.replaced {
        Some(r) => r,
        None => base as int,
    }) + final_bonus(acc, ctx, db)
}

/// Adding the aura and the bonus stays within `i16` and reads only cards that exist.
pub open spec fn finish_safe(acc: DamageAcc, base: i16, ctx: EffectContext, db: CardDb) -> bool {
    let a = ctx.acting_player as int;
    let g = acc.g;
    let names = g.players[a].attack_damage_bonus_names;
    &&& (g.players[a].attack_damage_bonus != 0 && names.len() > 0) ==> if names.contains("ex"@) {
        g.players[1 - a].active matches Some(s) ==> (s.card_idx as int) < db.cards@.len()
    } else {
        g.players[a].active matches Some(s) ==> (s.card_idx as int) < db.cards@.len()
    }
    &&& fits16(final_bonus(acc, ctx, db))
    &&& fits16(final_damage(acc, base, ctx, db))
}

/// Every outcome of the computation keeps within `i16` and reads only
/// cards that exist.
pub open spec fn damage_calc_safe(effs: Seq<EffectKind>, g: GameView, base: i16, ctx: EffectContext, db: CardDb) -> bool {
    &&& forall|k: int, fls: Seq<Seq<bool>>|
        #![trigger damage_upto(effs, fls, k, damage_start(g), ctx, db)]
        0 <= k < effs.len() && fls.len() == k && flips_upto(effs, fls, k, damage_start(g), ctx, db) ==> step_safe(
            effs[k],
            damage_upto(effs, fls, k, damage_start(g), ctx, db),
            ctx,
            db,
        )
    &&& forall|fls: Seq<Seq<bool>>|
        #![trigger damage_upto(effs, fls, effs.len() as int, damage_start(g), ctx, db)]
        fls.len() == effs.len() && flips_upto(effs, fls, effs.len() as int, damage_start(g), ctx, db) ==> finish_safe(
            damage_upto(effs, fls, effs.len() as int, damage_start(g), ctx, db),
            base,
            ctx,
            db,
        )
}


/// `names` holds `x` exactly.
fn names_contain(names: &Vec<String>, x: &str) -> (r: bool)
    ensures
        r == names@.map_values(|n: String| n@).contains(x@),
{
    let ghost ns = names@.map_values(|n: String| n@);
    let mut i: usize = 0;
    while i < names.len()
        invariant
            i <= names@.len(),
            ns == names@.map_values(|n: String| n@),
            forall|j: int| 0 <= j < i ==> ns[j] != x@,
        decreases names.len() - i,
    {
        if str_eq(names[i].as_str(), x) {
            assert(ns[i as int] == x@);
            return true;
        }
        i = i + 1;
    }
    proof {
        if ns.contains(x@) {
            let j = choose|j: int| 0 <= j < ns.len() && ns[j] == x@;
            assert(ns[j] != x@);
        }
    }
    false
}

/// The Supporter damage aura that this attack gets (0 when none applies).
fn aura_for(state: &GameState, db: &CardDb, ctx: &EffectContext) -> (r: i16)
    requires
        ctx.acting_player < 2,
        ({
            let a = ctx.acting_player as int;
            let g = state@;
            let names = g.players[a].attack_damage_bonus_names;
            (g.players[a].attack_damage_bonus != 0 && names.len() > 0) ==> if names.contains("ex"@) {
                g.players[1 - a].active matches Some(s) ==> (s.card_idx as int) < db.cards@.len()
            } else {
                g.players[a].active matches Some(s) ==> (s.card_idx as int) < db.cards@.len()
            }
        }),
    ensures
        r == (if state@.players[ctx.acting_player as int].attack_damage_bonus != 0 && aura_applies(
            state@,
            ctx.acting_player as int,
            *db,
        ) {
            state@.players[ctx.acting_player as int].attack_damage_bonus as int
        } else {
            0
        }),
{
    let a = ctx.acting_player;
    let ghost g = state@;
    assert(g.players[a as int] == state.players[a as int]@);
    assert(g.players[1 - a] == state.players[1 - a]@);
    let aura = state.players[a].attack_damage_bonus as i16;
    if aura == 0 {
        return 0;
    }
    let names = &state.players[a].attack_damage_bonus_names;
    let applies = if names.len() == 0 {
        true
    } else if names_contain(names, "ex") {
        match &state.players[1 - a].active {
            Some(s) => db.get_by_idx(s.card_idx).is_ex,
            None => false,
        }
    } else {
        match &state.players[a].active {
            Some(s) => names_contain(names, db.get_by_idx(s.card_idx).name.as_str()),
            None => false,
        }
    };
    if applies {
        aura
    } else {
        0
    }
}

/// Which part of the computation handles `e`: a board bonus, a coin, or neither.
fn calc_part(e: &EffectKind) -> (r: u8)
    ensures
        r == 0 <==> is_board_bonus(*e),
        r == 1 <==> is_coin_effect(*e),
        r <= 2,
{
    match e {
        EffectKind::BonusIfOpponentPoisoned { .. } | EffectKind::BonusIfOpponentHasStatus { .. } | EffectKind::BonusPerBench { .. }
        | EffectKind::BonusPerOpponentBench { .. } | EffectKind::BonusIfOpponentDamaged { .. } | EffectKind::BonusIfOpponentEx { .. }
        | EffectKind::BonusIfOpponentBasic { .. } | EffectKind::BonusIfOpponentElement { .. } | EffectKind::BonusIfBenchDamaged { .. }
        | EffectKind::BonusIfExtraEnergy { .. } | EffectKind::BonusIfExtraWaterEnergy { .. } | EffectKind::BonusPerOpponentEnergy { .. }
        | EffectKind::BonusPerBenchElement { .. } | EffectKind::BonusPerBenchNamed { .. } | EffectKind::BonusIfSelfDamaged { .. }
        | EffectKind::BonusIfToolAttached { .. } | EffectKind::BonusIfOpponentHasTool { .. } | EffectKind::BonusIfOpponentHasAbility { .. }
        | EffectKind::BonusIfKoLastTurn { .. } | EffectKind::BonusIfPlayedSupporter { .. } | EffectKind::BonusIfJustPromoted { .. }
        | EffectKind::BonusIfOpponentMoreHp { .. } | EffectKind::BonusIfNamedInPlay { .. } | EffectKind::BonusEqualToDamageTaken => 0,
        EffectKind::CoinFlipBonusDamage { .. } | EffectKind::MultiCoinPerEnergyDamage { .. } | EffectKind::MultiCoinDamage { .. }
        | EffectKind::FlipUntilTailsDamage { .. } | EffectKind::MultiCoinPerTypedEnergyDamage { .. }
        | EffectKind::MultiCoinPerPokemonDamage { .. } | EffectKind::BothCoinsBonus { .. } | EffectKind::MultiCoinBonus { .. }
        | EffectKind::FlipUntilTailsBonus { .. } | EffectKind::CoinFlipBonusOrSelfDamage { .. } | EffectKind::DoubleHeadsInstantKo => 1,
        _ => 2,
    }
}

/// The computation up to `k` reads only the first `k` runs of coins.
proof fn lemma_upto_prefix(
    effs: Seq<EffectKind>,
    fls: Seq<Seq<bool>>,
    fls2: Seq<Seq<bool>>,
    k: int,
    acc0: DamageAcc,
    ctx: EffectContext,
    db: CardDb,
)
    requires
        0 <= k,
        forall|j: int| 0 <= j < k ==> fls[j] == fls2[j],
    ensures
        damage_upto(effs, fls, k, acc0, ctx, db) == damage_upto(effs, fls2, k, acc0, ctx, db),
        flips_upto(effs, fls, k, acc0, ctx, db) == flips_upto(effs, fls2, k, acc0, ctx, db),
    decreases k,
{
    if k > 0 {
        lemma_upto_prefix(effs, fls, fls2, k - 1, acc0, ctx, db);
        assert(fls[k - 1] == fls2[k - 1]);
    }
}


/// Works out the damage of an attack from its base damage and its effects:
/// coin-flip effects are resolved here (their results go to the coin-flip
/// narration), damage-replacing effects set the damage, bonuses add to it,
/// and the acting player's Supporter damage aura is added last when it
/// applies.  Returns the damage, whether to skip it (never), and an empty
/// side table.
pub fn compute_damage_modifier(
    state: &mut GameState,
    db: &CardDb,
    base_damage: i16,
    effects: &[EffectKind],
    ctx: &EffectContext,
) -> (r: (i16, bool, HashMap<String, i32>))
    requires
        ctx.acting_player < 2,
        damage_calc_safe(effects@, old(state)@, base_damage, *ctx, *db),
    ensures
        exists|fls: Seq<Seq<bool>>|
            fls.len() == effects@.len() && #[trigger] flips_upto(
                effects@,
                fls,
                effects@.len() as int,
                damage_start(old(state)@),
                *ctx,
                *db,
            ) && final(state)@ == damage_upto(effects@, fls, effects@.len() as int, damage_start(old(state)@), *ctx, *db).g
                && r.0 == final_damage(
                damage_upto(effects@, fls, effects@.len() as int, damage_start(old(state)@), *ctx, *db),
                base_damage,
                *ctx,
                *db,
            ),
        !r.1,
        extra_entries(r.2).dom() == Set::<Seq<char>>::empty(),
{
    let ghost g0 = state@;
    let ghost acc0 = damage_start(g0);
    let mut bonus: i16 = 0;
    let mut replaced: Option<i16> = None;
    let ghost mut fls: Seq<Seq<bool>> = Seq::empty();
    let n = effects.len();
    let mut i: usize = 0;
    while i < n
        invariant
            ctx.acting_player < 2,
            n == effects@.len(),
            i <= n,
            acc0 == damage_start(g0),
            g0 == old(state)@,
            fls.len() == i,
            flips_upto(effects@, fls, i as int, acc0, *ctx, *db),
            damage_upto(effects@, fls, i as int, acc0, *ctx, *db) == (DamageAcc {
                bonus: bonus as int,
                replaced: opt_int(replaced),
                g: state@,
            }),
            damage_calc_safe(effects@, g0, base_damage, *ctx, *db),
        decreases n - i,
    {
        let ghost acc = DamageAcc { bonus: bonus as int, replaced: opt_int(replaced), g: state@ };
        let ghost before = state@;
        assert(step_safe(effects@[i as int], damage_upto(effects@, fls, i as int, acc0, *ctx, *db), *ctx, *db));
        let e = &effects[i];
        let part = calc_part(e);
        let ghost mut fl: Seq<bool> = Seq::empty();
        if part == 0 {
            let b = board_bonus_of(state, db, e, ctx);
            bonus = bonus + b;
        } else if part == 1 {
            match e {
                EffectKind::MultiCoinPerEnergyDamage { .. } | EffectKind::MultiCoinDamage { .. }
                | EffectKind::FlipUntilTailsDamage { .. } | EffectKind::MultiCoinPerTypedEnergyDamage { .. }
                | EffectKind::MultiCoinPerPokemonDamage { .. } => {
                    let (t, f) = coin_replace(state, e, ctx, Ghost(acc));
                    replaced = Some(t);
                    proof {
                        fl = f@;
                    }
                },
                _ => {
                    let (b2, r2, f) = coin_bonus(state, e, ctx, bonus, replaced, Ghost(acc));
                    bonus = b2;
                    replaced = r2;
                    proof {
                        fl = f@;
                    }
                },
            }
        }
        proof {
            let nf = fls.push(fl);
            lemma_upto_prefix(effects@, fls, nf, i as int, acc0, *ctx, *db);
            fls = nf;
        }
        i = i + 1;
    }
    assert(finish_safe(damage_upto(effects@, fls, n as int, acc0, *ctx, *db), base_damage, *ctx, *db));
    let aura = aura_for(state, db, ctx);
    let total_bonus: i16 = bonus + aura;
    let start: i16 = match replaced {
        Some(v) => v,
        None => base_damage,
    };
    let final_dmg: i16 = start + total_bonus;
    (final_dmg, false, empty_extra())
}


/// Effects that flip no coin change no more than the bonus: without a coin
/// effect, working out the damage leaves the game as it was.
pub proof fn lemma_no_coins_no_change(
    effs: Seq<EffectKind>,
    fls: Seq<Seq<bool>>,
    k: int,
    g: GameView,
    ctx: EffectContext,
    db: CardDb,
)
    requires
        0 <= k <= effs.len(),
        forall|i: int| 0 <= i < effs.len() ==> !is_coin_effect(#[trigger] effs[i]),
    ensures
        damage_upto(effs, fls, k, damage_start(g), ctx, db).g == g,
    decreases k,
{
    if k > 0 {
        lemma_no_coins_no_change(effs, fls, k - 1, g, ctx, db);
        assert(!is_coin_effect(effs[k - 1]));
    }
}

/// An attack whose only effect is "flip `count` coins, `per` damage each"
/// deals `per` times some number of heads between 0 and `count`, when no
/// Supporter aura is in play.
pub proof fn lemma_multi_coin_damage_range(count: u8, per: i16, base: i16, g: GameView, ctx: EffectContext, db: CardDb, fls: Seq<Seq<bool>>)
    requires
        ctx.acting_player < 2,
        g.players[ctx.acting_player as int].attack_damage_bonus == 0,
        fls.len() == 1,
        flips_upto(seq![EffectKind::MultiCoinDamage { count, per }], fls, 1, damage_start(g), ctx, db),
    ensures
        exists|h: int|
            0 <= h <= count && final_damage(
                damage_upto(seq![EffectKind::MultiCoinDamage { count, per }], fls, 1, damage_start(g), ctx, db),
                base,
                ctx,
                db,
            ) == #[trigger] (h * per),
{
    let effs = seq![EffectKind::MultiCoinDamage { count, per }];
    let acc = damage_upto(effs, fls, 1, damage_start(g), ctx, db);
    assert(damage_upto(effs, fls, 0, damage_start(g), ctx, db) == damage_start(g));
    assert(flips_ok(effs[0], g, ctx, fls[0]));
    lemma_heads_bounds(fls[0]);
    let h = heads_in(fls[0]);
    assert(acc.replaced == Some(h * per));
    assert(acc.bonus == 0);
    assert(acc.g.players[ctx.acting_player as int].attack_damage_bonus == 0);
    assert(final_damage(acc, base, ctx, db) == h * per);
}

/// "More damage if this Pokémon is damaged": on any board, the attack deals
/// what it would deal with no effect at all, plus `bonus` exactly when the
/// attacker (the acting player's active Pokémon) is below its maximum HP.
/// The defender's HP plays no part.
pub proof fn lemma_self_damaged_bonus(bonus: i16, base: i16, g: GameView, ctx: EffectContext, db: CardDb, fls: Seq<Seq<bool>>)
    ensures
        final_damage(damage_upto(seq![EffectKind::BonusIfSelfDamaged { bonus }], fls, 1, damage_start(g), ctx, db), base, ctx, db)
            == final_damage(damage_start(g), base, ctx, db) + (if (g.players[ctx.acting_player as int].active matches Some(s)
            && s.current_hp < s.max_hp) {
            bonus as int
        } else {
            0
        }),
{
    let effs = seq![EffectKind::BonusIfSelfDamaged { bonus }];
    assert(damage_upto(effs, fls, 0, damage_start(g), ctx, db) == damage_start(g));
    assert(is_board_bonus(effs[0]));
}

}
