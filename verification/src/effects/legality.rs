//! Per-card legality predicates: a card's `legal` strings are parsed into
//! conditions; at action-enumeration time boolean conditions gate the card
//! and target conditions enumerate one action per valid target.
use vstd::prelude::*;
use crate::actions::{Action, SlotRef};
use crate::card::{Card, CardDb};
use crate::effects::EffectKind;
use crate::state::{GameState, GameView, PlayerView, PokemonSlot, energy_sum};
use crate::effects::energy_handlers::occupied_benches;
use crate::text::{eq_ignore_ascii_case, str_eq, str_eq_ignore_ascii_case, to_lowercase, lowered};
use crate::types::{ActionKind, CardKind, Element, Stage};

pub use crate::effects::legal_parse::parse_legal_array;

verus! {

/// Skeleton of an `Action` missing only its target.
#[derive(Clone, Copy, Debug, PartialEq, Eq, Structural)]
pub enum BaseAction {
    /// Item / Supporter / non-tool Trainer played from hand.
    PlayItem { hand_index: usize },
    /// Tool attached to one of the player's Pokémon.
    AttachTool { hand_index: usize },
    /// Attack from the active Pokémon.
    Attack { attack_index: usize },
    /// Use a Pokémon's manual ability; the source slot is fixed.
    UseAbility { source: SlotRef },
}

impl BaseAction {
    /// The action `with_target` builds.
    pub open spec fn targeted(self, target: Option<SlotRef>) -> Action {
        match self {
            BaseAction::PlayItem { hand_index } => Action::of(ActionKind::PlayCard, Some(hand_index), target, None, None, None),
            BaseAction::AttachTool { hand_index } => Action::of(ActionKind::PlayCard, Some(hand_index), target, None, None, None),
            BaseAction::Attack { attack_index } => Action::of(ActionKind::Attack, None, target, Some(attack_index), None, None),
            BaseAction::UseAbility { source } => Action::of(ActionKind::UseAbility, None, Some(source), None, None, None),
        }
    }

    /// The action `with_two_targets` builds.
    pub open spec fn two_targeted(self, a: SlotRef, b: SlotRef) -> Action {
        match self {
            BaseAction::Attack { attack_index } => Action::of(ActionKind::Attack, None, Some(a), Some(attack_index), None, Some(b)),
            _ => self.targeted(Some(a)),
        }
    }

    /// Build a concrete `Action` with the given target slot.
    pub fn with_target(&self, target: Option<SlotRef>) -> (r: Action)
        ensures
            r == self.targeted(target),
    {
        match *self {
            BaseAction::PlayItem { hand_index } => Action::play_item(hand_index, target),
            BaseAction::AttachTool { hand_index } => Action {
                kind: ActionKind::PlayCard,
                hand_index: Some(hand_index),
                target,
                attack_index: None,
                extra_hand_index: None,
                extra_target: None,
            },
            BaseAction::Attack { attack_index } => Action::attack(attack_index, target),
            BaseAction::UseAbility { source } => Action::use_ability(source),
        }
    }

    /// Build an attack with two own-bench targets.
    pub fn with_two_targets(&self, a: SlotRef, b: SlotRef) -> (r: Action)
        ensures
            r == self.two_targeted(a, b),
    {
        match *self {
            BaseAction::Attack { attack_index } => Action::attack_two_targets(attack_index, a, b),
            _ => self.with_target(Some(a)),
        }
    }
}

/// One predicate or target enumerator parsed from a card's `legal` array.
#[derive(Clone, Debug, PartialEq)]
pub enum LegalCondition {
    // -------- Boolean preconditions --------
    OwnBenchAtLeast { count: u8 },
    OppBenchAtLeast { count: u8 },
    OppHandAtLeast { count: u8 },
    OwnDeckHasBasic,
    OwnDeckHasPokemon,
    OwnDeckHasNamed { names: Vec<String> },
    OwnEnergyDiscardAtLeast { count: u8, element: Option<Element> },
    OppPointsAtLeast { count: u8 },
    ActiveIsElement { element: Element },
    ActiveIsNamed { names: Vec<String> },
    ActiveRetreatCostAtLeast { amount: u8 },
    ActiveIsSubtype { subtype: String },
    OwnInPlaySubtype { subtype: String },
    OwnBenchSubtype { subtype: String },
    OwnInPlayBasic,
    OwnInPlayElement { element: Element },
    OwnBenchHasEnergy,
    OwnBenchHasEmpty,
    OppHasTool,
    OppActiveHasAttack,
    OwnInPlayDamaged { element: Option<Element>, stage: Option<Stage> },

    // -------- Target enumerators --------
    /// One Action per damaged own Pokémon (active + bench), optionally
    /// filtered by element and/or stage.  Used by Potion, Erika, Leaf
    /// supporters, Pokémon Center Lady, Lillie.
    HealOwnTarget { element: Option<Element>, stage: Option<Stage> },
    /// One Action per own Pokémon **without a tool already attached**,
    /// optionally filtered by element (Inflatable Boat → Water).
    ToolTarget { element: Option<Element> },
    /// One Action per unordered pair of own benched Pokémon.  Used by
    /// Manaphy AttachWaterTwoBench.
    OwnBenchPair,
    /// One Action per opponent bench slot, optionally filtered to damaged.
    OppBenchTarget { damaged_only: bool },
    /// One Action per opponent in-play Pokémon (active + bench).
    OppAnyTarget,
    /// One Action per own in-play Pokémon, optionally filtered by element.
    OwnPokemonTarget { element: Option<Element> },
}

/// Whether `c` is a yes/no precondition (as opposed to a target enumerator).
pub open spec fn is_bool_cond(c: LegalCondition) -> bool {
    !(c is HealOwnTarget || c is ToolTarget || c is OwnBenchPair || c is OppBenchTarget || c is OppAnyTarget
        || c is OwnPokemonTarget)
}

/// Whether `c` is a yes/no precondition.
pub fn is_boolean(c: &LegalCondition) -> (r: bool)
    ensures
        r == is_bool_cond(*c),
{
    match c {
        LegalCondition::HealOwnTarget { .. } => false,
        LegalCondition::ToolTarget { .. } => false,
        LegalCondition::OwnBenchPair => false,
        LegalCondition::OppBenchTarget { .. } => false,
        LegalCondition::OppAnyTarget => false,
        LegalCondition::OwnPokemonTarget { .. } => false,
        _ => true,
    }
}

/// The card of `s`, if the database has it.
pub open spec fn card_of(db: CardDb, s: PokemonSlot) -> Option<Card> {
    db.card(s.card_idx)
}

/// `name` is one of `names`, both lower-cased.
pub open spec fn name_in(names: Seq<String>, name: Seq<char>) -> bool {
    exists|i: int| 0 <= i < names.len() && lowered(#[trigger] names[i]@) == lowered(name)
}

/// Whether `name` is one of `names`, both lower-cased.
fn name_in_exec(names: &Vec<String>, name: &str) -> (r: bool)
    ensures
        r == name_in(names@, name@),
{
    let target = to_lowercase(name);
    let mut i: usize = 0;
    while i < names.len()
        invariant
            i <= names@.len(),
            target@ == lowered(name@),
            forall|j: int| 0 <= j < i ==> lowered(#[trigger] names@[j]@) != lowered(name@),
        decreases names.len() - i,
    {
        let n = to_lowercase(names[i].as_str());
        if str_eq(n.as_str(), target.as_str()) {
            assert(lowered(names@[i as int]@) == lowered(name@));
            return true;
        }
        i = i + 1;
    }
    false
}

/// Card `idx` exists and its name is one of `names` (lower-cased).
pub open spec fn card_named(db: CardDb, idx: u16, names: Seq<String>) -> bool {
    db.card(idx) matches Some(cd) && name_in(names, cd.name@)
}

/// The card's name is one of the Ultra Beasts.
pub open spec fn is_ultra_beast(c: Card) -> bool {
    c.name@ == "Nihilego"@ || c.name@ == "Celesteela"@ || c.name@ == "Guzzlord ex"@
}

/// The Pokémon `s` is an Ultra Beast.
pub open spec fn slot_is_ub(db: CardDb, s: PokemonSlot) -> bool {
    card_of(db, s) matches Some(c) && is_ultra_beast(c)
}

fn slot_is_ub_exec(db: &CardDb, s: &PokemonSlot) -> (r: bool)
    ensures
        r == slot_is_ub(*db, *s),
{
    match db.try_get_by_idx(s.card_idx) {
        Some(c) => str_eq(c.name.as_str(), "Nihilego") || str_eq(c.name.as_str(), "Celesteela") || str_eq(
            c.name.as_str(),
            "Guzzlord ex",
        ),
        None => false,
    }
}

/// `o` holds a Pokémon satisfying `f`.
pub open spec fn some_slot(o: Option<PokemonSlot>, f: spec_fn(PokemonSlot) -> bool) -> bool {
    o matches Some(s) && f(s)
}

/// The active or a benched Pokémon of `pv` satisfies `f`.
pub open spec fn any_in_play(pv: PlayerView, f: spec_fn(PokemonSlot) -> bool) -> bool {
    some_slot(pv.active, f) || some_slot(pv.bench[0], f) || some_slot(pv.bench[1], f) || some_slot(pv.bench[2], f)
}

/// A benched Pokémon of `pv` satisfies `f`.
pub open spec fn any_on_bench(pv: PlayerView, f: spec_fn(PokemonSlot) -> bool) -> bool {
    some_slot(pv.bench[0], f) || some_slot(pv.bench[1], f) || some_slot(pv.bench[2], f)
}

/// The Pokémon `s` is damaged and matches the optional type and stage.
pub open spec fn damaged_match(db: CardDb, s: PokemonSlot, element: Option<Element>, stage: Option<Stage>) -> bool {
    &&& s.current_hp < s.max_hp
    &&& card_of(db, s) is Some
    &&& (element matches Some(el) ==> card_of(db, s)->0.element == Some(el))
    &&& (stage matches Some(st) ==> card_of(db, s)->0.stage == Some(st))
}

fn damaged_match_exec(db: &CardDb, s: &PokemonSlot, element: Option<Element>, stage: Option<Stage>) -> (r: bool)
    ensures
        r == damaged_match(*db, *s, element, stage),
{
    if s.current_hp >= s.max_hp {
        return false;
    }
    let card = match db.try_get_by_idx(s.card_idx) {
        Some(c) => c,
        None => {
            return false;
        },
    };
    if let Some(el) = element {
        match card.element {
            Some(ce) => {
                if ce != el {
                    return false;
                }
            },
            None => {
                return false;
            },
        }
    }
    if let Some(st) = stage {
        match card.stage {
            Some(cs) => {
                if cs != st {
                    return false;
                }
            },
            None => {
                return false;
            },
        }
    }
    true
}

/// The first bench-retreat reduction among a tool's effects (0 if none).
pub open spec fn retreat_reduction(effects: Seq<EffectKind>) -> i16
    decreases effects.len(),
{
    if effects.len() == 0 {
        0
    } else {
        match effects[0] {
            EffectKind::PassiveBenchRetreatReduction { amount } => amount,
            _ => retreat_reduction(effects.drop_first()),
        }
    }
}

fn retreat_reduction_exec(effects: &Vec<EffectKind>) -> (r: i16)
    ensures
        r == retreat_reduction(effects@),
{
    let mut i: usize = 0;
    assert(effects@.subrange(0, effects@.len() as int) =~= effects@);
    while i < effects.len()
        invariant
            i <= effects@.len(),
            retreat_reduction(effects@) == retreat_reduction(effects@.subrange(i as int, effects@.len() as int)),
        decreases effects.len() - i,
    {
        assert(effects@.subrange(i as int, effects@.len() as int)[0] == effects@[i as int]);
        assert(effects@.subrange(i as int, effects@.len() as int).drop_first() =~= effects@.subrange(i + 1, effects@.len() as int));
        match &effects[i] {
            EffectKind::PassiveBenchRetreatReduction { amount } => {
                return *amount;
            },
            _ => {},
        }
        i = i + 1;
    }
    0
}

/// The reduction granted by the tool on `s` (0 without one).
pub open spec fn tool_reduction(db: CardDb, s: PokemonSlot) -> i16 {
    match s.tool_idx {
        Some(t) => match db.card(t) {
            Some(tool) => retreat_reduction(tool.trainer_effects@),
            None => 0,
        },
        None => 0,
    }
}

/// The retreat cost of the active Pokémon before clamping: card cost plus
/// the player's modifier minus the tool's reduction.
pub open spec fn raw_retreat(db: CardDb, pv: PlayerView, s: PokemonSlot) -> int {
    db.card(s.card_idx)->0.retreat_cost + pv.retreat_cost_modifier - tool_reduction(db, s)
}

/// The retreat computation of `ActiveRetreatCostAtLeast` stays within `i16`.
pub open spec fn retreat_fits(db: CardDb, pv: PlayerView) -> bool {
    match pv.active {
        Some(s) => db.card(s.card_idx) is Some ==> i16::MIN <= raw_retreat(db, pv, s) <= i16::MAX,
        None => true,
    }
}

/// Whether `c` holds for player `cp` in `g`.
pub open spec fn cond_holds(c: LegalCondition, g: GameView, db: CardDb, cp: int) -> bool {
    let me = g.players[cp];
    let opp = g.players[1 - cp];
    match c {
        LegalCondition::OwnBenchAtLeast { count } => me.bench_occupied() >= count,
        LegalCondition::OppBenchAtLeast { count } => opp.bench_occupied() >= count,
        LegalCondition::OppHandAtLeast { count } => opp.hand.len() >= count,
        LegalCondition::OwnDeckHasBasic => exists|i: int|
            0 <= i < me.deck.len() && #[trigger] db.matches(me.deck[i], crate::card::CardFilter::BasicPokemon),
        LegalCondition::OwnDeckHasPokemon => exists|i: int|
            0 <= i < me.deck.len() && #[trigger] db.matches(me.deck[i], crate::card::CardFilter::Pokemon),
        LegalCondition::OwnDeckHasNamed { names } => exists|i: int|
            0 <= i < me.deck.len() && #[trigger] card_named(db, me.deck[i], names@),
        LegalCondition::OwnEnergyDiscardAtLeast { count, element } => match element {
            Some(el) => me.energy_discard[el.index()] >= count,
            None => energy_sum(me.energy_discard) >= count,
        },
        LegalCondition::OppPointsAtLeast { count } => opp.points >= count,
        LegalCondition::ActiveIsElement { element } => me.active matches Some(s) && card_of(db, s) matches Some(cd)
            && cd.element == Some(element),
        LegalCondition::ActiveIsNamed { names } => me.active matches Some(s) && card_of(db, s) matches Some(cd) && name_in(
            names@,
            cd.name@,
        ),
        LegalCondition::ActiveRetreatCostAtLeast { amount } => me.active matches Some(s) && card_of(db, s) matches Some(cd)
            && cd.retreat_cost != 255 && ((if raw_retreat(db, me, s) < 0 { 0 } else { raw_retreat(db, me, s) }) as u8) >= amount,
        LegalCondition::ActiveIsSubtype { subtype } => eq_ignore_ascii_case(subtype@, "ultra beast"@) && some_slot(
            me.active,
            |s: PokemonSlot| slot_is_ub(db, s),
        ),
        LegalCondition::OwnInPlaySubtype { subtype } => eq_ignore_ascii_case(subtype@, "ultra beast"@) && any_in_play(
            me,
            |s: PokemonSlot| slot_is_ub(db, s),
        ),
        LegalCondition::OwnBenchSubtype { subtype } => eq_ignore_ascii_case(subtype@, "ultra beast"@) && any_on_bench(
            me,
            |s: PokemonSlot| slot_is_ub(db, s),
        ),
        LegalCondition::OwnInPlayBasic => any_in_play(
            me,
            |s: PokemonSlot| card_of(db, s) matches Some(cd) && cd.stage == Some(Stage::Basic),
        ),
        LegalCondition::OwnInPlayElement { element } => any_in_play(
            me,
            |s: PokemonSlot| card_of(db, s) matches Some(cd) && cd.element == Some(element),
        ),
        LegalCondition::OwnBenchHasEnergy => any_on_bench(me, |s: PokemonSlot| s.energy_count() > 0),
        LegalCondition::OwnBenchHasEmpty => me.bench[0] is None || me.bench[1] is None || me.bench[2] is None,
        LegalCondition::OppHasTool => any_in_play(opp, |s: PokemonSlot| s.tool_idx is Some),
        LegalCondition::OppActiveHasAttack => opp.active matches Some(s) && card_of(db, s) matches Some(cd)
            && cd.attacks@.len() > 0,
        LegalCondition::OwnInPlayDamaged { element, stage } => any_in_play(
            me,
            |s: PokemonSlot| damaged_match(db, s, element, stage),
        ),
        _ => true,
    }
}

/// What evaluating `c` needs so as not to overflow.
pub open spec fn cond_ok(c: LegalCondition, g: GameView, db: CardDb, cp: int) -> bool {
    match c {
        LegalCondition::OwnEnergyDiscardAtLeast { count, element } => element is None ==> energy_sum(
            g.players[cp].energy_discard,
        ) <= 255,
        LegalCondition::ActiveRetreatCostAtLeast { amount } => retreat_fits(db, g.players[cp]),
        _ => true,
    }
}

/// A test on one Pokémon in play.
pub enum SlotTest {
    UltraBeast,
    Basic,
    OfElement(Element),
    HasEnergy,
    HasTool,
    Damaged(Option<Element>, Option<Stage>),
    /// No tool yet, and of the given type when one is given.
    ToolFree(Option<Element>),
    /// Of the given type when one is given.
    OfOptElement(Option<Element>),
    /// Damaged, when `true`; anything, when `false`.
    DamagedIf(bool),
}

/// Whether `s` passes the test `t`.
pub open spec fn passes(db: CardDb, s: PokemonSlot, t: SlotTest) -> bool {
    match t {
        SlotTest::UltraBeast => slot_is_ub(db, s),
        SlotTest::Basic => card_of(db, s) matches Some(cd) && cd.stage == Some(Stage::Basic),
        SlotTest::OfElement(e) => card_of(db, s) matches Some(cd) && cd.element == Some(e),
        SlotTest::HasEnergy => s.energy_count() > 0,
        SlotTest::HasTool => s.tool_idx is Some,
        SlotTest::Damaged(el, st) => damaged_match(db, s, el, st),
        SlotTest::ToolFree(el) => s.tool_idx is None && (el matches Some(e) ==> (card_of(db, s) matches Some(cd) && cd.element == Some(e))),
        SlotTest::OfOptElement(el) => el matches Some(e) ==> (card_of(db, s) matches Some(cd) && cd.element == Some(e)),
        SlotTest::DamagedIf(d) => d ==> s.current_hp < s.max_hp,
    }
}

fn of_element(db: &CardDb, s: &PokemonSlot, e: Element) -> (r: bool)
    ensures
        r == (card_of(*db, *s) matches Some(cd) && cd.element == Some(e)),
{
    match db.try_get_by_idx(s.card_idx) {
        Some(cd) => match cd.element {
            Some(ce) => ce == e,
            None => false,
        },
        None => false,
    }
}

fn passes_exec(db: &CardDb, s: &PokemonSlot, t: &SlotTest) -> (r: bool)
    ensures
        r == passes(*db, *s, *t),
{
    match t {
        SlotTest::UltraBeast => slot_is_ub_exec(db, s),
        SlotTest::Basic => match db.try_get_by_idx(s.card_idx) {
            Some(cd) => matches!(cd.stage, Some(Stage::Basic)),
            None => false,
        },
        SlotTest::OfElement(e) => match db.try_get_by_idx(s.card_idx) {
            Some(cd) => match cd.element {
                Some(ce) => ce == *e,
                None => false,
            },
            None => false,
        },
        SlotTest::HasEnergy => s.total_energy() > 0,
        SlotTest::HasTool => s.tool_idx.is_some(),
        SlotTest::Damaged(el, st) => damaged_match_exec(db, s, *el, *st),
        SlotTest::ToolFree(el) => {
            if s.tool_idx.is_some() {
                return false;
            }
            match el {
                Some(e) => of_element(db, s, *e),
                None => true,
            }
        },
        SlotTest::OfOptElement(el) => match el {
            Some(e) => of_element(db, s, *e),
            None => true,
        },
        SlotTest::DamagedIf(d) => !*d || s.current_hp < s.max_hp,
    }
}

fn opt_passes(db: &CardDb, o: &Option<PokemonSlot>, t: &SlotTest) -> (r: bool)
    ensures
        r == some_slot(*o, |s: PokemonSlot| passes(*db, s, *t)),
{
    match o {
        Some(s) => passes_exec(db, s, t),
        None => false,
    }
}

/// Whether a benched Pokémon of player `p` passes `t`.
fn bench_passes(state: &GameState, db: &CardDb, p: usize, t: &SlotTest) -> (r: bool)
    requires
        p < 2,
    ensures
        r == any_on_bench(state@.players[p as int], |s: PokemonSlot| passes(*db, s, *t)),
{
    opt_passes(db, &state.players[p].bench[0], t) || opt_passes(db, &state.players[p].bench[1], t) || opt_passes(
        db,
        &state.players[p].bench[2],
        t,
    )
}

/// Whether the active or a benched Pokémon of player `p` passes `t`.
fn in_play_passes(state: &GameState, db: &CardDb, p: usize, t: &SlotTest) -> (r: bool)
    requires
        p < 2,
    ensures
        r == any_in_play(state@.players[p as int], |s: PokemonSlot| passes(*db, s, *t)),
{
    opt_passes(db, &state.players[p].active, t) || bench_passes(state, db, p, t)
}

/// Number of occupied bench spots.
fn count_bench(p: &crate::state::PlayerState) -> (r: usize)
    ensures
        r == p@.bench_occupied(),
{
    p.bench_count()
}

/// Whether player `p`'s deck holds a card passing `f`.
fn deck_has(state: &GameState, db: &CardDb, p: usize, f: &crate::card::CardFilter) -> (r: bool)
    requires
        p < 2,
    ensures
        r == exists|i: int| 0 <= i < state@.players[p as int].deck.len() && #[trigger] db.matches(state@.players[p as int].deck[i], *f),
{
    let n = state.players[p].deck.len();
    let mut i: usize = 0;
    while i < n
        invariant
            p < 2,
            n == state@.players[p as int].deck.len(),
            i <= n,
            forall|j: int| 0 <= j < i ==> !#[trigger] db.matches(state@.players[p as int].deck[j], *f),
        decreases n - i,
    {
        if db.card_matches(state.players[p].deck[i], f) {
            return true;
        }
        i = i + 1;
    }
    false
}

/// Whether player `p`'s deck holds a card named in `names`.
fn deck_has_named(state: &GameState, db: &CardDb, p: usize, names: &Vec<String>) -> (r: bool)
    requires
        p < 2,
    ensures
        r == exists|i: int| 0 <= i < state@.players[p as int].deck.len() && #[trigger] card_named(*db, state@.players[p as int].deck[i], names@),
{
    let n = state.players[p].deck.len();
    let mut i: usize = 0;
    while i < n
        invariant
            p < 2,
            n == state@.players[p as int].deck.len(),
            i <= n,
            forall|j: int| 0 <= j < i ==> !#[trigger] card_named(*db, state@.players[p as int].deck[j], names@),
        decreases n - i,
    {
        let hit = match db.try_get_by_idx(state.players[p].deck[i]) {
            Some(cd) => name_in_exec(names, cd.name.as_str()),
            None => false,
        };
        if hit {
            assert(card_named(*db, state@.players[p as int].deck[i as int], names@));
            return true;
        }
        i = i + 1;
    }
    false
}

/// Sum of the energy discard counters (at most 255 by requirement).
fn discard_total(pl: &crate::state::PlayerState) -> (r: u8)
    requires
        energy_sum(pl.energy_discard@) <= 255,
    ensures
        r == energy_sum(pl.energy_discard@),
{
    let mut acc: u16 = 0;
    let mut i: usize = 0;
    while i < 8
        invariant
            i <= 8,
            acc == energy_sum(pl.energy_discard@.subrange(0, i as int)),
            acc <= 255 * i,
        decreases 8 - i,
    {
        proof {
            let t = pl.energy_discard@.subrange(0, i + 1);
            assert(t.drop_last() =~= pl.energy_discard@.subrange(0, i as int));
        }
        acc = acc + pl.energy_discard[i] as u16;
        i = i + 1;
    }
    assert(pl.energy_discard@.subrange(0, 8) =~= pl.energy_discard@);
    acc as u8
}

/// The effective retreat cost test of `ActiveRetreatCostAtLeast`.
fn retreat_at_least(state: &GameState, db: &CardDb, cp: usize, amount: u8) -> (r: bool)
    requires
        cp < 2,
        retreat_fits(*db, state@.players[cp as int]),
    ensures
        r == cond_holds(LegalCondition::ActiveRetreatCostAtLeast { amount }, state@, *db, cp as int),
{
    let player = &state.players[cp];
    let s = match &player.active {
        Some(s) => s,
        None => {
            return false;
        },
    };
    let c = match db.try_get_by_idx(s.card_idx) {
        Some(c) => c,
        None => {
            return false;
        },
    };
    let base_cost = c.retreat_cost;
    if base_cost == 255 {
        return false;
    }
    let modifier = player.retreat_cost_modifier as i16;
    let tool_red: i16 = match s.tool_idx {
        Some(t) => match db.try_get_by_idx(t) {
            Some(tool) => retreat_reduction_exec(&tool.trainer_effects),
            None => 0,
        },
        None => 0,
    };
    let raw = base_cost as i16 + modifier - tool_red;
    let effective = if raw < 0 { 0u8 } else { raw as u8 };
    effective >= amount
}

/// Whether the yes/no condition `c` holds for player `cp`; target
/// enumerators count as holding.
pub fn eval_bool(c: &LegalCondition, state: &GameState, db: &CardDb, cp: usize) -> (r: bool)
    requires
        cp < 2,
        cond_ok(*c, state@, *db, cp as int),
    ensures
        r == cond_holds(*c, state@, *db, cp as int),
{
    let player = &state.players[cp];
    let opp = &state.players[1 - cp];
    match c {
        LegalCondition::OwnBenchAtLeast { count } => count_bench(player) >= *count as usize,
        LegalCondition::OppBenchAtLeast { count } => count_bench(opp) >= *count as usize,
        LegalCondition::OppHandAtLeast { count } => opp.hand.len() >= *count as usize,
        LegalCondition::OwnDeckHasBasic => deck_has(state, db, cp, &crate::card::CardFilter::BasicPokemon),
        LegalCondition::OwnDeckHasPokemon => deck_has(state, db, cp, &crate::card::CardFilter::Pokemon),
        LegalCondition::OwnDeckHasNamed { names } => deck_has_named(state, db, cp, names),
        LegalCondition::OwnEnergyDiscardAtLeast { count, element } => match element {
            Some(el) => player.energy_discard[el.idx()] >= *count,
            None => discard_total(player) >= *count,
        },
        LegalCondition::OppPointsAtLeast { count } => opp.points >= *count,
        LegalCondition::ActiveIsElement { element } => match &player.active {
            Some(s) => passes_exec(db, s, &SlotTest::OfElement(*element)),
            None => false,
        },
        LegalCondition::ActiveIsNamed { names } => match &player.active {
            Some(s) => match db.try_get_by_idx(s.card_idx) {
                Some(cd) => name_in_exec(names, cd.name.as_str()),
                None => false,
            },
            None => false,
        },
        LegalCondition::ActiveRetreatCostAtLeast { amount } => retreat_at_least(state, db, cp, *amount),
        LegalCondition::ActiveIsSubtype { subtype } => {
            if !str_eq_ignore_ascii_case(subtype.as_str(), "ultra beast") {
                return false;
            }
            opt_passes(db, &player.active, &SlotTest::UltraBeast)
        },
        LegalCondition::OwnInPlaySubtype { subtype } => {
            if !str_eq_ignore_ascii_case(subtype.as_str(), "ultra beast") {
                return false;
            }
            in_play_passes(state, db, cp, &SlotTest::UltraBeast)
        },
        LegalCondition::OwnBenchSubtype { subtype } => {
            if !str_eq_ignore_ascii_case(subtype.as_str(), "ultra beast") {
                return false;
            }
            bench_passes(state, db, cp, &SlotTest::UltraBeast)
        },
        LegalCondition::OwnInPlayBasic => in_play_passes(state, db, cp, &SlotTest::Basic),
        LegalCondition::OwnInPlayElement { element } => in_play_passes(state, db, cp, &SlotTest::OfElement(*element)),
        LegalCondition::OwnBenchHasEnergy => bench_passes(state, db, cp, &SlotTest::HasEnergy),
        LegalCondition::OwnBenchHasEmpty => player.bench[0].is_none() || player.bench[1].is_none() || player.bench[2].is_none(),
        LegalCondition::OppHasTool => in_play_passes(state, db, 1 - cp, &SlotTest::HasTool),
        LegalCondition::OppActiveHasAttack => match &opp.active {
            Some(s) => match db.try_get_by_idx(s.card_idx) {
                Some(cd) => cd.attacks.len() > 0,
                None => false,
            },
            None => false,
        },
        LegalCondition::OwnInPlayDamaged { element, stage } => in_play_passes(
            state,
            db,
            cp,
            &SlotTest::Damaged(*element, *stage),
        ),
        _ => true,
    }
}

/// Spot `r` as a target when it holds a Pokémon passing `t`.
pub open spec fn target_if(o: Option<PokemonSlot>, db: CardDb, t: SlotTest, r: SlotRef) -> Seq<Option<SlotRef>> {
    if some_slot(o, |s: PokemonSlot| passes(db, s, t)) {
        seq![Some(r)]
    } else {
        Seq::empty()
    }
}

/// The bench spots of player `p` holding a Pokémon that passes `t`.
pub open spec fn bench_targets(g: GameView, db: CardDb, p: int, t: SlotTest) -> Seq<Option<SlotRef>> {
    let pv = g.players[p];
    target_if(pv.bench[0], db, t, SlotRef { player: p as u8, slot: 0i8 }) + target_if(
        pv.bench[1],
        db,
        t,
        SlotRef { player: p as u8, slot: 1i8 },
    ) + target_if(pv.bench[2], db, t, SlotRef { player: p as u8, slot: 2i8 })
}

/// The active spot and then the bench spots of player `p` holding a
/// Pokémon that passes `t`.
pub open spec fn play_targets(g: GameView, db: CardDb, p: int, t: SlotTest) -> Seq<Option<SlotRef>> {
    target_if(g.players[p].active, db, t, SlotRef { player: p as u8, slot: -1i8 }) + bench_targets(g, db, p, t)
}

fn push_if(out: &mut Vec<Option<SlotRef>>, o: &Option<PokemonSlot>, db: &CardDb, t: &SlotTest, r: SlotRef)
    ensures
        final(out)@ == old(out)@ + target_if(*o, *db, *t, r),
{
    if opt_passes(db, o, t) {
        out.push(Some(r));
        assert(final(out)@ =~= old(out)@ + seq![Some(r)]);
    } else {
        assert(final(out)@ =~= old(out)@ + Seq::<Option<SlotRef>>::empty());
    }
}

fn bench_targets_exec(state: &GameState, db: &CardDb, p: usize, t: &SlotTest, out: &mut Vec<Option<SlotRef>>)
    requires
        p < 2,
    ensures
        final(out)@ == old(out)@ + bench_targets(state@, *db, p as int, *t),
{
    push_if(out, &state.players[p].bench[0], db, t, SlotRef::bench(p, 0));
    push_if(out, &state.players[p].bench[1], db, t, SlotRef::bench(p, 1));
    push_if(out, &state.players[p].bench[2], db, t, SlotRef::bench(p, 2));
    assert(final(out)@ =~= old(out)@ + bench_targets(state@, *db, p as int, *t));
}

fn play_targets_exec(state: &GameState, db: &CardDb, p: usize, t: &SlotTest) -> (r: Vec<Option<SlotRef>>)
    requires
        p < 2,
    ensures
        r@ == play_targets(state@, *db, p as int, *t),
{
    let mut out: Vec<Option<SlotRef>> = Vec::new();
    push_if(&mut out, &state.players[p].active, db, t, SlotRef::active(p));
    bench_targets_exec(state, db, p, t, &mut out);
    assert(out@ =~= play_targets(state@, *db, p as int, *t));
    out
}

/// One target per damaged own Pokémon (active first), optionally of the
/// given type and stage.
fn heal_own_targets(state: &GameState, db: &CardDb, cp: usize, element: Option<Element>, stage: Option<Stage>) -> (r: Vec<Option<SlotRef>>)
    requires
        cp < 2,
    ensures
        r@ == play_targets(state@, *db, cp as int, SlotTest::Damaged(element, stage)),
{
    play_targets_exec(state, db, cp, &SlotTest::Damaged(element, stage))
}

/// One target per own Pokémon without a tool, optionally of the given type.
fn tool_targets(state: &GameState, db: &CardDb, cp: usize, element: Option<Element>) -> (r: Vec<Option<SlotRef>>)
    requires
        cp < 2,
    ensures
        r@ == play_targets(state@, *db, cp as int, SlotTest::ToolFree(element)),
{
    play_targets_exec(state, db, cp, &SlotTest::ToolFree(element))
}

/// One target per benched opponent Pokémon, only damaged ones when
/// `damaged_only`.
fn opp_bench_targets(state: &GameState, db: &CardDb, cp: usize, damaged_only: bool) -> (r: Vec<Option<SlotRef>>)
    requires
        cp < 2,
    ensures
        r@ == bench_targets(state@, *db, 1 - cp, SlotTest::DamagedIf(damaged_only)),
{
    let mut out: Vec<Option<SlotRef>> = Vec::new();
    bench_targets_exec(state, db, 1 - cp, &SlotTest::DamagedIf(damaged_only), &mut out);
    assert(out@ =~= bench_targets(state@, *db, 1 - cp, SlotTest::DamagedIf(damaged_only)));
    out
}

/// One target per opponent Pokémon in play, active first.
fn opp_any_targets(state: &GameState, db: &CardDb, cp: usize) -> (r: Vec<Option<SlotRef>>)
    requires
        cp < 2,
    ensures
        r@ == play_targets(state@, *db, 1 - cp, SlotTest::DamagedIf(false)),
{
    play_targets_exec(state, db, 1 - cp, &SlotTest::DamagedIf(false))
}

/// One target per own Pokémon in play, optionally of the given type.
fn own_pokemon_targets(state: &GameState, db: &CardDb, cp: usize, element: Option<Element>) -> (r: Vec<Option<SlotRef>>)
    requires
        cp < 2,
    ensures
        r@ == play_targets(state@, *db, cp as int, SlotTest::OfOptElement(element)),
{
    play_targets_exec(state, db, cp, &SlotTest::OfOptElement(element))
}

/// The actions of an own-bench-pair enumerator: one per unordered pair of
/// benched Pokémon, else one aimed at the single benched Pokémon, else one
/// without a target.
pub open spec fn pair_actions(g: GameView, cp: int, base: BaseAction) -> Seq<Action> {
    let ix = occupied_benches(g, cp);
    let b = |i: int| SlotRef { player: cp as u8, slot: i as i8 };
    if ix.len() == 3 {
        seq![base.two_targeted(b(ix[0]), b(ix[1])), base.two_targeted(b(ix[0]), b(ix[2])), base.two_targeted(b(ix[1]), b(ix[2]))]
    } else if ix.len() == 2 {
        seq![base.two_targeted(b(ix[0]), b(ix[1]))]
    } else if ix.len() == 1 {
        seq![base.targeted(Some(b(ix[0])))]
    } else {
        seq![base.targeted(None)]
    }
}

fn own_bench_pair_actions(state: &GameState, cp: usize, base: BaseAction) -> (r: Vec<Action>)
    requires
        cp < 2,
    ensures
        r@ == pair_actions(state@, cp as int, base),
{
    let mut ix: Vec<usize> = Vec::new();
    if state.players[cp].bench[0].is_some() {
        ix.push(0);
    }
    if state.players[cp].bench[1].is_some() {
        ix.push(1);
    }
    if state.players[cp].bench[2].is_some() {
        ix.push(2);
    }
    assert(ix@.map_values(|x: usize| x as int) =~= occupied_benches(state@, cp as int));
    let mut out: Vec<Action> = Vec::new();
    let n = ix.len();
    if n == 3 {
        out.push(base.with_two_targets(SlotRef::bench(cp, ix[0]), SlotRef::bench(cp, ix[1])));
        out.push(base.with_two_targets(SlotRef::bench(cp, ix[0]), SlotRef::bench(cp, ix[2])));
        out.push(base.with_two_targets(SlotRef::bench(cp, ix[1]), SlotRef::bench(cp, ix[2])));
    } else if n == 2 {
        out.push(base.with_two_targets(SlotRef::bench(cp, ix[0]), SlotRef::bench(cp, ix[1])));
    } else if n == 1 {
        out.push(base.with_target(Some(SlotRef::bench(cp, ix[0]))));
    } else {
        out.push(base.with_target(None));
    }
    assert(out@ =~= pair_actions(state@, cp as int, base));
    out
}

/// The target list that enumerator `c` produces (empty for other conditions).
pub open spec fn targets_of(c: LegalCondition, g: GameView, db: CardDb, cp: int) -> Seq<Option<SlotRef>> {
    match c {
        LegalCondition::HealOwnTarget { element, stage } => play_targets(g, db, cp, SlotTest::Damaged(element, stage)),
        LegalCondition::ToolTarget { element } => play_targets(g, db, cp, SlotTest::ToolFree(element)),
        LegalCondition::OppBenchTarget { damaged_only } => bench_targets(g, db, 1 - cp, SlotTest::DamagedIf(damaged_only)),
        LegalCondition::OppAnyTarget => play_targets(g, db, 1 - cp, SlotTest::DamagedIf(false)),
        LegalCondition::OwnPokemonTarget { element } => play_targets(g, db, cp, SlotTest::OfOptElement(element)),
        _ => Seq::empty(),
    }
}

/// `c` enumerates single targets.
pub open spec fn lists_targets(c: LegalCondition) -> bool {
    c is HealOwnTarget || c is ToolTarget || c is OppBenchTarget || c is OppAnyTarget || c is OwnPokemonTarget
}

/// The target lists of the single-target enumerators among `conds`, in order.
pub open spec fn target_lists(conds: Seq<LegalCondition>, g: GameView, db: CardDb, cp: int) -> Seq<Seq<Option<SlotRef>>>
    decreases conds.len(),
{
    if conds.len() == 0 {
        Seq::empty()
    } else if lists_targets(conds.last()) {
        target_lists(conds.drop_last(), g, db, cp).push(targets_of(conds.last(), g, db, cp))
    } else {
        target_lists(conds.drop_last(), g, db, cp)
    }
}

/// Product of the lengths of `lists[lo..hi]`.
pub open spec fn prod_lens(lists: Seq<Seq<Option<SlotRef>>>, lo: int, hi: int) -> nat
    decreases hi - lo,
{
    if hi <= lo {
        1
    } else {
        prod_lens(lists, lo, hi - 1) * lists[hi - 1].len()
    }
}

/// Each element of `l`, in order, repeated `n` times.
pub open spec fn repeat_each(l: Seq<Option<SlotRef>>, n: nat) -> Seq<Option<SlotRef>>
    decreases l.len(),
{
    if l.len() == 0 {
        Seq::empty()
    } else {
        repeat_each(l.drop_last(), n) + Seq::new(n, |k: int| l.last())
    }
}

/// The actions `enumerate_legal_actions` yields: none when a yes/no
/// condition fails; the bench-pair actions when that enumerator is present;
/// a single untargeted action without enumerators; otherwise one action per
/// combination of targets (none when a list is empty), aimed at the target
/// from the first list.
pub open spec fn legal_actions(conds: Seq<LegalCondition>, g: GameView, db: CardDb, cp: int, base: BaseAction) -> Seq<Action> {
    if exists|i: int| 0 <= i < conds.len() && is_bool_cond(conds[i]) && !cond_holds(#[trigger] conds[i], g, db, cp) {
        Seq::empty()
    } else if exists|i: int| 0 <= i < conds.len() && (#[trigger] conds[i]) is OwnBenchPair {
        pair_actions(g, cp, base)
    } else {
        let lists = target_lists(conds, g, db, cp);
        if lists.len() == 0 {
            seq![base.targeted(None)]
        } else if exists|k: int| 0 <= k < lists.len() && (#[trigger] lists[k]).len() == 0 {
            Seq::empty()
        } else {
            repeat_each(lists[0], prod_lens(lists, 1, lists.len() as int)).map_values(|t: Option<SlotRef>| base.targeted(t))
        }
    }
}

/// A yes/no condition that fails leaves no legal action at all, whatever
/// the other conditions and their targets.
pub proof fn lemma_failed_condition_blocks(conds: Seq<LegalCondition>, g: GameView, db: CardDb, cp: int, base: BaseAction, i: int)
    requires
        0 <= i < conds.len(),
        is_bool_cond(conds[i]),
        !cond_holds(conds[i], g, db, cp),
    ensures
        legal_actions(conds, g, db, cp, base).len() == 0,
{
    assert(is_bool_cond(conds[i]) && !cond_holds(conds[i], g, db, cp));
}

proof fn lemma_no_target_lists(conds: Seq<LegalCondition>, g: GameView, db: CardDb, cp: int)
    requires
        forall|i: int| 0 <= i < conds.len() ==> is_bool_cond(#[trigger] conds[i]),
    ensures
        target_lists(conds, g, db, cp).len() == 0,
    decreases conds.len(),
{
    if conds.len() > 0 {
        assert(is_bool_cond(conds[conds.len() - 1]));
        lemma_no_target_lists(conds.drop_last(), g, db, cp);
    }
}

/// When every condition is a yes/no condition and each holds (in
/// particular with no condition at all), the one legal action is the
/// untargeted one.
pub proof fn lemma_all_conditions_hold(conds: Seq<LegalCondition>, g: GameView, db: CardDb, cp: int, base: BaseAction)
    requires
        forall|i: int| 0 <= i < conds.len() ==> is_bool_cond(#[trigger] conds[i]) && cond_holds(conds[i], g, db, cp),
    ensures
        legal_actions(conds, g, db, cp, base) == seq![base.targeted(None)],
{
    lemma_no_target_lists(conds, g, db, cp);
    assert(!exists|i: int| 0 <= i < conds.len() && (#[trigger] conds[i]) is OwnBenchPair);
}

/// A partial product of lengths at least one is at most the full product.
proof fn lemma_prod_mono(lists: Seq<Seq<Option<SlotRef>>>, lo: int, k: int, hi: int)
    requires
        lo <= k <= hi,
        forall|j: int| lo <= j < hi ==> (#[trigger] lists[j]).len() >= 1,
    ensures
        prod_lens(lists, lo, k) <= prod_lens(lists, lo, hi),
    decreases hi - k,
{
    if k < hi {
        lemma_prod_mono(lists, lo, k, hi - 1);
        assert(prod_lens(lists, lo, hi) == prod_lens(lists, lo, hi - 1) * lists[hi - 1].len());
        assert(prod_lens(lists, lo, hi - 1) <= prod_lens(lists, lo, hi)) by (nonlinear_arith)
            requires
                prod_lens(lists, lo, hi) == prod_lens(lists, lo, hi - 1) * lists[hi - 1].len(),
                lists[hi - 1].len() >= 1,
        ;
    }
}

/// The targets of enumerator `c`.
fn targets_exec(c: &LegalCondition, state: &GameState, db: &CardDb, cp: usize) -> (r: Vec<Option<SlotRef>>)
    requires
        cp < 2,
    ensures
        r@ == targets_of(*c, state@, *db, cp as int),
{
    match c {
        LegalCondition::HealOwnTarget { element, stage } => heal_own_targets(state, db, cp, *element, *stage),
        LegalCondition::ToolTarget { element } => tool_targets(state, db, cp, *element),
        LegalCondition::OppBenchTarget { damaged_only } => opp_bench_targets(state, db, cp, *damaged_only),
        LegalCondition::OppAnyTarget => opp_any_targets(state, db, cp),
        LegalCondition::OwnPokemonTarget { element } => own_pokemon_targets(state, db, cp, *element),
        _ => Vec::new(),
    }
}

/// The views of a list of target lists.
pub open spec fn lists_view(v: Seq<Vec<Option<SlotRef>>>) -> Seq<Seq<Option<SlotRef>>> {
    v.map_values(|l: Vec<Option<SlotRef>>| l@)
}

/// The actions a card may be played or used with: yes/no conditions gate,
/// target enumerators supply the targets.
#[verifier::loop_isolation(false)]
pub fn enumerate_legal_actions(
    conditions: &[LegalCondition],
    state: &GameState,
    db: &CardDb,
    cp: usize,
    base: BaseAction,
) -> (r: Vec<Action>)
    requires
        cp < 2,
        forall|i: int| 0 <= i < conditions@.len() ==> cond_ok(#[trigger] conditions@[i], state@, *db, cp as int),
        ({
            let lists = target_lists(conditions@, state@, *db, cp as int);
            lists.len() > 0 ==> lists[0].len() * prod_lens(lists, 1, lists.len() as int) <= usize::MAX
        }),
    ensures
        r@ == legal_actions(conditions@, state@, *db, cp as int, base),
{
    let n = conditions.len();
    let mut i: usize = 0;
    while i < n
        invariant
            cp < 2,
            n == conditions@.len(),
            i <= n,
            forall|j: int| 0 <= j < n ==> cond_ok(#[trigger] conditions@[j], state@, *db, cp as int),
            forall|j: int| 0 <= j < i ==> !(is_bool_cond(conditions@[j]) && !cond_holds(#[trigger] conditions@[j], state@, *db, cp as int)),
        decreases n - i,
    {
        if is_boolean(&conditions[i]) && !eval_bool(&conditions[i], state, db, cp) {
            assert(is_bool_cond(conditions@[i as int]) && !cond_holds(conditions@[i as int], state@, *db, cp as int));
            return Vec::new();
        }
        i = i + 1;
    }
    let mut lists: Vec<Vec<Option<SlotRef>>> = Vec::new();
    let mut pair = false;
    let mut k: usize = 0;
    while k < n
        invariant
            cp < 2,
            n == conditions@.len(),
            k <= n,
            lists_view(lists@) == target_lists(conditions@.subrange(0, k as int), state@, *db, cp as int),
            pair == exists|j: int| 0 <= j < k && (#[trigger] conditions@[j]) is OwnBenchPair,
        decreases n - k,
    {
        let ghost sub = conditions@.subrange(0, k + 1);
        assert(sub.drop_last() =~= conditions@.subrange(0, k as int));
        assert(sub.last() == conditions@[k as int]);
        match &conditions[k] {
            LegalCondition::OwnBenchPair => {
                pair = true;
            },
            LegalCondition::HealOwnTarget { .. } | LegalCondition::ToolTarget { .. } | LegalCondition::OppBenchTarget { .. }
            | LegalCondition::OppAnyTarget | LegalCondition::OwnPokemonTarget { .. } => {
                let t = targets_exec(&conditions[k], state, db, cp);
                let ghost before = lists_view(lists@);
                lists.push(t);
                assert(lists_view(lists@) =~= before.push(t@));
            },
            _ => {},
        }
        k = k + 1;
    }
    assert(conditions@.subrange(0, n as int) =~= conditions@);
    if pair {
        return own_bench_pair_actions(state, cp, base);
    }
    let ghost lv = lists_view(lists@);
    let m = lists.len();
    if m == 0 {
        let mut out: Vec<Action> = Vec::new();
        out.push(base.with_target(None));
        assert(out@ =~= seq![base.targeted(None)]);
        return out;
    }
    let mut q: usize = 0;
    while q < m
        invariant
            m == lists@.len(),
            lv == lists_view(lists@),
            q <= m,
            forall|j: int| 0 <= j < q ==> (#[trigger] lv[j]).len() >= 1,
        decreases m - q,
    {
        if lists[q].len() == 0 {
            assert(lv[q as int].len() == 0);
            return Vec::new();
        }
        q = q + 1;
    }
    let ghost total = prod_lens(lv, 1, m as int);
    let mut p: usize = 1;
    let mut j: usize = 1;
    while j < m
        invariant
            m == lists@.len(),
            lv == lists_view(lists@),
            1 <= j <= m,
            forall|x: int| 0 <= x < m ==> (#[trigger] lv[x]).len() >= 1,
            lv[0].len() * total <= usize::MAX,
            total == prod_lens(lv, 1, m as int),
            p == prod_lens(lv, 1, j as int),
        decreases m - j,
    {
        proof {
            lemma_prod_mono(lv, 1, j + 1, m as int);
            assert(total <= lv[0].len() * total) by (nonlinear_arith)
                requires
                    lv[0].len() >= 1,
            ;
            assert(prod_lens(lv, 1, j + 1) == prod_lens(lv, 1, j as int) * lv[j as int].len());
        }
        p = p * lists[j].len();
        j = j + 1;
    }
    let first = &lists[0];
    let mut out: Vec<Action> = Vec::new();
    let mut a: usize = 0;
    while a < first.len()
        invariant
            m == lists@.len(),
            lv == lists_view(lists@),
            m >= 1,
            *first == lists@[0],
            p == total,
            a <= first@.len(),
            out@ == repeat_each(first@.subrange(0, a as int), p as nat).map_values(|t: Option<SlotRef>| base.targeted(t)),
        decreases first.len() - a,
    {
        let t = first[a];
        let ghost before = out@;
        let mut c: usize = 0;
        while c < p
            invariant
                c <= p,
                out@ == before + Seq::new(c as nat, |x: int| base.targeted(t)),
            decreases p - c,
        {
            out.push(base.with_target(t));
            c = c + 1;
            assert(out@ =~= before + Seq::new(c as nat, |x: int| base.targeted(t)));
        }
        proof {
            let l = first@.subrange(0, a + 1);
            assert(l.drop_last() =~= first@.subrange(0, a as int));
            assert(l.last() == t);
            assert(repeat_each(l, p as nat) == repeat_each(first@.subrange(0, a as int), p as nat) + Seq::new(p as nat, |k: int| t));
            assert(out@ =~= repeat_each(l, p as nat).map_values(|x: Option<SlotRef>| base.targeted(x)));
        }
        a = a + 1;
    }
    assert(first@.subrange(0, first@.len() as int) =~= first@);
    assert(lv[0] == first@);
    out
}

/// A card that may be played only while the opponent has a Tool attached
/// is playable, untargeted, exactly when some Pokémon in play of the
/// opponent (player `1 - cp`), active or benched, carries a Tool; Tools on
/// player `cp`'s own Pokémon do not count.
pub proof fn lemma_opponent_tool_condition(g: GameView, db: CardDb, cp: int, base: BaseAction)
    requires
        0 <= cp < 2,
        g.wf(),
    ensures
        legal_actions(seq![LegalCondition::OppHasTool], g, db, cp, base) == if (g.players[1 - cp].active matches Some(s)
            && s.tool_idx is Some) || exists|i: int|
            0 <= i < 3 && (#[trigger] g.players[1 - cp].bench[i] matches Some(s) && s.tool_idx is Some) {
            seq![base.targeted(None)]
        } else {
            Seq::empty()
        },
{
    let conds = seq![LegalCondition::OppHasTool];
    let opp = g.players[1 - cp];
    let has = (opp.active matches Some(s) && s.tool_idx is Some) || exists|i: int|
        0 <= i < 3 && (#[trigger] opp.bench[i] matches Some(s) && s.tool_idx is Some);
    if has {
        if !(opp.active matches Some(s) && s.tool_idx is Some) {
            let i = choose|i: int| 0 <= i < 3 && (#[trigger] opp.bench[i] matches Some(s) && s.tool_idx is Some);
            assert(i == 0 || i == 1 || i == 2);
        }
        assert(cond_holds(conds[0], g, db, cp));
        lemma_all_conditions_hold(conds, g, db, cp, base);
    } else {
        assert(!(opp.bench[0] matches Some(s) && s.tool_idx is Some));
        assert(!(opp.bench[1] matches Some(s) && s.tool_idx is Some));
        assert(!(opp.bench[2] matches Some(s) && s.tool_idx is Some));
        assert(!cond_holds(conds[0], g, db, cp));
        lemma_failed_condition_blocks(conds, g, db, cp, base, 0);
    }
}

}
