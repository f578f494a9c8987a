//! Board state: Pokémon slots, players, and the whole game.
use vstd::prelude::*;
use rand::rngs::SmallRng;
use crate::actions::SlotRef;
use crate::types::{Element, GamePhase, StatusEffect};
use crate::rng::{rng_from_seed, shuffle_cards};
use vstd::array::{spec_array_fill_for_copy_type, spec_array_update};
use vstd::multiset::Multiset;

verus! {

/// Sum of an energy counter array.
pub open spec fn energy_sum(e: Seq<u8>) -> int
    decreases e.len(),
{
    if e.len() == 0 {
        0
    } else {
        energy_sum(e.drop_last()) + e.last()
    }
}

/// A Pokémon in play, with everything attached to it.
#[derive(Clone, Copy, Debug, PartialEq, Eq)]
pub struct PokemonSlot {
    pub card_idx: u16,
    pub current_hp: i16,
    pub max_hp: i16,
    /// Attached energy, one counter per element.
    pub energy: [u8; 8],
    /// Special conditions, one bit per `StatusEffect`.
    pub status: u8,
    pub tool_idx: Option<u16>,
    pub cant_attack_next_turn: bool,
    pub cant_attack_next_turn_incoming: bool,
    pub cant_retreat_next_turn: bool,
    pub cant_retreat_next_turn_incoming: bool,
    pub prevent_damage_next_turn: bool,
    pub prevent_damage_next_turn_incoming: bool,
    pub incoming_damage_reduction: i8,
    pub incoming_damage_reduction_incoming: i8,
    pub attack_bonus_next_turn_self: i8,
    pub attack_bonus_next_turn_self_incoming: i8,
    pub evolved_this_turn: bool,
    pub ability_used_this_turn: bool,
}

impl PokemonSlot {
    /// A fresh slot for `card_idx` at full `hp`.
    pub open spec fn fresh(card_idx: u16, hp: i16) -> PokemonSlot {
        PokemonSlot {
            card_idx,
            current_hp: hp,
            max_hp: hp,
            energy: spec_array_fill_for_copy_type::<u8, 8>(0u8),
            status: 0,
            tool_idx: None,
            cant_attack_next_turn: false,
            cant_attack_next_turn_incoming: false,
            cant_retreat_next_turn: false,
            cant_retreat_next_turn_incoming: false,
            prevent_damage_next_turn: false,
            prevent_damage_next_turn_incoming: false,
            incoming_damage_reduction: 0,
            incoming_damage_reduction_incoming: 0,
            attack_bonus_next_turn_self: 0,
            attack_bonus_next_turn_self_incoming: 0,
            evolved_this_turn: false,
            ability_used_this_turn: false,
        }
    }

    pub fn new(card_idx: u16, hp: i16) -> (r: Self)
        ensures
            r == PokemonSlot::fresh(card_idx, hp),
            forall|i: int| 0 <= i < 8 ==> r.energy@[i] == 0,
    {
        let r = PokemonSlot {
            card_idx,
            current_hp: hp,
            max_hp: hp,
            energy: [0u8; 8],
            status: 0,
            tool_idx: None,
            cant_attack_next_turn: false,
            cant_attack_next_turn_incoming: false,
            cant_retreat_next_turn: false,
            cant_retreat_next_turn_incoming: false,
            prevent_damage_next_turn: false,
            prevent_damage_next_turn_incoming: false,
            incoming_damage_reduction: 0,
            incoming_damage_reduction_incoming: 0,
            attack_bonus_next_turn_self: 0,
            attack_bonus_next_turn_self_incoming: 0,
            evolved_this_turn: false,
            ability_used_this_turn: false,
        };
        r
    }

    /// Total attached energy.
    pub open spec fn energy_total(self) -> int {
        energy_sum(self.energy@)
    }

    /// Total attached energy as the game counts it: saturating at 255.
    pub open spec fn energy_count(self) -> int {
        if self.energy_total() > 255 { 255 } else { self.energy_total() }
    }

    /// This slot with `n` more energy of `el` (the counter saturates at 255).
    pub open spec fn with_energy_added(self, el: Element, n: u8) -> PokemonSlot {
        let cur = self.energy@[el.index()];
        let v: u8 = if cur + n > 255 { 255 } else { (cur + n) as u8 };
        PokemonSlot { energy: spec_array_update(self.energy, el.index(), v), ..self }
    }

    pub fn add_energy(&mut self, el: Element, n: u8)
        ensures
            *final(self) == old(self).with_energy_added(el, n),
    {
        let i = el.idx();
        let cur = self.energy[i];
        if cur as u16 + n as u16 > 255 {
            self.energy[i] = 255;
        } else {
            self.energy[i] = cur + n;
        }
    }

    /// Total attached energy, saturating at 255.
    pub fn total_energy(&self) -> (r: u8)
        ensures
            r == self.energy_count(),
    {
        let mut acc: u16 = 0;
        let mut i: usize = 0;
        while i < 8
            invariant
                i <= 8,
                acc == energy_sum(self.energy@.subrange(0, i as int)),
                acc <= 255 * i,
            decreases 8 - i,
        {
            proof {
                let s = self.energy@.subrange(0, i + 1);
                assert(s.drop_last() =~= self.energy@.subrange(0, i as int));
            }
            acc = acc + self.energy[i] as u16;
            i = i + 1;
        }
        assert(self.energy@.subrange(0, 8) =~= self.energy@);
        if acc > 255 {
            255
        } else {
            acc as u8
        }
    }

    pub open spec fn status_has(self, se: StatusEffect) -> bool {
        self.status & se.mask() != 0
    }

    pub fn add_status(&mut self, se: StatusEffect)
        ensures
            *final(self) == (PokemonSlot { status: old(self).status | se.mask(), ..*old(self) }),
    {
        self.status = self.status | se.bit();
    }

    pub fn remove_status(&mut self, se: StatusEffect)
        ensures
            *final(self) == (PokemonSlot { status: old(self).status & !se.mask(), ..*old(self) }),
    {
        self.status = self.status & !se.bit();
    }

    pub fn has_status(&self, se: StatusEffect) -> (r: bool)
        ensures
            r == self.status_has(se),
    {
        self.status & se.bit() != 0
    }

    pub fn has_any_status(&self) -> (r: bool)
        ensures
            r == (self.status != 0),
    {
        self.status != 0
    }
}

/// Everything one player owns.
pub struct PlayerState {
    pub active: Option<PokemonSlot>,
    pub bench: [Option<PokemonSlot>; 3],
    pub hand: Vec<u16>,
    pub deck: Vec<u16>,
    pub discard: Vec<u16>,
    /// Discarded energy, one counter per element.
    pub energy_discard: [u8; 8],
    pub points: u8,
    /// The energy types the deck draws from its Energy Zone.
    pub energy_types: Vec<Element>,
    /// The energy currently offered by the Energy Zone.
    pub energy_available: Option<Element>,
    pub extra_poison_damage: i16,
    pub retreat_cost_modifier: i8,
    pub attack_damage_bonus: i8,
    pub attack_damage_bonus_names: Vec<String>,
    pub has_played_supporter: bool,
    pub cant_play_supporter_this_turn: bool,
    pub cant_play_supporter_incoming: bool,
    pub cant_play_items_this_turn: bool,
    pub cant_play_items_incoming: bool,
    pub cant_attach_energy_this_turn: bool,
    pub cant_attach_energy_incoming: bool,
    pub cant_heal_this_turn: bool,
}

/// The mathematical picture of a `PlayerState`.
#[verifier::ext_equal]
pub struct PlayerView {
    pub active: Option<PokemonSlot>,
    pub bench: Seq<Option<PokemonSlot>>,
    pub hand: Seq<u16>,
    pub deck: Seq<u16>,
    pub discard: Seq<u16>,
    pub energy_discard: Seq<u8>,
    pub points: u8,
    pub energy_types: Seq<Element>,
    pub energy_available: Option<Element>,
    pub extra_poison_damage: i16,
    pub retreat_cost_modifier: i8,
    pub attack_damage_bonus: i8,
    pub attack_damage_bonus_names: Seq<Seq<char>>,
    pub has_played_supporter: bool,
    pub cant_play_supporter_this_turn: bool,
    pub cant_play_supporter_incoming: bool,
    pub cant_play_items_this_turn: bool,
    pub cant_play_items_incoming: bool,
    pub cant_attach_energy_this_turn: bool,
    pub cant_attach_energy_incoming: bool,
    pub cant_heal_this_turn: bool,
}

impl View for PlayerState {
    type V = PlayerView;

    open spec fn view(&self) -> PlayerView {
        PlayerView {
            active: self.active,
            bench: self.bench@,
            hand: self.hand@,
            deck: self.deck@,
            discard: self.discard@,
            energy_discard: self.energy_discard@,
            points: self.points,
            energy_types: self.energy_types@,
            energy_available: self.energy_available,
            extra_poison_damage: self.extra_poison_damage,
            retreat_cost_modifier: self.retreat_cost_modifier,
            attack_damage_bonus: self.attack_damage_bonus,
            attack_damage_bonus_names: self.attack_damage_bonus_names@.map_values(|s: String| s@),
            has_played_supporter: self.has_played_supporter,
            cant_play_supporter_this_turn: self.cant_play_supporter_this_turn,
            cant_play_supporter_incoming: self.cant_play_supporter_incoming,
            cant_play_items_this_turn: self.cant_play_items_this_turn,
            cant_play_items_incoming: self.cant_play_items_incoming,
            cant_attach_energy_this_turn: self.cant_attach_energy_this_turn,
            cant_attach_energy_incoming: self.cant_attach_energy_incoming,
            cant_heal_this_turn: self.cant_heal_this_turn,
        }
    }
}

/// One of a player's card piles.
#[derive(Clone, Copy, Debug, PartialEq, Eq, Structural)]
pub enum Pile {
    Hand,
    Deck,
    Discard,
}

impl PlayerView {
    /// The cards of pile `k`.  The top of the deck is its last element.
    pub open spec fn pile(self, k: Pile) -> Seq<u16> {
        match k {
            Pile::Hand => self.hand,
            Pile::Deck => self.deck,
            Pile::Discard => self.discard,
        }
    }

    /// This player with pile `k` replaced by `cards`.
    pub open spec fn with_pile(self, k: Pile, cards: Seq<u16>) -> PlayerView {
        match k {
            Pile::Hand => PlayerView { hand: cards, ..self },
            Pile::Deck => PlayerView { deck: cards, ..self },
            Pile::Discard => PlayerView { discard: cards, ..self },
        }
    }

    /// Every card the player holds outside play: hand, deck and discard.
    pub open spec fn cards(self) -> Multiset<u16> {
        self.hand.to_multiset().add(self.deck.to_multiset()).add(self.discard.to_multiset())
    }

    /// Number of occupied bench slots.
    pub open spec fn bench_occupied(self) -> int {
        (if self.bench[0] is Some { 1int } else { 0int })
            + (if self.bench[1] is Some { 1int } else { 0int })
            + (if self.bench[2] is Some { 1int } else { 0int })
    }
}

/// A player before the game starts: nothing in play, empty piles, no
/// energy discarded, no points, no energy types, and every counter, bonus
/// and restriction cleared.
pub open spec fn fresh_player() -> PlayerView {
    PlayerView {
        active: None,
        bench: seq![None::<PokemonSlot>, None, None],
        hand: Seq::empty(),
        deck: Seq::empty(),
        discard: Seq::empty(),
        energy_discard: seq![0u8, 0, 0, 0, 0, 0, 0, 0],
        points: 0,
        energy_types: Seq::empty(),
        energy_available: None,
        extra_poison_damage: 0,
        retreat_cost_modifier: 0,
        attack_damage_bonus: 0,
        attack_damage_bonus_names: Seq::empty(),
        has_played_supporter: false,
        cant_play_supporter_this_turn: false,
        cant_play_supporter_incoming: false,
        cant_play_items_this_turn: false,
        cant_play_items_incoming: false,
        cant_attach_energy_this_turn: false,
        cant_attach_energy_incoming: false,
        cant_heal_this_turn: false,
    }
}

impl PlayerState {
    pub fn new() -> (r: Self)
        ensures
            r@ == fresh_player(),
            r@.active is None,
            r@.bench == seq![None::<PokemonSlot>, None, None],
            r@.hand.len() == 0,
            r@.deck.len() == 0,
            r@.discard.len() == 0,
            r@.energy_discard == seq![0u8, 0, 0, 0, 0, 0, 0, 0],
            r@.points == 0,
            r@.energy_types.len() == 0,
            r@.energy_available is None,
            r@.extra_poison_damage == 0,
            r@.retreat_cost_modifier == 0,
            r@.attack_damage_bonus == 0,
            r@.attack_damage_bonus_names.len() == 0,
            !r@.has_played_supporter,
            !r@.cant_play_supporter_this_turn,
            !r@.cant_play_supporter_incoming,
            !r@.cant_play_items_this_turn,
            !r@.cant_play_items_incoming,
            !r@.cant_attach_energy_this_turn,
            !r@.cant_attach_energy_incoming,
            !r@.cant_heal_this_turn,
    {
        let r = PlayerState {
            active: None,
            bench: [None, None, None],
            hand: Vec::new(),
            deck: Vec::new(),
            discard: Vec::new(),
            energy_discard: [0u8; 8],
            points: 0,
            energy_types: Vec::new(),
            energy_available: None,
            extra_poison_damage: 0,
            retreat_cost_modifier: 0,
            attack_damage_bonus: 0,
            attack_damage_bonus_names: Vec::new(),
            has_played_supporter: false,
            cant_play_supporter_this_turn: false,
            cant_play_supporter_incoming: false,
            cant_play_items_this_turn: false,
            cant_play_items_incoming: false,
            cant_attach_energy_this_turn: false,
            cant_attach_energy_incoming: false,
            cant_heal_this_turn: false,
        };
        assert(r.bench@ =~= seq![None::<PokemonSlot>, None, None]);
        assert(r.energy_discard@ =~= seq![0u8, 0, 0, 0, 0, 0, 0, 0]);
        assert(r.attack_damage_bonus_names@.map_values(|s: String| s@).len() == 0);
        r
    }

    /// Number of occupied bench slots.
    pub fn bench_count(&self) -> (r: usize)
        ensures
            r == self@.bench_occupied(),
    {
        let mut n: usize = 0;
        if self.bench[0].is_some() {
            n = n + 1;
        }
        if self.bench[1].is_some() {
            n = n + 1;
        }
        if self.bench[2].is_some() {
            n = n + 1;
        }
        n
    }

    /// Pokémon in play: the active one (if any) and the bench.
    pub fn total_pokemon_count(&self) -> (r: usize)
        ensures
            r == (if self@.active is Some { 1int } else { 0int }) + self@.bench_occupied(),
    {
        let b = self.bench_count();
        if self.active.is_some() {
            b + 1
        } else {
            b
        }
    }
}

/// The active spot of player `p`.
pub open spec fn active_ref(p: int) -> SlotRef {
    SlotRef { player: p as u8, slot: -1i8 }
}

/// Bench spot `i` of player `p`.
pub open spec fn bench_ref(p: int, i: int) -> SlotRef {
    SlotRef { player: p as u8, slot: i as i8 }
}

/// `s` after taking `amount` damage; HP bottoms out at 0.
pub open spec fn after_damage(s: PokemonSlot, amount: i16) -> PokemonSlot {
    PokemonSlot { current_hp: if s.current_hp - amount < 0 { 0 } else { (s.current_hp - amount) as i16 }, ..s }
}

/// Subtracting `amount` from the HP of `s` stays within `i16`.
pub open spec fn damage_fits(s: PokemonSlot, amount: i16) -> bool {
    i16::MIN <= s.current_hp - amount <= i16::MAX
}

/// A whole game.
pub struct GameState {
    pub players: [PlayerState; 2],
    pub rng: SmallRng,
    /// Narration of coin flips, for display.
    pub coin_flip_log: Vec<String>,
    pub phase: GamePhase,
    pub turn_number: u32,
    pub current_player: usize,
}

/// The mathematical picture of a `GameState` (the generator is left out).
#[verifier::ext_equal]
pub struct GameView {
    pub players: Seq<PlayerView>,
    pub coin_flip_log: Seq<Seq<char>>,
    pub phase: GamePhase,
    pub turn_number: u32,
    pub current_player: usize,
}

impl View for GameState {
    type V = GameView;

    open spec fn view(&self) -> GameView {
        GameView {
            players: self.players@.map_values(|p: PlayerState| p@),
            coin_flip_log: self.coin_flip_log@.map_values(|s: String| s@),
            phase: self.phase,
            turn_number: self.turn_number,
            current_player: self.current_player,
        }
    }
}

impl GameView {
    /// The shape every view of a `GameState` has: two players, three bench spots each.
    pub open spec fn wf(self) -> bool {
        &&& self.players.len() == 2
        &&& forall|p: int| 0 <= p < 2 ==> #[trigger] self.players[p].bench.len() == 3
    }

    /// The game with player `p` replaced by `pv`.
    pub open spec fn with_player(self, p: int, pv: PlayerView) -> GameView {
        GameView { players: self.players.update(p, pv), ..self }
    }

    /// The slot that `r` refers to, if `r` is valid and the spot is occupied.
    pub open spec fn slot(self, r: SlotRef) -> Option<PokemonSlot> {
        if !r.valid() {
            None
        } else if r.slot == -1 {
            self.players[r.player as int].active
        } else {
            self.players[r.player as int].bench[r.slot as int]
        }
    }

    /// The game with the spot `r` holding `o` (unchanged if `r` is invalid).
    pub open spec fn with_slot(self, r: SlotRef, o: Option<PokemonSlot>) -> GameView {
        if !r.valid() {
            self
        } else if r.slot == -1 {
            self.with_player(r.player as int, PlayerView { active: o, ..self.players[r.player as int] })
        } else {
            self.with_player(
                r.player as int,
                PlayerView {
                    bench: self.players[r.player as int].bench.update(r.slot as int, o),
                    ..self.players[r.player as int]
                },
            )
        }
    }

    /// The game with `f` applied to the Pokémon at `r`, if there is one.
    pub open spec fn map_slot(self, r: SlotRef, f: spec_fn(PokemonSlot) -> PokemonSlot) -> GameView {
        match self.slot(r) {
            Some(s) => self.with_slot(r, Some(f(s))),
            None => self,
        }
    }

    /// The game after the Pokémon at `r` (if any) takes `amount` damage.
    pub open spec fn damage_at(self, r: SlotRef, amount: i16) -> GameView {
        self.map_slot(r, |s: PokemonSlot| after_damage(s, amount))
    }

    /// Damaging the Pokémon at `r` (if any) by `amount` stays within `i16`.
    pub open spec fn can_damage(self, r: SlotRef, amount: i16) -> bool {
        match self.slot(r) {
            Some(s) => damage_fits(s, amount),
            None => true,
        }
    }

    /// Pile `k` of player `p`.
    pub open spec fn pile(self, p: int, k: Pile) -> Seq<u16> {
        self.players[p].pile(k)
    }

    /// The game with pile `k` of player `p` replaced by `cards`.
    pub open spec fn with_pile(self, p: int, k: Pile, cards: Seq<u16>) -> GameView {
        self.with_player(p, self.players[p].with_pile(k, cards))
    }

    /// The game after the card at position `i` of pile `from` moves to the
    /// end of pile `to` (two different piles of player `p`).
    pub open spec fn move_card(self, p: int, from: Pile, i: int, to: Pile) -> GameView {
        let g1 = self.with_pile(p, from, self.pile(p, from).remove(i));
        g1.with_pile(p, to, g1.pile(p, to).push(self.pile(p, from)[i]))
    }

    /// The game after player `p` draws the top card of the deck (nothing
    /// happens on an empty deck).
    pub open spec fn draw_one(self, p: int) -> GameView {
        let d = self.pile(p, Pile::Deck);
        if d.len() == 0 {
            self
        } else {
            self.move_card(p, Pile::Deck, d.len() - 1, Pile::Hand)
        }
    }

    /// The game after player `p` draws `n` times.
    pub open spec fn draw_n(self, p: int, n: nat) -> GameView
        decreases n,
    {
        if n == 0 {
            self
        } else {
            self.draw_n(p, (n - 1) as nat).draw_one(p)
        }
    }

    /// `other` is this game with pile `k` of player `p` put in some order.
    pub open spec fn reordered(self, other: GameView, p: int, k: Pile) -> bool {
        &&& other.pile(p, k).to_multiset() == self.pile(p, k).to_multiset()
        &&& other == self.with_pile(p, k, other.pile(p, k))
    }

    /// The game with all of pile `from` of player `p` put at the end of pile `to`.
    pub open spec fn move_all(self, p: int, from: Pile, to: Pile) -> GameView {
        let g1 = self.with_pile(p, to, self.pile(p, to) + self.pile(p, from));
        g1.with_pile(p, from, Seq::empty())
    }

    /// The game with a line appended to the coin-flip narration.
    pub open spec fn log(self, line: Seq<char>) -> GameView {
        GameView { coin_flip_log: self.coin_flip_log.push(line), ..self }
    }
}

impl GameState {
    pub fn new(seed: u64) -> (r: Self)
        ensures
            r@.players.len() == 2,
            r@.players[0] == fresh_player(),
            r@.players[1] == fresh_player(),
            r@.players[0] == r@.players[1],
            r@.players[0].active is None,
            r@.players[0].bench == seq![None::<PokemonSlot>, None, None],
            r@.players[0].hand.len() == 0,
            r@.players[0].deck.len() == 0,
            r@.players[0].discard.len() == 0,
            r@.players[0].points == 0,
            r@.players[0].retreat_cost_modifier == 0,
            r@.coin_flip_log.len() == 0,
            r@.phase == GamePhase::Setup,
            r@.turn_number == 0,
            r@.current_player == 0,
    {
        let p0 = PlayerState::new();
        let p1 = PlayerState::new();
        let r = GameState {
            players: [p0, p1],
            rng: rng_from_seed(seed),
            coin_flip_log: Vec::new(),
            phase: GamePhase::Setup,
            turn_number: 0,
            current_player: 0,
        };
        assert(r@.players[0] =~= r@.players[1]);
        r
    }
}

/// The Pokémon at `r`, if `r` is valid and the spot is occupied.
pub fn get_slot(state: &GameState, r: SlotRef) -> (res: Option<&PokemonSlot>)
    ensures
        match res {
            Some(s) => state@.slot(r) == Some(*s),
            None => state@.slot(r) is None,
        },
{
    if r.player >= 2 || r.slot < -1 || r.slot > 2 {
        return None;
    }
    let p = r.player as usize;
    if r.slot == -1 {
        state.players[p].active.as_ref()
    } else {
        state.players[p].bench[r.slot as usize].as_ref()
    }
}


/// A copy of the Pokémon at `r`, if `r` is valid and the spot is occupied.
pub fn read_slot(state: &GameState, r: SlotRef) -> (res: Option<PokemonSlot>)
    ensures
        res == state@.slot(r),
{
    match get_slot(state, r) {
        Some(s) => Some(*s),
        None => None,
    }
}

/// Puts `o` into the spot `r`.
pub fn write_slot(state: &mut GameState, r: SlotRef, o: Option<PokemonSlot>)
    requires
        r.valid(),
    ensures
        final(state)@ == old(state)@.with_slot(r, o),
{
    let p = r.player as usize;
    if r.slot == -1 {
        state.players[p].active = o;
    } else {
        state.players[p].bench[r.slot as usize] = o;
    }
    proof {
        assert(final(state)@.players =~= old(state)@.with_slot(r, o).players);
    }
}

}

verus! {

impl GameState {
    /// Number of cards in pile `k` of player `p`.
    pub fn pile_len(&self, p: usize, k: Pile) -> (r: usize)
        requires
            p < 2,
        ensures
            r == self@.pile(p as int, k).len(),
    {
        match k {
            Pile::Hand => self.players[p].hand.len(),
            Pile::Deck => self.players[p].deck.len(),
            Pile::Discard => self.players[p].discard.len(),
        }
    }

    /// Card `i` of pile `k` of player `p`.
    pub fn pile_card(&self, p: usize, k: Pile, i: usize) -> (r: u16)
        requires
            p < 2,
            i < self@.pile(p as int, k).len(),
        ensures
            r == self@.pile(p as int, k)[i as int],
    {
        match k {
            Pile::Hand => self.players[p].hand[i],
            Pile::Deck => self.players[p].deck[i],
            Pile::Discard => self.players[p].discard[i],
        }
    }

    /// Removes and returns card `i` of pile `k` of player `p`.
    pub fn take_from_pile(&mut self, p: usize, k: Pile, i: usize) -> (r: u16)
        requires
            p < 2,
            i < old(self)@.pile(p as int, k).len(),
        ensures
            r == old(self)@.pile(p as int, k)[i as int],
            final(self)@ == old(self)@.with_pile(p as int, k, old(self)@.pile(p as int, k).remove(i as int)),
    {
        let r = match k {
            Pile::Hand => self.players[p].hand.remove(i),
            Pile::Deck => self.players[p].deck.remove(i),
            Pile::Discard => self.players[p].discard.remove(i),
        };
        proof {
            assert(final(self)@.players =~= old(self)@.with_pile(
                p as int,
                k,
                old(self)@.pile(p as int, k).remove(i as int),
            ).players);
        }
        r
    }

    /// Puts card `c` at the end of pile `k` of player `p`.
    pub fn put_on_pile(&mut self, p: usize, k: Pile, c: u16)
        requires
            p < 2,
        ensures
            final(self)@ == old(self)@.with_pile(p as int, k, old(self)@.pile(p as int, k).push(c)),
    {
        match k {
            Pile::Hand => self.players[p].hand.push(c),
            Pile::Deck => self.players[p].deck.push(c),
            Pile::Discard => self.players[p].discard.push(c),
        }
        proof {
            assert(final(self)@.players =~= old(self)@.with_pile(
                p as int,
                k,
                old(self)@.pile(p as int, k).push(c),
            ).players);
        }
    }

    /// Moves card `i` of pile `from` to the end of pile `to`.
    pub fn move_card(&mut self, p: usize, from: Pile, i: usize, to: Pile)
        requires
            p < 2,
            from != to,
            i < old(self)@.pile(p as int, from).len(),
        ensures
            final(self)@ == old(self)@.move_card(p as int, from, i as int, to),
    {
        let c = self.take_from_pile(p, from, i);
        self.put_on_pile(p, to, c);
    }

    /// Puts pile `k` of player `p` in random order.
    pub fn shuffle_pile(&mut self, p: usize, k: Pile)
        requires
            p < 2,
        ensures
            old(self)@.reordered(final(self)@, p as int, k),
    {
        match k {
            Pile::Hand => shuffle_cards(&mut self.rng, &mut self.players[p].hand),
            Pile::Deck => shuffle_cards(&mut self.rng, &mut self.players[p].deck),
            Pile::Discard => shuffle_cards(&mut self.rng, &mut self.players[p].discard),
        }
        proof {
            assert(final(self)@.players =~= old(self)@.with_pile(p as int, k, final(self)@.pile(p as int, k)).players);
        }
    }

    /// Empties pile `k` of player `p`, handing its cards back.
    fn take_pile(&mut self, p: usize, k: Pile) -> (r: Vec<u16>)
        requires
            p < 2,
        ensures
            r@ == old(self)@.pile(p as int, k),
            final(self)@ == old(self)@.with_pile(p as int, k, Seq::empty()),
    {
        let mut moved: Vec<u16> = Vec::new();
        match k {
            Pile::Hand => core::mem::swap(&mut self.players[p].hand, &mut moved),
            Pile::Deck => core::mem::swap(&mut self.players[p].deck, &mut moved),
            Pile::Discard => core::mem::swap(&mut self.players[p].discard, &mut moved),
        }
        proof {
            assert(final(self)@.players =~= old(self)@.with_pile(p as int, k, Seq::empty()).players);
        }
        moved
    }

    /// Appends `cards` to pile `k` of player `p`.
    fn append_to_pile(&mut self, p: usize, k: Pile, cards: Vec<u16>)
        requires
            p < 2,
        ensures
            final(self)@ == old(self)@.with_pile(p as int, k, old(self)@.pile(p as int, k) + cards@),
    {
        let mut moved = cards;
        match k {
            Pile::Hand => self.players[p].hand.append(&mut moved),
            Pile::Deck => self.players[p].deck.append(&mut moved),
            Pile::Discard => self.players[p].discard.append(&mut moved),
        }
        proof {
            assert(final(self)@.players =~= old(self)@.with_pile(p as int, k, old(self)@.pile(p as int, k) + cards@).players);
        }
    }

    /// Puts all of pile `from` of player `p` at the end of pile `to`.
    pub fn move_all(&mut self, p: usize, from: Pile, to: Pile)
        requires
            p < 2,
            from != to,
        ensures
            final(self)@ == old(self)@.move_all(p as int, from, to),
    {
        let ghost g0 = self@;
        let moved = self.take_pile(p, from);
        self.append_to_pile(p, to, moved);
        proof {
            let g1 = g0.with_pile(p as int, to, g0.pile(p as int, to) + g0.pile(p as int, from));
            assert(final(self)@.players =~= g1.with_pile(p as int, from, Seq::empty()).players);
        }
    }

    /// Appends `line` to the coin-flip narration.
    pub fn push_log(&mut self, line: String)
        ensures
            final(self)@ == old(self)@.log(line@),
    {
        self.coin_flip_log.push(line);
        proof {
            assert(final(self)@.coin_flip_log =~= old(self)@.log(line@).coin_flip_log);
        }
    }

    /// Player `p` draws the top card of the deck into the hand, if there is one.
    pub fn draw_one_for(&mut self, p: usize)
        requires
            p < 2,
        ensures
            final(self)@ == old(self)@.draw_one(p as int),
    {
        let n = self.pile_len(p, Pile::Deck);
        if n > 0 {
            self.move_card(p, Pile::Deck, n - 1, Pile::Hand);
        }
    }

    /// Player `p` draws `n` times.
    pub fn draw_n_for(&mut self, p: usize, n: u8)
        requires
            p < 2,
        ensures
            final(self)@ == old(self)@.draw_n(p as int, n as nat),
    {
        let mut i: u8 = 0;
        while i < n
            invariant
                p < 2,
                i <= n,
                self@ == old(self)@.draw_n(p as int, i as nat),
            decreases n - i,
        {
            self.draw_one_for(p);
            i = i + 1;
        }
    }
}

}

verus! {

/// Moving a card from one of a player's piles to another keeps the cards
/// that player holds, and touches nothing but those two piles.
pub proof fn lemma_move_card_conserves(g: GameView, p: int, from: Pile, to: Pile, i: int)
    requires
        g.wf(),
        0 <= p < 2,
        from != to,
        0 <= i < g.pile(p, from).len(),
    ensures
        g.move_card(p, from, i, to).players[p].cards() == g.players[p].cards(),
        g.move_card(p, from, i, to).players[1 - p] == g.players[1 - p],
        g.move_card(p, from, i, to).wf(),
{
    broadcast use vstd::seq_lib::group_to_multiset_ensures;
    broadcast use vstd::multiset::group_multiset_axioms;
    let h = g.move_card(p, from, i, to);
    let x = g.pile(p, from)[i];
    let a = g.pile(p, from);
    let b = g.pile(p, to);
    assert(a.contains(x));
    assert(a.to_multiset().count(x) > 0);
    assert(a.remove(i).to_multiset() =~= a.to_multiset().remove(x));
    assert(b.push(x).to_multiset() =~= b.to_multiset().insert(x));
    assert(h.players[p].cards() =~= g.players[p].cards());
    assert forall|q: int| 0 <= q < 2 implies #[trigger] h.players[q].bench.len() == 3 by {
        assert(g.players[q].bench.len() == 3);
    }
}

/// Putting a pile in a new order keeps the cards the player holds.
pub proof fn lemma_reorder_conserves(g1: GameView, g2: GameView, p: int, k: Pile)
    requires
        g1.wf(),
        0 <= p < 2,
        g1.reordered(g2, p, k),
    ensures
        g2.players[p].cards() == g1.players[p].cards(),
        g2.players[1 - p] == g1.players[1 - p],
        g2.wf(),
{
    assert(g2.players[p].cards() =~= g1.players[p].cards());
    assert forall|q: int| 0 <= q < 2 implies #[trigger] g2.players[q].bench.len() == 3 by {
        assert(g1.players[q].bench.len() == 3);
    }
}

}
