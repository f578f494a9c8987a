//! Board references and player actions.
use vstd::prelude::*;
use crate::types::ActionKind;
use crate::text::{decimal, decimal_u64, push_str, string_from_chars, to_chars};

verus! {

/// Reference to a Pokémon slot on the board.
/// `player`: 0 or 1; `slot`: -1 for the active spot, 0..=2 for a bench index.
#[derive(Clone, Copy, Debug, PartialEq, Eq, Hash, Structural)]
pub struct SlotRef {
    pub player: u8,
    pub slot: i8,
}

impl SlotRef {
    /// The reference names an existing spot on the board.
    pub open spec fn valid(self) -> bool {
        self.player < 2 && -1 <= self.slot <= 2
    }

    pub open spec fn spec_is_active(self) -> bool {
        self.slot == -1
    }

    pub open spec fn spec_is_bench(self) -> bool {
        self.slot >= 0
    }

    /// The active spot of `player`.
    pub fn active(player: usize) -> (r: Self)
        ensures
            r.player == player as u8,
            r.slot == -1,
    {
        Self { player: player as u8, slot: -1 }
    }

    /// Bench spot `index` of `player`.
    pub fn bench(player: usize, index: usize) -> (r: Self)
        requires
            index <= 2,
        ensures
            r.player == player as u8,
            r.slot == index as i8,
    {
        Self { player: player as u8, slot: index as i8 }
    }

    #[verifier::when_used_as_spec(spec_is_active)]
    pub fn is_active(self) -> (r: bool)
        ensures
            r == self.spec_is_active(),
    {
        self.slot == -1
    }

    #[verifier::when_used_as_spec(spec_is_bench)]
    pub fn is_bench(self) -> (r: bool)
        ensures
            r == self.spec_is_bench(),
    {
        self.slot >= 0
    }

    /// The bench index of a bench reference.
    pub fn bench_index(self) -> (r: usize)
        requires
            self.spec_is_bench(),
        ensures
            r == self.slot,
    {
        self.slot as usize
    }
}

/// A game action taken by a player.
#[derive(Clone, Debug, PartialEq, Eq, Structural)]
pub struct Action {
    pub kind: ActionKind,
    /// PLAY_CARD, EVOLVE: index in hand
    pub hand_index: Option<usize>,
    /// PLAY_CARD target slot, ATTACH_ENERGY, EVOLVE, USE_ABILITY, RETREAT dest, PROMOTE slot
    pub target: Option<SlotRef>,
    /// ATTACK: index into the card's attacks
    pub attack_index: Option<usize>,
    /// Secondary hand index (Rare Candy)
    pub extra_hand_index: Option<usize>,
    /// Secondary target slot, for effects that pick two slots
    pub extra_target: Option<SlotRef>,
}

impl Action {
    pub open spec fn of(
        kind: ActionKind,
        hand_index: Option<usize>,
        target: Option<SlotRef>,
        attack_index: Option<usize>,
        extra_hand_index: Option<usize>,
        extra_target: Option<SlotRef>,
    ) -> Action {
        Action { kind, hand_index, target, attack_index, extra_hand_index, extra_target }
    }

    /// A copy of this action, field by field.
    pub fn duplicate(&self) -> (r: Self)
        ensures
            r == *self,
    {
        Self {
            kind: self.kind,
            hand_index: self.hand_index,
            target: self.target,
            attack_index: self.attack_index,
            extra_hand_index: self.extra_hand_index,
            extra_target: self.extra_target,
        }
    }

    pub fn end_turn() -> (r: Self)
        ensures
            r == Action::of(ActionKind::EndTurn, None, None, None, None, None),
    {
        Self {
            kind: ActionKind::EndTurn,
            hand_index: None,
            target: None,
            attack_index: None,
            extra_hand_index: None,
            extra_target: None,
        }
    }

    pub fn attack(attack_index: usize, sub_target: Option<SlotRef>) -> (r: Self)
        ensures
            r == Action::of(ActionKind::Attack, None, sub_target, Some(attack_index), None, None),
    {
        Self {
            kind: ActionKind::Attack,
            hand_index: None,
            target: sub_target,
            attack_index: Some(attack_index),
            extra_hand_index: None,
            extra_target: None,
        }
    }

    pub fn play_basic(hand_index: usize, bench_slot: SlotRef) -> (r: Self)
        ensures
            r == Action::of(ActionKind::PlayCard, Some(hand_index), Some(bench_slot), None, None, None),
    {
        Self {
            kind: ActionKind::PlayCard,
            hand_index: Some(hand_index),
            target: Some(bench_slot),
            attack_index: None,
            extra_hand_index: None,
            extra_target: None,
        }
    }

    pub fn attach_energy(target: SlotRef) -> (r: Self)
        ensures
            r == Action::of(ActionKind::AttachEnergy, None, Some(target), None, None, None),
    {
        Self {
            kind: ActionKind::AttachEnergy,
            hand_index: None,
            target: Some(target),
            attack_index: None,
            extra_hand_index: None,
            extra_target: None,
        }
    }

    pub fn evolve(hand_index: usize, target: SlotRef) -> (r: Self)
        ensures
            r == Action::of(ActionKind::Evolve, Some(hand_index), Some(target), None, None, None),
    {
        Self {
            kind: ActionKind::Evolve,
            hand_index: Some(hand_index),
            target: Some(target),
            attack_index: None,
            extra_hand_index: None,
            extra_target: None,
        }
    }

    pub fn use_ability(target: SlotRef) -> (r: Self)
        ensures
            r == Action::of(ActionKind::UseAbility, None, Some(target), None, None, None),
    {
        Self {
            kind: ActionKind::UseAbility,
            hand_index: None,
            target: Some(target),
            attack_index: None,
            extra_hand_index: None,
            extra_target: None,
        }
    }

    pub fn retreat(bench_target: SlotRef) -> (r: Self)
        ensures
            r == Action::of(ActionKind::Retreat, None, Some(bench_target), None, None, None),
    {
        Self {
            kind: ActionKind::Retreat,
            hand_index: None,
            target: Some(bench_target),
            attack_index: None,
            extra_hand_index: None,
            extra_target: None,
        }
    }

    pub fn promote(slot: SlotRef) -> (r: Self)
        ensures
            r == Action::of(ActionKind::Promote, None, Some(slot), None, None, None),
    {
        Self {
            kind: ActionKind::Promote,
            hand_index: None,
            target: Some(slot),
            attack_index: None,
            extra_hand_index: None,
            extra_target: None,
        }
    }

    pub fn play_item(hand_index: usize, target: Option<SlotRef>) -> (r: Self)
        ensures
            r == Action::of(ActionKind::PlayCard, Some(hand_index), target, None, None, None),
    {
        Self {
            kind: ActionKind::PlayCard,
            hand_index: Some(hand_index),
            target,
            attack_index: None,
            extra_hand_index: None,
            extra_target: None,
        }
    }

    pub fn play_rare_candy(hand_index: usize, target: SlotRef, evo_hand_index: usize) -> (r: Self)
        ensures
            r == Action::of(
                ActionKind::PlayCard,
                Some(hand_index),
                Some(target),
                None,
                Some(evo_hand_index),
                None,
            ),
    {
        Self {
            kind: ActionKind::PlayCard,
            hand_index: Some(hand_index),
            target: Some(target),
            attack_index: None,
            extra_hand_index: Some(evo_hand_index),
            extra_target: None,
        }
    }

    /// Attack picking two own bench targets.
    pub fn attack_two_targets(attack_index: usize, target_a: SlotRef, target_b: SlotRef) -> (r: Self)
        ensures
            r == Action::of(
                ActionKind::Attack,
                None,
                Some(target_a),
                Some(attack_index),
                None,
                Some(target_b),
            ),
    {
        Self {
            kind: ActionKind::Attack,
            hand_index: None,
            target: Some(target_a),
            attack_index: Some(attack_index),
            extra_hand_index: None,
            extra_target: Some(target_b),
        }
    }
}


/// The name of an action kind, as `{:?}` prints it.
pub open spec fn kind_name(k: ActionKind) -> Seq<char> {
    match k {
        ActionKind::EndTurn => "EndTurn"@,
        ActionKind::Attack => "Attack"@,
        ActionKind::PlayCard => "PlayCard"@,
        ActionKind::AttachEnergy => "AttachEnergy"@,
        ActionKind::Evolve => "Evolve"@,
        ActionKind::UseAbility => "UseAbility"@,
        ActionKind::Retreat => "Retreat"@,
        ActionKind::Promote => "Promote"@,
    }
}

/// How a slot reference reads: `p<player>:active` or `p<player>:bench[<slot>]`.
pub open spec fn slot_text(r: SlotRef) -> Seq<char> {
    if r.slot == -1 {
        "p"@ + decimal(r.player as int) + ":active"@
    } else {
        "p"@ + decimal(r.player as int) + ":bench["@ + decimal(r.slot as int) + "]"@
    }
}

/// ` <label>=<n>` when `o` holds `n`.
pub open spec fn index_field(label: Seq<char>, o: Option<usize>) -> Seq<char> {
    match o {
        Some(n) => " "@ + label + "="@ + decimal(n as int),
        None => Seq::empty(),
    }
}

/// ` <label>=<slot>` when `o` holds a slot.
pub open spec fn slot_field(label: Seq<char>, o: Option<SlotRef>) -> Seq<char> {
    match o {
        Some(r) => " "@ + label + "="@ + slot_text(r),
        None => Seq::empty(),
    }
}

/// How an action reads: its kind, then each part it has.
pub open spec fn action_text(a: Action) -> Seq<char> {
    "Action("@ + kind_name(a.kind) + index_field("hand"@, a.hand_index) + slot_field("target"@, a.target) + index_field(
        "atk"@,
        a.attack_index,
    ) + index_field("extra_hand"@, a.extra_hand_index) + slot_field("extra_target"@, a.extra_target) + ")"@
}

fn push_chars(v: &mut Vec<char>, w: &Vec<char>)
    ensures
        final(v)@ == old(v)@ + w@,
{
    let mut i: usize = 0;
    while i < w.len()
        invariant
            i <= w@.len(),
            v@ == old(v)@ + w@.subrange(0, i as int),
        decreases w.len() - i,
    {
        v.push(w[i]);
        i = i + 1;
        assert(v@ =~= old(v)@ + w@.subrange(0, i as int));
    }
    assert(w@.subrange(0, w@.len() as int) =~= w@);
}

fn push_signed(v: &mut Vec<char>, n: i8)
    ensures
        final(v)@ == old(v)@ + decimal(n as int),
{
    if n < 0 {
        v.push('-');
        let d = decimal_u64((-(n as i16)) as u64);
        push_chars(v, &d);
        assert(decimal(n as int) =~= seq!['-'] + decimal(-(n as int)));
        assert(v@ =~= old(v)@ + decimal(n as int));
    } else {
        let d = decimal_u64(n as u64);
        push_chars(v, &d);
    }
}

fn push_slot(v: &mut Vec<char>, r: SlotRef)
    ensures
        final(v)@ == old(v)@ + slot_text(r),
{
    let ghost v0 = v@;
    push_str(v, "p");
    let d = decimal_u64(r.player as u64);
    push_chars(v, &d);
    if r.slot == -1 {
        push_str(v, ":active");
        assert(v@ =~= v0 + slot_text(r));
    } else {
        push_str(v, ":bench[");
        push_signed(v, r.slot);
        push_str(v, "]");
        assert(v@ =~= v0 + slot_text(r));
    }
}

fn push_index_field(v: &mut Vec<char>, label: &str, o: Option<usize>)
    ensures
        final(v)@ == old(v)@ + index_field(label@, o),
{
    let ghost v0 = v@;
    match o {
        Some(n) => {
            push_str(v, " ");
            push_str(v, label);
            push_str(v, "=");
            let d = decimal_u64(n as u64);
            push_chars(v, &d);
            assert(v@ =~= v0 + index_field(label@, o));
        },
        None => {
            assert(v@ =~= v0 + index_field(label@, o));
        },
    }
}

fn push_slot_field(v: &mut Vec<char>, label: &str, o: Option<SlotRef>)
    ensures
        final(v)@ == old(v)@ + slot_field(label@, o),
{
    let ghost v0 = v@;
    match o {
        Some(r) => {
            push_str(v, " ");
            push_str(v, label);
            push_str(v, "=");
            push_slot(v, r);
            assert(v@ =~= v0 + slot_field(label@, o));
        },
        None => {
            assert(v@ =~= v0 + slot_field(label@, o));
        },
    }
}

fn push_kind(v: &mut Vec<char>, k: ActionKind)
    ensures
        final(v)@ == old(v)@ + kind_name(k),
{
    match k {
        ActionKind::EndTurn => push_str(v, "EndTurn"),
        ActionKind::Attack => push_str(v, "Attack"),
        ActionKind::PlayCard => push_str(v, "PlayCard"),
        ActionKind::AttachEnergy => push_str(v, "AttachEnergy"),
        ActionKind::Evolve => push_str(v, "Evolve"),
        ActionKind::UseAbility => push_str(v, "UseAbility"),
        ActionKind::Retreat => push_str(v, "Retreat"),
        ActionKind::Promote => push_str(v, "Promote"),
    }
}

impl SlotRef {
    /// How the reference reads, for display.
    pub fn to_string(&self) -> (r: String)
        ensures
            r@ == slot_text(*self),
    {
        let mut v: Vec<char> = Vec::new();
        push_slot(&mut v, *self);
        assert(v@ =~= slot_text(*self));
        string_from_chars(v.as_slice())
    }
}

impl Action {
    /// How the action reads, for display.
    pub fn to_string(&self) -> (r: String)
        ensures
            r@ == action_text(*self),
    {
        let mut v = to_chars("Action(");
        push_kind(&mut v, self.kind);
        push_index_field(&mut v, "hand", self.hand_index);
        push_slot_field(&mut v, "target", self.target);
        push_index_field(&mut v, "atk", self.attack_index);
        push_index_field(&mut v, "extra_hand", self.extra_hand_index);
        push_slot_field(&mut v, "extra_target", self.extra_target);
        push_str(&mut v, ")");
        string_from_chars(v.as_slice())
    }
}

}
