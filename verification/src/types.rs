//! Plain enumerations shared by the whole engine.
use vstd::prelude::*;
use crate::text::{eq_ignore_ascii_case, str_eq_ignore_ascii_case};

verus! {

/// Pokémon and energy types.  The declaration order is the index used for
/// per-type energy counters.
#[derive(Clone, Copy, Debug, PartialEq, Eq, Hash, Structural)]
pub enum Element {
    Grass,
    Fire,
    Water,
    Lightning,
    Psychic,
    Fighting,
    Darkness,
    Metal,
}

/// Number of element types (length of every energy counter array).
pub const NUM_ELEMENTS: usize = 8;

impl Element {
    pub open spec fn index(self) -> int {
        match self {
            Element::Grass => 0,
            Element::Fire => 1,
            Element::Water => 2,
            Element::Lightning => 3,
            Element::Psychic => 4,
            Element::Fighting => 5,
            Element::Darkness => 6,
            Element::Metal => 7,
        }
    }

    /// Position of this element in an energy counter array.
    pub fn idx(self) -> (r: usize)
        ensures
            r == self.index(),
            r < NUM_ELEMENTS,
    {
        match self {
            Element::Grass => 0,
            Element::Fire => 1,
            Element::Water => 2,
            Element::Lightning => 3,
            Element::Psychic => 4,
            Element::Fighting => 5,
            Element::Darkness => 6,
            Element::Metal => 7,
        }
    }

    /// The element named `s` (ASCII letters in any case).
    pub open spec fn parse(s: Seq<char>) -> Option<Element> {
        if eq_ignore_ascii_case(s, "Grass"@) {
            Some(Element::Grass)
        } else if eq_ignore_ascii_case(s, "Fire"@) {
            Some(Element::Fire)
        } else if eq_ignore_ascii_case(s, "Water"@) {
            Some(Element::Water)
        } else if eq_ignore_ascii_case(s, "Lightning"@) {
            Some(Element::Lightning)
        } else if eq_ignore_ascii_case(s, "Psychic"@) {
            Some(Element::Psychic)
        } else if eq_ignore_ascii_case(s, "Fighting"@) {
            Some(Element::Fighting)
        } else if eq_ignore_ascii_case(s, "Darkness"@) {
            Some(Element::Darkness)
        } else if eq_ignore_ascii_case(s, "Metal"@) {
            Some(Element::Metal)
        } else {
            None
        }
    }

    pub fn from_str(s: &str) -> (r: Option<Element>)
        ensures
            r == Element::parse(s@),
    {
        if str_eq_ignore_ascii_case(s, "Grass") {
            Some(Element::Grass)
        } else if str_eq_ignore_ascii_case(s, "Fire") {
            Some(Element::Fire)
        } else if str_eq_ignore_ascii_case(s, "Water") {
            Some(Element::Water)
        } else if str_eq_ignore_ascii_case(s, "Lightning") {
            Some(Element::Lightning)
        } else if str_eq_ignore_ascii_case(s, "Psychic") {
            Some(Element::Psychic)
        } else if str_eq_ignore_ascii_case(s, "Fighting") {
            Some(Element::Fighting)
        } else if str_eq_ignore_ascii_case(s, "Darkness") {
            Some(Element::Darkness)
        } else if str_eq_ignore_ascii_case(s, "Metal") {
            Some(Element::Metal)
        } else {
            None
        }
    }
}

/// Symbols of an attack's energy cost: one per element, plus Colorless.
#[derive(Clone, Copy, Debug, PartialEq, Eq, Structural)]
pub enum CostSymbol {
    Grass,
    Fire,
    Water,
    Lightning,
    Psychic,
    Fighting,
    Darkness,
    Metal,
    Colorless,
}

impl CostSymbol {
    pub open spec fn parse(s: Seq<char>) -> Option<CostSymbol> {
        if eq_ignore_ascii_case(s, "Colorless"@) {
            Some(CostSymbol::Colorless)
        } else {
            match Element::parse(s) {
                Some(Element::Grass) => Some(CostSymbol::Grass),
                Some(Element::Fire) => Some(CostSymbol::Fire),
                Some(Element::Water) => Some(CostSymbol::Water),
                Some(Element::Lightning) => Some(CostSymbol::Lightning),
                Some(Element::Psychic) => Some(CostSymbol::Psychic),
                Some(Element::Fighting) => Some(CostSymbol::Fighting),
                Some(Element::Darkness) => Some(CostSymbol::Darkness),
                Some(Element::Metal) => Some(CostSymbol::Metal),
                None => None,
            }
        }
    }

    pub fn from_str(s: &str) -> (r: Option<CostSymbol>)
        ensures
            r == CostSymbol::parse(s@),
    {
        if str_eq_ignore_ascii_case(s, "Colorless") {
            Some(CostSymbol::Colorless)
        } else {
            match Element::from_str(s) {
                Some(Element::Grass) => Some(CostSymbol::Grass),
                Some(Element::Fire) => Some(CostSymbol::Fire),
                Some(Element::Water) => Some(CostSymbol::Water),
                Some(Element::Lightning) => Some(CostSymbol::Lightning),
                Some(Element::Psychic) => Some(CostSymbol::Psychic),
                Some(Element::Fighting) => Some(CostSymbol::Fighting),
                Some(Element::Darkness) => Some(CostSymbol::Darkness),
                Some(Element::Metal) => Some(CostSymbol::Metal),
                None => None,
            }
        }
    }
}

/// Card categories.
#[derive(Clone, Copy, Debug, PartialEq, Eq, Structural)]
pub enum CardKind {
    Pokemon,
    Item,
    Supporter,
    Tool,
}

/// Evolution stages.
#[derive(Clone, Copy, Debug, PartialEq, Eq, Structural)]
pub enum Stage {
    Basic,
    Stage1,
    Stage2,
}

impl Stage {
    /// The stage named by a card's subtype: "Basic", "Stage 1"/"Stage1",
    /// "Stage 2"/"Stage2" (ASCII letters in any case).
    pub open spec fn parse(s: Seq<char>) -> Option<Stage> {
        if eq_ignore_ascii_case(s, "Basic"@) {
            Some(Stage::Basic)
        } else if eq_ignore_ascii_case(s, "Stage 1"@) || eq_ignore_ascii_case(s, "Stage1"@) {
            Some(Stage::Stage1)
        } else if eq_ignore_ascii_case(s, "Stage 2"@) || eq_ignore_ascii_case(s, "Stage2"@) {
            Some(Stage::Stage2)
        } else {
            None
        }
    }

    pub fn from_str(s: &str) -> (r: Option<Stage>)
        ensures
            r == Stage::parse(s@),
    {
        if str_eq_ignore_ascii_case(s, "Basic") {
            Some(Stage::Basic)
        } else if str_eq_ignore_ascii_case(s, "Stage 1") || str_eq_ignore_ascii_case(s, "Stage1") {
            Some(Stage::Stage1)
        } else if str_eq_ignore_ascii_case(s, "Stage 2") || str_eq_ignore_ascii_case(s, "Stage2") {
            Some(Stage::Stage2)
        } else {
            None
        }
    }
}

/// Special conditions; each is one bit of a slot's status byte.
#[derive(Clone, Copy, Debug, PartialEq, Eq, Structural)]
pub enum StatusEffect {
    Poisoned,
    Burned,
    Asleep,
    Paralyzed,
    Confused,
}

impl StatusEffect {
    pub open spec fn mask(self) -> u8 {
        match self {
            StatusEffect::Poisoned => 1,
            StatusEffect::Burned => 2,
            StatusEffect::Asleep => 4,
            StatusEffect::Paralyzed => 8,
            StatusEffect::Confused => 16,
        }
    }

    /// The bit of this condition in a status byte.
    pub fn bit(self) -> (r: u8)
        ensures
            r == self.mask(),
    {
        match self {
            StatusEffect::Poisoned => 1,
            StatusEffect::Burned => 2,
            StatusEffect::Asleep => 4,
            StatusEffect::Paralyzed => 8,
            StatusEffect::Confused => 16,
        }
    }
}

/// Kinds of player actions.
#[derive(Clone, Copy, Debug, PartialEq, Eq, Structural)]
pub enum ActionKind {
    EndTurn,
    Attack,
    PlayCard,
    AttachEnergy,
    Evolve,
    UseAbility,
    Retreat,
    Promote,
}

/// Phases of a game.
#[derive(Clone, Copy, Debug, PartialEq, Eq, Structural)]
pub enum GamePhase {
    Setup,
    Main,
    AwaitingBenchPromotion,
    GameOver,
}

}
