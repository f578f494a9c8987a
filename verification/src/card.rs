//! Cards and the card database.
use vstd::prelude::*;
use std::collections::HashMap;
use crate::types::{CardKind, CostSymbol, Element, Stage};
use crate::effects::EffectKind;
use crate::effects::legality::LegalCondition;
use crate::text::{eq_ignore_ascii_case, str_eq_ignore_ascii_case};

verus! {

#[derive(Clone, Debug)]
pub struct Attack {
    pub name: String,
    pub damage: i16,
    pub cost: Vec<CostSymbol>,
    pub effect_text: String,
    pub handler: String,
    pub effects: Vec<EffectKind>,
    pub legal_conditions: Vec<LegalCondition>,
}

#[derive(Clone, Debug)]
pub struct Ability {
    pub name: String,
    pub effect_text: String,
    pub is_passive: bool,
    pub handler: String,
    pub effects: Vec<EffectKind>,
}

#[derive(Clone, Debug)]
pub struct Card {
    pub id: String,
    pub idx: u16,
    pub name: String,
    pub kind: CardKind,
    pub stage: Option<Stage>,
    pub element: Option<Element>,
    pub hp: i16,
    pub weakness: Option<Element>,
    pub retreat_cost: u8,
    pub is_ex: bool,
    pub is_mega_ex: bool,
    pub evolves_from: Option<String>,
    pub attacks: Vec<Attack>,
    pub ability: Option<Ability>,
    pub trainer_effect_text: String,
    pub trainer_handler: String,
    pub trainer_effects: Vec<EffectKind>,
    pub trainer_legal_conditions: Vec<LegalCondition>,
    pub ko_points: u8,
}

/// The entries of a map from card ids to card indices, keyed by characters.
pub uninterp spec fn id_entries(m: HashMap<String, u16>) -> Map<Seq<char>, u16>;

/// The entries of a map from names to lists of card indices.
pub uninterp spec fn index_list_entries(m: HashMap<String, Vec<u16>>) -> Map<Seq<char>, Seq<u16>>;

/// The entries of a map from names to lists of names.
pub uninterp spec fn name_list_entries(m: HashMap<String, Vec<String>>) -> Map<Seq<char>, Seq<Seq<char>>>;

/// `HashMap::new` for an id map.
#[verifier::external_body]
pub(crate) fn empty_id_map() -> (r: HashMap<String, u16>)
    ensures
        id_entries(r).dom() == Set::<Seq<char>>::empty(),
{
    HashMap::new()
}

/// `HashMap::new` for a name-to-indices map.
#[verifier::external_body]
pub(crate) fn empty_index_list_map() -> (r: HashMap<String, Vec<u16>>)
    ensures
        index_list_entries(r).dom() == Set::<Seq<char>>::empty(),
{
    HashMap::new()
}

/// `HashMap::new` for a name-to-names map.
#[verifier::external_body]
pub(crate) fn empty_name_list_map() -> (r: HashMap<String, Vec<String>>)
    ensures
        name_list_entries(r).dom() == Set::<Seq<char>>::empty(),
{
    HashMap::new()
}

/// `HashMap::get` on an id map, looked up by the characters of `key`.
#[verifier::external_body]
pub(crate) fn id_map_get(m: &HashMap<String, u16>, key: &str) -> (r: Option<u16>)
    ensures
        r == (if id_entries(*m).contains_key(key@) { Some(id_entries(*m)[key@]) } else { None }),
{
    m.get(key).copied()
}

/// `HashMap::insert` on an id map.
#[verifier::external_body]
pub(crate) fn id_map_insert(m: &mut HashMap<String, u16>, key: String, v: u16)
    ensures
        id_entries(*final(m)) == id_entries(*old(m)).insert(key@, v),
{
    m.insert(key, v);
}

/// `HashMap::get` on a name-to-indices map, handing out a copy of the list.
#[verifier::external_body]
pub(crate) fn index_list_get(m: &HashMap<String, Vec<u16>>, key: &str) -> (r: Option<Vec<u16>>)
    ensures
        match r {
            Some(v) => index_list_entries(*m).contains_key(key@) && v@ == index_list_entries(*m)[key@],
            None => !index_list_entries(*m).contains_key(key@),
        },
{
    m.get(key).cloned()
}

/// `HashMap::insert` on a name-to-indices map.
#[verifier::external_body]
pub(crate) fn index_list_insert(m: &mut HashMap<String, Vec<u16>>, key: String, v: Vec<u16>)
    ensures
        index_list_entries(*final(m)) == index_list_entries(*old(m)).insert(key@, v@),
{
    m.insert(key, v);
}

/// `HashMap::get` on a name-to-names map, handing out a copy of the list.
#[verifier::external_body]
pub(crate) fn name_list_get(m: &HashMap<String, Vec<String>>, key: &str) -> (r: Option<Vec<String>>)
    ensures
        match r {
            Some(v) => name_list_entries(*m).contains_key(key@) && v@.map_values(|s: String| s@) == name_list_entries(*m)[key@],
            None => !name_list_entries(*m).contains_key(key@),
        },
{
    m.get(key).cloned()
}

/// `HashMap::insert` on a name-to-names map.
#[verifier::external_body]
pub(crate) fn name_list_insert(m: &mut HashMap<String, Vec<String>>, key: String, v: Vec<String>)
    ensures
        name_list_entries(*final(m)) == name_list_entries(*old(m)).insert(key@, v@.map_values(|s: String| s@)),
{
    m.insert(key, v);
}

pub struct CardDb {
    pub cards: Vec<Card>,
    pub id_to_idx: HashMap<String, u16>,
    pub name_to_indices: HashMap<String, Vec<u16>>,
    pub basic_to_stage2: HashMap<String, Vec<String>>,
}

impl CardDb {
    /// Every index the id map hands out names a card.
    pub open spec fn ids_in_range(self) -> bool {
        forall|k: Seq<char>| #[trigger] id_entries(self.id_to_idx).contains_key(k) ==> (id_entries(self.id_to_idx)[k] as int) < self.cards@.len()
    }

    /// The index that the id map gives `id`.
    pub open spec fn index_of_id(self, id: Seq<char>) -> Option<u16> {
        if id_entries(self.id_to_idx).contains_key(id) {
            Some(id_entries(self.id_to_idx)[id])
        } else {
            None
        }
    }

    /// Card `idx`, if it exists.
    pub open spec fn card(self, idx: u16) -> Option<Card> {
        if (idx as int) < self.cards@.len() {
            Some(self.cards@[idx as int])
        } else {
            None
        }
    }

    /// Construct an empty CardDb.
    pub fn new_empty() -> (r: Self)
        ensures
            r.cards@.len() == 0,
            id_entries(r.id_to_idx).dom() == Set::<Seq<char>>::empty(),
            index_list_entries(r.name_to_indices).dom() == Set::<Seq<char>>::empty(),
            name_list_entries(r.basic_to_stage2).dom() == Set::<Seq<char>>::empty(),
    {
        Self {
            cards: Vec::new(),
            id_to_idx: empty_id_map(),
            name_to_indices: empty_index_list_map(),
            basic_to_stage2: empty_name_list_map(),
        }
    }

    pub fn get_by_id(&self, id: &str) -> (r: Option<&Card>)
        requires
            self.ids_in_range(),
        ensures
            match self.index_of_id(id@) {
                Some(i) => r == Some(&self.cards@[i as int]),
                None => r is None,
            },
    {
        match id_map_get(&self.id_to_idx, id) {
            Some(i) => Some(&self.cards[i as usize]),
            None => None,
        }
    }

    pub fn get_by_idx(&self, idx: u16) -> (r: &Card)
        requires
            (idx as int) < self.cards@.len(),
        ensures
            *r == self.cards@[idx as int],
    {
        &self.cards[idx as usize]
    }

    /// Variant of `get_by_idx` that returns None if out of range.
    pub fn try_get_by_idx(&self, idx: u16) -> (r: Option<&Card>)
        ensures
            match self.card(idx) {
                Some(c) => r == Some(&c),
                None => r is None,
            },
    {
        if (idx as usize) < self.cards.len() {
            Some(&self.cards[idx as usize])
        } else {
            None
        }
    }

    pub fn get_idx_by_id(&self, id: &str) -> (r: Option<u16>)
        ensures
            r == self.index_of_id(id@),
    {
        id_map_get(&self.id_to_idx, id)
    }

    pub fn len(&self) -> (r: usize)
        ensures
            r == self.cards@.len(),
    {
        self.cards.len()
    }

    pub fn is_empty(&self) -> (r: bool)
        ensures
            r == (self.cards@.len() == 0),
    {
        self.cards.len() == 0
    }
}

/// A test on a card, used to pick cards out of a pile.
#[derive(Clone, Debug)]
pub enum CardFilter {
    /// Any Pokémon.
    Pokemon,
    /// A Basic Pokémon.
    BasicPokemon,
    /// A Pokémon Tool.
    Tool,
    /// An Item.
    Item,
    /// A Pokémon of the given type.
    PokemonOfElement(Element),
    /// A Basic Pokémon with the given name (ASCII case ignored).
    NamedBasic(String),
    /// Any card with the given name (ASCII case ignored).
    Named(String),
    /// A Pokémon that evolves from the given name (ASCII case ignored).
    EvolvesFrom(String),
    /// Any card whose name is one of the given names (ASCII case ignored).
    NamedAny(Vec<String>),
}

/// Card `c` passes the test `f`.
pub open spec fn filter_holds(c: Card, f: CardFilter) -> bool {
    match f {
        CardFilter::Pokemon => c.kind == CardKind::Pokemon,
        CardFilter::BasicPokemon => c.kind == CardKind::Pokemon && c.stage == Some(Stage::Basic),
        CardFilter::Tool => c.kind == CardKind::Tool,
        CardFilter::Item => c.kind == CardKind::Item,
        CardFilter::PokemonOfElement(e) => c.kind == CardKind::Pokemon && c.element == Some(e),
        CardFilter::NamedBasic(n) => c.kind == CardKind::Pokemon && c.stage == Some(Stage::Basic)
            && eq_ignore_ascii_case(c.name@, n@),
        CardFilter::Named(n) => eq_ignore_ascii_case(c.name@, n@),
        CardFilter::EvolvesFrom(n) => c.kind == CardKind::Pokemon
            && (c.evolves_from matches Some(ef) && eq_ignore_ascii_case(ef@, n@)),
        CardFilter::NamedAny(ns) => exists|i: int| 0 <= i < ns@.len() && eq_ignore_ascii_case(#[trigger] ns@[i]@, c.name@),
    }
}

impl CardDb {
    /// Card `idx` exists and passes the test `f`.
    pub open spec fn matches(self, idx: u16, f: CardFilter) -> bool {
        (idx as int) < self.cards@.len() && filter_holds(self.cards@[idx as int], f)
    }

    /// Every card of `s` exists in this database.
    pub open spec fn knows_all(self, s: Seq<u16>) -> bool {
        forall|i: int| 0 <= i < s.len() ==> (#[trigger] s[i] as int) < self.cards@.len()
    }

    /// Whether card `idx` exists and passes the test `f`.
    pub fn card_matches(&self, idx: u16, f: &CardFilter) -> (r: bool)
        ensures
            r == self.matches(idx, *f),
    {
        match self.try_get_by_idx(idx) {
            None => false,
            Some(c) => card_passes(c, f),
        }
    }
}

/// Whether card `c` passes the test `f`.
pub fn card_passes(c: &Card, f: &CardFilter) -> (r: bool)
    ensures
        r == filter_holds(*c, *f),
{
    let pokemon = matches!(c.kind, CardKind::Pokemon);
    let basic = matches!(c.stage, Some(Stage::Basic));
    match f {
        CardFilter::Pokemon => pokemon,
        CardFilter::BasicPokemon => pokemon && basic,
        CardFilter::Tool => matches!(c.kind, CardKind::Tool),
        CardFilter::Item => matches!(c.kind, CardKind::Item),
        CardFilter::PokemonOfElement(e) => pokemon && match c.element {
            Some(ce) => ce == *e,
            None => false,
        },
        CardFilter::NamedBasic(n) => pokemon && basic && str_eq_ignore_ascii_case(c.name.as_str(), n.as_str()),
        CardFilter::Named(n) => str_eq_ignore_ascii_case(c.name.as_str(), n.as_str()),
        CardFilter::EvolvesFrom(n) => pokemon && match &c.evolves_from {
            Some(ef) => str_eq_ignore_ascii_case(ef.as_str(), n.as_str()),
            None => false,
        },
        CardFilter::NamedAny(ns) => {
            let mut i: usize = 0;
            while i < ns.len()
                invariant
                    i <= ns@.len(),
                    filter_holds(*c, *f) == exists|j: int| 0 <= j < ns@.len() && eq_ignore_ascii_case(#[trigger] ns@[j]@, c.name@),
                    forall|j: int| 0 <= j < i ==> !eq_ignore_ascii_case(#[trigger] ns@[j]@, c.name@),
                decreases ns.len() - i,
            {
                if str_eq_ignore_ascii_case(ns[i].as_str(), c.name.as_str()) {
                    assert(eq_ignore_ascii_case(ns@[i as int]@, c.name@));
                    return true;
                }
                i = i + 1;
            }
            false
        },
    }
}

}
