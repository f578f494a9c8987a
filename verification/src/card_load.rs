//! Building cards and the card database from the card files' records.
use vstd::prelude::*;
use std::collections::HashMap;
use crate::card::{
    Ability, Attack, Card, CardDb, empty_id_map, empty_index_list_map, empty_name_list_map, id_entries, id_map_get, id_map_insert,
    index_list_entries, index_list_get, index_list_insert, name_list_entries, name_list_get, name_list_insert,
};
use crate::effects::legality::LegalCondition;
use crate::effects::parse::handler_parsed;
use crate::effects::parse_handler_string;
use crate::text::{
    all_digits, chars_contains, chars_ends_with, contains_seq, ends_with, eq_ignore_ascii_case, is_digit, parse_i16,
    parse_i16_chars, parse_u8, parse_u8_chars, str_eq, str_eq_ignore_ascii_case, to_chars, to_lowercase, trim, trim_chars,
    lowered,
};
use crate::types::{CardKind, CostSymbol, Element, Stage};

verus! {

/// A JSON value of a card record, reduced to what the loader reads.
#[derive(Clone, Debug)]
pub enum RawValue {
    /// A number, with its value as an `i64` and as a `u64` where it has one.
    Number { as_i64: Option<i64>, as_u64: Option<u64> },
    /// A string.
    Text(String),
    /// Anything else.
    Other,
}

/// An attack as a card record gives it.
#[derive(Clone, Debug)]
pub struct RawAttack {
    pub name: Option<String>,
    pub damage: Option<RawValue>,
    pub cost: Option<Vec<String>>,
    pub effect: Option<String>,
    pub handler: Option<String>,
}

/// An ability (or a Trainer's effect) as a card record gives it.
#[derive(Clone, Debug)]
pub struct RawAbility {
    pub name: Option<String>,
    pub effect: Option<String>,
    pub handler: Option<String>,
}

/// A card as a card record gives it.
#[derive(Clone, Debug)]
pub struct RawCard {
    pub id: String,
    pub name: Option<String>,
    pub card_type: Option<String>,
    pub subtype: Option<String>,
    pub element: Option<String>,
    pub health: Option<RawValue>,
    pub retreat_cost: Option<RawValue>,
    pub weakness: Option<String>,
    pub attacks: Option<Vec<RawAttack>>,
    pub abilities: Option<Vec<RawAbility>>,
    pub evolves_from: Option<String>,
    pub rarity: Option<String>,
}

/// The characters of `o`, or none.
pub open spec fn opt_text(o: Option<String>) -> Seq<char> {
    match o {
        Some(s) => s@,
        None => Seq::empty(),
    }
}

/// The ASCII digits of `s`, in order.
pub open spec fn digits_only(s: Seq<char>) -> Seq<char>
    decreases s.len(),
{
    if s.len() == 0 {
        Seq::empty()
    } else {
        digits_only(s.drop_last()) + if is_digit(s.last()) { seq![s.last()] } else { Seq::empty() }
    }
}

/// The damage a record value gives: a number as its `i64` value cut to 16
/// bits (0 if it has none), a string as the number its digits spell (0 if
/// none or too large).
pub open spec fn damage_value(v: RawValue) -> i16 {
    match v {
        RawValue::Number { as_i64, .. } => match as_i64 {
            Some(n) => n as i16,
            None => 0,
        },
        RawValue::Text(s) => match parse_i16(digits_only(s@)) {
            Some(d) => d,
            None => 0,
        },
        RawValue::Other => 0,
    }
}

/// The HP a record gives: a number as its `i64` value cut to 16 bits, a
/// string as an `i16` (0 when it does not read as one).
pub open spec fn health_value(o: Option<RawValue>) -> i16 {
    match o {
        Some(RawValue::Number { as_i64, .. }) => match as_i64 {
            Some(n) => n as i16,
            None => 0,
        },
        Some(RawValue::Text(s)) => match parse_i16(s@) {
            Some(d) => d,
            None => 0,
        },
        _ => 0,
    }
}

/// The retreat cost a record gives: a number up to 4 as itself (anything
/// larger, meaning "can't retreat", as 0), a string as a `u8`, else 0.
pub open spec fn retreat_value(o: Option<RawValue>) -> u8 {
    match o {
        Some(RawValue::Number { as_u64, .. }) => {
            let v: u64 = match as_u64 {
                Some(n) => n,
                None => 0,
            };
            if v > 4 { 0 } else { v as u8 }
        },
        Some(RawValue::Text(s)) => match parse_u8(s@) {
            Some(d) => d,
            None => 0,
        },
        _ => 0,
    }
}

/// The cost symbols of `ss`, skipping names that are no symbol.
pub open spec fn cost_parsed(ss: Seq<Seq<char>>) -> Seq<CostSymbol>
    decreases ss.len(),
{
    if ss.len() == 0 {
        Seq::empty()
    } else {
        cost_parsed(ss.drop_last()) + match CostSymbol::parse(ss.last()) {
            Some(c) => seq![c],
            None => Seq::empty(),
        }
    }
}

/// An ability reads as passive when its text, lower-cased, says "as long
/// as" or "once during your turn", or its name, lower-cased, says "body".
pub open spec fn passive_text(name: Seq<char>, effect_text: Seq<char>) -> bool {
    contains_seq(lowered(effect_text), "as long as"@) || contains_seq(lowered(effect_text), "once during your turn"@)
        || contains_seq(lowered(name), "body"@)
}

/// The cost names of an attack record.
pub open spec fn cost_names(o: Option<Vec<String>>) -> Seq<Seq<char>> {
    match o {
        Some(v) => v@.map_values(|s: String| s@),
        None => Seq::empty(),
    }
}

/// The damage of an attack record.
pub open spec fn attack_damage(a: RawAttack) -> i16 {
    match a.damage {
        Some(v) => damage_value(v),
        None => 0,
    }
}

/// Two attack records with the same name, cost and damage.
pub open spec fn same_attack(a: RawAttack, b: RawAttack) -> bool {
    opt_text(a.name) == opt_text(b.name) && cost_names(a.cost) == cost_names(b.cost) && attack_damage(a) == attack_damage(b)
}

/// The attack records kept: each one that repeats no earlier record's name,
/// cost and damage.
pub open spec fn kept_attacks(raws: Seq<RawAttack>) -> Seq<RawAttack>
    decreases raws.len(),
{
    if raws.len() == 0 {
        Seq::empty()
    } else {
        let prev = kept_attacks(raws.drop_last());
        if exists|j: int| 0 <= j < raws.len() - 1 && same_attack(#[trigger] raws[j], raws.last()) {
            prev
        } else {
            prev.push(raws.last())
        }
    }
}

/// `atk` is the attack that record `ra` describes.
pub open spec fn attack_parsed(ra: RawAttack, atk: Attack) -> bool {
    &&& atk.name@ == opt_text(ra.name)
    &&& atk.damage == attack_damage(ra)
    &&& atk.cost@ == cost_parsed(cost_names(ra.cost))
    &&& atk.effect_text@ == opt_text(ra.effect)
    &&& atk.handler@ == opt_text(ra.handler)
    &&& handler_parsed(atk.effects@, atk.handler@)
    &&& atk.legal_conditions@.len() == 0
}

/// The records of `o`, or none.
pub open spec fn attack_records(o: Option<Vec<RawAttack>>) -> Seq<RawAttack> {
    match o {
        Some(v) => v@,
        None => Seq::empty(),
    }
}

/// An ability record with both a name and a text.
pub open spec fn full_ability(a: RawAbility) -> bool {
    a.name is Some && a.effect is Some
}

/// The first ability record from `i` on with both a name and a text.
pub open spec fn first_full_from(abs: Seq<RawAbility>, i: int) -> Option<int>
    decreases abs.len() - i,
{
    if i < 0 || i >= abs.len() {
        None
    } else if full_ability(abs[i]) {
        Some(i)
    } else {
        first_full_from(abs, i + 1)
    }
}

/// `ab` is the ability that the records `o` give: the first one with a
/// name and a text, if any.
pub open spec fn ability_parsed(o: Option<Vec<RawAbility>>, ab: Option<Ability>) -> bool {
    match o {
        None => ab is None,
        Some(v) => match first_full_from(v@, 0) {
            None => ab is None,
            Some(i) => ab matches Some(x) && {
                &&& x.name@ == opt_text(v@[i].name)
                &&& x.effect_text@ == opt_text(v@[i].effect)
                &&& x.handler@ == opt_text(v@[i].handler)
                &&& x.is_passive == passive_text(x.name@, x.effect_text@)
                &&& handler_parsed(x.effects@, x.handler@)
            },
        },
    }
}

/// The kind of a Trainer card by its subtype, lower-cased.
pub open spec fn trainer_kind(subtype: Seq<char>) -> CardKind {
    if lowered(subtype) == "supporter"@ {
        CardKind::Supporter
    } else if lowered(subtype) == "tool"@ {
        CardKind::Tool
    } else {
        CardKind::Item
    }
}

/// The text (or, with `effect` false, the handler) of a Trainer's first
/// ability record, or none.
pub open spec fn first_ability_text(o: Option<Vec<RawAbility>>, effect: bool) -> Seq<char> {
    match o {
        Some(v) => if v@.len() > 0 {
            opt_text(if effect { v@[0].effect } else { v@[0].handler })
        } else {
            Seq::empty()
        },
        None => Seq::empty(),
    }
}

/// The type a record names, if any.
pub open spec fn opt_element(o: Option<String>) -> Option<Element> {
    match o {
        Some(s) => Element::parse(s@),
        None => None,
    }
}

/// The name marks a Pokémon ex: it ends with " ex" or "-ex" once trimmed,
/// or the rarity, lower-cased, says "ex".
pub open spec fn ex_by_name(name: Seq<char>, rarity: Option<String>) -> bool {
    ends_with(trim(name), " ex"@) || ends_with(trim(name), "-ex"@) || (rarity matches Some(r) && contains_seq(lowered(r@), "ex"@))
}

/// The name, lower-cased, says both "mega" and "ex".
pub open spec fn mega_by_name(name: Seq<char>) -> bool {
    contains_seq(lowered(name), "mega"@) && contains_seq(lowered(name), "ex"@)
}

/// `c` is the card that record `raw` describes (its index still unset).
pub open spec fn card_parsed(raw: RawCard, c: Card) -> bool {
    let name = opt_text(raw.name);
    let card_type = match raw.card_type {
        Some(s) => s@,
        None => "Pokemon"@,
    };
    let subtype = opt_text(raw.subtype);
    let ex = ex_by_name(name, raw.rarity);
    let mega = mega_by_name(name);
    &&& c.id@ == raw.id@
    &&& c.idx == 0
    &&& c.name@ == name
    &&& c.is_ex == (ex || mega)
    &&& c.is_mega_ex == mega
    &&& c.ko_points == (if mega { 3u8 } else if ex { 2u8 } else { 1u8 })
    &&& match raw.evolves_from {
        Some(e) => c.evolves_from matches Some(x) && x@ == e@,
        None => c.evolves_from is None,
    }
    &&& c.trainer_legal_conditions@.len() == 0
    &&& if eq_ignore_ascii_case(card_type, "pokemon"@) {
        let ks = kept_attacks(attack_records(raw.attacks));
        &&& c.kind == CardKind::Pokemon
        &&& c.stage == Stage::parse(subtype)
        &&& c.element == opt_element(raw.element)
        &&& c.weakness == opt_element(raw.weakness)
        &&& c.hp == health_value(raw.health)
        &&& c.retreat_cost == retreat_value(raw.retreat_cost)
        &&& c.attacks@.len() == ks.len()
        &&& forall|i: int| 0 <= i < ks.len() ==> attack_parsed(ks[i], #[trigger] c.attacks@[i])
        &&& ability_parsed(raw.abilities, c.ability)
        &&& c.trainer_effect_text@.len() == 0
        &&& c.trainer_handler@.len() == 0
        &&& c.trainer_effects@.len() == 0
    } else {
        &&& c.kind == trainer_kind(subtype)
        &&& c.stage is None
        &&& c.element is None
        &&& c.weakness is None
        &&& c.hp == 0
        &&& c.retreat_cost == 0
        &&& c.attacks@.len() == 0
        &&& c.ability is None
        &&& c.trainer_effect_text@ == first_ability_text(raw.abilities, true)
        &&& c.trainer_handler@ == first_ability_text(raw.abilities, false)
        &&& handler_parsed(c.trainer_effects@, c.trainer_handler@)
    }
}


/// The string in `o`, or an empty one.
fn opt_string(o: &Option<String>) -> (r: String)
    ensures
        r@ == opt_text(*o),
{
    match o {
        Some(s) => s.clone(),
        None => String::new(),
    }
}

/// The ASCII digits of `s`.
fn digits_of_chars(s: &Vec<char>) -> (r: Vec<char>)
    ensures
        r@ == digits_only(s@),
{
    let mut v: Vec<char> = Vec::new();
    let mut i: usize = 0;
    while i < s.len()
        invariant
            i <= s@.len(),
            v@ == digits_only(s@.subrange(0, i as int)),
        decreases s.len() - i,
    {
        let ghost pre = s@.subrange(0, i as int);
        let c = s[i];
        if '0' <= c && c <= '9' {
            v.push(c);
        }
        proof {
            let now = s@.subrange(0, i + 1);
            assert(now.drop_last() =~= pre);
            assert(v@ =~= digits_only(now));
        }
        i = i + 1;
    }
    assert(s@.subrange(0, s@.len() as int) =~= s@);
    v
}

/// The damage a record value gives.
pub fn parse_damage(v: &RawValue) -> (r: i16)
    ensures
        r == damage_value(*v),
{
    match v {
        RawValue::Number { as_i64, .. } => match as_i64 {
            Some(n) => #[verifier::truncate] (*n as i16),
            None => 0,
        },
        RawValue::Text(s) => {
            let cs = to_chars(s.as_str());
            let d = digits_of_chars(&cs);
            match parse_i16_chars(d.as_slice()) {
                Some(x) => x,
                None => 0,
            }
        },
        RawValue::Other => 0,
    }
}

fn health_of(o: &Option<RawValue>) -> (r: i16)
    ensures
        r == health_value(*o),
{
    match o {
        Some(RawValue::Number { as_i64, .. }) => match as_i64 {
            Some(n) => #[verifier::truncate] (*n as i16),
            None => 0,
        },
        Some(RawValue::Text(s)) => {
            let cs = to_chars(s.as_str());
            match parse_i16_chars(cs.as_slice()) {
                Some(x) => x,
                None => 0,
            }
        },
        _ => 0,
    }
}

fn retreat_of(o: &Option<RawValue>) -> (r: u8)
    ensures
        r == retreat_value(*o),
{
    match o {
        Some(RawValue::Number { as_u64, .. }) => {
            let v: u64 = match as_u64 {
                Some(n) => *n,
                None => 0,
            };
            if v > 4 {
                0
            } else {
                v as u8
            }
        },
        Some(RawValue::Text(s)) => {
            let cs = to_chars(s.as_str());
            match parse_u8_chars(cs.as_slice()) {
                Some(x) => x,
                None => 0,
            }
        },
        _ => 0,
    }
}

/// The cost symbols that `cost_list` names, skipping unknown names.
pub fn parse_cost(cost_list: &[String]) -> (r: Vec<CostSymbol>)
    ensures
        r@ == cost_parsed(cost_list@.map_values(|s: String| s@)),
{
    let ghost names = cost_list@.map_values(|s: String| s@);
    let mut out: Vec<CostSymbol> = Vec::new();
    let mut i: usize = 0;
    while i < cost_list.len()
        invariant
            i <= cost_list@.len(),
            names == cost_list@.map_values(|s: String| s@),
            out@ == cost_parsed(names.subrange(0, i as int)),
        decreases cost_list.len() - i,
    {
        let ghost pre = names.subrange(0, i as int);
        let c = CostSymbol::from_str(cost_list[i].as_str());
        if let Some(sym) = c {
            out.push(sym);
        }
        proof {
            let now = names.subrange(0, i + 1);
            assert(now.drop_last() =~= pre);
            assert(now.last() == cost_list@[i as int]@);
            assert(out@ =~= cost_parsed(now));
        }
        i = i + 1;
    }
    assert(names.subrange(0, names.len() as int) =~= names);
    out
}

/// `s` lower-cased contains `pat`.
fn lower_contains(s: &str, pat: &str) -> (r: bool)
    ensures
        r == contains_seq(lowered(s@), pat@),
{
    let low = to_lowercase(s);
    let a = to_chars(low.as_str());
    let b = to_chars(pat);
    chars_contains(a.as_slice(), b.as_slice())
}

/// Whether an ability reads as passive.
pub fn detect_is_passive(name: &str, effect_text: &str) -> (r: bool)
    ensures
        r == passive_text(name@, effect_text@),
{
    lower_contains(effect_text, "as long as") || lower_contains(effect_text, "once during your turn") || lower_contains(
        name,
        "body",
    )
}


fn cost_names_equal(a: &Option<Vec<String>>, b: &Option<Vec<String>>) -> (r: bool)
    ensures
        r == (cost_names(*a) == cost_names(*b)),
{
    let empty: Vec<String> = Vec::new();
    let x = match a {
        Some(v) => v,
        None => &empty,
    };
    let y = match b {
        Some(v) => v,
        None => &empty,
    };
    let ghost xs = x@.map_values(|s: String| s@);
    let ghost ys = y@.map_values(|s: String| s@);
    assert(xs == cost_names(*a));
    assert(ys == cost_names(*b));
    if x.len() != y.len() {
        assert(xs.len() != ys.len());
        return false;
    }
    let mut i: usize = 0;
    while i < x.len()
        invariant
            i <= x@.len(),
            x@.len() == y@.len(),
            xs == x@.map_values(|s: String| s@),
            ys == y@.map_values(|s: String| s@),
            xs == cost_names(*a),
            ys == cost_names(*b),
            forall|j: int| 0 <= j < i ==> xs[j] == ys[j],
        decreases x.len() - i,
    {
        assert(xs[i as int] == x@[i as int]@ && ys[i as int] == y@[i as int]@);
        if !str_eq(x[i].as_str(), y[i].as_str()) {
            assert(xs[i as int] != ys[i as int]);
            assert(xs != ys);
            return false;
        }
        i = i + 1;
    }
    assert(xs =~= ys);
    true
}

fn same_attack_exec(a: &RawAttack, b: &RawAttack) -> (r: bool)
    ensures
        r == same_attack(*a, *b),
{
    let na = opt_string(&a.name);
    let nb = opt_string(&b.name);
    let da = match &a.damage {
        Some(v) => parse_damage(v),
        None => 0,
    };
    let dbv = match &b.damage {
        Some(v) => parse_damage(v),
        None => 0,
    };
    str_eq(na.as_str(), nb.as_str()) && cost_names_equal(&a.cost, &b.cost) && da == dbv
}

/// The attack that record `ra` describes.
fn parse_attack(ra: &RawAttack) -> (r: Attack)
    ensures
        attack_parsed(*ra, r),
{
    let name = opt_string(&ra.name);
    let damage = match &ra.damage {
        Some(v) => parse_damage(v),
        None => 0,
    };
    let empty: Vec<String> = Vec::new();
    let cost_raw = match &ra.cost {
        Some(v) => v,
        None => &empty,
    };
    assert(cost_raw@.map_values(|s: String| s@) =~= cost_names(ra.cost));
    let cost = parse_cost(cost_raw.as_slice());
    let handler = opt_string(&ra.handler);
    let effects = parse_handler_string(handler.as_str());
    let legal: Vec<LegalCondition> = Vec::new();
    Attack { name, damage, cost, effect_text: opt_string(&ra.effect), handler, effects, legal_conditions: legal }
}

/// The attacks that `raws` describe, skipping each record that repeats an
/// earlier one's name, cost and damage.
fn parse_attacks(raws: &Vec<RawAttack>) -> (r: Vec<Attack>)
    ensures
        r@.len() == kept_attacks(raws@).len(),
        forall|i: int| 0 <= i < r@.len() ==> attack_parsed(kept_attacks(raws@)[i], #[trigger] r@[i]),
{
    let mut out: Vec<Attack> = Vec::new();
    let mut i: usize = 0;
    while i < raws.len()
        invariant
            i <= raws@.len(),
            out@.len() == kept_attacks(raws@.subrange(0, i as int)).len(),
            forall|k: int| 0 <= k < out@.len() ==> attack_parsed(kept_attacks(raws@.subrange(0, i as int))[k], #[trigger] out@[k]),
        decreases raws.len() - i,
    {
        let ghost pre = raws@.subrange(0, i as int);
        let ghost now = raws@.subrange(0, i + 1);
        assert(now.drop_last() =~= pre);
        assert(now.last() == raws@[i as int]);
        let mut dup = false;
        let mut j: usize = 0;
        while j < i
            invariant
                j <= i,
                i < raws@.len(),
                now == raws@.subrange(0, i + 1),
                dup == exists|q: int| 0 <= q < j && same_attack(#[trigger] now[q], now.last()),
            decreases i - j,
        {
            let same = same_attack_exec(&raws[j], &raws[i]);
            proof {
                assert(now[j as int] == raws@[j as int]);
                if same {
                    assert(same_attack(now[j as int], now.last()));
                }
                if dup || same {
                    assert(exists|q: int| 0 <= q < j + 1 && same_attack(#[trigger] now[q], now.last()));
                } else {
                    assert forall|q: int| 0 <= q < j + 1 implies !same_attack(#[trigger] now[q], now.last()) by {
                        if q == j {
                            assert(now[q] == raws@[j as int]);
                        }
                    }
                }
            }
            dup = dup || same;
            j = j + 1;
        }
        if !dup {
            let a = parse_attack(&raws[i]);
            out.push(a);
        }
        proof {
            if !dup {
                assert(kept_attacks(now) == kept_attacks(pre).push(now.last()));
            } else {
                assert(kept_attacks(now) == kept_attacks(pre));
            }
            assert forall|k: int| 0 <= k < out@.len() implies attack_parsed(kept_attacks(now)[k], #[trigger] out@[k]) by {
                if k < kept_attacks(pre).len() {
                    assert(kept_attacks(now)[k] == kept_attacks(pre)[k]);
                }
            }
        }
        i = i + 1;
    }
    assert(raws@.subrange(0, raws@.len() as int) =~= raws@);
    out
}


/// The ability that the records `o` give: the first one with a name and a
/// text, if any.
fn parse_ability(o: &Option<Vec<RawAbility>>) -> (r: Option<Ability>)
    ensures
        ability_parsed(*o, r),
{
    let abs = match o {
        Some(v) => v,
        None => {
            return None;
        },
    };
    let mut i: usize = 0;
    while i < abs.len()
        invariant
            i <= abs@.len(),
            *o == Some(*abs),
            first_full_from(abs@, 0) == first_full_from(abs@, i as int),
        decreases abs.len() - i,
    {
        let a = &abs[i];
        if a.name.is_some() && a.effect.is_some() {
            assert(first_full_from(abs@, i as int) == Some(i as int));
            let handler = opt_string(&a.handler);
            let effects = parse_handler_string(handler.as_str());
            let ab_name = opt_string(&a.name);
            let effect_text = opt_string(&a.effect);
            let is_passive = detect_is_passive(ab_name.as_str(), effect_text.as_str());
            return Some(Ability { name: ab_name, effect_text, is_passive, handler, effects });
        }
        i = i + 1;
    }
    None
}

/// The kind of a Trainer card by its subtype.
fn trainer_kind_of(subtype: &str) -> (r: CardKind)
    ensures
        r == trainer_kind(subtype@),
{
    let low = to_lowercase(subtype);
    if str_eq(low.as_str(), "supporter") {
        CardKind::Supporter
    } else if str_eq(low.as_str(), "tool") {
        CardKind::Tool
    } else {
        CardKind::Item
    }
}

fn first_ability_string(o: &Option<Vec<RawAbility>>, effect: bool) -> (r: String)
    ensures
        r@ == first_ability_text(*o, effect),
{
    match o {
        Some(v) => {
            if v.len() > 0 {
                if effect {
                    opt_string(&v[0].effect)
                } else {
                    opt_string(&v[0].handler)
                }
            } else {
                String::new()
            }
        },
        None => String::new(),
    }
}

fn opt_element_of(o: &Option<String>) -> (r: Option<Element>)
    ensures
        r == opt_element(*o),
{
    match o {
        Some(s) => Element::from_str(s.as_str()),
        None => None,
    }
}

fn is_ex_by_name(name: &String, rarity: &Option<String>) -> (r: bool)
    ensures
        r == ex_by_name(name@, *rarity),
{
    let cs = to_chars(name.as_str());
    let t = trim_chars(cs.as_slice());
    let sp = to_chars(" ex");
    let dash = to_chars("-ex");
    if chars_ends_with(t.as_slice(), sp.as_slice()) || chars_ends_with(t.as_slice(), dash.as_slice()) {
        return true;
    }
    match rarity {
        Some(r) => lower_contains(r.as_str(), "ex"),
        None => false,
    }
}

/// The card that record `raw` describes, with its index left at 0 for the
/// database to set.
pub fn parse_card(raw: &RawCard) -> (c: Card)
    ensures
        card_parsed(*raw, c),
{
    let name = opt_string(&raw.name);
    let card_type = match &raw.card_type {
        Some(s) => s.clone(),
        None => String::from_str("Pokemon"),
    };
    let subtype = opt_string(&raw.subtype);
    let is_pokemon = str_eq_ignore_ascii_case(card_type.as_str(), "pokemon");
    let is_ex = is_ex_by_name(&name, &raw.rarity);
    let is_mega_ex = lower_contains(name.as_str(), "mega") && lower_contains(name.as_str(), "ex");
    let ko_points: u8 = if is_mega_ex {
        3
    } else if is_ex {
        2
    } else {
        1
    };
    let evolves_from = match &raw.evolves_from {
        Some(e) => Some(e.clone()),
        None => None,
    };
    let no_legal: Vec<LegalCondition> = Vec::new();
    if is_pokemon {
        let empty: Vec<RawAttack> = Vec::new();
        let raws = match &raw.attacks {
            Some(v) => v,
            None => &empty,
        };
        assert(raws@ == attack_records(raw.attacks));
        let attacks = parse_attacks(raws);
        Card {
            id: raw.id.clone(),
            idx: 0,
            name,
            kind: CardKind::Pokemon,
            stage: Stage::from_str(subtype.as_str()),
            element: opt_element_of(&raw.element),
            hp: health_of(&raw.health),
            weakness: opt_element_of(&raw.weakness),
            retreat_cost: retreat_of(&raw.retreat_cost),
            is_ex: is_ex || is_mega_ex,
            is_mega_ex,
            evolves_from,
            attacks,
            ability: parse_ability(&raw.abilities),
            trainer_effect_text: String::new(),
            trainer_handler: String::new(),
            trainer_effects: Vec::new(),
            trainer_legal_conditions: no_legal,
            ko_points,
        }
    } else {
        let trainer_effect_text = first_ability_string(&raw.abilities, true);
        let trainer_handler = first_ability_string(&raw.abilities, false);
        let trainer_effects = parse_handler_string(trainer_handler.as_str());
        Card {
            id: raw.id.clone(),
            idx: 0,
            name,
            kind: trainer_kind_of(subtype.as_str()),
            stage: None,
            element: None,
            hp: 0,
            weakness: None,
            retreat_cost: 0,
            is_ex: is_ex || is_mega_ex,
            is_mega_ex,
            evolves_from,
            attacks: Vec::new(),
            ability: None,
            trainer_effect_text,
            trainer_handler,
            trainer_effects,
            trainer_legal_conditions: no_legal,
            ko_points,
        }
    }
}


/// How many of `atks` have an effect text.
pub open spec fn texts_count(atks: Seq<Attack>) -> int
    decreases atks.len(),
{
    if atks.len() == 0 {
        0
    } else {
        texts_count(atks.drop_last()) + if atks.last().effect_text@.len() > 0 { 1int } else { 0int }
    }
}

/// How much a card's record says: 2 for an ability, 1 per attack with a
/// text, 3 for a Trainer text.
pub open spec fn info_score(c: Card) -> int {
    (if c.ability is Some { 2int } else { 0int }) + texts_count(c.attacks@) + if c.trainer_effect_text@.len() > 0 { 3int } else { 0int }
}

proof fn lemma_texts_count_bounds(atks: Seq<Attack>)
    ensures
        0 <= texts_count(atks) <= atks.len(),
    decreases atks.len(),
{
    if atks.len() > 0 {
        lemma_texts_count_bounds(atks.drop_last());
    }
}

/// How much a card's record says; the richer of two records of one card is kept.
pub fn card_info_score(card: &Card) -> (r: i32)
    requires
        card.attacks@.len() < 0x7fff_fff0,
    ensures
        r == info_score(*card),
{
    let mut score: i32 = 0;
    if card.ability.is_some() {
        score = score + 2;
    }
    let mut n: i32 = 0;
    let mut i: usize = 0;
    while i < card.attacks.len()
        invariant
            i <= card.attacks@.len(),
            card.attacks@.len() < 0x7fff_fff0,
            n == texts_count(card.attacks@.subrange(0, i as int)),
            0 <= n <= i,
        decreases card.attacks.len() - i,
    {
        let ghost pre = card.attacks@.subrange(0, i as int);
        proof {
            let now = card.attacks@.subrange(0, i + 1);
            assert(now.drop_last() =~= pre);
        }
        if card.attacks[i].effect_text.unicode_len() > 0 {
            n = n + 1;
        }
        i = i + 1;
    }
    assert(card.attacks@.subrange(0, card.attacks@.len() as int) =~= card.attacks@);
    score = score + n;
    if card.trainer_effect_text.unicode_len() > 0 {
        score = score + 3;
    }
    score
}

/// `m` with `v` appended to the list under `k` (an empty list when absent).
pub open spec fn list_push<V>(m: Map<Seq<char>, Seq<V>>, k: Seq<char>, v: V) -> Map<Seq<char>, Seq<V>> {
    m.insert(k, (if m.contains_key(k) { m[k] } else { Seq::empty() }).push(v))
}

/// For each Stage 1 card, the names it evolves from, in card order.
pub open spec fn stage1_sources(cards: Seq<Card>) -> Map<Seq<char>, Seq<Seq<char>>>
    decreases cards.len(),
{
    if cards.len() == 0 {
        Map::empty()
    } else {
        let m = stage1_sources(cards.drop_last());
        let c = cards.last();
        if c.stage == Some(Stage::Stage1) && c.evolves_from is Some {
            list_push(m, c.name@, c.evolves_from->0@)
        } else {
            m
        }
    }
}

/// `m` with `name` appended under each of `basics`.
pub open spec fn push_under_each(m: Map<Seq<char>, Seq<Seq<char>>>, basics: Seq<Seq<char>>, name: Seq<char>) -> Map<
    Seq<char>,
    Seq<Seq<char>>,
>
    decreases basics.len(),
{
    if basics.len() == 0 {
        m
    } else {
        list_push(push_under_each(m, basics.drop_last(), name), basics.last(), name)
    }
}

/// For each Basic name, the Stage 2 cards it leads to through a Stage 1
/// card, in card order.
pub open spec fn evo_cache_upto(cards: Seq<Card>, s1: Map<Seq<char>, Seq<Seq<char>>>) -> Map<Seq<char>, Seq<Seq<char>>>
    decreases cards.len(),
{
    if cards.len() == 0 {
        Map::empty()
    } else {
        let m = evo_cache_upto(cards.drop_last(), s1);
        let c = cards.last();
        if c.stage == Some(Stage::Stage2) && c.evolves_from is Some && s1.contains_key(c.evolves_from->0@) {
            push_under_each(m, s1[c.evolves_from->0@], c.name@)
        } else {
            m
        }
    }
}

/// The Basic-to-Stage-2 table of `cards`.
pub open spec fn evo_cache(cards: Seq<Card>) -> Map<Seq<char>, Seq<Seq<char>>> {
    evo_cache_upto(cards, stage1_sources(cards))
}

/// Appends `v` to the list under `key`.
fn name_list_push(m: &mut HashMap<String, Vec<String>>, key: &String, v: &String)
    ensures
        name_list_entries(*final(m)) == list_push(name_list_entries(*old(m)), key@, v@),
{
    let ghost m0 = name_list_entries(*m);
    let ghost cur: Seq<Seq<char>> = if m0.contains_key(key@) { m0[key@] } else { Seq::empty() };
    let mut l = match name_list_get(m, key.as_str()) {
        Some(l) => l,
        None => {
            let e: Vec<String> = Vec::new();
            assert(e@.map_values(|s: String| s@) =~= Seq::<Seq<char>>::empty());
            e
        },
    };
    assert(l@.map_values(|s: String| s@) == cur);
    let vc = v.clone();
    l.push(vc);
    assert(l@.map_values(|s: String| s@) =~= cur.push(v@));
    let kc = key.clone();
    assert(kc@ == key@);
    name_list_insert(m, kc, l);
}

/// The Basic-to-Stage-2 table: for each Basic name, the Stage 2 cards it
/// leads to through a Stage 1 card.
pub fn build_evo_cache(cards: &[Card]) -> (r: HashMap<String, Vec<String>>)
    ensures
        name_list_entries(r) == evo_cache(cards@),
{
    let mut s1 = empty_name_list_map();
    let mut i: usize = 0;
    while i < cards.len()
        invariant
            i <= cards@.len(),
            name_list_entries(s1) == stage1_sources(cards@.subrange(0, i as int)),
        decreases cards.len() - i,
    {
        let ghost pre = cards@.subrange(0, i as int);
        proof {
            let now = cards@.subrange(0, i + 1);
            assert(now.drop_last() =~= pre);
        }
        let c = &cards[i];
        if let Some(Stage::Stage1) = c.stage {
            if let Some(basic) = &c.evolves_from {
                name_list_push(&mut s1, &c.name, basic);
            }
        }
        i = i + 1;
    }
    assert(cards@.subrange(0, cards@.len() as int) =~= cards@);
    let ghost s1v = name_list_entries(s1);
    let mut out = empty_name_list_map();
    assert(name_list_entries(out) =~= Map::empty());
    let mut i: usize = 0;
    while i < cards.len()
        invariant
            i <= cards@.len(),
            s1v == stage1_sources(cards@),
            name_list_entries(s1) == s1v,
            name_list_entries(out) == evo_cache_upto(cards@.subrange(0, i as int), s1v),
        decreases cards.len() - i,
    {
        let ghost pre = cards@.subrange(0, i as int);
        proof {
            let now = cards@.subrange(0, i + 1);
            assert(now.drop_last() =~= pre);
        }
        let c = &cards[i];
        if let Some(Stage::Stage2) = c.stage {
            if let Some(s1_name) = &c.evolves_from {
                if let Some(basics) = name_list_get(&s1, s1_name.as_str()) {
                    let ghost bs = basics@.map_values(|s: String| s@);
                    let ghost m0 = name_list_entries(out);
                    let mut j: usize = 0;
                    while j < basics.len()
                        invariant
                            j <= basics@.len(),
                            bs == basics@.map_values(|s: String| s@),
                            name_list_entries(out) == push_under_each(m0, bs.subrange(0, j as int), c.name@),
                        decreases basics.len() - j,
                    {
                        proof {
                            let now = bs.subrange(0, j + 1);
                            assert(now.drop_last() =~= bs.subrange(0, j as int));
                            assert(now.last() == basics@[j as int]@);
                        }
                        name_list_push(&mut out, &basics[j], &c.name);
                        j = j + 1;
                    }
                    assert(bs.subrange(0, bs.len() as int) =~= bs);
                }
            }
        }
        i = i + 1;
    }
    assert(cards@.subrange(0, cards@.len() as int) =~= cards@);
    out
}


/// The attacks kept are at most the records.
proof fn lemma_kept_len(raws: Seq<RawAttack>)
    ensures
        kept_attacks(raws).len() <= raws.len(),
    decreases raws.len(),
{
    if raws.len() > 0 {
        lemma_kept_len(raws.drop_last());
    }
}

/// The cards kept so far, and the index each id was given.
pub struct DedupState {
    pub cards: Seq<Card>,
    pub ids: Map<Seq<char>, u16>,
}

/// One more parsed card: a new id gets the next index; a known id keeps
/// its index and its card, unless the new record says more.
pub open spec fn dedup_step(st: DedupState, c: Card) -> DedupState {
    if st.ids.contains_key(c.id@) {
        let k = st.ids[c.id@];
        if info_score(c) > info_score(st.cards[k as int]) {
            DedupState { cards: st.cards.update(k as int, Card { idx: k, ..c }), ..st }
        } else {
            st
        }
    } else {
        let k = st.cards.len() as u16;
        DedupState { cards: st.cards.push(Card { idx: k, ..c }), ids: st.ids.insert(c.id@, k) }
    }
}

/// The cards of `parsed` once each id is kept once.
pub open spec fn dedup_cards(parsed: Seq<Card>) -> DedupState
    decreases parsed.len(),
{
    if parsed.len() == 0 {
        DedupState { cards: Seq::empty(), ids: Map::empty() }
    } else {
        dedup_step(dedup_cards(parsed.drop_last()), parsed.last())
    }
}

/// For each name, the indices of the cards with that name, in order.
pub open spec fn name_index(cards: Seq<Card>) -> Map<Seq<char>, Seq<u16>>
    decreases cards.len(),
{
    if cards.len() == 0 {
        Map::empty()
    } else {
        list_push(name_index(cards.drop_last()), cards.last().name@, cards.last().idx)
    }
}

/// Appends `v` to the list under `key`.
fn index_list_push(m: &mut HashMap<String, Vec<u16>>, key: &String, v: u16)
    ensures
        index_list_entries(*final(m)) == list_push(index_list_entries(*old(m)), key@, v),
{
    let ghost m0 = index_list_entries(*m);
    let ghost cur: Seq<u16> = if m0.contains_key(key@) { m0[key@] } else { Seq::empty() };
    let mut l = match index_list_get(m, key.as_str()) {
        Some(l) => l,
        None => Vec::new(),
    };
    assert(l@ == cur);
    l.push(v);
    let kc = key.clone();
    index_list_insert(m, kc, l);
}

impl CardDb {
    /// The database of the cards that `raw_cards` describe: each id once, as
    /// the richest of its records (the first among equals), at the index of
    /// its first record; with the name index and the Basic-to-Stage-2 table.
    pub fn build_from_raw(raw_cards: Vec<RawCard>) -> (r: Self)
        requires
            raw_cards@.len() <= 65536,
            forall|i: int| 0 <= i < raw_cards@.len() ==> attack_records(#[trigger] raw_cards@[i].attacks).len() < 0x7fff_fff0,
        ensures
            exists|parsed: Seq<Card>|
                parsed.len() == raw_cards@.len() && (forall|i: int| 0 <= i < parsed.len() ==> card_parsed(raw_cards@[i], #[trigger] parsed[i]))
                    && r.cards@ == (#[trigger] dedup_cards(parsed)).cards && id_entries(r.id_to_idx) == dedup_cards(parsed).ids,
            index_list_entries(r.name_to_indices) == name_index(r.cards@),
            name_list_entries(r.basic_to_stage2) == evo_cache(r.cards@),
    {
        let n = raw_cards.len();
        let mut cards: Vec<Card> = Vec::new();
        let mut id_to_idx = empty_id_map();
        let ghost mut parsed: Seq<Card> = Seq::empty();
        assert(id_entries(id_to_idx) =~= Map::empty());
        let mut i: usize = 0;
        while i < n
            invariant
                n == raw_cards@.len(),
                n <= 65536,
                i <= n,
                forall|j: int| 0 <= j < raw_cards@.len() ==> attack_records(#[trigger] raw_cards@[j].attacks).len() < 0x7fff_fff0,
                parsed.len() == i,
                forall|j: int| 0 <= j < i ==> card_parsed(raw_cards@[j], #[trigger] parsed[j]),
                cards@ == dedup_cards(parsed).cards,
                id_entries(id_to_idx) == dedup_cards(parsed).ids,
                cards@.len() <= i,
                forall|k: Seq<char>| #[trigger] id_entries(id_to_idx).contains_key(k) ==> (id_entries(id_to_idx)[k] as int) < cards@.len(),
                forall|k: int| 0 <= k < cards@.len() ==> (#[trigger] cards@[k]).attacks@.len() < 0x7fff_fff0,
            decreases n - i,
        {
            let card = parse_card(&raw_cards[i]);
            proof {
                lemma_kept_len(attack_records(raw_cards@[i as int].attacks));
                let np = parsed.push(card);
                assert(np.drop_last() =~= parsed);
                assert forall|j: int| 0 <= j < i + 1 implies card_parsed(raw_cards@[j], #[trigger] np[j]) by {
                    if j < i {
                        assert(np[j] == parsed[j]);
                    }
                }
                parsed = np;
            }
            match id_map_get(&id_to_idx, card.id.as_str()) {
                Some(idx) => {
                    if card_info_score(&card) > card_info_score(&cards[idx as usize]) {
                        let mut rep = card;
                        rep.idx = idx;
                        cards.set(idx as usize, rep);
                    }
                },
                None => {
                    let idx = cards.len() as u16;
                    let key = card.id.clone();
                    id_map_insert(&mut id_to_idx, key, idx);
                    let mut c = card;
                    c.idx = idx;
                    cards.push(c);
                },
            }
            i = i + 1;
        }
        let mut name_to_indices = empty_index_list_map();
        assert(index_list_entries(name_to_indices) =~= Map::empty());
        let mut j: usize = 0;
        while j < cards.len()
            invariant
                j <= cards@.len(),
                index_list_entries(name_to_indices) == name_index(cards@.subrange(0, j as int)),
            decreases cards.len() - j,
        {
            proof {
                let now = cards@.subrange(0, j + 1);
                assert(now.drop_last() =~= cards@.subrange(0, j as int));
            }
            index_list_push(&mut name_to_indices, &cards[j].name, cards[j].idx);
            j = j + 1;
        }
        assert(cards@.subrange(0, cards@.len() as int) =~= cards@);
        let basic_to_stage2 = build_evo_cache(cards.as_slice());
        CardDb { cards, id_to_idx, name_to_indices, basic_to_stage2 }
    }
}

}
