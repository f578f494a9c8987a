//! The built-in sample decks, and the deck-building rules.
use vstd::prelude::*;
use crate::card::CardDb;
use crate::text::{
    decimal, decimal_u64, join_with, joined, push_str, split, split_chars, str_eq, string_from_chars, to_chars, to_lowercase, trim,
    trim_chars, lowered, views, lemma_plain_name_key,
};
use crate::types::{CardKind, Element, Stage};

verus! {

/// The characters of each of `v`.
pub open spec fn id_views(v: Seq<&str>) -> Seq<Seq<char>> {
    v.map_values(|s: &str| s@)
}

/// The card ids of the venusaur sample deck.
pub open spec fn venusaur_ex_deck() -> Seq<Seq<char>> {
    seq![
        "a1-001"@,
        "a1-001"@,
        "a1-002"@,
        "a1-002"@,
        "a1-004"@,
        "a1-004"@,
        "a1-225"@,
        "a1-225"@,
        "a1-219"@,
        "a1-219"@,
        "pa-005"@,
        "pa-005"@,
        "a1-029"@,
        "a1-029"@,
        "a1-030"@,
        "a1-030"@,
        "pa-001"@,
        "pa-001"@,
        "pa-007"@,
        "pa-007"@,
    ]
}

fn venusaur_ex_deck_list() -> (r: (Vec<&'static str>, Vec<Element>))
    ensures
        id_views(r.0@) == venusaur_ex_deck(),
        r.1@ == seq![Element::Grass],
{
    let v: Vec<&'static str> = vec![
        "a1-001",
        "a1-001",
        "a1-002",
        "a1-002",
        "a1-004",
        "a1-004",
        "a1-225",
        "a1-225",
        "a1-219",
        "a1-219",
        "pa-005",
        "pa-005",
        "a1-029",
        "a1-029",
        "a1-030",
        "a1-030",
        "pa-001",
        "pa-001",
        "pa-007",
        "pa-007",
    ];
    let e: Vec<Element> = vec![Element::Grass];
    assert(id_views(v@) =~= venusaur_ex_deck());
    assert(e@ =~= seq![Element::Grass]);
    (v, e)
}

/// The card ids of the charizard sample deck.
pub open spec fn charizard_ex_deck() -> Seq<Seq<char>> {
    seq![
        "a1-230"@,
        "a1-230"@,
        "a2b-010"@,
        "a2b-010"@,
        "a1-037"@,
        "a1-037"@,
        "a1-038"@,
        "a1-038"@,
        "a3-144"@,
        "a3-144"@,
        "a2-154"@,
        "a2-154"@,
        "a2-148"@,
        "a2-148"@,
        "pa-005"@,
        "pa-005"@,
        "pa-001"@,
        "pa-001"@,
        "a2-147"@,
        "a2-147"@,
    ]
}

fn charizard_ex_deck_list() -> (r: (Vec<&'static str>, Vec<Element>))
    ensures
        id_views(r.0@) == charizard_ex_deck(),
        r.1@ == seq![Element::Fire],
{
    let v: Vec<&'static str> = vec![
        "a1-230",
        "a1-230",
        "a2b-010",
        "a2b-010",
        "a1-037",
        "a1-037",
        "a1-038",
        "a1-038",
        "a3-144",
        "a3-144",
        "a2-154",
        "a2-154",
        "a2-148",
        "a2-148",
        "pa-005",
        "pa-005",
        "pa-001",
        "pa-001",
        "a2-147",
        "a2-147",
    ];
    let e: Vec<Element> = vec![Element::Fire];
    assert(id_views(v@) =~= charizard_ex_deck());
    assert(e@ =~= seq![Element::Fire]);
    (v, e)
}

/// The card ids of the mewtwo sample deck.
pub open spec fn mewtwo_ex_deck() -> Seq<Seq<char>> {
    seq![
        "a1-130"@,
        "a1-130"@,
        "a1-131"@,
        "a1-131"@,
        "a1-132"@,
        "a1-132"@,
        "a1-129"@,
        "a1-129"@,
        "a1-128"@,
        "a1-225"@,
        "a1-225"@,
        "pa-007"@,
        "pa-007"@,
        "a1-223"@,
        "pa-005"@,
        "pa-005"@,
        "pa-002"@,
        "pa-002"@,
        "pa-006"@,
        "pa-001"@,
    ]
}

fn mewtwo_ex_deck_list() -> (r: (Vec<&'static str>, Vec<Element>))
    ensures
        id_views(r.0@) == mewtwo_ex_deck(),
        r.1@ == seq![Element::Psychic],
{
    let v: Vec<&'static str> = vec![
        "a1-130",
        "a1-130",
        "a1-131",
        "a1-131",
        "a1-132",
        "a1-132",
        "a1-129",
        "a1-129",
        "a1-128",
        "a1-225",
        "a1-225",
        "pa-007",
        "pa-007",
        "a1-223",
        "pa-005",
        "pa-005",
        "pa-002",
        "pa-002",
        "pa-006",
        "pa-001",
    ];
    let e: Vec<Element> = vec![Element::Psychic];
    assert(id_views(v@) =~= mewtwo_ex_deck());
    assert(e@ =~= seq![Element::Psychic]);
    (v, e)
}

/// The card ids of the nihilego sample deck.
pub open spec fn nihilego_deck() -> Seq<Seq<char>> {
    seq![
        "a3a-103"@,
        "a3a-103"@,
        "a2b-047"@,
        "a2b-047"@,
        "a2b-048"@,
        "a2b-048"@,
        "a3-112"@,
        "a3-112"@,
        "a1-223"@,
        "a1-223"@,
        "a1-225"@,
        "a1-225"@,
        "a3-146"@,
        "a3-146"@,
        "pa-005"@,
        "pa-005"@,
        "pa-007"@,
        "pa-007"@,
        "pa-001"@,
        "pa-001"@,
    ]
}

fn nihilego_deck_list() -> (r: (Vec<&'static str>, Vec<Element>))
    ensures
        id_views(r.0@) == nihilego_deck(),
        r.1@ == seq![Element::Darkness],
{
    let v: Vec<&'static str> = vec![
        "a3a-103",
        "a3a-103",
        "a2b-047",
        "a2b-047",
        "a2b-048",
        "a2b-048",
        "a3-112",
        "a3-112",
        "a1-223",
        "a1-223",
        "a1-225",
        "a1-225",
        "a3-146",
        "a3-146",
        "pa-005",
        "pa-005",
        "pa-007",
        "pa-007",
        "pa-001",
        "pa-001",
    ];
    let e: Vec<Element> = vec![Element::Darkness];
    assert(id_views(v@) =~= nihilego_deck());
    assert(e@ =~= seq![Element::Darkness]);
    (v, e)
}

/// The card ids of the celebi sample deck.
pub open spec fn celebi_ex_deck() -> Seq<Seq<char>> {
    seq![
        "a3a-099"@,
        "a3a-099"@,
        "a1a-001"@,
        "a1a-001"@,
        "a3-002"@,
        "a3-002"@,
        "a1a-009"@,
        "a1a-009"@,
        "a1-219"@,
        "a1-219"@,
        "a1-223"@,
        "a1-223"@,
        "a1-225"@,
        "a1-225"@,
        "pa-005"@,
        "pa-005"@,
        "pa-007"@,
        "pa-007"@,
        "pa-001"@,
        "pa-001"@,
    ]
}

fn celebi_ex_deck_list() -> (r: (Vec<&'static str>, Vec<Element>))
    ensures
        id_views(r.0@) == celebi_ex_deck(),
        r.1@ == seq![Element::Grass],
{
    let v: Vec<&'static str> = vec![
        "a3a-099",
        "a3a-099",
        "a1a-001",
        "a1a-001",
        "a3-002",
        "a3-002",
        "a1a-009",
        "a1a-009",
        "a1-219",
        "a1-219",
        "a1-223",
        "a1-223",
        "a1-225",
        "a1-225",
        "pa-005",
        "pa-005",
        "pa-007",
        "pa-007",
        "pa-001",
        "pa-001",
    ];
    let e: Vec<Element> = vec![Element::Grass];
    assert(id_views(v@) =~= celebi_ex_deck());
    assert(e@ =~= seq![Element::Grass]);
    (v, e)
}

/// The card ids of the mew sample deck.
pub open spec fn mew_ex_deck() -> Seq<Seq<char>> {
    seq![
        "a1a-077"@,
        "a1a-077"@,
        "a1-130"@,
        "a1-130"@,
        "a1-131"@,
        "a1-131"@,
        "a1-132"@,
        "a1-132"@,
        "a3-144"@,
        "a3-144"@,
        "a1-225"@,
        "a1-225"@,
        "a1-223"@,
        "a1-223"@,
        "pa-007"@,
        "pa-007"@,
        "pa-005"@,
        "pa-005"@,
        "pa-001"@,
        "pa-001"@,
    ]
}

fn mew_ex_deck_list() -> (r: (Vec<&'static str>, Vec<Element>))
    ensures
        id_views(r.0@) == mew_ex_deck(),
        r.1@ == seq![Element::Psychic],
{
    let v: Vec<&'static str> = vec![
        "a1a-077",
        "a1a-077",
        "a1-130",
        "a1-130",
        "a1-131",
        "a1-131",
        "a1-132",
        "a1-132",
        "a3-144",
        "a3-144",
        "a1-225",
        "a1-225",
        "a1-223",
        "a1-223",
        "pa-007",
        "pa-007",
        "pa-005",
        "pa-005",
        "pa-001",
        "pa-001",
    ];
    let e: Vec<Element> = vec![Element::Psychic];
    assert(id_views(v@) =~= mew_ex_deck());
    assert(e@ =~= seq![Element::Psychic]);
    (v, e)
}

/// The card ids of the dragonite sample deck.
pub open spec fn dragonite_deck() -> Seq<Seq<char>> {
    seq![
        "a3b-051"@,
        "a1-183"@,
        "a3b-052"@,
        "a1-185"@,
        "a3b-053"@,
        "a3a-021"@,
        "a3-066"@,
        "pa-007"@,
        "pa-007"@,
        "a1a-068"@,
        "a2-154"@,
        "a2-150"@,
        "a2b-070"@,
        "a3-155"@,
        "a2-155"@,
        "pa-005"@,
        "pa-005"@,
        "a3-144"@,
        "a3-144"@,
        "a2-147"@,
    ]
}

fn dragonite_deck_list() -> (r: (Vec<&'static str>, Vec<Element>))
    ensures
        id_views(r.0@) == dragonite_deck(),
        r.1@ == seq![Element::Water, Element::Lightning],
{
    let v: Vec<&'static str> = vec![
        "a3b-051",
        "a1-183",
        "a3b-052",
        "a1-185",
        "a3b-053",
        "a3a-021",
        "a3-066",
        "pa-007",
        "pa-007",
        "a1a-068",
        "a2-154",
        "a2-150",
        "a2b-070",
        "a3-155",
        "a2-155",
        "pa-005",
        "pa-005",
        "a3-144",
        "a3-144",
        "a2-147",
    ];
    let e: Vec<Element> = vec![Element::Water, Element::Lightning];
    assert(id_views(v@) =~= dragonite_deck());
    assert(e@ =~= seq![Element::Water, Element::Lightning]);
    (v, e)
}

/// The card ids of the rampardos sample deck.
pub open spec fn rampardos_deck() -> Seq<Seq<char>> {
    seq![
        "a3a-060"@,
        "a3a-060"@,
        "a3a-061"@,
        "a3a-061"@,
        "a2-088"@,
        "a2-089"@,
        "a2-089"@,
        "a3a-067"@,
        "a3a-067"@,
        "pa-007"@,
        "pa-007"@,
        "a1-225"@,
        "a2-155"@,
        "a2b-069"@,
        "a2b-071"@,
        "a2-144"@,
        "a2-144"@,
        "a3-144"@,
        "a3-144"@,
        "pa-005"@,
    ]
}

fn rampardos_deck_list() -> (r: (Vec<&'static str>, Vec<Element>))
    ensures
        id_views(r.0@) == rampardos_deck(),
        r.1@ == seq![Element::Fighting],
{
    let v: Vec<&'static str> = vec![
        "a3a-060",
        "a3a-060",
        "a3a-061",
        "a3a-061",
        "a2-088",
        "a2-089",
        "a2-089",
        "a3a-067",
        "a3a-067",
        "pa-007",
        "pa-007",
        "a1-225",
        "a2-155",
        "a2b-069",
        "a2b-071",
        "a2-144",
        "a2-144",
        "a3-144",
        "a3-144",
        "pa-005",
    ];
    let e: Vec<Element> = vec![Element::Fighting];
    assert(id_views(v@) =~= rampardos_deck());
    assert(e@ =~= seq![Element::Fighting]);
    (v, e)
}

/// The card ids of the gyarados sample deck.
pub open spec fn gyarados_ex_deck() -> Seq<Seq<char>> {
    seq![
        "a1a-017"@,
        "a1a-017"@,
        "a1a-018"@,
        "a1a-018"@,
        "a1a-056"@,
        "a1a-056"@,
        "a3a-091"@,
        "a3a-091"@,
        "a3a-093"@,
        "a3a-093"@,
        "a3-144"@,
        "a3-144"@,
        "a1-220"@,
        "a1-220"@,
        "a2-150"@,
        "a1a-068"@,
        "pa-005"@,
        "pa-005"@,
        "pa-007"@,
        "pa-007"@,
    ]
}

fn gyarados_ex_deck_list() -> (r: (Vec<&'static str>, Vec<Element>))
    ensures
        id_views(r.0@) == gyarados_ex_deck(),
        r.1@ == seq![Element::Water],
{
    let v: Vec<&'static str> = vec![
        "a1a-017",
        "a1a-017",
        "a1a-018",
        "a1a-018",
        "a1a-056",
        "a1a-056",
        "a3a-091",
        "a3a-091",
        "a3a-093",
        "a3a-093",
        "a3-144",
        "a3-144",
        "a1-220",
        "a1-220",
        "a2-150",
        "a1a-068",
        "pa-005",
        "pa-005",
        "pa-007",
        "pa-007",
    ];
    let e: Vec<Element> = vec![Element::Water];
    assert(id_views(v@) =~= gyarados_ex_deck());
    assert(e@ =~= seq![Element::Water]);
    (v, e)
}

/// The card ids of the guzzlord sample deck.
pub open spec fn guzzlord_deck() -> Seq<Seq<char>> {
    seq![
        "a3a-103"@,
        "a3a-103"@,
        "a3a-062"@,
        "a3a-062"@,
        "a3a-043"@,
        "a3a-043"@,
        "pa-005"@,
        "pa-005"@,
        "a2-150"@,
        "a3-151"@,
        "a3a-069"@,
        "a3a-069"@,
        "a2-155"@,
        "a3-146"@,
        "a3-146"@,
        "a2b-070"@,
        "pa-007"@,
        "pa-007"@,
        "a2-148"@,
        "a1-225"@,
    ]
}

fn guzzlord_deck_list() -> (r: (Vec<&'static str>, Vec<Element>))
    ensures
        id_views(r.0@) == guzzlord_deck(),
        r.1@ == seq![Element::Darkness],
{
    let v: Vec<&'static str> = vec![
        "a3a-103",
        "a3a-103",
        "a3a-062",
        "a3a-062",
        "a3a-043",
        "a3a-043",
        "pa-005",
        "pa-005",
        "a2-150",
        "a3-151",
        "a3a-069",
        "a3a-069",
        "a2-155",
        "a3-146",
        "a3-146",
        "a2b-070",
        "pa-007",
        "pa-007",
        "a2-148",
        "a1-225",
    ];
    let e: Vec<Element> = vec![Element::Darkness];
    assert(id_views(v@) =~= guzzlord_deck());
    assert(e@ =~= seq![Element::Darkness]);
    (v, e)
}

/// The card ids of the pikachu sample deck.
pub open spec fn pikachu_ex_deck() -> Seq<Seq<char>> {
    seq![
        "a1-105"@,
        "a1-105"@,
        "a1-106"@,
        "a1-106"@,
        "a1-096"@,
        "a1-096"@,
        "a1-104"@,
        "a1-104"@,
        "a1-112"@,
        "a1-225"@,
        "a1-225"@,
        "pa-007"@,
        "pa-007"@,
        "a1-223"@,
        "pa-005"@,
        "pa-005"@,
        "pa-002"@,
        "pa-002"@,
        "pa-001"@,
        "pa-001"@,
    ]
}

fn pikachu_ex_deck_list() -> (r: (Vec<&'static str>, Vec<Element>))
    ensures
        id_views(r.0@) == pikachu_ex_deck(),
        r.1@ == seq![Element::Lightning],
{
    let v: Vec<&'static str> = vec![
        "a1-105",
        "a1-105",
        "a1-106",
        "a1-106",
        "a1-096",
        "a1-096",
        "a1-104",
        "a1-104",
        "a1-112",
        "a1-225",
        "a1-225",
        "pa-007",
        "pa-007",
        "a1-223",
        "pa-005",
        "pa-005",
        "pa-002",
        "pa-002",
        "pa-001",
        "pa-001",
    ];
    let e: Vec<Element> = vec![Element::Lightning];
    assert(id_views(v@) =~= pikachu_ex_deck());
    assert(e@ =~= seq![Element::Lightning]);
    (v, e)
}

/// The card ids of the magnezone sample deck.
pub open spec fn magnezone_deck() -> Seq<Seq<char>> {
    seq![
        "a1-097"@,
        "a1-097"@,
        "a1-098"@,
        "a1-098"@,
        "a2-053"@,
        "a2-053"@,
        "a3-016"@,
        "a3-016"@,
        "a3a-027"@,
        "a3a-027"@,
        "a3-066"@,
        "pa-007"@,
        "pa-007"@,
        "a2-150"@,
        "a1-225"@,
        "a3-151"@,
        "a2-155"@,
        "pa-005"@,
        "pa-005"@,
        "pa-001"@,
    ]
}

fn magnezone_deck_list() -> (r: (Vec<&'static str>, Vec<Element>))
    ensures
        id_views(r.0@) == magnezone_deck(),
        r.1@ == seq![Element::Lightning],
{
    let v: Vec<&'static str> = vec![
        "a1-097",
        "a1-097",
        "a1-098",
        "a1-098",
        "a2-053",
        "a2-053",
        "a3-016",
        "a3-016",
        "a3a-027",
        "a3a-027",
        "a3-066",
        "pa-007",
        "pa-007",
        "a2-150",
        "a1-225",
        "a3-151",
        "a2-155",
        "pa-005",
        "pa-005",
        "pa-001",
    ];
    let e: Vec<Element> = vec![Element::Lightning];
    assert(id_views(v@) =~= magnezone_deck());
    assert(e@ =~= seq![Element::Lightning]);
    (v, e)
}

/// The card ids of the suicune sample deck.
pub open spec fn suicune_ex_deck() -> Seq<Seq<char>> {
    seq![
        "b2a-034"@,
        "b2a-034"@,
        "b2a-036"@,
        "b2a-036"@,
        "a4a-020"@,
        "a4a-020"@,
        "b2a-037"@,
        "pa-007"@,
        "pa-007"@,
        "b1-225"@,
        "a2b-070"@,
        "a2-150"@,
        "a3-144"@,
        "a3-144"@,
        "pa-005"@,
        "pa-005"@,
        "a2-147"@,
        "a2-147"@,
        "a4a-067"@,
        "b2-154"@,
    ]
}

fn suicune_ex_deck_list() -> (r: (Vec<&'static str>, Vec<Element>))
    ensures
        id_views(r.0@) == suicune_ex_deck(),
        r.1@ == seq![Element::Water],
{
    let v: Vec<&'static str> = vec![
        "b2a-034",
        "b2a-034",
        "b2a-036",
        "b2a-036",
        "a4a-020",
        "a4a-020",
        "b2a-037",
        "pa-007",
        "pa-007",
        "b1-225",
        "a2b-070",
        "a2-150",
        "a3-144",
        "a3-144",
        "pa-005",
        "pa-005",
        "a2-147",
        "a2-147",
        "a4a-067",
        "b2-154",
    ];
    let e: Vec<Element> = vec![Element::Water];
    assert(id_views(v@) =~= suicune_ex_deck());
    assert(e@ =~= seq![Element::Water]);
    (v, e)
}

/// The card ids of the megacharizard sample deck.
pub open spec fn mega_charizard_ex_deck() -> Seq<Seq<char>> {
    seq![
        "a2b-008"@,
        "a2b-008"@,
        "b2b-008"@,
        "b2b-008"@,
        "b2b-009"@,
        "b1a-014"@,
        "a4a-010"@,
        "a4a-010"@,
        "pa-007"@,
        "pa-007"@,
        "a1-225"@,
        "a2-150"@,
        "a2b-070"@,
        "b1-223"@,
        "b1-225"@,
        "pa-005"@,
        "pa-005"@,
        "b1-217"@,
        "b1-217"@,
        "a2-148"@,
    ]
}

fn mega_charizard_ex_deck_list() -> (r: (Vec<&'static str>, Vec<Element>))
    ensures
        id_views(r.0@) == mega_charizard_ex_deck(),
        r.1@ == seq![Element::Fire],
{
    let v: Vec<&'static str> = vec![
        "a2b-008",
        "a2b-008",
        "b2b-008",
        "b2b-008",
        "b2b-009",
        "b1a-014",
        "a4a-010",
        "a4a-010",
        "pa-007",
        "pa-007",
        "a1-225",
        "a2-150",
        "a2b-070",
        "b1-223",
        "b1-225",
        "pa-005",
        "pa-005",
        "b1-217",
        "b1-217",
        "a2-148",
    ];
    let e: Vec<Element> = vec![Element::Fire];
    assert(id_views(v@) =~= mega_charizard_ex_deck());
    assert(e@ =~= seq![Element::Fire]);
    (v, e)
}

/// The sample deck named `key` (already trimmed and lower-cased): its card
/// ids and its energy types.
pub open spec fn sample_deck(key: Seq<char>) -> Option<(Seq<Seq<char>>, Seq<Element>)> {
    if key == "venusaur"@ {
        Some((venusaur_ex_deck(), seq![Element::Grass]))
    }     else if key == "charizard"@ {
        Some((charizard_ex_deck(), seq![Element::Fire]))
    }     else if key == "mewtwo"@ {
        Some((mewtwo_ex_deck(), seq![Element::Psychic]))
    }     else if key == "nihilego"@ {
        Some((nihilego_deck(), seq![Element::Darkness]))
    }     else if key == "celebi"@ {
        Some((celebi_ex_deck(), seq![Element::Grass]))
    }     else if key == "mew"@ {
        Some((mew_ex_deck(), seq![Element::Psychic]))
    }     else if key == "dragonite"@ {
        Some((dragonite_deck(), seq![Element::Water, Element::Lightning]))
    }     else if key == "rampardos"@ {
        Some((rampardos_deck(), seq![Element::Fighting]))
    }     else if key == "gyarados"@ {
        Some((gyarados_ex_deck(), seq![Element::Water]))
    }     else if key == "guzzlord"@ {
        Some((guzzlord_deck(), seq![Element::Darkness]))
    }     else if key == "pikachu"@ {
        Some((pikachu_ex_deck(), seq![Element::Lightning]))
    }     else if key == "magnezone"@ {
        Some((magnezone_deck(), seq![Element::Lightning]))
    }     else if key == "suicune"@ {
        Some((suicune_ex_deck(), seq![Element::Water]))
    }     else if key == "megacharizard"@ {
        Some((mega_charizard_ex_deck(), seq![Element::Fire]))
    } else {
        None
    }
}

/// The sample deck called `name` (case and surrounding whitespace
/// ignored): its card ids and its energy types; `None` for an unknown name.
pub fn get_sample_deck(name: &str) -> (r: Option<(Vec<&'static str>, Vec<Element>)>)
    ensures
        match sample_deck(lowered(trim(name@))) {
            Some(d) => r matches Some(x) && id_views(x.0@) == d.0 && x.1@ == d.1,
            None => r is None,
        },
{
    let cs = to_chars(name);
    let t = trim_chars(cs.as_slice());
    let ts = string_from_chars(t.as_slice());
    let low = to_lowercase(ts.as_str());
    if str_eq(low.as_str(), "venusaur") {
        Some(venusaur_ex_deck_list())
    }     else if str_eq(low.as_str(), "charizard") {
        Some(charizard_ex_deck_list())
    }     else if str_eq(low.as_str(), "mewtwo") {
        Some(mewtwo_ex_deck_list())
    }     else if str_eq(low.as_str(), "nihilego") {
        Some(nihilego_deck_list())
    }     else if str_eq(low.as_str(), "celebi") {
        Some(celebi_ex_deck_list())
    }     else if str_eq(low.as_str(), "mew") {
        Some(mew_ex_deck_list())
    }     else if str_eq(low.as_str(), "dragonite") {
        Some(dragonite_deck_list())
    }     else if str_eq(low.as_str(), "rampardos") {
        Some(rampardos_deck_list())
    }     else if str_eq(low.as_str(), "gyarados") {
        Some(gyarados_ex_deck_list())
    }     else if str_eq(low.as_str(), "guzzlord") {
        Some(guzzlord_deck_list())
    }     else if str_eq(low.as_str(), "pikachu") {
        Some(pikachu_ex_deck_list())
    }     else if str_eq(low.as_str(), "magnezone") {
        Some(magnezone_deck_list())
    }     else if str_eq(low.as_str(), "suicune") {
        Some(suicune_ex_deck_list())
    }     else if str_eq(low.as_str(), "megacharizard") {
        Some(mega_charizard_ex_deck_list())
    } else {
        None
    }
}

/// The names of all sample decks.
pub open spec fn deck_names() -> Seq<Seq<char>> {
    seq!["venusaur"@, "charizard"@, "mewtwo"@, "nihilego"@, "celebi"@, "mew"@, "dragonite"@, "rampardos"@, "gyarados"@, "guzzlord"@, "pikachu"@, "magnezone"@, "suicune"@, "megacharizard"@]
}

/// The names of all sample decks, the ones `get_sample_deck` knows.
pub fn all_deck_names() -> (r: Vec<&'static str>)
    ensures
        id_views(r@) == deck_names(),
{
    let v: Vec<&'static str> = vec!["venusaur", "charizard", "mewtwo", "nihilego", "celebi", "mew", "dragonite", "rampardos", "gyarados", "guzzlord", "pikachu", "magnezone", "suicune", "megacharizard"];
    assert(id_views(v@) =~= deck_names());
    v
}


/// How many cards of `s` exist and are named `name`.
pub open spec fn count_named(db: CardDb, s: Seq<u16>, name: Seq<char>) -> int
    decreases s.len(),
{
    if s.len() == 0 {
        0
    } else {
        count_named(db, s.drop_last(), name) + if db.card(s.last()) matches Some(c) && c.name@ == name { 1int } else { 0int }
    }
}

/// The message for a deck of `n` cards.
pub open spec fn size_line(n: int) -> Seq<char> {
    "deck must contain exactly 20 cards, got "@ + decimal(n)
}

/// The message for a card index the database lacks.
pub open spec fn missing_line(idx: int) -> Seq<char> {
    "card index "@ + decimal(idx) + " not found in CardDb"@
}

/// The message for too many copies of a name.
pub open spec fn copies_line(name: Seq<char>, n: int) -> Seq<char> {
    "more than 2 copies of '"@ + name + "' in deck (found "@ + decimal(n) + ")"@
}

/// The first problem with the cards of `deck` from position `i` on: a card
/// the database lacks, or a third copy of a name.
pub open spec fn scan_cards(db: CardDb, deck: Seq<u16>, i: int) -> Option<Seq<char>>
    decreases deck.len() - i,
{
    if i < 0 || i >= deck.len() {
        None
    } else {
        match db.card(deck[i]) {
            None => Some(missing_line(deck[i] as int)),
            Some(c) => {
                let n = count_named(db, deck.subrange(0, i + 1), c.name@);
                if n > 2 {
                    Some(copies_line(c.name@, n))
                } else {
                    scan_cards(db, deck, i + 1)
                }
            },
        }
    }
}

/// `deck` holds a Basic Pokémon.
pub open spec fn has_basic(db: CardDb, deck: Seq<u16>) -> bool {
    exists|i: int| 0 <= i < deck.len() && (db.card(#[trigger] deck[i]) matches Some(c) && c.kind == CardKind::Pokemon && c.stage == Some(Stage::Basic))
}

/// What is wrong with a deck, checked in order: its size, its cards, a
/// Basic Pokémon, its energy types.
pub open spec fn deck_problem(db: CardDb, deck: Seq<u16>, energy: Seq<Element>) -> Option<Seq<char>> {
    if deck.len() != 20 {
        Some(size_line(deck.len() as int))
    } else {
        match scan_cards(db, deck, 0) {
            Some(m) => Some(m),
            None => if !has_basic(db, deck) {
                Some("deck must contain at least one Basic Pokémon"@)
            } else if energy.len() == 0 {
                Some("deck must declare at least 1 energy type"@)
            } else if energy.len() > 3 {
                Some("deck may declare at most 3 energy types, got "@ + decimal(energy.len() as int))
            } else {
                None
            },
        }
    }
}

fn err_line(v: Vec<char>) -> (r: Result<(), String>)
    ensures
        r matches Err(e) && e@ == v@,
{
    Err(string_from_chars(v.as_slice()))
}

fn chars_of(s: &str) -> (r: Vec<char>)
    ensures
        r@ == s@,
{
    to_chars(s)
}

fn push_all(v: &mut Vec<char>, w: &Vec<char>)
    ensures
        final(v)@ == old(v)@ + w@,
{
    let mut i: usize = 0;
    while i < w.len()
        invariant
            i <= w@.len(),
            v@ == old(v)@ + w@.subrange(0, i as int),
        decreases w.len() - i,
    {
        v.push(w[i]);
        i = i + 1;
        assert(v@ =~= old(v)@ + w@.subrange(0, i as int));
    }
    assert(w@.subrange(0, w@.len() as int) =~= w@);
}

/// Checks a deck against the deck-building rules: exactly 20 cards, no more
/// than 2 copies of a name, at least one Basic Pokémon, and 1 to 3 energy
/// types; the error says what is wrong first.
pub fn validate_deck(db: &CardDb, deck: &[u16], energy_types: &[Element]) -> (r: Result<(), String>)
    ensures
        match deck_problem(*db, deck@, energy_types@) {
            Some(m) => r matches Err(e) && e@ == m,
            None => r is Ok,
        },
        r is Ok <==> deck_rules_hold(*db, deck@, energy_types@),
{
    proof {
        lemma_deck_valid_iff_rules(*db, deck@, energy_types@);
    }
    if deck.len() != 20 {
        let mut v = chars_of("deck must contain exactly 20 cards, got ");
        let d = decimal_u64(deck.len() as u64);
        push_all(&mut v, &d);
        return err_line(v);
    }
    let mut i: usize = 0;
    while i < deck.len()
        invariant
            deck@.len() == 20,
            i <= deck@.len(),
            scan_cards(*db, deck@, 0) == scan_cards(*db, deck@, i as int),
            deck_problem(*db, deck@, energy_types@) is None <==> deck_rules_hold(*db, deck@, energy_types@),
        decreases deck.len() - i,
    {
        let idx = deck[i];
        let card = match db.try_get_by_idx(idx) {
            Some(c) => c,
            None => {
                let mut v = chars_of("card index ");
                let d = decimal_u64(idx as u64);
                push_all(&mut v, &d);
                push_str(&mut v, " not found in CardDb");
                return err_line(v);
            },
        };
        let mut n: u64 = 0;
        let mut j: usize = 0;
        while j <= i
            invariant
                i < deck@.len(),
                j <= i + 1,
                n <= j,
                n == count_named(*db, deck@.subrange(0, j as int), card.name@),
            decreases i + 1 - j,
        {
            proof {
                let now = deck@.subrange(0, j + 1);
                assert(now.drop_last() =~= deck@.subrange(0, j as int));
            }
            match db.try_get_by_idx(deck[j]) {
                Some(c2) => {
                    if str_eq(c2.name.as_str(), card.name.as_str()) {
                        n = n + 1;
                    }
                },
                None => {},
            }
            j = j + 1;
        }
        if n > 2 {
            let mut v = chars_of("more than 2 copies of '");
            push_str(&mut v, card.name.as_str());
            push_str(&mut v, "' in deck (found ");
            let d = decimal_u64(n);
            push_all(&mut v, &d);
            push_str(&mut v, ")");
            return err_line(v);
        }
        i = i + 1;
    }
    let mut found = false;
    let mut k: usize = 0;
    while k < deck.len()
        invariant
            k <= deck@.len(),
            found ==> has_basic(*db, deck@),
            !found ==> forall|q: int| 0 <= q < k ==> !(db.card(#[trigger] deck@[q]) matches Some(c) && c.kind == CardKind::Pokemon
                && c.stage == Some(Stage::Basic)),
        decreases deck.len() - k,
    {
        if let Some(c) = db.try_get_by_idx(deck[k]) {
            if let (CardKind::Pokemon, Some(Stage::Basic)) = (c.kind, c.stage) {
                assert(db.card(deck@[k as int]) matches Some(c) && c.kind == CardKind::Pokemon && c.stage == Some(Stage::Basic));
                found = true;
            }
        }
        k = k + 1;
    }
    if !found {
        return err_line(chars_of("deck must contain at least one Basic Pokémon"));
    }
    if energy_types.len() == 0 {
        return err_line(chars_of("deck must declare at least 1 energy type"));
    }
    if energy_types.len() > 3 {
        let mut v = chars_of("deck may declare at most 3 energy types, got ");
        let d = decimal_u64(energy_types.len() as u64);
        push_all(&mut v, &d);
        return err_line(v);
    }
    Ok(())
}


/// A known deck with exactly 20 cards and one to three energy types.
pub open spec fn deck_shape_ok(o: Option<(Seq<Seq<char>>, Seq<Element>)>) -> bool {
    match o {
        Some(d) => d.0.len() == 20 && 1 <= d.1.len() <= 3,
        None => false,
    }
}

/// Every sample deck that `all_deck_names` lists is one `get_sample_deck`
/// knows, under that very name, with exactly 20 cards and one to three
/// energy types.
pub proof fn lemma_sample_decks_well_formed()
    ensures
        forall|i: int| 0 <= i < deck_names().len() ==> deck_shape_ok(#[trigger] sample_deck(deck_names()[i])),
        forall|i: int| 0 <= i < deck_names().len() ==> #[trigger] lowered(trim(deck_names()[i])) == deck_names()[i],
{
    assert forall|i: int| 0 <= i < deck_names().len() implies #[trigger] lowered(trim(deck_names()[i])) == deck_names()[i] by {
        reveal_strlit("venusaur");
        reveal_strlit("charizard");
        reveal_strlit("mewtwo");
        reveal_strlit("nihilego");
        reveal_strlit("celebi");
        reveal_strlit("mew");
        reveal_strlit("dragonite");
        reveal_strlit("rampardos");
        reveal_strlit("gyarados");
        reveal_strlit("guzzlord");
        reveal_strlit("pikachu");
        reveal_strlit("magnezone");
        reveal_strlit("suicune");
        reveal_strlit("megacharizard");
        let n = deck_names()[i];
        assert forall|j: int| 0 <= j < n.len() implies 'a' <= #[trigger] n[j] <= 'z' by {}
        lemma_plain_name_key(n);
    }
    assert forall|i: int| 0 <= i < deck_names().len() implies deck_shape_ok(#[trigger] sample_deck(deck_names()[i])) by {
        reveal_strlit("venusaur");
        reveal_strlit("charizard");
        reveal_strlit("mewtwo");
        reveal_strlit("nihilego");
        reveal_strlit("celebi");
        reveal_strlit("mew");
        reveal_strlit("dragonite");
        reveal_strlit("rampardos");
        reveal_strlit("gyarados");
        reveal_strlit("guzzlord");
        reveal_strlit("pikachu");
        reveal_strlit("magnezone");
        reveal_strlit("suicune");
        reveal_strlit("megacharizard");
    }
}

/// The card each sample deck opens with, in the order of `deck_names`: the
/// first Basic Pokémon of its lead line.
pub open spec fn lead_cards() -> Seq<Seq<char>> {
    seq![
        "a1-001"@, "a1-230"@, "a1-130"@, "a3a-103"@, "a3a-099"@, "a1a-077"@, "a3b-051"@,
        "a3a-060"@, "a1a-017"@, "a3a-103"@, "a1-105"@, "a1-097"@, "b2a-034"@, "a2b-008"@,
    ]
}

/// The deck called `deck_names()[i]` opens with `lead_cards()[i]`: each name
/// gives its own list, whose first card is that deck's lead Pokémon.
pub proof fn lemma_sample_deck_leads()
    ensures
        forall|i: int| 0 <= i < deck_names().len() ==>
            ((#[trigger] sample_deck(deck_names()[i])) matches Some(d) && d.0.len() > 0 && d.0[0] == lead_cards()[i]),
{
    assert forall|i: int| 0 <= i < deck_names().len() implies
        ((#[trigger] sample_deck(deck_names()[i])) matches Some(d) && d.0.len() > 0 && d.0[0] == lead_cards()[i]) by {
        if i == 0 {
            reveal_strlit("venusaur");
            assert(deck_names()[0] == "venusaur"@);
            assert(sample_deck("venusaur"@)->Some_0.0 == venusaur_ex_deck());
            assert(venusaur_ex_deck()[0] == "a1-001"@);
            assert(lead_cards()[0] == "a1-001"@);
        } else if i == 1 {
            reveal_strlit("charizard");
            reveal_strlit("venusaur");
            assert("charizard"@.len() != "venusaur"@.len());
            assert(deck_names()[1] == "charizard"@);
            assert(sample_deck("charizard"@)->Some_0.0 == charizard_ex_deck());
            assert(charizard_ex_deck()[0] == "a1-230"@);
            assert(lead_cards()[1] == "a1-230"@);
        } else if i == 2 {
            reveal_strlit("mewtwo");
            reveal_strlit("venusaur");
            assert("mewtwo"@.len() != "venusaur"@.len());
            reveal_strlit("charizard");
            assert("mewtwo"@.len() != "charizard"@.len());
            assert(deck_names()[2] == "mewtwo"@);
            assert(sample_deck("mewtwo"@)->Some_0.0 == mewtwo_ex_deck());
            assert(mewtwo_ex_deck()[0] == "a1-130"@);
            assert(lead_cards()[2] == "a1-130"@);
        } else if i == 3 {
            reveal_strlit("nihilego");
            reveal_strlit("venusaur");
            assert("nihilego"@[0] != "venusaur"@[0]);
            reveal_strlit("charizard");
            assert("nihilego"@.len() != "charizard"@.len());
            reveal_strlit("mewtwo");
            assert("nihilego"@.len() != "mewtwo"@.len());
            assert(deck_names()[3] == "nihilego"@);
            assert(sample_deck("nihilego"@)->Some_0.0 == nihilego_deck());
            assert(nihilego_deck()[0] == "a3a-103"@);
            assert(lead_cards()[3] == "a3a-103"@);
        } else if i == 4 {
            reveal_strlit("celebi");
            reveal_strlit("venusaur");
            assert("celebi"@.len() != "venusaur"@.len());
            reveal_strlit("charizard");
            assert("celebi"@.len() != "charizard"@.len());
            reveal_strlit("mewtwo");
            assert("celebi"@[0] != "mewtwo"@[0]);
            reveal_strlit("nihilego");
            assert("celebi"@.len() != "nihilego"@.len());
            assert(deck_names()[4] == "celebi"@);
            assert(sample_deck("celebi"@)->Some_0.0 == celebi_ex_deck());
            assert(celebi_ex_deck()[0] == "a3a-099"@);
            assert(lead_cards()[4] == "a3a-099"@);
        } else if i == 5 {
            reveal_strlit("mew");
            reveal_strlit("venusaur");
            assert("mew"@.len() != "venusaur"@.len());
            reveal_strlit("charizard");
            assert("mew"@.len() != "charizard"@.len());
            reveal_strlit("mewtwo");
            assert("mew"@.len() != "mewtwo"@.len());
            reveal_strlit("nihilego");
            assert("mew"@.len() != "nihilego"@.len());
            reveal_strlit("celebi");
            assert("mew"@.len() != "celebi"@.len());
            assert(deck_names()[5] == "mew"@);
            assert(sample_deck("mew"@)->Some_0.0 == mew_ex_deck());
            assert(mew_ex_deck()[0] == "a1a-077"@);
            assert(lead_cards()[5] == "a1a-077"@);
        } else if i == 6 {
            reveal_strlit("dragonite");
            reveal_strlit("venusaur");
            assert("dragonite"@.len() != "venusaur"@.len());
            reveal_strlit("charizard");
            assert("dragonite"@[0] != "charizard"@[0]);
            reveal_strlit("mewtwo");
            assert("dragonite"@.len() != "mewtwo"@.len());
            reveal_strlit("nihilego");
            assert("dragonite"@.len() != "nihilego"@.len());
            reveal_strlit("celebi");
            assert("dragonite"@.len() != "celebi"@.len());
            reveal_strlit("mew");
            assert("dragonite"@.len() != "mew"@.len());
            assert(deck_names()[6] == "dragonite"@);
            assert(sample_deck("dragonite"@)->Some_0.0 == dragonite_deck());
            assert(dragonite_deck()[0] == "a3b-051"@);
            assert(lead_cards()[6] == "a3b-051"@);
        } else if i == 7 {
            reveal_strlit("rampardos");
            reveal_strlit("venusaur");
            assert("rampardos"@.len() != "venusaur"@.len());
            reveal_strlit("charizard");
            assert("rampardos"@[0] != "charizard"@[0]);
            reveal_strlit("mewtwo");
            assert("rampardos"@.len() != "mewtwo"@.len());
            reveal_strlit("nihilego");
            assert("rampardos"@.len() != "nihilego"@.len());
            reveal_strlit("celebi");
            assert("rampardos"@.len() != "celebi"@.len());
            reveal_strlit("mew");
            assert("rampardos"@.len() != "mew"@.len());
            reveal_strlit("dragonite");
            assert("rampardos"@[0] != "dragonite"@[0]);
            assert(deck_names()[7] == "rampardos"@);
            assert(sample_deck("rampardos"@)->Some_0.0 == rampardos_deck());
            assert(rampardos_deck()[0] == "a3a-060"@);
            assert(lead_cards()[7] == "a3a-060"@);
        } else if i == 8 {
            reveal_strlit("gyarados");
            reveal_strlit("venusaur");
            assert("gyarados"@[0] != "venusaur"@[0]);
            reveal_strlit("charizard");
            assert("gyarados"@.len() != "charizard"@.len());
            reveal_strlit("mewtwo");
            assert("gyarados"@.len() != "mewtwo"@.len());
            reveal_strlit("nihilego");
            assert("gyarados"@[0] != "nihilego"@[0]);
            reveal_strlit("celebi");
            assert("gyarados"@.len() != "celebi"@.len());
            reveal_strlit("mew");
            assert("gyarados"@.len() != "mew"@.len());
            reveal_strlit("dragonite");
            assert("gyarados"@.len() != "dragonite"@.len());
            reveal_strlit("rampardos");
            assert("gyarados"@.len() != "rampardos"@.len());
            assert(deck_names()[8] == "gyarados"@);
            assert(sample_deck("gyarados"@)->Some_0.0 == gyarados_ex_deck());
            assert(gyarados_ex_deck()[0] == "a1a-017"@);
            assert(lead_cards()[8] == "a1a-017"@);
        } else if i == 9 {
            reveal_strlit("guzzlord");
            reveal_strlit("venusaur");
            assert("guzzlord"@[0] != "venusaur"@[0]);
            reveal_strlit("charizard");
            assert("guzzlord"@.len() != "charizard"@.len());
            reveal_strlit("mewtwo");
            assert("guzzlord"@.len() != "mewtwo"@.len());
            reveal_strlit("nihilego");
            assert("guzzlord"@[0] != "nihilego"@[0]);
            reveal_strlit("celebi");
            assert("guzzlord"@.len() != "celebi"@.len());
            reveal_strlit("mew");
            assert("guzzlord"@.len() != "mew"@.len());
            reveal_strlit("dragonite");
            assert("guzzlord"@.len() != "dragonite"@.len());
            reveal_strlit("rampardos");
            assert("guzzlord"@.len() != "rampardos"@.len());
            reveal_strlit("gyarados");
            assert("guzzlord"@[1] != "gyarados"@[1]);
            assert(deck_names()[9] == "guzzlord"@);
            assert(sample_deck("guzzlord"@)->Some_0.0 == guzzlord_deck());
            assert(guzzlord_deck()[0] == "a3a-103"@);
            assert(lead_cards()[9] == "a3a-103"@);
        } else if i == 10 {
            reveal_strlit("pikachu");
            reveal_strlit("venusaur");
            assert("pikachu"@.len() != "venusaur"@.len());
            reveal_strlit("charizard");
            assert("pikachu"@.len() != "charizard"@.len());
            reveal_strlit("mewtwo");
            assert("pikachu"@.len() != "mewtwo"@.len());
            reveal_strlit("nihilego");
            assert("pikachu"@.len() != "nihilego"@.len());
            reveal_strlit("celebi");
            assert("pikachu"@.len() != "celebi"@.len());
            reveal_strlit("mew");
            assert("pikachu"@.len() != "mew"@.len());
            reveal_strlit("dragonite");
            assert("pikachu"@.len() != "dragonite"@.len());
            reveal_strlit("rampardos");
            assert("pikachu"@.len() != "rampardos"@.len());
            reveal_strlit("gyarados");
            assert("pikachu"@.len() != "gyarados"@.len());
            reveal_strlit("guzzlord");
            assert("pikachu"@.len() != "guzzlord"@.len());
            assert(deck_names()[10] == "pikachu"@);
            assert(sample_deck("pikachu"@)->Some_0.0 == pikachu_ex_deck());
            assert(pikachu_ex_deck()[0] == "a1-105"@);
            assert(lead_cards()[10] == "a1-105"@);
        } else if i == 11 {
            reveal_strlit("magnezone");
            reveal_strlit("venusaur");
            assert("magnezone"@.len() != "venusaur"@.len());
            reveal_strlit("charizard");
            assert("magnezone"@[0] != "charizard"@[0]);
            reveal_strlit("mewtwo");
            assert("magnezone"@.len() != "mewtwo"@.len());
            reveal_strlit("nihilego");
            assert("magnezone"@.len() != "nihilego"@.len());
            reveal_strlit("celebi");
            assert("magnezone"@.len() != "celebi"@.len());
            reveal_strlit("mew");
            assert("magnezone"@.len() != "mew"@.len());
            reveal_strlit("dragonite");
            assert("magnezone"@[0] != "dragonite"@[0]);
            reveal_strlit("rampardos");
            assert("magnezone"@[0] != "rampardos"@[0]);
            reveal_strlit("gyarados");
            assert("magnezone"@.len() != "gyarados"@.len());
            reveal_strlit("guzzlord");
            assert("magnezone"@.len() != "guzzlord"@.len());
            reveal_strlit("pikachu");
            assert("magnezone"@.len() != "pikachu"@.len());
            assert(deck_names()[11] == "magnezone"@);
            assert(sample_deck("magnezone"@)->Some_0.0 == magnezone_deck());
            assert(magnezone_deck()[0] == "a1-097"@);
            assert(lead_cards()[11] == "a1-097"@);
        } else if i == 12 {
            reveal_strlit("suicune");
            reveal_strlit("venusaur");
            assert("suicune"@.len() != "venusaur"@.len());
            reveal_strlit("charizard");
            assert("suicune"@.len() != "charizard"@.len());
            reveal_strlit("mewtwo");
            assert("suicune"@.len() != "mewtwo"@.len());
            reveal_strlit("nihilego");
            assert("suicune"@.len() != "nihilego"@.len());
            reveal_strlit("celebi");
            assert("suicune"@.len() != "celebi"@.len());
            reveal_strlit("mew");
            assert("suicune"@.len() != "mew"@.len());
            reveal_strlit("dragonite");
            assert("suicune"@.len() != "dragonite"@.len());
            reveal_strlit("rampardos");
            assert("suicune"@.len() != "rampardos"@.len());
            reveal_strlit("gyarados");
            assert("suicune"@.len() != "gyarados"@.len());
            reveal_strlit("guzzlord");
            assert("suicune"@.len() != "guzzlord"@.len());
            reveal_strlit("pikachu");
            assert("suicune"@[0] != "pikachu"@[0]);
            reveal_strlit("magnezone");
            assert("suicune"@.len() != "magnezone"@.len());
            assert(deck_names()[12] == "suicune"@);
            assert(sample_deck("suicune"@)->Some_0.0 == suicune_ex_deck());
            assert(suicune_ex_deck()[0] == "b2a-034"@);
            assert(lead_cards()[12] == "b2a-034"@);
        } else {
            reveal_strlit("megacharizard");
            reveal_strlit("venusaur");
            assert("megacharizard"@.len() != "venusaur"@.len());
            reveal_strlit("charizard");
            assert("megacharizard"@.len() != "charizard"@.len());
            reveal_strlit("mewtwo");
            assert("megacharizard"@.len() != "mewtwo"@.len());
            reveal_strlit("nihilego");
            assert("megacharizard"@.len() != "nihilego"@.len());
            reveal_strlit("celebi");
            assert("megacharizard"@.len() != "celebi"@.len());
            reveal_strlit("mew");
            assert("megacharizard"@.len() != "mew"@.len());
            reveal_strlit("dragonite");
            assert("megacharizard"@.len() != "dragonite"@.len());
            reveal_strlit("rampardos");
            assert("megacharizard"@.len() != "rampardos"@.len());
            reveal_strlit("gyarados");
            assert("megacharizard"@.len() != "gyarados"@.len());
            reveal_strlit("guzzlord");
            assert("megacharizard"@.len() != "guzzlord"@.len());
            reveal_strlit("pikachu");
            assert("megacharizard"@.len() != "pikachu"@.len());
            reveal_strlit("magnezone");
            assert("megacharizard"@.len() != "magnezone"@.len());
            reveal_strlit("suicune");
            assert("megacharizard"@.len() != "suicune"@.len());
            assert(deck_names()[13] == "megacharizard"@);
            assert(sample_deck("megacharizard"@)->Some_0.0 == mega_charizard_ex_deck());
            assert(mega_charizard_ex_deck()[0] == "a2b-008"@);
            assert(lead_cards()[13] == "a2b-008"@);
        }
    }
}

/// Two lead cards at different places are different ids, but for the two
/// Darkness decks, which open with the same Pokémon.
proof fn lemma_leads_differ(i: int, j: int)
    requires
        0 <= i < j < lead_cards().len(),
        !(i == 3 && j == 9),
    ensures
        lead_cards()[i] != lead_cards()[j],
{
    if i == 0 && j == 1 {
        reveal_strlit("a1-001");
        reveal_strlit("a1-230");
        assert("a1-001"@[3] != "a1-230"@[3]);
        assert(lead_cards()[0] == "a1-001"@);
        assert(lead_cards()[1] == "a1-230"@);
    } else if i == 0 && j == 2 {
        reveal_strlit("a1-001");
        reveal_strlit("a1-130");
        assert("a1-001"@[3] != "a1-130"@[3]);
        assert(lead_cards()[0] == "a1-001"@);
        assert(lead_cards()[2] == "a1-130"@);
    } else if i == 0 && j == 3 {
        reveal_strlit("a1-001");
        reveal_strlit("a3a-103");
        assert("a1-001"@.len() != "a3a-103"@.len());
        assert(lead_cards()[0] == "a1-001"@);
        assert(lead_cards()[3] == "a3a-103"@);
    } else if i == 0 && j == 4 {
        reveal_strlit("a1-001");
        reveal_strlit("a3a-099");
        assert("a1-001"@.len() != "a3a-099"@.len());
        assert(lead_cards()[0] == "a1-001"@);
        assert(lead_cards()[4] == "a3a-099"@);
    } else if i == 0 && j == 5 {
        reveal_strlit("a1-001");
        reveal_strlit("a1a-077");
        assert("a1-001"@.len() != "a1a-077"@.len());
        assert(lead_cards()[0] == "a1-001"@);
        assert(lead_cards()[5] == "a1a-077"@);
    } else if i == 0 && j == 6 {
        reveal_strlit("a1-001");
        reveal_strlit("a3b-051");
        assert("a1-001"@.len() != "a3b-051"@.len());
        assert(lead_cards()[0] == "a1-001"@);
        assert(lead_cards()[6] == "a3b-051"@);
    } else if i == 0 && j == 7 {
        reveal_strlit("a1-001");
        reveal_strlit("a3a-060");
        assert("a1-001"@.len() != "a3a-060"@.len());
        assert(lead_cards()[0] == "a1-001"@);
        assert(lead_cards()[7] == "a3a-060"@);
    } else if i == 0 && j == 8 {
        reveal_strlit("a1-001");
        reveal_strlit("a1a-017");
        assert("a1-001"@.len() != "a1a-017"@.len());
        assert(lead_cards()[0] == "a1-001"@);
        assert(lead_cards()[8] == "a1a-017"@);
    } else if i == 0 && j == 9 {
        reveal_strlit("a1-001");
        reveal_strlit("a3a-103");
        assert("a1-001"@.len() != "a3a-103"@.len());
        assert(lead_cards()[0] == "a1-001"@);
        assert(lead_cards()[9] == "a3a-103"@);
    } else if i == 0 && j == 10 {
        reveal_strlit("a1-001");
        reveal_strlit("a1-105");
        assert("a1-001"@[3] != "a1-105"@[3]);
        assert(lead_cards()[0] == "a1-001"@);
        assert(lead_cards()[10] == "a1-105"@);
    } else if i == 0 && j == 11 {
        reveal_strlit("a1-001");
        reveal_strlit("a1-097");
        assert("a1-001"@[4] != "a1-097"@[4]);
        assert(lead_cards()[0] == "a1-001"@);
        assert(lead_cards()[11] == "a1-097"@);
    } else if i == 0 && j == 12 {
        reveal_strlit("a1-001");
        reveal_strlit("b2a-034");
        assert("a1-001"@.len() != "b2a-034"@.len());
        assert(lead_cards()[0] == "a1-001"@);
        assert(lead_cards()[12] == "b2a-034"@);
    } else if i == 0 && j == 13 {
        reveal_strlit("a1-001");
        reveal_strlit("a2b-008");
        assert("a1-001"@.len() != "a2b-008"@.len());
        assert(lead_cards()[0] == "a1-001"@);
        assert(lead_cards()[13] == "a2b-008"@);
    } else if i == 1 && j == 2 {
        reveal_strlit("a1-230");
        reveal_strlit("a1-130");
        assert("a1-230"@[3] != "a1-130"@[3]);
        assert(lead_cards()[1] == "a1-230"@);
        assert(lead_cards()[2] == "a1-130"@);
    } else if i == 1 && j == 3 {
        reveal_strlit("a1-230");
        reveal_strlit("a3a-103");
        assert("a1-230"@.len() != "a3a-103"@.len());
        assert(lead_cards()[1] == "a1-230"@);
        assert(lead_cards()[3] == "a3a-103"@);
    } else if i == 1 && j == 4 {
        reveal_strlit("a1-230");
        reveal_strlit("a3a-099");
        assert("a1-230"@.len() != "a3a-099"@.len());
        assert(lead_cards()[1] == "a1-230"@);
        assert(lead_cards()[4] == "a3a-099"@);
    } else if i == 1 && j == 5 {
        reveal_strlit("a1-230");
        reveal_strlit("a1a-077");
        assert("a1-230"@.len() != "a1a-077"@.len());
        assert(lead_cards()[1] == "a1-230"@);
        assert(lead_cards()[5] == "a1a-077"@);
    } else if i == 1 && j == 6 {
        reveal_strlit("a1-230");
        reveal_strlit("a3b-051");
        assert("a1-230"@.len() != "a3b-051"@.len());
        assert(lead_cards()[1] == "a1-230"@);
        assert(lead_cards()[6] == "a3b-051"@);
    } else if i == 1 && j == 7 {
        reveal_strlit("a1-230");
        reveal_strlit("a3a-060");
        assert("a1-230"@.len() != "a3a-060"@.len());
        assert(lead_cards()[1] == "a1-230"@);
        assert(lead_cards()[7] == "a3a-060"@);
    } else if i == 1 && j == 8 {
        reveal_strlit("a1-230");
        reveal_strlit("a1a-017");
        assert("a1-230"@.len() != "a1a-017"@.len());
        assert(lead_cards()[1] == "a1-230"@);
        assert(lead_cards()[8] == "a1a-017"@);
    } else if i == 1 && j == 9 {
        reveal_strlit("a1-230");
        reveal_strlit("a3a-103");
        assert("a1-230"@.len() != "a3a-103"@.len());
        assert(lead_cards()[1] == "a1-230"@);
        assert(lead_cards()[9] == "a3a-103"@);
    } else if i == 1 && j == 10 {
        reveal_strlit("a1-230");
        reveal_strlit("a1-105");
        assert("a1-230"@[3] != "a1-105"@[3]);
        assert(lead_cards()[1] == "a1-230"@);
        assert(lead_cards()[10] == "a1-105"@);
    } else if i == 1 && j == 11 {
        reveal_strlit("a1-230");
        reveal_strlit("a1-097");
        assert("a1-230"@[3] != "a1-097"@[3]);
        assert(lead_cards()[1] == "a1-230"@);
        assert(lead_cards()[11] == "a1-097"@);
    } else if i == 1 && j == 12 {
        reveal_strlit("a1-230");
        reveal_strlit("b2a-034");
        assert("a1-230"@.len() != "b2a-034"@.len());
        assert(lead_cards()[1] == "a1-230"@);
        assert(lead_cards()[12] == "b2a-034"@);
    } else if i == 1 && j == 13 {
        reveal_strlit("a1-230");
        reveal_strlit("a2b-008");
        assert("a1-230"@.len() != "a2b-008"@.len());
        assert(lead_cards()[1] == "a1-230"@);
        assert(lead_cards()[13] == "a2b-008"@);
    } else if i == 2 && j == 3 {
        reveal_strlit("a1-130");
        reveal_strlit("a3a-103");
        assert("a1-130"@.len() != "a3a-103"@.len());
        assert(lead_cards()[2] == "a1-130"@);
        assert(lead_cards()[3] == "a3a-103"@);
    } else if i == 2 && j == 4 {
        reveal_strlit("a1-130");
        reveal_strlit("a3a-099");
        assert("a1-130"@.len() != "a3a-099"@.len());
        assert(lead_cards()[2] == "a1-130"@);
        assert(lead_cards()[4] == "a3a-099"@);
    } else if i == 2 && j == 5 {
        reveal_strlit("a1-130");
        reveal_strlit("a1a-077");
        assert("a1-130"@.len() != "a1a-077"@.len());
        assert(lead_cards()[2] == "a1-130"@);
        assert(lead_cards()[5] == "a1a-077"@);
    } else if i == 2 && j == 6 {
        reveal_strlit("a1-130");
        reveal_strlit("a3b-051");
        assert("a1-130"@.len() != "a3b-051"@.len());
        assert(lead_cards()[2] == "a1-130"@);
        assert(lead_cards()[6] == "a3b-051"@);
    } else if i == 2 && j == 7 {
        reveal_strlit("a1-130");
        reveal_strlit("a3a-060");
        assert("a1-130"@.len() != "a3a-060"@.len());
        assert(lead_cards()[2] == "a1-130"@);
        assert(lead_cards()[7] == "a3a-060"@);
    } else if i == 2 && j == 8 {
        reveal_strlit("a1-130");
        reveal_strlit("a1a-017");
        assert("a1-130"@.len() != "a1a-017"@.len());
        assert(lead_cards()[2] == "a1-130"@);
        assert(lead_cards()[8] == "a1a-017"@);
    } else if i == 2 && j == 9 {
        reveal_strlit("a1-130");
        reveal_strlit("a3a-103");
        assert("a1-130"@.len() != "a3a-103"@.len());
        assert(lead_cards()[2] == "a1-130"@);
        assert(lead_cards()[9] == "a3a-103"@);
    } else if i == 2 && j == 10 {
        reveal_strlit("a1-130");
        reveal_strlit("a1-105");
        assert("a1-130"@[4] != "a1-105"@[4]);
        assert(lead_cards()[2] == "a1-130"@);
        assert(lead_cards()[10] == "a1-105"@);
    } else if i == 2 && j == 11 {
        reveal_strlit("a1-130");
        reveal_strlit("a1-097");
        assert("a1-130"@[3] != "a1-097"@[3]);
        assert(lead_cards()[2] == "a1-130"@);
        assert(lead_cards()[11] == "a1-097"@);
    } else if i == 2 && j == 12 {
        reveal_strlit("a1-130");
        reveal_strlit("b2a-034");
        assert("a1-130"@.len() != "b2a-034"@.len());
        assert(lead_cards()[2] == "a1-130"@);
        assert(lead_cards()[12] == "b2a-034"@);
    } else if i == 2 && j == 13 {
        reveal_strlit("a1-130");
        reveal_strlit("a2b-008");
        assert("a1-130"@.len() != "a2b-008"@.len());
        assert(lead_cards()[2] == "a1-130"@);
        assert(lead_cards()[13] == "a2b-008"@);
    } else if i == 3 && j == 4 {
        reveal_strlit("a3a-103");
        reveal_strlit("a3a-099");
        assert("a3a-103"@[4] != "a3a-099"@[4]);
        assert(lead_cards()[3] == "a3a-103"@);
        assert(lead_cards()[4] == "a3a-099"@);
    } else if i == 3 && j == 5 {
        reveal_strlit("a3a-103");
        reveal_strlit("a1a-077");
        assert("a3a-103"@[1] != "a1a-077"@[1]);
        assert(lead_cards()[3] == "a3a-103"@);
        assert(lead_cards()[5] == "a1a-077"@);
    } else if i == 3 && j == 6 {
        reveal_strlit("a3a-103");
        reveal_strlit("a3b-051");
        assert("a3a-103"@[2] != "a3b-051"@[2]);
        assert(lead_cards()[3] == "a3a-103"@);
        assert(lead_cards()[6] == "a3b-051"@);
    } else if i == 3 && j == 7 {
        reveal_strlit("a3a-103");
        reveal_strlit("a3a-060");
        assert("a3a-103"@[4] != "a3a-060"@[4]);
        assert(lead_cards()[3] == "a3a-103"@);
        assert(lead_cards()[7] == "a3a-060"@);
    } else if i == 3 && j == 8 {
        reveal_strlit("a3a-103");
        reveal_strlit("a1a-017");
        assert("a3a-103"@[1] != "a1a-017"@[1]);
        assert(lead_cards()[3] == "a3a-103"@);
        assert(lead_cards()[8] == "a1a-017"@);
    } else if i == 3 && j == 10 {
        reveal_strlit("a3a-103");
        reveal_strlit("a1-105");
        assert("a3a-103"@.len() != "a1-105"@.len());
        assert(lead_cards()[3] == "a3a-103"@);
        assert(lead_cards()[10] == "a1-105"@);
    } else if i == 3 && j == 11 {
        reveal_strlit("a3a-103");
        reveal_strlit("a1-097");
        assert("a3a-103"@.len() != "a1-097"@.len());
        assert(lead_cards()[3] == "a3a-103"@);
        assert(lead_cards()[11] == "a1-097"@);
    } else if i == 3 && j == 12 {
        reveal_strlit("a3a-103");
        reveal_strlit("b2a-034");
        assert("a3a-103"@[0] != "b2a-034"@[0]);
        assert(lead_cards()[3] == "a3a-103"@);
        assert(lead_cards()[12] == "b2a-034"@);
    } else if i == 3 && j == 13 {
        reveal_strlit("a3a-103");
        reveal_strlit("a2b-008");
        assert("a3a-103"@[1] != "a2b-008"@[1]);
        assert(lead_cards()[3] == "a3a-103"@);
        assert(lead_cards()[13] == "a2b-008"@);
    } else if i == 4 && j == 5 {
        reveal_strlit("a3a-099");
        reveal_strlit("a1a-077");
        assert("a3a-099"@[1] != "a1a-077"@[1]);
        assert(lead_cards()[4] == "a3a-099"@);
        assert(lead_cards()[5] == "a1a-077"@);
    } else if i == 4 && j == 6 {
        reveal_strlit("a3a-099");
        reveal_strlit("a3b-051");
        assert("a3a-099"@[2] != "a3b-051"@[2]);
        assert(lead_cards()[4] == "a3a-099"@);
        assert(lead_cards()[6] == "a3b-051"@);
    } else if i == 4 && j == 7 {
        reveal_strlit("a3a-099");
        reveal_strlit("a3a-060");
        assert("a3a-099"@[5] != "a3a-060"@[5]);
        assert(lead_cards()[4] == "a3a-099"@);
        assert(lead_cards()[7] == "a3a-060"@);
    } else if i == 4 && j == 8 {
        reveal_strlit("a3a-099");
        reveal_strlit("a1a-017");
        assert("a3a-099"@[1] != "a1a-017"@[1]);
        assert(lead_cards()[4] == "a3a-099"@);
        assert(lead_cards()[8] == "a1a-017"@);
    } else if i == 4 && j == 9 {
        reveal_strlit("a3a-099");
        reveal_strlit("a3a-103");
        assert("a3a-099"@[4] != "a3a-103"@[4]);
        assert(lead_cards()[4] == "a3a-099"@);
        assert(lead_cards()[9] == "a3a-103"@);
    } else if i == 4 && j == 10 {
        reveal_strlit("a3a-099");
        reveal_strlit("a1-105");
        assert("a3a-099"@.len() != "a1-105"@.len());
        assert(lead_cards()[4] == "a3a-099"@);
        assert(lead_cards()[10] == "a1-105"@);
    } else if i == 4 && j == 11 {
        reveal_strlit("a3a-099");
        reveal_strlit("a1-097");
        assert("a3a-099"@.len() != "a1-097"@.len());
        assert(lead_cards()[4] == "a3a-099"@);
        assert(lead_cards()[11] == "a1-097"@);
    } else if i == 4 && j == 12 {
        reveal_strlit("a3a-099");
        reveal_strlit("b2a-034");
        assert("a3a-099"@[0] != "b2a-034"@[0]);
        assert(lead_cards()[4] == "a3a-099"@);
        assert(lead_cards()[12] == "b2a-034"@);
    } else if i == 4 && j == 13 {
        reveal_strlit("a3a-099");
        reveal_strlit("a2b-008");
        assert("a3a-099"@[1] != "a2b-008"@[1]);
        assert(lead_cards()[4] == "a3a-099"@);
        assert(lead_cards()[13] == "a2b-008"@);
    } else if i == 5 && j == 6 {
        reveal_strlit("a1a-077");
        reveal_strlit("a3b-051");
        assert("a1a-077"@[1] != "a3b-051"@[1]);
        assert(lead_cards()[5] == "a1a-077"@);
        assert(lead_cards()[6] == "a3b-051"@);
    } else if i == 5 && j == 7 {
        reveal_strlit("a1a-077");
        reveal_strlit("a3a-060");
        assert("a1a-077"@[1] != "a3a-060"@[1]);
        assert(lead_cards()[5] == "a1a-077"@);
        assert(lead_cards()[7] == "a3a-060"@);
    } else if i == 5 && j == 8 {
        reveal_strlit("a1a-077");
        reveal_strlit("a1a-017");
        assert("a1a-077"@[5] != "a1a-017"@[5]);
        assert(lead_cards()[5] == "a1a-077"@);
        assert(lead_cards()[8] == "a1a-017"@);
    } else if i == 5 && j == 9 {
        reveal_strlit("a1a-077");
        reveal_strlit("a3a-103");
        assert("a1a-077"@[1] != "a3a-103"@[1]);
        assert(lead_cards()[5] == "a1a-077"@);
        assert(lead_cards()[9] == "a3a-103"@);
    } else if i == 5 && j == 10 {
        reveal_strlit("a1a-077");
        reveal_strlit("a1-105");
        assert("a1a-077"@.len() != "a1-105"@.len());
        assert(lead_cards()[5] == "a1a-077"@);
        assert(lead_cards()[10] == "a1-105"@);
    } else if i == 5 && j == 11 {
        reveal_strlit("a1a-077");
        reveal_strlit("a1-097");
        assert("a1a-077"@.len() != "a1-097"@.len());
        assert(lead_cards()[5] == "a1a-077"@);
        assert(lead_cards()[11] == "a1-097"@);
    } else if i == 5 && j == 12 {
        reveal_strlit("a1a-077");
        reveal_strlit("b2a-034");
        assert("a1a-077"@[0] != "b2a-034"@[0]);
        assert(lead_cards()[5] == "a1a-077"@);
        assert(lead_cards()[12] == "b2a-034"@);
    } else if i == 5 && j == 13 {
        reveal_strlit("a1a-077");
        reveal_strlit("a2b-008");
        assert("a1a-077"@[1] != "a2b-008"@[1]);
        assert(lead_cards()[5] == "a1a-077"@);
        assert(lead_cards()[13] == "a2b-008"@);
    } else if i == 6 && j == 7 {
        reveal_strlit("a3b-051");
        reveal_strlit("a3a-060");
        assert("a3b-051"@[2] != "a3a-060"@[2]);
        assert(lead_cards()[6] == "a3b-051"@);
        assert(lead_cards()[7] == "a3a-060"@);
    } else if i == 6 && j == 8 {
        reveal_strlit("a3b-051");
        reveal_strlit("a1a-017");
        assert("a3b-051"@[1] != "a1a-017"@[1]);
        assert(lead_cards()[6] == "a3b-051"@);
        assert(lead_cards()[8] == "a1a-017"@);
    } else if i == 6 && j == 9 {
        reveal_strlit("a3b-051");
        reveal_strlit("a3a-103");
        assert("a3b-051"@[2] != "a3a-103"@[2]);
        assert(lead_cards()[6] == "a3b-051"@);
        assert(lead_cards()[9] == "a3a-103"@);
    } else if i == 6 && j == 10 {
        reveal_strlit("a3b-051");
        reveal_strlit("a1-105");
        assert("a3b-051"@.len() != "a1-105"@.len());
        assert(lead_cards()[6] == "a3b-051"@);
        assert(lead_cards()[10] == "a1-105"@);
    } else if i == 6 && j == 11 {
        reveal_strlit("a3b-051");
        reveal_strlit("a1-097");
        assert("a3b-051"@.len() != "a1-097"@.len());
        assert(lead_cards()[6] == "a3b-051"@);
        assert(lead_cards()[11] == "a1-097"@);
    } else if i == 6 && j == 12 {
        reveal_strlit("a3b-051");
        reveal_strlit("b2a-034");
        assert("a3b-051"@[0] != "b2a-034"@[0]);
        assert(lead_cards()[6] == "a3b-051"@);
        assert(lead_cards()[12] == "b2a-034"@);
    } else if i == 6 && j == 13 {
        reveal_strlit("a3b-051");
        reveal_strlit("a2b-008");
        assert("a3b-051"@[1] != "a2b-008"@[1]);
        assert(lead_cards()[6] == "a3b-051"@);
        assert(lead_cards()[13] == "a2b-008"@);
    } else if i == 7 && j == 8 {
        reveal_strlit("a3a-060");
        reveal_strlit("a1a-017");
        assert("a3a-060"@[1] != "a1a-017"@[1]);
        assert(lead_cards()[7] == "a3a-060"@);
        assert(lead_cards()[8] == "a1a-017"@);
    } else if i == 7 && j == 9 {
        reveal_strlit("a3a-060");
        reveal_strlit("a3a-103");
        assert("a3a-060"@[4] != "a3a-103"@[4]);
        assert(lead_cards()[7] == "a3a-060"@);
        assert(lead_cards()[9] == "a3a-103"@);
    } else if i == 7 && j == 10 {
        reveal_strlit("a3a-060");
        reveal_strlit("a1-105");
        assert("a3a-060"@.len() != "a1-105"@.len());
        assert(lead_cards()[7] == "a3a-060"@);
        assert(lead_cards()[10] == "a1-105"@);
    } else if i == 7 && j == 11 {
        reveal_strlit("a3a-060");
        reveal_strlit("a1-097");
        assert("a3a-060"@.len() != "a1-097"@.len());
        assert(lead_cards()[7] == "a3a-060"@);
        assert(lead_cards()[11] == "a1-097"@);
    } else if i == 7 && j == 12 {
        reveal_strlit("a3a-060");
        reveal_strlit("b2a-034");
        assert("a3a-060"@[0] != "b2a-034"@[0]);
        assert(lead_cards()[7] == "a3a-060"@);
        assert(lead_cards()[12] == "b2a-034"@);
    } else if i == 7 && j == 13 {
        reveal_strlit("a3a-060");
        reveal_strlit("a2b-008");
        assert("a3a-060"@[1] != "a2b-008"@[1]);
        assert(lead_cards()[7] == "a3a-060"@);
        assert(lead_cards()[13] == "a2b-008"@);
    } else if i == 8 && j == 9 {
        reveal_strlit("a1a-017");
        reveal_strlit("a3a-103");
        assert("a1a-017"@[1] != "a3a-103"@[1]);
        assert(lead_cards()[8] == "a1a-017"@);
        assert(lead_cards()[9] == "a3a-103"@);
    } else if i == 8 && j == 10 {
        reveal_strlit("a1a-017");
        reveal_strlit("a1-105");
        assert("a1a-017"@.len() != "a1-105"@.len());
        assert(lead_cards()[8] == "a1a-017"@);
        assert(lead_cards()[10] == "a1-105"@);
    } else if i == 8 && j == 11 {
        reveal_strlit("a1a-017");
        reveal_strlit("a1-097");
        assert("a1a-017"@.len() != "a1-097"@.len());
        assert(lead_cards()[8] == "a1a-017"@);
        assert(lead_cards()[11] == "a1-097"@);
    } else if i == 8 && j == 12 {
        reveal_strlit("a1a-017");
        reveal_strlit("b2a-034");
        assert("a1a-017"@[0] != "b2a-034"@[0]);
        assert(lead_cards()[8] == "a1a-017"@);
        assert(lead_cards()[12] == "b2a-034"@);
    } else if i == 8 && j == 13 {
        reveal_strlit("a1a-017");
        reveal_strlit("a2b-008");
        assert("a1a-017"@[1] != "a2b-008"@[1]);
        assert(lead_cards()[8] == "a1a-017"@);
        assert(lead_cards()[13] == "a2b-008"@);
    } else if i == 9 && j == 10 {
        reveal_strlit("a3a-103");
        reveal_strlit("a1-105");
        assert("a3a-103"@.len() != "a1-105"@.len());
        assert(lead_cards()[9] == "a3a-103"@);
        assert(lead_cards()[10] == "a1-105"@);
    } else if i == 9 && j == 11 {
        reveal_strlit("a3a-103");
        reveal_strlit("a1-097");
        assert("a3a-103"@.len() != "a1-097"@.len());
        assert(lead_cards()[9] == "a3a-103"@);
        assert(lead_cards()[11] == "a1-097"@);
    } else if i == 9 && j == 12 {
        reveal_strlit("a3a-103");
        reveal_strlit("b2a-034");
        assert("a3a-103"@[0] != "b2a-034"@[0]);
        assert(lead_cards()[9] == "a3a-103"@);
        assert(lead_cards()[12] == "b2a-034"@);
    } else if i == 9 && j == 13 {
        reveal_strlit("a3a-103");
        reveal_strlit("a2b-008");
        assert("a3a-103"@[1] != "a2b-008"@[1]);
        assert(lead_cards()[9] == "a3a-103"@);
        assert(lead_cards()[13] == "a2b-008"@);
    } else if i == 10 && j == 11 {
        reveal_strlit("a1-105");
        reveal_strlit("a1-097");
        assert("a1-105"@[3] != "a1-097"@[3]);
        assert(lead_cards()[10] == "a1-105"@);
        assert(lead_cards()[11] == "a1-097"@);
    } else if i == 10 && j == 12 {
        reveal_strlit("a1-105");
        reveal_strlit("b2a-034");
        assert("a1-105"@.len() != "b2a-034"@.len());
        assert(lead_cards()[10] == "a1-105"@);
        assert(lead_cards()[12] == "b2a-034"@);
    } else if i == 10 && j == 13 {
        reveal_strlit("a1-105");
        reveal_strlit("a2b-008");
        assert("a1-105"@.len() != "a2b-008"@.len());
        assert(lead_cards()[10] == "a1-105"@);
        assert(lead_cards()[13] == "a2b-008"@);
    } else if i == 11 && j == 12 {
        reveal_strlit("a1-097");
        reveal_strlit("b2a-034");
        assert("a1-097"@.len() != "b2a-034"@.len());
        assert(lead_cards()[11] == "a1-097"@);
        assert(lead_cards()[12] == "b2a-034"@);
    } else if i == 11 && j == 13 {
        reveal_strlit("a1-097");
        reveal_strlit("a2b-008");
        assert("a1-097"@.len() != "a2b-008"@.len());
        assert(lead_cards()[11] == "a1-097"@);
        assert(lead_cards()[13] == "a2b-008"@);
    } else if i == 12 && j == 13 {
        reveal_strlit("b2a-034");
        reveal_strlit("a2b-008");
        assert("b2a-034"@[0] != "a2b-008"@[0]);
        assert(lead_cards()[12] == "b2a-034"@);
        assert(lead_cards()[13] == "a2b-008"@);
    }
}

/// Different sample deck names give different card lists: no name hands out
/// the deck of another.
pub proof fn lemma_sample_decks_distinct()
    ensures
        forall|i: int, j: int|
            0 <= i < deck_names().len() && 0 <= j < deck_names().len() && i != j ==>
            ((#[trigger] sample_deck(deck_names()[i])) matches Some(a)
            && (#[trigger] sample_deck(deck_names()[j])) matches Some(b)
            && a.0 != b.0),
{
    lemma_sample_deck_leads();
    assert forall|i: int, j: int|
        0 <= i < deck_names().len() && 0 <= j < deck_names().len() && i != j implies
        ((#[trigger] sample_deck(deck_names()[i])) matches Some(a)
        && (#[trigger] sample_deck(deck_names()[j])) matches Some(b)
        && a.0 != b.0) by {
        let a = sample_deck(deck_names()[i])->Some_0.0;
        let b = sample_deck(deck_names()[j])->Some_0.0;
        if (i == 3 && j == 9) || (i == 9 && j == 3) {
            reveal_strlit("nihilego");
            reveal_strlit("guzzlord");
            reveal_strlit("a2b-047");
            reveal_strlit("a3a-062");
            assert(deck_names()[3] == "nihilego"@);
            assert(deck_names()[9] == "guzzlord"@);
            reveal_strlit("venusaur");
            assert("nihilego"@[0] != "venusaur"@[0]);
            reveal_strlit("charizard");
            assert("nihilego"@.len() != "charizard"@.len());
            reveal_strlit("mewtwo");
            assert("nihilego"@.len() != "mewtwo"@.len());
            reveal_strlit("venusaur");
            assert("guzzlord"@[0] != "venusaur"@[0]);
            reveal_strlit("charizard");
            assert("guzzlord"@.len() != "charizard"@.len());
            reveal_strlit("mewtwo");
            assert("guzzlord"@.len() != "mewtwo"@.len());
            reveal_strlit("celebi");
            assert("guzzlord"@.len() != "celebi"@.len());
            reveal_strlit("mew");
            assert("guzzlord"@.len() != "mew"@.len());
            reveal_strlit("dragonite");
            assert("guzzlord"@.len() != "dragonite"@.len());
            reveal_strlit("rampardos");
            assert("guzzlord"@.len() != "rampardos"@.len());
            reveal_strlit("gyarados");
            assert("guzzlord"@[1] != "gyarados"@[1]);
            assert("guzzlord"@[0] != "nihilego"@[0]);
            assert(sample_deck("nihilego"@)->Some_0.0 == nihilego_deck());
            assert(sample_deck("guzzlord"@)->Some_0.0 == guzzlord_deck());
            assert(nihilego_deck()[2] == "a2b-047"@);
            assert(guzzlord_deck()[2] == "a3a-062"@);
            assert("a2b-047"@[1] != "a3a-062"@[1]);
            assert(a[2] != b[2]);
        } else if i < j {
            lemma_leads_differ(i, j);
            assert(a[0] != b[0]);
        } else {
            lemma_leads_differ(j, i);
            assert(a[0] != b[0]);
        }
    }
}

/// The database indices of the ids in `ids` that the database knows, in
/// order; unknown ids are skipped.
pub open spec fn known_indices(db: CardDb, ids: Seq<Seq<char>>) -> Seq<u16>
    decreases ids.len(),
{
    if ids.len() == 0 {
        Seq::empty()
    } else {
        known_indices(db, ids.drop_last()) + match db.index_of_id(ids.last()) {
            Some(i) => seq![i],
            None => Seq::empty(),
        }
    }
}

/// The message for a deck name that names no sample deck.
pub open spec fn unknown_deck_message(name: Seq<char>) -> Seq<char> {
    "Unknown deck '"@ + name + "'. Available: "@ + joined(deck_names(), ", "@)
}

/// The message for a sample deck none of whose cards the database knows.
pub open spec fn empty_deck_message(name: Seq<char>) -> Seq<char> {
    "Deck '"@ + name + "' resolved to 0 cards. Check that PTCGP_ASSETS points to the correct directory."@
}

/// The sample deck called `name` as database indices and energy types.
pub open spec fn resolved_deck(db: CardDb, name: Seq<char>) -> Result<(Seq<u16>, Seq<Element>), Seq<char>> {
    match sample_deck(lowered(trim(name))) {
        None => Err(unknown_deck_message(name)),
        Some(d) => {
            let idx = known_indices(db, d.0);
            if idx.len() == 0 {
                Err(empty_deck_message(name))
            } else {
                Ok((idx, d.1))
            }
        },
    }
}

/// The database indices of the ids that the database knows.
fn indices_of(db: &CardDb, ids: &Vec<&'static str>) -> (r: Vec<u16>)
    ensures
        r@ == known_indices(*db, id_views(ids@)),
{
    let mut out: Vec<u16> = Vec::new();
    let mut i: usize = 0;
    while i < ids.len()
        invariant
            i <= ids@.len(),
            out@ == known_indices(*db, id_views(ids@).subrange(0, i as int)),
        decreases ids.len() - i,
    {
        proof {
            let s = id_views(ids@).subrange(0, i + 1);
            assert(s.drop_last() =~= id_views(ids@).subrange(0, i as int));
            assert(s.last() == ids@[i as int]@);
        }
        match db.get_idx_by_id(ids[i]) {
            Some(idx) => out.push(idx),
            None => {},
        }
        i = i + 1;
    }
    assert(id_views(ids@).subrange(0, ids@.len() as int) =~= id_views(ids@));
    out
}

/// The sample deck called `name` (case and surrounding whitespace
/// ignored), as the database indices of its cards (ids the database does
/// not know are skipped) and its energy types.  An unknown name, or a deck
/// none of whose cards are known, is refused with a message.
pub fn resolve_deck(db: &CardDb, name: &str) -> (r: Result<(Vec<u16>, Vec<Element>), String>)
    ensures
        match resolved_deck(*db, name@) {
            Ok(d) => r matches Ok(x) && x.0@ == d.0 && x.1@ == d.1,
            Err(m) => r matches Err(e) && e@ == m,
        },
{
    let (ids, energy) = match get_sample_deck(name) {
        Some(d) => d,
        None => {
            let mut v: Vec<char> = Vec::new();
            push_str(&mut v, "Unknown deck '");
            push_str(&mut v, name);
            push_str(&mut v, "'. Available: ");
            let names = all_deck_names();
            let mut parts: Vec<Vec<char>> = Vec::new();
            let mut i: usize = 0;
            while i < names.len()
                invariant
                    i <= names@.len(),
                    parts@.map_values(|w: Vec<char>| w@) == id_views(names@).subrange(0, i as int),
                decreases names.len() - i,
            {
                let ghost before = parts@;
                let c = to_chars(names[i]);
                assert(c@ == id_views(names@)[i as int]);
                parts.push(c);
                assert(parts@ == before.push(c));
                assert(parts@.map_values(|w: Vec<char>| w@) =~= before.map_values(|w: Vec<char>| w@).push(c@));
                assert(parts@.map_values(|w: Vec<char>| w@) =~= id_views(names@).subrange(0, i + 1));
                i = i + 1;
            }
            assert(id_views(names@).subrange(0, names@.len() as int) =~= deck_names());
            let listed = join_with(&parts, ", ");
            let mut k: usize = 0;
            let ghost v0 = v@;
            while k < listed.len()
                invariant
                    k <= listed@.len(),
                    v@ == v0 + listed@.subrange(0, k as int),
                decreases listed.len() - k,
            {
                v.push(listed[k]);
                k = k + 1;
                assert(v@ =~= v0 + listed@.subrange(0, k as int));
            }
            assert(listed@.subrange(0, listed@.len() as int) =~= listed@);
            assert(v@ =~= unknown_deck_message(name@));
            return Err(string_from_chars(v.as_slice()));
        },
    };
    let indices = indices_of(db, &ids);
    if indices.len() == 0 {
        let mut v: Vec<char> = Vec::new();
        push_str(&mut v, "Deck '");
        push_str(&mut v, name);
        push_str(&mut v, "' resolved to 0 cards. Check that PTCGP_ASSETS points to the correct directory.");
        assert(v@ =~= empty_deck_message(name@));
        return Err(string_from_chars(v.as_slice()));
    }
    Ok((indices, energy))
}

/// The decks named in `parts`, each name trimmed; blank names, unknown
/// names and decks none of whose cards are known are left out.
pub open spec fn pool_from(db: CardDb, parts: Seq<Seq<char>>) -> Seq<(Seq<u16>, Seq<Element>)>
    decreases parts.len(),
{
    if parts.len() == 0 {
        Seq::empty()
    } else {
        pool_from(db, parts.drop_last()) + {
            let t = trim(parts.last());
            if t.len() == 0 {
                Seq::empty()
            } else {
                match sample_deck(lowered(trim(t))) {
                    None => Seq::empty(),
                    Some(d) => {
                        let idx = known_indices(db, d.0);
                        if idx.len() == 0 { Seq::empty() } else { seq![(idx, d.1)] }
                    },
                }
            }
        }
    }
}

/// The pictures of a list of decks.
pub open spec fn pool_view(v: Seq<(Vec<u16>, Vec<Element>)>) -> Seq<(Seq<u16>, Seq<Element>)> {
    v.map_values(|d: (Vec<u16>, Vec<Element>)| (d.0@, d.1@))
}

/// The decks of a comma-separated list of sample deck names, as database
/// indices and energy types; names that are blank or unknown, and decks
/// none of whose cards the database knows, are skipped.
pub fn resolve_deck_pool(db: &CardDb, spec: &str) -> (r: Vec<(Vec<u16>, Vec<Element>)>)
    ensures
        pool_view(r@) == pool_from(*db, split(spec@, ',')),
{
    let cs = to_chars(spec);
    let parts = split_chars(cs.as_slice(), ',');
    let ghost ps = split(spec@, ',');
    assert(views(parts@) == ps);
    let mut out: Vec<(Vec<u16>, Vec<Element>)> = Vec::new();
    let mut i: usize = 0;
    while i < parts.len()
        invariant
            i <= parts@.len(),
            views(parts@) == ps,
            pool_view(out@) == pool_from(*db, ps.subrange(0, i as int)),
        decreases parts.len() - i,
    {
        let ghost pre = ps.subrange(0, i as int);
        let ghost now = ps.subrange(0, i + 1);
        assert(now.drop_last() =~= pre);
        assert(now.last() == parts@[i as int]@);
        let t = trim_chars(parts[i].as_slice());
        if t.len() > 0 {
            let name = string_from_chars(t.as_slice());
            match get_sample_deck(name.as_str()) {
                Some((ids, energy)) => {
                    let indices = indices_of(db, &ids);
                    if indices.len() > 0 {
                        let ghost before = out@;
                        let entry = (indices, energy);
                        out.push(entry);
                        assert(pool_view(out@) =~= pool_view(before).push((entry.0@, entry.1@)));
                    }
                },
                None => {},
            }
        }
        assert(pool_view(out@) =~= pool_from(*db, now));
        i = i + 1;
    }
    assert(ps.subrange(0, ps.len() as int) =~= ps);
    out
}

/// No card name occurs more than twice in `deck`.
pub open spec fn copies_ok(db: CardDb, deck: Seq<u16>) -> bool {
    forall|i: int| 0 <= i < deck.len() ==> count_named(db, deck, db.cards@[#[trigger] deck[i] as int].name@) <= 2
}

/// The deck-building rules: exactly 20 cards, all in the database, at most
/// two copies of any name, at least one Basic Pokémon, and one to three
/// energy types.
pub open spec fn deck_rules_hold(db: CardDb, deck: Seq<u16>, energy: Seq<Element>) -> bool {
    &&& deck.len() == 20
    &&& db.knows_all(deck)
    &&& copies_ok(db, deck)
    &&& has_basic(db, deck)
    &&& 1 <= energy.len() <= 3
}

/// Every card is known and no prefix ending at a card holds a third copy
/// of its name, from position `i` on.
spec fn prefix_copies_ok(db: CardDb, deck: Seq<u16>, i: int) -> bool {
    forall|j: int|
        i <= j < deck.len() ==> (db.card(#[trigger] deck[j]) matches Some(c) && count_named(db, deck.subrange(0, j + 1), c.name@) <= 2)
}

proof fn lemma_scan_cards_none(db: CardDb, deck: Seq<u16>, i: int)
    requires
        0 <= i <= deck.len(),
    ensures
        scan_cards(db, deck, i) is None <==> prefix_copies_ok(db, deck, i),
    decreases deck.len() - i,
{
    if i < deck.len() {
        lemma_scan_cards_none(db, deck, i + 1);
        if prefix_copies_ok(db, deck, i) {
            assert(prefix_copies_ok(db, deck, i + 1));
        }
        if scan_cards(db, deck, i) is None {
            assert forall|j: int| i <= j < deck.len() implies (db.card(#[trigger] deck[j]) matches Some(c) && count_named(
                db,
                deck.subrange(0, j + 1),
                c.name@,
            ) <= 2) by {
                if j > i {
                    assert(prefix_copies_ok(db, deck, i + 1));
                }
            }
        }
    }
}

proof fn lemma_count_prefix_grows(db: CardDb, deck: Seq<u16>, name: Seq<char>, k: int)
    requires
        0 <= k <= deck.len(),
    ensures
        count_named(db, deck.subrange(0, k), name) <= count_named(db, deck, name),
    decreases deck.len() - k,
{
    if k < deck.len() {
        lemma_count_prefix_grows(db, deck, name, k + 1);
        assert(deck.subrange(0, k + 1).drop_last() =~= deck.subrange(0, k));
    } else {
        assert(deck.subrange(0, k) =~= deck);
    }
}

proof fn lemma_count_bounded_by_prefixes(db: CardDb, deck: Seq<u16>, name: Seq<char>, k: int)
    requires
        0 <= k <= deck.len(),
        prefix_copies_ok(db, deck, 0),
    ensures
        count_named(db, deck.subrange(0, k), name) <= 2,
    decreases k,
{
    if k > 0 {
        lemma_count_bounded_by_prefixes(db, deck, name, k - 1);
        assert(deck.subrange(0, k).drop_last() =~= deck.subrange(0, k - 1));
        assert(deck.subrange(0, k).last() == deck[k - 1]);
        assert(db.card(deck[k - 1]) matches Some(c) && count_named(db, deck.subrange(0, k), c.name@) <= 2);
    }
}

/// A deck passes `validate_deck` exactly when the deck-building rules hold.
pub proof fn lemma_deck_valid_iff_rules(db: CardDb, deck: Seq<u16>, energy: Seq<Element>)
    ensures
        deck_problem(db, deck, energy) is None <==> deck_rules_hold(db, deck, energy),
{
    lemma_scan_cards_none(db, deck, 0);
    if deck_problem(db, deck, energy) is None {
        assert(prefix_copies_ok(db, deck, 0));
        assert forall|i: int| 0 <= i < deck.len() implies (#[trigger] deck[i] as int) < db.cards@.len() by {
            assert(db.card(deck[i]) is Some);
        }
        assert forall|i: int| 0 <= i < deck.len() implies count_named(db, deck, db.cards@[#[trigger] deck[i] as int].name@) <= 2 by {
            lemma_count_bounded_by_prefixes(db, deck, db.cards@[deck[i] as int].name@, deck.len() as int);
            assert(deck.subrange(0, deck.len() as int) =~= deck);
        }
    }
    if deck_rules_hold(db, deck, energy) {
        assert forall|j: int| 0 <= j < deck.len() implies (db.card(#[trigger] deck[j]) matches Some(c) && count_named(
            db,
            deck.subrange(0, j + 1),
            c.name@,
        ) <= 2) by {
            assert((deck[j] as int) < db.cards@.len());
            lemma_count_prefix_grows(db, deck, db.cards@[deck[j] as int].name@, j + 1);
            assert(count_named(db, deck, db.cards@[deck[j] as int].name@) <= 2);
        }
        assert(prefix_copies_ok(db, deck, 0));
    }
}

}
