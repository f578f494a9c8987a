//! Reading a card's `legal` strings, such as `own_bench_at_least(count=2)`,
//! into conditions.
use vstd::prelude::*;
use crate::effects::legality::LegalCondition;
use crate::effects::parse::{
    Params, arg_str, arg_u8, get_str, get_u8, lookup, params_view, trim_end_char, trim_start_char,
};
use crate::text::{
    chars_eq, find_char, first_index, lemma_first_index_range, split, split_chars, string_from_chars,
    sub_chars, to_chars, to_lowercase, trim, trim_chars, lowered, views,
};
use crate::types::{Element, Stage};

verus! {

/// Whether `name` spells `lit`.
fn is_name(name: &[char], lit: &str) -> (r: bool)
    ensures
        r == (name@ == lit@),
{
    let l = to_chars(lit);
    chars_eq(name, l.as_slice())
}

/// The pairs given by the `key=value` tokens of `toks` (others are ignored).
pub open spec fn keyed_entries(toks: Seq<Seq<char>>) -> Seq<(Seq<char>, Seq<char>)>
    decreases toks.len(),
{
    if toks.len() == 0 {
        Seq::empty()
    } else {
        let prev = keyed_entries(toks.drop_last());
        let t = trim(toks.last());
        match first_index(t, '=') {
            Some(e) => prev.push((trim(t.subrange(0, e)), trim(t.subrange(e + 1, t.len() as int)))),
            None => prev,
        }
    }
}

/// The parameters written in the arguments of a `legal` string.
pub open spec fn keyed_params_of(args: Seq<char>) -> Seq<(Seq<char>, Seq<char>)> {
    let a = trim_end_char(trim(args), ')');
    if a.len() == 0 {
        Seq::empty()
    } else {
        keyed_entries(split(a, ','))
    }
}

/// `s` without its trailing `c` characters.
fn strip_end(s: &[char], c: char) -> (r: Vec<char>)
    ensures
        r@ == trim_end_char(s@, c),
{
    let mut n = s.len();
    assert(s@.subrange(0, n as int) =~= s@);
    while n > 0 && s[n - 1] == c
        invariant
            n <= s@.len(),
            trim_end_char(s@.subrange(0, n as int), c) == trim_end_char(s@, c),
        decreases n,
    {
        assert(s@.subrange(0, n as int).drop_last() =~= s@.subrange(0, n - 1));
        n = n - 1;
    }
    sub_chars(s, 0, n)
}

/// `s` without its leading `c` characters.
fn strip_start(s: &[char], c: char) -> (r: Vec<char>)
    ensures
        r@ == trim_start_char(s@, c),
{
    let mut i: usize = 0;
    assert(s@.subrange(0, s@.len() as int) =~= s@);
    while i < s.len() && s[i] == c
        invariant
            i <= s@.len(),
            trim_start_char(s@.subrange(i as int, s@.len() as int), c) == trim_start_char(s@, c),
        decreases s.len() - i,
    {
        assert(s@.subrange(i as int, s@.len() as int).drop_first() =~= s@.subrange(i + 1, s@.len() as int));
        i = i + 1;
    }
    sub_chars(s, i, s.len())
}

/// The parameters written in `args`: the `key=value` tokens.
fn parse_keyed_args(args: &[char]) -> (r: Params)
    ensures
        params_view(r) == keyed_params_of(args@),
{
    let t = trim_chars(args);
    let a = strip_end(t.as_slice(), ')');
    let mut ps = Params { pairs: Vec::new() };
    if a.len() == 0 {
        assert(params_view(ps) =~= Seq::<(Seq<char>, Seq<char>)>::empty());
        return ps;
    }
    let toks = split_chars(a.as_slice(), ',');
    let mut i: usize = 0;
    while i < toks.len()
        invariant
            i <= toks@.len(),
            views(toks@) == split(a@, ','),
            params_view(ps) == keyed_entries(views(toks@).subrange(0, i as int)),
        decreases toks.len() - i,
    {
        let ghost before = params_view(ps);
        let ghost sub = views(toks@).subrange(0, i + 1);
        assert(sub.drop_last() =~= views(toks@).subrange(0, i as int));
        assert(sub.last() == toks@[i as int]@);
        let tok = trim_chars(toks[i].as_slice());
        let n = tok.len();
        proof {
            lemma_first_index_range(tok@, '=');
        }
        match find_char(tok.as_slice(), '=') {
            Some(e) => {
                let k = trim_chars(sub_chars(tok.as_slice(), 0, e).as_slice());
                let v = trim_chars(sub_chars(tok.as_slice(), e + 1, n).as_slice());
                ps.pairs.push((k, v));
                assert(params_view(ps) =~= before.push((k@, v@)));
            },
            None => {},
        }
        i = i + 1;
    }
    assert(views(toks@).subrange(0, toks@.len() as int) =~= views(toks@));
    ps
}

/// `"true"` or `"false"`, as `str::parse::<bool>` reads them.
pub open spec fn parse_bool(v: Seq<char>) -> Option<bool> {
    if v == "true"@ {
        Some(true)
    } else if v == "false"@ {
        Some(false)
    } else {
        None
    }
}

/// The flag under `key`, or `default` when absent or not a boolean.
pub open spec fn lg_bool(ps: Seq<(Seq<char>, Seq<char>)>, key: Seq<char>, default: bool) -> bool {
    match lookup(ps, key) {
        Some(v) => match parse_bool(v) {
            Some(b) => b,
            None => default,
        },
        None => default,
    }
}

/// The type named under `key`, if any.
pub open spec fn lg_element(ps: Seq<(Seq<char>, Seq<char>)>, key: Seq<char>) -> Option<Element> {
    match lookup(ps, key) {
        Some(v) => Element::parse(v),
        None => None,
    }
}

/// The type named under `key`, Grass by default.
pub open spec fn lg_element_or_grass(ps: Seq<(Seq<char>, Seq<char>)>, key: Seq<char>) -> Element {
    match lg_element(ps, key) {
        Some(e) => e,
        None => Element::Grass,
    }
}

/// The stage that a lower-cased name stands for.
pub open spec fn stage_named(v: Seq<char>) -> Option<Stage> {
    if v == "basic"@ {
        Some(Stage::Basic)
    } else if v == "stage1"@ || v == "stage 1"@ {
        Some(Stage::Stage1)
    } else if v == "stage2"@ || v == "stage 2"@ {
        Some(Stage::Stage2)
    } else {
        None
    }
}

/// The stage named under `key` (case ignored), if any.
pub open spec fn lg_stage(ps: Seq<(Seq<char>, Seq<char>)>, key: Seq<char>) -> Option<Stage> {
    match lookup(ps, key) {
        Some(v) => stage_named(lowered(v)),
        None => None,
    }
}

/// The non-empty comma-separated names under `key`, parentheses and spaces
/// stripped.
pub open spec fn lg_names(ps: Seq<(Seq<char>, Seq<char>)>, key: Seq<char>) -> Seq<Seq<char>> {
    match lookup(ps, key) {
        Some(v) => split(trim_end_char(trim_start_char(trim(v), '('), ')'), ',').map_values(|t: Seq<char>| trim(t)).filter(
            |t: Seq<char>| t.len() > 0,
        ),
        None => Seq::empty(),
    }
}

/// The value given last for `key`.
fn find_value(ps: &Params, key: &str) -> (r: Option<Vec<char>>)
    ensures
        match r {
            Some(v) => lookup(params_view(*ps), key@) == Some(v@),
            None => lookup(params_view(*ps), key@) is None,
        },
{
    let k = to_chars(key);
    let mut i: usize = ps.pairs.len();
    assert(params_view(*ps).subrange(0, i as int) =~= params_view(*ps));
    while i > 0
        invariant
            i <= ps.pairs@.len(),
            k@ == key@,
            lookup(params_view(*ps), key@) == lookup(params_view(*ps).subrange(0, i as int), key@),
        decreases i,
    {
        let ghost sub = params_view(*ps).subrange(0, i as int);
        if chars_eq(ps.pairs[i - 1].0.as_slice(), k.as_slice()) {
            let v = sub_chars(ps.pairs[i - 1].1.as_slice(), 0, ps.pairs[i - 1].1.len());
            assert(ps.pairs[i - 1].1@.subrange(0, ps.pairs[i - 1].1@.len() as int) =~= ps.pairs[i - 1].1@);
            return Some(v);
        }
        assert(sub.drop_last() =~= params_view(*ps).subrange(0, i - 1));
        i = i - 1;
    }
    assert(params_view(*ps).subrange(0, 0) =~= Seq::<(Seq<char>, Seq<char>)>::empty());
    None
}

fn lg_get_bool(ps: &Params, key: &str, default: bool) -> (r: bool)
    ensures
        r == lg_bool(params_view(*ps), key@, default),
{
    match find_value(ps, key) {
        Some(v) => {
            if is_name(v.as_slice(), "true") {
                true
            } else if is_name(v.as_slice(), "false") {
                false
            } else {
                default
            }
        },
        None => default,
    }
}

fn lg_get_element(ps: &Params, key: &str) -> (r: Option<Element>)
    ensures
        r == lg_element(params_view(*ps), key@),
{
    match find_value(ps, key) {
        Some(v) => {
            let s = string_from_chars(v.as_slice());
            Element::from_str(s.as_str())
        },
        None => None,
    }
}

fn lg_get_stage(ps: &Params, key: &str) -> (r: Option<Stage>)
    ensures
        r == lg_stage(params_view(*ps), key@),
{
    match find_value(ps, key) {
        Some(v) => {
            let s = string_from_chars(v.as_slice());
            let low = to_lowercase(s.as_str());
            let l = to_chars(low.as_str());
            if is_name(l.as_slice(), "basic") {
                Some(Stage::Basic)
            } else if is_name(l.as_slice(), "stage1") || is_name(l.as_slice(), "stage 1") {
                Some(Stage::Stage1)
            } else if is_name(l.as_slice(), "stage2") || is_name(l.as_slice(), "stage 2") {
                Some(Stage::Stage2)
            } else {
                None
            }
        },
        None => None,
    }
}

fn lg_get_names(ps: &Params, key: &str) -> (r: Vec<String>)
    ensures
        r@.map_values(|s: String| s@) == lg_names(params_view(*ps), key@),
{
    let mut out: Vec<String> = Vec::new();
    match find_value(ps, key) {
        None => {
            assert(out@.map_values(|s: String| s@) =~= Seq::<Seq<char>>::empty());
            out
        },
        Some(v) => {
            let t = trim_chars(v.as_slice());
            let a = strip_start(t.as_slice(), '(');
            let b = strip_end(a.as_slice(), ')');
            let parts = split_chars(b.as_slice(), ',');
            let ghost trimmed = split(b@, ',').map_values(|x: Seq<char>| trim(x));
            let mut i: usize = 0;
            proof {
                reveal(Seq::filter);
                assert(trimmed.subrange(0, 0).filter(|x: Seq<char>| x.len() > 0) =~= Seq::<Seq<char>>::empty());
            }
            assert(out@.map_values(|s: String| s@) =~= trimmed.subrange(0, 0).filter(|x: Seq<char>| x.len() > 0));
            while i < parts.len()
                invariant
                    i <= parts@.len(),
                    views(parts@) == split(b@, ','),
                    trimmed == split(b@, ',').map_values(|x: Seq<char>| trim(x)),
                    out@.map_values(|s: String| s@) == trimmed.subrange(0, i as int).filter(|x: Seq<char>| x.len() > 0),
                decreases parts.len() - i,
            {
                let piece = trim_chars(parts[i].as_slice());
                assert(parts@[i as int]@ == views(parts@)[i as int]);
                assert(piece@ == trimmed[i as int]);
                let ghost before = out@.map_values(|s: String| s@);
                proof {
                    reveal(Seq::filter);
                    assert(trimmed.subrange(0, i + 1).drop_last() =~= trimmed.subrange(0, i as int));
                }
                if piece.len() > 0 {
                    let st = string_from_chars(piece.as_slice());
                    out.push(st);
                    assert(out@.map_values(|s: String| s@) =~= before.push(st@));
                }
                i = i + 1;
            }
            assert(trimmed.subrange(0, trimmed.len() as int) =~= trimmed);
            out
        },
    }
}

/// The condition names a `legal` string may use.
pub open spec fn legal_known(name: Seq<char>) -> bool {
    name == "own_bench_at_least"@
        || name == "opp_bench_at_least"@
        || name == "opp_hand_at_least"@
        || name == "own_deck_has_basic"@
        || name == "own_deck_has_pokemon"@
        || name == "own_deck_has_named"@
        || name == "own_energy_discard_at_least"@
        || name == "opp_points_at_least"@
        || name == "active_is_element"@
        || name == "active_is_named"@
        || name == "active_retreat_cost_at_least"@
        || name == "active_is_subtype"@
        || name == "own_in_play_subtype"@
        || name == "own_bench_subtype"@
        || name == "own_in_play_basic"@
        || name == "own_in_play_element"@
        || name == "own_bench_has_energy"@
        || name == "own_bench_has_empty"@
        || name == "opp_has_tool"@
        || name == "opp_active_has_attack"@
        || name == "own_in_play_damaged"@
        || name == "heal_own_target"@
        || name == "tool_target"@
        || name == "own_bench_pair"@
        || name == "opp_bench_target"@
        || name == "opp_any_target"@
        || name == "own_pokemon_target"@
}

/// `c` is the condition that `name` stands for with parameters `ps`.
pub open spec fn legal_parsed(c: LegalCondition, name: Seq<char>, ps: Seq<(Seq<char>, Seq<char>)>) -> bool {
    if name == "own_bench_at_least"@ {
        c == (LegalCondition::OwnBenchAtLeast { count: arg_u8(ps, "count"@, 1u8) })
    } else if name == "opp_bench_at_least"@ {
        c == (LegalCondition::OppBenchAtLeast { count: arg_u8(ps, "count"@, 1u8) })
    } else if name == "opp_hand_at_least"@ {
        c == (LegalCondition::OppHandAtLeast { count: arg_u8(ps, "count"@, 1u8) })
    } else if name == "own_deck_has_basic"@ {
        c == LegalCondition::OwnDeckHasBasic
    } else if name == "own_deck_has_pokemon"@ {
        c == LegalCondition::OwnDeckHasPokemon
    } else if name == "own_deck_has_named"@ {
        (c matches LegalCondition::OwnDeckHasNamed { names: b_names } && b_names@.map_values(|s: String| s@) == lg_names(ps, "names"@))
    } else if name == "own_energy_discard_at_least"@ {
        c == (LegalCondition::OwnEnergyDiscardAtLeast { count: arg_u8(ps, "count"@, 1u8), element: lg_element(ps, "element"@) })
    } else if name == "opp_points_at_least"@ {
        c == (LegalCondition::OppPointsAtLeast { count: arg_u8(ps, "count"@, 1u8) })
    } else if name == "active_is_element"@ {
        c == (LegalCondition::ActiveIsElement { element: lg_element_or_grass(ps, "element"@) })
    } else if name == "active_is_named"@ {
        (c matches LegalCondition::ActiveIsNamed { names: b_names } && b_names@.map_values(|s: String| s@) == lg_names(ps, "names"@))
    } else if name == "active_retreat_cost_at_least"@ {
        c == (LegalCondition::ActiveRetreatCostAtLeast { amount: arg_u8(ps, "amount"@, 1u8) })
    } else if name == "active_is_subtype"@ {
        (c matches LegalCondition::ActiveIsSubtype { subtype: b_subtype } && b_subtype@ == arg_str(ps, "subtype"@))
    } else if name == "own_in_play_subtype"@ {
        (c matches LegalCondition::OwnInPlaySubtype { subtype: b_subtype } && b_subtype@ == arg_str(ps, "subtype"@))
    } else if name == "own_bench_subtype"@ {
        (c matches LegalCondition::OwnBenchSubtype { subtype: b_subtype } && b_subtype@ == arg_str(ps, "subtype"@))
    } else if name == "own_in_play_basic"@ {
        c == LegalCondition::OwnInPlayBasic
    } else if name == "own_in_play_element"@ {
        c == (LegalCondition::OwnInPlayElement { element: lg_element_or_grass(ps, "element"@) })
    } else if name == "own_bench_has_energy"@ {
        c == LegalCondition::OwnBenchHasEnergy
    } else if name == "own_bench_has_empty"@ {
        c == LegalCondition::OwnBenchHasEmpty
    } else if name == "opp_has_tool"@ {
        c == LegalCondition::OppHasTool
    } else if name == "opp_active_has_attack"@ {
        c == LegalCondition::OppActiveHasAttack
    } else if name == "own_in_play_damaged"@ {
        c == (LegalCondition::OwnInPlayDamaged { element: lg_element(ps, "element"@), stage: lg_stage(ps, "stage"@) })
    } else if name == "heal_own_target"@ {
        c == (LegalCondition::HealOwnTarget { element: lg_element(ps, "element"@), stage: lg_stage(ps, "stage"@) })
    } else if name == "tool_target"@ {
        c == (LegalCondition::ToolTarget { element: lg_element(ps, "element"@) })
    } else if name == "own_bench_pair"@ {
        c == LegalCondition::OwnBenchPair
    } else if name == "opp_bench_target"@ {
        c == (LegalCondition::OppBenchTarget { damaged_only: lg_bool(ps, "damaged_only"@, false) })
    } else if name == "opp_any_target"@ {
        c == LegalCondition::OppAnyTarget
    } else if name == "own_pokemon_target"@ {
        c == (LegalCondition::OwnPokemonTarget { element: lg_element(ps, "element"@) })
    } else {
        false
    }
}

/// The condition that `name` stands for, with parameters `ps`.
fn parse_named_condition(name: &[char], ps: &Params) -> (r: Option<LegalCondition>)
    ensures
        r is Some <==> legal_known(name@),
        r matches Some(c) ==> legal_parsed(c, name@, params_view(*ps)),
{
    if is_name(name, "own_bench_at_least") {
        let b_count = get_u8(ps, "count", 1);
        Some(LegalCondition::OwnBenchAtLeast { count: b_count })
    } else if is_name(name, "opp_bench_at_least") {
        let b_count = get_u8(ps, "count", 1);
        Some(LegalCondition::OppBenchAtLeast { count: b_count })
    } else if is_name(name, "opp_hand_at_least") {
        let b_count = get_u8(ps, "count", 1);
        Some(LegalCondition::OppHandAtLeast { count: b_count })
    } else if is_name(name, "own_deck_has_basic") {
        Some(LegalCondition::OwnDeckHasBasic)
    } else if is_name(name, "own_deck_has_pokemon") {
        Some(LegalCondition::OwnDeckHasPokemon)
    } else if is_name(name, "own_deck_has_named") {
        let b_names = lg_get_names(ps, "names");
        Some(LegalCondition::OwnDeckHasNamed { names: b_names })
    } else if is_name(name, "own_energy_discard_at_least") {
        let b_count = get_u8(ps, "count", 1);
        let b_element = lg_get_element(ps, "element");
        Some(LegalCondition::OwnEnergyDiscardAtLeast { count: b_count, element: b_element })
    } else if is_name(name, "opp_points_at_least") {
        let b_count = get_u8(ps, "count", 1);
        Some(LegalCondition::OppPointsAtLeast { count: b_count })
    } else if is_name(name, "active_is_element") {
        let b_element = match lg_get_element(ps, "element") { Some(e) => e, None => Element::Grass };
        Some(LegalCondition::ActiveIsElement { element: b_element })
    } else if is_name(name, "active_is_named") {
        let b_names = lg_get_names(ps, "names");
        Some(LegalCondition::ActiveIsNamed { names: b_names })
    } else if is_name(name, "active_retreat_cost_at_least") {
        let b_amount = get_u8(ps, "amount", 1);
        Some(LegalCondition::ActiveRetreatCostAtLeast { amount: b_amount })
    } else if is_name(name, "active_is_subtype") {
        let b_subtype = get_str(ps, "subtype");
        Some(LegalCondition::ActiveIsSubtype { subtype: b_subtype })
    } else if is_name(name, "own_in_play_subtype") {
        let b_subtype = get_str(ps, "subtype");
        Some(LegalCondition::OwnInPlaySubtype { subtype: b_subtype })
    } else if is_name(name, "own_bench_subtype") {
        let b_subtype = get_str(ps, "subtype");
        Some(LegalCondition::OwnBenchSubtype { subtype: b_subtype })
    } else if is_name(name, "own_in_play_basic") {
        Some(LegalCondition::OwnInPlayBasic)
    } else if is_name(name, "own_in_play_element") {
        let b_element = match lg_get_element(ps, "element") { Some(e) => e, None => Element::Grass };
        Some(LegalCondition::OwnInPlayElement { element: b_element })
    } else if is_name(name, "own_bench_has_energy") {
        Some(LegalCondition::OwnBenchHasEnergy)
    } else if is_name(name, "own_bench_has_empty") {
        Some(LegalCondition::OwnBenchHasEmpty)
    } else if is_name(name, "opp_has_tool") {
        Some(LegalCondition::OppHasTool)
    } else if is_name(name, "opp_active_has_attack") {
        Some(LegalCondition::OppActiveHasAttack)
    } else if is_name(name, "own_in_play_damaged") {
        let b_element = lg_get_element(ps, "element");
        let b_stage = lg_get_stage(ps, "stage");
        Some(LegalCondition::OwnInPlayDamaged { element: b_element, stage: b_stage })
    } else if is_name(name, "heal_own_target") {
        let b_element = lg_get_element(ps, "element");
        let b_stage = lg_get_stage(ps, "stage");
        Some(LegalCondition::HealOwnTarget { element: b_element, stage: b_stage })
    } else if is_name(name, "tool_target") {
        let b_element = lg_get_element(ps, "element");
        Some(LegalCondition::ToolTarget { element: b_element })
    } else if is_name(name, "own_bench_pair") {
        Some(LegalCondition::OwnBenchPair)
    } else if is_name(name, "opp_bench_target") {
        let b_damaged_only = lg_get_bool(ps, "damaged_only", false);
        Some(LegalCondition::OppBenchTarget { damaged_only: b_damaged_only })
    } else if is_name(name, "opp_any_target") {
        Some(LegalCondition::OppAnyTarget)
    } else if is_name(name, "own_pokemon_target") {
        let b_element = lg_get_element(ps, "element");
        Some(LegalCondition::OwnPokemonTarget { element: b_element })
    } else {
        None
    }
}

/// The condition name in `s` (before the first parenthesis, trimmed).
pub open spec fn cond_name(s: Seq<char>) -> Seq<char> {
    match first_index(s, '(') {
        Some(p) => trim(s.subrange(0, p)),
        None => s,
    }
}

/// The arguments of `s` (after the first parenthesis).
pub open spec fn cond_args(s: Seq<char>) -> Seq<char> {
    match first_index(s, '(') {
        Some(p) => s.subrange(p + 1, s.len() as int),
        None => Seq::empty(),
    }
}

/// Reads one `legal` string; an empty string or an unknown name gives `None`.
pub fn parse_legal_string(s: &str) -> (r: Option<LegalCondition>)
    ensures
        r is Some <==> (s@.len() > 0 && legal_known(cond_name(s@))),
        r matches Some(c) ==> legal_parsed(c, cond_name(s@), keyed_params_of(cond_args(s@))),
{
    let chars = to_chars(s);
    if chars.len() == 0 {
        return None;
    }
    let n = chars.len();
    proof {
        lemma_first_index_range(chars@, '(');
    }
    let (name, args) = match find_char(chars.as_slice(), '(') {
        Some(p) => (trim_chars(sub_chars(chars.as_slice(), 0, p).as_slice()), sub_chars(chars.as_slice(), p + 1, n)),
        None => (sub_chars(chars.as_slice(), 0, n), Vec::new()),
    };
    assert(chars@.subrange(0, chars@.len() as int) =~= chars@);
    assert(name@ == cond_name(s@));
    assert(args@ =~= cond_args(s@));
    let ps = parse_keyed_args(args.as_slice());
    parse_named_condition(name.as_slice(), &ps)
}

/// The entries of `items` that read as conditions, trimmed, in order.
pub open spec fn known_items(items: Seq<Seq<char>>) -> Seq<Seq<char>>
    decreases items.len(),
{
    if items.len() == 0 {
        Seq::empty()
    } else {
        let t = trim(items.last());
        if t.len() > 0 && legal_known(cond_name(t)) {
            known_items(items.drop_last()).push(t)
        } else {
            known_items(items.drop_last())
        }
    }
}

/// Reads a card's `legal` array; entries that do not read as a condition
/// are skipped.
pub fn parse_legal_array(items: &[String]) -> (r: Vec<LegalCondition>)
    ensures
        ({
            let ki = known_items(items@.map_values(|s: String| s@));
            &&& r@.len() == ki.len()
            &&& forall|i: int| 0 <= i < r@.len() ==> legal_parsed(#[trigger] r@[i], cond_name(ki[i]), keyed_params_of(cond_args(ki[i])))
        }),
{
    let ghost iv = items@.map_values(|s: String| s@);
    let mut out: Vec<LegalCondition> = Vec::new();
    let mut i: usize = 0;
    while i < items.len()
        invariant
            i <= items@.len(),
            iv == items@.map_values(|s: String| s@),
            out@.len() == known_items(iv.subrange(0, i as int)).len(),
            forall|j: int| 0 <= j < out@.len() ==> legal_parsed(
                #[trigger] out@[j],
                cond_name(known_items(iv.subrange(0, i as int))[j]),
                keyed_params_of(cond_args(known_items(iv.subrange(0, i as int))[j])),
            ),
        decreases items.len() - i,
    {
        let ghost sub = iv.subrange(0, i + 1);
        assert(sub.drop_last() =~= iv.subrange(0, i as int));
        assert(sub.last() == items@[i as int]@);
        let t = trim_chars(to_chars(items[i].as_str()).as_slice());
        let ts = string_from_chars(t.as_slice());
        match parse_legal_string(ts.as_str()) {
            Some(c) => {
                out.push(c);
            },
            None => {},
        }
        i = i + 1;
    }
    assert(iv.subrange(0, items@.len() as int) =~= iv);
    out
}

}
