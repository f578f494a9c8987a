//! Reading a card's handler string, such as
//! `apply_poison | self_damage(amount=20)`, into effects.
use vstd::prelude::*;
use crate::effects::EffectKind;
use crate::text::{
    find_char, first_index, lemma_first_index_range, parse_i16, parse_i16_chars, parse_u8,
    parse_u8_chars, split, split_chars, string_from_chars, sub_chars, to_chars, trim, trim_chars,
    views, chars_eq,
};
use crate::effects::parse_names::{effect_known, effect_parsed, parse_named_effect};

verus! {

/// Parameters of one effect: `(key, value)` pairs; a later pair overrides
/// an earlier one with the same key.
pub struct Params {
    pub pairs: Vec<(Vec<char>, Vec<char>)>,
}

/// The characters of each pair.
pub open spec fn params_view(ps: Params) -> Seq<(Seq<char>, Seq<char>)> {
    ps.pairs@.map_values(|kv: (Vec<char>, Vec<char>)| (kv.0@, kv.1@))
}

/// The value given last for `key`.
pub open spec fn lookup(ps: Seq<(Seq<char>, Seq<char>)>, key: Seq<char>) -> Option<Seq<char>>
    decreases ps.len(),
{
    if ps.len() == 0 {
        None
    } else if ps.last().0 == key {
        Some(ps.last().1)
    } else {
        lookup(ps.drop_last(), key)
    }
}

/// `s` without the `c` characters at its end.
pub open spec fn trim_end_char(s: Seq<char>, c: char) -> Seq<char>
    decreases s.len(),
{
    if s.len() > 0 && s.last() == c {
        trim_end_char(s.drop_last(), c)
    } else {
        s
    }
}

/// `s` without the `c` characters at its start.
pub open spec fn trim_start_char(s: Seq<char>, c: char) -> Seq<char>
    decreases s.len(),
{
    if s.len() > 0 && s[0] == c {
        trim_start_char(s.drop_first(), c)
    } else {
        s
    }
}

/// `str::trim_matches` with one character.
pub open spec fn trim_char(s: Seq<char>, c: char) -> Seq<char> {
    trim_end_char(trim_start_char(s, c), c)
}

/// The key a bare argument at position `idx` stands for.
pub open spec fn positional_key(idx: int) -> Seq<char> {
    if idx == 0 {
        "amount"@
    } else if idx == 1 {
        "count"@
    } else if idx == 2 {
        "per"@
    } else if idx == 3 {
        "bonus"@
    } else if idx == 4 {
        "threshold"@
    } else {
        "arg"@
    }
}

/// The pairs that the comma-separated `toks` give: `key=value` (both
/// trimmed), or a bare non-empty value under its positional key.
pub open spec fn entries(toks: Seq<Seq<char>>) -> Seq<(Seq<char>, Seq<char>)>
    decreases toks.len(),
{
    if toks.len() == 0 {
        Seq::empty()
    } else {
        let prev = entries(toks.drop_last());
        let t = trim(toks.last());
        match first_index(t, '=') {
            Some(e) => prev.push((trim(t.subrange(0, e)), trim(t.subrange(e + 1, t.len() as int)))),
            None => if t.len() > 0 {
                prev.push((positional_key(toks.len() - 1), t))
            } else {
                prev
            },
        }
    }
}

/// The parameters written in `args` (what follows the opening parenthesis).
pub open spec fn params_of(args: Seq<char>) -> Seq<(Seq<char>, Seq<char>)> {
    let a = trim_end_char(trim(args), ')');
    if a.len() == 0 {
        Seq::empty()
    } else {
        entries(split(a, ','))
    }
}

/// The integer under `key`, or `default` when it is absent or not an `i16`.
pub open spec fn arg_i16(ps: Seq<(Seq<char>, Seq<char>)>, key: Seq<char>, default: i16) -> i16 {
    match lookup(ps, key) {
        Some(v) => match parse_i16(v) {
            Some(x) => x,
            None => default,
        },
        None => default,
    }
}

/// The integer under `key`, or `default` when it is absent or not a `u8`.
pub open spec fn arg_u8(ps: Seq<(Seq<char>, Seq<char>)>, key: Seq<char>, default: u8) -> u8 {
    match lookup(ps, key) {
        Some(v) => match parse_u8(v) {
            Some(x) => x,
            None => default,
        },
        None => default,
    }
}

/// The text under `key`, empty when absent.
pub open spec fn arg_str(ps: Seq<(Seq<char>, Seq<char>)>, key: Seq<char>) -> Seq<char> {
    match lookup(ps, key) {
        Some(v) => v,
        None => Seq::empty(),
    }
}

/// The comma-separated names under `key`, parentheses and spaces stripped.
pub open spec fn arg_names(ps: Seq<(Seq<char>, Seq<char>)>, key: Seq<char>) -> Seq<Seq<char>> {
    match lookup(ps, key) {
        Some(v) => split(trim_char(trim_char(v, '('), ')'), ',').map_values(|t: Seq<char>| trim(t)),
        None => Seq::empty(),
    }
}

/// `s` without its trailing `c` characters.
fn trim_end_char_exec(s: &[char], c: char) -> (r: Vec<char>)
    ensures
        r@ == trim_end_char(s@, c),
{
    let mut n = s.len();
    assert(s@.subrange(0, n as int) =~= s@);
    while n > 0 && s[n - 1] == c
        invariant
            n <= s@.len(),
            trim_end_char(s@.subrange(0, n as int), c) == trim_end_char(s@, c),
        decreases n,
    {
        assert(s@.subrange(0, n as int).drop_last() =~= s@.subrange(0, n - 1));
        n = n - 1;
    }
    sub_chars(s, 0, n)
}

/// `s` without its leading `c` characters.
fn trim_start_char_exec(s: &[char], c: char) -> (r: Vec<char>)
    ensures
        r@ == trim_start_char(s@, c),
{
    let mut i: usize = 0;
    assert(s@.subrange(0, s@.len() as int) =~= s@);
    while i < s.len() && s[i] == c
        invariant
            i <= s@.len(),
            trim_start_char(s@.subrange(i as int, s@.len() as int), c) == trim_start_char(s@, c),
        decreases s.len() - i,
    {
        assert(s@.subrange(i as int, s@.len() as int).drop_first() =~= s@.subrange(i + 1, s@.len() as int));
        i = i + 1;
    }
    sub_chars(s, i, s.len())
}

/// The value given last for `key`.
fn find_param(ps: &Params, key: &str) -> (r: Option<Vec<char>>)
    ensures
        match r {
            Some(v) => lookup(params_view(*ps), key@) == Some(v@),
            None => lookup(params_view(*ps), key@) is None,
        },
{
    let k = to_chars(key);
    let mut i: usize = ps.pairs.len();
    assert(params_view(*ps).subrange(0, i as int) =~= params_view(*ps));
    while i > 0
        invariant
            i <= ps.pairs@.len(),
            k@ == key@,
            lookup(params_view(*ps), key@) == lookup(params_view(*ps).subrange(0, i as int), key@),
        decreases i,
    {
        let ghost sub = params_view(*ps).subrange(0, i as int);
        if chars_eq(ps.pairs[i - 1].0.as_slice(), k.as_slice()) {
            let v = sub_chars(ps.pairs[i - 1].1.as_slice(), 0, ps.pairs[i - 1].1.len());
            assert(ps.pairs[i - 1].1@.subrange(0, ps.pairs[i - 1].1@.len() as int) =~= ps.pairs[i - 1].1@);
            return Some(v);
        }
        assert(sub.drop_last() =~= params_view(*ps).subrange(0, i - 1));
        i = i - 1;
    }
    assert(params_view(*ps).subrange(0, 0) =~= Seq::<(Seq<char>, Seq<char>)>::empty());
    None
}

/// The integer under `key`, or `default`.
pub fn get_i16(ps: &Params, key: &str, default: i16) -> (r: i16)
    ensures
        r == arg_i16(params_view(*ps), key@, default),
{
    match find_param(ps, key) {
        Some(v) => match parse_i16_chars(v.as_slice()) {
            Some(x) => x,
            None => default,
        },
        None => default,
    }
}

/// The integer under `key`, or `default`.
pub fn get_u8(ps: &Params, key: &str, default: u8) -> (r: u8)
    ensures
        r == arg_u8(params_view(*ps), key@, default),
{
    match find_param(ps, key) {
        Some(v) => match parse_u8_chars(v.as_slice()) {
            Some(x) => x,
            None => default,
        },
        None => default,
    }
}

/// The text under `key`, empty when absent.
pub fn get_str(ps: &Params, key: &str) -> (r: String)
    ensures
        r@ == arg_str(params_view(*ps), key@),
{
    match find_param(ps, key) {
        Some(v) => string_from_chars(v.as_slice()),
        None => string_from_chars(&[]),
    }
}

/// The names under `key`.
pub fn get_names(ps: &Params, key: &str) -> (r: Vec<String>)
    ensures
        r@.map_values(|s: String| s@) == arg_names(params_view(*ps), key@),
{
    let mut out: Vec<String> = Vec::new();
    match find_param(ps, key) {
        None => {
            assert(out@.map_values(|s: String| s@) =~= Seq::<Seq<char>>::empty());
            out
        },
        Some(v) => {
            let a = trim_start_char_exec(v.as_slice(), '(');
            let a = trim_end_char_exec(a.as_slice(), '(');
            let b = trim_start_char_exec(a.as_slice(), ')');
            let b = trim_end_char_exec(b.as_slice(), ')');
            let parts = split_chars(b.as_slice(), ',');
            let ghost want = split(b@, ',').map_values(|t: Seq<char>| trim(t));
            assert(out@.map_values(|s: String| s@) =~= want.subrange(0, 0));
            let mut i: usize = 0;
            while i < parts.len()
                invariant
                    i <= parts@.len(),
                    views(parts@) == split(b@, ','),
                    want == split(b@, ',').map_values(|t: Seq<char>| trim(t)),
                    out@.map_values(|s: String| s@) == want.subrange(0, i as int),
                decreases parts.len() - i,
            {
                let t = trim_chars(parts[i].as_slice());
                assert(parts@[i as int]@ == views(parts@)[i as int]);
                assert(want[i as int] == trim(split(b@, ',')[i as int]));
                let ghost before = out@.map_values(|s: String| s@);
                let st = string_from_chars(t.as_slice());
                out.push(st);
                assert(out@.map_values(|s: String| s@) =~= before.push(st@));
                i = i + 1;
                assert(out@.map_values(|s: String| s@) =~= want.subrange(0, i as int));
            }
            assert(want.subrange(0, want.len() as int) =~= want);
            out
        },
    }
}

/// The pair (or nothing) that token `t` at position `idx` gives.
fn parse_token(t0: &[char], idx: usize) -> (r: Option<(Vec<char>, Vec<char>)>)
    ensures
        ({
            let t = trim(t0@);
            match r {
                Some(kv) => match first_index(t, '=') {
                    Some(e) => kv.0@ == trim(t.subrange(0, e)) && kv.1@ == trim(t.subrange(e + 1, t.len() as int)),
                    None => t.len() > 0 && kv.0@ == positional_key(idx as int) && kv.1@ == t,
                },
                None => first_index(t, '=') is None && t.len() == 0,
            }
        }),
{
    let t = trim_chars(t0);
    let n = t.len();
    match find_char(t.as_slice(), '=') {
        Some(e) => {
            let k = trim_chars(sub_chars(t.as_slice(), 0, e).as_slice());
            let v = trim_chars(sub_chars(t.as_slice(), e + 1, n).as_slice());
            Some((k, v))
        },
        None => {
            if t.len() == 0 {
                return None;
            }
            let key = if idx == 0 {
                "amount"
            } else if idx == 1 {
                "count"
            } else if idx == 2 {
                "per"
            } else if idx == 3 {
                "bonus"
            } else if idx == 4 {
                "threshold"
            } else {
                "arg"
            };
            Some((to_chars(key), t))
        },
    }
}

/// The parameters written in `args`.
pub fn parse_args(args: &[char]) -> (r: Params)
    ensures
        params_view(r) == params_of(args@),
{
    let t = trim_chars(args);
    let a = trim_end_char_exec(t.as_slice(), ')');
    let mut ps = Params { pairs: Vec::new() };
    if a.len() == 0 {
        assert(params_view(ps) =~= Seq::<(Seq<char>, Seq<char>)>::empty());
        return ps;
    }
    let toks = split_chars(a.as_slice(), ',');
    let mut i: usize = 0;
    while i < toks.len()
        invariant
            i <= toks@.len(),
            views(toks@) == split(a@, ','),
            params_view(ps) == entries(views(toks@).subrange(0, i as int)),
        decreases toks.len() - i,
    {
        let ghost before = params_view(ps);
        let ghost sub = views(toks@).subrange(0, i + 1);
        assert(sub.drop_last() =~= views(toks@).subrange(0, i as int));
        assert(sub.last() == toks@[i as int]@);
        match parse_token(toks[i].as_slice(), i) {
            Some(kv) => {
                ps.pairs.push(kv);
                assert(params_view(ps) =~= before.push((kv.0@, kv.1@)));
            },
            None => {},
        }
        i = i + 1;
    }
    assert(views(toks@).subrange(0, toks@.len() as int) =~= views(toks@));
    ps
}

/// What `split_top_level` keeps track of while scanning: the parts done,
/// the part being read, and the parenthesis depth.
pub open spec fn scan(s: Seq<char>) -> (Seq<Seq<char>>, Seq<char>, nat)
    decreases s.len(),
{
    if s.len() == 0 {
        (Seq::empty(), Seq::empty(), 0)
    } else {
        let st = scan(s.drop_last());
        let parts = st.0;
        let cur = st.1;
        let d = st.2;
        let ch = s.last();
        if ch == '(' {
            (parts, cur.push(ch), d + 1)
        } else if ch == ')' {
            (parts, cur.push(ch), if d == 0 { 0 } else { (d - 1) as nat })
        } else if ch == '|' && d == 0 {
            (parts.push(trim(cur)), Seq::empty(), d)
        } else {
            (parts, cur.push(ch), d)
        }
    }
}

/// The effects of `s`, split at the `|` outside parentheses and trimmed; a
/// blank last part is dropped.
pub open spec fn split_top(s: Seq<char>) -> Seq<Seq<char>> {
    let st = scan(s);
    if trim(st.1).len() > 0 {
        st.0.push(trim(st.1))
    } else {
        st.0
    }
}

/// Splits `s` at the `|` characters outside parentheses.
pub fn split_top_level(s: &[char]) -> (r: Vec<Vec<char>>)
    ensures
        views(r@) == split_top(s@),
{
    let mut parts: Vec<Vec<char>> = Vec::new();
    let mut cur: Vec<char> = Vec::new();
    let mut depth: usize = 0;
    let mut i: usize = 0;
    while i < s.len()
        invariant
            i <= s@.len(),
            depth <= i,
            (views(parts@), cur@, depth as nat) == scan(s@.subrange(0, i as int)),
        decreases s.len() - i,
    {
        let ch = s[i];
        assert(s@.subrange(0, i + 1).drop_last() =~= s@.subrange(0, i as int));
        if ch == '(' {
            depth = depth + 1;
            cur.push(ch);
        } else if ch == ')' {
            depth = if depth == 0 { 0 } else { depth - 1 };
            cur.push(ch);
        } else if ch == '|' && depth == 0 {
            let t = trim_chars(cur.as_slice());
            parts.push(t);
            cur = Vec::new();
            assert(views(parts@) =~= scan(s@.subrange(0, i + 1)).0);
        } else {
            cur.push(ch);
        }
        i = i + 1;
    }
    assert(s@.subrange(0, s@.len() as int) =~= s@);
    let t = trim_chars(cur.as_slice());
    if t.len() > 0 {
        parts.push(t);
        assert(views(parts@) =~= split_top(s@));
    }
    parts
}

/// The effect name in `s`: what stands before the first parenthesis,
/// trimmed, or all of `s`.
pub open spec fn name_of(s: Seq<char>) -> Seq<char> {
    match first_index(s, '(') {
        Some(p) => trim(s.subrange(0, p)),
        None => s,
    }
}

/// What follows the first parenthesis of `s` (nothing without one).
pub open spec fn args_part(s: Seq<char>) -> Seq<char> {
    match first_index(s, '(') {
        Some(p) => s.subrange(p + 1, s.len() as int),
        None => Seq::empty(),
    }
}

/// Reads one effect such as `heal_self(amount=30)`; an unknown name gives
/// `None`.
pub fn parse_single_effect(s: &[char]) -> (r: Option<EffectKind>)
    ensures
        r is Some <==> effect_known(name_of(s@)),
        r matches Some(e) ==> effect_parsed(e, name_of(s@), params_of(args_part(s@))),
{
    proof {
        lemma_first_index_range(s@, '(');
    }
    let n = s.len();
    let (name, args) = match find_char(s, '(') {
        Some(p) => (trim_chars(sub_chars(s, 0, p).as_slice()), sub_chars(s, p + 1, n)),
        None => (sub_chars(s, 0, n), Vec::new()),
    };
    assert(s@.subrange(0, s@.len() as int) =~= s@);
    assert(name@ == name_of(s@));
    assert(args@ =~= args_part(s@));
    let ps = parse_args(args.as_slice());
    parse_named_effect(name.as_slice(), &ps)
}

/// The parts of a handler string that name a known effect, in order.
pub open spec fn known_parts(parts: Seq<Seq<char>>) -> Seq<Seq<char>>
    decreases parts.len(),
{
    if parts.len() == 0 {
        Seq::empty()
    } else if effect_known(name_of(trim(parts.last()))) {
        known_parts(parts.drop_last()).push(parts.last())
    } else {
        known_parts(parts.drop_last())
    }
}

/// `effs` is what the handler string `s` reads as: its effects separated by
/// top-level `|`, each read as by `parse_single_effect`, unknown ones skipped.
pub open spec fn handler_parsed(effs: Seq<EffectKind>, s: Seq<char>) -> bool {
    let kp = if s.len() == 0 { Seq::empty() } else { known_parts(split_top(s)) };
    &&& effs.len() == kp.len()
    &&& forall|i: int| 0 <= i < effs.len() ==> effect_parsed(
        #[trigger] effs[i],
        name_of(trim(kp[i])),
        params_of(args_part(trim(kp[i]))),
    )
}

/// Reads a handler string: the effects separated by top-level `|`, each
/// read as by `parse_single_effect`; unknown effects are skipped.
pub fn parse_handler_string(s: &str) -> (r: Vec<EffectKind>)
    ensures
        handler_parsed(r@, s@),
{
    let chars = to_chars(s);
    let mut out: Vec<EffectKind> = Vec::new();
    if chars.len() == 0 {
        return out;
    }
    let parts = split_top_level(chars.as_slice());
    let mut i: usize = 0;
    while i < parts.len()
        invariant
            i <= parts@.len(),
            chars@ == s@,
            views(parts@) == split_top(s@),
            out@.len() == known_parts(views(parts@).subrange(0, i as int)).len(),
            forall|j: int| 0 <= j < out@.len() ==> effect_parsed(
                #[trigger] out@[j],
                name_of(trim(known_parts(views(parts@).subrange(0, i as int))[j])),
                params_of(args_part(trim(known_parts(views(parts@).subrange(0, i as int))[j]))),
            ),
        decreases parts.len() - i,
    {
        let ghost sub = views(parts@).subrange(0, i + 1);
        assert(sub.drop_last() =~= views(parts@).subrange(0, i as int));
        assert(sub.last() == parts@[i as int]@);
        let t = trim_chars(parts[i].as_slice());
        match parse_single_effect(t.as_slice()) {
            Some(e) => {
                out.push(e);
            },
            None => {},
        }
        i = i + 1;
    }
    assert(views(parts@).subrange(0, parts@.len() as int) =~= views(parts@));
    out
}

}
