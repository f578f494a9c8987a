//! Picking cards out of a player's piles.
use vstd::prelude::*;
use crate::card::{CardDb, CardFilter};
use crate::rng::random_index;
use crate::state::{GameState, GameView, Pile};

verus! {

/// Some card of `s` passes `f`.
pub open spec fn has_match(s: Seq<u16>, db: CardDb, f: CardFilter) -> bool {
    exists|i: int| 0 <= i < s.len() && #[trigger] db.matches(s[i], f)
}

/// Position of the first card of `s` that passes `f`.
pub open spec fn first_match(s: Seq<u16>, db: CardDb, f: CardFilter) -> Option<int> {
    if has_match(s, db, f) {
        Some(choose|i: int| 0 <= i < s.len() && db.matches(s[i], f) && forall|j: int| 0 <= j < i ==> !#[trigger] db.matches(s[j], f))
    } else {
        None
    }
}

/// Below any matching position there is a first matching position.
proof fn lemma_least_match(s: Seq<u16>, db: CardDb, f: CardFilter, w: int)
    requires
        0 <= w < s.len(),
        db.matches(s[w], f),
    ensures
        exists|i: int| 0 <= i < s.len() && db.matches(s[i], f) && forall|j: int| 0 <= j < i ==> !#[trigger] db.matches(s[j], f),
    decreases w,
{
    if exists|j: int| 0 <= j < w && #[trigger] db.matches(s[j], f) {
        let j = choose|j: int| 0 <= j < w && #[trigger] db.matches(s[j], f);
        lemma_least_match(s, db, f, j);
    } else {
        assert(forall|j: int| 0 <= j < w ==> !#[trigger] db.matches(s[j], f));
    }
}

/// The first matching position, when there is one, is a position of `s`
/// whose card matches.
pub proof fn lemma_first_match_in_range(s: Seq<u16>, db: CardDb, f: CardFilter)
    ensures
        match first_match(s, db, f) {
            Some(i) => 0 <= i < s.len() && db.matches(s[i], f),
            None => !has_match(s, db, f),
        },
{
    if has_match(s, db, f) {
        let w = choose|i: int| 0 <= i < s.len() && #[trigger] db.matches(s[i], f);
        lemma_least_match(s, db, f, w);
    }
}

/// `g1` is `g0` after one card that passes `f` moved from pile `from` to
/// pile `to` of player `p`, or `g0` itself when no card passes.
pub open spec fn took_match(g0: GameView, g1: GameView, p: int, from: Pile, to: Pile, db: CardDb, f: CardFilter) -> bool {
    if has_match(g0.pile(p, from), db, f) {
        exists|i: int|
            0 <= i < g0.pile(p, from).len() && #[trigger] db.matches(g0.pile(p, from)[i], f) && g1 == g0.move_card(p, from, i, to)
    } else {
        g1 == g0
    }
}

/// The positions in pile `k` of player `p` whose card passes `f`, in order.
pub fn positions_matching(state: &GameState, p: usize, k: Pile, db: &CardDb, f: &CardFilter) -> (r: Vec<usize>)
    requires
        p < 2,
    ensures
        forall|j: int| 0 <= j < r@.len() ==> #[trigger] r@[j] < state@.pile(p as int, k).len(),
        forall|j: int| 0 <= j < r@.len() ==> db.matches(state@.pile(p as int, k)[#[trigger] r@[j] as int], *f),
        forall|a: int, b: int| 0 <= a < b < r@.len() ==> r@[a] < r@[b],
        forall|i: int| 0 <= i < state@.pile(p as int, k).len() && #[trigger] db.matches(state@.pile(p as int, k)[i], *f)
            ==> r@.contains(i as usize),
{
    let n = state.pile_len(p, k);
    let mut r: Vec<usize> = Vec::new();
    let mut i: usize = 0;
    while i < n
        invariant
            p < 2,
            n == state@.pile(p as int, k).len(),
            i <= n,
            forall|j: int| 0 <= j < r@.len() ==> #[trigger] r@[j] < i,
            forall|j: int| 0 <= j < r@.len() ==> db.matches(state@.pile(p as int, k)[#[trigger] r@[j] as int], *f),
            forall|a: int, b: int| 0 <= a < b < r@.len() ==> r@[a] < r@[b],
            forall|x: int| 0 <= x < i && #[trigger] db.matches(state@.pile(p as int, k)[x], *f) ==> r@.contains(x as usize),
        decreases n - i,
    {
        let c = state.pile_card(p, k, i);
        if db.card_matches(c, f) {
            let ghost old_r = r@;
            r.push(i);
            proof {
                assert forall|x: int| 0 <= x < i + 1 && #[trigger] db.matches(state@.pile(p as int, k)[x], *f) implies r@.contains(x as usize) by {
                    if x < i {
                        let w = choose|w: int| 0 <= w < old_r.len() && old_r[w] == x as usize;
                        assert(r@[w] == x as usize);
                    } else {
                        assert(r@[old_r.len() as int] == i);
                    }
                }
            }
        }
        i = i + 1;
    }
    r
}

/// Moves one card that passes `f`, picked at random, from pile `from` to
/// pile `to` of player `p`.  Returns whether a card moved.
pub fn move_random_match(state: &mut GameState, p: usize, from: Pile, to: Pile, db: &CardDb, f: &CardFilter) -> (r: bool)
    requires
        p < 2,
        from != to,
    ensures
        r == has_match(old(state)@.pile(p as int, from), *db, *f),
        took_match(old(state)@, final(state)@, p as int, from, to, *db, *f),
{
    let positions = positions_matching(state, p, from, db, f);
    if positions.len() == 0 {
        proof {
            if has_match(old(state)@.pile(p as int, from), *db, *f) {
                let i = choose|i: int| 0 <= i < old(state)@.pile(p as int, from).len() && #[trigger] db.matches(old(state)@.pile(p as int, from)[i], *f);
                assert(positions@.contains(i as usize));
            }
        }
        return false;
    }
    let k = random_index(&mut state.rng, positions.len());
    let pos = positions[k];
    assert(db.matches(old(state)@.pile(p as int, from)[pos as int], *f));
    state.move_card(p, from, pos, to);
    true
}

/// Moves the first card that passes `f` from pile `from` to pile `to` of
/// player `p`.  Returns whether a card moved.
pub fn move_first_match(state: &mut GameState, p: usize, from: Pile, to: Pile, db: &CardDb, f: &CardFilter) -> (r: bool)
    requires
        p < 2,
        from != to,
    ensures
        r == has_match(old(state)@.pile(p as int, from), *db, *f),
        match first_match(old(state)@.pile(p as int, from), *db, *f) {
            Some(i) => 0 <= i < old(state)@.pile(p as int, from).len() && db.matches(old(state)@.pile(p as int, from)[i], *f)
                && final(state)@ == old(state)@.move_card(p as int, from, i, to),
            None => final(state)@ == old(state)@,
        },
{
    let ghost s = state@.pile(p as int, from);
    let n = state.pile_len(p, from);
    let mut i: usize = 0;
    while i < n
        invariant
            p < 2,
            from != to,
            n == s.len(),
            s == state@.pile(p as int, from),
            state@ == old(state)@,
            i <= n,
            forall|j: int| 0 <= j < i ==> !#[trigger] db.matches(s[j], *f),
        decreases n - i,
    {
        let c = state.pile_card(p, from, i);
        if db.card_matches(c, f) {
            proof {
                assert(has_match(s, *db, *f));
                let w = first_match(s, *db, *f)->0;
                assert(0 <= w < s.len() && db.matches(s[w], *f));
                if w < i {
                    assert(!db.matches(s[w], *f));
                }
                if w > i {
                    assert(!db.matches(s[i as int], *f));
                }
                assert(w == i);
            }
            state.move_card(p, from, i, to);
            return true;
        }
        i = i + 1;
    }
    proof {
        if has_match(s, *db, *f) {
            let w = choose|w: int| 0 <= w < s.len() && #[trigger] db.matches(s[w], *f);
            assert(!db.matches(s[w], *f));
        }
    }
    false
}

}

verus! {

/// The game after the cards at positions `picks` (each position taken in
/// the pile as it stands at that moment) move one by one from pile `from` to
/// pile `to` of player `p`.
pub open spec fn apply_moves(g0: GameView, p: int, from: Pile, to: Pile, picks: Seq<int>) -> GameView
    decreases picks.len(),
{
    if picks.len() == 0 {
        g0
    } else {
        apply_moves(g0, p, from, to, picks.drop_last()).move_card(p, from, picks.last(), to)
    }
}

/// Every position in `picks` names a card of the pile when its move comes.
pub open spec fn valid_picks(g0: GameView, p: int, from: Pile, to: Pile, picks: Seq<int>) -> bool
    decreases picks.len(),
{
    picks.len() == 0 || (valid_picks(g0, p, from, to, picks.drop_last()) && 0 <= picks.last()
        < apply_moves(g0, p, from, to, picks.drop_last()).pile(p, from).len())
}

/// `g1` is `g0` after `n` cards, each picked at random, moved one at a time
/// from pile `from` to pile `to` of player `p`; the moves stop early when
/// `from` runs out.
pub open spec fn random_moves(g0: GameView, g1: GameView, p: int, from: Pile, to: Pile, n: nat) -> bool {
    exists|picks: Seq<int>|
        #[trigger] valid_picks(g0, p, from, to, picks)
            && picks.len() == (if n < g0.pile(p, from).len() { n as int } else { g0.pile(p, from).len() as int })
            && g1 == apply_moves(g0, p, from, to, picks)
}

/// Each move takes one card off pile `from`.
proof fn lemma_moves_shrink(g0: GameView, p: int, from: Pile, to: Pile, picks: Seq<int>)
    requires
        0 <= p < 2,
        g0.players.len() == 2,
        from != to,
        valid_picks(g0, p, from, to, picks),
    ensures
        apply_moves(g0, p, from, to, picks).pile(p, from).len() == g0.pile(p, from).len() - picks.len(),
        apply_moves(g0, p, from, to, picks).players.len() == 2,
    decreases picks.len(),
{
    if picks.len() > 0 {
        lemma_moves_shrink(g0, p, from, to, picks.drop_last());
    }
}

/// Moves up to `n` random cards, one at a time, from pile `from` to pile `to`
/// of player `p`, stopping when `from` runs out.
pub fn move_random_cards(state: &mut GameState, p: usize, from: Pile, to: Pile, n: u8)
    requires
        p < 2,
        from != to,
    ensures
        random_moves(old(state)@, final(state)@, p as int, from, to, n as nat),
{
    let ghost g0 = state@;
    let ghost mut picks: Seq<int> = Seq::empty();
    let mut i: u8 = 0;
    while i < n
        invariant
            p < 2,
            from != to,
            i <= n,
            g0 == old(state)@,
            g0.players.len() == 2,
            picks.len() == i,
            valid_picks(g0, p as int, from, to, picks),
            state@ == apply_moves(g0, p as int, from, to, picks),
        ensures
            i <= n,
            picks.len() == i,
            valid_picks(g0, p as int, from, to, picks),
            state@ == apply_moves(g0, p as int, from, to, picks),
            i == n || state@.pile(p as int, from).len() == 0,
        decreases n - i,
    {
        let len = state.pile_len(p, from);
        if len == 0 {
            break;
        }
        let k = random_index(&mut state.rng, len);
        state.move_card(p, from, k, to);
        proof {
            let np = picks.push(k as int);
            assert(np.drop_last() =~= picks);
            picks = np;
        }
        i = i + 1;
    }
    proof {
        lemma_moves_shrink(g0, p as int, from, to, picks);
    }
}

}
