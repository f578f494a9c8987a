//! Card-moving effects keep every player's cards: they move cards between a
//! player's hand, deck and discard pile and reorder them, and never create
//! or destroy one.
use vstd::prelude::*;
use crate::card::{CardDb, CardFilter};
use crate::effects::dispatch::{draw_post, is_draw_effect};
use crate::effects::draw_handlers::{searched_first, searched_random, shuffled_in};
use crate::effects::search::{apply_moves, first_match, has_match, random_moves, took_match, valid_picks};
use crate::effects::{EffectContext, EffectKind};
use crate::state::{GameView, Pile, PlayerView, lemma_move_card_conserves, lemma_reorder_conserves};
use vstd::multiset::Multiset;

verus! {

/// `g1` holds, for each player, the same cards as `g0` (hand, deck and
/// discard together), and has the shape of a game.
pub open spec fn cards_kept(g0: GameView, g1: GameView) -> bool {
    &&& g1.wf()
    &&& g1.players[0].cards() == g0.players[0].cards()
    &&& g1.players[1].cards() == g0.players[1].cards()
}

proof fn lemma_move_card_kept(g: GameView, p: int, from: Pile, to: Pile, i: int)
    requires
        g.wf(),
        0 <= p < 2,
        from != to,
        0 <= i < g.pile(p, from).len(),
    ensures
        cards_kept(g, g.move_card(p, from, i, to)),
{
    lemma_move_card_conserves(g, p, from, to, i);
}

proof fn lemma_reorder_kept(g1: GameView, g2: GameView, p: int, k: Pile)
    requires
        g1.wf(),
        0 <= p < 2,
        g1.reordered(g2, p, k),
    ensures
        cards_kept(g1, g2),
{
    lemma_reorder_conserves(g1, g2, p, k);
}

/// Drawing once keeps every player's cards.
proof fn lemma_draw_one_kept(g: GameView, p: int)
    requires
        g.wf(),
        0 <= p < 2,
    ensures
        cards_kept(g, g.draw_one(p)),
{
    let d = g.pile(p, Pile::Deck);
    if d.len() > 0 {
        lemma_move_card_kept(g, p, Pile::Deck, Pile::Hand, d.len() - 1);
    }
}

/// Drawing `n` times keeps every player's cards, and moves as many cards
/// as the deck allows, at most `n`, from the deck to the hand.
pub proof fn lemma_draw_n_kept(g: GameView, p: int, n: nat)
    requires
        g.wf(),
        0 <= p < 2,
    ensures
        cards_kept(g, g.draw_n(p, n)),
        ({
            let k = if n < g.pile(p, Pile::Deck).len() { n as int } else { g.pile(p, Pile::Deck).len() as int };
            &&& g.draw_n(p, n).pile(p, Pile::Hand).len() == g.pile(p, Pile::Hand).len() + k
            &&& g.draw_n(p, n).pile(p, Pile::Deck).len() == g.pile(p, Pile::Deck).len() - k
        }),
    decreases n,
{
    if n > 0 {
        lemma_draw_n_kept(g, p, (n - 1) as nat);
        let h = g.draw_n(p, (n - 1) as nat);
        lemma_draw_one_kept(h, p);
    }
}

/// Moving a whole pile onto another keeps every player's cards.
proof fn lemma_move_all_kept(g: GameView, p: int, from: Pile, to: Pile)
    requires
        g.wf(),
        0 <= p < 2,
        from != to,
    ensures
        cards_kept(g, g.move_all(p, from, to)),
{
    broadcast use vstd::seq_lib::group_to_multiset_ensures;
    let h = g.move_all(p, from, to);
    let a = g.pile(p, from);
    let b = g.pile(p, to);
    vstd::seq_lib::lemma_multiset_commutative(b, a);
    assert(Seq::<u16>::empty().to_multiset() =~= Multiset::empty());
    assert(h.players[p].cards() =~= g.players[p].cards());
    assert(h.players[1 - p] == g.players[1 - p]);
    assert forall|q: int| 0 <= q < 2 implies #[trigger] h.players[q].bench.len() == 3 by {
        assert(g.players[q].bench.len() == 3);
    }
}

/// Shuffling the hand into the deck keeps every player's cards.
proof fn lemma_shuffled_in_kept(g0: GameView, g1: GameView, p: int)
    requires
        g0.wf(),
        0 <= p < 2,
        shuffled_in(g0, g1, p),
    ensures
        cards_kept(g0, g1),
{
    let m = g0.move_all(p, Pile::Hand, Pile::Deck);
    lemma_move_all_kept(g0, p, Pile::Hand, Pile::Deck);
    lemma_reorder_kept(m, g1, p, Pile::Deck);
}

/// Taking a matching card keeps every player's cards.
proof fn lemma_took_match_kept(g0: GameView, g1: GameView, p: int, from: Pile, to: Pile, db: CardDb, f: CardFilter)
    requires
        g0.wf(),
        0 <= p < 2,
        from != to,
        took_match(g0, g1, p, from, to, db, f),
    ensures
        cards_kept(g0, g1),
{
    if has_match(g0.pile(p, from), db, f) {
        let i = choose|i: int|
            0 <= i < g0.pile(p, from).len() && #[trigger] db.matches(g0.pile(p, from)[i], f) && g1 == g0.move_card(p, from, i, to);
        lemma_move_card_kept(g0, p, from, to, i);
    }
}

/// A random search keeps every player's cards.
proof fn lemma_searched_random_kept(
    g0: GameView,
    g2: GameView,
    p: int,
    from: Pile,
    to: Pile,
    db: CardDb,
    f: CardFilter,
    shuffle: bool,
)
    requires
        g0.wf(),
        0 <= p < 2,
        from != to,
        searched_random(g0, g2, p, from, to, db, f, shuffle),
    ensures
        cards_kept(g0, g2),
{
    let g1 = choose|g1: GameView|
        #[trigger] took_match(g0, g1, p, from, to, db, f) && if shuffle && has_match(g0.pile(p, from), db, f) {
            g1.reordered(g2, p, Pile::Deck)
        } else {
            g2 == g1
        };
    lemma_took_match_kept(g0, g1, p, from, to, db, f);
    if shuffle && has_match(g0.pile(p, from), db, f) {
        lemma_reorder_kept(g1, g2, p, Pile::Deck);
    }
}

/// A search for the first matching card keeps every player's cards.
proof fn lemma_searched_first_kept(g0: GameView, g2: GameView, p: int, db: CardDb, f: CardFilter)
    requires
        g0.wf(),
        0 <= p < 2,
        searched_first(g0, g2, p, db, f),
    ensures
        cards_kept(g0, g2),
{
    match first_match(g0.pile(p, Pile::Deck), db, f) {
        Some(i) => {
            crate::effects::search::lemma_first_match_in_range(g0.pile(p, Pile::Deck), db, f);
            lemma_move_card_kept(g0, p, Pile::Deck, Pile::Hand, i);
            lemma_reorder_kept(g0.move_card(p, Pile::Deck, i, Pile::Hand), g2, p, Pile::Deck);
        },
        None => {},
    }
}

/// A run of moves keeps every player's cards.
proof fn lemma_apply_moves_kept(g0: GameView, p: int, from: Pile, to: Pile, picks: Seq<int>)
    requires
        g0.wf(),
        0 <= p < 2,
        from != to,
        valid_picks(g0, p, from, to, picks),
    ensures
        cards_kept(g0, apply_moves(g0, p, from, to, picks)),
    decreases picks.len(),
{
    if picks.len() > 0 {
        lemma_apply_moves_kept(g0, p, from, to, picks.drop_last());
        let h = apply_moves(g0, p, from, to, picks.drop_last());
        lemma_move_card_kept(h, p, from, to, picks.last());
    }
}

/// Random moves keep every player's cards.
proof fn lemma_random_moves_kept(g0: GameView, g1: GameView, p: int, from: Pile, to: Pile, n: nat)
    requires
        g0.wf(),
        0 <= p < 2,
        from != to,
        random_moves(g0, g1, p, from, to, n),
    ensures
        cards_kept(g0, g1),
{
    let picks = choose|picks: Seq<int>|
        #[trigger] valid_picks(g0, p, from, to, picks) && picks.len() == (if n < g0.pile(p, from).len() {
            n as int
        } else {
            g0.pile(p, from).len() as int
        }) && g1 == apply_moves(g0, p, from, to, picks);
    lemma_apply_moves_kept(g0, p, from, to, picks);
}

/// Discarding the top card of the deck keeps every player's cards.
proof fn lemma_discard_top_kept(g0: GameView, g1: GameView, p: int)
    requires
        g0.wf(),
        0 <= p < 2,
        ({
            let d = g0.pile(p, Pile::Deck);
            if d.len() == 0 {
                g1 == g0
            } else {
                let x = g0.with_pile(p, Pile::Deck, d.subrange(0, d.len() - 1));
                g1 == x.with_pile(p, Pile::Discard, x.pile(p, Pile::Discard) + d.subrange(d.len() - 1, d.len() as int))
            }
        }),
    ensures
        cards_kept(g0, g1),
{
    let d = g0.pile(p, Pile::Deck);
    if d.len() > 0 {
        let x = g0.with_pile(p, Pile::Deck, d.subrange(0, d.len() - 1));
        assert(d.subrange(d.len() - 1, d.len() as int) =~= seq![d[d.len() - 1]]);
        assert(x.pile(p, Pile::Discard) + seq![d[d.len() - 1]] =~= x.pile(p, Pile::Discard).push(d[d.len() - 1]));
        assert(d.subrange(0, d.len() - 1) =~= d.remove(d.len() - 1));
        assert(g1 == g0.move_card(p, Pile::Deck, d.len() - 1, Pile::Discard));
        lemma_move_card_kept(g0, p, Pile::Deck, Pile::Discard, d.len() - 1);
    }
}

/// Every card-moving effect (drawing, shuffling, searching, discarding
/// from a hand or deck, looking at cards) keeps, for both players, the
/// cards they hold across hand, deck and discard pile.
pub proof fn lemma_card_effects_keep_cards(e: EffectKind, g0: GameView, g1: GameView, ctx: EffectContext, db: CardDb)
    requires
        g0.wf(),
        ctx.acting_player < 2,
        is_draw_effect(e),
        draw_post(e, g0, g1, ctx, db),
    ensures
        cards_kept(g0, g1),
{
    reveal(draw_post);
    let a = ctx.acting_player as int;
    let o = 1 - a;
    match e {
        EffectKind::DrawCards { count } => lemma_draw_n_kept(g0, a, count as nat),
        EffectKind::DrawOneCard => lemma_draw_n_kept(g0, a, 1),
        EffectKind::DrawBasicPokemon | EffectKind::SearchDeckRandomPokemon | EffectKind::SearchDeckGrassPokemon
        | EffectKind::SearchDeckRandomBasic => {
            let f = match e {
                EffectKind::DrawBasicPokemon | EffectKind::SearchDeckRandomBasic => CardFilter::BasicPokemon,
                EffectKind::SearchDeckRandomPokemon => CardFilter::Pokemon,
                _ => CardFilter::PokemonOfElement(crate::types::Element::Grass),
            };
            lemma_searched_random_kept(g0, g1, a, Pile::Deck, Pile::Hand, db, f, true);
        },
        EffectKind::IonoHandShuffle => {
            let na = g0.pile(a, Pile::Hand).len() as u8;
            let no = g0.pile(o, Pile::Hand).len() as u8;
            let (x, y) = choose|x: GameView, y: GameView|
                #[trigger] shuffled_in(g0, x, a) && #[trigger] shuffled_in(x, y, o) && g1 == y.draw_n(a, na as nat).draw_n(
                    o,
                    no as nat,
                );
            lemma_shuffled_in_kept(g0, x, a);
            lemma_shuffled_in_kept(x, y, o);
            lemma_draw_n_kept(y, a, na as nat);
            lemma_draw_n_kept(y.draw_n(a, na as nat), o, no as nat);
        },
        EffectKind::MarsHandShuffle => {
            let pts = g0.players[o].points;
            let n: nat = if pts >= crate::constants::POINTS_TO_WIN { 0 } else { (crate::constants::POINTS_TO_WIN - pts) as nat };
            let x = choose|x: GameView| #[trigger] shuffled_in(g0, x, o) && g1 == x.draw_n(o, n);
            lemma_shuffled_in_kept(g0, x, o);
            lemma_draw_n_kept(x, o, n);
        },
        EffectKind::ShuffleHandIntoDeck => lemma_shuffled_in_kept(g0, g1, a),
        EffectKind::ShuffleHandDrawOpponentCount => {
            let n = g0.pile(o, Pile::Hand).len() as u8;
            let x = choose|x: GameView| #[trigger] shuffled_in(g0, x, a) && g1 == x.draw_n(a, n as nat);
            lemma_shuffled_in_kept(g0, x, a);
            lemma_draw_n_kept(x, a, n as nat);
        },
        EffectKind::DiscardToDraw { count } => {
            let x = choose|x: GameView|
                #[trigger] random_moves(g0, x, a, Pile::Hand, Pile::Discard, count as nat) && g1 == x.draw_n(a, count as nat);
            lemma_random_moves_kept(g0, x, a, Pile::Hand, Pile::Discard, count as nat);
            lemma_draw_n_kept(x, a, count as nat);
        },
        EffectKind::OpponentShuffleHandDraw { count } => {
            let x = choose|x: GameView| #[trigger] shuffled_in(g0, x, o) && g1 == x.draw_n(o, count as nat);
            lemma_shuffled_in_kept(g0, x, o);
            lemma_draw_n_kept(x, o, count as nat);
        },
        EffectKind::SearchDeckNamedBasic { name } => {
            let n = choose|n: String| n@ == name@ && #[trigger] searched_first(g0, g1, a, db, CardFilter::NamedBasic(n));
            lemma_searched_first_kept(g0, g1, a, db, CardFilter::NamedBasic(n));
        },
        EffectKind::SearchDeckEvolvesFrom { name } => {
            let n = choose|n: String|
                n@ == name@ && #[trigger] searched_random(g0, g1, a, Pile::Deck, Pile::Hand, db, CardFilter::EvolvesFrom(n), true);
            lemma_searched_random_kept(g0, g1, a, Pile::Deck, Pile::Hand, db, CardFilter::EvolvesFrom(n), true);
        },
        EffectKind::SearchDeckNamed { name } => {
            let n = choose|n: String| n@ == name@ && #[trigger] searched_first(g0, g1, a, db, CardFilter::Named(n));
            lemma_searched_first_kept(g0, g1, a, db, CardFilter::Named(n));
        },
        EffectKind::SearchDiscardRandomBasic => lemma_took_match_kept(
            g0,
            g1,
            a,
            Pile::Discard,
            Pile::Hand,
            db,
            CardFilter::BasicPokemon,
        ),
        EffectKind::FishingNet => {
            let x = choose|x: GameView|
                #[trigger] searched_random(g0, x, a, Pile::Deck, Pile::Hand, db, CardFilter::Pokemon, true) && searched_random(
                    x,
                    g1,
                    a,
                    Pile::Deck,
                    Pile::Hand,
                    db,
                    CardFilter::Pokemon,
                    true,
                );
            lemma_searched_random_kept(g0, x, a, Pile::Deck, Pile::Hand, db, CardFilter::Pokemon, true);
            lemma_searched_random_kept(x, g1, a, Pile::Deck, Pile::Hand, db, CardFilter::Pokemon, true);
        },
        EffectKind::PokemonCommunication => {
            match first_match(g0.pile(a, Pile::Hand), db, CardFilter::Pokemon) {
                Some(i) => {
                    crate::effects::search::lemma_first_match_in_range(g0.pile(a, Pile::Hand), db, CardFilter::Pokemon);
                    let m = g0.move_card(a, Pile::Hand, i, Pile::Deck);
                    lemma_move_card_kept(g0, a, Pile::Hand, Pile::Deck, i);
                    lemma_searched_random_kept(m, g1, a, Pile::Deck, Pile::Hand, db, CardFilter::Pokemon, true);
                },
                None => {},
            }
        },
        EffectKind::DiscardRandomCardOpponent => lemma_random_moves_kept(g0, g1, o, Pile::Hand, Pile::Discard, 1),
        EffectKind::DiscardRandomToolFromHand => lemma_took_match_kept(g0, g1, a, Pile::Hand, Pile::Discard, db, CardFilter::Tool),
        EffectKind::DiscardRandomItemFromHand => lemma_took_match_kept(g0, g1, a, Pile::Hand, Pile::Discard, db, CardFilter::Item),
        EffectKind::DiscardTopDeck => lemma_discard_top_kept(g0, g1, a),
        _ => {},
    }
}

/// A Mars-style refill: after player `p` shuffles the hand into the deck
/// and draws `n`, the hand holds the smaller of `n` and the cards the
/// player had in hand and deck together, the deck the rest, and every
/// player keeps the same cards.
pub proof fn lemma_refill_hand_size(g0: GameView, g1: GameView, p: int, n: nat)
    requires
        g0.wf(),
        0 <= p < 2,
        shuffled_in(g0, g1, p),
    ensures
        ({
            let total: int = (g0.pile(p, Pile::Hand).len() + g0.pile(p, Pile::Deck).len()) as int;
            let k = if n < total { n as int } else { total };
            &&& g1.draw_n(p, n).pile(p, Pile::Hand).len() == k
            &&& g1.draw_n(p, n).pile(p, Pile::Deck).len() == total - k
            &&& cards_kept(g0, g1.draw_n(p, n))
        }),
{
    let m = g0.move_all(p, Pile::Hand, Pile::Deck);
    lemma_shuffled_in_kept(g0, g1, p);
    assert(m.pile(p, Pile::Hand).len() == 0);
    assert(m.pile(p, Pile::Deck).len() == g0.pile(p, Pile::Deck).len() + g0.pile(p, Pile::Hand).len());
    vstd::seq_lib::to_multiset_len(m.pile(p, Pile::Deck));
    vstd::seq_lib::to_multiset_len(g1.pile(p, Pile::Deck));
    assert(g1.pile(p, Pile::Hand) == m.pile(p, Pile::Hand));
    lemma_draw_n_kept(g1, p, n);
}

/// Player `p`'s hand and deck in `g1` hold, together, the same cards as in
/// `g0`, and nothing else of the game differs.
pub open spec fn hand_deck_permuted(g0: GameView, g1: GameView, p: int) -> bool {
    &&& g1 == g0.with_player(p, PlayerView { hand: g1.players[p].hand, deck: g1.players[p].deck, ..g0.players[p] })
    &&& (g1.players[p].hand + g1.players[p].deck).to_multiset() == (g0.players[p].hand + g0.players[p].deck).to_multiset()
}

proof fn lemma_hand_deck_permuted_trans(g0: GameView, g1: GameView, g2: GameView, p: int)
    requires
        g0.players.len() == 2,
        0 <= p < 2,
        hand_deck_permuted(g0, g1, p),
        hand_deck_permuted(g1, g2, p),
    ensures
        hand_deck_permuted(g0, g2, p),
{
    let x = PlayerView { hand: g2.players[p].hand, deck: g2.players[p].deck, ..g0.players[p] };
    assert(g2.players =~= g0.players.update(p, x));
    assert(g2 =~= g0.with_player(p, x));
}

proof fn lemma_draw_one_permuted(g: GameView, p: int)
    requires
        g.players.len() == 2,
        0 <= p < 2,
    ensures
        hand_deck_permuted(g, g.draw_one(p), p),
{
    broadcast use vstd::seq_lib::group_to_multiset_ensures;
    broadcast use vstd::multiset::group_multiset_axioms;
    let d = g.pile(p, Pile::Deck);
    let h = g.draw_one(p);
    if d.len() == 0 {
        assert(g.players =~= g.players.update(p, PlayerView { hand: g.players[p].hand, deck: g.players[p].deck, ..g.players[p] }));
        assert(g =~= g.with_player(p, PlayerView { hand: g.players[p].hand, deck: g.players[p].deck, ..g.players[p] }));
    } else {
        let i = d.len() - 1;
        let x = d[i];
        let hand0 = g.players[p].hand;
        let hand1 = h.players[p].hand;
        let deck1 = h.players[p].deck;
        assert(hand1 == hand0.push(x));
        assert(deck1 == d.remove(i));
        vstd::seq_lib::lemma_multiset_commutative(hand1, deck1);
        vstd::seq_lib::lemma_multiset_commutative(hand0, d);
        assert(hand1.to_multiset() =~= hand0.to_multiset().insert(x));
        assert(deck1.to_multiset() =~= d.to_multiset().remove(x));
        assert(d.to_multiset().count(x) > 0);
        assert((hand1 + deck1).to_multiset() =~= (hand0 + d).to_multiset());
        let pv = PlayerView { hand: hand1, deck: deck1, ..g.players[p] };
        assert(h.players =~= g.players.update(p, pv));
        assert(h =~= g.with_player(p, pv));
    }
}

proof fn lemma_draw_n_permuted(g: GameView, p: int, n: nat)
    requires
        g.players.len() == 2,
        0 <= p < 2,
    ensures
        hand_deck_permuted(g, g.draw_n(p, n), p),
        g.draw_n(p, n).players.len() == 2,
    decreases n,
{
    if n == 0 {
        let pv = PlayerView { hand: g.players[p].hand, deck: g.players[p].deck, ..g.players[p] };
        assert(g.players =~= g.players.update(p, pv));
        assert(g =~= g.with_player(p, pv));
    } else {
        lemma_draw_n_permuted(g, p, (n - 1) as nat);
        let h = g.draw_n(p, (n - 1) as nat);
        lemma_draw_one_permuted(h, p);
        lemma_hand_deck_permuted_trans(g, h, h.draw_one(p), p);
    }
}

proof fn lemma_shuffled_in_permuted(g0: GameView, g1: GameView, p: int)
    requires
        g0.players.len() == 2,
        0 <= p < 2,
        shuffled_in(g0, g1, p),
    ensures
        hand_deck_permuted(g0, g1, p),
        g1.players.len() == 2,
{
    let m = g0.move_all(p, Pile::Hand, Pile::Deck);
    let hand0 = g0.players[p].hand;
    let deck0 = g0.players[p].deck;
    assert(m.players[p].hand =~= Seq::<u16>::empty());
    assert(m.players[p].deck =~= deck0 + hand0);
    assert(g1.players[p].hand == m.players[p].hand);
    vstd::seq_lib::lemma_multiset_commutative(g1.players[p].hand, g1.players[p].deck);
    vstd::seq_lib::lemma_multiset_commutative(hand0, deck0);
    vstd::seq_lib::lemma_multiset_commutative(deck0, hand0);
    vstd::seq_lib::lemma_multiset_commutative(Seq::<u16>::empty(), g1.players[p].deck);
    assert(Seq::<u16>::empty() + g1.players[p].deck =~= g1.players[p].deck);
    assert((g1.players[p].hand + g1.players[p].deck).to_multiset() =~= (hand0 + deck0).to_multiset()) by {
        broadcast use vstd::multiset::group_multiset_axioms;
    }
    let pv = PlayerView { hand: g1.players[p].hand, deck: g1.players[p].deck, ..g0.players[p] };
    assert(g1.players =~= g0.players.update(p, pv));
    assert(g1 =~= g0.with_player(p, pv));
}

/// Shuffling the hand into the deck and drawing `n` keeps, for player
/// `p`, the cards of hand and deck together, and changes nothing else.
pub proof fn lemma_refill_keeps_hand_and_deck(g0: GameView, g1: GameView, p: int, n: nat)
    requires
        g0.players.len() == 2,
        0 <= p < 2,
        shuffled_in(g0, g1, p),
    ensures
        hand_deck_permuted(g0, g1.draw_n(p, n), p),
{
    lemma_shuffled_in_permuted(g0, g1, p);
    lemma_draw_n_permuted(g1, p, n);
    lemma_hand_deck_permuted_trans(g0, g1, g1.draw_n(p, n), p);
}

}
