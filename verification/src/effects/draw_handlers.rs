//! Drawing, shuffling, searching and discarding cards.
//!
//! The deck is a `Vec<u16>` whose last element is its top card.
use vstd::prelude::*;
use crate::card::{CardDb, CardFilter};
use crate::constants::POINTS_TO_WIN;
use crate::effects::conservation::{hand_deck_permuted, lemma_refill_hand_size, lemma_refill_keeps_hand_and_deck};
use crate::effects::EffectContext;
use crate::effects::search::{
    first_match, has_match, move_first_match, move_random_cards, move_random_match, random_moves,
    took_match,
};
use crate::state::{GameState, GameView, Pile};

verus! {

/// `g1` is `g0` after player `p` put the whole hand into the deck and
/// shuffled it.
pub open spec fn shuffled_in(g0: GameView, g1: GameView, p: int) -> bool {
    g0.move_all(p, Pile::Hand, Pile::Deck).reordered(g1, p, Pile::Deck)
}

/// Player `p` puts the whole hand into the deck and shuffles it.
fn shuffle_hand_in(state: &mut GameState, p: usize)
    requires
        p < 2,
    ensures
        shuffled_in(old(state)@, final(state)@, p as int),
{
    state.move_all(p, Pile::Hand, Pile::Deck);
    state.shuffle_pile(p, Pile::Deck);
}

/// `g1` is `g0` after a card passing `f`, picked at random, moved from pile
/// `from` to pile `to` of player `p`, the deck being shuffled afterwards
/// when `shuffle` is set and a card moved.
pub open spec fn searched_random(
    g0: GameView,
    g2: GameView,
    p: int,
    from: Pile,
    to: Pile,
    db: CardDb,
    f: CardFilter,
    shuffle: bool,
) -> bool {
    exists|g1: GameView|
        #[trigger] took_match(g0, g1, p, from, to, db, f) && if shuffle && has_match(g0.pile(p, from), db, f) {
            g1.reordered(g2, p, Pile::Deck)
        } else {
            g2 == g1
        }
}

/// `g2` is `g0` after the first card of the deck passing `f` went to the
/// hand of player `p` and the deck was shuffled (nothing happens when no
/// card passes).
pub open spec fn searched_first(g0: GameView, g2: GameView, p: int, db: CardDb, f: CardFilter) -> bool {
    match first_match(g0.pile(p, Pile::Deck), db, f) {
        Some(i) => g0.move_card(p, Pile::Deck, i, Pile::Hand).reordered(g2, p, Pile::Deck),
        None => g2 == g0,
    }
}

/// Moves a random card passing `f` from the deck of player `p` to the hand,
/// then shuffles the deck if a card moved.
fn search_deck_random(state: &mut GameState, p: usize, db: &CardDb, f: &CardFilter)
    requires
        p < 2,
    ensures
        searched_random(old(state)@, final(state)@, p as int, Pile::Deck, Pile::Hand, *db, *f, true),
{
    let ghost g0 = state@;
    let moved = move_random_match(state, p, Pile::Deck, Pile::Hand, db, f);
    let ghost g1 = state@;
    if moved {
        state.shuffle_pile(p, Pile::Deck);
    }
    assert(took_match(g0, g1, p as int, Pile::Deck, Pile::Hand, *db, *f));
}

/// Moves the first card passing `f` from the deck of player `p` to the hand,
/// then shuffles the deck if a card moved.
fn search_deck_first(state: &mut GameState, p: usize, db: &CardDb, f: &CardFilter)
    requires
        p < 2,
    ensures
        searched_first(old(state)@, final(state)@, p as int, *db, *f),
{
    let moved = move_first_match(state, p, Pile::Deck, Pile::Hand, db, f);
    if moved {
        state.shuffle_pile(p, Pile::Deck);
    }
}

/// Removes up to `count` random cards from the hand of `player` and puts
/// them on the discard pile.
fn discard_random_from_hand(state: &mut GameState, player: usize, count: u8)
    requires
        player < 2,
    ensures
        random_moves(old(state)@, final(state)@, player as int, Pile::Hand, Pile::Discard, count as nat),
{
    move_random_cards(state, player, Pile::Hand, Pile::Discard, count);
}

/// Draws `count` cards from the top of the deck; an empty deck ends the draw.
pub fn draw_cards(state: &mut GameState, count: u8, ctx: &EffectContext)
    requires
        ctx.acting_player < 2,
    ensures
        final(state)@ == old(state)@.draw_n(ctx.acting_player as int, count as nat),
{
    state.draw_n_for(ctx.acting_player, count);
}

/// Draws one card.
pub fn draw_one_card(state: &mut GameState, ctx: &EffectContext)
    requires
        ctx.acting_player < 2,
    ensures
        final(state)@ == old(state)@.draw_n(ctx.acting_player as int, 1),
{
    draw_cards(state, 1, ctx);
}

/// Puts a random Basic Pokémon from the deck into the hand, then shuffles
/// the deck.
pub fn draw_basic_pokemon(state: &mut GameState, db: &CardDb, ctx: &EffectContext)
    requires
        ctx.acting_player < 2,
        db.knows_all(old(state)@.pile(ctx.acting_player as int, Pile::Deck)),
    ensures
        searched_random(old(state)@, final(state)@, ctx.acting_player as int, Pile::Deck, Pile::Hand, *db, CardFilter::BasicPokemon, true),
{
    search_deck_random(state, ctx.acting_player, db, &CardFilter::BasicPokemon);
}

/// Iono: each player shuffles the hand into the deck, then draws as many
/// cards as that player held before (the count is taken as a `u8`).
pub fn iono_hand_shuffle(state: &mut GameState, ctx: &EffectContext)
    requires
        ctx.acting_player < 2,
    ensures
        ({
            let a = ctx.acting_player as int;
            let o = 1 - a;
            let na = old(state)@.pile(a, Pile::Hand).len() as u8;
            let no = old(state)@.pile(o, Pile::Hand).len() as u8;
            exists|g1: GameView, g2: GameView|
                #[trigger] shuffled_in(old(state)@, g1, a) && #[trigger] shuffled_in(g1, g2, o)
                    && final(state)@ == g2.draw_n(a, na as nat).draw_n(o, no as nat)
        }),
{
    let acting = ctx.acting_player;
    let opponent = 1 - acting;
    let acting_draw_count = state.pile_len(acting, Pile::Hand) as u8;
    let opponent_draw_count = state.pile_len(opponent, Pile::Hand) as u8;
    shuffle_hand_in(state, acting);
    let ghost g1 = state@;
    shuffle_hand_in(state, opponent);
    let ghost g2 = state@;
    state.draw_n_for(acting, acting_draw_count);
    state.draw_n_for(opponent, opponent_draw_count);
    assert(shuffled_in(old(state)@, g1, acting as int) && shuffled_in(g1, g2, opponent as int));
}

/// Mars: the opponent shuffles the hand into the deck and draws one card for
/// each point still missing to win.
pub fn mars_hand_shuffle(state: &mut GameState, ctx: &EffectContext)
    requires
        ctx.acting_player < 2,
    ensures
        ({
            let o = 1 - ctx.acting_player;
            let pts = old(state)@.players[o].points;
            let n: nat = if pts >= POINTS_TO_WIN { 0 } else { (POINTS_TO_WIN - pts) as nat };
            exists|g1: GameView| #[trigger] shuffled_in(old(state)@, g1, o) && final(state)@ == g1.draw_n(o, n)
        }),
        ({
            let o = 1 - ctx.acting_player;
            let pts = old(state)@.players[o].points;
            let n: int = if pts >= POINTS_TO_WIN { 0 } else { POINTS_TO_WIN - pts };
            let total: int = (old(state)@.pile(o, Pile::Hand).len() + old(state)@.pile(o, Pile::Deck).len()) as int;
            final(state)@.pile(o, Pile::Hand).len() == if n < total { n } else { total }
        }),
        hand_deck_permuted(old(state)@, final(state)@, 1 - ctx.acting_player),
{
    let opponent = 1 - ctx.acting_player;
    let opp_points = state.players[opponent].points;
    let draw_count = POINTS_TO_WIN.saturating_sub(opp_points);
    assert(state@.players[0].bench.len() == 3 && state@.players[1].bench.len() == 3);
    shuffle_hand_in(state, opponent);
    let ghost g1 = state@;
    state.draw_n_for(opponent, draw_count);
    assert(shuffled_in(old(state)@, g1, opponent as int));
    proof {
        lemma_refill_hand_size(old(state)@, g1, opponent as int, draw_count as nat);
        lemma_refill_keeps_hand_and_deck(old(state)@, g1, opponent as int, draw_count as nat);
    }
}

/// Shuffles the whole hand into the deck.
pub fn shuffle_hand_into_deck(state: &mut GameState, ctx: &EffectContext)
    requires
        ctx.acting_player < 2,
    ensures
        shuffled_in(old(state)@, final(state)@, ctx.acting_player as int),
{
    shuffle_hand_in(state, ctx.acting_player);
}

/// Shuffles the hand into the deck, then draws as many cards as the opponent
/// holds (taken as a `u8`).
pub fn shuffle_hand_draw_opponent_count(state: &mut GameState, ctx: &EffectContext)
    requires
        ctx.acting_player < 2,
    ensures
        ({
            let a = ctx.acting_player as int;
            let n = old(state)@.pile(1 - a, Pile::Hand).len() as u8;
            exists|g1: GameView| #[trigger] shuffled_in(old(state)@, g1, a) && final(state)@ == g1.draw_n(a, n as nat)
        }),
{
    let acting = ctx.acting_player;
    let opp_hand_size = state.pile_len(1 - acting, Pile::Hand) as u8;
    shuffle_hand_in(state, acting);
    let ghost g1 = state@;
    state.draw_n_for(acting, opp_hand_size);
    assert(shuffled_in(old(state)@, g1, acting as int));
}

/// Discards `count` random cards from the hand, then draws `count` cards.
pub fn discard_to_draw(state: &mut GameState, count: u8, ctx: &EffectContext)
    requires
        ctx.acting_player < 2,
    ensures
        ({
            let a = ctx.acting_player as int;
            exists|g1: GameView| #[trigger] random_moves(old(state)@, g1, a, Pile::Hand, Pile::Discard, count as nat)
                && final(state)@ == g1.draw_n(a, count as nat)
        }),
{
    let p = ctx.acting_player;
    discard_random_from_hand(state, p, count);
    let ghost g1 = state@;
    state.draw_n_for(p, count);
    assert(random_moves(old(state)@, g1, p as int, Pile::Hand, Pile::Discard, count as nat));
}

/// Maintenance: shuffles `shuffle_count` random cards from the hand into the
/// deck, then draws `draw_count` cards.
pub fn maintenance_shuffle(state: &mut GameState, shuffle_count: u8, draw_count: u8, ctx: &EffectContext)
    requires
        ctx.acting_player < 2,
    ensures
        ({
            let a = ctx.acting_player as int;
            exists|g1: GameView, g2: GameView|
                #[trigger] random_moves(old(state)@, g1, a, Pile::Hand, Pile::Deck, shuffle_count as nat)
                    && #[trigger] g1.reordered(g2, a, Pile::Deck) && final(state)@ == g2.draw_n(a, draw_count as nat)
        }),
{
    let p = ctx.acting_player;
    move_random_cards(state, p, Pile::Hand, Pile::Deck, shuffle_count);
    let ghost g1 = state@;
    state.shuffle_pile(p, Pile::Deck);
    let ghost g2 = state@;
    state.draw_n_for(p, draw_count);
    assert(random_moves(old(state)@, g1, p as int, Pile::Hand, Pile::Deck, shuffle_count as nat) && g1.reordered(
        g2,
        p as int,
        Pile::Deck,
    ));
}

/// The opponent shuffles the hand into the deck, then draws `count` cards.
pub fn opponent_shuffle_hand_draw(state: &mut GameState, count: u8, ctx: &EffectContext)
    requires
        ctx.acting_player < 2,
    ensures
        ({
            let o = 1 - ctx.acting_player;
            exists|g1: GameView| #[trigger] shuffled_in(old(state)@, g1, o) && final(state)@ == g1.draw_n(o, count as nat)
        }),
{
    let opponent = 1 - ctx.acting_player;
    shuffle_hand_in(state, opponent);
    let ghost g1 = state@;
    state.draw_n_for(opponent, count);
    assert(shuffled_in(old(state)@, g1, opponent as int));
}

/// Puts the first Basic Pokémon named `name` (ASCII case ignored) from the
/// deck into the hand, then shuffles the deck.
pub fn search_deck_named_basic(state: &mut GameState, db: &CardDb, name: &str, ctx: &EffectContext)
    requires
        ctx.acting_player < 2,
        db.knows_all(old(state)@.pile(ctx.acting_player as int, Pile::Deck)),
    ensures
        exists|n: String| n@ == name@ && #[trigger] searched_first(old(state)@, final(state)@, ctx.acting_player as int, *db, CardFilter::NamedBasic(n)),
{
    let f = CardFilter::NamedBasic(name.to_string());
    search_deck_first(state, ctx.acting_player, db, &f);
}

/// Puts a random Pokémon from the deck into the hand, then shuffles the deck.
pub fn search_deck_random_pokemon(state: &mut GameState, db: &CardDb, ctx: &EffectContext)
    requires
        ctx.acting_player < 2,
        db.knows_all(old(state)@.pile(ctx.acting_player as int, Pile::Deck)),
    ensures
        searched_random(old(state)@, final(state)@, ctx.acting_player as int, Pile::Deck, Pile::Hand, *db, CardFilter::Pokemon, true),
{
    search_deck_random(state, ctx.acting_player, db, &CardFilter::Pokemon);
}

/// Puts a random Pokémon that evolves from `name` (ASCII case ignored) from
/// the deck into the hand, then shuffles the deck.
pub fn search_deck_evolves_from(state: &mut GameState, db: &CardDb, name: &str, ctx: &EffectContext)
    requires
        ctx.acting_player < 2,
        db.knows_all(old(state)@.pile(ctx.acting_player as int, Pile::Deck)),
    ensures
        exists|n: String| n@ == name@ && #[trigger] searched_random(old(state)@, final(state)@, ctx.acting_player as int, Pile::Deck, Pile::Hand, *db, CardFilter::EvolvesFrom(n), true),
{
    let f = CardFilter::EvolvesFrom(name.to_string());
    search_deck_random(state, ctx.acting_player, db, &f);
}

/// Puts the first card named `name` (ASCII case ignored) from the deck into
/// the hand, then shuffles the deck.
pub fn search_deck_named(state: &mut GameState, db: &CardDb, name: &str, ctx: &EffectContext)
    requires
        ctx.acting_player < 2,
        db.knows_all(old(state)@.pile(ctx.acting_player as int, Pile::Deck)),
    ensures
        exists|n: String| n@ == name@ && #[trigger] searched_first(old(state)@, final(state)@, ctx.acting_player as int, *db, CardFilter::Named(n)),
{
    let f = CardFilter::Named(name.to_string());
    search_deck_first(state, ctx.acting_player, db, &f);
}

/// Puts a random card whose name is one of `names` (ASCII case ignored) from
/// the deck into the hand, then shuffles the deck.
pub fn search_deck_multi_named(state: &mut GameState, db: &CardDb, names: &Vec<String>, ctx: &EffectContext)
    requires
        ctx.acting_player < 2,
        db.knows_all(old(state)@.pile(ctx.acting_player as int, Pile::Deck)),
    ensures
        exists|ns: Vec<String>|
            ns@.map_values(|s: String| s@) == names@.map_values(|s: String| s@) && #[trigger] searched_random(
                old(state)@,
                final(state)@,
                ctx.acting_player as int,
                Pile::Deck,
                Pile::Hand,
                *db,
                CardFilter::NamedAny(ns),
                true,
            ),
{
    let f = CardFilter::NamedAny(names.clone());
    search_deck_random(state, ctx.acting_player, db, &f);
}

/// Puts a random Grass Pokémon from the deck into the hand, then shuffles
/// the deck.
pub fn search_deck_grass_pokemon(state: &mut GameState, db: &CardDb, ctx: &EffectContext)
    requires
        ctx.acting_player < 2,
        db.knows_all(old(state)@.pile(ctx.acting_player as int, Pile::Deck)),
    ensures
        searched_random(
            old(state)@,
            final(state)@,
            ctx.acting_player as int,
            Pile::Deck,
            Pile::Hand,
            *db,
            CardFilter::PokemonOfElement(crate::types::Element::Grass),
            true,
        ),
{
    search_deck_random(state, ctx.acting_player, db, &CardFilter::PokemonOfElement(crate::types::Element::Grass));
}

/// Puts a random Basic Pokémon from the deck into the hand, then shuffles
/// the deck.
pub fn search_deck_random_basic(state: &mut GameState, db: &CardDb, ctx: &EffectContext)
    requires
        ctx.acting_player < 2,
        db.knows_all(old(state)@.pile(ctx.acting_player as int, Pile::Deck)),
    ensures
        searched_random(old(state)@, final(state)@, ctx.acting_player as int, Pile::Deck, Pile::Hand, *db, CardFilter::BasicPokemon, true),
{
    search_deck_random(state, ctx.acting_player, db, &CardFilter::BasicPokemon);
}

/// Puts a random Basic Pokémon from the discard pile into the hand.
pub fn search_discard_random_basic(state: &mut GameState, db: &CardDb, ctx: &EffectContext)
    requires
        ctx.acting_player < 2,
        db.knows_all(old(state)@.pile(ctx.acting_player as int, Pile::Discard)),
    ensures
        took_match(old(state)@, final(state)@, ctx.acting_player as int, Pile::Discard, Pile::Hand, *db, CardFilter::BasicPokemon),
{
    move_random_match(state, ctx.acting_player, Pile::Discard, Pile::Hand, db, &CardFilter::BasicPokemon);
}

/// Looking at the top of the deck changes nothing: every player already
/// sees the whole game.
pub fn look_top_of_deck(state: &mut GameState, count: u8, ctx: &EffectContext)
    ensures
        final(state)@ == old(state)@,
{
}

/// Revealing the opponent's hand changes nothing.
pub fn reveal_opponent_hand(state: &mut GameState, ctx: &EffectContext)
    ensures
        final(state)@ == old(state)@,
{
}

/// Looking at the opponent's hand changes nothing.
pub fn look_opponent_hand(state: &mut GameState, ctx: &EffectContext)
    ensures
        final(state)@ == old(state)@,
{
}

/// Revealing the opponent's Supporters changes nothing.
pub fn reveal_opponent_supporters(state: &mut GameState, ctx: &EffectContext)
    ensures
        final(state)@ == old(state)@,
{
}

/// Fishing Net: searches the deck for a random Pokémon twice.
pub fn fishing_net(state: &mut GameState, db: &CardDb, ctx: &EffectContext)
    requires
        ctx.acting_player < 2,
        db.knows_all(old(state)@.pile(ctx.acting_player as int, Pile::Deck)),
    ensures
        exists|g1: GameView|
            #[trigger] searched_random(old(state)@, g1, ctx.acting_player as int, Pile::Deck, Pile::Hand, *db, CardFilter::Pokemon, true)
                && searched_random(g1, final(state)@, ctx.acting_player as int, Pile::Deck, Pile::Hand, *db, CardFilter::Pokemon, true),
{
    let p = ctx.acting_player;
    let ghost g0 = state@;
    search_deck_random(state, p, db, &CardFilter::Pokemon);
    let ghost g1 = state@;
    proof {
        lemma_search_keeps_known(g0, g1, p as int, *db, CardFilter::Pokemon);
    }
    search_deck_random(state, p, db, &CardFilter::Pokemon);
    assert(searched_random(g0, g1, p as int, Pile::Deck, Pile::Hand, *db, CardFilter::Pokemon, true));
}

/// A random search of the deck leaves only known cards in the deck.
proof fn lemma_search_keeps_known(g0: GameView, g2: GameView, p: int, db: CardDb, f: CardFilter)
    requires
        0 <= p < 2,
        g0.players.len() == 2,
        db.knows_all(g0.pile(p, Pile::Deck)),
        searched_random(g0, g2, p, Pile::Deck, Pile::Hand, db, f, true),
    ensures
        db.knows_all(g2.pile(p, Pile::Deck)),
{
    let g1 = choose|g1: GameView|
        #[trigger] took_match(g0, g1, p, Pile::Deck, Pile::Hand, db, f) && if has_match(g0.pile(p, Pile::Deck), db, f) {
            g1.reordered(g2, p, Pile::Deck)
        } else {
            g2 == g1
        };
    let d0 = g0.pile(p, Pile::Deck);
    if has_match(d0, db, f) {
        let i = choose|i: int|
            0 <= i < d0.len() && #[trigger] db.matches(d0[i], f) && g1 == g0.move_card(p, Pile::Deck, i, Pile::Hand);
        let d1 = g1.pile(p, Pile::Deck);
        assert(d1 == d0.remove(i));
        assert(db.knows_all(d1));
        let d2 = g2.pile(p, Pile::Deck);
        assert forall|j: int| 0 <= j < d2.len() implies (#[trigger] d2[j] as int) < db.cards@.len() by {
            broadcast use vstd::seq_lib::group_to_multiset_ensures;
            assert(d2.contains(d2[j]));
            assert(d2.to_multiset().count(d2[j]) > 0);
            assert(d1.to_multiset().count(d2[j]) > 0);
            assert(d1.contains(d2[j]));
        }
    }
}

/// Pokémon Communication: the first Pokémon in the hand goes on top of the
/// deck, then a random Pokémon from the deck goes to the hand and the deck
/// is shuffled.  Nothing happens without a Pokémon in the hand.
pub fn pokemon_communication(state: &mut GameState, db: &CardDb, ctx: &EffectContext)
    requires
        ctx.acting_player < 2,
        db.knows_all(old(state)@.pile(ctx.acting_player as int, Pile::Hand)),
        db.knows_all(old(state)@.pile(ctx.acting_player as int, Pile::Deck)),
    ensures
        ({
            let p = ctx.acting_player as int;
            match first_match(old(state)@.pile(p, Pile::Hand), *db, CardFilter::Pokemon) {
                Some(i) => searched_random(
                    old(state)@.move_card(p, Pile::Hand, i, Pile::Deck),
                    final(state)@,
                    p,
                    Pile::Deck,
                    Pile::Hand,
                    *db,
                    CardFilter::Pokemon,
                    true,
                ),
                None => final(state)@ == old(state)@,
            }
        }),
{
    let p = ctx.acting_player;
    let moved = move_first_match(state, p, Pile::Hand, Pile::Deck, db, &CardFilter::Pokemon);
    if moved {
        proof {
            let h = old(state)@.pile(p as int, Pile::Hand);
            let d = old(state)@.pile(p as int, Pile::Deck);
            let i = first_match(h, *db, CardFilter::Pokemon)->0;
            assert(state@.pile(p as int, Pile::Deck) == d.push(h[i]));
            assert(db.knows_all(state@.pile(p as int, Pile::Deck))) by {
                assert forall|j: int| 0 <= j < d.len() + 1 implies (#[trigger] d.push(h[i])[j] as int) < db.cards@.len() by {
                    if j < d.len() {
                        assert(d.push(h[i])[j] == d[j]);
                    }
                }
            }
        }
        search_deck_random(state, p, db, &CardFilter::Pokemon);
    }
}

/// Discards a random card from the opponent's hand.
pub fn discard_random_card_opponent(state: &mut GameState, ctx: &EffectContext)
    requires
        ctx.acting_player < 2,
    ensures
        random_moves(old(state)@, final(state)@, 1 - ctx.acting_player, Pile::Hand, Pile::Discard, 1),
{
    discard_random_from_hand(state, 1 - ctx.acting_player, 1);
}

/// Discards a random Tool from the acting player's hand.
pub fn discard_random_tool_from_hand(state: &mut GameState, db: &CardDb, ctx: &EffectContext)
    requires
        ctx.acting_player < 2,
        db.knows_all(old(state)@.pile(ctx.acting_player as int, Pile::Hand)),
    ensures
        took_match(old(state)@, final(state)@, ctx.acting_player as int, Pile::Hand, Pile::Discard, *db, CardFilter::Tool),
{
    move_random_match(state, ctx.acting_player, Pile::Hand, Pile::Discard, db, &CardFilter::Tool);
}

/// Discards a random Item from the acting player's hand.
pub fn discard_random_item_from_hand(state: &mut GameState, db: &CardDb, ctx: &EffectContext)
    requires
        ctx.acting_player < 2,
        db.knows_all(old(state)@.pile(ctx.acting_player as int, Pile::Hand)),
    ensures
        took_match(old(state)@, final(state)@, ctx.acting_player as int, Pile::Hand, Pile::Discard, *db, CardFilter::Item),
{
    move_random_match(state, ctx.acting_player, Pile::Hand, Pile::Discard, db, &CardFilter::Item);
}

}
