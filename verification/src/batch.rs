//! Counting the outcomes of a batch of finished games.
use vstd::prelude::*;

verus! {

/// How one finished game ended: the winner (none for a draw or a game cut
/// short), the turns it took, and both players' points.
pub struct GameResult {
    pub winner: Option<usize>,
    pub turns: u32,
    pub player0_points: u8,
    pub player1_points: u8,
}

/// The counts of a batch of games.
pub struct BatchCounts {
    pub total_games: usize,
    pub player0_wins: usize,
    pub player1_wins: usize,
    pub draws: usize,
}

/// How many of `rs` ended with winner `w` (`None` counts draws).
pub open spec fn count_winner(rs: Seq<GameResult>, w: Option<usize>) -> nat
    decreases rs.len(),
{
    if rs.len() == 0 {
        0
    } else {
        count_winner(rs.drop_last(), w) + if rs.last().winner == w { 1nat } else { 0nat }
    }
}

proof fn lemma_count_winner_bound(rs: Seq<GameResult>, w: Option<usize>)
    ensures
        count_winner(rs, w) <= rs.len(),
    decreases rs.len(),
{
    if rs.len() > 0 {
        lemma_count_winner_bound(rs.drop_last(), w);
    }
}

/// Counts the games of a batch: how many there are, how many each player
/// won, and how many ended without a winner.
pub fn tally_results(results: &[GameResult]) -> (r: BatchCounts)
    ensures
        r.total_games == results@.len(),
        r.player0_wins == count_winner(results@, Some(0usize)),
        r.player1_wins == count_winner(results@, Some(1usize)),
        r.draws == count_winner(results@, None),
{
    let mut p0: usize = 0;
    let mut p1: usize = 0;
    let mut draws: usize = 0;
    let mut i: usize = 0;
    while i < results.len()
        invariant
            i <= results@.len(),
            p0 == count_winner(results@.subrange(0, i as int), Some(0usize)),
            p1 == count_winner(results@.subrange(0, i as int), Some(1usize)),
            draws == count_winner(results@.subrange(0, i as int), None),
        decreases results.len() - i,
    {
        let ghost pre = results@.subrange(0, i as int);
        let ghost now = results@.subrange(0, i + 1);
        proof {
            assert(now.drop_last() =~= pre);
            lemma_count_winner_bound(pre, Some(0usize));
            lemma_count_winner_bound(pre, Some(1usize));
            lemma_count_winner_bound(pre, None);
        }
        match results[i].winner {
            Some(w) => {
                if w == 0 {
                    p0 = p0 + 1;
                } else if w == 1 {
                    p1 = p1 + 1;
                }
            },
            None => {
                draws = draws + 1;
            },
        }
        i = i + 1;
    }
    assert(results@.subrange(0, results@.len() as int) =~= results@);
    BatchCounts { total_games: results.len(), player0_wins: p0, player1_wins: p1, draws }
}

}
