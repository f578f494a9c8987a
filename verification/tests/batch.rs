use ptcgp::batch::{tally_results, GameResult};

fn make_result(winner: Option<usize>, turns: u32) -> GameResult {
    GameResult { winner, turns, player0_points: 0, player1_points: 0 }
}

#[test]
fn tally_of_no_games_is_empty() {
    let c = tally_results(&[]);
    assert_eq!(c.total_games, 0);
    assert_eq!(c.player0_wins, 0);
    assert_eq!(c.player1_wins, 0);
    assert_eq!(c.draws, 0);
}

#[test]
fn tally_counts_each_winner_and_the_draws() {
    let results = vec![
        make_result(Some(0), 10),
        make_result(Some(0), 20),
        make_result(Some(1), 15),
        make_result(None, 200),
    ];
    let c = tally_results(&results);
    assert_eq!(c.total_games, 4);
    assert_eq!(c.player0_wins, 2);
    assert_eq!(c.player1_wins, 1);
    assert_eq!(c.draws, 1);
}

#[test]
fn tally_when_player0_wins_everything() {
    let results: Vec<GameResult> = (0..10).map(|i| make_result(Some(0), i as u32 + 5)).collect();
    let c = tally_results(&results);
    assert_eq!(c.total_games, 10);
    assert_eq!(c.player0_wins, 10);
    assert_eq!(c.player1_wins, 0);
    assert_eq!(c.draws, 0);
}
