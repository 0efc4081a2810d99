use tictactoe::game::{
    check_game_state, empty_spaces, evaluate, has_three, playing, Game, GameState, Outcome, Turn,
};
use tictactoe::grid::{Cell, Grid, MarkerType};
use tictactoe::util::marker_to_num;

fn play(g: &mut Game, moves: &[usize]) -> Vec<bool> {
    moves.iter().map(|&m| g.place(m)).collect()
}

#[test]
fn row_of_x_wins() {
    assert_eq!(evaluate(&vec![1, 1, 1, 0, 2, 2, 0, 0, 0]), Some(Outcome::XWins));
}

#[test]
fn full_board_without_line_is_draw() {
    assert_eq!(evaluate(&vec![1, 2, 1, 2, 1, 2, 2, 1, 2]), Some(Outcome::Draw));
}

#[test]
fn full_board_with_line_is_win_not_draw() {
    assert_eq!(evaluate(&vec![1, 1, 1, 2, 2, 1, 2, 1, 2]), Some(Outcome::XWins));
    assert_eq!(evaluate(&vec![2, 1, 1, 1, 2, 1, 1, 2, 2]), Some(Outcome::OWins));
}

#[test]
fn empty_and_partial_boards_go_on() {
    assert_eq!(evaluate(&vec![0; 9]), None);
    assert_eq!(evaluate(&vec![1, 2, 1, 0, 0, 0, 0, 0, 0]), None);
}

#[test]
fn every_line_is_detected() {
    let lines = [
        [0, 1, 2],
        [3, 4, 5],
        [6, 7, 8],
        [0, 3, 6],
        [1, 4, 7],
        [2, 5, 8],
        [0, 4, 8],
        [2, 4, 6],
    ];
    for l in lines.iter() {
        let mut b = vec![0; 9];
        for &i in l.iter() {
            b[i] = 2;
        }
        assert!(has_three(&b, 2));
        assert!(!has_three(&b, 1));
        assert_eq!(evaluate(&b), Some(Outcome::OWins));
    }
}

#[test]
fn o_line_checked_before_x_line() {
    assert_eq!(evaluate(&vec![1, 1, 1, 2, 2, 2, 0, 0, 0]), Some(Outcome::OWins));
}

#[test]
fn empty_spaces_counts_zeros() {
    assert_eq!(empty_spaces(&vec![0; 9]), 9);
    assert_eq!(empty_spaces(&vec![1, 0, 2, 0, 0, 1, 2, 1, 0]), 4);
    assert_eq!(empty_spaces(&vec![1, 2, 1, 2, 1, 2, 2, 1, 2]), 0);
}

#[test]
fn check_game_state_ends_or_keeps() {
    let mut state = GameState::Playing;
    check_game_state(&Grid { state: vec![1, 0, 2, 0, 0, 0, 0, 0, 0] }, &mut state);
    assert_eq!(state, GameState::Playing);
    check_game_state(&Grid { state: vec![1, 2, 1, 2, 1, 2, 2, 1, 2] }, &mut state);
    assert_eq!(state, GameState::Over(Outcome::Draw));
}

#[test]
fn playing_reports_state() {
    assert!(playing(&GameState::Playing));
    assert!(!playing(&GameState::Over(Outcome::XWins)));
}

#[test]
fn toggle_alternates() {
    let mut t = Turn(MarkerType::X);
    t.toggle();
    assert_eq!(t.0, MarkerType::O);
    t.toggle();
    assert_eq!(t.0, MarkerType::X);
}

#[test]
fn marker_numbers() {
    assert_eq!(marker_to_num(&MarkerType::X), 1);
    assert_eq!(marker_to_num(&MarkerType::O), 2);
}

#[test]
fn cell_new_and_mark() {
    let mut c = Cell::new(5);
    assert!(c.marker.is_none());
    assert_eq!(c.index, 5);
    c.mark(MarkerType::O);
    assert_eq!(c.marker, Some(MarkerType::O));
    assert_eq!(c.index, 5);
}

#[test]
fn grid_default_is_empty() {
    let g = Grid::default();
    assert_eq!(g.state, vec![0; 9]);
}

#[test]
fn new_game_is_empty_with_x_to_move() {
    let g = Game::new();
    assert_eq!(g.grid.state, vec![0; 9]);
    assert_eq!(g.turn.0, MarkerType::X);
    assert_eq!(g.state, GameState::Playing);
    for (i, c) in g.cells.iter().enumerate() {
        assert_eq!(c.index, i);
        assert!(c.marker.is_none());
    }
}

#[test]
fn occupied_cell_is_not_overwritten() {
    let mut g = Game::new();
    assert!(g.place(4));
    assert!(!g.place(4));
    assert_eq!(g.grid.state[4], 1);
    assert_eq!(g.cells[4].marker, Some(MarkerType::X));
    assert_eq!(g.turn.0, MarkerType::O);
}

#[test]
fn turns_alternate_between_players() {
    let mut g = Game::new();
    assert_eq!(play(&mut g, &[0, 0, 4, 8]), vec![true, false, true, true]);
    assert_eq!(g.grid.state, vec![1, 0, 0, 0, 2, 0, 0, 0, 1]);
    assert_eq!(g.turn.0, MarkerType::O);
}

#[test]
fn game_ends_with_x_win_and_ignores_later_clicks() {
    let mut g = Game::new();
    assert_eq!(play(&mut g, &[0, 3, 1, 4, 2]), vec![true; 5]);
    assert_eq!(g.state, GameState::Over(Outcome::XWins));
    let before = g.grid.state.clone();
    assert_eq!(play(&mut g, &[5, 6, 7, 8]), vec![false; 4]);
    assert_eq!(g.grid.state, before);
    assert_eq!(g.turn.0, MarkerType::O);
    assert_eq!(g.state, GameState::Over(Outcome::XWins));
}

#[test]
fn game_ends_with_o_win() {
    let mut g = Game::new();
    assert_eq!(play(&mut g, &[0, 2, 1, 4, 8, 6]), vec![true; 6]);
    assert_eq!(g.state, GameState::Over(Outcome::OWins));
}

#[test]
fn game_ends_in_draw() {
    let mut g = Game::new();
    play(&mut g, &[0, 1, 2, 4, 3, 5, 7, 6, 8]);
    assert_eq!(g.grid.state, vec![1, 2, 1, 1, 2, 2, 2, 1, 1]);
    assert_eq!(g.state, GameState::Over(Outcome::Draw));
}

#[test]
fn last_move_filling_board_with_line_wins() {
    let mut g = Game::new();
    play(&mut g, &[0, 1, 2, 4, 3, 5, 7, 8, 6]);
    assert_eq!(g.grid.state, vec![1, 2, 1, 1, 2, 2, 1, 1, 2]);
    assert_eq!(g.state, GameState::Over(Outcome::XWins));
}

#[test]
fn ended_match_keeps_its_result() {
    let mut state = GameState::Over(Outcome::Draw);
    check_game_state(&Grid { state: vec![1, 1, 1, 2, 2, 1, 2, 1, 2] }, &mut state);
    assert_eq!(state, GameState::Over(Outcome::Draw));
    let mut state = GameState::Over(Outcome::OWins);
    check_game_state(&Grid { state: vec![1, 1, 1, 2, 2, 0, 0, 0, 0] }, &mut state);
    assert_eq!(state, GameState::Over(Outcome::OWins));
}
