use tictactoe::app::BoardCell;
use tictactoe::app::BoardCellState;
use tictactoe::app::BoardState;
use tictactoe::app::PlaceTokenResult;
use tictactoe::app::Player;

fn board_with(occupied: &[(usize, usize, Player)]) -> BoardState {
    let mut board = BoardState::default();
    for &(row, column, player) in occupied {
        board.cells[row][column] = match board.cells[row][column] {
            BoardCellState::Selected(_) => {
                BoardCellState::Selected(BoardCell::Occupied(player))
            }
            BoardCellState::NotSelected(_) => {
                BoardCellState::NotSelected(BoardCell::Occupied(player))
            }
        };
    }
    board
}

#[test]
fn default_board_empty_with_centre_highlighted() {
    let board = BoardState::default();
    for row in 0..3 {
        for column in 0..3 {
            assert!(matches!(board.occupant_at(row, column), BoardCell::Empty));
            let selected = matches!(board.cells[row][column], BoardCellState::Selected(_));
            assert_eq!(selected, row == 1 && column == 1);
        }
    }
}

#[test]
fn empty_board_has_no_winner() {
    let board = BoardState::default();
    assert_eq!(board.check_for_winner(), None);
}

#[test]
fn each_line_of_three_wins() {
    let combos = BoardState::winning_combinations();
    assert_eq!(combos.len(), 8);
    for &((r0, c0), (r1, c1), (r2, c2)) in combos.iter() {
        let board = board_with(&[
            (r0, c0, Player::Computer),
            (r1, c1, Player::Computer),
            (r2, c2, Player::Computer),
        ]);
        assert_eq!(board.check_for_winner(), Some(Player::Computer));
    }
}

#[test]
fn user_line_wins_for_user() {
    let board = board_with(&[
        (0, 0, Player::User),
        (1, 1, Player::User),
        (2, 2, Player::User),
    ]);
    assert_eq!(board.check_for_winner(), Some(Player::User));
}

#[test]
fn winning_combinations_are_the_eight_fixed_triples() {
    let combos = BoardState::winning_combinations();
    let expected = [
        ((0, 0), (0, 1), (0, 2)),
        ((1, 0), (1, 1), (1, 2)),
        ((2, 0), (2, 1), (2, 2)),
        ((0, 0), (1, 0), (2, 0)),
        ((0, 1), (1, 1), (2, 1)),
        ((0, 2), (1, 2), (2, 2)),
        ((0, 0), (1, 1), (2, 2)),
        ((0, 2), (1, 1), (2, 0)),
    ];
    assert_eq!(combos.len(), expected.len());
    for (combo, want) in combos.iter().zip(expected.iter()) {
        assert_eq!(combo, want);
    }
}

#[test]
fn full_board_without_line_has_no_winner() {
    // X X O / O O X / X X O from top row down, with X the human.
    let board = board_with(&[
        (2, 0, Player::User),
        (2, 1, Player::User),
        (2, 2, Player::Computer),
        (1, 0, Player::Computer),
        (1, 1, Player::Computer),
        (1, 2, Player::User),
        (0, 0, Player::User),
        (0, 1, Player::User),
        (0, 2, Player::Computer),
    ]);
    assert_eq!(board.check_for_winner(), None);
}

#[test]
fn first_complete_line_in_order_decides() {
    // Two complete lines at once: the bottom row comes first in the fixed
    // evaluation order, so its owner is reported.
    let board = board_with(&[
        (0, 0, Player::User),
        (0, 1, Player::User),
        (0, 2, Player::User),
        (2, 0, Player::Computer),
        (2, 1, Player::Computer),
        (2, 2, Player::Computer),
    ]);
    assert_eq!(board.check_for_winner(), Some(Player::User));
}

#[test]
fn place_on_selected_empty_cell_succeeds() {
    let mut board = BoardState::default();
    let result = board.try_place_token((1, 1), Player::User);
    assert_eq!(result, PlaceTokenResult::Success);
    assert!(matches!(
        board.occupant_at(1, 1),
        BoardCell::Occupied(Player::User)
    ));
    // The highlight flag stays where it was.
    assert!(matches!(board.cells[1][1], BoardCellState::Selected(_)));
}

#[test]
fn place_completing_line_reports_the_winner() {
    let mut board = board_with(&[(1, 0, Player::User), (1, 2, Player::User)]);
    let result = board.try_place_token((1, 1), Player::User);
    assert_eq!(result, PlaceTokenResult::SuccessWithWinner(Player::User));
}

#[test]
fn place_on_cell_occupied_by_user_changes_nothing() {
    let mut board = board_with(&[(1, 1, Player::User)]);
    let before = board.cells;
    let result = board.try_place_token((1, 1), Player::User);
    assert_eq!(result, PlaceTokenResult::OccupiedByUser);
    assert_eq!(board.cells, before);
}

#[test]
fn place_on_opponent_held_cell_changes_nothing() {
    let mut board = board_with(&[(1, 1, Player::Computer)]);
    let before = board.cells;
    let result = board.try_place_token((1, 1), Player::User);
    assert_eq!(result, PlaceTokenResult::OccupiedByComputer);
    assert_eq!(board.cells, before);
}

#[test]
fn user_cannot_place_outside_the_highlight() {
    let mut board = BoardState::default();
    let before = board.cells;
    let result = board.try_place_token((0, 0), Player::User);
    assert_eq!(result, PlaceTokenResult::Error);
    assert_eq!(board.cells, before);
}

#[test]
fn computer_may_place_on_any_empty_cell() {
    let mut board = BoardState::default();
    let result = board.try_place_token((2, 0), Player::Computer);
    assert_eq!(result, PlaceTokenResult::Success);
    assert!(matches!(
        board.occupant_at(2, 0),
        BoardCell::Occupied(Player::Computer)
    ));
}

#[test]
fn computer_place_on_occupied_unselected_cell_changes_nothing() {
    let mut board = board_with(&[(0, 0, Player::User)]);
    let before = board.cells;
    let result = board.try_place_token((0, 0), Player::Computer);
    assert_eq!(result, PlaceTokenResult::OccupiedByUser);
    assert_eq!(board.cells, before);
}
