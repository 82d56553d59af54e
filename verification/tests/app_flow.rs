use tictactoe::app::App;
use tictactoe::app::BoardCell;
use tictactoe::app::BoardCellState;
use tictactoe::app::Level;
use tictactoe::app::Player;
use tictactoe::computer::Character;
use tictactoe::computer::Trigger;
use tictactoe::handle_user_input;
use tictactoe::input::InputKey;

fn occupy(app: &mut App, row: usize, column: usize, player: Player) {
    app.game_state.board_state.cells[row][column] =
        match app.game_state.board_state.cells[row][column] {
            BoardCellState::Selected(_) => {
                BoardCellState::Selected(BoardCell::Occupied(player))
            }
            BoardCellState::NotSelected(_) => {
                BoardCellState::NotSelected(BoardCell::Occupied(player))
            }
        };
}

fn running_app() -> App {
    let mut app = App::default();
    app.game_state.started = true;
    app.game_state.current_turn = Player::User;
    app
}

#[test]
fn starting_state_is_the_opening_screen() {
    let app = App::default();
    assert_eq!(app.cursor_location.row, 1);
    assert_eq!(app.cursor_location.column, 1);
    assert_eq!(app.instructions, "Press S to start game.");
    assert_eq!(app.chat, "");
    assert!(!app.game_state.started);
    assert_eq!(app.game_state.winner, None);
    assert_eq!(app.game_state.current_turn, Player::User);
    assert_eq!(app.game_state.difficulty_level, Level::Easy);
    assert_eq!(app.game_state.computer_character, Character::SpeedySteve);
    for row in 0..3 {
        for column in 0..3 {
            assert!(matches!(
                app.game_state.board_state.occupant_at(row, column),
                BoardCell::Empty
            ));
        }
    }
}

#[test]
fn cursor_clamps_at_the_edges() {
    let mut app = App::default();
    app.right();
    assert_eq!((app.cursor_location.row, app.cursor_location.column), (1, 2));
    app.right();
    assert_eq!((app.cursor_location.row, app.cursor_location.column), (1, 2));
    app.up();
    app.up();
    assert_eq!((app.cursor_location.row, app.cursor_location.column), (2, 2));
    app.down();
    app.down();
    app.down();
    assert_eq!((app.cursor_location.row, app.cursor_location.column), (0, 2));
    app.left();
    app.left();
    app.left();
    assert_eq!((app.cursor_location.row, app.cursor_location.column), (0, 0));
}

#[test]
fn exactly_one_cell_is_highlighted_after_moving() {
    let mut app = App::default();
    app.up();
    app.left();
    let mut highlighted = 0;
    for row in 0..3 {
        for column in 0..3 {
            if matches!(
                app.game_state.board_state.cells[row][column],
                BoardCellState::Selected(_)
            ) {
                assert_eq!((row, column), (2, 0));
                highlighted += 1;
            }
        }
    }
    assert_eq!(highlighted, 1);
}

#[test]
fn cursor_still_moves_during_the_opponents_turn() {
    let mut app = running_app();
    app.game_state.current_turn = Player::Computer;
    app.up();
    assert_eq!((app.cursor_location.row, app.cursor_location.column), (2, 1));
}

#[test]
fn enter_before_the_game_starts_does_nothing() {
    let mut app = App::default();
    let trigger = app.enter();
    assert!(trigger.is_none());
    assert_eq!(app.instructions, "Press S to start game.");
    assert!(matches!(
        app.game_state.board_state.occupant_at(1, 1),
        BoardCell::Empty
    ));
}

#[test]
fn enter_out_of_turn_only_updates_the_note() {
    let mut app = running_app();
    app.game_state.current_turn = Player::Computer;
    let trigger = app.enter();
    assert!(trigger.is_none());
    assert_eq!(app.instructions, "Steves turns. Please wait.");
    assert_eq!(app.game_state.current_turn, Player::Computer);
    assert!(matches!(
        app.game_state.board_state.occupant_at(1, 1),
        BoardCell::Empty
    ));
}

#[test]
fn enter_places_and_hands_the_turn_over() {
    let mut app = running_app();
    let trigger = app.enter();
    assert!(matches!(
        app.game_state.board_state.occupant_at(1, 1),
        BoardCell::Occupied(Player::User)
    ));
    assert_eq!(app.game_state.current_turn, Player::Computer);
    assert_eq!(app.instructions, "Steves turn.");
    match trigger {
        Some(Trigger::ComputersTurn(snapshot)) => {
            assert!(matches!(
                snapshot.board_state.occupant_at(1, 1),
                BoardCell::Occupied(Player::User)
            ));
            assert_eq!(snapshot.current_turn, Player::Computer);
        }
        _ => panic!("the opponent should have been triggered"),
    }
}

#[test]
fn enter_completing_a_line_wins_the_game() {
    let mut app = running_app();
    occupy(&mut app, 1, 0, Player::User);
    occupy(&mut app, 1, 2, Player::User);
    let trigger = app.enter();
    assert!(matches!(trigger, Some(Trigger::Loser)));
    assert_eq!(app.game_state.winner, Some(Player::User));
    assert_eq!(
        app.instructions,
        "You win! Press N to clear the game board and S to start a new game."
    );
}

#[test]
fn enter_filling_the_board_without_a_line_is_a_draw() {
    let mut app = running_app();
    occupy(&mut app, 0, 0, Player::Computer);
    occupy(&mut app, 0, 1, Player::User);
    occupy(&mut app, 0, 2, Player::Computer);
    occupy(&mut app, 1, 0, Player::Computer);
    occupy(&mut app, 1, 2, Player::User);
    occupy(&mut app, 2, 0, Player::User);
    occupy(&mut app, 2, 1, Player::Computer);
    occupy(&mut app, 2, 2, Player::User);
    let trigger = app.enter();
    assert!(matches!(trigger, Some(Trigger::Draw)));
    assert_eq!(app.game_state.winner, None);
    assert_eq!(
        app.instructions,
        "It's a tie. Press N to clear the board and S to start a new game."
    );
}

#[test]
fn enter_on_an_occupied_cell_explains_the_rejection() {
    let mut app = running_app();
    occupy(&mut app, 1, 1, Player::Computer);
    let trigger = app.enter();
    assert!(trigger.is_none());
    assert_eq!(app.instructions, "This cell is already occupied by Steve.");
    assert_eq!(app.game_state.current_turn, Player::User);

    let mut app = running_app();
    occupy(&mut app, 1, 1, Player::User);
    let trigger = app.enter();
    assert!(trigger.is_none());
    assert_eq!(app.instructions, "This cell is already occupied by you.");
}

#[test]
fn computer_placement_hands_the_turn_back() {
    let mut app = running_app();
    app.game_state.current_turn = Player::Computer;
    let trigger = app.computer_place_token((0, 0));
    assert!(trigger.is_none());
    assert!(matches!(
        app.game_state.board_state.occupant_at(0, 0),
        BoardCell::Occupied(Player::Computer)
    ));
    assert_eq!(app.game_state.current_turn, Player::User);
    assert_eq!(app.chat, "Steve: Ok, your turn!");
    assert_eq!(app.instructions, "Press enter to your place token.");
}

#[test]
fn computer_placement_completing_a_line_wins() {
    let mut app = running_app();
    app.game_state.current_turn = Player::Computer;
    occupy(&mut app, 0, 0, Player::Computer);
    occupy(&mut app, 0, 1, Player::Computer);
    let trigger = app.computer_place_token((0, 2));
    assert!(matches!(trigger, Some(Trigger::Winner)));
    assert_eq!(app.game_state.winner, Some(Player::Computer));
    assert_eq!(
        app.instructions,
        "Steve wins! Press N to clear the board and S to start a new game."
    );
}

#[test]
fn computer_placement_filling_the_board_is_a_draw() {
    let mut app = running_app();
    app.game_state.current_turn = Player::Computer;
    occupy(&mut app, 0, 0, Player::User);
    occupy(&mut app, 0, 1, Player::Computer);
    occupy(&mut app, 0, 2, Player::User);
    occupy(&mut app, 1, 0, Player::User);
    occupy(&mut app, 1, 2, Player::Computer);
    occupy(&mut app, 2, 0, Player::Computer);
    occupy(&mut app, 2, 1, Player::User);
    occupy(&mut app, 2, 2, Player::Computer);
    let trigger = app.computer_place_token((1, 1));
    assert!(matches!(trigger, Some(Trigger::Draw)));
    assert_eq!(app.game_state.winner, None);
    assert_eq!(
        app.instructions,
        "It's a tie. Press N to clear the board and S to start a new game."
    );
}

#[test]
fn computer_placement_after_a_win_is_not_accepted() {
    let mut app = running_app();
    occupy(&mut app, 1, 0, Player::User);
    occupy(&mut app, 1, 1, Player::User);
    occupy(&mut app, 1, 2, Player::User);
    app.game_state.winner = Some(Player::User);
    app.game_state.current_turn = Player::Computer;
    let before_cells = app.game_state.board_state.cells;
    let before_note = app.instructions.clone();
    let trigger = app.computer_place_token((0, 0));
    assert!(trigger.is_none());
    assert_eq!(app.game_state.board_state.cells, before_cells);
    assert_eq!(app.game_state.winner, Some(Player::User));
    assert_eq!(app.instructions, before_note);
}

#[test]
fn computer_placement_before_the_game_starts_is_not_accepted() {
    let mut app = App::default();
    let before_cells = app.game_state.board_state.cells;
    let trigger = app.computer_place_token((0, 0));
    assert!(trigger.is_none());
    assert_eq!(app.game_state.board_state.cells, before_cells);
    assert!(!app.game_state.started);
}

#[test]
fn computer_placement_on_an_occupied_cell_reports_a_fault() {
    let mut app = running_app();
    app.game_state.current_turn = Player::Computer;
    occupy(&mut app, 1, 1, Player::User);
    let trigger = app.computer_place_token((1, 1));
    assert!(trigger.is_none());
    assert_eq!(app.instructions, "Oops, something went wrong.");
    assert_eq!(app.game_state.current_turn, Player::Computer);
}

#[test]
fn new_game_is_rejected_while_a_game_runs() {
    let mut app = running_app();
    occupy(&mut app, 0, 0, Player::User);
    app.new_game();
    assert!(app.game_state.started);
    assert!(matches!(
        app.game_state.board_state.occupant_at(0, 0),
        BoardCell::Occupied(Player::User)
    ));
    assert_eq!(
        app.instructions,
        "Unable to start a new game until the current game is finished."
    );
}

#[test]
fn new_game_after_a_win_clears_the_board() {
    let mut app = running_app();
    occupy(&mut app, 0, 0, Player::User);
    app.game_state.winner = Some(Player::User);
    app.new_game();
    assert!(!app.game_state.started);
    assert_eq!(app.game_state.winner, None);
    assert_eq!(app.instructions, "Press S to start game.");
    assert_eq!((app.cursor_location.row, app.cursor_location.column), (1, 1));
    for row in 0..3 {
        for column in 0..3 {
            assert!(matches!(
                app.game_state.board_state.occupant_at(row, column),
                BoardCell::Empty
            ));
        }
    }
}

#[test]
fn new_game_after_a_draw_clears_the_board() {
    let mut app = running_app();
    occupy(&mut app, 0, 0, Player::Computer);
    occupy(&mut app, 0, 1, Player::User);
    occupy(&mut app, 0, 2, Player::Computer);
    occupy(&mut app, 1, 0, Player::Computer);
    occupy(&mut app, 1, 1, Player::User);
    occupy(&mut app, 1, 2, Player::User);
    occupy(&mut app, 2, 0, Player::User);
    occupy(&mut app, 2, 1, Player::Computer);
    occupy(&mut app, 2, 2, Player::Computer);
    assert_eq!(app.game_state.board_state.check_for_winner(), None);
    app.new_game();
    assert!(!app.game_state.started);
    assert_eq!(app.instructions, "Press S to start game.");
}

#[test]
fn difficulty_change_is_rejected_during_play() {
    let mut app = running_app();
    occupy(&mut app, 0, 0, Player::User);
    app.update_level(Level::Hard);
    assert_eq!(app.game_state.difficulty_level, Level::Easy);
    assert_eq!(
        app.instructions,
        "Unable to update the difficulty while the game has started."
    );
}

#[test]
fn difficulty_changes_before_the_game_starts() {
    let mut app = App::default();
    let note = app.instructions.clone();
    app.update_level(Level::Hard);
    assert_eq!(app.game_state.difficulty_level, Level::Hard);
    assert_eq!(app.instructions, note);
}

#[test]
fn difficulty_changes_again_after_a_win() {
    let mut app = running_app();
    app.game_state.winner = Some(Player::Computer);
    app.update_level(Level::Hard);
    assert_eq!(app.game_state.difficulty_level, Level::Hard);
}

#[test]
fn opponent_change_is_rejected_during_play() {
    let mut app = running_app();
    app.swap_computer_character();
    assert_eq!(app.game_state.computer_character, Character::SpeedySteve);
    assert_eq!(
        app.instructions,
        "Unable to change your opponent while the game is being played."
    );
}

#[test]
fn opponent_swaps_before_the_game_starts() {
    let mut app = App::default();
    app.swap_computer_character();
    assert_eq!(app.game_state.computer_character, Character::ChattyDave);
    app.swap_computer_character();
    assert_eq!(app.game_state.computer_character, Character::SpeedySteve);
}

#[test]
fn the_other_persona_speaks_in_the_notes() {
    let mut app = App::default();
    app.swap_computer_character();
    app.game_state.started = true;
    app.game_state.current_turn = Player::Computer;
    let trigger = app.enter();
    assert!(trigger.is_none());
    assert_eq!(app.instructions, "Daves turns. Please wait.");
}

#[test]
fn starting_the_game_draws_an_opening_side() {
    let mut app = App::default();
    let trigger = app.start_game();
    assert!(app.game_state.started);
    match app.game_state.current_turn {
        Player::User => {
            assert!(trigger.is_none());
            assert_eq!(
                app.instructions,
                "Game started! Your turn first. Press enter to your place token."
            );
        }
        Player::Computer => {
            assert!(matches!(trigger, Some(Trigger::ComputersTurnFirst)));
            assert_eq!(app.instructions, "Game started! Steve will go first.");
        }
    }
}

#[test]
fn starting_twice_only_updates_the_note() {
    let mut app = App::default();
    let _ = app.start_game();
    let turn = app.game_state.current_turn;
    let trigger = app.start_game();
    assert!(trigger.is_none());
    assert_eq!(app.instructions, "Game is already started.");
    assert_eq!(app.game_state.current_turn, turn);
}

#[test]
fn restart_returns_to_the_opening_screen() {
    let mut app = running_app();
    occupy(&mut app, 2, 2, Player::Computer);
    app.restart_game();
    assert!(!app.game_state.started);
    assert_eq!(app.game_state.winner, None);
    assert_eq!(app.instructions, "Press S to start game.");
    assert_eq!((app.cursor_location.row, app.cursor_location.column), (1, 1));
}

#[test]
fn swapping_the_turn_flips_the_owner() {
    let mut app = App::default();
    app.game_state.swap_current_turn();
    assert_eq!(app.game_state.current_turn, Player::Computer);
    app.game_state.swap_current_turn();
    assert_eq!(app.game_state.current_turn, Player::User);
}

#[test]
fn key_presses_reach_the_right_commands() {
    let mut app = App::default();
    let trigger = handle_user_input(&mut app, InputKey::Char('h'));
    assert!(trigger.is_none());
    assert_eq!(app.game_state.difficulty_level, Level::Hard);

    let trigger = handle_user_input(&mut app, InputKey::Up);
    assert!(trigger.is_none());
    assert_eq!(app.cursor_location.row, 2);

    let trigger = handle_user_input(&mut app, InputKey::Char('c'));
    assert!(trigger.is_none());
    assert_eq!(app.game_state.computer_character, Character::ChattyDave);

    let before_cursor = (app.cursor_location.row, app.cursor_location.column);
    let trigger = handle_user_input(&mut app, InputKey::Char('z'));
    assert!(trigger.is_none());
    assert_eq!(
        (app.cursor_location.row, app.cursor_location.column),
        before_cursor
    );

    let trigger = handle_user_input(&mut app, InputKey::Unhandled);
    assert!(trigger.is_none());
    let trigger = handle_user_input(&mut app, InputKey::Esc);
    assert!(trigger.is_none());
}
