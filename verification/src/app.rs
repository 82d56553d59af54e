//! The game itself: the 3x3 board with placement and win and draw
//! queries, the cursor, the game state, and the handlers that fold key
//! presses and placement outcomes into the application.

use vstd::prelude::*;

use crate::computer::Character;
use crate::computer::Trigger;
use crate::computer::random_index;

verus! {

/// Which side occupies a cell or takes the current turn.
#[derive(Clone, Copy, Debug, PartialEq, Eq, Structural)]
pub enum Player {
    User,
    Computer,
}

/// The side opposing `player`.
pub open spec fn other_player(player: Player) -> Player {
    match player {
        Player::User => Player::Computer,
        Player::Computer => Player::User,
    }
}

/// The opponent's difficulty: random moves, or win-then-block-then-random.
#[derive(Clone, Copy, Debug, PartialEq, Eq, Structural)]
pub enum Level {
    Easy,
    Hard,
}

/// The coordinates of the highlighted cell; always in bounds.
#[derive(Clone, Copy, Debug, PartialEq, Eq, Structural)]
pub struct CursorLocation {
    pub row: usize,
    pub column: usize,
}

impl Default for CursorLocation {
    /// The centre of the board.
    fn default() -> (c: Self)
        ensures
            c == (CursorLocation { row: 1, column: 1 }),
    {
        CursorLocation { row: 1, column: 1 }
    }
}

/// A single cell: empty, or occupied by one side.
#[derive(Clone, Copy, Debug, PartialEq, Eq, Structural)]
pub enum BoardCell {
    Empty,
    Occupied(Player),
}

/// A cell together with its visual highlight flag.
#[derive(Clone, Copy, Debug, PartialEq, Eq, Structural)]
pub enum BoardCellState {
    Selected(BoardCell),
    NotSelected(BoardCell),
}

/// Everything the game tracks besides the user-facing text: the board,
/// whose turn it is, the configuration, and the winner once there is one.
#[derive(Clone, Copy, Debug)]
pub struct GameState {
    pub board_state: BoardState,
    pub current_turn: Player,
    pub difficulty_level: Level,
    pub started: bool,
    pub computer_character: Character,
    pub winner: Option<Player>,
}

impl GameState {
    /// Hand the turn to the other side; nothing else changes.
    pub fn swap_current_turn(&mut self)
        ensures
            final(self).current_turn == other_player(old(self).current_turn),
            final(self).board_state == old(self).board_state,
            final(self).difficulty_level == old(self).difficulty_level,
            final(self).started == old(self).started,
            final(self).computer_character == old(self).computer_character,
            final(self).winner == old(self).winner,
    {
        self.current_turn = match self.current_turn {
            Player::Computer => Player::User,
            Player::User => Player::Computer,
        };
    }
}

/// The board `post` is the board `pre` with one token put on
/// `(row, column)` and the highlight flags untouched.
pub open spec fn board_placed(
    pre: BoardState,
    post: BoardState,
    row: int,
    column: int,
    player: Player,
) -> bool {
    &&& post.cell(row, column) == pre.placed_cell(row, column, player)
    &&& forall|r: int, c: int|
        0 <= r < 3 && 0 <= c < 3 && !(r == row && c == column) ==> #[trigger] post.cell(r, c)
            == pre.cell(r, c)
}

/// The outcome of asking the board to place a token.
#[derive(Clone, Copy, Debug, PartialEq, Eq, Structural)]
pub enum PlaceTokenResult {
    SuccessWithWinner(Player),
    Success,
    OccupiedByUser,
    OccupiedByComputer,
    Error,
}

/// The waiting note shown when the human presses enter out of turn.
pub open spec fn wait_turn_text(character: Character) -> Seq<char> {
    if character == Character::ChattyDave {
        "Daves turns. Please wait."@
    } else {
        "Steves turns. Please wait."@
    }
}

/// The note shown when the opponent opens the game.
pub open spec fn started_computer_text(character: Character) -> Seq<char> {
    if character == Character::ChattyDave {
        "Game started! Dave will go first."@
    } else {
        "Game started! Steve will go first."@
    }
}

/// The note shown after the human's move hands the turn over.
pub open spec fn computers_turn_text(character: Character) -> Seq<char> {
    if character == Character::ChattyDave {
        "Daves turn."@
    } else {
        "Steves turn."@
    }
}

/// The chat line after the opponent's move hands the turn back.
pub open spec fn ok_your_turn_text(character: Character) -> Seq<char> {
    if character == Character::ChattyDave {
        "Dave: Ok, your turn!"@
    } else {
        "Steve: Ok, your turn!"@
    }
}

/// The note shown when the opponent completes a line.
pub open spec fn computer_wins_text(character: Character) -> Seq<char> {
    if character == Character::ChattyDave {
        "Dave wins! Press N to clear the board and S to start a new game."@
    } else {
        "Steve wins! Press N to clear the board and S to start a new game."@
    }
}

/// The note shown when the human aims at a cell the opponent holds.
pub open spec fn opponent_cell_text(character: Character) -> Seq<char> {
    if character == Character::ChattyDave {
        "This cell is already occupied by Dave."@
    } else {
        "This cell is already occupied by Steve."@
    }
}

/// The waiting note, built for the configured persona.
fn wait_turn_message(character: Character) -> (m: String)
    ensures
        m@ == wait_turn_text(character),
{
    match character {
        Character::ChattyDave => "Daves turns. Please wait.".to_owned(),
        Character::SpeedySteve => "Steves turns. Please wait.".to_owned(),
    }
}

/// The opening note, built for the configured persona.
fn started_computer_message(character: Character) -> (m: String)
    ensures
        m@ == started_computer_text(character),
{
    match character {
        Character::ChattyDave => "Game started! Dave will go first.".to_owned(),
        Character::SpeedySteve => "Game started! Steve will go first.".to_owned(),
    }
}

/// The hand-over note, built for the configured persona.
fn computers_turn_message(character: Character) -> (m: String)
    ensures
        m@ == computers_turn_text(character),
{
    match character {
        Character::ChattyDave => "Daves turn.".to_owned(),
        Character::SpeedySteve => "Steves turn.".to_owned(),
    }
}

/// The hand-back chat line, built for the configured persona.
fn ok_your_turn_chat(character: Character) -> (m: String)
    ensures
        m@ == ok_your_turn_text(character),
{
    match character {
        Character::ChattyDave => "Dave: Ok, your turn!".to_owned(),
        Character::SpeedySteve => "Steve: Ok, your turn!".to_owned(),
    }
}

/// The winning note, built for the configured persona.
fn computer_wins_message(character: Character) -> (m: String)
    ensures
        m@ == computer_wins_text(character),
{
    match character {
        Character::ChattyDave => {
            "Dave wins! Press N to clear the board and S to start a new game.".to_owned()
        }
        Character::SpeedySteve => {
            "Steve wins! Press N to clear the board and S to start a new game.".to_owned()
        }
    }
}

/// The occupied-cell note, built for the configured persona.
fn opponent_cell_message(character: Character) -> (m: String)
    ensures
        m@ == opponent_cell_text(character),
{
    match character {
        Character::ChattyDave => "This cell is already occupied by Dave.".to_owned(),
        Character::SpeedySteve => "This cell is already occupied by Steve.".to_owned(),
    }
}

/// The eight winning triples in their fixed evaluation order:
/// three rows, then three columns, then the two diagonals.
pub open spec fn combo(i: int) -> ((usize, usize), (usize, usize), (usize, usize)) {
    if i == 0 {
        ((0, 0), (0, 1), (0, 2))
    } else if i == 1 {
        ((1, 0), (1, 1), (1, 2))
    } else if i == 2 {
        ((2, 0), (2, 1), (2, 2))
    } else if i == 3 {
        ((0, 0), (1, 0), (2, 0))
    } else if i == 4 {
        ((0, 1), (1, 1), (2, 1))
    } else if i == 5 {
        ((0, 2), (1, 2), (2, 2))
    } else if i == 6 {
        ((0, 0), (1, 1), (2, 2))
    } else {
        ((0, 2), (1, 1), (2, 0))
    }
}

/// The 3x3 grid, addressed as `cells[row][column]` with row 0 at the bottom.
#[derive(Clone, Copy, Debug)]
pub struct BoardState {
    pub cells: [[BoardCellState; 3]; 3],
}

impl BoardState {
    /// The cell slot at `(row, column)`.
    pub open spec fn cell(self, row: int, column: int) -> BoardCellState {
        self.cells[row][column]
    }

    /// The occupancy of the slot at `(row, column)`, highlight ignored.
    pub open spec fn occupant(self, row: int, column: int) -> BoardCell {
        match self.cell(row, column) {
            BoardCellState::Selected(c) => c,
            BoardCellState::NotSelected(c) => c,
        }
    }

    /// True when `(row, column)` is occupied by `player`.
    pub open spec fn owned_by(self, row: int, column: int, player: Player) -> bool {
        self.occupant(row, column) == BoardCell::Occupied(player)
    }

    /// True when `(row, column)` is not occupied.
    pub open spec fn cell_empty(self, row: int, column: int) -> bool {
        self.occupant(row, column) == BoardCell::Empty
    }

    /// True when `(row, column)` carries the highlight.
    pub open spec fn selected(self, row: int, column: int) -> bool {
        self.cell(row, column) is Selected
    }

    /// True when every cell of the triple `combo(i)` is occupied by `player`.
    pub open spec fn combo_owned(self, i: int, player: Player) -> bool {
        let c = combo(i);
        self.owned_by(c.0.0 as int, c.0.1 as int, player)
            && self.owned_by(c.1.0 as int, c.1.1 as int, player)
            && self.owned_by(c.2.0 as int, c.2.1 as int, player)
    }

    /// The owner of the triple `combo(i)`, if one side holds all three cells.
    pub open spec fn combo_winner(self, i: int) -> Option<Player> {
        if self.combo_owned(i, Player::User) {
            Some(Player::User)
        } else if self.combo_owned(i, Player::Computer) {
            Some(Player::Computer)
        } else {
            None
        }
    }

    /// The winner reported by the board: the owner of the first complete
    /// triple in the fixed evaluation order, if any triple is complete.
    pub open spec fn spec_winner(self) -> Option<Player> {
        if self.combo_winner(0) is Some {
            self.combo_winner(0)
        } else if self.combo_winner(1) is Some {
            self.combo_winner(1)
        } else if self.combo_winner(2) is Some {
            self.combo_winner(2)
        } else if self.combo_winner(3) is Some {
            self.combo_winner(3)
        } else if self.combo_winner(4) is Some {
            self.combo_winner(4)
        } else if self.combo_winner(5) is Some {
            self.combo_winner(5)
        } else if self.combo_winner(6) is Some {
            self.combo_winner(6)
        } else if self.combo_winner(7) is Some {
            self.combo_winner(7)
        } else {
            None
        }
    }

    /// True when `player` holds all three cells of some winning triple.
    pub open spec fn wins(self, player: Player) -> bool {
        exists|i: int| 0 <= i < 8 && #[trigger] self.combo_owned(i, player)
    }

    /// True when every cell of the board is occupied.
    pub open spec fn full(self) -> bool {
        forall|r: int, c: int| 0 <= r < 3 && 0 <= c < 3 ==> !(#[trigger] self.cell_empty(r, c))
    }

    /// True when `player` may put a token on `(row, column)`: the cell is
    /// empty, and for the human it must also carry the highlight, while the
    /// automated player may use any empty cell.
    pub open spec fn placement_allowed(self, row: int, column: int, player: Player) -> bool {
        self.cell_empty(row, column) && (self.selected(row, column) || player == Player::Computer)
    }

    /// The slot value after a successful placement: the token goes in and
    /// the highlight flag stays what it was.
    pub open spec fn placed_cell(self, row: int, column: int, player: Player) -> BoardCellState {
        if self.selected(row, column) {
            BoardCellState::Selected(BoardCell::Occupied(player))
        } else {
            BoardCellState::NotSelected(BoardCell::Occupied(player))
        }
    }

    /// A fresh board: every cell empty, only the centre highlighted.
    pub fn default() -> (board: BoardState)
        ensures
            forall|r: int, c: int|
                0 <= r < 3 && 0 <= c < 3 ==> #[trigger] board.cell_empty(r, c),
            forall|r: int, c: int|
                0 <= r < 3 && 0 <= c < 3 ==> (#[trigger] board.selected(r, c) <==> r == 1 && c == 1),
    {
        BoardState {
            cells: [
                [
                    BoardCellState::NotSelected(BoardCell::Empty),
                    BoardCellState::NotSelected(BoardCell::Empty),
                    BoardCellState::NotSelected(BoardCell::Empty),
                ],
                [
                    BoardCellState::NotSelected(BoardCell::Empty),
                    BoardCellState::Selected(BoardCell::Empty),
                    BoardCellState::NotSelected(BoardCell::Empty),
                ],
                [
                    BoardCellState::NotSelected(BoardCell::Empty),
                    BoardCellState::NotSelected(BoardCell::Empty),
                    BoardCellState::NotSelected(BoardCell::Empty),
                ],
            ],
        }
    }

    /// The eight winning triples as runtime values, in the same fixed
    /// order that `combo` gives them.
    pub fn winning_combinations() -> (combos: Vec<((usize, usize), (usize, usize), (usize, usize))>)
        ensures
            combos@.len() == 8,
            forall|i: int| 0 <= i < 8 ==> #[trigger] combos@[i] == combo(i),
    {
        let mut combos: Vec<((usize, usize), (usize, usize), (usize, usize))> = Vec::new();
        combos.push(((0, 0), (0, 1), (0, 2)));
        combos.push(((1, 0), (1, 1), (1, 2)));
        combos.push(((2, 0), (2, 1), (2, 2)));
        combos.push(((0, 0), (1, 0), (2, 0)));
        combos.push(((0, 1), (1, 1), (2, 1)));
        combos.push(((0, 2), (1, 2), (2, 2)));
        combos.push(((0, 0), (1, 1), (2, 2)));
        combos.push(((0, 2), (1, 1), (2, 0)));
        combos
    }

    /// The occupancy of the slot at `(row, column)`, highlight ignored.
    pub fn occupant_at(&self, row: usize, column: usize) -> (c: BoardCell)
        requires
            row < 3,
            column < 3,
        ensures
            c == self.occupant(row as int, column as int),
    {
        match self.cells[row][column] {
            BoardCellState::Selected(c) => c,
            BoardCellState::NotSelected(c) => c,
        }
    }

    /// The owner of the first complete triple in the fixed evaluation
    /// order, or `None` when no triple is complete.
    pub fn check_for_winner(&self) -> (winner: Option<Player>)
        ensures
            winner == self.spec_winner(),
    {
        let combos = BoardState::winning_combinations();
        let mut i: usize = 0;
        while i < 8
            invariant
                i <= 8,
                combos@.len() == 8,
                forall|j: int| 0 <= j < 8 ==> #[trigger] combos@[j] == combo(j),
                forall|j: int| 0 <= j < i ==> #[trigger] self.combo_winner(j) is None,
            decreases 8 - i,
        {
            let ((r0, c0), (r1, c1), (r2, c2)) = combos[i];
            let first = self.occupant_at(r0, c0);
            let second = self.occupant_at(r1, c1);
            let third = self.occupant_at(r2, c2);
            match (first, second, third) {
                (BoardCell::Occupied(p), BoardCell::Occupied(q), BoardCell::Occupied(s)) => {
                    if p == q && q == s {
                        return Some(p);
                    }
                }
                _ => {}
            }
            i = i + 1;
        }
        None
    }

    /// Put `player`'s token on `location` if the board allows it.
    ///
    /// The human may only fill the highlighted cell; the automated player
    /// may fill any empty cell. An occupied cell is reported as occupied
    /// and nothing changes; a human attempt on an unhighlighted cell is
    /// rejected and nothing changes.
    pub fn try_place_token(&mut self, location: (usize, usize), player: Player) -> (result:
        PlaceTokenResult)
        requires
            location.0 < 3,
            location.1 < 3,
        ensures
            old(self).placement_allowed(location.0 as int, location.1 as int, player) ==> {
                &&& board_placed(
                    *old(self),
                    *final(self),
                    location.0 as int,
                    location.1 as int,
                    player,
                )
                &&& (final(self).spec_winner() matches Some(w) ==> result
                    == PlaceTokenResult::SuccessWithWinner(w))
                &&& (final(self).spec_winner() is None ==> result == PlaceTokenResult::Success)
            },
            !old(self).placement_allowed(location.0 as int, location.1 as int, player)
                ==> *final(self) == *old(self),
            (old(self).selected(location.0 as int, location.1 as int) || player == Player::Computer)
                && old(self).occupant(location.0 as int, location.1 as int) == BoardCell::Occupied(
                Player::User,
            ) ==> result == PlaceTokenResult::OccupiedByUser,
            (old(self).selected(location.0 as int, location.1 as int) || player == Player::Computer)
                && old(self).occupant(location.0 as int, location.1 as int) == BoardCell::Occupied(
                Player::Computer,
            ) ==> result == PlaceTokenResult::OccupiedByComputer,
            player == Player::User && !old(self).selected(location.0 as int, location.1 as int)
                ==> result == PlaceTokenResult::Error,
    {
        let (row, column) = location;
        match (self.cells[row][column], player) {
            (BoardCellState::Selected(BoardCell::Empty), _) => {
                self.set_cell(row, column, BoardCellState::Selected(BoardCell::Occupied(player)));
                match self.check_for_winner() {
                    Some(p) => PlaceTokenResult::SuccessWithWinner(p),
                    None => PlaceTokenResult::Success,
                }
            }
            (BoardCellState::Selected(BoardCell::Occupied(Player::User)), _) => {
                PlaceTokenResult::OccupiedByUser
            }
            (BoardCellState::Selected(BoardCell::Occupied(Player::Computer)), _) => {
                PlaceTokenResult::OccupiedByComputer
            }
            (BoardCellState::NotSelected(BoardCell::Empty), Player::Computer) => {
                self.set_cell(
                    row,
                    column,
                    BoardCellState::NotSelected(BoardCell::Occupied(player)),
                );
                match self.check_for_winner() {
                    Some(p) => PlaceTokenResult::SuccessWithWinner(p),
                    None => PlaceTokenResult::Success,
                }
            }
            (BoardCellState::NotSelected(BoardCell::Occupied(Player::User)), Player::Computer) => {
                PlaceTokenResult::OccupiedByUser
            }
            (
                BoardCellState::NotSelected(BoardCell::Occupied(Player::Computer)),
                Player::Computer,
            ) => {
                PlaceTokenResult::OccupiedByComputer
            }
            (BoardCellState::NotSelected(_), Player::User) => PlaceTokenResult::Error,
        }
    }

    /// Overwrite one slot, leaving every other slot as it was.
    fn set_cell(&mut self, row: usize, column: usize, value: BoardCellState)
        requires
            row < 3,
            column < 3,
        ensures
            final(self).cell(row as int, column as int) == value,
            forall|r: int, c: int|
                0 <= r < 3 && 0 <= c < 3 && !(r == row && c == column)
                    ==> #[trigger] final(self).cell(r, c) == old(self).cell(r, c),
    {
        self.cells[row][column] = value;
    }
}

/// Law: a side that holds all three cells of some winning triple, while
/// the other side holds no complete triple, is exactly the winner the
/// board reports.
pub proof fn lemma_line_winner(board: BoardState, player: Player, i: int)
    requires
        0 <= i < 8,
        board.combo_owned(i, player),
        !board.wins(other_player(player)),
    ensures
        board.spec_winner() == Some(player),
{
    assert forall|j: int| 0 <= j < 8 implies (board.combo_winner(j) is None
        || board.combo_winner(j) == Some(player)) by {
        if board.combo_owned(j, other_player(player)) {
            assert(board.wins(other_player(player)));
        }
    }
    assert(board.combo_winner(i) == Some(player));
}

/// Law: a full board on which neither side holds a complete triple
/// reports no winner, so such a game ends drawn, never won.
pub proof fn lemma_full_without_line_is_draw(board: BoardState)
    requires
        board.full(),
        !board.wins(Player::User),
        !board.wins(Player::Computer),
    ensures
        board.spec_winner() is None,
{
    assert forall|j: int| 0 <= j < 8 implies board.combo_winner(j) is None by {
        if board.combo_owned(j, Player::User) {
            assert(board.wins(Player::User));
        }
        if board.combo_owned(j, Player::Computer) {
            assert(board.wins(Player::Computer));
        }
    }
}

/// Law: when the human's placement completes a triple while the opponent
/// holds none, the game records the human as the winner and tells the
/// opponent it lost.
pub proof fn lemma_enter_win_transition(
    pre: App,
    post: App,
    trigger: Option<Trigger>,
    i: int,
)
    requires
        enter_rel(pre, post, trigger),
        pre.in_progress(),
        pre.game_state.current_turn == Player::User,
        pre.game_state.board_state.cell_empty(
            pre.cursor_location.row as int,
            pre.cursor_location.column as int,
        ),
        0 <= i < 8,
        post.game_state.board_state.combo_owned(i, Player::User),
        !post.game_state.board_state.wins(Player::Computer),
    ensures
        post.game_state.winner == Some(Player::User),
        trigger == Some(Trigger::Loser),
{
    lemma_line_winner(post.game_state.board_state, Player::User, i);
}

/// Law: when the human's placement fills the board and neither side holds
/// a complete triple, the game ends drawn, never won.
pub proof fn lemma_enter_draw_transition(pre: App, post: App, trigger: Option<Trigger>)
    requires
        enter_rel(pre, post, trigger),
        pre.in_progress(),
        pre.game_state.current_turn == Player::User,
        pre.game_state.board_state.cell_empty(
            pre.cursor_location.row as int,
            pre.cursor_location.column as int,
        ),
        post.game_state.board_state.full(),
        !post.game_state.board_state.wins(Player::User),
        !post.game_state.board_state.wins(Player::Computer),
    ensures
        post.game_state.winner is None,
        trigger == Some(Trigger::Draw),
{
    lemma_full_without_line_is_draw(post.game_state.board_state);
}

/// The whole application: the user-facing text, the game, and the cursor.
pub struct App {
    pub instructions: String,
    pub chat: String,
    pub game_state: GameState,
    pub cursor_location: CursorLocation,
}

/// The cursor of `post` stands on `(row, column)` while every cell's
/// occupancy, the text, and the whole game configuration of `pre` are kept.
pub open spec fn cursor_moved_to(pre: App, post: App, row: int, column: int) -> bool {
    &&& post.cursor_location.row == row
    &&& post.cursor_location.column == column
    &&& forall|r: int, c: int|
        0 <= r < 3 && 0 <= c < 3 ==> #[trigger] post.game_state.board_state.occupant(r, c)
            == pre.game_state.board_state.occupant(r, c)
    &&& post.instructions == pre.instructions
    &&& post.chat == pre.chat
    &&& post.game_state.current_turn == pre.game_state.current_turn
    &&& post.game_state.difficulty_level == pre.game_state.difficulty_level
    &&& post.game_state.started == pre.game_state.started
    &&& post.game_state.computer_character == pre.game_state.computer_character
    &&& post.game_state.winner == pre.game_state.winner
}

/// Only the instructional text may differ between `pre` and `post`.
pub open spec fn only_instructions_changed(pre: App, post: App) -> bool {
    &&& post.chat == pre.chat
    &&& post.game_state == pre.game_state
    &&& post.cursor_location == pre.cursor_location
}

/// The state `post` is the state `pre` taken back to the opening screen:
/// an empty board, the cursor at the centre, no winner, not started. The
/// chat, the turn owner and the configuration carry over.
pub open spec fn reset_for_new_game(pre: App, post: App) -> bool {
    &&& post.instructions@ == "Press S to start game."@
    &&& post.chat == pre.chat
    &&& forall|r: int, c: int|
        0 <= r < 3 && 0 <= c < 3 ==> #[trigger] post.game_state.board_state.cell_empty(r, c)
    &&& post.cursor_location == (CursorLocation { row: 1, column: 1 })
    &&& post.game_state.winner is None
    &&& !post.game_state.started
    &&& post.game_state.current_turn == pre.game_state.current_turn
    &&& post.game_state.difficulty_level == pre.game_state.difficulty_level
    &&& post.game_state.computer_character == pre.game_state.computer_character
}

/// One cursor step up: a no-op at the top edge, else one row up.
pub open spec fn up_rel(pre: App, post: App) -> bool {
    &&& (pre.cursor_location.row == 2 ==> post == pre)
    &&& (pre.cursor_location.row < 2 ==> cursor_moved_to(
        pre,
        post,
        pre.cursor_location.row + 1,
        pre.cursor_location.column as int,
    ))
}

/// One cursor step down: a no-op at the bottom edge, else one row down.
pub open spec fn down_rel(pre: App, post: App) -> bool {
    &&& (pre.cursor_location.row == 0 ==> post == pre)
    &&& (pre.cursor_location.row > 0 ==> cursor_moved_to(
        pre,
        post,
        pre.cursor_location.row - 1,
        pre.cursor_location.column as int,
    ))
}

/// One cursor step left: a no-op at the left edge, else one column left.
pub open spec fn left_rel(pre: App, post: App) -> bool {
    &&& (pre.cursor_location.column == 0 ==> post == pre)
    &&& (pre.cursor_location.column > 0 ==> cursor_moved_to(
        pre,
        post,
        pre.cursor_location.row as int,
        pre.cursor_location.column - 1,
    ))
}

/// One cursor step right: a no-op at the right edge, else one column right.
pub open spec fn right_rel(pre: App, post: App) -> bool {
    &&& (pre.cursor_location.column == 2 ==> post == pre)
    &&& (pre.cursor_location.column < 2 ==> cursor_moved_to(
        pre,
        post,
        pre.cursor_location.row as int,
        pre.cursor_location.column + 1,
    ))
}

/// What the confirm key does: outside a running game nothing; out of turn
/// only the waiting note; in turn, a placement on the highlighted cell
/// with its win, draw and hand-over outcomes.
pub open spec fn enter_rel(pre: App, post: App, trigger: Option<Trigger>) -> bool {
    &&& (!pre.in_progress() ==> post == pre && trigger is None)
    &&& (pre.in_progress() && pre.game_state.current_turn == Player::Computer ==> {
        &&& only_instructions_changed(pre, post)
        &&& post.instructions@ == wait_turn_text(pre.game_state.computer_character)
        &&& trigger is None
    })
    &&& (pre.in_progress() && pre.game_state.current_turn == Player::User ==> ({
        let row = pre.cursor_location.row as int;
        let column = pre.cursor_location.column as int;
        let pre_board = pre.game_state.board_state;
        let post_board = post.game_state.board_state;
        if pre_board.cell_empty(row, column) {
            &&& board_placed(pre_board, post_board, row, column, Player::User)
            &&& post.cursor_location == pre.cursor_location
            &&& post.game_state.started
            &&& post.game_state.difficulty_level == pre.game_state.difficulty_level
            &&& post.game_state.computer_character == pre.game_state.computer_character
            &&& post.chat == pre.chat
            &&& if post_board.spec_winner() is Some {
                &&& post.game_state.winner == Some(Player::User)
                &&& post.game_state.current_turn == Player::User
                &&& post.instructions@
                    == "You win! Press N to clear the game board and S to start a new game."@
                &&& trigger == Some(Trigger::Loser)
            } else if post_board.full() {
                &&& post.game_state.winner is None
                &&& post.game_state.current_turn == Player::Computer
                &&& post.instructions@
                    == "It's a tie. Press N to clear the board and S to start a new game."@
                &&& trigger == Some(Trigger::Draw)
            } else {
                &&& post.game_state.winner is None
                &&& post.game_state.current_turn == Player::Computer
                &&& post.instructions@ == computers_turn_text(pre.game_state.computer_character)
                &&& trigger == Some(Trigger::ComputersTurn(post.game_state))
            }
        } else {
            &&& only_instructions_changed(pre, post)
            &&& (pre_board.occupant(row, column) == BoardCell::Occupied(Player::User)
                ==> post.instructions@ == "This cell is already occupied by you."@)
            &&& (pre_board.occupant(row, column) == BoardCell::Occupied(Player::Computer)
                ==> post.instructions@ == opponent_cell_text(pre.game_state.computer_character))
            &&& trigger is None
        }
    }))
}

/// What the start key does: on a fresh game, draw the opening side and
/// start; on a started game, only the note changes.
pub open spec fn start_game_rel(pre: App, post: App, trigger: Option<Trigger>) -> bool {
    &&& (pre.game_state.started ==> {
        &&& only_instructions_changed(pre, post)
        &&& post.instructions@ == "Game is already started."@
        &&& trigger is None
    })
    &&& (!pre.game_state.started ==> {
        &&& post.game_state.started
        &&& post.game_state.board_state == pre.game_state.board_state
        &&& post.cursor_location == pre.cursor_location
        &&& post.game_state.winner == pre.game_state.winner
        &&& post.game_state.difficulty_level == pre.game_state.difficulty_level
        &&& post.game_state.computer_character == pre.game_state.computer_character
        &&& post.chat == pre.chat
        &&& (post.game_state.current_turn == Player::Computer ==> trigger == Some(
            Trigger::ComputersTurnFirst,
        ) && post.instructions@ == started_computer_text(pre.game_state.computer_character))
        &&& (post.game_state.current_turn == Player::User ==> trigger is None
            && post.instructions@
            == "Game started! Your turn first. Press enter to your place token."@)
    })
}

/// What the new-game key does: reset once the game is over, else only the
/// note changes.
pub open spec fn new_game_rel(pre: App, post: App) -> bool {
    &&& (pre.game_over() ==> reset_for_new_game(pre, post))
    &&& (!pre.game_over() ==> {
        &&& only_instructions_changed(pre, post)
        &&& post.instructions@ == "Unable to start a new game until the current game is finished."@
    })
}

/// What a difficulty key does: set the level while no game runs, else only
/// the note changes.
pub open spec fn update_level_rel(pre: App, post: App, level: Level) -> bool {
    &&& (pre.game_over() || !pre.game_state.started ==> {
        &&& post.game_state.difficulty_level == level
        &&& post.instructions == pre.instructions
        &&& post.chat == pre.chat
        &&& post.cursor_location == pre.cursor_location
        &&& post.game_state.board_state == pre.game_state.board_state
        &&& post.game_state.current_turn == pre.game_state.current_turn
        &&& post.game_state.started == pre.game_state.started
        &&& post.game_state.winner == pre.game_state.winner
        &&& post.game_state.computer_character == pre.game_state.computer_character
    })
    &&& (!(pre.game_over() || !pre.game_state.started) ==> {
        &&& only_instructions_changed(pre, post)
        &&& post.instructions@ == "Unable to update the difficulty while the game has started."@
    })
}

/// What the opponent key does: swap the persona while no game runs, else
/// only the note changes.
pub open spec fn swap_character_rel(pre: App, post: App) -> bool {
    &&& (pre.game_over() || !pre.game_state.started ==> {
        &&& post.game_state.computer_character == (if pre.game_state.computer_character
            == Character::ChattyDave {
            Character::SpeedySteve
        } else {
            Character::ChattyDave
        })
        &&& post.instructions == pre.instructions
        &&& post.chat == pre.chat
        &&& post.cursor_location == pre.cursor_location
        &&& post.game_state.board_state == pre.game_state.board_state
        &&& post.game_state.current_turn == pre.game_state.current_turn
        &&& post.game_state.started == pre.game_state.started
        &&& post.game_state.winner == pre.game_state.winner
        &&& post.game_state.difficulty_level == pre.game_state.difficulty_level
    })
    &&& (!(pre.game_over() || !pre.game_state.started) ==> {
        &&& only_instructions_changed(pre, post)
        &&& post.instructions@ == "Unable to change your opponent while the game is being played."@
    })
}

impl App {
    /// The structural invariant: the cursor is in bounds, and the highlight
    /// sits exactly on the cursor's cell.
    pub open spec fn wf(self) -> bool {
        &&& self.cursor_location.row < 3
        &&& self.cursor_location.column < 3
        &&& forall|r: int, c: int|
            0 <= r < 3 && 0 <= c < 3 ==> (#[trigger] self.game_state.board_state.selected(r, c)
                <==> r == self.cursor_location.row && c == self.cursor_location.column)
    }

    /// True when a game is being played and not yet decided.
    pub open spec fn in_progress(self) -> bool {
        self.game_state.started && self.game_state.winner is None
    }

    /// True when the current game is over: a full board or a winner.
    pub open spec fn game_over(self) -> bool {
        self.game_state.board_state.full() || self.game_state.winner is Some
    }

    /// The opening state: an empty board, the cursor at the centre, the
    /// human to move, easy difficulty, and the game not yet started.
    pub fn default() -> (app: App)
        ensures
            app.wf(),
            app.cursor_location == (CursorLocation { row: 1, column: 1 }),
            forall|r: int, c: int|
                0 <= r < 3 && 0 <= c < 3 ==> #[trigger] app.game_state.board_state.cell_empty(
                    r,
                    c,
                ),
            app.game_state.current_turn == Player::User,
            app.game_state.winner is None,
            !app.game_state.started,
            app.game_state.difficulty_level == Level::Easy,
            app.game_state.computer_character == Character::SpeedySteve,
            app.instructions@ == "Press S to start game."@,
            app.chat@ == ""@,
    {
        App {
            instructions: "Press S to start game.".to_owned(),
            chat: "".to_owned(),
            game_state: GameState {
                current_turn: Player::User,
                winner: None,
                board_state: BoardState::default(),
                difficulty_level: Level::Easy,
                started: false,
                computer_character: Character::SpeedySteve,
            },
            cursor_location: CursorLocation::default(),
        }
    }

    /// Move the highlight to `(row, column)` and record it as the cursor.
    pub fn move_cursor_location(&mut self, row: usize, column: usize)
        requires
            old(self).wf(),
            row < 3,
            column < 3,
        ensures
            final(self).wf(),
            cursor_moved_to(*old(self), *final(self), row as int, column as int),
    {
        let current_row = self.cursor_location.row;
        let current_column = self.cursor_location.column;
        match self.game_state.board_state.cells[current_row][current_column] {
            BoardCellState::Selected(selected_cell) => {
                self.game_state.board_state.set_cell(
                    current_row,
                    current_column,
                    BoardCellState::NotSelected(selected_cell),
                );
            }
            _ => {}
        }
        match self.game_state.board_state.cells[row][column] {
            BoardCellState::NotSelected(cell) => {
                self.game_state.board_state.set_cell(
                    row,
                    column,
                    BoardCellState::Selected(cell),
                );
            }
            _ => {}
        }
        self.cursor_location = CursorLocation { row, column };
        proof {
            assert forall|r: int, c: int| 0 <= r < 3 && 0 <= c < 3 implies (
            self.game_state.board_state.selected(r, c) <==> (r == row && c == column)) by {
                assert(old(self).game_state.board_state.selected(r, c) <==> (r == old(
                    self,
                ).cursor_location.row && c == old(self).cursor_location.column));
            }
            assert forall|r: int, c: int| 0 <= r < 3 && 0 <= c < 3 implies #[trigger] self
                .game_state.board_state.occupant(r, c) == old(
            self).game_state.board_state.occupant(r, c) by {
                assert(old(self).game_state.board_state.selected(r, c) <==> (r == old(
                    self,
                ).cursor_location.row && c == old(self).cursor_location.column));
            }
        }
    }

    /// Move the cursor one row up; at the top edge nothing happens.
    pub fn up(&mut self)
        requires
            old(self).wf(),
        ensures
            final(self).wf(),
            up_rel(*old(self), *final(self)),
    {
        let row = self.cursor_location.row;
        let column = self.cursor_location.column;
        if row == 2 {
        } else {
            self.move_cursor_location(row + 1, column);
        }
    }

    /// Move the cursor one row down; at the bottom edge nothing happens.
    pub fn down(&mut self)
        requires
            old(self).wf(),
        ensures
            final(self).wf(),
            down_rel(*old(self), *final(self)),
    {
        let row = self.cursor_location.row;
        let column = self.cursor_location.column;
        if row == 0 {
        } else {
            self.move_cursor_location(row - 1, column);
        }
    }

    /// Move the cursor one column left; at the left edge nothing happens.
    pub fn left(&mut self)
        requires
            old(self).wf(),
        ensures
            final(self).wf(),
            left_rel(*old(self), *final(self)),
    {
        let row = self.cursor_location.row;
        let column = self.cursor_location.column;
        if column == 0 {
        } else {
            self.move_cursor_location(row, column - 1);
        }
    }

    /// Move the cursor one column right; at the right edge nothing happens.
    pub fn right(&mut self)
        requires
            old(self).wf(),
        ensures
            final(self).wf(),
            right_rel(*old(self), *final(self)),
    {
        let row = self.cursor_location.row;
        let column = self.cursor_location.column;
        if column == 2 {
        } else {
            self.move_cursor_location(row, column + 1);
        }
    }

    /// True exactly when every cell of the board is occupied.
    pub fn game_finished(&mut self) -> (finished: bool)
        ensures
            *final(self) == *old(self),
            finished == old(self).game_state.board_state.full(),
    {
        let mut row: usize = 0;
        while row < 3
            invariant
                row <= 3,
                *self == *old(self),
                forall|r: int, c: int|
                    0 <= r < row && 0 <= c < 3 ==> !(#[trigger] self.game_state.board_state
                        .cell_empty(r, c)),
            decreases 3 - row,
        {
            let mut column: usize = 0;
            while column < 3
                invariant
                    row < 3,
                    column <= 3,
                    *self == *old(self),
                    forall|r: int, c: int|
                        0 <= r < row && 0 <= c < 3 ==> !(#[trigger] self.game_state.board_state
                            .cell_empty(r, c)),
                    forall|c: int|
                        0 <= c < column ==> !(#[trigger] self.game_state.board_state.cell_empty(
                            row as int,
                            c,
                        )),
                decreases 3 - column,
            {
                match self.game_state.board_state.occupant_at(row, column) {
                    BoardCell::Empty => {
                        proof {
                            assert(self.game_state.board_state.cell_empty(
                                row as int,
                                column as int,
                            ));
                        }
                        return false;
                    }
                    _ => {
                        proof {
                            assert(!self.game_state.board_state.cell_empty(
                                row as int,
                                column as int,
                            ));
                        }
                    }
                }
                column = column + 1;
            }
            row = row + 1;
        }
        true
    }

    /// Take the application back to the opening screen, keeping the chat,
    /// the turn owner and the configuration.
    pub fn restart_game(&mut self)
        ensures
            final(self).wf(),
            reset_for_new_game(*old(self), *final(self)),
    {
        self.instructions = "Press S to start game.".to_owned();
        self.game_state.board_state = BoardState::default();
        self.cursor_location = CursorLocation::default();
        self.game_state.winner = None;
        self.game_state.started = false;
    }

    /// Start a fresh game if none is running: the opening side is drawn at
    /// random, and when the opponent opens, a trigger for its first turn
    /// comes back. A repeated start only updates the note.
    pub fn start_game(&mut self) -> (trigger: Option<Trigger>)
        requires
            old(self).wf(),
        ensures
            final(self).wf(),
            start_game_rel(*old(self), *final(self), trigger),
    {
        if !self.game_state.started {
            let pick = random_index(2);
            let starting_player = if pick == 0 {
                Player::User
            } else {
                Player::Computer
            };
            self.game_state.current_turn = starting_player;
            self.game_state.started = true;
            if starting_player == Player::Computer {
                self.instructions = started_computer_message(self.game_state.computer_character);
                Some(Trigger::ComputersTurnFirst)
            } else {
                self.instructions =
                    "Game started! Your turn first. Press enter to your place token.".to_owned();
                None
            }
        } else {
            self.instructions = "Game is already started.".to_owned();
            None
        }
    }

    /// Clear the board for a new game, but only once the current game is
    /// over: won, or drawn on a full board. While a game runs only the
    /// note changes.
    pub fn new_game(&mut self)
        requires
            old(self).wf(),
        ensures
            final(self).wf(),
            new_game_rel(*old(self), *final(self)),
    {
        let finished = self.game_finished();
        if finished || self.game_state.winner.is_some() {
            self.restart_game();
        } else {
            self.instructions =
                "Unable to start a new game until the current game is finished.".to_owned();
        }
    }

    /// Set the difficulty, but only before a game starts or after it is
    /// over; during play only the note changes.
    pub fn update_level(&mut self, level: Level)
        requires
            old(self).wf(),
        ensures
            final(self).wf(),
            update_level_rel(*old(self), *final(self), level),
    {
        let finished = self.game_finished();
        if finished || self.game_state.winner.is_some() || !self.game_state.started {
            self.game_state.difficulty_level = level;
        } else {
            self.instructions =
                "Unable to update the difficulty while the game has started.".to_owned();
        }
    }

    /// Swap the opponent's persona, but only before a game starts or after
    /// it is over; during play only the note changes.
    pub fn swap_computer_character(&mut self)
        requires
            old(self).wf(),
        ensures
            final(self).wf(),
            swap_character_rel(*old(self), *final(self)),
    {
        let finished = self.game_finished();
        if finished || self.game_state.winner.is_some() || !self.game_state.started {
            let new_computer_character = match self.game_state.computer_character {
                Character::ChattyDave => Character::SpeedySteve,
                Character::SpeedySteve => Character::ChattyDave,
            };
            self.game_state.computer_character = new_computer_character;
        } else {
            self.instructions =
                "Unable to change your opponent while the game is being played.".to_owned();
        }
    }

    /// Handle the human's confirm key: outside a running game nothing
    /// happens; out of turn only the note changes; in turn, a token goes on
    /// the highlighted cell with the full win, draw and hand-over
    /// behaviour of a placement.
    pub fn enter(&mut self) -> (trigger: Option<Trigger>)
        requires
            old(self).wf(),
        ensures
            final(self).wf(),
            enter_rel(*old(self), *final(self), trigger),
    {
        let row = self.cursor_location.row;
        let column = self.cursor_location.column;
        if self.game_state.winner.is_some() || !self.game_state.started {
            return None;
        }
        match self.game_state.current_turn {
            Player::Computer => {
                self.instructions = wait_turn_message(self.game_state.computer_character);
                None
            }
            Player::User => {
                let result = self.game_state.board_state.try_place_token(
                    (row, column),
                    Player::User,
                );
                proof {
                    assert forall|r: int, c: int| 0 <= r < 3 && 0 <= c < 3 implies (
                    self.game_state.board_state.selected(r, c) <==> (r == self.cursor_location.row
                        && c == self.cursor_location.column)) by {
                        assert(old(self).game_state.board_state.selected(r, c) <==> (r == old(
                            self,
                        ).cursor_location.row && c == old(self).cursor_location.column));
                    }
                }
                result.handle_user_place_token_result(self)
            }
        }
    }

    /// Place the opponent's token on `location`: the win, draw and
    /// hand-back behaviour of an automated placement; an occupied target
    /// only updates the note. Once a winner stands, or before the game
    /// starts, no placement is accepted and nothing changes.
    pub fn computer_place_token(&mut self, location: (usize, usize)) -> (trigger: Option<Trigger>)
        requires
            old(self).wf(),
            location.0 < 3,
            location.1 < 3,
        ensures
            final(self).wf(),
            !old(self).in_progress() ==> *final(self) == *old(self) && trigger is None,
            old(self).in_progress() ==> ({
                let row = location.0 as int;
                let column = location.1 as int;
                let pre_board = old(self).game_state.board_state;
                let post_board = final(self).game_state.board_state;
                &&& final(self).cursor_location == old(self).cursor_location
                &&& final(self).game_state.started == old(self).game_state.started
                &&& final(self).game_state.difficulty_level == old(
                    self,
                ).game_state.difficulty_level
                &&& final(self).game_state.computer_character == old(
                    self,
                ).game_state.computer_character
                &&& if pre_board.cell_empty(row, column) {
                    &&& board_placed(pre_board, post_board, row, column, Player::Computer)
                    &&& if post_board.spec_winner() is Some {
                        &&& final(self).game_state.winner == Some(Player::Computer)
                        &&& final(self).game_state.current_turn == old(
                            self,
                        ).game_state.current_turn
                        &&& final(self).chat == old(self).chat
                        &&& final(self).instructions@ == computer_wins_text(
                            old(self).game_state.computer_character,
                        )
                        &&& trigger == Some(Trigger::Winner)
                    } else if post_board.full() {
                        &&& final(self).game_state.winner is None
                        &&& final(self).game_state.current_turn == old(
                            self,
                        ).game_state.current_turn
                        &&& final(self).chat == old(self).chat
                        &&& final(self).instructions@
                            == "It's a tie. Press N to clear the board and S to start a new game."@
                        &&& trigger == Some(Trigger::Draw)
                    } else {
                        &&& final(self).game_state.winner is None
                        &&& final(self).game_state.current_turn == other_player(
                            old(self).game_state.current_turn,
                        )
                        &&& final(self).chat@ == ok_your_turn_text(
                            old(self).game_state.computer_character,
                        )
                        &&& final(self).instructions@ == "Press enter to your place token."@
                        &&& trigger is None
                    }
                } else {
                    &&& only_instructions_changed(*old(self), *final(self))
                    &&& final(self).instructions@ == "Oops, something went wrong."@
                    &&& trigger is None
                }
            }),
    {
        if self.game_state.winner.is_some() || !self.game_state.started {
            return None;
        }
        let result = self.game_state.board_state.try_place_token(location, Player::Computer);
        proof {
            assert forall|r: int, c: int| 0 <= r < 3 && 0 <= c < 3 implies (
            self.game_state.board_state.selected(r, c) <==> (r == self.cursor_location.row && c
                == self.cursor_location.column)) by {
                assert(old(self).game_state.board_state.selected(r, c) <==> (r == old(
                    self,
                ).cursor_location.row && c == old(self).cursor_location.column));
            }
        }
        result.handle_computer_place_token_result(self)
    }
}

impl PlaceTokenResult {
    /// Fold the outcome of the human's placement into the application:
    /// hand the turn over, detect a draw, record the human's win, or
    /// explain the rejection; the trigger tells the opponent what happened.
    pub fn handle_user_place_token_result(self, app: &mut App) -> (trigger: Option<Trigger>)
        requires
            old(app).wf(),
        ensures
            final(app).wf(),
            final(app).game_state.board_state == old(app).game_state.board_state,
            final(app).cursor_location == old(app).cursor_location,
            final(app).game_state.difficulty_level == old(app).game_state.difficulty_level,
            final(app).game_state.started == old(app).game_state.started,
            final(app).game_state.computer_character == old(app).game_state.computer_character,
            self == PlaceTokenResult::Success ==> {
                &&& final(app).game_state.current_turn == other_player(
                    old(app).game_state.current_turn,
                )
                &&& final(app).game_state.winner == old(app).game_state.winner
                &&& final(app).chat == old(app).chat
                &&& if old(app).game_state.board_state.full() && old(
                    app,
                ).game_state.winner is None {
                    &&& trigger == Some(Trigger::Draw)
                    &&& final(app).instructions@
                        == "It's a tie. Press N to clear the board and S to start a new game."@
                } else {
                    &&& trigger == Some(Trigger::ComputersTurn(final(app).game_state))
                    &&& final(app).instructions@ == computers_turn_text(
                        old(app).game_state.computer_character,
                    )
                }
            },
            self matches PlaceTokenResult::SuccessWithWinner(_) ==> {
                &&& final(app).game_state.winner == Some(Player::User)
                &&& final(app).game_state.current_turn == old(app).game_state.current_turn
                &&& final(app).chat == old(app).chat
                &&& final(app).instructions@
                    == "You win! Press N to clear the game board and S to start a new game."@
                &&& trigger == Some(Trigger::Loser)
            },
            self == PlaceTokenResult::OccupiedByComputer ==> {
                &&& only_instructions_changed(*old(app), *final(app))
                &&& final(app).instructions@ == opponent_cell_text(
                    old(app).game_state.computer_character,
                )
                &&& trigger is None
            },
            self == PlaceTokenResult::OccupiedByUser ==> {
                &&& only_instructions_changed(*old(app), *final(app))
                &&& final(app).instructions@ == "This cell is already occupied by you."@
                &&& trigger is None
            },
            self == PlaceTokenResult::Error ==> {
                &&& only_instructions_changed(*old(app), *final(app))
                &&& final(app).instructions@ == "Oops, something went wrong."@
                &&& trigger is None
            },
    {
        match self {
            PlaceTokenResult::Success => {
                app.game_state.swap_current_turn();
                let finished = app.game_finished();
                if finished && app.game_state.winner.is_none() {
                    app.instructions =
                        "It's a tie. Press N to clear the board and S to start a new game."
                        .to_owned();
                    Some(Trigger::Draw)
                } else {
                    app.instructions = computers_turn_message(app.game_state.computer_character);
                    Some(Trigger::ComputersTurn(app.game_state))
                }
            }
            PlaceTokenResult::SuccessWithWinner(_player) => {
                app.game_state.winner = Some(Player::User);
                app.instructions =
                    "You win! Press N to clear the game board and S to start a new game."
                    .to_owned();
                Some(Trigger::Loser)
            }
            PlaceTokenResult::OccupiedByComputer => {
                app.instructions = opponent_cell_message(app.game_state.computer_character);
                None
            }
            PlaceTokenResult::OccupiedByUser => {
                app.instructions = "This cell is already occupied by you.".to_owned();
                None
            }
            PlaceTokenResult::Error => {
                app.instructions = "Oops, something went wrong.".to_owned();
                None
            }
        }
    }

    /// Fold the outcome of the opponent's placement into the application:
    /// record its win, detect a draw, or hand the turn back with a chat
    /// line; an unexpected outcome only updates the note.
    pub fn handle_computer_place_token_result(self, app: &mut App) -> (trigger: Option<Trigger>)
        requires
            old(app).wf(),
        ensures
            final(app).wf(),
            final(app).game_state.board_state == old(app).game_state.board_state,
            final(app).cursor_location == old(app).cursor_location,
            final(app).game_state.difficulty_level == old(app).game_state.difficulty_level,
            final(app).game_state.started == old(app).game_state.started,
            final(app).game_state.computer_character == old(app).game_state.computer_character,
            self == PlaceTokenResult::Success ==> {
                &&& final(app).game_state.winner == old(app).game_state.winner
                &&& if old(app).game_state.board_state.full() && old(
                    app,
                ).game_state.winner is None {
                    &&& trigger == Some(Trigger::Draw)
                    &&& final(app).instructions@
                        == "It's a tie. Press N to clear the board and S to start a new game."@
                    &&& final(app).chat == old(app).chat
                    &&& final(app).game_state.current_turn == old(app).game_state.current_turn
                } else {
                    &&& trigger is None
                    &&& final(app).chat@ == ok_your_turn_text(
                        old(app).game_state.computer_character,
                    )
                    &&& final(app).instructions@ == "Press enter to your place token."@
                    &&& final(app).game_state.current_turn == other_player(
                        old(app).game_state.current_turn,
                    )
                }
            },
            self matches PlaceTokenResult::SuccessWithWinner(_) ==> {
                &&& final(app).game_state.winner == Some(Player::Computer)
                &&& final(app).game_state.current_turn == old(app).game_state.current_turn
                &&& final(app).chat == old(app).chat
                &&& final(app).instructions@ == computer_wins_text(
                    old(app).game_state.computer_character,
                )
                &&& trigger == Some(Trigger::Winner)
            },
            self == PlaceTokenResult::OccupiedByUser || self == PlaceTokenResult::OccupiedByComputer
                || self == PlaceTokenResult::Error ==> {
                &&& only_instructions_changed(*old(app), *final(app))
                &&& final(app).instructions@ == "Oops, something went wrong."@
                &&& trigger is None
            },
    {
        match self {
            PlaceTokenResult::Success => {
                let finished = app.game_finished();
                if finished && app.game_state.winner.is_none() {
                    app.instructions =
                        "It's a tie. Press N to clear the board and S to start a new game."
                        .to_owned();
                    Some(Trigger::Draw)
                } else {
                    app.chat = ok_your_turn_chat(app.game_state.computer_character);
                    app.instructions = "Press enter to your place token.".to_owned();
                    app.game_state.swap_current_turn();
                    None
                }
            }
            PlaceTokenResult::SuccessWithWinner(_player) => {
                app.game_state.winner = Some(Player::Computer);
                app.instructions = computer_wins_message(app.game_state.computer_character);
                Some(Trigger::Winner)
            }
            _ => {
                app.instructions = "Oops, something went wrong.".to_owned();
                None
            }
        }
    }
}

} // verus!
