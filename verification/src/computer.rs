//! The automated opponent: its persona, the events it exchanges with
//! the main loop, and the tiered move-selection heuristic
//! (win now, then block, then a random empty cell).

use vstd::prelude::*;

use rand::Rng;

use crate::app::BoardCell;
use crate::app::BoardState;
use crate::app::GameState;
use crate::app::Level;
use crate::app::Player;
use crate::app::combo;

verus! {

/// An event the automated player sends back to the main loop.
pub enum Action {
    Chat(String),
    PlaceToken(usize, usize),
    PlaceTokenError,
}

/// The opponent's persona; cosmetic, it affects pacing and flavor text only.
#[derive(Clone, Copy, Debug, PartialEq, Eq, Structural)]
pub enum Character {
    ChattyDave,
    SpeedySteve,
}

impl Character {
    /// The persona's full display name.
    pub fn full_name(&self) -> (name: String)
        ensures
            *self == Character::ChattyDave ==> name@ == "Chatty Dave"@,
            *self == Character::SpeedySteve ==> name@ == "Speedy Steve"@,
    {
        match self {
            Character::ChattyDave => "Chatty Dave".to_owned(),
            Character::SpeedySteve => "Speedy Steve".to_owned(),
        }
    }
}

/// An event the main loop sends to the automated player.
pub enum Trigger {
    ComputersTurn(GameState),
    ComputersTurnFirst,
    Loser,
    Winner,
    Draw,
}

/// The score one cell contributes for `player`: +1 when the cell is owned
/// by `player`, -1 when owned by the other side, 0 when empty.
pub open spec fn cell_score(board: BoardState, row: int, column: int, player: Player) -> int {
    match board.occupant(row, column) {
        BoardCell::Occupied(q) => if q == player {
            1int
        } else {
            -1int
        },
        BoardCell::Empty => 0int,
    }
}

/// The score of the triple `combo(i)` from `player`'s perspective. A score
/// of 2 means `player` holds two cells, the third is empty, and the
/// opponent holds none.
pub open spec fn combo_score(board: BoardState, i: int, player: Player) -> int {
    let c = combo(i);
    cell_score(board, c.0.0 as int, c.0.1 as int, player) + cell_score(
        board,
        c.1.0 as int,
        c.1.1 as int,
        player,
    ) + cell_score(board, c.2.0 as int, c.2.1 as int, player)
}

/// The index of the first triple, in the fixed order, whose score for
/// `player` is 2.
pub open spec fn first_threat(board: BoardState, player: Player) -> Option<int> {
    if combo_score(board, 0, player) == 2 {
        Some(0int)
    } else if combo_score(board, 1, player) == 2 {
        Some(1int)
    } else if combo_score(board, 2, player) == 2 {
        Some(2int)
    } else if combo_score(board, 3, player) == 2 {
        Some(3int)
    } else if combo_score(board, 4, player) == 2 {
        Some(4int)
    } else if combo_score(board, 5, player) == 2 {
        Some(5int)
    } else if combo_score(board, 6, player) == 2 {
        Some(6int)
    } else if combo_score(board, 7, player) == 2 {
        Some(7int)
    } else {
        None
    }
}

/// True when every coordinate of the triple addresses the board.
pub open spec fn triple_in_bounds(c: ((usize, usize), (usize, usize), (usize, usize))) -> bool {
    c.0.0 < 3 && c.0.1 < 3 && c.1.0 < 3 && c.1.1 < 3 && c.2.0 < 3 && c.2.1 < 3
}

/// The first empty cell of the triple `c`, in the triple's own order.
pub open spec fn first_empty_of(board: BoardState, c: ((usize, usize), (usize, usize), (usize, usize))) -> Option<(usize, usize)> {
    if board.cell_empty(c.0.0 as int, c.0.1 as int) {
        Some(c.0)
    } else if board.cell_empty(c.1.0 as int, c.1.1 as int) {
        Some(c.1)
    } else if board.cell_empty(c.2.0 as int, c.2.1 as int) {
        Some(c.2)
    } else {
        None
    }
}

/// The first triple where `player` is one move from completing a line.
pub open spec fn threat_combo(board: BoardState, player: Player) -> Option<
    ((usize, usize), (usize, usize), (usize, usize)),
> {
    match first_threat(board, player) {
        Some(i) => Some(combo(i)),
        None => None,
    }
}

/// The cell that answers `player`'s first threat: the empty cell of the
/// first triple whose score for `player` is 2.
pub open spec fn threat_move(board: BoardState, player: Player) -> Option<(usize, usize)> {
    match first_threat(board, player) {
        Some(i) => first_empty_of(board, combo(i)),
        None => None,
    }
}

/// Every winning triple addresses the board.
proof fn lemma_combos_in_bounds()
    ensures
        forall|i: int| 0 <= i < 8 ==> triple_in_bounds(#[trigger] combo(i)),
{
}

/// Relies on `rand::thread_rng` and `rand::Rng::gen_range`: a value drawn
/// from the half-open range `[0, bound)`. `gen_range` panics on an empty
/// range, so a positive bound is required.
#[verifier::external_body]
pub(crate) fn random_index(bound: usize) -> (r: usize)
    requires
        bound > 0,
    ensures
        r < bound,
{
    rand::thread_rng().gen_range(0..bound)
}

/// A flavor script the opponent may play while "thinking": each entry is
/// a pause in seconds followed by a chat line, and the possible scripts
/// are exactly the five the persona draws from.
pub open spec fn thinking_script_ok(script: Seq<(u64, String)>) -> bool {
    ||| (script.len() == 1 && script[0].0 == 0 && (script[0].1@ == "Thinking ..."@ || script[0].1@
        == "Hmm this is tough."@ || script[0].1@ == "Really? You're going there?"@))
    ||| (script.len() == 2 && script[0].0 == 0 && script[0].1@
        == "BRB, just going to grab a coffee."@ && script[1].0 == 6 && script[1].1@ == "Ok, back!"@)
    ||| (script.len() == 2 && script[0].0 == 0 && script[0].1@
        == "We should really go for a beer soon."@ && script[1].0 == 4 && script[1].1@
        == "Oh, it's my turn! Let me think."@)
}

/// Draw one of the five flavor scripts at random, with the original
/// weights: each entry is a pause in seconds and the chat line to send
/// after it.
pub fn thinking_script() -> (script: Vec<(u64, String)>)
    ensures
        thinking_script_ok(script@),
{
    let n = random_index(11);
    let mut script: Vec<(u64, String)> = Vec::new();
    if n <= 3 {
        script.push((0, "Thinking ...".to_owned()));
    } else if n <= 5 {
        script.push((0, "Hmm this is tough.".to_owned()));
    } else if n <= 7 {
        script.push((0, "BRB, just going to grab a coffee.".to_owned()));
        script.push((6, "Ok, back!".to_owned()));
    } else if n <= 9 {
        script.push((0, "We should really go for a beer soon.".to_owned()));
        script.push((4, "Oh, it's my turn! Let me think.".to_owned()));
    } else {
        script.push((0, "Really? You're going there?".to_owned()));
    }
    script
}

/// The chat lines, with their pauses, that may precede Dave's move: one of
/// the five flavor scripts, entered after his two-second lead-in.
pub open spec fn chatty_prelude_ok(prelude: Seq<(u64, Action)>) -> bool {
    ||| (prelude.len() == 1 && prelude[0].0 == 2 && (prelude[0].1 matches Action::Chat(s) && (s@
        == "Thinking ..."@ || s@ == "Hmm this is tough."@ || s@
        == "Really? You're going there?"@)))
    ||| (prelude.len() == 2 && prelude[0].0 == 2 && (prelude[0].1 matches Action::Chat(s) && s@
        == "BRB, just going to grab a coffee."@) && prelude[1].0 == 6 && (prelude[1].1 matches
        Action::Chat(s) && s@ == "Ok, back!"@))
    ||| (prelude.len() == 2 && prelude[0].0 == 2 && (prelude[0].1 matches Action::Chat(s) && s@
        == "We should really go for a beer soon."@) && prelude[1].0 == 4 && (prelude[1].1 matches
        Action::Chat(s) && s@ == "Oh, it's my turn! Let me think."@))
}

/// The opponent's whole answer to one trigger: each entry is a pause in
/// seconds and the event to send after it. For its own turn the answer
/// ends in the engine's move (or the no-move fault on a full board); for
/// its opening turn it is the centre cell; for the end-of-game triggers it
/// is the fixed chat lines.
pub fn respond_to_trigger(trigger: Trigger) -> (response: Vec<(u64, Action)>)
    ensures
        response@.len() >= 1,
        trigger matches Trigger::ComputersTurnFirst ==> response@.len() == 2 && response@[0].0 == 3
            && response@[0].1 == Action::PlaceToken(1, 1) && response@[1].0 == 0 && (
        response@[1].1 matches Action::Chat(s) && s@ == "Alright, you're up."@),
        trigger matches Trigger::Winner ==> response@.len() == 2 && response@[0].0 == 2 && (
        response@[0].1 matches Action::Chat(s) && s@ == "Winner, winner, chicken dinner!"@)
            && response@[1].0 == 5 && (response@[1].1 matches Action::Chat(s) && s@
            == "Want to play again? Press N to clear the game board and I can beat you again."@),
        trigger matches Trigger::Loser ==> response@.len() == 1 && response@[0].0 == 0 && (
        response@[0].1 matches Action::Chat(s) && s@ == "Nicely played!"@),
        trigger matches Trigger::Draw ==> response@.len() == 1 && response@[0].0 == 0 && (
        response@[0].1 matches Action::Chat(s) && s@
            == "Looks like it's a draw. Want to play again?"@),
        trigger matches Trigger::ComputersTurn(gs) ==> ({
            let last = response@[response@.len() - 1];
            &&& response@.len() >= 2
            &&& forall|k: int| 0 <= k < response@.len() - 1 ==> (#[trigger] response@[k]).1 is Chat
            &&& (gs.computer_character == Character::SpeedySteve ==> response@.len() == 2
                && response@[0].0 == 1 && (response@[0].1 matches Action::Chat(s) && s@
                == "Thinking ..."@) && last.0 == 2)
            &&& (gs.computer_character == Character::ChattyDave ==> chatty_prelude_ok(
                response@.subrange(0, response@.len() - 1),
            ) && last.0 == 5)
            &&& (gs.board_state.full() ==> last.1 == Action::PlaceTokenError)
            &&& (!gs.board_state.full() ==> (last.1 matches Action::PlaceToken(row, column) && row
                < 3 && column < 3 && gs.board_state.cell_empty(row as int, column as int)))
            &&& (gs.difficulty_level == Level::Hard && threat_move(
                gs.board_state,
                Player::Computer,
            ) is Some ==> (last.1 matches Action::PlaceToken(row, column) && threat_move(
                gs.board_state,
                Player::Computer,
            ) == Some((row, column))))
            &&& (gs.difficulty_level == Level::Hard && threat_move(
                gs.board_state,
                Player::Computer,
            ) is None && threat_move(gs.board_state, Player::User) is Some ==> (
            last.1 matches Action::PlaceToken(row, column) && threat_move(
                gs.board_state,
                Player::User,
            ) == Some((row, column))))
        }),
{
    let mut response: Vec<(u64, Action)> = Vec::new();
    match trigger {
        Trigger::ComputersTurn(game_state) => {
            match game_state.computer_character {
                Character::ChattyDave => {
                    let mut script = thinking_script();
                    if script.len() == 1 {
                        let (_first_pause, first_line) = script.remove(0);
                        response.push((2, Action::Chat(first_line)));
                    } else {
                        let (_first_pause, first_line) = script.remove(0);
                        let (second_pause, second_line) = script.remove(0);
                        response.push((2, Action::Chat(first_line)));
                        response.push((second_pause, Action::Chat(second_line)));
                    }
                    match find_empty_cell(game_state) {
                        Some((row, column)) => {
                            response.push((5, Action::PlaceToken(row, column)));
                        }
                        None => {
                            response.push((5, Action::PlaceTokenError));
                        }
                    }
                }
                Character::SpeedySteve => {
                    response.push((1, Action::Chat("Thinking ...".to_owned())));
                    match find_empty_cell(game_state) {
                        Some((row, column)) => {
                            response.push((2, Action::PlaceToken(row, column)));
                        }
                        None => {
                            response.push((2, Action::PlaceTokenError));
                        }
                    }
                }
            }
        }
        Trigger::ComputersTurnFirst => {
            response.push((3, Action::PlaceToken(1, 1)));
            response.push((0, Action::Chat("Alright, you're up.".to_owned())));
        }
        Trigger::Winner => {
            response.push((2, Action::Chat("Winner, winner, chicken dinner!".to_owned())));
            response.push((
                5,
                Action::Chat(
                    "Want to play again? Press N to clear the game board and I can beat you again."
                        .to_owned(),
                ),
            ));
        }
        Trigger::Loser => {
            response.push((0, Action::Chat("Nicely played!".to_owned())));
        }
        Trigger::Draw => {
            response.push((0, Action::Chat("Looks like it's a draw. Want to play again?".to_owned())));
        }
    }
    response
}

/// The score one cell contributes for `player`, as the engine computes it.
fn cell_score_at(board: &BoardState, row: usize, column: usize, player: Player) -> (s: i32)
    requires
        row < 3,
        column < 3,
    ensures
        s as int == cell_score(*board, row as int, column as int, player),
{
    match board.occupant_at(row, column) {
        BoardCell::Occupied(q) => {
            if q == player {
                1
            } else {
                -1
            }
        }
        BoardCell::Empty => 0,
    }
}

/// The first triple, in the fixed order, where `player` holds two cells
/// and the opponent none, or `None` when there is no such triple.
#[verifier::rlimit(30)]
pub fn player_with_two_in_combination(board_state: BoardState, player: Player) -> (r: Option<
    ((usize, usize), (usize, usize), (usize, usize)),
>)
    ensures
        r == threat_combo(board_state, player),
{
    let combos = BoardState::winning_combinations();
    let mut i: usize = 0;
    while i < 8
        invariant
            i <= 8,
            combos@.len() == 8,
            forall|j: int| 0 <= j < 8 ==> #[trigger] combos@[j] == combo(j),
            forall|j: int| 0 <= j < i ==> combo_score(board_state, j, player) != 2,
        decreases 8 - i,
    {
        let ((r0, c0), (r1, c1), (r2, c2)) = combos[i];
        let score = cell_score_at(&board_state, r0, c0, player) + cell_score_at(
            &board_state,
            r1,
            c1,
            player,
        ) + cell_score_at(&board_state, r2, c2, player);
        if score == 2 {
            return Some(((r0, c0), (r1, c1), (r2, c2)));
        }
        i = i + 1;
    }
    None
}

/// The first empty cell of the given triple, or `None` when the triple is
/// absent or has no empty cell.
pub fn find_empty_cell_in_combination(
    board_state: BoardState,
    combination: Option<((usize, usize), (usize, usize), (usize, usize))>,
) -> (r: Option<(usize, usize)>)
    requires
        combination matches Some(c) ==> triple_in_bounds(c),
    ensures
        combination is None ==> r is None,
        combination matches Some(c) ==> r == first_empty_of(board_state, c),
        r matches Some(pos) ==> pos.0 < 3 && pos.1 < 3 && board_state.cell_empty(
            pos.0 as int,
            pos.1 as int,
        ),
{
    match combination {
        None => None,
        Some(((r0, c0), (r1, c1), (r2, c2))) => {
            if let BoardCell::Empty = board_state.occupant_at(r0, c0) {
                Some((r0, c0))
            } else if let BoardCell::Empty = board_state.occupant_at(r1, c1) {
                Some((r1, c1))
            } else if let BoardCell::Empty = board_state.occupant_at(r2, c2) {
                Some((r2, c2))
            } else {
                None
            }
        }
    }
}

/// The cell that completes the automated player's first winning triple,
/// when it has one.
pub fn find_winning_cell(board_state: BoardState) -> (r: Option<(usize, usize)>)
    ensures
        r == threat_move(board_state, Player::Computer),
        r matches Some(pos) ==> pos.0 < 3 && pos.1 < 3 && board_state.cell_empty(
            pos.0 as int,
            pos.1 as int,
        ),
{
    proof {
        lemma_combos_in_bounds();
    }
    let two_in_combination = player_with_two_in_combination(board_state, Player::Computer);
    find_empty_cell_in_combination(board_state, two_in_combination)
}

/// The cell that blocks the human's first winning triple, when the human
/// has one.
pub fn find_defending_cell(board_state: BoardState) -> (r: Option<(usize, usize)>)
    ensures
        r == threat_move(board_state, Player::User),
        r matches Some(pos) ==> pos.0 < 3 && pos.1 < 3 && board_state.cell_empty(
            pos.0 as int,
            pos.1 as int,
        ),
{
    proof {
        lemma_combos_in_bounds();
    }
    let two_in_combination = player_with_two_in_combination(board_state, Player::User);
    find_empty_cell_in_combination(board_state, two_in_combination)
}

/// A uniformly random empty cell, or `None` when the board is full.
pub fn find_any_empty_cell(board_state: BoardState) -> (r: Option<(usize, usize)>)
    ensures
        r is None <==> board_state.full(),
        r matches Some(pos) ==> pos.0 < 3 && pos.1 < 3 && board_state.cell_empty(
            pos.0 as int,
            pos.1 as int,
        ),
{
    let mut available: Vec<(usize, usize)> = Vec::new();
    let mut row: usize = 0;
    while row < 3
        invariant
            row <= 3,
            forall|k: int|
                0 <= k < available@.len() ==> (#[trigger] available@[k]).0 < 3
                    && available@[k].1 < 3 && board_state.cell_empty(
                    available@[k].0 as int,
                    available@[k].1 as int,
                ),
            (available@.len() == 0) <==> (forall|r: int, c: int|
                0 <= r < row && 0 <= c < 3 ==> !(#[trigger] board_state.cell_empty(r, c))),
        decreases 3 - row,
    {
        let mut column: usize = 0;
        while column < 3
            invariant
                row < 3,
                column <= 3,
                forall|k: int|
                    0 <= k < available@.len() ==> (#[trigger] available@[k]).0 < 3
                        && available@[k].1 < 3 && board_state.cell_empty(
                        available@[k].0 as int,
                        available@[k].1 as int,
                    ),
                (available@.len() == 0) <==> ((forall|r: int, c: int|
                    0 <= r < row && 0 <= c < 3 ==> !(#[trigger] board_state.cell_empty(r, c)))
                    && (forall|c: int|
                    0 <= c < column ==> !(#[trigger] board_state.cell_empty(row as int, c)))),
            decreases 3 - column,
        {
            match board_state.occupant_at(row, column) {
                BoardCell::Empty => {
                    available.push((row, column));
                    proof {
                        assert(board_state.cell_empty(row as int, column as int));
                    }
                }
                _ => {
                    proof {
                        assert(!board_state.cell_empty(row as int, column as int));
                    }
                }
            }
            column = column + 1;
        }
        row = row + 1;
    }
    if available.len() == 0 {
        return None;
    }
    let random_available_cell_index = random_index(available.len());
    Some(available[random_available_cell_index])
}

/// The tiered choice: complete an own line, else block the human's line,
/// else a random empty cell; `None` only on a full board.
pub fn find_best_empty_cell(board_state: BoardState) -> (r: Option<(usize, usize)>)
    ensures
        threat_move(board_state, Player::Computer) is Some ==> r == threat_move(
            board_state,
            Player::Computer,
        ),
        threat_move(board_state, Player::Computer) is None && threat_move(
            board_state,
            Player::User,
        ) is Some ==> r == threat_move(board_state, Player::User),
        r is None <==> board_state.full(),
        r matches Some(pos) ==> pos.0 < 3 && pos.1 < 3 && board_state.cell_empty(
            pos.0 as int,
            pos.1 as int,
        ),
{
    let winning_cell = find_winning_cell(board_state);
    if let Some(pos) = winning_cell {
        return Some(pos);
    }
    let defending_cell = find_defending_cell(board_state);
    if let Some(pos) = defending_cell {
        return Some(pos);
    }
    find_any_empty_cell(board_state)
}

/// The engine's move for the snapshot: random on `Easy`, tiered on `Hard`;
/// `None` exactly when the board is full.
pub fn find_empty_cell(game_state: GameState) -> (r: Option<(usize, usize)>)
    ensures
        r is None <==> game_state.board_state.full(),
        r matches Some(pos) ==> pos.0 < 3 && pos.1 < 3 && game_state.board_state.cell_empty(
            pos.0 as int,
            pos.1 as int,
        ),
        game_state.difficulty_level == Level::Hard && threat_move(
            game_state.board_state,
            Player::Computer,
        ) is Some ==> r == threat_move(game_state.board_state, Player::Computer),
        game_state.difficulty_level == Level::Hard && threat_move(
            game_state.board_state,
            Player::Computer,
        ) is None && threat_move(game_state.board_state, Player::User) is Some ==> r == threat_move(
            game_state.board_state,
            Player::User,
        ),
{
    match game_state.difficulty_level {
        Level::Easy => find_any_empty_cell(game_state.board_state),
        Level::Hard => find_best_empty_cell(game_state.board_state),
    }
}

} // verus!
