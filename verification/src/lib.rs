//! A verified core for a 3x3 turn-based grid game played by a human
//! against a scripted opponent: board model, move legality, win and
//! draw detection, turn orchestration, and the opponent's greedy
//! move-selection heuristic.

use vstd::prelude::*;

pub mod app;
pub mod computer;
pub mod input;

use crate::app::App;
use crate::app::Level;
use crate::app::down_rel;
use crate::app::enter_rel;
use crate::app::left_rel;
use crate::app::new_game_rel;
use crate::app::right_rel;
use crate::app::start_game_rel;
use crate::app::swap_character_rel;
use crate::app::up_rel;
use crate::app::update_level_rel;
use crate::computer::Action;
use crate::computer::Trigger;
use crate::input::InputKey;

verus! {

/// One message on the main loop's queue: a key press, or something the
/// automated player did.
pub enum Event {
    UserInput(InputKey),
    ComputerAction(Action),
}

/// Apply one key press to the application. The returned trigger, if any,
/// is for the automated player.
pub fn handle_user_input(app: &mut App, input_key: InputKey) -> (trigger: Option<Trigger>)
    requires
        old(app).wf(),
    ensures
        final(app).wf(),
        input_key == InputKey::Up ==> up_rel(*old(app), *final(app)) && trigger is None,
        input_key == InputKey::Down ==> down_rel(*old(app), *final(app)) && trigger is None,
        input_key == InputKey::Left ==> left_rel(*old(app), *final(app)) && trigger is None,
        input_key == InputKey::Right ==> right_rel(*old(app), *final(app)) && trigger is None,
        input_key == InputKey::Enter ==> enter_rel(*old(app), *final(app), trigger),
        input_key == InputKey::Char('s') ==> start_game_rel(*old(app), *final(app), trigger),
        input_key == InputKey::Char('n') ==> new_game_rel(*old(app), *final(app)) && trigger
            is None,
        input_key == InputKey::Char('h') ==> update_level_rel(*old(app), *final(app), Level::Hard)
            && trigger is None,
        input_key == InputKey::Char('e') ==> update_level_rel(*old(app), *final(app), Level::Easy)
            && trigger is None,
        input_key == InputKey::Char('c') ==> swap_character_rel(*old(app), *final(app)) && trigger
            is None,
        input_key == InputKey::Esc || input_key == InputKey::Unhandled ==> *final(app) == *old(app)
            && trigger is None,
        (input_key matches InputKey::Char(ch) && ch != 's' && ch != 'n' && ch != 'h' && ch != 'e'
            && ch != 'c') ==> *final(app) == *old(app) && trigger is None,
{
    match input_key {
        InputKey::Up => {
            app.up();
            None
        }
        InputKey::Down => {
            app.down();
            None
        }
        InputKey::Left => {
            app.left();
            None
        }
        InputKey::Right => {
            app.right();
            None
        }
        InputKey::Enter => app.enter(),
        InputKey::Char('s') => app.start_game(),
        InputKey::Char('n') => {
            app.new_game();
            None
        }
        InputKey::Char('h') => {
            app.update_level(Level::Hard);
            None
        }
        InputKey::Char('e') => {
            app.update_level(Level::Easy);
            None
        }
        InputKey::Char('c') => {
            app.swap_computer_character();
            None
        }
        InputKey::Unhandled => None,
        _ => None,
    }
}

} // verus!
