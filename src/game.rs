//! The flow between the game's screens, and the screen that presents a
//! finished creature.

use vstd::prelude::*;
use crate::create::MainGameOutcome;
use crate::creature::{CreatureParams, NUM_EYES, NUM_MOUTHS, NUM_SHAPES, name_of};
use crate::menu::MenuOutcome;

verus! {

/// The screen the game is on.
#[derive(Debug, Clone, Copy, PartialEq, Eq, Structural)]
pub enum GameState {
    MainMenu,
    InGame,
    PresentingCreature,
}

/// How a screen ended.
#[derive(Debug, Clone, Copy, PartialEq, Eq, Structural)]
pub enum ScreenResult {
    Menu(MenuOutcome),
    Game(MainGameOutcome),
    Presented,
}

/// The screen that follows `result`, or `None` when the game ends: the menu
/// leads to the editor, a saved creature is presented and then the menu
/// comes back; an exit from the menu or the editor ends the game.
pub fn next_state(result: ScreenResult) -> (r: Option<GameState>)
    ensures
        r == match result {
            ScreenResult::Menu(MenuOutcome::Enter) => Some(GameState::InGame),
            ScreenResult::Menu(MenuOutcome::Exit) => None,
            ScreenResult::Game(MainGameOutcome::SaveCreature) => Some(
                GameState::PresentingCreature,
            ),
            ScreenResult::Game(MainGameOutcome::Exit) => None,
            ScreenResult::Presented => Some(GameState::MainMenu),
        },
{
    match result {
        ScreenResult::Menu(MenuOutcome::Enter) => Some(GameState::InGame),
        ScreenResult::Menu(MenuOutcome::Exit) => None,
        ScreenResult::Game(MainGameOutcome::SaveCreature) => Some(GameState::PresentingCreature),
        ScreenResult::Game(MainGameOutcome::Exit) => None,
        ScreenResult::Presented => Some(GameState::MainMenu),
    }
}

/// Frames that the presentation screen waits before it takes a key.
pub const PRESENT_FRAMES: u8 = 128;

/// The presentation screen's state: frames still to wait, and whether
/// Enter has been pressed.
#[derive(Debug, Clone, Copy, PartialEq, Eq, Structural)]
pub struct PresentState {
    pub can_proceed: u8,
    pub keystate_enter: bool,
}

impl PresentState {
    /// The full wait ahead, Enter not pressed.
    pub fn new() -> (r: PresentState)
        ensures
            r.can_proceed == PRESENT_FRAMES,
            !r.keystate_enter,
    {
        PresentState { can_proceed: PRESENT_FRAMES, keystate_enter: false }
    }

    /// Counts one frame. Returns whether the wait is over, in which case the
    /// prompt is shown and a key is read.
    pub fn tick(&mut self) -> (r: bool)
        ensures
            r == (old(self).can_proceed == 0),
            final(self).can_proceed == if r { 0 } else { old(self).can_proceed - 1 },
            final(self).keystate_enter == old(self).keystate_enter,
    {
        if self.can_proceed > 0 {
            self.can_proceed = self.can_proceed - 1;
            false
        } else {
            true
        }
    }

    /// Handles key scan code `key` once the wait is over. Returns whether
    /// the screen is done: Enter has been pressed and then released.
    pub fn handle_key(&mut self, key: u8) -> (r: bool)
        ensures
            r == (key == 0x9c && old(self).keystate_enter),
            final(self).keystate_enter == (old(self).keystate_enter || key == 0x1c),
            final(self).can_proceed == old(self).can_proceed,
    {
        if key == 0x1c {
            self.keystate_enter = true;
            false
        } else {
            key == 0x9c && self.keystate_enter
        }
    }
}

/// The creature's name followed by an exclamation point.
pub fn name_banner(creature: &CreatureParams) -> (r: String)
    requires
        creature.shape < NUM_SHAPES,
        creature.eyes < NUM_EYES,
        creature.mouth < NUM_MOUTHS,
    ensures
        r@ == name_of(*creature) + "!"@,
{
    let mut s = creature.name();
    s.append("!");
    s
}

/// The left edge that centres a text of `len` big characters (17 pixels
/// each, spacing included) on the 320 pixels wide screen, rounded toward
/// zero.
pub open spec fn centered_x(len: int) -> int {
    let n = 320 - 17 * len;
    if n >= 0 {
        n / 2
    } else {
        -((-n) / 2)
    }
}

/// Where a text of `len` big characters starts when centred.
pub fn centered_text_x(len: usize) -> (r: i32)
    requires
        len <= 100_000_000,
    ensures
        r == centered_x(len as int),
{
    let n: i64 = 320 - 17 * len as i64;
    if n >= 0 {
        (n / 2) as i32
    } else {
        (-((-n) / 2)) as i32
    }
}

} // verus!
