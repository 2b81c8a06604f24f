//! The main menu: two choices, "Create!" and "Exit".

use vstd::prelude::*;
use crate::audio::{AudioConfig, ClickTone, long_click, play_click_1, play_click_2, short_click};

verus! {

/// What the main menu decided.
#[derive(Debug, Clone, Copy, PartialEq, Eq, Structural)]
pub enum MenuOutcome {
    /// Enter create-a-creature mode
    Enter,
    /// Exit the game
    Exit,
}

/// The menu's state between frames: the highlighted choice (0 for
/// "Create!", 1 for "Exit") and which arrow keys are held down.
#[derive(Debug, Clone, Copy, PartialEq, Eq, Structural)]
pub struct MenuState {
    pub choice: u8,
    pub keystate_up: bool,
    pub keystate_down: bool,
}

/// What one key event asks of the menu screen.
#[derive(Debug, Clone, Copy, PartialEq, Eq, Structural)]
pub struct MenuReaction {
    /// A click to play, if any.
    pub click: Option<ClickTone>,
    /// The menu is over.
    pub outcome: Option<MenuOutcome>,
}

impl MenuState {
    /// "Create!" highlighted, no key held.
    pub fn new() -> (r: MenuState)
        ensures
            r.choice == 0,
            !r.keystate_up && !r.keystate_down,
    {
        MenuState { choice: 0, keystate_up: false, keystate_down: false }
    }

    /// The choice is one of the two.
    pub open spec fn wf(self) -> bool {
        self.choice <= 1
    }

    /// The state and reaction after key scan code `key`.
    ///
    /// Any release code lets both arrows act again. Up picks "Create!" and
    /// down picks "Exit", with a short click, once per press. Enter confirms
    /// the choice and escape leaves, each with a long click.
    pub open spec fn next(self, key: u8, config: AudioConfig) -> (MenuState, MenuReaction) {
        let quiet = MenuReaction { click: None, outcome: None };
        if key >= 0x80 {
            (MenuState { keystate_up: false, keystate_down: false, ..self }, quiet)
        } else if key == 0x48 {
            if self.keystate_up {
                (self, quiet)
            } else {
                (
                    MenuState { keystate_up: true, choice: 0, ..self },
                    MenuReaction { click: short_click(config), outcome: None },
                )
            }
        } else if key == 0x50 {
            if self.keystate_down {
                (self, quiet)
            } else {
                (
                    MenuState { keystate_down: true, choice: 1, ..self },
                    MenuReaction { click: short_click(config), outcome: None },
                )
            }
        } else if key == 0x1c {
            (
                self,
                MenuReaction {
                    click: long_click(config),
                    outcome: Some(
                        if self.choice == 0 {
                            MenuOutcome::Enter
                        } else {
                            MenuOutcome::Exit
                        },
                    ),
                },
            )
        } else if key == 0x01 {
            (self, MenuReaction { click: long_click(config), outcome: Some(MenuOutcome::Exit) })
        } else {
            (self, quiet)
        }
    }

    /// Handles key scan code `key` and says what the menu has to do.
    pub fn handle_key(&mut self, key: u8, config: &AudioConfig) -> (r: MenuReaction)
        requires
            old(self).wf(),
        ensures
            (*final(self), r) == old(self).next(key, *config),
            final(self).wf(),
    {
        let mut r = MenuReaction { click: None, outcome: None };
        if key & 0x80 != 0 {
            assert(key & 0x80 != 0 <==> key >= 0x80) by (bit_vector);
            self.keystate_up = false;
            self.keystate_down = false;
            return r;
        }
        assert(key & 0x80 != 0 <==> key >= 0x80) by (bit_vector);
        if key == 0x48 {
            // up arrow
            if !self.keystate_up {
                self.keystate_up = true;
                self.choice = 0;
                r.click = play_click_1(config);
            }
        } else if key == 0x50 {
            // down arrow
            if !self.keystate_down {
                self.keystate_down = true;
                self.choice = 1;
                r.click = play_click_1(config);
            }
        } else if key == 0x1c {
            r.click = play_click_2(config);
            r.outcome = Some(
                if self.choice == 0 {
                    MenuOutcome::Enter
                } else {
                    MenuOutcome::Exit
                },
            );
        } else if key == 0x01 {
            // escape
            r.click = play_click_2(config);
            r.outcome = Some(MenuOutcome::Exit);
        }
        r
    }

    /// Where the selection arrows stand: 25 pixels per choice from 125.
    pub fn selection_y(&self) -> (r: u32)
        requires
            self.wf(),
        ensures
            r == 125 + self.choice * 25,
    {
        125 + self.choice as u32 * 25
    }
}

} // verus!
