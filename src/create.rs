//! The create-a-creature screen: a selector over the six parameters and a
//! "Done!" entry, driven by key scan codes.

use vstd::prelude::*;
use crate::audio::{AudioConfig, ClickTone, long_click, play_click_1, play_click_2, short_click};
use crate::creature::{
    CreatureParams, NUM_ARMS, NUM_COLORS, NUM_EYES, NUM_LEGS, NUM_MOUTHS, NUM_SHAPES, cycle_next,
    cycle_prev,
};

verus! {

/// What the game should do as the level ends.
#[derive(Debug, Clone, Copy, PartialEq, Eq, Structural)]
pub enum MainGameOutcome {
    /// Accept the creature and return to the main menu with it!
    SaveCreature,
    /// Exit the game immediately
    Exit,
}

/// The selector entry of the "Done!" button; entries 0 to 5 are the
/// parameters shape, colour, eyes, mouth, legs and arms.
pub const DONE_ENTRY: u8 = 6;

/// Vertical position of the first selector entry.
pub const BASE_Y: u32 = 28;

/// The editor's state between frames: the selected entry and which arrow
/// keys are held down, so that a held key acts once.
#[derive(Debug, Clone, Copy, PartialEq, Eq, Structural)]
pub struct EditorState {
    pub selector: u8,
    pub keystate_up: bool,
    pub keystate_down: bool,
    pub keystate_left: bool,
    pub keystate_right: bool,
}

/// What one key event asks of the screen.
#[derive(Debug, Clone, Copy, PartialEq, Eq, Structural)]
pub struct EditorReaction {
    /// A click to play, if any.
    pub click: Option<ClickTone>,
    /// The creature changed: its palette and sprite are to be redrawn.
    pub params_changed: bool,
    /// The screen is over.
    pub outcome: Option<MainGameOutcome>,
}

/// Up arrow or W pressed.
pub open spec fn is_up_press(key: u8) -> bool {
    key == 0x48 || key == 0x11
}

/// Up arrow or W released.
pub open spec fn is_up_release(key: u8) -> bool {
    key == 0xc8 || key == 0x91
}

/// Down arrow or S pressed.
pub open spec fn is_down_press(key: u8) -> bool {
    key == 0x50 || key == 0x1f
}

/// Down arrow or S released.
pub open spec fn is_down_release(key: u8) -> bool {
    key == 0xd0 || key == 0x9f
}

/// Left arrow or A pressed.
pub open spec fn is_left_press(key: u8) -> bool {
    key == 0x4b || key == 0x1e
}

/// Left arrow or A released.
pub open spec fn is_left_release(key: u8) -> bool {
    key == 0xcb || key == 0x9e
}

/// Right arrow or D pressed.
pub open spec fn is_right_press(key: u8) -> bool {
    key == 0x4d || key == 0x20
}

/// Right arrow or D released.
pub open spec fn is_right_release(key: u8) -> bool {
    key == 0xcd || key == 0xa0
}

/// The creature with parameter `entry` moved one value forward (or back),
/// wrapping around; any other entry leaves it as it is.
pub open spec fn adjusted(c: CreatureParams, entry: u8, forward: bool) -> CreatureParams {
    let step = |v: u8, n: u8|
        if forward {
            ((v + 1) % (n as int)) as u8
        } else if v == 0 {
            (n - 1) as u8
        } else {
            (v - 1) as u8
        };
    match entry {
        0 => CreatureParams { shape: step(c.shape, NUM_SHAPES), ..c },
        1 => CreatureParams { color: step(c.color, NUM_COLORS), ..c },
        2 => CreatureParams { eyes: step(c.eyes, NUM_EYES), ..c },
        3 => CreatureParams { mouth: step(c.mouth, NUM_MOUTHS), ..c },
        4 => CreatureParams { legs: step(c.legs, NUM_LEGS), ..c },
        5 => CreatureParams { arms: step(c.arms, NUM_ARMS), ..c },
        _ => c,
    }
}

/// Moves parameter `entry` of `c` one value forward, or back.
fn adjust(c: &mut CreatureParams, entry: u8, forward: bool)
    requires
        old(c).is_valid(),
        entry < DONE_ENTRY,
    ensures
        *final(c) == adjusted(*old(c), entry, forward),
        final(c).is_valid(),
{
    if entry == 0 {
        c.shape = if forward { cycle_next(c.shape, NUM_SHAPES) } else { cycle_prev(c.shape, NUM_SHAPES) };
    } else if entry == 1 {
        c.color = if forward { cycle_next(c.color, NUM_COLORS) } else { cycle_prev(c.color, NUM_COLORS) };
    } else if entry == 2 {
        c.eyes = if forward { cycle_next(c.eyes, NUM_EYES) } else { cycle_prev(c.eyes, NUM_EYES) };
    } else if entry == 3 {
        c.mouth = if forward { cycle_next(c.mouth, NUM_MOUTHS) } else { cycle_prev(c.mouth, NUM_MOUTHS) };
    } else if entry == 4 {
        c.legs = if forward { cycle_next(c.legs, NUM_LEGS) } else { cycle_prev(c.legs, NUM_LEGS) };
    } else {
        c.arms = if forward { cycle_next(c.arms, NUM_ARMS) } else { cycle_prev(c.arms, NUM_ARMS) };
    }
}

impl EditorState {
    /// The first entry selected, no key held.
    pub fn new() -> (r: EditorState)
        ensures
            r.selector == 0,
            !r.keystate_up && !r.keystate_down && !r.keystate_left && !r.keystate_right,
    {
        EditorState {
            selector: 0,
            keystate_up: false,
            keystate_down: false,
            keystate_left: false,
            keystate_right: false,
        }
    }

    /// The selector is on an entry.
    pub open spec fn wf(self) -> bool {
        self.selector <= DONE_ENTRY
    }

    /// The state, creature and reaction after key scan code `key`.
    ///
    /// Up and down move the selector (once per press, not past either end)
    /// with a short click. Left and right, once per press, step the selected
    /// parameter back or forward with a long click. Enter on "Done!" saves
    /// the creature with a long click; the escape code leaves at once with a
    /// short click. Releasing a key lets it act again.
    pub open spec fn next(self, c: CreatureParams, key: u8, config: AudioConfig) -> (
        EditorState,
        CreatureParams,
        EditorReaction,
    ) {
        let quiet = EditorReaction { click: None, params_changed: false, outcome: None };
        if is_up_press(key) {
            if self.keystate_up {
                (self, c, quiet)
            } else if self.selector > 0 {
                (
                    EditorState { keystate_up: true, selector: (self.selector - 1) as u8, ..self },
                    c,
                    EditorReaction { click: short_click(config), ..quiet },
                )
            } else {
                (EditorState { keystate_up: true, ..self }, c, quiet)
            }
        } else if is_up_release(key) {
            (EditorState { keystate_up: false, ..self }, c, quiet)
        } else if is_down_press(key) {
            if self.keystate_down {
                (self, c, quiet)
            } else if self.selector < DONE_ENTRY {
                (
                    EditorState {
                        keystate_down: true,
                        selector: (self.selector + 1) as u8,
                        ..self
                    },
                    c,
                    EditorReaction { click: short_click(config), ..quiet },
                )
            } else {
                (EditorState { keystate_down: true, ..self }, c, quiet)
            }
        } else if is_down_release(key) {
            (EditorState { keystate_down: false, ..self }, c, quiet)
        } else if is_left_press(key) || is_right_press(key) {
            let forward = is_right_press(key);
            let held = if forward { self.keystate_right } else { self.keystate_left };
            let pressed = if forward {
                EditorState { keystate_right: true, ..self }
            } else {
                EditorState { keystate_left: true, ..self }
            };
            if held {
                (self, c, quiet)
            } else if self.selector < DONE_ENTRY {
                (
                    pressed,
                    adjusted(c, self.selector, forward),
                    EditorReaction { click: long_click(config), params_changed: true, outcome: None },
                )
            } else {
                (pressed, c, quiet)
            }
        } else if is_left_release(key) {
            (EditorState { keystate_left: false, ..self }, c, quiet)
        } else if is_right_release(key) {
            (EditorState { keystate_right: false, ..self }, c, quiet)
        } else if key == 0x1c && self.selector == DONE_ENTRY {
            (
                self,
                c,
                EditorReaction {
                    click: long_click(config),
                    params_changed: false,
                    outcome: Some(MainGameOutcome::SaveCreature),
                },
            )
        } else if key == 0x81 {
            (
                self,
                c,
                EditorReaction {
                    click: short_click(config),
                    params_changed: false,
                    outcome: Some(MainGameOutcome::Exit),
                },
            )
        } else {
            (self, c, quiet)
        }
    }

    /// Handles key scan code `key`: updates the selector, the held keys and
    /// the creature, and says what the screen has to do.
    pub fn handle_key(&mut self, creature: &mut CreatureParams, key: u8, config: &AudioConfig) -> (r:
        EditorReaction)
        requires
            old(self).wf(),
            old(creature).is_valid(),
        ensures
            (*final(self), *final(creature), r) == old(self).next(*old(creature), key, *config),
            final(self).wf(),
            final(creature).is_valid(),
    {
        let mut r = EditorReaction { click: None, params_changed: false, outcome: None };
        if key == 0x48 || key == 0x11 {
            if !self.keystate_up {
                self.keystate_up = true;
                if self.selector > 0 {
                    // move selection up
                    self.selector = self.selector - 1;
                    r.click = play_click_1(config);
                }
            }
        } else if key == 0xc8 || key == 0x91 {
            self.keystate_up = false;
        } else if key == 0x50 || key == 0x1f {
            if !self.keystate_down {
                self.keystate_down = true;
                if self.selector < DONE_ENTRY {
                    // move selection down
                    self.selector = self.selector + 1;
                    r.click = play_click_1(config);
                }
            }
        } else if key == 0xd0 || key == 0x9f {
            self.keystate_down = false;
        } else if key == 0x4b || key == 0x1e || key == 0x4d || key == 0x20 {
            let forward = key == 0x4d || key == 0x20;
            let held = if forward { self.keystate_right } else { self.keystate_left };
            if !held {
                if forward {
                    self.keystate_right = true;
                } else {
                    self.keystate_left = true;
                }
                if self.selector < DONE_ENTRY {
                    adjust(creature, self.selector, forward);
                    r.params_changed = true;
                    r.click = play_click_2(config);
                }
            }
        } else if key == 0xcb || key == 0x9e {
            self.keystate_left = false;
        } else if key == 0xcd || key == 0xa0 {
            self.keystate_right = false;
        } else if key == 0x1c {
            if self.selector == DONE_ENTRY {
                // done!
                r.click = play_click_2(config);
                r.outcome = Some(MainGameOutcome::SaveCreature);
            }
        } else if key == 0x81 {
            // escape: leave at once
            r.click = play_click_1(config);
            r.outcome = Some(MainGameOutcome::Exit);
        }
        r
    }

    /// Where the selection arrows stand: 24 pixels per entry from the first,
    /// with "Done!" 9 pixels further down.
    pub fn selection_y(&self) -> (r: u32)
        requires
            self.wf(),
        ensures
            r == BASE_Y + self.selector * 24 + if self.selector == DONE_ENTRY { 9int } else { 0 },
    {
        let y = BASE_Y + self.selector as u32 * 24;
        if self.selector == DONE_ENTRY {
            y + 9
        } else {
            y
        }
    }
}

} // verus!
