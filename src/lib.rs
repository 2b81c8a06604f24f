//! Create-a-Creature: the music playback scheduler, the creature model,
//! its sprites and fonts, and the logic of the game's screens.

pub mod audio;
pub mod create;
pub mod creature;
pub mod font;
pub mod game;
pub mod gfx;
pub mod menu;
pub mod playback;
pub mod png;

use vstd::prelude::*;
use crate::audio::AdlibPlayer;
use crate::font::BitmapFont;
use crate::gfx::CreatureAssets;

verus! {

/// Holder for all assets in the game, so that they are readily available.
pub struct Assets {
    pub creature_assets: CreatureAssets,
    pub small_font: BitmapFont,
    pub big_font: BitmapFont,
    pub adlib_player: AdlibPlayer,
}

} // verus!
