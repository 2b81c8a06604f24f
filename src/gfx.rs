//! Creature sprites and the game's palette.

use vstd::prelude::*;
use crate::png::{AssetError, decode};
use crate::creature::{
    CreatureParams, NUM_ARMS, NUM_EYES, NUM_LEGS, NUM_MOUTHS, NUM_SHAPES, body_rgb, lighter,
};

verus! {

/// Palette index of the highlight colour (orange).
pub const COLOR_HIGHLIGHT: u8 = 252;
/// Palette index of the background colour (baby blue).
pub const COLOR_BACKGROUND: u8 = 253;
/// Palette index of white.
pub const COLOR_WHITE: u8 = 254;
/// Palette index of black.
pub const COLOR_BLACK: u8 = 1;

/// A decoded, 8-bit indexed image.
pub struct ImageAsset {
    pub width: u32,
    pub height: u32,
    pub pixel_data: Vec<u8>,
    pub bit_depth: u8,
    pub palette: Vec<u8>,
}

impl ImageAsset {
    /// The image is a strip of at least `count` sprites of 32 by 32 pixels,
    /// side by side, one byte per pixel.
    pub open spec fn holds_sprites(&self, count: int) -> bool {
        &&& 32 * count <= self.width
        &&& 32 * self.width <= u32::MAX
        &&& self.pixel_data@.len() >= 32 * self.width
    }

    /// Whether the image holds at least `count` sprites.
    pub fn has_sprites(&self, count: u32) -> (r: bool)
        ensures
            r == self.holds_sprites(count as int),
    {
        32 * (count as u64) <= self.width as u64 && 32 * (self.width as u64) <= u32::MAX as u64
            && self.pixel_data.len() as u64 >= 32 * (self.width as u64)
    }

    /// Pixel `p` (row-major, 32 per row) of sprite `index`.
    pub open spec fn sprite_pixel(&self, index: int, p: int) -> u8 {
        self.pixel_data@[(p / 32) * self.width + index * 32 + p % 32]
    }
}

/// A 32 by 32 tile after sprite `index` of `img` is drawn over `tile`,
/// within rows `row_lo..row_hi` and columns `col_lo..col_hi`: a sprite pixel
/// of zero is transparent.
pub open spec fn overlay(
    tile: Seq<u8>,
    img: ImageAsset,
    index: int,
    row_lo: int,
    row_hi: int,
    col_lo: int,
    col_hi: int,
) -> Seq<u8> {
    Seq::new(
        1024,
        |p: int|
            if row_lo <= p / 32 < row_hi && col_lo <= p % 32 < col_hi && img.sprite_pixel(index, p)
                != 0 {
                img.sprite_pixel(index, p)
            } else {
                tile[p]
            },
    )
}

/// Draws sprite `index` of `img` over `tile`, within the given rows and
/// columns.
fn overlay_sprite(
    tile: &mut [u8; 1024],
    img: &ImageAsset,
    index: u32,
    row_lo: u32,
    row_hi: u32,
    col_lo: u32,
    col_hi: u32,
)
    requires
        img.holds_sprites(index + 1),
        row_lo <= row_hi <= 32,
        col_lo <= col_hi <= 32,
    ensures
        final(tile)@ == overlay(
            old(tile)@,
            *img,
            index as int,
            row_lo as int,
            row_hi as int,
            col_lo as int,
            col_hi as int,
        ),
{
    let ghost t0 = tile@;
    let ghost target = overlay(
        t0,
        *img,
        index as int,
        row_lo as int,
        row_hi as int,
        col_lo as int,
        col_hi as int,
    );
    let x0 = index * 32;
    let end = row_hi * 32;
    let mut p: u32 = row_lo * 32;
    while p < end
        invariant
            img.holds_sprites(index + 1),
            row_lo <= row_hi <= 32,
            col_lo <= col_hi <= 32,
            x0 == index * 32,
            end == row_hi * 32,
            row_lo * 32 <= p <= end,
            t0.len() == 1024,
            target == overlay(
                t0,
                *img,
                index as int,
                row_lo as int,
                row_hi as int,
                col_lo as int,
                col_hi as int,
            ),
            forall|q: int| 0 <= q < p ==> tile@[q] == target[q],
            forall|q: int| p <= q < 1024 ==> tile@[q] == t0[q],
        decreases end - p,
    {
        let row = p / 32;
        let col = p % 32;
        if col_lo <= col && col < col_hi {
            assert(row * img.width + x0 + col < 32 * img.width) by (nonlinear_arith)
                requires
                    row < 32,
                    col < 32,
                    x0 + 32 <= img.width,
            ;
            let src = (row * img.width + x0 + col) as usize;
            let pixel = img.pixel_data[src];
            if pixel != 0 {
                tile[p as usize] = pixel;
            }
        }
        p = p + 1;
    }
    assert(tile@ =~= target);
}

/// The sprite sheets of every creature part.
pub struct CreatureAssets {
    pub shapes_image: ImageAsset,
    pub eyes_image: ImageAsset,
    pub mouths_image: ImageAsset,
    pub legs_image: ImageAsset,
    pub arms_image: ImageAsset,
}

/// The 32 by 32 tile of a creature drawn over `tile`: legs first, then the
/// body shape, arms, mouth, and the eyes on top, each within its own area.
pub open spec fn creature_tile(tile: Seq<u8>, a: CreatureAssets, c: CreatureParams) -> Seq<u8> {
    let legs = overlay(tile, a.legs_image, c.legs as int, 9, 32, 0, 32);
    let body = overlay(legs, a.shapes_image, c.shape as int, 1, 31, 1, 31);
    let arms = overlay(body, a.arms_image, c.arms as int, 2, 32, 0, 32);
    let mouth = overlay(arms, a.mouths_image, c.mouth as int, 5, 28, 2, 30);
    overlay(mouth, a.eyes_image, c.eyes as int, 2, 25, 3, 29)
}

impl CreatureAssets {
    /// Each sheet holds a sprite for every value of its parameter.
    pub open spec fn wf(&self) -> bool {
        &&& self.shapes_image.holds_sprites(NUM_SHAPES as int)
        &&& self.eyes_image.holds_sprites(NUM_EYES as int)
        &&& self.mouths_image.holds_sprites(NUM_MOUTHS as int)
        &&& self.legs_image.holds_sprites(NUM_LEGS as int)
        &&& self.arms_image.holds_sprites(NUM_ARMS as int)
    }

    /// Loads the five sprite sheets from their PNG files. Each must decode,
    /// be indexed, and hold a sprite for every value of its parameter.
    pub fn load(
        shapes: &[u8],
        eyes: &[u8],
        mouths: &[u8],
        legs: &[u8],
        arms: &[u8],
    ) -> (r: Result<CreatureAssets, AssetError>)
        ensures
            r matches Ok(a) ==> a.wf(),
    {
        let shapes_image = Self::load_asset(shapes)?;
        let eyes_image = Self::load_asset(eyes)?;
        let mouths_image = Self::load_asset(mouths)?;
        let legs_image = Self::load_asset(legs)?;
        let arms_image = Self::load_asset(arms)?;
        if !shapes_image.has_sprites(NUM_SHAPES as u32) || !eyes_image.has_sprites(NUM_EYES as u32)
            || !mouths_image.has_sprites(NUM_MOUTHS as u32) || !legs_image.has_sprites(
            NUM_LEGS as u32,
        ) || !arms_image.has_sprites(NUM_ARMS as u32) {
            return Err(AssetError::TooSmall);
        }
        Ok(CreatureAssets { shapes_image, eyes_image, mouths_image, legs_image, arms_image })
    }

    /// Loads one indexed image from its PNG file.
    pub fn load_asset(png: &[u8]) -> (r: Result<ImageAsset, AssetError>)
        ensures
            r matches Ok(a) ==> a.palette@.len() == 3 * a.bit_depth,
            r matches Err(e) ==> e == AssetError::Decode || e == AssetError::NotIndexed,
    {
        let image = match decode(png) {
            Ok(image) => image,
            Err(e) => return Err(e),
        };
        if !image.indexed {
            return Err(AssetError::NotIndexed);
        }
        Ok(
            ImageAsset {
                width: image.width,
                height: image.height,
                pixel_data: image.pixels,
                bit_depth: image.bit_depth,
                palette: image.palette,
            },
        )
    }

    /// Renders the creature into `buffer`, a 32 by 32 tile that holds what
    /// lies under it.
    pub fn render_creature(&self, params: &CreatureParams, buffer: &mut [u8; 1024])
        requires
            self.wf(),
            params.is_valid(),
        ensures
            final(buffer)@ == creature_tile(old(buffer)@, *self, *params),
    {
        // legs first
        overlay_sprite(buffer, &self.legs_image, params.legs as u32, 9, 32, 0, 32);
        // then the body shape
        overlay_sprite(buffer, &self.shapes_image, params.shape as u32, 1, 31, 1, 31);
        // arms
        overlay_sprite(buffer, &self.arms_image, params.arms as u32, 2, 32, 0, 32);
        // mouth
        overlay_sprite(buffer, &self.mouths_image, params.mouth as u32, 5, 28, 2, 30);
        // eyes on top, which never reach the tile's border
        overlay_sprite(buffer, &self.eyes_image, params.eyes as u32, 2, 25, 3, 29);
    }
}

/// Entry `k` of the game palette (three levels in `0..64` per colour) for
/// creature `c`: colour 0 (transparency) is shown as green, colours 2 and 3
/// are the creature's light shade and base colour, then white, light grey,
/// dark grey, grey, red, darker red and brown; colour 252 is orange, 253
/// baby blue, 254 white, and everything else black.
pub open spec fn palette_entry(c: CreatureParams, k: int) -> u8 {
    let rgb = body_rgb(c.color);
    if k == 0 { 0x30 }
    else if k == 1 { 0x3f }
    else if 6 <= k < 9 { lighter(rgb[k - 6]) }
    else if 9 <= k < 12 { rgb[k - 9] }
    else if 12 <= k < 15 { 0x3c }
    else if 15 <= k < 18 { 0x32 }
    else if 18 <= k < 21 { 0x0f }
    else if 21 <= k < 24 { 0x1f }
    else if k == 24 { 0x3c }
    else if k == 25 || k == 26 { 0x03 }
    else if k == 27 { 0x1f }
    else if k == 28 || k == 29 { 0x01 }
    else if k == 30 { 0x1f }
    else if k == 31 { 0x0e }
    else if k == 756 { 63 }
    else if k == 757 { 36 }
    else if k == 759 { 26 }
    else if k == 760 { 50 }
    else if k == 761 { 63 }
    else if 762 <= k < 765 { 63 }
    else { 0 }
}

/// Sets up the whole game palette for creature `c`.
pub fn init_palette(palette: &mut [u8; 768], creature: &CreatureParams)
    ensures
        forall|k: int| 0 <= k < 768 ==> final(palette)@[k] == palette_entry(*creature, k),
{
    let mut k: usize = 0;
    while k < 768
        invariant
            k <= 768,
            forall|q: int| 0 <= q < k ==> palette@[q] == 0,
        decreases 768 - k,
    {
        palette[k] = 0;
        k = k + 1;
    }
    // 0: reserved for transparency
    palette[0] = 0x30;
    palette[1] = 0x3f;
    palette[2] = 0x00;
    // 2 and 3: the creature's colours
    set_creature_palette(palette, creature);
    // 4: white
    palette[12] = 0x3c;
    palette[13] = 0x3c;
    palette[14] = 0x3c;
    // 5: light grey
    palette[15] = 0x32;
    palette[16] = 0x32;
    palette[17] = 0x32;
    // 6: dark grey
    palette[18] = 0x0f;
    palette[19] = 0x0f;
    palette[20] = 0x0f;
    // 7: grey
    palette[21] = 0x1f;
    palette[22] = 0x1f;
    palette[23] = 0x1f;
    // 8: red
    palette[24] = 0x3c;
    palette[25] = 0x03;
    palette[26] = 0x03;
    // 9: darker red
    palette[27] = 0x1f;
    palette[28] = 0x01;
    palette[29] = 0x01;
    // 10: brown
    palette[30] = 0x1f;
    palette[31] = 0x0e;
    palette[32] = 0x00;
    // 252: highlight colour (orange)
    palette[756] = 63;
    palette[757] = 36;
    palette[758] = 0;
    // 253: background colour (baby blue)
    palette[759] = 26;
    palette[760] = 50;
    palette[761] = 63;
    // 254: always white; 255 stays black
    palette[762] = 63;
    palette[763] = 63;
    palette[764] = 63;
}

/// Writes the creature's light shade and base colour into palette colours
/// 2 and 3, leaving the rest of the palette as it is.
pub fn set_creature_palette(palette: &mut [u8; 768], creature: &CreatureParams)
    ensures
        forall|k: int|
            6 <= k < 12 ==> final(palette)@[k] == (if k < 9 {
                lighter(body_rgb(creature.color)[k - 6])
            } else {
                body_rgb(creature.color)[k - 9]
            }),
        forall|k: int| 0 <= k < 768 && !(6 <= k < 12) ==> final(palette)@[k] == old(palette)@[k],
{
    let colors = creature.body_colors();
    let mut k: usize = 0;
    while k < 6
        invariant
            k <= 6,
            forall|q: int| 0 <= q < 3 ==> colors@[q] == lighter(body_rgb(creature.color)[q]),
            forall|q: int| 0 <= q < 3 ==> colors@[q + 3] == body_rgb(creature.color)[q],
            forall|q: int| 6 <= q < 6 + k ==> palette@[q] == colors@[q - 6],
            forall|q: int|
                0 <= q < 768 && !(6 <= q < 6 + k) ==> palette@[q] == old(palette)@[q],
        decreases 6 - k,
    {
        palette[6 + k] = colors[k];
        k = k + 1;
    }
    assert forall|q: int| 6 <= q < 12 implies palette@[q] == (if q < 9 {
        lighter(body_rgb(creature.color)[q - 6])
    } else {
        body_rgb(creature.color)[q - 9]
    }) by {
        if q >= 9 {
            assert(colors@[(q - 9) + 3] == body_rgb(creature.color)[q - 9]);
        }
    }
}

/// One step of a fade to black: every level drops by 2, down to zero.
pub fn fade_step(palette: &mut [u8; 768])
    ensures
        forall|k: int|
            0 <= k < 768 ==> final(palette)@[k] == (if old(palette)@[k] > 2 {
                old(palette)@[k] - 2
            } else {
                0
            }),
{
    let ghost p0 = palette@;
    let mut k: usize = 0;
    while k < 768
        invariant
            k <= 768,
            p0.len() == 768,
            forall|q: int| 0 <= q < k ==> palette@[q] == (if p0[q] > 2 { p0[q] - 2 } else { 0 }),
            forall|q: int| k <= q < 768 ==> palette@[q] == p0[q],
        decreases 768 - k,
    {
        let v = palette[k];
        palette[k] = if v > 2 { v - 2 } else { 0 };
        k = k + 1;
    }
}

/// The offsets from its top left corner of the seven pixels of an arrow
/// pointing right.
pub open spec fn arrow_right_offsets() -> Seq<(int, int)> {
    seq![(0, 0), (1, 1), (2, 2), (3, 3), (2, 4), (1, 5), (0, 6)]
}

/// The pixels of the arrow pointing right with its top left corner at
/// `x`, `y`, or its mirror image, pointing left, when `left`.
pub open spec fn arrow_pixels_spec(x: int, y: int, left: bool) -> Seq<(int, int)> {
    arrow_right_offsets().map_values(
        |o: (int, int)|
            if left {
                (x + 3 - o.0, y + o.1)
            } else {
                (x + o.0, y + o.1)
            },
    )
}

/// The seven pixels of an arrow with its top left corner at `x`, `y`,
/// pointing left when `left`, else right.
fn arrow_pixels(x: u32, y: u32, left: bool) -> (r: Vec<(u32, u32)>)
    requires
        x + 3 <= u32::MAX,
        y + 6 <= u32::MAX,
    ensures
        r@.len() == 7,
        forall|k: int|
            0 <= k < 7 ==> (r@[k].0 as int, r@[k].1 as int) == arrow_pixels_spec(
                x as int,
                y as int,
                left,
            )[k],
{
    let dx: [u32; 7] = [0, 1, 2, 3, 2, 1, 0];
    let mut r: Vec<(u32, u32)> = Vec::new();
    let mut k: usize = 0;
    assert(forall|q: int| 0 <= q < 7 ==> dx@[q] == arrow_right_offsets()[q].0);
    while k < 7
        invariant
            k <= 7,
            r@.len() == k,
            x + 3 <= u32::MAX,
            y + 6 <= u32::MAX,
            forall|q: int| 0 <= q < 7 ==> dx@[q] == arrow_right_offsets()[q].0,
            forall|q: int|
                0 <= q < k ==> (r@[q].0 as int, r@[q].1 as int) == arrow_pixels_spec(
                    x as int,
                    y as int,
                    left,
                )[q],
        decreases 7 - k,
    {
        let px = if left {
            x + 3 - dx[k]
        } else {
            x + dx[k]
        };
        r.push((px, y + k as u32));
        k = k + 1;
    }
    r
}

/// The seven pixels of an arrow pointing right, with its top left corner at
/// `x`, `y`.
pub fn arrow_right_pixels(x: u32, y: u32) -> (r: Vec<(u32, u32)>)
    requires
        x + 3 <= u32::MAX,
        y + 6 <= u32::MAX,
    ensures
        r@.len() == 7,
        forall|k: int|
            0 <= k < 7 ==> (r@[k].0 as int, r@[k].1 as int) == arrow_pixels_spec(
                x as int,
                y as int,
                false,
            )[k],
{
    arrow_pixels(x, y, false)
}

/// The seven pixels of an arrow pointing left, with its top left corner at
/// `x`, `y`.
pub fn arrow_left_pixels(x: u32, y: u32) -> (r: Vec<(u32, u32)>)
    requires
        x + 3 <= u32::MAX,
        y + 6 <= u32::MAX,
    ensures
        r@.len() == 7,
        forall|k: int|
            0 <= k < 7 ==> (r@[k].0 as int, r@[k].1 as int) == arrow_pixels_spec(
                x as int,
                y as int,
                true,
            )[k],
{
    arrow_pixels(x, y, true)
}

} // verus!
