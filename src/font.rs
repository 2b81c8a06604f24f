//! Bitmap fonts: where each character sits in the font sheet, and how a
//! glyph is painted over what is already on screen.

use vstd::prelude::*;
use crate::png::{AssetError, decode};

verus! {

/// The horizontal spacing added between characters when drawing text.
pub const H_SPACING: u8 = 1;

/// Characters per row of the font sheet.
pub const CHARS_PER_ROW: u8 = 9;

/// Rows of characters in the font sheet.
pub const CHAR_ROWS: u8 = 8;

/// The column and row of the font sheet cell that shows `c`: bold capitals
/// in rows 0 to 2, punctuation and the two cursors in row 3, plain letters
/// (written in lower case) in rows 4 to 6, digits in rows 6 and 7. Any other
/// character falls back to the cell at column 2, row 2 (the glyph of `U`).
pub open spec fn glyph_cell(c: u8) -> (int, int) {
    if 65 <= c <= 73 {
        (c - 65, 0)
    } else if 74 <= c <= 82 {
        (c - 74, 1)
    } else if 83 <= c <= 90 {
        (c - 83, 2)
    } else if c == 32 {
        (8, 2)
    } else if c == 46 {
        (0, 3)
    } else if c == 33 {
        (1, 3)
    } else if c == 63 {
        (2, 3)
    } else if c == 58 {
        (3, 3)
    } else if c == 44 {
        (4, 3)
    } else if c == 39 {
        (5, 3)
    } else if c == 45 {
        (6, 3)
    } else if c == 43 {
        (7, 3)
    } else if c == 42 {
        (8, 3)
    } else if 97 <= c <= 105 {
        (c - 97, 4)
    } else if 106 <= c <= 114 {
        (c - 106, 5)
    } else if 115 <= c <= 122 {
        (c - 115, 6)
    } else if c == 48 {
        (8, 6)
    } else if 49 <= c <= 57 {
        (c - 49, 7)
    } else {
        (2, 2)
    }
}

/// A font sheet of 9 by 8 characters, one byte per pixel, zero where the
/// glyph is transparent.
pub struct BitmapFont {
    pub pixeldata: Vec<u8>,
    pub char_width: u8,
    pub char_height: u8,
}

impl BitmapFont {
    /// Characters are 1 to 16 pixels wide and high, and the sheet holds all
    /// 72 of them.
    pub open spec fn wf(&self) -> bool {
        &&& 0 < self.char_width <= 16
        &&& 0 < self.char_height <= 16
        &&& self.pixeldata@.len() >= 72 * (self.char_width as int) * (self.char_height as int)
    }

    /// The width of the sheet in pixels.
    pub open spec fn sheet_width(&self) -> int {
        9 * self.char_width
    }

    /// The pixel of the glyph of `c` at `row`, `col`.
    pub open spec fn glyph_pixel(&self, c: u8, row: int, col: int) -> u8 {
        self.pixeldata@[(glyph_cell(c).1 * self.char_height + row) * self.sheet_width()
            + glyph_cell(c).0 * self.char_width + col]
    }

    /// A font of `char_width` by `char_height` characters over the decoded
    /// sheet `pixeldata`, or `None` when the sizes are out of range or the
    /// sheet is too small.
    pub fn from_pixels(pixeldata: Vec<u8>, char_width: u8, char_height: u8) -> (r: Option<
        BitmapFont,
    >)
        ensures
            r matches Some(f) ==> f.wf() && f.pixeldata@ == pixeldata@ && f.char_width
                == char_width && f.char_height == char_height,
            r is None <==> !(BitmapFont { pixeldata, char_width, char_height }).wf(),
    {
        if char_width == 0 || char_width > 16 || char_height == 0 || char_height > 16 {
            return None;
        }
        assert(72 * (char_width as int) * (char_height as int) <= 72 * 16 * 16) by (nonlinear_arith)
            requires
                char_width <= 16,
                char_height <= 16,
        ;
        let need = 72 * (char_width as usize) * (char_height as usize);
        if pixeldata.len() < need {
            return None;
        }
        Some(BitmapFont { pixeldata, char_width, char_height })
    }

    /// The big font, 16 by 16 characters, from its PNG file.
    pub fn big(png: &[u8]) -> (r: Result<BitmapFont, AssetError>)
        ensures
            r matches Ok(f) ==> f.wf() && f.char_width == 16 && f.char_height == 16,
    {
        Self::from_png(png, 16, 16)
    }

    /// The small font, 8 by 8 characters, from its PNG file.
    pub fn small(png: &[u8]) -> (r: Result<BitmapFont, AssetError>)
        ensures
            r matches Ok(f) ==> f.wf() && f.char_width == 8 && f.char_height == 8,
    {
        Self::from_png(png, 8, 8)
    }

    /// A font of `char_width` by `char_height` characters from the PNG file
    /// of its sheet.
    fn from_png(png: &[u8], char_width: u8, char_height: u8) -> (r: Result<BitmapFont, AssetError>)
        ensures
            r matches Ok(f) ==> f.wf() && f.char_width == char_width && f.char_height
                == char_height,
    {
        let image = decode(png)?;
        match BitmapFont::from_pixels(image.pixels, char_width, char_height) {
            Some(f) => Ok(f),
            None => Err(AssetError::TooSmall),
        }
    }

    /// The tile pixel `p` of the glyph of `c` painted in `color` over
    /// `under`: the colour where the glyph has ink, `under` elsewhere.
    pub open spec fn painted(&self, c: u8, color: u8, p: int, under: u8) -> u8 {
        if self.glyph_pixel(c, p / (self.char_width as int), p % (self.char_width as int)) != 0 {
            color
        } else {
            under
        }
    }

    /// Paints the glyph of `c` in `color` over `tile`, which holds the
    /// screen under the character, `char_width` pixels per row. Pixels past
    /// the glyph's area are left as they are.
    pub fn paint_glyph(&self, c: u8, color: u8, tile: &mut [u8; 256])
        requires
            self.wf(),
        ensures
            forall|p: int|
                0 <= p < self.char_width * self.char_height ==> final(tile)@[p] == self.painted(
                    c,
                    color,
                    p,
                    old(tile)@[p],
                ),
            forall|p: int|
                self.char_width * self.char_height <= p < 256 ==> final(tile)@[p] == old(
                    tile,
                )@[p],
    {
        let cw = self.char_width as u32;
        let ch = self.char_height as u32;
        let img_width = cw * 9;
        let (char_x, char_y) = self.map_char_to_position(c);
        let ghost cell = glyph_cell(c);
        let ghost t0 = tile@;
        assert(cw * ch <= 256) by (nonlinear_arith)
            requires
                cw <= 16,
                ch <= 16,
        ;
        let n = cw * ch;
        let mut p: u32 = 0;
        while p < n
            invariant
                self.wf(),
                cw == self.char_width,
                ch == self.char_height,
                img_width == 9 * cw,
                n == cw * ch,
                n <= 256,
                char_x == cell.0 * cw,
                char_y == cell.1 * ch,
                cell == glyph_cell(c),
                0 <= p <= n,
                t0.len() == 256,
                forall|q: int| 0 <= q < p ==> tile@[q] == self.painted(c, color, q, t0[q]),
                forall|q: int| p <= q < 256 ==> tile@[q] == t0[q],
            decreases n - p,
        {
            let row = p / cw;
            let col = p % cw;
            assert(0 <= cell.0 <= 8 && 0 <= cell.1 <= 7);
            assert(row < ch) by (nonlinear_arith)
                requires
                    row == p / cw,
                    p < cw * ch,
                    cw > 0,
            ;
            assert((char_y + row) * img_width + char_x + col < 72 * cw * ch) by (nonlinear_arith)
                requires
                    0 <= cell.0 <= 8,
                    0 <= cell.1 <= 7,
                    char_x == cell.0 * cw,
                    char_y == cell.1 * ch,
                    img_width == 9 * cw,
                    row < ch,
                    col < cw,
            ;
            assert(72 * cw * ch <= 72 * 256) by (nonlinear_arith)
                requires
                    cw * ch <= 256,
            ;
            let src = ((char_y + row) * img_width + char_x + col) as usize;
            let pixel = self.pixeldata[src];
            if pixel != 0 {
                tile[p as usize] = color;
            }
            p = p + 1;
        }
    }

    /// The left edge on screen of the `i`-th character of a text that
    /// starts at `x`: each character takes its width plus the spacing.
    pub fn glyph_x(&self, x: i32, i: u32) -> (r: i32)
        requires
            i32::MIN <= x + i * (self.char_width + H_SPACING) <= i32::MAX,
        ensures
            r == x + i * (self.char_width + H_SPACING),
    {
        let step = i as i64 * (self.char_width as i64 + H_SPACING as i64);
        (x as i64 + step) as i32
    }

    /// The pixel coordinates of the top left corner of `c` in the sheet.
    pub fn map_char_to_position(&self, c: u8) -> (r: (u32, u32))
        ensures
            r.0 == glyph_cell(c).0 * self.char_width,
            r.1 == glyph_cell(c).1 * self.char_height,
    {
        let (i, j): (u32, u32) = if 65 <= c && c <= 73 {
            // 'A' to 'I'
            ((c - 65) as u32, 0)
        } else if 74 <= c && c <= 82 {
            // 'J' to 'R'
            ((c - 74) as u32, 1)
        } else if 83 <= c && c <= 90 {
            // 'S' to 'Z'
            ((c - 83) as u32, 2)
        } else if c == 32 {
            // ' '
            (8, 2)
        } else if c == 46 {
            // '.'
            (0, 3)
        } else if c == 33 {
            // '!'
            (1, 3)
        } else if c == 63 {
            // '?'
            (2, 3)
        } else if c == 58 {
            // ':'
            (3, 3)
        } else if c == 44 {
            // ','
            (4, 3)
        } else if c == 39 {
            // '''
            (5, 3)
        } else if c == 45 {
            // '-'
            (6, 3)
        } else if c == 43 {
            // '+'
            // outline cursor
            (7, 3)
        } else if c == 42 {
            // '*'
            // filled cursor
            (8, 3)
        } else if 97 <= c && c <= 105 {
            // 'a' to 'i'
            ((c - 97) as u32, 4)
        } else if 106 <= c && c <= 114 {
            // 'j' to 'r'
            ((c - 106) as u32, 5)
        } else if 115 <= c && c <= 122 {
            // 's' to 'z'
            ((c - 115) as u32, 6)
        } else if c == 48 {
            // '0'
            (8, 6)
        } else if 49 <= c && c <= 57 {
            // '1' to '9'
            ((c - 49) as u32, 7)
        } else {
            // unknown character: the cell at column 2, row 2
            (2, 2)
        };
        assert(i <= 8 && j <= 7);
        assert(i * (self.char_width as u32) <= 8 * 255 && j * (self.char_height as u32) <= 7 * 255)
            by (nonlinear_arith)
            requires
                i <= 8,
                j <= 7,
                self.char_width <= 255,
                self.char_height <= 255,
        ;
        (i * self.char_width as u32, j * self.char_height as u32)
    }
}

} // verus!
