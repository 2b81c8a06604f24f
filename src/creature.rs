//! The creature model: its six parameters, the colours and the name that
//! they give.

use tinyrand::{RandRange, Xorshift};
use vstd::prelude::*;

verus! {

/// The random number generator that creatures are drawn from.
#[verifier::external_type_specification]
#[verifier::external_body]
pub struct ExXorshift(Xorshift);

/// Number of body shapes.
pub const NUM_SHAPES: u8 = 14;
/// Number of body colours.
pub const NUM_COLORS: u8 = 8;
/// Number of mouths.
pub const NUM_MOUTHS: u8 = 8;
/// Number of eye kinds.
pub const NUM_EYES: u8 = 10;
/// Number of leg kinds.
pub const NUM_LEGS: u8 = 7;
/// Number of arm kinds.
pub const NUM_ARMS: u8 = 7;

/// The parameters of a creature.
#[derive(Debug, Clone, Copy, PartialEq, Eq, Structural)]
pub struct CreatureParams {
    /// parameter 1: shape
    pub shape: u8,
    /// parameter 2: color
    pub color: u8,
    /// parameter 3: eyes
    pub eyes: u8,
    /// parameter 4: mouth
    pub mouth: u8,
    /// parameter 5: legs
    pub legs: u8,
    /// parameter 6: arms
    pub arms: u8,
}

/// The syllable that the colour gives.
pub open spec fn color_syllable(color: u8) -> Seq<char> {
    match color {
        0 => "a"@,
        1 => "e"@,
        2 => "ey"@,
        3 => "i"@,
        4 => "or"@,
        5 => "o"@,
        6 => "ar"@,
        7 => "ur"@,
        _ => "Unknown"@,
    }
}

/// The colour's syllable, as text.
fn color_syllable_str(color: u8) -> (r: &'static str)
    ensures
        r@ == color_syllable(color),
{
    match color {
        0 => "a",
        1 => "e",
        2 => "ey",
        3 => "i",
        4 => "or",
        5 => "o",
        6 => "ar",
        7 => "ur",
        _ => "Unknown",
    }
}

/// The letters that the shape puts before the colour's syllable.
pub open spec fn shape_head(shape: u8) -> Seq<char> {
    match shape {
        0 => "Fl"@,
        1 => "D"@,
        2 => "Bl"@,
        3 => "Em"@,
        4 => "N"@,
        5 => "Sn"@,
        6 => "Yl"@,
        7 => "H"@,
        8 => "J"@,
        9 => "Al"@,
        10 => "V"@,
        11 => "T"@,
        12 => "B"@,
        13 => "K"@,
        _ => ""@,
    }
}

/// The shape's leading letters, as text.
fn shape_head_str(shape: u8) -> (r: &'static str)
    ensures
        r@ == shape_head(shape),
{
    match shape {
        0 => "Fl",
        1 => "D",
        2 => "Bl",
        3 => "Em",
        4 => "N",
        5 => "Sn",
        6 => "Yl",
        7 => "H",
        8 => "J",
        9 => "Al",
        10 => "V",
        11 => "T",
        12 => "B",
        13 => "K",
        _ => "",
    }
}

/// The letters that the shape puts after the colour's syllable.
pub open spec fn shape_tail(shape: u8) -> Seq<char> {
    match shape {
        0 => ""@,
        1 => "n"@,
        2 => ""@,
        3 => ""@,
        4 => "n"@,
        5 => ""@,
        6 => "m"@,
        7 => ""@,
        8 => "m"@,
        9 => ""@,
        10 => "n"@,
        11 => ""@,
        12 => ""@,
        13 => ""@,
        _ => ""@,
    }
}

/// The shape's trailing letters, as text.
fn shape_tail_str(shape: u8) -> (r: &'static str)
    ensures
        r@ == shape_tail(shape),
{
    match shape {
        0 => "",
        1 => "n",
        2 => "",
        3 => "",
        4 => "n",
        5 => "",
        6 => "m",
        7 => "",
        8 => "m",
        9 => "",
        10 => "n",
        11 => "",
        12 => "",
        13 => "",
        _ => "",
    }
}

/// The consonants that the legs and arms give together.
pub open spec fn limb_syllable(legs: u8, arms: u8) -> Seq<char> {
    match (legs, arms) {
        (0, 0) => "n"@,
        (1, 0) => "t"@,
        (2, 0) => "rl"@,
        (3, 0) => "d"@,
        (4, 0) => "p"@,
        (5, 0) => "b"@,
        (6, 0) => "tr"@,
        (0, 1) => "sh"@,
        (1, 1) => "wr"@,
        (2, 1) => "c"@,
        (3, 1) => "f"@,
        (4, 1) => "k"@,
        (5, 1) => "ss"@,
        (6, 1) => "h"@,
        (0, 2) => "bh"@,
        (1, 2) => "ch"@,
        (2, 2) => "fr"@,
        (3, 2) => "m"@,
        (4, 2) => "g"@,
        (5, 2) => "kk"@,
        (6, 2) => "gr"@,
        (0, 3) => "ff"@,
        (1, 3) => "scht"@,
        (2, 3) => ""@,
        (3, 3) => "ng"@,
        (4, 3) => "xij"@,
        (5, 3) => "th"@,
        (6, 3) => "gl"@,
        (0, 4) => "h"@,
        (1, 4) => "yx"@,
        (2, 4) => "bl"@,
        (3, 4) => "nj"@,
        (4, 4) => "rr"@,
        (5, 4) => "l"@,
        (6, 4) => "ft"@,
        (0, 5) => "r"@,
        (1, 5) => "st"@,
        (2, 5) => "kh"@,
        (3, 5) => "v"@,
        (4, 5) => "j"@,
        (5, 5) => "wh"@,
        (6, 5) => "br"@,
        (0, 6) => "w"@,
        (1, 6) => "pl"@,
        (2, 6) => "ll"@,
        (3, 6) => "cl"@,
        (4, 6) => "z"@,
        (5, 6) => "sw"@,
        (6, 6) => "gg"@,
        _ => ""@,
    }
}

/// The limbs' consonants, as text.
fn limb_syllable_str(legs: u8, arms: u8) -> (r: &'static str)
    ensures
        r@ == limb_syllable(legs, arms),
{
    match (legs, arms) {
        (0, 0) => "n",
        (1, 0) => "t",
        (2, 0) => "rl",
        (3, 0) => "d",
        (4, 0) => "p",
        (5, 0) => "b",
        (6, 0) => "tr",
        (0, 1) => "sh",
        (1, 1) => "wr",
        (2, 1) => "c",
        (3, 1) => "f",
        (4, 1) => "k",
        (5, 1) => "ss",
        (6, 1) => "h",
        (0, 2) => "bh",
        (1, 2) => "ch",
        (2, 2) => "fr",
        (3, 2) => "m",
        (4, 2) => "g",
        (5, 2) => "kk",
        (6, 2) => "gr",
        (0, 3) => "ff",
        (1, 3) => "scht",
        (2, 3) => "",
        (3, 3) => "ng",
        (4, 3) => "xij",
        (5, 3) => "th",
        (6, 3) => "gl",
        (0, 4) => "h",
        (1, 4) => "yx",
        (2, 4) => "bl",
        (3, 4) => "nj",
        (4, 4) => "rr",
        (5, 4) => "l",
        (6, 4) => "ft",
        (0, 5) => "r",
        (1, 5) => "st",
        (2, 5) => "kh",
        (3, 5) => "v",
        (4, 5) => "j",
        (5, 5) => "wh",
        (6, 5) => "br",
        (0, 6) => "w",
        (1, 6) => "pl",
        (2, 6) => "ll",
        (3, 6) => "cl",
        (4, 6) => "z",
        (5, 6) => "sw",
        (6, 6) => "gg",
        _ => "",
    }
}

/// The vowels that the eyes give.
pub open spec fn eye_syllable(eyes: u8) -> Seq<char> {
    match eyes {
        0 => "i"@,
        1 => "o"@,
        2 => "ow"@,
        3 => "e"@,
        4 => "a"@,
        5 => "ya"@,
        6 => "yo"@,
        7 => "u"@,
        8 => "oo"@,
        9 => "ey"@,
        _ => ""@,
    }
}

/// The eyes' vowels, as text.
fn eye_syllable_str(eyes: u8) -> (r: &'static str)
    ensures
        r@ == eye_syllable(eyes),
{
    match eyes {
        0 => "i",
        1 => "o",
        2 => "ow",
        3 => "e",
        4 => "a",
        5 => "ya",
        6 => "yo",
        7 => "u",
        8 => "oo",
        9 => "ey",
        _ => "",
    }
}

/// The ending that the mouth gives.
pub open spec fn mouth_syllable(mouth: u8) -> Seq<char> {
    match mouth {
        0 => "n"@,
        1 => "ty"@,
        2 => "d"@,
        3 => "r"@,
        4 => "z"@,
        5 => "b"@,
        6 => "m"@,
        7 => "x"@,
        _ => ""@,
    }
}

/// The mouth's ending, as text.
fn mouth_syllable_str(mouth: u8) -> (r: &'static str)
    ensures
        r@ == mouth_syllable(mouth),
{
    match mouth {
        0 => "n",
        1 => "ty",
        2 => "d",
        3 => "r",
        4 => "z",
        5 => "b",
        6 => "m",
        7 => "x",
        _ => "",
    }
}

/// The main colour of a body, as red, green and blue levels in `0..64`;
/// an unknown colour is grey.
pub open spec fn body_rgb(color: u8) -> Seq<u8> {
    match color {
        0 => seq![0x3a, 0x3a, 0x3a],
        1 => seq![0x3c, 0x14, 0x14],
        2 => seq![0x3c, 0x3c, 0x14],
        3 => seq![0x14, 0x3c, 0x14],
        4 => seq![0x14, 0x3c, 0x3c],
        5 => seq![0x16, 0x16, 0x3c],
        6 => seq![0x3c, 0x14, 0x3c],
        7 => seq![0x30, 0x20, 0x14],
        _ => seq![0x1f, 0x1f, 0x1f],
    }
}

/// A level raised by 24, capped at 63.
pub open spec fn lighter(level: u8) -> u8 {
    if level + 24 > 63 {
        63
    } else {
        (level + 24) as u8
    }
}

/// The creature's name: the shape's letters around the colour's syllable,
/// then the limbs' consonants, the eyes' vowels and the mouth's ending.
pub open spec fn name_of(c: CreatureParams) -> Seq<char> {
    shape_head(c.shape) + color_syllable(c.color) + shape_tail(c.shape) + limb_syllable(
        c.legs,
        c.arms,
    ) + eye_syllable(c.eyes) + mouth_syllable(c.mouth)
}

/// Relies on tinyrand's `RandRange<u16>::next_range` for `Xorshift`: it draws
/// a number in `0..bound` and panics on an empty range.
#[verifier::external_body]
fn next_below(rng: &mut Xorshift, bound: u16) -> (r: u16)
    requires
        bound > 0,
    ensures
        r < bound,
{
    rng.next_range(0..bound)
}

/// The next value of a parameter with `count` values, wrapping to zero.
pub fn cycle_next(value: u8, count: u8) -> (r: u8)
    requires
        value < count,
    ensures
        r == (value + 1) % (count as int),
        r < count,
{
    ((value as u16 + 1) % count as u16) as u8
}

/// The previous value of a parameter with `count` values, wrapping to
/// `count - 1`.
pub fn cycle_prev(value: u8, count: u8) -> (r: u8)
    requires
        value < count,
    ensures
        r == if value == 0 { count - 1 } else { value - 1 },
        r < count,
{
    if value == 0 {
        count - 1
    } else {
        value - 1
    }
}

impl CreatureParams {
    /// Every parameter is within its number of values.
    pub open spec fn is_valid(self) -> bool {
        &&& self.shape < NUM_SHAPES
        &&& self.color < NUM_COLORS
        &&& self.eyes < NUM_EYES
        &&& self.mouth < NUM_MOUTHS
        &&& self.legs < NUM_LEGS
        &&& self.arms < NUM_ARMS
    }

    /// A creature with every parameter drawn from `rng`, in the order shape,
    /// colour, eyes, mouth, legs, arms.
    pub fn new_random(rng: &mut Xorshift) -> (r: CreatureParams)
        ensures
            r.is_valid(),
    {
        CreatureParams {
            shape: next_below(rng, NUM_SHAPES as u16) as u8,
            color: next_below(rng, NUM_COLORS as u16) as u8,
            eyes: next_below(rng, NUM_EYES as u16) as u8,
            mouth: next_below(rng, NUM_MOUTHS as u16) as u8,
            legs: next_below(rng, NUM_LEGS as u16) as u8,
            arms: next_below(rng, NUM_ARMS as u16) as u8,
        }
    }

    /// The main colour of the body, in `0..64` levels.
    pub fn body_color(&self) -> (r: [u8; 3])
        ensures
            r@ == body_rgb(self.color),
    {
        let r: [u8; 3] = match self.color {
            0 => [0x3a, 0x3a, 0x3a],
            1 => [0x3c, 0x14, 0x14],
            2 => [0x3c, 0x3c, 0x14],
            3 => [0x14, 0x3c, 0x14],
            4 => [0x14, 0x3c, 0x3c],
            5 => [0x16, 0x16, 0x3c],
            6 => [0x3c, 0x14, 0x3c],
            7 => [0x30, 0x20, 0x14],
            _ => [0x1f, 0x1f, 0x1f],
        };
        assert(r@ =~= body_rgb(self.color));
        r
    }

    /// The four palette entries of the body: a light shade, the base colour,
    /// a darker shade at half and a darkest one at a quarter.
    pub fn body_colors(&self) -> (r: [u8; 12])
        ensures
            forall|k: int|
                0 <= k < 3 ==> {
                    &&& r@[k] == lighter(body_rgb(self.color)[k])
                    &&& r@[k + 3] == body_rgb(self.color)[k]
                    &&& r@[k + 6] == body_rgb(self.color)[k] / 2
                    &&& r@[k + 9] == body_rgb(self.color)[k] / 4
                },
    {
        let base = self.body_color();
        assert(forall|k: int| 0 <= k < 3 ==> body_rgb(self.color)[k] <= 0x3c);
        let r: [u8; 12] = [
            light(base[0]),
            light(base[1]),
            light(base[2]),
            base[0],
            base[1],
            base[2],
            base[0] / 2,
            base[1] / 2,
            base[2] / 2,
            base[0] / 4,
            base[1] / 4,
            base[2] / 4,
        ];
        r
    }

    /// The creature's name.
    pub fn name(&self) -> (r: String)
        requires
            self.shape < NUM_SHAPES,
            self.eyes < NUM_EYES,
            self.mouth < NUM_MOUTHS,
        ensures
            r@ == name_of(*self),
    {
        let mut s = String::new();
        s.append(shape_head_str(self.shape));
        s.append(color_syllable_str(self.color));
        s.append(shape_tail_str(self.shape));
        s.append(limb_syllable_str(self.legs, self.arms));
        s.append(eye_syllable_str(self.eyes));
        s.append(mouth_syllable_str(self.mouth));
        s
    }
}

/// The light shade of a level (see `lighter`).
fn light(level: u8) -> (r: u8)
    requires
        level <= 0x3c,
    ensures
        r == lighter(level),
{
    if level + 24 > 63 {
        63
    } else {
        level + 24
    }
}

} // verus!
