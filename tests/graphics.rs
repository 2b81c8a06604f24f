use createac::creature::CreatureParams;
use createac::font::BitmapFont;
use createac::gfx::{
    arrow_left_pixels, arrow_right_pixels, fade_step, init_palette, set_creature_palette,
    CreatureAssets, ImageAsset,
};
use createac::png::{decode, AssetError};

fn adler32(data: &[u8]) -> u32 {
    let (mut a, mut b) = (1u32, 0u32);
    for &x in data {
        a = (a + x as u32) % 65521;
        b = (b + a) % 65521;
    }
    (b << 16) | a
}

fn chunk(out: &mut Vec<u8>, kind: &[u8; 4], data: &[u8]) {
    out.extend_from_slice(&(data.len() as u32).to_be_bytes());
    out.extend_from_slice(kind);
    out.extend_from_slice(data);
    out.extend_from_slice(&[0, 0, 0, 0]);
}

/// An 8-bit PNG of the given colour type, pixels stored uncompressed.
fn png(width: u32, height: u32, pixels: &[u8], color_type: u8) -> Vec<u8> {
    let mut out = vec![137, 80, 78, 71, 13, 10, 26, 10];
    let mut ihdr = Vec::new();
    ihdr.extend_from_slice(&width.to_be_bytes());
    ihdr.extend_from_slice(&height.to_be_bytes());
    ihdr.extend_from_slice(&[8, color_type, 0, 0, 0]);
    chunk(&mut out, b"IHDR", &ihdr);
    if color_type == 3 {
        let palette: Vec<u8> = (0..256u32).flat_map(|i| [i as u8, (i / 2) as u8, 7]).collect();
        chunk(&mut out, b"PLTE", &palette);
    }
    let mut raw = Vec::new();
    for row in pixels.chunks(width as usize) {
        raw.push(0);
        raw.extend_from_slice(row);
    }
    let mut z = vec![0x78, 0x01];
    let blocks: Vec<&[u8]> = raw.chunks(65535).collect();
    for (k, block) in blocks.iter().enumerate() {
        z.push(if k + 1 == blocks.len() { 1 } else { 0 });
        let len = block.len() as u16;
        z.extend_from_slice(&len.to_le_bytes());
        z.extend_from_slice(&(!len).to_le_bytes());
        z.extend_from_slice(block);
    }
    z.extend_from_slice(&adler32(&raw).to_be_bytes());
    chunk(&mut out, b"IDAT", &z);
    chunk(&mut out, b"IEND", &[]);
    out
}

/// A sheet of `count` sprites; sprite `k` has value `k + 1` inside the
/// square `[lo, hi)` of rows and columns, zero elsewhere.
fn sheet(count: u32, lo: u32, hi: u32) -> Vec<u8> {
    let width = 32 * count;
    let mut pixels = vec![0u8; (width * 32) as usize];
    for k in 0..count {
        for j in lo..hi {
            for i in lo..hi {
                pixels[(j * width + k * 32 + i) as usize] = (k + 1) as u8;
            }
        }
    }
    png(width, 32, &pixels, 3)
}

#[test]
fn decode_reads_indexed_png() {
    let d = decode(&png(3, 2, &[1, 2, 3, 4, 5, 6], 3)).unwrap();
    assert_eq!((d.width, d.height, d.bit_depth, d.indexed), (3, 2, 8, true));
    assert_eq!(&d.pixels[..6], &[1, 2, 3, 4, 5, 6]);
    assert_eq!(d.palette.len(), 24);
    assert_eq!(&d.palette[..6], &[0, 0, 7, 1, 0, 7]);
    let gray = decode(&png(2, 1, &[9, 9], 0)).unwrap();
    assert!(!gray.indexed);
    assert_eq!(decode(b"not a png").err(), Some(AssetError::Decode));
}

#[test]
fn load_asset_requires_indexed() {
    assert_eq!(CreatureAssets::load_asset(&png(2, 1, &[9, 9], 0)).err(), Some(AssetError::NotIndexed));
    let a = CreatureAssets::load_asset(&png(64, 32, &vec![3; 64 * 32], 3)).unwrap();
    assert_eq!((a.width, a.height, a.bit_depth), (64, 32, 8));
    assert!(a.has_sprites(2));
    assert!(!a.has_sprites(3));
}

fn assets() -> CreatureAssets {
    CreatureAssets::load(&sheet(14, 1, 31), &sheet(10, 10, 12), &sheet(8, 14, 16), &sheet(7, 0, 32), &sheet(7, 20, 22))
        .unwrap()
}

#[test]
fn creature_assets_must_hold_every_sprite() {
    let too_few = CreatureAssets::load(&sheet(13, 1, 31), &sheet(10, 10, 12), &sheet(8, 14, 16), &sheet(7, 0, 32), &sheet(7, 20, 22));
    assert_eq!(too_few.err(), Some(AssetError::TooSmall));
    let broken = CreatureAssets::load(b"x", &sheet(10, 10, 12), &sheet(8, 14, 16), &sheet(7, 0, 32), &sheet(7, 20, 22));
    assert_eq!(broken.err(), Some(AssetError::Decode));
}

#[test]
fn render_creature_layers() {
    let a = assets();
    let c = CreatureParams { shape: 2, color: 0, eyes: 4, mouth: 6, legs: 1, arms: 3 };
    let mut tile = [200u8; 1024];
    a.render_creature(&c, &mut tile);
    // legs cover rows 9 and below only
    assert_eq!(tile[0], 200);
    assert_eq!(tile[9 * 32], 2);
    // the body covers rows and columns 1 to 30, over the legs
    assert_eq!(tile[32 + 1], 3);
    assert_eq!(tile[9 * 32 + 31], 2);
    // arms, then mouth, then eyes on top
    assert_eq!(tile[20 * 32 + 20], 4);
    assert_eq!(tile[14 * 32 + 15], 7);
    assert_eq!(tile[10 * 32 + 11], 5);
    assert_eq!(tile[31 * 32 + 31], 2);
}

#[test]
fn sprite_pixels_of_image_asset() {
    let img = ImageAsset { width: 64, height: 32, pixel_data: vec![0; 64 * 32], bit_depth: 8, palette: vec![] };
    assert!(img.has_sprites(2));
    let short = ImageAsset { width: 64, height: 32, pixel_data: vec![0; 64 * 31], bit_depth: 8, palette: vec![] };
    assert!(!short.has_sprites(1));
}

fn font_sheet(cw: usize, ch: usize) -> Vec<u8> {
    // glyph at cell (cx, cy) has its top-left pixel set to 1 + cx + 9 * cy
    let width = 9 * cw;
    let mut pixels = vec![0u8; width * 8 * ch];
    for cy in 0..8 {
        for cx in 0..9 {
            pixels[cy * ch * width + cx * cw] = (1 + cx + 9 * cy) as u8;
        }
    }
    pixels
}

#[test]
fn font_positions() {
    let f = BitmapFont::from_pixels(font_sheet(16, 16), 16, 16).unwrap();
    assert_eq!(f.map_char_to_position(b'A'), (0, 0));
    assert_eq!(f.map_char_to_position(b'K'), (16, 16));
    assert_eq!(f.map_char_to_position(b'Z'), (7 * 16, 32));
    assert_eq!(f.map_char_to_position(b' '), (8 * 16, 32));
    assert_eq!(f.map_char_to_position(b'!'), (16, 48));
    assert_eq!(f.map_char_to_position(b'*'), (8 * 16, 48));
    assert_eq!(f.map_char_to_position(b'c'), (32, 64));
    assert_eq!(f.map_char_to_position(b'z'), (7 * 16, 96));
    assert_eq!(f.map_char_to_position(b'0'), (8 * 16, 96));
    assert_eq!(f.map_char_to_position(b'9'), (8 * 16, 112));
    assert_eq!(f.map_char_to_position(b'~'), (32, 32));
    assert_eq!(f.glyph_x(10, 3), 10 + 3 * 17);
}

#[test]
fn font_sizes_checked() {
    assert!(BitmapFont::from_pixels(vec![0; 72 * 64 - 1], 8, 8).is_none());
    assert!(BitmapFont::from_pixels(vec![0; 72 * 64], 8, 8).is_some());
    assert!(BitmapFont::from_pixels(vec![0; 72 * 17 * 17], 17, 17).is_none());
    assert!(BitmapFont::from_pixels(vec![0; 10], 0, 8).is_none());
}

#[test]
fn fonts_from_png() {
    let small = BitmapFont::small(&png(72, 64, &font_sheet(8, 8), 3)).unwrap();
    assert_eq!((small.char_width, small.char_height), (8, 8));
    assert_eq!(small.pixeldata[0], 1);
    assert_eq!(BitmapFont::big(&png(72, 64, &font_sheet(8, 8), 3)).err(), Some(AssetError::TooSmall));
    let big = BitmapFont::big(&png(144, 128, &font_sheet(16, 16), 3)).unwrap();
    assert_eq!(big.map_char_to_position(b'B'), (16, 0));
    assert_eq!(BitmapFont::small(b"nope").err(), Some(AssetError::Decode));
}

#[test]
fn glyph_painting() {
    let f = BitmapFont::from_pixels(font_sheet(8, 8), 8, 8).unwrap();
    let mut tile = [9u8; 256];
    f.paint_glyph(b'K', 42, &mut tile);
    // only the top-left pixel of every glyph has ink
    assert_eq!(tile[0], 42);
    assert_eq!(tile[1], 9);
    assert_eq!(tile[8], 9);
    assert_eq!(tile[255], 9);
}

#[test]
fn palette_setup() {
    let c = CreatureParams { shape: 0, color: 1, eyes: 0, mouth: 0, legs: 0, arms: 0 };
    let mut p = [77u8; 768];
    init_palette(&mut p, &c);
    assert_eq!(&p[0..3], &[0x30, 0x3f, 0]);
    assert_eq!(&p[3..6], &[0, 0, 0]);
    assert_eq!(&p[6..12], &[63, 0x2c, 0x2c, 0x3c, 0x14, 0x14]);
    assert_eq!(&p[12..15], &[0x3c, 0x3c, 0x3c]);
    assert_eq!(&p[24..33], &[0x3c, 3, 3, 0x1f, 1, 1, 0x1f, 0x0e, 0]);
    assert_eq!(&p[756..768], &[63, 36, 0, 26, 50, 63, 63, 63, 63, 0, 0, 0]);
    assert_eq!(p[100], 0);
    let other = CreatureParams { color: 4, ..c };
    set_creature_palette(&mut p, &other);
    assert_eq!(&p[6..12], &[44, 63, 63, 0x14, 0x3c, 0x3c]);
    assert_eq!(&p[12..15], &[0x3c, 0x3c, 0x3c]);
}

#[test]
fn fade_to_black() {
    let mut p = [0u8; 768];
    p[0] = 63;
    p[1] = 2;
    p[2] = 1;
    fade_step(&mut p);
    assert_eq!(&p[0..4], &[61, 0, 0, 0]);
    for _ in 0..31 {
        fade_step(&mut p);
    }
    assert_eq!(p[0], 0);
}

#[test]
fn arrows() {
    assert_eq!(arrow_right_pixels(10, 20), vec![(10, 20), (11, 21), (12, 22), (13, 23), (12, 24), (11, 25), (10, 26)]);
    assert_eq!(arrow_left_pixels(10, 20), vec![(13, 20), (12, 21), (11, 22), (10, 23), (11, 24), (12, 25), (13, 26)]);
}

#[test]
fn over_wide_png_refused() {
    let wide = png(1 << 26, 1, &[], 3);
    assert_eq!(decode(&wide).err(), Some(AssetError::Decode));
    assert_eq!(CreatureAssets::load_asset(&wide).err(), Some(AssetError::Decode));
}
