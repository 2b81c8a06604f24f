use createac::creature::{
    cycle_next, cycle_prev, CreatureParams, NUM_ARMS, NUM_COLORS, NUM_EYES, NUM_LEGS, NUM_MOUTHS,
    NUM_SHAPES,
};
use createac::game::{centered_text_x, name_banner};
use tinyrand::{Seeded, Xorshift};

fn creature(shape: u8, color: u8, eyes: u8, mouth: u8, legs: u8, arms: u8) -> CreatureParams {
    CreatureParams { shape, color, eyes, mouth, legs, arms }
}

#[test]
fn random_creatures_are_valid() {
    let mut rng = Xorshift::seed(0x67c9_0c6e_934c_aa87);
    let mut seen_nonzero = false;
    for _ in 0..500 {
        let c = CreatureParams::new_random(&mut rng);
        assert!(c.shape < NUM_SHAPES);
        assert!(c.color < NUM_COLORS);
        assert!(c.eyes < NUM_EYES);
        assert!(c.mouth < NUM_MOUTHS);
        assert!(c.legs < NUM_LEGS);
        assert!(c.arms < NUM_ARMS);
        seen_nonzero |= c.shape > 0;
    }
    assert!(seen_nonzero);
}

#[test]
fn body_color_table() {
    assert_eq!(creature(0, 0, 0, 0, 0, 0).body_color(), [0x3a, 0x3a, 0x3a]);
    assert_eq!(creature(0, 5, 0, 0, 0, 0).body_color(), [0x16, 0x16, 0x3c]);
    assert_eq!(creature(0, 7, 0, 0, 0, 0).body_color(), [0x30, 0x20, 0x14]);
    assert_eq!(creature(0, 8, 0, 0, 0, 0).body_color(), [0x1f, 0x1f, 0x1f]);
}

#[test]
fn body_colors_shades() {
    assert_eq!(
        creature(0, 1, 0, 0, 0, 0).body_colors(),
        [63, 0x2c, 0x2c, 0x3c, 0x14, 0x14, 30, 10, 10, 15, 5, 5]
    );
    assert_eq!(
        creature(0, 200, 0, 0, 0, 0).body_colors(),
        [55, 55, 55, 0x1f, 0x1f, 0x1f, 15, 15, 15, 7, 7, 7]
    );
}

#[test]
fn creature_names() {
    assert_eq!(creature(1, 0, 0, 0, 0, 0).name(), "Dannin");
    assert_eq!(creature(6, 6, 9, 1, 1, 3).name(), "Ylarmschteyty");
    assert_eq!(creature(13, 7, 8, 7, 2, 3).name(), "Kuroox");
    assert_eq!(creature(0, 9, 3, 6, 6, 6).name(), "FlUnknownggem");
    assert_eq!(creature(0, 0, 0, 0, 7, 0).name(), "Flain");
}

#[test]
fn banner_and_centering() {
    let c = creature(1, 0, 0, 0, 0, 0);
    let banner = name_banner(&c);
    assert_eq!(banner, "Dannin!");
    assert_eq!(centered_text_x(banner.len()), 100);
    assert_eq!(centered_text_x(0), 160);
    assert_eq!(centered_text_x(19), -1);
}

#[test]
fn parameter_cycling() {
    assert_eq!(cycle_next(13, NUM_SHAPES), 0);
    assert_eq!(cycle_next(3, NUM_SHAPES), 4);
    assert_eq!(cycle_prev(0, NUM_EYES), 9);
    assert_eq!(cycle_prev(5, NUM_EYES), 4);
}
