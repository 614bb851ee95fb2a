use flappy_pixel::libs::blend_colors;
use flappy_pixel::palette::{background, bird, bird_highlight, Cor};
use flappy_pixel::HIGHLIGHT_DURATION;

#[test]
fn blend_equal_inputs_is_identity() {
    let c = Cor { r: 13, g: 200, b: 77 };
    for num in [0u32, 1, 250, 499, 500, 1000] {
        assert_eq!(blend_colors(c, c, num, 500), c);
    }
}

#[test]
fn blend_at_zero_is_first_color() {
    let c1 = Cor { r: 46, g: 56, b: 64 };
    let c2 = Cor { r: 78, g: 110, b: 129 };
    assert_eq!(blend_colors(c1, c2, 0, 500), c1);
}

#[test]
fn blend_at_one_is_second_color() {
    let c1 = Cor { r: 46, g: 56, b: 64 };
    let c2 = Cor { r: 78, g: 110, b: 129 };
    assert_eq!(blend_colors(c1, c2, 500, 500), c2);
    // progress past the end of the scale is clamped to 1
    assert_eq!(blend_colors(c1, c2, 750, 500), c2);
}

#[test]
fn blend_midpoint_truncates_toward_zero() {
    let black = Cor { r: 0, g: 0, b: 0 };
    let white = Cor { r: 255, g: 255, b: 255 };
    // 255 * 250 / 500 == 127.5, truncated to 127
    let mid = blend_colors(black, white, 250, 500);
    assert_eq!(mid, Cor { r: 127, g: 127, b: 127 });
}

#[test]
fn blend_exact_quarter_of_palette_colors() {
    // bird toward bird highlight at progress 400/500
    let c = blend_colors(bird(), bird_highlight(), 400, HIGHLIGHT_DURATION);
    // r: (255*100 + 255*400)/500 = 255
    // g: (96*100 + 226*400)/500 = 200
    // b: (0*100 + 125*400)/500 = 100
    assert_eq!(c, Cor { r: 255, g: 200, b: 100 });
}

#[test]
fn palette_background_value() {
    assert_eq!(background(), Cor { r: 46, g: 56, b: 64 });
}
