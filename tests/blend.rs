use ui_theme::theme::{blend_color, generate_color_from_rgb, BlendMode, Color, Opacity, RGB};

fn opaque(r: i32, g: i32, b: i32) -> Color {
    generate_color_from_rgb(&RGB(r, g, b), None)
}

#[test]
fn multiply_with_white_keeps_color() {
    let white = opaque(255, 255, 255);
    for x in [opaque(13, 183, 182), opaque(0, 0, 0), opaque(1, 254, 128)].iter() {
        assert_eq!(blend_color(BlendMode::Multiply, white, *x), *x);
    }
}

#[test]
fn screen_with_black_keeps_color() {
    let black = opaque(0, 0, 0);
    for x in [opaque(13, 183, 182), opaque(255, 255, 255), opaque(1, 254, 128)].iter() {
        assert_eq!(blend_color(BlendMode::Screen, black, *x), *x);
    }
}

#[test]
fn multiply_truncates() {
    let r = blend_color(BlendMode::Multiply, opaque(13, 183, 182), opaque(225, 225, 225));
    assert_eq!(r.rgb, RGB(11, 161, 160));
    assert_eq!(r.alpha, Opacity { num: 1, den: 1 });
}

#[test]
fn screen_truncates() {
    let r = blend_color(BlendMode::Screen, opaque(13, 183, 182), opaque(70, 70, 70));
    assert_eq!(r.rgb, RGB(79, 202, 202));
}

#[test]
fn half_transparent_overlay() {
    let overlay = generate_color_from_rgb(&RGB(0, 0, 0), Some(Opacity { num: 1, den: 2 }));
    let r = blend_color(BlendMode::Multiply, opaque(255, 255, 255), overlay);
    assert_eq!(r.rgb, RGB(127, 127, 127));
    assert_eq!(r.alpha, Opacity { num: 2, den: 2 });
}

#[test]
fn both_transparent_uses_mode_value() {
    let clear = Opacity { num: 0, den: 1 };
    let base = generate_color_from_rgb(&RGB(100, 0, 255), Some(clear));
    let overlay = generate_color_from_rgb(&RGB(200, 255, 255), Some(clear));
    let r = blend_color(BlendMode::Multiply, base, overlay);
    assert_eq!(r.rgb, RGB(78, 0, 255));
    assert_eq!(r.alpha, Opacity { num: 0, den: 1 });
}

#[test]
fn default_opacity_is_opaque() {
    let c = generate_color_from_rgb(&RGB(1, 2, 3), None);
    assert_eq!(c.alpha, Opacity::opaque());
    assert_eq!(c.rgb, RGB(1, 2, 3));
}
