use ui_theme::button::style_tokens;
use ui_theme::theme::{fade, generate_palette, hex_to_rgb, Breakpoints, Theme, ThemeError, RGB};

fn is_hex7(s: &str) -> bool {
    s.len() == 7 && s.starts_with('#') && s[1..].chars().all(|c| c.is_ascii_hexdigit())
}

#[test]
fn palette_is_deterministic() {
    let a = generate_palette(RGB(234, 40, 69));
    let b = generate_palette(RGB(234, 40, 69));
    assert_eq!(a, b);
}

#[test]
fn known_palette_vector() {
    let p = generate_palette(hex_to_rgb(String::from("#0db7b6")).unwrap());
    assert_eq!(p.main, "#0db7b6");
    let shades = [&p.dark, &p.darkest, &p.light, &p.lightest];
    for (i, s) in shades.iter().enumerate() {
        assert!(is_hex7(s));
        assert_ne!(s.as_str(), p.main.as_str());
        for t in shades.iter().skip(i + 1) {
            assert_ne!(s, t);
        }
    }
    assert_eq!(p.dark, "#0ba1a0");
    assert_eq!(p.darkest, "#098b8a");
    assert_eq!(p.light, "#4fcaca");
    assert_eq!(p.lightest, "#8fdddd");
}

#[test]
fn fade_known_value() {
    assert_eq!(fade(String::from("#0db7b6")), Ok(String::from("rgba(13, 183, 182, .05)")));
    assert_eq!(fade(String::from("05000f")), Ok(String::from("rgba(5, 0, 15, .05)")));
}

#[test]
fn fade_rejects_malformed() {
    assert_eq!(fade(String::from("#abc")), Err(ThemeError::InvalidFormat));
}

#[test]
fn default_theme_values() {
    let t = Theme::default();
    assert_eq!(t.palette.primary, generate_palette(RGB(13, 183, 182)));
    assert_eq!(t.palette.secondary.main, "#ea2845");
    assert_eq!(t.palette.secondary.dark, "#ce233c");
    assert_eq!(t.palette.error.lightest, "#f9a8a1");
    assert_eq!(t.palette.divider, "#DDE3ED");
    assert_eq!(t.breakpoints, Breakpoints { xs: 320, sm: 480, md: 768, lg: 1000 });
    assert_eq!(t.components.button.border_radius, "4px");
    assert_eq!(t.components.button.small_size_padding, "10px 16px");
    assert_eq!(t.components.button.large_size_padding, "12px 32px");
    assert_eq!(t.components.button.small_height, "36px");
    assert_eq!(t.components.button.large_height, "43px");
}

#[test]
fn default_theme_is_rebuilt_identically() {
    assert_eq!(Theme::default(), Theme::default());
}

#[test]
fn button_style_tokens_of_default_theme() {
    let t = Theme::default();
    let tokens = style_tokens(&t).unwrap();
    assert_eq!(tokens.len(), 14);
    assert_eq!(tokens[0], (String::from("$button_border_radius"), String::from("4px")));
    assert_eq!(
        tokens[3],
        (String::from("$palette_primary_main_fade"), String::from("rgba(13, 183, 182, .05)"))
    );
    assert_eq!(tokens[4], (String::from("$palette_primary_main"), String::from("#0db7b6")));
    assert_eq!(tokens[13], (String::from("$palette_error_dark"), String::from("#d73b2f")));
}

#[test]
fn button_style_tokens_reject_bad_main() {
    let mut t = Theme::default();
    t.palette.error.main = String::from("red");
    assert_eq!(style_tokens(&t), Err(ThemeError::InvalidFormat));
}
