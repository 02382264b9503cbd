use crate::classes::{
    class_texts, flag_class, prefixed, push_class, push_flag, push_token, token_texts,
};
use crate::theme::{decoded_rgb, fade, fade_text, is_hex_color, Theme, ThemeError};
use vstd::prelude::*;

verus! {

#[derive(Clone, Copy, Debug, PartialEq, Eq, Structural)]
pub enum ButtonSize {
    Small,
    Medium,
    Large,
}

#[derive(Clone, Copy, Debug, PartialEq, Eq, Structural)]
pub enum ButtonVariant {
    Contained,
    Outlined,
    Inline,
}

#[derive(Clone, Copy, Debug, PartialEq, Eq, Structural)]
pub enum ButtonColor {
    Primary,
    Secondary,
    Error,
}

#[derive(Clone, Copy, Debug, PartialEq, Eq, Structural)]
pub enum ButtonType {
    Submit,
    Button,
}

pub open spec fn variant_word(v: ButtonVariant) -> Seq<char> {
    match v {
        ButtonVariant::Contained => "contained"@,
        ButtonVariant::Outlined => "outlined"@,
        ButtonVariant::Inline => "inline"@,
    }
}

pub open spec fn color_word(c: ButtonColor) -> Seq<char> {
    match c {
        ButtonColor::Primary => "primary"@,
        ButtonColor::Secondary => "secondary"@,
        ButtonColor::Error => "error"@,
    }
}

pub open spec fn size_word(s: ButtonSize) -> Seq<char> {
    match s {
        ButtonSize::Small => "small"@,
        ButtonSize::Medium => "medium"@,
        ButtonSize::Large => "large"@,
    }
}

/// The class of a variant in a colour: `<color>-<variant>`.
pub open spec fn style_class(v: ButtonVariant, c: ButtonColor) -> Seq<char> {
    color_word(c) + "-"@ + variant_word(v)
}

/// The class of a size: `size-<size>`.
pub open spec fn size_class(s: ButtonSize) -> Seq<char> {
    "size"@ + "-"@ + size_word(s)
}

/// The value of the `type` attribute of a button.
pub open spec fn type_attribute(t: ButtonType) -> Seq<char> {
    match t {
        ButtonType::Button => "button"@,
        ButtonType::Submit => "submit"@,
    }
}

/// The class list of a button: its stylesheet's class, the caller's class,
/// its style and size classes, then `disabled`, `loading` and `fullwidth`
/// where those hold.
pub open spec fn button_class_texts(
    style: Seq<char>,
    class: Seq<char>,
    variant: ButtonVariant,
    color: ButtonColor,
    size: ButtonSize,
    disabled: bool,
    loading: bool,
    fullwidth: bool,
) -> Seq<Seq<char>> {
    seq![style, class, style_class(variant, color), size_class(size)] + flag_class(
        disabled,
        "disabled"@,
    ) + flag_class(loading, "loading"@) + flag_class(fullwidth, "fullwidth"@)
}

pub fn get_style_class(variant: &ButtonVariant, color: &ButtonColor) -> (r: String)
    ensures
        r@ == style_class(*variant, *color),
{
    let v = match variant {
        ButtonVariant::Contained => "contained",
        ButtonVariant::Outlined => "outlined",
        ButtonVariant::Inline => "inline",
    };
    let c = match color {
        ButtonColor::Primary => "primary",
        ButtonColor::Secondary => "secondary",
        ButtonColor::Error => "error",
    };
    prefixed(c, v)
}

pub fn get_size_class(size: &ButtonSize) -> (r: String)
    ensures
        r@ == size_class(*size),
{
    let s = match size {
        ButtonSize::Small => "small",
        ButtonSize::Medium => "medium",
        ButtonSize::Large => "large",
    };
    prefixed("size", s)
}

pub fn get_type(button_type: &ButtonType) -> (r: String)
    ensures
        r@ == type_attribute(*button_type),
{
    match button_type {
        ButtonType::Button => String::from_str("button"),
        ButtonType::Submit => String::from_str("submit"),
    }
}

pub fn format_classes(
    style: String,
    class: String,
    variant: &ButtonVariant,
    color: &ButtonColor,
    size: &ButtonSize,
    disabled: bool,
    loading: bool,
    fullwidth: bool,
) -> (r: Vec<String>)
    ensures
        class_texts(r@) == button_class_texts(
            style@,
            class@,
            *variant,
            *color,
            *size,
            disabled,
            loading,
            fullwidth,
        ),
{
    let ghost (style_text, class_text) = (style@, class@);
    let mut list: Vec<String> = Vec::new();
    assert(class_texts(list@) =~= Seq::empty());
    push_class(&mut list, style);
    push_class(&mut list, class);
    push_class(&mut list, get_style_class(variant, color));
    push_class(&mut list, get_size_class(size));
    push_flag(&mut list, disabled, "disabled");
    push_flag(&mut list, loading, "loading");
    push_flag(&mut list, fullwidth, "fullwidth");
    assert(class_texts(list@) =~= button_class_texts(
        style_text,
        class_text,
        *variant,
        *color,
        *size,
        disabled,
        loading,
        fullwidth,
    ));
    list
}

/// Whether the main shades of the three palette colours are hex colours.
pub open spec fn mains_are_hex(theme: Theme) -> bool {
    &&& is_hex_color(theme.palette.primary.main@)
    &&& is_hex_color(theme.palette.secondary.main@)
    &&& is_hex_color(theme.palette.error.main@)
}

/// The placeholders of the button stylesheet and their values, in the order
/// in which they are replaced: a placeholder that another one begins with
/// comes after it.
pub open spec fn button_tokens(theme: Theme) -> Seq<(Seq<char>, Seq<char>)> {
    let b = theme.components.button;
    let p = theme.palette;
    seq![
        ("$button_border_radius"@, b.border_radius@),
        ("$button_small_size_padding"@, b.small_size_padding@),
        ("$button_large_size_padding"@, b.large_size_padding@),
        ("$palette_primary_main_fade"@, fade_text(decoded_rgb(p.primary.main@))),
        ("$palette_primary_main"@, p.primary.main@),
        ("$palette_primary_dark"@, p.primary.dark@),
        ("$palette_secondary_main_fade"@, fade_text(decoded_rgb(p.secondary.main@))),
        ("$palette_secondary_main"@, p.secondary.main@),
        ("$palette_secondary_dark"@, p.secondary.dark@),
        ("$button_large_height"@, b.large_height@),
        ("$button_small_height"@, b.small_height@),
        ("$palette_error_main_fade"@, fade_text(decoded_rgb(p.error.main@))),
        ("$palette_error_main"@, p.error.main@),
        ("$palette_error_dark"@, p.error.dark@),
    ]
}

/// The values that fill the button stylesheet, or `InvalidFormat` where a
/// main shade of the palette is not a hex colour.
pub fn style_tokens(theme: &Theme) -> (r: Result<Vec<(String, String)>, ThemeError>)
    ensures
        match r {
            Ok(list) => mains_are_hex(*theme) && token_texts(list@) == button_tokens(*theme),
            Err(e) => !mains_are_hex(*theme) && e == ThemeError::InvalidFormat,
        },
{
    let b = &theme.components.button;
    let p = &theme.palette;
    let primary_fade = match fade(p.primary.main.clone()) {
        Ok(t) => t,
        Err(e) => {
            return Err(e);
        },
    };
    let secondary_fade = match fade(p.secondary.main.clone()) {
        Ok(t) => t,
        Err(e) => {
            return Err(e);
        },
    };
    let error_fade = match fade(p.error.main.clone()) {
        Ok(t) => t,
        Err(e) => {
            return Err(e);
        },
    };
    let mut list: Vec<(String, String)> = Vec::new();
    assert(token_texts(list@) =~= Seq::empty());
    push_token(&mut list, "$button_border_radius", b.border_radius.clone());
    push_token(&mut list, "$button_small_size_padding", b.small_size_padding.clone());
    push_token(&mut list, "$button_large_size_padding", b.large_size_padding.clone());
    push_token(&mut list, "$palette_primary_main_fade", primary_fade);
    push_token(&mut list, "$palette_primary_main", p.primary.main.clone());
    push_token(&mut list, "$palette_primary_dark", p.primary.dark.clone());
    push_token(&mut list, "$palette_secondary_main_fade", secondary_fade);
    push_token(&mut list, "$palette_secondary_main", p.secondary.main.clone());
    push_token(&mut list, "$palette_secondary_dark", p.secondary.dark.clone());
    push_token(&mut list, "$button_large_height", b.large_height.clone());
    push_token(&mut list, "$button_small_height", b.small_height.clone());
    push_token(&mut list, "$palette_error_main_fade", error_fade);
    push_token(&mut list, "$palette_error_main", p.error.main.clone());
    push_token(&mut list, "$palette_error_dark", p.error.dark.clone());
    assert(token_texts(list@) =~= button_tokens(*theme));
    Ok(list)
}

} // verus!
