use vstd::arithmetic::div_mod::lemma_div_multiples_vanish;
use vstd::prelude::*;

verus! {

/// The error of the hex codec: the text is not `#rrggbb` or `rrggbb`.
#[derive(Clone, Copy, Debug, PartialEq, Eq, Structural)]
pub enum ThemeError {
    InvalidFormat,
}

/// An RGB triple. Channels are meant to lie in `0..=255`; they are clamped
/// only when formatted.
#[derive(Clone, Copy, Debug, PartialEq, Eq, Structural)]
pub struct RGB(pub i32, pub i32, pub i32);

/// The character for a digit value below sixteen.
pub open spec fn digit_char(d: int) -> char {
    if d == 0 { '0' } else if d == 1 { '1' } else if d == 2 { '2' } else if d == 3 { '3' }
    else if d == 4 { '4' } else if d == 5 { '5' } else if d == 6 { '6' } else if d == 7 { '7' }
    else if d == 8 { '8' } else if d == 9 { '9' } else if d == 10 { 'a' } else if d == 11 { 'b' }
    else if d == 12 { 'c' } else if d == 13 { 'd' } else if d == 14 { 'e' } else { 'f' }
}

/// The digits of `n` in `base`, most significant first, without padding.
pub open spec fn radix_digits(n: nat, base: nat) -> Seq<char>
    decreases n via radix_digits_decreases
{
    if base < 2 || n < base {
        seq![digit_char(n as int)]
    } else {
        radix_digits(n / base, base).push(digit_char((n % base) as int))
    }
}

#[via_fn]
proof fn radix_digits_decreases(n: nat, base: nat) {
    if !(base < 2 || n < base) {
        assert(n / base < n) by (nonlinear_arith)
            requires
                base >= 2,
                n >= base,
        ;
    }
}

/// A hex digit of either case.
pub open spec fn is_hex_char(c: char) -> bool {
    ('0' <= c && c <= '9') || ('a' <= c && c <= 'f') || ('A' <= c && c <= 'F')
}

/// The value of a hex digit.
pub open spec fn hex_value(c: char) -> int {
    if '0' <= c && c <= '9' {
        c as int - '0' as int
    } else if 'a' <= c && c <= 'f' {
        c as int - 'a' as int + 10
    } else {
        c as int - 'A' as int + 10
    }
}

proof fn lemma_digit_round_trip(d: int)
    requires
        0 <= d < 16,
    ensures
        is_hex_char(digit_char(d)),
        hex_value(digit_char(d)) == d,
{
}

/// Relies on radix_fmt::radix: its `Display` writes `n` in `base` with the
/// digits `0-9a-z`, most significant first and without padding.
#[verifier::external_body]
fn radix_text(n: u8, base: u8) -> (r: String)
    requires
        2 <= base <= 16,
    ensures
        r@ == radix_digits(n as nat, base as nat),
{
    format!("{}", radix_fmt::radix(n, base))
}

/// A channel value clamped to `0..=255`.
pub open spec fn clamp_channel(v: int) -> int {
    if v < 0 {
        0
    } else if v > 255 {
        255
    } else {
        v
    }
}

/// Two lowercase hex digits of a value in `0..=255`.
pub open spec fn hex_pair(v: int) -> Seq<char> {
    seq![digit_char(v / 16), digit_char(v % 16)]
}

/// The text `#rrggbb` of an RGB triple, each channel clamped first.
pub open spec fn rgb_hex(c: RGB) -> Seq<char> {
    seq!['#'] + hex_pair(clamp_channel(c.0 as int)) + hex_pair(clamp_channel(c.1 as int))
        + hex_pair(clamp_channel(c.2 as int))
}

/// The digits of a hex colour: the text without one leading `#`.
pub open spec fn hex_body(s: Seq<char>) -> Seq<char> {
    if s.len() > 0 && s[0] == '#' {
        s.drop_first()
    } else {
        s
    }
}

/// Whether `s` is six hex digits, optionally after a `#`.
pub open spec fn is_hex_color(s: Seq<char>) -> bool {
    &&& hex_body(s).len() == 6
    &&& forall|i: int| 0 <= i < 6 ==> is_hex_char(#[trigger] hex_body(s)[i])
}

/// The value of the two hex digits of `d` at `i` and `i + 1`.
pub open spec fn hex_byte_at(d: Seq<char>, i: int) -> int {
    16 * hex_value(d[i]) + hex_value(d[i + 1])
}

/// The triple that a hex colour stands for.
pub open spec fn decoded_rgb(s: Seq<char>) -> RGB {
    let d = hex_body(s);
    RGB(hex_byte_at(d, 0) as i32, hex_byte_at(d, 2) as i32, hex_byte_at(d, 4) as i32)
}

fn clamp(v: i32, max: i32) -> (r: i32)
    requires
        max >= 0,
    ensures
        r == (if v < 0 {
            0
        } else if v > max {
            max
        } else {
            v
        }),
{
    if v < 0 {
        0
    } else if v > max {
        max
    } else {
        v
    }
}

/// Two lowercase hex digits of a channel, clamped to `0..=255` first.
fn channel_hex(c: i32) -> (r: String)
    ensures
        r@ == hex_pair(clamp_channel(c as int)),
{
    let clamped = clamp(c, 255);
    let digits = radix_text(clamped as u8, 16);
    proof {
        reveal_with_fuel(radix_digits, 2);
    }
    if clamped < 16 {
        let mut padded = String::from_str("0");
        proof {
            reveal_strlit("0");
        }
        padded.append(digits.as_str());
        padded
    } else {
        digits
    }
}

/// Formats a triple as `#rrggbb`: lowercase, each channel clamped to
/// `0..=255` and written with two digits.
pub fn to_hex(v: &RGB) -> (r: String)
    ensures
        r@ == rgb_hex(*v),
{
    let mut text = String::from_str("#");
    proof {
        reveal_strlit("#");
    }
    text.append(channel_hex(v.0).as_str());
    text.append(channel_hex(v.1).as_str());
    text.append(channel_hex(v.2).as_str());
    text
}

fn hex_digit(c: char) -> (r: Option<i32>)
    ensures
        match r {
            Some(v) => is_hex_char(c) && v == hex_value(c),
            None => !is_hex_char(c),
        },
{
    if '0' <= c && c <= '9' {
        Some((c as u32 - '0' as u32) as i32)
    } else if 'a' <= c && c <= 'f' {
        Some((c as u32 - 'a' as u32 + 10) as i32)
    } else if 'A' <= c && c <= 'F' {
        Some((c as u32 - 'A' as u32 + 10) as i32)
    } else {
        None
    }
}

/// The value of the two hex digits at `i` and `i + 1`, if both are digits.
fn hex_byte(s: &str, i: usize) -> (r: Option<i32>)
    requires
        i + 1 < s@.len() <= usize::MAX,
    ensures
        match r {
            Some(v) => is_hex_char(s@[i as int]) && is_hex_char(s@[i + 1]) && v == hex_byte_at(
                s@,
                i as int,
            ),
            None => !(is_hex_char(s@[i as int]) && is_hex_char(s@[i + 1])),
        },
{
    match hex_digit(s.get_char(i)) {
        Some(high) => match hex_digit(s.get_char(i + 1)) {
            Some(low) => Some(16 * high + low),
            None => None,
        },
        None => None,
    }
}

/// Parses `#rrggbb` or `rrggbb` (hex digits of either case) into a triple.
pub fn hex_to_rgb(hex: String) -> (r: Result<RGB, ThemeError>)
    ensures
        match r {
            Ok(v) => is_hex_color(hex@) && v == decoded_rgb(hex@),
            Err(e) => !is_hex_color(hex@) && e == ThemeError::InvalidFormat,
        },
{
    let s = hex.as_str();
    let n = s.unicode_len();
    let start: usize = if n > 0 && s.get_char(0) == '#' {
        1
    } else {
        0
    };
    let ghost body = hex_body(s@);
    assert(body =~= s@.subrange(start as int, n as int));
    if n - start != 6 {
        return Err(ThemeError::InvalidFormat);
    }
    let red = hex_byte(s, start);
    let green = hex_byte(s, start + 2);
    let blue = hex_byte(s, start + 4);
    match (red, green, blue) {
        (Some(r), Some(g), Some(b)) => {
            assert forall|i: int| 0 <= i < 6 implies is_hex_char(#[trigger] body[i]) by {
                assert(body[i] == s@[start + i]);
            }
            Ok(RGB(r, g, b))
        },
        _ => {
            assert(!is_hex_color(s@)) by {
                if is_hex_color(s@) {
                    assert(is_hex_char(body[0]) && is_hex_char(body[1]));
                    assert(is_hex_char(body[2]) && is_hex_char(body[3]));
                    assert(is_hex_char(body[4]) && is_hex_char(body[5]));
                }
            }
            Err(ThemeError::InvalidFormat)
        },
    }
}

/// A triple with each channel clamped to `0..=255`.
pub open spec fn clamp_rgb(c: RGB) -> RGB {
    RGB(
        clamp_channel(c.0 as int) as i32,
        clamp_channel(c.1 as int) as i32,
        clamp_channel(c.2 as int) as i32,
    )
}

proof fn lemma_hex_pair_round_trip(v: int)
    requires
        0 <= v <= 255,
    ensures
        is_hex_char(hex_pair(v)[0]),
        is_hex_char(hex_pair(v)[1]),
        16 * hex_value(hex_pair(v)[0]) + hex_value(hex_pair(v)[1]) == v,
{
    lemma_digit_round_trip(v / 16);
    lemma_digit_round_trip(v % 16);
}

/// Decoding what `to_hex` wrote gives back the triple, clamped: the text is
/// a well-formed hex colour whose digits stand for the clamped channels.
pub proof fn lemma_hex_round_trip(c: RGB)
    ensures
        is_hex_color(rgb_hex(c)),
        decoded_rgb(rgb_hex(c)) == clamp_rgb(c),
{
    let r = clamp_channel(c.0 as int);
    let g = clamp_channel(c.1 as int);
    let b = clamp_channel(c.2 as int);
    lemma_hex_pair_round_trip(r);
    lemma_hex_pair_round_trip(g);
    lemma_hex_pair_round_trip(b);
    let body = hex_body(rgb_hex(c));
    assert(body =~= hex_pair(r) + hex_pair(g) + hex_pair(b));
    assert(hex_byte_at(body, 0) == r);
    assert(hex_byte_at(body, 2) == g);
    assert(hex_byte_at(body, 4) == b);
}

/// An opacity, held exactly as the fraction `num / den`.
#[derive(Clone, Copy, Debug, PartialEq, Eq, Structural)]
pub struct Opacity {
    pub num: u64,
    pub den: u64,
}

impl Opacity {
    /// A fraction in `[0, 1]`.
    pub open spec fn wf(self) -> bool {
        self.den > 0 && self.num <= self.den
    }

    /// Fully opaque: `1 / 1`.
    pub fn opaque() -> (r: Opacity)
        ensures
            r == (Opacity { num: 1, den: 1 }),
    {
        Opacity { num: 1, den: 1 }
    }
}

/// An RGB triple with an opacity.
#[derive(Clone, Copy, Debug, PartialEq, Eq, Structural)]
pub struct Color {
    pub alpha: Opacity,
    pub rgb: RGB,
}

/// The per-channel rule that a blend applies before compositing.
#[derive(Clone, Copy, Debug, PartialEq, Eq, Structural)]
pub enum BlendMode {
    Multiply,
    Screen,
}

/// An opacity that the exact blend arithmetic takes: a fraction in `[0, 1]`
/// whose parts fit in 32 bits, so that every product fits in 128 bits.
pub open spec fn blendable(a: Opacity) -> bool {
    a.wf() && a.den <= u32::MAX
}

/// The blend-mode value of the channels `b / 255` and `s / 255`, times `255²`.
pub open spec fn mode_value(mode: BlendMode, b: int, s: int) -> int {
    match mode {
        BlendMode::Multiply => b * s,
        BlendMode::Screen => 255 * b + 255 * s - b * s,
    }
}

/// The opacity of the composite, `a_s + a_b·(1 − a_s)`, over the denominator
/// `den_s·den_b`.
pub open spec fn composite_alpha(base: Opacity, overlay: Opacity) -> Opacity {
    Opacity {
        num: (overlay.num * base.den + base.num * (overlay.den - overlay.num)) as u64,
        den: (overlay.den * base.den) as u64,
    }
}

/// Division truncated toward zero.
pub open spec fn trunc_div(a: int, d: int) -> int {
    if a >= 0 {
        a / d
    } else {
        -((-a) / d)
    }
}

/// A value held to the range of `i32`.
pub open spec fn saturate_i32(v: int) -> int {
    if v < i32::MIN {
        i32::MIN as int
    } else if v > i32::MAX {
        i32::MAX as int
    } else {
        v
    }
}

/// One channel of the composite of `s` (overlay) over `b` (base), times 255
/// and truncated toward zero. With `cb = b/255`, `cs = s/255` and `cr` the
/// blend-mode value, it is `(a_s·cs + a_b·(cb − a_s·(cb + cs − cr))) / ar`,
/// here over the common denominator `255²·den_s·den_b`; where `ar` is zero it
/// is `cr` itself.
pub open spec fn blend_channel(mode: BlendMode, base: Opacity, b: int, overlay: Opacity, s: int) -> int {
    let arn = composite_alpha(base, overlay).num;
    let mixed = mode_value(mode, b, s);
    if arn == 0 {
        trunc_div(mixed, 255)
    } else {
        let numer = 255 * overlay.num * base.den * s + 255 * base.num * overlay.den * b
            - base.num * overlay.num * (255 * b + 255 * s - mixed);
        trunc_div(numer, 255 * arn)
    }
}

/// The colour that compositing `overlay` over `base` in `mode` gives. A
/// channel beyond the range of `i32`, which only channels far outside
/// `0..=255` can give, is held to that range.
pub open spec fn blend_spec(mode: BlendMode, base: Color, overlay: Color) -> Color {
    let a = base.alpha;
    let o = overlay.alpha;
    Color {
        alpha: composite_alpha(a, o),
        rgb: RGB(
            saturate_i32(blend_channel(mode, a, base.rgb.0 as int, o, overlay.rgb.0 as int)) as i32,
            saturate_i32(blend_channel(mode, a, base.rgb.1 as int, o, overlay.rgb.1 as int)) as i32,
            saturate_i32(blend_channel(mode, a, base.rgb.2 as int, o, overlay.rgb.2 as int)) as i32,
        ),
    }
}

proof fn lemma_mul_bound(x: int, y: int, bx: int, by: int)
    requires
        -bx <= x <= bx,
        -by <= y <= by,
    ensures
        -(bx * by) <= x * y <= bx * by,
{
    assert(-(bx * by) <= x * y <= bx * by) by (nonlinear_arith)
        requires
            -bx <= x <= bx,
            -by <= y <= by,
    ;
}

fn trunc_div_i128(a: i128, d: i128) -> (r: i128)
    requires
        d > 0,
        a > i128::MIN,
    ensures
        r == trunc_div(a as int, d as int),
{
    if a >= 0 {
        ((a as u128) / (d as u128)) as i128
    } else {
        -(((-a) as u128 / (d as u128)) as i128)
    }
}

fn saturating_i32(v: i128) -> (r: i32)
    ensures
        r == saturate_i32(v as int),
{
    if v < i32::MIN as i128 {
        i32::MIN
    } else if v > i32::MAX as i128 {
        i32::MAX
    } else {
        v as i32
    }
}

fn blend_channel_exec(mode: &BlendMode, base: Opacity, b: i32, overlay: Opacity, s: i32) -> (r: i32)
    requires
        blendable(base),
        blendable(overlay),
    ensures
        r == saturate_i32(blend_channel(*mode, base, b as int, overlay, s as int)),
{
    let ghost m31: int = 0x8000_0000;
    let ghost m32: int = 0x1_0000_0000;
    let b = b as i128;
    let s = s as i128;
    let nb = base.num as i128;
    let db = base.den as i128;
    let ns = overlay.num as i128;
    let ds = overlay.den as i128;
    proof {
        lemma_mul_bound(b as int, s as int, m31, m31);
    }
    let mixed: i128 = match mode {
        BlendMode::Multiply => b * s,
        BlendMode::Screen => 255 * b + 255 * s - b * s,
    };
    proof {
        lemma_mul_bound(ns as int, db as int, m32, m32);
        lemma_mul_bound(nb as int, (ds - ns) as int, m32, m32);
    }
    let arn: i128 = ns * db + nb * (ds - ns);
    proof {
        assert(arn <= ds * db) by (nonlinear_arith)
            requires
                arn == ns * db + nb * (ds - ns),
                0 <= nb <= db,
                0 <= ns <= ds,
        ;
        lemma_mul_bound(ds as int, db as int, u32::MAX as int, u32::MAX as int);
        assert(arn == composite_alpha(base, overlay).num);
        assert(mixed == mode_value(*mode, b as int, s as int));
    }
    let q: i128 = if arn == 0 {
        trunc_div_i128(mixed, 255)
    } else {
        let ghost bound_b: int = m31 * (255 + 255) + m31 * m31;
        proof {
            lemma_mul_bound(255 * ns as int, db as int, 255 * m32, m32);
            lemma_mul_bound(255 * ns * db as int, s as int, 255 * m32 * m32, m31);
            lemma_mul_bound(255 * nb as int, ds as int, 255 * m32, m32);
            lemma_mul_bound(255 * nb * ds as int, b as int, 255 * m32 * m32, m31);
            lemma_mul_bound(nb as int, ns as int, m32, m32);
            lemma_mul_bound(nb * ns as int, (255 * b + 255 * s - mixed) as int, m32 * m32, bound_b);
        }
        let numer = 255 * ns * db * s + 255 * nb * ds * b - nb * ns * (255 * b + 255 * s - mixed);
        trunc_div_i128(numer, 255 * arn)
    };
    saturating_i32(q)
}

/// Composites `color_2` over `color_1` in `mode`, channel by channel.
pub fn blend_color(mode: BlendMode, color_1: Color, color_2: Color) -> (r: Color)
    requires
        blendable(color_1.alpha),
        blendable(color_2.alpha),
    ensures
        r == blend_spec(mode, color_1, color_2),
        r.alpha.wf(),
{
    let ab = color_1.alpha;
    let a_s = color_2.alpha;
    proof {
        lemma_mul_bound(a_s.den as int, ab.den as int, u32::MAX as int, u32::MAX as int);
        assert(a_s.num * ab.den + ab.num * (a_s.den - a_s.num) <= a_s.den * ab.den) by (nonlinear_arith)
            requires
                ab.num <= ab.den,
                a_s.num <= a_s.den,
        ;
        assert(a_s.den * ab.den > 0) by (nonlinear_arith)
            requires
                ab.den > 0,
                a_s.den > 0,
        ;
    }
    let ar = Opacity { num: a_s.num * ab.den + ab.num * (a_s.den - a_s.num), den: a_s.den * ab.den };
    let rgb = RGB(
        blend_channel_exec(&mode, ab, color_1.rgb.0, a_s, color_2.rgb.0),
        blend_channel_exec(&mode, ab, color_1.rgb.1, a_s, color_2.rgb.1),
        blend_channel_exec(&mode, ab, color_1.rgb.2, a_s, color_2.rgb.2),
    );
    generate_color_from_rgb(&rgb, Some(ar))
}

/// A colour of the triple `rgb`, fully opaque unless `alpha` is given.
pub fn generate_color_from_rgb(rgb: &RGB, alpha: Option<Opacity>) -> (r: Color)
    ensures
        r.rgb == *rgb,
        r.alpha == (match alpha {
            Some(a) => a,
            None => Opacity { num: 1, den: 1 },
        }),
{
    let a = match alpha {
        Some(a) => a,
        None => Opacity::opaque(),
    };
    Color { alpha: a, rgb: *rgb }
}

/// A fully opaque colour of the triple `rgb`.
pub open spec fn opaque_color(rgb: RGB) -> Color {
    Color { alpha: Opacity { num: 1, den: 1 }, rgb }
}

/// A composite whose numerator is `255·k·x` over `255·k` is the channel `x`.
proof fn lemma_channel_kept(x: int, k: int)
    requires
        k > 0,
        i32::MIN <= x <= i32::MAX,
    ensures
        saturate_i32(trunc_div(255 * k * x, 255 * k)) == x,
{
    lemma_div_multiples_vanish(x, 255 * k);
    lemma_div_multiples_vanish(-x, 255 * k);
    assert(255 * k * x == (255 * k) * x) by (nonlinear_arith);
    assert(-(255 * k * x) == (255 * k) * (-x)) by (nonlinear_arith);
}

/// Multiplying a fully opaque colour onto opaque white leaves it as it is:
/// white is the identity of `Multiply`.
pub proof fn lemma_multiply_white_identity(x: Color)
    requires
        blendable(x.alpha),
        x.alpha.num == x.alpha.den,
    ensures
        blend_spec(BlendMode::Multiply, opaque_color(RGB(255, 255, 255)), x) == x,
{
    let d = x.alpha.den as int;
    let w = Opacity { num: 1, den: 1 };
    assert(composite_alpha(w, x.alpha) == x.alpha);
    assert forall|c: int| i32::MIN <= c <= i32::MAX implies saturate_i32(
        blend_channel(BlendMode::Multiply, w, 255, x.alpha, c),
    ) == c by {
        assert(255 * d * 1 * c + 255 * 1 * d * 255 - 1 * d * (255 * 255 + 255 * c - 255 * c) == 255
            * d * c) by (nonlinear_arith);
        lemma_channel_kept(c, d);
    }
}

/// Screening a fully opaque colour onto opaque black leaves it as it is:
/// black is the identity of `Screen`.
pub proof fn lemma_screen_black_identity(x: Color)
    requires
        blendable(x.alpha),
        x.alpha.num == x.alpha.den,
    ensures
        blend_spec(BlendMode::Screen, opaque_color(RGB(0, 0, 0)), x) == x,
{
    let d = x.alpha.den as int;
    let k = Opacity { num: 1, den: 1 };
    assert(composite_alpha(k, x.alpha) == x.alpha);
    assert forall|c: int| i32::MIN <= c <= i32::MAX implies saturate_i32(
        blend_channel(BlendMode::Screen, k, 0, x.alpha, c),
    ) == c by {
        assert(255 * d * 1 * c + 255 * 1 * d * 0 - 1 * d * (255 * 0 + 255 * c - (255 * 0 + 255 * c
            - 0 * c)) == 255 * d * c) by (nonlinear_arith);
        lemma_channel_kept(c, d);
    }
}

/// Five shades derived from one base colour, each `#rrggbb`.
#[derive(Clone, Debug, PartialEq, Eq)]
pub struct PaletteColor {
    pub main: String,
    pub light: String,
    pub lightest: String,
    pub dark: String,
    pub darkest: String,
}

/// The shade that blending the opaque `reference` onto the opaque `base`
/// in `mode` gives, as `#rrggbb`.
pub open spec fn shade(mode: BlendMode, base: RGB, reference: RGB) -> Seq<char> {
    rgb_hex(blend_spec(mode, opaque_color(base), opaque_color(reference)).rgb)
}

/// The reference colours of the shades: `#e1e1e1`, `#c2c2c2`, `#464646`
/// and `#898989`.
pub open spec fn dark_reference() -> RGB {
    RGB(0xe1, 0xe1, 0xe1)
}

pub open spec fn darkest_reference() -> RGB {
    RGB(0xc2, 0xc2, 0xc2)
}

pub open spec fn light_reference() -> RGB {
    RGB(0x46, 0x46, 0x46)
}

pub open spec fn lightest_reference() -> RGB {
    RGB(0x89, 0x89, 0x89)
}

/// Whether `p` holds the five shades of `base`.
pub open spec fn palette_of(p: PaletteColor, base: RGB) -> bool {
    &&& p.main@ == rgb_hex(base)
    &&& p.dark@ == shade(BlendMode::Multiply, base, dark_reference())
    &&& p.darkest@ == shade(BlendMode::Multiply, base, darkest_reference())
    &&& p.light@ == shade(BlendMode::Screen, base, light_reference())
    &&& p.lightest@ == shade(BlendMode::Screen, base, lightest_reference())
}

/// A reference colour written as hex text, decoded by the codec.
fn reference_color(text: &str) -> (r: RGB)
    requires
        is_hex_color(text@),
    ensures
        r == decoded_rgb(text@),
{
    match hex_to_rgb(String::from_str(text)) {
        Ok(v) => v,
        Err(_) => {
            proof {
                assert(false);
            }
            RGB(0, 0, 0)
        },
    }
}

/// The hex text of what blending the opaque `reference` onto the opaque
/// `base` in `mode` gives.
fn shade_hex(mode: BlendMode, base: &RGB, reference: &RGB) -> (r: String)
    ensures
        r@ == shade(mode, *base, *reference),
{
    let blended = blend_color(
        mode,
        generate_color_from_rgb(base, None),
        generate_color_from_rgb(reference, None),
    );
    to_hex(&blended.rgb)
}

/// Derives the five shades of `color`: `main` is the colour itself, `dark`
/// and `darkest` multiply it with `#e1e1e1` and `#c2c2c2`, `light` and
/// `lightest` screen it with `#464646` and `#898989`.
pub fn generate_palette(color: RGB) -> (r: PaletteColor)
    ensures
        palette_of(r, color),
{
    proof {
        reveal_strlit("#464646");
        reveal_strlit("#898989");
        reveal_strlit("#e1e1e1");
        reveal_strlit("#c2c2c2");
    }
    assert(hex_body("#464646"@) =~= "#464646"@.drop_first());
    assert(hex_body("#898989"@) =~= "#898989"@.drop_first());
    assert(hex_body("#e1e1e1"@) =~= "#e1e1e1"@.drop_first());
    assert(hex_body("#c2c2c2"@) =~= "#c2c2c2"@.drop_first());
    let l1_additive = reference_color("#464646");
    let l2_additive = reference_color("#898989");
    let d1_additive = reference_color("#e1e1e1");
    let d2_additive = reference_color("#c2c2c2");
    PaletteColor {
        main: to_hex(&color),
        dark: shade_hex(BlendMode::Multiply, &color, &d1_additive),
        darkest: shade_hex(BlendMode::Multiply, &color, &d2_additive),
        light: shade_hex(BlendMode::Screen, &color, &l1_additive),
        lightest: shade_hex(BlendMode::Screen, &color, &l2_additive),
    }
}

/// Two palettes made from the same base colour are the same: each shade
/// depends on the base colour alone.
pub proof fn lemma_palette_deterministic(base: RGB, p1: PaletteColor, p2: PaletteColor)
    requires
        palette_of(p1, base),
        palette_of(p2, base),
    ensures
        p1.main@ == p2.main@,
        p1.light@ == p2.light@,
        p1.lightest@ == p2.lightest@,
        p1.dark@ == p2.dark@,
        p1.darkest@ == p2.darkest@,
{
}

/// The overlay text `rgba(r, g, b, .05)` of a triple, channels in decimal.
pub open spec fn fade_text(c: RGB) -> Seq<char> {
    "rgba("@ + radix_digits(c.0 as nat, 10) + ", "@ + radix_digits(c.1 as nat, 10) + ", "@
        + radix_digits(c.2 as nat, 10) + ", .05)"@
}

/// Each channel of a decoded hex colour lies in `0..=255`.
proof fn lemma_decoded_in_range(s: Seq<char>)
    requires
        is_hex_color(s),
    ensures
        0 <= decoded_rgb(s).0 <= 255,
        0 <= decoded_rgb(s).1 <= 255,
        0 <= decoded_rgb(s).2 <= 255,
{
    let d = hex_body(s);
    assert(is_hex_char(d[0]) && is_hex_char(d[1]) && is_hex_char(d[2]));
    assert(is_hex_char(d[3]) && is_hex_char(d[4]) && is_hex_char(d[5]));
}

/// Decimal text of a channel in `0..=255`.
fn decimal_text(v: i32) -> (r: String)
    requires
        0 <= v <= 255,
    ensures
        r@ == radix_digits(v as nat, 10),
{
    radix_text(v as u8, 10)
}

/// The low-opacity overlay `rgba(r, g, b, .05)` of a hex colour, or
/// `InvalidFormat` where the text is not one.
pub fn fade(color: String) -> (r: Result<String, ThemeError>)
    ensures
        match r {
            Ok(t) => is_hex_color(color@) && t@ == fade_text(decoded_rgb(color@)),
            Err(e) => !is_hex_color(color@) && e == ThemeError::InvalidFormat,
        },
{
    let ghost text = color@;
    let rgb = match hex_to_rgb(color) {
        Ok(v) => v,
        Err(e) => {
            return Err(e);
        },
    };
    proof {
        lemma_decoded_in_range(text);
    }
    let c = generate_color_from_rgb(&rgb, None);
    let mut out = String::from_str("rgba(");
    out.append(decimal_text(c.rgb.0).as_str());
    out.append(", ");
    out.append(decimal_text(c.rgb.1).as_str());
    out.append(", ");
    out.append(decimal_text(c.rgb.2).as_str());
    out.append(", .05)");
    Ok(out)
}

/// The shades of the three semantic colours and the divider colour.
#[derive(Clone, Debug, PartialEq, Eq)]
pub struct Palette {
    pub primary: PaletteColor,
    pub secondary: PaletteColor,
    pub error: PaletteColor,
    pub divider: String,
}

/// Screen widths, in pixels, at which layouts change.
#[derive(Clone, Copy, Debug, PartialEq, Eq, Structural)]
pub struct Breakpoints {
    pub xs: i32,
    pub sm: i32,
    pub md: i32,
    pub lg: i32,
}

/// The sizing tokens of buttons, as CSS values.
#[derive(Clone, Debug, PartialEq, Eq)]
pub struct ComponentButton {
    pub border_radius: String,
    pub small_size_padding: String,
    pub large_size_padding: String,
    pub small_height: String,
    pub large_height: String,
}

/// The sizing tokens of the components.
#[derive(Clone, Debug, PartialEq, Eq)]
pub struct ThemeComponents {
    pub button: ComponentButton,
}

/// Everything that the stylesheets of the components are filled from.
#[derive(Clone, Debug, PartialEq, Eq)]
pub struct Theme {
    pub components: ThemeComponents,
    pub palette: Palette,
    pub breakpoints: Breakpoints,
}

/// The base colours of the default palette: `#0db7b6`, `#ea2845` and
/// `#f44336`.
pub open spec fn primary_base() -> RGB {
    RGB(0x0d, 0xb7, 0xb6)
}

pub open spec fn secondary_base() -> RGB {
    RGB(0xea, 0x28, 0x45)
}

pub open spec fn error_base() -> RGB {
    RGB(0xf4, 0x43, 0x36)
}

/// Whether `p` is the default palette.
pub open spec fn is_default_palette(p: Palette) -> bool {
    &&& palette_of(p.primary, primary_base())
    &&& palette_of(p.secondary, secondary_base())
    &&& palette_of(p.error, error_base())
    &&& p.divider@ == "#DDE3ED"@
}

/// Whether `b` holds the default button tokens.
pub open spec fn is_default_component_button(b: ComponentButton) -> bool {
    &&& b.border_radius@ == "4px"@
    &&& b.small_size_padding@ == "10px 16px"@
    &&& b.large_size_padding@ == "12px 32px"@
    &&& b.small_height@ == "36px"@
    &&& b.large_height@ == "43px"@
}

pub open spec fn default_breakpoints() -> Breakpoints {
    Breakpoints { xs: 320, sm: 480, md: 768, lg: 1000 }
}

impl Theme {
    /// The default theme: the default components, palette and breakpoints.
    pub fn default() -> (r: Theme)
        ensures
            is_default_component_button(r.components.button),
            is_default_palette(r.palette),
            r.breakpoints == default_breakpoints(),
    {
        Theme {
            components: Theme::get_default_components(),
            palette: Theme::get_default_palette(),
            breakpoints: Theme::get_default_breakpoints(),
        }
    }

    /// The palettes of `#0db7b6`, `#ea2845` and `#f44336`, with the divider
    /// `#DDE3ED`.
    pub fn get_default_palette() -> (r: Palette)
        ensures
            is_default_palette(r),
    {
        proof {
            reveal_strlit("#0db7b6");
            reveal_strlit("#ea2845");
            reveal_strlit("#f44336");
        }
        assert(hex_body("#0db7b6"@) =~= "#0db7b6"@.drop_first());
        assert(hex_body("#ea2845"@) =~= "#ea2845"@.drop_first());
        assert(hex_body("#f44336"@) =~= "#f44336"@.drop_first());
        Palette {
            primary: generate_palette(reference_color("#0db7b6")),
            secondary: generate_palette(reference_color("#ea2845")),
            error: generate_palette(reference_color("#f44336")),
            divider: String::from_str("#DDE3ED"),
        }
    }

    pub fn get_default_components() -> (r: ThemeComponents)
        ensures
            is_default_component_button(r.button),
    {
        ThemeComponents { button: Theme::get_default_component_button() }
    }

    pub fn get_default_component_button() -> (r: ComponentButton)
        ensures
            is_default_component_button(r),
    {
        ComponentButton {
            border_radius: String::from_str("4px"),
            small_size_padding: String::from_str("10px 16px"),
            large_size_padding: String::from_str("12px 32px"),
            small_height: String::from_str("36px"),
            large_height: String::from_str("43px"),
        }
    }

    pub fn get_default_breakpoints() -> (r: Breakpoints)
        ensures
            r == default_breakpoints(),
    {
        Breakpoints { xs: 320, sm: 480, md: 768, lg: 1000 }
    }
}

} // verus!
