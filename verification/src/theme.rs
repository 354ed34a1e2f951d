//! Theming: colors, the light and dark palettes, and the theme manager that
//! follows the chosen mode and the system's dark-mode setting.

use vstd::prelude::*;
use crate::text::push_char;

verus! {

/// Theme mode setting
#[derive(Debug, Clone, Copy, PartialEq, Eq, Structural)]
pub enum ThemeMode {
    Light,
    Dark,
    Auto,
}

impl Default for ThemeMode {
    fn default() -> (m: ThemeMode)
        ensures
            m == ThemeMode::Auto,
    {
        ThemeMode::Auto
    }
}

/// RGBA Color representation
#[derive(Debug, Clone, Copy, PartialEq, Eq, Structural)]
pub struct Color {
    pub r: u8,
    pub g: u8,
    pub b: u8,
    pub a: u8,
}

/// The value of an ASCII hexadecimal digit byte.
pub open spec fn hex_byte_val(b: u8) -> Option<u8> {
    if 0x30 <= b <= 0x39 {
        Some((b - 0x30) as u8)
    } else if 0x41 <= b <= 0x46 {
        Some((b - 0x37) as u8)
    } else if 0x61 <= b <= 0x66 {
        Some((b - 0x57) as u8)
    } else {
        None
    }
}

/// What `u8::from_str_radix(.., 16)` gives for a two-byte slice: two hex digits,
/// or a `+` sign followed by one.
pub open spec fn hex_pair(a: u8, b: u8) -> Option<u8> {
    match (hex_byte_val(a), hex_byte_val(b)) {
        (Some(x), Some(y)) => Some((16 * x + y) as u8),
        (None, Some(y)) => if a == 0x2b {
            Some(y)
        } else {
            None
        },
        _ => None,
    }
}

/// `b` without its leading `#` bytes.
pub open spec fn strip_hashes(b: Seq<u8>) -> Seq<u8>
    decreases b.len(),
{
    if b.len() > 0 && b[0] == 0x23 {
        strip_hashes(b.drop_first())
    } else {
        b
    }
}

/// A UTF-8 continuation byte: slicing a `str` there panics.
pub open spec fn is_cont(b: u8) -> bool {
    0x80 <= b <= 0xbf
}

/// The two-byte slices that `from_hex` takes fall on character boundaries.
pub open spec fn hex_slices_ok(bytes: Seq<u8>) -> bool {
    let t = strip_hashes(bytes);
    &&& t.len() == 6 ==> !is_cont(t[2]) && !is_cont(t[4])
    &&& t.len() == 8 ==> !is_cont(t[2]) && !is_cont(t[4]) && !is_cont(t[6])
}

/// The color that a hex string (given by its UTF-8 bytes) describes:
/// `#RRGGBB` (opaque) or `#RRGGBBAA`, any number of leading `#`.
pub open spec fn color_from_hex_bytes(bytes: Seq<u8>) -> Option<Color> {
    let t = strip_hashes(bytes);
    if t.len() == 6 {
        match (hex_pair(t[0], t[1]), hex_pair(t[2], t[3]), hex_pair(t[4], t[5])) {
            (Some(r), Some(g), Some(b)) => Some(Color { r, g, b, a: 255 }),
            _ => None,
        }
    } else if t.len() == 8 {
        match (hex_pair(t[0], t[1]), hex_pair(t[2], t[3]), hex_pair(t[4], t[5]), hex_pair(t[6], t[7])) {
            (Some(r), Some(g), Some(b), Some(a)) => Some(Color { r, g, b, a }),
            _ => None,
        }
    } else {
        None
    }
}

/// Upper-case hexadecimal digit for `d < 16`.
pub open spec fn hex_digit(d: nat) -> char {
    if d < 10 {
        crate::text::digit_char(d)
    } else if d == 10 {
        'A'
    } else if d == 11 {
        'B'
    } else if d == 12 {
        'C'
    } else if d == 13 {
        'D'
    } else if d == 14 {
        'E'
    } else {
        'F'
    }
}

/// `v` as two upper-case hex digits (`{:02X}`).
pub open spec fn hex2(v: u8) -> Seq<char> {
    seq![hex_digit((v / 16) as nat), hex_digit((v % 16) as nat)]
}

/// `#RRGGBB` for an opaque color, `#RRGGBBAA` otherwise.
pub open spec fn hex_text(c: Color) -> Seq<char> {
    if c.a == 255 {
        seq!['#'] + hex2(c.r) + hex2(c.g) + hex2(c.b)
    } else {
        seq!['#'] + hex2(c.r) + hex2(c.g) + hex2(c.b) + hex2(c.a)
    }
}

/// Whether `0.299 r + 0.587 g + 0.114 b < 128` evaluates to `true` in `f32`
/// arithmetic: the exact comparison, except at eight colors whose exact
/// luminance is 128 but whose `f32` evaluation rounds just below it.
pub open spec fn dark_color(c: Color) -> bool {
    ||| 299 * c.r + 587 * c.g + 114 * c.b < 128000
    ||| (c.r == 75 && c.g == 175 && c.b == 25)
    ||| (c.r == 94 && c.g == 156 && c.b == 73)
    ||| (c.r == 113 && c.g == 137 && c.b == 121)
    ||| (c.r == 132 && c.g == 118 && c.b == 169)
    ||| (c.r == 199 && c.g == 93 && c.b == 122)
    ||| (c.r == 202 && c.g == 114 && c.b == 6)
    ||| (c.r == 218 && c.g == 74 && c.b == 170)
    ||| (c.r == 237 && c.g == 55 && c.b == 218)
}

fn hex_val(b: u8) -> (r: Option<u8>)
    ensures
        r == hex_byte_val(b),
{
    if 0x30 <= b && b <= 0x39 {
        Some(b - 0x30)
    } else if 0x41 <= b && b <= 0x46 {
        Some(b - 0x37)
    } else if 0x61 <= b && b <= 0x66 {
        Some(b - 0x57)
    } else {
        None
    }
}

fn parse_pair(a: u8, b: u8) -> (r: Option<u8>)
    ensures
        r == hex_pair(a, b),
{
    match (hex_val(a), hex_val(b)) {
        (Some(x), Some(y)) => Some(16 * x + y),
        (None, Some(y)) => if a == 0x2b {
            Some(y)
        } else {
            None
        },
        _ => None,
    }
}

fn hex_char(d: u8) -> (c: char)
    requires
        d < 16,
    ensures
        c == hex_digit(d as nat),
{
    if d < 10 {
        crate::text::digit(d as u64)
    } else if d == 10 {
        'A'
    } else if d == 11 {
        'B'
    } else if d == 12 {
        'C'
    } else if d == 13 {
        'D'
    } else if d == 14 {
        'E'
    } else {
        'F'
    }
}

fn push_hex2(s: &mut String, v: u8)
    ensures
        final(s)@ == old(s)@ + hex2(v),
{
    push_char(s, hex_char(v / 16));
    push_char(s, hex_char(v % 16));
}

impl Color {
    /// Create a new color from RGBA values
    pub fn new(r: u8, g: u8, b: u8, a: u8) -> (c: Color)
        ensures
            c == (Color { r, g, b, a }),
    {
        Color { r, g, b, a }
    }

    /// Create a new opaque color from RGB values
    pub fn rgb(r: u8, g: u8, b: u8) -> (c: Color)
        ensures
            c == (Color { r, g, b, a: 255 }),
    {
        Color { r, g, b, a: 255 }
    }

    /// Create color from hex string (`#RRGGBB` or `#RRGGBBAA`)
    pub fn from_hex(hex: &str) -> (r: Option<Color>)
        requires
            hex_slices_ok(vstd::utf8::encode_utf8(hex@)),
        ensures
            r == color_from_hex_bytes(vstd::utf8::encode_utf8(hex@)),
    {
        let bytes = hex.as_bytes();
        let mut k: usize = 0;
        assert(bytes@.skip(0) == bytes@);
        while k < bytes.len() && bytes[k] == 0x23
            invariant
                k <= bytes.len(),
                strip_hashes(bytes@) == strip_hashes(bytes@.skip(k as int)),
            decreases bytes.len() - k,
        {
            assert(bytes@.skip(k as int).drop_first() == bytes@.skip(k + 1));
            k += 1;
        }
        let ghost t = bytes@.skip(k as int);
        assert(strip_hashes(t) == t);
        let n = bytes.len() - k;
        if n == 6 {
            match (
                parse_pair(bytes[k], bytes[k + 1]),
                parse_pair(bytes[k + 2], bytes[k + 3]),
                parse_pair(bytes[k + 4], bytes[k + 5]),
            ) {
                (Some(r), Some(g), Some(b)) => Some(Color::rgb(r, g, b)),
                _ => None,
            }
        } else if n == 8 {
            match (
                parse_pair(bytes[k], bytes[k + 1]),
                parse_pair(bytes[k + 2], bytes[k + 3]),
                parse_pair(bytes[k + 4], bytes[k + 5]),
                parse_pair(bytes[k + 6], bytes[k + 7]),
            ) {
                (Some(r), Some(g), Some(b), Some(a)) => Some(Color::new(r, g, b, a)),
                _ => None,
            }
        } else {
            None
        }
    }

    /// Convert to hex string
    pub fn hex(&self) -> (s: String)
        ensures
            s@ == hex_text(*self),
    {
        let mut s = String::new();
        push_char(&mut s, '#');
        push_hex2(&mut s, self.r);
        push_hex2(&mut s, self.g);
        push_hex2(&mut s, self.b);
        if self.a != 255 {
            push_hex2(&mut s, self.a);
        }
        s
    }

    /// The color as a Windows COLORREF value (0x00BBGGRR).
    pub fn colorref(&self) -> (v: u32)
        ensures
            v == self.b as nat * 65536 + self.g as nat * 256 + self.r as nat,
    {
        (self.b as u32) * 65536 + (self.g as u32) * 256 + (self.r as u32)
    }

    /// Convert to ARGB u32
    pub fn argb(&self) -> (v: u32)
        ensures
            v == self.a as nat * 16777216 + self.r as nat * 65536 + self.g as nat * 256 + self.b as nat,
    {
        let v = (self.a as u32) * 16777216 + (self.r as u32) * 65536 + (self.g as u32) * 256 + (self.b as u32);
        v
    }

    /// Create with modified alpha
    pub fn with_alpha(&self, a: u8) -> (c: Color)
        ensures
            c == (Color { a, ..*self }),
    {
        Color { a, ..*self }
    }

    /// Check if color is dark (relative luminance below half)
    pub fn is_dark(&self) -> (b: bool)
        ensures
            b == dark_color(*self),
    {
        let r = self.r as u32;
        let g = self.g as u32;
        let b = self.b as u32;
        (299 * r + 587 * g + 114 * b < 128000) || (r == 75 && g == 175 && b == 25) || (r == 94 && g
            == 156 && b == 73) || (r == 113 && g == 137 && b == 121) || (r == 132 && g == 118 && b
            == 169) || (r == 199 && g == 93 && b == 122) || (r == 202 && g == 114 && b == 6) || (r
            == 218 && g == 74 && b == 170) || (r == 237 && g == 55 && b == 218)
    }
}

proof fn lemma_hex2_bytes(v: u8)
    ensures
        hex_pair(hex_digit((v / 16) as nat) as u8, hex_digit((v % 16) as nat) as u8) == Some(v),
        !is_cont(hex_digit((v / 16) as nat) as u8),
        !is_cont(hex_digit((v % 16) as nat) as u8),
        hex_digit((v / 16) as nat) as u8 != 0x23,
        '\0' <= hex_digit((v / 16) as nat) <= '\u{7f}',
        '\0' <= hex_digit((v % 16) as nat) <= '\u{7f}',
{
    let hi = (v / 16) as nat;
    let lo = (v % 16) as nat;
    assert(hex_byte_val(hex_digit(hi) as u8) == Some(hi as u8));
    assert(hex_byte_val(hex_digit(lo) as u8) == Some(lo as u8));
    assert(16 * hi + lo == v);
}

/// Writing a color as hex and reading it back gives the same color.
pub proof fn lemma_hex_round_trip(c: Color)
    ensures
        hex_slices_ok(vstd::utf8::encode_utf8(hex_text(c))),
        color_from_hex_bytes(vstd::utf8::encode_utf8(hex_text(c))) == Some(c),
{
    let s = hex_text(c);
    lemma_hex2_bytes(c.r);
    lemma_hex2_bytes(c.g);
    lemma_hex2_bytes(c.b);
    lemma_hex2_bytes(c.a);
    assert(vstd::utf8::is_ascii_chars(s));
    vstd::utf8::is_ascii_chars_encode_utf8(s);
    let b = vstd::utf8::encode_utf8(s);
    assert(b[0] == 0x23);
    assert(strip_hashes(b.drop_first()) == b.drop_first());
    assert(strip_hashes(b) == b.drop_first());
}

/// Theme colors and styling
#[derive(Debug, Clone)]
pub struct Theme {
    /// Theme name
    pub name: String,
    /// Whether this is a dark theme
    pub is_dark: bool,
    pub background: Color,
    pub background_secondary: Color,
    pub background_hover: Color,
    pub background_active: Color,
    pub text_primary: Color,
    pub text_secondary: Color,
    pub text_disabled: Color,
    pub text_accent: Color,
    pub accent: Color,
    pub accent_hover: Color,
    pub accent_active: Color,
    pub border: Color,
    pub border_hover: Color,
    pub success: Color,
    pub warning: Color,
    pub error: Color,
    pub info: Color,
    pub shadow: Color,
    pub overlay: Color,
    pub battery_full: Color,
    pub battery_medium: Color,
    pub battery_low: Color,
    pub battery_critical: Color,
    pub battery_charging: Color,
    pub network_connected: Color,
    pub network_disconnected: Color,
    pub cpu_normal: Color,
    pub cpu_high: Color,
    pub cpu_critical: Color,
    pub memory_normal: Color,
    pub memory_high: Color,
    pub memory_critical: Color,
}

/// `t` is the light palette.
pub open spec fn is_light_theme(t: Theme) -> bool {
    &&& t.name@ == "Light"@
    &&& !t.is_dark
    &&& t.background == (Color { r: 252, g: 252, b: 254, a: 230 })
    &&& t.background_secondary == (Color { r: 246, g: 246, b: 248, a: 250 })
    &&& t.background_hover == (Color { r: 0, g: 0, b: 0, a: 8 })
    &&& t.background_active == (Color { r: 0, g: 0, b: 0, a: 15 })
    &&& t.text_primary == (Color { r: 26, g: 26, b: 28, a: 255 })
    &&& t.text_secondary == (Color { r: 90, g: 90, b: 95, a: 255 })
    &&& t.text_disabled == (Color { r: 150, g: 150, b: 155, a: 255 })
    &&& t.text_accent == (Color { r: 0, g: 122, b: 255, a: 255 })
    &&& t.accent == (Color { r: 0, g: 122, b: 255, a: 255 })
    &&& t.accent_hover == (Color { r: 0, g: 108, b: 230, a: 255 })
    &&& t.accent_active == (Color { r: 0, g: 95, b: 204, a: 255 })
    &&& t.border == (Color { r: 0, g: 0, b: 0, a: 10 })
    &&& t.border_hover == (Color { r: 0, g: 0, b: 0, a: 20 })
    &&& t.success == (Color { r: 52, g: 199, b: 89, a: 255 })
    &&& t.warning == (Color { r: 255, g: 149, b: 0, a: 255 })
    &&& t.error == (Color { r: 255, g: 69, b: 58, a: 255 })
    &&& t.info == (Color { r: 0, g: 122, b: 255, a: 255 })
    &&& t.shadow == (Color { r: 0, g: 0, b: 0, a: 20 })
    &&& t.overlay == (Color { r: 0, g: 0, b: 0, a: 35 })
    &&& t.battery_full == (Color { r: 52, g: 199, b: 89, a: 255 })
    &&& t.battery_medium == (Color { r: 255, g: 204, b: 0, a: 255 })
    &&& t.battery_low == (Color { r: 255, g: 149, b: 0, a: 255 })
    &&& t.battery_critical == (Color { r: 255, g: 69, b: 58, a: 255 })
    &&& t.battery_charging == (Color { r: 52, g: 199, b: 89, a: 255 })
    &&& t.network_connected == (Color { r: 52, g: 199, b: 89, a: 255 })
    &&& t.network_disconnected == (Color { r: 150, g: 150, b: 155, a: 255 })
    &&& t.cpu_normal == (Color { r: 0, g: 122, b: 255, a: 255 })
    &&& t.cpu_high == (Color { r: 255, g: 149, b: 0, a: 255 })
    &&& t.cpu_critical == (Color { r: 255, g: 69, b: 58, a: 255 })
    &&& t.memory_normal == (Color { r: 175, g: 82, b: 222, a: 255 })
    &&& t.memory_high == (Color { r: 255, g: 149, b: 0, a: 255 })
    &&& t.memory_critical == (Color { r: 255, g: 69, b: 58, a: 255 })
}

/// `t` is the dark palette.
pub open spec fn is_dark_theme(t: Theme) -> bool {
    &&& t.name@ == "Dark"@
    &&& t.is_dark
    &&& t.background == (Color { r: 30, g: 30, b: 32, a: 245 })
    &&& t.background_secondary == (Color { r: 44, g: 44, b: 46, a: 255 })
    &&& t.background_hover == (Color { r: 255, g: 255, b: 255, a: 12 })
    &&& t.background_active == (Color { r: 255, g: 255, b: 255, a: 22 })
    &&& t.text_primary == (Color { r: 255, g: 255, b: 255, a: 255 })
    &&& t.text_secondary == (Color { r: 170, g: 170, b: 175, a: 255 })
    &&& t.text_disabled == (Color { r: 100, g: 100, b: 105, a: 255 })
    &&& t.text_accent == (Color { r: 10, g: 132, b: 255, a: 255 })
    &&& t.accent == (Color { r: 10, g: 132, b: 255, a: 255 })
    &&& t.accent_hover == (Color { r: 50, g: 152, b: 255, a: 255 })
    &&& t.accent_active == (Color { r: 80, g: 165, b: 255, a: 255 })
    &&& t.border == (Color { r: 255, g: 255, b: 255, a: 10 })
    &&& t.border_hover == (Color { r: 255, g: 255, b: 255, a: 25 })
    &&& t.success == (Color { r: 48, g: 209, b: 88, a: 255 })
    &&& t.warning == (Color { r: 255, g: 159, b: 10, a: 255 })
    &&& t.error == (Color { r: 255, g: 79, b: 68, a: 255 })
    &&& t.info == (Color { r: 10, g: 132, b: 255, a: 255 })
    &&& t.shadow == (Color { r: 0, g: 0, b: 0, a: 120 })
    &&& t.overlay == (Color { r: 0, g: 0, b: 0, a: 150 })
    &&& t.battery_full == (Color { r: 48, g: 209, b: 88, a: 255 })
    &&& t.battery_medium == (Color { r: 255, g: 214, b: 10, a: 255 })
    &&& t.battery_low == (Color { r: 255, g: 159, b: 10, a: 255 })
    &&& t.battery_critical == (Color { r: 255, g: 79, b: 68, a: 255 })
    &&& t.battery_charging == (Color { r: 48, g: 209, b: 88, a: 255 })
    &&& t.network_connected == (Color { r: 48, g: 209, b: 88, a: 255 })
    &&& t.network_disconnected == (Color { r: 130, g: 130, b: 135, a: 255 })
    &&& t.cpu_normal == (Color { r: 10, g: 132, b: 255, a: 255 })
    &&& t.cpu_high == (Color { r: 255, g: 159, b: 10, a: 255 })
    &&& t.cpu_critical == (Color { r: 255, g: 79, b: 68, a: 255 })
    &&& t.memory_normal == (Color { r: 191, g: 90, b: 242, a: 255 })
    &&& t.memory_high == (Color { r: 255, g: 159, b: 10, a: 255 })
    &&& t.memory_critical == (Color { r: 255, g: 79, b: 68, a: 255 })
}

/// `t` is the palette for darkness `dark`.
pub open spec fn theme_matches(t: Theme, dark: bool) -> bool {
    if dark {
        is_dark_theme(t)
    } else {
        is_light_theme(t)
    }
}

/// The color that `battery_color` picks.
pub open spec fn battery_color_of(t: Theme, percentage: u32, is_charging: bool) -> Color {
    if is_charging {
        t.battery_charging
    } else if percentage <= 10 {
        t.battery_critical
    } else if percentage <= 20 {
        t.battery_low
    } else if percentage <= 50 {
        t.battery_medium
    } else {
        t.battery_full
    }
}

impl Theme {
    /// Create the light theme
    pub fn light() -> (t: Theme)
        ensures
            is_light_theme(t),
    {
        Theme {
            name: crate::text::string_of("Light"),
            is_dark: false,
            background: Color::new(252, 252, 254, 230),
            background_secondary: Color::new(246, 246, 248, 250),
            background_hover: Color::new(0, 0, 0, 8),
            background_active: Color::new(0, 0, 0, 15),
            text_primary: Color::rgb(26, 26, 28),
            text_secondary: Color::rgb(90, 90, 95),
            text_disabled: Color::rgb(150, 150, 155),
            text_accent: Color::rgb(0, 122, 255),
            accent: Color::rgb(0, 122, 255),
            accent_hover: Color::rgb(0, 108, 230),
            accent_active: Color::rgb(0, 95, 204),
            border: Color::new(0, 0, 0, 10),
            border_hover: Color::new(0, 0, 0, 20),
            success: Color::rgb(52, 199, 89),
            warning: Color::rgb(255, 149, 0),
            error: Color::rgb(255, 69, 58),
            info: Color::rgb(0, 122, 255),
            shadow: Color::new(0, 0, 0, 20),
            overlay: Color::new(0, 0, 0, 35),
            battery_full: Color::rgb(52, 199, 89),
            battery_medium: Color::rgb(255, 204, 0),
            battery_low: Color::rgb(255, 149, 0),
            battery_critical: Color::rgb(255, 69, 58),
            battery_charging: Color::rgb(52, 199, 89),
            network_connected: Color::rgb(52, 199, 89),
            network_disconnected: Color::rgb(150, 150, 155),
            cpu_normal: Color::rgb(0, 122, 255),
            cpu_high: Color::rgb(255, 149, 0),
            cpu_critical: Color::rgb(255, 69, 58),
            memory_normal: Color::rgb(175, 82, 222),
            memory_high: Color::rgb(255, 149, 0),
            memory_critical: Color::rgb(255, 69, 58),
        }
    }

    /// Create the dark theme
    pub fn dark() -> (t: Theme)
        ensures
            is_dark_theme(t),
    {
        Theme {
            name: crate::text::string_of("Dark"),
            is_dark: true,
            background: Color::new(30, 30, 32, 245),
            background_secondary: Color::new(44, 44, 46, 255),
            background_hover: Color::new(255, 255, 255, 12),
            background_active: Color::new(255, 255, 255, 22),
            text_primary: Color::rgb(255, 255, 255),
            text_secondary: Color::rgb(170, 170, 175),
            text_disabled: Color::rgb(100, 100, 105),
            text_accent: Color::rgb(10, 132, 255),
            accent: Color::rgb(10, 132, 255),
            accent_hover: Color::rgb(50, 152, 255),
            accent_active: Color::rgb(80, 165, 255),
            border: Color::new(255, 255, 255, 10),
            border_hover: Color::new(255, 255, 255, 25),
            success: Color::rgb(48, 209, 88),
            warning: Color::rgb(255, 159, 10),
            error: Color::rgb(255, 79, 68),
            info: Color::rgb(10, 132, 255),
            shadow: Color::new(0, 0, 0, 120),
            overlay: Color::new(0, 0, 0, 150),
            battery_full: Color::rgb(48, 209, 88),
            battery_medium: Color::rgb(255, 214, 10),
            battery_low: Color::rgb(255, 159, 10),
            battery_critical: Color::rgb(255, 79, 68),
            battery_charging: Color::rgb(48, 209, 88),
            network_connected: Color::rgb(48, 209, 88),
            network_disconnected: Color::rgb(130, 130, 135),
            cpu_normal: Color::rgb(10, 132, 255),
            cpu_high: Color::rgb(255, 159, 10),
            cpu_critical: Color::rgb(255, 79, 68),
            memory_normal: Color::rgb(191, 90, 242),
            memory_high: Color::rgb(255, 159, 10),
            memory_critical: Color::rgb(255, 79, 68),
        }
    }

    /// The palette for the given darkness.
    fn for_darkness(dark: bool) -> (t: Theme)
        ensures
            theme_matches(t, dark),
    {
        if dark {
            Theme::dark()
        } else {
            Theme::light()
        }
    }

    /// Get color for battery percentage
    pub fn battery_color(&self, percentage: u32, is_charging: bool) -> (c: Color)
        ensures
            c == battery_color_of(*self, percentage, is_charging),
    {
        if is_charging {
            self.battery_charging
        } else if percentage <= 10 {
            self.battery_critical
        } else if percentage <= 20 {
            self.battery_low
        } else if percentage <= 50 {
            self.battery_medium
        } else {
            self.battery_full
        }
    }
}

/// Whether mode `mode` shows the dark palette when the system's dark setting is `system_dark`.
pub open spec fn resolved_dark(mode: ThemeMode, system_dark: bool) -> bool {
    match mode {
        ThemeMode::Light => false,
        ThemeMode::Dark => true,
        ThemeMode::Auto => system_dark,
    }
}

/// The mode that `toggle` switches to.
pub open spec fn toggled_mode(mode: ThemeMode, system_dark: bool) -> ThemeMode {
    match mode {
        ThemeMode::Light => ThemeMode::Dark,
        ThemeMode::Dark => ThemeMode::Light,
        ThemeMode::Auto => if system_dark {
            ThemeMode::Light
        } else {
            ThemeMode::Dark
        },
    }
}

/// Toggling always switches between the light and the dark palette.
pub proof fn lemma_toggle_flips_darkness(mode: ThemeMode, system_dark: bool)
    ensures
        resolved_dark(toggled_mode(mode, system_dark), system_dark) == !resolved_dark(mode, system_dark),
{
}

/// Toggling twice returns to an explicit light or dark mode.
pub proof fn lemma_toggle_twice(mode: ThemeMode, system_dark: bool)
    ensures
        toggled_mode(toggled_mode(mode, system_dark), system_dark) == (match mode {
            ThemeMode::Auto => if system_dark {
                ThemeMode::Dark
            } else {
                ThemeMode::Light
            },
            m => m,
        }),
{
}

/// Theme manager: follows the chosen mode and the system's dark setting.
pub struct ThemeManager {
    current_theme: Theme,
    mode: ThemeMode,
    system_is_dark: bool,
}

impl ThemeManager {
    #[verifier::type_invariant]
    spec fn wf(self) -> bool {
        theme_matches(self.current_theme, resolved_dark(self.mode, self.system_is_dark))
    }

    /// The chosen mode.
    pub closed spec fn spec_mode(self) -> ThemeMode {
        self.mode
    }

    /// The system's dark-mode setting as last observed.
    pub closed spec fn spec_system_dark(self) -> bool {
        self.system_is_dark
    }

    /// Create a theme manager for `mode`, given whether the system is in dark mode.
    pub fn new(mode: ThemeMode, system_is_dark: bool) -> (m: ThemeManager)
        ensures
            m.spec_mode() == mode,
            m.spec_system_dark() == system_is_dark,
    {
        let dark = match mode {
            ThemeMode::Light => false,
            ThemeMode::Dark => true,
            ThemeMode::Auto => system_is_dark,
        };
        ThemeManager {
            current_theme: Theme::for_darkness(dark),
            mode,
            system_is_dark,
        }
    }

    /// Get the current theme
    pub fn theme(&self) -> (t: &Theme)
        ensures
            theme_matches(*t, resolved_dark(self.spec_mode(), self.spec_system_dark())),
    {
        proof {
            use_type_invariant(self);
        }
        &self.current_theme
    }

    /// Get the current theme mode
    pub fn mode(&self) -> (m: ThemeMode)
        ensures
            m == self.spec_mode(),
    {
        self.mode
    }

    /// Set the theme mode
    pub fn set_mode(&mut self, mode: ThemeMode)
        ensures
            final(self).spec_mode() == mode,
            final(self).spec_system_dark() == old(self).spec_system_dark(),
    {
        let sys = self.system_is_dark;
        *self = ThemeManager::new(mode, sys);
    }

    /// Toggle between light and dark mode
    pub fn toggle(&mut self)
        ensures
            final(self).spec_mode() == toggled_mode(old(self).spec_mode(), old(self).spec_system_dark()),
            final(self).spec_system_dark() == old(self).spec_system_dark(),
    {
        let sys = self.system_is_dark;
        let mode = match self.mode {
            ThemeMode::Light => ThemeMode::Dark,
            ThemeMode::Dark => ThemeMode::Light,
            ThemeMode::Auto => if sys {
                ThemeMode::Light
            } else {
                ThemeMode::Dark
            },
        };
        *self = ThemeManager::new(mode, sys);
    }

    /// Record the system's dark-mode setting; returns whether the shown theme changed.
    pub fn check_system_theme(&mut self, system_is_dark: bool) -> (changed: bool)
        ensures
            final(self).spec_mode() == old(self).spec_mode(),
            final(self).spec_system_dark() == system_is_dark,
            changed == (old(self).spec_system_dark() != system_is_dark && old(self).spec_mode()
                == ThemeMode::Auto),
    {
        let prev = self.system_is_dark;
        let mode = self.mode;
        *self = ThemeManager::new(mode, system_is_dark);
        prev != system_is_dark && mode == ThemeMode::Auto
    }

    /// Check if currently using dark theme
    pub fn is_dark(&self) -> (b: bool)
        ensures
            b == resolved_dark(self.spec_mode(), self.spec_system_dark()),
    {
        proof {
            use_type_invariant(self);
        }
        self.current_theme.is_dark
    }
}

} // verus!
