//! Formatting helpers and layout geometry.

use vstd::prelude::*;
use crate::config::BarPosition;
use crate::text::{dec, dec2, digit, digit_char, push_char, push_dec, push_dec2, push_dec_wide, push_str, chars_of, string_from_chars, string_from_range};

verus! {

/// One kibibyte.
pub const KB: u64 = 1024;
/// One mebibyte.
pub const MB: u64 = 1048576;
/// One gibibyte.
pub const GB: u64 = 1073741824;
/// One tebibyte.
pub const TB: u64 = 1099511627776;

/// `2` to the power `k`.
pub open spec fn pow2(k: nat) -> nat
    decreases k,
{
    if k == 0 {
        1
    } else {
        2 * pow2((k - 1) as nat)
    }
}

/// The number of binary digits of `n` (zero for zero).
pub open spec fn bit_len(n: nat) -> nat
    decreases n,
{
    if n == 0 {
        0
    } else {
        1 + bit_len(n / 2)
    }
}

/// `n / d` rounded to the nearest integer, ties to the even neighbour.
pub open spec fn div_round_even(n: nat, d: nat) -> nat
    recommends
        d > 0,
{
    let q = n / d;
    let r = n % d;
    if 2 * r > d || (2 * r == d && q % 2 == 1) {
        q + 1
    } else {
        q
    }
}

/// The value that `n as f64` holds: `n` rounded to 53 significant bits, ties to even.
pub open spec fn f64_of(n: nat) -> nat {
    if n < pow2(53) {
        n
    } else {
        let p = pow2((bit_len(n) - 53) as nat);
        div_round_even(n, p) * p
    }
}

/// `t` tenths written with one decimal place, like `{:.1}`.
pub open spec fn tenths_text(t: nat) -> Seq<char> {
    dec(t / 10) + seq!['.', digit_char(t % 10)]
}

/// `x / unit` written with one decimal, as `format!("{:.1}", x as f64 / unit as f64)`
/// prints it when `unit` is a power of two.
pub open spec fn one_decimal(x: nat, unit: nat) -> Seq<char> {
    tenths_text(div_round_even(f64_of(x) * 10, unit))
}

/// The human-readable size text for `bytes`.
pub open spec fn bytes_text(bytes: nat) -> Seq<char> {
    if bytes >= TB {
        one_decimal(bytes, TB as nat) + " TB"@
    } else if bytes >= GB {
        one_decimal(bytes, GB as nat) + " GB"@
    } else if bytes >= MB {
        one_decimal(bytes, MB as nat) + " MB"@
    } else if bytes >= KB {
        one_decimal(bytes, KB as nat) + " KB"@
    } else {
        dec(bytes) + " B"@
    }
}

/// The text that `format_duration` gives for `seconds`.
pub open spec fn duration_text(seconds: nat) -> Seq<char> {
    let hours = seconds / 3600;
    let minutes = (seconds % 3600) / 60;
    if hours > 0 {
        dec(hours) + seq![':'] + dec2(minutes)
    } else {
        dec(minutes) + " min"@
    }
}

/// `s` cut to at most `max_chars` characters, the last one an ellipsis when cut.
pub open spec fn truncated(s: Seq<char>, max_chars: nat) -> Seq<char> {
    if s.len() <= max_chars {
        s
    } else {
        s.take(max_chars - 1).push('…')
    }
}

proof fn lemma_pow2_values()
    ensures
        pow2(11) == 2048,
        pow2(53) == 9007199254740992,
        pow2(64) == 18446744073709551616,
{
    reveal_with_fuel(pow2, 65);
}

proof fn lemma_pow2_pos(k: nat)
    ensures
        pow2(k) >= 1,
    decreases k,
{
    if k > 0 {
        lemma_pow2_pos((k - 1) as nat);
    }
}

proof fn lemma_pow2_mono(a: nat, b: nat)
    requires
        a <= b,
    ensures
        pow2(a) <= pow2(b),
    decreases b,
{
    if a < b {
        lemma_pow2_mono(a, (b - 1) as nat);
    }
}

proof fn lemma_bit_len_bound(n: nat, k: nat)
    requires
        n < pow2(k),
    ensures
        bit_len(n) <= k,
    decreases k,
{
    if n > 0 {
        assert(k > 0);
        lemma_bit_len_bound(n / 2, (k - 1) as nat);
    }
}

proof fn lemma_bit_len_low(n: nat, k: nat)
    requires
        pow2(k) <= n,
    ensures
        k < bit_len(n),
    decreases k,
{
    lemma_pow2_pos(k);
    if k > 0 {
        lemma_bit_len_low(n / 2, (k - 1) as nat);
    }
}

/// The value that `x as f64` holds, as an exact integer.
fn f64_value(x: u64) -> (r: u128)
    ensures
        r as nat == f64_of(x as nat),
        r <= 18446744073709551616u128 * 2048,
{
    proof {
        lemma_pow2_values();
    }
    if x < 9007199254740992 {
        return x as u128;
    }
    proof {
        lemma_pow2_values();
        lemma_bit_len_bound(x as nat, 64);
        lemma_bit_len_low(x as nat, 53);
    }
    let mut len: u64 = 0;
    let mut y: u64 = x;
    while y > 0
        invariant
            len + bit_len(y as nat) == bit_len(x as nat),
            bit_len(x as nat) <= 64,
        decreases y,
    {
        assert(bit_len(y as nat) == 1 + bit_len((y / 2) as nat));
        len += 1;
        y = y / 2;
    }
    let k = len - 53;
    let mut p: u64 = 1;
    let mut i: u64 = 0;
    while i < k
        invariant
            i <= k,
            k == len - 53,
            len == bit_len(x as nat),
            len <= 64,
            p as nat == pow2(i as nat),
        decreases k - i,
    {
        proof {
            lemma_pow2_values();
            lemma_pow2_mono((i + 1) as nat, 11);
        }
        p = p * 2;
        i += 1;
    }
    proof {
        lemma_pow2_pos(i as nat);
        lemma_pow2_values();
        lemma_pow2_mono(i as nat, 11);
    }
    let q = x / p;
    let r = x % p;
    let q2: u128 = if r > p - r || (r == p - r && q % 2 == 1) {
        q as u128 + 1
    } else {
        q as u128
    };
    assert(q2 <= 18446744073709551616u128);
    assert(q2 * (p as u128) <= 18446744073709551616u128 * 2048) by (nonlinear_arith)
        requires
            q2 <= 18446744073709551616u128,
            p <= 2048,
    ;
    q2 * (p as u128)
}

/// Writes `x / unit` with one decimal place.
fn push_one_decimal(s: &mut String, x: u64, unit: u64)
    requires
        unit > 0,
    ensures
        final(s)@ == old(s)@ + one_decimal(x as nat, unit as nat),
{
    let v = f64_value(x);
    let n: u128 = v * 10;
    let d = unit as u128;
    let q = n / d;
    let r = n % d;
    assert(q <= n) by (nonlinear_arith)
        requires
            q == n / d,
            d > 0,
    ;
    let t: u128 = if r > d - r || (r == d - r && q % 2 == 1) {
        q + 1
    } else {
        q
    };
    push_dec_wide(s, t / 10);
    push_char(s, '.');
    push_char(s, digit((t % 10) as u64));
}

/// Format bytes as a human-readable size: one decimal in the largest binary
/// unit that the value reaches, plain bytes below a kibibyte.
pub fn format_bytes(bytes: u64) -> (r: String)
    ensures
        r@ == bytes_text(bytes as nat),
{
    let mut r = String::new();
    if bytes >= TB {
        push_one_decimal(&mut r, bytes, TB);
        push_str(&mut r, " TB");
    } else if bytes >= GB {
        push_one_decimal(&mut r, bytes, GB);
        push_str(&mut r, " GB");
    } else if bytes >= MB {
        push_one_decimal(&mut r, bytes, MB);
        push_str(&mut r, " MB");
    } else if bytes >= KB {
        push_one_decimal(&mut r, bytes, KB);
        push_str(&mut r, " KB");
    } else {
        push_dec(&mut r, bytes);
        push_str(&mut r, " B");
    }
    r
}

/// Format a duration in seconds: `"H:MM"` from one hour on, `"M min"` below.
pub fn format_duration(seconds: u64) -> (r: String)
    ensures
        r@ == duration_text(seconds as nat),
{
    let hours = seconds / 3600;
    let minutes = (seconds % 3600) / 60;
    let mut r = String::new();
    if hours > 0 {
        push_dec(&mut r, hours);
        push_char(&mut r, ':');
        push_dec2(&mut r, minutes);
    } else {
        push_dec(&mut r, minutes);
        push_str(&mut r, " min");
    }
    r
}

/// Truncate `s` to at most `max_chars` characters, ending in an ellipsis when cut.
pub fn truncate_string(s: &str, max_chars: usize) -> (r: String)
    requires
        s@.len() <= max_chars || max_chars > 0,
    ensures
        r@ == truncated(s@, max_chars as nat),
{
    let v = chars_of(s);
    if v.len() <= max_chars {
        string_from_chars(&v)
    } else {
        let mut r = string_from_range(&v, 0, max_chars - 1);
        push_char(&mut r, '…');
        r
    }
}

/// The update-interval multiplier: twice as slow on battery power.
pub fn battery_update_multiplier(on_battery: bool) -> (r: u64)
    ensures
        r == (if on_battery { 2u64 } else { 1u64 }),
{
    if on_battery {
        2
    } else {
        1
    }
}

/// Half of `v`, rounded toward zero as integer division does.
pub open spec fn half(v: int) -> int {
    if v >= 0 {
        v / 2
    } else {
        -((-v) / 2)
    }
}

/// Rectangle structure for layout calculations
#[derive(Debug, Clone, Copy, Default)]
pub struct Rect {
    pub x: i32,
    pub y: i32,
    pub width: i32,
    pub height: i32,
}

impl Rect {
    pub fn new(x: i32, y: i32, width: i32, height: i32) -> (r: Rect)
        ensures
            r == (Rect { x, y, width, height }),
    {
        Rect { x, y, width, height }
    }

    pub fn right(&self) -> (r: i32)
        requires
            i32::MIN <= self.x + self.width <= i32::MAX,
        ensures
            r == self.x + self.width,
    {
        self.x + self.width
    }

    pub fn bottom(&self) -> (r: i32)
        requires
            i32::MIN <= self.y + self.height <= i32::MAX,
        ensures
            r == self.y + self.height,
    {
        self.y + self.height
    }

    pub fn center_x(&self) -> (r: i32)
        requires
            i32::MIN <= self.x + half(self.width as int) <= i32::MAX,
        ensures
            r == self.x + half(self.width as int),
    {
        self.x + self.width / 2
    }

    pub fn center_y(&self) -> (r: i32)
        requires
            i32::MIN <= self.y + half(self.height as int) <= i32::MAX,
        ensures
            r == self.y + half(self.height as int),
    {
        self.y + self.height / 2
    }

    /// Whether the point lies inside: left and top edges included, right and
    /// bottom edges excluded.
    pub fn contains(&self, x: i32, y: i32) -> (b: bool)
        requires
            i32::MIN <= self.x + self.width <= i32::MAX,
            i32::MIN <= self.y + self.height <= i32::MAX,
        ensures
            b == (self.x <= x < self.x + self.width && self.y <= y < self.y + self.height),
    {
        x >= self.x && x < self.right() && y >= self.y && y < self.bottom()
    }

    /// Whether the two rectangles overlap in an area.
    pub fn intersects(&self, other: &Rect) -> (b: bool)
        requires
            i32::MIN <= self.x + self.width <= i32::MAX,
            i32::MIN <= self.y + self.height <= i32::MAX,
            i32::MIN <= other.x + other.width <= i32::MAX,
            i32::MIN <= other.y + other.height <= i32::MAX,
        ensures
            b == (self.x < other.x + other.width && self.x + self.width > other.x && self.y
                < other.y + other.height && self.y + self.height > other.y),
    {
        self.x < other.right() && self.right() > other.x && self.y < other.bottom()
            && self.bottom() > other.y
    }

    /// The rectangle moved in by `amount` on every side, its size never below zero.
    pub fn shrink(&self, amount: i32) -> (r: Rect)
        requires
            i32::MIN <= self.x + amount <= i32::MAX,
            i32::MIN <= self.y + amount <= i32::MAX,
            i32::MIN <= amount * 2 <= i32::MAX,
            i32::MIN <= self.width - amount * 2 <= i32::MAX,
            i32::MIN <= self.height - amount * 2 <= i32::MAX,
        ensures
            r.x == self.x + amount,
            r.y == self.y + amount,
            r.width == (if self.width - amount * 2 > 0 { self.width - amount * 2 } else { 0 }),
            r.height == (if self.height - amount * 2 > 0 { self.height - amount * 2 } else { 0 }),
    {
        let w = self.width - amount * 2;
        let h = self.height - amount * 2;
        Rect {
            x: self.x + amount,
            y: self.y + amount,
            width: if w > 0 { w } else { 0 },
            height: if h > 0 { h } else { 0 },
        }
    }

    /// The rectangle moved out by `amount` on every side.
    pub fn expand(&self, amount: i32) -> (r: Rect)
        requires
            i32::MIN <= self.x - amount <= i32::MAX,
            i32::MIN <= self.y - amount <= i32::MAX,
            i32::MIN <= amount * 2 <= i32::MAX,
            i32::MIN <= self.width + amount * 2 <= i32::MAX,
            i32::MIN <= self.height + amount * 2 <= i32::MAX,
        ensures
            r.x == self.x - amount,
            r.y == self.y - amount,
            r.width == self.width + amount * 2,
            r.height == self.height + amount * 2,
    {
        Rect {
            x: self.x - amount,
            y: self.y - amount,
            width: self.width + amount * 2,
            height: self.height + amount * 2,
        }
    }
}

/// Point structure
#[derive(Debug, Clone, Copy, Default)]
pub struct Point {
    pub x: i32,
    pub y: i32,
}

impl Point {
    pub fn new(x: i32, y: i32) -> (p: Point)
        ensures
            p == (Point { x, y }),
    {
        Point { x, y }
    }
}

/// Size structure
#[derive(Debug, Clone, Copy, Default)]
pub struct Size {
    pub width: i32,
    pub height: i32,
}

impl Size {
    pub fn new(width: i32, height: i32) -> (s: Size)
        ensures
            s == (Size { width, height }),
    {
        Size { width, height }
    }
}

/// The bar's rectangle on a screen `screen_width` by `screen_height`: the
/// full width, `height` tall, at the top or at the bottom of the screen.
pub fn bar_rect(screen_width: i32, screen_height: i32, height: i32, position: BarPosition) -> (r: Rect)
    requires
        position == BarPosition::Bottom ==> i32::MIN <= screen_height - height <= i32::MAX,
    ensures
        r.x == 0,
        r.width == screen_width,
        r.height == height,
        r.y == (if position == BarPosition::Top {
            0
        } else {
            screen_height - height
        }),
{
    let y = match position {
        BarPosition::Top => 0,
        BarPosition::Bottom => screen_height - height,
    };
    Rect { x: 0, y, width: screen_width, height }
}

/// How `len` samples are averaged down to `max_points` values: `None`
/// when they already fit (or no limit is set); else `max_points` chunks of
/// `len / max_points` samples each, in order from the first sample, and
/// the samples left after them (if any), which are folded into the last
/// value.
pub open spec fn downsample_chunks(len: nat, max_points: nat) -> Option<(Seq<(int, int)>, Option<(int, int)>)> {
    if len <= max_points || max_points == 0 {
        None
    } else {
        let chunk = len / max_points;
        Some(
            (
                Seq::new(max_points, |i: int| (i * chunk, (i + 1) * chunk)),
                if max_points * chunk < len {
                    Some(((max_points * chunk) as int, len as int))
                } else {
                    None
                },
            ),
        )
    }
}

/// The chunks of `downsample_values` (see `downsample_chunks`), as index
/// ranges: start included, end excluded.
pub fn downsample_plan(len: usize, max_points: usize) -> (r: Option<(Vec<(usize, usize)>, Option<(usize, usize)>)>)
    ensures
        match r {
            None => downsample_chunks(len as nat, max_points as nat) is None,
            Some((cs, rem)) => downsample_chunks(len as nat, max_points as nat) == Some(
                (
                    cs@.map_values(|c: (usize, usize)| (c.0 as int, c.1 as int)),
                    match rem {
                        Some(p) => Some((p.0 as int, p.1 as int)),
                        None => None,
                    },
                ),
            ),
        },
{
    if len <= max_points || max_points == 0 {
        return None;
    }
    let chunk = len / max_points;
    assert(chunk * max_points <= len) by (nonlinear_arith)
        requires
            chunk == len / max_points,
            max_points > 0,
    ;
    let mut cs: Vec<(usize, usize)> = Vec::new();
    let mut i: usize = 0;
    let mut idx: usize = 0;
    while i < max_points
        invariant
            i <= max_points,
            max_points > 0,
            chunk == len / max_points,
            chunk * max_points <= len,
            idx == i * chunk,
            cs@.len() == i,
            forall|k: int| 0 <= k < i ==> (#[trigger] cs@[k]).0 as int == k * chunk && cs@[k].1 as int == (k + 1) * chunk,
        decreases max_points - i,
    {
        assert((i + 1) * chunk <= chunk * max_points) by (nonlinear_arith)
            requires
                i + 1 <= max_points,
                chunk >= 0,
        ;
        assert((i + 1) * chunk == i * chunk + chunk) by (nonlinear_arith);
        let end = idx + chunk;
        cs.push((idx, end));
        idx = end;
        i += 1;
    }
    let ghost chunks = Seq::new(max_points as nat, |k: int| (k * chunk, (k + 1) * chunk));
    assert(cs@.map_values(|c: (usize, usize)| (c.0 as int, c.1 as int)) =~= chunks);
    assert(idx == max_points * chunk) by (nonlinear_arith)
        requires
            idx == i * chunk,
            i == max_points,
    ;
    let rem = if idx < len {
        Some((idx, len))
    } else {
        None
    };
    Some((cs, rem))
}

} // verus!
