//! Where the modules go on the bar, given the width each one takes: the
//! left-hand ones from the left edge, the centered ones around the middle,
//! the right-hand ones from the right edge, all a fixed spacing apart. A
//! module being dragged is left out of its place (it follows the pointer).

use vstd::prelude::*;
use crate::config::{views, ModulesConfig};
use crate::modules::clipboard::without;
use crate::icons::Icons;
use crate::modules::clock::{format_local, pattern_text, valid_local_time, LocalTime};
use crate::modules::network::opt_view;
use crate::text::{push_str, same_text, string_of, trim, trimmed};
use crate::utils::half;

verus! {

/// The widths of the modules before position `i`, each followed by the
/// spacing.
pub open spec fn span_before(ws: Seq<i32>, spacing: int, i: int) -> int
    decreases i,
{
    if i <= 0 || ws.len() == 0 {
        0
    } else {
        span_before(ws, spacing, i - 1) + ws[i - 1] + spacing
    }
}

/// The room a row of modules takes: their widths with the spacing between
/// them (none for no modules).
pub open spec fn row_width(ws: Seq<i32>, spacing: int) -> int {
    if ws.len() == 0 {
        0
    } else {
        span_before(ws, spacing, ws.len() as int) - spacing
    }
}

/// The widths are not negative, nor the spacing, the padding or the bar's
/// width, and the whole row with the padding fits in `i32`.
pub open spec fn row_fits(ws: Seq<i32>, bar_width: int, padding: int, spacing: int) -> bool {
    &&& forall|i: int| 0 <= i < ws.len() ==> #[trigger] ws[i] >= 0
    &&& spacing >= 0
    &&& padding >= 0
    &&& bar_width >= 0
    &&& bar_width + padding + span_before(ws, spacing, ws.len() as int) <= i32::MAX
}

proof fn lemma_span_nonneg(ws: Seq<i32>, spacing: int, i: int)
    requires
        0 <= i <= ws.len(),
        spacing >= 0,
        forall|k: int| 0 <= k < ws.len() ==> #[trigger] ws[k] >= 0,
    ensures
        0 <= span_before(ws, spacing, i),
    decreases i,
{
    if i > 0 {
        lemma_span_nonneg(ws, spacing, i - 1);
        assert(ws[i - 1] >= 0);
    }
}

proof fn lemma_span_monotone(ws: Seq<i32>, spacing: int, i: int, j: int)
    requires
        0 <= i <= j <= ws.len(),
        spacing >= 0,
        forall|k: int| 0 <= k < ws.len() ==> #[trigger] ws[k] >= 0,
    ensures
        0 <= span_before(ws, spacing, i) <= span_before(ws, spacing, j),
    decreases j - i,
{
    lemma_span_nonneg(ws, spacing, i);
    if i < j {
        lemma_span_monotone(ws, spacing, i, j - 1);
        assert(ws[j - 1] >= 0);
    }
}

/// The left edges of a row that starts at `start`: each module one width
/// and one spacing after the one before.
fn row_from(ws: &Vec<i32>, start: i32, spacing: i32, Ghost(bound): Ghost<int>) -> (xs: Vec<i32>)
    requires
        forall|i: int| 0 <= i < ws@.len() ==> #[trigger] ws@[i] >= 0,
        spacing >= 0,
        i32::MIN <= start,
        start + span_before(ws@, spacing as int, ws@.len() as int) <= bound <= i32::MAX,
    ensures
        xs@.len() == ws@.len(),
        forall|i: int| 0 <= i < xs@.len() ==> #[trigger] xs@[i] == start + span_before(ws@, spacing as int, i),
{
    let mut xs: Vec<i32> = Vec::new();
    let mut x: i32 = start;
    let mut i: usize = 0;
    while i < ws.len()
        invariant
            i <= ws@.len(),
            forall|k: int| 0 <= k < ws@.len() ==> #[trigger] ws@[k] >= 0,
            spacing >= 0,
            start + span_before(ws@, spacing as int, ws@.len() as int) <= bound <= i32::MAX,
            i32::MIN <= start,
            x == start + span_before(ws@, spacing as int, i as int),
            xs@.len() == i,
            forall|k: int| 0 <= k < i ==> #[trigger] xs@[k] == start + span_before(ws@, spacing as int, k),
        decreases ws.len() - i,
    {
        proof {
            lemma_span_monotone(ws@, spacing as int, i + 1, ws@.len() as int);
            lemma_span_monotone(ws@, spacing as int, 0, i as int);
        }
        xs.push(x);
        if i + 1 < ws.len() {
            x = x + ws[i] + spacing;
        } else {
            assert(x + ws[i as int] + spacing <= i32::MAX);
            x = x + ws[i] + spacing;
        }
        i += 1;
    }
    xs
}

/// The left edges of the left-hand modules: the first at the padding, each
/// next one a width and a spacing further right.
pub fn layout_left(widths: &Vec<i32>, padding: i32, spacing: i32) -> (xs: Vec<i32>)
    requires
        row_fits(widths@, 0, padding as int, spacing as int),
    ensures
        xs@.len() == widths@.len(),
        forall|i: int| 0 <= i < xs@.len() ==> #[trigger] xs@[i] == padding + span_before(widths@, spacing as int, i),
{
    row_from(widths, padding, spacing, Ghost(padding + span_before(widths@, spacing as int, widths@.len() as int)))
}

/// The left edges of the right-hand modules, in their order: the last one
/// ends at the padding before the bar's right edge, each one before it a
/// spacing and its width further left.
pub fn layout_right(widths: &Vec<i32>, bar_width: i32, padding: i32, spacing: i32) -> (xs: Vec<i32>)
    requires
        row_fits(widths@, bar_width as int, padding as int, spacing as int),
    ensures
        xs@.len() == widths@.len(),
        forall|i: int|
            0 <= i < xs@.len() ==> #[trigger] xs@[i] == bar_width - padding - row_width(widths@, spacing as int)
                + span_before(widths@, spacing as int, i),
        widths@.len() > 0 ==> xs@[widths@.len() - 1] + widths@[widths@.len() - 1] == bar_width - padding,
{
    let ghost ws = widths@;
    let ghost sp = spacing as int;
    let ghost n = ws.len() as int;
    proof {
        lemma_span_monotone(ws, sp, 0, n);
    }
    let mut total: i32 = 0;
    let mut i: usize = 0;
    while i < widths.len()
        invariant
            i <= ws.len(),
            ws == widths@,
            sp == spacing,
            n == ws.len(),
            row_fits(ws, bar_width as int, padding as int, sp),
            total == span_before(ws, sp, i as int),
        decreases widths.len() - i,
    {
        proof {
            lemma_span_monotone(ws, sp, i + 1, n);
        }
        total = total + widths[i] + spacing;
        i += 1;
    }
    let row: i32 = if widths.len() == 0 {
        0
    } else {
        total - spacing
    };
    proof {
        if n > 0 {
            assert(span_before(ws, sp, n) == span_before(ws, sp, n - 1) + ws[n - 1] + sp);
            lemma_span_monotone(ws, sp, 0, n - 1);
            assert(ws[n - 1] >= 0);
        }
    }
    let start: i32 = bar_width - padding - row;
    proof {
        if n > 0 {
            assert(start + span_before(ws, sp, n) == bar_width - padding + sp);
            lemma_span_monotone(ws, sp, 1, n);
            assert(span_before(ws, sp, 1) == span_before(ws, sp, 0) + ws[0] + sp);
        }
    }
    let xs = row_from(widths, start, spacing, Ghost(start + span_before(ws, sp, n)));
    proof {
        if n > 0 {
            assert(span_before(ws, sp, n) == span_before(ws, sp, n - 1) + ws[n - 1] + sp);
        }
    }
    xs
}

/// The left edge of a centered row: half the room left over, rounded
/// toward zero.
pub open spec fn centered_start(ws: Seq<i32>, bar_width: int, spacing: int) -> int {
    half(bar_width - row_width(ws, spacing))
}

/// The left edges of the centered modules, or none when they take no room
/// at all: the row starts at `centered_start`, each module a width and a
/// spacing after the one before.
pub fn layout_center(widths: &Vec<i32>, bar_width: i32, spacing: i32) -> (xs: Vec<i32>)
    requires
        row_fits(widths@, bar_width as int, 0, spacing as int),
    ensures
        span_before(widths@, spacing as int, widths@.len() as int) == 0 ==> xs@.len() == 0,
        span_before(widths@, spacing as int, widths@.len() as int) > 0 ==> {
            &&& xs@.len() == widths@.len()
            &&& forall|i: int|
                0 <= i < xs@.len() ==> #[trigger] xs@[i] == centered_start(widths@, bar_width as int, spacing as int)
                    + span_before(widths@, spacing as int, i)
        },
{
    let ghost ws = widths@;
    let ghost sp = spacing as int;
    let ghost n = ws.len() as int;
    proof {
        lemma_span_monotone(ws, sp, 0, n);
    }
    let mut total: i32 = 0;
    let mut i: usize = 0;
    while i < widths.len()
        invariant
            i <= ws.len(),
            ws == widths@,
            sp == spacing,
            n == ws.len(),
            row_fits(ws, bar_width as int, 0, sp),
            total == span_before(ws, sp, i as int),
        decreases widths.len() - i,
    {
        proof {
            lemma_span_monotone(ws, sp, i + 1, n);
        }
        total = total + widths[i] + spacing;
        i += 1;
    }
    if total <= 0 {
        return Vec::new();
    }
    proof {
        assert(n > 0);
        assert(span_before(ws, sp, n) == span_before(ws, sp, n - 1) + ws[n - 1] + sp);
        lemma_span_monotone(ws, sp, 0, n - 1);
        assert(ws[n - 1] >= 0);
    }
    let row = total - spacing;
    let start: i32 = (bar_width - row) / 2;
    proof {
        let v = bar_width - row;
        assert(start == half(v));
        if v >= 0 {
            assert(0 <= start <= v);
        } else {
            assert(v <= start <= 0);
        }
        assert(row + sp == span_before(ws, sp, n));
    }
    let xs = row_from(widths, start, spacing, Ghost(start + span_before(ws, sp, n)));
    xs
}

/// A centered row that fits on the bar leaves as much room on its right as
/// on its left, or one pixel more.
pub proof fn lemma_centered(ws: Seq<i32>, bar_width: int, spacing: int)
    requires
        0 <= row_width(ws, spacing) <= bar_width,
    ensures
        ({
            let left = centered_start(ws, bar_width, spacing);
            let right = bar_width - (left + row_width(ws, spacing));
            0 <= right - left <= 1
        }),
{
}

/// Each module of a row starts one width and one spacing after the one
/// before it.
pub proof fn lemma_row_steps(ws: Seq<i32>, spacing: int, i: int)
    requires
        0 <= i < ws.len(),
    ensures
        span_before(ws, spacing, i + 1) == span_before(ws, spacing, i) + ws[i] + spacing,
{
}

/// The centered modules: the center list, with the clock added at its end
/// when it is to be centered and missing from it.
pub open spec fn center_ids(center: Seq<Seq<char>>, clock_center: bool) -> Seq<Seq<char>> {
    if clock_center && !center.contains("clock"@) {
        center.push("clock"@)
    } else {
        center
    }
}

/// The centered modules (see `center_ids`).
pub fn center_list(modules: &ModulesConfig) -> (r: Vec<String>)
    ensures
        views(r@) == center_ids(views(modules.center_modules@), modules.clock.center),
{
    let mut r: Vec<String> = Vec::new();
    let mut has_clock = false;
    let mut i: usize = 0;
    let ghost c = views(modules.center_modules@);
    while i < modules.center_modules.len()
        invariant
            i <= c.len(),
            c == views(modules.center_modules@),
            views(r@) == c.take(i as int),
            has_clock == c.take(i as int).contains("clock"@),
        decreases modules.center_modules.len() - i,
    {
        let id = &modules.center_modules[i];
        assert(c.take(i + 1) == c.take(i as int).push(id@));
        if same_text(id.as_str(), "clock") {
            has_clock = true;
            assert(c.take(i + 1)[i as int] == "clock"@);
        } else {
            proof {
                if has_clock {
                    let j = choose|j: int| 0 <= j < i && c.take(i as int)[j] == "clock"@;
                    assert(c.take(i + 1)[j] == "clock"@);
                } else {
                    assert forall|j: int| 0 <= j < i + 1 implies #[trigger] c.take(i + 1)[j] != "clock"@ by {
                        if j < i {
                            assert(c.take(i + 1)[j] == c.take(i as int)[j]);
                        }
                    }
                }
            }
        }
        r.push(string_of(id.as_str()));
        i += 1;
    }
    assert(c.take(c.len() as int) == c);
    if modules.clock.center && !has_clock {
        r.push(string_of("clock"));
    }
    r
}

/// The modules of a list that are drawn in place: all but the one being
/// dragged.
pub fn drawn_in_place(list: &Vec<String>, dragging: &Option<String>) -> (r: Vec<String>)
    ensures
        views(r@) == match dragging {
            Some(d) => without(views(list@), d@),
            None => views(list@),
        },
{
    let ghost l = views(list@);
    let mut r: Vec<String> = Vec::new();
    let mut i: usize = 0;
    while i < list.len()
        invariant
            i <= list@.len(),
            l == views(list@),
            views(r@) == match dragging {
                Some(d) => without(l.take(i as int), d@),
                None => l.take(i as int),
            },
        decreases list.len() - i,
    {
        assert(l.take(i + 1).drop_last() == l.take(i as int));
        assert(l.take(i + 1).last() == list@[i as int]@);
        let keep = match dragging {
            Some(d) => !same_text(list[i].as_str(), d.as_str()),
            None => true,
        };
        if keep {
            r.push(string_of(list[i].as_str()));
        }
        i += 1;
    }
    assert(l.take(l.len() as int) == l);
    r
}

/// The glyph named `name` in an icon table (`?` when it has none).
pub open spec fn icon_text(icons: Map<Seq<char>, Seq<char>>, name: Seq<char>) -> Seq<char> {
    if icons.contains_key(name) {
        icons[name]
    } else {
        "?"@
    }
}

/// The text, or `d` when there is none.
pub open spec fn text_or(t: Option<Seq<char>>, d: Seq<char>) -> Seq<char> {
    match t {
        Some(x) => x,
        None => d,
    }
}

/// The text, or `d` when there is none or it is blank.
pub open spec fn text_or_blank(t: Option<Seq<char>>, d: Seq<char>) -> Seq<char> {
    match t {
        Some(x) => if trim(x).len() == 0 {
            d
        } else {
            x
        },
        None => d,
    }
}

/// What the bar draws for the module `id`, given the module's text (`None`
/// when no module is registered under the id), the icon table and the
/// current local time: the text, or the module's stand-in.
pub open spec fn drawn_text(id: Seq<char>, text: Option<Seq<char>>, icons: Map<Seq<char>, Seq<char>>, now: LocalTime) -> Seq<char> {
    if id == "clock"@ {
        text_or(text, pattern_text(now, "%I:%M %p"@))
    } else if id == "battery"@ {
        text_or(text, icon_text(icons, "battery"@) + " --"@)
    } else if id == "volume"@ {
        text_or(text, icon_text(icons, "volume_high"@))
    } else if id == "network"@ {
        text_or_blank(text, icon_text(icons, "wifi"@))
    } else if id == "bluetooth"@ {
        text_or_blank(text, icon_text(icons, "bluetooth"@))
    } else if id == "gpu"@ {
        text_or(text, icon_text(icons, "gpu"@))
    } else if id == "system_info"@ {
        text_or(text, "CPU --  RAM --"@)
    } else if id == "media"@ {
        text_or(text, ""@)
    } else if id == "clipboard"@ {
        text_or(text, "📋"@)
    } else if id == "keyboard_layout"@ {
        text_or(text, "EN"@)
    } else if id == "uptime"@ {
        text_or(text, "0d 0h"@)
    } else if id == "night_light"@ {
        text_or(text, "NL"@)
    } else if id == "weather"@ {
        text_or(text, "🌡️ ..."@)
    } else if id == "active_app"@ {
        text_or(text, "TopBar"@)
    } else {
        text_or(text, Seq::empty())
    }
}

/// What the bar draws for the module `id` (see `drawn_text`).
pub fn module_text_or_fallback(id: &str, text: Option<String>, icons: &Icons, now: &LocalTime) -> (r: String)
    requires
        valid_local_time(*now),
    ensures
        r@ == drawn_text(id@, opt_view(text), icons@, *now),
{
    proof {
        reveal_strlit("%I:%M %p");
    }
    if same_text(id, "clock") {
        match text {
            Some(t) => t,
            None => format_local(now, "%I:%M %p"),
        }
    } else if same_text(id, "battery") {
        match text {
            Some(t) => t,
            None => {
                let mut s = icons.get("battery");
                push_str(&mut s, " --");
                s
            },
        }
    } else if same_text(id, "volume") {
        match text {
            Some(t) => t,
            None => icons.get("volume_high"),
        }
    } else if same_text(id, "network") || same_text(id, "bluetooth") {
        let name = if same_text(id, "network") {
            "wifi"
        } else {
            "bluetooth"
        };
        match text {
            Some(t) => {
                let tt = trimmed(t.as_str());
                if tt.unicode_len() == 0 {
                    icons.get(name)
                } else {
                    t
                }
            },
            None => icons.get(name),
        }
    } else if same_text(id, "gpu") {
        match text {
            Some(t) => t,
            None => icons.get("gpu"),
        }
    } else if same_text(id, "system_info") {
        match text {
            Some(t) => t,
            None => string_of("CPU --  RAM --"),
        }
    } else if same_text(id, "media") {
        match text {
            Some(t) => t,
            None => string_of(""),
        }
    } else if same_text(id, "clipboard") {
        match text {
            Some(t) => t,
            None => string_of("📋"),
        }
    } else if same_text(id, "keyboard_layout") {
        match text {
            Some(t) => t,
            None => string_of("EN"),
        }
    } else if same_text(id, "uptime") {
        match text {
            Some(t) => t,
            None => string_of("0d 0h"),
        }
    } else if same_text(id, "night_light") {
        match text {
            Some(t) => t,
            None => string_of("NL"),
        }
    } else if same_text(id, "weather") {
        match text {
            Some(t) => t,
            None => string_of("🌡️ ..."),
        }
    } else if same_text(id, "active_app") {
        match text {
            Some(t) => t,
            None => string_of("TopBar"),
        }
    } else {
        match text {
            Some(t) => t,
            None => String::new(),
        }
    }
}

/// Whether the quick search button is drawn: when search is enabled and the
/// button is not being dragged.
pub fn shows_search_button(search_enabled: bool, dragging: &Option<String>) -> (b: bool)
    ensures
        b == (search_enabled && !(dragging matches Some(d) && d@ == "search"@)),
{
    search_enabled && match dragging {
        Some(d) => !same_text(d.as_str(), "search"),
        None => true,
    }
}

/// The text whose width the system information module is given at least:
/// the widest text for the parts shown.
pub open spec fn system_info_sample(show_cpu: bool, show_memory: bool) -> Seq<char> {
    if show_cpu && show_memory {
        "CPU 100%  RAM 100%"@
    } else if show_cpu {
        "CPU 100%"@
    } else if show_memory {
        "RAM 100%"@
    } else {
        "CPU --  RAM --"@
    }
}

/// The sample text that sizes the system information module.
pub fn system_info_sample_text(show_cpu: bool, show_memory: bool) -> (r: &'static str)
    ensures
        r@ == system_info_sample(show_cpu, show_memory),
{
    if show_cpu && show_memory {
        "CPU 100%  RAM 100%"
    } else if show_cpu {
        "CPU 100%"
    } else if show_memory {
        "RAM 100%"
    } else {
        "CPU --  RAM --"
    }
}

} // verus!
