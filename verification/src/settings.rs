//! Editing the module layout from the settings menu: turning a module on or
//! off, and where a module that is turned on goes among those shown.

use vstd::prelude::*;
use crate::config::{views, ModulesConfig};
use crate::modules::clipboard::without;
use crate::text::{same_text, string_of};

verus! {

/// The order in which right-hand modules are laid out by default.
pub open spec fn default_right_module_order() -> Seq<Seq<char>> {
    seq![
        "weather"@,
        "media"@,
        "clipboard"@,
        "keyboard_layout"@,
        "gpu"@,
        "system_info"@,
        "disk"@,
        "network"@,
        "bluetooth"@,
        "night_light"@,
        "volume"@,
        "battery"@,
        "uptime"@,
        "clock"@,
    ]
}

/// The first position of `x` in `s` at or after `i`.
pub open spec fn position_from(s: Seq<Seq<char>>, x: Seq<char>, i: int) -> Option<int>
    decreases s.len() - i,
{
    if i < 0 || i >= s.len() {
        None
    } else if s[i] == x {
        Some(i)
    } else {
        position_from(s, x, i + 1)
    }
}

/// The place of a module in the default order, if it has one.
pub open spec fn order_index(id: Seq<char>) -> Option<int> {
    position_from(default_right_module_order(), id, 0)
}

/// Whether module `m` comes after place `t` of the default order.
pub open spec fn comes_after(m: Seq<char>, t: int) -> bool {
    match order_index(m) {
        Some(e) => e > t,
        None => false,
    }
}

/// The first position at or after `i` whose module comes after place `t`.
pub open spec fn first_after(existing: Seq<Seq<char>>, t: int, i: int) -> Option<int>
    decreases existing.len() - i,
{
    if i < 0 || i >= existing.len() {
        None
    } else if comes_after(existing[i], t) {
        Some(i)
    } else {
        first_after(existing, t, i + 1)
    }
}

/// Where a module goes among `existing`: before the first module that
/// comes after it in the default order; at the end when none does or when
/// it has no place in that order.
pub open spec fn insert_position(existing: Seq<Seq<char>>, id: Seq<char>) -> int {
    match order_index(id) {
        Some(t) => match first_after(existing, t, 0) {
            Some(i) => i,
            None => existing.len() as int,
        },
        None => existing.len() as int,
    }
}

proof fn lemma_position_from(s: Seq<Seq<char>>, x: Seq<char>, i: int)
    requires
        0 <= i,
    ensures
        position_from(s, x, i) matches Some(k) ==> i <= k < s.len() && s[k] == x && forall|j: int|
            i <= j < k ==> s[j] != x,
        position_from(s, x, i) is None ==> forall|j: int| i <= j < s.len() ==> s[j] != x,
    decreases s.len() - i,
{
    if i < s.len() && s[i] != x {
        lemma_position_from(s, x, i + 1);
    }
}

proof fn lemma_first_after(existing: Seq<Seq<char>>, t: int, i: int)
    requires
        0 <= i,
    ensures
        first_after(existing, t, i) matches Some(k) ==> i <= k < existing.len(),
    decreases existing.len() - i,
{
    if i < existing.len() && !comes_after(existing[i], t) {
        lemma_first_after(existing, t, i + 1);
    }
}

/// The place of `id` in the default order.
fn order_index_exec(id: &str) -> (r: Option<usize>)
    ensures
        r matches Some(k) ==> order_index(id@) == Some(k as int),
        r is None ==> order_index(id@) is None,
{
    let order: [&str; 14] = [
        "weather",
        "media",
        "clipboard",
        "keyboard_layout",
        "gpu",
        "system_info",
        "disk",
        "network",
        "bluetooth",
        "night_light",
        "volume",
        "battery",
        "uptime",
        "clock",
    ];
    assert(order@.map_values(|s: &str| s@) == default_right_module_order());
    let mut i: usize = 0;
    while i < 14
        invariant
            i <= 14,
            order@.map_values(|s: &str| s@) == default_right_module_order(),
            position_from(default_right_module_order(), id@, 0) == position_from(
                default_right_module_order(),
                id@,
                i as int,
            ),
        decreases 14 - i,
    {
        assert(order@.map_values(|s: &str| s@)[i as int] == order@[i as int]@);
        if same_text(order[i], id) {
            return Some(i);
        }
        i += 1;
    }
    None
}

/// Find the appropriate insert position for a module based on default order
pub fn find_module_insert_position(existing_modules: &Vec<String>, module_id: &str) -> (r: usize)
    ensures
        r == insert_position(views(existing_modules@), module_id@),
        r <= existing_modules@.len(),
{
    let ghost ex = views(existing_modules@);
    match order_index_exec(module_id) {
        None => existing_modules.len(),
        Some(t) => {
            let mut i: usize = 0;
            while i < existing_modules.len()
                invariant
                    i <= existing_modules@.len(),
                    ex == views(existing_modules@),
                    order_index(module_id@) == Some(t as int),
                    first_after(ex, t as int, 0) == first_after(ex, t as int, i as int),
                decreases existing_modules.len() - i,
            {
                let after = match order_index_exec(existing_modules[i].as_str()) {
                    Some(e) => e > t,
                    None => false,
                };
                assert(ex[i as int] == existing_modules@[i as int]@);
                if after {
                    return i;
                }
                i += 1;
            }
            existing_modules.len()
        },
    }
}

/// The layout after turning module `id` on or off: a centered clock is
/// taken out of the center (and no longer centered); a shown right-hand
/// module is taken out (its first occurrence); any other is put in at its
/// place (see `insert_position`).
pub open spec fn toggled(right: Seq<Seq<char>>, center: Seq<Seq<char>>, clock_center: bool, id: Seq<char>) -> (
    Seq<Seq<char>>,
    Seq<Seq<char>>,
    bool,
) {
    if id == "clock"@ && center.contains("clock"@) {
        (right, without(center, "clock"@), false)
    } else {
        match position_from(right, id, 0) {
            Some(k) => (right.remove(k), center, clock_center),
            None => (right.insert(insert_position(right, id), id), center, clock_center),
        }
    }
}

/// Turn module `module_id` on or off in the layout (see `toggled`).
pub fn toggle_module(modules: &mut ModulesConfig, module_id: &str)
    ensures
        (views(final(modules).right_modules@), views(final(modules).center_modules@), final(modules).clock.center)
            == toggled(
            views(old(modules).right_modules@),
            views(old(modules).center_modules@),
            old(modules).clock.center,
            module_id@,
        ),
{
    let ghost center0 = views(modules.center_modules@);
    let ghost right0 = views(modules.right_modules@);
    let is_clock = same_text(module_id, "clock");
    let mut centered = false;
    let mut k: usize = 0;
    while k < modules.center_modules.len()
        invariant
            k <= modules.center_modules@.len(),
            center0 == views(modules.center_modules@),
            centered == (exists|j: int| 0 <= j < k && center0[j] == "clock"@),
        decreases modules.center_modules.len() - k,
    {
        if same_text(modules.center_modules[k].as_str(), "clock") {
            assert(center0[k as int] == modules.center_modules@[k as int]@);
            centered = true;
        } else {
            assert(center0[k as int] != "clock"@);
        }
        k += 1;
    }
    assert(centered == center0.contains("clock"@));
    if is_clock && centered {
        let mut kept: Vec<String> = Vec::new();
        let mut i: usize = 0;
        while i < modules.center_modules.len()
            invariant
                i <= modules.center_modules@.len(),
                center0 == views(modules.center_modules@),
                views(kept@) == without(center0.take(i as int), "clock"@),
            decreases modules.center_modules.len() - i,
        {
            assert(center0.take(i + 1).drop_last() == center0.take(i as int));
            assert(center0.take(i + 1).last() == modules.center_modules@[i as int]@);
            if !same_text(modules.center_modules[i].as_str(), "clock") {
                kept.push(modules.center_modules[i].clone());
                assert(views(kept@) == without(center0.take(i as int), "clock"@).push(
                    modules.center_modules@[i as int]@,
                ));
            }
            i += 1;
        }
        assert(center0.take(center0.len() as int) == center0);
        modules.center_modules = kept;
        modules.clock.center = false;
        return;
    }
    proof {
        lemma_position_from(right0, module_id@, 0);
    }
    let mut pos: usize = 0;
    let mut found = false;
    while pos < modules.right_modules.len() && !found
        invariant
            pos <= modules.right_modules@.len(),
            right0 == views(modules.right_modules@),
            found ==> pos < right0.len() && right0[pos as int] == module_id@,
            position_from(right0, module_id@, 0) == position_from(right0, module_id@, pos as int),
        decreases modules.right_modules.len() - pos + (if found { 0int } else { 1int }),
    {
        assert(right0[pos as int] == modules.right_modules@[pos as int]@);
        if same_text(modules.right_modules[pos].as_str(), module_id) {
            found = true;
        } else {
            pos += 1;
        }
    }
    if found {
        modules.right_modules.remove(pos);
        assert(views(modules.right_modules@) == right0.remove(pos as int));
    } else {
        let at = find_module_insert_position(&modules.right_modules, module_id);
        modules.right_modules.insert(at, string_of(module_id));
        assert(views(modules.right_modules@) == right0.insert(at as int, module_id@));
    }
}

/// Turning a right-hand module on that was off, and then off again, gives
/// back the layout it started from.
pub proof fn lemma_toggle_twice(right: Seq<Seq<char>>, center: Seq<Seq<char>>, clock_center: bool, id: Seq<char>)
    requires
        !right.contains(id),
        !(id == "clock"@ && center.contains("clock"@)),
    ensures
        ({
            let once = toggled(right, center, clock_center, id);
            toggled(once.0, once.1, once.2, id) == (right, center, clock_center)
        }),
{
    lemma_position_from(right, id, 0);
    let p = insert_position(right, id);
    assert(0 <= p <= right.len()) by {
        match order_index(id) {
            Some(t) => {
                lemma_first_after(right, t, 0);
            },
            None => {},
        }
    }
    if position_from(right, id, 0) is Some {
        let k = position_from(right, id, 0)->0;
        assert(right.contains(id)) by {
            assert(right[k] == id);
        }
    }
    let r1 = right.insert(p, id);
    lemma_position_from(r1, id, 0);
    assert(position_from(r1, id, 0) == Some(p)) by {
        assert(r1[p] == id);
        if position_from(r1, id, 0) is Some {
            let k = position_from(r1, id, 0)->0;
            if k < p {
                assert(r1[k] == right[k]);
            }
        } else {
            assert(r1[p] != id);
        }
    }
    assert(r1.remove(p) == right);
}

/// Turning off a right-hand module that is shown takes out exactly its
/// first occurrence.
pub proof fn lemma_toggle_off_removes(right: Seq<Seq<char>>, center: Seq<Seq<char>>, clock_center: bool, id: Seq<char>)
    requires
        right.contains(id),
        !(id == "clock"@ && center.contains("clock"@)),
    ensures
        ({
            let once = toggled(right, center, clock_center, id);
            &&& once.0.len() == right.len() - 1
            &&& once.1 == center
            &&& once.2 == clock_center
        }),
{
    lemma_position_from(right, id, 0);
    let k = choose|k: int| 0 <= k < right.len() && right[k] == id;
    if position_from(right, id, 0) is None {
        assert(right[k] != id);
    }
}

/// The layout after the "Center Clock" choice: a centered clock goes back
/// to the right-hand side (at its place, unless it is there already) and
/// is no longer centered; otherwise the clock is appended to the center,
/// taken out of the right-hand side, and centered.
pub open spec fn center_toggled(right: Seq<Seq<char>>, center: Seq<Seq<char>>) -> (
    Seq<Seq<char>>,
    Seq<Seq<char>>,
    bool,
) {
    if center.contains("clock"@) {
        let r = if right.contains("clock"@) {
            right
        } else {
            right.insert(insert_position(right, "clock"@), "clock"@)
        };
        (r, without(center, "clock"@), false)
    } else {
        (without(right, "clock"@), center.push("clock"@), true)
    }
}

proof fn lemma_without(s: Seq<Seq<char>>, x: Seq<char>)
    ensures
        forall|y: Seq<char>| #[trigger] without(s, x).contains(y) <==> (s.contains(y) && y != x),
    decreases s.len(),
{
    if s.len() > 0 {
        let d = s.drop_last();
        lemma_without(d, x);
        let w = without(d, x);
        assert forall|y: Seq<char>| #[trigger] without(s, x).contains(y) <==> (s.contains(y) && y != x) by {
            if s.contains(y) && y != x {
                let j = choose|j: int| 0 <= j < s.len() && s[j] == y;
                if j < s.len() - 1 {
                    assert(d[j] == y);
                    assert(d.contains(y));
                    assert(w.contains(y));
                    let k = choose|k: int| 0 <= k < w.len() && w[k] == y;
                    if s.last() != x {
                        assert(w.push(s.last())[k] == y);
                    }
                } else {
                    assert(s.last() == y);
                    assert(w.push(s.last())[w.len() as int] == y);
                }
            }
            if without(s, x).contains(y) {
                let j = choose|j: int| 0 <= j < without(s, x).len() && without(s, x)[j] == y;
                if s.last() != x && j == w.len() {
                    assert(s[s.len() - 1] == y);
                } else {
                    assert(w[j] == y);
                    assert(w.contains(y));
                    assert(d.contains(y));
                    let k = choose|k: int| 0 <= k < d.len() && d[k] == y;
                    assert(s[k] == y);
                }
            }
        }
    }
}

/// After the "Center Clock" choice the clock is shown in exactly one place:
/// in the center when it is now centered, else on the right-hand side.
pub proof fn lemma_clock_shown_once(right: Seq<Seq<char>>, center: Seq<Seq<char>>)
    ensures
        ({
            let (r, c, centered) = center_toggled(right, center);
            &&& centered ==> c.contains("clock"@) && !r.contains("clock"@)
            &&& !centered ==> !c.contains("clock"@) && r.contains("clock"@)
        }),
{
    lemma_without(right, "clock"@);
    lemma_without(center, "clock"@);
    if center.contains("clock"@) {
        if !right.contains("clock"@) {
            let p = insert_position(right, "clock"@);
            assert(0 <= p <= right.len()) by {
                match order_index("clock"@) {
                    Some(t) => {
                        lemma_first_after(right, t, 0);
                    },
                    None => {},
                }
            }
            assert(right.insert(p, "clock"@)[p] == "clock"@);
        }
    } else {
        assert(center.push("clock"@)[center.len() as int] == "clock"@);
    }
}

/// `list` without any occurrence of `id`.
fn without_id(list: &Vec<String>, id: &str) -> (r: Vec<String>)
    ensures
        views(r@) == without(views(list@), id@),
{
    let ghost l = views(list@);
    let mut kept: Vec<String> = Vec::new();
    let mut i: usize = 0;
    while i < list.len()
        invariant
            i <= list@.len(),
            l == views(list@),
            views(kept@) == without(l.take(i as int), id@),
        decreases list.len() - i,
    {
        assert(l.take(i + 1).drop_last() == l.take(i as int));
        assert(l.take(i + 1).last() == list@[i as int]@);
        if !same_text(list[i].as_str(), id) {
            kept.push(string_of(list[i].as_str()));
            assert(views(kept@) == without(l.take(i as int), id@).push(list@[i as int]@));
        }
        i += 1;
    }
    assert(l.take(l.len() as int) == l);
    kept
}

/// Whether `list` holds `id`.
fn holds_id(list: &Vec<String>, id: &str) -> (b: bool)
    ensures
        b == views(list@).contains(id@),
{
    let ghost l = views(list@);
    let mut i: usize = 0;
    while i < list.len()
        invariant
            i <= list@.len(),
            l == views(list@),
            forall|j: int| 0 <= j < i ==> l[j] != id@,
        decreases list.len() - i,
    {
        if same_text(list[i].as_str(), id) {
            assert(l[i as int] == id@);
            return true;
        }
        i += 1;
    }
    false
}

/// The "Center Clock" choice (see `center_toggled`).
pub fn toggle_center_clock(modules: &mut ModulesConfig)
    ensures
        (views(final(modules).right_modules@), views(final(modules).center_modules@), final(modules).clock.center)
            == center_toggled(views(old(modules).right_modules@), views(old(modules).center_modules@)),
{
    if holds_id(&modules.center_modules, "clock") {
        let kept = without_id(&modules.center_modules, "clock");
        modules.center_modules = kept;
        modules.clock.center = false;
        if !holds_id(&modules.right_modules, "clock") {
            let at = find_module_insert_position(&modules.right_modules, "clock");
            let ghost r0 = views(modules.right_modules@);
            modules.right_modules.insert(at, string_of("clock"));
            assert(views(modules.right_modules@) == r0.insert(at as int, "clock"@));
        }
    } else {
        let ghost c0 = views(modules.center_modules@);
        modules.center_modules.push(string_of("clock"));
        assert(views(modules.center_modules@) == c0.push("clock"@));
        let kept = without_id(&modules.right_modules, "clock");
        modules.right_modules = kept;
        modules.clock.center = true;
    }
}

} // verus!
