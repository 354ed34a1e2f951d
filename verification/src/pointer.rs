//! Pointer interaction with the bar: hovering, clicking a module, and
//! dragging a module along its side of the bar to reorder that side.

use vstd::prelude::*;
use crate::config::{views, ModulesConfig};
use crate::modules::{key_pos, pos_from};
use crate::text::{same_text, string_of};
use crate::utils::{half, Rect};

verus! {

/// How far (in pixels) the pointer must move sideways with the button down
/// before a press becomes a drag.
pub const DRAG_THRESHOLD: i32 = 6;

/// A side of the bar whose modules can be reordered by dragging.
#[derive(Debug, Clone, Copy, PartialEq, Eq, Structural)]
pub enum Side {
    Left,
    Right,
}

/// Where a module was drawn.
pub struct ModuleBounds {
    pub id: String,
    pub rect: Rect,
}

/// The rectangle's right and bottom edges fit in `i32`.
pub open spec fn rect_fits(r: Rect) -> bool {
    &&& i32::MIN <= r.x + r.width <= i32::MAX
    &&& i32::MIN <= r.y + r.height <= i32::MAX
}

/// The point lies in the rectangle (left and top edges included).
pub open spec fn rect_has(r: Rect, x: int, y: int) -> bool {
    r.x <= x < r.x + r.width && r.y <= y < r.y + r.height
}

/// An optional string as plain values.
pub open spec fn opt_view(o: Option<String>) -> Option<Seq<char>> {
    match o {
        Some(s) => Some(s@),
        None => None,
    }
}

/// The id of the first drawn module from position `i` on whose rectangle
/// holds the point.
pub open spec fn hit_from(bs: Seq<ModuleBounds>, x: int, y: int, i: int) -> Option<Seq<char>>
    decreases bs.len() - i,
{
    if i < 0 || i >= bs.len() {
        None
    } else if rect_has(bs[i].rect, x, y) {
        Some(bs[i].id@)
    } else {
        hit_from(bs, x, y, i + 1)
    }
}

/// The module under the point: the first drawn module whose rectangle holds
/// it (`None` over no module).
pub fn hit_test(bounds: &Vec<ModuleBounds>, x: i32, y: i32) -> (r: Option<String>)
    requires
        forall|i: int| 0 <= i < bounds@.len() ==> rect_fits(#[trigger] bounds@[i].rect),
    ensures
        opt_view(r) == hit_from(bounds@, x as int, y as int, 0),
{
    let mut i: usize = 0;
    while i < bounds.len()
        invariant
            i <= bounds@.len(),
            forall|k: int| 0 <= k < bounds@.len() ==> rect_fits(#[trigger] bounds@[k].rect),
            hit_from(bounds@, x as int, y as int, 0) == hit_from(bounds@, x as int, y as int, i as int),
        decreases bounds.len() - i,
    {
        if bounds[i].rect.contains(x, y) {
            return Some(string_of(bounds[i].id.as_str()));
        }
        i += 1;
    }
    None
}

/// The first position from `i` on of a drawn module with id `id`
/// (`bs.len()` if none).
pub open spec fn bound_from(bs: Seq<ModuleBounds>, id: Seq<char>, i: int) -> int
    decreases bs.len() - i,
{
    if i < 0 || i >= bs.len() {
        bs.len() as int
    } else if bs[i].id@ == id {
        i
    } else {
        bound_from(bs, id, i + 1)
    }
}

/// The horizontal middle of a rectangle (its left edge plus half its width,
/// rounded toward zero).
pub open spec fn mid_x(r: Rect) -> i64 {
    (r.x + half(r.width as int)) as i64
}

/// The middles of the modules of `order` that were drawn, left to right.
pub open spec fn drawn_mids(order: Seq<Seq<char>>, bs: Seq<ModuleBounds>) -> Seq<i64>
    decreases order.len(),
{
    if order.len() == 0 {
        Seq::empty()
    } else {
        let rest = drawn_mids(order.drop_last(), bs);
        let k = bound_from(bs, order.last(), 0);
        if k < bs.len() {
            rest.push(mid_x(bs[k].rect))
        } else {
            rest
        }
    }
}

/// Where a drop at `x` lands among the drawn modules: before the first one
/// whose middle is right of `x`, else after the last.
pub open spec fn drop_slot(mids: Seq<i64>, x: i64, i: int) -> int
    decreases mids.len() - i,
{
    if i < 0 || i >= mids.len() {
        mids.len() as int
    } else if x < mids[i] {
        i
    } else {
        drop_slot(mids, x, i + 1)
    }
}

/// `list` with `id` moved: its first occurrence is taken out and put back
/// at slot `at` of the original list (one less past its old place). A
/// list without `id` stays as it is.
pub open spec fn moved_to(list: Seq<Seq<char>>, id: Seq<char>, at: int) -> Seq<Seq<char>> {
    let p = key_pos(list, id);
    if p >= list.len() {
        list
    } else {
        list.remove(p).insert(
            if at > p {
                at - 1
            } else {
                at
            },
            id,
        )
    }
}

proof fn lemma_bound_from(bs: Seq<ModuleBounds>, id: Seq<char>, i: int)
    requires
        0 <= i <= bs.len(),
    ensures
        i <= bound_from(bs, id, i) <= bs.len(),
        bound_from(bs, id, i) < bs.len() ==> bs[bound_from(bs, id, i)].id@ == id,
    decreases bs.len() - i,
{
    if i < bs.len() && bs[i].id@ != id {
        lemma_bound_from(bs, id, i + 1);
    }
}

proof fn lemma_drawn_mids_len(order: Seq<Seq<char>>, bs: Seq<ModuleBounds>)
    ensures
        drawn_mids(order, bs).len() <= order.len(),
    decreases order.len(),
{
    if order.len() > 0 {
        lemma_drawn_mids_len(order.drop_last(), bs);
    }
}

proof fn lemma_drop_slot(mids: Seq<i64>, x: i64, i: int)
    requires
        0 <= i <= mids.len(),
    ensures
        i <= drop_slot(mids, x, i) <= mids.len(),
    decreases mids.len() - i,
{
    if i < mids.len() && !(x < mids[i]) {
        lemma_drop_slot(mids, x, i + 1);
    }
}

proof fn lemma_pos_bounds(list: Seq<Seq<char>>, id: Seq<char>, i: int)
    requires
        0 <= i <= list.len(),
    ensures
        i <= pos_from(list, id, i) <= list.len(),
        pos_from(list, id, i) < list.len() ==> list[pos_from(list, id, i)] == id,
    decreases list.len() - i,
{
    if i < list.len() && list[i] != id {
        lemma_pos_bounds(list, id, i + 1);
    }
}

/// Moving a module reorders its side and nothing more: the side keeps the
/// same ids (as a multiset) and the same length, the moved id lands where
/// the drop put it, and the other ids keep their order.
pub proof fn lemma_move_is_reorder(list: Seq<Seq<char>>, id: Seq<char>, at: int)
    requires
        0 <= at <= list.len(),
    ensures
        moved_to(list, id, at).to_multiset() == list.to_multiset(),
        moved_to(list, id, at).len() == list.len(),
        list.contains(id) ==> ({
            let p = key_pos(list, id);
            let f = if at > p {
                at - 1
            } else {
                at
            };
            &&& moved_to(list, id, at)[f] == id
            &&& moved_to(list, id, at).remove(f) == list.remove(p)
        }),
{
    broadcast use vstd::seq_lib::to_multiset_remove, vstd::seq_lib::to_multiset_insert;
    broadcast use vstd::multiset::group_multiset_axioms;

    let p = key_pos(list, id);
    lemma_pos_bounds(list, id, 0);
    if p < list.len() {
        let rest = list.remove(p);
        let f = if at > p {
            at - 1
        } else {
            at
        };
        let m = rest.insert(f, id);
        assert(m.to_multiset() == rest.to_multiset().insert(id));
        assert(rest.to_multiset() == list.to_multiset().remove(id));
        assert(list.to_multiset().count(id) > 0) by {
            assert(list[p] == id);
            vstd::seq_lib::to_multiset_contains(list, id);
        }
        assert(m.to_multiset() =~= list.to_multiset());
        assert(m.remove(f) =~= rest);
    } else {
        if list.contains(id) {
            let j = choose|j: int| 0 <= j < list.len() && list[j] == id;
            lemma_first_is_before(list, id, j);
        }
    }
}

proof fn lemma_first_is_before(list: Seq<Seq<char>>, id: Seq<char>, j: int)
    requires
        0 <= j < list.len(),
        list[j] == id,
    ensures
        key_pos(list, id) <= j,
{
    lemma_pos_up_to(list, id, 0, j);
}

proof fn lemma_pos_up_to(list: Seq<Seq<char>>, id: Seq<char>, i: int, j: int)
    requires
        0 <= i <= j < list.len(),
        list[j] == id,
    ensures
        pos_from(list, id, i) <= j,
    decreases j - i,
{
    if i < j && list[i] != id {
        lemma_pos_up_to(list, id, i + 1, j);
    }
}

/// The first position of `id` in `list`, if any.
fn find_id(list: &Vec<String>, id: &str) -> (r: Option<usize>)
    ensures
        match r {
            Some(p) => p as int == key_pos(views(list@), id@) && p < list@.len(),
            None => key_pos(views(list@), id@) >= list@.len(),
        },
{
    let ghost ids = views(list@);
    let mut i: usize = 0;
    while i < list.len()
        invariant
            i <= list@.len(),
            ids == views(list@),
            key_pos(ids, id@) == pos_from(ids, id@, i as int),
        decreases list.len() - i,
    {
        if same_text(list[i].as_str(), id) {
            return Some(i);
        }
        i += 1;
    }
    None
}

/// A copy of a list of strings.
fn copy_strings(list: &Vec<String>) -> (r: Vec<String>)
    ensures
        views(r@) == views(list@),
{
    let mut r: Vec<String> = Vec::new();
    let mut i: usize = 0;
    while i < list.len()
        invariant
            i <= list@.len(),
            views(r@) == views(list@).take(i as int),
        decreases list.len() - i,
    {
        r.push(string_of(list[i].as_str()));
        assert(views(list@).take(i + 1) == views(list@).take(i as int).push(list@[i as int]@));
        i += 1;
    }
    assert(views(list@).take(list@.len() as int) == views(list@));
    r
}

/// `list` with `id` moved to slot `at` (see `moved_to`).
pub fn move_module(list: &Vec<String>, id: &str, at: usize) -> (r: Vec<String>)
    requires
        at <= list@.len(),
    ensures
        views(r@) == moved_to(views(list@), id@, at as int),
{
    let mut r = copy_strings(list);
    match find_id(list, id) {
        Some(p) => {
            let ghost before = r@;
            let _taken = r.remove(p);
            assert(views(r@) == views(before).remove(p as int));
            let f = if at > p {
                at - 1
            } else {
                at
            };
            let ghost mid = r@;
            r.insert(f, string_of(id));
            assert(views(r@) == views(mid).insert(f as int, id@));
        },
        None => {},
    }
    r
}

/// The middles of the drawn modules of `order` (see `drawn_mids`).
fn drawn_mids_exec(order: &Vec<String>, bounds: &Vec<ModuleBounds>) -> (r: Vec<i64>)
    ensures
        r@ == drawn_mids(views(order@), bounds@),
{
    let mut r: Vec<i64> = Vec::new();
    let mut i: usize = 0;
    while i < order.len()
        invariant
            i <= order@.len(),
            r@ == drawn_mids(views(order@).take(i as int), bounds@),
        decreases order.len() - i,
    {
        let ghost o = views(order@);
        assert(o.take(i + 1).drop_last() == o.take(i as int));
        assert(o.take(i + 1).last() == order@[i as int]@);
        let ghost id = order@[i as int]@;
        let mut k: usize = 0;
        while k < bounds.len() && !same_text(bounds[k].id.as_str(), order[i].as_str())
            invariant
                k <= bounds@.len(),
                i < order@.len(),
                id == order@[i as int]@,
                bound_from(bounds@, id, 0) == bound_from(bounds@, id, k as int),
            decreases bounds.len() - k,
        {
            k += 1;
        }
        assert(bound_from(bounds@, id, k as int) == k);
        if k < bounds.len() {
            let rect = bounds[k].rect;
            let m: i64 = rect.x as i64 + (rect.width / 2) as i64;
            r.push(m);
        }
        i += 1;
    }
    assert(views(order@).take(order@.len() as int) == views(order@));
    r
}

/// Where a drop at `x` lands among `mids` (see `drop_slot`).
fn drop_slot_exec(mids: &Vec<i64>, x: i64) -> (r: usize)
    ensures
        r as int == drop_slot(mids@, x, 0),
{
    let mut i: usize = 0;
    while i < mids.len()
        invariant
            i <= mids@.len(),
            drop_slot(mids@, x, 0) == drop_slot(mids@, x, i as int),
        decreases mids.len() - i,
    {
        if x < mids[i] {
            return i;
        }
        i += 1;
    }
    i
}

/// A drag that starts on a module of the left side reorders the left
/// side: the press finds the module on the left, the release hands back
/// the left side, and the new order holds the same modules as before.
pub proof fn lemma_drag_from_left_reorders_left(left: Seq<Seq<char>>, right: Seq<Seq<char>>, id: Seq<char>, at: int)
    requires
        left.contains(id),
        0 <= at <= left.len(),
    ensures
        origin_of(left, right, id) matches Some((s, i)) && s == Side::Left && 0 <= i < left.len() && left[i] == id,
        ({
            let (side, list, _) = drag_lists(Some(Side::Left), left, right);
            &&& side == Side::Left
            &&& moved_to(list, id, at).to_multiset() == left.to_multiset()
            &&& moved_to(list, id, at).len() == left.len()
        }),
{
    lemma_pos_bounds(left, id, 0);
    let k = choose|k: int| 0 <= k < left.len() && left[k] == id;
    lemma_pos_not_before(left, id, 0, k);
    lemma_move_is_reorder(left, id, at);
}

/// A drag that starts on a module of the right side (and not the left)
/// reorders the right side, keeping its modules.
pub proof fn lemma_drag_from_right_reorders_right(left: Seq<Seq<char>>, right: Seq<Seq<char>>, id: Seq<char>, at: int)
    requires
        !left.contains(id),
        right.contains(id),
        0 <= at <= right.len(),
    ensures
        origin_of(left, right, id) matches Some((s, i)) && s == Side::Right && 0 <= i < right.len() && right[i] == id,
        ({
            let (side, list, _) = drag_lists(Some(Side::Right), left, right);
            &&& side == Side::Right
            &&& moved_to(list, id, at).to_multiset() == right.to_multiset()
            &&& moved_to(list, id, at).len() == right.len()
        }),
{
    lemma_pos_bounds(left, id, 0);
    lemma_pos_bounds(right, id, 0);
    let k = choose|k: int| 0 <= k < right.len() && right[k] == id;
    lemma_pos_not_before(right, id, 0, k);
    lemma_move_is_reorder(right, id, at);
}

/// The search from `i` stops at or before an occurrence at `k`.
proof fn lemma_pos_not_before(list: Seq<Seq<char>>, id: Seq<char>, i: int, k: int)
    requires
        0 <= i <= k < list.len(),
        list[k] == id,
    ensures
        pos_from(list, id, i) <= k,
    decreases k - i,
{
    if list[i] != id {
        lemma_pos_not_before(list, id, i + 1, k);
    }
}

/// What releasing the button ends.
#[derive(Debug)]
pub enum Release {
    /// Nothing was pressed on a module
    Nothing,
    /// A press without a drag: the module was clicked
    Click(String),
    /// A drag ended: the new order of this side, to be saved and then used
    Reorder(Side, Vec<String>),
}

/// The pointer state of the bar.
pub struct PointerState {
    is_hovered: bool,
    hover_module: Option<String>,
    clicked_module: Option<String>,
    clicked_pos: Option<(i32, i32)>,
    dragging_module: Option<String>,
    drag_start_x: i32,
    drag_current_x: i32,
    drag_origin_side: Option<Side>,
    drag_orig_index: Option<usize>,
    needs_redraw: bool,
}

/// The pointer state as plain values.
pub struct PointerView {
    pub is_hovered: bool,
    pub hover: Option<Seq<char>>,
    pub clicked: Option<Seq<char>>,
    pub clicked_pos: Option<(i32, i32)>,
    pub dragging: Option<Seq<char>>,
    pub drag_start_x: i32,
    pub drag_current_x: i32,
    pub origin_side: Option<Side>,
    pub origin_index: Option<usize>,
    pub needs_redraw: bool,
}

impl View for PointerState {
    type V = PointerView;

    closed spec fn view(&self) -> PointerView {
        PointerView {
            is_hovered: self.is_hovered,
            hover: opt_view(self.hover_module),
            clicked: opt_view(self.clicked_module),
            clicked_pos: self.clicked_pos,
            dragging: opt_view(self.dragging_module),
            drag_start_x: self.drag_start_x,
            drag_current_x: self.drag_current_x,
            origin_side: self.drag_origin_side,
            origin_index: self.drag_orig_index,
            needs_redraw: self.needs_redraw,
        }
    }
}

/// The state after the pointer moved to `x` over `hit`: the bar is
/// hovered; a press that moved farther than `DRAG_THRESHOLD` sideways
/// from where it started becomes a drag of the pressed module; a drag
/// follows the pointer; and when no drag runs the hovered module is the
/// one under the pointer.
pub open spec fn after_move(v: PointerView, x: i32, hit: Option<Seq<char>>) -> PointerView {
    let v1 = if !v.is_hovered {
        PointerView { is_hovered: true, needs_redraw: true, ..v }
    } else {
        v
    };
    let v2 = if v1.dragging is None {
        match (v1.clicked, v1.clicked_pos) {
            (Some(id), Some(pos)) => if x - pos.0 > DRAG_THRESHOLD || pos.0 - x > DRAG_THRESHOLD {
                PointerView {
                    dragging: Some(id),
                    drag_start_x: pos.0,
                    drag_current_x: x,
                    hover: None,
                    needs_redraw: true,
                    ..v1
                }
            } else {
                v1
            },
            _ => v1,
        }
    } else {
        PointerView { drag_current_x: x, needs_redraw: true, ..v1 }
    };
    if v2.dragging is None && hit != v2.hover {
        PointerView { hover: hit, needs_redraw: true, ..v2 }
    } else {
        v2
    }
}

/// Where `id` sits on the bar's sides: the left side first, then the
/// right.
pub open spec fn origin_of(left: Seq<Seq<char>>, right: Seq<Seq<char>>, id: Seq<char>) -> Option<(Side, int)> {
    if key_pos(left, id) < left.len() {
        Some((Side::Left, key_pos(left, id)))
    } else if key_pos(right, id) < right.len() {
        Some((Side::Right, key_pos(right, id)))
    } else {
        None
    }
}

/// The side that a drag from `origin` reorders (the right one when the
/// dragged module was on neither side), and the modules of that side that
/// count for the drop (none in that case).
pub open spec fn drag_lists(origin: Option<Side>, left: Seq<Seq<char>>, right: Seq<Seq<char>>) -> (
    Side,
    Seq<Seq<char>>,
    Seq<Seq<char>>,
) {
    match origin {
        Some(Side::Left) => (Side::Left, left, left),
        Some(Side::Right) => (Side::Right, right, right),
        None => (Side::Right, right, Seq::empty()),
    }
}

/// The state once a press or drag is over.
pub open spec fn released(v: PointerView) -> PointerView {
    PointerView {
        dragging: None,
        clicked: None,
        clicked_pos: None,
        origin_side: None,
        origin_index: None,
        needs_redraw: true,
        ..v
    }
}

/// An optional string copied.
fn copy_opt(o: &Option<String>) -> (r: Option<String>)
    ensures
        opt_view(r) == opt_view(*o),
{
    match o {
        Some(s) => Some(string_of(s.as_str())),
        None => None,
    }
}

/// Whether two optional strings hold the same text.
fn same_opt(a: &Option<String>, b: &Option<String>) -> (r: bool)
    ensures
        r == (opt_view(*a) == opt_view(*b)),
{
    match (a, b) {
        (Some(x), Some(y)) => same_text(x.as_str(), y.as_str()),
        (None, None) => true,
        _ => false,
    }
}

impl PointerState {
    /// Not hovered, nothing pressed, a redraw pending.
    pub fn new() -> (s: PointerState)
        ensures
            s@ == (PointerView {
                is_hovered: false,
                hover: None,
                clicked: None,
                clicked_pos: None,
                dragging: None,
                drag_start_x: 0,
                drag_current_x: 0,
                origin_side: None,
                origin_index: None,
                needs_redraw: true,
            }),
    {
        PointerState {
            is_hovered: false,
            hover_module: None,
            clicked_module: None,
            clicked_pos: None,
            dragging_module: None,
            drag_start_x: 0,
            drag_current_x: 0,
            drag_origin_side: None,
            drag_orig_index: None,
            needs_redraw: true,
        }
    }

    /// The pointer moved to `x`, over the module `hit` (see `after_move`);
    /// returns whether the bar just became hovered (so that leaving it is
    /// to be tracked).
    pub fn on_mouse_move(&mut self, x: i32, hit: Option<String>) -> (track_leave: bool)
        ensures
            final(self)@ == after_move(old(self)@, x, opt_view(hit)),
            track_leave == !old(self)@.is_hovered,
    {
        let track_leave = !self.is_hovered;
        if !self.is_hovered {
            self.is_hovered = true;
            self.needs_redraw = true;
        }
        if self.dragging_module.is_none() {
            match (&self.clicked_module, self.clicked_pos) {
                (Some(id), Some(pos)) => {
                    let cx = pos.0;
                    let d: i64 = x as i64 - cx as i64;
                    if d > DRAG_THRESHOLD as i64 || -d > DRAG_THRESHOLD as i64 {
                        let dragged = string_of(id.as_str());
                        self.dragging_module = Some(dragged);
                        self.drag_start_x = cx;
                        self.drag_current_x = x;
                        self.hover_module = None;
                        self.needs_redraw = true;
                    }
                },
                _ => {},
            }
        } else {
            self.drag_current_x = x;
            self.needs_redraw = true;
        }
        if self.dragging_module.is_none() && !same_opt(&hit, &self.hover_module) {
            self.hover_module = hit;
            self.needs_redraw = true;
        }
        track_leave
    }

    /// The pointer left the bar.
    pub fn on_mouse_leave(&mut self)
        ensures
            final(self)@ == (PointerView { is_hovered: false, hover: None, needs_redraw: true, ..old(self)@ }),
    {
        self.is_hovered = false;
        self.hover_module = None;
        self.needs_redraw = true;
    }

    /// The button went down at (`x`, `y`) over the module `hit`: a press on
    /// a module is recorded with where it sits on the bar (nothing happens
    /// yet); returns whether the pointer is to be captured (a module was
    /// hit).
    pub fn on_left_down(&mut self, x: i32, y: i32, hit: Option<String>, modules: &ModulesConfig) -> (capture: bool)
        ensures
            capture == (hit is Some),
            match hit {
                None => final(self)@ == old(self)@,
                Some(id) => {
                    let o = origin_of(views(modules.left_modules@), views(modules.right_modules@), id@);
                    final(self)@ == (PointerView {
                        clicked: Some(id@),
                        clicked_pos: Some((x, y)),
                        dragging: None,
                        drag_start_x: x,
                        drag_current_x: x,
                        origin_side: match o {
                            Some(s) => Some(s.0),
                            None => None,
                        },
                        origin_index: match o {
                            Some(s) => Some(s.1 as usize),
                            None => None,
                        },
                        ..old(self)@
                    })
                },
            },
    {
        match hit {
            None => false,
            Some(id) => {
                let ghost left = views(modules.left_modules@);
                let ghost right = views(modules.right_modules@);
                proof {
                    lemma_pos_bounds(left, id@, 0);
                    lemma_pos_bounds(right, id@, 0);
                }
                match find_id(&modules.left_modules, id.as_str()) {
                    Some(i) => {
                        self.drag_origin_side = Some(Side::Left);
                        self.drag_orig_index = Some(i);
                    },
                    None => match find_id(&modules.right_modules, id.as_str()) {
                        Some(i) => {
                            self.drag_origin_side = Some(Side::Right);
                            self.drag_orig_index = Some(i);
                        },
                        None => {
                            self.drag_origin_side = None;
                            self.drag_orig_index = None;
                        },
                    },
                }
                self.clicked_module = Some(id);
                self.clicked_pos = Some((x, y));
                self.dragging_module = None;
                self.drag_start_x = x;
                self.drag_current_x = x;
                true
            },
        }
    }

    /// The button went up. A drag ends in a reorder of the side it started
    /// on: the dragged module moves to where the pointer was dropped among
    /// that side's drawn modules (see `drag_lists`, `drawn_mids`,
    /// `drop_slot`, `moved_to`); a press without a drag is a click on the
    /// pressed module; either way the press is over.
    pub fn on_left_up(&mut self, modules: &ModulesConfig, bounds: &Vec<ModuleBounds>) -> (r: Release)
        ensures
            ({
                let v = old(self)@;
                let left = views(modules.left_modules@);
                let right = views(modules.right_modules@);
                match v.dragging {
                    Some(id) => {
                        let (side, list, visual) = drag_lists(v.origin_side, left, right);
                        let at = drop_slot(drawn_mids(visual, bounds@), v.drag_current_x as i64, 0);
                        &&& r matches Release::Reorder(s, l) && s == side && views(l@) == moved_to(list, id, at)
                        &&& final(self)@ == released(v)
                    },
                    None => match v.clicked {
                        Some(id) => {
                            &&& r matches Release::Click(c) && c@ == id
                            &&& final(self)@ == (PointerView {
                                clicked: None,
                                clicked_pos: None,
                                needs_redraw: true,
                                ..v
                            })
                        },
                        None => r is Nothing && final(self)@ == v,
                    },
                }
            }),
    {
        match &self.dragging_module {
            Some(drag_id) => {
                let ghost left = views(modules.left_modules@);
                let ghost right = views(modules.right_modules@);
                let empty: Vec<String> = Vec::new();
                assert(views(empty@) == Seq::<Seq<char>>::empty());
                let (side, list, visual) = match self.drag_origin_side {
                    Some(Side::Left) => (Side::Left, &modules.left_modules, &modules.left_modules),
                    Some(Side::Right) => (Side::Right, &modules.right_modules, &modules.right_modules),
                    None => (Side::Right, &modules.right_modules, &empty),
                };
                let mids = drawn_mids_exec(visual, bounds);
                let at = drop_slot_exec(&mids, self.drag_current_x as i64);
                proof {
                    lemma_drawn_mids_len(views(visual@), bounds@);
                    lemma_drop_slot(mids@, self.drag_current_x as i64, 0);
                }
                assert(at <= list@.len());
                let new_list = move_module(list, drag_id.as_str(), at);
                self.dragging_module = None;
                self.clicked_module = None;
                self.clicked_pos = None;
                self.drag_origin_side = None;
                self.drag_orig_index = None;
                self.needs_redraw = true;
                Release::Reorder(side, new_list)
            },
            None => match &self.clicked_module {
                Some(id) => {
                    let c = string_of(id.as_str());
                    self.clicked_module = None;
                    self.clicked_pos = None;
                    self.needs_redraw = true;
                    Release::Click(c)
                },
                None => Release::Nothing,
            },
        }
    }

    /// Whether a redraw is pending.
    pub fn needs_redraw(&self) -> (b: bool)
        ensures
            b == self@.needs_redraw,
    {
        self.needs_redraw
    }

    /// The redraw was done.
    pub fn redrawn(&mut self)
        ensures
            final(self)@ == (PointerView { needs_redraw: false, ..old(self)@ }),
    {
        self.needs_redraw = false;
    }

    /// The module under the pointer, if any.
    pub fn hover_module(&self) -> (r: Option<String>)
        ensures
            opt_view(r) == self@.hover,
    {
        copy_opt(&self.hover_module)
    }

    /// The module being dragged, if any.
    pub fn dragging_module(&self) -> (r: Option<String>)
        ensures
            opt_view(r) == self@.dragging,
    {
        copy_opt(&self.dragging_module)
    }

    /// Where the dragged module is drawn now, and where the drag started.
    pub fn drag_positions(&self) -> (r: (i32, i32))
        ensures
            r == (self@.drag_start_x, self@.drag_current_x),
    {
        (self.drag_start_x, self.drag_current_x)
    }
}

} // verus!
