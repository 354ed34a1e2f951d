//! Dropdown menu model: the items of a module's menu, the height of the
//! menu, and which item a point falls on.

use vstd::prelude::*;
use crate::text::string_of;

verus! {

/// The height of a separator row.
pub const SEPARATOR_HEIGHT: i32 = 13;

/// Menu item data
#[derive(Debug)]
pub struct DropdownItem {
    pub id: u32,
    pub label: String,
    pub icon: Option<String>,
    pub shortcut: Option<String>,
    pub is_separator: bool,
    pub is_disabled: bool,
    pub is_checked: bool,
    pub submenu: Option<Vec<DropdownItem>>,
}

impl DropdownItem {
    /// Create a new menu item
    pub fn new(id: u32, label: &str) -> (d: DropdownItem)
        ensures
            d.id == id,
            d.label@ == label@,
            d.icon is None,
            d.shortcut is None,
            !d.is_separator,
            !d.is_disabled,
            !d.is_checked,
            d.submenu is None,
    {
        DropdownItem {
            id,
            label: string_of(label),
            icon: None,
            shortcut: None,
            is_separator: false,
            is_disabled: false,
            is_checked: false,
            submenu: None,
        }
    }

    /// Create a separator
    pub fn separator() -> (d: DropdownItem)
        ensures
            d.id == 0,
            d.label@.len() == 0,
            d.icon is None,
            d.shortcut is None,
            d.is_separator,
            !d.is_disabled,
            !d.is_checked,
            d.submenu is None,
    {
        DropdownItem {
            id: 0,
            label: String::new(),
            icon: None,
            shortcut: None,
            is_separator: true,
            is_disabled: false,
            is_checked: false,
            submenu: None,
        }
    }

    /// Add icon
    pub fn with_icon(self, icon: &str) -> (d: DropdownItem)
        ensures
            d == (DropdownItem { icon: d.icon, ..self }),
            d.icon matches Some(i) && i@ == icon@,
    {
        DropdownItem { icon: Some(string_of(icon)), ..self }
    }

    /// Add shortcut hint
    pub fn with_shortcut(self, shortcut: &str) -> (d: DropdownItem)
        ensures
            d == (DropdownItem { shortcut: d.shortcut, ..self }),
            d.shortcut matches Some(s) && s@ == shortcut@,
    {
        DropdownItem { shortcut: Some(string_of(shortcut)), ..self }
    }

    /// Mark as disabled
    pub fn disabled(self) -> (d: DropdownItem)
        ensures
            d == (DropdownItem { is_disabled: true, ..self }),
    {
        DropdownItem { is_disabled: true, ..self }
    }

    /// Mark as checked
    pub fn checked(self, checked: bool) -> (d: DropdownItem)
        ensures
            d == (DropdownItem { is_checked: checked, ..self }),
    {
        DropdownItem { is_checked: checked, ..self }
    }

    /// Add submenu
    pub fn with_submenu(self, items: Vec<DropdownItem>) -> (d: DropdownItem)
        ensures
            d == (DropdownItem { submenu: Some(items), ..self }),
    {
        DropdownItem { submenu: Some(items), ..self }
    }
}

/// The height of one row: separators are thin, other rows `item_height` tall.
pub open spec fn row_height(item: DropdownItem, item_height: int) -> int {
    if item.is_separator {
        SEPARATOR_HEIGHT as int
    } else {
        item_height
    }
}

/// The total height of the first `n` rows.
pub open spec fn rows_height(items: Seq<DropdownItem>, item_height: int, n: int) -> int
    decreases n,
{
    if n <= 0 {
        0
    } else {
        rows_height(items, item_height, n - 1) + row_height(items[n - 1], item_height)
    }
}

/// The height of a menu: its rows with `padding` above and below.
pub open spec fn menu_height(items: Seq<DropdownItem>, item_height: int, padding: int) -> int {
    padding * 2 + rows_height(items, item_height, items.len() as int)
}

/// Height `y` falls within row `i` (rows start below the top padding).
pub open spec fn in_row(items: Seq<DropdownItem>, item_height: int, padding: int, y: int, i: int) -> bool {
    0 <= i < items.len() && padding + rows_height(items, item_height, i) <= y < padding + rows_height(
        items,
        item_height,
        i + 1,
    )
}

/// The row that height `y` falls on, when it is a selectable row (neither
/// a separator nor disabled).
pub open spec fn row_at(items: Seq<DropdownItem>, item_height: int, padding: int, y: int) -> Option<int> {
    if exists|i: int| #[trigger] in_row(items, item_height, padding, y, i) {
        let i = choose|i: int| #[trigger] in_row(items, item_height, padding, y, i);
        if !items[i].is_separator && !items[i].is_disabled {
            Some(i)
        } else {
            None
        }
    } else {
        None
    }
}

proof fn lemma_rows_height_monotone(items: Seq<DropdownItem>, item_height: int, a: int, b: int)
    requires
        item_height >= 0,
        0 <= a <= b <= items.len(),
    ensures
        rows_height(items, item_height, a) <= rows_height(items, item_height, b),
    decreases b - a,
{
    if a < b {
        lemma_rows_height_monotone(items, item_height, a, b - 1);
    }
}

/// Calculate menu height
pub fn calculate_height(items: &Vec<DropdownItem>, item_height: i32, padding: i32) -> (h: i32)
    requires
        item_height >= 0,
        padding >= 0,
        menu_height(items@, item_height as int, padding as int) <= i32::MAX,
    ensures
        h == menu_height(items@, item_height as int, padding as int),
{
    proof {
        lemma_rows_height_monotone(items@, item_height as int, 0, items@.len() as int);
    }
    let mut height: i32 = padding * 2;
    let mut i: usize = 0;
    while i < items.len()
        invariant
            i <= items@.len(),
            item_height >= 0,
            padding >= 0,
            menu_height(items@, item_height as int, padding as int) <= i32::MAX,
            height == padding * 2 + rows_height(items@, item_height as int, i as int),
        decreases items.len() - i,
    {
        proof {
            lemma_rows_height_monotone(items@, item_height as int, i + 1, items@.len() as int);
        }
        if items[i].is_separator {
            height = height + SEPARATOR_HEIGHT;
        } else {
            height = height + item_height;
        }
        i += 1;
    }
    height
}

/// Hit test to find item at position
pub fn hit_test(items: &Vec<DropdownItem>, item_height: i32, padding: i32, y: i32) -> (r: Option<usize>)
    requires
        item_height >= 0,
        padding >= 0,
        menu_height(items@, item_height as int, padding as int) <= i32::MAX,
    ensures
        r matches Some(i) ==> row_at(items@, item_height as int, padding as int, y as int) == Some(i as int),
        r is None ==> row_at(items@, item_height as int, padding as int, y as int) is None,
{
    let ghost ih = item_height as int;
    let ghost pd = padding as int;
    let mut current_y: i32 = padding;
    let mut i: usize = 0;
    while i < items.len()
        invariant
            i <= items@.len(),
            item_height >= 0,
            padding >= 0,
            ih == item_height,
            pd == padding,
            menu_height(items@, ih, pd) <= i32::MAX,
            current_y == pd + rows_height(items@, ih, i as int),
            forall|j: int| 0 <= j < i ==> !#[trigger] in_row(items@, ih, pd, y as int, j),
        decreases items.len() - i,
    {
        proof {
            lemma_rows_height_monotone(items@, ih, i + 1, items@.len() as int);
        }
        let item_h = if items[i].is_separator {
            SEPARATOR_HEIGHT
        } else {
            item_height
        };
        if y >= current_y && y < current_y + item_h {
            proof {
                lemma_unique_row(items@, ih, pd, y as int, i as int);
            }
            if !items[i].is_separator && !items[i].is_disabled {
                return Some(i);
            }
            return None;
        }
        current_y = current_y + item_h;
        i += 1;
    }
    None
}

/// The row that a height falls on is the only one: the row bands do not overlap.
proof fn lemma_unique_row(items: Seq<DropdownItem>, ih: int, pd: int, y: int, i: int)
    requires
        ih >= 0,
        0 <= i < items.len(),
        in_row(items, ih, pd, y, i),
    ensures
        row_at(items, ih, pd, y) == (if !items[i].is_separator && !items[i].is_disabled {
            Some(i)
        } else {
            None
        }),
{
    assert(in_row(items, ih, pd, y, i));
    let k = choose|k: int| #[trigger] in_row(items, ih, pd, y, k);
    if k < i {
        lemma_rows_height_monotone(items, ih, k + 1, i);
    } else if k > i {
        lemma_rows_height_monotone(items, ih, i + 1, k);
    }
}

/// Width of a dropdown menu.
pub const MENU_WIDTH: i32 = 280;

/// Distance kept from the screen's right and bottom edges.
pub const SCREEN_MARGIN: i32 = 8;

/// Where a menu of `height` asked for at (`x`, `y`) is placed: moved left
/// to end a margin before the screen's right edge when it would pass it,
/// and opened upward from `y` when it would pass the bottom margin.
pub open spec fn menu_position(x: int, y: int, height: int, screen_width: int, screen_height: int) -> (int, int) {
    (
        if x + MENU_WIDTH > screen_width - SCREEN_MARGIN {
            screen_width - MENU_WIDTH - SCREEN_MARGIN
        } else {
            x
        },
        if y + height > screen_height - SCREEN_MARGIN {
            y - height
        } else {
            y
        },
    )
}

/// Where a menu is shown (see `menu_position`); the arithmetic stays in
/// `i32`.
pub fn show_position(x: i32, y: i32, height: i32, screen_width: i32, screen_height: i32) -> (r: (i32, i32))
    requires
        i32::MIN <= x + MENU_WIDTH <= i32::MAX,
        i32::MIN <= screen_width - MENU_WIDTH - SCREEN_MARGIN <= i32::MAX,
        i32::MIN <= screen_height - SCREEN_MARGIN <= i32::MAX,
        i32::MIN <= y + height <= i32::MAX,
        i32::MIN <= y - height <= i32::MAX,
    ensures
        (r.0 as int, r.1 as int) == menu_position(x as int, y as int, height as int, screen_width as int, screen_height as int),
{
    let mut final_x = x;
    let mut final_y = y;
    if x + MENU_WIDTH > screen_width - SCREEN_MARGIN {
        final_x = screen_width - MENU_WIDTH - SCREEN_MARGIN;
    }
    if y + height > screen_height - SCREEN_MARGIN {
        final_y = y - height;
    }
    (final_x, final_y)
}

} // verus!
