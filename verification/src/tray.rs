//! The tray icon's context menu and what its commands and clicks mean.

use vstd::prelude::*;
use crate::text::{string_of, to_wide_string, utf16};

verus! {

/// Tray menu item
pub struct TrayMenuItem {
    pub id: u32,
    pub label: String,
    pub is_separator: bool,
    pub is_checked: bool,
    pub is_disabled: bool,
}

/// `item` is an enabled, unchecked entry with this id and label.
pub open spec fn tray_entry_is(item: TrayMenuItem, id: u32, label: Seq<char>) -> bool {
    item.id == id && item.label@ == label && !item.is_separator && !item.is_checked && !item.is_disabled
}

/// `item` is a separator.
pub open spec fn tray_separator_is(item: TrayMenuItem) -> bool {
    item.id == 0 && item.label@.len() == 0 && item.is_separator && !item.is_checked && !item.is_disabled
}

fn entry(id: u32, label: &str) -> (item: TrayMenuItem)
    ensures
        tray_entry_is(item, id, label@),
{
    TrayMenuItem { id, label: string_of(label), is_separator: false, is_checked: false, is_disabled: false }
}

fn separator() -> (item: TrayMenuItem)
    ensures
        tray_separator_is(item),
{
    TrayMenuItem { id: 0, label: String::new(), is_separator: true, is_checked: false, is_disabled: false }
}

/// What a tray menu command asks for.
#[derive(Debug, Clone, Copy, PartialEq, Eq, Structural)]
pub enum TrayCommand {
    ShowTopBar,
    Settings,
    About,
    Exit,
    Ignore,
}

/// Which click the tray icon reported.
#[derive(Debug, Clone, Copy, PartialEq, Eq, Structural)]
pub enum TrayClick {
    Left,
    Right,
    Double,
    Other,
}

/// The click that a tray message parameter reports (its low word).
pub open spec fn click_of(lparam: u64) -> TrayClick {
    let m = lparam % 0x10000;
    if m == 0x0202 {
        TrayClick::Left
    } else if m == 0x0205 {
        TrayClick::Right
    } else if m == 0x0203 {
        TrayClick::Double
    } else {
        TrayClick::Other
    }
}

/// The click that a tray message parameter reports.
pub fn classify_click(lparam: u64) -> (c: TrayClick)
    ensures
        c == click_of(lparam),
{
    let m = lparam % 0x10000;
    if m == 0x0202 {
        TrayClick::Left
    } else if m == 0x0205 {
        TrayClick::Right
    } else if m == 0x0203 {
        TrayClick::Double
    } else {
        TrayClick::Other
    }
}

/// Tray context menu
pub struct TrayMenu {
    items: Vec<TrayMenuItem>,
}

impl TrayMenu {
    /// The entries of the menu.
    pub closed spec fn spec_items(&self) -> Seq<TrayMenuItem> {
        self.items@
    }

    /// Create a new tray menu
    pub fn new() -> (m: TrayMenu)
        ensures
            m.spec_items().len() == 6,
            tray_entry_is(m.spec_items()[0], 1, "Show TopBar"@),
            tray_separator_is(m.spec_items()[1]),
            tray_entry_is(m.spec_items()[2], 2, "Settings..."@),
            tray_entry_is(m.spec_items()[3], 3, "About TopBar"@),
            tray_separator_is(m.spec_items()[4]),
            tray_entry_is(m.spec_items()[5], 100, "Exit"@),
    {
        let mut items: Vec<TrayMenuItem> = Vec::new();
        items.push(entry(1, "Show TopBar"));
        items.push(separator());
        items.push(entry(2, "Settings..."));
        items.push(entry(3, "About TopBar"));
        items.push(separator());
        items.push(entry(100, "Exit"));
        TrayMenu { items }
    }

    /// The entries of the menu, in order.
    pub fn items(&self) -> (r: &[TrayMenuItem])
        ensures
            r@ == self.spec_items(),
    {
        self.items.as_slice()
    }

    /// What the command `id` asks for: 1 show, 2 settings, 3 about, 100 exit.
    pub fn handle_command(&self, id: u32) -> (c: TrayCommand)
        ensures
            c == (if id == 1 {
                TrayCommand::ShowTopBar
            } else if id == 2 {
                TrayCommand::Settings
            } else if id == 3 {
                TrayCommand::About
            } else if id == 100 {
                TrayCommand::Exit
            } else {
                TrayCommand::Ignore
            }),
    {
        match id {
            1 => TrayCommand::ShowTopBar,
            2 => TrayCommand::Settings,
            3 => TrayCommand::About,
            100 => TrayCommand::Exit,
            _ => TrayCommand::Ignore,
        }
    }
}

impl Default for TrayMenu {
    fn default() -> (m: TrayMenu)
        ensures
            m.spec_items().len() == 6,
    {
        TrayMenu::new()
    }
}

/// Size, in UTF-16 units, of the tray icon's tooltip field.
pub const TOOLTIP_UNITS: usize = 128;

/// The tooltip field for `text`: its NUL-terminated UTF-16 form, cut to the
/// field's size, the rest of the field zero.
pub open spec fn tooltip_field_of(text: Seq<char>) -> Seq<u16> {
    let w = utf16(text).push(0u16);
    Seq::new(
        TOOLTIP_UNITS as nat,
        |i: int|
            if i < w.len() {
                w[i]
            } else {
                0u16
            },
    )
}

/// The tooltip field for `text` (see `tooltip_field_of`).
pub fn tooltip_field(text: &str) -> (r: Vec<u16>)
    ensures
        r@ == tooltip_field_of(text@),
{
    let w = to_wide_string(text);
    let mut r: Vec<u16> = Vec::new();
    let mut i: usize = 0;
    while i < TOOLTIP_UNITS
        invariant
            i <= TOOLTIP_UNITS,
            w@ == utf16(text@).push(0u16),
            r@.len() == i,
            forall|j: int| 0 <= j < i ==> r@[j] == #[trigger] tooltip_field_of(text@)[j],
        decreases TOOLTIP_UNITS - i,
    {
        if i < w.len() {
            r.push(w[i]);
        } else {
            r.push(0);
        }
        i += 1;
    }
    assert(r@ =~= tooltip_field_of(text@));
    r
}

} // verus!
