//! Hotkey strings: parsing "Alt+T"-style descriptions into modifier flags and
//! virtual-key codes, and the table that maps registered ids to actions.

use vstd::prelude::*;
use std::collections::HashMap;
use crate::config::HotkeyConfig;
use crate::text::{chars_of, digit_char, same_text, split_chars, split_on, string_from_range, to_upper, trim, trim_bounds, upper};

verus! {

/// Modifier flag for the Alt key (`MOD_ALT`).
pub const MOD_ALT: u32 = 1;
/// Modifier flag for the Control key (`MOD_CONTROL`).
pub const MOD_CONTROL: u32 = 2;
/// Modifier flag for the Shift key (`MOD_SHIFT`).
pub const MOD_SHIFT: u32 = 4;
/// Modifier flag for the Windows key (`MOD_WIN`).
pub const MOD_WIN: u32 = 8;

/// Hotkey action
#[derive(Debug, Clone, Copy, PartialEq, Eq, Hash, Structural)]
pub enum HotkeyAction {
    ToggleBar,
    OpenMenu,
    QuickSearch,
    ToggleTheme,
    NextModule,
    PreviousModule,
    Refresh,
    Settings,
    Quit,
}

/// Parsed hotkey
#[derive(Debug, Clone, Copy)]
pub struct Hotkey {
    pub modifiers: u32,
    pub key: u32,
    pub action: HotkeyAction,
}

/// The modifier flag that an upper-cased part names.
pub open spec fn modifier_bit(p: Seq<char>) -> Option<u32> {
    if p == "ALT"@ {
        Some(MOD_ALT)
    } else if p == "CTRL"@ || p == "CONTROL"@ {
        Some(MOD_CONTROL)
    } else if p == "SHIFT"@ {
        Some(MOD_SHIFT)
    } else if p == "WIN"@ || p == "WINDOWS"@ || p == "SUPER"@ {
        Some(MOD_WIN)
    } else {
        None
    }
}

/// The combined flags of the modifier parts `ps`, `None` if one is not a modifier.
pub open spec fn mods_of(ps: Seq<Seq<char>>) -> Option<u32>
    decreases ps.len(),
{
    if ps.len() == 0 {
        Some(0u32)
    } else {
        match (mods_of(ps.drop_last()), modifier_bit(ps.last())) {
            (Some(m), Some(b)) => Some(m | b),
            _ => None,
        }
    }
}

/// An ASCII letter or digit.
pub open spec fn ascii_alnum(c: char) -> bool {
    ('0' <= c && c <= '9') || ('A' <= c && c <= 'Z') || ('a' <= c && c <= 'z')
}

/// The code of an ASCII character, upper-cased.
pub open spec fn ascii_upper_code(c: char) -> u32 {
    if 'a' <= c && c <= 'z' {
        (c as u32 - 32) as u32
    } else {
        c as u32
    }
}

/// The virtual-key code of a named special key.
pub open spec fn named_key_code(s: Seq<char>) -> Option<u32> {
    if s == "SPACE"@ {
        Some(0x20u32)
    } else if s == "ENTER"@ || s == "RETURN"@ {
        Some(0x0Du32)
    } else if s == "TAB"@ {
        Some(0x09u32)
    } else if s == "ESCAPE"@ || s == "ESC"@ {
        Some(0x1Bu32)
    } else if s == "BACKSPACE"@ {
        Some(0x08u32)
    } else if s == "DELETE"@ || s == "DEL"@ {
        Some(0x2Eu32)
    } else if s == "INSERT"@ || s == "INS"@ {
        Some(0x2Du32)
    } else if s == "HOME"@ {
        Some(0x24u32)
    } else if s == "END"@ {
        Some(0x23u32)
    } else if s == "PAGEUP"@ || s == "PGUP"@ {
        Some(0x21u32)
    } else if s == "PAGEDOWN"@ || s == "PGDN"@ {
        Some(0x22u32)
    } else if s == "UP"@ {
        Some(0x26u32)
    } else if s == "DOWN"@ {
        Some(0x28u32)
    } else if s == "LEFT"@ {
        Some(0x25u32)
    } else if s == "RIGHT"@ {
        Some(0x27u32)
    } else if s == "F1"@ {
        Some(0x70u32)
    } else if s == "F2"@ {
        Some(0x71u32)
    } else if s == "F3"@ {
        Some(0x72u32)
    } else if s == "F4"@ {
        Some(0x73u32)
    } else if s == "F5"@ {
        Some(0x74u32)
    } else if s == "F6"@ {
        Some(0x75u32)
    } else if s == "F7"@ {
        Some(0x76u32)
    } else if s == "F8"@ {
        Some(0x77u32)
    } else if s == "F9"@ {
        Some(0x78u32)
    } else if s == "F10"@ {
        Some(0x79u32)
    } else if s == "F11"@ {
        Some(0x7Au32)
    } else if s == "F12"@ {
        Some(0x7Bu32)
    } else {
        None
    }
}

/// The virtual-key code for a key name: a single letter or digit, or a named key.
pub open spec fn key_code(s: Seq<char>) -> Option<u32> {
    if s.len() == 1 && ascii_alnum(s[0]) {
        Some(ascii_upper_code(s[0]))
    } else {
        named_key_code(s)
    }
}

/// The parts of a hotkey string: split at `+`, trimmed and upper-cased.
pub open spec fn key_parts(s: Seq<char>) -> Seq<Seq<char>> {
    split_on(s, '+').map_values(|p: Seq<char>| upper(trim(p)))
}

/// The hotkey that `s` describes: the last part is the key, all others modifiers.
pub open spec fn parse_hotkey(s: Seq<char>, action: HotkeyAction) -> Option<Hotkey> {
    let ps = key_parts(s);
    match (mods_of(ps.drop_last()), key_code(ps.last())) {
        (Some(m), Some(k)) => Some(Hotkey { modifiers: m, key: k, action }),
        _ => None,
    }
}

proof fn lemma_mods_none_extends(ps: Seq<Seq<char>>, i: int, j: int)
    requires
        0 <= i <= j <= ps.len(),
        mods_of(ps.take(i)) is None,
    ensures
        mods_of(ps.take(j)) is None,
    decreases j - i,
{
    if j > i {
        lemma_mods_none_extends(ps, i, j - 1);
        assert(ps.take(j).drop_last() == ps.take(j - 1));
    }
}

fn modifier_value(p: &str) -> (r: Option<u32>)
    ensures
        r == modifier_bit(p@),
{
    proof {
        reveal_strlit("ALT");
        reveal_strlit("CTRL");
        reveal_strlit("CONTROL");
        reveal_strlit("SHIFT");
        reveal_strlit("WIN");
        reveal_strlit("WINDOWS");
        reveal_strlit("SUPER");
    }
    if same_text(p, "ALT") {
        Some(MOD_ALT)
    } else if same_text(p, "CTRL") || same_text(p, "CONTROL") {
        Some(MOD_CONTROL)
    } else if same_text(p, "SHIFT") {
        Some(MOD_SHIFT)
    } else if same_text(p, "WIN") || same_text(p, "WINDOWS") || same_text(p, "SUPER") {
        Some(MOD_WIN)
    } else {
        None
    }
}

fn named_key(s: &str) -> (r: Option<u32>)
    ensures
        r == named_key_code(s@),
{
    if same_text(s, "SPACE") {
        Some(0x20)
    } else if same_text(s, "ENTER") || same_text(s, "RETURN") {
        Some(0x0D)
    } else if same_text(s, "TAB") {
        Some(0x09)
    } else if same_text(s, "ESCAPE") || same_text(s, "ESC") {
        Some(0x1B)
    } else if same_text(s, "BACKSPACE") {
        Some(0x08)
    } else if same_text(s, "DELETE") || same_text(s, "DEL") {
        Some(0x2E)
    } else if same_text(s, "INSERT") || same_text(s, "INS") {
        Some(0x2D)
    } else if same_text(s, "HOME") {
        Some(0x24)
    } else if same_text(s, "END") {
        Some(0x23)
    } else if same_text(s, "PAGEUP") || same_text(s, "PGUP") {
        Some(0x21)
    } else if same_text(s, "PAGEDOWN") || same_text(s, "PGDN") {
        Some(0x22)
    } else if same_text(s, "UP") {
        Some(0x26)
    } else if same_text(s, "DOWN") {
        Some(0x28)
    } else if same_text(s, "LEFT") {
        Some(0x25)
    } else if same_text(s, "RIGHT") {
        Some(0x27)
    } else if same_text(s, "F1") {
        Some(0x70)
    } else if same_text(s, "F2") {
        Some(0x71)
    } else if same_text(s, "F3") {
        Some(0x72)
    } else if same_text(s, "F4") {
        Some(0x73)
    } else if same_text(s, "F5") {
        Some(0x74)
    } else if same_text(s, "F6") {
        Some(0x75)
    } else if same_text(s, "F7") {
        Some(0x76)
    } else if same_text(s, "F8") {
        Some(0x77)
    } else if same_text(s, "F9") {
        Some(0x78)
    } else if same_text(s, "F10") {
        Some(0x79)
    } else if same_text(s, "F11") {
        Some(0x7A)
    } else if same_text(s, "F12") {
        Some(0x7B)
    } else {
        None
    }
}

impl Hotkey {
    /// Parse a hotkey string like "Alt+T" or "Ctrl+Shift+S"
    pub fn parse(s: &str, action: HotkeyAction) -> (r: Option<Hotkey>)
        ensures
            r == parse_hotkey(s@, action),
    {
        let chars = chars_of(s);
        let pieces = split_chars(&chars, '+');
        let ghost ps = key_parts(s@);
        proof {
            lemma_split_len(s@);
        }
        let n = pieces.len();
        let mut modifiers: u32 = 0;
        let mut i: usize = 0;
        assert(ps.take(0) == Seq::<Seq<char>>::empty());
        while i + 1 < n
            invariant
                n == pieces@.len(),
                n == ps.len(),
                n >= 1,
                i + 1 <= n,
                forall|j: int| 0 <= j < n ==> #[trigger] pieces@[j]@ == split_on(s@, '+')[j],
                ps == key_parts(s@),
                mods_of(ps.take(i as int)) == Some(modifiers),
            decreases n - i,
        {
            let part = Self::part_text(&pieces[i]);
            assert(part@ == ps[i as int]);
            assert(ps.take(i + 1).drop_last() == ps.take(i as int));
            match modifier_value(part.as_str()) {
                Some(b) => {
                    modifiers = modifiers | b;
                },
                None => {
                    proof {
                        lemma_mods_none_extends(ps, i + 1, n - 1);
                        assert(ps.take(n - 1) == ps.drop_last());
                    }
                    return None;
                },
            }
            i += 1;
        }
        assert(ps.take(n - 1) == ps.drop_last());
        let last = Self::part_text(&pieces[n - 1]);
        assert(last@ == ps.last());
        match Self::parse_key(last.as_str()) {
            Some(key) => Some(Hotkey { modifiers, key, action }),
            None => None,
        }
    }

    /// One part of a hotkey string, trimmed and upper-cased.
    fn part_text(piece: &Vec<char>) -> (r: String)
        ensures
            r@ == upper(trim(piece@)),
    {
        let (lo, hi) = trim_bounds(piece);
        let t = string_from_range(piece, lo, hi);
        to_upper(t.as_str())
    }

    /// Parse a key name to virtual key code
    pub fn parse_key(s: &str) -> (r: Option<u32>)
        ensures
            r == key_code(s@),
    {
        let v = chars_of(s);
        if v.len() == 1 {
            let c = v[0];
            if ('0' <= c && c <= '9') || ('A' <= c && c <= 'Z') || ('a' <= c && c <= 'z') {
                let code = c as u32;
                if 'a' <= c && c <= 'z' {
                    return Some(code - 32);
                }
                return Some(code);
            }
        }
        named_key(s)
    }
}

proof fn lemma_split_len(s: Seq<char>)
    ensures
        split_on(s, '+').len() >= 1,
        key_parts(s).len() == split_on(s, '+').len(),
        forall|j: int| 0 <= j < key_parts(s).len() ==> #[trigger] key_parts(s)[j] == upper(trim(split_on(s, '+')[j])),
    decreases s.len(),
{
    if s.len() > 0 {
        lemma_split_len(s.drop_last());
    }
}

/// Why a hotkey could not be registered or released.
#[derive(Debug, Clone, Copy, PartialEq, Eq, Structural)]
pub enum HotkeyError {
    /// The hotkey text does not name a key
    InvalidHotkeyString,
    /// The system refused the registration
    RegisterFailed,
    /// The system refused to release the hotkey
    UnregisterFailed,
}

/// The registered hotkeys by id, and the id the next registration gets.
pub struct HotkeyManager {
    hotkeys: HashMap<i32, Hotkey>,
    next_id: i32,
}

impl HotkeyManager {
    #[verifier::type_invariant]
    spec fn ids_below_next(self) -> bool {
        &&& self.next_id >= 1
        &&& forall|k: i32| #[trigger] self.hotkeys@.contains_key(k) ==> k < self.next_id
    }

    /// The registered hotkeys by id.
    pub closed spec fn spec_hotkeys(&self) -> Map<i32, Hotkey> {
        self.hotkeys@
    }

    /// The id that the next registration gets.
    pub closed spec fn spec_next_id(&self) -> i32 {
        self.next_id
    }

    /// Create a new hotkey manager
    pub fn new() -> (m: HotkeyManager)
        ensures
            m.spec_hotkeys() == Map::<i32, Hotkey>::empty(),
            m.spec_next_id() == 1,
    {
        HotkeyManager { hotkeys: HashMap::new(), next_id: 1 }
    }

    /// The id that the next registration gets (the one to hand to the system).
    pub fn next_id(&self) -> (id: i32)
        ensures
            id == self.spec_next_id(),
    {
        self.next_id
    }

    /// Record a registration under the next id, which the system accepted
    /// (`accepted`) or refused; the id is used up either way.
    pub fn register(&mut self, hotkey: Hotkey, accepted: bool) -> (r: Result<i32, HotkeyError>)
        requires
            old(self).spec_next_id() < i32::MAX,
        ensures
            final(self).spec_next_id() == old(self).spec_next_id() + 1,
            !old(self).spec_hotkeys().contains_key(old(self).spec_next_id()),
            accepted ==> r == Ok::<i32, HotkeyError>(old(self).spec_next_id()) && final(self).spec_hotkeys()
                == old(self).spec_hotkeys().insert(old(self).spec_next_id(), hotkey),
            !accepted ==> r == Err::<i32, HotkeyError>(HotkeyError::RegisterFailed) && final(self).spec_hotkeys()
                == old(self).spec_hotkeys(),
    {
        broadcast use vstd::std_specs::hash::group_hash_axioms;
        proof {
            use_type_invariant(&*self);
        }
        let id = self.next_id;
        let mut table = HashMap::new();
        std::mem::swap(&mut table, &mut self.hotkeys);
        if accepted {
            table.insert(id, hotkey);
        }
        *self = HotkeyManager { hotkeys: table, next_id: id + 1 };
        if accepted {
            Ok(id)
        } else {
            Err(HotkeyError::RegisterFailed)
        }
    }

    /// Parse `s` for `action`: the hotkey to register, or the error when
    /// the text names no key.
    pub fn hotkey_from_string(s: &str, action: HotkeyAction) -> (r: Result<Hotkey, HotkeyError>)
        ensures
            r == (match parse_hotkey(s@, action) {
                Some(h) => Ok::<Hotkey, HotkeyError>(h),
                None => Err(HotkeyError::InvalidHotkeyString),
            }),
    {
        match Hotkey::parse(s, action) {
            Some(h) => Ok(h),
            None => Err(HotkeyError::InvalidHotkeyString),
        }
    }

    /// Record the release of hotkey `id`, which the system accepted or refused.
    pub fn unregister(&mut self, id: i32, accepted: bool) -> (r: Result<(), HotkeyError>)
        ensures
            final(self).spec_next_id() == old(self).spec_next_id(),
            accepted ==> r is Ok && final(self).spec_hotkeys() == old(self).spec_hotkeys().remove(id),
            !accepted ==> r == Err::<(), HotkeyError>(HotkeyError::UnregisterFailed) && final(self).spec_hotkeys()
                == old(self).spec_hotkeys(),
    {
        broadcast use vstd::std_specs::hash::group_hash_axioms;
        proof {
            use_type_invariant(&*self);
        }
        if accepted {
            let mut table = HashMap::new();
            std::mem::swap(&mut table, &mut self.hotkeys);
            table.remove(&id);
            let next = self.next_id;
            *self = HotkeyManager { hotkeys: table, next_id: next };
            Ok(())
        } else {
            Err(HotkeyError::UnregisterFailed)
        }
    }

    /// The action of the hotkey that a hotkey message names (its parameter,
    /// truncated to an id).
    pub fn handle_hotkey(&self, wparam: usize) -> (r: Option<HotkeyAction>)
        ensures
            ({
                let id = wparam as i32;
                r == (if self.spec_hotkeys().contains_key(id) {
                    Some(self.spec_hotkeys()[id].action)
                } else {
                    None
                })
            }),
    {
        broadcast use vstd::std_specs::hash::group_hash_axioms;
        let id = wparam as i32;
        match self.hotkeys.get(&id) {
            Some(h) => Some(h.action),
            None => None,
        }
    }

    /// Get registered hotkeys
    pub fn hotkeys(&self) -> (r: &HashMap<i32, Hotkey>)
        ensures
            r@ == self.spec_hotkeys(),
    {
        &self.hotkeys
    }
}

/// What the bar does when a registered hotkey is pressed.
#[derive(Debug, Clone, Copy, PartialEq, Eq, Structural)]
pub enum HotkeyResponse {
    /// Open the quick search box
    ShowQuickSearch,
    /// Show or hide the bar
    ToggleBar,
    /// Nothing
    Ignore,
}

/// What the bar does for a pressed hotkey's action: quick search opens
/// the search box, toggling the bar shows or hides it, the other actions
/// do nothing there.
pub fn hotkey_response(action: HotkeyAction) -> (r: HotkeyResponse)
    ensures
        r == (match action {
            HotkeyAction::QuickSearch => HotkeyResponse::ShowQuickSearch,
            HotkeyAction::ToggleBar => HotkeyResponse::ToggleBar,
            _ => HotkeyResponse::Ignore,
        }),
{
    match action {
        HotkeyAction::QuickSearch => HotkeyResponse::ShowQuickSearch,
        HotkeyAction::ToggleBar => HotkeyResponse::ToggleBar,
        _ => HotkeyResponse::Ignore,
    }
}

/// The configured hotkeys to register, in order: toggle bar, open menu,
/// quick search, toggle theme, each when it is set.
pub open spec fn default_requests(c: HotkeyConfig) -> Seq<(Seq<char>, HotkeyAction)> {
    let a: Seq<(Seq<char>, HotkeyAction)> = match c.toggle_bar {
        Some(s) => seq![(s@, HotkeyAction::ToggleBar)],
        None => Seq::empty(),
    };
    let b: Seq<(Seq<char>, HotkeyAction)> = match c.open_menu {
        Some(s) => seq![(s@, HotkeyAction::OpenMenu)],
        None => Seq::empty(),
    };
    let q: Seq<(Seq<char>, HotkeyAction)> = match c.quick_search {
        Some(s) => seq![(s@, HotkeyAction::QuickSearch)],
        None => Seq::empty(),
    };
    let t: Seq<(Seq<char>, HotkeyAction)> = match c.toggle_theme {
        Some(s) => seq![(s@, HotkeyAction::ToggleTheme)],
        None => Seq::empty(),
    };
    a + b + q + t
}

fn push_request(v: &mut Vec<(String, HotkeyAction)>, s: &Option<String>, action: HotkeyAction)
    ensures
        final(v)@.map_values(|p: (String, HotkeyAction)| (p.0@, p.1)) == old(v)@.map_values(
            |p: (String, HotkeyAction)| (p.0@, p.1),
        ) + match s {
            Some(x) => seq![(x@, action)],
            None => Seq::<(Seq<char>, HotkeyAction)>::empty(),
        },
{
    match s {
        Some(x) => {
            v.push((x.clone(), action));
            assert(v@.map_values(|p: (String, HotkeyAction)| (p.0@, p.1)) == old(v)@.map_values(
                |p: (String, HotkeyAction)| (p.0@, p.1),
            ).push((x@, action)));
        },
        None => {
            assert(v@.map_values(|p: (String, HotkeyAction)| (p.0@, p.1)) == old(v)@.map_values(
                |p: (String, HotkeyAction)| (p.0@, p.1),
            ) + Seq::<(Seq<char>, HotkeyAction)>::empty());
        },
    }
}

/// The hotkey texts and actions that the configuration asks to register.
pub fn default_hotkey_requests(config: &HotkeyConfig) -> (r: Vec<(String, HotkeyAction)>)
    ensures
        r@.map_values(|p: (String, HotkeyAction)| (p.0@, p.1)) == default_requests(*config),
{
    let mut v: Vec<(String, HotkeyAction)> = Vec::new();
    push_request(&mut v, &config.toggle_bar, HotkeyAction::ToggleBar);
    push_request(&mut v, &config.open_menu, HotkeyAction::OpenMenu);
    push_request(&mut v, &config.quick_search, HotkeyAction::QuickSearch);
    push_request(&mut v, &config.toggle_theme, HotkeyAction::ToggleTheme);
    v
}

/// The fixed id under which the bar registers its toggle hotkey.
pub const HK_TOGGLE_BAR: i32 = 6000;

/// The fixed id of the app-menu hotkey.
pub const HK_OPEN_MENU: i32 = 6001;

/// The fixed id of the quick-search hotkey.
pub const HK_QUICK_SEARCH: i32 = 6002;

/// The fixed id of the theme hotkey.
pub const HK_TOGGLE_THEME: i32 = 6003;

/// The hotkey for a configured text, under a fixed id: none when the text
/// is unset or does not parse.
pub open spec fn fixed_hotkey(id: i32, s: Option<String>, action: HotkeyAction) -> Seq<(i32, Hotkey)> {
    match s {
        Some(t) => match parse_hotkey(t@, action) {
            Some(h) => seq![(id, h)],
            None => Seq::empty(),
        },
        None => Seq::empty(),
    }
}

/// The hotkeys that the bar window registers when it is created, each
/// under its fixed id, in order: toggle bar, open menu, quick search (only
/// when quick search is enabled), toggle theme; each one whose configured
/// text is set and parses.
pub open spec fn window_hotkey_plan(c: HotkeyConfig, search_enabled: bool) -> Seq<(i32, Hotkey)> {
    fixed_hotkey(HK_TOGGLE_BAR, c.toggle_bar, HotkeyAction::ToggleBar) + fixed_hotkey(
        HK_OPEN_MENU,
        c.open_menu,
        HotkeyAction::OpenMenu,
    ) + (if search_enabled {
        fixed_hotkey(HK_QUICK_SEARCH, c.quick_search, HotkeyAction::QuickSearch)
    } else {
        Seq::empty()
    }) + fixed_hotkey(HK_TOGGLE_THEME, c.toggle_theme, HotkeyAction::ToggleTheme)
}

fn push_fixed(v: &mut Vec<(i32, Hotkey)>, id: i32, s: &Option<String>, action: HotkeyAction)
    ensures
        final(v)@ == old(v)@ + fixed_hotkey(id, *s, action),
{
    match s {
        Some(t) => match Hotkey::parse(t.as_str(), action) {
            Some(h) => {
                v.push((id, h));
            },
            None => {
                assert(old(v)@ + Seq::<(i32, Hotkey)>::empty() == old(v)@);
            },
        },
        None => {
            assert(old(v)@ + Seq::<(i32, Hotkey)>::empty() == old(v)@);
        },
    }
}

/// The hotkeys to register with the window (see `window_hotkey_plan`).
pub fn window_hotkeys(config: &HotkeyConfig, search_enabled: bool) -> (r: Vec<(i32, Hotkey)>)
    ensures
        r@ == window_hotkey_plan(*config, search_enabled),
{
    let mut v: Vec<(i32, Hotkey)> = Vec::new();
    push_fixed(&mut v, HK_TOGGLE_BAR, &config.toggle_bar, HotkeyAction::ToggleBar);
    push_fixed(&mut v, HK_OPEN_MENU, &config.open_menu, HotkeyAction::OpenMenu);
    if search_enabled {
        push_fixed(&mut v, HK_QUICK_SEARCH, &config.quick_search, HotkeyAction::QuickSearch);
    } else {
        assert(v@ + Seq::<(i32, Hotkey)>::empty() == v@);
    }
    push_fixed(&mut v, HK_TOGGLE_THEME, &config.toggle_theme, HotkeyAction::ToggleTheme);
    assert(v@ =~= window_hotkey_plan(*config, search_enabled));
    v
}

/// Registering a hotkey under a fresh id and then releasing that id leaves
/// the registrations as they were.
pub proof fn lemma_register_then_unregister(before: Map<i32, Hotkey>, id: i32, h: Hotkey)
    requires
        !before.contains_key(id),
    ensures
        before.insert(id, h).remove(id) == before,
{
    assert(before.insert(id, h).remove(id) =~= before);
}

/// The name a key is known by, its short alias mapped to its full name.
pub open spec fn canonical_key_name(s: Seq<char>) -> Seq<char> {
    if s == "RETURN"@ {
        "ENTER"@
    } else if s == "ESC"@ {
        "ESCAPE"@
    } else if s == "DEL"@ {
        "DELETE"@
    } else if s == "INS"@ {
        "INSERT"@
    } else if s == "PGUP"@ {
        "PAGEUP"@
    } else if s == "PGDN"@ {
        "PAGEDOWN"@
    } else {
        s
    }
}

/// Named keys are told apart: two names give the same virtual-key code
/// only when they name the same key (one is the other's short alias).
pub proof fn lemma_named_keys_distinct(a: Seq<char>, b: Seq<char>)
    requires
        named_key_code(a) is Some,
        named_key_code(a) == named_key_code(b),
    ensures
        canonical_key_name(a) == canonical_key_name(b),
{
    reveal_strlit("SPACE");
    reveal_strlit("ENTER");
    reveal_strlit("RETURN");
    reveal_strlit("TAB");
    reveal_strlit("ESCAPE");
    reveal_strlit("ESC");
    reveal_strlit("BACKSPACE");
    reveal_strlit("DELETE");
    reveal_strlit("DEL");
    reveal_strlit("INSERT");
    reveal_strlit("INS");
    reveal_strlit("HOME");
    reveal_strlit("END");
    reveal_strlit("PAGEUP");
    reveal_strlit("PGUP");
    reveal_strlit("PAGEDOWN");
    reveal_strlit("PGDN");
    reveal_strlit("UP");
    reveal_strlit("DOWN");
    reveal_strlit("LEFT");
    reveal_strlit("RIGHT");
    reveal_strlit("F1");
    reveal_strlit("F2");
    reveal_strlit("F3");
    reveal_strlit("F4");
    reveal_strlit("F5");
    reveal_strlit("F6");
    reveal_strlit("F7");
    reveal_strlit("F8");
    reveal_strlit("F9");
    reveal_strlit("F10");
    reveal_strlit("F11");
    reveal_strlit("F12");
    // The names differ from each short alias.
    assert("SPACE"@.len() != "RETURN"@.len());
    assert("SPACE"@.len() != "ESC"@.len());
    assert("SPACE"@.len() != "DEL"@.len());
    assert("SPACE"@.len() != "INS"@.len());
    assert("SPACE"@.len() != "PGUP"@.len());
    assert("SPACE"@.len() != "PGDN"@.len());
    assert("ENTER"@.len() != "RETURN"@.len());
    assert("ENTER"@.len() != "ESC"@.len());
    assert("ENTER"@.len() != "DEL"@.len());
    assert("ENTER"@.len() != "INS"@.len());
    assert("ENTER"@.len() != "PGUP"@.len());
    assert("ENTER"@.len() != "PGDN"@.len());
    assert("RETURN"@.len() != "ESC"@.len());
    assert("RETURN"@.len() != "DEL"@.len());
    assert("RETURN"@.len() != "INS"@.len());
    assert("RETURN"@.len() != "PGUP"@.len());
    assert("RETURN"@.len() != "PGDN"@.len());
    assert("TAB"@.len() != "RETURN"@.len());
    assert("TAB"@[0] != "ESC"@[0]);
    assert("TAB"@[0] != "DEL"@[0]);
    assert("TAB"@[0] != "INS"@[0]);
    assert("TAB"@.len() != "PGUP"@.len());
    assert("TAB"@.len() != "PGDN"@.len());
    assert("ESCAPE"@[0] != "RETURN"@[0]);
    assert("ESCAPE"@.len() != "ESC"@.len());
    assert("ESCAPE"@.len() != "DEL"@.len());
    assert("ESCAPE"@.len() != "INS"@.len());
    assert("ESCAPE"@.len() != "PGUP"@.len());
    assert("ESCAPE"@.len() != "PGDN"@.len());
    assert("ESC"@.len() != "RETURN"@.len());
    assert("ESC"@[0] != "DEL"@[0]);
    assert("ESC"@[0] != "INS"@[0]);
    assert("ESC"@.len() != "PGUP"@.len());
    assert("ESC"@.len() != "PGDN"@.len());
    assert("BACKSPACE"@.len() != "RETURN"@.len());
    assert("BACKSPACE"@.len() != "ESC"@.len());
    assert("BACKSPACE"@.len() != "DEL"@.len());
    assert("BACKSPACE"@.len() != "INS"@.len());
    assert("BACKSPACE"@.len() != "PGUP"@.len());
    assert("BACKSPACE"@.len() != "PGDN"@.len());
    assert("DELETE"@[0] != "RETURN"@[0]);
    assert("DELETE"@.len() != "ESC"@.len());
    assert("DELETE"@.len() != "DEL"@.len());
    assert("DELETE"@.len() != "INS"@.len());
    assert("DELETE"@.len() != "PGUP"@.len());
    assert("DELETE"@.len() != "PGDN"@.len());
    assert("DEL"@.len() != "RETURN"@.len());
    assert("DEL"@[0] != "ESC"@[0]);
    assert("DEL"@[0] != "INS"@[0]);
    assert("DEL"@.len() != "PGUP"@.len());
    assert("DEL"@.len() != "PGDN"@.len());
    assert("INSERT"@[0] != "RETURN"@[0]);
    assert("INSERT"@.len() != "ESC"@.len());
    assert("INSERT"@.len() != "DEL"@.len());
    assert("INSERT"@.len() != "INS"@.len());
    assert("INSERT"@.len() != "PGUP"@.len());
    assert("INSERT"@.len() != "PGDN"@.len());
    assert("INS"@.len() != "RETURN"@.len());
    assert("INS"@[0] != "ESC"@[0]);
    assert("INS"@[0] != "DEL"@[0]);
    assert("INS"@.len() != "PGUP"@.len());
    assert("INS"@.len() != "PGDN"@.len());
    assert("HOME"@.len() != "RETURN"@.len());
    assert("HOME"@.len() != "ESC"@.len());
    assert("HOME"@.len() != "DEL"@.len());
    assert("HOME"@.len() != "INS"@.len());
    assert("HOME"@[0] != "PGUP"@[0]);
    assert("HOME"@[0] != "PGDN"@[0]);
    assert("END"@.len() != "RETURN"@.len());
    assert("END"@[1] != "ESC"@[1]);
    assert("END"@[0] != "DEL"@[0]);
    assert("END"@[0] != "INS"@[0]);
    assert("END"@.len() != "PGUP"@.len());
    assert("END"@.len() != "PGDN"@.len());
    assert("PAGEUP"@[0] != "RETURN"@[0]);
    assert("PAGEUP"@.len() != "ESC"@.len());
    assert("PAGEUP"@.len() != "DEL"@.len());
    assert("PAGEUP"@.len() != "INS"@.len());
    assert("PAGEUP"@.len() != "PGUP"@.len());
    assert("PAGEUP"@.len() != "PGDN"@.len());
    assert("PGUP"@.len() != "RETURN"@.len());
    assert("PGUP"@.len() != "ESC"@.len());
    assert("PGUP"@.len() != "DEL"@.len());
    assert("PGUP"@.len() != "INS"@.len());
    assert("PGUP"@[2] != "PGDN"@[2]);
    assert("PAGEDOWN"@.len() != "RETURN"@.len());
    assert("PAGEDOWN"@.len() != "ESC"@.len());
    assert("PAGEDOWN"@.len() != "DEL"@.len());
    assert("PAGEDOWN"@.len() != "INS"@.len());
    assert("PAGEDOWN"@.len() != "PGUP"@.len());
    assert("PAGEDOWN"@.len() != "PGDN"@.len());
    assert("PGDN"@.len() != "RETURN"@.len());
    assert("PGDN"@.len() != "ESC"@.len());
    assert("PGDN"@.len() != "DEL"@.len());
    assert("PGDN"@.len() != "INS"@.len());
    assert("PGDN"@[2] != "PGUP"@[2]);
    assert("UP"@.len() != "RETURN"@.len());
    assert("UP"@.len() != "ESC"@.len());
    assert("UP"@.len() != "DEL"@.len());
    assert("UP"@.len() != "INS"@.len());
    assert("UP"@.len() != "PGUP"@.len());
    assert("UP"@.len() != "PGDN"@.len());
    assert("DOWN"@.len() != "RETURN"@.len());
    assert("DOWN"@.len() != "ESC"@.len());
    assert("DOWN"@.len() != "DEL"@.len());
    assert("DOWN"@.len() != "INS"@.len());
    assert("DOWN"@[0] != "PGUP"@[0]);
    assert("DOWN"@[0] != "PGDN"@[0]);
    assert("LEFT"@.len() != "RETURN"@.len());
    assert("LEFT"@.len() != "ESC"@.len());
    assert("LEFT"@.len() != "DEL"@.len());
    assert("LEFT"@.len() != "INS"@.len());
    assert("LEFT"@[0] != "PGUP"@[0]);
    assert("LEFT"@[0] != "PGDN"@[0]);
    assert("RIGHT"@.len() != "RETURN"@.len());
    assert("RIGHT"@.len() != "ESC"@.len());
    assert("RIGHT"@.len() != "DEL"@.len());
    assert("RIGHT"@.len() != "INS"@.len());
    assert("RIGHT"@.len() != "PGUP"@.len());
    assert("RIGHT"@.len() != "PGDN"@.len());
    assert("F1"@.len() != "RETURN"@.len());
    assert("F1"@.len() != "ESC"@.len());
    assert("F1"@.len() != "DEL"@.len());
    assert("F1"@.len() != "INS"@.len());
    assert("F1"@.len() != "PGUP"@.len());
    assert("F1"@.len() != "PGDN"@.len());
    assert("F2"@.len() != "RETURN"@.len());
    assert("F2"@.len() != "ESC"@.len());
    assert("F2"@.len() != "DEL"@.len());
    assert("F2"@.len() != "INS"@.len());
    assert("F2"@.len() != "PGUP"@.len());
    assert("F2"@.len() != "PGDN"@.len());
    assert("F3"@.len() != "RETURN"@.len());
    assert("F3"@.len() != "ESC"@.len());
    assert("F3"@.len() != "DEL"@.len());
    assert("F3"@.len() != "INS"@.len());
    assert("F3"@.len() != "PGUP"@.len());
    assert("F3"@.len() != "PGDN"@.len());
    assert("F4"@.len() != "RETURN"@.len());
    assert("F4"@.len() != "ESC"@.len());
    assert("F4"@.len() != "DEL"@.len());
    assert("F4"@.len() != "INS"@.len());
    assert("F4"@.len() != "PGUP"@.len());
    assert("F4"@.len() != "PGDN"@.len());
    assert("F5"@.len() != "RETURN"@.len());
    assert("F5"@.len() != "ESC"@.len());
    assert("F5"@.len() != "DEL"@.len());
    assert("F5"@.len() != "INS"@.len());
    assert("F5"@.len() != "PGUP"@.len());
    assert("F5"@.len() != "PGDN"@.len());
    assert("F6"@.len() != "RETURN"@.len());
    assert("F6"@.len() != "ESC"@.len());
    assert("F6"@.len() != "DEL"@.len());
    assert("F6"@.len() != "INS"@.len());
    assert("F6"@.len() != "PGUP"@.len());
    assert("F6"@.len() != "PGDN"@.len());
    assert("F7"@.len() != "RETURN"@.len());
    assert("F7"@.len() != "ESC"@.len());
    assert("F7"@.len() != "DEL"@.len());
    assert("F7"@.len() != "INS"@.len());
    assert("F7"@.len() != "PGUP"@.len());
    assert("F7"@.len() != "PGDN"@.len());
    assert("F8"@.len() != "RETURN"@.len());
    assert("F8"@.len() != "ESC"@.len());
    assert("F8"@.len() != "DEL"@.len());
    assert("F8"@.len() != "INS"@.len());
    assert("F8"@.len() != "PGUP"@.len());
    assert("F8"@.len() != "PGDN"@.len());
    assert("F9"@.len() != "RETURN"@.len());
    assert("F9"@.len() != "ESC"@.len());
    assert("F9"@.len() != "DEL"@.len());
    assert("F9"@.len() != "INS"@.len());
    assert("F9"@.len() != "PGUP"@.len());
    assert("F9"@.len() != "PGDN"@.len());
    assert("F10"@.len() != "RETURN"@.len());
    assert("F10"@[0] != "ESC"@[0]);
    assert("F10"@[0] != "DEL"@[0]);
    assert("F10"@[0] != "INS"@[0]);
    assert("F10"@.len() != "PGUP"@.len());
    assert("F10"@.len() != "PGDN"@.len());
    assert("F11"@.len() != "RETURN"@.len());
    assert("F11"@[0] != "ESC"@[0]);
    assert("F11"@[0] != "DEL"@[0]);
    assert("F11"@[0] != "INS"@[0]);
    assert("F11"@.len() != "PGUP"@.len());
    assert("F11"@.len() != "PGDN"@.len());
    assert("F12"@.len() != "RETURN"@.len());
    assert("F12"@[0] != "ESC"@[0]);
    assert("F12"@[0] != "DEL"@[0]);
    assert("F12"@[0] != "INS"@[0]);
    assert("F12"@.len() != "PGUP"@.len());
    assert("F12"@.len() != "PGDN"@.len());
}

/// The arrow keys take Windows' consecutive codes from `VK_LEFT` (0x25):
/// left, up, right, down; so up and down differ.
pub proof fn lemma_arrow_keys()
    ensures
        named_key_code("LEFT"@) == Some(0x25u32),
        named_key_code("UP"@) == Some((named_key_code("LEFT"@)->0 + 1) as u32),
        named_key_code("RIGHT"@) == Some((named_key_code("UP"@)->0 + 1) as u32),
        named_key_code("DOWN"@) == Some((named_key_code("RIGHT"@)->0 + 1) as u32),
        named_key_code("UP"@) != named_key_code("DOWN"@),
{

    reveal_strlit("SPACE");
    reveal_strlit("ENTER");
    reveal_strlit("RETURN");
    reveal_strlit("TAB");
    reveal_strlit("ESCAPE");
    reveal_strlit("ESC");
    reveal_strlit("BACKSPACE");
    reveal_strlit("DELETE");
    reveal_strlit("DEL");
    reveal_strlit("INSERT");
    reveal_strlit("INS");
    reveal_strlit("HOME");
    reveal_strlit("END");
    reveal_strlit("PAGEUP");
    reveal_strlit("PGUP");
    reveal_strlit("PAGEDOWN");
    reveal_strlit("PGDN");
    reveal_strlit("UP");
    reveal_strlit("DOWN");
    reveal_strlit("LEFT");
    reveal_strlit("RIGHT");
    reveal_strlit("F1");
    reveal_strlit("F2");
    reveal_strlit("F3");
    reveal_strlit("F4");
    reveal_strlit("F5");
    reveal_strlit("F6");
    reveal_strlit("F7");
    reveal_strlit("F8");
    reveal_strlit("F9");
    reveal_strlit("F10");
    reveal_strlit("F11");
    reveal_strlit("F12");
    assert("LEFT"@.len() != "SPACE"@.len());
    assert("LEFT"@.len() != "ENTER"@.len());
    assert("LEFT"@.len() != "RETURN"@.len());
    assert("LEFT"@.len() != "TAB"@.len());
    assert("LEFT"@.len() != "ESCAPE"@.len());
    assert("LEFT"@.len() != "ESC"@.len());
    assert("LEFT"@.len() != "BACKSPACE"@.len());
    assert("LEFT"@.len() != "DELETE"@.len());
    assert("LEFT"@.len() != "DEL"@.len());
    assert("LEFT"@.len() != "INSERT"@.len());
    assert("LEFT"@.len() != "INS"@.len());
    assert("LEFT"@[0] != "HOME"@[0]);
    assert("LEFT"@.len() != "END"@.len());
    assert("LEFT"@.len() != "PAGEUP"@.len());
    assert("LEFT"@[0] != "PGUP"@[0]);
    assert("LEFT"@.len() != "PAGEDOWN"@.len());
    assert("LEFT"@[0] != "PGDN"@[0]);
    assert("LEFT"@.len() != "UP"@.len());
    assert("LEFT"@[0] != "DOWN"@[0]);
    assert("LEFT"@.len() != "RIGHT"@.len());
    assert("LEFT"@.len() != "F1"@.len());
    assert("LEFT"@.len() != "F2"@.len());
    assert("LEFT"@.len() != "F3"@.len());
    assert("LEFT"@.len() != "F4"@.len());
    assert("LEFT"@.len() != "F5"@.len());
    assert("LEFT"@.len() != "F6"@.len());
    assert("LEFT"@.len() != "F7"@.len());
    assert("LEFT"@.len() != "F8"@.len());
    assert("LEFT"@.len() != "F9"@.len());
    assert("LEFT"@.len() != "F10"@.len());
    assert("LEFT"@.len() != "F11"@.len());
    assert("LEFT"@.len() != "F12"@.len());
    assert("UP"@.len() != "SPACE"@.len());
    assert("UP"@.len() != "ENTER"@.len());
    assert("UP"@.len() != "RETURN"@.len());
    assert("UP"@.len() != "TAB"@.len());
    assert("UP"@.len() != "ESCAPE"@.len());
    assert("UP"@.len() != "ESC"@.len());
    assert("UP"@.len() != "BACKSPACE"@.len());
    assert("UP"@.len() != "DELETE"@.len());
    assert("UP"@.len() != "DEL"@.len());
    assert("UP"@.len() != "INSERT"@.len());
    assert("UP"@.len() != "INS"@.len());
    assert("UP"@.len() != "HOME"@.len());
    assert("UP"@.len() != "END"@.len());
    assert("UP"@.len() != "PAGEUP"@.len());
    assert("UP"@.len() != "PGUP"@.len());
    assert("UP"@.len() != "PAGEDOWN"@.len());
    assert("UP"@.len() != "PGDN"@.len());
    assert("UP"@.len() != "DOWN"@.len());
    assert("UP"@.len() != "LEFT"@.len());
    assert("UP"@.len() != "RIGHT"@.len());
    assert("UP"@[0] != "F1"@[0]);
    assert("UP"@[0] != "F2"@[0]);
    assert("UP"@[0] != "F3"@[0]);
    assert("UP"@[0] != "F4"@[0]);
    assert("UP"@[0] != "F5"@[0]);
    assert("UP"@[0] != "F6"@[0]);
    assert("UP"@[0] != "F7"@[0]);
    assert("UP"@[0] != "F8"@[0]);
    assert("UP"@[0] != "F9"@[0]);
    assert("UP"@.len() != "F10"@.len());
    assert("UP"@.len() != "F11"@.len());
    assert("UP"@.len() != "F12"@.len());
    assert("RIGHT"@[0] != "SPACE"@[0]);
    assert("RIGHT"@[0] != "ENTER"@[0]);
    assert("RIGHT"@.len() != "RETURN"@.len());
    assert("RIGHT"@.len() != "TAB"@.len());
    assert("RIGHT"@.len() != "ESCAPE"@.len());
    assert("RIGHT"@.len() != "ESC"@.len());
    assert("RIGHT"@.len() != "BACKSPACE"@.len());
    assert("RIGHT"@.len() != "DELETE"@.len());
    assert("RIGHT"@.len() != "DEL"@.len());
    assert("RIGHT"@.len() != "INSERT"@.len());
    assert("RIGHT"@.len() != "INS"@.len());
    assert("RIGHT"@.len() != "HOME"@.len());
    assert("RIGHT"@.len() != "END"@.len());
    assert("RIGHT"@.len() != "PAGEUP"@.len());
    assert("RIGHT"@.len() != "PGUP"@.len());
    assert("RIGHT"@.len() != "PAGEDOWN"@.len());
    assert("RIGHT"@.len() != "PGDN"@.len());
    assert("RIGHT"@.len() != "UP"@.len());
    assert("RIGHT"@.len() != "DOWN"@.len());
    assert("RIGHT"@.len() != "LEFT"@.len());
    assert("RIGHT"@.len() != "F1"@.len());
    assert("RIGHT"@.len() != "F2"@.len());
    assert("RIGHT"@.len() != "F3"@.len());
    assert("RIGHT"@.len() != "F4"@.len());
    assert("RIGHT"@.len() != "F5"@.len());
    assert("RIGHT"@.len() != "F6"@.len());
    assert("RIGHT"@.len() != "F7"@.len());
    assert("RIGHT"@.len() != "F8"@.len());
    assert("RIGHT"@.len() != "F9"@.len());
    assert("RIGHT"@.len() != "F10"@.len());
    assert("RIGHT"@.len() != "F11"@.len());
    assert("RIGHT"@.len() != "F12"@.len());
    assert("DOWN"@.len() != "SPACE"@.len());
    assert("DOWN"@.len() != "ENTER"@.len());
    assert("DOWN"@.len() != "RETURN"@.len());
    assert("DOWN"@.len() != "TAB"@.len());
    assert("DOWN"@.len() != "ESCAPE"@.len());
    assert("DOWN"@.len() != "ESC"@.len());
    assert("DOWN"@.len() != "BACKSPACE"@.len());
    assert("DOWN"@.len() != "DELETE"@.len());
    assert("DOWN"@.len() != "DEL"@.len());
    assert("DOWN"@.len() != "INSERT"@.len());
    assert("DOWN"@.len() != "INS"@.len());
    assert("DOWN"@[0] != "HOME"@[0]);
    assert("DOWN"@.len() != "END"@.len());
    assert("DOWN"@.len() != "PAGEUP"@.len());
    assert("DOWN"@[0] != "PGUP"@[0]);
    assert("DOWN"@.len() != "PAGEDOWN"@.len());
    assert("DOWN"@[0] != "PGDN"@[0]);
    assert("DOWN"@.len() != "UP"@.len());
    assert("DOWN"@[0] != "LEFT"@[0]);
    assert("DOWN"@.len() != "RIGHT"@.len());
    assert("DOWN"@.len() != "F1"@.len());
    assert("DOWN"@.len() != "F2"@.len());
    assert("DOWN"@.len() != "F3"@.len());
    assert("DOWN"@.len() != "F4"@.len());
    assert("DOWN"@.len() != "F5"@.len());
    assert("DOWN"@.len() != "F6"@.len());
    assert("DOWN"@.len() != "F7"@.len());
    assert("DOWN"@.len() != "F8"@.len());
    assert("DOWN"@.len() != "F9"@.len());
    assert("DOWN"@.len() != "F10"@.len());
    assert("DOWN"@.len() != "F11"@.len());
    assert("DOWN"@.len() != "F12"@.len());
}

/// The name of function key `n` (1 to 12): `F` and its number.
pub open spec fn function_key_name(n: nat) -> Seq<char> {
    if n < 10 {
        seq!['F', digit_char(n)]
    } else {
        seq!['F', '1', digit_char((n - 10) as nat)]
    }
}

/// Function key `n` has the virtual-key code `VK_F1 + n - 1` (`VK_F1` is
/// 0x70).
pub proof fn lemma_function_keys(n: nat)
    requires
        1 <= n <= 12,
    ensures
        named_key_code(function_key_name(n)) == Some((0x6F + n) as u32),
{
    reveal_strlit("SPACE");
    reveal_strlit("ENTER");
    reveal_strlit("RETURN");
    reveal_strlit("TAB");
    reveal_strlit("ESCAPE");
    reveal_strlit("ESC");
    reveal_strlit("BACKSPACE");
    reveal_strlit("DELETE");
    reveal_strlit("DEL");
    reveal_strlit("INSERT");
    reveal_strlit("INS");
    reveal_strlit("HOME");
    reveal_strlit("END");
    reveal_strlit("PAGEUP");
    reveal_strlit("PGUP");
    reveal_strlit("PAGEDOWN");
    reveal_strlit("PGDN");
    reveal_strlit("UP");
    reveal_strlit("DOWN");
    reveal_strlit("LEFT");
    reveal_strlit("RIGHT");
    reveal_strlit("F1");
    reveal_strlit("F2");
    reveal_strlit("F3");
    reveal_strlit("F4");
    reveal_strlit("F5");
    reveal_strlit("F6");
    reveal_strlit("F7");
    reveal_strlit("F8");
    reveal_strlit("F9");
    reveal_strlit("F10");
    reveal_strlit("F11");
    reveal_strlit("F12");
    let f = function_key_name(n);
    if n == 1 {
        assert(f =~= "F1"@);
    } else if n == 2 {
        assert(f =~= "F2"@);
    } else if n == 3 {
        assert(f =~= "F3"@);
    } else if n == 4 {
        assert(f =~= "F4"@);
    } else if n == 5 {
        assert(f =~= "F5"@);
    } else if n == 6 {
        assert(f =~= "F6"@);
    } else if n == 7 {
        assert(f =~= "F7"@);
    } else if n == 8 {
        assert(f =~= "F8"@);
    } else if n == 9 {
        assert(f =~= "F9"@);
    } else if n == 10 {
        assert(f =~= "F10"@);
    } else if n == 11 {
        assert(f =~= "F11"@);
    } else {
        assert(f =~= "F12"@);
    }
}

} // verus!
