//! Quick search box: what typing, the arrow keys, Enter, Escape and clicks
//! do to it, which search it asks for, and the texts it shows. Drawing the
//! window and running the search are left to the caller.

use vstd::prelude::*;
use crate::config::views;
use crate::text::{chars_of, dec, push_char, push_dec, push_str, string_from_range, string_of};

verus! {

/// Width of the search window.
pub const WIN_WIDTH: i32 = 680;

/// Height of the search window.
pub const WIN_HEIGHT: i32 = 420;

/// Height of one result row.
pub const ROW_HEIGHT: i32 = 44;

/// Where the first result row starts.
pub const RESULTS_START_Y: i32 = 60;

/// How many results are shown (and can be selected with the arrow keys).
pub const MAX_RESULTS: usize = 8;

/// How many results a search asks for.
pub const SEARCH_LIMIT: usize = 200;

/// Virtual-key code of Escape.
pub const VK_ESCAPE: u32 = 0x1B;

/// Virtual-key code of the up arrow.
pub const VK_UP: u32 = 0x26;

/// Virtual-key code of the down arrow.
pub const VK_DOWN: u32 = 0x28;

/// Virtual-key code of Enter.
pub const VK_RETURN: u32 = 0x0D;

/// The search that the box asks for after its input changed (at most
/// `SEARCH_LIMIT` results).
#[derive(Debug)]
pub enum SearchQuery {
    /// The input is empty: no search, no results
    Cleared,
    /// Files with this extension (the input starts with '.')
    ByExtension(String),
    /// Files whose name starts with the input
    ByPrefix(String),
}

/// What a key press asks of the window.
#[derive(Debug)]
pub enum KeyOutcome {
    /// Nothing
    Ignored,
    /// Close the window
    Close,
    /// The selection moved from the first row to the second: redraw both
    Moved(usize, usize),
    /// Open this path, then close the window
    Open(String),
}

/// The state of the search box.
pub struct QuickSearchState {
    input: String,
    results: Vec<String>,
    selected: usize,
    focused: bool,
}

/// The state of the search box as plain values.
pub struct QuickSearchView {
    pub input: Seq<char>,
    pub results: Seq<Seq<char>>,
    pub selected: int,
    pub focused: bool,
}

impl View for QuickSearchState {
    type V = QuickSearchView;

    closed spec fn view(&self) -> QuickSearchView {
        QuickSearchView {
            input: self.input@,
            results: views(self.results@),
            selected: self.selected as int,
            focused: self.focused,
        }
    }
}

/// How many of `n` results are shown.
pub open spec fn shown(n: nat) -> nat {
    if n < MAX_RESULTS {
        n
    } else {
        MAX_RESULTS as nat
    }
}

/// The input after a typed character whose code is `code` (only its low
/// byte counts): backspace removes the last character, a printable ASCII
/// character or a space is appended, anything else changes nothing.
pub open spec fn edited(input: Seq<char>, code: usize) -> Seq<char> {
    let b = code % 256;
    if b == 8 {
        if input.len() > 0 {
            input.drop_last()
        } else {
            input
        }
    } else if 0x20 <= b <= 0x7e {
        input.push((b as u8) as char)
    } else {
        input
    }
}

/// `q` is the search asked for with input `input`.
pub open spec fn query_for(q: SearchQuery, input: Seq<char>) -> bool {
    match q {
        SearchQuery::Cleared => input.len() == 0,
        SearchQuery::ByExtension(s) => input.len() > 0 && input[0] == '.' && s@ == input,
        SearchQuery::ByPrefix(s) => input.len() > 0 && input[0] != '.' && s@ == input,
    }
}

/// The selection after an arrow key: up moves back and wraps from the
/// first shown row to the last, down moves on and wraps from the last to
/// the first.
pub open spec fn moved(selected: int, n: nat, up: bool) -> int {
    let m = shown(n) as int;
    if up {
        if selected == 0 {
            m - 1
        } else {
            selected - 1
        }
    } else {
        (selected + 1) % m
    }
}

/// The row under a click at height `y` (none above the results).
pub open spec fn row_at(y: int) -> Option<int> {
    if y >= RESULTS_START_Y {
        Some((y - RESULTS_START_Y) / (ROW_HEIGHT as int))
    } else {
        None
    }
}

/// The text shown while the index is being built: the files scanned so
/// far and, when a total is expected, the share done in percent (at most
/// 100).
pub open spec fn indexing_text(scanned: nat, estimated: nat) -> Seq<char> {
    if estimated > 0 {
        let pct: nat = if scanned * 100 / estimated < 100 {
            scanned * 100 / estimated
        } else {
            100
        };
        "Indexing "@ + dec(scanned) + " files... (~"@ + dec(pct) + "%)"@
    } else {
        "Indexing "@ + dec(scanned) + " files..."@
    }
}

/// The text in the input line: the input, or when it is empty a prompt
/// once the index is ready and the indexing progress before.
pub open spec fn input_line(input: Seq<char>, index_ready: bool, scanned: nat, estimated: nat) -> Seq<char> {
    if input.len() == 0 && index_ready {
        "Search files..."@
    } else if input.len() == 0 {
        indexing_text(scanned, estimated)
    } else {
        input
    }
}

/// The message in place of results: none while there are results or the
/// index is not ready, else a prompt for an empty input and a notice for
/// a search that found nothing.
pub open spec fn empty_message_of(v: QuickSearchView, index_ready: bool) -> Seq<char> {
    if v.results.len() > 0 || !index_ready {
        Seq::empty()
    } else if v.input.len() == 0 {
        "Start typing to search"@
    } else {
        "No files found"@
    }
}

impl QuickSearchState {
    #[verifier::type_invariant]
    spec fn selection_shown(self) -> bool {
        &&& self.results@.len() == 0 ==> self.selected == 0
        &&& self.results@.len() > 0 ==> self.selected < shown(self.results@.len())
    }

    /// An empty, focused search box.
    pub fn new() -> (s: QuickSearchState)
        ensures
            s@.input.len() == 0,
            s@.results.len() == 0,
            s@.selected == 0,
            s@.focused,
    {
        let s = QuickSearchState { input: String::new(), results: Vec::new(), selected: 0, focused: true };
        assert(views(s.results@).len() == 0);
        s
    }

    /// Take in a typed character (see `edited`): the results are cleared,
    /// the first row is selected, and the search for the new input is
    /// returned.
    pub fn on_char(&mut self, code: usize) -> (q: SearchQuery)
        ensures
            final(self)@.input == edited(old(self)@.input, code),
            final(self)@.results.len() == 0,
            final(self)@.selected == 0,
            final(self)@.focused == old(self)@.focused,
            query_for(q, final(self)@.input),
    {
        let b = code % 256;
        let mut input = chars_of(self.input.as_str());
        if b == 8 {
            if input.len() > 0 {
                let last = input.len() - 1;
                let kept = string_from_range(&input, 0, last);
                assert(input@.subrange(0, last as int) == input@.drop_last());
                input = chars_of(kept.as_str());
            }
        } else if 0x20 <= b && b <= 0x7e {
            let c = (b as u8) as char;
            input.push(c);
        }
        let text = string_from_range(&input, 0, input.len());
        assert(input@.subrange(0, input@.len() as int) == input@);
        self.selected = 0;
        self.results = Vec::new();
        self.input = text;
        assert(views(self.results@).len() == 0);
        if input.len() == 0 {
            SearchQuery::Cleared
        } else if input[0] == '.' {
            SearchQuery::ByExtension(string_from_range(&input, 0, input.len()))
        } else {
            SearchQuery::ByPrefix(string_from_range(&input, 0, input.len()))
        }
    }

    /// Take in the results of the search that was asked for; the first row
    /// is selected.
    pub fn set_results(&mut self, results: Vec<String>)
        ensures
            final(self)@.results == views(results@),
            final(self)@.input == old(self)@.input,
            final(self)@.selected == 0,
            final(self)@.focused == old(self)@.focused,
    {
        self.selected = 0;
        self.results = results;
    }

    /// Take in a key press: Escape closes; the arrows move the selection
    /// among the shown rows (see `moved`) when there are results; Enter
    /// opens the selected result; other keys do nothing.
    pub fn on_key(&mut self, vk: u32) -> (k: KeyOutcome)
        ensures
            ({
                let v = old(self)@;
                let n = v.results.len();
                if vk == VK_ESCAPE {
                    k is Close && final(self)@ == v
                } else if (vk == VK_UP || vk == VK_DOWN) && n > 0 {
                    let to = moved(v.selected, n, vk == VK_UP);
                    &&& k matches KeyOutcome::Moved(a, b) && a == v.selected && b == to
                    &&& final(self)@ == (QuickSearchView { selected: to, ..v })
                } else if vk == VK_RETURN && 0 <= v.selected < n {
                    &&& k matches KeyOutcome::Open(p) && p@ == v.results[v.selected]
                    &&& final(self)@ == v
                } else {
                    k is Ignored && final(self)@ == v
                }
            }),
    {
        proof {
            use_type_invariant(&*self);
        }
        if vk == VK_ESCAPE {
            KeyOutcome::Close
        } else if (vk == VK_UP || vk == VK_DOWN) && self.results.len() > 0 {
            let m = if self.results.len() < MAX_RESULTS {
                self.results.len()
            } else {
                MAX_RESULTS
            };
            let from = self.selected;
            let to = if vk == VK_UP {
                if from == 0 {
                    m - 1
                } else {
                    from - 1
                }
            } else {
                (from + 1) % m
            };
            self.selected = to;
            KeyOutcome::Moved(from, to)
        } else if vk == VK_RETURN && self.selected < self.results.len() {
            KeyOutcome::Open(self.results[self.selected].clone())
        } else {
            KeyOutcome::Ignored
        }
    }

    /// The result to open for a click at height `y`: the one in the row
    /// under it (see `row_at`), if there is such a result.
    pub fn on_click(&self, y: i32) -> (r: Option<String>)
        ensures
            match row_at(y as int) {
                Some(i) if 0 <= i < self@.results.len() => r matches Some(p) && p@ == self@.results[i],
                _ => r is None,
            },
    {
        if y >= RESULTS_START_Y {
            let d = (y - RESULTS_START_Y) as u32;
            let idx = (d / (ROW_HEIGHT as u32)) as usize;
            if idx < self.results.len() {
                return Some(self.results[idx].clone());
            }
        }
        None
    }

    /// The window gained or lost the keyboard focus.
    pub fn set_focused(&mut self, focused: bool)
        ensures
            final(self)@ == (QuickSearchView { focused, ..old(self)@ }),
    {
        proof {
            use_type_invariant(&*self);
        }
        self.focused = focused;
    }

    /// The text in the input line (see `input_line`).
    pub fn input_text(&self, index_ready: bool, scanned: usize, estimated: usize) -> (s: String)
        requires
            self@.input.len() == 0 && !index_ready && estimated > 0 ==> scanned * 100 <= usize::MAX,
        ensures
            s@ == input_line(self@.input, index_ready, scanned as nat, estimated as nat),
    {
        if self.input.as_str().is_empty() && index_ready {
            string_of("Search files...")
        } else if self.input.as_str().is_empty() {
            let mut s = string_of("Indexing ");
            push_dec(&mut s, scanned as u64);
            if estimated > 0 {
                let q = scanned * 100 / estimated;
                let pct = if q < 100 {
                    q
                } else {
                    100
                };
                push_str(&mut s, " files... (~");
                push_dec(&mut s, pct as u64);
                push_str(&mut s, "%)");
            } else {
                push_str(&mut s, " files...");
            }
            s
        } else {
            string_of(self.input.as_str())
        }
    }

    /// Whether the cursor is drawn after the input: with the focus and some
    /// input.
    pub fn shows_cursor(&self) -> (b: bool)
        ensures
            b == (self@.focused && self@.input.len() > 0),
    {
        self.focused && !self.input.as_str().is_empty()
    }

    /// The message shown in place of results (see `empty_message_of`).
    pub fn empty_message(&self, index_ready: bool) -> (s: String)
        ensures
            s@ == empty_message_of(self@, index_ready),
    {
        if self.results.len() > 0 || !index_ready {
            String::new()
        } else if self.input.as_str().is_empty() {
            string_of("Start typing to search")
        } else {
            string_of("No files found")
        }
    }

    /// The key hint at the bottom, shown while there are results.
    pub fn footer_hint(&self) -> (s: String)
        ensures
            self@.results.len() > 0 ==> s@ == "↑↓ Navigate  ⏎ Open  Esc Close"@,
            self@.results.len() == 0 ==> s@.len() == 0,
    {
        if self.results.len() > 0 {
            string_of("↑↓ Navigate  ⏎ Open  Esc Close")
        } else {
            String::new()
        }
    }

    /// How many results are shown.
    pub fn shown_count(&self) -> (n: usize)
        ensures
            n == shown(self@.results.len()),
    {
        if self.results.len() < MAX_RESULTS {
            self.results.len()
        } else {
            MAX_RESULTS
        }
    }

    /// The current input.
    pub fn input(&self) -> (r: &str)
        ensures
            r@ == self@.input,
    {
        self.input.as_str()
    }

    /// The current results.
    pub fn results(&self) -> (r: &[String])
        ensures
            views(r@) == self@.results,
    {
        self.results.as_slice()
    }

    /// The selected row: always one of the shown rows (the first when
    /// there are no results).
    pub fn selected(&self) -> (i: usize)
        ensures
            i == self@.selected,
            self@.results.len() == 0 ==> i == 0,
            self@.results.len() > 0 ==> i < shown(self@.results.len()),
    {
        proof {
            use_type_invariant(self);
        }
        self.selected
    }
}

} // verus!
