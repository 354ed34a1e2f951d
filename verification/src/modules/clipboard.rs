//! Clipboard history: the most recent distinct clipboard texts, newest first.

use vstd::prelude::*;
use crate::config::{views, ModulesConfig};
use crate::modules::Module;
use crate::text::{chars_of, dec, push_dec, push_str, string_of, trim, trim_bounds};
use crate::utils::{truncate_string, truncated};

verus! {

/// `history` without the entries equal to `t`.
pub open spec fn without(history: Seq<Seq<char>>, t: Seq<char>) -> Seq<Seq<char>>
    decreases history.len(),
{
    if history.len() == 0 {
        history
    } else if history.last() != t {
        without(history.drop_last(), t).push(history.last())
    } else {
        without(history.drop_last(), t)
    }
}

/// The history after copying `t`: `t` in front, its older copies removed, cut to `max` entries.
pub open spec fn record_text(history: Seq<Seq<char>>, t: Seq<char>, max: nat) -> Seq<Seq<char>> {
    let h = seq![t] + without(history, t);
    if h.len() > max {
        h.take(max as int)
    } else {
        h
    }
}

/// The history after the clipboard was read: blank text and a repeat of the
/// newest entry leave it unchanged.
pub open spec fn poll_result(history: Seq<Seq<char>>, text: Option<Seq<char>>, max: nat) -> Seq<Seq<char>> {
    match text {
        None => history,
        Some(t) => if trim(t).len() == 0 || (history.len() > 0 && history[0] == t) {
            history
        } else {
            record_text(history, t, max)
        },
    }
}

/// The state of a clipboard module.
pub struct ClipboardView {
    pub history: Seq<Seq<char>>,
    pub max_entries: usize,
    pub cached_text: Seq<char>,
}

/// Clipboard manager module
pub struct ClipboardModule {
    history: Vec<String>,
    max_entries: usize,
    cached_text: String,
}

impl View for ClipboardModule {
    type V = ClipboardView;

    closed spec fn view(&self) -> ClipboardView {
        ClipboardView { history: views(self.history@), max_entries: self.max_entries, cached_text: self.cached_text@ }
    }
}

/// Recording a text puts it first, keeps the entries distinct and within the
/// limit, and drops nothing else but the oldest entries beyond the limit.
pub proof fn lemma_record_laws(history: Seq<Seq<char>>, t: Seq<char>, max: nat)
    requires
        history.no_duplicates(),
        history.len() <= max,
        max > 0,
    ensures
        record_text(history, t, max).len() > 0,
        record_text(history, t, max)[0] == t,
        record_text(history, t, max).no_duplicates(),
        record_text(history, t, max).len() <= max,
        forall|x: Seq<char>| #[trigger] record_text(history, t, max).contains(x) ==> x == t || history.contains(x),
        !history.contains(t) && history.len() < max ==> forall|x: Seq<char>|
            history.contains(x) ==> #[trigger] record_text(history, t, max).contains(x),
{
    let f = without(history, t);
    let h = seq![t] + f;
    lemma_filter_facts(history, t);
    assert(h[0] == t);
    assert forall|i: int, j: int| 0 <= i < h.len() && 0 <= j < h.len() && i != j implies h[i] != h[j] by {
        if i > 0 && j > 0 {
            assert(h[i] == f[i - 1] && h[j] == f[j - 1]);
        } else if i == 0 {
            assert(h[j] == f[j - 1]);
            assert(f.contains(f[j - 1]));
        } else {
            assert(h[i] == f[i - 1]);
            assert(f.contains(f[i - 1]));
        }
    }
    let r = record_text(history, t, max);
    assert forall|x: Seq<char>| #[trigger] r.contains(x) implies x == t || history.contains(x) by {
        let k = choose|k: int| 0 <= k < r.len() && r[k] == x;
        assert(h[k] == x);
        if k > 0 {
            assert(f[k - 1] == x);
            assert(f.contains(x));
        }
    }
    if !history.contains(t) && history.len() < max {
        assert(f == history) by {
                        assert forall|x: Seq<char>| history.contains(x) implies x != t by {}
            lemma_filter_all(history, t);
        }
        assert forall|x: Seq<char>| history.contains(x) implies #[trigger] r.contains(x) by {
            let k = choose|k: int| 0 <= k < history.len() && history[k] == x;
            assert(h[k + 1] == x);
            assert(r[k + 1] == x);
        }
    }
}

proof fn lemma_filter_facts(history: Seq<Seq<char>>, t: Seq<char>)
    requires
        history.no_duplicates(),
    ensures
        without(history, t).no_duplicates(),
        !without(history, t).contains(t),
        without(history, t).len() <= history.len(),
        forall|x: Seq<char>| #[trigger] without(history, t).contains(x) ==> history.contains(x),
    decreases history.len(),
{
    if history.len() > 0 {
        let rest = history.drop_last();
        assert forall|i: int, j: int| 0 <= i < rest.len() && 0 <= j < rest.len() && i != j implies rest[i] != rest[j] by {
            assert(rest[i] == history[i] && rest[j] == history[j]);
        }
        lemma_filter_facts(rest, t);
        let fr = without(rest, t);
        let f = without(history, t);
        if history.last() != t {
            assert(f == fr.push(history.last()));
            assert(!fr.contains(history.last())) by {
                if fr.contains(history.last()) {
                    let k = choose|k: int| 0 <= k < rest.len() && rest[k] == history.last();
                    assert(history[k] == history[history.len() - 1]);
                }
            }
            assert forall|i: int, j: int| 0 <= i < f.len() && 0 <= j < f.len() && i != j implies f[i] != f[j] by {
                if i < fr.len() && j < fr.len() {
                } else if i == fr.len() {
                    assert(fr.contains(fr[j]));
                } else {
                    assert(fr.contains(fr[i]));
                }
            }
            assert forall|x: Seq<char>| #[trigger] f.contains(x) implies history.contains(x) by {
                let k = choose|k: int| 0 <= k < f.len() && f[k] == x;
                if k < fr.len() {
                    assert(fr.contains(x));
                    let m = choose|m: int| 0 <= m < rest.len() && rest[m] == x;
                    assert(history[m] == x);
                } else {
                    assert(history[history.len() - 1] == x);
                }
            }
        } else {
            assert(f == fr);
            assert forall|x: Seq<char>| #[trigger] f.contains(x) implies history.contains(x) by {
                assert(fr.contains(x));
                let m = choose|m: int| 0 <= m < rest.len() && rest[m] == x;
                assert(history[m] == x);
            }
        }
    }
}

proof fn lemma_filter_all(history: Seq<Seq<char>>, t: Seq<char>)
    requires
        !history.contains(t),
    ensures
        without(history, t) == history,
    decreases history.len(),
{
    if history.len() > 0 {
        let rest = history.drop_last();
        assert(!rest.contains(t)) by {
            if rest.contains(t) {
                let k = choose|k: int| 0 <= k < rest.len() && rest[k] == t;
                assert(history[k] == t);
            }
        }
        lemma_filter_all(rest, t);
        assert(history.last() != t) by {
            assert(history[history.len() - 1] == history.last());
        }
        assert(history == rest.push(history.last()));
    }
}

impl ClipboardModule {
    #[verifier::type_invariant]
    spec fn distinct_and_bounded(self) -> bool {
        &&& views(self.history@).no_duplicates()
        &&& self.history@.len() <= self.max_entries
        &&& self.max_entries > 0
    }

    pub fn new() -> (m: ClipboardModule)
        ensures
            m@.history.len() == 0,
            m@.max_entries == 10,
            m@.cached_text == "📋"@,
    {
        let m = ClipboardModule { history: Vec::new(), max_entries: 10, cached_text: string_of("📋") };
        assert(views(m.history@).len() == 0);
        m
    }

    /// Get the history, newest first
    pub fn get_history(&self) -> (r: Vec<String>)
        ensures
            views(r@) == self@.history,
    {
        let mut r: Vec<String> = Vec::new();
        let mut i: usize = 0;
        while i < self.history.len()
            invariant
                i <= self.history@.len(),
                views(r@) == views(self.history@).take(i as int),
            decreases self.history.len() - i,
        {
            r.push(self.history[i].clone());
            assert(views(self.history@).take(i + 1) == views(self.history@).take(i as int).push(self.history@[i as int]@));
            i += 1;
        }
        assert(views(self.history@).take(self.history@.len() as int) == views(self.history@));
        r
    }

    /// Take in what was read from the clipboard (`None` when it could not be read)
    /// and update the history when it changed.
    pub fn poll_clipboard(&mut self, text: Option<String>)
        ensures
            final(self)@.history == poll_result(
                old(self)@.history,
                crate::modules::network::opt_view(text),
                old(self)@.max_entries as nat,
            ),
            final(self)@.max_entries == old(self)@.max_entries,
            final(self)@.cached_text == (match text {
                Some(t) => if trim(t@).len() != 0 && !(old(self)@.history.len() > 0 && old(self)@.history[0]
                    == t@) {
                    "📋 "@ + truncated(t@, 25)
                } else {
                    old(self)@.cached_text
                },
                None => old(self)@.cached_text,
            }),
    {
        proof {
            use_type_invariant(&*self);
        }
        let t = match text {
            Some(t) => t,
            None => return ,
        };
        let v = chars_of(t.as_str());
        let (lo, hi) = trim_bounds(&v);
        if lo == hi {
            return ;
        }
        if self.history.len() > 0 && self.history[0] == t {
            return ;
        }
        self.record(t);
    }

    fn record(&mut self, t: String)
        requires
            trim(t@).len() != 0,
            !(old(self)@.history.len() > 0 && old(self)@.history[0] == t@),
        ensures
            final(self)@.history == record_text(old(self)@.history, t@, old(self)@.max_entries as nat),
            final(self)@.max_entries == old(self)@.max_entries,
            final(self)@.cached_text == "📋 "@ + truncated(t@, 25),
    {
        proof {
            use_type_invariant(&*self);
        }
        let ghost old_h = views(self.history@);
        let max = self.max_entries;
        let mut kept: Vec<String> = Vec::new();
        kept.push(t.clone());
        let mut i: usize = 0;
        assert(views(self.history@).take(0) == Seq::<Seq<char>>::empty());
        assert(without(old_h.take(0), t@) == Seq::<Seq<char>>::empty()) by {
            }
        while i < self.history.len()
            invariant
                i <= self.history@.len(),
                old_h == views(self.history@),
                views(kept@) == seq![t@] + without(old_h.take(i as int), t@),
            decreases self.history.len() - i,
        {
                assert(old_h.take(i + 1).drop_last() == old_h.take(i as int));
            assert(old_h.take(i + 1).last() == self.history@[i as int]@);
            let same = self.history[i] == t;
            if !same {
                let ghost before = kept@;
                kept.push(self.history[i].clone());
                assert(views(kept@) == views(before).push(self.history@[i as int]@));
            }
            i += 1;
        }
        assert(old_h.take(self.history@.len() as int) == old_h);
        if kept.len() > max {
            kept.truncate(max);
        }
        proof {
            lemma_record_laws(old_h, t@, max as nat);
            assert(views(kept@) == record_text(old_h, t@, max as nat));
        }
        let mut text = string_of("📋 ");
        let cut = truncate_string(t.as_str(), 25);
        push_str(&mut text, cut.as_str());
        *self = ClipboardModule { history: kept, max_entries: max, cached_text: text };
    }

    /// The tooltip text
    pub fn tooltip_text(&self) -> (s: String)
        ensures
            s@ == clipboard_tooltip(self@),
    {
        if self.history.len() == 0 {
            return string_of("No clipboard history");
        }
        let mut s = truncate_string(self.history[0].as_str(), 80);
        push_str(&mut s, "\n");
        push_dec(&mut s, self.history.len() as u64);
        push_str(&mut s, " entries");
        s
    }
}

/// The tooltip: the latest entry cut to 80 characters and the number of
/// entries, or a note that the history is empty.
pub open spec fn clipboard_tooltip(v: ClipboardView) -> Seq<char> {
    if v.history.len() == 0 {
        "No clipboard history"@
    } else {
        truncated(v.history[0], 80) + "\n"@ + dec(v.history.len()) + " entries"@
    }
}

impl Module for ClipboardModule {
    open spec fn spec_id(&self) -> Seq<char> {
        "clipboard"@
    }

    fn id(&self) -> (r: &str) {
        "clipboard"
    }

    fn name(&self) -> &str {
        "Clipboard"
    }

    open spec fn spec_refreshed(&self, before: &Self, config: ModulesConfig) -> bool {
        *self == *before
    }

    open spec fn spec_text(&self, config: ModulesConfig) -> Seq<char> {
        "📋"@
    }

    open spec fn spec_tooltip(&self, r: Option<Seq<char>>) -> bool {
        r == Some(clipboard_tooltip(self@))
    }

    open spec fn spec_visible(&self) -> bool {
        true
    }

    fn display_text(&self, _config: &ModulesConfig) -> (s: String) {
        string_of("📋")
    }

    fn update(&mut self, _config: &ModulesConfig) {
    }

    fn tooltip(&self) -> (r: Option<String>) {
        Some(self.tooltip_text())
    }

    fn is_visible(&self) -> (b: bool) {
        true
    }

    fn preferred_width(&self) -> i32 {
        0
    }
}

} // verus!
