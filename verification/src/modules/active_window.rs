//! Active window module: which application has the focus, with a short
//! debounce so that windows that only pass through the focus (the task
//! switcher, the bar itself) are not shown.

use vstd::prelude::*;
use crate::config::ModulesConfig;
use crate::modules::Module;
use crate::text::{
    chars_of, contains_seq, has_infix, lower, push_char, push_str, same_text, string_from_range,
    string_of, to_lower, to_upper, trim_end_all, trim_end_matches, upper,
};
use crate::utils::{truncate_string, truncated};

verus! {

/// How long, in milliseconds, a new focus must last before it is shown.
pub const FOCUS_DEBOUNCE_MS: u64 = 200;

/// The longest text shown in the bar.
pub const MAX_TITLE_LENGTH: usize = 50;

/// What the system reports of the foreground window.
pub struct ForegroundWindow {
    /// The window's title
    pub title: String,
    /// The display name of its process (the file name of its image)
    pub process: String,
    /// Its process id (0 when unknown)
    pub pid: u32,
    /// The full path of its image (empty when it could not be read)
    pub path: String,
}

/// The state of an active-window module.
pub struct ActiveWindowView {
    pub cached_text: Seq<char>,
    pub window_title: Seq<char>,
    pub process_name: Seq<char>,
    pub last_title: Seq<char>,
    pub last_process: Seq<char>,
    pub process_path: Seq<char>,
    pub process_pid: u32,
    pub candidate_title: Seq<char>,
    pub candidate_process: Seq<char>,
    pub candidate_path: Seq<char>,
    pub candidate_pid: u32,
    pub candidate_since: Option<u64>,
}

/// Active window module
pub struct ActiveWindowModule {
    cached_text: String,
    window_title: String,
    process_name: String,
    last_non_topbar_title: String,
    last_non_topbar_process: String,
    process_path: String,
    process_pid: u32,
    candidate_title: String,
    candidate_process: String,
    candidate_process_path: String,
    candidate_pid: u32,
    candidate_since: Option<u64>,
}

impl View for ActiveWindowModule {
    type V = ActiveWindowView;

    closed spec fn view(&self) -> ActiveWindowView {
        ActiveWindowView {
            cached_text: self.cached_text@,
            window_title: self.window_title@,
            process_name: self.process_name@,
            last_title: self.last_non_topbar_title@,
            last_process: self.last_non_topbar_process@,
            process_path: self.process_path@,
            process_pid: self.process_pid,
            candidate_title: self.candidate_title@,
            candidate_process: self.candidate_process@,
            candidate_path: self.candidate_process_path@,
            candidate_pid: self.candidate_pid,
            candidate_since: self.candidate_since,
        }
    }
}

/// The first character of `s` upper-cased (its first upper-case character,
/// or itself when upper-casing gives nothing).
pub open spec fn capitalized(s: Seq<char>) -> Seq<char> {
    if s.len() == 0 {
        s
    } else {
        let u = upper(seq![s[0]]);
        let first = if u.len() > 0 {
            u[0]
        } else {
            s[0]
        };
        s.update(0, first)
    }
}

/// The bar text for a process name: "Desktop" when there is none, else the
/// name without its `.exe` / `.EXE` endings and with a capital first letter.
pub open spec fn app_label(process: Seq<char>) -> Seq<char> {
    if process.len() == 0 {
        "Desktop"@
    } else {
        capitalized(trim_end_all(trim_end_all(process, ".exe"@), ".EXE"@))
    }
}

/// The window belongs to the bar itself.
pub open spec fn is_own_window(title: Seq<char>, process: Seq<char>, pid: u32, own_pid: u32) -> bool {
    (pid != 0 && pid == own_pid) || has_infix(lower(process), "topbar"@) || has_infix(lower(title), "topbar"@)
        || lower(title) == "topbar"@
}

/// The window belongs to the shell (passing focus during task switching).
pub open spec fn is_shell_window(title: Seq<char>, process: Seq<char>) -> bool {
    has_infix(lower(process), "explorer"@) || has_infix(lower(title), "explorer"@)
}

/// The state after the focus decision for a window with `title`, `process`
/// and `pid`, observed at `now` (milliseconds); the bar text is left as it was.
pub open spec fn focus_step(
    v: ActiveWindowView,
    title: Seq<char>,
    process: Seq<char>,
    pid: u32,
    own_pid: u32,
    alt_down: bool,
    now: u64,
) -> ActiveWindowView {
    if is_own_window(title, process, pid, own_pid) || (is_shell_window(title, process) && alt_down) {
        let shown = if v.last_title.len() > 0 {
            ActiveWindowView { window_title: v.last_title, process_name: v.last_process, ..v }
        } else {
            v
        };
        ActiveWindowView {
            candidate_since: None,
            candidate_title: Seq::empty(),
            candidate_process: Seq::empty(),
            candidate_pid: 0,
            ..shown
        }
    } else if title == v.last_title && process == v.last_process {
        ActiveWindowView { window_title: title, process_name: process, candidate_since: None, ..v }
    } else if v.last_title.len() == 0 {
        ActiveWindowView {
            last_title: title,
            last_process: process,
            window_title: title,
            process_name: process,
            candidate_since: None,
            ..v
        }
    } else if v.candidate_since is None || v.candidate_title != title || v.candidate_process != process
        || v.candidate_pid != pid {
        ActiveWindowView {
            candidate_title: title,
            candidate_process: process,
            candidate_path: v.process_path,
            candidate_pid: pid,
            candidate_since: Some(now),
            ..v
        }
    } else if now - v.candidate_since->0 >= FOCUS_DEBOUNCE_MS {
        ActiveWindowView {
            last_title: v.candidate_title,
            last_process: v.candidate_process,
            window_title: v.candidate_title,
            process_name: v.candidate_process,
            process_pid: v.candidate_pid,
            process_path: v.candidate_path,
            candidate_since: None,
            ..v
        }
    } else {
        v
    }
}

/// The state after observing the foreground window (`None`: there is none)
/// at `now`: the window's path and pid are recorded, the focus decided, and
/// the bar text rebuilt from the process name shown.
pub open spec fn observed(
    v: ActiveWindowView,
    window: Option<(Seq<char>, Seq<char>, u32, Seq<char>)>,
    own_pid: u32,
    alt_down: bool,
    now: u64,
) -> ActiveWindowView {
    let (recorded, title, process, pid) = match window {
        Some((t, p, id, path)) => (
            ActiveWindowView {
                process_path: if path.len() > 0 {
                    path
                } else {
                    v.process_path
                },
                process_pid: id,
                ..v
            },
            t,
            p,
            id,
        ),
        None => (v, Seq::<char>::empty(), Seq::<char>::empty(), 0u32),
    };
    let s = focus_step(recorded, title, process, pid, own_pid, alt_down, now);
    ActiveWindowView { cached_text: app_label(s.process_name), ..s }
}

/// A shown or remembered window that names the bar itself: a non-empty
/// title or process whose lower-cased form mentions "topbar".
pub open spec fn names_bar(title: Seq<char>, process: Seq<char>) -> bool {
    &&& (title.len() > 0 || process.len() > 0)
    &&& (has_infix(lower(process), "topbar"@) || has_infix(lower(title), "topbar"@) || lower(title) == "topbar"@)
}

/// Neither the window shown, nor the one remembered, nor the one waiting
/// to be shown names the bar.
pub open spec fn shows_no_bar(v: ActiveWindowView) -> bool {
    &&& !names_bar(v.window_title, v.process_name)
    &&& !names_bar(v.last_title, v.last_process)
    &&& !names_bar(v.candidate_title, v.candidate_process)
}

/// The module never shows the bar itself: a module that has observed
/// nothing shows no bar window, and observing any foreground window keeps
/// it so (the bar's own window leaves the last other window shown).
pub proof fn lemma_never_shows_bar(
    v: ActiveWindowView,
    window: Option<(Seq<char>, Seq<char>, u32, Seq<char>)>,
    own_pid: u32,
    alt_down: bool,
    now: u64,
)
    requires
        shows_no_bar(v),
    ensures
        shows_no_bar(observed(v, window, own_pid, alt_down, now)),
        shows_no_bar(
            ActiveWindowView {
                window_title: Seq::empty(),
                process_name: Seq::empty(),
                last_title: Seq::empty(),
                last_process: Seq::empty(),
                candidate_title: Seq::empty(),
                candidate_process: Seq::empty(),
                ..v
            },
        ),
{
}

/// The plain-value form of an observed window.
pub open spec fn window_view(w: Option<ForegroundWindow>) -> Option<(Seq<char>, Seq<char>, u32, Seq<char>)> {
    match w {
        Some(x) => Some((x.title@, x.process@, x.pid, x.path@)),
        None => None,
    }
}

/// The text shown for a process name (see `app_label`).
pub fn app_label_text(process: &str) -> (r: String)
    ensures
        r@ == app_label(process@),
{
    if process.unicode_len() == 0 {
        return string_of("Desktop");
    }
    let v = chars_of(process);
    let exe = chars_of(".exe");
    let exe_upper = chars_of(".EXE");
    let e1 = trim_end_matches(&v, v.len(), &exe);
    assert(v@.take(v.len() as int) == v@);
    let e2 = trim_end_matches(&v, e1, &exe_upper);
    let ghost name = v@.take(e2 as int);
    assert(name == trim_end_all(trim_end_all(process@, ".exe"@), ".EXE"@));
    if e2 == 0 {
        return string_from_range(&v, 0, 0);
    }
    let mut one = String::new();
    push_char(&mut one, v[0]);
    let up = to_upper(one.as_str());
    let uv = chars_of(up.as_str());
    let first = if uv.len() > 0 {
        uv[0]
    } else {
        v[0]
    };
    let mut r = String::new();
    push_char(&mut r, first);
    let rest = string_from_range(&v, 1, e2);
    push_str(&mut r, rest.as_str());
    assert(r@ == capitalized(name));
    r
}

/// Whether `lc` (lower-cased) contains `pat`.
fn has_word(lc: &String, pat: &str) -> (b: bool)
    ensures
        b == has_infix(lc@, pat@),
{
    let v = chars_of(lc.as_str());
    let p = chars_of(pat);
    contains_seq(&v, &p)
}

impl ActiveWindowModule {
    /// A module that has observed nothing yet.
    pub fn new() -> (m: ActiveWindowModule)
        ensures
            m@.window_title == Seq::<char>::empty(),
            m@.process_name == Seq::<char>::empty(),
            m@.last_title == Seq::<char>::empty(),
            m@.last_process == Seq::<char>::empty(),
            m@.process_path == Seq::<char>::empty(),
            m@.process_pid == 0,
            m@.candidate_title == Seq::<char>::empty(),
            m@.candidate_process == Seq::<char>::empty(),
            m@.candidate_path == Seq::<char>::empty(),
            m@.candidate_pid == 0,
            m@.candidate_since is None,
            m@.cached_text == app_label(Seq::empty()),
    {
        proof {
            reveal_strlit("");
        }
        ActiveWindowModule {
            cached_text: app_label_text(""),
            window_title: String::new(),
            process_name: String::new(),
            last_non_topbar_title: String::new(),
            last_non_topbar_process: String::new(),
            process_path: String::new(),
            process_pid: 0,
            candidate_title: String::new(),
            candidate_process: String::new(),
            candidate_process_path: String::new(),
            candidate_pid: 0,
            candidate_since: None,
        }
    }

    /// Take in what the system reports of the foreground window (`None`: no
    /// foreground window) at `now_ms`, with the bar's own process id and
    /// whether Alt is held.
    pub fn observe(&mut self, window: Option<ForegroundWindow>, own_pid: u32, alt_down: bool, now_ms: u64)
        ensures
            final(self)@ == observed(old(self)@, window_view(window), own_pid, alt_down, now_ms),
    {
        let ghost w = window_view(window);
        let (title, process, pid) = match window {
            Some(fw) => {
                if fw.path.unicode_len() > 0 {
                    self.process_path = fw.path;
                }
                self.process_pid = fw.pid;
                (fw.title, fw.process, fw.pid)
            },
            None => (String::new(), String::new(), 0u32),
        };
        let ghost recorded = self@;
        let ghost gt = title@;
        let ghost gp = process@;
        let lc_proc = to_lower(process.as_str());
        let lc_title = to_lower(title.as_str());
        let is_topbar = (pid != 0 && pid == own_pid) || has_word(&lc_proc, "topbar") || has_word(
            &lc_title,
            "topbar",
        ) || same_text(lc_title.as_str(), "topbar");
        let is_explorer = has_word(&lc_proc, "explorer") || has_word(&lc_title, "explorer");
        if is_topbar || (is_explorer && alt_down) {
            if self.last_non_topbar_title.unicode_len() > 0 {
                self.window_title = self.last_non_topbar_title.clone();
                self.process_name = self.last_non_topbar_process.clone();
            }
            self.candidate_since = None;
            self.candidate_title = String::new();
            self.candidate_process = String::new();
            self.candidate_pid = 0;
        } else if same_text(title.as_str(), self.last_non_topbar_title.as_str()) && same_text(
            process.as_str(),
            self.last_non_topbar_process.as_str(),
        ) {
            self.window_title = title;
            self.process_name = process;
            self.candidate_since = None;
        } else if self.last_non_topbar_title.unicode_len() == 0 {
            self.last_non_topbar_title = title.clone();
            self.last_non_topbar_process = process.clone();
            self.window_title = title;
            self.process_name = process;
            self.candidate_since = None;
        } else {
            let same_candidate = match self.candidate_since {
                Some(_) => same_text(self.candidate_title.as_str(), title.as_str()) && same_text(
                    self.candidate_process.as_str(),
                    process.as_str(),
                ) && self.candidate_pid == pid,
                None => false,
            };
            if !same_candidate {
                self.candidate_title = title;
                self.candidate_process = process;
                self.candidate_process_path = self.process_path.clone();
                self.candidate_pid = pid;
                self.candidate_since = Some(now_ms);
            } else {
                let since = match self.candidate_since {
                    Some(s) => s,
                    None => now_ms,
                };
                if now_ms.saturating_sub(since) >= FOCUS_DEBOUNCE_MS {
                    self.last_non_topbar_title = self.candidate_title.clone();
                    self.last_non_topbar_process = self.candidate_process.clone();
                    self.window_title = self.candidate_title.clone();
                    self.process_name = self.candidate_process.clone();
                    self.process_pid = self.candidate_pid;
                    self.process_path = self.candidate_process_path.clone();
                    self.candidate_since = None;
                }
            }
        }
        assert(self@ == ActiveWindowView {
            cached_text: self.cached_text@,
            ..focus_step(recorded, gt, gp, pid, own_pid, alt_down, now_ms)
        });
        self.cached_text = app_label_text(self.process_name.as_str());
    }

    /// Get the window title
    pub fn window_title(&self) -> (r: &str)
        ensures
            r@ == self@.window_title,
    {
        self.window_title.as_str()
    }

    /// Get the process name
    pub fn process_name(&self) -> (r: &str)
        ensures
            r@ == self@.process_name,
    {
        self.process_name.as_str()
    }

    /// Get the process path (may be empty if not available)
    pub fn process_path(&self) -> (r: &str)
        ensures
            r@ == self@.process_path,
    {
        self.process_path.as_str()
    }

    /// Get the process id
    pub fn process_id(&self) -> (r: u32)
        ensures
            r == self@.process_pid,
    {
        self.process_pid
    }

    /// The tooltip: the process name and the window title, when there is a title.
    pub fn tooltip_text(&self) -> (r: Option<String>)
        ensures
            r matches Some(s) ==> s@ == self@.process_name + "\n"@ + self@.window_title,
            r is None <==> self@.window_title.len() == 0,
    {
        if self.window_title.unicode_len() == 0 {
            None
        } else {
            let mut s = self.process_name.clone();
            push_str(&mut s, "\n");
            push_str(&mut s, self.window_title.as_str());
            Some(s)
        }
    }

    /// The text shown in the bar: the application label, cut to the longest length.
    pub fn bar_text(&self) -> (r: String)
        ensures
            r@ == truncated(self@.cached_text, MAX_TITLE_LENGTH as nat),
    {
        truncate_string(self.cached_text.as_str(), MAX_TITLE_LENGTH)
    }
}

impl Module for ActiveWindowModule {
    open spec fn spec_id(&self) -> Seq<char> {
        "active_window"@
    }

    fn id(&self) -> (r: &str) {
        "active_window"
    }

    fn name(&self) -> &str {
        "Active Window"
    }

    open spec fn spec_refreshed(&self, before: &Self, config: ModulesConfig) -> bool {
        *self == *before
    }

    open spec fn spec_text(&self, config: ModulesConfig) -> Seq<char> {
        truncated(self@.cached_text, MAX_TITLE_LENGTH as nat)
    }

    open spec fn spec_tooltip(&self, r: Option<Seq<char>>) -> bool {
        if self@.window_title.len() == 0 {
            r is None
        } else {
            r == Some(self@.process_name + "\n"@ + self@.window_title)
        }
    }

    open spec fn spec_visible(&self) -> bool {
        true
    }

    fn display_text(&self, _config: &ModulesConfig) -> (s: String) {
        self.bar_text()
    }

    fn update(&mut self, _config: &ModulesConfig) {
    }

    fn tooltip(&self) -> (r: Option<String>) {
        self.tooltip_text()
    }

    fn is_visible(&self) -> (b: bool) {
        true
    }

    fn preferred_width(&self) -> i32 {
        0
    }
}

} // verus!
