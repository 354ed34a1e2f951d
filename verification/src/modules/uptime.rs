//! Uptime module: how long the system has been running.

use vstd::prelude::*;
use crate::config::ModulesConfig;
use crate::modules::Module;
use crate::text::{dec, push_dec, push_str, string_of};

verus! {

/// The state of an uptime module.
pub struct UptimeView {
    pub cached_text: Seq<char>,
    pub uptime_secs: u64,
    pub show_days: bool,
    pub compact_format: bool,
}

/// Uptime module
pub struct UptimeModule {
    cached_text: String,
    uptime_secs: u64,
    show_days: bool,
    compact_format: bool,
}

impl View for UptimeModule {
    type V = UptimeView;

    closed spec fn view(&self) -> UptimeView {
        UptimeView {
            cached_text: self.cached_text@,
            uptime_secs: self.uptime_secs,
            show_days: self.show_days,
            compact_format: self.compact_format,
        }
    }
}

/// `word` for one, `words` otherwise.
pub open spec fn plural(n: nat, word: Seq<char>, words: Seq<char>) -> Seq<char> {
    if n == 1 {
        word
    } else {
        words
    }
}

/// The bar text for `secs` seconds of uptime.
pub open spec fn uptime_text(secs: nat, show_days: bool, compact: bool) -> Seq<char> {
    let days = secs / 86400;
    let hours = (secs % 86400) / 3600;
    let minutes = (secs % 3600) / 60;
    if compact {
        if days > 0 && show_days {
            "⏱ "@ + dec(days) + "d "@ + dec(hours) + "h"@
        } else if hours > 0 {
            "⏱ "@ + dec(hours) + "h "@ + dec(minutes) + "m"@
        } else {
            "⏱ "@ + dec(minutes) + "m"@
        }
    } else {
        if days > 0 && show_days {
            "⏱ "@ + dec(days) + " "@ + plural(days, "day"@, "days"@) + ", "@ + dec(hours) + " "@
                + plural(hours, "hour"@, "hours"@)
        } else if hours > 0 {
            "⏱ "@ + dec(hours) + " "@ + plural(hours, "hour"@, "hours"@) + ", "@ + dec(minutes) + " "@
                + plural(minutes, "minute"@, "minutes"@)
        } else {
            "⏱ "@ + dec(minutes) + " "@ + plural(minutes, "minute"@, "minutes"@)
        }
    }
}

/// The full uptime text, down to seconds.
pub open spec fn uptime_full_text(secs: nat) -> Seq<char> {
    let days = secs / 86400;
    let hours = (secs % 86400) / 3600;
    let minutes = (secs % 3600) / 60;
    let seconds = secs % 60;
    if days > 0 {
        dec(days) + " days, "@ + dec(hours) + " hours, "@ + dec(minutes) + " minutes, "@ + dec(seconds)
            + " seconds"@
    } else if hours > 0 {
        dec(hours) + " hours, "@ + dec(minutes) + " minutes, "@ + dec(seconds) + " seconds"@
    } else if minutes > 0 {
        dec(minutes) + " minutes, "@ + dec(seconds) + " seconds"@
    } else {
        dec(seconds) + " seconds"@
    }
}

fn push_count(s: &mut String, n: u64, word: &str, words: &str)
    ensures
        final(s)@ == old(s)@ + dec(n as nat) + " "@ + plural(n as nat, word@, words@),
{
    push_dec(s, n);
    push_str(s, " ");
    if n == 1 {
        push_str(s, word);
    } else {
        push_str(s, words);
    }
}

impl UptimeModule {
    pub fn new() -> (m: UptimeModule)
        ensures
            m@.cached_text == Seq::<char>::empty(),
            m@.uptime_secs == 0,
            m@.show_days,
            m@.compact_format,
    {
        UptimeModule { cached_text: String::new(), uptime_secs: 0, show_days: true, compact_format: true }
    }

    /// Set whether to show days
    pub fn set_show_days(&mut self, show: bool)
        ensures
            final(self)@ == (UptimeView { show_days: show, ..old(self)@ }),
    {
        self.show_days = show;
    }

    /// Set compact format (1d 2h vs 1 day, 2 hours)
    pub fn set_compact_format(&mut self, compact: bool)
        ensures
            final(self)@ == (UptimeView { compact_format: compact, ..old(self)@ }),
    {
        self.compact_format = compact;
    }

    /// Take in the milliseconds since system start and rebuild the text.
    pub fn force_update(&mut self, tick_ms: u64)
        ensures
            final(self)@.uptime_secs == tick_ms / 1000,
            final(self)@.show_days == old(self)@.show_days,
            final(self)@.compact_format == old(self)@.compact_format,
            final(self)@.cached_text == uptime_text(
                (tick_ms / 1000) as nat,
                old(self)@.show_days,
                old(self)@.compact_format,
            ),
    {
        self.uptime_secs = tick_ms / 1000;
        self.cached_text = self.build_display_text();
    }

    /// Build the display text
    pub fn build_display_text(&self) -> (s: String)
        ensures
            s@ == uptime_text(self@.uptime_secs as nat, self@.show_days, self@.compact_format),
    {
        let days = self.uptime_secs / 86400;
        let hours = (self.uptime_secs % 86400) / 3600;
        let minutes = (self.uptime_secs % 3600) / 60;
        let mut s = string_of("⏱ ");
        if self.compact_format {
            if days > 0 && self.show_days {
                push_dec(&mut s, days);
                push_str(&mut s, "d ");
                push_dec(&mut s, hours);
                push_str(&mut s, "h");
            } else if hours > 0 {
                push_dec(&mut s, hours);
                push_str(&mut s, "h ");
                push_dec(&mut s, minutes);
                push_str(&mut s, "m");
            } else {
                push_dec(&mut s, minutes);
                push_str(&mut s, "m");
            }
        } else {
            if days > 0 && self.show_days {
                push_count(&mut s, days, "day", "days");
                push_str(&mut s, ", ");
                push_count(&mut s, hours, "hour", "hours");
            } else if hours > 0 {
                push_count(&mut s, hours, "hour", "hours");
                push_str(&mut s, ", ");
                push_count(&mut s, minutes, "minute", "minutes");
            } else {
                push_count(&mut s, minutes, "minute", "minutes");
            }
        }
        s
    }

    /// Get uptime in seconds
    pub fn uptime_secs(&self) -> (r: u64)
        ensures
            r == self@.uptime_secs,
    {
        self.uptime_secs
    }

    /// Get formatted uptime string (full)
    pub fn formatted_full(&self) -> (s: String)
        ensures
            s@ == uptime_full_text(self@.uptime_secs as nat),
    {
        let days = self.uptime_secs / 86400;
        let hours = (self.uptime_secs % 86400) / 3600;
        let minutes = (self.uptime_secs % 3600) / 60;
        let seconds = self.uptime_secs % 60;
        let mut s = String::new();
        if days > 0 {
            push_dec(&mut s, days);
            push_str(&mut s, " days, ");
            push_dec(&mut s, hours);
            push_str(&mut s, " hours, ");
            push_dec(&mut s, minutes);
            push_str(&mut s, " minutes, ");
        } else if hours > 0 {
            push_dec(&mut s, hours);
            push_str(&mut s, " hours, ");
            push_dec(&mut s, minutes);
            push_str(&mut s, " minutes, ");
        } else if minutes > 0 {
            push_dec(&mut s, minutes);
            push_str(&mut s, " minutes, ");
        }
        push_dec(&mut s, seconds);
        push_str(&mut s, " seconds");
        s
    }

    /// The tooltip text
    pub fn tooltip_text(&self) -> (s: String)
        ensures
            s@ == "System Uptime\n"@ + uptime_full_text(self@.uptime_secs as nat),
    {
        let mut s = string_of("System Uptime\n");
        let f = self.formatted_full();
        push_str(&mut s, f.as_str());
        s
    }
}

impl Module for UptimeModule {
    open spec fn spec_id(&self) -> Seq<char> {
        "uptime"@
    }

    fn id(&self) -> (r: &str) {
        "uptime"
    }

    fn name(&self) -> &str {
        "System Uptime"
    }

    open spec fn spec_text(&self, config: ModulesConfig) -> Seq<char> {
        uptime_text(self@.uptime_secs as nat, self@.show_days, self@.compact_format)
    }

    open spec fn spec_tooltip(&self, r: Option<Seq<char>>) -> bool {
        r == Some("System Uptime\n"@ + uptime_full_text(self@.uptime_secs as nat))
    }

    open spec fn spec_visible(&self) -> bool {
        true
    }

    fn display_text(&self, _config: &ModulesConfig) -> (s: String) {
        self.build_display_text()
    }

    open spec fn spec_refreshed(&self, before: &Self, config: ModulesConfig) -> bool {
        self@ == UptimeView {
            cached_text: uptime_text(before@.uptime_secs as nat, before@.show_days, before@.compact_format),
            ..before@
        }
    }

    fn update(&mut self, _config: &ModulesConfig) {
        self.cached_text = self.build_display_text();
    }

    fn tooltip(&self) -> (r: Option<String>) {
        Some(self.tooltip_text())
    }

    fn is_visible(&self) -> (b: bool) {
        true
    }

    fn preferred_width(&self) -> i32 {
        0
    }
}

} // verus!
