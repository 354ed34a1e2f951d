//! Clock module: the time and date in the bar, formatted by `chrono`.

use vstd::prelude::*;
use chrono::{Datelike, Timelike};
use crate::config::{ClockConfig, ModulesConfig};
use crate::modules::Module;
use crate::text::{dec, dec2, digit_char, push_str};

verus! {

/// A local date and time, as plain values.
#[derive(Debug, Clone, Copy, PartialEq, Eq, Structural)]
pub struct LocalTime {
    pub year: i32,
    /// 1 to 12
    pub month: u32,
    /// 1 to the length of the month
    pub day: u32,
    /// 0 to 23
    pub hour: u32,
    /// 0 to 59
    pub minute: u32,
    /// 0 to 59
    pub second: u32,
}

/// A leap year of the proleptic Gregorian calendar.
pub open spec fn is_leap(y: int) -> bool {
    y % 4 == 0 && (y % 100 != 0 || y % 400 == 0)
}

/// The number of days of month `m` of year `y`.
pub open spec fn days_in_month(y: int, m: int) -> int {
    if m == 2 {
        if is_leap(y) {
            29
        } else {
            28
        }
    } else if m == 4 || m == 6 || m == 9 || m == 11 {
        30
    } else {
        31
    }
}

/// A date and time that `chrono` can represent (years -262143 to 262142).
pub open spec fn valid_local_time(t: LocalTime) -> bool {
    &&& -262143 <= t.year <= 262142
    &&& 1 <= t.month <= 12
    &&& 1 <= t.day <= days_in_month(t.year as int, t.month as int)
    &&& t.hour < 24
    &&& t.minute < 60
    &&& t.second < 60
}

/// Days from 1970-01-01 to the date `y-m-d` (negative before it).
pub open spec fn days_from_epoch(y: int, m: int, d: int) -> int {
    let yy = if m <= 2 {
        y - 1
    } else {
        y
    };
    let era = yy / 400;
    let yoe = yy - era * 400;
    let mp = (m + 9) % 12;
    let doy = (153 * mp + 2) / 5 + d - 1;
    let doe = yoe * 365 + yoe / 4 - yoe / 100 + doy;
    era * 146097 + doe - 719468
}

/// The day of the week of a date, counted from Sunday (0) to Saturday (6).
pub open spec fn weekday_from_sunday(t: LocalTime) -> int {
    (days_from_epoch(t.year as int, t.month as int, t.day as int) + 4) % 7
}

/// The abbreviated English name of weekday `w` (0 is Sunday).
pub open spec fn short_weekday(w: int) -> Seq<char> {
    if w == 0 {
        "Sun"@
    } else if w == 1 {
        "Mon"@
    } else if w == 2 {
        "Tue"@
    } else if w == 3 {
        "Wed"@
    } else if w == 4 {
        "Thu"@
    } else if w == 5 {
        "Fri"@
    } else {
        "Sat"@
    }
}

/// The full English name of weekday `w` (0 is Sunday).
pub open spec fn long_weekday(w: int) -> Seq<char> {
    if w == 0 {
        "Sunday"@
    } else if w == 1 {
        "Monday"@
    } else if w == 2 {
        "Tuesday"@
    } else if w == 3 {
        "Wednesday"@
    } else if w == 4 {
        "Thursday"@
    } else if w == 5 {
        "Friday"@
    } else {
        "Saturday"@
    }
}

/// The abbreviated English name of month `m` (1 is January).
pub open spec fn short_month(m: int) -> Seq<char> {
    if m == 1 {
        "Jan"@
    } else if m == 2 {
        "Feb"@
    } else if m == 3 {
        "Mar"@
    } else if m == 4 {
        "Apr"@
    } else if m == 5 {
        "May"@
    } else if m == 6 {
        "Jun"@
    } else if m == 7 {
        "Jul"@
    } else if m == 8 {
        "Aug"@
    } else if m == 9 {
        "Sep"@
    } else if m == 10 {
        "Oct"@
    } else if m == 11 {
        "Nov"@
    } else {
        "Dec"@
    }
}

/// The full English name of month `m` (1 is January).
pub open spec fn long_month(m: int) -> Seq<char> {
    if m == 1 {
        "January"@
    } else if m == 2 {
        "February"@
    } else if m == 3 {
        "March"@
    } else if m == 4 {
        "April"@
    } else if m == 5 {
        "May"@
    } else if m == 6 {
        "June"@
    } else if m == 7 {
        "July"@
    } else if m == 8 {
        "August"@
    } else if m == 9 {
        "September"@
    } else if m == 10 {
        "October"@
    } else if m == 11 {
        "November"@
    } else {
        "December"@
    }
}

/// `n` (below 10000) with four digits.
pub open spec fn dec4(n: nat) -> Seq<char> {
    seq![digit_char(n / 1000), digit_char((n / 100) % 10), digit_char((n / 10) % 10), digit_char(n % 10)]
}

/// The year as `%Y` writes it: four digits from 0 to 9999, with a sign
/// (and at least four digits) outside that range.
pub open spec fn year_text(y: int) -> Seq<char> {
    if 0 <= y <= 9999 {
        dec4(y as nat)
    } else if y < 0 {
        if -y < 10000 {
            "-"@ + dec4((-y) as nat)
        } else {
            "-"@ + dec((-y) as nat)
        }
    } else {
        "+"@ + dec(y as nat)
    }
}

/// The hour on a 12-hour clock (12 for midnight and noon).
pub open spec fn hour12(h: nat) -> nat {
    if h % 12 == 0 {
        12
    } else {
        h % 12
    }
}

/// "AM" before noon, "PM" from noon.
pub open spec fn am_pm(h: nat) -> Seq<char> {
    if h >= 12 {
        "PM"@
    } else {
        "AM"@
    }
}

/// The `strftime` patterns that the clock and the weather forecast use.
pub open spec fn clock_pattern(p: Seq<char>) -> bool {
    ||| p == "%H:%M:%S"@
    ||| p == "%H:%M"@
    ||| p == "%I:%M:%S %p"@
    ||| p == "%I:%M %p"@
    ||| p == "%a"@
    ||| p == "%b %d"@
    ||| p == "%A, %B %d, %Y\n%I:%M:%S %p"@
    ||| p == "%A"@
    ||| p == "%Y-%m-%d"@
}

/// What `chrono` writes for `t` with one of the clock's patterns.
pub open spec fn pattern_text(t: LocalTime, p: Seq<char>) -> Seq<char> {
    let hh = dec2(t.hour as nat);
    let ii = dec2(hour12(t.hour as nat));
    let mm = dec2(t.minute as nat);
    let ss = dec2(t.second as nat);
    if p == "%H:%M:%S"@ {
        hh + ":"@ + mm + ":"@ + ss
    } else if p == "%H:%M"@ {
        hh + ":"@ + mm
    } else if p == "%I:%M:%S %p"@ {
        ii + ":"@ + mm + ":"@ + ss + " "@ + am_pm(t.hour as nat)
    } else if p == "%I:%M %p"@ {
        ii + ":"@ + mm + " "@ + am_pm(t.hour as nat)
    } else if p == "%a"@ {
        short_weekday(weekday_from_sunday(t))
    } else if p == "%b %d"@ {
        short_month(t.month as int) + " "@ + dec2(t.day as nat)
    } else if p == "%A"@ {
        long_weekday(weekday_from_sunday(t))
    } else if p == "%Y-%m-%d"@ {
        year_text(t.year as int) + "-"@ + dec2(t.month as nat) + "-"@ + dec2(t.day as nat)
    } else {
        long_weekday(weekday_from_sunday(t)) + ", "@ + long_month(t.month as int) + " "@ + dec2(t.day as nat)
            + ", "@ + year_text(t.year as int) + "\n"@ + ii + ":"@ + mm + ":"@ + ss + " "@ + am_pm(
            t.hour as nat,
        )
    }
}

/// Calls `chrono::Local::now`; the result is the local date and time, which
/// `chrono` keeps within the range it can represent.
#[verifier::external_body]
pub(crate) fn local_now() -> (t: LocalTime)
    ensures
        valid_local_time(t),
{
    let n = chrono::Local::now();
    LocalTime { year: n.year(), month: n.month(), day: n.day(), hour: n.hour(), minute: n.minute(), second: n.second() }
}

/// Calls `chrono`'s `format` with one of the clock's patterns on `t` (built
/// with `NaiveDate::from_ymd_opt` and `and_hms_opt`, which accept every valid
/// time) and renders it; the result is the text that the pattern describes.
#[verifier::external_body]
pub(crate) fn format_local(t: &LocalTime, pattern: &str) -> (r: String)
    requires
        valid_local_time(*t),
        clock_pattern(pattern@),
    ensures
        r@ == pattern_text(*t, pattern@),
{
    let d = chrono::NaiveDate::from_ymd_opt(t.year, t.month, t.day).unwrap();
    d.and_hms_opt(t.hour, t.minute, t.second).unwrap().format(pattern).to_string()
}

/// The time part of the clock text under `c`.
pub open spec fn time_part(c: ClockConfig, t: LocalTime) -> Seq<char> {
    if c.format_24h {
        if c.show_seconds {
            pattern_text(t, "%H:%M:%S"@)
        } else {
            pattern_text(t, "%H:%M"@)
        }
    } else if c.show_seconds {
        pattern_text(t, "%I:%M:%S %p"@)
    } else {
        pattern_text(t, "%I:%M %p"@)
    }
}

/// The clock text under `c` at `t`: the day name and a space when shown,
/// the month and day and two spaces when shown, then the time.
pub open spec fn clock_text(c: ClockConfig, t: LocalTime) -> Seq<char> {
    (if c.show_day {
        pattern_text(t, "%a"@) + " "@
    } else {
        Seq::empty()
    }) + (if c.show_date {
        pattern_text(t, "%b %d"@) + "  "@
    } else {
        Seq::empty()
    }) + time_part(c, t)
}

/// With the day shown, the clock text is the abbreviated weekday of `t`
/// and a space, followed by the text the clock shows without the day;
/// whether the date is shown does not matter.
pub proof fn lemma_clock_day_prefix(c: ClockConfig, t: LocalTime)
    ensures
        clock_text(ClockConfig { show_day: true, ..c }, t) == short_weekday(weekday_from_sunday(t)) + " "@
            + clock_text(ClockConfig { show_day: false, ..c }, t),
{
    reveal_strlit("%a");
    reveal_strlit("%H:%M:%S");
    reveal_strlit("%H:%M");
    reveal_strlit("%I:%M:%S %p");
    reveal_strlit("%I:%M %p");
    assert("%a"@.len() != "%H:%M:%S"@.len());
    assert("%a"@.len() != "%H:%M"@.len());
    assert("%a"@.len() != "%I:%M:%S %p"@.len());
    assert("%a"@.len() != "%I:%M %p"@.len());
    let on = ClockConfig { show_day: true, ..c };
    let off = ClockConfig { show_day: false, ..c };
    assert(time_part(on, t) == time_part(off, t));
    assert(clock_text(on, t) =~= short_weekday(weekday_from_sunday(t)) + " "@ + clock_text(off, t));
}

/// With the date shown (and the day not), the clock text is the
/// abbreviated month and the two-digit day of `t` and two spaces, followed
/// by the text the clock shows without the date.
pub proof fn lemma_clock_date_prefix(c: ClockConfig, t: LocalTime)
    ensures
        clock_text(ClockConfig { show_day: false, show_date: true, ..c }, t) == short_month(t.month as int) + " "@
            + dec2(t.day as nat) + "  "@ + clock_text(ClockConfig { show_day: false, show_date: false, ..c }, t),
{
    reveal_strlit("%b %d");
    reveal_strlit("%a");
    reveal_strlit("%H:%M:%S");
    reveal_strlit("%H:%M");
    reveal_strlit("%I:%M:%S %p");
    reveal_strlit("%I:%M %p");
    assert("%b %d"@.len() != "%H:%M:%S"@.len());
    assert("%b %d"@[1] != "%H:%M"@[1]);
    assert("%b %d"@.len() != "%I:%M:%S %p"@.len());
    assert("%b %d"@.len() != "%I:%M %p"@.len());
    assert("%b %d"@.len() != "%a"@.len());
    let on = ClockConfig { show_day: false, show_date: true, ..c };
    let off = ClockConfig { show_day: false, show_date: false, ..c };
    assert(time_part(on, t) == time_part(off, t));
    assert(clock_text(on, t) =~= short_month(t.month as int) + " "@ + dec2(t.day as nat) + "  "@ + clock_text(off, t));
}

/// The tooltip at `t`: the full date and the time with seconds.
pub open spec fn clock_tooltip(t: LocalTime) -> Seq<char> {
    pattern_text(t, "%A, %B %d, %Y\n%I:%M:%S %p"@)
}

/// Format the time `now` as the clock shows it under `config`.
pub fn format_time(config: &ClockConfig, now: &LocalTime) -> (r: String)
    requires
        valid_local_time(*now),
    ensures
        r@ == clock_text(*config, *now),
{
    proof {
        reveal_strlit("%H:%M:%S");
        reveal_strlit("%H:%M");
        reveal_strlit("%I:%M:%S %p");
        reveal_strlit("%I:%M %p");
        reveal_strlit("%a");
        reveal_strlit("%b %d");
        reveal_strlit("%A, %B %d, %Y\n%I:%M:%S %p");
        reveal_strlit("%A");
        reveal_strlit("%Y-%m-%d");
    }
    let time_str = if config.format_24h {
        if config.show_seconds {
            format_local(now, "%H:%M:%S")
        } else {
            format_local(now, "%H:%M")
        }
    } else if config.show_seconds {
        format_local(now, "%I:%M:%S %p")
    } else {
        format_local(now, "%I:%M %p")
    };
    let mut result = String::new();
    if config.show_day {
        let day = format_local(now, "%a");
        push_str(&mut result, day.as_str());
        push_str(&mut result, " ");
    }
    if config.show_date {
        let date = format_local(now, "%b %d");
        push_str(&mut result, date.as_str());
        push_str(&mut result, "  ");
    }
    push_str(&mut result, time_str.as_str());
    result
}

/// The tooltip text at `now`.
pub fn tooltip_at(now: &LocalTime) -> (r: String)
    requires
        valid_local_time(*now),
    ensures
        r@ == clock_tooltip(*now),
{
    proof {
        reveal_strlit("%H:%M:%S");
        reveal_strlit("%H:%M");
        reveal_strlit("%I:%M:%S %p");
        reveal_strlit("%I:%M %p");
        reveal_strlit("%a");
        reveal_strlit("%b %d");
        reveal_strlit("%A, %B %d, %Y\n%I:%M:%S %p");
        reveal_strlit("%A");
        reveal_strlit("%Y-%m-%d");
    }
    format_local(now, "%A, %B %d, %Y\n%I:%M:%S %p")
}

/// A text as wide as the clock's widest under `c`: the widest day name,
/// month and digits, in the clock's layout.
pub open spec fn sample_text(c: ClockConfig) -> Seq<char> {
    (if c.show_day {
        "Wed "@
    } else {
        Seq::empty()
    }) + (if c.show_date {
        "Sep 00  "@
    } else {
        Seq::empty()
    }) + (if c.format_24h {
        if c.show_seconds {
            "00:00:00"@
        } else {
            "00:00"@
        }
    } else if c.show_seconds {
        "00:00:00 PM"@
    } else {
        "00:00 PM"@
    })
}

/// A text as wide as the clock can get under `config`, to size its slot.
pub fn clock_sample_text(config: &ClockConfig) -> (r: String)
    ensures
        r@ == sample_text(*config),
{
    let mut result = String::new();
    if config.show_day {
        push_str(&mut result, "Wed ");
    }
    if config.show_date {
        push_str(&mut result, "Sep 00  ");
    }
    if config.format_24h {
        if config.show_seconds {
            push_str(&mut result, "00:00:00");
        } else {
            push_str(&mut result, "00:00");
        }
    } else if config.show_seconds {
        push_str(&mut result, "00:00:00 PM");
    } else {
        push_str(&mut result, "00:00 PM");
    }
    result
}

/// Clock module displaying time and date
pub struct ClockModule {
    cached_text: String,
}

impl View for ClockModule {
    type V = Seq<char>;

    closed spec fn view(&self) -> Seq<char> {
        self.cached_text@
    }
}

impl ClockModule {
    pub fn new() -> (m: ClockModule)
        ensures
            m@ == Seq::<char>::empty(),
    {
        ClockModule { cached_text: String::new() }
    }

    /// Rebuild the text for the time `now`.
    pub fn update_at(&mut self, config: &ClockConfig, now: &LocalTime)
        requires
            valid_local_time(*now),
        ensures
            final(self)@ == clock_text(*config, *now),
    {
        self.cached_text = format_time(config, now);
    }

    /// Rebuild the text for the current local time.
    pub fn refresh(&mut self, config: &ClockConfig)
        ensures
            exists|t: LocalTime| valid_local_time(t) && final(self)@ == clock_text(*config, t),
    {
        let now = local_now();
        self.update_at(config, &now);
    }

    /// The tooltip for the current local time.
    pub fn current_tooltip(&self) -> (r: String)
        ensures
            exists|t: LocalTime| valid_local_time(t) && r@ == clock_tooltip(t),
    {
        let now = local_now();
        tooltip_at(&now)
    }
}

impl Module for ClockModule {
    open spec fn spec_id(&self) -> Seq<char> {
        "clock"@
    }

    fn id(&self) -> (r: &str) {
        "clock"
    }

    fn name(&self) -> &str {
        "Clock"
    }

    open spec fn spec_refreshed(&self, before: &Self, config: ModulesConfig) -> bool {
        exists|t: LocalTime| valid_local_time(t) && self@ == clock_text(config.clock, t)
    }

    open spec fn spec_text(&self, config: ModulesConfig) -> Seq<char> {
        self@
    }

    open spec fn spec_tooltip(&self, r: Option<Seq<char>>) -> bool {
        r matches Some(s) && exists|t: LocalTime| valid_local_time(t) && s == clock_tooltip(t)
    }

    open spec fn spec_visible(&self) -> bool {
        true
    }

    fn display_text(&self, _config: &ModulesConfig) -> (s: String) {
        self.cached_text.clone()
    }

    fn update(&mut self, config: &ModulesConfig) {
        self.refresh(&config.clock);
    }

    fn tooltip(&self) -> (r: Option<String>) {
        Some(self.current_tooltip())
    }

    fn is_visible(&self) -> (b: bool) {
        true
    }

    fn preferred_width(&self) -> i32 {
        0
    }
}

} // verus!
