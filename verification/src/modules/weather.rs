//! Weather module: conditions from the wttr.in service, the addresses it is
//! asked at, the status of a fetch, and when to fetch again.

use vstd::prelude::*;
use chrono::Datelike;
use crate::modules::clock::{days_from_epoch, format_local, local_now, valid_local_time, LocalTime};
use crate::json::{
    and_first, and_member, and_text, json_text, json_text_doc, json_written, member, parse_json_text, parse_u32,
    u32_of_text, Json,
};
use crate::modules::network::opt_view;
use crate::text::{chars_of, contains_seq, has_infix, push_char, push_str, same_text, string_of, trim, trimmed};

verus! {

/// Weather condition codes from wttr.in (WWO codes)
#[derive(Debug, Clone, Copy, PartialEq, Eq, Structural)]
pub enum WeatherCondition {
    Clear,
    PartlyCloudy,
    Cloudy,
    Overcast,
    Rain,
    HeavyRain,
    Thunderstorm,
    Snow,
    Fog,
    Windy,
    Unknown,
}

/// The glyph shown for a condition.
pub open spec fn condition_icon(c: WeatherCondition) -> Seq<char> {
    match c {
        WeatherCondition::Clear => "☀"@,
        WeatherCondition::PartlyCloudy | WeatherCondition::Cloudy | WeatherCondition::Overcast
        | WeatherCondition::Fog | WeatherCondition::Windy => "☁"@,
        WeatherCondition::Rain | WeatherCondition::HeavyRain => "☂"@,
        WeatherCondition::Thunderstorm => "⚡"@,
        WeatherCondition::Snow => "❄"@,
        WeatherCondition::Unknown => ""@,
    }
}

/// The snow codes of the WWO code table.
pub open spec fn is_snow_code(code: u32) -> bool {
    code == 179 || code == 182 || code == 185 || code == 227 || code == 230 || code == 281 || code == 284
        || code == 311 || code == 314 || code == 317 || code == 320 || code == 323 || code == 326
        || code == 329 || code == 332 || code == 335 || code == 338 || code == 350 || code == 353
        || code == 362 || code == 365 || code == 368 || code == 371 || code == 374 || code == 377
}

/// The condition of a WWO weather code.
pub open spec fn condition_of_code(code: u32) -> WeatherCondition {
    if code == 113 {
        WeatherCondition::Clear
    } else if code == 116 {
        WeatherCondition::PartlyCloudy
    } else if code == 119 {
        WeatherCondition::Cloudy
    } else if code == 122 {
        WeatherCondition::Overcast
    } else if code == 143 || code == 248 || code == 260 {
        WeatherCondition::Fog
    } else if code == 176 || code == 263 || code == 266 || code == 293 || code == 296 {
        WeatherCondition::Rain
    } else if code == 299 || code == 302 || code == 305 || code == 308 || code == 356 || code == 359 {
        WeatherCondition::HeavyRain
    } else if code == 200 || code == 386 || code == 389 || code == 392 || code == 395 {
        WeatherCondition::Thunderstorm
    } else if is_snow_code(code) {
        WeatherCondition::Snow
    } else {
        WeatherCondition::Unknown
    }
}

/// The WWO codes of light rain and drizzle: patchy rain possible (176),
/// patchy light drizzle (263), light drizzle (266), patchy light rain (293)
/// and light rain (296).
pub open spec fn light_rain_code(code: u32) -> bool {
    code == 176 || code == 263 || code == 266 || code == 293 || code == 296
}

/// The WWO codes of moderate and heavy rain: moderate rain at times (299),
/// moderate rain (302), heavy rain at times (305), heavy rain (308),
/// moderate or heavy rain shower (356) and torrential rain shower (359).
pub open spec fn heavy_rain_code(code: u32) -> bool {
    code == 299 || code == 302 || code == 305 || code == 308 || code == 356 || code == 359
}

/// Rain codes read as rain: every light-rain code is `Rain`, every heavier
/// one `HeavyRain`, and a code shows the umbrella exactly when it is one of
/// the rain codes.
pub proof fn lemma_rain_codes(code: u32)
    ensures
        light_rain_code(code) ==> condition_of_code(code) == WeatherCondition::Rain,
        heavy_rain_code(code) ==> condition_of_code(code) == WeatherCondition::HeavyRain,
        (condition_icon(condition_of_code(code)) == "☂"@) <==> (light_rain_code(code) || heavy_rain_code(code)),
{
    reveal_strlit("☀");
    reveal_strlit("☁");
    reveal_strlit("☂");
    reveal_strlit("⚡");
    reveal_strlit("❄");
    reveal_strlit("");
    assert("☀"@[0] != "☂"@[0]);
    assert("☁"@[0] != "☂"@[0]);
    assert("⚡"@[0] != "☂"@[0]);
    assert("❄"@[0] != "☂"@[0]);
    assert(""@.len() != "☂"@.len());
}

impl WeatherCondition {
    /// Get icon for weather condition
    pub fn icon(&self) -> (r: &'static str)
        ensures
            r@ == condition_icon(*self),
    {
        match self {
            WeatherCondition::Clear => "☀",
            WeatherCondition::PartlyCloudy | WeatherCondition::Cloudy | WeatherCondition::Overcast
            | WeatherCondition::Fog | WeatherCondition::Windy => "☁",
            WeatherCondition::Rain | WeatherCondition::HeavyRain => "☂",
            WeatherCondition::Thunderstorm => "⚡",
            WeatherCondition::Snow => "❄",
            WeatherCondition::Unknown => "",
        }
    }

    /// Parse from wttr.in WWO weather code
    pub fn from_wwo_code(code: u32) -> (c: WeatherCondition)
        ensures
            c == condition_of_code(code),
    {
        match code {
            113 => WeatherCondition::Clear,
            116 => WeatherCondition::PartlyCloudy,
            119 => WeatherCondition::Cloudy,
            122 => WeatherCondition::Overcast,
            143 | 248 | 260 => WeatherCondition::Fog,
            176 | 263 | 266 | 293 | 296 => WeatherCondition::Rain,
            299 | 302 | 305 | 308 | 356 | 359 => WeatherCondition::HeavyRain,
            200 | 386 | 389 | 392 | 395 => WeatherCondition::Thunderstorm,
            179 | 182 | 185 | 227 | 230 | 281 | 284 | 311 | 314 | 317 | 320 | 323 | 326 | 329 | 332
            | 335 | 338 | 350 | 353 | 362 | 365 | 368 | 371 | 374 | 377 => WeatherCondition::Snow,
            _ => WeatherCondition::Unknown,
        }
    }
}

/// Weather fetch status
#[derive(Debug, Clone, PartialEq)]
pub enum FetchStatus {
    Idle,
    Fetching,
    Success,
    Error(String),
    LocationNotFound,
}

/// The status after a failed fetch with message `e`: the location was not
/// found when the message says so, else an error carrying the message.
pub open spec fn failure_status(e: Seq<char>) -> (bool, Seq<char>) {
    if has_infix(e, "not found"@) || has_infix(e, "Unknown location"@) {
        (true, Seq::empty())
    } else {
        (false, e)
    }
}

/// A status as plain values: its kind (0 idle, 1 fetching, 2 success,
/// 3 error, 4 location not found) and the error message.
pub open spec fn status_view(s: FetchStatus) -> (int, Seq<char>) {
    match s {
        FetchStatus::Idle => (0, Seq::empty()),
        FetchStatus::Fetching => (1, Seq::empty()),
        FetchStatus::Success => (2, Seq::empty()),
        FetchStatus::Error(e) => (3, e@),
        FetchStatus::LocationNotFound => (4, Seq::empty()),
    }
}

/// The status that a failed fetch leaves.
pub fn failure(e: String) -> (s: FetchStatus)
    ensures
        status_view(s) == (if failure_status(e@).0 {
            (4int, Seq::<char>::empty())
        } else {
            (3int, e@)
        }),
{
    let v = chars_of(e.as_str());
    let nf = chars_of("not found");
    let ul = chars_of("Unknown location");
    if contains_seq(&v, &nf) || contains_seq(&v, &ul) {
        FetchStatus::LocationNotFound
    } else {
        FetchStatus::Error(e)
    }
}

/// `c` lower-cased when it is an ASCII capital.
pub open spec fn ascii_lower(c: char) -> char {
    if 'A' <= c <= 'Z' {
        ((c as u32) + 32) as char
    } else {
        c
    }
}

/// `s` and `t` are equal up to ASCII case (`str::eq_ignore_ascii_case`).
pub open spec fn eq_ascii_case(s: Seq<char>, t: Seq<char>) -> bool {
    s.len() == t.len() && forall|i: int| 0 <= i < s.len() ==> ascii_lower(#[trigger] s[i]) == ascii_lower(t[i])
}

fn lower_ascii_char(c: char) -> (r: char)
    ensures
        r == ascii_lower(c),
{
    if 'A' <= c && c <= 'Z' {
        let n: u8 = (c as u8) + 32;
        n as char
    } else {
        c
    }
}

/// Whether `s` equals `t` up to ASCII case.
pub fn eq_ignore_ascii_case(s: &str, t: &str) -> (b: bool)
    ensures
        b == eq_ascii_case(s@, t@),
{
    let a = chars_of(s);
    let b = chars_of(t);
    if a.len() != b.len() {
        return false;
    }
    let mut i: usize = 0;
    while i < a.len()
        invariant
            i <= a.len() == b.len(),
            a@ == s@,
            b@ == t@,
            forall|j: int| 0 <= j < i ==> ascii_lower(#[trigger] a@[j]) == ascii_lower(b@[j]),
        decreases a.len() - i,
    {
        if lower_ascii_char(a[i]) != lower_ascii_char(b[i]) {
            assert(ascii_lower(s@[i as int]) != ascii_lower(t@[i as int]));
            return false;
        }
        i += 1;
    }
    true
}

/// `s` with its spaces written as `+`.
pub open spec fn plus_spaces(s: Seq<char>) -> Seq<char> {
    s.map_values(|c: char| if c == ' ' { '+' } else { c })
}

/// The location part of a wttr.in address: empty for automatic detection
/// ("auto" in any case, or nothing), else the location with `+` for spaces.
pub open spec fn wttr_location(location: Seq<char>) -> Seq<char> {
    if eq_ascii_case(location, "auto"@) || location.len() == 0 {
        Seq::empty()
    } else {
        plus_spaces(location)
    }
}

/// The location part of a wttr.in address (see `wttr_location`).
pub fn location_path(location: &str) -> (r: String)
    ensures
        r@ == wttr_location(location@),
{
    if eq_ignore_ascii_case(location, "auto") || location.unicode_len() == 0 {
        return String::new();
    }
    let v = chars_of(location);
    let mut r = String::new();
    let mut i: usize = 0;
    while i < v.len()
        invariant
            i <= v.len(),
            v@ == location@,
            r@ == plus_spaces(v@.take(i as int)),
        decreases v.len() - i,
    {
        let c = if v[i] == ' ' {
            '+'
        } else {
            v[i]
        };
        push_char(&mut r, c);
        assert(plus_spaces(v@.take(i + 1)) == plus_spaces(v@.take(i as int)).push(c));
        i += 1;
    }
    assert(v@.take(v@.len() as int) == v@);
    r
}

/// The address of the JSON weather report for a location.
pub fn api_url(location: &str) -> (r: String)
    ensures
        r@ == "https://wttr.in/"@ + wttr_location(location@) + "?format=j1"@,
{
    let mut r = string_of("https://wttr.in/");
    let loc = location_path(location);
    push_str(&mut r, loc.as_str());
    push_str(&mut r, "?format=j1");
    r
}

/// The address of the forecast page for a location.
pub fn forecast_page_url(location: &str) -> (r: String)
    ensures
        r@ == "https://wttr.in/"@ + wttr_location(location@),
{
    let mut r = string_of("https://wttr.in/");
    let loc = location_path(location);
    push_str(&mut r, loc.as_str());
    r
}

/// The bar text when there is no weather data yet.
pub open spec fn status_text(s: (int, Seq<char>)) -> Seq<char> {
    if s.0 == 1 {
        "..."@
    } else if s.0 == 4 {
        "Set location"@
    } else if s.0 == 3 {
        "Error"@
    } else {
        Seq::empty()
    }
}

/// The tooltip when there is no weather data yet.
pub open spec fn status_tooltip(s: (int, Seq<char>)) -> Seq<char> {
    if s.0 == 1 {
        "Fetching weather data..."@
    } else if s.0 == 4 {
        "Location not found. Set a custom city in config.\nExample: location = \"London\" or \"New York\""@
    } else if s.0 == 3 {
        "Error: "@ + s.1 + "\nClick to retry"@
    } else {
        "Weather data not available.\nSet location in config.toml"@
    }
}

impl FetchStatus {
    /// The bar text while there is no data.
    pub fn text(&self) -> (r: String)
        ensures
            r@ == status_text(status_view(*self)),
    {
        match self {
            FetchStatus::Fetching => string_of("..."),
            FetchStatus::LocationNotFound => string_of("Set location"),
            FetchStatus::Error(_) => string_of("Error"),
            _ => String::new(),
        }
    }

    /// The tooltip while there is no data.
    pub fn tooltip(&self) -> (r: String)
        ensures
            r@ == status_tooltip(status_view(*self)),
    {
        match self {
            FetchStatus::Fetching => string_of("Fetching weather data..."),
            FetchStatus::LocationNotFound => string_of(
                "Location not found. Set a custom city in config.\nExample: location = \"London\" or \"New York\"",
            ),
            FetchStatus::Error(e) => {
                let mut s = string_of("Error: ");
                push_str(&mut s, e.as_str());
                push_str(&mut s, "\nClick to retry");
                s
            },
            _ => string_of("Weather data not available.\nSet location in config.toml"),
        }
    }

    fn copy(&self) -> (r: FetchStatus)
        ensures
            status_view(r) == status_view(*self),
    {
        match self {
            FetchStatus::Idle => FetchStatus::Idle,
            FetchStatus::Fetching => FetchStatus::Fetching,
            FetchStatus::Success => FetchStatus::Success,
            FetchStatus::Error(e) => FetchStatus::Error(e.clone()),
            FetchStatus::LocationNotFound => FetchStatus::LocationNotFound,
        }
    }
}

/// The date that `chrono` reads from a `YYYY-MM-DD` text, as year, month and day.
pub uninterp spec fn parsed_date(s: Seq<char>) -> Option<(i32, u32, u32)>;

/// A date that `chrono` can represent.
pub open spec fn valid_date(d: (i32, u32, u32)) -> bool {
    valid_local_time(LocalTime { year: d.0, month: d.1, day: d.2, hour: 0, minute: 0, second: 0 })
}

/// Calls `chrono::NaiveDate::parse_from_str` with the pattern `%Y-%m-%d`;
/// the result is the named reading of `s`, a date that `chrono` represents.
#[verifier::external_body]
fn parse_date(s: &str) -> (r: Option<(i32, u32, u32)>)
    ensures
        r == parsed_date(s@),
        r matches Some(d) ==> valid_date(d),
{
    match chrono::NaiveDate::parse_from_str(s, "%Y-%m-%d") {
        Ok(d) => Some((d.year(), d.month(), d.day())),
        Err(_) => None,
    }
}

/// The midnight starting a date.
pub open spec fn midnight(d: (i32, u32, u32)) -> LocalTime {
    LocalTime { year: d.0, month: d.1, day: d.2, hour: 0, minute: 0, second: 0 }
}

/// The label of a forecast day `d` seen from `today`: Today, Tomorrow,
/// Yesterday, the weekday within the coming week, else the ISO date.
pub open spec fn date_label(d: (i32, u32, u32), today: LocalTime) -> Seq<char> {
    let days = days_from_epoch(d.0 as int, d.1 as int, d.2 as int) - days_from_epoch(
        today.year as int,
        today.month as int,
        today.day as int,
    );
    if days == 0 {
        "Today"@
    } else if days == 1 {
        "Tomorrow"@
    } else if days == -1 {
        "Yesterday"@
    } else if 2 <= days <= 6 {
        crate::modules::clock::pattern_text(midnight(d), "%A"@)
    } else {
        crate::modules::clock::pattern_text(midnight(d), "%Y-%m-%d"@)
    }
}

/// The label for a forecast date text, given how it was read (`None`: not a
/// date, shown as it is) and the day it is today.
pub fn label_for_date(parsed: Option<(i32, u32, u32)>, date_str: &str, today: &LocalTime) -> (r: String)
    requires
        parsed matches Some(d) ==> valid_date(d),
        valid_local_time(*today),
    ensures
        r@ == (match parsed {
            Some(d) => date_label(d, *today),
            None => date_str@,
        }),
{
    match parsed {
        None => string_of(date_str),
        Some(d) => {
            let t = LocalTime { year: d.0, month: d.1, day: d.2, hour: 0, minute: 0, second: 0 };
            let days = day_number(d.0, d.1, d.2) - day_number(today.year, today.month, today.day);
            proof {
                reveal_strlit("%A");
                reveal_strlit("%Y-%m-%d");
                reveal_strlit("%H:%M:%S");
                reveal_strlit("%H:%M");
                reveal_strlit("%I:%M:%S %p");
                reveal_strlit("%I:%M %p");
                reveal_strlit("%a");
                reveal_strlit("%b %d");
                reveal_strlit("%A, %B %d, %Y\n%I:%M:%S %p");
            }
            if days == 0 {
                string_of("Today")
            } else if days == 1 {
                string_of("Tomorrow")
            } else if days == -1 {
                string_of("Yesterday")
            } else if 2 <= days && days <= 6 {
                format_local(&t, "%A")
            } else {
                format_local(&t, "%Y-%m-%d")
            }
        },
    }
}

/// The day number of a valid date (see `days_from_epoch`).
fn day_number(y: i32, m: u32, d: u32) -> (r: i64)
    requires
        -262143 <= y <= 262142,
        1 <= m <= 12,
        1 <= d <= 31,
    ensures
        r == days_from_epoch(y as int, m as int, d as int),
{
    let yy: i64 = if m <= 2 {
        y as i64 - 1
    } else {
        y as i64
    };
    let shifted: u64 = (yy + 280000) as u64;
    let era: i64 = (shifted / 400) as i64 - 700;
    let yoe: u64 = (yy - era * 400) as u64;
    let mp: u64 = (m as u64 + 9) % 12;
    let doy: u64 = (153 * mp + 2) / 5 + d as u64 - 1;
    let doe: u64 = yoe * 365 + yoe / 4 - yoe / 100 + doy;
    proof {
        assert(era == (yy as int) / 400 && 0 <= yoe < 400) by (nonlinear_arith)
            requires
                shifted == yy + 280000,
                era == shifted / 400 - 700,
                yoe == yy - era * 400,
                -262144 <= yy <= 262142,
        {
        }
    }
    era * 146097 + doe as i64 - 719468
}

/// The label of a forecast date text, seen from the current local date.
pub fn relative_date_label(date_str: &str) -> (r: String)
    ensures
        exists|today: LocalTime|
            valid_local_time(today) && r@ == (match parsed_date(date_str@) {
                Some(d) => date_label(d, today),
                None => date_str@,
            }),
{
    let parsed = parse_date(date_str);
    let today = local_now();
    label_for_date(parsed, date_str, &today)
}

/// What the weather module asks for next.
#[derive(Debug)]
pub enum WeatherAction {
    /// Nothing
    Wait,
    /// Fetch the report at this address
    Fetch(String),
}

/// The fetching side of the weather module: whether it is enabled, the
/// location, whether data is held, whether a fetch is running, the status
/// of the last fetch and when one last started.
pub struct WeatherFetcher {
    enabled: bool,
    location: String,
    has_data: bool,
    fetching: bool,
    status: FetchStatus,
    last_fetch_secs: Option<u64>,
    update_interval_min: u32,
}

/// The fetcher's state as plain values.
pub struct FetcherView {
    pub enabled: bool,
    pub location: Seq<char>,
    pub has_data: bool,
    pub fetching: bool,
    pub status: (int, Seq<char>),
    pub last_fetch_secs: Option<u64>,
    pub update_interval_min: u32,
}

impl View for WeatherFetcher {
    type V = FetcherView;

    closed spec fn view(&self) -> FetcherView {
        FetcherView {
            enabled: self.enabled,
            location: self.location@,
            has_data: self.has_data,
            fetching: self.fetching,
            status: status_view(self.status),
            last_fetch_secs: self.last_fetch_secs,
            update_interval_min: self.update_interval_min,
        }
    }
}

/// The state and the request after asking for a fetch at `now`: nothing
/// when one is already running, else it starts for the current location.
pub open spec fn start_fetch(v: FetcherView, now: u64) -> (FetcherView, Option<Seq<char>>) {
    if v.fetching {
        (v, None)
    } else {
        (
            FetcherView { fetching: true, status: (1, Seq::empty()), last_fetch_secs: Some(now), ..v },
            Some("https://wttr.in/"@ + wttr_location(v.location) + "?format=j1"@),
        )
    }
}

/// At most one fetch runs at a time: while one runs, asking for another
/// changes nothing and requests nothing; otherwise the request marks the
/// fetcher as fetching and names an address.
pub proof fn lemma_one_fetch_at_a_time(v: FetcherView, now: u64)
    ensures
        v.fetching ==> start_fetch(v, now) == (v, None::<Seq<char>>),
        !v.fetching ==> start_fetch(v, now).0.fetching && start_fetch(v, now).1 is Some,
{
}

/// The plain form of an action.
pub open spec fn action_view(a: WeatherAction) -> Option<Seq<char>> {
    match a {
        WeatherAction::Wait => None,
        WeatherAction::Fetch(u) => Some(u@),
    }
}

impl WeatherFetcher {
    /// A fetcher for "auto" that has started its first fetch (and the address
    /// of that fetch); it counts as due for the next update.
    pub fn new() -> (r: (WeatherFetcher, String))
        ensures
            r.0@.enabled,
            r.0@.location == "auto"@,
            !r.0@.has_data,
            r.0@.fetching,
            r.0@.status == (1int, Seq::<char>::empty()),
            r.0@.last_fetch_secs is None,
            r.0@.update_interval_min == 30,
            r.1@ == "https://wttr.in/"@ + wttr_location("auto"@) + "?format=j1"@,
    {
        let f = WeatherFetcher {
            enabled: true,
            location: string_of("auto"),
            has_data: false,
            fetching: true,
            status: FetchStatus::Fetching,
            last_fetch_secs: None,
            update_interval_min: 30,
        };
        let url = api_url("auto");
        (f, url)
    }

    fn request(&mut self, now: u64) -> (a: WeatherAction)
        ensures
            (final(self)@, action_view(a)) == start_fetch(old(self)@, now),
    {
        if self.fetching {
            return WeatherAction::Wait;
        }
        self.fetching = true;
        self.status = FetchStatus::Fetching;
        self.last_fetch_secs = Some(now);
        WeatherAction::Fetch(api_url(self.location.as_str()))
    }

    /// Enable or disable the module; enabling without data asks for a fetch.
    pub fn set_enabled(&mut self, enabled: bool, now: u64) -> (a: WeatherAction)
        ensures
            ({
                let v = FetcherView { enabled, ..old(self)@ };
                if enabled && !old(self)@.has_data {
                    (final(self)@, action_view(a)) == start_fetch(v, now)
                } else {
                    final(self)@ == v && a is Wait
                }
            }),
    {
        self.enabled = enabled;
        if enabled && !self.has_data {
            self.request(now)
        } else {
            WeatherAction::Wait
        }
    }

    /// Set the location (trimmed); a new location drops the data held and
    /// asks for a fetch.
    pub fn set_location(&mut self, location: &str, now: u64) -> (a: WeatherAction)
        ensures
            ({
                let loc = trim(location@);
                if loc != old(self)@.location {
                    (final(self)@, action_view(a)) == start_fetch(
                        FetcherView { location: loc, has_data: false, ..old(self)@ },
                        now,
                    )
                } else {
                    final(self)@ == old(self)@ && a is Wait
                }
            }),
    {
        let loc = trimmed(location);
        if !same_text(self.location.as_str(), loc.as_str()) {
            self.location = loc;
            self.has_data = false;
            self.request(now)
        } else {
            WeatherAction::Wait
        }
    }

    /// Ask for a fresh report now.
    pub fn refresh(&mut self, now: u64) -> (a: WeatherAction)
        ensures
            (final(self)@, action_view(a)) == start_fetch(old(self)@, now),
    {
        self.request(now)
    }

    /// Record the end of a fetch: data on success, else the failure status.
    pub fn fetch_done(&mut self, result: Result<(), String>)
        ensures
            !final(self)@.fetching,
            final(self)@.enabled == old(self)@.enabled,
            final(self)@.location == old(self)@.location,
            final(self)@.last_fetch_secs == old(self)@.last_fetch_secs,
            final(self)@.update_interval_min == old(self)@.update_interval_min,
            match result {
                Ok(_) => final(self)@.has_data && final(self)@.status == (2int, Seq::<char>::empty()),
                Err(e) => final(self)@.has_data == old(self)@.has_data && final(self)@.status == (if failure_status(
                    e@,
                ).0 {
                    (4int, Seq::<char>::empty())
                } else {
                    (3int, e@)
                }),
            },
    {
        match result {
            Ok(_) => {
                self.has_data = true;
                self.status = FetchStatus::Success;
            },
            Err(e) => {
                self.status = failure(e);
            },
        }
        self.fetching = false;
    }

    /// The periodic check at `now`: a fetch is asked for once the update
    /// interval has passed since the last one started.
    pub fn tick(&mut self, now: u64) -> (a: WeatherAction)
        ensures
            ({
                let due = match old(self)@.last_fetch_secs {
                    None => true,
                    Some(t) => now - t >= old(self)@.update_interval_min * 60,
                };
                if due {
                    (final(self)@, action_view(a)) == start_fetch(old(self)@, now)
                } else {
                    final(self)@ == old(self)@ && a is Wait
                }
            }),
    {
        let due = match self.last_fetch_secs {
            None => true,
            Some(t) => now >= t && now - t >= (self.update_interval_min as u64) * 60,
        };
        if due {
            self.request(now)
        } else {
            WeatherAction::Wait
        }
    }

    /// Whether the module is enabled (and so shown).
    pub fn is_enabled(&self) -> (b: bool)
        ensures
            b == self@.enabled,
    {
        self.enabled
    }

    /// Whether weather data is held.
    pub fn has_data(&self) -> (b: bool)
        ensures
            b == self@.has_data,
    {
        self.has_data
    }

    /// Get current location setting
    pub fn location(&self) -> (r: &str)
        ensures
            r@ == self@.location,
    {
        self.location.as_str()
    }

    /// Get fetch status
    pub fn fetch_status(&self) -> (s: FetchStatus)
        ensures
            status_view(s) == self@.status,
    {
        self.status.copy()
    }
}

/// A forecast day as the report gives it; temperatures keep their text.
#[derive(Debug)]
pub struct DayReport {
    pub date: String,
    pub max_c: Option<String>,
    pub min_c: Option<String>,
    pub description: String,
    pub condition: WeatherCondition,
}

/// The current weather as the report gives it; temperatures and the wind
/// speed keep their text (`None` when missing), to be read as numbers
/// with their fallbacks.
#[derive(Debug)]
pub struct WeatherReport {
    pub temp_c: Option<String>,
    pub feels_like_c: Option<String>,
    pub humidity: u32,
    pub condition: WeatherCondition,
    pub description: String,
    pub location: String,
    pub high_c: Option<String>,
    pub low_c: Option<String>,
    pub wind_speed: Option<String>,
    pub wind_dir: String,
    pub forecast: Vec<DayReport>,
}

/// Why a report could not be read.
#[derive(Debug, Clone, Copy, PartialEq, Eq, Structural)]
pub enum ReportError {
    /// The service answered with an error: the location is unknown
    UnknownLocation,
    /// The report has no current condition
    MissingCurrentCondition,
    /// The report has no nearest area
    MissingNearestArea,
}

impl ReportError {
    /// The message of the error.
    pub fn message(&self) -> (r: String)
        ensures
            r@ == (match *self {
                ReportError::UnknownLocation => "Unknown location"@,
                ReportError::MissingCurrentCondition => "Missing current_condition"@,
                ReportError::MissingNearestArea => "Missing nearest_area"@,
            }),
    {
        match self {
            ReportError::UnknownLocation => string_of("Unknown location"),
            ReportError::MissingCurrentCondition => string_of("Missing current_condition"),
            ReportError::MissingNearestArea => string_of("Missing nearest_area"),
        }
    }
}

/// A forecast day as plain values: date, maximum and minimum text,
/// description and condition.
pub type DayView = (Seq<char>, Option<Seq<char>>, Option<Seq<char>>, Seq<char>, WeatherCondition);

/// The current weather as plain values.
pub struct ReportView {
    pub temp_c: Option<Seq<char>>,
    pub feels_like_c: Option<Seq<char>>,
    pub humidity: u32,
    pub condition: WeatherCondition,
    pub description: Seq<char>,
    pub location: Seq<char>,
    pub high_c: Option<Seq<char>>,
    pub low_c: Option<Seq<char>>,
    pub wind_speed: Option<Seq<char>>,
    pub wind_dir: Seq<char>,
    pub forecast: Seq<DayView>,
}

/// An optional reference as an optional value.
pub open spec fn deref_opt(o: Option<&Json>) -> Option<Json> {
    match o {
        Some(x) => Some(*x),
        None => None,
    }
}

/// The text, or `d` when there is none.
pub open spec fn or_text(o: Option<Seq<char>>, d: Seq<char>) -> Seq<char> {
    match o {
        Some(t) => t,
        None => d,
    }
}

/// The number that the text reads as, or 0.
pub open spec fn number_or_zero(o: Option<Seq<char>>) -> u32 {
    match o {
        Some(t) => match u32_of_text(t) {
            Some(v) => v,
            None => 0,
        },
        None => 0,
    }
}

/// The text at `[0].value` of the array member `key`.
pub open spec fn first_value(o: Option<Json>, key: Seq<char>) -> Option<Seq<char>> {
    and_text(and_member(and_first(and_member(o, key)), "value"@))
}

/// The text of member `key`.
pub open spec fn member_text(o: Option<Json>, key: Seq<char>) -> Option<Seq<char>> {
    and_text(and_member(o, key))
}

/// A forecast day read from its entry.
pub open spec fn day_of(day: Json) -> DayView {
    let d = Some(day);
    let h0 = and_first(and_member(d, "hourly"@));
    (
        or_text(member_text(d, "date"@), Seq::empty()),
        member_text(d, "maxtempC"@),
        member_text(d, "mintempC"@),
        or_text(first_value(h0, "weatherDesc"@), Seq::empty()),
        condition_of_code(number_or_zero(member_text(h0, "weatherCode"@))),
    )
}

/// The forecast days: the first five entries of the `weather` array.
pub open spec fn days_of(doc: Json) -> Seq<DayView> {
    match member(doc, "weather"@) {
        Some(Json::Array(v)) => {
            let n: int = if v@.len() < 5 {
                v@.len() as int
            } else {
                5
            };
            Seq::new(n as nat, |i: int| day_of(v@[i]))
        },
        _ => Seq::empty(),
    }
}

/// The report that a wttr.in JSON document gives.
pub open spec fn report_of(doc: Json) -> Result<ReportView, ReportError> {
    let current = and_first(member(doc, "current_condition"@));
    let area = and_first(member(doc, "nearest_area"@));
    if member(doc, "error"@) is Some {
        Err(ReportError::UnknownLocation)
    } else if current is None {
        Err(ReportError::MissingCurrentCondition)
    } else if area is None {
        Err(ReportError::MissingNearestArea)
    } else {
        let area_name = or_text(first_value(area, "areaName"@), "Unknown"@);
        let country = or_text(first_value(area, "country"@), Seq::empty());
        let today = and_first(member(doc, "weather"@));
        Ok(
            ReportView {
                temp_c: member_text(current, "temp_C"@),
                feels_like_c: member_text(current, "FeelsLikeC"@),
                humidity: number_or_zero(member_text(current, "humidity"@)),
                condition: condition_of_code(number_or_zero(member_text(current, "weatherCode"@))),
                description: or_text(first_value(current, "weatherDesc"@), "Unknown"@),
                location: if country.len() == 0 {
                    area_name
                } else {
                    area_name + ", "@ + country
                },
                high_c: member_text(today, "maxtempC"@),
                low_c: member_text(today, "mintempC"@),
                wind_speed: member_text(current, "windspeedKmph"@),
                wind_dir: or_text(member_text(current, "winddir16Point"@), Seq::empty()),
                forecast: days_of(doc),
            },
        )
    }
}

/// A forecast day as plain values.
pub open spec fn day_view(d: DayReport) -> DayView {
    (d.date@, opt_view(d.max_c), opt_view(d.min_c), d.description@, d.condition)
}

/// A report as plain values.
pub open spec fn report_view(r: WeatherReport) -> ReportView {
    ReportView {
        temp_c: opt_view(r.temp_c),
        feels_like_c: opt_view(r.feels_like_c),
        humidity: r.humidity,
        condition: r.condition,
        description: r.description@,
        location: r.location@,
        high_c: opt_view(r.high_c),
        low_c: opt_view(r.low_c),
        wind_speed: opt_view(r.wind_speed),
        wind_dir: r.wind_dir@,
        forecast: r.forecast@.map_values(|d: DayReport| day_view(d)),
    }
}

fn member_of<'a>(o: Option<&'a Json>, key: &str) -> (r: Option<&'a Json>)
    ensures
        deref_opt(r) == and_member(deref_opt(o), key@),
{
    match o {
        Some(j) => j.get(key),
        None => None,
    }
}

fn first_of<'a>(o: Option<&'a Json>) -> (r: Option<&'a Json>)
    ensures
        deref_opt(r) == and_first(deref_opt(o)),
{
    match o {
        Some(j) => j.first(),
        None => None,
    }
}

fn text_in(o: Option<&Json>) -> (r: Option<String>)
    ensures
        opt_view(r) == and_text(deref_opt(o)),
{
    match o {
        Some(j) => match j.as_str() {
            Some(s) => Some(string_of(s)),
            None => None,
        },
        None => None,
    }
}

fn text_or(o: Option<String>, d: &str) -> (r: String)
    ensures
        r@ == or_text(opt_view(o), d@),
{
    match o {
        Some(t) => t,
        None => string_of(d),
    }
}

fn number_in(o: Option<String>) -> (r: u32)
    ensures
        r == number_or_zero(opt_view(o)),
{
    match o {
        Some(t) => match parse_u32(t.as_str()) {
            Some(v) => v,
            None => 0,
        },
        None => 0,
    }
}

fn read_day(day: &Json) -> (d: DayReport)
    ensures
        day_view(d) == day_of(*day),
{
    let dj = Some(day);
    let h0 = first_of(member_of(dj, "hourly"));
    let date = text_or(text_in(member_of(dj, "date")), "");
    let max_c = text_in(member_of(dj, "maxtempC"));
    let min_c = text_in(member_of(dj, "mintempC"));
    let description = text_or(text_in(member_of(first_of(member_of(h0, "weatherDesc")), "value")), "");
    let code = number_in(text_in(member_of(h0, "weatherCode")));
    proof {
        reveal_strlit("");
    }
    DayReport { date, max_c, min_c, description, condition: WeatherCondition::from_wwo_code(code) }
}

/// Read a wttr.in JSON document: the current weather, the place, today's
/// high and low and up to five forecast days (see `report_of`).
pub fn parse_wttr_response(doc: &Json) -> (r: Result<WeatherReport, ReportError>)
    ensures
        match r {
            Ok(rep) => report_of(*doc) == Ok::<ReportView, ReportError>(report_view(rep)),
            Err(e) => report_of(*doc) == Err::<ReportView, ReportError>(e),
        },
{
    proof {
        reveal_strlit("");
    }
    let d = Some(doc);
    if doc.get("error").is_some() {
        return Err(ReportError::UnknownLocation);
    }
    let current = first_of(member_of(d, "current_condition"));
    if current.is_none() {
        return Err(ReportError::MissingCurrentCondition);
    }
    let area = first_of(member_of(d, "nearest_area"));
    if area.is_none() {
        return Err(ReportError::MissingNearestArea);
    }
    let area_name = text_or(text_in(member_of(first_of(member_of(area, "areaName")), "value")), "Unknown");
    let country = text_or(text_in(member_of(first_of(member_of(area, "country")), "value")), "");
    let temp_c = text_in(member_of(current, "temp_C"));
    let feels_like_c = text_in(member_of(current, "FeelsLikeC"));
    let humidity = number_in(text_in(member_of(current, "humidity")));
    let code = number_in(text_in(member_of(current, "weatherCode")));
    let description = text_or(text_in(member_of(first_of(member_of(current, "weatherDesc")), "value")), "Unknown");
    let wind_speed = text_in(member_of(current, "windspeedKmph"));
    let wind_dir = text_or(text_in(member_of(current, "winddir16Point")), "");
    let today = first_of(member_of(d, "weather"));
    let high_c = text_in(member_of(today, "maxtempC"));
    let low_c = text_in(member_of(today, "mintempC"));
    let mut forecast: Vec<DayReport> = Vec::new();
    match doc.get("weather") {
        Some(w) => match w.elements() {
            Some(days) => {
                let n: usize = if days.len() < 5 {
                    days.len()
                } else {
                    5
                };
                let mut i: usize = 0;
                while i < n
                    invariant
                        i <= n <= days@.len(),
                        forecast@.map_values(|x: DayReport| day_view(x)) == Seq::new(
                            i as nat,
                            |k: int| day_of(days@[k]),
                        ),
                    decreases n - i,
                {
                    let day = read_day(&days[i]);
                    let ghost before = forecast@;
                    forecast.push(day);
                    assert(forecast@.map_values(|x: DayReport| day_view(x)) =~= before.map_values(
                        |x: DayReport| day_view(x),
                    ).push(day_of(days@[i as int])));
                    assert(forecast@.map_values(|x: DayReport| day_view(x)) =~= Seq::new(
                        (i + 1) as nat,
                        |k: int| day_of(days@[k]),
                    ));
                    i += 1;
                }
                assert(forecast@.map_values(|x: DayReport| day_view(x)) == days_of(*doc));
            },
            None => {
                assert(forecast@.map_values(|x: DayReport| day_view(x)) =~= days_of(*doc));
            },
        },
        None => {
            assert(forecast@.map_values(|x: DayReport| day_view(x)) =~= days_of(*doc));
        },
    }
    let location = if country.unicode_len() == 0 {
        area_name
    } else {
        let mut l = area_name;
        push_str(&mut l, ", ");
        push_str(&mut l, country.as_str());
        l
    };
    let rep = WeatherReport {
        temp_c,
        feels_like_c,
        humidity,
        condition: WeatherCondition::from_wwo_code(code),
        description,
        location,
        high_c,
        low_c,
        wind_speed,
        wind_dir,
        forecast,
    };
    assert(report_view(rep).forecast == days_of(*doc));
    proof {
        let rv = report_of(*doc)->Ok_0;
        let v = report_view(rep);
        assert(rv.temp_c == v.temp_c);
        assert(rv.feels_like_c == v.feels_like_c);
        assert(rv.humidity == v.humidity);
        assert(rv.condition == v.condition);
        assert(rv.description == v.description);
        assert(rv.location == v.location);
        assert(rv.high_c == v.high_c);
        assert(rv.low_c == v.low_c);
        assert(rv.wind_speed == v.wind_speed);
        assert(rv.wind_dir == v.wind_dir);
        assert(rv.forecast == v.forecast);
    }
    Ok(rep)
}

/// Why a wttr.in answer could not be read.
#[derive(Debug, Clone)]
pub enum WttrError {
    /// The answer is not JSON (the parser's message)
    InvalidJson(String),
    /// The service answered with an error: the location is unknown (the
    /// error value as JSON text)
    UnknownLocation(String),
    /// The report has no current condition
    MissingCurrentCondition,
    /// The report has no nearest area
    MissingNearestArea,
}

impl WttrError {
    /// The message of the error.
    pub fn message(&self) -> (r: String)
        ensures
            r@ == (match *self {
                WttrError::InvalidJson(m) => "JSON parse error: "@ + m@,
                WttrError::UnknownLocation(m) => "Unknown location: "@ + m@,
                WttrError::MissingCurrentCondition => "Missing current_condition"@,
                WttrError::MissingNearestArea => "Missing nearest_area"@,
            }),
    {
        match self {
            WttrError::InvalidJson(m) => {
                let mut r = string_of("JSON parse error: ");
                push_str(&mut r, m.as_str());
                r
            },
            WttrError::UnknownLocation(m) => {
                let mut r = string_of("Unknown location: ");
                push_str(&mut r, m.as_str());
                r
            },
            WttrError::MissingCurrentCondition => string_of("Missing current_condition"),
            WttrError::MissingNearestArea => string_of("Missing nearest_area"),
        }
    }
}

/// The outcome of reading a wttr.in document: the service's error, kept as
/// its JSON text, else the report or what it lacks (see `report_of`).
pub open spec fn wttr_outcome_ok(doc: Json, r: Result<WeatherReport, WttrError>) -> bool {
    match member(doc, "error"@) {
        Some(e) => r matches Err(WttrError::UnknownLocation(s)) && s@ == json_written(e),
        None => match report_of(doc) {
            Ok(v) => r matches Ok(rep) && report_view(rep) == v,
            Err(ReportError::MissingCurrentCondition) => r matches Err(WttrError::MissingCurrentCondition),
            Err(ReportError::MissingNearestArea) => r matches Err(WttrError::MissingNearestArea),
            Err(ReportError::UnknownLocation) => false,
        },
    }
}

/// Read a wttr.in document, keeping the text of the service's error.
pub fn report_from_doc(doc: &Json) -> (r: Result<WeatherReport, WttrError>)
    ensures
        wttr_outcome_ok(*doc, r),
{
    match doc.get("error") {
        Some(e) => Err(WttrError::UnknownLocation(json_text(e))),
        None => match parse_wttr_response(doc) {
            Ok(rep) => Ok(rep),
            Err(ReportError::MissingCurrentCondition) => Err(WttrError::MissingCurrentCondition),
            Err(ReportError::MissingNearestArea) => Err(WttrError::MissingNearestArea),
            Err(ReportError::UnknownLocation) => vstd::pervasive::unreached(),
        },
    }
}

/// Read the text of a wttr.in answer: not JSON, the service's error, or
/// the report (see `report_from_doc`).
pub fn parse_wttr_text(text: &str) -> (r: Result<WeatherReport, WttrError>)
    ensures
        match json_text_doc(text@) {
            Err(m) => r matches Err(WttrError::InvalidJson(s)) && s@ == m,
            Ok(doc) => wttr_outcome_ok(doc, r),
        },
{
    match parse_json_text(text) {
        Err(m) => Err(WttrError::InvalidJson(m)),
        Ok(doc) => report_from_doc(&doc),
    }
}

} // verus!
