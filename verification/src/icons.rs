//! Icon table: named glyphs for menus, status and modules, and the Fluent
//! glyph choice for battery, volume and Wi-Fi states.

pub mod fluent;

use vstd::prelude::*;
use crate::text::string_of;

verus! {

/// Icon manager: a table from icon names to glyph strings.
pub struct Icons {
    icons: Vec<(String, String)>,
}

/// The table that `Icons::new` starts with.
pub open spec fn default_icons() -> Map<Seq<char>, Seq<char>> {
    Map::<Seq<char>, Seq<char>>::empty()
        .insert("menu"@, "☰"@)
        .insert("search"@, "🔍"@)
        .insert("settings"@, "⚙"@)
        .insert("close"@, "✕"@)
        .insert("power"@, "⏻"@)
        .insert("restart"@, "↻"@)
        .insert("sleep"@, "☾"@)
        .insert("lock"@, "🔒"@)
        .insert("user"@, "👤"@)
        .insert("battery"@, "🔋"@)
        .insert("battery_full"@, "🔋"@)
        .insert("battery_medium"@, "🔋"@)
        .insert("battery_low"@, "🪫"@)
        .insert("battery_empty"@, "🪫"@)
        .insert("battery_charging"@, "⚡"@)
        .insert("power_plug"@, "🔌"@)
        .insert("wifi"@, "📶"@)
        .insert("wifi_off"@, "📵"@)
        .insert("ethernet"@, "🔗"@)
        .insert("globe"@, "🌐"@)
        .insert("airplane"@, "✈"@)
        .insert("volume_high"@, "🔊"@)
        .insert("volume_medium"@, "🔉"@)
        .insert("volume_low"@, "🔈"@)
        .insert("volume_mute"@, "🔇"@)
        .insert("play"@, "▶"@)
        .insert("pause"@, "⏸"@)
        .insert("stop"@, "⏹"@)
        .insert("previous"@, "⏮"@)
        .insert("next"@, "⏭"@)
        .insert("music"@, "🎵"@)
        .insert("sun"@, "☀"@)
        .insert("cloud"@, "☁"@)
        .insert("partly_cloudy"@, "⛅"@)
        .insert("rain"@, "🌧"@)
        .insert("thunderstorm"@, "⛈"@)
        .insert("snow"@, "❄"@)
        .insert("fog"@, "🌫"@)
        .insert("temperature"@, "🌡"@)
        .insert("info"@, "ℹ"@)
        .insert("warning"@, "⚠"@)
        .insert("error"@, "❌"@)
        .insert("success"@, "✓"@)
        .insert("notification"@, "🔔"@)
        .insert("notification_off"@, "🔕"@)
        .insert("arrow_up"@, "↑"@)
        .insert("arrow_down"@, "↓"@)
        .insert("arrow_left"@, "←"@)
        .insert("arrow_right"@, "→"@)
        .insert("chevron_down"@, "⌄"@)
        .insert("chevron_right"@, "›"@)
        .insert("calendar"@, "📅"@)
        .insert("clock"@, "🕐"@)
        .insert("folder"@, "📁"@)
        .insert("file"@, "📄"@)
        .insert("app"@, "⬜"@)
        .insert("window"@, "🗗"@)
        .insert("maximize"@, "🗖"@)
        .insert("minimize"@, "🗕"@)
        .insert("cpu"@, "⬡"@)
        .insert("memory"@, "⬢"@)
        .insert("disk"@, "💾"@)
        .insert("gpu"@, "🎮"@)
        .insert("bluetooth"@, "📶"@)
}

impl View for Icons {
    type V = Map<Seq<char>, Seq<char>>;

    closed spec fn view(&self) -> Map<Seq<char>, Seq<char>> {
        Map::new(
            |k: Seq<char>| exists|i: int| 0 <= i < self.icons@.len() && #[trigger] self.icons@[i].0@ == k,
            |k: Seq<char>|
                self.icons@[choose|i: int| 0 <= i < self.icons@.len() && #[trigger] self.icons@[i].0@ == k].1@,
        )
    }
}

impl Icons {
    #[verifier::type_invariant]
    spec fn unique_names(self) -> bool {
        forall|i: int, j: int|
            0 <= i < self.icons@.len() && 0 <= j < self.icons@.len() && i != j
                ==> #[trigger] self.icons@[i].0@ != #[trigger] self.icons@[j].0@
    }

    /// Position of the entry named `key`, if any.
    fn find(&self, key: &String) -> (r: Option<usize>)
        ensures
            match r {
                Some(i) => i < self.icons@.len() && self.icons@[i as int].0@ == key@,
                None => forall|i: int| 0 <= i < self.icons@.len() ==> #[trigger] self.icons@[i].0@ != key@,
            },
    {
        let mut i: usize = 0;
        while i < self.icons.len()
            invariant
                i <= self.icons@.len(),
                forall|j: int| 0 <= j < i ==> #[trigger] self.icons@[j].0@ != key@,
            decreases self.icons.len() - i,
        {
            if self.icons[i].0 == *key {
                return Some(i);
            }
            i += 1;
        }
        None
    }

    /// An empty table.
    fn empty() -> (r: Icons)
        ensures
            r@ == Map::<Seq<char>, Seq<char>>::empty(),
    {
        let r = Icons { icons: Vec::new() };
        assert(r@ =~= Map::<Seq<char>, Seq<char>>::empty());
        r
    }

    /// Create new icon manager with default icons
    pub fn new() -> (r: Icons)
        ensures
            r@ == default_icons(),
    {
        let mut icons = Icons::empty();
        icons.set("menu", "☰");
        icons.set("search", "🔍");
        icons.set("settings", "⚙");
        icons.set("close", "✕");
        icons.set("power", "⏻");
        icons.set("restart", "↻");
        icons.set("sleep", "☾");
        icons.set("lock", "🔒");
        icons.set("user", "👤");
        icons.set("battery", "🔋");
        icons.set("battery_full", "🔋");
        icons.set("battery_medium", "🔋");
        icons.set("battery_low", "🪫");
        icons.set("battery_empty", "🪫");
        icons.set("battery_charging", "⚡");
        icons.set("power_plug", "🔌");
        icons.set("wifi", "📶");
        icons.set("wifi_off", "📵");
        icons.set("ethernet", "🔗");
        icons.set("globe", "🌐");
        icons.set("airplane", "✈");
        icons.set("volume_high", "🔊");
        icons.set("volume_medium", "🔉");
        icons.set("volume_low", "🔈");
        icons.set("volume_mute", "🔇");
        icons.set("play", "▶");
        icons.set("pause", "⏸");
        icons.set("stop", "⏹");
        icons.set("previous", "⏮");
        icons.set("next", "⏭");
        icons.set("music", "🎵");
        icons.set("sun", "☀");
        icons.set("cloud", "☁");
        icons.set("partly_cloudy", "⛅");
        icons.set("rain", "🌧");
        icons.set("thunderstorm", "⛈");
        icons.set("snow", "❄");
        icons.set("fog", "🌫");
        icons.set("temperature", "🌡");
        icons.set("info", "ℹ");
        icons.set("warning", "⚠");
        icons.set("error", "❌");
        icons.set("success", "✓");
        icons.set("notification", "🔔");
        icons.set("notification_off", "🔕");
        icons.set("arrow_up", "↑");
        icons.set("arrow_down", "↓");
        icons.set("arrow_left", "←");
        icons.set("arrow_right", "→");
        icons.set("chevron_down", "⌄");
        icons.set("chevron_right", "›");
        icons.set("calendar", "📅");
        icons.set("clock", "🕐");
        icons.set("folder", "📁");
        icons.set("file", "📄");
        icons.set("app", "⬜");
        icons.set("window", "🗗");
        icons.set("maximize", "🗖");
        icons.set("minimize", "🗕");
        icons.set("cpu", "⬡");
        icons.set("memory", "⬢");
        icons.set("disk", "💾");
        icons.set("gpu", "🎮");
        icons.set("bluetooth", "📶");
        icons
    }

    /// Get an icon by name, `"?"` for an unknown name.
    pub fn get(&self, name: &str) -> (r: String)
        ensures
            r@ == (if self@.contains_key(name@) {
                self@[name@]
            } else {
                "?"@
            }),
    {
        proof {
            use_type_invariant(self);
        }
        let key = string_of(name);
        match self.find(&key) {
            Some(i) => {
                proof {
                    let j = choose|j: int| 0 <= j < self.icons@.len() && #[trigger] self.icons@[j].0@ == name@;
                    assert(self.icons@[i as int].0@ == name@);
                    assert(j == i);
                }
                self.icons[i].1.clone()
            },
            None => {
                assert(!self@.contains_key(name@));
                string_of("?")
            },
        }
    }

    /// Add or update an icon
    pub fn set(&mut self, name: &str, icon: &str)
        ensures
            final(self)@ == old(self)@.insert(name@, icon@),
    {
        proof {
            use_type_invariant(&*self);
        }
        let key = string_of(name);
        let value = string_of(icon);
        let ghost old_map = self@;
        let ghost old_entries = self.icons@;
        match self.find(&key) {
            Some(i) => {
                let mut entries: Vec<(String, String)> = Vec::new();
                std::mem::swap(&mut entries, &mut self.icons);
                entries.set(i, (key, value));
                proof {
                    assert forall|a: int, b: int|
                        0 <= a < entries@.len() && 0 <= b < entries@.len() && a != b
                            implies #[trigger] entries@[a].0@ != #[trigger] entries@[b].0@ by {
                        if a != i && b != i {
                            assert(entries@[a] == old_entries[a]);
                            assert(entries@[b] == old_entries[b]);
                        } else if a == i {
                            assert(entries@[b] == old_entries[b]);
                            assert(old_entries[i as int].0@ == name@);
                        } else {
                            assert(entries@[a] == old_entries[a]);
                            assert(old_entries[i as int].0@ == name@);
                        }
                    }
                }
                *self = Icons { icons: entries };
                proof {
                    let new_map = self@;
                    let want = old_map.insert(name@, icon@);
                    assert forall|k: Seq<char>| new_map.contains_key(k) <==> want.contains_key(k) by {
                        if want.contains_key(k) && k != name@ {
                            let j = choose|j: int| 0 <= j < old_entries.len() && #[trigger] old_entries[j].0@ == k;
                            assert(self.icons@[j].0@ == k);
                        }
                        if new_map.contains_key(k) && k != name@ {
                            let j = choose|j: int| 0 <= j < self.icons@.len() && #[trigger] self.icons@[j].0@ == k;
                            assert(j != i);
                            assert(old_entries[j].0@ == k);
                        }
                        if k == name@ {
                            assert(self.icons@[i as int].0@ == k);
                        }
                    }
                    assert forall|k: Seq<char>| new_map.contains_key(k) implies new_map[k] == want[k] by {
                        let j = choose|j: int| 0 <= j < self.icons@.len() && #[trigger] self.icons@[j].0@ == k;
                        if k == name@ {
                            assert(self.icons@[i as int].0@ == k);
                            assert(j == i);
                        } else {
                            assert(j != i);
                            assert(old_entries[j].0@ == k);
                            let j2 = choose|j2: int| 0 <= j2 < old_entries.len() && #[trigger] old_entries[j2].0@ == k;
                            assert(j2 == j);
                        }
                    }
                    assert(new_map =~= want);
                }
            },
            None => {
                let mut entries: Vec<(String, String)> = Vec::new();
                std::mem::swap(&mut entries, &mut self.icons);
                entries.push((key, value));
                proof {
                    let n = old_entries.len() as int;
                    assert forall|a: int, b: int|
                        0 <= a < entries@.len() && 0 <= b < entries@.len() && a != b
                            implies #[trigger] entries@[a].0@ != #[trigger] entries@[b].0@ by {
                        if a < n && b < n {
                            assert(entries@[a] == old_entries[a]);
                            assert(entries@[b] == old_entries[b]);
                        } else if a == n {
                            assert(entries@[b] == old_entries[b]);
                        } else {
                            assert(entries@[a] == old_entries[a]);
                        }
                    }
                }
                *self = Icons { icons: entries };
                proof {
                    let n = old_entries.len() as int;
                    let new_map = self@;
                    let want = old_map.insert(name@, icon@);
                    assert forall|k: Seq<char>| new_map.contains_key(k) <==> want.contains_key(k) by {
                        if want.contains_key(k) && k != name@ {
                            let j = choose|j: int| 0 <= j < old_entries.len() && #[trigger] old_entries[j].0@ == k;
                            assert(self.icons@[j].0@ == k);
                        }
                        if new_map.contains_key(k) && k != name@ {
                            let j = choose|j: int| 0 <= j < self.icons@.len() && #[trigger] self.icons@[j].0@ == k;
                            assert(j != n);
                            assert(old_entries[j].0@ == k);
                        }
                        if k == name@ {
                            assert(self.icons@[n].0@ == k);
                        }
                    }
                    assert forall|k: Seq<char>| new_map.contains_key(k) implies new_map[k] == want[k] by {
                        let j = choose|j: int| 0 <= j < self.icons@.len() && #[trigger] self.icons@[j].0@ == k;
                        if k == name@ {
                            assert(self.icons@[n].0@ == k);
                            assert(j == n);
                        } else {
                            assert(j != n);
                            assert(old_entries[j].0@ == k);
                            let j2 = choose|j2: int| 0 <= j2 < old_entries.len() && #[trigger] old_entries[j2].0@ == k;
                            assert(j2 == j);
                        }
                    }
                    assert(new_map =~= want);
                }
            },
        }
    }

    /// Check if an icon exists
    pub fn has(&self, name: &str) -> (b: bool)
        ensures
            b == self@.contains_key(name@),
    {
        let key = string_of(name);
        match self.find(&key) {
            Some(i) => {
                assert(self.icons@[i as int].0@ == name@);
                true
            },
            None => false,
        }
    }

    /// Get all icon names: each name of the table exactly once.
    pub fn names(&self) -> (r: Vec<&str>)
        ensures
            r@.len() == self@.dom().len(),
            forall|k: Seq<char>| self@.contains_key(k) <==> exists|i: int| 0 <= i < r@.len() && #[trigger] r@[i]@ == k,
            forall|i: int, j: int| 0 <= i < r@.len() && 0 <= j < r@.len() && i != j ==> #[trigger] r@[i]@ != #[trigger] r@[j]@,
    {
        proof {
            use_type_invariant(self);
        }
        let mut r: Vec<&str> = Vec::new();
        let mut i: usize = 0;
        while i < self.icons.len()
            invariant
                i <= self.icons@.len(),
                r@.len() == i,
                forall|j: int| 0 <= j < i ==> #[trigger] r@[j]@ == self.icons@[j].0@,
            decreases self.icons.len() - i,
        {
            r.push(self.icons[i].0.as_str());
            i += 1;
        }
        proof {
            let ks = self.icons@.map_values(|e: (String, String)| e.0@);
            assert forall|a: int, b: int| 0 <= a < ks.len() && 0 <= b < ks.len() && a != b implies ks[a] != ks[b] by {
                assert(self.icons@[a].0@ != self.icons@[b].0@);
            }
            assert(ks.no_duplicates());
            ks.unique_seq_to_set();
            assert(ks.to_set() =~= self@.dom()) by {
                assert forall|k: Seq<char>| ks.to_set().contains(k) implies self@.dom().contains(k) by {
                    let j = choose|j: int| 0 <= j < ks.len() && ks[j] == k;
                    assert(self.icons@[j].0@ == k);
                }
                assert forall|k: Seq<char>| self@.dom().contains(k) implies ks.to_set().contains(k) by {
                    let j = choose|j: int| 0 <= j < self.icons@.len() && #[trigger] self.icons@[j].0@ == k;
                    assert(ks[j] == k);
                }
            }
            assert forall|k: Seq<char>| self@.contains_key(k) implies exists|i: int| 0 <= i < r@.len() && #[trigger] r@[i]@ == k by {
                let j = choose|j: int| 0 <= j < self.icons@.len() && #[trigger] self.icons@[j].0@ == k;
                assert(r@[j]@ == k);
            }
            assert forall|k: Seq<char>| (exists|i: int| 0 <= i < r@.len() && #[trigger] r@[i]@ == k) implies self@.contains_key(k) by {
                let j = choose|j: int| 0 <= j < r@.len() && #[trigger] r@[j]@ == k;
                assert(self.icons@[j].0@ == k);
            }
            assert forall|a: int, b: int| 0 <= a < r@.len() && 0 <= b < r@.len() && a != b implies #[trigger] r@[a]@ != #[trigger] r@[b]@ by {
                assert(self.icons@[a].0@ != self.icons@[b].0@);
            }
        }
        r
    }
}

impl Default for Icons {
    fn default() -> (r: Icons)
        ensures
            r@ == default_icons(),
    {
        Icons::new()
    }
}

/// The Fluent battery glyph for a charge level.
pub open spec fn battery_glyph(percent: u32, is_charging: bool) -> char {
    if is_charging {
        fluent::BATTERY_CHARGING
    } else if percent <= 5 {
        fluent::BATTERY_0
    } else if percent <= 15 {
        fluent::BATTERY_1
    } else if percent <= 25 {
        fluent::BATTERY_2
    } else if percent <= 35 {
        fluent::BATTERY_3
    } else if percent <= 45 {
        fluent::BATTERY_4
    } else if percent <= 55 {
        fluent::BATTERY_5
    } else if percent <= 65 {
        fluent::BATTERY_6
    } else if percent <= 75 {
        fluent::BATTERY_7
    } else if percent <= 85 {
        fluent::BATTERY_8
    } else if percent <= 95 {
        fluent::BATTERY_9
    } else {
        fluent::BATTERY_10
    }
}

/// Get battery icon for percentage
pub fn battery_icon_for_percent(percent: u32, is_charging: bool) -> (c: char)
    ensures
        c == battery_glyph(percent, is_charging),
{
    if is_charging {
        return fluent::BATTERY_CHARGING;
    }
    if percent <= 5 {
        fluent::BATTERY_0
    } else if percent <= 15 {
        fluent::BATTERY_1
    } else if percent <= 25 {
        fluent::BATTERY_2
    } else if percent <= 35 {
        fluent::BATTERY_3
    } else if percent <= 45 {
        fluent::BATTERY_4
    } else if percent <= 55 {
        fluent::BATTERY_5
    } else if percent <= 65 {
        fluent::BATTERY_6
    } else if percent <= 75 {
        fluent::BATTERY_7
    } else if percent <= 85 {
        fluent::BATTERY_8
    } else if percent <= 95 {
        fluent::BATTERY_9
    } else {
        fluent::BATTERY_10
    }
}

/// Get volume icon for level
pub fn volume_icon_for_level(level: u32, is_muted: bool) -> (c: char)
    ensures
        c == (if is_muted || level == 0 {
            fluent::VOLUME_MUTE
        } else if level <= 33 {
            fluent::VOLUME_1
        } else if level <= 66 {
            fluent::VOLUME_2
        } else {
            fluent::VOLUME_3
        }),
{
    if is_muted || level == 0 {
        return fluent::VOLUME_MUTE;
    }
    if level <= 33 {
        fluent::VOLUME_1
    } else if level <= 66 {
        fluent::VOLUME_2
    } else {
        fluent::VOLUME_3
    }
}

/// Get WiFi icon for signal strength
pub fn wifi_icon_for_strength(strength: u32, is_connected: bool) -> (c: char)
    ensures
        c == (if is_connected {
            fluent::WIFI
        } else {
            fluent::WIFI_OFF
        }),
{
    if !is_connected {
        return fluent::WIFI_OFF;
    }
    fluent::WIFI
}

} // verus!
