//! Battery module: charge level, charging state and time remaining.

use vstd::prelude::*;
use crate::config::{BatteryConfig, ModulesConfig};
use crate::modules::Module;
use crate::text::{dec, push_dec, push_str, string_of};
use crate::utils::{duration_text, format_duration};

verus! {

/// What the system reports about power: the fields of `SYSTEM_POWER_STATUS`
/// that the module reads.
#[derive(Debug, Clone, Copy)]
pub struct PowerStatus {
    /// 0 = on battery, 1 = on AC power, 255 = unknown
    pub ac_line_status: u8,
    /// Bit flags: 8 = charging, 128 = no battery, 255 = unknown
    pub battery_flag: u8,
    /// Charge in percent, 255 = unknown
    pub battery_life_percent: u8,
    /// Seconds of battery life left, `u32::MAX` = unknown
    pub battery_life_time: u32,
}

/// The state of a battery module.
pub struct BatteryView {
    pub cached_text: Seq<char>,
    pub battery_percent: u32,
    pub is_charging: bool,
    pub is_plugged_in: bool,
    pub seconds_remaining: Option<u32>,
    pub has_battery: bool,
}

/// Battery module
pub struct BatteryModule {
    cached_text: String,
    battery_percent: u32,
    is_charging: bool,
    is_plugged_in: bool,
    seconds_remaining: Option<u32>,
    has_battery: bool,
}

impl View for BatteryModule {
    type V = BatteryView;

    closed spec fn view(&self) -> BatteryView {
        BatteryView {
            cached_text: self.cached_text@,
            battery_percent: self.battery_percent,
            is_charging: self.is_charging,
            is_plugged_in: self.is_plugged_in,
            seconds_remaining: self.seconds_remaining,
            has_battery: self.has_battery,
        }
    }
}

/// The leading glyph: plug when full on AC, bolt when charging, full or
/// low battery by the 30 % mark.
pub open spec fn battery_icon_text(v: BatteryView) -> Seq<char> {
    if v.is_plugged_in && !v.is_charging {
        "🔌"@
    } else if v.is_charging {
        "⚡"@
    } else if v.battery_percent >= 30 {
        "🔋"@
    } else {
        "🪫"@
    }
}

/// The bar text for a battery state.
pub open spec fn battery_text(v: BatteryView, config: BatteryConfig) -> Seq<char> {
    if !v.has_battery {
        Seq::empty()
    } else {
        let pct = if config.show_percentage {
            seq![' '] + dec(v.battery_percent as nat) + seq!['%']
        } else {
            Seq::empty()
        };
        let time = if config.show_time_remaining && v.seconds_remaining is Some {
            seq![' '] + duration_text(v.seconds_remaining->0 as nat)
        } else {
            Seq::empty()
        };
        battery_icon_text(v) + pct + time
    }
}

/// The status word in the tooltip.
pub open spec fn battery_status_word(v: BatteryView) -> Seq<char> {
    if v.is_charging {
        "Charging"@
    } else if v.is_plugged_in {
        "Plugged in"@
    } else {
        "On battery"@
    }
}

/// The tooltip for a battery state.
pub open spec fn battery_tooltip(v: BatteryView) -> Seq<char> {
    if !v.has_battery {
        "No battery detected"@
    } else {
        let base = "Battery: "@ + dec(v.battery_percent as nat) + "%\nStatus: "@ + battery_status_word(v);
        if v.seconds_remaining is Some && !v.is_charging {
            base + "\nTime remaining: "@ + duration_text(v.seconds_remaining->0 as nat)
        } else {
            base
        }
    }
}

/// The readings after a power status report (the text is rebuilt separately).
pub open spec fn apply_power_status(v: BatteryView, st: PowerStatus) -> BatteryView {
    let present = st.battery_flag != 128 && st.battery_flag != 255;
    if !present {
        BatteryView { has_battery: false, ..v }
    } else {
        BatteryView {
            has_battery: true,
            battery_percent: if st.battery_life_percent != 255 {
                st.battery_life_percent as u32
            } else {
                v.battery_percent
            },
            is_charging: (st.battery_flag & 8) != 0,
            is_plugged_in: st.ac_line_status == 1,
            seconds_remaining: if st.battery_life_time != u32::MAX {
                Some(st.battery_life_time)
            } else {
                None
            },
            ..v
        }
    }
}

impl BatteryModule {
    pub fn new() -> (m: BatteryModule)
        ensures
            m@.cached_text == Seq::<char>::empty(),
            m@.battery_percent == 100,
            !m@.is_charging,
            !m@.is_plugged_in,
            m@.seconds_remaining is None,
            m@.has_battery,
    {
        BatteryModule {
            cached_text: String::new(),
            battery_percent: 100,
            is_charging: false,
            is_plugged_in: false,
            seconds_remaining: None,
            has_battery: true,
        }
    }

    /// Take in a power status report (`None` when the query failed) and rebuild the text.
    pub fn force_update(&mut self, status: Option<PowerStatus>, config: &BatteryConfig)
        ensures
            ({
                let v = match status {
                    Some(st) => apply_power_status(old(self)@, st),
                    None => old(self)@,
                };
                &&& final(self)@.battery_percent == v.battery_percent
                &&& final(self)@.is_charging == v.is_charging
                &&& final(self)@.is_plugged_in == v.is_plugged_in
                &&& final(self)@.seconds_remaining == v.seconds_remaining
                &&& final(self)@.has_battery == v.has_battery
                &&& final(self)@.cached_text == battery_text(v, *config)
            }),
    {
        if let Some(st) = status {
            self.has_battery = st.battery_flag != 128 && st.battery_flag != 255;
            if self.has_battery {
                if st.battery_life_percent != 255 {
                    self.battery_percent = st.battery_life_percent as u32;
                }
                self.is_charging = (st.battery_flag & 8) != 0;
                self.is_plugged_in = st.ac_line_status == 1;
                if st.battery_life_time != u32::MAX {
                    self.seconds_remaining = Some(st.battery_life_time);
                } else {
                    self.seconds_remaining = None;
                }
            }
        }
        self.cached_text = self.build_display_text(config);
    }

    /// Build the display text
    pub fn build_display_text(&self, config: &BatteryConfig) -> (s: String)
        ensures
            s@ == battery_text(self@, *config),
    {
        if !self.has_battery {
            return String::new();
        }
        let mut text = string_of(self.get_battery_icon());
        if config.show_percentage {
            push_str(&mut text, " ");
            push_dec(&mut text, self.battery_percent as u64);
            push_str(&mut text, "%");
        }
        if config.show_time_remaining {
            if let Some(secs) = self.seconds_remaining {
                push_str(&mut text, " ");
                let d = format_duration(secs as u64);
                push_str(&mut text, d.as_str());
            }
        }
        proof {
            reveal_strlit(" ");
            reveal_strlit("%");
        }
        text
    }

    /// Get appropriate battery icon based on level
    pub fn get_battery_icon(&self) -> (s: &'static str)
        ensures
            s@ == battery_icon_text(self@),
    {
        if self.is_plugged_in && !self.is_charging {
            "🔌"
        } else if self.is_charging {
            "⚡"
        } else if self.battery_percent >= 30 {
            "🔋"
        } else {
            "🪫"
        }
    }

    /// Get battery percentage
    pub fn battery_percent(&self) -> (r: u32)
        ensures
            r == self@.battery_percent,
    {
        self.battery_percent
    }

    /// Check if charging
    pub fn is_charging(&self) -> (r: bool)
        ensures
            r == self@.is_charging,
    {
        self.is_charging
    }

    /// Check if has battery
    pub fn has_battery(&self) -> (r: bool)
        ensures
            r == self@.has_battery,
    {
        self.has_battery
    }

    /// Check if plugged in
    pub fn is_plugged_in(&self) -> (r: bool)
        ensures
            r == self@.is_plugged_in,
    {
        self.is_plugged_in
    }

    /// The tooltip text
    pub fn tooltip_text(&self) -> (s: String)
        ensures
            s@ == battery_tooltip(self@),
    {
        if !self.has_battery {
            return string_of("No battery detected");
        }
        let status = if self.is_charging {
            "Charging"
        } else if self.is_plugged_in {
            "Plugged in"
        } else {
            "On battery"
        };
        let mut t = string_of("Battery: ");
        push_dec(&mut t, self.battery_percent as u64);
        push_str(&mut t, "%\nStatus: ");
        push_str(&mut t, status);
        if let Some(secs) = self.seconds_remaining {
            if !self.is_charging {
                push_str(&mut t, "\nTime remaining: ");
                let d = format_duration(secs as u64);
                push_str(&mut t, d.as_str());
            }
        }
        t
    }
}

impl Module for BatteryModule {
    open spec fn spec_id(&self) -> Seq<char> {
        "battery"@
    }

    fn id(&self) -> (r: &str) {
        "battery"
    }

    fn name(&self) -> &str {
        "Battery"
    }

    open spec fn spec_refreshed(&self, before: &Self, config: ModulesConfig) -> bool {
        self@ == BatteryView { cached_text: battery_text(before@, config.battery), ..before@ }
    }

    open spec fn spec_text(&self, config: ModulesConfig) -> Seq<char> {
        self@.cached_text
    }

    open spec fn spec_tooltip(&self, r: Option<Seq<char>>) -> bool {
        r == Some(battery_tooltip(self@))
    }

    open spec fn spec_visible(&self) -> bool {
        self@.has_battery
    }

    fn display_text(&self, _config: &ModulesConfig) -> (s: String) {
        self.cached_text.clone()
    }

    fn update(&mut self, config: &ModulesConfig) {
        self.cached_text = self.build_display_text(&config.battery);
    }

    fn tooltip(&self) -> (r: Option<String>) {
        Some(self.tooltip_text())
    }

    fn is_visible(&self) -> (b: bool) {
        self.has_battery
    }

    fn preferred_width(&self) -> i32 {
        0
    }
}

} // verus!
