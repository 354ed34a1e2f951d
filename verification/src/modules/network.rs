//! Network module: connection type, Wi-Fi name and signal strength.

use vstd::prelude::*;
use crate::config::ModulesConfig;
use crate::modules::Module;
use crate::text::{dec, push_dec, push_str, push_char, string_of};

verus! {

/// Network connection type
#[derive(Debug, Clone, Copy, PartialEq, Eq, Structural)]
pub enum NetworkType {
    Disconnected,
    Ethernet,
    WiFi,
    Cellular,
    Unknown,
}

/// One network adapter as the system lists it.
#[derive(Debug, Clone, Copy)]
pub struct AdapterInfo {
    /// The adapter's operational status is "up"
    pub oper_up: bool,
    /// Interface type: 6 = Ethernet, 71 = Wi-Fi
    pub if_type: u32,
}

/// The state of a network module.
pub struct NetworkView {
    pub show_icon: bool,
    pub show_name: bool,
    pub show_speed: bool,
    pub cached_text: Seq<char>,
    pub network_type: NetworkType,
    pub network_name: Option<Seq<char>>,
    pub signal_strength: u32,
    pub is_connected: bool,
}

/// Network module
pub struct NetworkModule {
    show_icon: bool,
    show_name: bool,
    show_speed: bool,
    cached_text: String,
    network_type: NetworkType,
    network_name: Option<String>,
    signal_strength: u32,
    is_connected: bool,
}

/// The characters of an optional string.
pub open spec fn opt_view(o: Option<String>) -> Option<Seq<char>> {
    match o {
        Some(s) => Some(s@),
        None => None,
    }
}

impl View for NetworkModule {
    type V = NetworkView;

    closed spec fn view(&self) -> NetworkView {
        NetworkView {
            show_icon: self.show_icon,
            show_name: self.show_name,
            show_speed: self.show_speed,
            cached_text: self.cached_text@,
            network_type: self.network_type,
            network_name: opt_view(self.network_name),
            signal_strength: self.signal_strength,
            is_connected: self.is_connected,
        }
    }
}

/// The type and connection state after looking through `ads` in order: an up
/// Ethernet adapter connects, an up Wi-Fi adapter connects and ends the search.
pub open spec fn scan_adapters(ads: Seq<AdapterInfo>, t: NetworkType, c: bool) -> (NetworkType, bool)
    decreases ads.len(),
{
    if ads.len() == 0 {
        (t, c)
    } else if ads[0].oper_up && ads[0].if_type == 71 {
        (NetworkType::WiFi, true)
    } else if ads[0].oper_up && ads[0].if_type == 6 {
        scan_adapters(ads.drop_first(), NetworkType::Ethernet, true)
    } else {
        scan_adapters(ads.drop_first(), t, c)
    }
}

/// The glyph for a Wi-Fi signal strength.
pub open spec fn wifi_icon_text(signal: u32) -> Seq<char> {
    if signal >= 20 {
        "📶"@
    } else {
        "📵"@
    }
}

/// The glyph for a connection type.
pub open spec fn network_icon_text(t: NetworkType, signal: u32) -> Seq<char> {
    match t {
        NetworkType::Disconnected => "📵"@,
        NetworkType::Ethernet => "🔗"@,
        NetworkType::WiFi => wifi_icon_text(signal),
        NetworkType::Cellular => "📶"@,
        NetworkType::Unknown => "🌐"@,
    }
}

/// The bar text: the icon when shown, then the network's name when shown.
pub open spec fn network_text(v: NetworkView, show_icon: bool, show_name: bool) -> Seq<char> {
    let icon = if show_icon {
        network_icon_text(v.network_type, v.signal_strength)
    } else {
        Seq::empty()
    };
    if show_name && v.network_name is Some {
        if icon.len() == 0 {
            v.network_name->0
        } else {
            icon + seq![' '] + v.network_name->0
        }
    } else {
        icon
    }
}

/// The name of a connection type in the tooltip.
pub open spec fn network_type_text(t: NetworkType) -> Seq<char> {
    match t {
        NetworkType::Disconnected => "Not connected"@,
        NetworkType::Ethernet => "Ethernet"@,
        NetworkType::WiFi => "Wi-Fi"@,
        NetworkType::Cellular => "Cellular"@,
        NetworkType::Unknown => "Unknown"@,
    }
}

/// The quality word for a signal strength.
pub open spec fn signal_quality(signal: u32) -> Seq<char> {
    if signal >= 80 {
        "Excellent"@
    } else if signal >= 60 {
        "Good"@
    } else if signal >= 40 {
        "Fair"@
    } else {
        "Weak"@
    }
}

/// The tooltip for a network state.
pub open spec fn network_tooltip(v: NetworkView) -> Seq<char> {
    let base = "Network: "@ + network_type_text(v.network_type);
    let wifi = if v.network_type == NetworkType::WiFi {
        "\nSignal Strength: "@ + dec(v.signal_strength as nat) + "%"@ + " ("@ + signal_quality(v.signal_strength) + ")"@
    } else {
        Seq::empty()
    };
    let name = match v.network_name {
        Some(n) => "\nNetwork: "@ + n,
        None => Seq::empty(),
    };
    base + wifi + name
}

impl NetworkModule {
    pub fn new() -> (m: NetworkModule)
        ensures
            m@.show_icon,
            !m@.show_name,
            !m@.show_speed,
            m@.cached_text == Seq::<char>::empty(),
            m@.network_type == NetworkType::Unknown,
            m@.network_name is None,
            m@.signal_strength == 0,
            !m@.is_connected,
    {
        NetworkModule {
            show_icon: true,
            show_name: false,
            show_speed: false,
            cached_text: String::new(),
            network_type: NetworkType::Unknown,
            network_name: None,
            signal_strength: 0,
            is_connected: false,
        }
    }

    /// Take in the system's adapter list: the connection state comes from
    /// this list alone; a connected adapter sets the type, and with none
    /// connected the type becomes `Disconnected`.
    pub fn check_network_status(&mut self, adapters: &Vec<AdapterInfo>)
        ensures
            ({
                let (t, c) = scan_adapters(adapters@, old(self)@.network_type, false);
                &&& final(self)@.is_connected == c
                &&& final(self)@.network_type == (if c {
                    t
                } else {
                    NetworkType::Disconnected
                })
            }),
            final(self)@.network_name == old(self)@.network_name,
            final(self)@.signal_strength == old(self)@.signal_strength,
            final(self)@.cached_text == old(self)@.cached_text,
            final(self)@.show_icon == old(self)@.show_icon,
            final(self)@.show_name == old(self)@.show_name,
            final(self)@.show_speed == old(self)@.show_speed,
    {
        let ghost t0 = self.network_type;
        let ghost c0 = false;
        let mut t = self.network_type;
        let mut c = false;
        let mut done = false;
        let mut i: usize = 0;
        assert(adapters@.skip(0) == adapters@);
        while i < adapters.len() && !done
            invariant
                i <= adapters@.len(),
                done ==> scan_adapters(adapters@, t0, c0) == (t, c),
                !done ==> scan_adapters(adapters@, t0, c0) == scan_adapters(adapters@.skip(i as int), t, c),
            decreases adapters.len() - i,
        {
            let a = adapters[i];
            assert(adapters@.skip(i as int)[0] == a);
            assert(adapters@.skip(i as int).drop_first() == adapters@.skip(i + 1));
            if a.oper_up {
                if a.if_type == 6 {
                    t = NetworkType::Ethernet;
                    c = true;
                } else if a.if_type == 71 {
                    t = NetworkType::WiFi;
                    c = true;
                    done = true;
                }
            }
            i += 1;
        }
        if !done {
            assert(adapters@.skip(i as int).len() == 0);
        }
        self.is_connected = c;
        self.network_type = if c { t } else { NetworkType::Disconnected };
    }

    /// Take in the Wi-Fi name and signal quality, where they could be read.
    pub fn apply_wifi_info(&mut self, name: Option<String>, signal: Option<u32>)
        ensures
            final(self)@ == (NetworkView {
                network_name: match name {
                    Some(n) => Some(n@),
                    None => old(self)@.network_name,
                },
                signal_strength: match signal {
                    Some(s) => s,
                    None => old(self)@.signal_strength,
                },
                ..old(self)@
            }),
    {
        if let Some(n) = name {
            self.network_name = Some(n);
        }
        if let Some(s) = signal {
            self.signal_strength = s;
        }
    }

    /// Rebuild the cached display text.
    pub fn force_update(&mut self)
        ensures
            final(self)@ == (NetworkView {
                cached_text: network_text(old(self)@, old(self)@.show_icon, old(self)@.show_name),
                ..old(self)@
            }),
    {
        self.cached_text = self.build_display_text();
    }

    fn text_with(&self, show_icon: bool, show_name: bool) -> (s: String)
        ensures
            s@ == network_text(self@, show_icon, show_name),
    {
        let mut text = String::new();
        if show_icon {
            let icon = match self.network_type {
                NetworkType::Disconnected => "📵",
                NetworkType::Ethernet => "🔗",
                NetworkType::WiFi => self.get_wifi_icon(),
                NetworkType::Cellular => "📶",
                NetworkType::Unknown => "🌐",
            };
            push_str(&mut text, icon);
        }
        proof {
            reveal_strlit("📵");
            reveal_strlit("🔗");
            reveal_strlit("📶");
            reveal_strlit("🌐");
        }
        if show_name {
            if let Some(name) = &self.network_name {
                if text.as_str().is_empty() == false {
                    push_char(&mut text, ' ');
                }
                push_str(&mut text, name.as_str());
            }
        }
        text
    }

    /// Build the display text
    pub fn build_display_text(&self) -> (s: String)
        ensures
            s@ == network_text(self@, self@.show_icon, self@.show_name),
    {
        self.text_with(self.show_icon, self.show_name)
    }

    /// Get WiFi icon based on signal strength
    pub fn get_wifi_icon(&self) -> (s: &'static str)
        ensures
            s@ == wifi_icon_text(self@.signal_strength),
    {
        if self.signal_strength >= 20 {
            "📶"
        } else {
            "📵"
        }
    }

    /// Get network type
    pub fn network_type(&self) -> (t: NetworkType)
        ensures
            t == self@.network_type,
    {
        self.network_type
    }

    /// Check if connected
    pub fn is_connected(&self) -> (b: bool)
        ensures
            b == self@.is_connected,
    {
        self.is_connected
    }

    /// Get signal strength (0-100)
    pub fn signal_strength(&self) -> (s: u32)
        ensures
            s == self@.signal_strength,
    {
        self.signal_strength
    }

    /// Get network name (SSID for WiFi)
    pub fn network_name(&self) -> (r: Option<&str>)
        ensures
            match r {
                Some(n) => self@.network_name == Some(n@),
                None => self@.network_name is None,
            },
    {
        match &self.network_name {
            Some(n) => Some(n.as_str()),
            None => None,
        }
    }

    /// The tooltip text
    pub fn tooltip_text(&self) -> (s: String)
        ensures
            s@ == network_tooltip(self@),
    {
        let type_str = match self.network_type {
            NetworkType::Disconnected => "Not connected",
            NetworkType::Ethernet => "Ethernet",
            NetworkType::WiFi => "Wi-Fi",
            NetworkType::Cellular => "Cellular",
            NetworkType::Unknown => "Unknown",
        };
        let mut t = string_of("Network: ");
        push_str(&mut t, type_str);
        if self.network_type == NetworkType::WiFi {
            push_str(&mut t, "\nSignal Strength: ");
            push_dec(&mut t, self.signal_strength as u64);
            push_str(&mut t, "%");
            let quality = if self.signal_strength >= 80 {
                "Excellent"
            } else if self.signal_strength >= 60 {
                "Good"
            } else if self.signal_strength >= 40 {
                "Fair"
            } else {
                "Weak"
            };
            push_str(&mut t, " (");
            push_str(&mut t, quality);
            push_str(&mut t, ")");
        }
        if let Some(name) = &self.network_name {
            push_str(&mut t, "\nNetwork: ");
            push_str(&mut t, name.as_str());
        }
        t
    }
}

impl Module for NetworkModule {
    open spec fn spec_id(&self) -> Seq<char> {
        "network"@
    }

    fn id(&self) -> (r: &str) {
        "network"
    }

    fn name(&self) -> &str {
        "Network"
    }

    open spec fn spec_refreshed(&self, before: &Self, config: ModulesConfig) -> bool {
        self@ == NetworkView {
            cached_text: network_text(before@, before@.show_icon, before@.show_name),
            ..before@
        }
    }

    open spec fn spec_text(&self, config: ModulesConfig) -> Seq<char> {
        network_text(self@, self@.show_icon, config.network.show_name)
    }

    open spec fn spec_tooltip(&self, r: Option<Seq<char>>) -> bool {
        r == Some(network_tooltip(self@))
    }

    open spec fn spec_visible(&self) -> bool {
        true
    }

    fn display_text(&self, config: &ModulesConfig) -> (s: String) {
        self.text_with(self.show_icon, config.network.show_name)
    }

    fn update(&mut self, _config: &ModulesConfig) {
        self.cached_text = self.build_display_text();
    }

    fn tooltip(&self) -> (r: Option<String>) {
        Some(self.tooltip_text())
    }

    fn is_visible(&self) -> (b: bool) {
        true
    }

    fn preferred_width(&self) -> i32 {
        0
    }
}

} // verus!
