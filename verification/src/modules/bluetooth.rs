//! Bluetooth module: radio state and connected devices.

use vstd::prelude::*;
use crate::config::ModulesConfig;
use crate::modules::Module;
use crate::text::{dec, join, join_strings, push_dec, push_str, string_of};

verus! {

/// Bluetooth state
#[derive(Debug, Clone, Copy, PartialEq, Eq, Structural)]
pub enum BluetoothState {
    Off,
    On,
    Connected,
    Unavailable,
}

/// The state of a Bluetooth module.
pub struct BluetoothView {
    pub cached_text: Seq<char>,
    pub state: BluetoothState,
    pub connected_devices: Seq<Seq<char>>,
}

/// Bluetooth module
pub struct BluetoothModule {
    cached_text: String,
    state: BluetoothState,
    connected_devices: Vec<String>,
}

impl View for BluetoothModule {
    type V = BluetoothView;

    closed spec fn view(&self) -> BluetoothView {
        BluetoothView {
            cached_text: self.cached_text@,
            state: self.state,
            connected_devices: self.connected_devices@.map_values(|s: String| s@),
        }
    }
}

/// The state after a radio query: no radio, a radio that does not accept
/// connections, or one with or without connected devices.
pub open spec fn radio_state(found: bool, connectable: bool, device_count: nat) -> BluetoothState {
    if !found {
        BluetoothState::Unavailable
    } else if !connectable {
        BluetoothState::Off
    } else if device_count > 0 {
        BluetoothState::Connected
    } else {
        BluetoothState::On
    }
}

/// A device that the radio reports: its name and whether it is connected
/// now (remembered and authenticated devices are reported too).
pub struct FoundDevice {
    pub name: String,
    pub connected: bool,
}

/// The names of the connected devices among `ds`, in order.
pub open spec fn connected_only(ds: Seq<(Seq<char>, bool)>) -> Seq<Seq<char>>
    decreases ds.len(),
{
    if ds.len() == 0 {
        Seq::empty()
    } else if ds.last().1 {
        connected_only(ds.drop_last()).push(ds.last().0)
    } else {
        connected_only(ds.drop_last())
    }
}

/// The reported devices as plain values.
pub open spec fn found_views(ds: Seq<FoundDevice>) -> Seq<(Seq<char>, bool)> {
    ds.map_values(|d: FoundDevice| (d.name@, d.connected))
}

/// The names of the connected devices among those the radio reports, in
/// the order reported.
pub fn connected_names(found: &Vec<FoundDevice>) -> (r: Vec<String>)
    ensures
        r@.map_values(|s: String| s@) == connected_only(found_views(found@)),
{
    let mut r: Vec<String> = Vec::new();
    let mut i: usize = 0;
    while i < found.len()
        invariant
            i <= found@.len(),
            r@.map_values(|s: String| s@) == connected_only(found_views(found@).take(i as int)),
        decreases found.len() - i,
    {
        let ghost fv = found_views(found@);
        assert(fv.take(i + 1).drop_last() == fv.take(i as int));
        let ghost before = r@;
        if found[i].connected {
            let n = found[i].name.clone();
            r.push(n);
            assert(r@.map_values(|s: String| s@) == before.map_values(|s: String| s@).push(found@[i as int].name@));
        }
        i += 1;
    }
    assert(found_views(found@).take(found@.len() as int) == found_views(found@));
    r
}

/// Device-change event: a device arrived.
pub const DBT_DEVICEARRIVAL: u32 = 0x8000;

/// Device-change event: a device was removed.
pub const DBT_DEVICEREMOVECOMPLETE: u32 = 0x8004;

/// Device-change event: the device tree changed.
pub const DBT_DEVNODES_CHANGED: u32 = 0x0007;

/// Device type of a device-interface notification.
pub const DBT_DEVTYP_DEVICEINTERFACE: u32 = 5;

/// Whether a device-change notification calls for a Bluetooth refresh: an
/// arrival, a removal or a change of the device tree, unless it carries a
/// header of another device type than a device interface (which a change
/// of the device tree may).
pub fn device_change_refreshes(event: u32, device_type: Option<u32>) -> (b: bool)
    ensures
        b == ((event == DBT_DEVICEARRIVAL || event == DBT_DEVICEREMOVECOMPLETE || event == DBT_DEVNODES_CHANGED)
            && match device_type {
            Some(t) => t == DBT_DEVTYP_DEVICEINTERFACE || event == DBT_DEVNODES_CHANGED,
            None => true,
        }),
{
    if event != DBT_DEVICEARRIVAL && event != DBT_DEVICEREMOVECOMPLETE && event != DBT_DEVNODES_CHANGED {
        return false;
    }
    match device_type {
        Some(t) => t == DBT_DEVTYP_DEVICEINTERFACE || event == DBT_DEVNODES_CHANGED,
        None => true,
    }
}

/// The compact bar text for a Bluetooth state.
pub open spec fn bluetooth_text(v: BluetoothView) -> Seq<char> {
    match v.state {
        BluetoothState::Off => "󰂲"@,
        BluetoothState::On => "󰂯"@,
        BluetoothState::Connected => if v.connected_devices.len() == 1 {
            "󰂱 "@ + v.connected_devices[0]
        } else if v.connected_devices.len() > 1 {
            "󰂱 "@ + dec(v.connected_devices.len()) + "+"@
        } else {
            "󰂱"@
        },
        BluetoothState::Unavailable => Seq::empty(),
    }
}

/// The emoji bar text for a Bluetooth state.
pub open spec fn bluetooth_display(v: BluetoothView, show_device_count: bool) -> Seq<char> {
    match v.state {
        BluetoothState::Off => "🔵○"@,
        BluetoothState::On => "🔵"@,
        BluetoothState::Connected => if v.connected_devices.len() > 0 && show_device_count {
            "🔵 "@ + dec(v.connected_devices.len())
        } else {
            "🔵●"@
        },
        BluetoothState::Unavailable => Seq::empty(),
    }
}

/// The tooltip for a Bluetooth state.
pub open spec fn bluetooth_tooltip(v: BluetoothView) -> Option<Seq<char>> {
    match v.state {
        BluetoothState::Off => Some("Bluetooth: Off\nClick to open settings"@),
        BluetoothState::On => Some("Bluetooth: On\nNo devices connected"@),
        BluetoothState::Connected => Some(
            "Bluetooth: Connected\n"@ + if v.connected_devices.len() == 0 {
                "Unknown device"@
            } else {
                join(v.connected_devices, ", "@)
            },
        ),
        BluetoothState::Unavailable => None,
    }
}

impl BluetoothModule {
    pub fn new() -> (m: BluetoothModule)
        ensures
            m@.cached_text == Seq::<char>::empty(),
            m@.state == BluetoothState::Unavailable,
            m@.connected_devices.len() == 0,
    {
        let m = BluetoothModule { cached_text: String::new(), state: BluetoothState::Unavailable, connected_devices: Vec::new() };
        assert(m@.connected_devices.len() == 0);
        m
    }

    /// Take in a radio query (whether a radio was found, whether it accepts
    /// connections, and the names of the connected devices) and rebuild the text.
    /// The device list is replaced only when the radio accepts connections.
    pub fn force_update(&mut self, found: bool, connectable: bool, devices: Vec<String>)
        ensures
            ({
                let devs = if found && connectable {
                    devices@.map_values(|s: String| s@)
                } else {
                    old(self)@.connected_devices
                };
                let st = radio_state(found, connectable, devs.len());
                &&& final(self)@.state == st
                &&& final(self)@.connected_devices == devs
                &&& final(self)@.cached_text == bluetooth_text(
                    BluetoothView { cached_text: Seq::empty(), state: st, connected_devices: devs },
                )
            }),
    {
        if found {
            if connectable {
                self.connected_devices = devices;
                if self.connected_devices.len() > 0 {
                    self.state = BluetoothState::Connected;
                } else {
                    self.state = BluetoothState::On;
                }
            } else {
                self.state = BluetoothState::Off;
            }
        } else {
            self.state = BluetoothState::Unavailable;
        }
        self.cached_text = self.build_display_text();
    }

    /// Build the display text
    pub fn build_display_text(&self) -> (s: String)
        ensures
            s@ == bluetooth_text(self@),
    {
        match self.state {
            BluetoothState::Off => string_of("󰂲"),
            BluetoothState::On => string_of("󰂯"),
            BluetoothState::Connected => {
                if self.connected_devices.len() == 1 {
                    let mut s = string_of("󰂱 ");
                    push_str(&mut s, self.connected_devices[0].as_str());
                    s
                } else if self.connected_devices.len() > 1 {
                    let mut s = string_of("󰂱 ");
                    push_dec(&mut s, self.connected_devices.len() as u64);
                    push_str(&mut s, "+");
                    s
                } else {
                    string_of("󰂱")
                }
            },
            BluetoothState::Unavailable => String::new(),
        }
    }

    /// Get Bluetooth state
    pub fn state(&self) -> (s: BluetoothState)
        ensures
            s == self@.state,
    {
        self.state
    }

    /// Get connected device names
    pub fn connected_devices(&self) -> (r: &[String])
        ensures
            r@.map_values(|s: String| s@) == self@.connected_devices,
    {
        self.connected_devices.as_slice()
    }

    /// Force an immediate refresh with a new radio query
    pub fn refresh(&mut self, found: bool, connectable: bool, devices: Vec<String>)
        ensures
            ({
                let devs = if found && connectable {
                    devices@.map_values(|s: String| s@)
                } else {
                    old(self)@.connected_devices
                };
                let st = radio_state(found, connectable, devs.len());
                &&& final(self)@.state == st
                &&& final(self)@.connected_devices == devs
                &&& final(self)@.cached_text == bluetooth_text(
                    BluetoothView { cached_text: Seq::empty(), state: st, connected_devices: devs },
                )
            }),
    {
        self.force_update(found, connectable, devices);
    }

    /// The emoji text shown in the bar
    pub fn display_with(&self, show_device_count: bool) -> (s: String)
        ensures
            s@ == bluetooth_display(self@, show_device_count),
    {
        match self.state {
            BluetoothState::Off => string_of("🔵○"),
            BluetoothState::On => string_of("🔵"),
            BluetoothState::Connected => {
                let count = self.connected_devices.len();
                if count > 0 && show_device_count {
                    let mut s = string_of("🔵 ");
                    push_dec(&mut s, count as u64);
                    s
                } else {
                    string_of("🔵●")
                }
            },
            BluetoothState::Unavailable => String::new(),
        }
    }

    /// The tooltip text
    pub fn tooltip_text(&self) -> (r: Option<String>)
        ensures
            match r {
                Some(s) => bluetooth_tooltip(self@) == Some(s@),
                None => bluetooth_tooltip(self@) is None,
            },
    {
        match self.state {
            BluetoothState::Off => Some(string_of("Bluetooth: Off\nClick to open settings")),
            BluetoothState::On => Some(string_of("Bluetooth: On\nNo devices connected")),
            BluetoothState::Connected => {
                let devices = if self.connected_devices.len() == 0 {
                    string_of("Unknown device")
                } else {
                    join_strings(&self.connected_devices, ", ")
                };
                let mut s = string_of("Bluetooth: Connected\n");
                push_str(&mut s, devices.as_str());
                Some(s)
            },
            BluetoothState::Unavailable => None,
        }
    }
}

impl Module for BluetoothModule {
    open spec fn spec_id(&self) -> Seq<char> {
        "bluetooth"@
    }

    fn id(&self) -> (r: &str) {
        "bluetooth"
    }

    fn name(&self) -> &str {
        "Bluetooth"
    }

    open spec fn spec_refreshed(&self, before: &Self, config: ModulesConfig) -> bool {
        self@ == BluetoothView { cached_text: bluetooth_text(before@), ..before@ }
    }

    open spec fn spec_text(&self, config: ModulesConfig) -> Seq<char> {
        bluetooth_display(self@, config.bluetooth.show_device_count)
    }

    open spec fn spec_tooltip(&self, r: Option<Seq<char>>) -> bool {
        r == bluetooth_tooltip(self@)
    }

    open spec fn spec_visible(&self) -> bool {
        self@.state != BluetoothState::Unavailable
    }

    fn display_text(&self, config: &ModulesConfig) -> (s: String) {
        self.display_with(config.bluetooth.show_device_count)
    }

    fn update(&mut self, _config: &ModulesConfig) {
        self.cached_text = self.build_display_text();
    }

    fn tooltip(&self) -> (r: Option<String>) {
        self.tooltip_text()
    }

    fn is_visible(&self) -> (b: bool) {
        self.state != BluetoothState::Unavailable
    }

    fn preferred_width(&self) -> i32 {
        0
    }
}

} // verus!
