//! The bar's menus: the entries of the context menu and of each module's
//! menu, what clicking a module opens, and what a chosen command does.
//! Showing a menu and carrying out a command are left to the caller.

use vstd::prelude::*;
use crate::config::{
    views, BatteryConfig, BluetoothConfig, ClockConfig, GpuConfig, KeyboardLayoutConfig, ModulesConfig, NetworkConfig,
    SystemInfoConfig, VolumeConfig,
};
use crate::modules::disk::DiskInfo;
use crate::modules::media::KeyEvent;
use crate::text::{same_text, string_of};
use crate::utils::{truncate_string, truncated};

verus! {

/// Context menu: show or hide the clock.
pub const MENU_SHOW_CLOCK: u32 = 1001;

/// Context menu: show or hide the battery.
pub const MENU_SHOW_BATTERY: u32 = 1002;

/// Context menu: show or hide the volume.
pub const MENU_SHOW_VOLUME: u32 = 1003;

/// Context menu: show or hide the network.
pub const MENU_SHOW_NETWORK: u32 = 1004;

/// Context menu: show or hide the system information.
pub const MENU_SHOW_SYSINFO: u32 = 1005;

/// Context menu: show or hide the media controls.
pub const MENU_SHOW_MEDIA: u32 = 1006;

/// Context menu: show or hide the GPU usage.
pub const MENU_SHOW_GPU: u32 = 1007;

/// Context menu: show or hide the keyboard layout.
pub const MENU_SHOW_KEYBOARD: u32 = 1008;

/// Context menu: show or hide the uptime.
pub const MENU_SHOW_UPTIME: u32 = 1009;

/// Context menu: show or hide Bluetooth.
pub const MENU_SHOW_BLUETOOTH: u32 = 1010;

/// Context menu: show or hide the disk usage.
pub const MENU_SHOW_DISK: u32 = 1011;

/// Context menu: show or hide the clipboard.
pub const MENU_SHOW_CLIPBOARD: u32 = 1012;

/// Context menu: show or hide the weather.
pub const MENU_SHOW_WEATHER: u32 = 1013;

/// Context menu: show or hide the night light.
pub const MENU_SHOW_NIGHT_LIGHT: u32 = 1014;

/// Open the configuration file.
pub const MENU_SETTINGS: u32 = 1200;

/// Reload the configuration.
pub const MENU_RELOAD: u32 = 1201;

/// Reset the configuration to its defaults.
pub const MENU_RESET: u32 = 1202;

/// Turn quick search on or off.
pub const MENU_TOGGLE_SEARCH: u32 = 1210;

/// Quit.
pub const MENU_EXIT: u32 = 1999;

/// Clock menu: 24-hour format.
pub const CLOCK_24H: u32 = 2001;

/// Clock menu: seconds.
pub const CLOCK_SECONDS: u32 = 2002;

/// Clock menu: date.
pub const CLOCK_DATE: u32 = 2003;

/// Clock menu: day of the week.
pub const CLOCK_DAY: u32 = 2004;

/// Clock menu: center the clock.
pub const CLOCK_CENTER: u32 = 2005;

/// System information menu: draw a graph.
pub const SYSINFO_SHOW_GRAPH: u32 = 2103;

/// Volume menu: show the percentage.
pub const VOL_SHOW_PCT: u32 = 2201;

/// Volume menu: mute.
pub const VOL_MUTE: u32 = 2202;

/// Network menu: show the network name.
pub const NET_SHOW_NAME: u32 = 2301;

/// Network menu: show the speed.
pub const NET_SHOW_SPEED: u32 = 2302;

/// Battery menu: show the percentage.
pub const BAT_SHOW_PCT: u32 = 2401;

/// Battery menu: show the time remaining.
pub const BAT_SHOW_TIME: u32 = 2402;

/// App menu: the introduction.
pub const APP_ABOUT: u32 = 2501;

/// App menu: open the configuration file.
pub const APP_SETTINGS: u32 = 2502;

/// App menu: reload the configuration.
pub const APP_RELOAD: u32 = 2503;

/// App menu: quit.
pub const APP_EXIT: u32 = 2504;

/// App menu: reset the configuration.
pub const APP_RESET: u32 = 2505;

/// App menu: install the cursors (offered; no command carries it out).
pub const APP_INSTALL_CURSORS: u32 = 2506;

/// GPU menu: draw a graph.
pub const GPU_SHOW_GRAPH: u32 = 2604;

/// Keyboard menu: the full language name.
pub const KEYBOARD_SHOW_FULL: u32 = 2701;

/// Bluetooth menu: the device count.
pub const BLUETOOTH_SHOW_COUNT: u32 = 2902;

/// Disk menu: the first disk's entry (one per disk after it).
pub const DISK_SELECT_BASE: u32 = 3100;

/// Clipboard menu: the first history entry (one per entry after it).
pub const CLIPBOARD_BASE: u32 = 4000;

/// Weather menu: the first forecast line (one per line after it).
pub const WEATHER_OPEN: u32 = 6001;

/// Weather menu: the entry shown while no forecast is held.
pub const WEATHER_REFRESH: u32 = 6002;

/// Most clipboard entries listed.
pub const CLIPBOARD_MENU_ENTRIES: usize = 10;

/// Longest clipboard entry label.
pub const CLIPBOARD_LABEL_CHARS: usize = 40;

/// Most forecast lines listed.
pub const WEATHER_MENU_LINES: usize = 6;

/// A line of a popup menu.
#[derive(Debug)]
pub enum MenuLine {
    /// An entry: its command, its label, and whether it is checked
    Item { id: u32, label: String, checked: bool },
    /// A separator
    Separator,
}

/// A line of a popup menu as plain values.
pub enum LineView {
    Item(u32, Seq<char>, bool),
    Separator,
}

/// A line as plain values.
pub open spec fn line_view(l: MenuLine) -> LineView {
    match l {
        MenuLine::Item { id, label, checked } => LineView::Item(id, label@, checked),
        MenuLine::Separator => LineView::Separator,
    }
}

/// Lines as plain values.
pub open spec fn lines_view(ls: Seq<MenuLine>) -> Seq<LineView> {
    ls.map_values(|l: MenuLine| line_view(l))
}

fn push_item(v: &mut Vec<MenuLine>, id: u32, label: &str, checked: bool)
    ensures
        lines_view(final(v)@) == lines_view(old(v)@).push(LineView::Item(id, label@, checked)),
{
    let ghost before = v@;
    v.push(MenuLine::Item { id, label: string_of(label), checked });
    assert(lines_view(v@) == lines_view(before).push(LineView::Item(id, label@, checked)));
}

fn push_separator(v: &mut Vec<MenuLine>)
    ensures
        lines_view(final(v)@) == lines_view(old(v)@).push(LineView::Separator),
{
    let ghost before = v@;
    v.push(MenuLine::Separator);
    assert(lines_view(v@) == lines_view(before).push(LineView::Separator));
}

/// Whether `list` holds `id`.
fn holds(list: &Vec<String>, id: &str) -> (b: bool)
    ensures
        b == views(list@).contains(id@),
{
    let ghost l = views(list@);
    let mut i: usize = 0;
    while i < list.len()
        invariant
            i <= list@.len(),
            l == views(list@),
            forall|j: int| 0 <= j < i ==> l[j] != id@,
        decreases list.len() - i,
    {
        if same_text(list[i].as_str(), id) {
            assert(l[i as int] == id@);
            return true;
        }
        i += 1;
    }
    false
}

/// The first entries of the context menu: the clock (checked when shown
/// on the right, or centered and in the center) and the system modules,
/// each checked when shown on the right.
pub open spec fn system_entries(right: Seq<Seq<char>>, center: Seq<Seq<char>>, clock_center: bool) -> Seq<LineView> {
    seq![
        LineView::Item(
            MENU_SHOW_CLOCK,
            "Clock"@,
            right.contains("clock"@) || (clock_center && center.contains("clock"@)),
        ),
        LineView::Item(MENU_SHOW_BATTERY, "Battery"@, right.contains("battery"@)),
        LineView::Item(MENU_SHOW_VOLUME, "Volume"@, right.contains("volume"@)),
        LineView::Item(MENU_SHOW_NETWORK, "Network"@, right.contains("network"@)),
        LineView::Item(MENU_SHOW_SYSINFO, "System Info"@, right.contains("system_info"@)),
        LineView::Item(MENU_SHOW_MEDIA, "Media Controls"@, right.contains("media"@)),
        LineView::Item(MENU_SHOW_CLIPBOARD, "Clipboard"@, right.contains("clipboard"@)),
    ]
}

/// The next entries of the context menu: the other modules, each checked
/// when shown on the right.
pub open spec fn extra_entries(right: Seq<Seq<char>>) -> Seq<LineView> {
    seq![
        LineView::Item(MENU_SHOW_GPU, "GPU Usage"@, right.contains("gpu"@)),
        LineView::Item(MENU_SHOW_KEYBOARD, "Keyboard Layout"@, right.contains("keyboard_layout"@)),
        LineView::Item(MENU_SHOW_UPTIME, "System Uptime"@, right.contains("uptime"@)),
        LineView::Item(MENU_SHOW_BLUETOOTH, "Bluetooth"@, right.contains("bluetooth"@)),
        LineView::Item(MENU_SHOW_NIGHT_LIGHT, "Night Light"@, right.contains("night_light"@)),
        LineView::Item(MENU_SHOW_DISK, "Disk Usage"@, right.contains("disk"@)),
        LineView::Item(MENU_SHOW_WEATHER, "Weather"@, right.contains("weather"@)),
    ]
}

/// The last entries of the context menu: the quick search switch, the
/// configuration entries and exit.
pub open spec fn settings_entries(search_enabled: bool) -> Seq<LineView> {
    seq![
        LineView::Separator,
        LineView::Item(MENU_TOGGLE_SEARCH, "Enable Quick Search"@, search_enabled),
        LineView::Item(MENU_SETTINGS, "Open Config File"@, false),
        LineView::Item(MENU_RELOAD, "Reload Config"@, false),
        LineView::Item(MENU_RESET, "Reset to Defaults"@, false),
        LineView::Separator,
        LineView::Item(MENU_EXIT, "Exit TopBar"@, false),
    ]
}

/// The bar's context menu: an entry per module, checked when the module is
/// shown, then the quick search switch and the configuration and exit
/// entries.
pub open spec fn context_menu_lines(right: Seq<Seq<char>>, center: Seq<Seq<char>>, clock_center: bool, search_enabled: bool) -> Seq<
    LineView,
> {
    system_entries(right, center, clock_center) + extra_entries(right) + settings_entries(search_enabled)
}

fn system_entries_exec(modules: &ModulesConfig, v: &mut Vec<MenuLine>)
    ensures
        lines_view(final(v)@) == lines_view(old(v)@) + system_entries(
            views(modules.right_modules@),
            views(modules.center_modules@),
            modules.clock.center,
        ),
{
    let ghost start = lines_view(v@);
    let right = &modules.right_modules;
    let clock_shown = holds(right, "clock") || (modules.clock.center && holds(&modules.center_modules, "clock"));
    push_item(v, MENU_SHOW_CLOCK, "Clock", clock_shown);
    push_item(v, MENU_SHOW_BATTERY, "Battery", holds(right, "battery"));
    push_item(v, MENU_SHOW_VOLUME, "Volume", holds(right, "volume"));
    push_item(v, MENU_SHOW_NETWORK, "Network", holds(right, "network"));
    push_item(v, MENU_SHOW_SYSINFO, "System Info", holds(right, "system_info"));
    push_item(v, MENU_SHOW_MEDIA, "Media Controls", holds(right, "media"));
    push_item(v, MENU_SHOW_CLIPBOARD, "Clipboard", holds(right, "clipboard"));
    assert(lines_view(v@) =~= start + system_entries(
        views(modules.right_modules@),
        views(modules.center_modules@),
        modules.clock.center,
    ));
}

fn extra_entries_exec(modules: &ModulesConfig, v: &mut Vec<MenuLine>)
    ensures
        lines_view(final(v)@) == lines_view(old(v)@) + extra_entries(views(modules.right_modules@)),
{
    let ghost start = lines_view(v@);
    let right = &modules.right_modules;
    push_item(v, MENU_SHOW_GPU, "GPU Usage", holds(right, "gpu"));
    push_item(v, MENU_SHOW_KEYBOARD, "Keyboard Layout", holds(right, "keyboard_layout"));
    push_item(v, MENU_SHOW_UPTIME, "System Uptime", holds(right, "uptime"));
    push_item(v, MENU_SHOW_BLUETOOTH, "Bluetooth", holds(right, "bluetooth"));
    push_item(v, MENU_SHOW_NIGHT_LIGHT, "Night Light", holds(right, "night_light"));
    push_item(v, MENU_SHOW_DISK, "Disk Usage", holds(right, "disk"));
    push_item(v, MENU_SHOW_WEATHER, "Weather", holds(right, "weather"));
    assert(lines_view(v@) =~= start + extra_entries(views(modules.right_modules@)));
}

fn settings_entries_exec(search_enabled: bool, v: &mut Vec<MenuLine>)
    ensures
        lines_view(final(v)@) == lines_view(old(v)@) + settings_entries(search_enabled),
{
    let ghost start = lines_view(v@);
    push_separator(v);
    push_item(v, MENU_TOGGLE_SEARCH, "Enable Quick Search", search_enabled);
    push_item(v, MENU_SETTINGS, "Open Config File", false);
    push_item(v, MENU_RELOAD, "Reload Config", false);
    push_item(v, MENU_RESET, "Reset to Defaults", false);
    push_separator(v);
    push_item(v, MENU_EXIT, "Exit TopBar", false);
    assert(lines_view(v@) =~= start + settings_entries(search_enabled));
}

/// The bar's context menu (see `context_menu_lines`).
pub fn context_menu(modules: &ModulesConfig, search_enabled: bool) -> (r: Vec<MenuLine>)
    ensures
        lines_view(r@) == context_menu_lines(
            views(modules.right_modules@),
            views(modules.center_modules@),
            modules.clock.center,
            search_enabled,
        ),
{
    let mut v: Vec<MenuLine> = Vec::new();
    assert(lines_view(v@) =~= Seq::<LineView>::empty());
    system_entries_exec(modules, &mut v);
    extra_entries_exec(modules, &mut v);
    settings_entries_exec(search_enabled, &mut v);
    assert(lines_view(v@) =~= context_menu_lines(
        views(modules.right_modules@),
        views(modules.center_modules@),
        modules.clock.center,
        search_enabled,
    ));
    v
}

/// The menu a module opens.
#[derive(Debug, Clone, Copy, PartialEq, Eq, Structural)]
pub enum ModuleMenu {
    Clock,
    Battery,
    Volume,
    Network,
    SystemInfo,
    Gpu,
    KeyboardLayout,
    Uptime,
    Bluetooth,
    Disk,
    Clipboard,
    AppMenu,
    Weather,
}

/// What a click on a module does.
#[derive(Debug, Clone, Copy, PartialEq, Eq, Structural)]
pub enum ClickAction {
    /// The module handles the click itself (and the bar is redrawn)
    ModuleClick,
    /// The quick search box opens
    QuickSearch,
    /// This menu opens under the module
    Menu(ModuleMenu),
    /// Nothing
    Nothing,
}

/// The menu or action that a module's id stands for.
pub open spec fn menu_action_of(id: Seq<char>) -> ClickAction {
    if id == "clock"@ {
        ClickAction::Menu(ModuleMenu::Clock)
    } else if id == "battery"@ {
        ClickAction::Menu(ModuleMenu::Battery)
    } else if id == "volume"@ {
        ClickAction::Menu(ModuleMenu::Volume)
    } else if id == "network"@ {
        ClickAction::Menu(ModuleMenu::Network)
    } else if id == "system_info"@ {
        ClickAction::Menu(ModuleMenu::SystemInfo)
    } else if id == "gpu"@ {
        ClickAction::Menu(ModuleMenu::Gpu)
    } else if id == "keyboard_layout"@ {
        ClickAction::Menu(ModuleMenu::KeyboardLayout)
    } else if id == "uptime"@ {
        ClickAction::Menu(ModuleMenu::Uptime)
    } else if id == "bluetooth"@ {
        ClickAction::Menu(ModuleMenu::Bluetooth)
    } else if id == "night_light"@ {
        ClickAction::ModuleClick
    } else if id == "disk"@ {
        ClickAction::Menu(ModuleMenu::Disk)
    } else if id == "clipboard"@ {
        ClickAction::Menu(ModuleMenu::Clipboard)
    } else if id == "app_menu"@ {
        ClickAction::Menu(ModuleMenu::AppMenu)
    } else if id == "weather"@ {
        ClickAction::Menu(ModuleMenu::Weather)
    } else if id == "search"@ {
        ClickAction::QuickSearch
    } else {
        ClickAction::Nothing
    }
}

/// The menu or action for a module's id (see `menu_action_of`).
pub fn show_module_menu(module_id: &str) -> (a: ClickAction)
    ensures
        a == menu_action_of(module_id@),
{
    if same_text(module_id, "clock") {
        ClickAction::Menu(ModuleMenu::Clock)
    } else if same_text(module_id, "battery") {
        ClickAction::Menu(ModuleMenu::Battery)
    } else if same_text(module_id, "volume") {
        ClickAction::Menu(ModuleMenu::Volume)
    } else if same_text(module_id, "network") {
        ClickAction::Menu(ModuleMenu::Network)
    } else if same_text(module_id, "system_info") {
        ClickAction::Menu(ModuleMenu::SystemInfo)
    } else if same_text(module_id, "gpu") {
        ClickAction::Menu(ModuleMenu::Gpu)
    } else if same_text(module_id, "keyboard_layout") {
        ClickAction::Menu(ModuleMenu::KeyboardLayout)
    } else if same_text(module_id, "uptime") {
        ClickAction::Menu(ModuleMenu::Uptime)
    } else if same_text(module_id, "bluetooth") {
        ClickAction::Menu(ModuleMenu::Bluetooth)
    } else if same_text(module_id, "night_light") {
        ClickAction::ModuleClick
    } else if same_text(module_id, "disk") {
        ClickAction::Menu(ModuleMenu::Disk)
    } else if same_text(module_id, "clipboard") {
        ClickAction::Menu(ModuleMenu::Clipboard)
    } else if same_text(module_id, "app_menu") {
        ClickAction::Menu(ModuleMenu::AppMenu)
    } else if same_text(module_id, "weather") {
        ClickAction::Menu(ModuleMenu::Weather)
    } else if same_text(module_id, "search") {
        ClickAction::QuickSearch
    } else {
        ClickAction::Nothing
    }
}

/// What a click on a module does: the keyboard layout switches language
/// itself; any other module opens its menu or acts as `menu_action_of`
/// says.
pub fn handle_module_click(module_id: &str) -> (a: ClickAction)
    ensures
        a == (if module_id@ == "keyboard_layout"@ {
            ClickAction::ModuleClick
        } else {
            menu_action_of(module_id@)
        }),
{
    if same_text(module_id, "keyboard_layout") {
        ClickAction::ModuleClick
    } else {
        show_module_menu(module_id)
    }
}

/// The clock menu: its format switches, and whether it is centered.
pub fn clock_menu(modules: &ModulesConfig) -> (r: Vec<MenuLine>)
    ensures
        lines_view(r@) == seq![
            LineView::Item(CLOCK_24H, "24-Hour Format"@, modules.clock.format_24h),
            LineView::Item(CLOCK_SECONDS, "Show Seconds"@, modules.clock.show_seconds),
            LineView::Item(CLOCK_DATE, "Show Date"@, modules.clock.show_date),
            LineView::Item(CLOCK_DAY, "Show Day of Week"@, modules.clock.show_day),
            LineView::Item(CLOCK_CENTER, "Center Clock"@, modules.clock.center),
        ],
{
    let mut v: Vec<MenuLine> = Vec::new();
    push_item(&mut v, CLOCK_24H, "24-Hour Format", modules.clock.format_24h);
    push_item(&mut v, CLOCK_SECONDS, "Show Seconds", modules.clock.show_seconds);
    push_item(&mut v, CLOCK_DATE, "Show Date", modules.clock.show_date);
    push_item(&mut v, CLOCK_DAY, "Show Day of Week", modules.clock.show_day);
    push_item(&mut v, CLOCK_CENTER, "Center Clock", modules.clock.center);
    v
}

/// The battery menu.
pub fn battery_menu(modules: &ModulesConfig) -> (r: Vec<MenuLine>)
    ensures
        lines_view(r@) == seq![
            LineView::Item(BAT_SHOW_PCT, "Show Percentage"@, modules.battery.show_percentage),
            LineView::Item(BAT_SHOW_TIME, "Show Time Remaining"@, modules.battery.show_time_remaining),
        ],
{
    let mut v: Vec<MenuLine> = Vec::new();
    push_item(&mut v, BAT_SHOW_PCT, "Show Percentage", modules.battery.show_percentage);
    push_item(&mut v, BAT_SHOW_TIME, "Show Time Remaining", modules.battery.show_time_remaining);
    v
}

/// The volume menu; `muted` is the volume module's mute state.
pub fn volume_menu(modules: &ModulesConfig, muted: bool) -> (r: Vec<MenuLine>)
    ensures
        lines_view(r@) == seq![
            LineView::Item(VOL_SHOW_PCT, "Show Percentage"@, modules.volume.show_percentage),
            LineView::Separator,
            LineView::Item(VOL_MUTE, "Mute"@, muted),
        ],
{
    let mut v: Vec<MenuLine> = Vec::new();
    push_item(&mut v, VOL_SHOW_PCT, "Show Percentage", modules.volume.show_percentage);
    push_separator(&mut v);
    push_item(&mut v, VOL_MUTE, "Mute", muted);
    v
}

/// The network menu.
pub fn network_menu(modules: &ModulesConfig) -> (r: Vec<MenuLine>)
    ensures
        lines_view(r@) == seq![
            LineView::Item(NET_SHOW_NAME, "Show Network Name"@, modules.network.show_name),
            LineView::Item(NET_SHOW_SPEED, "Show Speed (MB/s)"@, modules.network.show_speed),
        ],
{
    let mut v: Vec<MenuLine> = Vec::new();
    push_item(&mut v, NET_SHOW_NAME, "Show Network Name", modules.network.show_name);
    push_item(&mut v, NET_SHOW_SPEED, "Show Speed (MB/s)", modules.network.show_speed);
    v
}

/// The system information menu; `show_graph` is its graph setting.
pub fn sysinfo_menu(show_graph: bool) -> (r: Vec<MenuLine>)
    ensures
        lines_view(r@) == seq![LineView::Item(SYSINFO_SHOW_GRAPH, "Show Graph"@, show_graph)],
{
    let mut v: Vec<MenuLine> = Vec::new();
    push_item(&mut v, SYSINFO_SHOW_GRAPH, "Show Graph", show_graph);
    v
}

/// The GPU menu.
pub fn gpu_menu(modules: &ModulesConfig) -> (r: Vec<MenuLine>)
    ensures
        lines_view(r@) == seq![LineView::Item(GPU_SHOW_GRAPH, "Show Graph"@, modules.gpu.show_graph)],
{
    let mut v: Vec<MenuLine> = Vec::new();
    push_item(&mut v, GPU_SHOW_GRAPH, "Show Graph", modules.gpu.show_graph);
    v
}

/// The keyboard layout menu.
pub fn keyboard_menu(modules: &ModulesConfig) -> (r: Vec<MenuLine>)
    ensures
        lines_view(r@) == seq![
            LineView::Item(KEYBOARD_SHOW_FULL, "Show Full Language Name"@, modules.keyboard_layout.show_full_name),
        ],
{
    let mut v: Vec<MenuLine> = Vec::new();
    push_item(&mut v, KEYBOARD_SHOW_FULL, "Show Full Language Name", modules.keyboard_layout.show_full_name);
    v
}

/// The uptime menu, which has no entries.
pub fn uptime_menu() -> (r: Vec<MenuLine>)
    ensures
        r@.len() == 0,
{
    Vec::new()
}

/// The Bluetooth menu.
pub fn bluetooth_menu(modules: &ModulesConfig) -> (r: Vec<MenuLine>)
    ensures
        lines_view(r@) == seq![
            LineView::Item(BLUETOOTH_SHOW_COUNT, "Show Device Count"@, modules.bluetooth.show_device_count),
        ],
{
    let mut v: Vec<MenuLine> = Vec::new();
    push_item(&mut v, BLUETOOTH_SHOW_COUNT, "Show Device Count", modules.bluetooth.show_device_count);
    v
}

/// The app menu: the introduction, the cursors, the configuration entries
/// and exit.
pub fn app_menu() -> (r: Vec<MenuLine>)
    ensures
        lines_view(r@) == seq![
            LineView::Item(APP_ABOUT, "Quickstart / Intro Guide"@, false),
            LineView::Item(APP_INSTALL_CURSORS, "Install macOS Cursors"@, false),
            LineView::Separator,
            LineView::Item(APP_SETTINGS, "Open Config File"@, false),
            LineView::Item(APP_RELOAD, "Reload Config"@, false),
            LineView::Item(APP_RESET, "Reset to Defaults"@, false),
            LineView::Separator,
            LineView::Item(APP_EXIT, "Exit TopBar"@, false),
        ],
{
    let mut v: Vec<MenuLine> = Vec::new();
    push_item(&mut v, APP_ABOUT, "Quickstart / Intro Guide", false);
    push_item(&mut v, APP_INSTALL_CURSORS, "Install macOS Cursors", false);
    push_separator(&mut v);
    push_item(&mut v, APP_SETTINGS, "Open Config File", false);
    push_item(&mut v, APP_RELOAD, "Reload Config", false);
    push_item(&mut v, APP_RESET, "Reset to Defaults", false);
    push_separator(&mut v);
    push_item(&mut v, APP_EXIT, "Exit TopBar", false);
    v
}

/// The disk menu entries: one per disk, labelled by its mount point (its
/// name when it has none), the primary disk checked.
pub open spec fn disk_lines(disks: Seq<DiskInfo>, primary: Seq<char>, n: int) -> Seq<LineView>
    decreases n,
{
    if n <= 0 {
        Seq::empty()
    } else {
        let d = disks[n - 1];
        disk_lines(disks, primary, n - 1).push(
            LineView::Item(
                (DISK_SELECT_BASE + (n - 1)) as u32,
                if d.mount_point@.len() == 0 {
                    d.name@
                } else {
                    d.mount_point@
                },
                d.mount_point@ == primary,
            ),
        )
    }
}

/// The disk menu (see `disk_lines`).
pub fn disk_menu(disks: &Vec<DiskInfo>, modules: &ModulesConfig) -> (r: Vec<MenuLine>)
    requires
        disks@.len() <= u32::MAX - DISK_SELECT_BASE,
    ensures
        lines_view(r@) == disk_lines(disks@, modules.disk.primary_disk@, disks@.len() as int),
{
    let mut v: Vec<MenuLine> = Vec::new();
    let mut i: usize = 0;
    while i < disks.len()
        invariant
            i <= disks@.len(),
            disks@.len() <= u32::MAX - DISK_SELECT_BASE,
            lines_view(v@) == disk_lines(disks@, modules.disk.primary_disk@, i as int),
        decreases disks.len() - i,
    {
        let d = &disks[i];
        let label = if d.mount_point.as_str().is_empty() {
            d.name.as_str()
        } else {
            d.mount_point.as_str()
        };
        let checked = same_text(d.mount_point.as_str(), modules.disk.primary_disk.as_str());
        push_item(&mut v, DISK_SELECT_BASE + i as u32, label, checked);
        i += 1;
    }
    v
}

/// The clipboard menu entries: the first ten history entries, each cut to
/// 40 characters.
pub open spec fn clipboard_lines(history: Seq<Seq<char>>, n: int) -> Seq<LineView>
    decreases n,
{
    if n <= 0 {
        Seq::empty()
    } else {
        clipboard_lines(history, n - 1).push(
            LineView::Item(
                (CLIPBOARD_BASE + (n - 1)) as u32,
                truncated(history[n - 1], CLIPBOARD_LABEL_CHARS as nat),
                false,
            ),
        )
    }
}

/// The clipboard menu: a notice when the history is empty, else its first
/// entries (see `clipboard_lines`).
pub fn clipboard_menu(history: &Vec<String>) -> (r: Vec<MenuLine>)
    ensures
        lines_view(r@) == (if history@.len() == 0 {
            seq![LineView::Item(CLIPBOARD_BASE, "No clipboard history"@, false)]
        } else {
            clipboard_lines(
                views(history@),
                if history@.len() < CLIPBOARD_MENU_ENTRIES {
                    history@.len() as int
                } else {
                    CLIPBOARD_MENU_ENTRIES as int
                },
            )
        }),
{
    let mut v: Vec<MenuLine> = Vec::new();
    if history.len() == 0 {
        push_item(&mut v, CLIPBOARD_BASE, "No clipboard history", false);
        return v;
    }
    let n = if history.len() < CLIPBOARD_MENU_ENTRIES {
        history.len()
    } else {
        CLIPBOARD_MENU_ENTRIES
    };
    let mut i: usize = 0;
    while i < n
        invariant
            i <= n <= history@.len(),
            n <= CLIPBOARD_MENU_ENTRIES,
            lines_view(v@) == clipboard_lines(views(history@), i as int),
        decreases n - i,
    {
        let label = truncate_string(history[i].as_str(), CLIPBOARD_LABEL_CHARS);
        push_item(&mut v, CLIPBOARD_BASE + i as u32, label.as_str(), false);
        i += 1;
    }
    v
}

/// The weather menu entries for the forecast lines: the first six.
pub open spec fn weather_lines(lines: Seq<Seq<char>>, n: int) -> Seq<LineView>
    decreases n,
{
    if n <= 0 {
        Seq::empty()
    } else {
        weather_lines(lines, n - 1).push(LineView::Item((WEATHER_OPEN + (n - 1)) as u32, lines[n - 1], false))
    }
}

/// The weather menu: while no forecast line is held a "fetching" entry,
/// else the first forecast lines (see `weather_lines`).
pub fn weather_menu(lines: &Vec<String>) -> (r: Vec<MenuLine>)
    ensures
        lines_view(r@) == (if lines@.len() == 0 {
            seq![LineView::Item(WEATHER_REFRESH, "Fetching weather..."@, false)]
        } else {
            weather_lines(
                views(lines@),
                if lines@.len() < WEATHER_MENU_LINES {
                    lines@.len() as int
                } else {
                    WEATHER_MENU_LINES as int
                },
            )
        }),
{
    let mut v: Vec<MenuLine> = Vec::new();
    if lines.len() == 0 {
        push_item(&mut v, WEATHER_REFRESH, "Fetching weather...", false);
        return v;
    }
    let n = if lines.len() < WEATHER_MENU_LINES {
        lines.len()
    } else {
        WEATHER_MENU_LINES
    };
    let mut i: usize = 0;
    while i < n
        invariant
            i <= n <= lines@.len(),
            n <= WEATHER_MENU_LINES,
            lines_view(v@) == weather_lines(views(lines@), i as int),
        decreases n - i,
    {
        push_item(&mut v, WEATHER_OPEN + i as u32, lines[i].as_str(), false);
        i += 1;
    }
    v
}

/// Whether a choice in the weather menu opens the forecast page (any of
/// its entries does).
pub fn weather_choice_opens_page(cmd: u32) -> (b: bool)
    ensures
        b == (WEATHER_OPEN <= cmd < WEATHER_OPEN + 10),
{
    cmd >= WEATHER_OPEN && cmd < WEATHER_OPEN + 10
}

/// A display setting that a menu entry switches.
#[derive(Debug, Clone, Copy, PartialEq, Eq, Structural)]
pub enum Flag {
    Clock24h,
    ClockSeconds,
    ClockDate,
    ClockDay,
    BatteryPercentage,
    BatteryTimeRemaining,
    VolumePercentage,
    NetworkName,
    NetworkSpeed,
    SystemInfoGraph,
    GpuGraph,
    KeyboardFullName,
    BluetoothDeviceCount,
}

/// What a chosen menu command asks for.
#[derive(Debug)]
pub enum MenuCommand {
    /// Show or hide the module with this id
    ToggleModule(String),
    /// Open the configuration file
    OpenConfig,
    /// Reload the configuration
    ReloadConfig,
    /// Reset the configuration to its defaults
    ResetConfig,
    /// Close the bar
    Exit,
    /// Switch a display setting (the battery and volume modules then rebuild their text)
    ToggleFlag(Flag),
    /// Mute or unmute the volume
    ToggleMute,
    /// Move the clock between the center and the right-hand side
    ToggleCenterClock,
    /// Turn quick search on or off
    ToggleQuickSearch,
    /// Make the disk with this index in the disk list the primary one
    SelectDisk(usize),
    /// Put the clipboard history entry with this index on the clipboard and paste it
    PasteClipboard(usize),
    /// Show the introduction
    About,
    /// Nothing
    Nothing,
}

/// The module that a context-menu command shows or hides.
pub open spec fn module_of_command(cmd: u32) -> Option<Seq<char>> {
    if cmd == MENU_SHOW_CLOCK {
        Some("clock"@)
    } else if cmd == MENU_SHOW_BATTERY {
        Some("battery"@)
    } else if cmd == MENU_SHOW_VOLUME {
        Some("volume"@)
    } else if cmd == MENU_SHOW_NETWORK {
        Some("network"@)
    } else if cmd == MENU_SHOW_SYSINFO {
        Some("system_info"@)
    } else if cmd == MENU_SHOW_MEDIA {
        Some("media"@)
    } else if cmd == MENU_SHOW_CLIPBOARD {
        Some("clipboard"@)
    } else if cmd == MENU_SHOW_GPU {
        Some("gpu"@)
    } else if cmd == MENU_SHOW_KEYBOARD {
        Some("keyboard_layout"@)
    } else if cmd == MENU_SHOW_UPTIME {
        Some("uptime"@)
    } else if cmd == MENU_SHOW_BLUETOOTH {
        Some("bluetooth"@)
    } else if cmd == MENU_SHOW_NIGHT_LIGHT {
        Some("night_light"@)
    } else if cmd == MENU_SHOW_DISK {
        Some("disk"@)
    } else if cmd == MENU_SHOW_WEATHER {
        Some("weather"@)
    } else {
        None
    }
}

/// The display setting that a command switches.
pub open spec fn flag_of_command(cmd: u32) -> Option<Flag> {
    if cmd == CLOCK_24H {
        Some(Flag::Clock24h)
    } else if cmd == CLOCK_SECONDS {
        Some(Flag::ClockSeconds)
    } else if cmd == CLOCK_DATE {
        Some(Flag::ClockDate)
    } else if cmd == CLOCK_DAY {
        Some(Flag::ClockDay)
    } else if cmd == BAT_SHOW_PCT {
        Some(Flag::BatteryPercentage)
    } else if cmd == BAT_SHOW_TIME {
        Some(Flag::BatteryTimeRemaining)
    } else if cmd == VOL_SHOW_PCT {
        Some(Flag::VolumePercentage)
    } else if cmd == NET_SHOW_NAME {
        Some(Flag::NetworkName)
    } else if cmd == NET_SHOW_SPEED {
        Some(Flag::NetworkSpeed)
    } else if cmd == SYSINFO_SHOW_GRAPH {
        Some(Flag::SystemInfoGraph)
    } else if cmd == GPU_SHOW_GRAPH {
        Some(Flag::GpuGraph)
    } else if cmd == KEYBOARD_SHOW_FULL {
        Some(Flag::KeyboardFullName)
    } else if cmd == BLUETOOTH_SHOW_COUNT {
        Some(Flag::BluetoothDeviceCount)
    } else {
        None
    }
}

/// `c` is what command `cmd` asks for.
pub open spec fn command_is(c: MenuCommand, cmd: u32) -> bool {
    match module_of_command(cmd) {
        Some(id) => c matches MenuCommand::ToggleModule(m) && m@ == id,
        None => match flag_of_command(cmd) {
            Some(f) => c == MenuCommand::ToggleFlag(f),
            None => if cmd == MENU_SETTINGS || cmd == APP_SETTINGS {
                c is OpenConfig
            } else if cmd == MENU_RELOAD || cmd == APP_RELOAD {
                c is ReloadConfig
            } else if cmd == MENU_RESET || cmd == APP_RESET {
                c is ResetConfig
            } else if cmd == MENU_EXIT || cmd == APP_EXIT {
                c is Exit
            } else if cmd == VOL_MUTE {
                c is ToggleMute
            } else if cmd == CLOCK_CENTER {
                c is ToggleCenterClock
            } else if cmd == MENU_TOGGLE_SEARCH {
                c is ToggleQuickSearch
            } else if DISK_SELECT_BASE <= cmd < DISK_SELECT_BASE + 100 {
                c == MenuCommand::SelectDisk((cmd - DISK_SELECT_BASE) as usize)
            } else if CLIPBOARD_BASE <= cmd < CLIPBOARD_BASE + 100 {
                c == MenuCommand::PasteClipboard((cmd - CLIPBOARD_BASE) as usize)
            } else if cmd == APP_ABOUT {
                c is About
            } else {
                c is Nothing
            },
        },
    }
}

/// What the chosen command `cmd_id` asks for (see `command_is`).
pub fn handle_menu_command(cmd_id: u32) -> (c: MenuCommand)
    ensures
        command_is(c, cmd_id),
{
    let modules: [(u32, &str); 14] = [
        (MENU_SHOW_CLOCK, "clock"),
        (MENU_SHOW_BATTERY, "battery"),
        (MENU_SHOW_VOLUME, "volume"),
        (MENU_SHOW_NETWORK, "network"),
        (MENU_SHOW_SYSINFO, "system_info"),
        (MENU_SHOW_MEDIA, "media"),
        (MENU_SHOW_CLIPBOARD, "clipboard"),
        (MENU_SHOW_GPU, "gpu"),
        (MENU_SHOW_KEYBOARD, "keyboard_layout"),
        (MENU_SHOW_UPTIME, "uptime"),
        (MENU_SHOW_BLUETOOTH, "bluetooth"),
        (MENU_SHOW_NIGHT_LIGHT, "night_light"),
        (MENU_SHOW_DISK, "disk"),
        (MENU_SHOW_WEATHER, "weather"),
    ];
    let mut i: usize = 0;
    while i < 14
        invariant
            i <= 14,
            modules@ == seq![
                (MENU_SHOW_CLOCK, "clock"),
                (MENU_SHOW_BATTERY, "battery"),
                (MENU_SHOW_VOLUME, "volume"),
                (MENU_SHOW_NETWORK, "network"),
                (MENU_SHOW_SYSINFO, "system_info"),
                (MENU_SHOW_MEDIA, "media"),
                (MENU_SHOW_CLIPBOARD, "clipboard"),
                (MENU_SHOW_GPU, "gpu"),
                (MENU_SHOW_KEYBOARD, "keyboard_layout"),
                (MENU_SHOW_UPTIME, "uptime"),
                (MENU_SHOW_BLUETOOTH, "bluetooth"),
                (MENU_SHOW_NIGHT_LIGHT, "night_light"),
                (MENU_SHOW_DISK, "disk"),
                (MENU_SHOW_WEATHER, "weather"),
            ],
            forall|j: int| 0 <= j < i ==> modules@[j].0 != cmd_id,
        decreases 14 - i,
    {
        if modules[i].0 == cmd_id {
            return MenuCommand::ToggleModule(string_of(modules[i].1));
        }
        i += 1;
    }
    assert(module_of_command(cmd_id) is None);
    let flags: [(u32, Flag); 13] = [
        (CLOCK_24H, Flag::Clock24h),
        (CLOCK_SECONDS, Flag::ClockSeconds),
        (CLOCK_DATE, Flag::ClockDate),
        (CLOCK_DAY, Flag::ClockDay),
        (BAT_SHOW_PCT, Flag::BatteryPercentage),
        (BAT_SHOW_TIME, Flag::BatteryTimeRemaining),
        (VOL_SHOW_PCT, Flag::VolumePercentage),
        (NET_SHOW_NAME, Flag::NetworkName),
        (NET_SHOW_SPEED, Flag::NetworkSpeed),
        (SYSINFO_SHOW_GRAPH, Flag::SystemInfoGraph),
        (GPU_SHOW_GRAPH, Flag::GpuGraph),
        (KEYBOARD_SHOW_FULL, Flag::KeyboardFullName),
        (BLUETOOTH_SHOW_COUNT, Flag::BluetoothDeviceCount),
    ];
    let mut k: usize = 0;
    while k < 13
        invariant
            k <= 13,
            module_of_command(cmd_id) is None,
            flags@ == seq![
                (CLOCK_24H, Flag::Clock24h),
                (CLOCK_SECONDS, Flag::ClockSeconds),
                (CLOCK_DATE, Flag::ClockDate),
                (CLOCK_DAY, Flag::ClockDay),
                (BAT_SHOW_PCT, Flag::BatteryPercentage),
                (BAT_SHOW_TIME, Flag::BatteryTimeRemaining),
                (VOL_SHOW_PCT, Flag::VolumePercentage),
                (NET_SHOW_NAME, Flag::NetworkName),
                (NET_SHOW_SPEED, Flag::NetworkSpeed),
                (SYSINFO_SHOW_GRAPH, Flag::SystemInfoGraph),
                (GPU_SHOW_GRAPH, Flag::GpuGraph),
                (KEYBOARD_SHOW_FULL, Flag::KeyboardFullName),
                (BLUETOOTH_SHOW_COUNT, Flag::BluetoothDeviceCount),
            ],
            forall|j: int| 0 <= j < k ==> flags@[j].0 != cmd_id,
        decreases 13 - k,
    {
        if flags[k].0 == cmd_id {
            return MenuCommand::ToggleFlag(flags[k].1);
        }
        k += 1;
    }
    assert(flag_of_command(cmd_id) is None);
    if cmd_id == MENU_SETTINGS || cmd_id == APP_SETTINGS {
        MenuCommand::OpenConfig
    } else if cmd_id == MENU_RELOAD || cmd_id == APP_RELOAD {
        MenuCommand::ReloadConfig
    } else if cmd_id == MENU_RESET || cmd_id == APP_RESET {
        MenuCommand::ResetConfig
    } else if cmd_id == MENU_EXIT || cmd_id == APP_EXIT {
        MenuCommand::Exit
    } else if cmd_id == VOL_MUTE {
        MenuCommand::ToggleMute
    } else if cmd_id == CLOCK_CENTER {
        MenuCommand::ToggleCenterClock
    } else if cmd_id == MENU_TOGGLE_SEARCH {
        MenuCommand::ToggleQuickSearch
    } else if cmd_id >= DISK_SELECT_BASE && cmd_id < DISK_SELECT_BASE + 100 {
        MenuCommand::SelectDisk((cmd_id - DISK_SELECT_BASE) as usize)
    } else if cmd_id >= CLIPBOARD_BASE && cmd_id < CLIPBOARD_BASE + 100 {
        MenuCommand::PasteClipboard((cmd_id - CLIPBOARD_BASE) as usize)
    } else if cmd_id == APP_ABOUT {
        MenuCommand::About
    } else {
        MenuCommand::Nothing
    }
}

/// The value of a display setting.
pub open spec fn flag_value(m: ModulesConfig, f: Flag) -> bool {
    match f {
        Flag::Clock24h => m.clock.format_24h,
        Flag::ClockSeconds => m.clock.show_seconds,
        Flag::ClockDate => m.clock.show_date,
        Flag::ClockDay => m.clock.show_day,
        Flag::BatteryPercentage => m.battery.show_percentage,
        Flag::BatteryTimeRemaining => m.battery.show_time_remaining,
        Flag::VolumePercentage => m.volume.show_percentage,
        Flag::NetworkName => m.network.show_name,
        Flag::NetworkSpeed => m.network.show_speed,
        Flag::SystemInfoGraph => m.system_info.show_graph,
        Flag::GpuGraph => m.gpu.show_graph,
        Flag::KeyboardFullName => m.keyboard_layout.show_full_name,
        Flag::BluetoothDeviceCount => m.bluetooth.show_device_count,
    }
}

/// The clock settings with `f` switched, when it is one of them.
pub open spec fn clock_toggled(c: ClockConfig, f: Flag) -> ClockConfig {
    match f {
        Flag::Clock24h => ClockConfig { format_24h: !c.format_24h, ..c },
        Flag::ClockSeconds => ClockConfig { show_seconds: !c.show_seconds, ..c },
        Flag::ClockDate => ClockConfig { show_date: !c.show_date, ..c },
        Flag::ClockDay => ClockConfig { show_day: !c.show_day, ..c },
        _ => c,
    }
}

/// The battery settings with `f` switched, when it is one of them.
pub open spec fn battery_toggled(c: BatteryConfig, f: Flag) -> BatteryConfig {
    match f {
        Flag::BatteryPercentage => BatteryConfig { show_percentage: !c.show_percentage, ..c },
        Flag::BatteryTimeRemaining => BatteryConfig { show_time_remaining: !c.show_time_remaining, ..c },
        _ => c,
    }
}

/// The volume settings with `f` switched, when it is one of them.
pub open spec fn volume_toggled(c: VolumeConfig, f: Flag) -> VolumeConfig {
    match f {
        Flag::VolumePercentage => VolumeConfig { show_percentage: !c.show_percentage, ..c },
        _ => c,
    }
}

/// The network settings with `f` switched, when it is one of them.
pub open spec fn network_toggled(c: NetworkConfig, f: Flag) -> NetworkConfig {
    match f {
        Flag::NetworkName => NetworkConfig { show_name: !c.show_name, ..c },
        Flag::NetworkSpeed => NetworkConfig { show_speed: !c.show_speed, ..c },
        _ => c,
    }
}

/// The system information settings with `f` switched, when it is one of them.
pub open spec fn system_info_toggled(c: SystemInfoConfig, f: Flag) -> SystemInfoConfig {
    match f {
        Flag::SystemInfoGraph => SystemInfoConfig { show_graph: !c.show_graph, ..c },
        _ => c,
    }
}

/// The GPU settings with `f` switched, when it is one of them.
pub open spec fn gpu_toggled(c: GpuConfig, f: Flag) -> GpuConfig {
    match f {
        Flag::GpuGraph => GpuConfig { show_graph: !c.show_graph, ..c },
        _ => c,
    }
}

/// The keyboard layout settings with `f` switched, when it is one of them.
pub open spec fn keyboard_toggled(c: KeyboardLayoutConfig, f: Flag) -> KeyboardLayoutConfig {
    match f {
        Flag::KeyboardFullName => KeyboardLayoutConfig { show_full_name: !c.show_full_name, ..c },
        _ => c,
    }
}

/// The Bluetooth settings with `f` switched, when it is one of them.
pub open spec fn bluetooth_toggled(c: BluetoothConfig, f: Flag) -> BluetoothConfig {
    match f {
        Flag::BluetoothDeviceCount => BluetoothConfig { show_device_count: !c.show_device_count, ..c },
        _ => c,
    }
}

/// The configuration with display setting `f` switched.
pub open spec fn with_flag_toggled(m: ModulesConfig, f: Flag) -> ModulesConfig {
    ModulesConfig {
        clock: clock_toggled(m.clock, f),
        battery: battery_toggled(m.battery, f),
        volume: volume_toggled(m.volume, f),
        network: network_toggled(m.network, f),
        system_info: system_info_toggled(m.system_info, f),
        gpu: gpu_toggled(m.gpu, f),
        keyboard_layout: keyboard_toggled(m.keyboard_layout, f),
        bluetooth: bluetooth_toggled(m.bluetooth, f),
        ..m
    }
}

fn toggle_clock(c: &mut ClockConfig, f: Flag)
    ensures
        *final(c) == clock_toggled(*old(c), f),
{
    match f {
        Flag::Clock24h => c.format_24h = !c.format_24h,
        Flag::ClockSeconds => c.show_seconds = !c.show_seconds,
        Flag::ClockDate => c.show_date = !c.show_date,
        Flag::ClockDay => c.show_day = !c.show_day,
        _ => {},
    }
}

fn toggle_battery(c: &mut BatteryConfig, f: Flag)
    ensures
        *final(c) == battery_toggled(*old(c), f),
{
    match f {
        Flag::BatteryPercentage => c.show_percentage = !c.show_percentage,
        Flag::BatteryTimeRemaining => c.show_time_remaining = !c.show_time_remaining,
        _ => {},
    }
}

fn toggle_volume(c: &mut VolumeConfig, f: Flag)
    ensures
        *final(c) == volume_toggled(*old(c), f),
{
    match f {
        Flag::VolumePercentage => c.show_percentage = !c.show_percentage,
        _ => {},
    }
}

fn toggle_network(c: &mut NetworkConfig, f: Flag)
    ensures
        *final(c) == network_toggled(*old(c), f),
{
    match f {
        Flag::NetworkName => c.show_name = !c.show_name,
        Flag::NetworkSpeed => c.show_speed = !c.show_speed,
        _ => {},
    }
}

fn toggle_system_info(c: &mut SystemInfoConfig, f: Flag)
    ensures
        *final(c) == system_info_toggled(*old(c), f),
{
    match f {
        Flag::SystemInfoGraph => c.show_graph = !c.show_graph,
        _ => {},
    }
}

fn toggle_gpu(c: &mut GpuConfig, f: Flag)
    ensures
        *final(c) == gpu_toggled(*old(c), f),
{
    match f {
        Flag::GpuGraph => c.show_graph = !c.show_graph,
        _ => {},
    }
}

fn toggle_keyboard(c: &mut KeyboardLayoutConfig, f: Flag)
    ensures
        *final(c) == keyboard_toggled(*old(c), f),
{
    match f {
        Flag::KeyboardFullName => c.show_full_name = !c.show_full_name,
        _ => {},
    }
}

fn toggle_bluetooth(c: &mut BluetoothConfig, f: Flag)
    ensures
        *final(c) == bluetooth_toggled(*old(c), f),
{
    match f {
        Flag::BluetoothDeviceCount => c.show_device_count = !c.show_device_count,
        _ => {},
    }
}

/// Switch display setting `f` (see `with_flag_toggled`).
pub fn toggle_flag(modules: &mut ModulesConfig, f: Flag)
    ensures
        *final(modules) == with_flag_toggled(*old(modules), f),
{
    toggle_clock(&mut modules.clock, f);
    toggle_battery(&mut modules.battery, f);
    toggle_volume(&mut modules.volume, f);
    toggle_network(&mut modules.network, f);
    toggle_system_info(&mut modules.system_info, f);
    toggle_gpu(&mut modules.gpu, f);
    toggle_keyboard(&mut modules.keyboard_layout, f);
    toggle_bluetooth(&mut modules.bluetooth, f);
}

/// Switching a display setting flips it, and switching it twice gives
/// back the configuration it started from.
pub proof fn lemma_flag_toggle_twice(m: ModulesConfig, f: Flag)
    ensures
        flag_value(with_flag_toggled(m, f), f) == !flag_value(m, f),
        with_flag_toggled(with_flag_toggled(m, f), f) == m,
{
    let once = with_flag_toggled(m, f);
    let twice = with_flag_toggled(once, f);
    assert(twice.clock == m.clock);
    assert(twice.battery == m.battery);
    assert(twice.volume == m.volume);
    assert(twice.network == m.network);
    assert(twice.system_info == m.system_info);
    assert(twice.gpu == m.gpu);
    assert(twice.keyboard_layout == m.keyboard_layout);
    assert(twice.bluetooth == m.bluetooth);
}

/// Switching a display setting leaves every other one as it was.
pub proof fn lemma_flag_toggle_others(m: ModulesConfig, f: Flag, g: Flag)
    requires
        g != f,
    ensures
        flag_value(with_flag_toggled(m, f), g) == flag_value(m, g),
{
}

/// The keys that paste the clipboard into the focused window: Control
/// down, V down, V up, Control up.
pub fn paste_events() -> (r: Vec<KeyEvent>)
    ensures
        r@ == seq![
            KeyEvent { virtual_key: 0x11, key_up: false },
            KeyEvent { virtual_key: 0x56, key_up: false },
            KeyEvent { virtual_key: 0x56, key_up: true },
            KeyEvent { virtual_key: 0x11, key_up: true },
        ],
{
    let mut r: Vec<KeyEvent> = Vec::new();
    r.push(KeyEvent { virtual_key: 0x11, key_up: false });
    r.push(KeyEvent { virtual_key: 0x56, key_up: false });
    r.push(KeyEvent { virtual_key: 0x56, key_up: true });
    r.push(KeyEvent { virtual_key: 0x11, key_up: true });
    r
}

/// The mount point that choosing entry `idx` of the disk menu makes the
/// primary disk (none past the end of the list).
pub fn selected_disk(disks: &Vec<DiskInfo>, idx: usize) -> (r: Option<String>)
    ensures
        match r {
            Some(m) => idx < disks@.len() && m@ == disks@[idx as int].mount_point@,
            None => idx >= disks@.len(),
        },
{
    if idx < disks.len() {
        Some(string_of(disks[idx].mount_point.as_str()))
    } else {
        None
    }
}

} // verus!
