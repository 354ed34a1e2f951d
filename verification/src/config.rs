//! Configuration model: the settings of each part of the bar and their defaults.

use vstd::prelude::*;
use crate::text::string_of;

verus! {

/// The character sequences held by a vector of strings.
pub open spec fn views(v: Seq<String>) -> Seq<Seq<char>> {
    v.map_values(|s: String| s@)
}

/// Appends a copy of `s` to `v`.
pub fn push_string(v: &mut Vec<String>, s: &str)
    ensures
        views(final(v)@) == views(old(v)@).push(s@),
{
    v.push(string_of(s));
    assert(views(v@) == views(old(v)@).push(s@));
}

/// General application settings
#[derive(Debug, Clone)]
pub struct GeneralConfig {
    /// Start with Windows
    pub start_with_windows: bool,
    /// Show in taskbar
    pub show_in_taskbar: bool,
    /// Language (ISO 639-1 code)
    pub language: String,
    /// Check for updates automatically
    pub auto_update_check: bool,
}

impl Default for GeneralConfig {
    fn default() -> (c: GeneralConfig)
        ensures
            !c.start_with_windows,
            !c.show_in_taskbar,
            c.language@ == "en"@,
            c.auto_update_check,
    {
        GeneralConfig {
            start_with_windows: false,
            show_in_taskbar: false,
            language: string_of("en"),
            auto_update_check: true,
        }
    }
}

/// Bar position enum
#[derive(Debug, Clone, Copy, PartialEq, Eq, Structural)]
pub enum BarPosition {
    Top,
    Bottom,
}

/// Clock module configuration
#[derive(Debug, Clone)]
pub struct ClockConfig {
    /// Time format (12h or 24h)
    pub format_24h: bool,
    /// Show seconds
    pub show_seconds: bool,
    /// Show date
    pub show_date: bool,
    /// Show day of week
    pub show_day: bool,
    /// Center the clock in the bar
    pub center: bool,
    /// Date format
    pub date_format: String,
}

impl Default for ClockConfig {
    fn default() -> (c: ClockConfig)
        ensures
            !c.format_24h,
            !c.show_seconds,
            c.show_date,
            c.show_day,
            !c.center,
            c.date_format@ == "%a, %b %d"@,
    {
        ClockConfig {
            format_24h: false,
            show_seconds: false,
            show_date: true,
            show_day: true,
            center: false,
            date_format: string_of("%a, %b %d"),
        }
    }
}

/// System info module configuration
#[derive(Debug, Clone)]
pub struct SystemInfoConfig {
    /// Show CPU usage
    pub show_cpu: bool,
    /// Show memory usage
    pub show_memory: bool,
    /// Show disk usage
    pub show_disk: bool,
    /// Show GPU usage
    pub show_gpu: bool,
    /// Update interval in milliseconds
    pub update_interval_ms: u64,
    /// Show as graph
    pub show_graph: bool,
}

impl Default for SystemInfoConfig {
    fn default() -> (c: SystemInfoConfig)
        ensures
            c.show_cpu,
            c.show_memory,
            !c.show_disk,
            !c.show_gpu,
            c.update_interval_ms == 2000,
            !c.show_graph,
    {
        SystemInfoConfig {
            show_cpu: true,
            show_memory: true,
            show_disk: false,
            show_gpu: false,
            update_interval_ms: 2000,
            show_graph: false,
        }
    }
}

/// Temperature unit enum
#[derive(Debug, Clone, Copy, PartialEq, Eq, Structural)]
pub enum TemperatureUnit {
    Celsius,
    Fahrenheit,
}

/// Weather module configuration
#[derive(Debug, Clone)]
pub struct WeatherConfig {
    /// Enable weather module
    pub enabled: bool,
    /// Location (a city name, or "auto" for automatic detection)
    pub location: String,
    /// Temperature unit (celsius or fahrenheit)
    pub unit: TemperatureUnit,
    /// Show condition icon
    pub show_icon: bool,
    /// Update interval in minutes
    pub update_interval_min: u32,
}

impl Default for WeatherConfig {
    fn default() -> (c: WeatherConfig)
        ensures
            c.enabled,
            c.location@ == "auto"@,
            c.unit == TemperatureUnit::Celsius,
            c.show_icon,
            c.update_interval_min == 30,
    {
        WeatherConfig {
            enabled: true,
            location: string_of("auto"),
            unit: TemperatureUnit::Celsius,
            show_icon: true,
            update_interval_min: 30,
        }
    }
}

/// Menu action enum
#[derive(Debug, Clone)]
pub enum MenuAction {
    /// Open system info
    SystemInfo,
    /// Open Windows settings
    OpenSettings,
    /// Visual separator
    Separator,
    /// Sleep the computer
    Sleep,
    /// Restart the computer
    Restart,
    /// Shut down the computer
    Shutdown,
    /// Lock the computer
    Lock,
    /// Sign out
    SignOut,
    /// Open a URL
    OpenUrl(String),
    /// Run a command
    RunCommand(String),
    /// Open a file
    OpenFile(String),
    /// Custom action
    Custom(String),
    /// No action (for submenu parents)
    NoAction,
}

/// Menu item configuration
#[derive(Debug)]
pub struct MenuItemConfig {
    /// Display label
    pub label: String,
    /// Action to perform
    pub action: MenuAction,
    /// Icon name
    pub icon: Option<String>,
    /// Submenu items
    pub submenu: Vec<MenuItemConfig>,
}

/// `item` has the given label, the given icon name (when `icon` is not empty,
/// no icon when it is) and no submenu.
pub open spec fn menu_item_is(item: MenuItemConfig, label: Seq<char>, icon: Seq<char>) -> bool {
    &&& item.label@ == label
    &&& (if icon.len() == 0 {
        item.icon is None
    } else {
        item.icon matches Some(i) && i@ == icon
    })
    &&& item.submenu@.len() == 0
}

fn menu_item(label: &str, action: MenuAction, icon: &str) -> (item: MenuItemConfig)
    ensures
        menu_item_is(item, label@, icon@),
        item.action == action,
{
    let icon_opt = if icon.is_empty() {
        None
    } else {
        Some(string_of(icon))
    };
    MenuItemConfig { label: string_of(label), action, icon: icon_opt, submenu: Vec::new() }
}

/// App menu configuration
#[derive(Debug)]
pub struct AppMenuConfig {
    /// Show app icon
    pub show_icon: bool,
    /// Menu items
    pub items: Vec<MenuItemConfig>,
    /// Show search
    pub show_search: bool,
    /// Show recent apps
    pub show_recent: bool,
    /// Max recent apps count
    pub recent_count: usize,
}

impl Default for AppMenuConfig {
    fn default() -> (c: AppMenuConfig)
        ensures
            c.show_icon,
            c.show_search,
            c.show_recent,
            c.recent_count == 5,
            c.items@.len() == 6,
            menu_item_is(c.items@[0], "About This PC"@, "info"@),
            c.items@[0].action is SystemInfo,
            menu_item_is(c.items@[1], "System Preferences"@, "settings"@),
            c.items@[1].action is OpenSettings,
            menu_item_is(c.items@[2], "-"@, ""@),
            c.items@[2].action is Separator,
            menu_item_is(c.items@[3], "Sleep"@, "sleep"@),
            c.items@[3].action is Sleep,
            menu_item_is(c.items@[4], "Restart"@, "restart"@),
            c.items@[4].action is Restart,
            menu_item_is(c.items@[5], "Shut Down"@, "power"@),
            c.items@[5].action is Shutdown,
    {
        let mut items: Vec<MenuItemConfig> = Vec::new();
        items.push(menu_item("About This PC", MenuAction::SystemInfo, "info"));
        items.push(menu_item("System Preferences", MenuAction::OpenSettings, "settings"));
        items.push(menu_item("-", MenuAction::Separator, ""));
        items.push(menu_item("Sleep", MenuAction::Sleep, "sleep"));
        items.push(menu_item("Restart", MenuAction::Restart, "restart"));
        items.push(menu_item("Shut Down", MenuAction::Shutdown, "power"));
        AppMenuConfig {
            show_icon: true,
            items,
            show_search: true,
            show_recent: true,
            recent_count: 5,
        }
    }
}

/// Media controls configuration
#[derive(Debug, Clone)]
pub struct MediaConfig {
    /// Show now playing
    pub show_now_playing: bool,
    /// Show album art
    pub show_album_art: bool,
    /// Show playback controls
    pub show_controls: bool,
    /// Scroll title if too long
    pub scroll_title: bool,
    /// Max title length before scrolling
    pub max_title_length: usize,
}

impl Default for MediaConfig {
    fn default() -> (c: MediaConfig)
        ensures
            c.show_now_playing,
            c.show_album_art,
            c.show_controls,
            c.scroll_title,
            c.max_title_length == 35,
    {
        MediaConfig {
            show_now_playing: true,
            show_album_art: true,
            show_controls: true,
            scroll_title: true,
            max_title_length: 35,
        }
    }
}

/// Network module configuration
#[derive(Debug, Clone)]
pub struct NetworkConfig {
    /// Show network type icon
    pub show_icon: bool,
    /// Show network name
    pub show_name: bool,
    /// Show speed
    pub show_speed: bool,
}

impl Default for NetworkConfig {
    fn default() -> (c: NetworkConfig)
        ensures
            c.show_icon,
            !c.show_name,
            !c.show_speed,
    {
        NetworkConfig { show_icon: true, show_name: false, show_speed: false }
    }
}

/// Battery module configuration
#[derive(Debug, Clone)]
pub struct BatteryConfig {
    /// Show percentage
    pub show_percentage: bool,
    /// Show time remaining
    pub show_time_remaining: bool,
    /// Low battery threshold
    pub low_threshold: u32,
    /// Critical battery threshold
    pub critical_threshold: u32,
}

impl Default for BatteryConfig {
    fn default() -> (c: BatteryConfig)
        ensures
            c.show_percentage,
            !c.show_time_remaining,
            c.low_threshold == 20,
            c.critical_threshold == 10,
    {
        BatteryConfig {
            show_percentage: true,
            show_time_remaining: false,
            low_threshold: 20,
            critical_threshold: 10,
        }
    }
}

/// Volume module configuration
#[derive(Debug, Clone)]
pub struct VolumeConfig {
    /// Show percentage
    pub show_percentage: bool,
    /// Show on scroll change
    pub scroll_to_change: bool,
    /// Volume step for scroll
    pub scroll_step: u32,
}

impl Default for VolumeConfig {
    fn default() -> (c: VolumeConfig)
        ensures
            !c.show_percentage,
            c.scroll_to_change,
            c.scroll_step == 5,
    {
        VolumeConfig { show_percentage: false, scroll_to_change: true, scroll_step: 5 }
    }
}

/// GPU module configuration
#[derive(Debug, Clone)]
pub struct GpuConfig {
    /// Enable GPU module
    pub enabled: bool,
    /// Show GPU usage percentage
    pub show_usage: bool,
    /// Show as a moving graph instead of percentage
    pub show_graph: bool,
    /// Update interval in milliseconds
    pub update_interval_ms: u64,
}

impl Default for GpuConfig {
    fn default() -> (c: GpuConfig)
        ensures
            c.enabled,
            c.show_usage,
            !c.show_graph,
            c.update_interval_ms == 1500,
    {
        GpuConfig { enabled: true, show_usage: true, show_graph: false, update_interval_ms: 1500 }
    }
}

/// Keyboard layout module configuration
#[derive(Debug, Clone)]
pub struct KeyboardLayoutConfig {
    /// Enable keyboard layout module
    pub enabled: bool,
    /// Show full language name
    pub show_full_name: bool,
    /// Show flag emoji
    pub show_flag: bool,
}

impl Default for KeyboardLayoutConfig {
    fn default() -> (c: KeyboardLayoutConfig)
        ensures
            c.enabled,
            !c.show_full_name,
            !c.show_flag,
    {
        KeyboardLayoutConfig { enabled: true, show_full_name: false, show_flag: false }
    }
}

/// Uptime module configuration
#[derive(Debug, Clone)]
pub struct UptimeConfig {
    /// Enable uptime module
    pub enabled: bool,
    /// Show icon
    pub show_icon: bool,
}

impl Default for UptimeConfig {
    fn default() -> (c: UptimeConfig)
        ensures
            c.enabled,
            c.show_icon,
    {
        UptimeConfig { enabled: true, show_icon: true }
    }
}

/// Bluetooth module configuration
#[derive(Debug, Clone)]
pub struct BluetoothConfig {
    /// Enable Bluetooth module
    pub enabled: bool,
    /// Show connected device count
    pub show_device_count: bool,
    /// Show connected device names
    pub show_device_names: bool,
}

impl Default for BluetoothConfig {
    fn default() -> (c: BluetoothConfig)
        ensures
            c.enabled,
            c.show_device_count,
            !c.show_device_names,
    {
        BluetoothConfig { enabled: true, show_device_count: true, show_device_names: false }
    }
}

/// Disk module configuration
#[derive(Debug, Clone)]
pub struct DiskConfig {
    /// Enable disk module
    pub enabled: bool,
    /// Primary disk to monitor (e.g., "C:")
    pub primary_disk: String,
    /// Update interval in milliseconds
    pub update_interval_ms: u64,
}

impl Default for DiskConfig {
    fn default() -> (c: DiskConfig)
        ensures
            c.enabled,
            c.primary_disk@ == "C:"@,
            c.update_interval_ms == 5000,
    {
        DiskConfig { enabled: true, primary_disk: string_of("C:"), update_interval_ms: 5000 }
    }
}

/// Module configurations
#[derive(Debug)]
pub struct ModulesConfig {
    /// Clock module settings
    pub clock: ClockConfig,
    /// System info module settings
    pub system_info: SystemInfoConfig,
    /// Weather module settings
    pub weather: WeatherConfig,
    /// App menu settings
    pub app_menu: AppMenuConfig,
    /// Media controls settings
    pub media: MediaConfig,
    /// Network module settings
    pub network: NetworkConfig,
    /// Battery module settings
    pub battery: BatteryConfig,
    /// Volume module settings
    pub volume: VolumeConfig,
    /// GPU module settings
    pub gpu: GpuConfig,
    /// Keyboard layout module settings
    pub keyboard_layout: KeyboardLayoutConfig,
    /// Uptime module settings
    pub uptime: UptimeConfig,
    /// Bluetooth module settings
    pub bluetooth: BluetoothConfig,
    /// Disk module settings
    pub disk: DiskConfig,
    /// Enabled modules in order (left side)
    pub left_modules: Vec<String>,
    /// Enabled modules in order (center)
    pub center_modules: Vec<String>,
    /// Enabled modules in order (right side)
    pub right_modules: Vec<String>,
}

/// The default order of the right-hand modules.
pub open spec fn default_right_modules() -> Seq<Seq<char>> {
    seq![
        "weather"@,
        "media"@,
        "keyboard_layout"@,
        "gpu"@,
        "system_info"@,
        "disk"@,
        "network"@,
        "bluetooth"@,
        "volume"@,
        "battery"@,
        "uptime"@,
        "clock"@,
    ]
}

impl Default for ModulesConfig {
    fn default() -> (c: ModulesConfig)
        ensures
            views(c.left_modules@) == seq!["app_menu"@, "active_app"@],
            views(c.center_modules@) == Seq::<Seq<char>>::empty(),
            views(c.right_modules@) == default_right_modules(),
            c.disk.primary_disk@ == "C:"@,
            c.media.max_title_length == 35,
            c.battery.show_percentage,
            !c.battery.show_time_remaining,
            !c.volume.show_percentage,
            c.bluetooth.show_device_count,
            !c.network.show_name,
    {
        let mut left: Vec<String> = Vec::new();
        push_string(&mut left, "app_menu");
        push_string(&mut left, "active_app");
        let mut right: Vec<String> = Vec::new();
        push_string(&mut right, "weather");
        push_string(&mut right, "media");
        push_string(&mut right, "keyboard_layout");
        push_string(&mut right, "gpu");
        push_string(&mut right, "system_info");
        push_string(&mut right, "disk");
        push_string(&mut right, "network");
        push_string(&mut right, "bluetooth");
        push_string(&mut right, "volume");
        push_string(&mut right, "battery");
        push_string(&mut right, "uptime");
        push_string(&mut right, "clock");
        let center: Vec<String> = Vec::new();
        assert(views(center@) == Seq::<Seq<char>>::empty());
        ModulesConfig {
            clock: ClockConfig::default(),
            system_info: SystemInfoConfig::default(),
            weather: WeatherConfig::default(),
            app_menu: AppMenuConfig::default(),
            media: MediaConfig::default(),
            network: NetworkConfig::default(),
            battery: BatteryConfig::default(),
            volume: VolumeConfig::default(),
            gpu: GpuConfig::default(),
            keyboard_layout: KeyboardLayoutConfig::default(),
            uptime: UptimeConfig::default(),
            bluetooth: BluetoothConfig::default(),
            disk: DiskConfig::default(),
            left_modules: left,
            center_modules: center,
            right_modules: right,
        }
    }
}

/// Double click action enum
#[derive(Debug, Clone, Copy, PartialEq, Eq, Structural)]
pub enum DoubleClickAction {
    NoAction,
    MaximizeWindow,
    MinimizeWindow,
    OpenSettings,
}

/// Behavior settings
#[derive(Debug, Clone)]
pub struct BehaviorConfig {
    /// Auto-hide the bar
    pub auto_hide: bool,
    /// Auto-hide delay in milliseconds
    pub auto_hide_delay_ms: u32,
    /// Reserve screen space (push windows down)
    pub reserve_space: bool,
    /// Show on all virtual desktops
    pub all_desktops: bool,
    /// Allow dragging windows by bar
    pub drag_to_move: bool,
    /// Double click action
    pub double_click_action: DoubleClickAction,
    /// Focus follows mouse for menus
    pub focus_follows_mouse: bool,
}

impl Default for BehaviorConfig {
    fn default() -> (c: BehaviorConfig)
        ensures
            !c.auto_hide,
            c.auto_hide_delay_ms == 800,
            c.reserve_space,
            c.all_desktops,
            !c.drag_to_move,
            c.double_click_action == DoubleClickAction::NoAction,
            c.focus_follows_mouse,
    {
        BehaviorConfig {
            auto_hide: false,
            auto_hide_delay_ms: 800,
            reserve_space: true,
            all_desktops: true,
            drag_to_move: false,
            double_click_action: DoubleClickAction::NoAction,
            focus_follows_mouse: true,
        }
    }
}

/// Hotkey configuration
#[derive(Debug, Clone)]
pub struct HotkeyConfig {
    /// Toggle bar visibility
    pub toggle_bar: Option<String>,
    /// Open app menu
    pub open_menu: Option<String>,
    /// Quick search
    pub quick_search: Option<String>,
    /// Toggle theme
    pub toggle_theme: Option<String>,
}

impl Default for HotkeyConfig {
    fn default() -> (c: HotkeyConfig)
        ensures
            c.toggle_bar matches Some(s) && s@ == "Alt+T"@,
            c.open_menu matches Some(s) && s@ == "Alt+Space"@,
            c.quick_search matches Some(s) && s@ == "Alt+S"@,
            c.toggle_theme matches Some(s) && s@ == "Alt+D"@,
    {
        HotkeyConfig {
            toggle_bar: Some(string_of("Alt+T")),
            open_menu: Some(string_of("Alt+Space")),
            quick_search: Some(string_of("Alt+S")),
            toggle_theme: Some(string_of("Alt+D")),
        }
    }
}

} // verus!
