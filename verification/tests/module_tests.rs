use topbar::config::{BatteryConfig, ModulesConfig, VolumeConfig};
use topbar::modules::battery::{BatteryModule, PowerStatus};
use topbar::modules::bluetooth::{connected_names, device_change_refreshes, BluetoothModule, BluetoothState, FoundDevice};
use topbar::modules::clipboard::ClipboardModule;
use topbar::modules::keyboard_layout::KeyboardLayoutModule;
use topbar::modules::media::{MediaKey, MediaModule, PlaybackState};
use topbar::modules::network::{AdapterInfo, NetworkModule, NetworkType};
use topbar::modules::uptime::UptimeModule;
use topbar::modules::volume::VolumeModule;
use topbar::modules::Module;

fn status(ac: u8, flag: u8, pct: u8, time: u32) -> PowerStatus {
    PowerStatus { ac_line_status: ac, battery_flag: flag, battery_life_percent: pct, battery_life_time: time }
}

#[test]
fn battery_text_and_state() {
    let cfg = BatteryConfig::default();
    let mut b = BatteryModule::new();
    assert_eq!(b.battery_percent(), 100);
    b.force_update(Some(status(0, 1, 45, 3600)), &cfg);
    assert_eq!(b.battery_percent(), 45);
    assert!(!b.is_charging());
    assert!(!b.is_plugged_in());
    assert!(b.has_battery());
    assert_eq!(b.build_display_text(&cfg), "🔋 45%");
    assert_eq!(b.tooltip_text(), "Battery: 45%\nStatus: On battery\nTime remaining: 1:00");
    b.force_update(Some(status(0, 1, 12, u32::MAX)), &cfg);
    assert_eq!(b.build_display_text(&cfg), "🪫 12%");
    b.force_update(Some(status(1, 8 | 1, 50, u32::MAX)), &cfg);
    assert!(b.is_charging());
    assert!(b.is_plugged_in());
    assert_eq!(b.build_display_text(&cfg), "⚡ 50%");
    assert_eq!(b.tooltip_text(), "Battery: 50%\nStatus: Charging");
    b.force_update(Some(status(1, 1, 100, u32::MAX)), &cfg);
    assert_eq!(b.build_display_text(&cfg), "🔌 100%");
    // an unknown percentage keeps the last one
    b.force_update(Some(status(0, 1, 255, 125 * 60)), &cfg);
    assert_eq!(b.battery_percent(), 100);
    let timed = BatteryConfig { show_percentage: false, show_time_remaining: true, ..BatteryConfig::default() };
    assert_eq!(b.build_display_text(&timed), "🔋 2:05");
    b.force_update(Some(status(1, 128, 0, 0)), &cfg);
    assert!(!b.has_battery());
    assert_eq!(b.build_display_text(&cfg), "");
    assert_eq!(b.tooltip_text(), "No battery detected");
    // a failed query changes nothing but the text
    b.force_update(None, &cfg);
    assert!(!b.has_battery());
}

#[test]
fn volume_levels() {
    let cfg = VolumeConfig { show_percentage: true, ..VolumeConfig::default() };
    let mut v = VolumeModule::new();
    assert_eq!(v.volume_level(), 50);
    v.force_update(Some(80), Some(false), &cfg);
    assert_eq!(v.build_display_text(&cfg), "🔊 80%");
    v.force_update(Some(10), None, &cfg);
    assert_eq!(v.build_display_text(&cfg), "🔈 10%");
    v.change_volume(-20);
    assert_eq!(v.volume_level(), 0);
    v.change_volume(250);
    assert_eq!(v.volume_level(), 100);
    v.change_volume(-70);
    assert_eq!(v.volume_level(), 30);
    assert_eq!(v.build_display_text(&cfg), "🔉 30%");
    v.toggle_mute();
    assert!(v.is_muted());
    assert_eq!(v.build_display_text(&cfg), "🔇 30%");
    assert_eq!(v.tooltip_text(), "Volume: 30% (Muted)\nScroll to adjust, click to mute");
    v.toggle_mute();
    assert!(!v.is_muted());
    v.on_scroll(120);
    assert_eq!(v.volume_level(), 35);
    v.on_scroll(-120);
    v.on_scroll(-1);
    assert_eq!(v.volume_level(), 25);
    assert_eq!(v.scroll_delta(3), Some(5));
    assert_eq!(v.scroll_delta(0), Some(-5));
    assert_eq!(v.tooltip_text(), "Volume: 25%\nScroll to adjust, click to mute");
    let plain = VolumeConfig::default();
    assert_eq!(v.build_display_text(&plain), "🔉");
    v.rebuild_cached_text(&cfg);
    assert_eq!(Module::display_text(&v, &ModulesConfig::default()), "🔉 25%");
    v.rebuild_cached_text(&plain);
    assert_eq!(Module::display_text(&v, &ModulesConfig::default()), "🔉");
}

#[test]
fn network_status() {
    let mut n = NetworkModule::new();
    let adapters = vec![AdapterInfo { oper_up: false, if_type: 71 }, AdapterInfo { oper_up: true, if_type: 6 }];
    n.check_network_status(&adapters);
    assert_eq!(n.network_type(), NetworkType::Ethernet);
    assert!(n.is_connected());
    let wifi = vec![AdapterInfo { oper_up: true, if_type: 6 }, AdapterInfo { oper_up: true, if_type: 71 }];
    n.check_network_status(&wifi);
    assert_eq!(n.network_type(), NetworkType::WiFi);
    n.apply_wifi_info(Some("HomeNet".to_string()), Some(72));
    assert_eq!(n.signal_strength(), 72);
    assert_eq!(n.network_name(), Some("HomeNet"));
    assert_eq!(n.tooltip_text(), "Network: Wi-Fi\nSignal Strength: 72% (Good)\nNetwork: HomeNet");
    n.force_update();
    assert_eq!(n.build_display_text(), "📶");
    // with no adapter up the module is disconnected again
    let none: Vec<AdapterInfo> = vec![AdapterInfo { oper_up: false, if_type: 6 }];
    n.check_network_status(&none);
    assert_eq!(n.network_type(), NetworkType::Disconnected);
    assert!(!n.is_connected());
    let mut fresh = NetworkModule::new();
    fresh.check_network_status(&none);
    assert_eq!(fresh.network_type(), NetworkType::Disconnected);
    assert!(!fresh.is_connected());
}

#[test]
fn uptime_texts() {
    let mut u = UptimeModule::new();
    u.force_update(((2 * 86400 + 3 * 3600 + 4 * 60 + 5) * 1000) + 999);
    assert_eq!(u.uptime_secs(), 2 * 86400 + 3 * 3600 + 4 * 60 + 5);
    assert_eq!(u.build_display_text(), "⏱ 2d 3h");
    assert_eq!(u.formatted_full(), "2 days, 3 hours, 4 minutes, 5 seconds");
    u.set_compact_format(false);
    assert_eq!(u.build_display_text(), "⏱ 2 days, 3 hours");
    u.set_show_days(false);
    assert_eq!(u.build_display_text(), "⏱ 3 hours, 4 minutes");
    u.force_update(61_000);
    assert_eq!(u.build_display_text(), "⏱ 1 minute");
    assert_eq!(u.formatted_full(), "1 minutes, 1 seconds");
    assert_eq!(u.tooltip_text(), "System Uptime\n1 minutes, 1 seconds");
    u.set_compact_format(true);
    u.force_update(3600 * 1000);
    assert_eq!(u.build_display_text(), "⏱ 1h 0m");
}

#[test]
fn media_key_events() {
    let ev = MediaKey::PlayPause.key_events();
    assert_eq!(ev.len(), 2);
    assert_eq!((ev[0].virtual_key, ev[0].key_up), (0xB3, false));
    assert_eq!((ev[1].virtual_key, ev[1].key_up), (0xB3, true));
    assert_eq!(MediaKey::Previous.virtual_key(), 0xB1);
    assert_eq!(MediaKey::Next.virtual_key(), 0xB0);
}

#[test]
fn bluetooth_connected_filter() {
    let found = vec![
        FoundDevice { name: "Headphones".to_string(), connected: true },
        FoundDevice { name: "Old mouse".to_string(), connected: false },
        FoundDevice { name: "Keyboard".to_string(), connected: true },
    ];
    assert_eq!(connected_names(&found), vec!["Headphones".to_string(), "Keyboard".to_string()]);
    assert!(connected_names(&vec![]).is_empty());
}

#[test]
fn media_playback() {
    let mut m = MediaModule::new();
    assert_eq!(m.playback_state(), PlaybackState::Stopped);
    m.force_update();
    assert_eq!(m.build_display_text(), "");
    assert_eq!(m.tooltip_text(), "No media playing");
    assert_eq!(m.toggle_playback(), MediaKey::PlayPause);
    assert!(m.is_playing());
    assert_eq!(m.build_display_text(), "▶");
    m.pause();
    assert_eq!(m.playback_state(), PlaybackState::Paused);
    assert_eq!(m.build_display_text(), "⏸");
    assert_eq!(m.tooltip_text(), "Status: Paused");
    m.play();
    assert!(m.is_playing());
    assert_eq!(m.next(), MediaKey::Next);
    m.set_show_now_playing(false);
    m.set_max_title_length(10);
    m.force_update();
    assert_eq!(m.build_display_text(), "▶");
    assert_eq!(m.previous(), MediaKey::Previous);
    assert_eq!(m.on_scroll(1), MediaKey::Next);
    assert_eq!(m.on_scroll(-1), MediaKey::Previous);
}

#[test]
fn bluetooth_states() {
    let mut b = BluetoothModule::new();
    b.force_update(true, true, vec!["Headphones".to_string(), "Mouse".to_string()]);
    assert_eq!(b.state(), BluetoothState::Connected);
    assert_eq!(b.connected_devices().len(), 2);
    b.force_update(true, false, vec![]);
    assert_eq!(b.state(), BluetoothState::Off);
    b.force_update(false, false, vec![]);
    assert_eq!(b.state(), BluetoothState::Unavailable);
    b.force_update(true, true, vec![]);
    assert_eq!(b.state(), BluetoothState::On);
}

#[test]
fn keyboard_layouts() {
    let mut k = KeyboardLayoutModule::new();
    k.force_update(0x0409_0409);
    assert_eq!(k.language_code(), "EN");
    assert_eq!(k.language_name(), "English");
    assert_eq!(k.bar_text(), "⌨ EN");
    k.force_update(0x0407_0407);
    assert_eq!(k.language_code(), "DE");
    let (code, name) = KeyboardLayoutModule::get_language_info(0x11);
    assert_eq!(code, "JA");
    assert_eq!(name, "Japanese");
}

#[test]
fn clipboard_history() {
    let mut c = ClipboardModule::new();
    c.poll_clipboard(Some("first".to_string()));
    c.poll_clipboard(Some("second".to_string()));
    c.poll_clipboard(Some("first".to_string()));
    assert_eq!(c.get_history(), vec!["first".to_string(), "second".to_string()]);
    c.poll_clipboard(Some("   ".to_string()));
    c.poll_clipboard(None);
    assert_eq!(c.get_history().len(), 2);
    for i in 0..20 {
        c.poll_clipboard(Some(format!("item {}", i)));
    }
    let h = c.get_history();
    assert_eq!(h.len(), 10);
    assert_eq!(h[0], "item 19");
    assert_eq!(h[9], "item 10");
}

#[test]
fn module_ids() {
    let cfg = ModulesConfig::default();
    let mut v = VolumeModule::new();
    assert_eq!(v.id(), "volume");
    v.update(&cfg);
    assert_eq!(Module::display_text(&v, &cfg), "🔉");
    let u = UptimeModule::new();
    assert_eq!(u.id(), "uptime");
    let n = NetworkModule::new();
    assert_eq!(n.id(), "network");
}

#[test]
fn device_changes_that_refresh_bluetooth() {
    assert!(device_change_refreshes(0x8000, None));
    assert!(device_change_refreshes(0x8004, Some(5)));
    assert!(!device_change_refreshes(0x8004, Some(2)));
    assert!(device_change_refreshes(0x0007, Some(2)));
    assert!(!device_change_refreshes(0x0018, None));
}
