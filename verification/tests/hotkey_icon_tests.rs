use topbar::config::HotkeyConfig;
use topbar::hotkey::{
    default_hotkey_requests, hotkey_response, window_hotkeys, Hotkey, HotkeyAction, HotkeyError, HotkeyManager, HotkeyResponse, MOD_ALT,
    MOD_CONTROL, MOD_SHIFT, MOD_WIN,
};
use topbar::icons::{battery_icon_for_percent, volume_icon_for_level, wifi_icon_for_strength, Icons};

#[test]
fn parse_simple_hotkeys() {
    let h = Hotkey::parse("Alt+T", HotkeyAction::ToggleBar).unwrap();
    assert_eq!(h.modifiers, MOD_ALT);
    assert_eq!(h.key, 'T' as u32);
    assert_eq!(h.action, HotkeyAction::ToggleBar);
    let h = Hotkey::parse("ctrl + shift + s", HotkeyAction::QuickSearch).unwrap();
    assert_eq!(h.modifiers, MOD_CONTROL | MOD_SHIFT);
    assert_eq!(h.key, 'S' as u32);
    let h = Hotkey::parse("Win+Space", HotkeyAction::OpenMenu).unwrap();
    assert_eq!(h.modifiers, MOD_WIN);
    assert_eq!(h.key, 0x20);
    let h = Hotkey::parse("Control+Alt+F12", HotkeyAction::Quit).unwrap();
    assert_eq!(h.modifiers, MOD_CONTROL | MOD_ALT);
    assert_eq!(h.key, 0x7B);
    let h = Hotkey::parse("7", HotkeyAction::Refresh).unwrap();
    assert_eq!(h.modifiers, 0);
    assert_eq!(h.key, '7' as u32);
    let h = Hotkey::parse("Super+Windows+esc", HotkeyAction::Settings).unwrap();
    assert_eq!(h.modifiers, MOD_WIN);
    assert_eq!(h.key, 0x1B);
}

#[test]
fn parse_rejects_bad_hotkeys() {
    assert!(Hotkey::parse("Hyper+T", HotkeyAction::ToggleBar).is_none());
    assert!(Hotkey::parse("Alt+", HotkeyAction::ToggleBar).is_none());
    assert!(Hotkey::parse("", HotkeyAction::ToggleBar).is_none());
    assert!(Hotkey::parse("Alt+F13", HotkeyAction::ToggleBar).is_none());
    assert!(Hotkey::parse("Alt+!", HotkeyAction::ToggleBar).is_none());
}

#[test]
fn parse_key_names() {
    assert_eq!(Hotkey::parse_key("A"), Some(0x41));
    assert_eq!(Hotkey::parse_key("z"), Some(0x5A));
    assert_eq!(Hotkey::parse_key("ENTER"), Some(0x0D));
    assert_eq!(Hotkey::parse_key("RETURN"), Some(0x0D));
    assert_eq!(Hotkey::parse_key("PGDN"), Some(0x22));
    assert_eq!(Hotkey::parse_key("F1"), Some(0x70));
    assert_eq!(Hotkey::parse_key("space"), None);
    assert_eq!(Hotkey::parse_key("é"), None);
}

#[test]
fn manager_register_and_dispatch() {
    let mut m = HotkeyManager::new();
    assert_eq!(m.next_id(), 1);
    let h = Hotkey::parse("Alt+T", HotkeyAction::ToggleBar).unwrap();
    assert_eq!(m.register(h, true), Ok(1));
    assert_eq!(m.next_id(), 2);
    let h2 = Hotkey::parse("Alt+M", HotkeyAction::OpenMenu).unwrap();
    assert_eq!(m.register(h2, false), Err(HotkeyError::RegisterFailed));
    assert_eq!(m.next_id(), 3);
    assert_eq!(m.hotkeys().len(), 1);
    assert_eq!(m.handle_hotkey(1), Some(HotkeyAction::ToggleBar));
    assert_eq!(m.handle_hotkey(2), None);
    // the message parameter is truncated to an id
    assert_eq!(m.handle_hotkey((1usize << 32) + 1), Some(HotkeyAction::ToggleBar));
    assert_eq!(m.unregister(1, false), Err(HotkeyError::UnregisterFailed));
    assert_eq!(m.handle_hotkey(1), Some(HotkeyAction::ToggleBar));
    assert_eq!(m.unregister(1, true), Ok(()));
    assert_eq!(m.handle_hotkey(1), None);
    assert!(m.hotkeys().is_empty());
}

#[test]
fn register_then_unregister_restores() {
    let mut m = HotkeyManager::new();
    let a = Hotkey::parse("Ctrl+A", HotkeyAction::Refresh).unwrap();
    m.register(a, true).unwrap();
    let id = m.next_id();
    let b = Hotkey::parse("Ctrl+B", HotkeyAction::Quit).unwrap();
    assert_eq!(m.register(b, true), Ok(id));
    m.unregister(id, true).unwrap();
    assert_eq!(m.hotkeys().len(), 1);
    assert_eq!(m.handle_hotkey(1), Some(HotkeyAction::Refresh));
}

#[test]
fn hotkey_from_string_errors() {
    assert_eq!(HotkeyManager::hotkey_from_string("Alt+?", HotkeyAction::Quit).err(), Some(HotkeyError::InvalidHotkeyString));
    let h = HotkeyManager::hotkey_from_string("Shift+Tab", HotkeyAction::Quit).unwrap();
    assert_eq!((h.modifiers, h.key), (MOD_SHIFT, 0x09));
}

#[test]
fn default_requests_follow_config() {
    let c = HotkeyConfig::default();
    let r = default_hotkey_requests(&c);
    let expected: Vec<(Option<String>, HotkeyAction)> = vec![
        (c.toggle_bar.clone(), HotkeyAction::ToggleBar),
        (c.open_menu.clone(), HotkeyAction::OpenMenu),
        (c.quick_search.clone(), HotkeyAction::QuickSearch),
        (c.toggle_theme.clone(), HotkeyAction::ToggleTheme),
    ];
    let want: Vec<(String, HotkeyAction)> =
        expected.into_iter().filter_map(|(s, a)| s.map(|s| (s, a))).collect();
    assert_eq!(r, want);
    assert_eq!(r[0], ("Alt+T".to_string(), HotkeyAction::ToggleBar));
    let empty = HotkeyConfig { toggle_bar: None, open_menu: None, quick_search: Some("Alt+Space".to_string()), toggle_theme: None };
    assert_eq!(default_hotkey_requests(&empty), vec![("Alt+Space".to_string(), HotkeyAction::QuickSearch)]);
}

#[test]
fn icons_lookup() {
    let mut icons = Icons::new();
    assert_eq!(icons.get("menu"), "☰");
    assert_eq!(icons.get("battery_charging"), "⚡");
    assert_eq!(icons.get("no-such-icon"), "?");
    assert!(icons.has("disk"));
    assert!(!icons.has("rocket"));
    icons.set("rocket", "🚀");
    assert!(icons.has("rocket"));
    assert_eq!(icons.get("rocket"), "🚀");
    icons.set("menu", "≡");
    assert_eq!(icons.get("menu"), "≡");
    let names = icons.names();
    assert_eq!(names.iter().filter(|n| **n == "menu").count(), 1);
    assert!(names.contains(&"rocket"));
    assert_eq!(Icons::default().get("menu"), "☰");
}

#[test]
fn battery_glyphs() {
    assert_eq!(battery_icon_for_percent(50, true), '\u{E83E}');
    assert_eq!(battery_icon_for_percent(0, false), '\u{E850}');
    assert_eq!(battery_icon_for_percent(5, false), '\u{E850}');
    assert_eq!(battery_icon_for_percent(6, false), '\u{E851}');
    assert_eq!(battery_icon_for_percent(55, false), '\u{E855}');
    assert_eq!(battery_icon_for_percent(95, false), '\u{E859}');
    assert_eq!(battery_icon_for_percent(96, false), '\u{E83F}');
    assert_eq!(battery_icon_for_percent(250, false), '\u{E83F}');
}

#[test]
fn volume_and_wifi_glyphs() {
    assert_eq!(volume_icon_for_level(50, true), '\u{E74F}');
    assert_eq!(volume_icon_for_level(0, false), '\u{E74F}');
    assert_eq!(volume_icon_for_level(33, false), '\u{E993}');
    assert_eq!(volume_icon_for_level(34, false), '\u{E994}');
    assert_eq!(volume_icon_for_level(67, false), '\u{E995}');
    assert_eq!(wifi_icon_for_strength(80, true), '\u{E701}');
    assert_eq!(wifi_icon_for_strength(80, false), '\u{F384}');
}

#[test]
fn hotkey_responses() {
    assert_eq!(hotkey_response(HotkeyAction::QuickSearch), HotkeyResponse::ShowQuickSearch);
    assert_eq!(hotkey_response(HotkeyAction::ToggleBar), HotkeyResponse::ToggleBar);
    assert_eq!(hotkey_response(HotkeyAction::OpenMenu), HotkeyResponse::Ignore);
}

#[test]
fn window_hotkey_plan() {
    let c = HotkeyConfig::default();
    let all: Vec<(i32, u32, u32)> = window_hotkeys(&c, true).iter().map(|(id, h)| (*id, h.modifiers, h.key)).collect();
    assert_eq!(all, vec![(6000, MOD_ALT, 0x54), (6001, MOD_ALT, 0x20), (6002, MOD_ALT, 0x53), (6003, MOD_ALT, 0x44)]);
    let ids: Vec<i32> = window_hotkeys(&c, false).iter().map(|(id, _)| *id).collect();
    assert_eq!(ids, vec![6000, 6001, 6003]);
    let mut odd = HotkeyConfig::default();
    odd.open_menu = Some("Hyper+Q".to_string());
    odd.toggle_theme = None;
    let ids: Vec<i32> = window_hotkeys(&odd, true).iter().map(|(id, _)| *id).collect();
    assert_eq!(ids, vec![6000, 6002]);
    assert_eq!(window_hotkeys(&c, true)[2].1.action, HotkeyAction::QuickSearch);
}
