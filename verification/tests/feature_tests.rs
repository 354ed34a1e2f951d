use topbar::config::{ClockConfig, DiskConfig, ModulesConfig};
use topbar::dropdown::{calculate_height, hit_test, show_position, DropdownItem};
use topbar::effects::{AccentState, BackdropType, CornerPreference, EffectsManager};
use topbar::json::{parse_u32, Json};
use topbar::modules::active_window::{app_label_text, ActiveWindowModule, ForegroundWindow};
use topbar::modules::app_menu::{right_click_plan, AppMenuModule, LaunchPlan, MenuAction, MenuItem};
use topbar::modules::clock::{clock_sample_text, format_time, tooltip_at, ClockModule, LocalTime};
use topbar::modules::disk::{disk_info, select_primary, DiskModule};
use topbar::modules::night_light::{NightLightModule, NightLightState, NightLightToggle, ToggleAction, ToggleEvent};
use topbar::modules::uptime::UptimeModule;
use topbar::modules::volume::VolumeModule;
use topbar::modules::{Module, ModuleRegistry};
use topbar::preview::{
    classify_extension, hook_action, is_explorer_class, text_preview, window_size, HookAction, PreviewKind,
};
use topbar::settings::{find_module_insert_position, toggle_module};
use topbar::tray::{classify_click, TrayClick, TrayCommand, TrayMenu};

fn window(title: &str, process: &str, pid: u32) -> Option<ForegroundWindow> {
    Some(ForegroundWindow { title: title.to_string(), process: process.to_string(), pid, path: String::new() })
}

#[test]
fn app_labels() {
    assert_eq!(app_label_text(""), "Desktop");
    assert_eq!(app_label_text("notepad.exe"), "Notepad");
    assert_eq!(app_label_text("Code.EXE"), "Code");
    assert_eq!(app_label_text("weird.exe.exe"), "Weird");
    assert_eq!(app_label_text("ßtool.exe"), "Stool");
    assert_eq!(app_label_text("éditeur"), "Éditeur");
    assert_eq!(app_label_text(".exe"), "");
}

#[test]
fn focus_debounce() {
    let mut m = ActiveWindowModule::new();
    assert_eq!(m.bar_text(), "Desktop");
    m.observe(window("Doc - Notepad", "notepad.exe", 10), 99, false, 0);
    assert_eq!(m.process_name(), "notepad.exe");
    assert_eq!(m.bar_text(), "Notepad");
    // a new window is shown only once it has kept the focus for a while
    m.observe(window("Inbox", "mail.exe", 11), 99, false, 1000);
    assert_eq!(m.process_name(), "notepad.exe");
    m.observe(window("Inbox", "mail.exe", 11), 99, false, 1100);
    assert_eq!(m.process_name(), "notepad.exe");
    m.observe(window("Inbox", "mail.exe", 11), 99, false, 1200);
    assert_eq!(m.process_name(), "mail.exe");
    assert_eq!(m.window_title(), "Inbox");
    assert_eq!(m.process_id(), 11);
    // the bar's own window does not take the place of the last one
    m.observe(window("TopBar", "topbar.exe", 99), 99, false, 2000);
    assert_eq!(m.process_name(), "mail.exe");
    // the shell while Alt is held is ignored
    m.observe(window("Program Manager", "explorer.exe", 5), 99, true, 3000);
    assert_eq!(m.process_name(), "mail.exe");
    assert_eq!(m.tooltip_text(), Some("mail.exe\nInbox".to_string()));
}

#[test]
fn active_window_records_paths() {
    let mut m = ActiveWindowModule::new();
    m.observe(
        Some(ForegroundWindow {
            title: "x".to_string(),
            process: "x.exe".to_string(),
            pid: 3,
            path: "C:\\x.exe".to_string(),
        }),
        1,
        false,
        0,
    );
    assert_eq!(m.process_path(), "C:\\x.exe");
    m.observe(None, 1, false, 10);
    assert_eq!(m.process_path(), "C:\\x.exe");
    assert_eq!(m.id(), "active_window");
}

#[test]
fn app_menu_defaults_and_plans() {
    let mut m = AppMenuModule::new();
    let items = m.menu_items();
    assert_eq!(items.len(), 15);
    assert_eq!(items[0].label, "About This PC");
    assert!(items[1].is_separator);
    assert_eq!(items[7].shortcut.as_deref(), Some("Ctrl+Alt+Del"));
    assert_eq!(items[5].submenu.len(), 1);
    assert!(items[5].submenu[0].is_disabled);
    assert!(!m.is_open());
    m.toggle_menu();
    assert!(m.is_open());
    m.set_menu_items(vec![MenuItem::new("Only", MenuAction::Lock).with_icon("🔒")]);
    assert_eq!(m.menu_items().len(), 1);
    assert!(m.is_open());
    match AppMenuModule::launch_plan(&MenuAction::Restart) {
        LaunchPlan::Spawn { program, args, hidden } => {
            assert_eq!(program, "shutdown");
            assert_eq!(args, vec!["/r".to_string(), "/t".to_string(), "0".to_string()]);
            assert!(!hidden);
        }
        _ => panic!("restart spawns a program"),
    }
    match AppMenuModule::launch_plan(&MenuAction::RunCommand("taskmgr".to_string())) {
        LaunchPlan::Spawn { program, args, hidden } => {
            assert_eq!(program, "cmd");
            assert_eq!(args, vec!["/c".to_string(), "taskmgr".to_string()]);
            assert!(hidden);
        }
        _ => panic!("a command spawns a program"),
    }
    match AppMenuModule::launch_plan(&MenuAction::SystemInfo) {
        LaunchPlan::Open(t) => assert_eq!(t, "ms-settings:about"),
        _ => panic!("system info opens a page"),
    }
    assert!(matches!(AppMenuModule::launch_plan(&MenuAction::NoAction), LaunchPlan::Nothing));
    assert!(matches!(AppMenuModule::launch_plan(&MenuAction::Custom("x".to_string())), LaunchPlan::Nothing));
}

fn t(year: i32, month: u32, day: u32, hour: u32, minute: u32, second: u32) -> LocalTime {
    LocalTime { year, month, day, hour, minute, second }
}

#[test]
fn clock_formats() {
    let now = t(2024, 3, 15, 14, 5, 9);
    let c = ClockConfig::default();
    assert_eq!(format_time(&c, &now), "Fri Mar 15  02:05 PM");
    let c24 = ClockConfig { format_24h: true, show_seconds: true, show_date: false, show_day: false, ..ClockConfig::default() };
    assert_eq!(format_time(&c24, &now), "14:05:09");
    let c12 = ClockConfig { format_24h: false, show_seconds: true, show_date: true, show_day: false, ..ClockConfig::default() };
    assert_eq!(format_time(&c12, &t(2023, 12, 1, 0, 0, 0)), "Dec 01  12:00:00 AM");
    assert_eq!(tooltip_at(&now), "Friday, March 15, 2024\n02:05:09 PM");
    assert_eq!(tooltip_at(&t(2000, 2, 29, 12, 30, 0)), "Tuesday, February 29, 2000\n12:30:00 PM");
    assert_eq!(tooltip_at(&t(1970, 1, 1, 0, 0, 0)), "Thursday, January 01, 1970\n12:00:00 AM");
    assert_eq!(tooltip_at(&t(999, 7, 4, 23, 59, 59)), "Thursday, July 04, 0999\n11:59:59 PM");
}

#[test]
fn clock_module_updates() {
    let mut m = ClockModule::new();
    let c = ClockConfig { format_24h: true, ..ClockConfig::default() };
    m.update_at(&c, &t(2024, 1, 1, 9, 0, 0));
    assert_eq!(m.display_text(&ModulesConfig::default()), "Mon Jan 01  09:00");
    m.refresh(&c);
    assert!(!m.display_text(&ModulesConfig::default()).is_empty());
    assert!(m.current_tooltip().contains('\n'));
    assert_eq!(clock_sample_text(&ClockConfig::default()), "Wed Sep 00  00:00 PM");
}

#[test]
fn disks_and_primary() {
    let disks = vec![
        disk_info("Data".to_string(), "D:\\".to_string(), 1000, 250),
        disk_info("System".to_string(), "C:\\".to_string(), 2000, 500),
    ];
    assert_eq!(disks[0].used_space, 750);
    assert_eq!(disk_info("x".to_string(), "x".to_string(), 5, 9).used_space, 0);
    assert_eq!(select_primary(&disks, ""), 1);
    assert_eq!(select_primary(&disks, "D:"), 0);
    assert_eq!(select_primary(&disks, "Data"), 0);
    assert_eq!(select_primary(&disks, "Z:"), 1);
    let mut m = DiskModule::new();
    assert_eq!(m.bar_text(), "");
    assert_eq!(m.tooltip_text(), None);
    m.force_update(disks, vec![75, 75], &DiskConfig::default());
    assert_eq!(m.primary_usage_percent(), 75);
    assert_eq!(m.bar_text(), "💾 75%");
    assert_eq!(m.get_disks().len(), 2);
    assert_eq!(
        m.tooltip_text(),
        Some("Disk Usage:\nD:\\ 750 B / 1000 B (75%)\nC:\\ 1.5 KB / 2.0 KB (75%)".to_string())
    );
    m.force_update(vec![], vec![], &DiskConfig::default());
    assert_eq!(m.primary_usage_percent(), 0);
}

#[test]
fn night_light_blob() {
    assert_eq!(NightLightModule::read_night_light_state(None), None);
    assert_eq!(NightLightModule::read_night_light_state(Some(&[0u8; 0][..])), None);
    let mut blob = vec![0u8; 43];
    assert_eq!(NightLightModule::read_night_light_state(Some(&blob[..])), Some(NightLightState::Off));
    NightLightModule::set_night_light_enabled(&mut blob, true, 1_700_000_000);
    assert_eq!(NightLightModule::read_night_light_state(Some(&blob[..])), Some(NightLightState::On));
    let ft: u64 = (1_700_000_000u64 + 11644473600) * 10000000;
    assert_eq!(&blob[10..18], &ft.to_le_bytes()[..]);
    NightLightModule::set_night_light_enabled(&mut blob, false, 1_700_000_001);
    assert_eq!(NightLightModule::read_night_light_state(Some(&blob[..])), Some(NightLightState::Off));
    let mut short = vec![7u8; 30];
    NightLightModule::set_night_light_enabled(&mut short, true, 5);
    assert_eq!(short, vec![7u8; 30]);
    let mut m = NightLightModule::new();
    assert_eq!(m.state(), NightLightState::Unknown);
    let mut on = vec![0u8; 43];
    on[18] = 0x15;
    m.refresh(Some(&on[..]));
    assert_eq!(m.state(), NightLightState::On);
    assert_eq!(m.tooltip_text(), "Night Light: ON\nClick to toggle\nRight-click for settings");
}

#[test]
fn night_light_toggle_steps() {
    let mut t = NightLightToggle::new();
    assert_eq!(t.step(ToggleEvent::Started(Some(NightLightState::On))), ToggleAction::WriteRegistry(false));
    assert_eq!(t.step(ToggleEvent::Written(true)), ToggleAction::ReadBack(400));
    assert_eq!(t.step(ToggleEvent::ReadBack(Some(NightLightState::Off))), ToggleAction::Done(true));
    let mut u = NightLightToggle::new();
    assert_eq!(u.step(ToggleEvent::Started(None)), ToggleAction::WriteRegistry(true));
    assert_eq!(u.step(ToggleEvent::Written(false)), ToggleAction::RunScript);
    assert_eq!(u.step(ToggleEvent::ScriptRan(true)), ToggleAction::ReadBack(700));
    assert_eq!(u.step(ToggleEvent::ReadBack(Some(NightLightState::Off))), ToggleAction::OpenSettings);
    assert_eq!(u.step(ToggleEvent::Written(true)), ToggleAction::Done(false));
}

#[test]
fn registry_orders() {
    let mut r: ModuleRegistry<VolumeModule> = ModuleRegistry::empty();
    r.register(VolumeModule::new());
    assert!(r.get("volume").is_some());
    assert!(r.get("battery").is_none());
    let right = r.right_modules();
    assert_eq!(right.len(), 1);
    r.set_right_order(vec!["clock".to_string()]);
    assert_eq!(r.right_modules().len(), 0);
    r.set_left_order(vec!["volume".to_string(), "volume".to_string()]);
    assert_eq!(r.left_modules().len(), 2);
    r.set_center_order(vec!["x".to_string(), "volume".to_string()]);
    assert_eq!(r.center_modules().len(), 1);
    r.update_all(&ModulesConfig::default());
    let muted = r.get("volume").unwrap().is_muted();
    r.get_mut("volume").unwrap().toggle_mute();
    assert_eq!(r.get("volume").unwrap().is_muted(), !muted);
    assert!(r.get_mut("battery").is_none());
    let mut u: ModuleRegistry<UptimeModule> = ModuleRegistry::empty();
    u.register(UptimeModule::new());
    u.register(UptimeModule::new());
    assert_eq!(u.right_modules().len(), 1);
}

#[test]
fn module_insert_positions() {
    let existing: Vec<String> = vec!["media".to_string(), "network".to_string(), "clock".to_string()];
    assert_eq!(find_module_insert_position(&existing, "weather"), 0);
    assert_eq!(find_module_insert_position(&existing, "disk"), 1);
    assert_eq!(find_module_insert_position(&existing, "volume"), 2);
    assert_eq!(find_module_insert_position(&existing, "unknown"), 3);
    let custom: Vec<String> = vec!["custom".to_string(), "clock".to_string()];
    assert_eq!(find_module_insert_position(&custom, "battery"), 1);
}

#[test]
fn toggling_modules() {
    let mut m = ModulesConfig::default();
    let before = m.right_modules.clone();
    let had_disk = before.iter().any(|x| x == "disk");
    toggle_module(&mut m, "disk");
    assert_eq!(m.right_modules.iter().any(|x| x == "disk"), !had_disk);
    toggle_module(&mut m, "disk");
    assert_eq!(m.right_modules, before);
    m.right_modules = vec!["media".to_string(), "clock".to_string()];
    toggle_module(&mut m, "night_light");
    assert_eq!(m.right_modules, vec!["media".to_string(), "night_light".to_string(), "clock".to_string()]);
    m.center_modules = vec!["clock".to_string(), "x".to_string(), "clock".to_string()];
    m.clock.center = true;
    toggle_module(&mut m, "clock");
    assert_eq!(m.center_modules, vec!["x".to_string()]);
    assert!(!m.clock.center);
    assert_eq!(m.right_modules, vec!["media".to_string(), "night_light".to_string(), "clock".to_string()]);
}

#[test]
fn dropdown_layout() {
    let items = vec![
        DropdownItem::new(1, "Open").with_shortcut("Ctrl+O"),
        DropdownItem::separator(),
        DropdownItem::new(2, "Gone").disabled(),
        DropdownItem::new(3, "Check").checked(true).with_icon("✓"),
    ];
    assert_eq!(calculate_height(&items, 36, 6), 6 * 2 + 36 + 13 + 36 + 36);
    assert_eq!(hit_test(&items, 36, 6, 0), None);
    assert_eq!(hit_test(&items, 36, 6, 6), Some(0));
    assert_eq!(hit_test(&items, 36, 6, 41), Some(0));
    assert_eq!(hit_test(&items, 36, 6, 42), None);
    assert_eq!(hit_test(&items, 36, 6, 60), None);
    assert_eq!(hit_test(&items, 36, 6, 6 + 36 + 13 + 36), Some(3));
    assert_eq!(hit_test(&items, 36, 6, 1000), None);
    assert!(items[3].is_checked);
    let sub = DropdownItem::new(9, "More").with_submenu(vec![DropdownItem::new(10, "A")]);
    assert_eq!(sub.submenu.map(|s| s.len()), Some(1));
}

#[test]
fn previews() {
    assert_eq!(classify_extension(Some("PNG")), ("png".to_string(), PreviewKind::Image));
    assert_eq!(classify_extension(Some("Rs")), ("rs".to_string(), PreviewKind::Text));
    assert_eq!(classify_extension(Some("exe")), ("exe".to_string(), PreviewKind::Unsupported));
    assert_eq!(classify_extension(None), (String::new(), PreviewKind::Unsupported));
    assert_eq!(text_preview(Some("hello".to_string()), 5), "hello");
    assert_eq!(text_preview(None, 5), "[Unable to read file content]");
    let big: String = "é".repeat(60000);
    let p = text_preview(Some(big), 2_000_000);
    assert!(p.ends_with("\n\n[File truncated - too large to preview]"));
    assert_eq!(p.chars().count(), 50000 + "\n\n[File truncated - too large to preview]".chars().count());
    assert_eq!(window_size(PreviewKind::Image), (800, 600));
    assert_eq!(window_size(PreviewKind::Unsupported), (400, 200));
}

#[test]
fn effects_and_tray() {
    assert_eq!(BackdropType::Acrylic.value(), 3);
    assert_eq!(BackdropType::NoBackdrop.value(), 1);
    assert_eq!(CornerPreference::DoNotRound.value(), 1);
    assert_eq!(AccentState::EnableAcrylicBlurBehind.value(), 4);
    let p = EffectsManager::topbar_effects(true);
    assert!(p.dark_mode);
    assert_eq!(p.corners, CornerPreference::DoNotRound);
    assert_eq!(EffectsManager::menu_effects(false).corners, CornerPreference::Round);
    assert_eq!(EffectsManager::dark_mode_value(true), 1);
    let menu = TrayMenu::new();
    assert_eq!(menu.items().len(), 6);
    assert_eq!(menu.items()[5].label, "Exit");
    assert_eq!(menu.handle_command(100), TrayCommand::Exit);
    assert_eq!(menu.handle_command(1), TrayCommand::ShowTopBar);
    assert_eq!(menu.handle_command(42), TrayCommand::Ignore);
    assert_eq!(classify_click(0x0202), TrayClick::Left);
    assert_eq!(classify_click(0x1_0205), TrayClick::Right);
    assert_eq!(classify_click(0x0203), TrayClick::Double);
    assert_eq!(classify_click(0x0200), TrayClick::Other);
}

#[test]
fn u32_text() {
    assert_eq!(parse_u32("0"), Some(0));
    assert_eq!(parse_u32("+17"), Some(17));
    assert_eq!(parse_u32("4294967295"), Some(u32::MAX));
    assert_eq!(parse_u32("4294967296"), None);
    assert_eq!(parse_u32("99999999999999999999"), None);
    assert_eq!(parse_u32(""), None);
    assert_eq!(parse_u32("+"), None);
    assert_eq!(parse_u32("-1"), None);
    assert_eq!(parse_u32(" 1"), None);
    assert_eq!(parse_u32("12a"), None);
    for s in ["", "0", "007", "+5", "-0", "1_000", "65536", "4294967295", "4294967296", "++1", "٣"] {
        assert_eq!(parse_u32(s), s.parse::<u32>().ok(), "{:?}", s);
    }
}

#[test]
fn json_lookups() {
    let doc = Json::Object(vec![
        ("a".to_string(), Json::Array(vec![Json::Str("x".to_string()), Json::Null])),
        ("b".to_string(), Json::Number("3".to_string())),
    ]);
    assert!(matches!(doc.get("a").and_then(|a| a.first()).and_then(|v| v.as_str()), Some("x")));
    assert!(doc.get("c").is_none());
    assert!(doc.get("b").and_then(|b| b.as_str()).is_none());
    assert_eq!(doc.get("a").and_then(|a| a.elements()).map(|v| v.len()), Some(2));
}

#[test]
fn tray_tooltip_field() {
    let f = topbar::tray::tooltip_field("TopBar - Click to toggle");
    assert_eq!(f.len(), 128);
    let expected: Vec<u16> = "TopBar - Click to toggle".encode_utf16().collect();
    assert_eq!(&f[..expected.len()], &expected[..]);
    assert!(f[expected.len()..].iter().all(|u| *u == 0));
    let long = "x".repeat(200);
    let g = topbar::tray::tooltip_field(&long);
    assert_eq!(g.len(), 128);
    assert!(g.iter().all(|u| *u == 'x' as u16));
}

#[test]
fn dropdown_stays_on_screen() {
    assert_eq!(show_position(100, 28, 200, 1920, 1080), (100, 28));
    assert_eq!(show_position(1800, 28, 200, 1920, 1080), (1920 - 280 - 8, 28));
    assert_eq!(show_position(100, 1000, 200, 1920, 1080), (100, 800));
    assert_eq!(show_position(1632, 872, 200, 1920, 1080), (1632, 872));
}

#[test]
fn right_click_targets() {
    assert!(matches!(right_click_plan("volume"), LaunchPlan::Open(t) if t == "ms-settings:sound"));
    assert!(matches!(right_click_plan("night_light"), LaunchPlan::Open(t) if t == "ms-settings:nightlight"));
    match right_click_plan("bluetooth") {
        LaunchPlan::Spawn { program, args, hidden } => {
            assert_eq!(program, "cmd");
            assert_eq!(args, vec!["/c".to_string(), "start".to_string(), "ms-settings:connecteddevices".to_string()]);
            assert!(!hidden);
        }
        _ => panic!("expected a spawn"),
    }
    assert!(matches!(right_click_plan("disk"), LaunchPlan::Spawn { program, args, .. } if program == "diskmgmt.msc" && args.is_empty()));
    assert!(matches!(right_click_plan("clock"), LaunchPlan::Nothing));
}

#[test]
fn preview_hook_decisions() {
    let f = |s: &str| Some(s.to_string());
    assert!(matches!(hook_action(true, 0x20, true, f("a.txt"), false, None), HookAction::Show(p) if p == "a.txt"));
    assert!(matches!(hook_action(true, 0x20, true, f("a.txt"), true, f("a.txt")), HookAction::Close));
    assert!(matches!(hook_action(true, 0x20, true, f("b.txt"), true, f("a.txt")), HookAction::Replace(p) if p == "b.txt"));
    assert!(matches!(hook_action(true, 0x20, true, f("b.txt"), true, None), HookAction::Replace(p) if p == "b.txt"));
    assert!(matches!(hook_action(true, 0x20, false, f("a.txt"), true, f("a.txt")), HookAction::PassOn));
    assert!(matches!(hook_action(true, 0x20, true, None, true, None), HookAction::PassOn));
    assert!(matches!(hook_action(true, 0x1B, false, None, true, None), HookAction::Close));
    assert!(matches!(hook_action(true, 0x1B, false, None, false, None), HookAction::PassOn));
    assert!(matches!(hook_action(false, 0x20, true, f("a.txt"), false, None), HookAction::PassOn));
}

#[test]
fn explorer_window_classes() {
    assert!(is_explorer_class("CabinetWClass"));
    assert!(is_explorer_class("Progman"));
    assert!(is_explorer_class("xSHELLDLL_DefViewx"));
    assert!(!is_explorer_class("Notepad"));
    assert!(!is_explorer_class(""));
}
