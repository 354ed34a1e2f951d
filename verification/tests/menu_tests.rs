use topbar::config::ModulesConfig;
use topbar::menus::{
    app_menu, battery_menu, bluetooth_menu, clipboard_menu, clock_menu, gpu_menu, keyboard_menu, network_menu,
    sysinfo_menu, context_menu, disk_menu, handle_menu_command, handle_module_click,
    paste_events, selected_disk, show_module_menu, toggle_flag, uptime_menu, volume_menu, weather_choice_opens_page,
    weather_menu, ClickAction, Flag, MenuCommand, MenuLine, ModuleMenu,
};
use topbar::modules::disk::disk_info;
use topbar::settings::toggle_center_clock;

fn items(lines: &[MenuLine]) -> Vec<(u32, String, bool)> {
    lines
        .iter()
        .map(|l| match l {
            MenuLine::Item { id, label, checked } => (*id, label.clone(), *checked),
            MenuLine::Separator => (0, "-".to_string(), false),
        })
        .collect()
}

#[test]
fn context_menu_marks_shown_modules() {
    let m = ModulesConfig::default();
    let lines = items(&context_menu(&m, true));
    assert_eq!(lines.len(), 21);
    assert_eq!(lines[0], (1001, "Clock".to_string(), true));
    assert_eq!(lines[6], (1012, "Clipboard".to_string(), false));
    assert_eq!(lines[11], (1014, "Night Light".to_string(), false));
    assert_eq!(lines[13], (1013, "Weather".to_string(), true));
    assert_eq!(lines[14].1, "-");
    assert_eq!(lines[15], (1210, "Enable Quick Search".to_string(), true));
    assert_eq!(lines[20], (1999, "Exit TopBar".to_string(), false));
}

#[test]
fn menu_commands() {
    assert!(matches!(handle_menu_command(1008), MenuCommand::ToggleModule(id) if id == "keyboard_layout"));
    assert!(matches!(handle_menu_command(2002), MenuCommand::ToggleFlag(Flag::ClockSeconds)));
    assert!(matches!(handle_menu_command(2902), MenuCommand::ToggleFlag(Flag::BluetoothDeviceCount)));
    assert!(matches!(handle_menu_command(2202), MenuCommand::ToggleMute));
    assert!(matches!(handle_menu_command(2005), MenuCommand::ToggleCenterClock));
    assert!(matches!(handle_menu_command(1210), MenuCommand::ToggleQuickSearch));
    assert!(matches!(handle_menu_command(3102), MenuCommand::SelectDisk(2)));
    assert!(matches!(handle_menu_command(4009), MenuCommand::PasteClipboard(9)));
    assert!(matches!(handle_menu_command(2503), MenuCommand::ReloadConfig));
    assert!(matches!(handle_menu_command(1999), MenuCommand::Exit));
    assert!(matches!(handle_menu_command(2504), MenuCommand::Exit));
    assert!(matches!(handle_menu_command(2501), MenuCommand::About));
    assert!(matches!(handle_menu_command(2506), MenuCommand::Nothing));
    assert!(matches!(handle_menu_command(3200), MenuCommand::Nothing));
    assert!(weather_choice_opens_page(6002));
    assert!(!weather_choice_opens_page(6011));
}

#[test]
fn module_clicks() {
    assert_eq!(handle_module_click("keyboard_layout"), ClickAction::ModuleClick);
    assert_eq!(show_module_menu("keyboard_layout"), ClickAction::Menu(ModuleMenu::KeyboardLayout));
    assert_eq!(handle_module_click("night_light"), ClickAction::ModuleClick);
    assert_eq!(handle_module_click("search"), ClickAction::QuickSearch);
    assert_eq!(handle_module_click("disk"), ClickAction::Menu(ModuleMenu::Disk));
    assert_eq!(handle_module_click("media"), ClickAction::Nothing);
}

#[test]
fn module_menus() {
    let mut m = ModulesConfig::default();
    toggle_flag(&mut m, Flag::Clock24h);
    let clock = items(&clock_menu(&m));
    assert_eq!(clock[0], (2001, "24-Hour Format".to_string(), true));
    assert_eq!(clock[4], (2005, "Center Clock".to_string(), false));
    toggle_flag(&mut m, Flag::Clock24h);
    assert!(!m.clock.format_24h);
    let vol = items(&volume_menu(&m, true));
    assert_eq!(vol, vec![(2201, "Show Percentage".to_string(), false), (0, "-".to_string(), false), (2202, "Mute".to_string(), true)]);
    assert!(uptime_menu().is_empty());
    assert_eq!(items(&app_menu()).len(), 8);
    let disks = vec![
        disk_info("System".to_string(), "C:".to_string(), 100, 40),
        disk_info("Data".to_string(), "".to_string(), 100, 10),
    ];
    let dm = items(&disk_menu(&disks, &m));
    assert_eq!(dm, vec![(3100, "C:".to_string(), true), (3101, "Data".to_string(), false)]);
    assert_eq!(selected_disk(&disks, 0), Some("C:".to_string()));
    assert_eq!(selected_disk(&disks, 2), None);
    assert_eq!(items(&clipboard_menu(&vec![])), vec![(4000, "No clipboard history".to_string(), false)]);
    let history: Vec<String> = (0..12).map(|i| format!("entry {}", i)).collect();
    let cm = items(&clipboard_menu(&history));
    assert_eq!(cm.len(), 10);
    assert_eq!(cm[9], (4009, "entry 9".to_string(), false));
    let long = vec!["x".repeat(50)];
    assert_eq!(items(&clipboard_menu(&long))[0].1.chars().count(), 40);
    assert_eq!(items(&weather_menu(&vec![])), vec![(6002, "Fetching weather...".to_string(), false)]);
    let lines: Vec<String> = (0..8).map(|i| format!("day {}", i)).collect();
    let wm = items(&weather_menu(&lines));
    assert_eq!(wm.len(), 6);
    assert_eq!(wm[5], (6006, "day 5".to_string(), false));
}

#[test]
fn center_clock_moves_the_clock() {
    let mut m = ModulesConfig::default();
    toggle_center_clock(&mut m);
    assert!(m.clock.center);
    assert_eq!(m.center_modules, vec!["clock".to_string()]);
    assert!(!m.right_modules.iter().any(|x| x == "clock"));
    toggle_center_clock(&mut m);
    assert!(!m.clock.center);
    assert!(m.center_modules.is_empty());
    assert_eq!(m.right_modules, ModulesConfig::default().right_modules);
}

#[test]
fn paste_keys() {
    let ev: Vec<(u16, bool)> = paste_events().iter().map(|e| (e.virtual_key, e.key_up)).collect();
    assert_eq!(ev, vec![(0x11, false), (0x56, false), (0x56, true), (0x11, true)]);
}

#[test]
fn setting_menus() {
    let mut m = ModulesConfig::default();
    assert_eq!(
        items(&battery_menu(&m)),
        vec![(2401, "Show Percentage".to_string(), true), (2402, "Show Time Remaining".to_string(), false)]
    );
    toggle_flag(&mut m, Flag::NetworkSpeed);
    assert_eq!(
        items(&network_menu(&m)),
        vec![(2301, "Show Network Name".to_string(), false), (2302, "Show Speed (MB/s)".to_string(), true)]
    );
    assert_eq!(items(&sysinfo_menu(true)), vec![(2103, "Show Graph".to_string(), true)]);
    assert_eq!(items(&gpu_menu(&m)), vec![(2604, "Show Graph".to_string(), false)]);
    assert_eq!(items(&keyboard_menu(&m)), vec![(2701, "Show Full Language Name".to_string(), false)]);
    assert_eq!(items(&bluetooth_menu(&m)), vec![(2902, "Show Device Count".to_string(), true)]);
}
