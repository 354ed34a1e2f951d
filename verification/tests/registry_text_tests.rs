use topbar::config::{ModulesConfig, SystemInfoConfig};
use topbar::modules::active_window::{ActiveWindowModule, ForegroundWindow};
use topbar::modules::bar::BarModule;
use topbar::modules::gpu::GpuModule;
use topbar::modules::system_info::SystemInfoModule;
use topbar::modules::weather::{parse_wttr_text, WttrError};
use topbar::modules::{Module, ModuleRegistry};
use topbar::icons::Icons;
use topbar::layout::{module_text_or_fallback, shows_search_button, system_info_sample_text};
use topbar::modules::clock::LocalTime;
use topbar::modules::volume::VolumeModule;
use topbar::search::{any_match, IndexBuilder, WalkedFile};

fn ids(ms: Vec<&BarModule>) -> Vec<String> {
    ms.iter().map(|m| m.id().to_string()).collect()
}

#[test]
fn system_info_default_interval() {
    let c = SystemInfoConfig::default();
    assert!(c.show_cpu && c.show_memory);
    assert_eq!(c.update_interval_ms, 2000);
}

#[test]
fn default_registry_modules() {
    let r = ModuleRegistry::new();
    for id in [
        "clock",
        "system_info",
        "battery",
        "network",
        "volume",
        "app_menu",
        "active_window",
        "media",
        "gpu",
        "keyboard_layout",
        "uptime",
        "bluetooth",
        "disk",
    ] {
        assert_eq!(r.get(id).map(|m| m.id()), Some(id));
    }
    assert!(r.get("weather").is_none());
    assert_eq!(ids(r.left_modules()), vec!["app_menu", "active_window"]);
    assert!(r.center_modules().is_empty());
    assert_eq!(
        ids(r.right_modules()),
        vec![
            "media",
            "keyboard_layout",
            "gpu",
            "system_info",
            "disk",
            "network",
            "bluetooth",
            "volume",
            "battery",
            "uptime",
            "clock"
        ]
    );
}

#[test]
fn default_registry_left_order() {
    let mut r = ModuleRegistry::new();
    r.set_left_order(vec!["clock".to_string(), "nope".to_string(), "app_menu".to_string()]);
    assert_eq!(ids(r.left_modules()), vec!["clock", "app_menu"]);
}

#[test]
fn register_keeps_other_lookups() {
    let mut r = ModuleRegistry::new();
    let before = r.get("clock").unwrap().display_text(&ModulesConfig::default());
    r.register(BarModule::Gpu(GpuModule::new()));
    assert_eq!(r.get("clock").unwrap().display_text(&ModulesConfig::default()), before);
    assert_eq!(r.get("gpu").unwrap().id(), "gpu");
}

#[test]
fn system_info_texts() {
    let mut m = SystemInfoModule::new();
    let mut c = ModulesConfig::default();
    assert_eq!(m.display_text(&c), "CPU 0%  MEM 0%");
    m.set_reading("12".into(), "47".into(), "12.3".into(), "46.8".into(), 2048, 1073741824);
    assert_eq!(m.display_text(&c), "CPU 12%  MEM 47%");
    assert_eq!(m.tooltip().unwrap(), "CPU Usage: 12.3%\nMemory: 2.0 KB / 1.0 GB (46.8%)");
    c.system_info.show_cpu = false;
    assert_eq!(m.display_text(&c), "MEM 47%");
    c.system_info.show_memory = false;
    assert_eq!(m.display_text(&c), "");
}

#[test]
fn gpu_texts() {
    let mut g = GpuModule::new();
    let mut c = ModulesConfig::default();
    assert_eq!(g.display_text(&c), "GPU 0%");
    assert_eq!(g.tooltip().unwrap(), "GPU Usage: 0.0%");
    g.set_reading("33".into(), "33.4".into(), 25, 1073741824, 4294967296, Some("61".into()), "Card".into());
    g.set_show_memory(true);
    g.set_show_temp(true);
    assert_eq!(g.display_text(&c), "GPU 33%  VRAM 25%  61°C");
    assert_eq!(g.tooltip().unwrap(), "GPU Usage: 33.4%\nVRAM: 1.0 GB / 4.0 GB\nTemperature: 61°C\nDevice: Card");
    c.gpu.show_usage = false;
    assert_eq!(g.display_text(&c), "VRAM 25%  61°C");
}

#[test]
fn wttr_text_errors() {
    match parse_wttr_text("not json") {
        Err(e @ WttrError::InvalidJson(_)) => assert!(e.message().starts_with("JSON parse error: ")),
        _ => panic!("expected a parse error"),
    }
    match parse_wttr_text(r#"{"error": "Unable to find"}"#) {
        Err(e) => assert_eq!(e.message(), "Unknown location: \"Unable to find\""),
        Ok(_) => panic!("expected an error"),
    }
    match parse_wttr_text("{}") {
        Err(e) => assert_eq!(e.message(), "Missing current_condition"),
        Ok(_) => panic!("expected an error"),
    }
    match parse_wttr_text(r#"{"current_condition": [{}]}"#) {
        Err(e) => assert_eq!(e.message(), "Missing nearest_area"),
        Ok(_) => panic!("expected an error"),
    }
}

#[test]
fn wttr_text_report() {
    let text = r#"{"current_condition": [{"temp_C": "12", "humidity": "81", "weatherCode": "116",
        "weatherDesc": [{"value": "Partly cloudy"}]}],
        "nearest_area": [{"areaName": [{"value": "Oslo"}], "country": [{"value": "Norway"}]}],
        "weather": [{"date": "2024-05-01", "maxtempC": "15", "mintempC": "7"}]}"#;
    let r = parse_wttr_text(text).ok().unwrap();
    assert_eq!(r.temp_c.as_deref(), Some("12"));
    assert_eq!(r.humidity, 81);
    assert_eq!(r.location, "Oslo, Norway");
    assert_eq!(r.description, "Partly cloudy");
    assert_eq!(r.high_c.as_deref(), Some("15"));
    assert_eq!(r.forecast.len(), 1);
}

#[test]
fn exclusion_outcomes() {
    assert!(!any_match(&vec![]));
    assert!(!any_match(&vec![None, Some(false)]));
    assert!(any_match(&vec![None, Some(true), Some(false)]));
    let b = IndexBuilder::new(&vec!["node_modules".to_string(), "*.git*".to_string(), "[".to_string()]);
    assert!(b.is_excluded("node_modules"));
    assert!(b.is_excluded("C:\\p\\.git\\HEAD.txt"));
    assert!(!b.is_excluded("C:\\p\\readme.txt"));
    assert!(!IndexBuilder::new(&vec![]).is_excluded("node_modules"));
}

#[test]
fn readme_exclusions_skip_components() {
    let b = IndexBuilder::new(&vec!["node_modules".to_string(), ".git".to_string()]);
    assert!(b.is_excluded("C:\\p\\node_modules\\a.exe"));
    assert!(b.is_excluded("C:/p/.git/HEAD.txt"));
    assert!(b.is_excluded(".git"));
    assert!(!b.is_excluded("C:\\p\\node_modules2\\a.exe"));
    assert!(!b.is_excluded("C:\\p\\my.git\\a.exe"));
    let mut w = IndexBuilder::new(&vec!["node_modules".to_string(), ".git".to_string()]);
    for p in ["C:\\r\\node_modules\\x\\a.exe", "C:\\r\\.git\\b.txt", "C:\\r\\c.exe"] {
        let name = p.rsplit('\\').next().unwrap().to_string();
        let ext = name.rsplit_once('.').map(|(_, e)| e.to_string());
        w.offer(WalkedFile { path: p.to_string(), file_name: name, extension: ext, is_file: true });
    }
    let idx = w.finish();
    assert_eq!(idx.count(), 1);
    assert_eq!(idx.entry_path(0), "C:\\r\\c.exe");
}

#[test]
fn star_patterns_skip_by_ending() {
    let b = IndexBuilder::new(&vec!["*.tmp".to_string()]);
    assert!(!b.is_excluded("C:\\a.exe"));
    assert!(b.is_excluded("C:\\a.tmp"));
    assert!(b.is_excluded("C:\\cache.tmp\\a.exe"));
    let mut w = IndexBuilder::new(&vec!["*.tmp".to_string()]);
    w.offer(WalkedFile { path: "a.exe".to_string(), file_name: "a.exe".to_string(), extension: Some("exe".to_string()), is_file: true });
    assert_eq!(w.finish().count(), 1);
}

#[test]
fn walk_keeps_unexcluded_files() {
    let mut b = IndexBuilder::new(&vec!["*.git*".to_string()]);
    let files = ["C:\\a\\x.exe", "C:\\a\\.git\\y.txt", "C:\\a\\z.png", "C:\\a\\w.pdf"];
    for p in files {
        let name = p.rsplit('\\').next().unwrap().to_string();
        let ext = name.rsplit_once('.').map(|(_, e)| e.to_string());
        b.offer(WalkedFile { path: p.to_string(), file_name: name, extension: ext, is_file: true });
    }
    let idx = b.finish();
    assert_eq!(idx.count(), 2);
    assert_eq!(idx.entry_path(0), "C:\\a\\x.exe");
    assert_eq!(idx.entry_path(1), "C:\\a\\w.pdf");
}

#[test]
fn active_window_never_shows_bar() {
    let w = |t: &str, p: &str, pid: u32| {
        Some(ForegroundWindow { title: t.to_string(), process: p.to_string(), pid, path: String::new() })
    };
    let mut m = ActiveWindowModule::new();
    m.observe(w("Settings", "TopBar.exe", 5), 99, false, 0);
    assert_eq!(m.window_title(), "");
    m.observe(w("Doc - Notepad", "notepad.exe", 10), 99, false, 10);
    m.observe(w("anything", "other.exe", 99), 99, false, 20);
    assert_eq!(m.window_title(), "Doc - Notepad");
    assert_eq!(m.process_name(), "notepad.exe");
}

#[test]
fn volume_change_needs_endpoint() {
    let mut v = VolumeModule::new();
    v.change_volume_applied(30, false);
    assert_eq!(v.volume_level(), 50);
    v.change_volume_applied(30, true);
    assert_eq!(v.volume_level(), 80);
    v.change_volume_applied(40, true);
    assert_eq!(v.volume_level(), 100);
    let muted = v.is_muted();
    v.toggle_mute_applied(false);
    assert_eq!(v.is_muted(), muted);
    v.toggle_mute_applied(true);
    assert_eq!(v.is_muted(), !muted);
}

#[test]
fn drawn_texts_and_stand_ins() {
    let icons = Icons::new();
    let now = LocalTime { year: 2024, month: 5, day: 1, hour: 15, minute: 7, second: 0 };
    assert_eq!(module_text_or_fallback("clock", None, &icons, &now), "03:07 PM");
    assert_eq!(module_text_or_fallback("clock", Some("x".into()), &icons, &now), "x");
    assert_eq!(module_text_or_fallback("battery", None, &icons, &now), format!("{} --", icons.get("battery")));
    assert_eq!(module_text_or_fallback("network", Some("  ".into()), &icons, &now), icons.get("wifi"));
    assert_eq!(module_text_or_fallback("network", Some("eth".into()), &icons, &now), "eth");
    assert_eq!(module_text_or_fallback("bluetooth", None, &icons, &now), icons.get("bluetooth"));
    assert_eq!(module_text_or_fallback("system_info", None, &icons, &now), "CPU --  RAM --");
    assert_eq!(module_text_or_fallback("uptime", None, &icons, &now), "0d 0h");
    assert_eq!(module_text_or_fallback("keyboard_layout", None, &icons, &now), "EN");
    assert_eq!(module_text_or_fallback("night_light", None, &icons, &now), "NL");
    assert_eq!(module_text_or_fallback("weather", None, &icons, &now), "🌡️ ...");
    assert_eq!(module_text_or_fallback("active_app", None, &icons, &now), "TopBar");
    assert_eq!(module_text_or_fallback("media", None, &icons, &now), "");
    assert_eq!(module_text_or_fallback("other", None, &icons, &now), "");
    assert!(shows_search_button(true, &None));
    assert!(!shows_search_button(true, &Some("search".to_string())));
    assert!(shows_search_button(true, &Some("clock".to_string())));
    assert!(!shows_search_button(false, &None));
    assert_eq!(system_info_sample_text(true, true), "CPU 100%  RAM 100%");
    assert_eq!(system_info_sample_text(false, true), "RAM 100%");
    assert_eq!(system_info_sample_text(false, false), "CPU --  RAM --");
}
