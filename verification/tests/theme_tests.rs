use topbar::theme::{Color, Theme, ThemeManager, ThemeMode};

fn reference_from_hex(hex: &str) -> Option<(u8, u8, u8, u8)> {
    let hex = hex.trim_start_matches('#');
    match hex.len() {
        6 => {
            let r = u8::from_str_radix(&hex[0..2], 16).ok()?;
            let g = u8::from_str_radix(&hex[2..4], 16).ok()?;
            let b = u8::from_str_radix(&hex[4..6], 16).ok()?;
            Some((r, g, b, 255))
        }
        8 => {
            let r = u8::from_str_radix(&hex[0..2], 16).ok()?;
            let g = u8::from_str_radix(&hex[2..4], 16).ok()?;
            let b = u8::from_str_radix(&hex[4..6], 16).ok()?;
            let a = u8::from_str_radix(&hex[6..8], 16).ok()?;
            Some((r, g, b, a))
        }
        _ => None,
    }
}

fn parts(c: Option<Color>) -> Option<(u8, u8, u8, u8)> {
    c.map(|c| (c.r, c.g, c.b, c.a))
}

#[test]
fn from_hex_examples() {
    assert_eq!(parts(Color::from_hex("#FF8000")), Some((255, 128, 0, 255)));
    assert_eq!(parts(Color::from_hex("ff8000")), Some((255, 128, 0, 255)));
    assert_eq!(parts(Color::from_hex("##00ff0080")), Some((0, 255, 0, 128)));
    assert_eq!(parts(Color::from_hex("#12345")), None);
    assert_eq!(parts(Color::from_hex("#GG0000")), None);
    assert_eq!(parts(Color::from_hex("")), None);
    assert_eq!(parts(Color::from_hex("#+F0000")), Some((15, 0, 0, 255)));
}

#[test]
fn from_hex_agrees_with_radix_parsing() {
    let alphabet = ['0', '9', 'a', 'F', 'g', '+', '-', '#', ' '];
    let mut inputs: Vec<String> = Vec::new();
    for &a in alphabet.iter() {
        for &b in alphabet.iter() {
            inputs.push(format!("#{}{}0000", a, b));
            inputs.push(format!("00{}{}00", a, b));
            inputs.push(format!("0000{}{}", a, b));
            inputs.push(format!("000000{}{}", a, b));
            inputs.push(format!("{}{}", a, b));
        }
    }
    for s in inputs {
        assert_eq!(parts(Color::from_hex(&s)), reference_from_hex(&s), "input {:?}", s);
    }
}

#[test]
fn hex_round_trip() {
    let c = Color::new(1, 171, 205, 255);
    assert_eq!(c.hex(), "#01ABCD");
    assert_eq!(parts(Color::from_hex(&c.hex())), Some((1, 171, 205, 255)));
    let d = Color::new(16, 32, 48, 64);
    assert_eq!(d.hex(), "#10203040");
    assert_eq!(parts(Color::from_hex(&d.hex())), Some((16, 32, 48, 64)));
}

#[test]
fn argb_packs_channels() {
    assert_eq!(Color::new(0x11, 0x22, 0x33, 0x44).argb(), 0x44112233);
    assert_eq!(Color::rgb(255, 0, 0).argb(), 0xFFFF0000);
    let c = Color::rgb(1, 2, 3).with_alpha(9);
    assert_eq!((c.r, c.g, c.b, c.a), (1, 2, 3, 9));
}

#[test]
fn is_dark_agrees_with_luminance_formula() {
    let mut k: u32 = 0;
    for r in (0..=255u32).step_by(3) {
        for g in (0..=255u32).step_by(5) {
            for b in (0..=255u32).step_by(7) {
                let c = Color::rgb(r as u8, g as u8, b as u8);
                let luminance = 0.299 * r as f32 + 0.587 * g as f32 + 0.114 * b as f32;
                assert_eq!(c.is_dark(), luminance < 128.0, "{} {} {}", r, g, b);
                k += 1;
            }
        }
    }
    assert!(k > 0);
    assert!(Color::rgb(0, 0, 0).is_dark());
    assert!(!Color::rgb(255, 255, 255).is_dark());
}

#[test]
fn theme_palettes() {
    let light = Theme::light();
    let dark = Theme::dark();
    assert!(!light.is_dark);
    assert!(dark.is_dark);
    assert_eq!(light.battery_full.argb(), Color::rgb(52, 199, 89).argb());
    assert_eq!(dark.battery_full.argb(), Color::rgb(48, 209, 88).argb());
}

#[test]
fn battery_color_thresholds() {
    let t = Theme::light();
    assert_eq!(t.battery_color(5, true).argb(), t.battery_charging.argb());
    assert_eq!(t.battery_color(10, false).argb(), t.battery_critical.argb());
    assert_eq!(t.battery_color(11, false).argb(), t.battery_low.argb());
    assert_eq!(t.battery_color(20, false).argb(), t.battery_low.argb());
    assert_eq!(t.battery_color(50, false).argb(), t.battery_medium.argb());
    assert_eq!(t.battery_color(51, false).argb(), t.battery_full.argb());
}

#[test]
fn theme_manager_modes() {
    let mut m = ThemeManager::new(ThemeMode::Auto, true);
    assert!(m.is_dark());
    assert!(m.theme().is_dark);
    assert!(m.check_system_theme(false));
    assert!(!m.is_dark());
    assert!(!m.check_system_theme(false));
    m.set_mode(ThemeMode::Dark);
    assert!(m.is_dark());
    assert!(!m.check_system_theme(true));
    m.toggle();
    assert_eq!(m.mode(), ThemeMode::Light);
    assert!(!m.is_dark());
    m.toggle();
    assert_eq!(m.mode(), ThemeMode::Dark);
    let mut a = ThemeManager::new(ThemeMode::Auto, false);
    a.toggle();
    assert_eq!(a.mode(), ThemeMode::Dark);
    assert!(a.is_dark());
}

#[test]
fn theme_mode_default_is_auto() {
    assert_eq!(ThemeMode::default(), ThemeMode::Auto);
}

#[test]
fn colorref_is_bgr() {
    assert_eq!(Color::rgb(0x12, 0x34, 0x56).colorref(), 0x563412);
    assert_eq!(Color::new(1, 2, 3, 4).argb(), 0x04010203);
}
