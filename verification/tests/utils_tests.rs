use topbar::utils::{bar_rect, battery_update_multiplier, format_bytes, format_duration, truncate_string, Point, Rect, Size};
use topbar::config::BarPosition;

#[test]
fn format_bytes_small_values_are_plain_bytes() {
    assert_eq!(format_bytes(0), "0 B");
    assert_eq!(format_bytes(1), "1 B");
    assert_eq!(format_bytes(1023), "1023 B");
}

#[test]
fn format_bytes_units() {
    assert_eq!(format_bytes(1024), "1.0 KB");
    assert_eq!(format_bytes(1536), "1.5 KB");
    assert_eq!(format_bytes(1048576), "1.0 MB");
    assert_eq!(format_bytes(1073741824), "1.0 GB");
    assert_eq!(format_bytes(1099511627776), "1.0 TB");
    assert_eq!(format_bytes(5 * 1073741824 + 536870912), "5.5 GB");
}

fn float_reference(bytes: u64) -> String {
    const KB: u64 = 1024;
    const MB: u64 = KB * 1024;
    const GB: u64 = MB * 1024;
    const TB: u64 = GB * 1024;
    if bytes >= TB {
        format!("{:.1} TB", bytes as f64 / TB as f64)
    } else if bytes >= GB {
        format!("{:.1} GB", bytes as f64 / GB as f64)
    } else if bytes >= MB {
        format!("{:.1} MB", bytes as f64 / MB as f64)
    } else if bytes >= KB {
        format!("{:.1} KB", bytes as f64 / KB as f64)
    } else {
        format!("{} B", bytes)
    }
}

#[test]
fn format_bytes_agrees_with_float_formatting() {
    let mut samples: Vec<u64> = vec![
        0, 1, 1023, 1024, 1025, 1126, 1127, 1178, 1179, 1536, 2047, 2048, 10239, 10240, 1048575, 1048576,
        1101004, 1101005, 123456789, 987654321, 1073741823, 1073741824, 1181116006, 1181116007,
        1099511627775, 1099511627776, 1209462790553, 1209462790554, u64::MAX, u64::MAX - 1, 1 << 53,
        (1 << 53) + 1, (1 << 60) + 12345,
    ];
    // ties at the half tenth, and a sweep
    for k in 0..2000u64 {
        samples.push(1024 * k + 51);
        samples.push(1024 * k + 52);
        samples.push(k * 104857 + 52428);
        samples.push(k * 7919 * 1024 * 1024 + 3);
    }
    for b in samples {
        assert_eq!(format_bytes(b), float_reference(b), "bytes = {}", b);
    }
}

#[test]
fn format_duration_examples() {
    assert_eq!(format_duration(0), "0 min");
    assert_eq!(format_duration(59), "0 min");
    assert_eq!(format_duration(60), "1 min");
    assert_eq!(format_duration(3599), "59 min");
    assert_eq!(format_duration(3600), "1:00");
    assert_eq!(format_duration(3660 + 5 * 60), "1:06");
    assert_eq!(format_duration(100 * 3600 + 9 * 60), "100:09");
}

#[test]
fn truncate_string_examples() {
    assert_eq!(truncate_string("hello", 10), "hello");
    assert_eq!(truncate_string("hello", 5), "hello");
    assert_eq!(truncate_string("hello world", 5), "hell…");
    assert_eq!(truncate_string("héllo wörld", 4), "hél…");
    assert_eq!(truncate_string("", 0), "");
    assert_eq!(truncate_string("ab", 1), "…");
}

#[test]
fn battery_multiplier() {
    assert_eq!(battery_update_multiplier(true), 2);
    assert_eq!(battery_update_multiplier(false), 1);
}

#[test]
fn rect_geometry() {
    let r = Rect::new(10, 20, 100, 50);
    assert_eq!(r.right(), 110);
    assert_eq!(r.bottom(), 70);
    assert_eq!(r.center_x(), 60);
    assert_eq!(r.center_y(), 45);
    assert!(r.contains(10, 20));
    assert!(r.contains(109, 69));
    assert!(!r.contains(110, 20));
    assert!(!r.contains(10, 70));
    assert!(!r.contains(9, 30));
    let odd = Rect::new(0, 0, 5, 3);
    assert_eq!(odd.center_x(), 2);
    assert_eq!(odd.center_y(), 1);
    let neg = Rect::new(-5, -5, 3, 3);
    assert_eq!(neg.center_x(), -4);
}

#[test]
fn rect_intersections() {
    let a = Rect::new(0, 0, 10, 10);
    let b = Rect::new(5, 5, 10, 10);
    let c = Rect::new(10, 0, 5, 5);
    assert!(a.intersects(&b));
    assert!(b.intersects(&a));
    assert!(!a.intersects(&c));
    assert!(a.intersects(&a));
}

#[test]
fn rect_shrink_and_expand() {
    let r = Rect::new(10, 10, 100, 50);
    let s = r.shrink(5);
    assert_eq!((s.x, s.y, s.width, s.height), (15, 15, 90, 40));
    let e = r.expand(5);
    assert_eq!((e.x, e.y, e.width, e.height), (5, 5, 110, 60));
    let back = s.expand(5);
    assert_eq!((back.x, back.y, back.width, back.height), (r.x, r.y, r.width, r.height));
    let tiny = Rect::new(0, 0, 4, 4).shrink(3);
    assert_eq!((tiny.width, tiny.height), (0, 0));
}

#[test]
fn point_and_size() {
    let p = Point::new(3, -4);
    assert_eq!((p.x, p.y), (3, -4));
    let s = Size::new(1920, 1080);
    assert_eq!((s.width, s.height), (1920, 1080));
}

#[test]
fn bar_rect_at_top_and_bottom() {
    let top = bar_rect(1920, 1080, 32, BarPosition::Top);
    assert_eq!((top.x, top.y, top.width, top.height), (0, 0, 1920, 32));
    let bottom = bar_rect(1920, 1080, 32, BarPosition::Bottom);
    assert_eq!((bottom.x, bottom.y, bottom.width, bottom.height), (0, 1048, 1920, 32));
}

#[test]
fn wide_strings_are_utf16_with_a_terminator() {
    let s = "A€😀 x";
    let mut expected: Vec<u16> = s.encode_utf16().collect();
    expected.push(0);
    assert_eq!(topbar::text::to_wide_string(s), expected);
    assert_eq!(topbar::text::to_wide_string(""), vec![0]);
    assert_eq!(topbar::text::to_wide_string("😀"), vec![0xD83D, 0xDE00, 0]);
}

#[test]
fn downsampling_chunks() {
    assert!(topbar::utils::downsample_plan(5, 8).is_none());
    assert!(topbar::utils::downsample_plan(5, 0).is_none());
    let (chunks, rest) = topbar::utils::downsample_plan(10, 3).unwrap();
    assert_eq!(chunks, vec![(0, 3), (3, 6), (6, 9)]);
    assert_eq!(rest, Some((9, 10)));
    let (chunks, rest) = topbar::utils::downsample_plan(8, 4).unwrap();
    assert_eq!(chunks, vec![(0, 2), (2, 4), (4, 6), (6, 8)]);
    assert_eq!(rest, None);
}
