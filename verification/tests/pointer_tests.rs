use topbar::config::ModulesConfig;
use topbar::pointer::{hit_test, move_module, ModuleBounds, PointerState, Release, Side};
use topbar::utils::Rect;

fn bounds(ids: &[(&str, i32)]) -> Vec<ModuleBounds> {
    ids.iter().map(|(id, x)| ModuleBounds { id: id.to_string(), rect: Rect::new(*x, 0, 40, 28) }).collect()
}

fn strings(v: &[&str]) -> Vec<String> {
    v.iter().map(|s| s.to_string()).collect()
}

fn modules() -> ModulesConfig {
    let mut m = ModulesConfig::default();
    m.left_modules = strings(&["app_menu", "active_window"]);
    m.right_modules = strings(&["weather", "media", "clock"]);
    m
}

#[test]
fn hit_testing() {
    let b = bounds(&[("weather", 0), ("media", 40)]);
    assert_eq!(hit_test(&b, 5, 5), Some("weather".to_string()));
    assert_eq!(hit_test(&b, 40, 27), Some("media".to_string()));
    assert_eq!(hit_test(&b, 80, 5), None);
    assert_eq!(hit_test(&b, 5, 28), None);
}

#[test]
fn press_without_drag_is_a_click() {
    let m = modules();
    let b = bounds(&[("weather", 0), ("media", 40), ("clock", 80)]);
    let mut p = PointerState::new();
    assert!(!p.on_left_down(5, 5, None, &m));
    assert!(matches!(p.on_left_up(&m, &b), Release::Nothing));
    assert!(p.on_left_down(100, 5, Some("clock".to_string()), &m));
    assert!(p.on_mouse_move(104, Some("clock".to_string())));
    assert_eq!(p.dragging_module(), None);
    assert!(matches!(p.on_left_up(&m, &b), Release::Click(id) if id == "clock"));
    assert!(matches!(p.on_left_up(&m, &b), Release::Nothing));
}

#[test]
fn dragging_reorders_the_side() {
    let m = modules();
    let b = bounds(&[("weather", 0), ("media", 40), ("clock", 80)]);
    let mut p = PointerState::new();
    p.on_left_down(100, 5, Some("clock".to_string()), &m);
    p.on_mouse_move(93, None);
    assert_eq!(p.dragging_module(), Some("clock".to_string()));
    assert_eq!(p.hover_module(), None);
    p.on_mouse_move(10, Some("weather".to_string()));
    assert_eq!(p.drag_positions(), (100, 10));
    assert_eq!(p.hover_module(), None);
    match p.on_left_up(&m, &b) {
        Release::Reorder(side, list) => {
            assert_eq!(side, Side::Right);
            assert_eq!(list, strings(&["clock", "weather", "media"]));
        }
        other => panic!("unexpected {:?}", other),
    }
    assert_eq!(p.dragging_module(), None);

    p.on_left_down(5, 5, Some("weather".to_string()), &m);
    p.on_mouse_move(70, None);
    match p.on_left_up(&m, &b) {
        Release::Reorder(side, list) => {
            assert_eq!(side, Side::Right);
            assert_eq!(list, strings(&["media", "weather", "clock"]));
        }
        other => panic!("unexpected {:?}", other),
    }
}

#[test]
fn hovering() {
    let mut p = PointerState::new();
    p.redrawn();
    assert!(!p.needs_redraw());
    assert!(p.on_mouse_move(3, Some("media".to_string())));
    assert_eq!(p.hover_module(), Some("media".to_string()));
    assert!(p.needs_redraw());
    assert!(!p.on_mouse_move(4, Some("media".to_string())));
    p.on_mouse_leave();
    assert_eq!(p.hover_module(), None);
}

#[test]
fn moving_a_module() {
    let l = strings(&["a", "b", "c", "d"]);
    assert_eq!(move_module(&l, "a", 3), strings(&["b", "c", "a", "d"]));
    assert_eq!(move_module(&l, "d", 0), strings(&["d", "a", "b", "c"]));
    assert_eq!(move_module(&l, "b", 4), strings(&["a", "c", "d", "b"]));
    assert_eq!(move_module(&l, "x", 1), l);
}
