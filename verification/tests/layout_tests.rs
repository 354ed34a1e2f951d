use topbar::config::ModulesConfig;
use topbar::layout::{center_list, drawn_in_place, layout_center, layout_left, layout_right};

#[test]
fn rows_on_the_bar() {
    assert_eq!(layout_left(&vec![30, 50], 8, 4), vec![8, 42]);
    assert_eq!(layout_right(&vec![30, 50], 1000, 8, 4), vec![908, 942]);
    assert_eq!(layout_right(&vec![], 1000, 8, 4), Vec::<i32>::new());
    assert_eq!(layout_center(&vec![100], 1000, 4), vec![450]);
    assert_eq!(layout_center(&vec![100, 51], 1000, 4), vec![422, 526]);
    assert_eq!(layout_center(&vec![0], 1000, 0), Vec::<i32>::new());
    assert_eq!(layout_center(&vec![1200], 1000, 0), vec![-100]);
    assert_eq!(layout_center(&vec![1201], 1000, 0), vec![-100]);
}

#[test]
fn which_modules_are_drawn() {
    let mut m = ModulesConfig::default();
    assert!(center_list(&m).is_empty());
    m.clock.center = true;
    assert_eq!(center_list(&m), vec!["clock".to_string()]);
    m.center_modules = vec!["clock".to_string(), "media".to_string()];
    assert_eq!(center_list(&m), vec!["clock".to_string(), "media".to_string()]);
    let l: Vec<String> = vec!["a".to_string(), "b".to_string(), "a".to_string()];
    assert_eq!(drawn_in_place(&l, &Some("a".to_string())), vec!["b".to_string()]);
    assert_eq!(drawn_in_place(&l, &None), l);
}
