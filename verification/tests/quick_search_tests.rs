use topbar::quick_search::{KeyOutcome, QuickSearchState, SearchQuery, VK_DOWN, VK_ESCAPE, VK_RETURN, VK_UP};

fn typed(s: &mut QuickSearchState, text: &str) -> SearchQuery {
    let mut last = SearchQuery::Cleared;
    for c in text.chars() {
        last = s.on_char(c as usize);
    }
    last
}

fn paths(n: usize) -> Vec<String> {
    (0..n).map(|i| format!("C:\\f{}.txt", i)).collect()
}

#[test]
fn typing_builds_the_query() {
    let mut s = QuickSearchState::new();
    assert!(matches!(typed(&mut s, "ab c"), SearchQuery::ByPrefix(q) if q == "ab c"));
    assert!(matches!(s.on_char(8), SearchQuery::ByPrefix(q) if q == "ab "));
    assert!(matches!(s.on_char(13), SearchQuery::ByPrefix(q) if q == "ab "));
    assert!(matches!(s.on_char(0x107), SearchQuery::ByPrefix(q) if q == "ab "));
    assert!(matches!(s.on_char(0x141), SearchQuery::ByPrefix(q) if q == "ab A"));
    for _ in 0..4 {
        s.on_char(8);
    }
    assert_eq!(s.input(), "");
    assert!(matches!(s.on_char(8), SearchQuery::Cleared));
    assert!(matches!(typed(&mut s, ".PDF"), SearchQuery::ByExtension(q) if q == ".PDF"));
}

#[test]
fn arrows_wrap_within_shown_rows() {
    let mut s = QuickSearchState::new();
    assert!(matches!(s.on_key(VK_DOWN), KeyOutcome::Ignored));
    typed(&mut s, "f");
    s.set_results(paths(10));
    assert_eq!(s.shown_count(), 8);
    assert!(matches!(s.on_key(VK_UP), KeyOutcome::Moved(0, 7)));
    assert!(matches!(s.on_key(VK_DOWN), KeyOutcome::Moved(7, 0)));
    assert!(matches!(s.on_key(VK_DOWN), KeyOutcome::Moved(0, 1)));
    assert_eq!(s.selected(), 1);
    assert!(matches!(s.on_key(VK_RETURN), KeyOutcome::Open(p) if p == "C:\\f1.txt"));
    assert!(matches!(s.on_key(VK_ESCAPE), KeyOutcome::Close));
    assert!(matches!(s.on_key(0x41), KeyOutcome::Ignored));
    s.set_results(paths(3));
    assert_eq!(s.selected(), 0);
    assert!(matches!(s.on_key(VK_UP), KeyOutcome::Moved(0, 2)));
    assert!(matches!(s.on_key(VK_DOWN), KeyOutcome::Moved(2, 0)));
    s.on_char('x' as usize);
    assert!(s.results().is_empty());
    assert!(matches!(s.on_key(VK_RETURN), KeyOutcome::Ignored));
}

#[test]
fn clicks_pick_rows() {
    let mut s = QuickSearchState::new();
    s.set_results(paths(10));
    assert_eq!(s.on_click(59), None);
    assert_eq!(s.on_click(60), Some("C:\\f0.txt".to_string()));
    assert_eq!(s.on_click(103), Some("C:\\f0.txt".to_string()));
    assert_eq!(s.on_click(104), Some("C:\\f1.txt".to_string()));
    assert_eq!(s.on_click(60 + 44 * 9), Some("C:\\f9.txt".to_string()));
    assert_eq!(s.on_click(60 + 44 * 10), None);
}

#[test]
fn quick_search_texts() {
    let mut s = QuickSearchState::new();
    assert_eq!(s.input_text(true, 0, 0), "Search files...");
    assert_eq!(s.input_text(false, 50, 200), "Indexing 50 files... (~25%)");
    assert_eq!(s.input_text(false, 500, 200), "Indexing 500 files... (~100%)");
    assert_eq!(s.input_text(false, 7, 0), "Indexing 7 files...");
    assert!(!s.shows_cursor());
    assert_eq!(s.empty_message(false), "");
    assert_eq!(s.empty_message(true), "Start typing to search");
    assert_eq!(s.footer_hint(), "");
    typed(&mut s, "zz");
    assert_eq!(s.input_text(false, 1, 1), "zz");
    assert!(s.shows_cursor());
    assert_eq!(s.empty_message(true), "No files found");
    s.set_results(paths(1));
    assert_eq!(s.empty_message(true), "");
    assert_eq!(s.footer_hint(), "↑↓ Navigate  ⏎ Open  Esc Close");
    s.set_focused(false);
    assert!(!s.shows_cursor());
}
