use tabbed_ui::child::TextPane;
use tabbed_ui::TabView;

fn pane(text: &str) -> TextPane {
    TextPane::new(text.to_string(), true)
}

#[test]
fn smoke() {
    let _ = TabView::<TextPane>::new();
}

#[test]
fn insert() {
    let mut tabs = TabView::new().with_tab("0", pane("a"));
    tabs.add_tab("1", pane("b"));
}

#[test]
fn switch() {
    let mut tabs = TabView::new();
    tabs.add_tab("0", pane("a"));
    tabs.add_tab("1", pane("b"));
    assert_eq!(tabs.active_tab().expect("Id not correct"), "1");
    tabs.set_active_tab("0").expect("Id not taken");
    assert_eq!(tabs.active_tab().expect("Id not correct"), "0");
}

#[test]
fn remove() {
    let mut tabs = TabView::new();
    tabs.add_tab("0", pane("a"));
    tabs.add_tab("1", pane("b"));
    assert_eq!(tabs.remove_tab("1"), Ok(()));
    assert!(tabs.active_tab().is_none());
}

#[test]
fn unknown_key_errors() {
    let mut tabs = TabView::new();
    tabs.add_tab("a", pane("a"));
    let err = tabs.set_active_tab("missing").unwrap_err();
    assert_eq!(err.id, "missing".to_string());
    let err = tabs.remove_tab("also-missing").unwrap_err();
    assert_eq!(err.id, "also-missing".to_string());
    assert_eq!(tabs.active_tab(), Some("a"));
}

#[test]
fn add_tab_at_clamps() {
    let mut tabs = TabView::new();
    tabs.add_tab("a", pane("a"));
    tabs.add_tab("b", pane("b"));
    tabs.add_tab_at("c", pane("c"), 1);
    assert_eq!(tabs.tab_order(), vec!["a", "c", "b"]);
    assert_eq!(tabs.active_tab(), Some("c"));
    tabs.add_tab_at("d", pane("d"), 99);
    assert_eq!(tabs.tab_order(), vec!["a", "c", "b", "d"]);
}

#[test]
fn next_cycles_back_to_start() {
    let mut tabs = TabView::new();
    tabs.add_tab("a", pane("a"));
    tabs.add_tab("b", pane("b"));
    tabs.add_tab("c", pane("c"));
    assert_eq!(tabs.active_tab(), Some("c"));
    tabs.next();
    assert_eq!(tabs.active_tab(), Some("a"));
    tabs.next();
    assert_eq!(tabs.active_tab(), Some("b"));
    tabs.next();
    assert_eq!(tabs.active_tab(), Some("c"));
}

#[test]
fn prev_is_inverse_of_next() {
    let mut tabs = TabView::new();
    tabs.add_tab("a", pane("a"));
    tabs.add_tab("b", pane("b"));
    tabs.add_tab("c", pane("c"));
    tabs.prev();
    assert_eq!(tabs.active_tab(), Some("b"));
    tabs.prev();
    assert_eq!(tabs.active_tab(), Some("a"));
    tabs.prev();
    assert_eq!(tabs.active_tab(), Some("c"));
}

#[test]
fn swap_twice_restores_order() {
    let mut tabs = TabView::new();
    tabs.add_tab("a", pane("a"));
    tabs.add_tab("b", pane("b"));
    tabs.add_tab("c", pane("c"));
    let before = tabs.tab_order();
    tabs.swap_tabs("a", "c");
    assert_eq!(tabs.tab_order(), vec!["c", "b", "a"]);
    tabs.swap_tabs("a", "c");
    assert_eq!(tabs.tab_order(), before);
}

#[test]
fn swap_with_missing_key_is_noop() {
    let mut tabs = TabView::new();
    tabs.add_tab("a", pane("a"));
    tabs.add_tab("b", pane("b"));
    tabs.swap_tabs("a", "zzz");
    assert_eq!(tabs.tab_order(), vec!["a", "b"]);
    tabs.swap_tabs("a", "a");
    assert_eq!(tabs.tab_order(), vec!["a", "b"]);
}

#[test]
fn remove_current_clears_current_others_keep_it() {
    let mut tabs = TabView::new();
    tabs.add_tab("a", pane("a"));
    tabs.add_tab("b", pane("b"));
    tabs.set_active_tab("a").unwrap();
    assert_eq!(tabs.remove_tab("b"), Ok(()));
    assert_eq!(tabs.active_tab(), Some("a"));
    assert_eq!(tabs.remove_tab("a"), Ok(()));
    assert!(tabs.active_tab().is_none());
    assert!(tabs.tab_order().is_empty());
}
