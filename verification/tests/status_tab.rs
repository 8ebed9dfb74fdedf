use tabbed_ui::geom::Vec2;
use tabbed_ui::status::{PageTab, TabStatus};

#[test]
fn icon_follows_conditions() {
    let mut tab = PageTab::new("build".to_string());
    assert_eq!(tab.icon(), "");
    tab.add_status(TabStatus::Error, "404".to_string());
    assert_eq!(tab.icon(), "X");
    tab.add_status(TabStatus::Success, "cached".to_string());
    assert_eq!(tab.icon(), "\u{2713}X");
    tab.add_status(TabStatus::Loading, "fetch".to_string());
    assert_eq!(tab.icon(), "\u{2713}X~");
    tab.del_status(TabStatus::Error, "404".to_string());
    assert_eq!(tab.icon(), "\u{2713}~");
}

#[test]
fn duplicate_reason_changes_nothing() {
    let mut tab = PageTab::new("t".to_string());
    tab.add_status(TabStatus::Warn, "slow".to_string());
    tab.add_status(TabStatus::Warn, "slow".to_string());
    assert_eq!(tab.icon(), "\u{26a0}");
    tab.del_status(TabStatus::Warn, "slow".to_string());
    assert_eq!(tab.icon(), "");
}

#[test]
fn status_needs_every_reason_removed() {
    let mut tab = PageTab::new("t".to_string());
    tab.add_status(TabStatus::Info, "one".to_string());
    tab.add_status(TabStatus::Info, "two".to_string());
    tab.del_status(TabStatus::Info, "one".to_string());
    assert_eq!(tab.icon(), "i");
    tab.del_status(TabStatus::Info, "two".to_string());
    assert_eq!(tab.icon(), "");
}

#[test]
fn deleting_unknown_reason_is_noop() {
    let mut tab = PageTab::new("t".to_string());
    tab.add_status(TabStatus::Success, "ok".to_string());
    tab.del_status(TabStatus::Success, "missing".to_string());
    assert_eq!(tab.icon(), "\u{2713}");
    tab.del_status(TabStatus::Error, "ok".to_string());
    assert_eq!(tab.icon(), "\u{2713}");
}

#[test]
fn check_position_uses_recorded_bounds() {
    let mut tab = PageTab::new("t".to_string());
    tab.set_pos(Vec2::new(3, 0), Vec2::new(7, 0));
    assert!(tab.check_position(Vec2::new(3, 0)));
    assert!(tab.check_position(Vec2::new(7, 1)));
    assert!(!tab.check_position(Vec2::new(2, 0)));
    assert!(!tab.check_position(Vec2::new(8, 0)));
    assert!(!tab.check_position(Vec2::new(5, 2)));
}

#[test]
fn get_id_returns_identifier() {
    let tab = PageTab::new("deps".to_string());
    assert_eq!(tab.get_id(), "deps");
}
