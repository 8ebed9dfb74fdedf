use tabbed_ui::child::TextPane;
use tabbed_ui::event::{CannotFocus, Direction, Event, EventResult, Key, MouseButton, MouseEventKind};
use tabbed_ui::geom::Vec2;
use tabbed_ui::{Align, Placement, TabPanel};

fn pane(text: &str) -> TextPane {
    TextPane::new(text.to_string(), true)
}

fn measured_panel(keys: &[&str]) -> TabPanel<TextPane> {
    let mut panel = TabPanel::new();
    for k in keys {
        panel.add_tab(k, pane(k));
    }
    let cst = Vec2::new(80, 24);
    panel.required_size(cst);
    panel.layout(cst);
    panel
}

fn release_at(x: usize, y: usize) -> Event {
    Event::Mouse {
        offset: Vec2::new(0, 0),
        position: Vec2::new(x, y),
        event: MouseEventKind::Release(MouseButton::Left),
    }
}

fn bar_keys(panel: &TabPanel<TextPane>) -> Vec<String> {
    let bar = panel.bar_ref();
    let mut out = Vec::new();
    for i in 0..bar.button_count() {
        out.push(bar.key_at(i).to_string());
    }
    out
}

#[test]
fn press_first_tab_round_trip() {
    // The scenario from top to bottom: three tabs added in order, the
    // newest selected, then a simulated press on the first tab's region,
    // then one layout pass on each half to drain the queues.
    let mut panel = measured_panel(&["A", "B", "C"]);
    assert_eq!(panel.get_placement(), Placement::HorizontalTop);
    assert_eq!(panel.get_alignment(), Align::Start);
    assert_eq!(panel.bar_ref().active(), Some(2));
    assert_eq!(panel.active_tab(), Some("C"));

    // "A" occupies the first columns of the bar row.
    let result = panel.on_event(release_at(1, 0));
    assert_eq!(result, EventResult::Consumed);
    assert_eq!(panel.bar_ref().cursor(), Some(0));

    // The container's pass applies the press, the bar's pass mirrors it.
    panel.required_size(Vec2::new(80, 24));
    assert_eq!(panel.active_tab(), Some("A"));
    assert_eq!(panel.bar_ref().active(), Some(0));
}

#[test]
fn rapid_presses_collapse_to_latest() {
    let mut panel = measured_panel(&["A", "B"]);
    // Press "A" (first columns), then "B", before any layout pass runs:
    // only the newest intent survives the drain.
    panel.on_event(release_at(1, 0));
    let b_start = panel.bar_ref().pos_at(0).x + 2;
    panel.on_event(release_at(b_start, 0));
    panel.required_size(Vec2::new(80, 24));
    assert_eq!(panel.active_tab(), Some("B"));
    assert_eq!(panel.bar_ref().active(), Some(1));
}

#[test]
fn bar_and_container_stay_in_sync() {
    let mut panel = measured_panel(&["a", "b", "c", "d"]);
    assert_eq!(bar_keys(&panel), panel.tab_order());
    panel.remove_tab("b").unwrap();
    assert_eq!(bar_keys(&panel), panel.tab_order());
    panel.swap_tabs("a", "d");
    assert_eq!(bar_keys(&panel), panel.tab_order());
    panel.add_tab_at("e", pane("e"), 1);
    assert_eq!(bar_keys(&panel), panel.tab_order());
    panel.required_size(Vec2::new(80, 24));
    assert_eq!(bar_keys(&panel), panel.tab_order());
    assert_eq!(panel.tab_order(), vec!["d", "e", "c", "a"]);
}

#[test]
fn next_through_panel_cycles() {
    let mut panel = measured_panel(&["a", "b", "c"]);
    let start = panel.active_tab().map(str::to_string);
    for _ in 0..3 {
        panel.next();
    }
    assert_eq!(panel.active_tab().map(str::to_string), start);
}

#[test]
fn take_focus_toward_bar_always_lands_on_bar() {
    let mut panel = measured_panel(&["a"]);
    let r = panel.take_focus(Direction::Up);
    assert!(matches!(r, Ok(EventResult::Consumed)));
    assert!(panel.is_bar_focused());
}

#[test]
fn take_focus_toward_content_lands_on_child() {
    let mut panel = measured_panel(&["a"]);
    let r = panel.take_focus(Direction::Down);
    assert!(matches!(r, Ok(EventResult::Consumed)));
    assert!(!panel.is_bar_focused());
}

#[test]
fn take_focus_fails_without_focusable_content() {
    let mut panel: TabPanel<TextPane> = TabPanel::new();
    panel.add_tab("a", TextPane::new("a".to_string(), false));
    let r = panel.take_focus(Direction::Down);
    assert!(matches!(r, Err(CannotFocus)));
    assert!(panel.is_bar_focused());
}

#[test]
fn empty_panel_cannot_focus_content() {
    let mut panel: TabPanel<TextPane> = TabPanel::new();
    let r = panel.take_focus(Direction::Down);
    assert!(matches!(r, Err(CannotFocus)));
    assert!(panel.is_bar_focused());
}

#[test]
fn away_key_moves_focus_into_content() {
    let mut panel = measured_panel(&["a"]);
    assert!(panel.is_bar_focused());
    let r = panel.on_event(Event::Key(Key::Down));
    assert_eq!(r, EventResult::Consumed);
    assert!(!panel.is_bar_focused());
    // And the matching key brings it back; the bar always accepts.
    let r = panel.on_event(Event::Key(Key::Up));
    assert_eq!(r, EventResult::Consumed);
    assert!(panel.is_bar_focused());
}

#[test]
fn away_key_without_focusable_content_stays_on_bar() {
    let mut panel: TabPanel<TextPane> = TabPanel::new();
    panel.add_tab("a", TextPane::new("a".to_string(), false));
    let cst = Vec2::new(80, 24);
    panel.required_size(cst);
    panel.layout(cst);
    let r = panel.on_event(Event::Key(Key::Down));
    assert_eq!(r, EventResult::Ignored);
    assert!(panel.is_bar_focused());
}

#[test]
fn bottom_placement_swaps_focus_keys() {
    let mut panel = measured_panel(&["a"]).with_bar_placement(Placement::HorizontalBottom);
    let r = panel.on_event(Event::Key(Key::Up));
    assert_eq!(r, EventResult::Consumed);
    assert!(!panel.is_bar_focused());
    let r = panel.on_event(Event::Key(Key::Down));
    assert_eq!(r, EventResult::Consumed);
    assert!(panel.is_bar_focused());
}

#[test]
fn with_active_tab_round_trip() {
    let panel = measured_panel(&["a", "b"]);
    let panel = panel.with_active_tab("a").unwrap_or_else(|p| p);
    assert_eq!(panel.active_tab(), Some("a"));
    let r = panel.with_active_tab("zzz");
    assert!(r.is_err());
}

#[test]
fn placement_change_marks_relayout() {
    let mut panel = measured_panel(&["a"]);
    // Fresh passes leave nothing pending.
    assert!(!panel.needs_relayout());
    panel.set_bar_placement(Placement::VerticalLeft);
    assert!(panel.needs_relayout());
    let cst = Vec2::new(80, 24);
    panel.required_size(cst);
    panel.layout(cst);
    assert!(!panel.needs_relayout());
    panel.set_bar_alignment(Align::End);
    assert!(panel.needs_relayout());
}

#[test]
fn arrows_move_panel_cursor() {
    let mut panel = measured_panel(&["a", "b", "c"]);
    assert!(panel.is_bar_focused());
    assert_eq!(panel.bar_ref().cursor(), Some(2));
    assert_eq!(panel.on_event(Event::Key(Key::Left)), EventResult::Consumed);
    assert_eq!(panel.bar_ref().cursor(), Some(1));
    assert_eq!(panel.on_event(Event::Key(Key::Right)), EventResult::Consumed);
    assert_eq!(panel.bar_ref().cursor(), Some(2));
    // Clamped at the last button; the key is reported ignored.
    assert_eq!(panel.on_event(Event::Key(Key::Right)), EventResult::Ignored);
    assert_eq!(panel.bar_ref().cursor(), Some(2));
}

#[test]
fn enter_through_panel_activates_round_trip() {
    let mut panel = measured_panel(&["a", "b"]);
    panel.on_event(Event::Key(Key::Left));
    assert_eq!(panel.on_event(Event::Key(Key::Enter)), EventResult::Consumed);
    panel.required_size(Vec2::new(80, 24));
    assert_eq!(panel.active_tab(), Some("a"));
    assert_eq!(panel.bar_ref().active(), Some(0));
}

#[test]
fn press_in_bar_region_refocuses_bar() {
    let mut panel = measured_panel(&["a"]);
    panel.take_focus(Direction::Down).unwrap();
    assert!(!panel.is_bar_focused());
    let grab = Event::Mouse {
        offset: Vec2::new(0, 0),
        position: Vec2::new(1, 0),
        event: MouseEventKind::Press(MouseButton::Left),
    };
    panel.on_event(grab);
    assert!(panel.is_bar_focused());
}
