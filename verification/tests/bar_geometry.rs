use crossbeam::channel::unbounded;
use tabbed_ui::bar::{
    horizontal_delimiter, horizontal_end_cap, vertical_delimiter, vertical_end_connector,
    vertical_end_delimiter, vertical_start_connector, TabBar,
};
use tabbed_ui::event::{Event, EventResult, Key, MouseButton, MouseEventKind};
use tabbed_ui::geom::Vec2;
use tabbed_ui::{Align, Placement};

fn bar_with(keys: &[&str]) -> TabBar {
    let (tx, rx) = unbounded::<String>();
    let mut bar = TabBar::new(rx);
    for k in keys {
        bar.add_button(tx.clone(), k);
    }
    bar
}

#[test]
fn offset_zero_when_container_too_small() {
    assert_eq!(Align::Start.get_offset(10, 5), 0);
    assert_eq!(Align::Center.get_offset(10, 5), 0);
    assert_eq!(Align::End.get_offset(10, 5), 0);
}

#[test]
fn offset_start_center_end() {
    assert_eq!(Align::Start.get_offset(4, 10), 0);
    assert_eq!(Align::Center.get_offset(4, 10), 3);
    assert_eq!(Align::Center.get_offset(3, 10), 3);
    assert_eq!(Align::End.get_offset(4, 10), 6);
    // End closes exactly with the far edge; Center splits the slack
    // into parts that differ by at most one cell.
    assert_eq!(Align::End.get_offset(4, 10) + 4, 10);
    let off = Align::Center.get_offset(3, 10);
    let rest = 10 - 3 - off;
    assert!(off == rest || off + 1 == rest);
}

#[test]
fn measure_accumulates_button_widths() {
    let mut bar = bar_with(&["A", "BB"]);
    // Labels are " A " and " BB ": three and four cells wide.
    let req = bar.required_size(Vec2::new(80, 24));
    assert_eq!(bar.total_extent(), Vec2::new(7, 1));
    assert_eq!(req, Vec2::new(9, 1));
    assert_eq!(bar.size_at(0), Vec2::new(3, 1));
    assert_eq!(bar.size_at(1), Vec2::new(4, 1));
    assert_eq!(bar.pos_at(0), Vec2::new(3, 1));
    assert_eq!(bar.pos_at(1), Vec2::new(7, 1));
}

#[test]
fn measure_vertical_stacks_heights() {
    let mut bar = bar_with(&["A", "BB"]).with_placement(Placement::VerticalLeft);
    let req = bar.required_size(Vec2::new(80, 24));
    assert_eq!(bar.total_extent(), Vec2::new(4, 2));
    assert_eq!(req, Vec2::new(4, 4));
}

#[test]
fn empty_bar_asks_for_placeholder() {
    let mut bar = bar_with(&[]);
    assert_eq!(bar.required_size(Vec2::new(80, 24)), Vec2::new(1, 1));
}

#[test]
fn add_and_add_at_move_cursor_and_active() {
    let mut bar = bar_with(&["a", "b"]);
    assert_eq!(bar.cursor(), Some(1));
    assert_eq!(bar.active(), Some(1));
    let (tx, _rx2) = unbounded::<String>();
    bar.add_button_at(tx.clone(), "c", 0);
    assert_eq!(bar.cursor(), Some(0));
    assert_eq!(bar.active(), Some(0));
    bar.add_button_at(tx, "d", 99);
    assert_eq!(bar.cursor(), Some(3));
    assert_eq!(bar.key_at(3), "d");
}

#[test]
fn remove_tracked_button_resets_both() {
    let mut bar = bar_with(&["a", "b", "c"]);
    // Cursor and active sit on "c" (index 2).
    bar.remove_button("c");
    assert_eq!(bar.cursor(), None);
    assert_eq!(bar.active(), None);
}

#[test]
fn remove_earlier_button_slides_indices_down() {
    let mut bar = bar_with(&["a", "b", "c"]);
    // Cursor and active sit on "c" (index 2); removing "a" slides them
    // to index 1, still naming "c".
    bar.remove_button("a");
    assert_eq!(bar.cursor(), Some(1));
    assert_eq!(bar.active(), Some(1));
    assert_eq!(bar.key_at(1), "c");
}

#[test]
fn remove_missing_button_is_noop() {
    let mut bar = bar_with(&["a"]);
    bar.remove_button("zzz");
    assert_eq!(bar.button_count(), 1);
    assert_eq!(bar.cursor(), Some(0));
}

#[test]
fn swap_button_exchanges_positions_only() {
    let mut bar = bar_with(&["a", "b", "c"]);
    bar.swap_button("a", "c");
    assert_eq!(bar.key_at(0), "c");
    assert_eq!(bar.key_at(2), "a");
    assert_eq!(bar.cursor(), Some(2));
    bar.swap_button("a", "c");
    assert_eq!(bar.key_at(0), "a");
    assert_eq!(bar.key_at(2), "c");
}

#[test]
fn arrows_clamp_at_both_ends() {
    let mut bar = bar_with(&["a", "b"]);
    bar.required_size(Vec2::new(80, 24));
    bar.layout(Vec2::new(80, 1));
    assert_eq!(bar.cursor(), Some(1));
    assert_eq!(bar.on_event(Event::Key(Key::Right)), EventResult::Ignored);
    assert_eq!(bar.cursor(), Some(1));
    assert_eq!(bar.on_event(Event::Key(Key::Left)), EventResult::Consumed);
    assert_eq!(bar.cursor(), Some(0));
    assert_eq!(bar.on_event(Event::Key(Key::Left)), EventResult::Ignored);
    assert_eq!(bar.cursor(), Some(0));
    // Vertical arrows do nothing on a horizontal bar.
    assert_eq!(bar.on_event(Event::Key(Key::Up)), EventResult::Ignored);
    assert_eq!(bar.on_event(Event::Key(Key::Down)), EventResult::Ignored);
}

#[test]
fn release_outside_all_buttons_is_ignored() {
    let mut bar = bar_with(&["a"]);
    bar.required_size(Vec2::new(80, 24));
    bar.layout(Vec2::new(80, 1));
    let r = bar.on_event(Event::Mouse {
        offset: Vec2::new(0, 0),
        position: Vec2::new(50, 0),
        event: MouseEventKind::Release(MouseButton::Left),
    });
    assert_eq!(r, EventResult::Ignored);
}

#[test]
fn enter_announces_cursor_button() {
    let (tx, rx) = unbounded::<String>();
    let (_bar_tx, bar_rx) = unbounded::<String>();
    let mut bar = TabBar::new(bar_rx);
    bar.add_button(tx.clone(), "a");
    bar.add_button(tx, "b");
    assert_eq!(bar.on_event(Event::Key(Key::Enter)), EventResult::Consumed);
    assert_eq!(rx.try_recv(), Ok("b".to_string()));
}

#[test]
fn queue_message_moves_selection() {
    let (tx, rx) = unbounded::<String>();
    let (sel_tx, sel_rx) = unbounded::<String>();
    let mut bar = TabBar::new(sel_rx);
    bar.add_button(tx.clone(), "a");
    bar.add_button(tx, "b");
    assert_eq!(bar.active(), Some(1));
    // Two pending selections: only the newest is applied.
    sel_tx.send("b".to_string()).unwrap();
    sel_tx.send("a".to_string()).unwrap();
    bar.required_size(Vec2::new(80, 24));
    assert_eq!(bar.active(), Some(0));
    // A message naming no button leaves the selection alone.
    sel_tx.send("zzz".to_string()).unwrap();
    bar.required_size(Vec2::new(80, 24));
    assert_eq!(bar.active(), Some(0));
}

#[test]
fn horizontal_glyph_rules() {
    assert_eq!(horizontal_delimiter(0, Some(0)), '\u{2528}');
    assert_eq!(horizontal_delimiter(0, Some(1)), '\u{2524}');
    assert_eq!(horizontal_delimiter(0, None), '\u{2524}');
    assert_eq!(horizontal_delimiter(2, Some(2)), '\u{2503}');
    assert_eq!(horizontal_delimiter(2, Some(1)), '\u{2503}');
    assert_eq!(horizontal_delimiter(2, Some(0)), '\u{2502}');
    assert_eq!(horizontal_delimiter(2, None), '\u{2502}');
    assert_eq!(horizontal_end_cap(3, Some(3)), '\u{2520}');
    assert_eq!(horizontal_end_cap(3, Some(1)), '\u{251c}');
}

#[test]
fn vertical_glyph_rules() {
    assert_eq!(vertical_delimiter(0, Some(0)), '\u{2501}');
    assert_eq!(vertical_delimiter(0, None), '\u{2500}');
    assert_eq!(vertical_delimiter(1, Some(0)), '\u{2501}');
    assert_eq!(vertical_delimiter(1, Some(2)), '\u{2500}');
    assert_eq!(vertical_start_connector(Some(0)), '\u{2537}');
    assert_eq!(vertical_start_connector(None), '\u{2534}');
    assert_eq!(vertical_end_delimiter(2, Some(2)), '\u{2501}');
    assert_eq!(vertical_end_delimiter(2, None), '\u{2500}');
    assert_eq!(vertical_end_connector(2, Some(2)), '\u{252f}');
    assert_eq!(vertical_end_connector(2, Some(0)), '\u{252c}');
}

#[test]
fn center_alignment_shifts_hit_regions() {
    let mut bar = bar_with(&["A", "B"]).with_alignment(Align::Center);
    bar.required_size(Vec2::new(80, 24));
    bar.layout(Vec2::new(80, 1));
    // Buttons plus delimiters span ten cells; centred in eighty cells
    // the bar starts at column thirty-five. "A" reaches column 39,
    // "B" reaches column 44.
    let press = |x: usize| Event::Mouse {
        offset: Vec2::new(0, 0),
        position: Vec2::new(x, 0),
        event: MouseEventKind::Release(MouseButton::Left),
    };
    assert_eq!(bar.on_event(press(38)), EventResult::Consumed);
    assert_eq!(bar.cursor(), Some(0));
    assert_eq!(bar.on_event(press(41)), EventResult::Consumed);
    assert_eq!(bar.cursor(), Some(1));
}

#[test]
fn button_geometry_for_drawing() {
    let mut bar = bar_with(&["A", "BB", "C"]);
    bar.required_size(Vec2::new(80, 24));
    bar.layout(Vec2::new(80, 1));
    // Origins: alignment offset zero, accumulated widths plus one cell
    // per preceding delimiter.
    assert_eq!(bar.button_origin(0), Vec2::new(0, 0));
    assert_eq!(bar.button_origin(1), Vec2::new(4, 0));
    assert_eq!(bar.button_origin(2), Vec2::new(9, 0));
    // First and last buttons reserve both their delimiter cells.
    assert_eq!(bar.button_crop(0), Vec2::new(5, 1));
    assert_eq!(bar.button_crop(1), Vec2::new(5, 1));
    assert_eq!(bar.button_crop(2), Vec2::new(5, 1));
}
