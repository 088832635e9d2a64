use hecto::{Direction, Editor, EditorCommand, Location, Position, Size, View};

fn view_with(text: &str, width: usize, height: usize) -> View {
    let mut view = View::default();
    view.load(Some(text));
    view.resize(Size { width, height });
    view
}

fn press(view: &mut View, direction: Direction, times: usize) {
    for _ in 0..times {
        view.handle_command(EditorCommand::Move(direction));
    }
}

#[test]
fn failed_load_keeps_buffer() {
    let mut view = View::default();
    assert!(view.is_empty());
    view.load(None);
    assert!(view.is_empty());

    let mut loaded = view_with("a\nb", 10, 5);
    loaded.load(None);
    assert!(!loaded.is_empty());
}

#[test]
fn scrolling_down_twenty_rows_in_ten_row_viewport() {
    let text = vec!["line"; 25].join("\n");
    let mut view = view_with(&text, 80, 10);
    press(&mut view, Direction::Down, 20);
    assert_eq!(view.location(), Location { x: 0, y: 20 });
    assert_eq!(view.scroll_offset().y, 11);
    assert_eq!(view.get_position(), Position { col: 0, row: 9 });
}

#[test]
fn left_at_origin_stays() {
    let mut view = view_with("hello\nworld", 10, 5);
    press(&mut view, Direction::Left, 1);
    assert_eq!(view.location(), Location { x: 0, y: 0 });
    press(&mut view, Direction::Up, 1);
    assert_eq!(view.location(), Location { x: 0, y: 0 });
}

#[test]
fn right_at_end_of_last_line_goes_past_it() {
    let mut view = view_with("hello\nworld", 10, 5);
    press(&mut view, Direction::Down, 1);
    press(&mut view, Direction::Right, 5);
    assert_eq!(view.location(), Location { x: 5, y: 1 });
    view.render();
    press(&mut view, Direction::Right, 1);
    assert_eq!(view.location(), Location { x: 0, y: 2 });
    press(&mut view, Direction::Right, 1);
    press(&mut view, Direction::Down, 3);
    assert_eq!(view.location(), Location { x: 0, y: 2 });

    let mut fresh = view_with("hello\nworld", 10, 5);
    let rows = fresh.render();
    assert_eq!(rows[2], (2, "~".to_string()));
}

#[test]
fn left_at_line_start_goes_to_end_of_previous_line() {
    let mut view = view_with("hello\nab", 10, 5);
    press(&mut view, Direction::Down, 1);
    press(&mut view, Direction::Left, 1);
    assert_eq!(view.location(), Location { x: 5, y: 0 });
}

#[test]
fn moving_down_clamps_column_to_shorter_line() {
    let mut view = view_with("hello\nab", 10, 5);
    press(&mut view, Direction::Right, 4);
    press(&mut view, Direction::Down, 1);
    assert_eq!(view.location(), Location { x: 2, y: 1 });
}

#[test]
fn welcome_message_edges() {
    assert_eq!(View::build_welcome_message(10), "~");
    assert_eq!(View::build_welcome_message(0), " ");
    assert_eq!(View::build_welcome_message(22), "~");
    assert_eq!(View::build_welcome_message(23), "~Hecto -- version 0.1.0");
    assert_eq!(View::build_welcome_message(30), "~   Hecto -- version 0.1.0");
}

#[test]
fn second_render_paints_nothing() {
    let mut view = view_with("hello", 10, 4);
    let first = view.render();
    assert_eq!(first.len(), 4);
    assert!(!view.needs_redraw());
    let second = view.render();
    assert!(second.is_empty());
    assert!(!view.needs_redraw());
}

#[test]
fn render_shows_text_and_filler() {
    let mut view = view_with("hello\nworld", 3, 3);
    let rows = view.render();
    assert_eq!(
        rows,
        vec![(0, "hel".to_string()), (1, "wor".to_string()), (2, "~".to_string())]
    );
}

#[test]
fn render_of_empty_buffer_shows_welcome_a_third_down() {
    let mut view = View::default();
    view.resize(Size { width: 30, height: 6 });
    let rows = view.render();
    assert_eq!(rows.len(), 6);
    assert_eq!(rows[2], (2, "~   Hecto -- version 0.1.0".to_string()));
    assert_eq!(rows[0], (0, "~".to_string()));
    assert_eq!(rows[5], (5, "~".to_string()));
}

#[test]
fn render_of_zero_width_viewport() {
    let mut view = View::default();
    view.resize(Size { width: 0, height: 3 });
    let rows = view.render();
    assert_eq!(rows[1], (1, " ".to_string()));
}

#[test]
fn horizontal_scroll_follows_cursor() {
    let mut view = view_with("abcdefgh", 3, 2);
    press(&mut view, Direction::Right, 5);
    assert_eq!(view.scroll_offset(), Location { x: 3, y: 0 });
    let rows = view.render();
    assert_eq!(rows[0], (0, "def".to_string()));
    assert_eq!(view.get_position(), Position { col: 2, row: 0 });
    press(&mut view, Direction::Left, 5);
    assert_eq!(view.scroll_offset(), Location { x: 0, y: 0 });
}

#[test]
fn movement_without_scroll_keeps_pending_redraw() {
    let mut view = view_with("hello\nworld", 10, 5);
    view.render();
    view.load(Some("abc"));
    press(&mut view, Direction::Right, 1);
    assert!(view.needs_redraw());
}

#[test]
fn movement_without_scroll_leaves_clean_view_clean() {
    let mut view = view_with("hello\nworld", 10, 5);
    view.render();
    press(&mut view, Direction::Right, 1);
    assert!(!view.needs_redraw());
    assert!(view.render().is_empty());
}

#[test]
fn resize_marks_stale_and_scrolls() {
    let text = vec!["x"; 10].join("\n");
    let mut view = view_with(&text, 10, 10);
    press(&mut view, Direction::Down, 8);
    view.render();
    view.handle_command(EditorCommand::Resize(Size { width: 10, height: 4 }));
    assert!(view.needs_redraw());
    assert_eq!(view.size(), Size { width: 10, height: 4 });
    assert_eq!(view.scroll_offset(), Location { x: 0, y: 5 });
}

#[test]
fn quit_leaves_view_alone() {
    let mut editor = Editor::default();
    editor.view.resize(Size { width: 10, height: 3 });
    editor.evaluate_command(EditorCommand::Move(Direction::Down));
    assert!(!editor.should_quit);
    editor.evaluate_command(EditorCommand::Quit);
    assert!(editor.should_quit);
    let frame = editor.refresh_screen();
    assert_eq!(frame.rows.len(), 3);
    assert_eq!(frame.caret, Position { col: 0, row: 0 });
}

#[test]
fn location_subtract_saturates() {
    let a = Location { x: 2, y: 7 };
    let b = Location { x: 5, y: 3 };
    assert_eq!(a.subtract(&b), Location { x: 0, y: 4 });
    assert_eq!(Position::from(a), Position { col: 2, row: 7 });
}
