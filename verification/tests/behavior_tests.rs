use hecto::position::Position;
use hecto::size::Size;
use hecto::view::{Direction, EditorCommand, RenderPlan, View};
use hecto::line::Line;

// A line of plain text renders back exactly over its full width.
#[test]
fn full_range_reconstructs_plain_text() {
    let line = Line::from("The quick brown fox!");
    let full = line.position_of(line.len());
    assert_eq!(line.get(0..full), "The quick brown fox!");
}

// Insert followed by delete at the same index restores content and length.
#[test]
fn insert_then_delete_restores_line() {
    let mut line = Line::from("a👋b");
    let before_len = line.len();
    let before_full = line.position_of(line.len());
    let before = line.get(0..before_full);

    line.insert(1, 'x');
    assert!(line.delete(1));

    assert_eq!(line.len(), before_len);
    let after_full = line.position_of(line.len());
    assert_eq!(after_full, before_full);
    assert_eq!(line.get(0..after_full), before);
}

// A combining mark joins its base character into one cluster.
#[test]
fn combining_mark_is_one_grapheme() {
    let line = Line::from("e\u{301}b");
    assert_eq!(line.len(), 2);
}

// A wide grapheme occupies exactly two columns.
#[test]
fn wide_grapheme_occupies_two_columns() {
    let line = Line::from("👋Ｂ👋");
    assert_eq!(line.len(), 3);
    assert_eq!(line.position_of(1), 2);
    assert_eq!(line.position_of(2), 4);
    assert_eq!(line.position_of(3), 6);
}

// A range that splits a wide grapheme after rendered content yields the
// content and then a single ellipsis.
#[test]
fn split_wide_grapheme_after_content_shows_ellipsis() {
    let line = Line::from("a👋b");
    assert_eq!(line.get(0..2), "a⋯");
    assert_eq!(line.get(0..3), "a👋");
    assert_eq!(line.get(0..4), "a👋b");
    assert_eq!(line.get(1..3), "👋");
    assert_eq!(line.get(2..4), "⋯");
}

// A zero-width grapheme renders as one middle dot of width one.
#[test]
fn zero_width_grapheme_renders_one_column() {
    let line = Line::from("a\u{200B}b");
    assert_eq!(line.len(), 3);
    assert_eq!(line.position_of(3), 3);
    assert_eq!(line.get(0..3), "a·b");
}

// A tab renders as a single space of width one.
#[test]
fn tab_renders_as_space() {
    let line = Line::from("a\tb");
    assert_eq!(line.len(), 3);
    assert_eq!(line.position_of(3), 3);
    assert_eq!(line.get(0..3), "a b");
}

// Visible whitespace other than a space renders as an open box.
#[test]
fn non_breaking_space_renders_as_open_box() {
    let line = Line::from("a\u{00A0}b");
    assert_eq!(line.get(0..3), "a␣b");
}

// A lone zero-width control character renders as a white rectangle.
#[test]
fn control_character_renders_as_rectangle() {
    let line = Line::from("\n");
    assert_eq!(line.len(), 1);
    assert_eq!(line.get(0..1), "▯");
}

// A carriage-return-line-feed pair is one zero-width cluster.
#[test]
fn crlf_is_one_substituted_cluster() {
    let line = Line::from("\r\n");
    assert_eq!(line.len(), 1);
    assert_eq!(line.get(0..1), "·");
}

// After every navigation command the cursor's grid position stays inside
// the window spanned by the scroll offset.
#[test]
fn navigation_keeps_cursor_in_window() {
    let mut view = View {
        size: Size {
            width: 5,
            height: 3,
        },
        ..Default::default()
    };
    view.buffer.push("Hello world!");
    view.buffer.push("How are we all doing?");
    view.buffer.push("");
    view.buffer.push("👋Ｂ👋");
    view.buffer.push("Goodbye all");

    let commands = [
        Direction::End,
        Direction::Down,
        Direction::Down,
        Direction::End,
        Direction::Right,
        Direction::Right,
        Direction::PageDown,
        Direction::Up,
        Direction::Home,
        Direction::PageUp,
        Direction::Left,
    ];
    for direction in &commands {
        view.move_cursor(direction);
        let grid_row = view.cursor_position.row;
        let grid_col = view
            .buffer
            .grid_position_of(view.cursor_position)
            .col;
        assert!(view.scroll_offset.row <= grid_row);
        assert!(grid_row < view.scroll_offset.row + view.size.height);
        assert!(view.scroll_offset.col <= grid_col);
        assert!(grid_col < view.scroll_offset.col + view.size.width);
    }
}

// Loading text replaces the buffer with one line per text line, with the
// line terminators stripped.
#[test]
fn load_splits_text_into_lines() {
    let mut view = View::default();
    view.load("first\nsecond");
    assert_eq!(view.buffer.num_lines(), 2);
    let first = view.buffer.get_line(0).unwrap();
    assert_eq!(first.get(0..5), "first");
    let second = view.buffer.get_line(1).unwrap();
    assert_eq!(second.get(0..6), "second");
}

// A carriage return before the newline is stripped; a final newline ends
// the last line without opening a new one.
#[test]
fn load_strips_carriage_return_and_final_newline() {
    let mut view = View::default();
    view.load("one\r\ntwo\n");
    assert_eq!(view.buffer.num_lines(), 2);
    let first = view.buffer.get_line(0).unwrap();
    assert_eq!(first.len(), 3);
    assert_eq!(first.get(0..3), "one");
    let second = view.buffer.get_line(1).unwrap();
    assert_eq!(second.get(0..3), "two");
}

// Loading empty text leaves an empty buffer; blank lines survive.
#[test]
fn load_empty_and_blank_lines() {
    let mut view = View::default();
    view.load("");
    assert_eq!(view.buffer.num_lines(), 0);

    view.load("a\n\nb");
    assert_eq!(view.buffer.num_lines(), 3);
    assert_eq!(view.buffer.line_len(1), 0);
}

// Without a due redraw, render yields nothing.
#[test]
fn render_skipped_without_redraw_flag() {
    let mut view = setup_view();
    view.needs_redraw = false;
    assert!(matches!(view.render(), RenderPlan::Unchanged));
}

// Over an empty buffer, render yields the centered greeting.
#[test]
fn render_empty_buffer_yields_welcome() {
    let mut view = View {
        size: Size {
            width: 40,
            height: 9,
        },
        ..Default::default()
    };
    match view.render() {
        RenderPlan::Welcome(origin, message) => {
            assert_eq!(message, "hecto editor -- v0.1.0");
            assert_eq!(origin.row, 3);
            assert_eq!(origin.col, (40 - message.len()) / 2);
        },
        _ => panic!("expected a greeting"),
    }
    // The pass cleared the flag: the next render yields nothing.
    assert!(!view.needs_redraw);
    assert!(matches!(view.render(), RenderPlan::Unchanged));
}

// Render yields one string per visible row: the window's columns of each
// line, and a tilde for rows past the document's end.
#[test]
fn render_rows_clips_to_window() {
    let mut view = setup_view();
    view.scroll_offset = Position { row: 1, col: 2 };
    match view.render() {
        RenderPlan::Rows(rows) => {
            assert_eq!(rows.len(), 3);
            assert_eq!(rows[0], "w are ");
            assert_eq!(rows[1], "");
            assert_eq!(rows[2], "Ｂ👋");
        },
        _ => panic!("expected rows"),
    }
    assert!(!view.needs_redraw);
}

#[test]
fn render_marks_rows_past_document_end() {
    let mut view = View {
        size: Size {
            width: 4,
            height: 3,
        },
        ..Default::default()
    };
    view.buffer.push("only");
    match view.render() {
        RenderPlan::Rows(rows) => {
            assert_eq!(rows.len(), 3);
            assert_eq!(rows[0], "only");
            assert_eq!(rows[1], "~");
            assert_eq!(rows[2], "~");
        },
        _ => panic!("expected rows"),
    }
}

// Commands dispatch to the matching operation; Quit changes nothing.
#[test]
fn handle_command_dispatches() {
    let mut view = setup_view();
    view.handle_command(EditorCommand::Move(Direction::End));
    assert_eq!(view.cursor_position, Position { row: 0, col: 12 });

    view.handle_command(EditorCommand::Insert('!'));
    assert_eq!(view.cursor_position, Position { row: 0, col: 13 });
    assert_eq!(view.buffer.line_len(0), 13);

    view.handle_command(EditorCommand::DeleteLeft);
    assert_eq!(view.buffer.line_len(0), 12);

    view.handle_command(EditorCommand::Resize(Size {
        width: 2,
        height: 2,
    }));
    assert_eq!(view.size.width, 2);

    let before = view.cursor_position;
    view.handle_command(EditorCommand::Quit);
    assert_eq!(view.cursor_position, before);
}

// Resizing scrolls just enough to keep the cursor inside the new window.
#[test]
fn resize_keeps_cursor_in_window() {
    let mut view = setup_view();
    view.cursor_position = Position { row: 4, col: 8 };
    view.move_cursor(&Direction::Right);
    view.resize(Size {
        width: 3,
        height: 2,
    });
    let grid = view.buffer.grid_position_of(view.cursor_position);
    assert!(view.scroll_offset.row <= grid.row);
    assert!(grid.row < view.scroll_offset.row + 2);
    assert!(view.scroll_offset.col <= grid.col);
    assert!(grid.col < view.scroll_offset.col + 3);
}

fn setup_view() -> View {
    let mut view = View {
        size: Size {
            width: 6,
            height: 3,
        },
        ..Default::default()
    };
    view.buffer.push("Hello world!");
    view.buffer.push("How are we all doing?");
    view.buffer.push("");
    view.buffer.push("👋Ｂ👋");
    view.buffer.push("Goodbye all");
    view
}
