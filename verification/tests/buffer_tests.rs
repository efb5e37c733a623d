use hecto::buffer::Buffer;
use hecto::position::Position;

#[test]
fn push_line() {
    let mut buffer = Buffer::default();
    buffer.push("Hello world!");
    assert!(buffer.num_lines() == 1);
}

#[test]
fn insert_into_new_empty_buffer_creates_line() {
    let mut buffer = Buffer::default();
    buffer.insert(Position { row: 0, col: 0 }, 'A');
    assert_eq!(buffer.num_lines(), 1);
    let line = buffer.get_line(0).unwrap();
    let full_width = line.position_of(line.len());
    assert_eq!(line.get(0..full_width), "A");
}

#[test]
fn insert_into_existing_line_middle() {
    let mut buffer = Buffer::default();
    buffer.push("Helo");
    buffer.insert(Position { row: 0, col: 2 }, 'l');
    let line = buffer.get_line(0).unwrap();
    let full_width = line.position_of(line.len());
    assert_eq!(line.get(0..full_width), "Hello");
}

#[test]
fn insert_at_line_end_appends() {
    let mut buffer = Buffer::default();
    buffer.push("Hello");
    let end = buffer.line_len(0);
    buffer.insert(Position { row: 0, col: end }, '!');
    let line = buffer.get_line(0).unwrap();
    let full_width = line.position_of(line.len());
    assert_eq!(line.get(0..full_width), "Hello!");
}

#[test]
fn insert_col_beyond_end_appends() {
    let mut buffer = Buffer::default();
    buffer.push("Hi");
    buffer.insert(Position { row: 0, col: 100 }, '!');
    let line = buffer.get_line(0).unwrap();
    let full_width = line.position_of(line.len());
    assert_eq!(line.get(0..full_width), "Hi!");
}

#[test]
fn insert_row_beyond_len_is_noop() {
    let mut buffer = Buffer::default();
    buffer.push("Hello");
    buffer.insert(Position { row: 2, col: 0 }, 'X');
    // Row beyond len: should not change existing content or add lines
    assert_eq!(buffer.num_lines(), 1);
    let line = buffer.get_line(0).unwrap();
    let full_width = line.position_of(line.len());
    assert_eq!(line.get(0..full_width), "Hello");
}

#[test]
fn delete_at_line_start() {
    let mut buffer = Buffer::default();
    buffer.push("Hello");
    let deleted = buffer.delete(Position { row: 0, col: 0 });
    assert!(deleted);
    let line = buffer.get_line(0).unwrap();
    let full_width = line.position_of(line.len());
    assert_eq!(line.get(0..full_width), "ello");
    assert_eq!(line.len(), 4);
}

#[test]
fn delete_in_line_middle() {
    let mut buffer = Buffer::default();
    buffer.push("Hxllo");
    let deleted = buffer.delete(Position { row: 0, col: 2 });
    assert!(deleted);
    let line = buffer.get_line(0).unwrap();
    let full_width = line.position_of(line.len());
    assert_eq!(line.get(0..full_width), "Hxlo");
    assert_eq!(line.len(), 4);
}

#[test]
fn delete_at_line_end() {
    let mut buffer = Buffer::default();
    buffer.push("Hello!");
    let last = buffer.line_len(0) - 1;
    let deleted = buffer.delete(Position { row: 0, col: last });
    assert!(deleted);
    let line = buffer.get_line(0).unwrap();
    let full_width = line.position_of(line.len());
    assert_eq!(line.get(0..full_width), "Hello");
    assert_eq!(line.len(), 5);
}

#[test]
fn delete_col_beyond_end_noop() {
    let mut buffer = Buffer::default();
    buffer.push("Hello");
    let deleted = buffer.delete(Position { row: 0, col: 100 });
    assert!(!deleted);
    let line = buffer.get_line(0).unwrap();
    let full_width = line.position_of(line.len());
    assert_eq!(line.get(0..full_width), "Hello");
    assert_eq!(line.len(), 5);
}

#[test]
fn delete_row_beyond_len_noop() {
    let mut buffer = Buffer::default();
    buffer.push("Hello");
    let deleted = buffer.delete(Position { row: 2, col: 0 });
    assert!(!deleted);
    assert_eq!(buffer.num_lines(), 1);
    let line = buffer.get_line(0).unwrap();
    let full_width = line.position_of(line.len());
    assert_eq!(line.get(0..full_width), "Hello");
}

#[test]
fn delete_wide_grapheme_in_line() {
    let mut buffer = Buffer::default();
    buffer.push("a👋b");
    // [a, 👋, b] => delete the wide grapheme at col 1
    let line_before = buffer.get_line(0).unwrap();
    let full_width_before = line_before.position_of(line_before.len());
    assert_eq!(full_width_before, 4);

    let deleted = buffer.delete(Position { row: 0, col: 1 });
    assert!(deleted);

    let line_after = buffer.get_line(0).unwrap();
    let full_width_after = line_after.position_of(line_after.len());
    assert_eq!(full_width_after, 2);
    assert_eq!(line_after.get(0..full_width_after), "ab");
    assert_eq!(line_after.len(), 2);
}

#[test]
fn delete_on_empty_buffer_noop() {
    let mut buffer = Buffer::default();
    let deleted = buffer.delete(Position { row: 0, col: 0 });
    assert!(!deleted);
    assert_eq!(buffer.num_lines(), 0);
}
