use rusty_diary::editor::EditBuffer;

fn type_str(buf: &mut EditBuffer, text: &str) {
    for c in text.chars() {
        buf.insert(c);
    }
}

#[test]
fn insert_advances_cursor() {
    let mut buf = EditBuffer::new();
    type_str(&mut buf, "hello");
    assert_eq!(buf.text(), "hello");
    assert_eq!(buf.cursor, 5);
}

#[test]
fn insert_at_cursor_in_middle() {
    let mut buf = EditBuffer::new();
    type_str(&mut buf, "hllo");
    buf.move_home();
    buf.move_right();
    buf.insert('e');
    assert_eq!(buf.text(), "hello");
    assert_eq!(buf.cursor, 2);
}

#[test]
fn delete_before_cursor_removes_previous_char() {
    let mut buf = EditBuffer::new();
    type_str(&mut buf, "abc");
    buf.delete_before_cursor();
    assert_eq!(buf.text(), "ab");
    assert_eq!(buf.cursor, 2);
}

#[test]
fn delete_before_cursor_at_start_is_noop() {
    let mut buf = EditBuffer::new();
    type_str(&mut buf, "abc");
    buf.move_home();
    buf.delete_before_cursor();
    assert_eq!(buf.text(), "abc");
    assert_eq!(buf.cursor, 0);
}

#[test]
fn delete_on_empty_buffer_is_noop() {
    let mut buf = EditBuffer::new();
    buf.delete_before_cursor();
    assert_eq!(buf.text(), "");
    assert_eq!(buf.cursor, 0);
}

#[test]
fn motions_clamp_at_bounds() {
    let mut buf = EditBuffer::new();
    type_str(&mut buf, "ab");
    for _ in 0..5 {
        buf.move_right();
    }
    assert_eq!(buf.cursor, 2);
    for _ in 0..5 {
        buf.move_left();
    }
    assert_eq!(buf.cursor, 0);
}

#[test]
fn home_and_end_jump() {
    let mut buf = EditBuffer::new();
    type_str(&mut buf, "abcd");
    buf.move_home();
    assert_eq!(buf.cursor, 0);
    buf.move_end();
    assert_eq!(buf.cursor, 4);
}

#[test]
fn cursor_stays_in_bounds_under_mixed_operations() {
    let mut buf = EditBuffer::new();
    let ops: Vec<u8> = vec![0, 1, 2, 3, 0, 4, 5, 1, 1, 1, 1, 0, 2, 3, 5, 4, 0, 1];
    for op in ops {
        match op {
            0 => buf.insert('x'),
            1 => buf.delete_before_cursor(),
            2 => buf.move_left(),
            3 => buf.move_right(),
            4 => buf.move_home(),
            _ => buf.move_end(),
        }
        assert!(buf.cursor <= buf.len());
    }
}

#[test]
fn clear_empties_buffer_and_resets_cursor() {
    let mut buf = EditBuffer::new();
    type_str(&mut buf, "some text");
    buf.clear();
    assert!(buf.is_empty());
    assert_eq!(buf.cursor, 0);
    assert_eq!(buf.text(), "");
}
