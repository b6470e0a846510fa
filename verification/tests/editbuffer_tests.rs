use ked::{EditBuffer, FileError, Screen, Window};

fn chars(s: &str) -> Vec<char> {
    s.chars().collect()
}

fn line_str(buf: &EditBuffer, y: usize) -> String {
    buf.line(y).iter().collect()
}

fn test_buffer() -> EditBuffer {
    let screen = Screen { width: 80, height: 25 };
    let window = Window::new(1, 1, 80, 24, screen);
    let mut buf = EditBuffer::new(window);
    buf.new_buffer();
    buf
}

#[test]
fn set_cur_x_1() {
    let screen = Screen { width: 80, height: 25 };
    let window = Window::new(1, 1, 80, 24, screen);
    let mut buf = EditBuffer::new(window);
    buf.new_buffer();
    buf.set_line(0, chars("12345"));
    buf.set_cur_y(0);
    buf.set_cur_x(5);
    assert_eq!(buf.cur_x(), 5);
}

#[test]
fn set_cur_x_truncated() {
    let screen = Screen { width: 80, height: 25 };
    let window = Window::new(1, 1, 80, 24, screen);
    let mut buf = EditBuffer::new(window);
    buf.new_buffer();
    buf.set_line(0, chars("12345"));
    buf.set_cur_y(0);
    buf.set_cur_x(6);
    assert_eq!(buf.cur_x(), 5); // truncated.
}

#[test]
fn set_cur_x_wchar() {
    let screen = Screen { width: 80, height: 25 };
    let window = Window::new(1, 1, 80, 24, screen);
    let mut buf = EditBuffer::new(window);
    buf.new_buffer();
    buf.set_line(0, chars("あいうえお"));
    buf.set_cur_y(0);
    buf.set_cur_x(5);
    assert_eq!(buf.cur_x(), 5); // truncated.
}

#[test]
fn set_cur_x_wchar_truncated() {
    let screen = Screen { width: 80, height: 25 };
    let window = Window::new(1, 1, 80, 24, screen);
    let mut buf = EditBuffer::new(window);
    buf.new_buffer();
    buf.set_line(0, chars("あいうえお"));
    buf.set_cur_y(0);
    buf.set_cur_x(6);
    assert_eq!(buf.cur_x(), 5); // truncated.
}

#[test]
fn set_cur_x_empty_line() {
    let mut buf = test_buffer();
    buf.set_cur_x(3);
    assert_eq!(buf.cur_x(), 0);
}

#[test]
fn current_line_len_1() {
    let screen = Screen { width: 80, height: 25 };
    let window = Window::new(1, 1, 80, 24, screen);
    let mut buf = EditBuffer::new(window);
    buf.new_buffer();
    buf.set_line(0, chars("12345"));
    buf.set_cur_y(0);
    assert_eq!(buf.current_line_len(), 5);
}

#[test]
fn current_line_len_wchar() {
    let screen = Screen { width: 80, height: 25 };
    let window = Window::new(1, 1, 80, 24, screen);
    let mut buf = EditBuffer::new(window);
    buf.new_buffer();
    buf.set_line(0, chars("あいうえお"));
    buf.set_cur_y(0);
    assert_eq!(buf.current_line_len(), 5);
}

#[test]
fn current_line_len_wchar_2() {
    let screen = Screen { width: 80, height: 25 };
    let window = Window::new(1, 1, 80, 24, screen);
    let mut buf = EditBuffer::new(window);
    buf.new_buffer();
    buf.set_line(0, chars("🍎🍊🍣❤👉"));
    buf.set_cur_y(0);
    assert_eq!(buf.current_line_len(), 5);
}

#[test]
fn cursor_down_1() {
    let screen = Screen { width: 80, height: 25 };
    let window = Window::new(1, 1, 80, 24, screen);
    let mut buf = EditBuffer::new(window);
    buf.new_buffer();
    buf.set_line(0, chars("12345"));
    buf.push_line(chars(""));
    buf.set_cur_y(0);
    buf.set_cur_x(2);
    buf.cursor_down();
    assert_eq!(buf.cur_x(), 0);
    assert_eq!(buf.cur_y(), 1);
}

#[test]
fn cursor_down_2() {
    let screen = Screen { width: 80, height: 25 };
    let window = Window::new(1, 1, 80, 24, screen);
    let mut buf = EditBuffer::new(window);
    buf.new_buffer();
    buf.set_line(0, chars("12345"));
    buf.push_line(chars("あいう"));
    buf.set_cur_y(0);
    buf.set_cur_x(5);
    buf.cursor_down();
    assert_eq!(buf.cur_x(), 3);
    assert_eq!(buf.cur_y(), 1);
}

#[test]
fn cursor_down_3() {
    let screen = Screen { width: 80, height: 25 };
    let window = Window::new(1, 1, 80, 24, screen);
    let mut buf = EditBuffer::new(window);
    buf.new_buffer();
    buf.set_line(0, chars("あいうえお"));
    buf.push_line(chars("1234567890"));
    buf.set_cur_y(0);
    buf.set_cur_x(5);
    buf.cursor_down();
    assert_eq!(buf.cur_x(), 5);
    assert_eq!(buf.cur_y(), 1);
}

#[test]
fn insert_delete_roundtrip_scenario() {
    let mut buf = test_buffer();
    buf.set_line(0, chars("abc"));
    buf.set_cur_y(0);
    buf.set_cur_x(1);
    buf.insert_char('X');
    assert_eq!(line_str(&buf, 0), "aXbc");
    assert_eq!(buf.cur_x(), 2);
    buf.set_cur_x(1);
    buf.delete_char();
    assert_eq!(line_str(&buf, 0), "abc");
    assert_eq!(buf.cur_x(), 1);
}

#[test]
fn split_join_roundtrip_scenario() {
    let mut buf = test_buffer();
    buf.set_line(0, chars("abcd"));
    buf.set_cur_y(0);
    buf.set_cur_x(2);
    buf.insert_newline();
    assert_eq!(buf.line_count(), 2);
    assert_eq!(line_str(&buf, 0), "ab");
    assert_eq!(line_str(&buf, 1), "cd");
    assert_eq!(buf.cur_x(), 0);
    assert_eq!(buf.cur_y(), 1);
    buf.set_cur_y(0);
    buf.set_cur_x(2);
    buf.delete_char();
    assert_eq!(buf.line_count(), 1);
    assert_eq!(line_str(&buf, 0), "abcd");
    assert_eq!(buf.cur_x(), 2);
    assert_eq!(buf.cur_y(), 0);
}

#[test]
fn replace_char_in_place() {
    let mut buf = test_buffer();
    buf.set_line(0, chars("abc"));
    buf.set_cur_y(0);
    buf.set_cur_x(1);
    buf.replace_char('Z');
    assert_eq!(line_str(&buf, 0), "aZc");
    assert_eq!(buf.cur_x(), 1);
}

#[test]
fn replace_char_empty_line_is_noop() {
    let mut buf = test_buffer();
    buf.replace_char('Z');
    assert_eq!(line_str(&buf, 0), "");
    assert_eq!(buf.cur_x(), 0);
}

#[test]
fn delete_empty_line() {
    let mut buf = test_buffer();
    buf.set_line(0, chars("a"));
    buf.push_line(chars(""));
    buf.set_cur_y(1);
    buf.set_cur_x(0);
    buf.delete_char();
    assert_eq!(buf.line_count(), 1);
    assert_eq!(line_str(&buf, 0), "a");
    assert_eq!(buf.cur_y(), 0);
    assert_eq!(buf.cur_x(), 0);
}

#[test]
fn delete_last_remaining_line_keeps_buffer() {
    let mut buf = test_buffer();
    buf.delete_char();
    assert_eq!(buf.line_count(), 1);
    assert_eq!(line_str(&buf, 0), "");
}

#[test]
fn delete_at_end_without_next_line_is_noop() {
    let mut buf = test_buffer();
    buf.set_line(0, chars("abc"));
    buf.set_cur_y(0);
    buf.set_cur_x(3);
    buf.delete_char();
    assert_eq!(buf.line_count(), 1);
    assert_eq!(line_str(&buf, 0), "abc");
}

#[test]
fn scroll_bounds_respected() {
    let screen = Screen { width: 80, height: 25 };
    let window = Window::new(1, 1, 80, 24, screen);
    let mut buf = EditBuffer::new(window);
    buf.new_buffer();
    for _ in 0..29 {
        buf.push_line(chars("x"));
    }
    assert_eq!(buf.line_count(), 30);
    // 30 lines, height 24: scroll_top may reach at most 6.
    buf.scrollup(5);
    assert_eq!(buf.begin(), 5);
    buf.scrollup(1);
    assert_eq!(buf.begin(), 6);
    buf.scrollup(1); // would exceed lines - height: no-op
    assert_eq!(buf.begin(), 6);
    buf.scrolldown(7); // would go negative: no-op
    assert_eq!(buf.begin(), 6);
    buf.scrolldown(6);
    assert_eq!(buf.begin(), 0);
    buf.scrolldown(1); // already at the top: no-op
    assert_eq!(buf.begin(), 0);
}

#[test]
fn scrollup_on_short_buffer_is_noop() {
    let mut buf = test_buffer();
    buf.scrollup(1); // one line, viewport of 24: nothing to scroll
    assert_eq!(buf.begin(), 0);
}

#[test]
fn cursor_left_crosses_to_previous_line_end() {
    let mut buf = test_buffer();
    buf.set_line(0, chars("abc"));
    buf.push_line(chars("de"));
    buf.set_cur_y(1);
    buf.set_cur_x(0);
    buf.update_win_cur(); // window row follows the cursor, as after any move
    buf.cursor_left();
    assert_eq!(buf.cur_y(), 0);
    assert_eq!(buf.cur_x(), 3); // lands exactly at end of line
}

#[test]
fn cursor_right_crosses_to_next_line_start() {
    let mut buf = test_buffer();
    buf.set_line(0, chars("abc"));
    buf.push_line(chars("de"));
    buf.set_cur_y(0);
    buf.set_cur_x(3);
    buf.cursor_right();
    assert_eq!(buf.cur_y(), 1);
    assert_eq!(buf.cur_x(), 0);
}

#[test]
fn cursor_right_at_last_line_end_is_noop() {
    let mut buf = test_buffer();
    buf.set_line(0, chars("ab"));
    buf.set_cur_y(0);
    buf.set_cur_x(2);
    buf.cursor_right();
    assert_eq!(buf.cur_y(), 0);
    assert_eq!(buf.cur_x(), 2);
}

#[test]
fn save_target_without_name() {
    let buf = test_buffer();
    assert_eq!(buf.save_target(), Err(FileError::NoFileName));
}

#[test]
fn save_target_after_save_as() {
    let mut buf = test_buffer();
    assert_eq!(buf.save_target(), Err(FileError::NoFileName));
    // what a successful save-as records:
    buf.set_file_name("foo.txt");
    assert_eq!(buf.save_target(), Ok("foo.txt"));
    assert_eq!(buf.file_name(), "foo.txt");
}

#[test]
fn load_lines_decodes_and_pads() {
    let mut buf = {
        let screen = Screen { width: 80, height: 25 };
        let window = Window::new(1, 1, 80, 24, screen);
        EditBuffer::new(window)
    };
    buf.load_lines(
        vec![Some(chars("one")), None, Some(chars("three"))],
        "notes.txt",
    );
    assert_eq!(buf.line_count(), 3);
    assert_eq!(line_str(&buf, 0), "one");
    assert_eq!(line_str(&buf, 1), ""); // undecodable line degrades to empty
    assert_eq!(line_str(&buf, 2), "three");
    assert_eq!(buf.file_name(), "notes.txt");
}

#[test]
fn load_lines_empty_file_gives_one_empty_line() {
    let screen = Screen { width: 80, height: 25 };
    let window = Window::new(1, 1, 80, 24, screen);
    let mut buf = EditBuffer::new(window);
    buf.load_lines(vec![], "empty.txt");
    assert_eq!(buf.line_count(), 1);
    assert_eq!(line_str(&buf, 0), "");
}

#[test]
fn visible_lines_truncate_to_width() {
    let screen = Screen { width: 3, height: 4 };
    let window = Window::new(1, 1, 3, 2, screen);
    let mut buf = EditBuffer::new(window);
    buf.new_buffer();
    buf.set_line(0, chars("12345"));
    buf.push_line(chars("ab"));
    let rows = buf.visible_lines();
    assert_eq!(rows.len(), 2);
    assert_eq!(rows[0].iter().collect::<String>(), "123");
    assert_eq!(rows[1].iter().collect::<String>(), "ab");
}

#[test]
fn visible_lines_blank_past_end() {
    let screen = Screen { width: 10, height: 5 };
    let window = Window::new(1, 1, 10, 3, screen);
    let mut buf = EditBuffer::new(window);
    buf.new_buffer();
    buf.set_line(0, chars("x"));
    let rows = buf.visible_lines();
    assert_eq!(rows.len(), 3);
    assert_eq!(rows[0].iter().collect::<String>(), "x");
    assert_eq!(rows[1].iter().collect::<String>(), "");
    assert_eq!(rows[2].iter().collect::<String>(), "");
}

#[test]
fn window_column_counts_display_widths() {
    // Inserting one double-width character moves the screen cursor by two
    // columns; a single-width character by one. This would fail if the
    // width lookup handed anything constant back.
    let mut buf = test_buffer();
    buf.insert_char('あ');
    assert_eq!(buf.window().scr_cur_x(), 3); // origin 1 + width 2
    let mut buf2 = test_buffer();
    buf2.insert_char('a');
    assert_eq!(buf2.window().scr_cur_x(), 2); // origin 1 + width 1
}

#[test]
fn char_display_widths() {
    assert_eq!(ked::char_display_width('a'), 1);
    assert_eq!(ked::char_display_width('あ'), 2);
    assert_eq!(ked::char_display_width('\u{7}'), 0); // control: no columns
}

#[test]
fn cursor_up_scroll_reclamps_column() {
    // a scrolled state: the cursor sits on the first visible line, with a
    // shorter line above the viewport
    let screen = Screen { width: 10, height: 3 };
    let window = Window::new(1, 1, 10, 1, screen);
    let mut buf = EditBuffer::new(window);
    buf.new_buffer();
    buf.set_line(0, chars(""));
    buf.push_line(chars("abc"));
    buf.scrollup(1); // carries the cursor to line 1
    assert_eq!(buf.begin(), 1);
    assert_eq!(buf.cur_y(), 1);
    buf.set_cur_x(3);
    buf.cursor_up(); // scrolls back and re-clamps to the empty line
    assert_eq!(buf.begin(), 0);
    assert_eq!(buf.cur_y(), 0);
    assert_eq!(buf.cur_x(), 0);
}

#[test]
fn cursor_right_at_last_line_end_bottom_row_is_noop() {
    let screen = Screen { width: 10, height: 3 };
    let window = Window::new(1, 1, 10, 1, screen); // a one-row viewport
    let mut buf = EditBuffer::new(window);
    buf.new_buffer();
    buf.set_line(0, chars("ab"));
    buf.set_cur_x(2);
    buf.update_win_cur(); // cursor sits on the bottom (only) viewport row
    buf.cursor_right();
    assert_eq!(buf.cur_x(), 2); // end of the last line: request ignored
    assert_eq!(buf.cur_y(), 0);
}
