use ked::{Prompt, Screen, StatusBar, Window};

fn small_screen() -> Screen {
    Screen { width: 20, height: 5 }
}

#[test]
fn window_screen_coordinates_add_origin() {
    let mut win = Window::new(3, 2, 10, 4, small_screen());
    assert_eq!(win.scr_cur_x(), 3);
    assert_eq!(win.scr_cur_y(), 2);
    win.set_cur_x(4);
    win.set_cur_y(1);
    assert_eq!(win.scr_cur_x(), 7);
    assert_eq!(win.scr_cur_y(), 3);
}

#[test]
fn window_cursor_outside_is_ignored() {
    let mut win = Window::new(1, 1, 10, 4, small_screen());
    win.set_cur_x(10); // not < width: ignored, no clamping
    win.set_cur_y(4); // not < height: ignored, no clamping
    assert_eq!(win.cur_x(), 0);
    assert_eq!(win.cur_y(), 0);
    win.set_cur_x(9);
    win.set_cur_y(3);
    assert_eq!(win.cur_x(), 9);
    assert_eq!(win.cur_y(), 3);
}

#[test]
fn status_bar_layout() {
    let win = Window::new(1, 5, 20, 1, small_screen());
    let mut bar = StatusBar::new(win);
    bar.set_file_name("foo");
    bar.set_changed(true);
    bar.toggle_insert_mode(); // overwrite mode
    let text: String = bar.bar_text().iter().collect();
    assert_eq!(text.chars().count(), 20);
    assert_eq!(text, "foo            * Ovr");
    bar.toggle_insert_mode(); // back to insert mode
    bar.set_changed(false);
    let text2: String = bar.bar_text().iter().collect();
    assert_eq!(&text2[0..3], "foo");
    assert_eq!(&text2[15..16], " ");
    assert_eq!(&text2[17..20], "Ins");
}

#[test]
fn prompt_collect_and_clear() {
    let win = Window::new(1, 5, 20, 1, small_screen());
    let mut p = Prompt::new(win);
    p.set_prompt("Name: ");
    p.push('h');
    p.push('i');
    assert_eq!(p.result(), "hi");
    p.backspace();
    assert_eq!(p.result(), "h");
    p.backspace();
    p.backspace(); // empty: stays empty
    assert_eq!(p.result(), "");
    p.push('x');
    p.clear();
    assert_eq!(p.result(), "");
}

#[test]
fn prompt_caption_cursor_at_byte_length() {
    let win = Window::new(1, 5, 20, 1, small_screen());
    let mut p = Prompt::new(win);
    p.set_prompt("あ: "); // three bytes, then ':' and ' '
    assert_eq!(p.window().cur_x(), 5);
}
