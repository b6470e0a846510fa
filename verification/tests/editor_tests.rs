use ked::{
    EditBuffer, EditMode, Editor, Key, KeyAction, MacroCommand, Prompt, Screen, ScriptAction,
    StatusBar, Window,
};

fn make_editor() -> Editor {
    let screen = Screen { width: 80, height: 25 };
    let editor_win = Window::new(1, 1, 80, 23, screen);
    let status_win = Window::new(1, 24, 80, 1, screen);
    let prompt_win = Window::new(1, 25, 80, 1, screen);
    Editor::new(
        editor_win,
        StatusBar::new(status_win),
        Prompt::new(prompt_win),
    )
}

fn line_str(buf: &EditBuffer, y: usize) -> String {
    buf.line(y).iter().collect()
}

fn cmd(name: &str, argstr: &str) -> MacroCommand {
    MacroCommand {
        name: name.to_string(),
        arg: 0,
        argstr: argstr.to_string(),
    }
}

#[test]
fn macro_and_keys_give_identical_buffers() {
    // the same editing, once scripted, once through key events
    let mut scripted = make_editor();
    let script = vec![
        cmd("new_buffer", ""),
        cmd("insert_char", "a"),
        cmd("insert_char", "b"),
        cmd("cursor_left", ""),
        cmd("insert_char", "X"),
    ];
    for c in &script {
        assert_eq!(scripted.run_script_step(c), ScriptAction::Done);
    }

    let mut interactive = make_editor();
    interactive.init_new_buffer();
    for k in [
        Key::Char('a'),
        Key::Char('b'),
        Key::Left,
        Key::Char('X'),
    ] {
        assert_eq!(interactive.handle_key(k), KeyAction::Done);
    }

    assert_eq!(line_str(scripted.buf(), 0), "aXb");
    assert_eq!(scripted.buf().cur_x(), 2);
    assert_eq!(line_str(interactive.buf(), 0), "aXb");
    assert_eq!(interactive.buf().cur_x(), 2);
    assert_eq!(scripted.buf().cur_y(), interactive.buf().cur_y());
    assert_eq!(scripted.buf().line_count(), interactive.buf().line_count());
}

#[test]
fn save_without_name_prompts_then_save_as_sticks() {
    let mut e = make_editor();
    e.init_new_buffer();
    e.handle_key(Key::Char('h'));
    assert!(e.changed());
    // plain save on an unnamed buffer: no write, the editor prompts
    assert_eq!(e.handle_key(Key::Ctrl('s')), KeyAction::Done);
    assert_eq!(e.edit_mode(), EditMode::Prompt);
    // type the name and commit
    for c in "foo.txt".chars() {
        assert_eq!(e.handle_key(Key::Char(c)), KeyAction::Done);
    }
    assert_eq!(e.handle_key(Key::Char('\n')), KeyAction::SaveFileAs);
    assert_eq!(e.edit_mode(), EditMode::Editor);
    assert_eq!(e.input(), "foo.txt");
    e.finish_save_as(true);
    assert_eq!(e.buf().file_name(), "foo.txt");
    // a later plain save goes straight to writing, without a prompt
    assert_eq!(e.handle_key(Key::Ctrl('s')), KeyAction::SaveFile);
    assert_eq!(e.edit_mode(), EditMode::Editor);
}

#[test]
fn quit_unchanged_is_immediate() {
    let mut e = make_editor();
    e.init_new_buffer();
    assert_eq!(e.handle_key(Key::Ctrl('c')), KeyAction::Quit);
}

#[test]
fn quit_with_changes_asks_first() {
    let mut e = make_editor();
    e.init_new_buffer();
    e.handle_key(Key::Char('x'));
    assert_eq!(e.handle_key(Key::Ctrl('c')), KeyAction::Done);
    assert_eq!(e.edit_mode(), EditMode::OneKeyInput);
    // any answer but 'y' or newline goes back to editing
    assert_eq!(e.handle_key(Key::Char('n')), KeyAction::Done);
    assert_eq!(e.edit_mode(), EditMode::Editor);
    // asking again and answering 'y' quits
    e.handle_key(Key::Ctrl('c'));
    assert_eq!(e.handle_key(Key::Char('y')), KeyAction::Quit);
}

#[test]
fn prompt_collects_edits_and_cancel() {
    let mut e = make_editor();
    e.init_new_buffer();
    e.handle_key(Key::Ctrl('a')); // save-as always prompts
    assert_eq!(e.edit_mode(), EditMode::Prompt);
    e.handle_key(Key::Char('a'));
    e.handle_key(Key::Char('b'));
    e.handle_key(Key::Backspace);
    e.handle_key(Key::Char('c'));
    assert_eq!(e.prompt().result(), "ac");
    // cancel: back to editing without executing the purpose
    assert_eq!(e.handle_key(Key::Ctrl('c')), KeyAction::Done);
    assert_eq!(e.edit_mode(), EditMode::Editor);
    assert_eq!(e.buf().file_name(), "");
}

#[test]
fn insert_key_toggles_overwrite() {
    let mut e = make_editor();
    e.init_new_buffer();
    assert!(e.status().insert_mode_flag());
    e.handle_key(Key::Insert);
    assert!(!e.status().insert_mode_flag());
    // overwrite mode: typing replaces in place
    e.handle_key(Key::Char('a'));
    e.handle_key(Key::Insert);
    e.handle_key(Key::Char('b'));
    e.handle_key(Key::Char('c'));
    e.handle_key(Key::Insert);
    assert_eq!(line_str(e.buf(), 0), "bc");
}

#[test]
fn delete_key_marks_changed() {
    let mut e = make_editor();
    e.init_new_buffer();
    assert!(!e.changed());
    e.handle_key(Key::Delete);
    assert!(e.changed());
}

#[test]
fn newline_key_splits_line() {
    let mut e = make_editor();
    e.init_new_buffer();
    for c in "abcd".chars() {
        e.handle_key(Key::Char(c));
    }
    e.handle_key(Key::Left);
    e.handle_key(Key::Left);
    e.handle_key(Key::Char('\n'));
    assert_eq!(e.buf().line_count(), 2);
    assert_eq!(line_str(e.buf(), 0), "ab");
    assert_eq!(line_str(e.buf(), 1), "cd");
}

#[test]
fn script_break_stops_and_unknown_is_ignored() {
    let mut e = make_editor();
    e.init_new_buffer();
    assert_eq!(e.run_script_step(&cmd("no_such_command", "zz")), ScriptAction::Done);
    assert_eq!(line_str(e.buf(), 0), "");
    assert_eq!(e.run_script_step(&cmd("break", "")), ScriptAction::Stop);
}

#[test]
fn script_file_commands_hand_back_io() {
    let mut e = make_editor();
    e.init_new_buffer();
    assert_eq!(e.run_script_step(&cmd("open_file", "a.txt")), ScriptAction::OpenFile);
    assert_eq!(e.run_script_step(&cmd("save_file", "")), ScriptAction::SaveFile);
    assert_eq!(e.run_script_step(&cmd("save_file_as", "b.txt")), ScriptAction::SaveFileAs);
    // a scripted save-as records the name on success
    e.set_saved_name("b.txt");
    assert_eq!(e.buf().file_name(), "b.txt");
}

#[test]
fn script_insert_char_empty_argument_is_ignored() {
    let mut e = make_editor();
    e.init_new_buffer();
    assert_eq!(e.run_script_step(&cmd("insert_char", "")), ScriptAction::Done);
    assert_eq!(line_str(e.buf(), 0), "");
}

#[test]
fn new_buffer_command_resets_state() {
    let mut e = make_editor();
    e.init_new_buffer();
    for c in "hello".chars() {
        e.handle_key(Key::Char(c));
    }
    assert_eq!(e.run_script_step(&cmd("new_buffer", "")), ScriptAction::Done);
    assert_eq!(e.buf().line_count(), 1);
    assert_eq!(line_str(e.buf(), 0), "");
    assert_eq!(e.buf().cur_x(), 0);
    assert_eq!(e.buf().cur_y(), 0);
}

#[test]
fn failed_save_as_refreshes_status_caption() {
    let mut e = make_editor();
    e.init_new_buffer();
    e.set_saved_name("kept.txt"); // buffer name set without touching status
    e.handle_key(Key::Ctrl('a'));
    for c in "bad".chars() {
        e.handle_key(Key::Char(c));
    }
    assert_eq!(e.handle_key(Key::Char('\n')), KeyAction::SaveFileAs);
    e.finish_save_as(false); // the write failed
    assert_eq!(e.buf().file_name(), "kept.txt"); // buffer name unchanged
    let caption: String = e.status().bar_text().iter().take(8).collect();
    assert_eq!(caption, "kept.txt"); // caption refreshed from the buffer
}

#[test]
fn script_commands_before_any_buffer_are_ignored() {
    let mut e = make_editor(); // no buffer yet: nothing to move in or edit
    assert_eq!(e.run_script_step(&cmd("cursor_down", "")), ScriptAction::Done);
    assert_eq!(e.run_script_step(&cmd("insert_char", "x")), ScriptAction::Done);
    assert_eq!(e.run_script_step(&cmd("new_buffer", "")), ScriptAction::Done);
    assert_eq!(e.run_script_step(&cmd("insert_char", "x")), ScriptAction::Done);
    assert_eq!(line_str(e.buf(), 0), "x");
}
