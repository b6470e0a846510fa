use vstd::prelude::*;
use vstd::string::StrSliceExecFns;

use crate::editbuffer::{
    buf_wf, cursor_down_spec, cursor_left_spec, cursor_right_spec, cursor_up_spec,
    delete_char_spec, insert_char_spec, insert_newline_spec, lemma_moves_preserve_wf, line_views,
    load_lines_spec, new_buffer_spec, replace_char_spec, scrolldown_spec, scrollup_spec, BufModel,
    EditBuffer,
};
use crate::macrocommand::MacroCommand;
use crate::prompt::{
    prompt_backspace_spec, prompt_clear_spec, prompt_push_spec, prompt_set_spec, Prompt,
    PromptModel,
};
use crate::statusbar::{StatusBar, StatusModel};
use crate::strutil::str_eq;
use crate::window::{win_wf, Window};

verus! {

/// A logical key event, as the terminal's key decoder delivers it.
#[derive(Clone, Copy, PartialEq, Eq, Structural, Debug)]
pub enum Key {
    Char(char),
    Ctrl(char),
    Up,
    Down,
    Left,
    Right,
    PageUp,
    PageDown,
    Insert,
    Delete,
    Backspace,
    /// Any key the editor does not react to.
    Other,
}

/// The controller's input mode.
#[derive(Clone, Copy, PartialEq, Eq, Structural, Debug)]
pub enum EditMode {
    /// Keys edit the buffer.
    Editor,
    /// Keys collect a one-line text answer.
    Prompt,
    /// The next character answers a confirmation question.
    OneKeyInput,
}

/// What is pending once the prompt is answered.
#[derive(Clone, Copy, PartialEq, Eq, Structural, Debug)]
pub enum AfterPrompt {
    Nothing,
    SaveFileAs,
    ExitY,
}

/// What the caller must do after a key was handled.
#[derive(Clone, Copy, PartialEq, Eq, Structural, Debug)]
pub enum KeyAction {
    /// Keep going; repaint according to the current mode.
    Done,
    /// Leave the editor.
    Quit,
    /// Write the buffer's lines to its associated file name.
    SaveFile,
    /// Write the buffer's lines to the name the prompt collected (the
    /// controller's `input`); on success report back with `finish_save_as`.
    SaveFileAs,
}

/// What the caller must do after a scripted command was applied.
#[derive(Clone, Copy, PartialEq, Eq, Structural, Debug)]
pub enum ScriptAction {
    /// The command is fully applied; go on with the next one.
    Done,
    /// Halt the script.
    Stop,
    /// Read the file named by the command's argument and hand its lines to
    /// `open_lines`.
    OpenFile,
    /// Write the buffer's lines to its associated file name.
    SaveFile,
    /// Write the buffer's lines to the command's argument; on success
    /// report back with `set_saved_name`.
    SaveFileAs,
}

/// Abstract state of the whole controller.
pub ghost struct EdModel {
    pub buf: BufModel,
    pub status: StatusModel,
    pub prompt: PromptModel,
    pub input: Seq<char>,
    pub mode: EditMode,
    pub after: AfterPrompt,
    pub changed: bool,
}

/// The three windows of a controller state are well formed.
pub open spec fn wins_wf(m: EdModel) -> bool {
    &&& win_wf(m.buf.win)
    &&& win_wf(m.status.win)
    &&& win_wf(m.prompt.win)
}

pub open spec fn save_as_caption() -> Seq<char> {
    "File Save As: "@
}

pub open spec fn exit_caption() -> Seq<char> {
    "File is modified. Exit? [Y/n]"@
}

pub open spec fn new_file_caption() -> Seq<char> {
    "[NEW FILE]"@
}

/// Switch to the prompt mode that collects a save-as file name.
pub open spec fn enter_save_as_spec(m: EdModel) -> EdModel {
    EdModel {
        mode: EditMode::Prompt,
        after: AfterPrompt::SaveFileAs,
        prompt: prompt_set_spec(m.prompt, save_as_caption()),
        ..m
    }
}

/// One key handled in `Editor` mode.
pub open spec fn step_editing(m: EdModel, k: Key) -> (EdModel, KeyAction) {
    match k {
        Key::Ctrl(c) => {
            if c == 'c' {
                if m.changed {
                    (
                        EdModel {
                            mode: EditMode::OneKeyInput,
                            after: AfterPrompt::ExitY,
                            prompt: prompt_set_spec(m.prompt, exit_caption()),
                            ..m
                        },
                        KeyAction::Done,
                    )
                } else {
                    (m, KeyAction::Quit)
                }
            } else if c == 's' {
                let m1 = EdModel {
                    changed: false,
                    status: StatusModel { changed: false, ..m.status },
                    ..m
                };
                if m.buf.file_name.len() == 0 {
                    (enter_save_as_spec(m1), KeyAction::Done)
                } else {
                    (m1, KeyAction::SaveFile)
                }
            } else if c == 'a' {
                (enter_save_as_spec(m), KeyAction::Done)
            } else {
                (m, KeyAction::Done)
            }
        },
        Key::PageDown => (EdModel { buf: scrollup_spec(m.buf, 1), ..m }, KeyAction::Done),
        Key::PageUp => (EdModel { buf: scrolldown_spec(m.buf, 1), ..m }, KeyAction::Done),
        Key::Insert => (
            EdModel {
                status: StatusModel { insert_mode: !m.status.insert_mode, ..m.status },
                ..m
            },
            KeyAction::Done,
        ),
        Key::Down => (EdModel { buf: cursor_down_spec(m.buf), ..m }, KeyAction::Done),
        Key::Up => (EdModel { buf: cursor_up_spec(m.buf), ..m }, KeyAction::Done),
        Key::Left => (EdModel { buf: cursor_left_spec(m.buf), ..m }, KeyAction::Done),
        Key::Right => (EdModel { buf: cursor_right_spec(m.buf), ..m }, KeyAction::Done),
        Key::Delete => (
            EdModel {
                buf: delete_char_spec(m.buf),
                changed: true,
                status: StatusModel { changed: true, ..m.status },
                ..m
            },
            KeyAction::Done,
        ),
        Key::Char(c) => {
            let b = if c == '\n' {
                if m.status.insert_mode {
                    insert_newline_spec(m.buf)
                } else {
                    m.buf
                }
            } else {
                if m.status.insert_mode {
                    insert_char_spec(m.buf, c)
                } else {
                    replace_char_spec(m.buf, c)
                }
            };
            (
                EdModel {
                    buf: b,
                    changed: true,
                    status: StatusModel { changed: true, ..m.status },
                    ..m
                },
                KeyAction::Done,
            )
        },
        _ => (m, KeyAction::Done),
    }
}

/// One key handled in `Prompt` mode.
pub open spec fn step_prompt(m: EdModel, k: Key) -> (EdModel, KeyAction) {
    match k {
        Key::Ctrl(c) => {
            if c == 'c' {
                (EdModel { mode: EditMode::Editor, ..m }, KeyAction::Done)
            } else {
                (m, KeyAction::Done)
            }
        },
        Key::Backspace => (
            EdModel { prompt: prompt_backspace_spec(m.prompt), ..m },
            KeyAction::Done,
        ),
        Key::Char(c) => {
            if c == '\n' {
                let m1 = EdModel {
                    mode: EditMode::Editor,
                    input: m.prompt.result,
                    prompt: prompt_clear_spec(m.prompt),
                    after: AfterPrompt::Nothing,
                    ..m
                };
                if m.after is SaveFileAs {
                    (m1, KeyAction::SaveFileAs)
                } else {
                    (m1, KeyAction::Done)
                }
            } else {
                (EdModel { prompt: prompt_push_spec(m.prompt, c), ..m }, KeyAction::Done)
            }
        },
        _ => (m, KeyAction::Done),
    }
}

/// One key handled in `OneKeyInput` mode.
pub open spec fn step_onekey(m: EdModel, k: Key) -> (EdModel, KeyAction) {
    match k {
        Key::Ctrl(c) => {
            if c == 'c' {
                (
                    EdModel {
                        mode: EditMode::Editor,
                        prompt: prompt_clear_spec(prompt_set_spec(m.prompt, ""@)),
                        ..m
                    },
                    KeyAction::Done,
                )
            } else {
                (m, KeyAction::Done)
            }
        },
        Key::Char(c) => {
            if m.after is ExitY {
                if c == 'y' || c == '\n' {
                    (m, KeyAction::Quit)
                } else {
                    (
                        EdModel {
                            mode: EditMode::Editor,
                            prompt: prompt_clear_spec(prompt_set_spec(m.prompt, ""@)),
                            ..m
                        },
                        KeyAction::Done,
                    )
                }
            } else {
                (m, KeyAction::Done)
            }
        },
        _ => (m, KeyAction::Done),
    }
}

/// The modal state machine: one key event routed by the current mode.
pub open spec fn editor_step_spec(m: EdModel, k: Key) -> (EdModel, KeyAction) {
    match m.mode {
        EditMode::Editor => step_editing(m, k),
        EditMode::Prompt => step_prompt(m, k),
        EditMode::OneKeyInput => step_onekey(m, k),
    }
}

/// The effect of one scripted command on the controller, and what outside
/// work the caller must still do to complete it. A script may start before
/// any buffer exists; until a `new_buffer` or `open_file` command has
/// populated one, a command that reads the buffer leaves the state alone.
pub open spec fn script_step_spec(m: EdModel, name: Seq<char>, argstr: Seq<char>) -> (
    EdModel,
    ScriptAction,
) {
    if name == "new_buffer"@ {
        (
            EdModel {
                buf: new_buffer_spec(m.buf),
                status: StatusModel { file_name: new_file_caption(), ..m.status },
                ..m
            },
            ScriptAction::Done,
        )
    } else if name == "open_file"@ {
        (m, ScriptAction::OpenFile)
    } else if name == "save_file_as"@ {
        (m, ScriptAction::SaveFileAs)
    } else if name == "save_file"@ {
        (m, ScriptAction::SaveFile)
    } else if name == "cursor_up"@ {
        if m.buf.lines.len() > 0 {
            (EdModel { buf: cursor_up_spec(m.buf), ..m }, ScriptAction::Done)
        } else {
            (m, ScriptAction::Done)
        }
    } else if name == "cursor_down"@ {
        if m.buf.lines.len() > 0 {
            (EdModel { buf: cursor_down_spec(m.buf), ..m }, ScriptAction::Done)
        } else {
            (m, ScriptAction::Done)
        }
    } else if name == "cursor_left"@ {
        if m.buf.lines.len() > 0 {
            (EdModel { buf: cursor_left_spec(m.buf), ..m }, ScriptAction::Done)
        } else {
            (m, ScriptAction::Done)
        }
    } else if name == "cursor_right"@ {
        if m.buf.lines.len() > 0 {
            (EdModel { buf: cursor_right_spec(m.buf), ..m }, ScriptAction::Done)
        } else {
            (m, ScriptAction::Done)
        }
    } else if name == "insert_char"@ {
        if argstr.len() > 0 && m.buf.lines.len() > 0 {
            (EdModel { buf: insert_char_spec(m.buf, argstr[0]), ..m }, ScriptAction::Done)
        } else {
            (m, ScriptAction::Done)
        }
    } else if name == "break"@ {
        (m, ScriptAction::Stop)
    } else {
        (m, ScriptAction::Done)
    }
}

/// The scripted command names are pairwise distinct, so each one selects
/// exactly its own dispatch arm of `script_step_spec`.
proof fn lemma_command_names_distinct()
    ensures
        "cursor_up"@ != "new_buffer"@,
        "cursor_up"@ != "open_file"@,
        "cursor_up"@ != "save_file_as"@,
        "cursor_up"@ != "save_file"@,
        "cursor_down"@ != "new_buffer"@,
        "cursor_down"@ != "open_file"@,
        "cursor_down"@ != "save_file_as"@,
        "cursor_down"@ != "save_file"@,
        "cursor_down"@ != "cursor_up"@,
        "cursor_left"@ != "new_buffer"@,
        "cursor_left"@ != "open_file"@,
        "cursor_left"@ != "save_file_as"@,
        "cursor_left"@ != "save_file"@,
        "cursor_left"@ != "cursor_up"@,
        "cursor_left"@ != "cursor_down"@,
        "cursor_right"@ != "new_buffer"@,
        "cursor_right"@ != "open_file"@,
        "cursor_right"@ != "save_file_as"@,
        "cursor_right"@ != "save_file"@,
        "cursor_right"@ != "cursor_up"@,
        "cursor_right"@ != "cursor_down"@,
        "cursor_right"@ != "cursor_left"@,
        "insert_char"@ != "new_buffer"@,
        "insert_char"@ != "open_file"@,
        "insert_char"@ != "save_file_as"@,
        "insert_char"@ != "save_file"@,
        "insert_char"@ != "cursor_up"@,
        "insert_char"@ != "cursor_down"@,
        "insert_char"@ != "cursor_left"@,
        "insert_char"@ != "cursor_right"@,
{
    reveal_strlit("new_buffer");
    reveal_strlit("open_file");
    reveal_strlit("save_file_as");
    reveal_strlit("save_file");
    reveal_strlit("cursor_up");
    reveal_strlit("cursor_down");
    reveal_strlit("cursor_left");
    reveal_strlit("cursor_right");
    reveal_strlit("insert_char");
    assert("new_buffer"@.len() == 10);
    assert("open_file"@.len() == 9);
    assert("save_file_as"@.len() == 12);
    assert("save_file"@.len() == 9);
    assert("cursor_up"@.len() == 9);
    assert("cursor_down"@.len() == 11);
    assert("cursor_left"@.len() == 11);
    assert("cursor_right"@.len() == 12);
    assert("insert_char"@.len() == 11);
    assert("cursor_up"@[0] == 'c' && "open_file"@[0] == 'o' && "save_file"@[0] == 's');
    assert("insert_char"@[0] == 'i' && "cursor_down"@[0] == 'c' && "cursor_left"@[0] == 'c');
    assert("cursor_down"@[7] == 'd' && "cursor_left"@[7] == 'l');
    assert("cursor_right"@[0] == 'c' && "save_file_as"@[0] == 's');
}

/// A scripted command and the matching key event drive the buffer through
/// the same transition: the macro path is a drop-in substitute for the
/// key-event path.
pub proof fn lemma_macro_matches_keys(m: EdModel, c: char)
    requires
        m.mode is Editor,
        m.status.insert_mode,
        m.buf.lines.len() > 0,
        c != '\n',
    ensures
        script_step_spec(m, "insert_char"@, seq![c]).0.buf == editor_step_spec(
            m,
            Key::Char(c),
        ).0.buf,
        script_step_spec(m, "cursor_up"@, ""@).0.buf == editor_step_spec(m, Key::Up).0.buf,
        script_step_spec(m, "cursor_down"@, ""@).0.buf == editor_step_spec(m, Key::Down).0.buf,
        script_step_spec(m, "cursor_left"@, ""@).0.buf == editor_step_spec(m, Key::Left).0.buf,
        script_step_spec(m, "cursor_right"@, ""@).0.buf == editor_step_spec(m, Key::Right).0.buf,
{
    lemma_command_names_distinct();
    assert(seq![c].len() == 1 && seq![c][0] == c);
}

/// A command that drives the buffer alone: one of the four cursor moves,
/// or the insertion of an ordinary character.
pub open spec fn pure_command(name: Seq<char>, argstr: Seq<char>) -> bool {
    ||| name == "cursor_up"@
    ||| name == "cursor_down"@
    ||| name == "cursor_left"@
    ||| name == "cursor_right"@
    ||| (name == "insert_char"@ && argstr.len() > 0 && argstr[0] != '\n')
}

/// The key event that matches a pure scripted command.
pub open spec fn command_key(name: Seq<char>, argstr: Seq<char>) -> Key {
    if name == "cursor_up"@ {
        Key::Up
    } else if name == "cursor_down"@ {
        Key::Down
    } else if name == "cursor_left"@ {
        Key::Left
    } else if name == "cursor_right"@ {
        Key::Right
    } else {
        Key::Char(argstr[0])
    }
}

/// The key events matching a list of pure scripted commands, one each.
pub open spec fn command_keys(cmds: Seq<(Seq<char>, Seq<char>)>) -> Seq<Key> {
    Seq::new(cmds.len(), |i: int| command_key(cmds[i].0, cmds[i].1))
}

/// The controller state after a whole list of scripted commands.
pub open spec fn run_script_model(m: EdModel, cmds: Seq<(Seq<char>, Seq<char>)>) -> EdModel
    decreases cmds.len(),
{
    if cmds.len() == 0 {
        m
    } else {
        run_script_model(script_step_spec(m, cmds[0].0, cmds[0].1).0, cmds.drop_first())
    }
}

/// The controller state after a whole list of key events.
pub open spec fn run_keys_model(m: EdModel, ks: Seq<Key>) -> EdModel
    decreases ks.len(),
{
    if ks.len() == 0 {
        m
    } else {
        run_keys_model(editor_step_spec(m, ks[0]).0, ks.drop_first())
    }
}

/// Replaying any list of pure buffer commands produces exactly the buffer
/// that issuing the matching key events through the interactive editing
/// mode produces: the macro path is a drop-in substitute for the key-event
/// path, both driving the identical buffer transitions.
pub proof fn lemma_script_matches_keys(m1: EdModel, m2: EdModel, cmds: Seq<(Seq<char>, Seq<char>)>)
    requires
        m1.buf == m2.buf,
        m1.mode is Editor,
        m2.mode is Editor,
        m1.status.insert_mode,
        m2.status.insert_mode,
        buf_wf(m1.buf),
        forall|i: int| 0 <= i < cmds.len() ==> #[trigger] pure_command(cmds[i].0, cmds[i].1),
    ensures
        run_script_model(m1, cmds).buf == run_keys_model(m2, command_keys(cmds)).buf,
    decreases cmds.len(),
{
    lemma_command_names_distinct();
    if cmds.len() > 0 {
        let name = cmds[0].0;
        let argstr = cmds[0].1;
        let c0 = if argstr.len() > 0 {
            argstr[0]
        } else {
            ' '
        };
        lemma_moves_preserve_wf(m1.buf, c0);
        let key = command_key(name, argstr);
        let s1 = script_step_spec(m1, name, argstr).0;
        let s2 = editor_step_spec(m2, key).0;
        assert(pure_command(name, argstr));
        assert(s1.buf == s2.buf && buf_wf(s1.buf));
        lemma_script_matches_keys(s1, s2, cmds.drop_first());
        assert(command_keys(cmds).drop_first() =~= command_keys(cmds.drop_first()));
        assert(run_keys_model(m2, command_keys(cmds)) == run_keys_model(
            s2,
            command_keys(cmds).drop_first(),
        ));
    }
}

/// The modal editor controller: one edit buffer, one status line, one
/// prompt line, and the dispatch state that routes key events to them.
pub struct Editor {
    buf: EditBuffer,
    status: StatusBar,
    prompt: Prompt,
    input: String,
    edit_mode: EditMode,
    after_prompt: AfterPrompt,
    changed: bool,
}

impl View for Editor {
    type V = EdModel;

    closed spec fn view(&self) -> EdModel {
        EdModel {
            buf: self.buf@,
            status: self.status@,
            prompt: self.prompt@,
            input: self.input@,
            mode: self.edit_mode,
            after: self.after_prompt,
            changed: self.changed,
        }
    }
}

impl Editor {
    pub closed spec fn wf(&self) -> bool {
        &&& self.buf.wf()
        &&& win_wf(self@.status.win)
        &&& win_wf(self@.prompt.win)
    }

    /// The abstract state is well formed whenever the controller is.
    pub proof fn lemma_wf(&self)
        requires
            self.wf(),
        ensures
            buf_wf(self@.buf),
            wins_wf(self@),
    {
        self.buf.lemma_wf();
    }

    pub fn new(win: Window, status: StatusBar, prompt: Prompt) -> (r: Self)
        requires
            win.wf(),
            status.wf(),
            prompt.wf(),
        ensures
            r@.buf.lines.len() == 0,
            r@.buf.begin == 0,
            r@.buf.cur_x == 0,
            r@.buf.cur_y == 0,
            r@.buf.file_name.len() == 0,
            r@.buf.win == win@,
            r@.status == status@,
            r@.prompt == prompt@,
            r@.input.len() == 0,
            r@.mode is Editor,
            r@.after is Nothing,
            !r@.changed,
            wins_wf(r@),
    {
        Editor {
            buf: EditBuffer::new(win),
            status,
            prompt,
            input: String::new(),
            edit_mode: EditMode::Editor,
            after_prompt: AfterPrompt::Nothing,
            changed: false,
        }
    }

    /// Start a session on a fresh, unnamed buffer.
    pub fn init_new_buffer(&mut self)
        requires
            old(self).wf() || wins_wf(old(self)@),
        ensures
            final(self).wf(),
            final(self)@ == (EdModel {
                buf: new_buffer_spec(old(self)@.buf),
                status: StatusModel { file_name: new_file_caption(), ..old(self)@.status },
                ..old(self)@
            }),
    {
        proof {
            if old(self).wf() {
                old(self).lemma_wf();
            }
        }
        self.buf.new_buffer();
        self.status.set_file_name("[NEW FILE]");
    }

    /// Start a session on a fresh buffer already associated with a file
    /// name: a new file that does not exist yet.
    pub fn init_new_file(&mut self, file_name: &str)
        requires
            old(self).wf() || wins_wf(old(self)@),
        ensures
            final(self).wf(),
            final(self)@ == (EdModel {
                buf: BufModel { file_name: file_name@, ..new_buffer_spec(old(self)@.buf) },
                status: StatusModel { file_name: file_name@, ..old(self)@.status },
                ..old(self)@
            }),
    {
        proof {
            if old(self).wf() {
                old(self).lemma_wf();
            }
        }
        self.buf.new_buffer();
        self.buf.set_file_name(file_name);
        self.status.set_file_name(file_name);
    }

    /// Take over the lines read from a file and show its name in the
    /// status line, as opening a file does.
    pub fn open_lines(&mut self, lines: Vec<Option<Vec<char>>>, file_name: &str)
        requires
            old(self).wf() || (wins_wf(old(self)@) && old(self)@.buf.lines.len() == 0 && old(
                self,
            )@.buf.cur_y == 0),
        ensures
            final(self).wf(),
            final(self)@ == (EdModel {
                buf: load_lines_spec(old(self)@.buf, line_views(lines@), file_name@),
                status: StatusModel { file_name: file_name@, ..old(self)@.status },
                ..old(self)@
            }),
    {
        proof {
            if old(self).wf() {
                old(self).lemma_wf();
            }
        }
        self.buf.load_lines(lines, file_name);
        self.status.set_file_name(file_name);
    }

    /// Record the outcome of an interactive save-as: on success the buffer
    /// takes the name the prompt collected; either way the status caption
    /// is refreshed from the buffer's file name, so a failed save-as shows
    /// the (unchanged) old name.
    pub fn finish_save_as(&mut self, ok: bool)
        requires
            old(self).wf(),
        ensures
            final(self).wf(),
            final(self)@ == (if ok {
                EdModel {
                    buf: BufModel { file_name: old(self)@.input, ..old(self)@.buf },
                    status: StatusModel { file_name: old(self)@.input, ..old(self)@.status },
                    ..old(self)@
                }
            } else {
                EdModel {
                    status: StatusModel {
                        file_name: old(self)@.buf.file_name,
                        ..old(self)@.status
                    },
                    ..old(self)@
                }
            }),
    {
        if ok {
            self.buf.set_file_name(self.input.as_str());
        }
        self.status.set_file_name(self.buf.file_name());
    }

    /// Record that the buffer was written under `name` by a scripted
    /// save-as; the scripted path leaves the status caption alone.
    pub fn set_saved_name(&mut self, name: &str)
        requires
            old(self).wf(),
        ensures
            final(self).wf(),
            final(self)@ == (EdModel {
                buf: BufModel { file_name: name@, ..old(self)@.buf },
                ..old(self)@
            }),
    {
        self.buf.set_file_name(name);
    }

    pub fn buf(&self) -> (r: &EditBuffer)
        ensures
            r@ == self@.buf,
    {
        &self.buf
    }

    pub fn status(&self) -> (r: &StatusBar)
        ensures
            r@ == self@.status,
    {
        &self.status
    }

    pub fn prompt(&self) -> (r: &Prompt)
        ensures
            r@ == self@.prompt,
    {
        &self.prompt
    }

    pub fn edit_mode(&self) -> (r: EditMode)
        ensures
            r == self@.mode,
    {
        self.edit_mode
    }

    pub fn changed(&self) -> (r: bool)
        ensures
            r == self@.changed,
    {
        self.changed
    }

    /// The answer the prompt last collected.
    pub fn input(&self) -> (r: &str)
        ensures
            r@ == self@.input,
    {
        self.input.as_str()
    }

    /// Route one key event according to the current mode.
    pub fn handle_key(&mut self, k: Key) -> (r: KeyAction)
        requires
            old(self).wf(),
        ensures
            final(self).wf(),
            final(self)@ == editor_step_spec(old(self)@, k).0,
            r == editor_step_spec(old(self)@, k).1,
    {
        match self.edit_mode {
            EditMode::Editor => self.handle_key_editing(k),
            EditMode::Prompt => self.handle_key_prompt(k),
            EditMode::OneKeyInput => self.handle_key_onekey(k),
        }
    }

    fn handle_key_editing(&mut self, k: Key) -> (r: KeyAction)
        requires
            old(self).wf(),
            old(self)@.mode is Editor,
        ensures
            final(self).wf(),
            final(self)@ == step_editing(old(self)@, k).0,
            r == step_editing(old(self)@, k).1,
    {
        proof {
            old(self).lemma_wf();
        }
        match k {
            Key::Ctrl(c) => {
                if c == 'c' {
                    if self.changed {
                        self.edit_mode = EditMode::OneKeyInput;
                        self.prompt.set_prompt("File is modified. Exit? [Y/n]");
                        self.after_prompt = AfterPrompt::ExitY;
                        KeyAction::Done
                    } else {
                        KeyAction::Quit
                    }
                } else if c == 's' {
                    let no_name = self.buf.save_target().is_err();
                    self.changed = false;
                    self.status.set_changed(false);
                    if no_name {
                        self.edit_mode = EditMode::Prompt;
                        self.prompt.set_prompt("File Save As: ");
                        self.after_prompt = AfterPrompt::SaveFileAs;
                        KeyAction::Done
                    } else {
                        KeyAction::SaveFile
                    }
                } else if c == 'a' {
                    self.edit_mode = EditMode::Prompt;
                    self.prompt.set_prompt("File Save As: ");
                    self.after_prompt = AfterPrompt::SaveFileAs;
                    KeyAction::Done
                } else {
                    KeyAction::Done
                }
            },
            Key::PageDown => {
                self.buf.scrollup(1);
                KeyAction::Done
            },
            Key::PageUp => {
                self.buf.scrolldown(1);
                KeyAction::Done
            },
            Key::Insert => {
                self.status.toggle_insert_mode();
                KeyAction::Done
            },
            Key::Down => {
                let _ = self.buf.cursor_down();
                KeyAction::Done
            },
            Key::Up => {
                let _ = self.buf.cursor_up();
                KeyAction::Done
            },
            Key::Left => {
                let _ = self.buf.cursor_left();
                KeyAction::Done
            },
            Key::Right => {
                let _ = self.buf.cursor_right();
                KeyAction::Done
            },
            Key::Delete => {
                self.buf.delete_char();
                self.changed = true;
                self.status.set_changed(true);
                KeyAction::Done
            },
            Key::Char(c) => {
                if c == '\n' {
                    if self.status.insert_mode_flag() {
                        self.buf.insert_newline();
                    }
                } else {
                    if self.status.insert_mode_flag() {
                        self.buf.insert_char(c);
                    } else {
                        self.buf.replace_char(c);
                    }
                }
                self.changed = true;
                self.status.set_changed(true);
                KeyAction::Done
            },
            _ => KeyAction::Done,
        }
    }

    fn handle_key_prompt(&mut self, k: Key) -> (r: KeyAction)
        requires
            old(self).wf(),
            old(self)@.mode is Prompt,
        ensures
            final(self).wf(),
            final(self)@ == step_prompt(old(self)@, k).0,
            r == step_prompt(old(self)@, k).1,
    {
        proof {
            old(self).lemma_wf();
        }
        match k {
            Key::Ctrl(c) => {
                if c == 'c' {
                    self.edit_mode = EditMode::Editor;
                }
                KeyAction::Done
            },
            Key::Backspace => {
                self.prompt.backspace();
                KeyAction::Done
            },
            Key::Char(c) => {
                if c == '\n' {
                    self.edit_mode = EditMode::Editor;
                    self.input = self.prompt.result().to_owned();
                    self.prompt.clear();
                    let save_as = match self.after_prompt {
                        AfterPrompt::SaveFileAs => true,
                        _ => false,
                    };
                    self.after_prompt = AfterPrompt::Nothing;
                    if save_as {
                        KeyAction::SaveFileAs
                    } else {
                        KeyAction::Done
                    }
                } else {
                    self.prompt.push(c);
                    KeyAction::Done
                }
            },
            _ => KeyAction::Done,
        }
    }

    fn handle_key_onekey(&mut self, k: Key) -> (r: KeyAction)
        requires
            old(self).wf(),
            old(self)@.mode is OneKeyInput,
        ensures
            final(self).wf(),
            final(self)@ == step_onekey(old(self)@, k).0,
            r == step_onekey(old(self)@, k).1,
    {
        proof {
            old(self).lemma_wf();
        }
        match k {
            Key::Ctrl(c) => {
                if c == 'c' {
                    self.edit_mode = EditMode::Editor;
                    self.prompt.set_prompt("");
                    self.prompt.clear();
                }
                KeyAction::Done
            },
            Key::Char(c) => {
                match self.after_prompt {
                    AfterPrompt::ExitY => {
                        if c == 'y' || c == '\n' {
                            KeyAction::Quit
                        } else {
                            self.edit_mode = EditMode::Editor;
                            self.prompt.set_prompt("");
                            self.prompt.clear();
                            KeyAction::Done
                        }
                    },
                    _ => KeyAction::Done,
                }
            },
            _ => KeyAction::Done,
        }
    }

    /// Apply one scripted command to the same buffer and status line the
    /// interactive path uses, in order, with no branching of its own. File
    /// commands hand their outside work back to the caller. A script may
    /// start on a freshly constructed editor, before any buffer exists.
    pub fn run_script_step(&mut self, cmd: &MacroCommand) -> (r: ScriptAction)
        requires
            old(self).wf() || (wins_wf(old(self)@) && old(self)@.buf.lines.len() == 0 && old(
                self,
            )@.buf.cur_y == 0),
        ensures
            final(self).wf() || (wins_wf(final(self)@) && final(self)@.buf.lines.len() == 0
                && final(self)@.buf.cur_y == 0),
            old(self).wf() ==> final(self).wf(),
            cmd.name@ == "new_buffer"@ ==> final(self).wf(),
            final(self)@ == script_step_spec(old(self)@, cmd.name@, cmd.argstr@).0,
            r == script_step_spec(old(self)@, cmd.name@, cmd.argstr@).1,
    {
        proof {
            if old(self).wf() {
                old(self).lemma_wf();
            }
        }
        if str_eq(cmd.name.as_str(), "new_buffer") {
            self.init_new_buffer();
            ScriptAction::Done
        } else if str_eq(cmd.name.as_str(), "open_file") {
            ScriptAction::OpenFile
        } else if str_eq(cmd.name.as_str(), "save_file_as") {
            ScriptAction::SaveFileAs
        } else if str_eq(cmd.name.as_str(), "save_file") {
            ScriptAction::SaveFile
        } else if str_eq(cmd.name.as_str(), "cursor_up") {
            if self.buf.line_count() > 0 {
                let _ = self.buf.cursor_up();
            }
            ScriptAction::Done
        } else if str_eq(cmd.name.as_str(), "cursor_down") {
            if self.buf.line_count() > 0 {
                let _ = self.buf.cursor_down();
            }
            ScriptAction::Done
        } else if str_eq(cmd.name.as_str(), "cursor_left") {
            if self.buf.line_count() > 0 {
                let _ = self.buf.cursor_left();
            }
            ScriptAction::Done
        } else if str_eq(cmd.name.as_str(), "cursor_right") {
            if self.buf.line_count() > 0 {
                let _ = self.buf.cursor_right();
            }
            ScriptAction::Done
        } else if str_eq(cmd.name.as_str(), "insert_char") {
            if cmd.argstr.as_str().unicode_len() > 0 && self.buf.line_count() > 0 {
                let c = cmd.argstr.as_str().get_char(0);
                self.buf.insert_char(c);
            }
            ScriptAction::Done
        } else if str_eq(cmd.name.as_str(), "break") {
            ScriptAction::Stop
        } else {
            ScriptAction::Done
        }
    }
}

} // verus!
