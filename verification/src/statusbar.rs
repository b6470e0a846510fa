use vstd::prelude::*;
use vstd::string::StrSliceExecFns;

use crate::window::{win_wf, WinModel, Window};

verus! {

/// Abstract state of the status line: the displayed file name, the
/// insert/overwrite flag, the unsaved-changes flag and the window.
pub ghost struct StatusModel {
    pub file_name: Seq<char>,
    pub insert_mode: bool,
    pub changed: bool,
    pub win: WinModel,
}

/// The character shown in cell `i` of a status bar of width `width`: the
/// insert/overwrite marker in the last three cells, the changed marker five
/// cells from the right edge, the file name from the left edge, spaces
/// elsewhere. The markers win over a long file name.
pub open spec fn bar_char(m: StatusModel, width: nat, i: int) -> char {
    if i + 3 == width {
        if m.insert_mode {
            'I'
        } else {
            'O'
        }
    } else if i + 2 == width {
        if m.insert_mode {
            'n'
        } else {
            'v'
        }
    } else if i + 1 == width {
        if m.insert_mode {
            's'
        } else {
            'r'
        }
    } else if i + 5 == width {
        if m.changed {
            '*'
        } else {
            ' '
        }
    } else if i < m.file_name.len() {
        m.file_name[i]
    } else {
        ' '
    }
}

/// Status line widget: a single-line display of the file name, the
/// unsaved-changes marker and the insert/overwrite mode.
pub struct StatusBar {
    file_name: String,
    insert_mode_flag: bool,
    window: Window,
    changed: bool,
}

impl View for StatusBar {
    type V = StatusModel;

    closed spec fn view(&self) -> StatusModel {
        StatusModel {
            file_name: self.file_name@,
            insert_mode: self.insert_mode_flag,
            changed: self.changed,
            win: self.window@,
        }
    }
}

impl StatusBar {
    pub open spec fn wf(&self) -> bool {
        win_wf(self@.win)
    }

    pub fn new(window: Window) -> (r: Self)
        requires
            window.wf(),
        ensures
            r.wf(),
            r@.file_name.len() == 0,
            r@.insert_mode,
            !r@.changed,
            r@.win == window@,
    {
        StatusBar { file_name: String::new(), insert_mode_flag: true, window, changed: false }
    }

    /// The text of the status line, one character per window cell.
    pub fn bar_text(&self) -> (r: Vec<char>)
        requires
            self.wf(),
        ensures
            r@.len() == self@.win.width,
            forall|i: int| 0 <= i < r@.len() ==> r@[i] == bar_char(self@, self@.win.width, i),
    {
        let w = self.window.width() as usize;
        let flen = self.file_name.as_str().unicode_len();
        let mut r: Vec<char> = Vec::new();
        for i in 0..w
            invariant
                w as nat == self@.win.width,
                w <= u16::MAX as usize,
                flen == self@.file_name.len(),
                r@.len() == i,
                forall|j: int| 0 <= j < i ==> r@[j] == bar_char(self@, self@.win.width, j),
        {
            let c: char = if i + 3 == w {
                if self.insert_mode_flag {
                    'I'
                } else {
                    'O'
                }
            } else if i + 2 == w {
                if self.insert_mode_flag {
                    'n'
                } else {
                    'v'
                }
            } else if i + 1 == w {
                if self.insert_mode_flag {
                    's'
                } else {
                    'r'
                }
            } else if i + 5 == w {
                if self.changed {
                    '*'
                } else {
                    ' '
                }
            } else if i < flen {
                self.file_name.as_str().get_char(i)
            } else {
                ' '
            };
            r.push(c);
        }
        r
    }

    /// Switch between insert and overwrite mode.
    pub fn toggle_insert_mode(&mut self)
        ensures
            final(self)@ == (StatusModel { insert_mode: !old(self)@.insert_mode, ..old(self)@ }),
    {
        if self.insert_mode_flag {
            self.insert_mode_flag = false;
        } else {
            self.insert_mode_flag = true;
        }
    }

    pub fn insert_mode_flag(&self) -> (r: bool)
        ensures
            r == self@.insert_mode,
    {
        self.insert_mode_flag
    }

    pub fn set_file_name(&mut self, file_name: &str)
        ensures
            final(self)@ == (StatusModel { file_name: file_name@, ..old(self)@ }),
    {
        self.file_name = file_name.to_owned();
    }

    pub fn set_changed(&mut self, changed: bool)
        ensures
            final(self)@ == (StatusModel { changed: changed, ..old(self)@ }),
    {
        self.changed = changed;
    }

    pub fn changed(self) -> (r: bool)
        ensures
            r == self@.changed,
    {
        self.changed
    }

    pub fn window(&self) -> (r: &Window)
        ensures
            r@ == self@.win,
    {
        &self.window
    }
}

} // verus!
