use vstd::prelude::*;
use vstd::string::StringSliceAdditionalSpecFns;
use vstd::utf8::encode_utf8;

use crate::strutil::{string_pop, string_push};
use crate::widths::sat16;
use crate::window::{win_set_cur_x, win_wf, WinModel, Window};

verus! {

/// Abstract state of the prompt line: the caption, the collected answer,
/// the prompt-local cursor column and the window.
pub ghost struct PromptModel {
    pub prompt: Seq<char>,
    pub result: Seq<char>,
    pub cur_x: nat,
    pub win: WinModel,
}

/// Show a new caption and place the prompt-line cursor after it, at the
/// caption's byte length (the length `str::len` reports).
pub open spec fn prompt_set_spec(p: PromptModel, s: Seq<char>) -> PromptModel {
    let n = encode_utf8(s).len();
    PromptModel { prompt: s, cur_x: n, win: win_set_cur_x(p.win, sat16(n)), ..p }
}

/// Forget the collected answer and put the prompt-line cursor back at the
/// left edge.
pub open spec fn prompt_clear_spec(p: PromptModel) -> PromptModel {
    PromptModel { result: Seq::empty(), cur_x: 0, win: win_set_cur_x(p.win, 0), ..p }
}

/// Drop the last character of the collected answer; on an empty answer
/// nothing changes.
pub open spec fn prompt_backspace_spec(p: PromptModel) -> PromptModel {
    if p.result.len() > 0 {
        PromptModel { result: p.result.drop_last(), ..p }
    } else {
        p
    }
}

/// Append one character to the collected answer, advancing both the
/// prompt-local cursor and the window cursor by one cell.
pub open spec fn prompt_push_spec(p: PromptModel, c: char) -> PromptModel {
    PromptModel {
        result: p.result.push(c),
        cur_x: if p.cur_x < usize::MAX {
            (p.cur_x + 1) as nat
        } else {
            p.cur_x
        },
        win: win_set_cur_x(p.win, p.win.cur_x + 1),
        ..p
    }
}

/// Prompt line widget: shows a caption and collects a one-line text answer.
pub struct Prompt {
    prompt: String,
    result: String,
    window: Window,
    cur_x: usize,
}

impl View for Prompt {
    type V = PromptModel;

    closed spec fn view(&self) -> PromptModel {
        PromptModel {
            prompt: self.prompt@,
            result: self.result@,
            cur_x: self.cur_x as nat,
            win: self.window@,
        }
    }
}

impl Prompt {
    pub open spec fn wf(&self) -> bool {
        win_wf(self@.win)
    }

    pub fn new(window: Window) -> (r: Self)
        requires
            window.wf(),
        ensures
            r.wf(),
            r@.prompt.len() == 0,
            r@.result.len() == 0,
            r@.cur_x == 0,
            r@.win == window@,
    {
        Prompt { prompt: String::new(), result: String::new(), window, cur_x: 0 }
    }

    /// Forget the collected answer and put the prompt-line cursor back at
    /// the left edge; painting the cleared line is the caller's business.
    pub fn clear(&mut self)
        ensures
            final(self)@ == prompt_clear_spec(old(self)@),
    {
        self.result = String::new();
        self.cur_x = 0;
        self.window.set_cur_x(0);
        proof {
            assert(self@.result =~= Seq::<char>::empty());
        }
    }

    /// Show a new caption and place the prompt-line cursor after it, at the
    /// caption's byte length.
    pub fn set_prompt(&mut self, prompt_str: &str)
        ensures
            final(self)@ == prompt_set_spec(old(self)@, prompt_str@),
    {
        self.prompt = prompt_str.to_owned();
        self.cur_x = prompt_str.as_bytes().len();
        proof {
            assert(prompt_str.spec_bytes() == encode_utf8(prompt_str@));
        }
        let c16: u16 = if self.cur_x <= u16::MAX as usize {
            self.cur_x as u16
        } else {
            u16::MAX
        };
        self.window.set_cur_x(c16);
    }

    /// Drop the last character of the collected answer.
    pub fn backspace(&mut self)
        ensures
            final(self)@ == prompt_backspace_spec(old(self)@),
    {
        let _ = string_pop(&mut self.result);
    }

    /// Append one character to the collected answer, advancing the cursor
    /// one cell.
    pub fn push(&mut self, c: char)
        requires
            old(self).wf(),
        ensures
            final(self).wf(),
            final(self)@ == prompt_push_spec(old(self)@, c),
    {
        string_push(&mut self.result, c);
        if self.cur_x < usize::MAX {
            self.cur_x = self.cur_x + 1;
        }
        let cur_x = self.window.cur_x() + 1;
        self.window.set_cur_x(cur_x);
    }

    /// The caption currently shown.
    pub fn prompt_text(&self) -> (r: &str)
        ensures
            r@ == self@.prompt,
    {
        self.prompt.as_str()
    }

    /// The collected answer.
    pub fn result(&self) -> (r: &str)
        ensures
            r@ == self@.result,
    {
        self.result.as_str()
    }

    pub fn window(&self) -> (r: &Window)
        ensures
            r@ == self@.win,
    {
        &self.window
    }
}

} // verus!
