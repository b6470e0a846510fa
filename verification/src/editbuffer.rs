use vstd::prelude::*;

use crate::widths::{char_display_width, char_utf8_len, display_width, prefix_width, sat16, utf8_len};
use crate::window::{win_set_cur_x, win_set_cur_y, win_wf, Window};

verus! {

/// Abstract state of an edit buffer: the stored lines, the first visible
/// line, the buffer-coordinate cursor (character counting, 0-indexed), the
/// associated file name and the display window.
pub ghost struct BufModel {
    pub lines: Seq<Seq<char>>,
    pub begin: nat,
    pub cur_x: nat,
    pub cur_y: nat,
    pub file_name: Seq<char>,
    pub win: crate::window::WinModel,
}

/// A buffer is well formed when it holds at least one line, the cursor line
/// index is valid, and its window is well formed. The cursor column is not
/// constrained: every operation that reads the current line clamps it first.
pub open spec fn buf_wf(m: BufModel) -> bool {
    &&& m.lines.len() > 0
    &&& m.cur_y < m.lines.len()
    &&& win_wf(m.win)
}

/// The line under the cursor.
pub open spec fn cur_line(m: BufModel) -> Seq<char> {
    m.lines[m.cur_y as int]
}

/// A cursor column request clamped to the character count of the line.
pub open spec fn clamp_x(len: nat, x: nat) -> nat {
    if x <= len {
        x
    } else {
        len
    }
}

/// Cursor x set: any request is accepted and silently clamped to the
/// character count of the current line.
pub open spec fn set_cur_x_spec(m: BufModel, x: nat) -> BufModel {
    BufModel { cur_x: clamp_x(cur_line(m).len(), x), ..m }
}

/// Cursor y set: a request outside the buffer is silently ignored.
pub open spec fn set_cur_y_spec(m: BufModel, y: nat) -> BufModel {
    if y < m.lines.len() {
        BufModel { cur_y: y, ..m }
    } else {
        m
    }
}

/// Re-clamp the cursor column and recompute the window-local cursor cell:
/// the window column is the summed display width of the characters left of
/// the cursor (never the character index itself), and the window row is the
/// cursor line relative to the first visible line.
pub open spec fn update_win_cur_spec(m: BufModel) -> BufModel {
    let m1 = set_cur_x_spec(m, m.cur_x);
    let w1 = win_set_cur_x(m1.win, sat16(prefix_width(cur_line(m1), m1.cur_x as int)));
    let w2 = if m1.cur_y >= m1.begin {
        win_set_cur_y(w1, sat16((m1.cur_y - m1.begin) as nat))
    } else {
        w1
    };
    BufModel { win: w2, ..m1 }
}

/// Scroll the viewport down the buffer by `n` lines, carrying the cursor
/// along; a request that would push the first visible line past
/// `lines.len() - height` is a no-op.
pub open spec fn scrollup_spec(m: BufModel, n: nat) -> BufModel {
    if m.begin + n + m.win.height <= m.lines.len() {
        set_cur_y_spec(BufModel { begin: (m.begin + n) as nat, ..m }, (m.cur_y + n) as nat)
    } else {
        m
    }
}

/// Scroll the viewport up the buffer by `n` lines, carrying the cursor
/// along; a request that would make the first visible line negative is a
/// no-op.
pub open spec fn scrolldown_spec(m: BufModel, n: nat) -> BufModel {
    if m.begin >= n {
        let m1 = BufModel { begin: (m.begin - n) as nat, ..m };
        if m.cur_y >= n {
            set_cur_y_spec(m1, (m.cur_y - n) as nat)
        } else {
            m1
        }
    } else {
        m
    }
}

/// Move the cursor one line down, keeping its character index and clamping
/// it to the new line's character count; at the bottom edge of the viewport
/// the buffer scrolls by one line instead; at the last line the request is a
/// no-op.
pub open spec fn cursor_down_spec(m: BufModel) -> BufModel {
    if m.cur_y + 1 >= m.begin + m.win.height {
        update_win_cur_spec(scrollup_spec(m, 1))
    } else {
        update_win_cur_spec(set_cur_y_spec(m, (m.cur_y + 1) as nat))
    }
}

/// Move the cursor one line up, keeping its character index and clamping it
/// to the new line's character count; at the top edge of the viewport the
/// buffer scrolls by one line instead, with the same re-clamp afterwards.
pub open spec fn cursor_up_spec(m: BufModel) -> BufModel {
    if m.cur_y > m.begin {
        update_win_cur_spec(set_cur_y_spec(m, (m.cur_y - 1) as nat))
    } else {
        update_win_cur_spec(scrolldown_spec(m, 1))
    }
}

/// Move the cursor one character left; at the start of a line it crosses to
/// the end of the previous line (scrolling when that line is above the
/// viewport), unless already at the first line.
pub open spec fn cursor_left_spec(m: BufModel) -> BufModel {
    if m.cur_x > 0 {
        let m1 = set_cur_x_spec(m, (m.cur_x - 1) as nat);
        BufModel {
            win: win_set_cur_x(m1.win, sat16(prefix_width(cur_line(m1), m1.cur_x as int))),
            ..m1
        }
    } else if m.cur_y != 0 {
        if m.win.cur_y == 0 {
            let m1 = update_win_cur_spec(scrolldown_spec(m, 1));
            update_win_cur_spec(set_cur_x_spec(m1, cur_line(m1).len()))
        } else {
            let m1 = set_cur_y_spec(m, (m.cur_y - 1) as nat);
            update_win_cur_spec(set_cur_x_spec(m1, cur_line(m1).len()))
        }
    } else {
        m
    }
}

/// Move the cursor one character right; at the end of a line it crosses to
/// the start of the next line (scrolling when the cursor sits on the last
/// viewport row), unless already at the last line of the buffer, in which
/// case the request is a no-op.
pub open spec fn cursor_right_spec(m: BufModel) -> BufModel {
    if m.cur_x >= cur_line(m).len() {
        if m.cur_y + 1 < m.lines.len() {
            if m.win.cur_y + 1 >= m.win.height {
                update_win_cur_spec(set_cur_x_spec(scrollup_spec(m, 1), 0))
            } else {
                update_win_cur_spec(set_cur_x_spec(set_cur_y_spec(m, (m.cur_y + 1) as nat), 0))
            }
        } else {
            m
        }
    } else {
        let m1 = set_cur_x_spec(m, (m.cur_x + 1) as nat);
        BufModel {
            win: win_set_cur_x(m1.win, sat16(prefix_width(cur_line(m1), m1.cur_x as int))),
            ..m1
        }
    }
}

/// Overwrite the character at the (re-clamped) cursor in place, without
/// advancing the cursor; when no character stands at the cursor — the line
/// is empty or the cursor sits at its end — the request is a no-op.
pub open spec fn replace_char_spec(m: BufModel, c: char) -> BufModel {
    let m1 = set_cur_x_spec(m, m.cur_x);
    let m2 = if m1.cur_x < cur_line(m1).len() {
        BufModel {
            lines: m1.lines.update(m1.cur_y as int, cur_line(m1).update(m1.cur_x as int, c)),
            ..m1
        }
    } else {
        m1
    };
    update_win_cur_spec(m2)
}

/// Insert a character at the (re-clamped) cursor and advance the cursor by
/// one character; on an empty line the line becomes that single character.
pub open spec fn insert_char_spec(m: BufModel, c: char) -> BufModel {
    let m1 = set_cur_x_spec(m, m.cur_x);
    let m2 = if cur_line(m1).len() > 0 {
        BufModel {
            lines: m1.lines.update(m1.cur_y as int, cur_line(m1).insert(m1.cur_x as int, c)),
            cur_x: (m1.cur_x + 1) as nat,
            ..m1
        }
    } else {
        BufModel { lines: m1.lines.update(m1.cur_y as int, seq![c]), cur_x: 1 as nat, ..m1 }
    };
    update_win_cur_spec(m2)
}

/// Split the current line at the cursor into two lines (an empty or
/// end-of-line cursor appends a new empty line instead) and move the cursor
/// to column 0 of the new line; a cursor past the end of a non-empty line
/// leaves the text unchanged.
pub open spec fn insert_newline_spec(m: BufModel) -> BufModel {
    let line = cur_line(m);
    let m2 = if m.cur_x < line.len() {
        BufModel {
            lines: m.lines.update(m.cur_y as int, line.take(m.cur_x as int)).insert(
                m.cur_y as int + 1,
                line.skip(m.cur_x as int),
            ),
            cur_x: 0 as nat,
            cur_y: (m.cur_y + 1) as nat,
            ..m
        }
    } else if line.len() == 0 || m.cur_x == line.len() {
        BufModel {
            lines: m.lines.insert(m.cur_y as int + 1, Seq::<char>::empty()),
            cur_x: 0 as nat,
            cur_y: (m.cur_y + 1) as nat,
            ..m
        }
    } else {
        m
    };
    update_win_cur_spec(m2)
}

/// Forward delete: remove the character at the cursor; on an empty line
/// remove the line itself (keeping the last line of the buffer, and the
/// cursor line index valid); at the end of a non-empty line append the next
/// line to the current one (a forward-delete line join), unless there is no
/// next line.
pub open spec fn delete_char_spec(m: BufModel) -> BufModel {
    let line = cur_line(m);
    let m2 = if m.cur_x < line.len() {
        BufModel { lines: m.lines.update(m.cur_y as int, line.remove(m.cur_x as int)), ..m }
    } else if line.len() == 0 {
        if m.lines.len() > 1 {
            let nl = m.lines.remove(m.cur_y as int);
            BufModel {
                lines: nl,
                cur_x: 0 as nat,
                cur_y: if m.cur_y < nl.len() {
                    m.cur_y
                } else {
                    (nl.len() - 1) as nat
                },
                ..m
            }
        } else {
            m
        }
    } else if m.cur_x == line.len() {
        if m.cur_y + 1 < m.lines.len() {
            BufModel {
                lines: m.lines.update(m.cur_y as int, line + m.lines[m.cur_y as int + 1]).remove(
                    m.cur_y as int + 1,
                ),
                ..m
            }
        } else {
            m
        }
    } else {
        m
    };
    update_win_cur_spec(m2)
}

/// Why a file operation failed.
#[derive(Clone, Copy, Debug, PartialEq, Eq, Structural)]
pub enum FileError {
    /// The buffer has no associated file name to save to.
    NoFileName,
    /// The path could not be opened for reading.
    FileNotFound,
    /// The target could not be created or written.
    IoError,
}

/// A line as it arrives from a line-oriented read: its characters, or
/// nothing when the line could not be decoded.
pub open spec fn decoded_line(o: Option<Seq<char>>) -> Seq<char> {
    match o {
        Option::Some(l) => l,
        Option::None => Seq::empty(),
    }
}

/// The character sequences behind a vector of read lines.
pub open spec fn line_views(l: Seq<Option<Vec<char>>>) -> Seq<Option<Seq<char>>> {
    l.map_values(
        |o: Option<Vec<char>>|
            match o {
                Option::Some(v) => Option::Some(v@),
                Option::None => Option::<Seq<char>>::None,
            },
    )
}

/// Append the lines read from a file to the buffer, one buffer line per
/// physical line, an undecodable line degrading to an empty line; associate
/// the buffer with the file name. A buffer that would end up empty gets one
/// empty line instead.
pub open spec fn load_lines_spec(
    m: BufModel,
    given: Seq<Option<Seq<char>>>,
    name: Seq<char>,
) -> BufModel {
    let lines1 = m.lines + Seq::new(given.len(), |i: int| decoded_line(given[i]));
    BufModel {
        lines: if lines1.len() == 0 {
            seq![Seq::<char>::empty()]
        } else {
            lines1
        },
        file_name: name,
        ..m
    }
}

/// Reset to a single empty line for a new file, with the cursor and the
/// scroll offset at the origin.
pub open spec fn new_buffer_spec(m: BufModel) -> BufModel {
    update_win_cur_spec(
        BufModel { lines: seq![Seq::<char>::empty()], begin: 0, cur_x: 0, cur_y: 0, ..m },
    )
}

/// The text shown on a given viewport row: the buffer line at
/// `begin + row` truncated to the window's width in characters, or a blank
/// row past the end of the buffer.
pub open spec fn visible_line_spec(m: BufModel, row: int) -> Seq<char> {
    if 0 <= row && m.begin + row < m.lines.len() {
        let l = m.lines[m.begin as int + row];
        if m.win.width <= l.len() {
            l.take(m.win.width as int)
        } else {
            l
        }
    } else {
        Seq::empty()
    }
}

/// Copy of a line's characters.
fn clone_chars(v: &Vec<char>) -> (r: Vec<char>)
    ensures
        r@ == v@,
{
    let mut r: Vec<char> = Vec::new();
    let n = v.len();
    for i in 0..n
        invariant
            n == v@.len(),
            r@.len() == i,
            forall|j: int| 0 <= j < i ==> r@[j] == v@[j],
    {
        r.push(v[i]);
    }
    proof {
        assert(r@ =~= v@);
    }
    r
}

/// Inserting a character and deleting at the same position is an identity
/// on content: from any well-formed state, after `insert_char` and moving
/// the cursor back to where the insertion happened, a forward delete
/// restores every line, and the cursor stands at the (clamped) insertion
/// point.
pub proof fn lemma_insert_delete_roundtrip(m: BufModel, c: char)
    requires
        buf_wf(m),
    ensures
        ({
            let x = clamp_x(cur_line(m).len(), m.cur_x);
            let m2 = delete_char_spec(set_cur_x_spec(insert_char_spec(m, c), x));
            &&& m2.lines == m.lines
            &&& m2.cur_x == x
            &&& m2.cur_y == m.cur_y
            &&& m2.begin == m.begin
            &&& m2.file_name == m.file_name
        }),
{
    let x = clamp_x(cur_line(m).len(), m.cur_x);
    let m2 = delete_char_spec(set_cur_x_spec(insert_char_spec(m, c), x));
    if cur_line(m).len() > 0 {
        assert(cur_line(m).insert(x as int, c).remove(x as int) =~= cur_line(m));
        assert(m2.lines =~~= m.lines);
    } else {
        assert(seq![c].remove(0) =~= cur_line(m));
        assert(m2.lines =~~= m.lines);
    }
}

/// Splitting a line at the cursor and deleting at the split point joins the
/// halves back: from any well-formed state with the cursor inside the
/// current line, after `insert_newline`, moving the cursor back to the
/// split point, a forward delete restores every line, and the cursor stands
/// at the split point of the merged line.
pub proof fn lemma_split_join_roundtrip(m: BufModel)
    requires
        buf_wf(m),
        m.cur_x <= cur_line(m).len(),
    ensures
        ({
            let m2 = delete_char_spec(
                set_cur_x_spec(set_cur_y_spec(insert_newline_spec(m), m.cur_y), m.cur_x),
            );
            &&& m2.lines == m.lines
            &&& m2.cur_x == m.cur_x
            &&& m2.cur_y == m.cur_y
            &&& m2.begin == m.begin
            &&& m2.file_name == m.file_name
        }),
{
    let x = m.cur_x;
    let line = cur_line(m);
    let m2 = delete_char_spec(
        set_cur_x_spec(set_cur_y_spec(insert_newline_spec(m), m.cur_y), m.cur_x),
    );
    if x < line.len() {
        assert(line.take(x as int) + line.skip(x as int) =~= line);
        assert(m2.lines =~~= m.lines);
    } else {
        assert(line + Seq::<char>::empty() =~= line);
        assert(m2.lines =~~= m.lines);
    }
}

/// The scroll offset stays within `[0, lines.len() - height]` (and, being a
/// count, is never negative): a scroll request in either direction from a
/// state within that bound lands within it, and a request that would leave
/// it changes nothing.
pub proof fn lemma_scroll_top_bounded(m: BufModel, n: nat)
    requires
        m.begin + m.win.height <= m.lines.len(),
    ensures
        scrollup_spec(m, n).begin + m.win.height <= m.lines.len(),
        scrolldown_spec(m, n).begin + m.win.height <= m.lines.len(),
        m.begin + n + m.win.height > m.lines.len() ==> scrollup_spec(m, n) == m,
        n > m.begin ==> scrolldown_spec(m, n) == m,
{
}

/// A vertical move preserves the character index, not the column: moving
/// down (below the scrolling edge) lands on the next line with the same
/// character index, clamped only to that line's character count; display
/// widths play no part.
pub proof fn lemma_vertical_move_keeps_char_index(m: BufModel)
    requires
        buf_wf(m),
        m.cur_y + 1 < m.begin + m.win.height,
        m.cur_y + 1 < m.lines.len(),
    ensures
        cursor_down_spec(m).cur_y == m.cur_y + 1,
        cursor_down_spec(m).cur_x == clamp_x(m.lines[m.cur_y as int + 1].len(), m.cur_x),
{
}

/// The cursor moves and character insertion preserve well-formedness of
/// the abstract state, leave the stored lines alone (insertion only grows
/// the current line), and never change the number of lines.
pub proof fn lemma_moves_preserve_wf(b: BufModel, c: char)
    requires
        buf_wf(b),
    ensures
        buf_wf(cursor_up_spec(b)),
        buf_wf(cursor_down_spec(b)),
        buf_wf(cursor_left_spec(b)),
        buf_wf(cursor_right_spec(b)),
        buf_wf(insert_char_spec(b, c)),
        cursor_up_spec(b).lines == b.lines,
        cursor_down_spec(b).lines == b.lines,
        cursor_left_spec(b).lines == b.lines,
        cursor_right_spec(b).lines == b.lines,
        insert_char_spec(b, c).lines.len() == b.lines.len(),
{
}

/// Edit buffer: an ordered sequence of text rows, each stored as its
/// characters.
pub struct EditBuffer {
    buffer: Vec<Vec<char>>,
    begin: usize, // line to start display
    cur_x: usize, // 0-indexed buffer coordinates, character counting
    cur_y: usize,
    file_name: String,
    window: Window, // Window information is cloned at initialization.
    cache_width: Vec<usize>, // per-character display width of the current line
    cache_size: Vec<usize>, // per-character UTF-8 byte length of the current line
}

impl View for EditBuffer {
    type V = BufModel;

    closed spec fn view(&self) -> BufModel {
        BufModel {
            lines: self.buffer@.map_values(|l: Vec<char>| l@),
            begin: self.begin as nat,
            cur_x: self.cur_x as nat,
            cur_y: self.cur_y as nat,
            file_name: self.file_name@,
            win: self.window@,
        }
    }
}

impl EditBuffer {
    /// The width and size caches mirror the current line, one entry per
    /// character plus a trailing zero sentinel for the line terminator.
    closed spec fn cache_ok(&self) -> bool {
        let line = self.buffer@[self.cur_y as int]@;
        &&& self.cache_width@.len() == line.len() + 1
        &&& self.cache_size@.len() == line.len() + 1
        &&& forall|i: int|
            0 <= i < line.len() ==> self.cache_width@[i] as nat == display_width(line[i])
        &&& forall|i: int| 0 <= i < line.len() ==> self.cache_size@[i] as nat == utf8_len(line[i])
        &&& self.cache_width@[line.len() as int] == 0
        &&& self.cache_size@[line.len() as int] == 0
    }

    pub closed spec fn wf(&self) -> bool {
        &&& buf_wf(self@)
        &&& self.cache_ok()
    }

    /// The abstract state is well formed whenever the buffer is.
    pub proof fn lemma_wf(&self)
        requires
            self.wf(),
        ensures
            buf_wf(self@),
    {
    }

    pub fn new(win: Window) -> (r: Self)
        requires
            win.wf(),
        ensures
            r@.lines.len() == 0,
            r@.begin == 0,
            r@.cur_x == 0,
            r@.cur_y == 0,
            r@.file_name.len() == 0,
            r@.win == win@,
    {
        EditBuffer {
            buffer: Vec::new(),
            begin: 0,
            cur_x: 0, // cursor point of the buffer (0-indexed)
            cur_y: 0,
            file_name: String::new(),
            window: win,
            cache_width: Vec::new(),
            cache_size: Vec::new(),
        }
    }

    /// Recompute the per-character width and size caches for the current
    /// line, ending each with the zero sentinel for the line terminator.
    fn calc_line(&mut self)
        requires
            old(self).buffer@.len() > 0,
            (old(self).cur_y as int) < old(self).buffer@.len(),
        ensures
            final(self)@ == old(self)@,
            final(self).cache_ok(),
            final(self).buffer == old(self).buffer,
            final(self).begin == old(self).begin,
            final(self).cur_x == old(self).cur_x,
            final(self).cur_y == old(self).cur_y,
            final(self).file_name == old(self).file_name,
            final(self).window == old(self).window,
    {
        self.cache_size = Vec::new();
        self.cache_width = Vec::new();
        let n = self.buffer[self.cur_y].len();
        for i in 0..n
            invariant
                (self.cur_y as int) < self.buffer@.len(),
                n == self.buffer@[self.cur_y as int]@.len(),
                self.buffer == old(self).buffer,
                self.begin == old(self).begin,
                self.cur_x == old(self).cur_x,
                self.cur_y == old(self).cur_y,
                self.file_name == old(self).file_name,
                self.window == old(self).window,
                self.cache_width@.len() == i,
                self.cache_size@.len() == i,
                forall|j: int|
                    0 <= j < i ==> self.cache_width@[j] as nat == display_width(
                        self.buffer@[self.cur_y as int]@[j],
                    ),
                forall|j: int|
                    0 <= j < i ==> self.cache_size@[j] as nat == utf8_len(
                        self.buffer@[self.cur_y as int]@[j],
                    ),
        {
            let c = self.buffer[self.cur_y][i];
            self.cache_size.push(char_utf8_len(c));
            self.cache_width.push(char_display_width(c));
        }
        self.cache_width.push(0); // dummy for newline
        self.cache_size.push(0); // dummy for newline
    }

    /// Reset the contents to a single empty line, moving the cursor and the
    /// scroll offset back to the origin.
    pub fn new_buffer(&mut self)
        requires
            win_wf(old(self)@.win),
        ensures
            final(self).wf(),
            final(self)@ == new_buffer_spec(old(self)@),
    {
        let mut b: Vec<Vec<char>> = Vec::new();
        b.push(Vec::new());
        self.buffer = b;
        self.begin = 0;
        self.cur_x = 0;
        self.cur_y = 0;
        proof {
            assert(self@.lines =~= seq![Seq::<char>::empty()]);
        }
        self.update_win_cur();
    }

    /// Append the lines read from a file to the buffer, one buffer line per
    /// physical line; a line that could not be decoded degrades to an empty
    /// line rather than aborting the load. Associates the buffer with the
    /// file name. A buffer that would end up empty gets one empty line.
    pub fn load_lines(&mut self, lines: Vec<Option<Vec<char>>>, file_name: &str)
        requires
            old(self).wf() || (old(self)@.lines.len() == 0 && old(self)@.cur_y == 0 && win_wf(
                old(self)@.win,
            )),
        ensures
            final(self).wf(),
            final(self)@ == load_lines_spec(old(self)@, line_views(lines@), file_name@),
    {
        let n = lines.len();
        let ghost m0 = self@;
        for i in 0..n
            invariant
                lines@.len() == n,
                self@.lines == m0.lines + Seq::new(
                    i as nat,
                    |j: int| decoded_line(line_views(lines@)[j]),
                ),
                self@.begin == m0.begin,
                self@.cur_x == m0.cur_x,
                self@.cur_y == m0.cur_y,
                self@.file_name == m0.file_name,
                self@.win == m0.win,
        {
            let ghost pre = self@.lines;
            match &lines[i] {
                Option::Some(v) => {
                    let c = clone_chars(v);
                    self.buffer.push(c);
                },
                Option::None => {
                    self.buffer.push(Vec::new());
                },
            }
            proof {
                assert(self@.lines =~= pre.push(decoded_line(line_views(lines@)[i as int])));
                assert(self@.lines =~= m0.lines + Seq::new(
                    (i + 1) as nat,
                    |j: int| decoded_line(line_views(lines@)[j]),
                ));
            }
        }
        if self.buffer.len() == 0 {
            self.buffer.push(Vec::new());
            proof {
                assert(self@.lines =~= seq![Seq::<char>::empty()]);
            }
        }
        self.file_name = file_name.to_owned();
        self.calc_line();
    }

    /// The target of a plain save: the associated file name, or the error
    /// that there is none. Returns `Err(NoFileName)` exactly when the buffer
    /// has no associated file name.
    pub fn save_target(&self) -> (r: Result<&str, FileError>)
        ensures
            self@.file_name.len() == 0 <==> r is Err,
            r is Err ==> r->Err_0 == FileError::NoFileName,
            r is Ok ==> r->Ok_0@ == self@.file_name,
    {
        if self.file_name.as_str().is_empty() {
            Err(FileError::NoFileName)
        } else {
            Ok(self.file_name.as_str())
        }
    }

    pub fn file_name(&self) -> (r: &str)
        ensures
            r@ == self@.file_name,
    {
        self.file_name.as_str()
    }

    /// Associate the buffer with a file name, as a successful save-as does.
    pub fn set_file_name(&mut self, file_name: &str)
        requires
            old(self).wf(),
        ensures
            final(self).wf(),
            final(self)@ == (BufModel { file_name: file_name@, ..old(self)@ }),
    {
        self.file_name = file_name.to_owned();
    }

    /// Number of lines held by the buffer.
    pub fn line_count(&self) -> (n: usize)
        ensures
            n as nat == self@.lines.len(),
    {
        self.buffer.len()
    }

    /// The characters of line `y`.
    pub fn line(&self, y: usize) -> (r: &Vec<char>)
        requires
            (y as nat) < self@.lines.len(),
        ensures
            r@ == self@.lines[y as int],
    {
        &self.buffer[y]
    }

    /// Replace the contents of line `y`; a line index outside the buffer is
    /// silently ignored.
    pub fn set_line(&mut self, y: usize, line: Vec<char>)
        requires
            old(self).wf(),
        ensures
            final(self).wf(),
            final(self)@ == (if (y as nat) < old(self)@.lines.len() {
                BufModel { lines: old(self)@.lines.update(y as int, line@), ..old(self)@ }
            } else {
                old(self)@
            }),
    {
        if y < self.buffer.len() {
            self.buffer[y] = line;
            proof {
                assert(self@.lines =~= old(self)@.lines.update(y as int, line@));
            }
            if y == self.cur_y {
                self.calc_line();
            }
        }
    }

    /// Append a line at the end of the buffer.
    pub fn push_line(&mut self, line: Vec<char>)
        requires
            old(self).wf(),
        ensures
            final(self).wf(),
            final(self)@ == (BufModel { lines: old(self)@.lines.push(line@), ..old(self)@ }),
    {
        self.buffer.push(line);
        proof {
            assert(self@.lines =~= old(self)@.lines.push(line@));
        }
    }

    /// Index of the first line shown in the viewport.
    pub fn begin(&self) -> (r: usize)
        ensures
            r as nat == self@.begin,
    {
        self.begin
    }

    pub fn set_window(&mut self, win: Window)
        requires
            old(self).wf(),
            win.wf(),
        ensures
            final(self).wf(),
            final(self)@ == (BufModel { win: win@, ..old(self)@ }),
    {
        self.window = win;
    }

    pub fn window(&self) -> (r: &Window)
        ensures
            r@ == self@.win,
    {
        &self.window
    }

    /// What the viewport shows: one row of text per window row, each the
    /// corresponding buffer line truncated to the window's width in
    /// characters, or a blank row past the end of the buffer.
    pub fn visible_lines(&self) -> (r: Vec<Vec<char>>)
        requires
            self.wf(),
        ensures
            r@.len() == self@.win.height,
            forall|i: int| 0 <= i < r@.len() ==> r@[i]@ == visible_line_spec(self@, i),
    {
        let h = self.window.height() as usize;
        let w = self.window.width() as usize;
        let total = self.buffer.len();
        let mut r: Vec<Vec<char>> = Vec::new();
        for row in 0..h
            invariant
                self.wf(),
                h as nat == self@.win.height,
                w as nat == self@.win.width,
                total as nat == self@.lines.len(),
                r@.len() == row,
                forall|i: int| 0 <= i < row ==> r@[i]@ == visible_line_spec(self@, i),
        {
            let mut out: Vec<char> = Vec::new();
            if row <= usize::MAX - self.begin && self.begin + row < self.buffer.len() {
                let li = self.begin + row;
                let len = self.buffer[li].len();
                let take = if w <= len {
                    w
                } else {
                    len
                };
                for i in 0..take
                    invariant
                        self.wf(),
                        li as nat == self@.begin + row,
                        li < self@.lines.len(),
                        take as nat <= self@.lines[li as int].len(),
                        out@.len() == i,
                        forall|j: int| 0 <= j < i ==> out@[j] == self@.lines[li as int][j],
                {
                    out.push(self.buffer[li][i]);
                }
                proof {
                    assert(out@ =~= visible_line_spec(self@, row as int));
                }
            } else {
                proof {
                    assert(out@ =~= visible_line_spec(self@, row as int));
                }
            }
            r.push(out);
        }
        r
    }

    /// Cursor x position on the buffer coordinate.
    pub fn cur_x(&self) -> (r: usize)
        ensures
            r as nat == self@.cur_x,
    {
        self.cur_x
    }

    /// Set the cursor x position on the buffer coordinate; a position past
    /// the end of the current line is clamped to the line's character count.
    pub fn set_cur_x(&mut self, x: usize)
        requires
            old(self).wf(),
        ensures
            final(self).wf(),
            final(self)@ == set_cur_x_spec(old(self)@, x as nat),
    {
        if x <= self.current_line_len() {
            self.cur_x = x;
        } else {
            if self.current_line_len() > 0 {
                self.cur_x = self.current_line_len();
            } else {
                self.cur_x = 0;
            }
        }
    }

    /// Cursor y position on the buffer coordinate.
    pub fn cur_y(&self) -> (r: usize)
        ensures
            r as nat == self@.cur_y,
    {
        self.cur_y
    }

    /// Set the cursor y position on the buffer coordinate; a position outside
    /// the buffer is silently ignored. The caller is expected to re-apply
    /// `set_cur_x` afterward, because the new line may be shorter.
    pub fn set_cur_y(&mut self, y: usize)
        requires
            old(self).wf(),
        ensures
            final(self).wf(),
            final(self)@ == set_cur_y_spec(old(self)@, y as nat),
    {
        if y < self.buffer.len() {
            self.cur_y = y;
        }
        self.calc_line();
    }

    /// Character count of the current line (not its byte length, not its
    /// display width).
    pub fn current_line_len(&self) -> (n: usize)
        requires
            self.wf(),
        ensures
            n as nat == cur_line(self@).len(),
    {
        self.buffer[self.cur_y].len()
    }

    /// Recompute the window-local cursor cell from the buffer cursor: the
    /// column is the summed display width of the characters left of the
    /// cursor, clipped to 16 bits; the row is the cursor line relative to the
    /// first visible line.
    pub fn update_win_cur(&mut self)
        requires
            buf_wf(old(self)@),
        ensures
            final(self).wf(),
            final(self)@ == update_win_cur_spec(old(self)@),
    {
        self.calc_line();
        let x = self.cur_x;
        self.set_cur_x(x);
        let n = self.cur_x;
        let col = self.win_col(n);
        self.window.set_cur_x(col);
        if self.cur_y >= self.begin {
            let d = self.cur_y - self.begin;
            let d16: u16 = if d <= u16::MAX as usize {
                d as u16
            } else {
                u16::MAX
            };
            self.window.set_cur_y(d16);
        }
    }

    /// Window column of the cursor when it stands after the first `n`
    /// characters of the current line: their summed display width, clipped
    /// to 16 bits.
    fn win_col(&self, n: usize) -> (col: u16)
        requires
            self.wf(),
            n as nat <= cur_line(self@).len(),
        ensures
            col as nat == sat16(prefix_width(cur_line(self@), n as int)),
    {
        let ghost line = cur_line(self@);
        let mut col: u16 = 0;
        for i in 0..n
            invariant
                self.wf(),
                line == cur_line(self@),
                n as nat <= line.len(),
                col as nat == sat16(prefix_width(line, i as int)),
        {
            let w = self.cache_width[i];
            assert(w as nat == display_width(line[i as int]));
            assert(prefix_width(line, i + 1) == prefix_width(line, i as int) + display_width(
                line[i as int],
            ));
            if w <= (u16::MAX - col) as usize {
                col = col + (w as u16);
            } else {
                col = u16::MAX;
            }
        }
        col
    }

    /// Overwrite the character at the cursor in place; the cursor does not
    /// advance. When no character stands at the cursor the request is a
    /// no-op.
    pub fn replace_char(&mut self, ch: char)
        requires
            old(self).wf(),
        ensures
            final(self).wf(),
            final(self)@ == replace_char_spec(old(self)@, ch),
    {
        let x0 = self.cur_x;
        self.set_cur_x(x0);
        let ghost m1 = self@;
        if self.cur_x < self.current_line_len() {
            let y = self.cur_y;
            let x = self.cur_x;
            self.buffer[y][x] = ch;
            proof {
                assert(self@.lines =~= m1.lines.update(
                    m1.cur_y as int,
                    cur_line(m1).update(m1.cur_x as int, ch),
                ));
            }
        }
        self.update_win_cur();
    }

    /// Insert a character at the cursor and advance the cursor by one
    /// character; on an empty line the line becomes that single character.
    pub fn insert_char(&mut self, ch: char)
        requires
            old(self).wf(),
        ensures
            final(self).wf(),
            final(self)@ == insert_char_spec(old(self)@, ch),
    {
        let x0 = self.cur_x;
        self.set_cur_x(x0);
        let ghost m1 = self@;
        if self.current_line_len() > 0 {
            // insert the char into the existing line
            let y = self.cur_y;
            let x = self.cur_x;
            self.buffer[y].insert(x, ch);
            proof {
                assert(self@.lines =~= m1.lines.update(
                    m1.cur_y as int,
                    cur_line(m1).insert(m1.cur_x as int, ch),
                ));
            }
            let n = self.buffer[y].len();
            assert(x < n);
            self.cur_x = x + 1;
        } else {
            // insert the char on the blank line
            let y = self.cur_y;
            let mut line: Vec<char> = Vec::new();
            line.push(ch);
            self.buffer[y] = line;
            proof {
                assert(self@.lines =~= m1.lines.update(m1.cur_y as int, seq![ch]));
            }
            self.cur_x = 1;
        }
        self.update_win_cur();
    }

    /// Split the current line at the cursor into two lines (an empty or
    /// end-of-line cursor appends a new empty line instead) and move the
    /// cursor to column 0 of the new line.
    pub fn insert_newline(&mut self)
        requires
            old(self).wf(),
        ensures
            final(self).wf(),
            final(self)@ == insert_newline_spec(old(self)@),
    {
        let len = self.current_line_len();
        let ghost m = self@;
        let line_total = self.buffer.len();
        proof {
            // the cursor line index fits below the line count, a usize
            assert(old(self)@.cur_y < line_total as nat);
        }
        if len > self.cur_x {
            // split the line at the cursor
            let y = self.cur_y;
            let x = self.cur_x;
            let mut line1: Vec<char> = Vec::new();
            let mut line2: Vec<char> = Vec::new();
            for i in 0..x
                invariant
                    x <= cur_line(m).len(),
                    m == self@,
                    self.wf(),
                    y == m.cur_y,
                    line1@.len() == i,
                    forall|j: int| 0 <= j < i ==> line1@[j] == cur_line(m)[j],
            {
                line1.push(self.buffer[y][i]);
            }
            for i in x..len
                invariant
                    x <= i <= len,
                    len == cur_line(m).len(),
                    m == self@,
                    self.wf(),
                    y == m.cur_y,
                    line2@.len() == i - x,
                    forall|j: int| 0 <= j < i - x ==> line2@[j] == cur_line(m)[x + j],
            {
                line2.push(self.buffer[y][i]);
            }
            proof {
                assert(line1@ =~= cur_line(m).take(x as int));
                assert(line2@ =~= cur_line(m).skip(x as int));
            }
            self.buffer[y] = line1;
            self.buffer.insert(y + 1, line2);
            self.cur_x = 0;
            self.cur_y = y + 1;
            proof {
                assert(self@.lines =~= m.lines.update(y as int, cur_line(m).take(x as int)).insert(
                    y as int + 1,
                    cur_line(m).skip(x as int),
                ));
            }
        } else if len == 0 || len == self.cur_x {
            // append a new empty line after the current one
            let y = self.cur_y;
            self.buffer.insert(y + 1, Vec::new());
            self.cur_x = 0;
            self.cur_y = y + 1;
            proof {
                assert(self@.lines =~= m.lines.insert(y as int + 1, Seq::<char>::empty()));
            }
        }
        self.update_win_cur();
    }

    /// Forward delete: remove the character at the cursor; on an empty line
    /// remove the line itself (the last line of the buffer stays); at the
    /// end of a non-empty line join the next line to this one, unless there
    /// is no next line.
    pub fn delete_char(&mut self)
        requires
            old(self).wf(),
        ensures
            final(self).wf(),
            final(self)@ == delete_char_spec(old(self)@),
    {
        let len = self.current_line_len();
        let ghost m = self@;
        if len > self.cur_x {
            // delete the character at the cursor
            let y = self.cur_y;
            let x = self.cur_x;
            self.buffer[y].remove(x);
            proof {
                assert(self@.lines =~= m.lines.update(y as int, cur_line(m).remove(x as int)));
            }
        } else if len == 0 {
            // delete the blank line, keeping the buffer non-empty and the
            // cursor line index valid
            if self.buffer.len() > 1 {
                let y = self.cur_y;
                self.buffer.remove(y);
                self.cur_x = 0;
                proof {
                    assert(self@.lines =~= m.lines.remove(y as int));
                }
                if self.cur_y >= self.buffer.len() {
                    self.cur_y = self.buffer.len() - 1;
                }
            }
        } else if len == self.cur_x {
            if self.cur_y < self.buffer.len() - 1 {
                // delete the line terminator: join the next line to this one
                let y = self.cur_y;
                let mut next = self.buffer.remove(y + 1);
                self.buffer[y].append(&mut next);
                proof {
                    assert(self@.lines =~= m.lines.update(
                        y as int,
                        cur_line(m) + m.lines[y as int + 1],
                    ).remove(y as int + 1));
                }
            }
        }
        self.update_win_cur();
    }

    /// Scroll the viewport down the buffer by `n` lines, carrying the cursor
    /// along; a request that would push the first visible line past
    /// `lines.len() - height` is silently ignored.
    pub fn scrollup(&mut self, n: usize)
        requires
            old(self).wf(),
        ensures
            final(self).wf(),
            final(self)@ == scrollup_spec(old(self)@, n as nat),
    {
        let len = self.buffer.len();
        let h = self.window.height() as usize;
        if len >= h && n <= len - h && self.begin <= len - h - n {
            self.begin = self.begin + n;
            if self.cur_y <= usize::MAX - n {
                let y = self.cur_y + n;
                self.set_cur_y(y);
            }
        }
    }

    /// Move the cursor one line down; the character index is kept and only
    /// clamped to the new line's character count, so lines of different
    /// widths can shift the visual column. At the bottom viewport row the
    /// buffer scrolls instead. Returns whether it scrolled, in which case
    /// the whole viewport needs repainting.
    pub fn cursor_down(&mut self) -> (scrolled: bool)
        requires
            old(self).wf(),
        ensures
            final(self).wf(),
            final(self)@ == cursor_down_spec(old(self)@),
            scrolled == (old(self)@.cur_y + 1 >= old(self)@.begin + old(self)@.win.height),
    {
        let h = self.window.height() as usize;
        let line_total = self.buffer.len();
        proof {
            // the cursor line index fits below the line count, a usize
            assert(old(self)@.cur_y < line_total as nat);
        }
        let scrolled = self.cur_y >= self.begin && self.cur_y - self.begin >= h - 1;
        if scrolled {
            self.scrollup(1);
        } else {
            let y = self.cur_y + 1;
            self.set_cur_y(y);
        }
        self.update_win_cur();
        scrolled
    }

    /// Move the cursor one line up; the character index is kept and only
    /// clamped to the new line's character count. At the top viewport row
    /// the buffer scrolls instead. Returns whether it scrolled, in which
    /// case the whole viewport needs repainting.
    pub fn cursor_up(&mut self) -> (scrolled: bool)
        requires
            old(self).wf(),
        ensures
            final(self).wf(),
            final(self)@ == cursor_up_spec(old(self)@),
            scrolled == !(old(self)@.cur_y > old(self)@.begin),
    {
        if self.cur_y > self.begin {
            let y = self.cur_y - 1;
            self.set_cur_y(y);
            self.update_win_cur();
            false
        } else {
            self.scrolldown(1);
            self.update_win_cur();
            true
        }
    }

    /// Move the cursor one character (not one display column) left; at the
    /// start of a line it crosses to the end of the previous line, unless
    /// already at the first line. Returns whether the buffer scrolled, in
    /// which case the whole viewport needs repainting.
    pub fn cursor_left(&mut self) -> (scrolled: bool)
        requires
            old(self).wf(),
        ensures
            final(self).wf(),
            final(self)@ == cursor_left_spec(old(self)@),
            scrolled == (old(self)@.cur_x == 0 && old(self)@.cur_y != 0 && old(
                self,
            )@.win.cur_y == 0),
    {
        if self.cur_x > 0 {
            // move to prev char
            let x = self.cur_x - 1;
            self.set_cur_x(x);
            let n = self.cur_x;
            let col = self.win_col(n);
            self.window.set_cur_x(col);
            false
        } else if self.cur_y != 0 {
            if self.window.cur_y() == 0 {
                // scroll down and go to the end of the previous line
                self.scrolldown(1);
                self.update_win_cur();
                let x = self.current_line_len();
                self.set_cur_x(x);
                self.update_win_cur();
                true
            } else {
                // go to the end of the previous line
                let y = self.cur_y - 1;
                self.set_cur_y(y);
                let x = self.current_line_len();
                self.set_cur_x(x);
                self.update_win_cur();
                false
            }
        } else {
            false
        }
    }

    /// Move the cursor one character (not one display column) right; at the
    /// end of a line it crosses to the start of the next line, unless
    /// already at the last line of the buffer, in which case the request is
    /// a no-op. Returns whether the buffer scrolled, in which case the
    /// whole viewport needs repainting.
    pub fn cursor_right(&mut self) -> (scrolled: bool)
        requires
            old(self).wf(),
        ensures
            final(self).wf(),
            final(self)@ == cursor_right_spec(old(self)@),
            scrolled == (old(self)@.cur_x >= cur_line(old(self)@).len() && old(self)@.cur_y + 1
                < old(self)@.lines.len() && old(self)@.win.cur_y + 1 >= old(self)@.win.height),
    {
        if self.cur_x >= self.current_line_len() {
            // cursor is at the end of the line
            if self.cur_y < self.buffer.len() - 1 {
                if self.window.cur_y() >= self.window.height() - 1 {
                    // scroll up and go to the top of the next line
                    self.scrollup(1);
                    self.set_cur_x(0);
                    self.update_win_cur();
                    true
                } else {
                    // go to the top of the next line
                    let y = self.cur_y + 1;
                    self.set_cur_y(y);
                    self.set_cur_x(0);
                    self.update_win_cur();
                    false
                }
            } else {
                // already at the last line of the buffer
                false
            }
        } else {
            // move to the next char
            let x = self.cur_x + 1;
            self.set_cur_x(x);
            let n = self.cur_x;
            let col = self.win_col(n);
            self.window.set_cur_x(col);
            false
        }
    }

    /// Scroll the viewport up the buffer by `n` lines, carrying the cursor
    /// along; a request that would make the first visible line negative is
    /// silently ignored.
    pub fn scrolldown(&mut self, n: usize)
        requires
            old(self).wf(),
        ensures
            final(self).wf(),
            final(self)@ == scrolldown_spec(old(self)@, n as nat),
    {
        if self.begin >= n {
            self.begin = self.begin - n;
            if self.cur_y >= n {
                let y = self.cur_y - n;
                self.set_cur_y(y);
            }
        }
    }
}

} // verus!
