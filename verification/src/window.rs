use vstd::prelude::*;

use crate::screen::Screen;

verus! {

/// The state of a window as mathematical integers: origin and size in
/// screen cells, and the local cursor offset in cells.
pub ghost struct WinModel {
    pub x: nat,
    pub y: nat,
    pub width: nat,
    pub height: nat,
    pub cur_x: nat,
    pub cur_y: nat,
}

/// A window is well formed when it spans at least one cell, fits inside the
/// 16-bit screen coordinate space, and its local cursor lies inside it.
pub open spec fn win_wf(w: WinModel) -> bool {
    &&& 1 <= w.width <= u16::MAX
    &&& 1 <= w.height <= u16::MAX
    &&& w.x + w.width <= u16::MAX + 1
    &&& w.y + w.height <= u16::MAX + 1
    &&& w.cur_x < w.width
    &&& w.cur_y < w.height
}

/// Local cursor update: a request outside the window is silently ignored.
pub open spec fn win_set_cur_x(w: WinModel, x: nat) -> WinModel {
    if x < w.width {
        WinModel { cur_x: x, ..w }
    } else {
        w
    }
}

/// Local cursor update: a request outside the window is silently ignored.
pub open spec fn win_set_cur_y(w: WinModel, y: nat) -> WinModel {
    if y < w.height {
        WinModel { cur_y: y, ..w }
    } else {
        w
    }
}

/// Display window: a rectangular sub-region of the terminal grid with its
/// own local cursor, used for the edit area, the status line and the
/// prompt line independently.
#[derive(Clone, Copy)]
pub struct Window {
    x: u16, // left top position of the window, 1-indexed screen coordinates
    y: u16,
    width: u16,
    height: u16,
    cur_x: u16, // cursor position: coordinates local to the window, 0-indexed
    cur_y: u16,
    screen: Screen, // Screen information is cloned at initialization.
}

impl View for Window {
    type V = WinModel;

    closed spec fn view(&self) -> WinModel {
        WinModel {
            x: self.x as nat,
            y: self.y as nat,
            width: self.width as nat,
            height: self.height as nat,
            cur_x: self.cur_x as nat,
            cur_y: self.cur_y as nat,
        }
    }
}

impl Window {
    pub open spec fn wf(&self) -> bool {
        win_wf(self@)
    }

    pub closed spec fn spec_screen(&self) -> Screen {
        self.screen
    }

    pub fn new(x: u16, y: u16, width: u16, height: u16, screen: Screen) -> (r: Self)
        requires
            1 <= width,
            1 <= height,
            x + width <= u16::MAX + 1,
            y + height <= u16::MAX + 1,
        ensures
            r@ == (WinModel {
                x: x as nat,
                y: y as nat,
                width: width as nat,
                height: height as nat,
                cur_x: 0,
                cur_y: 0,
            }),
            r.wf(),
            r.spec_screen() == screen,
    {
        Window { x, y, width, height, cur_x: 0, cur_y: 0, screen }
    }

    /// Cursor x position on the screen coordinate: window origin plus local offset.
    pub fn scr_cur_x(&self) -> (r: u16)
        requires
            self.wf(),
        ensures
            r as nat == self@.cur_x + self@.x,
    {
        self.cur_x + self.x
    }

    /// Cursor y position on the screen coordinate: window origin plus local offset.
    pub fn scr_cur_y(&self) -> (r: u16)
        requires
            self.wf(),
        ensures
            r as nat == self@.cur_y + self@.y,
    {
        self.cur_y + self.y
    }

    /// Set the cursor x position on the window coordinate; a position outside
    /// the window is silently ignored.
    pub fn set_cur_x(&mut self, x: u16)
        ensures
            final(self)@ == win_set_cur_x(old(self)@, x as nat),
            final(self).spec_screen() == old(self).spec_screen(),
    {
        if x < self.width {
            self.cur_x = x;
        }
    }

    /// Set the cursor y position on the window coordinate; a position outside
    /// the window is silently ignored.
    pub fn set_cur_y(&mut self, y: u16)
        ensures
            final(self)@ == win_set_cur_y(old(self)@, y as nat),
            final(self).spec_screen() == old(self).spec_screen(),
    {
        if y < self.height {
            self.cur_y = y;
        }
    }

    pub fn height(&self) -> (r: u16)
        ensures
            r as nat == self@.height,
    {
        self.height
    }

    pub fn width(&self) -> (r: u16)
        ensures
            r as nat == self@.width,
    {
        self.width
    }

    pub fn cur_x(&self) -> (r: u16)
        ensures
            r as nat == self@.cur_x,
    {
        self.cur_x
    }

    pub fn cur_y(&self) -> (r: u16)
        ensures
            r as nat == self@.cur_y,
    {
        self.cur_y
    }

    /// Left edge of the window, 1-indexed screen coordinates.
    pub fn x(&self) -> (r: u16)
        ensures
            r as nat == self@.x,
    {
        self.x
    }

    /// Top edge of the window, 1-indexed screen coordinates.
    pub fn y(&self) -> (r: u16)
        ensures
            r as nat == self@.y,
    {
        self.y
    }

    pub fn screen(&self) -> (r: &Screen)
        ensures
            *r == self.spec_screen(),
    {
        &self.screen
    }
}

} // verus!
