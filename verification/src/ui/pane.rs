//! Panes: rectangular parts of the window, each with a cursor of its own.

use crate::tty::Winsize;
use vstd::prelude::*;

verus! {

/// A cell, counted from the upper-left corner of what it belongs to.
#[derive(PartialEq, Eq, Structural, Clone, Copy, Debug)]
pub struct Pos {
    pub row: usize,
    pub col: usize,
}

impl Pos {
    /// The upper-left corner.
    pub fn zero() -> (p: Self)
        ensures
            p == (Pos { row: 0, col: 0 }),
    {
        Self { row: 0, col: 0 }
    }

    pub fn new(row: usize, col: usize) -> (p: Self)
        ensures
            p == (Pos { row, col }),
    {
        Self { row, col }
    }
}

/// An extent in cells.
#[derive(PartialEq, Eq, Structural, Clone, Copy, Debug)]
pub struct Size {
    pub width: usize,
    pub height: usize,
}

impl From<Winsize> for Size {
    fn from(value: Winsize) -> (size: Size) {
        Size { width: value.col as usize, height: value.row as usize }
    }
}

impl vstd::std_specs::convert::FromSpecImpl<Winsize> for Size {
    open spec fn obeys_from_spec() -> bool {
        true
    }

    open spec fn from_spec(value: Winsize) -> Size {
        Size { width: value.col as usize, height: value.row as usize }
    }
}

/// The place of a pane in the window: its upper-left corner and its extent.
#[derive(PartialEq, Eq, Structural, Clone, Copy, Debug)]
pub struct Rect {
    pub pos: Pos,
    pub width: usize,
    pub height: usize,
}

/// A rectangular part of the window with a cursor of its own.
#[derive(PartialEq, Eq, Structural, Clone, Copy, Debug)]
pub struct Pane {
    pub rect: Rect,
    pub cursor_pos: Pos,
}

impl Pane {
    /// The pane at `rect`, with its cursor in its upper-left corner.
    pub fn new(rect: Rect) -> (pane: Self)
        ensures
            pane == (Pane { rect, cursor_pos: Pos { row: 0, col: 0 } }),
    {
        Pane { rect, cursor_pos: Pos::zero() }
    }

    /// The pane that fills a window of the given size.
    pub fn full_window(size: Winsize) -> (pane: Self)
        ensures
            pane == (Pane {
                rect: Rect {
                    pos: Pos { row: 0, col: 0 },
                    width: size.col as usize,
                    height: size.row as usize,
                },
                cursor_pos: Pos { row: 0, col: 0 },
            }),
    {
        Pane {
            rect: Rect { pos: Pos::zero(), width: size.col as usize, height: size.row as usize },
            cursor_pos: Pos::zero(),
        }
    }

    /// The size of the pane.
    pub fn size(&self) -> (size: Size)
        ensures
            size == (Size { width: self.rect.width, height: self.rect.height }),
    {
        Size { width: self.rect.width, height: self.rect.height }
    }
}

} // verus!
