//! The editor surface the host may open for the plugin: a fixed-size,
//! fixed-position placeholder window with a one-way closed-to-open
//! lifecycle and no content of its own.

use vstd::prelude::*;

verus! {

/// Width of the editor window in pixels.
pub const EDITOR_WIDTH: i32 = 320;

/// Height of the editor window in pixels.
pub const EDITOR_HEIGHT: i32 = 240;

/// Horizontal position of the editor window in pixels.
pub const EDITOR_X: i32 = 100;

/// Vertical position of the editor window in pixels.
pub const EDITOR_Y: i32 = 100;

/// A placeholder editor window. Its whole state is whether the host has
/// opened it; size and position are fixed constants.
pub struct TapeSaturationEditor {
    pub is_open: bool,
}

impl Default for TapeSaturationEditor {
    /// A fresh editor starts closed.
    fn default() -> (editor: TapeSaturationEditor)
        ensures
            !editor.is_open,
    {
        TapeSaturationEditor { is_open: false }
    }
}

impl TapeSaturationEditor {
    /// The fixed window size, regardless of state.
    pub fn size(&self) -> (wh: (i32, i32))
        ensures
            wh.0 == EDITOR_WIDTH,
            wh.1 == EDITOR_HEIGHT,
    {
        (EDITOR_WIDTH, EDITOR_HEIGHT)
    }

    /// The fixed window position, regardless of state.
    pub fn position(&self) -> (xy: (i32, i32))
        ensures
            xy.0 == EDITOR_X,
            xy.1 == EDITOR_Y,
    {
        (EDITOR_X, EDITOR_Y)
    }

    /// Opening is a one-way transition: after it the editor is open and
    /// stays open (there is no close operation).
    pub fn open(&mut self)
        ensures
            final(self).is_open,
    {
        self.is_open = true;
    }

    /// Whether the host has opened the editor.
    pub fn is_open(&self) -> (open: bool)
        ensures
            open == self.is_open,
    {
        self.is_open
    }
}

} // verus!
