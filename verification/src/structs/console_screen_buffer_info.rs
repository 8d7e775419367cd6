use crate::structs::coord::Coord;
use crate::structs::small_rect::SmallRect;
use vstd::prelude::*;

verus! {

/// Information about the console screen buffer. It has the fields of the
/// native `CONSOLE_SCREEN_BUFFER_INFO`.
#[derive(Debug, Copy, Clone, Eq, PartialEq)]
pub struct ConsoleScreenBufferInfo {
    /// Size of the screen buffer in rows and columns.
    pub screen_buffer_size: Coord,
    /// Position of the cursor in the console screen buffer.
    pub cursor_position: Coord,
    /// The attributes of the characters written in the console screen buffer.
    pub attributes: u16,
    /// The rect that contains the console screen buffer.
    pub window: SmallRect,
    /// The maximum size the console window.
    pub maximum_window_size: Coord,
}

} // verus!
