use crate::structs::coord::Coord;
use crate::structs::small_rect::SmallRect;
use vstd::prelude::*;
use vstd::std_specs::convert::FromSpecImpl;

verus! {

/// Extended information about the console screen buffer.
#[derive(Debug, Copy, Clone, Eq, PartialEq)]
pub struct ConsoleScreenBufferInfoEx {
    /// Size of the native structure in bytes.
    pub size: u32,
    /// Size of the screen buffer in rows and columns.
    pub screen_buffer_size: Coord,
    /// Position of the cursor in the console screen buffer.
    pub cursor_position: Coord,
    /// The attributes of the characters written in the console screen buffer.
    pub attributes: u16,
    /// The rect that contains the console screen buffer.
    pub window: SmallRect,
    /// The maximum size the console window.
    pub maximum_window_size: Coord,
    /// The fill attribute for console pop-ups.
    pub popup_attributes: u16,
    /// If `true` the full-screen mode is supported; otherwise is not supported.
    pub full_screen_supported: bool,
    /// The sixteen `COLORREF` values of the console's color settings.
    pub color_table: [u32; 16],
}

/// The native `CONSOLE_SCREEN_BUFFER_INFOEX`, field by field: the support
/// of the full-screen mode as a `BOOL`.
#[derive(Debug, Copy, Clone, Eq, PartialEq)]
pub struct RawScreenBufferInfoEx {
    pub size: u32,
    pub screen_buffer_size: Coord,
    pub cursor_position: Coord,
    pub attributes: u16,
    pub window: SmallRect,
    pub maximum_window_size: Coord,
    pub popup_attributes: u16,
    pub full_screen_supported: i32,
    pub color_table: [u32; 16],
}

impl ConsoleScreenBufferInfoEx {
    /// The size in bytes of the native structure.
    pub const NATIVE_SIZE: u32 = 96;
}

impl From<RawScreenBufferInfoEx> for ConsoleScreenBufferInfoEx {
    /// Reads the native structure: the full-screen mode is supported where
    /// the native flag is not zero.
    #[inline]
    fn from(info: RawScreenBufferInfoEx) -> (r: ConsoleScreenBufferInfoEx) {
        ConsoleScreenBufferInfoEx {
            size: info.size,
            screen_buffer_size: info.screen_buffer_size,
            cursor_position: info.cursor_position,
            attributes: info.attributes,
            window: info.window,
            maximum_window_size: info.maximum_window_size,
            popup_attributes: info.popup_attributes,
            full_screen_supported: info.full_screen_supported != 0,
            color_table: info.color_table,
        }
    }
}

impl FromSpecImpl<RawScreenBufferInfoEx> for ConsoleScreenBufferInfoEx {
    open spec fn obeys_from_spec() -> bool {
        true
    }

    open spec fn from_spec(info: RawScreenBufferInfoEx) -> ConsoleScreenBufferInfoEx {
        ConsoleScreenBufferInfoEx {
            size: info.size,
            screen_buffer_size: info.screen_buffer_size,
            cursor_position: info.cursor_position,
            attributes: info.attributes,
            window: info.window,
            maximum_window_size: info.maximum_window_size,
            popup_attributes: info.popup_attributes,
            full_screen_supported: info.full_screen_supported != 0,
            color_table: info.color_table,
        }
    }
}

impl From<ConsoleScreenBufferInfoEx> for RawScreenBufferInfoEx {
    /// Writes the native structure: a supported full-screen mode as 1, an
    /// unsupported one as 0.
    #[inline]
    fn from(info: ConsoleScreenBufferInfoEx) -> (r: RawScreenBufferInfoEx) {
        RawScreenBufferInfoEx {
            size: info.size,
            screen_buffer_size: info.screen_buffer_size,
            cursor_position: info.cursor_position,
            attributes: info.attributes,
            window: info.window,
            maximum_window_size: info.maximum_window_size,
            popup_attributes: info.popup_attributes,
            full_screen_supported: if info.full_screen_supported {
                1
            } else {
                0
            },
            color_table: info.color_table,
        }
    }
}

impl FromSpecImpl<ConsoleScreenBufferInfoEx> for RawScreenBufferInfoEx {
    open spec fn obeys_from_spec() -> bool {
        true
    }

    open spec fn from_spec(info: ConsoleScreenBufferInfoEx) -> RawScreenBufferInfoEx {
        RawScreenBufferInfoEx {
            size: info.size,
            screen_buffer_size: info.screen_buffer_size,
            cursor_position: info.cursor_position,
            attributes: info.attributes,
            window: info.window,
            maximum_window_size: info.maximum_window_size,
            popup_attributes: info.popup_attributes,
            full_screen_supported: if info.full_screen_supported {
                1
            } else {
                0
            },
            color_table: info.color_table,
        }
    }
}

} // verus!
