use vstd::prelude::*;
use vstd::std_specs::convert::FromSpecImpl;

verus! {

/// Information about the console cursor.
#[derive(Debug, Copy, Clone, Eq, PartialEq)]
pub struct ConsoleCursorInfo {
    /// The percentage of the character cell that is filled by the cursor,
    /// between 1 and 100.
    pub size: u32,
    /// The visibility of the cursor.
    pub visible: bool,
}

/// The native `CONSOLE_CURSOR_INFO`, field by field: the visibility as a
/// `BOOL`.
#[derive(Debug, Copy, Clone, Eq, PartialEq)]
pub struct RawCursorInfo {
    pub size: u32,
    pub visible: i32,
}

impl From<ConsoleCursorInfo> for RawCursorInfo {
    /// Writes the native structure: a visible cursor as 1, a hidden one
    /// as 0.
    #[inline]
    fn from(info: ConsoleCursorInfo) -> (r: RawCursorInfo) {
        RawCursorInfo {
            size: info.size,
            visible: if info.visible {
                1
            } else {
                0
            },
        }
    }
}

impl FromSpecImpl<ConsoleCursorInfo> for RawCursorInfo {
    open spec fn obeys_from_spec() -> bool {
        true
    }

    open spec fn from_spec(info: ConsoleCursorInfo) -> RawCursorInfo {
        RawCursorInfo {
            size: info.size,
            visible: if info.visible {
                1
            } else {
                0
            },
        }
    }
}

impl From<RawCursorInfo> for ConsoleCursorInfo {
    /// Reads the native structure: the cursor is visible where the native
    /// flag is not zero.
    #[inline]
    fn from(info: RawCursorInfo) -> (r: ConsoleCursorInfo) {
        ConsoleCursorInfo { size: info.size, visible: info.visible != 0 }
    }
}

impl FromSpecImpl<RawCursorInfo> for ConsoleCursorInfo {
    open spec fn obeys_from_spec() -> bool {
        true
    }

    open spec fn from_spec(info: RawCursorInfo) -> ConsoleCursorInfo {
        ConsoleCursorInfo { size: info.size, visible: info.visible != 0 }
    }
}

} // verus!
