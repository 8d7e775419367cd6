use crate::structs::coord::Coord;
use vstd::prelude::*;

verus! {

/// Information for a console font. It has the fields of the native
/// `CONSOLE_FONT_INFO`.
#[derive(Debug, Copy, Clone, Eq, PartialEq)]
pub struct ConsoleFontInfo {
    /// The index of the font in the system's console font table.
    pub font_index: u32,
    /// Font size where x is width and y height.
    pub font_size: Coord,
}

} // verus!
