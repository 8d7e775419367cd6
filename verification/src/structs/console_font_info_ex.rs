use crate::structs::coord::Coord;
use vstd::prelude::*;

verus! {

/// The number of UTF-16 code units of a typeface name.
pub const LF_FACESIZE: usize = 32;

/// Extended information about the console font. It has the fields of the
/// native `CONSOLE_FONT_INFOEX`.
#[derive(Debug, Copy, Clone, Eq, PartialEq)]
pub struct ConsoleFontInfoEx {
    /// Size of the native structure in bytes.
    pub size: u32,
    /// The index of the font in the system's console font table.
    pub font_index: u32,
    /// Font size where x is width and y height.
    pub font_size: Coord,
    /// The font pitch and family
    pub font_family: u32,
    /// The font weight, in a range from 100 to 1000 in multiples of 100.
    pub font_weight: u32,
    /// The name of the typeface (such as Courier or Arial).
    pub face_name: [u16; LF_FACESIZE],
}

impl ConsoleFontInfoEx {
    /// The size in bytes of the native structure: four 32-bit words, a
    /// coord and the 32 code units of the name.
    pub const NATIVE_SIZE: u32 = 84;
}

} // verus!
