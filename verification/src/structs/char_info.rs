use crate::text::char_from_unit;
use crate::text::is_single_unit;
use crate::text::unit_from_char;
use vstd::prelude::*;

verus! {

/// A character cell of a console screen buffer: the character and its
/// attributes.
#[derive(Debug, Copy, Clone, Eq, PartialEq)]
pub struct CharInfo {
    /// The char value
    pub char_value: char,
    /// The character attributes
    pub attributes: u16,
}

/// The native `CHAR_INFO`, field by field: the character as one UTF-16 code
/// unit.
#[derive(Debug, Copy, Clone, Eq, PartialEq)]
pub struct RawCharInfo {
    pub unicode_char: u16,
    pub attributes: u16,
}

impl CharInfo {
    /// Creates a new `CharInfo`.
    #[inline]
    pub fn new(char_value: char, attributes: u16) -> (r: Self)
        ensures
            r == (CharInfo { char_value, attributes }),
    {
        CharInfo { char_value, attributes }
    }

    /// Whether the cell can be written as a native cell: whether its
    /// character takes one UTF-16 code unit.
    pub open spec fn fits_raw(self) -> bool {
        self.char_value as u32 <= 0xFFFF
    }

    /// The native cell of a cell that fits one.
    pub open spec fn raw(self) -> RawCharInfo {
        RawCharInfo { unicode_char: self.char_value as u32 as u16, attributes: self.attributes }
    }

    /// The cell that a native cell stands for, where its code unit is no
    /// half of a surrogate pair.
    pub open spec fn of_raw(raw: RawCharInfo) -> CharInfo {
        CharInfo { char_value: raw.unicode_char as u32 as char, attributes: raw.attributes }
    }

    /// Reads a native cell. There is a result unless the cell's code unit is
    /// half of a surrogate pair.
    pub fn from_raw(raw: RawCharInfo) -> (r: Option<CharInfo>)
        ensures
            r == if is_single_unit(raw.unicode_char) {
                Some(Self::of_raw(raw))
            } else {
                None
            },
    {
        match char_from_unit(raw.unicode_char) {
            Some(char_value) => Some(CharInfo { char_value, attributes: raw.attributes }),
            None => None,
        }
    }

    /// Writes the native cell of a cell that fits one.
    pub fn as_raw(&self) -> (r: RawCharInfo)
        requires
            self.fits_raw(),
        ensures
            r == self.raw(),
    {
        RawCharInfo { unicode_char: self.char_value as u32 as u16, attributes: self.attributes }
    }

    /// Writes the native cell. There is a result unless the character needs
    /// two UTF-16 code units.
    pub fn to_raw(&self) -> (r: Option<RawCharInfo>)
        ensures
            r == if self.fits_raw() {
                Some(self.raw())
            } else {
                None
            },
    {
        match unit_from_char(self.char_value) {
            Some(unicode_char) => Some(RawCharInfo { unicode_char, attributes: self.attributes }),
            None => None,
        }
    }
}

} // verus!
