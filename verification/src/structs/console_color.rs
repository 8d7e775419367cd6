use vstd::prelude::*;
use vstd::std_specs::convert::FromSpecImpl;
use vstd::std_specs::convert::TryFromSpecImpl;
use vstd::string::StringExecFns;

verus! {

/// A color of the console: its number is the low half byte of a text
/// attribute, read as blue (1), green (2), red (4) and intensity (8).
#[derive(Debug, Copy, Clone, Eq, PartialEq)]
pub enum ConsoleColor {
    Black,
    DarkBlue,
    DarkGreen,
    DarkCyan,
    DarkRed,
    DarkMagenta,
    DarkYellow,
    Gray,
    DarkGray,
    Blue,
    Green,
    Cyan,
    Red,
    Magenta,
    Yellow,
    White,
}

/// The error of reading a color from a number that names none. It holds the
/// number.
#[derive(Debug, Copy, Clone, Eq, PartialEq)]
pub struct ParseColorError(pub u16);

impl ConsoleColor {
    /// The number of the color, from 0 for black to 15 for white.
    pub open spec fn number(self) -> u16 {
        match self {
            ConsoleColor::Black => 0,
            ConsoleColor::DarkBlue => 1,
            ConsoleColor::DarkGreen => 2,
            ConsoleColor::DarkCyan => 3,
            ConsoleColor::DarkRed => 4,
            ConsoleColor::DarkMagenta => 5,
            ConsoleColor::DarkYellow => 6,
            ConsoleColor::Gray => 7,
            ConsoleColor::DarkGray => 8,
            ConsoleColor::Blue => 9,
            ConsoleColor::Green => 10,
            ConsoleColor::Cyan => 11,
            ConsoleColor::Red => 12,
            ConsoleColor::Magenta => 13,
            ConsoleColor::Yellow => 14,
            ConsoleColor::White => 15,
        }
    }

    /// The color whose number is `value`, for a number up to 15.
    pub open spec fn with_number(value: u16) -> ConsoleColor {
        if value == 0 {
            ConsoleColor::Black
        } else if value == 1 {
            ConsoleColor::DarkBlue
        } else if value == 2 {
            ConsoleColor::DarkGreen
        } else if value == 3 {
            ConsoleColor::DarkCyan
        } else if value == 4 {
            ConsoleColor::DarkRed
        } else if value == 5 {
            ConsoleColor::DarkMagenta
        } else if value == 6 {
            ConsoleColor::DarkYellow
        } else if value == 7 {
            ConsoleColor::Gray
        } else if value == 8 {
            ConsoleColor::DarkGray
        } else if value == 9 {
            ConsoleColor::Blue
        } else if value == 10 {
            ConsoleColor::Green
        } else if value == 11 {
            ConsoleColor::Cyan
        } else if value == 12 {
            ConsoleColor::Red
        } else if value == 13 {
            ConsoleColor::Magenta
        } else if value == 14 {
            ConsoleColor::Yellow
        } else {
            ConsoleColor::White
        }
    }

    /// The color whose number is `value`, which is 15 at most.
    pub fn from_number(value: u16) -> (r: ConsoleColor)
        requires
            value <= 15,
        ensures
            r == Self::with_number(value),
    {
        match value {
            0 => ConsoleColor::Black,
            1 => ConsoleColor::DarkBlue,
            2 => ConsoleColor::DarkGreen,
            3 => ConsoleColor::DarkCyan,
            4 => ConsoleColor::DarkRed,
            5 => ConsoleColor::DarkMagenta,
            6 => ConsoleColor::DarkYellow,
            7 => ConsoleColor::Gray,
            8 => ConsoleColor::DarkGray,
            9 => ConsoleColor::Blue,
            10 => ConsoleColor::Green,
            11 => ConsoleColor::Cyan,
            12 => ConsoleColor::Red,
            13 => ConsoleColor::Magenta,
            14 => ConsoleColor::Yellow,
            _ => ConsoleColor::White,
        }
    }

    /// The color of the text that text attributes give: the color whose
    /// number is their low half byte.
    pub open spec fn foreground_of(attributes: u16) -> ConsoleColor {
        Self::with_number(attributes & 0xF)
    }

    /// The color of the background that text attributes give: the color
    /// whose number is their second half byte.
    pub open spec fn background_of(attributes: u16) -> ConsoleColor {
        Self::with_number((attributes >> 4) & 0xF)
    }

    /// The text attributes with this color as the color of the text: the
    /// low half byte becomes the number of the color, and the other bits
    /// stay.
    pub open spec fn on_foreground(self, attributes: u16) -> u16 {
        (attributes & !(attributes & 0xF)) | self.number()
    }

    /// The text attributes with this color as the color of the background:
    /// the second half byte becomes the number of the color, and the other
    /// bits stay.
    pub open spec fn on_background(self, attributes: u16) -> u16 {
        (attributes & !(attributes & 0xF0)) | ((self.number() * 16) as u16)
    }

    /// Reads the color of the text from text attributes.
    pub fn foreground(attributes: u16) -> (r: ConsoleColor)
        ensures
            r == Self::foreground_of(attributes),
    {
        assert(attributes & 0xF <= 15) by (bit_vector);
        ConsoleColor::from_number(attributes & 0xF)
    }

    /// Reads the color of the background from text attributes.
    pub fn background(attributes: u16) -> (r: ConsoleColor)
        ensures
            r == Self::background_of(attributes),
    {
        assert((attributes >> 4) & 0xF <= 15) by (bit_vector);
        ConsoleColor::from_number((attributes >> 4) & 0xF)
    }

    /// Writes this color into text attributes as the color of the text.
    pub fn set_foreground(&self, attributes: u16) -> (r: u16)
        ensures
            r == self.on_foreground(attributes),
    {
        (attributes & !(attributes & 0xF)) | self.as_foreground_color()
    }

    /// Writes this color into text attributes as the color of the
    /// background.
    pub fn set_background(&self, attributes: u16) -> (r: u16)
        ensures
            r == self.on_background(attributes),
    {
        (attributes & !(attributes & 0xF0)) | self.as_background_color()
    }

    /// The text attribute of this color as foreground color: its number.
    pub fn as_foreground_color(&self) -> (r: u16)
        ensures
            r == self.number(),
            r <= 15,
    {
        match self {
            ConsoleColor::Black => 0,
            ConsoleColor::DarkBlue => 1,
            ConsoleColor::DarkGreen => 2,
            ConsoleColor::DarkCyan => 3,
            ConsoleColor::DarkRed => 4,
            ConsoleColor::DarkMagenta => 5,
            ConsoleColor::DarkYellow => 6,
            ConsoleColor::Gray => 7,
            ConsoleColor::DarkGray => 8,
            ConsoleColor::Blue => 9,
            ConsoleColor::Green => 10,
            ConsoleColor::Cyan => 11,
            ConsoleColor::Red => 12,
            ConsoleColor::Magenta => 13,
            ConsoleColor::Yellow => 14,
            ConsoleColor::White => 15,
        }
    }

    /// The text attribute of this color as background color: its number in
    /// the second half byte, sixteen times the number.
    pub fn as_background_color(&self) -> (r: u16)
        ensures
            r == self.number() * 16,
    {
        self.as_foreground_color() * 16
    }

    /// The name of the color as it is shown.
    pub open spec fn display(self) -> Seq<char> {
        match self {
            ConsoleColor::Black => "ConsoleColor::Black"@,
            ConsoleColor::DarkBlue => "ConsoleColor::DarkBlue"@,
            ConsoleColor::DarkGreen => "ConsoleColor::DarkGreen"@,
            ConsoleColor::DarkCyan => "ConsoleColor::DarkCyan"@,
            ConsoleColor::DarkRed => "ConsoleColor::DarkRed"@,
            ConsoleColor::DarkMagenta => "ConsoleColor::DarkMagenta"@,
            ConsoleColor::DarkYellow => "ConsoleColor::DarkYellow"@,
            ConsoleColor::Gray => "ConsoleColor::Gray"@,
            ConsoleColor::DarkGray => "ConsoleColor::DarkGray"@,
            ConsoleColor::Blue => "ConsoleColor::Blue"@,
            ConsoleColor::Green => "ConsoleColor::Green"@,
            ConsoleColor::Cyan => "ConsoleColor::Cyan"@,
            ConsoleColor::Red => "ConsoleColor::Red"@,
            ConsoleColor::Magenta => "ConsoleColor::Magenta"@,
            ConsoleColor::Yellow => "ConsoleColor::Yellow"@,
            ConsoleColor::White => "ConsoleColor::White"@,
        }
    }

    /// The name of the color as it is shown: the name of the type, two
    /// colons and the name of the variant.
    pub fn to_string(&self) -> (r: String)
        ensures
            r@ == self.display(),
    {
        match self {
            ConsoleColor::Black => String::from_str("ConsoleColor::Black"),
            ConsoleColor::DarkBlue => String::from_str("ConsoleColor::DarkBlue"),
            ConsoleColor::DarkGreen => String::from_str("ConsoleColor::DarkGreen"),
            ConsoleColor::DarkCyan => String::from_str("ConsoleColor::DarkCyan"),
            ConsoleColor::DarkRed => String::from_str("ConsoleColor::DarkRed"),
            ConsoleColor::DarkMagenta => String::from_str("ConsoleColor::DarkMagenta"),
            ConsoleColor::DarkYellow => String::from_str("ConsoleColor::DarkYellow"),
            ConsoleColor::Gray => String::from_str("ConsoleColor::Gray"),
            ConsoleColor::DarkGray => String::from_str("ConsoleColor::DarkGray"),
            ConsoleColor::Blue => String::from_str("ConsoleColor::Blue"),
            ConsoleColor::Green => String::from_str("ConsoleColor::Green"),
            ConsoleColor::Cyan => String::from_str("ConsoleColor::Cyan"),
            ConsoleColor::Red => String::from_str("ConsoleColor::Red"),
            ConsoleColor::Magenta => String::from_str("ConsoleColor::Magenta"),
            ConsoleColor::Yellow => String::from_str("ConsoleColor::Yellow"),
            ConsoleColor::White => String::from_str("ConsoleColor::White"),
        }
    }
}

impl TryFrom<u16> for ConsoleColor {
    type Error = ParseColorError;

    /// Reads a color from its number. A number above 15 names no color and
    /// comes back in the error.
    fn try_from(value: u16) -> (r: Result<Self, Self::Error>) {
        match value {
            0 => Ok(ConsoleColor::Black),
            1 => Ok(ConsoleColor::DarkBlue),
            2 => Ok(ConsoleColor::DarkGreen),
            3 => Ok(ConsoleColor::DarkCyan),
            4 => Ok(ConsoleColor::DarkRed),
            5 => Ok(ConsoleColor::DarkMagenta),
            6 => Ok(ConsoleColor::DarkYellow),
            7 => Ok(ConsoleColor::Gray),
            8 => Ok(ConsoleColor::DarkGray),
            9 => Ok(ConsoleColor::Blue),
            10 => Ok(ConsoleColor::Green),
            11 => Ok(ConsoleColor::Cyan),
            12 => Ok(ConsoleColor::Red),
            13 => Ok(ConsoleColor::Magenta),
            14 => Ok(ConsoleColor::Yellow),
            15 => Ok(ConsoleColor::White),
            _ => Err(ParseColorError(value)),
        }
    }
}

impl TryFromSpecImpl<u16> for ConsoleColor {
    open spec fn obeys_try_from_spec() -> bool {
        true
    }

    open spec fn try_from_spec(value: u16) -> Result<Self, Self::Error> {
        if value <= 15 {
            Ok(ConsoleColor::with_number(value))
        } else {
            Err(ParseColorError(value))
        }
    }
}

impl From<ConsoleColor> for u16 {
    /// The number of the color.
    fn from(color: ConsoleColor) -> (r: u16) {
        color.as_foreground_color()
    }
}

impl FromSpecImpl<ConsoleColor> for u16 {
    open spec fn obeys_from_spec() -> bool {
        true
    }

    open spec fn from_spec(color: ConsoleColor) -> u16 {
        color.number()
    }
}

} // verus!
