use crate::structs::coord::Coord;
use vstd::prelude::*;

verus! {

/// The code of the operating system for an invalid handle.
pub const ERROR_INVALID_HANDLE: i32 = 6;

/// Why an operation failed. The failure is handed to the caller; nothing is
/// tried again.
#[derive(Debug, Copy, Clone, PartialEq, Eq)]
pub enum ConsoleError {
    /// The handle is the invalid one, or its resource cannot serve the
    /// operation: events were asked of a handle that is no console.
    InvalidHandle,
    /// A native call failed. The code is the last error of the operating
    /// system, as it is.
    Os { code: i32 },
    /// What was handed in cannot be written: code units that are not
    /// well-formed cannot be written to a file or pipe as text, more
    /// items than a 32-bit count can say cannot be written to a console in
    /// one call, and a character that needs two code units cannot fill a
    /// cell.
    InvalidInput,
    /// What was read is not well-formed in its encoding.
    InvalidData,
    /// A console screen buffer could not be created.
    NoScreenBuffer,
}

/// A result that the operating system is documented never to give. The
/// caller of an exchange stops on it; it is no failure to go on from.
#[derive(Debug, Copy, Clone, PartialEq, Eq)]
pub enum Violation {
    /// A write to a console succeeded with another count than it was asked
    /// for.
    PartialConsoleWrite { requested: u32, written: u32 },
    /// A read of input events succeeded with no event.
    NoEvent,
    /// A native call reported more items than it had room for.
    Overrun,
    /// A native call gave an input record or a character cell that stands
    /// for no value.
    Unreadable,
    /// A screen buffer was reported with a negative width or height.
    InvalidSize { size: Coord },
    /// An owned handle could not be closed.
    CloseFailed { handle: isize },
    /// The reply has not the shape of what the request asks for, or there
    /// was no request to reply to.
    UnexpectedReply,
}

impl ConsoleError {
    /// The code of the operating system that the failure carries, if it
    /// carries one.
    pub open spec fn os_code(self) -> Option<i32> {
        match self {
            ConsoleError::InvalidHandle => Some(6),
            ConsoleError::Os { code } => Some(code),
            _ => None,
        }
    }

    /// The code of the operating system that the failure carries, if it
    /// carries one: the last error of a failed native call, or the code for
    /// an invalid handle.
    pub fn raw_os_error(&self) -> (r: Option<i32>)
        ensures
            r == self.os_code(),
    {
        match self {
            ConsoleError::InvalidHandle => Some(ERROR_INVALID_HANDLE),
            ConsoleError::Os { code } => Some(*code),
            _ => None,
        }
    }
}

} // verus!
