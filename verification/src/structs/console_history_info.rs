use vstd::prelude::*;
use vstd::std_specs::convert::FromSpecImpl;

verus! {

/// Information about the console history.
#[derive(Debug, Copy, Clone, Eq, PartialEq)]
pub struct ConsoleHistoryInfo {
    /// The size of the structure, in bytes.
    pub size: u32,
    /// The number of commands kept in each history buffer.
    pub history_buffer_size: u32,
    /// The number of history buffers kept for this console process.
    pub number_of_history_buffers: u32,
    /// Determines if duplicate entries will be stored in the history buffer.
    pub allow_duplicate_entries: bool,
}

/// The native `CONSOLE_HISTORY_INFO`, field by field: the treatment of
/// duplicates as a word of flags.
#[derive(Debug, Copy, Clone, Eq, PartialEq)]
pub struct RawHistoryInfo {
    pub size: u32,
    pub history_buffer_size: u32,
    pub number_of_history_buffers: u32,
    pub flags: u32,
}

impl From<ConsoleHistoryInfo> for RawHistoryInfo {
    /// Writes the native structure: the flags are 1 where duplicates are
    /// allowed, else 0.
    #[inline]
    fn from(info: ConsoleHistoryInfo) -> (r: RawHistoryInfo) {
        RawHistoryInfo {
            size: info.size,
            history_buffer_size: info.history_buffer_size,
            number_of_history_buffers: info.number_of_history_buffers,
            flags: if info.allow_duplicate_entries {
                1
            } else {
                0
            },
        }
    }
}

impl FromSpecImpl<ConsoleHistoryInfo> for RawHistoryInfo {
    open spec fn obeys_from_spec() -> bool {
        true
    }

    open spec fn from_spec(info: ConsoleHistoryInfo) -> RawHistoryInfo {
        RawHistoryInfo {
            size: info.size,
            history_buffer_size: info.history_buffer_size,
            number_of_history_buffers: info.number_of_history_buffers,
            flags: if info.allow_duplicate_entries {
                1
            } else {
                0
            },
        }
    }
}

impl From<RawHistoryInfo> for ConsoleHistoryInfo {
    /// Reads the native structure: duplicates are allowed where the flags
    /// are not zero.
    #[inline]
    fn from(info: RawHistoryInfo) -> (r: ConsoleHistoryInfo) {
        ConsoleHistoryInfo {
            size: info.size,
            history_buffer_size: info.history_buffer_size,
            number_of_history_buffers: info.number_of_history_buffers,
            allow_duplicate_entries: info.flags != 0,
        }
    }
}

impl FromSpecImpl<RawHistoryInfo> for ConsoleHistoryInfo {
    open spec fn obeys_from_spec() -> bool {
        true
    }

    open spec fn from_spec(info: RawHistoryInfo) -> ConsoleHistoryInfo {
        ConsoleHistoryInfo {
            size: info.size,
            history_buffer_size: info.history_buffer_size,
            number_of_history_buffers: info.number_of_history_buffers,
            allow_duplicate_entries: info.flags != 0,
        }
    }
}

} // verus!
