use crate::structs::coord::Coord;
use vstd::prelude::*;
use vstd::std_specs::convert::FromSpecImpl;

verus! {

/// A change in the size of the console screen buffer.
#[derive(Debug, Copy, Clone, PartialEq, Eq)]
pub struct WindowBufferSizeRecord {
    /// The size of the console screen buffer, in character cell columns and
    /// rows.
    pub size: Coord,
}

/// The native `WINDOW_BUFFER_SIZE_RECORD`.
#[derive(Debug, Copy, Clone, PartialEq, Eq)]
pub struct RawWindowBufferSize {
    pub size: Coord,
}

impl From<WindowBufferSizeRecord> for RawWindowBufferSize {
    /// Writes the native record.
    fn from(record: WindowBufferSizeRecord) -> (r: RawWindowBufferSize) {
        RawWindowBufferSize { size: record.size }
    }
}

impl FromSpecImpl<WindowBufferSizeRecord> for RawWindowBufferSize {
    open spec fn obeys_from_spec() -> bool {
        true
    }

    open spec fn from_spec(record: WindowBufferSizeRecord) -> RawWindowBufferSize {
        RawWindowBufferSize { size: record.size }
    }
}

impl From<RawWindowBufferSize> for WindowBufferSizeRecord {
    /// Reads the native record.
    #[inline]
    fn from(record: RawWindowBufferSize) -> (r: WindowBufferSizeRecord) {
        WindowBufferSizeRecord { size: record.size }
    }
}

impl FromSpecImpl<RawWindowBufferSize> for WindowBufferSizeRecord {
    open spec fn obeys_from_spec() -> bool {
        true
    }

    open spec fn from_spec(record: RawWindowBufferSize) -> WindowBufferSizeRecord {
        WindowBufferSizeRecord { size: record.size }
    }
}

} // verus!
