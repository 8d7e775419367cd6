use vstd::prelude::*;
use vstd::std_specs::convert::FromSpecImpl;

verus! {

/// A focus event of the console input buffer. These events are used
/// internally and should be ignored.
#[derive(Debug, Copy, Clone, PartialEq, Eq, Ord, PartialOrd)]
pub struct FocusEventRecord {
    /// Reserved.
    pub set_focus: bool,
}

/// The native `FOCUS_EVENT_RECORD`: the focus as a `BOOL`.
#[derive(Debug, Copy, Clone, PartialEq, Eq)]
pub struct RawFocusEvent {
    pub set_focus: i32,
}

impl From<FocusEventRecord> for RawFocusEvent {
    /// Writes the native record: 1 where the focus is set, else 0.
    fn from(record: FocusEventRecord) -> (r: RawFocusEvent) {
        RawFocusEvent {
            set_focus: if record.set_focus {
                1
            } else {
                0
            },
        }
    }
}

impl FromSpecImpl<FocusEventRecord> for RawFocusEvent {
    open spec fn obeys_from_spec() -> bool {
        true
    }

    open spec fn from_spec(record: FocusEventRecord) -> RawFocusEvent {
        RawFocusEvent {
            set_focus: if record.set_focus {
                1
            } else {
                0
            },
        }
    }
}

impl From<RawFocusEvent> for FocusEventRecord {
    /// Reads the native record: the focus is set where the native flag is
    /// not zero.
    #[inline]
    fn from(record: RawFocusEvent) -> (r: FocusEventRecord) {
        FocusEventRecord { set_focus: record.set_focus != 0 }
    }
}

impl FromSpecImpl<RawFocusEvent> for FocusEventRecord {
    open spec fn obeys_from_spec() -> bool {
        true
    }

    open spec fn from_spec(record: RawFocusEvent) -> FocusEventRecord {
        FocusEventRecord { set_focus: record.set_focus != 0 }
    }
}

} // verus!
