use vstd::prelude::*;
use vstd::std_specs::convert::FromSpecImpl;

verus! {

/// A menu event of the console input buffer. These events are used
/// internally and should be ignored.
#[derive(Debug, Copy, Clone, PartialEq, Eq)]
pub struct MenuEventRecord {
    /// Reserved.
    pub command_id: u32,
}

/// The native `MENU_EVENT_RECORD`.
#[derive(Debug, Copy, Clone, PartialEq, Eq)]
pub struct RawMenuEvent {
    pub command_id: u32,
}

impl From<MenuEventRecord> for RawMenuEvent {
    /// Writes the native record.
    fn from(record: MenuEventRecord) -> (r: RawMenuEvent) {
        RawMenuEvent { command_id: record.command_id }
    }
}

impl FromSpecImpl<MenuEventRecord> for RawMenuEvent {
    open spec fn obeys_from_spec() -> bool {
        true
    }

    open spec fn from_spec(record: MenuEventRecord) -> RawMenuEvent {
        RawMenuEvent { command_id: record.command_id }
    }
}

impl From<RawMenuEvent> for MenuEventRecord {
    /// Reads the native record.
    #[inline]
    fn from(record: RawMenuEvent) -> (r: MenuEventRecord) {
        MenuEventRecord { command_id: record.command_id }
    }
}

impl FromSpecImpl<RawMenuEvent> for MenuEventRecord {
    open spec fn obeys_from_spec() -> bool {
        true
    }

    open spec fn from_spec(record: RawMenuEvent) -> MenuEventRecord {
        MenuEventRecord { command_id: record.command_id }
    }
}

} // verus!
