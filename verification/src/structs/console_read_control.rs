use crate::structs::input_event::ControlKeyState;
use vstd::prelude::*;
use vstd::std_specs::convert::FromSpecImpl;

verus! {

/// Information for a console read operation.
#[derive(Debug, Eq, PartialEq, Copy, Clone)]
pub struct ConsoleReadControl {
    /// Size of this struct in bytes.
    pub size: u32,
    /// The number of characters to skip (and thus preserve) before writing
    /// newly read input in the buffer.
    pub initial_chars: u32,
    /// A mask of control characters, each of which signals that the read is
    /// complete: bit `n` stands for the character whose code is `n`.
    pub ctrl_wakeup_mask: u32,
    /// The state of the control keys.
    pub control_key_state: ControlKeyState,
}

/// The native `CONSOLE_READCONSOLE_CONTROL`, field by field.
#[derive(Debug, Eq, PartialEq, Copy, Clone)]
pub struct RawReadControl {
    pub length: u32,
    pub initial_chars: u32,
    pub ctrl_wakeup_mask: u32,
    pub control_key_state: u32,
}

impl ConsoleReadControl {
    /// The size in bytes of the structure: four 32-bit words.
    pub const SIZE: u32 = 16;

    /// Creates a new `ConsoleReadControl` with the given values.
    #[inline]
    pub fn new(initial_chars: u32, ctrl_wakeup_mask: u32, control_key_state: ControlKeyState) -> (r:
        Self)
        ensures
            r == (ConsoleReadControl {
                size: 16,
                initial_chars,
                ctrl_wakeup_mask,
                control_key_state,
            }),
    {
        ConsoleReadControl {
            size: ConsoleReadControl::SIZE,
            initial_chars,
            ctrl_wakeup_mask,
            control_key_state,
        }
    }

    /// Creates a new `ConsoleReadControl` with the given control mask, no
    /// characters to skip and no control key.
    #[inline]
    pub fn new_with_mask(ctrl_wakeup_mask: u32) -> (r: Self)
        ensures
            r == (ConsoleReadControl {
                size: 16,
                initial_chars: 0,
                ctrl_wakeup_mask,
                control_key_state: ControlKeyState(0),
            }),
    {
        ConsoleReadControl {
            size: ConsoleReadControl::SIZE,
            initial_chars: 0,
            ctrl_wakeup_mask,
            control_key_state: ControlKeyState::new(0),
        }
    }
}

impl From<RawReadControl> for ConsoleReadControl {
    /// Reads the native structure, field by field.
    #[inline]
    fn from(control: RawReadControl) -> (r: ConsoleReadControl) {
        ConsoleReadControl {
            size: control.length,
            initial_chars: control.initial_chars,
            ctrl_wakeup_mask: control.ctrl_wakeup_mask,
            control_key_state: ControlKeyState::new(control.control_key_state),
        }
    }
}

impl FromSpecImpl<RawReadControl> for ConsoleReadControl {
    open spec fn obeys_from_spec() -> bool {
        true
    }

    open spec fn from_spec(control: RawReadControl) -> ConsoleReadControl {
        ConsoleReadControl {
            size: control.length,
            initial_chars: control.initial_chars,
            ctrl_wakeup_mask: control.ctrl_wakeup_mask,
            control_key_state: ControlKeyState(control.control_key_state),
        }
    }
}

impl From<ConsoleReadControl> for RawReadControl {
    /// Writes the native structure. Its length is the size of the
    /// structure, whatever the `size` field holds.
    #[inline]
    fn from(control: ConsoleReadControl) -> (r: RawReadControl) {
        RawReadControl {
            length: ConsoleReadControl::SIZE,
            initial_chars: control.initial_chars,
            ctrl_wakeup_mask: control.ctrl_wakeup_mask,
            control_key_state: control.control_key_state.get_state(),
        }
    }
}

impl FromSpecImpl<ConsoleReadControl> for RawReadControl {
    open spec fn obeys_from_spec() -> bool {
        true
    }

    open spec fn from_spec(control: ConsoleReadControl) -> RawReadControl {
        RawReadControl {
            length: 16,
            initial_chars: control.initial_chars,
            ctrl_wakeup_mask: control.ctrl_wakeup_mask,
            control_key_state: control.control_key_state.bits(),
        }
    }
}

} // verus!
