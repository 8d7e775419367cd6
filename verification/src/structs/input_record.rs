use crate::structs::focus_event::FocusEventRecord;
use crate::structs::focus_event::RawFocusEvent;
use crate::structs::input_event::KeyEventRecord;
use crate::structs::input_event::MouseEventRecord;
use crate::structs::input_event::RawKeyEvent;
use crate::structs::input_event::RawMouseEvent;
use crate::structs::menu_event::MenuEventRecord;
use crate::structs::menu_event::RawMenuEvent;
use crate::structs::window_buffer_size_event::RawWindowBufferSize;
use crate::structs::window_buffer_size_event::WindowBufferSizeRecord;
use vstd::prelude::*;

verus! {

/// The native type of a keyboard event.
pub const KEY_EVENT: u16 = 0x0001;

/// The native type of a mouse event.
pub const MOUSE_EVENT: u16 = 0x0002;

/// The native type of a change of the screen buffer's size.
pub const WINDOW_BUFFER_SIZE_EVENT: u16 = 0x0004;

/// The native type of a menu event.
pub const MENU_EVENT: u16 = 0x0008;

/// The native type of a focus event.
pub const FOCUS_EVENT: u16 = 0x0010;

/// An input event of the console input buffer.
#[derive(Copy, Clone, Debug, PartialEq, Eq)]
pub enum InputRecord {
    /// A keyboard event.
    KeyEvent(KeyEventRecord),
    /// A mouse movement or button press event.
    MouseEvent(MouseEventRecord),
    /// The new size of the console screen buffer.
    WindowBufferSizeEvent(WindowBufferSizeRecord),
    /// A focus event. These events are used internally and should be
    /// ignored.
    FocusEvent(FocusEventRecord),
    /// A menu event. These events are used internally and should be
    /// ignored.
    MenuEvent(MenuEventRecord),
}

/// The native `INPUT_RECORD`: the member of its union that its type of
/// event selects, or that type alone where it selects none.
#[derive(Copy, Clone, Debug, PartialEq, Eq)]
pub enum RawInputRecord {
    Key(RawKeyEvent),
    Mouse(RawMouseEvent),
    WindowBufferSize(RawWindowBufferSize),
    Focus(RawFocusEvent),
    Menu(RawMenuEvent),
    Other { event_type: u16 },
}

impl RawInputRecord {
    /// The native type of the event.
    pub open spec fn spec_event_type(&self) -> u16 {
        match *self {
            RawInputRecord::Key(_) => 0x0001,
            RawInputRecord::Mouse(_) => 0x0002,
            RawInputRecord::WindowBufferSize(_) => 0x0004,
            RawInputRecord::Menu(_) => 0x0008,
            RawInputRecord::Focus(_) => 0x0010,
            RawInputRecord::Other { event_type } => event_type,
        }
    }

    /// The native type of the event.
    #[verifier::when_used_as_spec(spec_event_type)]
    pub fn event_type(&self) -> (r: u16)
        ensures
            r == self.spec_event_type(),
    {
        match self {
            RawInputRecord::Key(_) => KEY_EVENT,
            RawInputRecord::Mouse(_) => MOUSE_EVENT,
            RawInputRecord::WindowBufferSize(_) => WINDOW_BUFFER_SIZE_EVENT,
            RawInputRecord::Menu(_) => MENU_EVENT,
            RawInputRecord::Focus(_) => FOCUS_EVENT,
            RawInputRecord::Other { event_type } => *event_type,
        }
    }
}

impl InputRecord {
    /// The event that a native record stands for. There is none for a key
    /// event whose code unit is half of a surrogate pair, for a mouse event
    /// whose flags name no type of event, and for a record of another type
    /// than the five.
    pub open spec fn of_raw(raw: RawInputRecord) -> Option<InputRecord> {
        match raw {
            RawInputRecord::Key(event) => match KeyEventRecord::of_raw(event) {
                Some(record) => Some(InputRecord::KeyEvent(record)),
                None => None,
            },
            RawInputRecord::Mouse(event) => match MouseEventRecord::of_raw(event) {
                Some(record) => Some(InputRecord::MouseEvent(record)),
                None => None,
            },
            RawInputRecord::WindowBufferSize(event) => Some(
                InputRecord::WindowBufferSizeEvent(WindowBufferSizeRecord { size: event.size }),
            ),
            RawInputRecord::Focus(event) => Some(
                InputRecord::FocusEvent(FocusEventRecord { set_focus: event.set_focus != 0 }),
            ),
            RawInputRecord::Menu(event) => Some(
                InputRecord::MenuEvent(MenuEventRecord { command_id: event.command_id }),
            ),
            RawInputRecord::Other { .. } => None,
        }
    }

    /// Reads a native record.
    pub fn from_raw(raw: RawInputRecord) -> (r: Option<InputRecord>)
        ensures
            r == Self::of_raw(raw),
    {
        match raw {
            RawInputRecord::Key(event) => match KeyEventRecord::from_raw(event) {
                Some(record) => Some(InputRecord::KeyEvent(record)),
                None => None,
            },
            RawInputRecord::Mouse(event) => match MouseEventRecord::from_raw(event) {
                Some(record) => Some(InputRecord::MouseEvent(record)),
                None => None,
            },
            RawInputRecord::WindowBufferSize(event) => Some(
                InputRecord::WindowBufferSizeEvent(WindowBufferSizeRecord::from(event)),
            ),
            RawInputRecord::Focus(event) => Some(
                InputRecord::FocusEvent(FocusEventRecord::from(event)),
            ),
            RawInputRecord::Menu(event) => Some(
                InputRecord::MenuEvent(MenuEventRecord::from(event)),
            ),
            RawInputRecord::Other { .. } => None,
        }
    }

    /// The native record of an event; that of a key event is meant for a
    /// character that takes one UTF-16 code unit.
    pub open spec fn raw(self) -> RawInputRecord {
        match self {
            InputRecord::KeyEvent(event) => RawInputRecord::Key(event.raw()),
            InputRecord::MouseEvent(event) => RawInputRecord::Mouse(
                RawMouseEvent {
                    mouse_position: event.mouse_position,
                    button_state: event.button_state.bits() as u32,
                    control_key_state: event.control_key_state.bits(),
                    event_flags: event.event_flags.spec_bits(),
                },
            ),
            InputRecord::WindowBufferSizeEvent(event) => RawInputRecord::WindowBufferSize(
                RawWindowBufferSize { size: event.size },
            ),
            InputRecord::FocusEvent(event) => RawInputRecord::Focus(
                RawFocusEvent {
                    set_focus: if event.set_focus {
                        1
                    } else {
                        0
                    },
                },
            ),
            InputRecord::MenuEvent(event) => RawInputRecord::Menu(
                RawMenuEvent { command_id: event.command_id },
            ),
        }
    }

    /// Whether the event has a native record: whether it is no key event
    /// whose character needs two UTF-16 code units.
    pub open spec fn fits_raw(self) -> bool {
        self matches InputRecord::KeyEvent(event) ==> event.u_char as u32 <= 0xFFFF
    }

    /// Writes the native record, where the event has one.
    pub fn to_raw(&self) -> (r: Option<RawInputRecord>)
        ensures
            r == if self.fits_raw() {
                Some(self.raw())
            } else {
                None
            },
    {
        match self {
            InputRecord::KeyEvent(event) => match event.to_raw() {
                Some(raw) => Some(RawInputRecord::Key(raw)),
                None => None,
            },
            InputRecord::MouseEvent(event) => Some(
                RawInputRecord::Mouse(RawMouseEvent::from(*event)),
            ),
            InputRecord::WindowBufferSizeEvent(event) => Some(
                RawInputRecord::WindowBufferSize(RawWindowBufferSize::from(*event)),
            ),
            InputRecord::FocusEvent(event) => Some(
                RawInputRecord::Focus(RawFocusEvent::from(*event)),
            ),
            InputRecord::MenuEvent(event) => Some(RawInputRecord::Menu(RawMenuEvent::from(*event))),
        }
    }
}

} // verus!
