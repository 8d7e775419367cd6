use crate::structs::coord::Coord;
use crate::text::char_from_unit;
use crate::text::is_single_unit;
use crate::text::unit_from_char;
use vstd::prelude::*;
use vstd::std_specs::convert::FromSpecImpl;

verus! {

/// A keyboard input event of the console input buffer.
#[derive(Debug, Copy, Clone, PartialEq, Eq)]
pub struct KeyEventRecord {
    /// If the key is pressed, this member is true. Otherwise the key is
    /// released.
    pub key_down: bool,
    /// The repeat count, which indicates that a key is being held down.
    pub repeat_count: u16,
    /// A virtual-key code that identifies the given key in a
    /// device-independent manner.
    pub virtual_key_code: u16,
    /// The virtual scan code of the given key: the device-dependent value
    /// generated by the keyboard hardware.
    pub virtual_scan_code: u16,
    /// The Unicode character of the key.
    pub u_char: char,
    /// The state of the control keys.
    pub control_key_state: ControlKeyState,
}

/// The native `KEY_EVENT_RECORD`, field by field: the key state as a
/// `BOOL` and the character as one UTF-16 code unit.
#[derive(Debug, Copy, Clone, PartialEq, Eq)]
pub struct RawKeyEvent {
    pub key_down: i32,
    pub repeat_count: u16,
    pub virtual_key_code: u16,
    pub virtual_scan_code: u16,
    pub unicode_char: u16,
    pub control_key_state: u32,
}

/// A mouse input event of the console input buffer.
#[derive(Debug, Copy, Clone, PartialEq, Eq)]
pub struct MouseEventRecord {
    /// The location of the cursor, in terms of the console screen buffer's
    /// character-cell coordinates.
    pub mouse_position: Coord,
    /// The status of the mouse buttons.
    pub button_state: ButtonState,
    /// The state of the control keys.
    pub control_key_state: ControlKeyState,
    /// The type of mouse event.
    pub event_flags: EventFlags,
}

/// The native `MOUSE_EVENT_RECORD`, field by field.
#[derive(Debug, Copy, Clone, PartialEq, Eq)]
pub struct RawMouseEvent {
    pub mouse_position: Coord,
    pub button_state: u32,
    pub control_key_state: u32,
    pub event_flags: u32,
}

/// The state of the mouse buttons.
#[derive(Debug, Copy, Clone, PartialEq, Eq)]
pub struct ButtonState(pub i32);

/// The state of the control keys.
#[derive(Debug, Copy, Clone, PartialEq, Eq)]
pub struct ControlKeyState(pub u32);

/// The type of a mouse event.
#[derive(Debug, Copy, Clone, PartialEq, Eq)]
pub enum EventFlags {
    /// A button is being pressed or released.
    PressOrRelease,
    /// A change in mouse position occurred.
    MouseMoved,
    /// The second click of a double-click occurred.
    DoubleClick,
    /// The vertical mouse wheel was moved.
    MouseWheeled,
    /// The horizontal mouse wheel was moved.
    MouseHwheeled,
}

impl ControlKeyState {
    /// The right ALT key is pressed.
    pub const RIGHT_ALT_PRESSED: u32 = 0x0001;

    /// The left ALT key is pressed.
    pub const LEFT_ALT_PRESSED: u32 = 0x0002;

    /// The right CTRL key is pressed.
    pub const RIGHT_CTRL_PRESSED: u32 = 0x0004;

    /// The left CTRL key is pressed.
    pub const LEFT_CTRL_PRESSED: u32 = 0x0008;

    /// The SHIFT key is pressed.
    pub const SHIFT_PRESSED: u32 = 0x0010;

    /// The NUM LOCK light is on.
    pub const NUM_LOCK_ON: u32 = 0x0020;

    /// The SCROLL LOCK light is on.
    pub const SCROLL_LOCK_ON: u32 = 0x0040;

    /// The CAPS LOCK light is on.
    pub const CAPS_LOCK_ON: u32 = 0x0080;

    /// The key is enhanced.
    pub const ENHANCED_KEY: u32 = 0x0100;

    /// The raw state, for contracts.
    pub open spec fn bits(self) -> u32 {
        self.0
    }

    /// Whether the raw state has a bit in common with `state`.
    pub open spec fn holds(self, state: u32) -> bool {
        (state & self.0) != 0
    }

    /// Creates a new `ControlKeyState` with the given state.
    #[inline]
    pub fn new(state: u32) -> (r: Self)
        ensures
            r.bits() == state,
    {
        ControlKeyState(state)
    }

    /// Checks whether this state contains the specified.
    #[inline]
    pub fn has_state(&self, state: u32) -> (r: bool)
        ensures
            r == self.holds(state),
    {
        (state & self.0) != 0
    }

    /// Returns the raw state.
    #[inline]
    pub fn get_state(&self) -> (r: u32)
        ensures
            r == self.bits(),
    {
        self.0
    }

    /// Returns whether one of the two ALT keys is pressed.
    #[inline]
    pub fn is_alt_pressed(&self) -> (r: bool)
        ensures
            r == (self.holds(0x0001) || self.holds(0x0002)),
    {
        self.has_state(ControlKeyState::RIGHT_ALT_PRESSED) || self.has_state(
            ControlKeyState::LEFT_ALT_PRESSED,
        )
    }

    /// Returns whether one of the two CTRL keys is pressed.
    #[inline]
    pub fn is_ctrl_pressed(&self) -> (r: bool)
        ensures
            r == (self.holds(0x0004) || self.holds(0x0008)),
    {
        self.has_state(ControlKeyState::RIGHT_CTRL_PRESSED) || self.has_state(
            ControlKeyState::LEFT_CTRL_PRESSED,
        )
    }

    /// Returns whether the SHIFT key is pressed.
    #[inline]
    pub fn is_shift_pressed(&self) -> (r: bool)
        ensures
            r == self.holds(0x0010),
    {
        self.has_state(ControlKeyState::SHIFT_PRESSED)
    }

    /// Returns whether the NUM LOCK light is on.
    #[inline]
    pub fn is_num_lock_on(&self) -> (r: bool)
        ensures
            r == self.holds(0x0020),
    {
        self.has_state(ControlKeyState::NUM_LOCK_ON)
    }

    /// Returns whether the CAPS LOCK light is on.
    #[inline]
    pub fn is_caps_lock_on(&self) -> (r: bool)
        ensures
            r == self.holds(0x0080),
    {
        self.has_state(ControlKeyState::CAPS_LOCK_ON)
    }

    /// Returns whether the SCROLL LOCK light is on.
    #[inline]
    pub fn is_scroll_lock_on(&self) -> (r: bool)
        ensures
            r == self.holds(0x0040),
    {
        self.has_state(ControlKeyState::SCROLL_LOCK_ON)
    }

    /// Returns whether the key is enhanced.
    #[inline]
    pub fn is_enhanced_key(&self) -> (r: bool)
        ensures
            r == self.holds(0x0100),
    {
        self.has_state(ControlKeyState::ENHANCED_KEY)
    }
}

impl ButtonState {
    /// The leftmost mouse button.
    pub const FROM_LEFT_1ST_BUTTON_PRESSED: u32 = 0x0001;

    /// The rightmost mouse button.
    pub const RIGHTMOST_BUTTON_PRESSED: u32 = 0x0002;

    /// The second button from the left.
    pub const FROM_LEFT_2ND_BUTTON_PRESSED: u32 = 0x0004;

    /// The third button from the left.
    pub const FROM_LEFT_3RD_BUTTON_PRESSED: u32 = 0x0008;

    /// The fourth button from the left.
    pub const FROM_LEFT_4TH_BUTTON_PRESSED: u32 = 0x0010;

    /// The raw state, for contracts.
    pub open spec fn bits(self) -> i32 {
        self.0
    }

    /// Whether the raw state, read as the native unsigned word, has a bit
    /// in common with `buttons`.
    pub open spec fn holds(self, buttons: u32) -> bool {
        ((self.0 as u32) & buttons) != 0
    }

    /// Returns whether the button is released or pressed.
    #[inline]
    pub fn release_button(&self) -> (r: bool)
        ensures
            r == (self.bits() == 0),
    {
        self.0 == 0
    }

    /// Returns whether the left button was pressed.
    #[inline]
    pub fn left_button(&self) -> (r: bool)
        ensures
            r == self.holds(0x0001),
    {
        (#[verifier::truncate] (self.0 as u32)) & ButtonState::FROM_LEFT_1ST_BUTTON_PRESSED != 0
    }

    /// Returns whether the right button was pressed: the rightmost one, or
    /// the third or fourth from the left.
    #[inline]
    pub fn right_button(&self) -> (r: bool)
        ensures
            r == self.holds(0x0002u32 | 0x0008u32 | 0x0010u32),
    {
        (#[verifier::truncate] (self.0 as u32)) & (ButtonState::RIGHTMOST_BUTTON_PRESSED
            | ButtonState::FROM_LEFT_3RD_BUTTON_PRESSED
            | ButtonState::FROM_LEFT_4TH_BUTTON_PRESSED) != 0
    }

    /// Returns whether the middle button was pressed.
    #[inline]
    pub fn middle_button(&self) -> (r: bool)
        ensures
            r == self.holds(0x0004),
    {
        (#[verifier::truncate] (self.0 as u32)) & ButtonState::FROM_LEFT_2ND_BUTTON_PRESSED != 0
    }

    /// Returns whether there is a down scroll.
    #[inline]
    pub fn scroll_down(&self) -> (r: bool)
        ensures
            r == (self.bits() < 0),
    {
        self.0 < 0
    }

    /// Returns whether there is a up scroll.
    #[inline]
    pub fn scroll_up(&self) -> (r: bool)
        ensures
            r == (self.bits() > 0),
    {
        self.0 > 0
    }

    /// Returns the raw state.
    #[inline]
    pub fn get_state(&self) -> (r: i32)
        ensures
            r == self.bits(),
    {
        self.0
    }
}

impl From<u32> for ButtonState {
    /// Reads the native unsigned word as the signed state: the same 32
    /// bits.
    #[inline]
    fn from(state: u32) -> (r: ButtonState) {
        ButtonState(#[verifier::truncate] (state as i32))
    }
}

impl FromSpecImpl<u32> for ButtonState {
    open spec fn obeys_from_spec() -> bool {
        true
    }

    open spec fn from_spec(state: u32) -> ButtonState {
        ButtonState(state as i32)
    }
}

impl EventFlags {
    /// The native word of this type of event.
    pub open spec fn spec_bits(self) -> u32 {
        match self {
            EventFlags::PressOrRelease => 0x0000,
            EventFlags::MouseMoved => 0x0001,
            EventFlags::DoubleClick => 0x0002,
            EventFlags::MouseWheeled => 0x0004,
            EventFlags::MouseHwheeled => 0x0008,
        }
    }

    /// The native word of this type of event.
    #[verifier::when_used_as_spec(spec_bits)]
    pub fn bits(self) -> (r: u32)
        ensures
            r == self.spec_bits(),
    {
        match self {
            EventFlags::PressOrRelease => 0x0000,
            EventFlags::MouseMoved => 0x0001,
            EventFlags::DoubleClick => 0x0002,
            EventFlags::MouseWheeled => 0x0004,
            EventFlags::MouseHwheeled => 0x0008,
        }
    }

    /// The type of event that the native word `event` names, if it names
    /// one.
    pub open spec fn of_bits(event: u32) -> Option<EventFlags> {
        if event == 0x0000 {
            Some(EventFlags::PressOrRelease)
        } else if event == 0x0001 {
            Some(EventFlags::MouseMoved)
        } else if event == 0x0002 {
            Some(EventFlags::DoubleClick)
        } else if event == 0x0004 {
            Some(EventFlags::MouseWheeled)
        } else if event == 0x0008 {
            Some(EventFlags::MouseHwheeled)
        } else {
            None
        }
    }

    /// The type of event that the native word `event` names, if it names
    /// one.
    pub fn from_bits(event: u32) -> (r: Option<EventFlags>)
        ensures
            r == Self::of_bits(event),
    {
        match event {
            0x0000 => Some(EventFlags::PressOrRelease),
            0x0001 => Some(EventFlags::MouseMoved),
            0x0002 => Some(EventFlags::DoubleClick),
            0x0004 => Some(EventFlags::MouseWheeled),
            0x0008 => Some(EventFlags::MouseHwheeled),
            _ => None,
        }
    }
}

impl KeyEventRecord {
    /// The event that a native record stands for: the key is down where the
    /// native flag is not zero. There is none where the record's code unit
    /// is half of a surrogate pair.
    pub open spec fn of_raw(raw: RawKeyEvent) -> Option<KeyEventRecord> {
        if is_single_unit(raw.unicode_char) {
            Some(
                KeyEventRecord {
                    key_down: raw.key_down != 0,
                    repeat_count: raw.repeat_count,
                    virtual_key_code: raw.virtual_key_code,
                    virtual_scan_code: raw.virtual_scan_code,
                    u_char: raw.unicode_char as u32 as char,
                    control_key_state: ControlKeyState(raw.control_key_state),
                },
            )
        } else {
            None
        }
    }

    /// Reads a native record.
    pub fn from_raw(raw: RawKeyEvent) -> (r: Option<KeyEventRecord>)
        ensures
            r == Self::of_raw(raw),
    {
        match char_from_unit(raw.unicode_char) {
            Some(u_char) => Some(
                KeyEventRecord {
                    key_down: raw.key_down != 0,
                    repeat_count: raw.repeat_count,
                    virtual_key_code: raw.virtual_key_code,
                    virtual_scan_code: raw.virtual_scan_code,
                    u_char,
                    control_key_state: ControlKeyState::new(raw.control_key_state),
                },
            ),
            None => None,
        }
    }

    /// The native record of an event whose character takes one UTF-16 code
    /// unit: a key that is down as 1, a released one as 0.
    pub open spec fn raw(self) -> RawKeyEvent {
        RawKeyEvent {
            key_down: if self.key_down {
                1
            } else {
                0
            },
            repeat_count: self.repeat_count,
            virtual_key_code: self.virtual_key_code,
            virtual_scan_code: self.virtual_scan_code,
            unicode_char: self.u_char as u32 as u16,
            control_key_state: self.control_key_state.bits(),
        }
    }

    /// Writes the native record. There is a result unless the character
    /// needs two UTF-16 code units.
    pub fn to_raw(&self) -> (r: Option<RawKeyEvent>)
        ensures
            r == if self.u_char as u32 <= 0xFFFF {
                Some(self.raw())
            } else {
                None
            },
    {
        match unit_from_char(self.u_char) {
            Some(unit) => Some(
                RawKeyEvent {
                    key_down: if self.key_down {
                        1
                    } else {
                        0
                    },
                    repeat_count: self.repeat_count,
                    virtual_key_code: self.virtual_key_code,
                    virtual_scan_code: self.virtual_scan_code,
                    unicode_char: unit,
                    control_key_state: self.control_key_state.get_state(),
                },
            ),
            None => None,
        }
    }
}

impl MouseEventRecord {
    /// The event that a native record stands for: the button state is the
    /// same 32 bits, signed. There is none where the record's flags name no
    /// type of event.
    pub open spec fn of_raw(raw: RawMouseEvent) -> Option<MouseEventRecord> {
        match EventFlags::of_bits(raw.event_flags) {
            Some(event_flags) => Some(
                MouseEventRecord {
                    mouse_position: raw.mouse_position,
                    button_state: ButtonState(raw.button_state as i32),
                    control_key_state: ControlKeyState(raw.control_key_state),
                    event_flags,
                },
            ),
            None => None,
        }
    }

    /// Reads a native record.
    pub fn from_raw(raw: RawMouseEvent) -> (r: Option<MouseEventRecord>)
        ensures
            r == Self::of_raw(raw),
    {
        match EventFlags::from_bits(raw.event_flags) {
            Some(event_flags) => Some(
                MouseEventRecord {
                    mouse_position: raw.mouse_position,
                    button_state: ButtonState::from(raw.button_state),
                    control_key_state: ControlKeyState::new(raw.control_key_state),
                    event_flags,
                },
            ),
            None => None,
        }
    }
}

impl From<MouseEventRecord> for RawMouseEvent {
    /// Writes the native record: the button state as the same 32 bits,
    /// unsigned.
    fn from(record: MouseEventRecord) -> (r: RawMouseEvent) {
        RawMouseEvent {
            mouse_position: record.mouse_position,
            button_state: #[verifier::truncate] (record.button_state.get_state() as u32),
            control_key_state: record.control_key_state.get_state(),
            event_flags: record.event_flags.bits(),
        }
    }
}

impl FromSpecImpl<MouseEventRecord> for RawMouseEvent {
    open spec fn obeys_from_spec() -> bool {
        true
    }

    open spec fn from_spec(record: MouseEventRecord) -> RawMouseEvent {
        RawMouseEvent {
            mouse_position: record.mouse_position,
            button_state: record.button_state.bits() as u32,
            control_key_state: record.control_key_state.bits(),
            event_flags: record.event_flags.spec_bits(),
        }
    }
}

} // verus!
