use win32console::input::InputRecord as InputRecordOfInput;
use win32console::input::KeyEvent;
use win32console::structs::char_info::CharInfo;
use win32console::structs::char_info::RawCharInfo;
use win32console::structs::console_color::ConsoleColor;
use win32console::structs::console_color::ParseColorError;
use win32console::structs::console_cursor_info::ConsoleCursorInfo;
use win32console::structs::console_cursor_info::RawCursorInfo;
use win32console::structs::console_history_info::ConsoleHistoryInfo;
use win32console::structs::console_history_info::RawHistoryInfo;
use win32console::structs::console_read_control::ConsoleReadControl;
use win32console::structs::console_read_control::RawReadControl;
use win32console::structs::console_screen_buffer_info_ex::ConsoleScreenBufferInfoEx;
use win32console::structs::console_screen_buffer_info_ex::RawScreenBufferInfoEx;
use win32console::structs::console_selection_info::SelectionState;
use win32console::structs::coord::Coord;
use win32console::structs::focus_event::FocusEventRecord;
use win32console::structs::focus_event::RawFocusEvent;
use win32console::structs::input_event::ButtonState;
use win32console::structs::input_event::ControlKeyState;
use win32console::structs::input_event::EventFlags;
use win32console::structs::input_event::KeyEventRecord;
use win32console::structs::input_event::MouseEventRecord;
use win32console::structs::input_event::RawKeyEvent;
use win32console::structs::input_event::RawMouseEvent;
use win32console::structs::input_record::InputRecord;
use win32console::structs::input_record::RawInputRecord;
use win32console::structs::input_record::FOCUS_EVENT;
use win32console::structs::input_record::KEY_EVENT;
use win32console::structs::input_record::MENU_EVENT;
use win32console::structs::input_record::MOUSE_EVENT;
use win32console::structs::input_record::WINDOW_BUFFER_SIZE_EVENT;
use win32console::structs::menu_event::MenuEventRecord;
use win32console::structs::menu_event::RawMenuEvent;
use win32console::structs::small_rect::SmallRect;
use win32console::structs::window_buffer_size_event::RawWindowBufferSize;
use win32console::structs::window_buffer_size_event::WindowBufferSizeRecord;

fn zeroed_key_event() -> KeyEventRecord {
    KeyEventRecord {
        key_down: false,
        repeat_count: 0,
        virtual_key_code: 0,
        virtual_scan_code: 0,
        u_char: '\0',
        control_key_state: ControlKeyState::new(0),
    }
}

#[test]
fn focus_event_menu_event_into_test() {
    let mut focus_event = FocusEventRecord { set_focus: false };
    focus_event.set_focus = true;
    let raw_focus_event: RawFocusEvent = focus_event.into();

    assert_eq!(focus_event.set_focus, raw_focus_event.set_focus != 0);
}

#[test]
fn key_event_into_test() {
    let mut key_event = zeroed_key_event();
    key_event.control_key_state = ControlKeyState::new(4);
    key_event.u_char = 'a';
    key_event.virtual_scan_code = 4;
    key_event.virtual_key_code = 8;
    key_event.repeat_count = 16;
    key_event.virtual_scan_code = 32;

    let raw_key_event: RawKeyEvent = key_event.to_raw().unwrap();

    assert_eq!(key_event.virtual_scan_code, raw_key_event.virtual_scan_code);
    assert_eq!(key_event.repeat_count, raw_key_event.repeat_count);
    assert_eq!(key_event.virtual_key_code, raw_key_event.virtual_key_code);
    assert_eq!(key_event.control_key_state.get_state(), raw_key_event.control_key_state);
    assert_eq!(key_event.key_down, raw_key_event.key_down != 0);
    assert_eq!(key_event.u_char, char::try_from(raw_key_event.unicode_char as u32).unwrap());
}

#[test]
fn mouse_event_into_test() {
    let mouse_event = MouseEventRecord {
        mouse_position: Coord::new(0, 0),
        button_state: ButtonState::from(0),
        control_key_state: ControlKeyState::new(0),
        event_flags: EventFlags::PressOrRelease,
    };
    let raw_mouse_event: RawMouseEvent = mouse_event.into();

    assert_eq!(mouse_event.control_key_state.get_state(), raw_mouse_event.control_key_state);
    assert_eq!(mouse_event.event_flags.bits(), raw_mouse_event.event_flags);
    assert_eq!(mouse_event.button_state.get_state() as u32, raw_mouse_event.button_state);
    assert_eq!(mouse_event.mouse_position, raw_mouse_event.mouse_position);
}

#[test]
fn key_event_into_input_record_test() {
    let mut key_event = zeroed_key_event();
    key_event.control_key_state = ControlKeyState::new(1);
    key_event.u_char = 'a';
    key_event.key_down = true;
    key_event.virtual_key_code = 2;
    key_event.repeat_count = 4;
    key_event.virtual_scan_code = 8;

    let record: RawInputRecord = InputRecord::KeyEvent(key_event).to_raw().unwrap();
    assert_eq!(record.event_type(), KEY_EVENT);

    let from_record = match record {
        RawInputRecord::Key(raw) => KeyEventRecord::from_raw(raw).unwrap(),
        other => panic!("unexpected record {:?}", other),
    };

    assert_eq!(key_event.virtual_scan_code, from_record.virtual_scan_code);
    assert_eq!(key_event.repeat_count, from_record.repeat_count);
    assert_eq!(key_event.key_down, from_record.key_down);
    assert_eq!(key_event.u_char, from_record.u_char);
    assert_eq!(key_event.control_key_state, from_record.control_key_state);
}

#[test]
fn menu_event_menu_event_into_test() {
    let menu_event = MenuEventRecord { command_id: 0 };
    let raw_menu_event: RawMenuEvent = menu_event.into();

    assert_eq!(menu_event.command_id, raw_menu_event.command_id);
}

#[test]
fn window_buffer_size_into_test() {
    let mut window_event = WindowBufferSizeRecord { size: Coord::new(0, 0) };
    window_event.size = Coord::new(3, 4);
    let raw_window_event: RawWindowBufferSize = window_event.into();

    assert_eq!(window_event.size, raw_window_event.size);
}

#[test]
fn records_go_round_through_their_native_form() {
    let events = [
        InputRecord::KeyEvent(KeyEventRecord {
            key_down: true,
            repeat_count: 2,
            virtual_key_code: 0x0D,
            virtual_scan_code: 0x1C,
            u_char: '\u{FFFD}',
            control_key_state: ControlKeyState::new(0x0120),
        }),
        InputRecord::MouseEvent(MouseEventRecord {
            mouse_position: Coord::new(-3, 7),
            button_state: ButtonState::from(0xFF88_0001),
            control_key_state: ControlKeyState::new(8),
            event_flags: EventFlags::MouseWheeled,
        }),
        InputRecord::WindowBufferSizeEvent(WindowBufferSizeRecord { size: Coord::new(80, 25) }),
        InputRecord::FocusEvent(FocusEventRecord { set_focus: true }),
        InputRecord::FocusEvent(FocusEventRecord { set_focus: false }),
        InputRecord::MenuEvent(MenuEventRecord { command_id: 0xABCD }),
    ];
    let types =
        [KEY_EVENT, MOUSE_EVENT, WINDOW_BUFFER_SIZE_EVENT, FOCUS_EVENT, FOCUS_EVENT, MENU_EVENT];
    for (event, event_type) in events.iter().zip(types) {
        let raw = event.to_raw().unwrap();
        assert_eq!(raw.event_type(), event_type);
        assert_eq!(InputRecord::from_raw(raw), Some(*event));
    }
    assert_eq!(KEY_EVENT, 1);
    assert_eq!(MOUSE_EVENT, 2);
    assert_eq!(WINDOW_BUFFER_SIZE_EVENT, 4);
    assert_eq!(MENU_EVENT, 8);
    assert_eq!(FOCUS_EVENT, 16);
}

#[test]
fn records_without_a_value() {
    let mut key = zeroed_key_event();
    key.u_char = '\u{1F600}';
    assert_eq!(key.to_raw(), None);
    assert_eq!(InputRecord::KeyEvent(key).to_raw(), None);
    let raw = RawKeyEvent {
        key_down: 2,
        repeat_count: 1,
        virtual_key_code: 0,
        virtual_scan_code: 0,
        unicode_char: 0xDFFF,
        control_key_state: 0,
    };
    assert_eq!(KeyEventRecord::from_raw(raw), None);
    assert_eq!(
        KeyEventRecord::from_raw(RawKeyEvent { unicode_char: 0xE000, ..raw })
            .map(|key| (key.u_char, key.key_down)),
        Some(('\u{E000}', true))
    );
    assert_eq!(
        KeyEventRecord::from_raw(RawKeyEvent { unicode_char: 0xD7FF, key_down: 0, ..raw })
            .map(|key| (key.u_char, key.key_down)),
        Some(('\u{D7FF}', false))
    );
    let mouse = RawMouseEvent {
        mouse_position: Coord::new(1, 1),
        button_state: 0,
        control_key_state: 0,
        event_flags: 3,
    };
    assert_eq!(MouseEventRecord::from_raw(mouse), None);
    assert_eq!(InputRecord::from_raw(RawInputRecord::Mouse(mouse)), None);
    assert_eq!(InputRecord::from_raw(RawInputRecord::Other { event_type: 0 }), None);
    assert_eq!(RawInputRecord::Other { event_type: 0x40 }.event_type(), 0x40);
}

#[test]
fn event_flags_and_their_words() {
    let all = [
        (EventFlags::PressOrRelease, 0u32),
        (EventFlags::MouseMoved, 1),
        (EventFlags::DoubleClick, 2),
        (EventFlags::MouseWheeled, 4),
        (EventFlags::MouseHwheeled, 8),
    ];
    for (flags, word) in all {
        assert_eq!(flags.bits(), word);
        assert_eq!(EventFlags::from_bits(word), Some(flags));
    }
    assert_eq!(EventFlags::from_bits(3), None);
    assert_eq!(EventFlags::from_bits(16), None);
}

#[test]
fn control_key_state_reads_its_bits() {
    let state = ControlKeyState::new(0x0001 | 0x0008 | 0x0080);
    assert_eq!(state.get_state(), 0x0089);
    assert!(state.has_state(ControlKeyState::RIGHT_ALT_PRESSED));
    assert!(!state.has_state(ControlKeyState::LEFT_ALT_PRESSED));
    assert!(state.has_state(0x0003));
    assert!(state.is_alt_pressed());
    assert!(state.is_ctrl_pressed());
    assert!(!state.is_shift_pressed());
    assert!(!state.is_num_lock_on());
    assert!(state.is_caps_lock_on());
    assert!(!state.is_scroll_lock_on());
    assert!(!state.is_enhanced_key());
    let other = ControlKeyState::new(0x0002 | 0x0004 | 0x0010 | 0x0020 | 0x0040 | 0x0100);
    assert!(other.is_alt_pressed());
    assert!(other.is_ctrl_pressed());
    assert!(other.is_shift_pressed());
    assert!(other.is_num_lock_on());
    assert!(!other.is_caps_lock_on());
    assert!(other.is_scroll_lock_on());
    assert!(other.is_enhanced_key());
    assert!(!ControlKeyState::new(0).is_alt_pressed());
    assert!(!ControlKeyState::new(0).is_ctrl_pressed());
}

#[test]
fn button_state_reads_its_bits() {
    assert!(ButtonState::from(0).release_button());
    assert!(!ButtonState::from(1).release_button());
    assert!(ButtonState::from(1).left_button());
    assert!(!ButtonState::from(2).left_button());
    assert!(ButtonState::from(2).right_button());
    assert!(ButtonState::from(8).right_button());
    assert!(ButtonState::from(16).right_button());
    assert!(!ButtonState::from(4).right_button());
    assert!(ButtonState::from(4).middle_button());
    assert!(!ButtonState::from(1).middle_button());
    assert!(ButtonState::from(0x0078_0000).scroll_up());
    assert!(!ButtonState::from(0x0078_0000).scroll_down());
    assert!(ButtonState::from(0xFF88_0000).scroll_down());
    assert!(!ButtonState::from(0xFF88_0000).scroll_up());
    assert_eq!(ButtonState::from(0xFFFF_FFFF).get_state(), -1);
    assert_eq!(ButtonState::from(0x7FFF_FFFF).get_state(), i32::MAX);
    assert!(ButtonState::from(0x8000_0001).left_button());
}

#[test]
fn selection_state_reads_its_bits() {
    assert!(SelectionState(0).no_selection());
    assert!(!SelectionState(1).no_selection());
    let state = SelectionState(0x0001 | 0x0004);
    assert_eq!(state.get_state(), 5);
    assert!(state.has_state(SelectionState::CONSOLE_MOUSE_SELECTION));
    assert!(state.selection_in_progress());
    assert!(!state.selection_not_empty());
    assert!(state.mouse_selection());
    assert!(!state.is_mouse_down());
    assert!(SelectionState(0x000A).selection_not_empty());
    assert!(SelectionState(0x000A).is_mouse_down());
}

#[test]
fn coord_builders() {
    assert_eq!(Coord::new(3, -4), Coord { x: 3, y: -4 });
    assert_eq!(Coord::zero(), Coord { x: 0, y: 0 });
    assert_eq!(Coord::default(), Coord::zero());
    assert_eq!(Coord::new(1, 2).with_x(9), Coord::new(9, 2));
    assert_eq!(Coord::new(1, 2).with_y(9), Coord::new(1, 9));
}

#[test]
fn small_rect_default_is_empty() {
    assert_eq!(SmallRect::default(), SmallRect::new(0, 0, 0, 0));
}

#[test]
fn char_info_and_its_native_cell() {
    let cell = CharInfo::new('€', 0x1F);
    assert_eq!(cell.char_value, '€');
    assert_eq!(cell.attributes, 0x1F);
    assert_eq!(cell.to_raw(), Some(RawCharInfo { unicode_char: 0x20AC, attributes: 0x1F }));
    assert_eq!(cell.as_raw(), RawCharInfo { unicode_char: 0x20AC, attributes: 0x1F });
    assert_eq!(
        CharInfo::from_raw(RawCharInfo { unicode_char: 0x20AC, attributes: 0x1F }),
        Some(cell)
    );
    assert_eq!(CharInfo::new('\u{10000}', 0).to_raw(), None);
    assert_eq!(
        CharInfo::new('\u{FFFF}', 0).to_raw(),
        Some(RawCharInfo { unicode_char: 0xFFFF, attributes: 0 })
    );
    assert_eq!(CharInfo::from_raw(RawCharInfo { unicode_char: 0xD800, attributes: 0 }), None);
    assert_eq!(CharInfo::from_raw(RawCharInfo { unicode_char: 0xDBFF, attributes: 0 }), None);
}

#[test]
fn colors_and_their_numbers() {
    let all = [
        ConsoleColor::Black,
        ConsoleColor::DarkBlue,
        ConsoleColor::DarkGreen,
        ConsoleColor::DarkCyan,
        ConsoleColor::DarkRed,
        ConsoleColor::DarkMagenta,
        ConsoleColor::DarkYellow,
        ConsoleColor::Gray,
        ConsoleColor::DarkGray,
        ConsoleColor::Blue,
        ConsoleColor::Green,
        ConsoleColor::Cyan,
        ConsoleColor::Red,
        ConsoleColor::Magenta,
        ConsoleColor::Yellow,
        ConsoleColor::White,
    ];
    for (number, color) in all.iter().enumerate() {
        let number = number as u16;
        assert_eq!(color.as_foreground_color(), number);
        assert_eq!(color.as_background_color(), number << 4);
        assert_eq!(u16::from(*color), number);
        assert_eq!(ConsoleColor::try_from(number), Ok(*color));
    }
    assert_eq!(ConsoleColor::Red.as_foreground_color(), 12);
    assert_eq!(ConsoleColor::Red.as_background_color(), 0xC0);
    assert_eq!(ConsoleColor::try_from(16), Err(ParseColorError(16)));
    assert_eq!(ConsoleColor::try_from(0xFFFF), Err(ParseColorError(0xFFFF)));
}

#[test]
fn colors_are_shown_by_name() {
    assert_eq!(ConsoleColor::Black.to_string(), "ConsoleColor::Black");
    assert_eq!(ConsoleColor::DarkBlue.to_string(), "ConsoleColor::DarkBlue");
    assert_eq!(ConsoleColor::DarkGreen.to_string(), "ConsoleColor::DarkGreen");
    assert_eq!(ConsoleColor::DarkCyan.to_string(), "ConsoleColor::DarkCyan");
    assert_eq!(ConsoleColor::DarkRed.to_string(), "ConsoleColor::DarkRed");
    assert_eq!(ConsoleColor::DarkMagenta.to_string(), "ConsoleColor::DarkMagenta");
    assert_eq!(ConsoleColor::DarkYellow.to_string(), "ConsoleColor::DarkYellow");
    assert_eq!(ConsoleColor::Gray.to_string(), "ConsoleColor::Gray");
    assert_eq!(ConsoleColor::DarkGray.to_string(), "ConsoleColor::DarkGray");
    assert_eq!(ConsoleColor::Blue.to_string(), "ConsoleColor::Blue");
    assert_eq!(ConsoleColor::Green.to_string(), "ConsoleColor::Green");
    assert_eq!(ConsoleColor::Cyan.to_string(), "ConsoleColor::Cyan");
    assert_eq!(ConsoleColor::Red.to_string(), "ConsoleColor::Red");
    assert_eq!(ConsoleColor::Magenta.to_string(), "ConsoleColor::Magenta");
    assert_eq!(ConsoleColor::Yellow.to_string(), "ConsoleColor::Yellow");
    assert_eq!(ConsoleColor::White.to_string(), "ConsoleColor::White");
}

#[test]
fn flags_of_native_structures() {
    assert_eq!(
        RawCursorInfo::from(ConsoleCursorInfo { size: 25, visible: true }),
        RawCursorInfo { size: 25, visible: 1 }
    );
    assert_eq!(
        RawCursorInfo::from(ConsoleCursorInfo { size: 25, visible: false }),
        RawCursorInfo { size: 25, visible: 0 }
    );
    assert_eq!(
        ConsoleCursorInfo::from(RawCursorInfo { size: 100, visible: -1 }),
        ConsoleCursorInfo { size: 100, visible: true }
    );
    assert_eq!(
        ConsoleCursorInfo::from(RawCursorInfo { size: 100, visible: 0 }),
        ConsoleCursorInfo { size: 100, visible: false }
    );
    assert_eq!(
        RawHistoryInfo::from(ConsoleHistoryInfo {
            size: 16,
            history_buffer_size: 50,
            number_of_history_buffers: 4,
            allow_duplicate_entries: true
        }),
        RawHistoryInfo { size: 16, history_buffer_size: 50, number_of_history_buffers: 4, flags: 1 }
    );
    assert_eq!(
        ConsoleHistoryInfo::from(RawHistoryInfo {
            size: 16,
            history_buffer_size: 50,
            number_of_history_buffers: 4,
            flags: 0
        }),
        ConsoleHistoryInfo {
            size: 16,
            history_buffer_size: 50,
            number_of_history_buffers: 4,
            allow_duplicate_entries: false
        }
    );
    assert_eq!(
        FocusEventRecord::from(RawFocusEvent { set_focus: 5 }),
        FocusEventRecord { set_focus: true }
    );
    assert_eq!(
        FocusEventRecord::from(RawFocusEvent { set_focus: 0 }),
        FocusEventRecord { set_focus: false }
    );
    assert_eq!(
        RawFocusEvent::from(FocusEventRecord { set_focus: false }),
        RawFocusEvent { set_focus: 0 }
    );
}

#[test]
fn read_control_and_its_native_form() {
    let control = ConsoleReadControl::new(2, 1 << 26, ControlKeyState::new(8));
    assert_eq!(control.size, 16);
    assert_eq!(control.initial_chars, 2);
    assert_eq!(control.ctrl_wakeup_mask, 0x0400_0000);
    assert_eq!(control.control_key_state, ControlKeyState::new(8));
    assert_eq!(
        ConsoleReadControl::new_with_mask(1 << 27),
        ConsoleReadControl {
            size: 16,
            initial_chars: 0,
            ctrl_wakeup_mask: 1 << 27,
            control_key_state: ControlKeyState::new(0)
        }
    );
    assert_eq!(ConsoleReadControl::SIZE, 16);
    let odd = ConsoleReadControl { size: 99, ..control };
    assert_eq!(
        RawReadControl::from(odd),
        RawReadControl {
            length: 16,
            initial_chars: 2,
            ctrl_wakeup_mask: 1 << 26,
            control_key_state: 8
        }
    );
    assert_eq!(
        ConsoleReadControl::from(RawReadControl {
            length: 99,
            initial_chars: 2,
            ctrl_wakeup_mask: 1 << 26,
            control_key_state: 8
        }),
        odd
    );
}

#[test]
fn screen_buffer_info_ex_and_its_native_form() {
    let mut colors = [0u32; 16];
    colors[15] = 0x00FF_FFFF;
    let info = ConsoleScreenBufferInfoEx {
        size: 96,
        screen_buffer_size: Coord::new(80, 300),
        cursor_position: Coord::new(0, 12),
        attributes: 7,
        window: SmallRect::new(0, 0, 79, 24),
        maximum_window_size: Coord::new(80, 60),
        popup_attributes: 0xF5,
        full_screen_supported: true,
        color_table: colors,
    };
    let raw = RawScreenBufferInfoEx::from(info);
    assert_eq!(raw.full_screen_supported, 1);
    assert_eq!(raw.size, 96);
    assert_eq!(raw.color_table, colors);
    assert_eq!(ConsoleScreenBufferInfoEx::from(raw), info);
    assert_eq!(
        ConsoleScreenBufferInfoEx::from(RawScreenBufferInfoEx { full_screen_supported: 0, ..raw }),
        ConsoleScreenBufferInfoEx { full_screen_supported: false, ..info }
    );
    assert_eq!(ConsoleScreenBufferInfoEx::NATIVE_SIZE, 96);
}

#[test]
fn input_names_are_offered_together() {
    let event: InputRecordOfInput = KeyEvent(zeroed_key_event());
    assert!(matches!(event, InputRecord::KeyEvent(_)));
}
