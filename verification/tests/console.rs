use std::cell::RefCell;
use std::collections::HashMap;
use std::collections::VecDeque;
use std::rc::Rc;

use win32console::console::ConsoleOptions;
use win32console::console::HandleType;
use win32console::console::WinConsole;
use win32console::error::ConsoleError;
use win32console::error::Violation;
use win32console::exchange::Action;
use win32console::exchange::Exchange;
use win32console::exchange::Operation;
use win32console::exchange::Outcome;
use win32console::exchange::Payload;
use win32console::exchange::Source;
use win32console::exchange::Value;
use win32console::native::Direction;
use win32console::native::Output;
use win32console::native::Reply;
use win32console::native::Request;
use win32console::structs::char_info::CharInfo;
use win32console::structs::char_info::RawCharInfo;
use win32console::structs::console_color::ConsoleColor;
use win32console::structs::console_font_info::ConsoleFontInfo;
use win32console::structs::console_font_info_ex::ConsoleFontInfoEx;
use win32console::structs::console_history_info::ConsoleHistoryInfo;
use win32console::structs::console_history_info::RawHistoryInfo;
use win32console::structs::console_read_control::ConsoleReadControl;
use win32console::structs::console_screen_buffer_info::ConsoleScreenBufferInfo;
use win32console::structs::console_screen_buffer_info_ex::ConsoleScreenBufferInfoEx;
use win32console::structs::console_screen_buffer_info_ex::RawScreenBufferInfoEx;
use win32console::structs::console_selection_info::ConsoleSelectionInfo;
use win32console::structs::console_selection_info::SelectionState;
use win32console::structs::coord::Coord;
use win32console::structs::handle::Handle;
use win32console::structs::input_event::ControlKeyState;
use win32console::structs::input_event::KeyEventRecord;
use win32console::structs::input_event::RawKeyEvent;
use win32console::structs::input_record::InputRecord;
use win32console::structs::input_record::RawInputRecord;
use win32console::structs::menu_event::RawMenuEvent;
use win32console::structs::small_rect::SmallRect;

/// A file or pipe of the fake system: what it holds, how far it was read,
/// and how many bytes it takes in one write.
struct FakeFile {
    data: Vec<u8>,
    position: usize,
    accepts: usize,
}

/// A system that answers native calls from its own tables and keeps a
/// record of every call.
struct FakeOs {
    standard: HashMap<u32, isize>,
    consoles: Vec<isize>,
    files: HashMap<isize, FakeFile>,
    keyboard: Vec<u16>,
    screen: Vec<u16>,
    console_takes: Option<u32>,
    events: VecDeque<RawInputRecord>,
    info: ConsoleScreenBufferInfo,
    device: isize,
    failing: bool,
    close_fails: bool,
    processes: Vec<u32>,
    calls: Vec<Request>,
    closed: Vec<isize>,
}

const FAKE_ERROR: i32 = 1234;

impl FakeOs {
    fn new() -> FakeOs {
        FakeOs {
            standard: HashMap::new(),
            consoles: Vec::new(),
            files: HashMap::new(),
            keyboard: Vec::new(),
            screen: Vec::new(),
            console_takes: None,
            events: VecDeque::new(),
            info: ConsoleScreenBufferInfo {
                screen_buffer_size: Coord::new(80, 25),
                cursor_position: Coord::new(3, 4),
                attributes: 0x0007,
                window: SmallRect::new(0, 0, 79, 24),
                maximum_window_size: Coord::new(80, 25),
            },
            device: 900,
            failing: false,
            close_fails: false,
            processes: vec![11],
            calls: Vec::new(),
            closed: Vec::new(),
        }
    }

    fn with_console(mut self, handle: isize) -> FakeOs {
        self.consoles.push(handle);
        self
    }

    fn with_file(mut self, handle: isize, accepts: usize) -> FakeOs {
        self.files.insert(handle, FakeFile { data: Vec::new(), position: 0, accepts });
        self
    }

    fn status(&self, output: Output) -> Reply {
        if self.failing {
            Reply { status: 0, error: FAKE_ERROR, output: Output::Nothing }
        } else {
            Reply { status: 1, error: 0, output }
        }
    }

    fn perform(&mut self, request: Request) -> Reply {
        let reply = self.answer(&request);
        self.calls.push(request);
        reply
    }

    fn answer(&mut self, request: &Request) -> Reply {
        match request {
            Request::GetStdHandle { slot, .. } => Reply {
                status: 1,
                error: 0,
                output: Output::Handle(*self.standard.get(slot).unwrap_or(&-1)),
            },
            Request::SetStdHandle { slot, handle, .. } => {
                self.standard.insert(*slot, *handle);
                self.status(Output::Nothing)
            }
            Request::OpenDevice { .. } | Request::CreateConsoleScreenBuffer { .. } => {
                Reply { status: 1, error: FAKE_ERROR, output: Output::Handle(self.device) }
            }
            Request::CloseHandle { handle } => {
                self.closed.push(*handle);
                Reply {
                    status: if self.close_fails { 0 } else { 1 },
                    error: 0,
                    output: Output::Nothing,
                }
            }
            Request::GetConsoleMode { handle } => {
                if self.consoles.contains(handle) {
                    Reply { status: 1, error: 0, output: Output::Number(0x0007) }
                } else {
                    Reply { status: 0, error: 6, output: Output::Number(0) }
                }
            }
            Request::WriteFile { handle, data } => match self.files.get_mut(handle) {
                Some(file) => {
                    let taken = data.len().min(file.accepts);
                    file.data.extend_from_slice(&data[..taken]);
                    Reply { status: 1, error: 0, output: Output::Number(taken as u32) }
                }
                None => Reply { status: 0, error: 6, output: Output::Number(0) },
            },
            Request::ReadFile { handle, capacity } => match self.files.get_mut(handle) {
                Some(file) => {
                    let rest = &file.data[file.position..];
                    let count = rest.len().min(*capacity as usize);
                    let mut bytes = vec![0u8; *capacity as usize];
                    bytes[..count].copy_from_slice(&rest[..count]);
                    file.position += count;
                    Reply {
                        status: 1,
                        error: 0,
                        output: Output::Bytes { bytes, count: count as u32 },
                    }
                }
                None => {
                    Reply { status: 0, error: 6, output: Output::Bytes { bytes: vec![], count: 0 } }
                }
            },
            Request::WriteConsoleA { data, .. } => {
                let written = self.console_takes.unwrap_or(data.len() as u32);
                self.screen.extend(data.iter().map(|byte| *byte as u16));
                self.status(Output::Number(written))
            }
            Request::WriteConsoleW { data, .. } => {
                let written = self.console_takes.unwrap_or(data.len() as u32);
                self.screen.extend_from_slice(data);
                self.status(Output::Number(written))
            }
            Request::ReadConsole { capacity, .. } => {
                let count = self.keyboard.len().min(*capacity as usize);
                let mut units = vec![0u16; *capacity as usize];
                units[..count].copy_from_slice(&self.keyboard[..count]);
                self.status(Output::Units { units, count: count as u32 })
            }
            Request::ReadConsoleInput { capacity, .. } => {
                let mut records = Vec::new();
                while records.len() < *capacity as usize {
                    match self.events.pop_front() {
                        Some(record) => records.push(record),
                        None => break,
                    }
                }
                let count = records.len() as u32;
                while records.len() < *capacity as usize {
                    records.push(RawInputRecord::Other { event_type: 0 });
                }
                self.status(Output::Records { records, count })
            }
            Request::PeekConsoleInput { capacity, .. } => {
                let records: Vec<RawInputRecord> =
                    self.events.iter().take(*capacity as usize).cloned().collect();
                let count = records.len() as u32;
                self.status(Output::Records { records, count })
            }
            Request::GetConsoleScreenBufferInfo { .. } => {
                let info = self.info;
                self.status(Output::ScreenBuffer(info))
            }
            Request::SetConsoleTextAttribute { attribute, .. } => {
                self.info.attributes = *attribute;
                self.status(Output::Nothing)
            }
            Request::SetConsoleCursorPosition { position, .. } => {
                self.info.cursor_position = *position;
                self.status(Output::Nothing)
            }
            Request::FillConsoleOutputCharacter { length, .. }
            | Request::FillConsoleOutputAttribute { length, .. } => {
                self.status(Output::Number(*length))
            }
            Request::GetConsoleTitle { capacity }
            | Request::GetConsoleOriginalTitle { capacity } => {
                let mut units = vec![0u16; *capacity as usize];
                let count = self.keyboard.len().min(*capacity as usize);
                units[..count].copy_from_slice(&self.keyboard[..count]);
                Reply {
                    status: 1,
                    error: FAKE_ERROR,
                    output: Output::Units { units, count: count as u32 },
                }
            }
            Request::GetConsoleCP | Request::GetConsoleOutputCP => Reply {
                status: 1,
                error: FAKE_ERROR,
                output: Output::Number(if self.failing { 0 } else { 65001 }),
            },
            Request::GetLargestConsoleWindowSize { .. } => Reply {
                status: 1,
                error: FAKE_ERROR,
                output: Output::Size(if self.failing {
                    Coord::new(0, 0)
                } else {
                    Coord::new(120, 50)
                }),
            },
            Request::GetConsoleProcessList { capacity } => {
                let mut ids = vec![0u32; *capacity as usize];
                if self.processes.len() <= ids.len() {
                    ids[..self.processes.len()].copy_from_slice(&self.processes);
                }
                Reply {
                    status: 1,
                    error: FAKE_ERROR,
                    output: Output::Processes { ids, count: self.processes.len() as u32 },
                }
            }
            Request::GetConsoleHistoryInfo => self.status(Output::History(RawHistoryInfo {
                size: 16,
                history_buffer_size: 50,
                number_of_history_buffers: 4,
                flags: 1,
            })),
            Request::GetNumberOfConsoleInputEvents { .. } => {
                let count = self.events.len() as u32;
                self.status(Output::Number(count))
            }
            Request::GetNumberOfConsoleMouseButtons => self.status(Output::Number(3)),
            Request::GetConsoleSelectionInfo => self.status(Output::Selection(selection())),
            Request::GetCurrentConsoleFont { .. } => self.status(Output::Font(font())),
            Request::GetCurrentConsoleFontEx { size, .. } => {
                self.status(Output::FontEx(ConsoleFontInfoEx { size: *size, ..font_ex() }))
            }
            Request::GetConsoleScreenBufferInfoEx { size, .. } => {
                self.status(Output::ScreenBufferEx(RawScreenBufferInfoEx {
                    size: *size,
                    screen_buffer_size: Coord::new(80, 300),
                    cursor_position: Coord::new(1, 2),
                    attributes: 7,
                    window: SmallRect::new(0, 0, 79, 24),
                    maximum_window_size: Coord::new(80, 60),
                    popup_attributes: 0xF5,
                    full_screen_supported: 1,
                    color_table: [0x0012_3456; 16],
                }))
            }
            Request::ReadConsoleOutput { length, region, .. } => {
                let cell = RawCharInfo { unicode_char: 0x41, attributes: 7 };
                let cells = vec![cell; *length as usize];
                self.status(Output::Cells { cells, region: *region })
            }
            _ => self.status(Output::Nothing),
        }
    }
}

fn selection() -> ConsoleSelectionInfo {
    ConsoleSelectionInfo {
        selection_indicator: SelectionState(0x0003),
        selection_anchor: Coord::new(2, 3),
        selection_rect: SmallRect::new(2, 3, 10, 3),
    }
}

fn font() -> ConsoleFontInfo {
    ConsoleFontInfo { font_index: 9, font_size: Coord::new(8, 16) }
}

fn font_ex() -> ConsoleFontInfoEx {
    let mut face_name = [0u16; 32];
    face_name[0] = 0x43;
    ConsoleFontInfoEx {
        size: 0,
        font_index: 9,
        font_size: Coord::new(8, 16),
        font_family: 54,
        font_weight: 400,
        face_name,
    }
}

/// Performs the calls of an exchange on the fake system until the exchange
/// is over.
fn run(os: &mut FakeOs, start: (Exchange, Action)) -> Outcome {
    let (mut exchange, mut action) = start;
    loop {
        match action {
            Action::Call(request) => {
                let reply = os.perform(request);
                let next = exchange.advance(reply);
                exchange = next.0;
                action = next.1;
            }
            Action::Return(outcome) => {
                assert!(exchange.is_finished());
                return outcome;
            }
        }
    }
}

/// A handle that is closed on the fake system when it goes out of scope.
struct Scoped {
    os: Rc<RefCell<FakeOs>>,
    handle: Option<Handle>,
}

impl Scoped {
    fn new(os: &Rc<RefCell<FakeOs>>, handle: Handle) -> Scoped {
        Scoped { os: Rc::clone(os), handle: Some(handle) }
    }
}

impl Drop for Scoped {
    fn drop(&mut self) {
        if let Some(handle) = self.handle.take() {
            let outcome = run(&mut self.os.borrow_mut(), handle.close());
            assert_eq!(outcome, Outcome::Success(Value::Unit));
        }
    }
}

fn utf16(text: &str) -> Vec<u16> {
    text.encode_utf16().collect()
}

const R1: isize = 0x51;
const R2: isize = 0x52;
const PIPE: isize = 0x70;
const OTHER_PIPE: isize = 0x71;
const CONSOLE: isize = 0x10;

#[test]
fn owned_handle_is_released_exactly_once() {
    let mut os = FakeOs::new();
    let handle = Handle::new_owned(R1);
    let moved = handle;
    let passed_on = vec![moved].pop().unwrap();
    assert_eq!(run(&mut os, passed_on.close()), Outcome::Success(Value::Unit));
    assert_eq!(os.closed, vec![R1]);
    assert_eq!(os.calls, vec![Request::CloseHandle { handle: R1 }]);
}

#[test]
fn owned_handle_that_goes_out_of_scope_is_released_once() {
    let os = Rc::new(RefCell::new(FakeOs::new()));
    {
        let scoped = Scoped::new(&os, Handle::new_owned(R1));
        let moved = scoped;
        let boxed = Box::new(moved);
        assert!(os.borrow().closed.is_empty());
        drop(boxed);
    }
    assert_eq!(os.borrow().closed, vec![R1]);
    assert_eq!(os.borrow().calls, vec![Request::CloseHandle { handle: R1 }]);
}

#[test]
fn shared_handles_that_go_out_of_scope_are_not_released() {
    let os = Rc::new(RefCell::new(FakeOs::new()));
    {
        let _first = Scoped::new(&os, Handle::new(R2));
        let _second = Scoped::new(&os, Handle::new(R2));
    }
    assert!(os.borrow().closed.is_empty());
    assert!(os.borrow().calls.is_empty());
}

#[test]
fn shared_handles_are_never_released() {
    let mut os = FakeOs::new();
    let first = Handle::new(R2);
    let second = Handle::new(R2);
    assert_eq!(run(&mut os, first.close()), Outcome::Success(Value::Unit));
    assert_eq!(run(&mut os, second.close()), Outcome::Success(Value::Unit));
    assert!(os.closed.is_empty());
    assert!(os.calls.is_empty());
}

#[test]
fn failed_close_of_owned_handle_is_a_violation() {
    let mut os = FakeOs::new();
    os.close_fails = true;
    assert_eq!(
        run(&mut os, Handle::new_owned(R1).close()),
        Outcome::Violation(Violation::CloseFailed { handle: R1 })
    );
    assert_eq!(os.closed, vec![R1]);
}

#[test]
fn endpoint_closes_the_owned_handle_it_holds() {
    let mut os = FakeOs::new();
    let console = WinConsole::with_handle(Handle::new_owned(R1));
    assert_eq!(run(&mut os, console.close()), Outcome::Success(Value::Unit));
    assert_eq!(os.closed, vec![R1]);

    let mut os = FakeOs::new();
    assert_eq!(
        run(&mut os, WinConsole::with_handle(Handle::new(R2)).close()),
        Outcome::Success(Value::Unit)
    );
    assert_eq!(run(&mut os, WinConsole::output().close()), Outcome::Success(Value::Unit));
    assert!(os.calls.is_empty());
}

#[test]
fn handle_validity_and_raw_value() {
    assert!(Handle::new(R1).is_valid());
    assert!(!Handle::new(-1).is_valid());
    assert!(!Handle::new_owned(-1).is_valid());
    assert_eq!(Handle::new(R1).get_raw(), R1);
    assert!(Handle::new_owned(R1).is_owned());
    assert!(!Handle::new(R1).is_owned());
    assert_eq!(Handle::new(R1), Handle::new(R1));
    assert_ne!(Handle::new(R1), Handle::new(R2));
    assert_ne!(Handle::new(R1), Handle::new_owned(R1));
}

#[test]
fn short_write_to_a_pipe_is_returned_as_it_is() {
    let mut os = FakeOs::new().with_file(PIPE, 3);
    let console = WinConsole::with_handle(Handle::new(PIPE));
    assert_eq!(run(&mut os, console.write_utf8(b"Hello")), Outcome::Success(Value::Count(3)));
    assert_eq!(os.files[&PIPE].data, b"Hel".to_vec());
    assert_eq!(
        os.calls,
        vec![
            Request::GetConsoleMode { handle: PIPE },
            Request::WriteFile { handle: PIPE, data: b"Hello".to_vec() },
        ]
    );
}

#[test]
fn short_write_to_a_console_is_a_violation() {
    let mut os = FakeOs::new().with_console(CONSOLE);
    os.console_takes = Some(3);
    let console = WinConsole::with_handle(Handle::new(CONSOLE));
    assert_eq!(
        run(&mut os, console.write_utf8(b"Hello")),
        Outcome::Violation(Violation::PartialConsoleWrite { requested: 5, written: 3 })
    );
    assert_eq!(
        run(&mut os, console.write_utf16(&utf16("Hello"))),
        Outcome::Violation(Violation::PartialConsoleWrite { requested: 5, written: 3 })
    );
}

#[test]
fn whole_write_to_a_console_gives_its_count() {
    let mut os = FakeOs::new().with_console(CONSOLE);
    let console = WinConsole::with_handle(Handle::new(CONSOLE));
    assert_eq!(run(&mut os, console.write_utf8(b"Hello")), Outcome::Success(Value::Count(5)));
    assert_eq!(
        run(&mut os, console.write_utf16(&utf16("wörld"))),
        Outcome::Success(Value::Count(5))
    );
    assert_eq!(os.screen, utf16("Hellowörld"));
    assert_eq!(
        os.calls[1],
        Request::WriteConsoleA { handle: CONSOLE, data: b"Hello".to_vec() }
    );
    assert_eq!(os.calls[3], Request::WriteConsoleW { handle: CONSOLE, data: utf16("wörld") });
}

#[test]
fn console_takes_code_units_that_are_no_text() {
    let mut os = FakeOs::new().with_console(CONSOLE);
    let console = WinConsole::with_handle(Handle::new(CONSOLE));
    assert_eq!(run(&mut os, console.write_utf16(&[0xD800])), Outcome::Success(Value::Count(1)));
    assert_eq!(run(&mut os, console.write_utf8(&[0xFF, 0xFE])), Outcome::Success(Value::Count(2)));
}

#[test]
fn more_written_than_asked_is_a_violation() {
    let mut os = FakeOs::new();
    let console = WinConsole::with_handle(Handle::new(PIPE));
    let (exchange, action) = console.write_utf8(b"Hi");
    assert_eq!(action, Action::Call(Request::GetConsoleMode { handle: PIPE }));
    let (exchange, action) = exchange.advance(os.perform(Request::GetConsoleMode { handle: PIPE }));
    assert_eq!(action, Action::Call(Request::WriteFile { handle: PIPE, data: b"Hi".to_vec() }));
    let (exchange, action) =
        exchange.advance(Reply { status: 1, error: 0, output: Output::Number(3) });
    assert_eq!(action, Action::Return(Outcome::Violation(Violation::Overrun)));
    assert!(exchange.is_finished());
}

#[test]
fn empty_write_makes_no_call() {
    let mut os = FakeOs::new().with_console(CONSOLE);
    for console in [
        WinConsole::with_handle(Handle::new(CONSOLE)),
        WinConsole::output(),
        WinConsole::current_output(),
    ] {
        assert_eq!(run(&mut os, console.write_utf8(&[])), Outcome::Success(Value::Count(0)));
        assert_eq!(run(&mut os, console.write_utf16(&[])), Outcome::Success(Value::Count(0)));
        assert_eq!(
            run(
                &mut os,
                console.write_char_buffer(
                    &[],
                    Coord::new(0, 0),
                    Coord::new(0, 0),
                    SmallRect::new(0, 0, 0, 0)
                )
            ),
            Outcome::Success(Value::Unit)
        );
    }
    assert!(os.calls.is_empty());
}

#[test]
fn empty_read_makes_no_call() {
    let mut os = FakeOs::new().with_console(CONSOLE);
    let console = WinConsole::input();
    assert_eq!(run(&mut os, console.read_utf16(0)), Outcome::Success(Value::Units(vec![])));
    assert_eq!(run(&mut os, console.read_utf8(0)), Outcome::Success(Value::Bytes(vec![])));
    assert_eq!(
        run(&mut os, console.read_utf16_with_control(0, ConsoleReadControl::new_with_mask(1))),
        Outcome::Success(Value::Units(vec![]))
    );
    assert_eq!(
        run(&mut os, console.read_utf8_with_control(0, ConsoleReadControl::new_with_mask(1))),
        Outcome::Success(Value::Bytes(vec![]))
    );
    assert_eq!(run(&mut os, console.read_input(0)), Outcome::Success(Value::Records(vec![])));
    assert_eq!(run(&mut os, console.read_input_n(0)), Outcome::Success(Value::Records(vec![])));
    assert_eq!(run(&mut os, console.peek_input(0)), Outcome::Success(Value::Records(vec![])));
    assert!(os.calls.is_empty());
}

#[test]
fn role_endpoint_observes_a_rebound_standard_handle() {
    let mut os = FakeOs::new().with_file(PIPE, 100).with_file(OTHER_PIPE, 100);
    os.standard.insert(HandleType::Output.slot(), PIPE);
    let console = WinConsole::output();
    assert_eq!(run(&mut os, console.write_utf8(b"one")), Outcome::Success(Value::Count(3)));

    let other = Handle::new(OTHER_PIPE);
    assert_eq!(
        run(&mut os, WinConsole::set_std_handle(HandleType::Output, &other)),
        Outcome::Success(Value::Unit)
    );
    assert_eq!(run(&mut os, console.write_utf8(b"two")), Outcome::Success(Value::Count(3)));

    assert_eq!(os.files[&PIPE].data, b"one".to_vec());
    assert_eq!(os.files[&OTHER_PIPE].data, b"two".to_vec());
    assert_eq!(
        run(&mut os, console.get_handle()),
        Outcome::Success(Value::Handle(Handle::new(OTHER_PIPE)))
    );
    assert!(os.closed.is_empty());
}

#[test]
fn role_endpoint_fails_on_the_invalid_standard_handle() {
    let mut os = FakeOs::new();
    assert_eq!(
        run(&mut os, WinConsole::error().write_utf8(b"x")),
        Outcome::Failure(ConsoleError::InvalidHandle)
    );
    assert_eq!(
        os.calls,
        vec![Request::GetStdHandle { role: HandleType::Error, slot: 0xFFFF_FFF4 }]
    );
    assert_eq!(
        run(&mut os, WinConsole::get_std_handle(HandleType::Input)),
        Outcome::Failure(ConsoleError::InvalidHandle)
    );
}

#[test]
fn standard_handles_have_the_native_numbers() {
    assert_eq!(HandleType::Input.slot(), -10i32 as u32);
    assert_eq!(HandleType::Output.slot(), -11i32 as u32);
    assert_eq!(HandleType::Error.slot(), -12i32 as u32);
    let mut os = FakeOs::new();
    os.standard.insert(HandleType::Input.slot(), R1);
    assert_eq!(
        run(&mut os, WinConsole::get_std_handle(HandleType::Input)),
        Outcome::Success(Value::Handle(Handle::new(R1)))
    );
}

#[test]
fn events_are_not_read_from_a_pipe() {
    let mut os = FakeOs::new().with_file(PIPE, 100);
    os.events.push_back(RawInputRecord::Menu(RawMenuEvent { command_id: 1 }));
    let console = WinConsole::with_handle(Handle::new(PIPE));
    assert_eq!(
        run(&mut os, console.read_single_input()),
        Outcome::Failure(ConsoleError::InvalidHandle)
    );
    assert_eq!(run(&mut os, console.read_input(4)), Outcome::Failure(ConsoleError::InvalidHandle));
    assert_eq!(
        run(&mut os, console.read_input_n(4)),
        Outcome::Failure(ConsoleError::InvalidHandle)
    );
    assert_eq!(run(&mut os, console.peek_input(4)), Outcome::Failure(ConsoleError::InvalidHandle));
    assert!(os.calls.iter().all(|call| matches!(call, Request::GetConsoleMode { .. })));
    assert_eq!(os.events.len(), 1);
}

fn key(unit: u16, down: i32) -> RawInputRecord {
    RawInputRecord::Key(RawKeyEvent {
        key_down: down,
        repeat_count: 1,
        virtual_key_code: 0x41,
        virtual_scan_code: 0x1E,
        unicode_char: unit,
        control_key_state: 0x0010,
    })
}

#[test]
fn events_are_read_from_a_console_in_order() {
    let mut os = FakeOs::new().with_console(CONSOLE);
    os.events.push_back(key(0x61, 1));
    os.events.push_back(key(0x61, 0));
    os.events.push_back(RawInputRecord::Menu(RawMenuEvent { command_id: 7 }));
    let console = WinConsole::with_handle(Handle::new(CONSOLE));

    let peeked = run(&mut os, console.peek_input(2));
    let first = KeyEventRecord {
        key_down: true,
        repeat_count: 1,
        virtual_key_code: 0x41,
        virtual_scan_code: 0x1E,
        u_char: 'a',
        control_key_state: ControlKeyState::new(0x0010),
    };
    let second = KeyEventRecord { key_down: false, ..first };
    assert_eq!(
        peeked,
        Outcome::Success(Value::Records(vec![
            InputRecord::KeyEvent(first),
            InputRecord::KeyEvent(second)
        ]))
    );
    assert_eq!(os.events.len(), 3);

    assert_eq!(
        run(&mut os, console.read_single_input()),
        Outcome::Success(Value::Record(InputRecord::KeyEvent(first)))
    );
    match run(&mut os, console.read_input(8)) {
        Outcome::Success(Value::Records(records)) => {
            assert_eq!(records.len(), 2);
            assert_eq!(records[0], InputRecord::KeyEvent(second));
        }
        other => panic!("unexpected outcome {:?}", other),
    }
    assert!(os.events.is_empty());
}

#[test]
fn read_of_no_event_is_a_violation_and_peek_of_none_is_not() {
    let mut os = FakeOs::new().with_console(CONSOLE);
    let console = WinConsole::with_handle(Handle::new(CONSOLE));
    assert_eq!(run(&mut os, console.read_input(2)), Outcome::Violation(Violation::NoEvent));
    assert_eq!(run(&mut os, console.read_single_input()), Outcome::Violation(Violation::NoEvent));
    assert_eq!(run(&mut os, console.peek_input(2)), Outcome::Success(Value::Records(vec![])));
}

#[test]
fn unreadable_event_is_a_violation() {
    let mut os = FakeOs::new().with_console(CONSOLE);
    let console = WinConsole::with_handle(Handle::new(CONSOLE));
    os.events.push_back(key(0xD800, 1));
    assert_eq!(
        run(&mut os, console.read_single_input()),
        Outcome::Violation(Violation::Unreadable)
    );
    os.events.push_back(RawInputRecord::Other { event_type: 0x20 });
    assert_eq!(run(&mut os, console.read_input(1)), Outcome::Violation(Violation::Unreadable));
}

#[test]
fn more_events_than_room_is_a_violation() {
    let console = WinConsole::with_handle(Handle::new(CONSOLE));
    let (exchange, _) = console.read_input(1);
    let (exchange, action) =
        exchange.advance(Reply { status: 1, error: 0, output: Output::Number(3) });
    assert_eq!(action, Action::Call(Request::ReadConsoleInput { handle: CONSOLE, capacity: 1 }));
    let (_, action) = exchange.advance(Reply {
        status: 1,
        error: 0,
        output: Output::Records { records: vec![key(0x61, 1)], count: 2 },
    });
    assert_eq!(action, Action::Return(Outcome::Violation(Violation::Overrun)));
}

#[test]
fn console_read_ends_before_the_wake_character() {
    let mut os = FakeOs::new().with_console(CONSOLE);
    os.keyboard = vec![0x48, 0x69, 0x1A, 0x21, 0x21];
    let console = WinConsole::with_handle(Handle::new(CONSOLE));
    match run(&mut os, console.read_utf16(16)) {
        Outcome::Success(Value::Units(units)) => {
            assert_eq!(units, utf16("Hi"));
            assert_eq!(units.len(), 2);
        }
        other => panic!("unexpected outcome {:?}", other),
    }
    assert_eq!(run(&mut os, console.read_utf8(16)), Outcome::Success(Value::Bytes(b"Hi".to_vec())));
    assert_eq!(
        run(&mut os, console.read_string()),
        Outcome::Success(Value::Text("Hi".to_string()))
    );

    os.keyboard = vec![0x48, 0x69, 0x1A];
    assert_eq!(run(&mut os, console.read_utf16(16)), Outcome::Success(Value::Units(utf16("Hi"))));
    os.keyboard = vec![0x1A, 0x48];
    assert_eq!(run(&mut os, console.read_utf16(16)), Outcome::Success(Value::Units(vec![])));
    os.keyboard = utf16("plain\r\n");
    assert_eq!(
        run(&mut os, console.read_utf16(16)),
        Outcome::Success(Value::Units(utf16("plain\r\n")))
    );
}

#[test]
fn console_read_asks_with_the_control() {
    let mut os = FakeOs::new().with_console(CONSOLE);
    os.keyboard = vec![0x61, 0x1B, 0x62, 0x1A];
    let console = WinConsole::with_handle(Handle::new(CONSOLE));
    let escape = ConsoleReadControl::new(0, 1 << 27, ControlKeyState::new(0));
    assert_eq!(
        run(&mut os, console.read_utf16_with_control(8, escape)),
        Outcome::Success(Value::Units(vec![0x61]))
    );
    assert_eq!(
        run(&mut os, console.read_utf8_with_control(8, ConsoleReadControl::new_with_mask(0))),
        Outcome::Success(Value::Bytes(vec![0x61, 0x1B, 0x62, 0x1A]))
    );
    assert_eq!(
        run(&mut os, console.read_utf16(8)),
        Outcome::Success(Value::Units(vec![0x61, 0x1B, 0x62]))
    );
    match (&os.calls[1], &os.calls[5]) {
        (
            Request::ReadConsole { capacity: 8, control: asked, .. },
            Request::ReadConsole { control: default, .. },
        ) => {
            assert_eq!(asked.length, 16);
            assert_eq!(asked.ctrl_wakeup_mask, 1 << 27);
            assert_eq!(default.ctrl_wakeup_mask, 1 << 26);
            assert_eq!(default.initial_chars, 0);
            assert_eq!(default.control_key_state, 0);
        }
        other => panic!("unexpected calls {:?}", other),
    }
}

#[test]
fn console_read_of_broken_text() {
    let mut os = FakeOs::new().with_console(CONSOLE);
    os.keyboard = vec![0x61, 0xDC00];
    let console = WinConsole::with_handle(Handle::new(CONSOLE));
    assert_eq!(
        run(&mut os, console.read_utf16(8)),
        Outcome::Success(Value::Units(vec![0x61, 0xDC00]))
    );
    assert_eq!(run(&mut os, console.read_utf8(8)), Outcome::Failure(ConsoleError::InvalidData));
    assert_eq!(run(&mut os, console.read_string()), Outcome::Failure(ConsoleError::InvalidData));
}

#[test]
fn text_goes_round_through_a_pipe() {
    let mut os = FakeOs::new().with_file(PIPE, 1000);
    let console = WinConsole::with_handle(Handle::new(PIPE));
    let text = "Grüße, 世界! 𝄞";
    let bytes = text.as_bytes().len();
    assert_eq!(
        run(&mut os, console.write_utf16(&utf16(text))),
        Outcome::Success(Value::Count(bytes))
    );
    assert_eq!(os.files[&PIPE].data, text.as_bytes().to_vec());
    assert_eq!(run(&mut os, console.read_utf16(100)), Outcome::Success(Value::Units(utf16(text))));

    assert_eq!(
        run(&mut os, console.write_utf8(text.as_bytes())),
        Outcome::Success(Value::Count(bytes))
    );
    assert_eq!(
        run(&mut os, console.read_utf8(100)),
        Outcome::Success(Value::Bytes(text.as_bytes().to_vec()))
    );

    assert_eq!(
        run(&mut os, console.write_utf8(text.as_bytes())),
        Outcome::Success(Value::Count(bytes))
    );
    assert_eq!(
        run(&mut os, console.read_string()),
        Outcome::Success(Value::Text(text.to_string()))
    );
    assert_eq!(run(&mut os, console.read_string()), Outcome::Success(Value::Text(String::new())));
}

#[test]
fn pipe_takes_bytes_whatever_they_hold() {
    let mut os = FakeOs::new().with_file(PIPE, 1000);
    let console = WinConsole::with_handle(Handle::new(PIPE));
    assert_eq!(run(&mut os, console.write_utf8(&[0xFF])), Outcome::Success(Value::Count(1)));
    assert_eq!(os.files[&PIPE].data, vec![0xFF]);
    assert_eq!(
        os.calls,
        vec![
            Request::GetConsoleMode { handle: PIPE },
            Request::WriteFile { handle: PIPE, data: vec![0xFF] },
        ]
    );
    assert_eq!(
        run(&mut os, console.write_utf8(&[0x61, 0xC3, 0x00, 0xED, 0xA0, 0x80])),
        Outcome::Success(Value::Count(6))
    );
    assert_eq!(os.files[&PIPE].data, vec![0xFF, 0x61, 0xC3, 0x00, 0xED, 0xA0, 0x80]);
}

#[test]
fn pipe_takes_code_units_of_well_formed_text_alone() {
    let mut os = FakeOs::new().with_file(PIPE, 1000);
    let console = WinConsole::with_handle(Handle::new(PIPE));
    assert_eq!(
        run(&mut os, console.write_utf16(&[0x61, 0xD800])),
        Outcome::Failure(ConsoleError::InvalidInput)
    );
    assert_eq!(
        run(&mut os, console.write_utf16(&[0xDC00])),
        Outcome::Failure(ConsoleError::InvalidInput)
    );
    assert!(os.files[&PIPE].data.is_empty());
    assert!(os.calls.iter().all(|call| matches!(call, Request::GetConsoleMode { .. })));
}

#[test]
fn short_write_of_any_bytes_to_a_pipe_is_returned_as_it_is() {
    let mut os = FakeOs::new().with_file(PIPE, 2);
    os.standard.insert(HandleType::Output.slot(), PIPE);
    assert_eq!(
        run(&mut os, WinConsole::output().write_utf8(&[0xFF, 0xFE, 0xFD])),
        Outcome::Success(Value::Count(2))
    );
    assert_eq!(os.files[&PIPE].data, vec![0xFF, 0xFE]);
}

#[test]
fn pipe_read_of_broken_text_fails() {
    let mut os = FakeOs::new().with_file(PIPE, 1000);
    os.files.get_mut(&PIPE).unwrap().data = vec![0x61, 0xC3];
    let console = WinConsole::with_handle(Handle::new(PIPE));
    assert_eq!(run(&mut os, console.read_utf16(8)), Outcome::Failure(ConsoleError::InvalidData));
    os.files.get_mut(&PIPE).unwrap().position = 0;
    assert_eq!(run(&mut os, console.read_utf8(8)), Outcome::Failure(ConsoleError::InvalidData));
    os.files.get_mut(&PIPE).unwrap().position = 0;
    assert_eq!(run(&mut os, console.read_string()), Outcome::Failure(ConsoleError::InvalidData));
}

#[test]
fn pipe_read_keeps_the_wake_character() {
    let mut os = FakeOs::new().with_file(PIPE, 1000);
    os.files.get_mut(&PIPE).unwrap().data = vec![0x61, 0x1A, 0x62];
    let console = WinConsole::with_handle(Handle::new(PIPE));
    assert_eq!(
        run(&mut os, console.read_utf16(8)),
        Outcome::Success(Value::Units(vec![0x61, 0x1A, 0x62]))
    );
    assert_eq!(os.calls[1], Request::ReadFile { handle: PIPE, capacity: 8 });
}

#[test]
fn failed_native_call_carries_the_last_error() {
    let mut os = FakeOs::new().with_console(CONSOLE);
    os.failing = true;
    let console = WinConsole::with_handle(Handle::new(CONSOLE));
    let failure = Outcome::Failure(ConsoleError::Os { code: FAKE_ERROR });
    assert_eq!(run(&mut os, console.write_utf8(b"x")), failure);
    assert_eq!(run(&mut os, console.read_utf16(4)), failure);
    assert_eq!(run(&mut os, console.read_input(4)), failure);
    assert_eq!(run(&mut os, console.set_mode(3)), failure);
    assert_eq!(run(&mut os, console.get_screen_buffer_info()), failure);
    assert_eq!(run(&mut os, console.clear()), failure);
    assert_eq!(run(&mut os, console.get_largest_window_size()), failure);
    assert_eq!(run(&mut os, WinConsole::get_input_code_page()), failure);
    assert_eq!(run(&mut os, WinConsole::alloc_console()), failure);
    assert_eq!(ConsoleError::Os { code: FAKE_ERROR }.raw_os_error(), Some(FAKE_ERROR));
    assert_eq!(ConsoleError::InvalidHandle.raw_os_error(), Some(6));
    assert_eq!(ConsoleError::InvalidData.raw_os_error(), None);
    assert_eq!(ConsoleError::InvalidInput.raw_os_error(), None);
    assert_eq!(ConsoleError::NoScreenBuffer.raw_os_error(), None);

    let pipe = WinConsole::with_handle(Handle::new(PIPE));
    assert_eq!(run(&mut os, pipe.write_utf8(b"x")), Outcome::Failure(ConsoleError::Os { code: 6 }));
    assert_eq!(run(&mut os, pipe.read_utf8(4)), Outcome::Failure(ConsoleError::Os { code: 6 }));
}

#[test]
fn operation_on_the_invalid_handle_fails_as_the_call_does() {
    let mut os = FakeOs::new();
    let console = WinConsole::with_handle(Handle::new(-1));
    assert_eq!(
        run(&mut os, console.write_utf8(b"x")),
        Outcome::Failure(ConsoleError::Os { code: 6 })
    );
    assert_eq!(
        run(&mut os, console.get_handle()),
        Outcome::Success(Value::Handle(Handle::new(-1)))
    );
}

#[test]
fn device_endpoint_opens_and_closes_for_each_operation() {
    let mut os = FakeOs::new().with_console(900);
    let console = WinConsole::current_output();
    assert_eq!(run(&mut os, console.write_utf8(b"Hi")), Outcome::Success(Value::Count(2)));
    assert_eq!(
        os.calls,
        vec![
            Request::OpenDevice {
                device: Direction::Output,
                desired_access: 0xC000_0000,
                share_mode: 3
            },
            Request::GetConsoleMode { handle: 900 },
            Request::WriteConsoleA { handle: 900, data: b"Hi".to_vec() },
            Request::CloseHandle { handle: 900 },
        ]
    );
    assert_eq!(os.closed, vec![900]);

    os.console_takes = Some(1);
    assert_eq!(
        run(&mut os, console.write_utf8(b"Hi")),
        Outcome::Violation(Violation::PartialConsoleWrite { requested: 2, written: 1 })
    );
    assert_eq!(os.closed, vec![900, 900]);

    os.failing = true;
    assert_eq!(
        run(&mut os, WinConsole::current_input().read_input(1)),
        Outcome::Failure(ConsoleError::Os { code: FAKE_ERROR })
    );
    assert_eq!(os.closed, vec![900, 900, 900]);
    assert_eq!(Direction::Input.device_name(), "CONIN$");
    assert_eq!(Direction::Output.device_name(), "CONOUT$");
}

#[test]
fn device_endpoint_hands_out_an_owned_handle() {
    let mut os = FakeOs::new();
    assert_eq!(
        run(&mut os, WinConsole::current_input().get_handle()),
        Outcome::Success(Value::Handle(Handle::new_owned(900)))
    );
    assert_eq!(
        run(&mut os, WinConsole::get_current_input_handle()),
        Outcome::Success(Value::Handle(Handle::new_owned(900)))
    );
    assert_eq!(
        run(&mut os, WinConsole::get_current_output_handle()),
        Outcome::Success(Value::Handle(Handle::new_owned(900)))
    );
    assert!(os.closed.is_empty());
    os.device = -1;
    assert_eq!(
        run(&mut os, WinConsole::current_input().get_handle()),
        Outcome::Failure(ConsoleError::InvalidHandle)
    );
    assert_eq!(
        run(&mut os, WinConsole::get_current_output_handle()),
        Outcome::Failure(ConsoleError::InvalidHandle)
    );
}

#[test]
fn device_endpoint_reports_a_failed_close() {
    let mut os = FakeOs::new().with_console(900);
    os.close_fails = true;
    assert_eq!(
        run(&mut os, WinConsole::current_output().write_utf8(b"Hi")),
        Outcome::Violation(Violation::CloseFailed { handle: 900 })
    );
}

#[test]
fn screen_buffer_is_created_owned() {
    let mut os = FakeOs::new();
    assert_eq!(
        run(&mut os, WinConsole::create_console_screen_buffer()),
        Outcome::Success(Value::Handle(Handle::new_owned(900)))
    );
    let options = ConsoleOptions::new().generic_read().shared_write();
    assert_eq!(options.get_desired_access(), 0x8000_0000);
    assert_eq!(options.get_share_mode(), 2);
    assert_eq!(
        ConsoleOptions::new().generic_write().shared_read().get_desired_access(),
        0x4000_0000
    );
    assert_eq!(ConsoleOptions::new().generic_write().shared_read().get_share_mode(), 1);
    assert_eq!(
        run(&mut os, WinConsole::create_console_screen_buffer_with_options(options)),
        Outcome::Success(Value::Handle(Handle::new_owned(900)))
    );
    assert_eq!(
        os.calls,
        vec![
            Request::CreateConsoleScreenBuffer { desired_access: 0xC000_0000, share_mode: 3 },
            Request::CreateConsoleScreenBuffer { desired_access: 0x8000_0000, share_mode: 2 },
        ]
    );
    os.device = -1;
    assert_eq!(
        run(&mut os, WinConsole::create_console_screen_buffer()),
        Outcome::Failure(ConsoleError::NoScreenBuffer)
    );
}

#[test]
fn clear_fills_the_buffer_and_homes_the_cursor() {
    let mut os = FakeOs::new().with_console(CONSOLE);
    os.info.attributes = 0x1E;
    let console = WinConsole::with_handle(Handle::new(CONSOLE));
    assert_eq!(run(&mut os, console.clear()), Outcome::Success(Value::Unit));
    assert_eq!(
        os.calls,
        vec![
            Request::GetConsoleScreenBufferInfo { handle: CONSOLE },
            Request::FillConsoleOutputCharacter {
                handle: CONSOLE,
                character: 0x20,
                length: 2000,
                start: Coord::new(0, 0)
            },
            Request::FillConsoleOutputAttribute {
                handle: CONSOLE,
                attribute: 0x1E,
                length: 2000,
                start: Coord::new(0, 0)
            },
            Request::SetConsoleCursorPosition { handle: CONSOLE, position: Coord::new(0, 0) },
        ]
    );
    assert_eq!(
        run(&mut os, console.get_cursor_position()),
        Outcome::Success(Value::Position(Coord::new(0, 0)))
    );
    os.info.screen_buffer_size = Coord::new(-1, 25);
    assert_eq!(
        run(&mut os, console.clear()),
        Outcome::Violation(Violation::InvalidSize { size: Coord::new(-1, 25) })
    );
}

#[test]
fn colors_are_read_from_and_written_to_the_attributes() {
    let mut os = FakeOs::new().with_console(CONSOLE);
    let console = WinConsole::with_handle(Handle::new(CONSOLE));
    os.info.attributes = 0x01A4;
    assert_eq!(
        run(&mut os, console.get_text_attribute()),
        Outcome::Success(Value::Attribute(0x01A4))
    );
    assert_eq!(
        run(&mut os, console.get_foreground_color()),
        Outcome::Success(Value::Color(ConsoleColor::DarkRed))
    );
    assert_eq!(
        run(&mut os, console.set_foreground_color(ConsoleColor::Yellow)),
        Outcome::Success(Value::Unit)
    );
    assert_eq!(os.info.attributes, 0x01AE);
    assert_eq!(
        run(&mut os, console.set_background_color(ConsoleColor::DarkBlue)),
        Outcome::Success(Value::Unit)
    );
    assert_eq!(os.info.attributes, 0x011E);
    assert_eq!(
        run(&mut os, console.get_background_color()),
        Outcome::Success(Value::Color(ConsoleColor::DarkBlue))
    );
    assert_eq!(
        run(&mut os, console.get_foreground_color()),
        Outcome::Success(Value::Color(ConsoleColor::Yellow))
    );
    os.info.attributes = 0x00C7;
    assert_eq!(
        run(&mut os, console.get_background_color()),
        Outcome::Success(Value::Color(ConsoleColor::Red))
    );
    assert_eq!(
        run(&mut os, console.get_foreground_color()),
        Outcome::Success(Value::Color(ConsoleColor::Gray))
    );
    os.info.attributes = 0x0007;
    assert_eq!(
        run(&mut os, console.get_background_color()),
        Outcome::Success(Value::Color(ConsoleColor::Black))
    );
    os.info.attributes = 0xFFF0;
    assert_eq!(
        run(&mut os, console.get_background_color()),
        Outcome::Success(Value::Color(ConsoleColor::White))
    );
    assert_eq!(run(&mut os, console.set_text_attribute(0x0042)), Outcome::Success(Value::Unit));
    assert_eq!(os.info.attributes, 0x0042);
}

#[test]
fn queries_give_what_the_calls_gave() {
    let mut os = FakeOs::new().with_console(CONSOLE);
    os.info.cursor_position = Coord::new(5, 6);
    let console = WinConsole::with_handle(Handle::new(CONSOLE));
    let info = os.info;
    assert_eq!(
        run(&mut os, console.get_screen_buffer_info()),
        Outcome::Success(Value::ScreenBuffer(info))
    );
    assert_eq!(
        run(&mut os, console.get_cursor_position()),
        Outcome::Success(Value::Position(Coord::new(5, 6)))
    );
    assert_eq!(run(&mut os, console.get_mode()), Outcome::Success(Value::Number(7)));
    assert_eq!(run(&mut os, console.has_mode(0x0002)), Outcome::Success(Value::Flag(true)));
    assert_eq!(run(&mut os, console.has_mode(0x0010)), Outcome::Success(Value::Flag(false)));
    assert_eq!(
        run(&mut os, console.get_largest_window_size()),
        Outcome::Success(Value::Position(Coord::new(120, 50)))
    );
    assert_eq!(
        run(&mut os, console.get_number_of_input_events()),
        Outcome::Success(Value::Count(0))
    );
    assert_eq!(
        run(&mut os, console.get_number_of_mouse_buttons()),
        Outcome::Success(Value::Number(3))
    );
    assert_eq!(
        run(&mut os, console.fill_with_char(Coord::new(1, 2), 9, 'x')),
        Outcome::Success(Value::Number(9))
    );
    assert_eq!(
        run(&mut os, console.fill_with_attribute(Coord::new(1, 2), 4, 0x70)),
        Outcome::Success(Value::Number(4))
    );
    assert!(os.calls.contains(&Request::FillConsoleOutputCharacter {
        handle: CONSOLE,
        character: 0x78,
        length: 9,
        start: Coord::new(1, 2)
    }));
    assert_eq!(
        run(&mut os, WinConsole::get_input_code_page()),
        Outcome::Success(Value::Number(65001))
    );
    assert_eq!(
        run(&mut os, WinConsole::get_output_code_page()),
        Outcome::Success(Value::Number(65001))
    );
    assert_eq!(
        run(&mut os, WinConsole::get_history_info()),
        Outcome::Success(Value::History(ConsoleHistoryInfo {
            size: 16,
            history_buffer_size: 50,
            number_of_history_buffers: 4,
            allow_duplicate_entries: true
        }))
    );
}

#[test]
fn every_color_is_read_as_it_was_set() {
    let colors = [
        ConsoleColor::Black,
        ConsoleColor::DarkBlue,
        ConsoleColor::DarkGreen,
        ConsoleColor::DarkCyan,
        ConsoleColor::DarkRed,
        ConsoleColor::DarkMagenta,
        ConsoleColor::DarkYellow,
        ConsoleColor::Gray,
        ConsoleColor::DarkGray,
        ConsoleColor::Blue,
        ConsoleColor::Green,
        ConsoleColor::Cyan,
        ConsoleColor::Red,
        ConsoleColor::Magenta,
        ConsoleColor::Yellow,
        ConsoleColor::White,
    ];
    let mut os = FakeOs::new().with_console(CONSOLE);
    let console = WinConsole::with_handle(Handle::new(CONSOLE));
    os.info.attributes = 0x8135;
    for text in colors {
        for background in colors {
            assert_eq!(
                run(&mut os, console.set_foreground_color(text)),
                Outcome::Success(Value::Unit)
            );
            assert_eq!(
                run(&mut os, console.set_background_color(background)),
                Outcome::Success(Value::Unit)
            );
            assert_eq!(
                run(&mut os, console.get_foreground_color()),
                Outcome::Success(Value::Color(text))
            );
            assert_eq!(
                run(&mut os, console.get_background_color()),
                Outcome::Success(Value::Color(background))
            );
            assert_eq!(os.info.attributes & 0xFF00, 0x8100);
            assert_eq!(ConsoleColor::foreground(os.info.attributes), text);
            assert_eq!(ConsoleColor::background(os.info.attributes), background);
        }
    }
    assert_eq!(ConsoleColor::Red.set_foreground(0x01A4), 0x01AC);
    assert_eq!(ConsoleColor::Red.set_background(0x01A4), 0x01C4);
    assert_eq!(ConsoleColor::from_number(12), ConsoleColor::Red);
}

#[test]
fn fill_refuses_a_character_of_two_code_units() {
    let mut os = FakeOs::new();
    for console in [WinConsole::with_handle(Handle::new(CONSOLE)), WinConsole::output()] {
        assert_eq!(
            run(&mut os, console.fill_with_char(Coord::new(0, 0), 1, '\u{1F600}')),
            Outcome::Failure(ConsoleError::InvalidInput)
        );
        assert_eq!(
            run(&mut os, console.fill_with_char(Coord::new(0, 0), 1, '\u{10000}')),
            Outcome::Failure(ConsoleError::InvalidInput)
        );
    }
    assert!(os.calls.is_empty());
    let console = WinConsole::with_handle(Handle::new(CONSOLE));
    assert_eq!(
        run(&mut os, console.fill_with_char(Coord::new(0, 0), 3, '\u{FFFF}')),
        Outcome::Success(Value::Number(3))
    );
    assert_eq!(
        os.calls,
        vec![Request::FillConsoleOutputCharacter {
            handle: CONSOLE,
            character: 0xFFFF,
            length: 3,
            start: Coord::new(0, 0)
        }]
    );
}

#[test]
fn title_is_written_with_a_zero_and_read_up_to_its_length() {
    let mut os = FakeOs::new();
    assert_eq!(run(&mut os, WinConsole::set_title("ab")), Outcome::Success(Value::Unit));
    assert_eq!(run(&mut os, WinConsole::set_title("ab\0")), Outcome::Success(Value::Unit));
    assert_eq!(run(&mut os, WinConsole::set_title("")), Outcome::Success(Value::Unit));
    assert_eq!(
        os.calls,
        vec![
            Request::SetConsoleTitle { title: vec![0x61, 0x62, 0] },
            Request::SetConsoleTitle { title: vec![0x61, 0x62, 0] },
            Request::SetConsoleTitle { title: vec![0] },
        ]
    );
    os.keyboard = utf16("Title 𝄞");
    assert_eq!(
        run(&mut os, WinConsole::get_title()),
        Outcome::Success(Value::Text("Title 𝄞".to_string()))
    );
    assert_eq!(
        run(&mut os, WinConsole::get_original_title()),
        Outcome::Success(Value::Text("Title 𝄞".to_string()))
    );
    assert_eq!(os.calls[3], Request::GetConsoleTitle { capacity: 260 });
    assert_eq!(os.calls[4], Request::GetConsoleOriginalTitle { capacity: 260 });
    os.keyboard = vec![];
    assert_eq!(
        run(&mut os, WinConsole::get_title()),
        Outcome::Failure(ConsoleError::Os { code: FAKE_ERROR })
    );
    os.keyboard = vec![0xDC00];
    assert_eq!(run(&mut os, WinConsole::get_title()), Outcome::Failure(ConsoleError::InvalidData));
}

#[test]
fn title_longer_than_its_buffer_is_the_buffer() {
    let (exchange, action) = WinConsole::get_title();
    assert_eq!(action, Action::Call(Request::GetConsoleTitle { capacity: 260 }));
    let (_, action) = exchange.advance(Reply {
        status: 1,
        error: 0,
        output: Output::Units { units: utf16("abc"), count: 7 },
    });
    assert_eq!(action, Action::Return(Outcome::Success(Value::Text("abc".to_string()))));
}

#[test]
fn process_list_is_asked_for_again_with_more_room() {
    let mut os = FakeOs::new();
    os.processes = vec![7, 8];
    assert_eq!(
        run(&mut os, WinConsole::get_process_list()),
        Outcome::Success(Value::Processes(vec![7, 8]))
    );
    assert_eq!(os.calls, vec![Request::GetConsoleProcessList { capacity: 4 }]);
    os.processes = vec![1, 2, 3, 4];
    assert_eq!(
        run(&mut os, WinConsole::get_process_list()),
        Outcome::Success(Value::Processes(vec![1, 2, 3, 4]))
    );
    assert_eq!(os.calls.len(), 2);
    os.processes = vec![1, 2, 3, 4, 5];
    assert_eq!(
        run(&mut os, WinConsole::get_process_list()),
        Outcome::Success(Value::Processes(vec![1, 2, 3, 4, 5]))
    );
    assert_eq!(
        os.calls[2..],
        [
            Request::GetConsoleProcessList { capacity: 4 },
            Request::GetConsoleProcessList { capacity: 5 },
        ]
    );
    os.processes = vec![];
    assert_eq!(
        run(&mut os, WinConsole::get_process_list()),
        Outcome::Failure(ConsoleError::Os { code: FAKE_ERROR })
    );
}

#[test]
fn process_list_that_grows_is_asked_for_once_more() {
    let (exchange, _) = WinConsole::get_process_list();
    let (exchange, action) = exchange.advance(Reply {
        status: 1,
        error: 0,
        output: Output::Processes { ids: vec![0; 4], count: 6 },
    });
    assert_eq!(action, Action::Call(Request::GetConsoleProcessList { capacity: 6 }));
    let (exchange, action) = exchange.advance(Reply {
        status: 1,
        error: 0,
        output: Output::Processes { ids: vec![0; 6], count: 9 },
    });
    assert_eq!(action, Action::Call(Request::GetConsoleProcessList { capacity: 9 }));
    let (exchange, action) = exchange.advance(Reply {
        status: 1,
        error: 0,
        output: Output::Processes { ids: vec![1, 2, 3, 4, 5, 6, 7, 8, 0], count: 8 },
    });
    assert_eq!(
        action,
        Action::Return(Outcome::Success(Value::Processes(vec![1, 2, 3, 4, 5, 6, 7, 8])))
    );
    assert!(exchange.is_finished());

    let (exchange, _) = WinConsole::get_process_list();
    let (_, action) = exchange.advance(Reply {
        status: 1,
        error: 0,
        output: Output::Processes { ids: vec![1, 2], count: 3 },
    });
    assert_eq!(action, Action::Return(Outcome::Violation(Violation::Overrun)));
}

#[test]
fn cells_are_written_and_read_in_native_form() {
    let mut os = FakeOs::new().with_console(CONSOLE);
    let console = WinConsole::with_handle(Handle::new(CONSOLE));
    let cells = [CharInfo::new('a', 7), CharInfo::new('ß', 0x70)];
    let area = SmallRect::new(0, 0, 1, 0);
    assert_eq!(
        run(&mut os, console.write_char_buffer(&cells, Coord::new(2, 1), Coord::new(0, 0), area)),
        Outcome::Success(Value::Unit)
    );
    assert_eq!(
        os.calls,
        vec![Request::WriteConsoleOutput {
            handle: CONSOLE,
            cells: vec![
                RawCharInfo { unicode_char: 0x61, attributes: 7 },
                RawCharInfo { unicode_char: 0xDF, attributes: 0x70 }
            ],
            size: Coord::new(2, 1),
            start: Coord::new(0, 0),
            region: area,
        }]
    );
    assert_eq!(
        run(&mut os, console.read_char_buffer(Coord::new(2, 2), Coord::new(0, 0), area)),
        Outcome::Success(Value::Cells { cells: vec![CharInfo::new('A', 7); 4], region: area })
    );
    assert_eq!(
        os.calls[1],
        Request::ReadConsoleOutput {
            handle: CONSOLE,
            size: Coord::new(2, 2),
            start: Coord::new(0, 0),
            region: area,
            length: 4
        }
    );
    assert_eq!(
        run(
            &mut os,
            console.scroll_screen_buffer(area, None, Coord::new(0, 1), CharInfo::new(' ', 7))
        ),
        Outcome::Success(Value::Unit)
    );
    assert_eq!(
        os.calls[2],
        Request::ScrollConsoleScreenBuffer {
            handle: CONSOLE,
            scroll: area,
            clip: None,
            destination: Coord::new(0, 1),
            fill: RawCharInfo { unicode_char: 0x20, attributes: 7 },
        }
    );
}

#[test]
fn reply_of_another_shape_is_a_violation() {
    let console = WinConsole::with_handle(Handle::new(CONSOLE));
    let (exchange, action) = console.get_mode();
    assert_eq!(action, Action::Call(Request::GetConsoleMode { handle: CONSOLE }));
    assert!(!exchange.is_finished());
    let (exchange, action) =
        exchange.advance(Reply { status: 1, error: 0, output: Output::Handle(3) });
    assert_eq!(action, Action::Return(Outcome::Violation(Violation::UnexpectedReply)));
    let (exchange, action) =
        exchange.advance(Reply { status: 1, error: 0, output: Output::Number(3) });
    assert_eq!(action, Action::Return(Outcome::Violation(Violation::UnexpectedReply)));
    assert!(exchange.is_finished());

    let (exchange, _) = WinConsole::input().get_mode();
    let (_, action) = exchange.advance(Reply { status: 1, error: 0, output: Output::Nothing });
    assert_eq!(action, Action::Return(Outcome::Violation(Violation::UnexpectedReply)));
}

#[test]
fn plain_operations_ask_for_their_native_call() {
    let mut os = FakeOs::new();
    let console = WinConsole::with_handle(Handle::new(CONSOLE));
    let window = SmallRect::new(0, 0, 9, 9);
    assert_eq!(run(&mut os, console.set_mode(0x0003)), Outcome::Success(Value::Unit));
    assert_eq!(
        run(&mut os, console.set_screen_buffer_size(Coord::new(90, 30))),
        Outcome::Success(Value::Unit)
    );
    assert_eq!(run(&mut os, console.set_window_info(true, &window)), Outcome::Success(Value::Unit));
    assert_eq!(
        run(&mut os, console.set_cursor_position(Coord::new(1, 1))),
        Outcome::Success(Value::Unit)
    );
    assert_eq!(run(&mut os, console.flush_input()), Outcome::Success(Value::Unit));
    assert_eq!(run(&mut os, WinConsole::attach_console(42)), Outcome::Success(Value::Unit));
    assert_eq!(run(&mut os, WinConsole::free_console()), Outcome::Success(Value::Unit));
    assert_eq!(run(&mut os, WinConsole::set_input_code(437)), Outcome::Success(Value::Unit));
    assert_eq!(run(&mut os, WinConsole::set_output_code(65001)), Outcome::Success(Value::Unit));
    assert_eq!(
        run(&mut os, WinConsole::set_active_console_screen_buffer(&Handle::new(R1))),
        Outcome::Success(Value::Unit)
    );
    assert_eq!(
        run(
            &mut os,
            WinConsole::set_history_info(ConsoleHistoryInfo {
                size: 16,
                history_buffer_size: 20,
                number_of_history_buffers: 2,
                allow_duplicate_entries: false
            })
        ),
        Outcome::Success(Value::Unit)
    );
    assert_eq!(
        os.calls,
        vec![
            Request::SetConsoleMode { handle: CONSOLE, mode: 3 },
            Request::SetConsoleScreenBufferSize { handle: CONSOLE, size: Coord::new(90, 30) },
            Request::SetConsoleWindowInfo { handle: CONSOLE, absolute: true, window },
            Request::SetConsoleCursorPosition { handle: CONSOLE, position: Coord::new(1, 1) },
            Request::FlushConsoleInputBuffer { handle: CONSOLE },
            Request::AttachConsole { process_id: 42 },
            Request::FreeConsole,
            Request::SetConsoleCP { code_page: 437 },
            Request::SetConsoleOutputCP { code_page: 65001 },
            Request::SetConsoleActiveScreenBuffer { handle: R1 },
            Request::SetConsoleHistoryInfo {
                info: RawHistoryInfo {
                    size: 16,
                    history_buffer_size: 20,
                    number_of_history_buffers: 2,
                    flags: 0
                }
            },
        ]
    );
}

#[test]
fn structures_are_handed_through() {
    let mut os = FakeOs::new();
    let console = WinConsole::with_handle(Handle::new(CONSOLE));
    assert_eq!(
        run(&mut os, WinConsole::get_selection_info()),
        Outcome::Success(Value::Selection(selection()))
    );
    assert_eq!(run(&mut os, console.get_font_info(true)), Outcome::Success(Value::Font(font())));
    assert_eq!(
        run(&mut os, console.get_font_info_ex(false)),
        Outcome::Success(Value::FontEx(ConsoleFontInfoEx { size: 84, ..font_ex() }))
    );
    assert_eq!(
        run(&mut os, console.set_font_info_ex(font_ex(), true)),
        Outcome::Success(Value::Unit)
    );
    let info = ConsoleScreenBufferInfoEx {
        size: 96,
        screen_buffer_size: Coord::new(80, 300),
        cursor_position: Coord::new(1, 2),
        attributes: 7,
        window: SmallRect::new(0, 0, 79, 24),
        maximum_window_size: Coord::new(80, 60),
        popup_attributes: 0xF5,
        full_screen_supported: true,
        color_table: [0x0012_3456; 16],
    };
    assert_eq!(
        run(&mut os, console.get_screen_buffer_info_ex()),
        Outcome::Success(Value::ScreenBufferEx(info))
    );
    assert_eq!(
        run(&mut os, console.set_screen_buffer_info_ex(info)),
        Outcome::Success(Value::Unit)
    );
    assert_eq!(run(&mut os, WinConsole::alloc_console()), Outcome::Success(Value::Unit));
    assert_eq!(
        os.calls,
        vec![
            Request::GetConsoleSelectionInfo,
            Request::GetCurrentConsoleFont { handle: CONSOLE, maximum_window: true },
            Request::GetCurrentConsoleFontEx { handle: CONSOLE, maximum_window: false, size: 84 },
            Request::SetCurrentConsoleFontEx {
                handle: CONSOLE,
                maximum_window: true,
                info: font_ex()
            },
            Request::GetConsoleScreenBufferInfoEx { handle: CONSOLE, size: 96 },
            Request::SetConsoleScreenBufferInfoEx {
                handle: CONSOLE,
                info: RawScreenBufferInfoEx {
                    size: 96,
                    screen_buffer_size: Coord::new(80, 300),
                    cursor_position: Coord::new(1, 2),
                    attributes: 7,
                    window: SmallRect::new(0, 0, 79, 24),
                    maximum_window_size: Coord::new(80, 60),
                    popup_attributes: 0xF5,
                    full_screen_supported: 1,
                    color_table: [0x0012_3456; 16],
                }
            },
            Request::AllocConsole,
        ]
    );
}

#[test]
fn unreadable_cell_is_a_violation() {
    let console = WinConsole::with_handle(Handle::new(CONSOLE));
    let region = SmallRect::new(0, 0, 1, 0);
    let (exchange, action) = console.read_char_buffer(Coord::new(2, 1), Coord::new(0, 0), region);
    assert_eq!(
        action,
        Action::Call(Request::ReadConsoleOutput {
            handle: CONSOLE,
            size: Coord::new(2, 1),
            start: Coord::new(0, 0),
            region,
            length: 2
        })
    );
    let cells = vec![
        RawCharInfo { unicode_char: 0x61, attributes: 7 },
        RawCharInfo { unicode_char: 0xDC37, attributes: 7 },
    ];
    let (_, action) =
        exchange.advance(Reply { status: 1, error: 0, output: Output::Cells { cells, region } });
    assert_eq!(action, Action::Return(Outcome::Violation(Violation::Unreadable)));
}

#[test]
fn steps_of_an_operation_are_no_operations_to_start_with() {
    let steps = [
        Operation::Written { requested: 1 },
        Operation::ClearCharacters { length: 1, attributes: 7 },
        Operation::ClearAttributes { length: 1, attributes: 7 },
        Operation::ClearCursor,
    ];
    for step in steps {
        let (exchange, action) =
            Exchange::begin(Source::Fixed { handle: CONSOLE }, step, Payload::Nothing);
        assert_eq!(action, Action::Return(Outcome::Violation(Violation::UnexpectedReply)));
        assert!(exchange.is_finished());
    }
    let (_, action) = Exchange::begin(
        Source::Fixed { handle: CONSOLE },
        Operation::WriteUtf8,
        Payload::Units(vec![0x61]),
    );
    assert_eq!(action, Action::Return(Outcome::Violation(Violation::UnexpectedReply)));
    let (_, action) = Exchange::start(Operation::SetTitle, Payload::Nothing);
    assert_eq!(action, Action::Return(Outcome::Violation(Violation::UnexpectedReply)));
}
