use crate::exchange::begin;
use crate::exchange::start;
use crate::exchange::Action;
use crate::exchange::EventForm;
use crate::exchange::Exchange;
use crate::exchange::Operation;
use crate::exchange::Payload;
use crate::exchange::PayloadView;
use crate::exchange::Source;
use crate::exchange::TextForm;
use crate::exchange::success;
use crate::exchange::ActionView;
use crate::exchange::OutcomeView;
use crate::exchange::Value;
use crate::exchange::ValueView;
use crate::native::Direction;
use crate::structs::char_info::CharInfo;
use crate::structs::char_info::RawCharInfo;
use crate::structs::console_color::ConsoleColor;
use crate::structs::console_font_info_ex::ConsoleFontInfoEx;
use crate::structs::console_history_info::ConsoleHistoryInfo;
use crate::structs::console_read_control::ConsoleReadControl;
use crate::structs::console_read_control::RawReadControl;
use crate::structs::console_screen_buffer_info_ex::ConsoleScreenBufferInfoEx;
use crate::structs::coord::Coord;
use crate::structs::handle::Handle;
use crate::structs::small_rect::SmallRect;
use crate::text::encode_utf16;
use vstd::prelude::*;
use vstd::slice::slice_to_vec;

verus! {

/// The role of a standard handle of the process.
#[derive(Debug, Copy, Clone, Eq, PartialEq, Ord, PartialOrd, Hash)]
pub enum HandleType {
    /// The standard input device.
    Input,
    /// The standard output device.
    Output,
    /// The standard error device.
    Error,
}

impl HandleType {
    /// The native number of the role.
    pub open spec fn spec_slot(&self) -> u32 {
        match *self {
            HandleType::Input => 0xFFFF_FFF6,
            HandleType::Output => 0xFFFF_FFF5,
            HandleType::Error => 0xFFFF_FFF4,
        }
    }

    /// The native number of the role: -10, -11 and -12 as unsigned 32-bit
    /// words.
    #[verifier::when_used_as_spec(spec_slot)]
    pub fn slot(&self) -> (r: u32)
        ensures
            r == self.spec_slot(),
    {
        match self {
            HandleType::Input => 0xFFFF_FFF6,
            HandleType::Output => 0xFFFF_FFF5,
            HandleType::Error => 0xFFFF_FFF4,
        }
    }
}

/// The modes of a console input buffer.
pub struct ConsoleMode;

/// The attributes of the text of a console screen buffer.
pub struct ConsoleTextAttribute;

impl ConsoleMode {
    /// CTRL+C is processed by the system and is not placed in the input
    /// buffer.
    pub const ENABLE_PROCESSED_INPUT: u32 = 0x0001;

    /// A read returns only when a carriage return character is read.
    pub const ENABLE_LINE_INPUT: u32 = 0x0002;

    /// Characters read are written to the active screen buffer as they are
    /// read.
    pub const ENABLE_ECHO_INPUT: u32 = 0x0004;

    /// Changes of the size of the screen buffer are reported in the input
    /// buffer.
    pub const ENABLE_WINDOW_INPUT: u32 = 0x0008;

    /// Mouse events are reported in the input buffer.
    pub const ENABLE_MOUSE_INPUT: u32 = 0x0010;

    /// Text entered is inserted at the cursor and does not overwrite what
    /// follows.
    pub const ENABLE_INSERT_MODE: u32 = 0x0020;

    /// The mouse selects and edits text.
    pub const ENABLE_QUICK_EDIT_MODE: u32 = 0x0040;

    /// Needed to change the insert and quick edit modes.
    pub const ENABLE_EXTENDED_FLAGS: u32 = 0x0080;

    /// User input is converted into virtual terminal sequences.
    pub const ENABLE_VIRTUAL_TERMINAL_INPUT: u32 = 0x0200;
}

impl ConsoleTextAttribute {
    /// Text color contains blue.
    pub const FOREGROUND_BLUE: u16 = 0x0001;

    /// Text color contains green.
    pub const FOREGROUND_GREEN: u16 = 0x0002;

    /// Text color contains red.
    pub const FOREGROUND_RED: u16 = 0x0004;

    /// Text color is intensified.
    pub const FOREGROUND_INTENSITY: u16 = 0x0008;

    /// Background color contains blue.
    pub const BACKGROUND_BLUE: u16 = 0x0010;

    /// Background color contains green.
    pub const BACKGROUND_GREEN: u16 = 0x0020;

    /// Background color contains red.
    pub const BACKGROUND_RED: u16 = 0x0040;

    /// Background color is intensified.
    pub const BACKGROUND_INTENSITY: u16 = 0x0080;

    /// Leading byte.
    pub const COMMON_LVB_LEADING_BYTE: u16 = 0x0100;

    /// Trailing byte.
    pub const COMMON_LVB_TRAILING_BYTE: u16 = 0x0200;

    /// Top horizontal.
    pub const COMMON_LVB_GRID_HORIZONTAL: u16 = 0x0400;

    /// Left vertical.
    pub const COMMON_LVB_GRID_LVERTICAL: u16 = 0x0800;

    /// Right vertical.
    pub const COMMON_LVB_GRID_RVERTICAL: u16 = 0x1000;

    /// Reverse foreground and background attribute.
    pub const COMMON_LVB_REVERSE_VIDEO: u16 = 0x4000;

    /// Underscore.
    pub const COMMON_LVB_UNDERSCORE: u16 = 0x8000;
}

/// The native right to read.
pub const GENERIC_READ: u32 = 0x8000_0000;

/// The native right to write.
pub const GENERIC_WRITE: u32 = 0x4000_0000;

/// Others may read while the resource is open.
pub const FILE_SHARE_READ: u32 = 0x0000_0001;

/// Others may write while the resource is open.
pub const FILE_SHARE_WRITE: u32 = 0x0000_0002;

/// Options for creating a console screen buffer: the access that is asked
/// for and the way in which the buffer can be shared.
#[derive(Debug, Copy, Clone, Eq, PartialEq, Ord, PartialOrd, Hash)]
pub struct ConsoleOptions {
    pub desired_access: u32,
    pub share_mode: u32,
}

impl ConsoleOptions {
    /// Creates options that ask for no access and share nothing.
    #[inline]
    pub fn new() -> (r: Self)
        ensures
            r == (ConsoleOptions { desired_access: 0, share_mode: 0 }),
    {
        ConsoleOptions { desired_access: 0, share_mode: 0 }
    }

    /// Gets the access to the console screen buffer.
    #[inline]
    pub fn get_desired_access(&self) -> (r: u32)
        ensures
            r == self.desired_access,
    {
        self.desired_access
    }

    /// Gets how the buffer can be shared.
    #[inline]
    pub fn get_share_mode(&self) -> (r: u32)
        ensures
            r == self.share_mode,
    {
        self.share_mode
    }

    /// Asks for the right to read the buffer as well.
    pub fn generic_read(self) -> (r: ConsoleOptions)
        ensures
            r == (ConsoleOptions { desired_access: self.desired_access | 0x8000_0000, ..self }),
    {
        ConsoleOptions {
            desired_access: self.desired_access | GENERIC_READ,
            share_mode: self.share_mode,
        }
    }

    /// Asks for the right to write to the buffer as well.
    pub fn generic_write(self) -> (r: ConsoleOptions)
        ensures
            r == (ConsoleOptions { desired_access: self.desired_access | 0x4000_0000, ..self }),
    {
        ConsoleOptions {
            desired_access: self.desired_access | GENERIC_WRITE,
            share_mode: self.share_mode,
        }
    }

    /// Lets others read the buffer as well.
    pub fn shared_read(self) -> (r: ConsoleOptions)
        ensures
            r == (ConsoleOptions { share_mode: self.share_mode | 0x0000_0001, ..self }),
    {
        ConsoleOptions {
            desired_access: self.desired_access,
            share_mode: self.share_mode | FILE_SHARE_READ,
        }
    }

    /// Lets others write to the buffer as well.
    pub fn shared_write(self) -> (r: ConsoleOptions)
        ensures
            r == (ConsoleOptions { share_mode: self.share_mode | 0x0000_0002, ..self }),
    {
        ConsoleOptions {
            desired_access: self.desired_access,
            share_mode: self.share_mode | FILE_SHARE_WRITE,
        }
    }
}

/// How an endpoint obtains its handle.
#[derive(Debug, PartialEq, Eq)]
enum Provider {
    Fixed(Handle),
    Role(HandleType),
    Device(Direction),
}

/// An endpoint of the console: what reads, writes and queries act
/// through.
///
/// An endpoint holds no handle of a standard role: each operation obtains
/// the handle that the role denotes at that time, so that an endpoint made
/// before the standard handle was set anew acts on the new one. Only an
/// endpoint made with a handle holds it.
#[derive(Debug, PartialEq, Eq)]
pub struct WinConsole {
    provider: Provider,
}

/// The count that a native call takes for `length` items: `length` itself
/// up to the most that 32 bits can say.
pub open spec fn native_count(length: usize) -> u32 {
    if length > u32::MAX {
        u32::MAX
    } else {
        length as u32
    }
}

/// The count that a native call takes for `length` items.
fn count_of(length: usize) -> (r: u32)
    ensures
        r == native_count(length),
{
    if length > u32::MAX as usize {
        u32::MAX
    } else {
        length as u32
    }
}

/// The control of a read that has none of its own: the read ends at the
/// character that CTRL+Z gives.
pub open spec fn default_control() -> RawReadControl {
    RawReadControl {
        length: 16,
        initial_chars: 0,
        ctrl_wakeup_mask: 0x0400_0000,
        control_key_state: 0,
    }
}

/// The native form of a control: its fields, with the size of the
/// structure as length.
pub open spec fn raw_control(control: ConsoleReadControl) -> RawReadControl {
    RawReadControl {
        length: 16,
        initial_chars: control.initial_chars,
        ctrl_wakeup_mask: control.ctrl_wakeup_mask,
        control_key_state: control.control_key_state.bits(),
    }
}

/// The code units of a title: those of the text, and a zero after them
/// unless the text ends with one.
pub open spec fn title_units(title: Seq<char>) -> Seq<u16> {
    let units = encode_utf16(title);
    if units.len() > 0 && units.last() == 0 {
        units
    } else {
        units.push(0)
    }
}

/// The native cells of cells that each fit one.
pub open spec fn raw_cells(cells: Seq<CharInfo>) -> Seq<RawCharInfo> {
    Seq::new(cells.len(), |i: int| cells[i].raw())
}

// Operations that act on no endpoint.
impl WinConsole {
    /// Gets the standard handle of a role, as a shared handle.
    ///
    /// It fails with `InvalidHandle` where the role has the invalid handle.
    pub fn get_std_handle(handle_type: HandleType) -> (r: (Exchange, Action))
        ensures
            (r.0@, r.1@) == start(
                Operation::GetStdHandle { role: handle_type },
                PayloadView::Nothing,
            ),
    {
        Exchange::start(Operation::GetStdHandle { role: handle_type }, Payload::Nothing)
    }

    /// Sets the standard handle of a role. The handle stays with the
    /// caller.
    pub fn set_std_handle(handle_type: HandleType, handle: &Handle) -> (r: (Exchange, Action))
        ensures
            (r.0@, r.1@) == start(
                Operation::SetStdHandle { role: handle_type, handle: handle.raw },
                PayloadView::Nothing,
            ),
    {
        Exchange::start(
            Operation::SetStdHandle { role: handle_type, handle: handle.get_raw() },
            Payload::Nothing,
        )
    }

    /// Opens the input buffer of the console, whatever the standard input
    /// is redirected to. The handle is owned.
    pub fn get_current_input_handle() -> (r: (Exchange, Action))
        ensures
            (r.0@, r.1@) == start(
                Operation::OpenDevice { device: Direction::Input },
                PayloadView::Nothing,
            ),
    {
        Exchange::start(Operation::OpenDevice { device: Direction::Input }, Payload::Nothing)
    }

    /// Opens the active screen buffer of the console, whatever the
    /// standard output is redirected to. The handle is owned.
    pub fn get_current_output_handle() -> (r: (Exchange, Action))
        ensures
            (r.0@, r.1@) == start(
                Operation::OpenDevice { device: Direction::Output },
                PayloadView::Nothing,
            ),
    {
        Exchange::start(Operation::OpenDevice { device: Direction::Output }, Payload::Nothing)
    }

    /// Allocates a new console for the calling process.
    pub fn alloc_console() -> (r: (Exchange, Action))
        ensures
            (r.0@, r.1@) == start(Operation::AllocConsole, PayloadView::Nothing),
    {
        Exchange::start(Operation::AllocConsole, Payload::Nothing)
    }

    /// Attaches the calling process to the console of the given process.
    pub fn attach_console(process_id: u32) -> (r: (Exchange, Action))
        ensures
            (r.0@, r.1@) == start(Operation::AttachConsole { process_id }, PayloadView::Nothing),
    {
        Exchange::start(Operation::AttachConsole { process_id }, Payload::Nothing)
    }

    /// Detaches the calling process from its console.
    pub fn free_console() -> (r: (Exchange, Action))
        ensures
            (r.0@, r.1@) == start(Operation::FreeConsole, PayloadView::Nothing),
    {
        Exchange::start(Operation::FreeConsole, Payload::Nothing)
    }

    /// Sets the title of the console window. The native call is handed
    /// the title in UTF-16 with a zero at its end.
    pub fn set_title(title: &str) -> (r: (Exchange, Action))
        ensures
            (r.0@, r.1@) == start(Operation::SetTitle, PayloadView::Units(title_units(title@))),
    {
        let mut units = crate::text::utf16_from_str(title);
        if units.len() == 0 || units[units.len() - 1] != 0 {
            units.push(0);
        }
        Exchange::start(Operation::SetTitle, Payload::Units(units))
    }

    /// Gets the title of the console window: what the native call wrote
    /// into a buffer of 260 code units, up to the length that it reported,
    /// as text.
    ///
    /// It fails with `InvalidData` where that is not well-formed UTF-16.
    pub fn get_title() -> (r: (Exchange, Action))
        ensures
            (r.0@, r.1@) == start(Operation::GetTitle, PayloadView::Nothing),
    {
        Exchange::start(Operation::GetTitle, Payload::Nothing)
    }

    /// Gets the title that the console window had at first, as
    /// `get_title` gets the current one.
    pub fn get_original_title() -> (r: (Exchange, Action))
        ensures
            (r.0@, r.1@) == start(Operation::GetOriginalTitle, PayloadView::Nothing),
    {
        Exchange::start(Operation::GetOriginalTitle, Payload::Nothing)
    }

    /// Gets the input code page of the console.
    pub fn get_input_code_page() -> (r: (Exchange, Action))
        ensures
            (r.0@, r.1@) == start(Operation::GetInputCodePage, PayloadView::Nothing),
    {
        Exchange::start(Operation::GetInputCodePage, Payload::Nothing)
    }

    /// Gets the output code page of the console.
    pub fn get_output_code_page() -> (r: (Exchange, Action))
        ensures
            (r.0@, r.1@) == start(Operation::GetOutputCodePage, PayloadView::Nothing),
    {
        Exchange::start(Operation::GetOutputCodePage, Payload::Nothing)
    }

    /// Sets the input code page of the console.
    pub fn set_input_code(code_page: u32) -> (r: (Exchange, Action))
        ensures
            (r.0@, r.1@) == start(Operation::SetInputCode { code_page }, PayloadView::Nothing),
    {
        Exchange::start(Operation::SetInputCode { code_page }, Payload::Nothing)
    }

    /// Sets the output code page of the console.
    pub fn set_output_code(code_page: u32) -> (r: (Exchange, Action))
        ensures
            (r.0@, r.1@) == start(Operation::SetOutputCode { code_page }, PayloadView::Nothing),
    {
        Exchange::start(Operation::SetOutputCode { code_page }, Payload::Nothing)
    }

    /// Gets information about the current console selection.
    pub fn get_selection_info() -> (r: (Exchange, Action))
        ensures
            (r.0@, r.1@) == start(Operation::GetSelectionInfo, PayloadView::Nothing),
    {
        Exchange::start(Operation::GetSelectionInfo, Payload::Nothing)
    }

    /// Creates a console screen buffer that can be read and written, and
    /// shared for both. The handle is owned.
    ///
    /// It fails with `NoScreenBuffer` where the native call returns the
    /// invalid handle.
    pub fn create_console_screen_buffer() -> (r: (Exchange, Action))
        ensures
            (r.0@, r.1@) == start(Operation::CreateScreenBuffer {
                    options: ConsoleOptions { desired_access: 0xC000_0000, share_mode: 3 },
                },
                PayloadView::Nothing,
            ),
    {
        assert(0x8000_0000u32 | 0x4000_0000u32 == 0xC000_0000u32) by (bit_vector);
        assert(0x0000_0001u32 | 0x0000_0002u32 == 3u32) by (bit_vector);
        let options = ConsoleOptions {
            desired_access: GENERIC_READ | GENERIC_WRITE,
            share_mode: FILE_SHARE_READ | FILE_SHARE_WRITE,
        };
        Exchange::start(Operation::CreateScreenBuffer { options }, Payload::Nothing)
    }

    /// Creates a console screen buffer with the given access and sharing.
    /// The handle is owned.
    ///
    /// It fails with `NoScreenBuffer` where the native call returns the
    /// invalid handle.
    pub fn create_console_screen_buffer_with_options(options: ConsoleOptions) -> (r: (
        Exchange,
        Action,
    ))
        ensures
            (r.0@, r.1@) == start(Operation::CreateScreenBuffer { options }, PayloadView::Nothing),
    {
        Exchange::start(Operation::CreateScreenBuffer { options }, Payload::Nothing)
    }

    /// Makes the screen buffer of the handle the one that is displayed.
    /// The handle stays with the caller.
    pub fn set_active_console_screen_buffer(handle: &Handle) -> (r: (Exchange, Action))
        ensures
            (r.0@, r.1@) == start(
                Operation::SetActiveScreenBuffer { handle: handle.raw },
                PayloadView::Nothing,
            ),
    {
        Exchange::start(
            Operation::SetActiveScreenBuffer { handle: handle.get_raw() },
            Payload::Nothing,
        )
    }

    /// Gets the identifiers of the processes attached to the console.
    /// The list is asked for with room for four; where a call reports
    /// more processes than it had room for, the list is asked for again
    /// with room for as many as it reported.
    pub fn get_process_list() -> (r: (Exchange, Action))
        ensures
            (r.0@, r.1@) == start(
                Operation::GetProcessList { capacity: 4 },
                PayloadView::Nothing,
            ),
    {
        Exchange::start(
            Operation::GetProcessList { capacity: crate::exchange::PROCESS_CAPACITY },
            Payload::Nothing,
        )
    }

    /// Sets the history settings of the console.
    pub fn set_history_info(info: ConsoleHistoryInfo) -> (r: (Exchange, Action))
        ensures
            (r.0@, r.1@) == start(Operation::SetHistoryInfo { info }, PayloadView::Nothing),
    {
        Exchange::start(Operation::SetHistoryInfo { info }, Payload::Nothing)
    }

    /// Gets the history settings of the console.
    pub fn get_history_info() -> (r: (Exchange, Action))
        ensures
            (r.0@, r.1@) == start(Operation::GetHistoryInfo, PayloadView::Nothing),
    {
        Exchange::start(Operation::GetHistoryInfo, Payload::Nothing)
    }
}

// The endpoints.
impl WinConsole {
    /// How the endpoint obtains its handle.
    pub closed spec fn source(&self) -> Source {
        match self.provider {
            Provider::Fixed(handle) => Source::Fixed { handle: handle.raw },
            Provider::Role(role) => Source::Role { role },
            Provider::Device(device) => Source::Device { device },
        }
    }

    /// The handle that the endpoint holds, if it holds one.
    pub closed spec fn held(&self) -> Option<Handle> {
        match self.provider {
            Provider::Fixed(handle) => Some(handle),
            _ => None,
        }
    }

    /// How the endpoint obtains its handle.
    pub fn get_source(&self) -> (r: Source)
        ensures
            r == self.source(),
    {
        match &self.provider {
            Provider::Fixed(handle) => Source::Fixed { handle: handle.get_raw() },
            Provider::Role(role) => Source::Role { role: *role },
            Provider::Device(device) => Source::Device { device: *device },
        }
    }

    /// The endpoint of the standard input, whatever handle that is at the
    /// time of an operation.
    #[inline]
    pub fn input() -> (r: WinConsole)
        ensures
            r.source() == (Source::Role { role: HandleType::Input }),
            r.held().is_none(),
    {
        WinConsole { provider: Provider::Role(HandleType::Input) }
    }

    /// The endpoint of the standard output, whatever handle that is at
    /// the time of an operation.
    #[inline]
    pub fn output() -> (r: WinConsole)
        ensures
            r.source() == (Source::Role { role: HandleType::Output }),
            r.held().is_none(),
    {
        WinConsole { provider: Provider::Role(HandleType::Output) }
    }

    /// The endpoint of the standard error, whatever handle that is at the
    /// time of an operation.
    #[inline]
    pub fn error() -> (r: WinConsole)
        ensures
            r.source() == (Source::Role { role: HandleType::Error }),
            r.held().is_none(),
    {
        WinConsole { provider: Provider::Role(HandleType::Error) }
    }

    /// The endpoint of the console's input buffer, whatever the standard
    /// input is redirected to. Each operation opens the buffer and closes
    /// it.
    #[inline]
    pub fn current_input() -> (r: WinConsole)
        ensures
            r.source() == (Source::Device { device: Direction::Input }),
            r.held().is_none(),
    {
        WinConsole { provider: Provider::Device(Direction::Input) }
    }

    /// The endpoint of the console's active screen buffer, whatever the
    /// standard output is redirected to. Each operation opens the buffer
    /// and closes it.
    #[inline]
    pub fn current_output() -> (r: WinConsole)
        ensures
            r.source() == (Source::Device { device: Direction::Output }),
            r.held().is_none(),
    {
        WinConsole { provider: Provider::Device(Direction::Output) }
    }

    /// The endpoint of a handle, which it holds from now on. The handle
    /// may be the invalid one: operations on it fail as the native calls
    /// do.
    #[inline]
    pub fn with_handle(handle: Handle) -> (r: WinConsole)
        ensures
            r.source() == (Source::Fixed { handle: handle.raw }),
            r.held() == Some(handle),
    {
        WinConsole { provider: Provider::Fixed(handle) }
    }

    /// Gives up the endpoint: the handle that it holds is closed, which
    /// releases it where it is owned. An endpoint that holds none ends
    /// without a call.
    pub fn close(self) -> (r: (Exchange, Action))
        ensures
            (r.0@, r.1@) == match self.held() {
                Some(handle) => start(
                    Operation::Close { handle: handle.raw, owned: handle.owned() },
                    PayloadView::Nothing,
                ),
                None => start(
                    Operation::Close { handle: -1isize, owned: false },
                    PayloadView::Nothing,
                ),
            },
    {
        match self.provider {
            Provider::Fixed(handle) => handle.close(),
            _ => Exchange::start(
                Operation::Close { handle: -1isize, owned: false },
                Payload::Nothing,
            ),
        }
    }

    /// Starts an operation that carries no sequence on this endpoint.
    fn start(&self, op: Operation) -> (r: (Exchange, Action))
        ensures
            (r.0@, r.1@) == begin(self.source(), op, PayloadView::Nothing),
    {
        Exchange::begin(self.get_source(), op, Payload::Nothing)
    }
}

// Operations on an endpoint.
impl WinConsole {
    /// Gets the handle that the endpoint denotes now: shared where the
    /// endpoint holds it or a role has it, owned where it is opened for
    /// this.
    pub fn get_handle(&self) -> (r: (Exchange, Action))
        ensures
            (r.0@, r.1@) == begin(self.source(), Operation::GetHandle, PayloadView::Nothing),
    {
        self.start(Operation::GetHandle)
    }

    /// Gets the mode of the console buffer of the handle.
    pub fn get_mode(&self) -> (r: (Exchange, Action))
        ensures
            (r.0@, r.1@) == begin(self.source(), Operation::GetMode, PayloadView::Nothing),
    {
        self.start(Operation::GetMode)
    }

    /// Sets the mode of the console buffer of the handle.
    pub fn set_mode(&self, mode: u32) -> (r: (Exchange, Action))
        ensures
            (r.0@, r.1@) == begin(self.source(), Operation::SetMode { mode }, PayloadView::Nothing),
    {
        self.start(Operation::SetMode { mode })
    }

    /// Checks whether the mode of the console buffer has a bit of `mode`.
    pub fn has_mode(&self, mode: u32) -> (r: (Exchange, Action))
        ensures
            (r.0@, r.1@) == begin(self.source(), Operation::HasMode { mode }, PayloadView::Nothing),
    {
        self.start(Operation::HasMode { mode })
    }

    /// Sets extended information about the console font.
    pub fn set_font_info_ex(&self, info: ConsoleFontInfoEx, maximum_window: bool) -> (r: (
        Exchange,
        Action,
    ))
        ensures
            (r.0@, r.1@) == begin(
                self.source(),
                Operation::SetFontInfoEx { info, maximum_window },
                PayloadView::Nothing,
            ),
    {
        self.start(Operation::SetFontInfoEx { info, maximum_window })
    }

    /// Gets information about the console font.
    pub fn get_font_info(&self, maximum_window: bool) -> (r: (Exchange, Action))
        ensures
            (r.0@, r.1@) == begin(
                self.source(),
                Operation::GetFontInfo { maximum_window },
                PayloadView::Nothing,
            ),
    {
        self.start(Operation::GetFontInfo { maximum_window })
    }

    /// Gets extended information about the console font.
    pub fn get_font_info_ex(&self, maximum_window: bool) -> (r: (Exchange, Action))
        ensures
            (r.0@, r.1@) == begin(
                self.source(),
                Operation::GetFontInfoEx { maximum_window },
                PayloadView::Nothing,
            ),
    {
        self.start(Operation::GetFontInfoEx { maximum_window })
    }

    /// Gets information about the console screen buffer.
    pub fn get_screen_buffer_info(&self) -> (r: (Exchange, Action))
        ensures
            (r.0@, r.1@) == begin(
                self.source(),
                Operation::GetScreenBufferInfo,
                PayloadView::Nothing,
            ),
    {
        self.start(Operation::GetScreenBufferInfo)
    }

    /// Gets extended information about the console screen buffer.
    pub fn get_screen_buffer_info_ex(&self) -> (r: (Exchange, Action))
        ensures
            (r.0@, r.1@) == begin(
                self.source(),
                Operation::GetScreenBufferInfoEx,
                PayloadView::Nothing,
            ),
    {
        self.start(Operation::GetScreenBufferInfoEx)
    }

    /// Sets extended information about the console screen buffer.
    pub fn set_screen_buffer_info_ex(&self, info: ConsoleScreenBufferInfoEx) -> (r: (
        Exchange,
        Action,
    ))
        ensures
            (r.0@, r.1@) == begin(
                self.source(),
                Operation::SetScreenBufferInfoEx { info },
                PayloadView::Nothing,
            ),
    {
        self.start(Operation::SetScreenBufferInfoEx { info })
    }

    /// Sets the size of the console screen buffer.
    pub fn set_screen_buffer_size(&self, size: Coord) -> (r: (Exchange, Action))
        ensures
            (r.0@, r.1@) == begin(
                self.source(),
                Operation::SetScreenBufferSize { size },
                PayloadView::Nothing,
            ),
    {
        self.start(Operation::SetScreenBufferSize { size })
    }

    /// Sets the size and position of the window of the console screen
    /// buffer.
    pub fn set_window_info(&self, absolute: bool, window: &SmallRect) -> (r: (Exchange, Action))
        ensures
            (r.0@, r.1@) == begin(
                self.source(),
                Operation::SetWindowInfo { absolute, window: *window },
                PayloadView::Nothing,
            ),
    {
        self.start(Operation::SetWindowInfo { absolute, window: *window })
    }

    /// Sets the position of the cursor.
    pub fn set_cursor_position(&self, coord: Coord) -> (r: (Exchange, Action))
        ensures
            (r.0@, r.1@) == begin(
                self.source(),
                Operation::SetCursorPosition { position: coord },
                PayloadView::Nothing,
            ),
    {
        self.start(Operation::SetCursorPosition { position: coord })
    }

    /// Gets the position of the cursor, from the information about the
    /// screen buffer.
    pub fn get_cursor_position(&self) -> (r: (Exchange, Action))
        ensures
            (r.0@, r.1@) == begin(
                self.source(),
                Operation::GetCursorPosition,
                PayloadView::Nothing,
            ),
    {
        self.start(Operation::GetCursorPosition)
    }

    /// Clears the screen buffer: every cell of it is filled with a space
    /// and then with the current attributes, and the cursor goes to the
    /// origin. The first of the four calls that fails ends the operation.
    pub fn clear(&self) -> (r: (Exchange, Action))
        ensures
            (r.0@, r.1@) == begin(self.source(), Operation::Clear, PayloadView::Nothing),
    {
        self.start(Operation::Clear)
    }

    /// Fills `cells_to_write` cells from `start_location` on with the
    /// character, and gives the number of cells written. A character that
    /// needs two UTF-16 code units fills no cell: the operation fails with
    /// `InvalidInput`, and no call is made.
    pub fn fill_with_char(&self, start_location: Coord, cells_to_write: u32, value: char) -> (r: (
        Exchange,
        Action,
    ))
        ensures
            (r.0@, r.1@) == begin(
                self.source(),
                Operation::FillWithChar { start: start_location, length: cells_to_write, value },
                PayloadView::Nothing,
            ),
    {
        self.start(Operation::FillWithChar { start: start_location, length: cells_to_write, value })
    }

    /// Fills `cells_to_write` cells from `start_location` on with the
    /// attribute, and gives the number of cells written.
    pub fn fill_with_attribute(
        &self,
        start_location: Coord,
        cells_to_write: u32,
        attribute: u16,
    ) -> (r: (Exchange, Action))
        ensures
            (r.0@, r.1@) == begin(
                self.source(),
                Operation::FillWithAttribute {
                    start: start_location,
                    length: cells_to_write,
                    attribute,
                },
                PayloadView::Nothing,
            ),
    {
        self.start(
            Operation::FillWithAttribute {
                start: start_location,
                length: cells_to_write,
                attribute,
            },
        )
    }

    /// Sets the attributes of the text that is written from now on.
    pub fn set_text_attribute(&self, attribute: u16) -> (r: (Exchange, Action))
        ensures
            (r.0@, r.1@) == begin(
                self.source(),
                Operation::SetTextAttribute { attribute },
                PayloadView::Nothing,
            ),
    {
        self.start(Operation::SetTextAttribute { attribute })
    }

    /// Gets the attributes of the text, from the information about the
    /// screen buffer.
    pub fn get_text_attribute(&self) -> (r: (Exchange, Action))
        ensures
            (r.0@, r.1@) == begin(self.source(), Operation::GetTextAttribute, PayloadView::Nothing),
    {
        self.start(Operation::GetTextAttribute)
    }

    /// Gets the size of the largest possible console window. The native
    /// call fails by returning the size zero.
    pub fn get_largest_window_size(&self) -> (r: (Exchange, Action))
        ensures
            (r.0@, r.1@) == begin(
                self.source(),
                Operation::GetLargestWindowSize,
                PayloadView::Nothing,
            ),
    {
        self.start(Operation::GetLargestWindowSize)
    }

    /// Gets the number of unread input events.
    pub fn get_number_of_input_events(&self) -> (r: (Exchange, Action))
        ensures
            (r.0@, r.1@) == begin(
                self.source(),
                Operation::GetNumberOfInputEvents,
                PayloadView::Nothing,
            ),
    {
        self.start(Operation::GetNumberOfInputEvents)
    }

    /// Gets the number of buttons of the mouse. The native call takes no
    /// handle, so that none is obtained.
    pub fn get_number_of_mouse_buttons(&self) -> (r: (Exchange, Action))
        ensures
            (r.0@, r.1@) == start(Operation::GetNumberOfMouseButtons, PayloadView::Nothing),
    {
        Exchange::start(Operation::GetNumberOfMouseButtons, Payload::Nothing)
    }

    /// Moves a block of the screen buffer to `destination`; what the move
    /// leaves empty is filled with `fill`, whose character has to fit one
    /// code unit.
    pub fn scroll_screen_buffer(
        &self,
        scroll_rect: SmallRect,
        clip_rect: Option<SmallRect>,
        destination: Coord,
        fill: CharInfo,
    ) -> (r: (Exchange, Action))
        requires
            fill.fits_raw(),
        ensures
            (r.0@, r.1@) == begin(
                self.source(),
                Operation::ScrollScreenBuffer {
                    scroll: scroll_rect,
                    clip: clip_rect,
                    destination,
                    fill: fill.raw(),
                },
                PayloadView::Nothing,
            ),
    {
        self.start(
            Operation::ScrollScreenBuffer {
                scroll: scroll_rect,
                clip: clip_rect,
                destination,
                fill: fill.as_raw(),
            },
        )
    }

    /// Reads one input event, and waits for it. It fails with
    /// `InvalidHandle` on a handle that is no console.
    pub fn read_single_input(&self) -> (r: (Exchange, Action))
        ensures
            (r.0@, r.1@) == begin(
                self.source(),
                Operation::ReadInput { capacity: 1, form: EventForm::Single },
                PayloadView::Nothing,
            ),
    {
        self.start(Operation::ReadInput { capacity: 1, form: EventForm::Single })
    }

    /// Reads up to `buffer_size` input events, and waits for the first.
    /// It fails with `InvalidHandle` on a handle that is no console.
    pub fn read_input_n(&self, buffer_size: usize) -> (r: (Exchange, Action))
        ensures
            (r.0@, r.1@) == begin(
                self.source(),
                Operation::ReadInput { capacity: native_count(buffer_size), form: EventForm::Many },
                PayloadView::Nothing,
            ),
    {
        self.read_input(buffer_size)
    }

    /// Reads up to `capacity` input events, and waits for the first. The
    /// events that were read are given, and no others. It fails with
    /// `InvalidHandle` on a handle that is no console; a read that
    /// succeeds with no event is the violation `NoEvent`.
    pub fn read_input(&self, capacity: usize) -> (r: (Exchange, Action))
        ensures
            (r.0@, r.1@) == begin(
                self.source(),
                Operation::ReadInput { capacity: native_count(capacity), form: EventForm::Many },
                PayloadView::Nothing,
            ),
            capacity == 0 ==> r.1@ == ActionView::Return(
                OutcomeView::Success(ValueView::Records(Seq::empty())),
            ),
    {
        self.start(Operation::ReadInput { capacity: count_of(capacity), form: EventForm::Many })
    }

    /// Reads up to `capacity` input events and leaves them in the input
    /// buffer. It does not wait, and may give none. It fails with
    /// `InvalidHandle` on a handle that is no console.
    pub fn peek_input(&self, capacity: usize) -> (r: (Exchange, Action))
        ensures
            (r.0@, r.1@) == begin(
                self.source(),
                Operation::PeekInput { capacity: native_count(capacity) },
                PayloadView::Nothing,
            ),
            capacity == 0 ==> r.1@ == ActionView::Return(
                OutcomeView::Success(ValueView::Records(Seq::empty())),
            ),
    {
        self.start(Operation::PeekInput { capacity: count_of(capacity) })
    }

    /// Reads a line of up to 4096 code units or bytes as a string. It
    /// fails with `InvalidData` where what was read is not well-formed.
    pub fn read_string(&self) -> (r: (Exchange, Action))
        ensures
            (r.0@, r.1@) == begin(
                self.source(),
                Operation::ReadText {
                    capacity: 4096,
                    control: default_control(),
                    form: TextForm::Text,
                },
                PayloadView::Nothing,
            ),
    {
        self.read_text(crate::exchange::LINE_CAPACITY, control_of_default(), TextForm::Text)
    }

    /// Reads text as UTF-8 bytes: up to `capacity` code units from a
    /// console, up to `capacity` bytes from a file or pipe. It fails with
    /// `InvalidData` where what was read is not well-formed. From a
    /// console the bytes can be up to three times as many as the code
    /// units.
    pub fn read_utf8(&self, capacity: usize) -> (r: (Exchange, Action))
        ensures
            (r.0@, r.1@) == begin(
                self.source(),
                Operation::ReadText {
                    capacity: native_count(capacity),
                    control: default_control(),
                    form: TextForm::Utf8,
                },
                PayloadView::Nothing,
            ),
            capacity == 0 ==> r.1@ == ActionView::Return(
                OutcomeView::Success(ValueView::Bytes(Seq::empty())),
            ),
    {
        self.read_text(count_of(capacity), control_of_default(), TextForm::Utf8)
    }

    /// Reads text as UTF-16 code units: up to `capacity` code units from
    /// a console, which ends the text before the character that CTRL+Z
    /// gives; from a file or pipe up to `capacity` bytes, which have to be
    /// well-formed UTF-8 and are given in UTF-16.
    pub fn read_utf16(&self, capacity: usize) -> (r: (Exchange, Action))
        ensures
            (r.0@, r.1@) == begin(
                self.source(),
                Operation::ReadText {
                    capacity: native_count(capacity),
                    control: default_control(),
                    form: TextForm::Utf16,
                },
                PayloadView::Nothing,
            ),
            capacity == 0 ==> r.1@ == ActionView::Return(
                OutcomeView::Success(ValueView::Units(Seq::empty())),
            ),
    {
        self.read_text(count_of(capacity), control_of_default(), TextForm::Utf16)
    }

    /// Reads text as `read_utf8` does, with a control of the caller: on a
    /// console the text ends before the first character that the control's
    /// wake mask selects.
    pub fn read_utf8_with_control(&self, capacity: usize, control: ConsoleReadControl) -> (r: (
        Exchange,
        Action,
    ))
        ensures
            (r.0@, r.1@) == begin(
                self.source(),
                Operation::ReadText {
                    capacity: native_count(capacity),
                    control: raw_control(control),
                    form: TextForm::Utf8,
                },
                PayloadView::Nothing,
            ),
            capacity == 0 ==> r.1@ == ActionView::Return(
                OutcomeView::Success(ValueView::Bytes(Seq::empty())),
            ),
    {
        self.read_text(count_of(capacity), RawReadControl::from(control), TextForm::Utf8)
    }

    /// Reads text as `read_utf16` does, with a control of the caller: on
    /// a console the text ends before the first character that the
    /// control's wake mask selects.
    pub fn read_utf16_with_control(&self, capacity: usize, control: ConsoleReadControl) -> (r: (
        Exchange,
        Action,
    ))
        ensures
            (r.0@, r.1@) == begin(
                self.source(),
                Operation::ReadText {
                    capacity: native_count(capacity),
                    control: raw_control(control),
                    form: TextForm::Utf16,
                },
                PayloadView::Nothing,
            ),
            capacity == 0 ==> r.1@ == ActionView::Return(
                OutcomeView::Success(ValueView::Units(Seq::empty())),
            ),
    {
        self.read_text(count_of(capacity), RawReadControl::from(control), TextForm::Utf16)
    }

    /// Starts a read of text.
    fn read_text(&self, capacity: u32, control: RawReadControl, form: TextForm) -> (r: (
        Exchange,
        Action,
    ))
        ensures
            (r.0@, r.1@) == begin(
                self.source(),
                Operation::ReadText { capacity, control, form },
                PayloadView::Nothing,
            ),
    {
        self.start(Operation::ReadText { capacity, control, form })
    }

    /// Reads the cells of a region of the screen buffer into a buffer of
    /// `buffer_size`, and gives them with the region that was read. The
    /// buffer has as many cells as its width times its height, which has
    /// to be a number from 0 to 32767.
    pub fn read_char_buffer(
        &self,
        buffer_size: Coord,
        buffer_coord: Coord,
        read_region: SmallRect,
    ) -> (r: (Exchange, Action))
        requires
            0 <= buffer_size.x * buffer_size.y <= i16::MAX,
        ensures
            (r.0@, r.1@) == begin(
                self.source(),
                Operation::ReadCharBuffer {
                    size: buffer_size,
                    start: buffer_coord,
                    region: read_region,
                    length: (buffer_size.x * buffer_size.y) as u32,
                },
                PayloadView::Nothing,
            ),
    {
        let length: i16 = buffer_size.x * buffer_size.y;
        self.start(
            Operation::ReadCharBuffer {
                size: buffer_size,
                start: buffer_coord,
                region: read_region,
                length: length as u32,
            },
        )
    }

    /// Discards what is in the input buffer.
    pub fn flush_input(&self) -> (r: (Exchange, Action))
        ensures
            (r.0@, r.1@) == begin(self.source(), Operation::FlushInput, PayloadView::Nothing),
    {
        self.start(Operation::FlushInput)
    }

    /// Writes bytes, which are handed over as they are, whatever they
    /// hold. A console has to take them all: a count of another number
    /// than theirs is the violation `PartialConsoleWrite`, and more bytes
    /// than 4294967295 fail with `InvalidInput` without a write, because
    /// one call cannot take them. A file or pipe may take a part of them,
    /// and is handed 4294967295 bytes at most. The count of what was
    /// taken is given. Nothing is written of no bytes, and no call is made
    /// for it.
    pub fn write_utf8(&self, data: &[u8]) -> (r: (Exchange, Action))
        ensures
            (r.0@, r.1@) == begin(self.source(), Operation::WriteUtf8, PayloadView::Bytes(data@)),
            data@.len() == 0 ==> r.1@ == ActionView::Return(success(Value::Count(0))),
    {
        Exchange::begin(self.get_source(), Operation::WriteUtf8, Payload::Bytes(slice_to_vec(data)))
    }

    /// Writes UTF-16 code units. A console is handed them as they are
    /// and has to take them all: a count of another number than theirs is
    /// the violation `PartialConsoleWrite`, and more code units than
    /// 4294967295 fail with `InvalidInput` without a write. A file or pipe
    /// is handed the text in UTF-8, which the code units have to be
    /// well-formed for, and may take a part of the bytes; it is handed
    /// 4294967295 bytes at most. The count of what was taken is given: code
    /// units on a console, bytes else. Nothing is written of no code
    /// units, and no call is made for it.
    pub fn write_utf16(&self, data: &[u16]) -> (r: (Exchange, Action))
        ensures
            (r.0@, r.1@) == begin(self.source(), Operation::WriteUtf16, PayloadView::Units(data@)),
            data@.len() == 0 ==> r.1@ == ActionView::Return(success(Value::Count(0))),
    {
        Exchange::begin(
            self.get_source(),
            Operation::WriteUtf16,
            Payload::Units(slice_to_vec(data)),
        )
    }

    /// Writes cells from a buffer of `buffer_size` to an area of the
    /// screen buffer. The character of each cell has to fit one code unit.
    /// Nothing is written of no cells, and no call is made for it.
    pub fn write_char_buffer(
        &self,
        buffer: &[CharInfo],
        buffer_size: Coord,
        buffer_start: Coord,
        write_area: SmallRect,
    ) -> (r: (Exchange, Action))
        requires
            forall|i: int| 0 <= i < buffer@.len() ==> (#[trigger] buffer@[i]).fits_raw(),
        ensures
            (r.0@, r.1@) == begin(
                self.source(),
                Operation::WriteCharBuffer {
                    size: buffer_size,
                    start: buffer_start,
                    area: write_area,
                },
                PayloadView::Cells(raw_cells(buffer@)),
            ),
            buffer@.len() == 0 ==> r.1@ == ActionView::Return(success(Value::Unit)),
    {
        let mut cells: Vec<RawCharInfo> = Vec::new();
        let mut index: usize = 0;
        while index < buffer.len()
            invariant
                index <= buffer@.len(),
                cells@.len() == index,
                forall|i: int| 0 <= i < buffer@.len() ==> (#[trigger] buffer@[i]).fits_raw(),
                forall|i: int| 0 <= i < index ==> cells@[i] == (#[trigger] buffer@[i]).raw(),
            decreases buffer@.len() - index,
        {
            cells.push(buffer[index].as_raw());
            index = index + 1;
        }
        assert(cells@ =~= raw_cells(buffer@));
        Exchange::begin(
            self.get_source(),
            Operation::WriteCharBuffer { size: buffer_size, start: buffer_start, area: write_area },
            Payload::Cells(cells),
        )
    }

    /// Gets the color of the text: the color whose number is the low half
    /// byte of the text attributes.
    pub fn get_foreground_color(&self) -> (r: (Exchange, Action))
        ensures
            (r.0@, r.1@) == begin(
                self.source(),
                Operation::GetForegroundColor,
                PayloadView::Nothing,
            ),
    {
        self.start(Operation::GetForegroundColor)
    }

    /// Gets the color of the background: the color whose number is the
    /// second half byte of the text attributes, which is where
    /// `set_background_color` writes it.
    pub fn get_background_color(&self) -> (r: (Exchange, Action))
        ensures
            (r.0@, r.1@) == begin(
                self.source(),
                Operation::GetBackgroundColor,
                PayloadView::Nothing,
            ),
    {
        self.start(Operation::GetBackgroundColor)
    }

    /// Sets the color of the text: the low half byte of the text
    /// attributes becomes the number of the color, and the other bits
    /// stay.
    pub fn set_foreground_color(&self, color: ConsoleColor) -> (r: (Exchange, Action))
        ensures
            (r.0@, r.1@) == begin(
                self.source(),
                Operation::SetForegroundColor { color },
                PayloadView::Nothing,
            ),
    {
        self.start(Operation::SetForegroundColor { color })
    }

    /// Sets the color of the background: the second half byte of the text
    /// attributes becomes the number of the color, and the other bits
    /// stay.
    pub fn set_background_color(&self, color: ConsoleColor) -> (r: (Exchange, Action))
        ensures
            (r.0@, r.1@) == begin(
                self.source(),
                Operation::SetBackgroundColor { color },
                PayloadView::Nothing,
            ),
    {
        self.start(Operation::SetBackgroundColor { color })
    }
}

/// Gives the control of a read that has none of its own.
fn control_of_default() -> (r: RawReadControl)
    ensures
        r == default_control(),
{
    RawReadControl {
        length: ConsoleReadControl::SIZE,
        initial_chars: 0,
        ctrl_wakeup_mask: crate::exchange::CTRL_Z_MASK,
        control_key_state: 0,
    }
}

} // verus!
