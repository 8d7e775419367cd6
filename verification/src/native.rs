//! The native calls of the console as values: what is asked of the
//! operating system, and what it answers.

use crate::console::HandleType;
use crate::structs::char_info::RawCharInfo;
use crate::structs::console_font_info::ConsoleFontInfo;
use crate::structs::console_font_info_ex::ConsoleFontInfoEx;
use crate::structs::console_history_info::RawHistoryInfo;
use crate::structs::console_read_control::RawReadControl;
use crate::structs::console_screen_buffer_info::ConsoleScreenBufferInfo;
use crate::structs::console_screen_buffer_info_ex::RawScreenBufferInfoEx;
use crate::structs::console_selection_info::ConsoleSelectionInfo;
use crate::structs::coord::Coord;
use crate::structs::input_record::RawInputRecord;
use crate::structs::small_rect::SmallRect;
use vstd::prelude::*;
use vstd::string::StringExecFns;

verus! {

/// A direction of the console: its input buffer or its active screen
/// buffer.
#[derive(Debug, Copy, Clone, Eq, PartialEq)]
pub enum Direction {
    Input,
    Output,
}

impl Direction {
    /// The name of the file that opens the console in this direction,
    /// whatever the standard handles are redirected to.
    pub open spec fn spec_device_name(&self) -> Seq<char> {
        match *self {
            Direction::Input => "CONIN$"@,
            Direction::Output => "CONOUT$"@,
        }
    }

    /// The name of the file that opens the console in this direction,
    /// whatever the standard handles are redirected to: `CONIN$` for the
    /// input buffer, `CONOUT$` for the active screen buffer.
    pub fn device_name(&self) -> (r: String)
        ensures
            r@ == self.spec_device_name(),
    {
        match self {
            Direction::Input => String::from_str("CONIN$"),
            Direction::Output => String::from_str("CONOUT$"),
        }
    }
}

/// One call of a native function, with its arguments as plain values. A
/// handle is the raw value. Where the native function fills a buffer, the
/// request gives the buffer's size.
#[derive(Debug, PartialEq, Eq)]
#[allow(inconsistent_fields)]
pub enum Request {
    /// `GetStdHandle` for a role.
    GetStdHandle { role: HandleType, slot: u32 },
    /// `SetStdHandle`: the handle becomes the standard handle of the role.
    SetStdHandle { role: HandleType, slot: u32, handle: isize },
    /// `CreateFileW` on the console's own file of a direction, for an
    /// existing file, with no security attributes, flags or template.
    OpenDevice { device: Direction, desired_access: u32, share_mode: u32 },
    /// `CloseHandle`.
    CloseHandle { handle: isize },
    /// `AllocConsole`.
    AllocConsole,
    /// `AttachConsole`.
    AttachConsole { process_id: u32 },
    /// `FreeConsole`.
    FreeConsole,
    /// `SetConsoleTitleW`; the title ends with a zero.
    SetConsoleTitle { title: Vec<u16> },
    /// `GetConsoleTitleW` into a buffer of `capacity` code units, all zero
    /// before the call.
    GetConsoleTitle { capacity: u32 },
    /// `GetConsoleOriginalTitleW` into a buffer of `capacity` code units,
    /// all zero before the call.
    GetConsoleOriginalTitle { capacity: u32 },
    /// `GetConsoleCP`.
    GetConsoleCP,
    /// `GetConsoleOutputCP`.
    GetConsoleOutputCP,
    /// `SetConsoleCP`.
    SetConsoleCP { code_page: u32 },
    /// `SetConsoleOutputCP`.
    SetConsoleOutputCP { code_page: u32 },
    /// `GetConsoleSelectionInfo`.
    GetConsoleSelectionInfo,
    /// `CreateConsoleScreenBuffer` of a text mode buffer, with no security
    /// attributes.
    CreateConsoleScreenBuffer { desired_access: u32, share_mode: u32 },
    /// `SetConsoleActiveScreenBuffer`.
    SetConsoleActiveScreenBuffer { handle: isize },
    /// `GetConsoleProcessList` into a buffer of `capacity` identifiers, all
    /// zero before the call.
    GetConsoleProcessList { capacity: u32 },
    /// `SetConsoleHistoryInfo`.
    SetConsoleHistoryInfo { info: RawHistoryInfo },
    /// `GetConsoleHistoryInfo` into a structure that is all zero.
    GetConsoleHistoryInfo,
    /// `GetConsoleMode`.
    GetConsoleMode { handle: isize },
    /// `SetConsoleMode`.
    SetConsoleMode { handle: isize, mode: u32 },
    /// `SetCurrentConsoleFontEx`.
    SetCurrentConsoleFontEx { handle: isize, maximum_window: bool, info: ConsoleFontInfoEx },
    /// `GetCurrentConsoleFont`.
    GetCurrentConsoleFont { handle: isize, maximum_window: bool },
    /// `GetCurrentConsoleFontEx` into a structure that is all zero but for
    /// its size.
    GetCurrentConsoleFontEx { handle: isize, maximum_window: bool, size: u32 },
    /// `GetConsoleScreenBufferInfo`.
    GetConsoleScreenBufferInfo { handle: isize },
    /// `GetConsoleScreenBufferInfoEx` into a structure that is all zero but
    /// for its size.
    GetConsoleScreenBufferInfoEx { handle: isize, size: u32 },
    /// `SetConsoleScreenBufferInfoEx`.
    SetConsoleScreenBufferInfoEx { handle: isize, info: RawScreenBufferInfoEx },
    /// `SetConsoleScreenBufferSize`.
    SetConsoleScreenBufferSize { handle: isize, size: Coord },
    /// `SetConsoleWindowInfo`.
    SetConsoleWindowInfo { handle: isize, absolute: bool, window: SmallRect },
    /// `SetConsoleCursorPosition`.
    SetConsoleCursorPosition { handle: isize, position: Coord },
    /// `FillConsoleOutputCharacterW`.
    FillConsoleOutputCharacter { handle: isize, character: u16, length: u32, start: Coord },
    /// `FillConsoleOutputAttribute`.
    FillConsoleOutputAttribute { handle: isize, attribute: u16, length: u32, start: Coord },
    /// `SetConsoleTextAttribute`.
    SetConsoleTextAttribute { handle: isize, attribute: u16 },
    /// `GetLargestConsoleWindowSize`.
    GetLargestConsoleWindowSize { handle: isize },
    /// `GetNumberOfConsoleInputEvents`.
    GetNumberOfConsoleInputEvents { handle: isize },
    /// `GetNumberOfConsoleMouseButtons`.
    GetNumberOfConsoleMouseButtons,
    /// `ScrollConsoleScreenBufferW`; without a clip rectangle the native
    /// argument is null.
    ScrollConsoleScreenBuffer {
        handle: isize,
        scroll: SmallRect,
        clip: Option<SmallRect>,
        destination: Coord,
        fill: RawCharInfo,
    },
    /// `FlushConsoleInputBuffer`.
    FlushConsoleInputBuffer { handle: isize },
    /// `ReadConsoleInputW` into a buffer of `capacity` records.
    ReadConsoleInput { handle: isize, capacity: u32 },
    /// `PeekConsoleInputW` into a buffer of `capacity` records.
    PeekConsoleInput { handle: isize, capacity: u32 },
    /// `ReadConsoleW` into a buffer of `capacity` code units.
    ReadConsole { handle: isize, capacity: u32, control: RawReadControl },
    /// `ReadFile` into a buffer of `capacity` bytes, without overlapping.
    ReadFile { handle: isize, capacity: u32 },
    /// `ReadConsoleOutputW` into a buffer of `length` cells, which is the
    /// width of `size` times its height.
    ReadConsoleOutput { handle: isize, size: Coord, start: Coord, region: SmallRect, length: u32 },
    /// `WriteConsoleA` of all the bytes.
    WriteConsoleA { handle: isize, data: Vec<u8> },
    /// `WriteConsoleW` of all the code units.
    WriteConsoleW { handle: isize, data: Vec<u16> },
    /// `WriteFile` of all the bytes, without overlapping.
    WriteFile { handle: isize, data: Vec<u8> },
    /// `WriteConsoleOutputW`.
    WriteConsoleOutput {
        handle: isize,
        cells: Vec<RawCharInfo>,
        size: Coord,
        start: Coord,
        region: SmallRect,
    },
}

/// A request as a value of contracts: the sequences that it carries as
/// `Seq`, anything else as it is.
#[allow(inconsistent_fields)]
pub enum RequestView {
    /// A request that carries no sequence.
    Plain(Request),
    SetConsoleTitle { title: Seq<u16> },
    WriteConsoleA { handle: isize, data: Seq<u8> },
    WriteConsoleW { handle: isize, data: Seq<u16> },
    WriteFile { handle: isize, data: Seq<u8> },
    WriteConsoleOutput {
        handle: isize,
        cells: Seq<RawCharInfo>,
        size: Coord,
        start: Coord,
        region: SmallRect,
    },
}

impl View for Request {
    type V = RequestView;

    open spec fn view(&self) -> RequestView {
        match *self {
            Request::SetConsoleTitle { title } => RequestView::SetConsoleTitle { title: title@ },
            Request::WriteConsoleA { handle, data } => RequestView::WriteConsoleA {
                handle,
                data: data@,
            },
            Request::WriteConsoleW { handle, data } => RequestView::WriteConsoleW {
                handle,
                data: data@,
            },
            Request::WriteFile { handle, data } => RequestView::WriteFile { handle, data: data@ },
            Request::WriteConsoleOutput {
                handle,
                cells,
                size,
                start,
                region,
            } => RequestView::WriteConsoleOutput { handle, cells: cells@, size, start, region },
            _ => RequestView::Plain(*self),
        }
    }
}

/// What a native call left behind, besides what it returned as a `BOOL`.
#[derive(Debug, PartialEq, Eq)]
pub enum Output {
    /// Nothing.
    Nothing,
    /// The handle that the function returned.
    Handle(isize),
    /// The number that the function returned or wrote: a mode, a code
    /// page, a count.
    Number(u32),
    /// The size that the function returned.
    Size(Coord),
    /// The buffer of code units as the call left it, and the number of
    /// them that the function reported.
    Units { units: Vec<u16>, count: u32 },
    /// The buffer of bytes as the call left it, and the number of them
    /// that the function reported.
    Bytes { bytes: Vec<u8>, count: u32 },
    /// The buffer of records as the call left it, and the number of them
    /// that the function reported.
    Records { records: Vec<RawInputRecord>, count: u32 },
    /// The buffer of cells as the call left it, and the region that the
    /// function reported.
    Cells { cells: Vec<RawCharInfo>, region: SmallRect },
    /// The buffer of process identifiers as the call left it, and the
    /// number of them that the function reported.
    Processes { ids: Vec<u32>, count: u32 },
    /// The structure that `GetConsoleSelectionInfo` filled.
    Selection(ConsoleSelectionInfo),
    /// The structure that `GetConsoleHistoryInfo` filled.
    History(RawHistoryInfo),
    /// The structure that `GetCurrentConsoleFont` filled.
    Font(ConsoleFontInfo),
    /// The structure that `GetCurrentConsoleFontEx` filled.
    FontEx(ConsoleFontInfoEx),
    /// The structure that `GetConsoleScreenBufferInfo` filled.
    ScreenBuffer(ConsoleScreenBufferInfo),
    /// The structure that `GetConsoleScreenBufferInfoEx` filled.
    ScreenBufferEx(RawScreenBufferInfoEx),
}

/// An output as a value of contracts: the sequences that it carries as
/// `Seq`, anything else as it is.
pub enum OutputView {
    /// An output that carries no sequence.
    Plain(Output),
    Units { units: Seq<u16>, count: u32 },
    Bytes { bytes: Seq<u8>, count: u32 },
    Records { records: Seq<RawInputRecord>, count: u32 },
    Cells { cells: Seq<RawCharInfo>, region: SmallRect },
    Processes { ids: Seq<u32>, count: u32 },
}

impl View for Output {
    type V = OutputView;

    open spec fn view(&self) -> OutputView {
        match *self {
            Output::Units { units, count } => OutputView::Units { units: units@, count },
            Output::Bytes { bytes, count } => OutputView::Bytes { bytes: bytes@, count },
            Output::Records { records, count } => OutputView::Records { records: records@, count },
            Output::Cells { cells, region } => OutputView::Cells { cells: cells@, region },
            Output::Processes { ids, count } => OutputView::Processes { ids: ids@, count },
            _ => OutputView::Plain(*self),
        }
    }
}

/// The answer to a request: what the native call gave.
#[derive(Debug, PartialEq, Eq)]
pub struct Reply {
    /// What a function that returns a `BOOL` returned: zero where it
    /// failed. It is not read for a function that returns something else.
    pub status: i32,
    /// The last error of the operating system after the call.
    pub error: i32,
    /// What the call left behind.
    pub output: Output,
}

/// A reply as a value of contracts.
pub struct ReplyView {
    pub status: i32,
    pub error: i32,
    pub output: OutputView,
}

impl View for Reply {
    type V = ReplyView;

    open spec fn view(&self) -> ReplyView {
        ReplyView { status: self.status, error: self.error, output: self.output@ }
    }
}

} // verus!
