//! An operation of the console as an exchange of requests and replies.
//!
//! An exchange starts with an operation and ends with its outcome. In
//! between it asks for native calls, one at a time: [`Action::Call`] names
//! the call, and [`Exchange::advance`] takes what the call gave and says
//! what comes next. The caller performs the calls and decides nothing.
//!
//! Every exchange goes the same way. An operation that has nothing to do
//! ends at once, without a call. One on an endpoint first obtains the
//! handle that the endpoint denotes now; a read or a write then asks
//! whether that handle is a console, and goes the console's way or the way
//! of files and pipes. After its calls the operation ends, and a handle
//! that the exchange opened itself is closed before the outcome is given.

use crate::console::ConsoleOptions;
use crate::console::HandleType;
use crate::error::ConsoleError;
use crate::error::Violation;
use crate::exchange::reply::follow;
use crate::exchange::reply::interpret;
use crate::exchange::reply::Followup;
use crate::exchange::reply::Next;
use crate::exchange::request::open_device;
use crate::exchange::request::plan;
use crate::exchange::request::prepare;
use crate::exchange::request::Plan;
use crate::exchange::request::Prepared;
use crate::native::Direction;
use crate::native::Output;
use crate::native::OutputView;
use crate::native::Reply;
use crate::native::ReplyView;
use crate::native::Request;
use crate::native::RequestView;
use crate::structs::char_info::CharInfo;
use crate::structs::char_info::RawCharInfo;
use crate::structs::console_color::ConsoleColor;
use crate::structs::console_font_info::ConsoleFontInfo;
use crate::structs::console_font_info_ex::ConsoleFontInfoEx;
use crate::structs::console_history_info::ConsoleHistoryInfo;
use crate::structs::console_read_control::RawReadControl;
use crate::structs::console_screen_buffer_info::ConsoleScreenBufferInfo;
use crate::structs::console_screen_buffer_info_ex::ConsoleScreenBufferInfoEx;
use crate::structs::console_selection_info::ConsoleSelectionInfo;
use crate::structs::coord::Coord;
use crate::structs::handle::Handle;
use crate::structs::handle::HandleOwnership;
use crate::structs::input_record::InputRecord;
use crate::structs::small_rect::SmallRect;
use vstd::prelude::*;

/// What follows from the reply to a call.
pub mod reply;
/// What an operation asks of the operating system.
pub mod request;

verus! {

/// How an endpoint obtains its handle.
#[derive(Debug, Copy, Clone, PartialEq, Eq)]
pub enum Source {
    /// The endpoint holds the handle.
    Fixed { handle: isize },
    /// The handle is the standard handle of a role at the time of each
    /// operation.
    Role { role: HandleType },
    /// The handle is opened on the console's own file for each operation,
    /// and closed after it.
    Device { device: Direction },
}

/// How the text of a read is handed out.
#[derive(Debug, Copy, Clone, PartialEq, Eq)]
pub enum TextForm {
    /// As UTF-16 code units.
    Utf16,
    /// As UTF-8 bytes.
    Utf8,
    /// As a string.
    Text,
}

/// How the events of an input read are handed out.
#[derive(Debug, Copy, Clone, PartialEq, Eq)]
pub enum EventForm {
    /// The one event that was asked for.
    Single,
    /// The events that were read.
    Many,
}

/// What an exchange is to do, without the sequences that some operations
/// carry.
#[derive(Debug, Copy, Clone, PartialEq, Eq)]
#[allow(inconsistent_fields)]
pub enum Operation {
    GetStdHandle { role: HandleType },
    SetStdHandle { role: HandleType, handle: isize },
    OpenDevice { device: Direction },
    Close { handle: isize, owned: bool },
    AllocConsole,
    AttachConsole { process_id: u32 },
    FreeConsole,
    SetTitle,
    GetTitle,
    GetOriginalTitle,
    GetInputCodePage,
    GetOutputCodePage,
    SetInputCode { code_page: u32 },
    SetOutputCode { code_page: u32 },
    GetSelectionInfo,
    CreateScreenBuffer { options: ConsoleOptions },
    SetActiveScreenBuffer { handle: isize },
    /// The list of processes is read into a buffer with room for
    /// `capacity` of them. An operation starts with room for four, and
    /// goes on with room for as many as a call reported.
    GetProcessList { capacity: u32 },
    SetHistoryInfo { info: ConsoleHistoryInfo },
    GetHistoryInfo,
    GetNumberOfMouseButtons,
    GetHandle,
    GetMode,
    SetMode { mode: u32 },
    HasMode { mode: u32 },
    SetFontInfoEx { info: ConsoleFontInfoEx, maximum_window: bool },
    GetFontInfo { maximum_window: bool },
    GetFontInfoEx { maximum_window: bool },
    GetScreenBufferInfo,
    GetScreenBufferInfoEx,
    SetScreenBufferInfoEx { info: ConsoleScreenBufferInfoEx },
    SetScreenBufferSize { size: Coord },
    SetWindowInfo { absolute: bool, window: SmallRect },
    SetCursorPosition { position: Coord },
    GetCursorPosition,
    Clear,
    /// The second call of `Clear`: the cells are filled with spaces.
    ClearCharacters { length: u32, attributes: u16 },
    /// The third call of `Clear`: the cells are given the attributes.
    ClearAttributes { length: u32, attributes: u16 },
    /// The last call of `Clear`: the cursor goes to the origin.
    ClearCursor,
    FillWithChar { start: Coord, length: u32, value: char },
    FillWithAttribute { start: Coord, length: u32, attribute: u16 },
    SetTextAttribute { attribute: u16 },
    GetTextAttribute,
    GetLargestWindowSize,
    GetNumberOfInputEvents,
    ScrollScreenBuffer {
        scroll: SmallRect,
        clip: Option<SmallRect>,
        destination: Coord,
        fill: RawCharInfo,
    },
    ReadInput { capacity: u32, form: EventForm },
    PeekInput { capacity: u32 },
    ReadText { capacity: u32, control: RawReadControl, form: TextForm },
    ReadCharBuffer { size: Coord, start: Coord, region: SmallRect, length: u32 },
    FlushInput,
    WriteUtf8,
    WriteUtf16,
    WriteCharBuffer { size: Coord, start: Coord, area: SmallRect },
    /// A write that is under way: the native call was asked to write
    /// `requested` items.
    Written { requested: u32 },
    GetForegroundColor,
    GetBackgroundColor,
    SetForegroundColor { color: ConsoleColor },
    SetBackgroundColor { color: ConsoleColor },
}

/// The sequence that an operation carries.
#[derive(Debug, PartialEq, Eq)]
pub enum Payload {
    Nothing,
    Bytes(Vec<u8>),
    Units(Vec<u16>),
    Cells(Vec<RawCharInfo>),
}

/// A payload as a value of contracts.
pub enum PayloadView {
    Nothing,
    Bytes(Seq<u8>),
    Units(Seq<u16>),
    Cells(Seq<RawCharInfo>),
}

impl View for Payload {
    type V = PayloadView;

    open spec fn view(&self) -> PayloadView {
        match *self {
            Payload::Nothing => PayloadView::Nothing,
            Payload::Bytes(bytes) => PayloadView::Bytes(bytes@),
            Payload::Units(units) => PayloadView::Units(units@),
            Payload::Cells(cells) => PayloadView::Cells(cells@),
        }
    }
}

/// What a successful operation gives.
#[derive(Debug, PartialEq, Eq)]
pub enum Value {
    Unit,
    Flag(bool),
    Number(u32),
    Count(usize),
    Attribute(u16),
    Position(Coord),
    Color(ConsoleColor),
    Handle(Handle),
    Record(InputRecord),
    Selection(ConsoleSelectionInfo),
    History(ConsoleHistoryInfo),
    Font(ConsoleFontInfo),
    FontEx(ConsoleFontInfoEx),
    ScreenBuffer(ConsoleScreenBufferInfo),
    ScreenBufferEx(ConsoleScreenBufferInfoEx),
    Text(String),
    Units(Vec<u16>),
    Bytes(Vec<u8>),
    Records(Vec<InputRecord>),
    Cells { cells: Vec<CharInfo>, region: SmallRect },
    Processes(Vec<u32>),
}

/// A value as a value of contracts: the sequences that it carries as `Seq`,
/// anything else as it is.
pub enum ValueView {
    /// A value that carries no sequence.
    Plain(Value),
    Text(Seq<char>),
    Units(Seq<u16>),
    Bytes(Seq<u8>),
    Records(Seq<InputRecord>),
    Cells { cells: Seq<CharInfo>, region: SmallRect },
    Processes(Seq<u32>),
}

impl View for Value {
    type V = ValueView;

    open spec fn view(&self) -> ValueView {
        match *self {
            Value::Text(text) => ValueView::Text(text@),
            Value::Units(units) => ValueView::Units(units@),
            Value::Bytes(bytes) => ValueView::Bytes(bytes@),
            Value::Records(records) => ValueView::Records(records@),
            Value::Cells { cells, region } => ValueView::Cells { cells: cells@, region },
            Value::Processes(ids) => ValueView::Processes(ids@),
            _ => ValueView::Plain(*self),
        }
    }
}

/// How an operation ended.
#[derive(Debug, PartialEq, Eq)]
pub enum Outcome {
    /// It succeeded, with this value.
    Success(Value),
    /// It failed, for this reason.
    Failure(ConsoleError),
    /// The operating system gave a result that it is documented never to
    /// give. The caller stops.
    Violation(Violation),
}

/// An outcome as a value of contracts.
pub enum OutcomeView {
    Success(ValueView),
    Failure(ConsoleError),
    Violation(Violation),
}

impl View for Outcome {
    type V = OutcomeView;

    open spec fn view(&self) -> OutcomeView {
        match *self {
            Outcome::Success(value) => OutcomeView::Success(value@),
            Outcome::Failure(error) => OutcomeView::Failure(error),
            Outcome::Violation(violation) => OutcomeView::Violation(violation),
        }
    }
}

/// What the caller of an exchange does next.
#[derive(Debug, PartialEq, Eq)]
pub enum Action {
    /// It makes this native call and hands the reply to the exchange.
    Call(Request),
    /// The exchange is over, with this outcome.
    Return(Outcome),
}

/// An action as a value of contracts.
pub enum ActionView {
    Call(RequestView),
    Return(OutcomeView),
}

impl View for Action {
    type V = ActionView;

    open spec fn view(&self) -> ActionView {
        match *self {
            Action::Call(request) => ActionView::Call(request@),
            Action::Return(outcome) => ActionView::Return(outcome@),
        }
    }
}

/// Where an exchange stands, as a value of contracts.
pub enum StageView {
    /// The handle of the endpoint was asked for. The exchange closes it at
    /// its end where `release` holds.
    Resolve { op: Operation, data: PayloadView, release: bool },
    /// The handle was asked whether it is a console.
    Probe { op: Operation, data: PayloadView, handle: isize, release: bool },
    /// A native call of the operation was asked for.
    Call { op: Operation, handle: isize, release: bool, interactive: bool },
    /// The handle was asked to be closed; the outcome waits for it.
    Release { handle: isize, held: OutcomeView },
    /// The exchange is over.
    Finished,
}

/// The number of code units of the buffer for a title.
pub const TITLE_CAPACITY: u32 = 260;

/// The number of code units that `read_string` asks for.
pub const LINE_CAPACITY: u32 = 4096;

/// The number of process identifiers that `get_process_list` has room
/// for.
pub const PROCESS_CAPACITY: u32 = 4;

/// The wake mask of a read without a control of its own: the character
/// with the code 26, which CTRL+Z gives.
pub const CTRL_Z_MASK: u32 = 0x0400_0000;

/// The outcome of a success whose value carries no sequence.
pub open spec fn success(value: Value) -> OutcomeView {
    OutcomeView::Success(ValueView::Plain(value))
}

/// The outcome of a reply that has not the shape that the request asks
/// for.
pub open spec fn unexpected() -> OutcomeView {
    OutcomeView::Violation(Violation::UnexpectedReply)
}

/// The outcome of an operation that ends without a call. One has nothing
/// to do: a write of nothing, a read of nothing, the closing of a handle
/// that is shared. One cannot be done: cells are not filled with a
/// character that needs two code units. Any other operation has none.
pub open spec fn shortcut(op: Operation, data: PayloadView) -> Option<OutcomeView> {
    match op {
        Operation::Close { owned, .. } => if owned {
            None
        } else {
            Some(success(Value::Unit))
        },
        Operation::WriteUtf8 => match data {
            PayloadView::Bytes(bytes) => if bytes.len() == 0 {
                Some(success(Value::Count(0)))
            } else {
                None
            },
            _ => Some(unexpected()),
        },
        Operation::WriteUtf16 => match data {
            PayloadView::Units(units) => if units.len() == 0 {
                Some(success(Value::Count(0)))
            } else {
                None
            },
            _ => Some(unexpected()),
        },
        Operation::WriteCharBuffer { .. } => match data {
            PayloadView::Cells(cells) => if cells.len() == 0 {
                Some(success(Value::Unit))
            } else {
                None
            },
            _ => Some(unexpected()),
        },
        Operation::SetTitle => match data {
            PayloadView::Units(_) => None,
            _ => Some(unexpected()),
        },
        Operation::FillWithChar { value, .. } => if value as u32 > 0xFFFF {
            Some(OutcomeView::Failure(ConsoleError::InvalidInput))
        } else {
            None
        },
        Operation::ReadText { capacity, form, .. } => if capacity == 0 {
            Some(
                OutcomeView::Success(
                    match form {
                        TextForm::Utf16 => ValueView::Units(Seq::empty()),
                        TextForm::Utf8 => ValueView::Bytes(Seq::empty()),
                        TextForm::Text => ValueView::Text(Seq::empty()),
                    },
                ),
            )
        } else {
            None
        },
        Operation::ReadInput { capacity, .. } | Operation::PeekInput { capacity } => if capacity
            == 0 {
            Some(OutcomeView::Success(ValueView::Records(Seq::empty())))
        } else {
            None
        },
        Operation::ClearCharacters { .. }
        | Operation::ClearAttributes { .. }
        | Operation::ClearCursor
        | Operation::Written { .. } => Some(unexpected()),
        _ => None,
    }
}

/// Says whether the operation has nothing to do, and how it ends then.
fn shortcut_of(op: Operation, data: &Payload) -> (r: Option<Outcome>)
    ensures
        match r {
            Some(outcome) => shortcut(op, data@) == Some(outcome@),
            None => shortcut(op, data@).is_none(),
        },
{
    match op {
        Operation::Close { owned, .. } => if owned {
            None
        } else {
            Some(Outcome::Success(Value::Unit))
        },
        Operation::WriteUtf8 => match data {
            Payload::Bytes(bytes) => if bytes.len() == 0 {
                Some(Outcome::Success(Value::Count(0)))
            } else {
                None
            },
            _ => Some(Outcome::Violation(Violation::UnexpectedReply)),
        },
        Operation::WriteUtf16 => match data {
            Payload::Units(units) => if units.len() == 0 {
                Some(Outcome::Success(Value::Count(0)))
            } else {
                None
            },
            _ => Some(Outcome::Violation(Violation::UnexpectedReply)),
        },
        Operation::WriteCharBuffer { .. } => match data {
            Payload::Cells(cells) => if cells.len() == 0 {
                Some(Outcome::Success(Value::Unit))
            } else {
                None
            },
            _ => Some(Outcome::Violation(Violation::UnexpectedReply)),
        },
        Operation::SetTitle => match data {
            Payload::Units(_) => None,
            _ => Some(Outcome::Violation(Violation::UnexpectedReply)),
        },
        Operation::FillWithChar { value, .. } => if value as u32 > 0xFFFF {
            Some(Outcome::Failure(ConsoleError::InvalidInput))
        } else {
            None
        },
        Operation::ReadText { capacity, form, .. } => if capacity == 0 {
            Some(
                Outcome::Success(
                    match form {
                        TextForm::Utf16 => Value::Units(Vec::new()),
                        TextForm::Utf8 => Value::Bytes(Vec::new()),
                        TextForm::Text => Value::Text(String::new()),
                    },
                ),
            )
        } else {
            None
        },
        Operation::ReadInput { capacity, .. } | Operation::PeekInput { capacity } => if capacity
            == 0 {
            Some(Outcome::Success(Value::Records(Vec::new())))
        } else {
            None
        },
        Operation::ClearCharacters { .. }
        | Operation::ClearAttributes { .. }
        | Operation::ClearCursor
        | Operation::Written { .. } => Some(Outcome::Violation(Violation::UnexpectedReply)),
        _ => None,
    }
}

/// Whether the operation acts through the handle of an endpoint.
pub open spec fn on_endpoint(op: Operation) -> bool {
    match op {
        Operation::GetStdHandle { .. }
        | Operation::SetStdHandle { .. }
        | Operation::OpenDevice { .. }
        | Operation::Close { .. }
        | Operation::AllocConsole
        | Operation::AttachConsole { .. }
        | Operation::FreeConsole
        | Operation::SetTitle
        | Operation::GetTitle
        | Operation::GetOriginalTitle
        | Operation::GetInputCodePage
        | Operation::GetOutputCodePage
        | Operation::SetInputCode { .. }
        | Operation::SetOutputCode { .. }
        | Operation::GetSelectionInfo
        | Operation::CreateScreenBuffer { .. }
        | Operation::SetActiveScreenBuffer { .. }
        | Operation::GetProcessList { .. }
        | Operation::SetHistoryInfo { .. }
        | Operation::GetHistoryInfo
        | Operation::GetNumberOfMouseButtons => false,
        _ => true,
    }
}

/// Whether the operation acts through the handle of an endpoint.
fn acts_on_endpoint(op: Operation) -> (r: bool)
    ensures
        r == on_endpoint(op),
{
    match op {
        Operation::GetStdHandle { .. }
        | Operation::SetStdHandle { .. }
        | Operation::OpenDevice { .. }
        | Operation::Close { .. }
        | Operation::AllocConsole
        | Operation::AttachConsole { .. }
        | Operation::FreeConsole
        | Operation::SetTitle
        | Operation::GetTitle
        | Operation::GetOriginalTitle
        | Operation::GetInputCodePage
        | Operation::GetOutputCodePage
        | Operation::SetInputCode { .. }
        | Operation::SetOutputCode { .. }
        | Operation::GetSelectionInfo
        | Operation::CreateScreenBuffer { .. }
        | Operation::SetActiveScreenBuffer { .. }
        | Operation::GetProcessList { .. }
        | Operation::SetHistoryInfo { .. }
        | Operation::GetHistoryInfo
        | Operation::GetNumberOfMouseButtons => false,
        _ => true,
    }
}

/// Whether the operation goes one way on a console and another way on a
/// file or pipe, so that the handle is asked which it is.
pub open spec fn needs_probe(op: Operation) -> bool {
    match op {
        Operation::ReadInput { .. }
        | Operation::PeekInput { .. }
        | Operation::ReadText { .. }
        | Operation::WriteUtf8
        | Operation::WriteUtf16 => true,
        _ => false,
    }
}

/// The end of an operation: a handle that the exchange opened itself is
/// closed first, and the outcome waits for that; else the outcome is
/// given.
pub open spec fn finish(outcome: OutcomeView, handle: isize, release: bool) -> (
    StageView,
    ActionView,
) {
    if release {
        (
            StageView::Release { handle, held: outcome },
            ActionView::Call(RequestView::Plain(Request::CloseHandle { handle })),
        )
    } else {
        (StageView::Finished, ActionView::Return(outcome))
    }
}

/// The call of an operation whose handle is known, and known to be a
/// console or not.
pub open spec fn issue(
    op: Operation,
    data: PayloadView,
    handle: isize,
    release: bool,
    interactive: bool,
) -> (StageView, ActionView) {
    match plan(op, data, handle, interactive) {
        Plan::Ask { request, awaiting } => (
            StageView::Call { op: awaiting, handle, release, interactive },
            ActionView::Call(request),
        ),
        Plan::End(outcome) => finish(outcome, handle, release),
    }
}

/// What an operation does with the handle of its endpoint. The handle
/// itself is handed out as it is, owned where it was opened for this. A
/// read or a write asks whether the handle is a console. Any other
/// operation makes its call.
pub open spec fn resolved(op: Operation, data: PayloadView, handle: isize, release: bool) -> (
    StageView,
    ActionView,
) {
    if op == Operation::GetHandle {
        (
            StageView::Finished,
            ActionView::Return(
                success(
                    Value::Handle(
                        Handle {
                            raw: handle,
                            ownership: if release {
                                HandleOwnership::Owned
                            } else {
                                HandleOwnership::Shared
                            },
                        },
                    ),
                ),
            ),
        )
    } else if needs_probe(op) {
        (
            StageView::Probe { op, data, handle, release },
            ActionView::Call(RequestView::Plain(Request::GetConsoleMode { handle })),
        )
    } else {
        issue(op, data, handle, release, false)
    }
}

/// The start of an operation on an endpoint. An operation that has
/// nothing to do ends at once. Any other one obtains the handle first: the
/// one that the endpoint holds, the standard handle of the endpoint's role
/// as it is now, or the console's own file, opened for this operation.
pub open spec fn begin(source: Source, op: Operation, data: PayloadView) -> (
    StageView,
    ActionView,
) {
    match shortcut(op, data) {
        Some(outcome) => (StageView::Finished, ActionView::Return(outcome)),
        None => if !on_endpoint(op) {
            issue(op, data, -1isize, false, false)
        } else {
            match source {
                Source::Fixed { handle } => resolved(op, data, handle, false),
                Source::Role { role } => (
                    StageView::Resolve { op, data, release: false },
                    ActionView::Call(
                        RequestView::Plain(Request::GetStdHandle { role, slot: role.spec_slot() }),
                    ),
                ),
                Source::Device { device } => (
                    StageView::Resolve { op, data, release: true },
                    ActionView::Call(
                        RequestView::Plain(
                            Request::OpenDevice {
                                device,
                                desired_access: 0xC000_0000,
                                share_mode: 3,
                            },
                        ),
                    ),
                ),
            }
        },
    }
}

/// The start of an operation that acts on no endpoint.
pub open spec fn start(op: Operation, data: PayloadView) -> (StageView, ActionView) {
    begin(Source::Fixed { handle: -1isize }, op, data)
}

/// What follows from a reply, by the stage of the exchange.
pub open spec fn step(stage: StageView, reply: ReplyView) -> (StageView, ActionView) {
    match stage {
        StageView::Resolve { op, data, release } => match reply.output {
            OutputView::Plain(Output::Handle(raw)) => if raw == -1 {
                (
                    StageView::Finished,
                    ActionView::Return(OutcomeView::Failure(ConsoleError::InvalidHandle)),
                )
            } else {
                resolved(op, data, raw, release)
            },
            _ => (StageView::Finished, ActionView::Return(unexpected())),
        },
        StageView::Probe { op, data, handle, release } => issue(
            op,
            data,
            handle,
            release,
            reply.status != 0,
        ),
        StageView::Call { op, handle, release, interactive } => match interpret(
            op,
            interactive,
            reply,
        ) {
            Next::Done(outcome) => finish(outcome, handle, release),
            Next::Continue(next) => issue(next, PayloadView::Nothing, handle, release, interactive),
        },
        StageView::Release { handle, held } => (
            StageView::Finished,
            ActionView::Return(
                if reply.status == 0 {
                    OutcomeView::Violation(Violation::CloseFailed { handle })
                } else {
                    held
                },
            ),
        ),
        StageView::Finished => (StageView::Finished, ActionView::Return(unexpected())),
    }
}

/// Where an exchange stands.
#[derive(Debug)]
enum Stage {
    Resolve { op: Operation, data: Payload, release: bool },
    Probe { op: Operation, data: Payload, handle: isize, release: bool },
    Call { op: Operation, handle: isize, release: bool, interactive: bool },
    Release { handle: isize, held: Outcome },
    Finished,
}

/// An operation under way.
///
/// An exchange is made by an operation of [`crate::console::WinConsole`]
/// or of [`Handle`], together with the first thing to do. While that is a
/// call, the caller makes the call and hands its reply to
/// [`Exchange::advance`], which gives the exchange as it stands then and
/// the next thing to do.
#[derive(Debug)]
pub struct Exchange {
    stage: Stage,
}

impl View for Exchange {
    type V = StageView;

    closed spec fn view(&self) -> StageView {
        match self.stage {
            Stage::Resolve { op, data, release } => StageView::Resolve { op, data: data@, release },
            Stage::Probe { op, data, handle, release } => StageView::Probe {
                op,
                data: data@,
                handle,
                release,
            },
            Stage::Call { op, handle, release, interactive } => StageView::Call {
                op,
                handle,
                release,
                interactive,
            },
            Stage::Release { handle, held } => StageView::Release { handle, held: held@ },
            Stage::Finished => StageView::Finished,
        }
    }
}

/// Ends an operation.
fn conclude(outcome: Outcome, handle: isize, release: bool) -> (r: (Exchange, Action))
    ensures
        (r.0@, r.1@) == finish(outcome@, handle, release),
{
    if release {
        (
            Exchange { stage: Stage::Release { handle, held: outcome } },
            Action::Call(Request::CloseHandle { handle }),
        )
    } else {
        (Exchange { stage: Stage::Finished }, Action::Return(outcome))
    }
}

/// Makes the call of an operation whose handle is known.
fn proceed(op: Operation, data: Payload, handle: isize, release: bool, interactive: bool) -> (r: (
    Exchange,
    Action,
))
    ensures
        (r.0@, r.1@) == issue(op, data@, handle, release, interactive),
{
    match prepare(op, data, handle, interactive) {
        Prepared::Ask { request, awaiting } => (
            Exchange { stage: Stage::Call { op: awaiting, handle, release, interactive } },
            Action::Call(request),
        ),
        Prepared::End(outcome) => conclude(outcome, handle, release),
    }
}

/// Goes on with the handle of the endpoint.
fn engage(op: Operation, data: Payload, handle: isize, release: bool) -> (r: (Exchange, Action))
    ensures
        (r.0@, r.1@) == resolved(op, data@, handle, release),
{
    match op {
        Operation::GetHandle => (
            Exchange { stage: Stage::Finished },
            Action::Return(
                Outcome::Success(
                    Value::Handle(
                        Handle {
                            raw: handle,
                            ownership: if release {
                                HandleOwnership::Owned
                            } else {
                                HandleOwnership::Shared
                            },
                        },
                    ),
                ),
            ),
        ),
        Operation::ReadInput { .. }
        | Operation::PeekInput { .. }
        | Operation::ReadText { .. }
        | Operation::WriteUtf8
        | Operation::WriteUtf16 => (
            Exchange { stage: Stage::Probe { op, data, handle, release } },
            Action::Call(Request::GetConsoleMode { handle }),
        ),
        _ => proceed(op, data, handle, release, false),
    }
}

impl Exchange {
    /// Starts an operation on an endpoint that obtains its handle from
    /// `source`.
    pub fn begin(source: Source, op: Operation, data: Payload) -> (r: (Exchange, Action))
        ensures
            (r.0@, r.1@) == begin(source, op, data@),
    {
        match shortcut_of(op, &data) {
            Some(outcome) => (Exchange { stage: Stage::Finished }, Action::Return(outcome)),
            None => if !acts_on_endpoint(op) {
                proceed(op, data, -1, false, false)
            } else {
                match source {
                    Source::Fixed { handle } => engage(op, data, handle, false),
                    Source::Role { role } => (
                        Exchange { stage: Stage::Resolve { op, data, release: false } },
                        Action::Call(Request::GetStdHandle { role, slot: role.slot() }),
                    ),
                    Source::Device { device } => (
                        Exchange { stage: Stage::Resolve { op, data, release: true } },
                        Action::Call(open_device(device)),
                    ),
                }
            },
        }
    }

    /// Starts an operation that acts on no endpoint.
    pub fn start(op: Operation, data: Payload) -> (r: (Exchange, Action))
        ensures
            (r.0@, r.1@) == start(op, data@),
    {
        Exchange::begin(Source::Fixed { handle: -1 }, op, data)
    }

    /// Whether the exchange is over: whether no reply is awaited.
    pub open spec fn spec_is_finished(&self) -> bool {
        self@ == StageView::Finished
    }

    /// Whether the exchange is over: whether no reply is awaited.
    #[verifier::when_used_as_spec(spec_is_finished)]
    pub fn is_finished(&self) -> (r: bool)
        ensures
            r == self.spec_is_finished(),
    {
        match self.stage {
            Stage::Finished => true,
            _ => false,
        }
    }

    /// Takes the reply to the call that was asked for last, and gives the
    /// exchange as it stands then and the next thing to do.
    ///
    /// A reply to an exchange that is over, and a reply of another shape
    /// than the call gives, end the exchange with the violation
    /// `UnexpectedReply`.
    pub fn advance(self, reply: Reply) -> (r: (Exchange, Action))
        ensures
            (r.0@, r.1@) == step(self@, reply@),
    {
        match self.stage {
            Stage::Resolve { op, data, release } => match reply.output {
                Output::Handle(raw) => if raw == -1 {
                    (
                        Exchange { stage: Stage::Finished },
                        Action::Return(Outcome::Failure(ConsoleError::InvalidHandle)),
                    )
                } else {
                    engage(op, data, raw, release)
                },
                _ => (
                    Exchange { stage: Stage::Finished },
                    Action::Return(Outcome::Violation(Violation::UnexpectedReply)),
                ),
            },
            Stage::Probe { op, data, handle, release } => proceed(
                op,
                data,
                handle,
                release,
                reply.status != 0,
            ),
            Stage::Call { op, handle, release, interactive } => match follow(
                op,
                interactive,
                reply,
            ) {
                Followup::Done(outcome) => conclude(outcome, handle, release),
                Followup::Continue(next) => proceed(
                    next,
                    Payload::Nothing,
                    handle,
                    release,
                    interactive,
                ),
            },
            Stage::Release { handle, held } => (
                Exchange { stage: Stage::Finished },
                Action::Return(
                    if reply.status == 0 {
                        Outcome::Violation(Violation::CloseFailed { handle })
                    } else {
                        held
                    },
                ),
            ),
            Stage::Finished => (
                Exchange { stage: Stage::Finished },
                Action::Return(Outcome::Violation(Violation::UnexpectedReply)),
            ),
        }
    }
}

} // verus!
