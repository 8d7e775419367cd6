//! What an operation asks of the operating system once its handle is
//! known.

use crate::error::ConsoleError;
use crate::error::Violation;
use crate::exchange::unexpected;
use crate::exchange::Operation;
use crate::exchange::Outcome;
use crate::exchange::OutcomeView;
use crate::exchange::Payload;
use crate::exchange::PayloadView;
use crate::exchange::TITLE_CAPACITY;
use crate::native::Direction;
use crate::native::Request;
use crate::native::RequestView;
use crate::structs::console_font_info_ex::ConsoleFontInfoEx;
use crate::structs::console_history_info::RawHistoryInfo;
use crate::structs::console_screen_buffer_info_ex::ConsoleScreenBufferInfoEx;
use crate::structs::console_screen_buffer_info_ex::RawScreenBufferInfoEx;
use crate::structs::coord::Coord;
use crate::text::decode_utf16;
use crate::text::valid_utf16;
use vstd::prelude::*;
use vstd::utf8::encode_utf8;

verus! {

/// The items that one write to a file or pipe is handed: all of them, up
/// to the most that a 32-bit count can say.
pub open spec fn clip<T>(items: Seq<T>) -> Seq<T> {
    if items.len() > u32::MAX {
        items.take(u32::MAX as int)
    } else {
        items
    }
}

/// Keeps what one write to a file or pipe is handed.
pub fn clipped<T>(items: Vec<T>) -> (r: Vec<T>)
    ensures
        r@ == clip(items@),
        r@.len() <= u32::MAX,
{
    let mut items = items;
    if items.len() > u32::MAX as usize {
        items.truncate(u32::MAX as usize);
    }
    items
}

/// Names the call that opens the console's own file of a direction: to
/// read and to write, shared for both.
pub fn open_device(device: Direction) -> (r: Request)
    ensures
        r == (Request::OpenDevice { device, desired_access: 0xC000_0000, share_mode: 3 }),
{
    assert(0x8000_0000u32 | 0x4000_0000u32 == 0xC000_0000u32) by (bit_vector);
    assert(0x0000_0001u32 | 0x0000_0002u32 == 3u32) by (bit_vector);
    Request::OpenDevice {
        device,
        desired_access: crate::console::GENERIC_READ | crate::console::GENERIC_WRITE,
        share_mode: crate::console::FILE_SHARE_READ | crate::console::FILE_SHARE_WRITE,
    }
}

/// The native call of an operation that asks for one whatever the handle
/// is, and that carries no sequence.
pub open spec fn plain_request(op: Operation, handle: isize) -> Option<Request> {
    match op {
        Operation::GetStdHandle { role } => Some(
            Request::GetStdHandle { role, slot: role.spec_slot() },
        ),
        Operation::SetStdHandle { role, handle: target } => Some(
            Request::SetStdHandle { role, slot: role.spec_slot(), handle: target },
        ),
        Operation::OpenDevice { device } => Some(
            Request::OpenDevice { device, desired_access: 0xC000_0000, share_mode: 3 },
        ),
        Operation::Close { handle: target, .. } => Some(Request::CloseHandle { handle: target }),
        Operation::AllocConsole => Some(Request::AllocConsole),
        Operation::AttachConsole { process_id } => Some(Request::AttachConsole { process_id }),
        Operation::FreeConsole => Some(Request::FreeConsole),
        Operation::GetTitle => Some(Request::GetConsoleTitle { capacity: 260 }),
        Operation::GetOriginalTitle => Some(Request::GetConsoleOriginalTitle { capacity: 260 }),
        Operation::GetInputCodePage => Some(Request::GetConsoleCP),
        Operation::GetOutputCodePage => Some(Request::GetConsoleOutputCP),
        Operation::SetInputCode { code_page } => Some(Request::SetConsoleCP { code_page }),
        Operation::SetOutputCode { code_page } => Some(Request::SetConsoleOutputCP { code_page }),
        Operation::GetSelectionInfo => Some(Request::GetConsoleSelectionInfo),
        Operation::CreateScreenBuffer { options } => Some(
            Request::CreateConsoleScreenBuffer {
                desired_access: options.desired_access,
                share_mode: options.share_mode,
            },
        ),
        Operation::SetActiveScreenBuffer { handle: target } => Some(
            Request::SetConsoleActiveScreenBuffer { handle: target },
        ),
        Operation::GetProcessList { capacity } => Some(
            Request::GetConsoleProcessList { capacity },
        ),
        Operation::SetHistoryInfo { info } => Some(
            Request::SetConsoleHistoryInfo {
                info: RawHistoryInfo {
                    size: info.size,
                    history_buffer_size: info.history_buffer_size,
                    number_of_history_buffers: info.number_of_history_buffers,
                    flags: if info.allow_duplicate_entries {
                        1
                    } else {
                        0
                    },
                },
            },
        ),
        Operation::GetHistoryInfo => Some(Request::GetConsoleHistoryInfo),
        Operation::GetNumberOfMouseButtons => Some(Request::GetNumberOfConsoleMouseButtons),
        Operation::GetMode | Operation::HasMode { .. } => Some(Request::GetConsoleMode { handle }),
        Operation::SetMode { mode } => Some(Request::SetConsoleMode { handle, mode }),
        Operation::SetFontInfoEx { info, maximum_window } => Some(
            Request::SetCurrentConsoleFontEx { handle, maximum_window, info },
        ),
        Operation::GetFontInfo { maximum_window } => Some(
            Request::GetCurrentConsoleFont { handle, maximum_window },
        ),
        Operation::GetFontInfoEx { maximum_window } => Some(
            Request::GetCurrentConsoleFontEx { handle, maximum_window, size: 84 },
        ),
        Operation::GetScreenBufferInfo
        | Operation::GetCursorPosition
        | Operation::GetTextAttribute
        | Operation::GetForegroundColor
        | Operation::GetBackgroundColor
        | Operation::SetForegroundColor { .. }
        | Operation::SetBackgroundColor { .. }
        | Operation::Clear => Some(Request::GetConsoleScreenBufferInfo { handle }),
        Operation::GetScreenBufferInfoEx => Some(
            Request::GetConsoleScreenBufferInfoEx { handle, size: 96 },
        ),
        Operation::SetScreenBufferInfoEx { info } => Some(
            Request::SetConsoleScreenBufferInfoEx {
                handle,
                info: RawScreenBufferInfoEx {
                    size: info.size,
                    screen_buffer_size: info.screen_buffer_size,
                    cursor_position: info.cursor_position,
                    attributes: info.attributes,
                    window: info.window,
                    maximum_window_size: info.maximum_window_size,
                    popup_attributes: info.popup_attributes,
                    full_screen_supported: if info.full_screen_supported {
                        1
                    } else {
                        0
                    },
                    color_table: info.color_table,
                },
            },
        ),
        Operation::SetScreenBufferSize { size } => Some(
            Request::SetConsoleScreenBufferSize { handle, size },
        ),
        Operation::SetWindowInfo { absolute, window } => Some(
            Request::SetConsoleWindowInfo { handle, absolute, window },
        ),
        Operation::SetCursorPosition { position } => Some(
            Request::SetConsoleCursorPosition { handle, position },
        ),
        Operation::ClearCharacters { length, .. } => Some(
            Request::FillConsoleOutputCharacter {
                handle,
                character: 0x20,
                length,
                start: Coord { x: 0, y: 0 },
            },
        ),
        Operation::ClearAttributes { length, attributes } => Some(
            Request::FillConsoleOutputAttribute {
                handle,
                attribute: attributes,
                length,
                start: Coord { x: 0, y: 0 },
            },
        ),
        Operation::ClearCursor => Some(
            Request::SetConsoleCursorPosition { handle, position: Coord { x: 0, y: 0 } },
        ),
        Operation::FillWithChar { start, length, value } => if value as u32 <= 0xFFFF {
            Some(
                Request::FillConsoleOutputCharacter {
                    handle,
                    character: value as u32 as u16,
                    length,
                    start,
                },
            )
        } else {
            None
        },
        Operation::FillWithAttribute { start, length, attribute } => Some(
            Request::FillConsoleOutputAttribute { handle, attribute, length, start },
        ),
        Operation::SetTextAttribute { attribute } => Some(
            Request::SetConsoleTextAttribute { handle, attribute },
        ),
        Operation::GetLargestWindowSize => Some(Request::GetLargestConsoleWindowSize { handle }),
        Operation::GetNumberOfInputEvents => Some(
            Request::GetNumberOfConsoleInputEvents { handle },
        ),
        Operation::ScrollScreenBuffer { scroll, clip, destination, fill } => Some(
            Request::ScrollConsoleScreenBuffer { handle, scroll, clip, destination, fill },
        ),
        Operation::ReadCharBuffer { size, start, region, length } => Some(
            Request::ReadConsoleOutput { handle, size, start, region, length },
        ),
        Operation::FlushInput => Some(Request::FlushConsoleInputBuffer { handle }),
        _ => None,
    }
}

/// Names the native call of an operation that asks for one whatever the
/// handle is, and that carries no sequence.
pub fn plain_call(op: Operation, handle: isize) -> (r: Option<Request>)
    ensures
        r == plain_request(op, handle),
{
    match op {
        Operation::GetStdHandle { role } => Some(Request::GetStdHandle { role, slot: role.slot() }),
        Operation::SetStdHandle { role, handle: target } => Some(
            Request::SetStdHandle { role, slot: role.slot(), handle: target },
        ),
        Operation::OpenDevice { device } => Some(open_device(device)),
        Operation::Close { handle: target, .. } => Some(Request::CloseHandle { handle: target }),
        Operation::AllocConsole => Some(Request::AllocConsole),
        Operation::AttachConsole { process_id } => Some(Request::AttachConsole { process_id }),
        Operation::FreeConsole => Some(Request::FreeConsole),
        Operation::GetTitle => Some(Request::GetConsoleTitle { capacity: TITLE_CAPACITY }),
        Operation::GetOriginalTitle => Some(
            Request::GetConsoleOriginalTitle { capacity: TITLE_CAPACITY },
        ),
        Operation::GetInputCodePage => Some(Request::GetConsoleCP),
        Operation::GetOutputCodePage => Some(Request::GetConsoleOutputCP),
        Operation::SetInputCode { code_page } => Some(Request::SetConsoleCP { code_page }),
        Operation::SetOutputCode { code_page } => Some(Request::SetConsoleOutputCP { code_page }),
        Operation::GetSelectionInfo => Some(Request::GetConsoleSelectionInfo),
        Operation::CreateScreenBuffer { options } => Some(
            Request::CreateConsoleScreenBuffer {
                desired_access: options.get_desired_access(),
                share_mode: options.get_share_mode(),
            },
        ),
        Operation::SetActiveScreenBuffer { handle: target } => Some(
            Request::SetConsoleActiveScreenBuffer { handle: target },
        ),
        Operation::GetProcessList { capacity } => Some(
            Request::GetConsoleProcessList { capacity },
        ),
        Operation::SetHistoryInfo { info } => Some(
            Request::SetConsoleHistoryInfo { info: RawHistoryInfo::from(info) },
        ),
        Operation::GetHistoryInfo => Some(Request::GetConsoleHistoryInfo),
        Operation::GetNumberOfMouseButtons => Some(Request::GetNumberOfConsoleMouseButtons),
        Operation::GetMode | Operation::HasMode { .. } => Some(Request::GetConsoleMode { handle }),
        Operation::SetMode { mode } => Some(Request::SetConsoleMode { handle, mode }),
        Operation::SetFontInfoEx { info, maximum_window } => Some(
            Request::SetCurrentConsoleFontEx { handle, maximum_window, info },
        ),
        Operation::GetFontInfo { maximum_window } => Some(
            Request::GetCurrentConsoleFont { handle, maximum_window },
        ),
        Operation::GetFontInfoEx { maximum_window } => Some(
            Request::GetCurrentConsoleFontEx {
                handle,
                maximum_window,
                size: ConsoleFontInfoEx::NATIVE_SIZE,
            },
        ),
        Operation::GetScreenBufferInfo
        | Operation::GetCursorPosition
        | Operation::GetTextAttribute
        | Operation::GetForegroundColor
        | Operation::GetBackgroundColor
        | Operation::SetForegroundColor { .. }
        | Operation::SetBackgroundColor { .. }
        | Operation::Clear => Some(Request::GetConsoleScreenBufferInfo { handle }),
        Operation::GetScreenBufferInfoEx => Some(
            Request::GetConsoleScreenBufferInfoEx {
                handle,
                size: ConsoleScreenBufferInfoEx::NATIVE_SIZE,
            },
        ),
        Operation::SetScreenBufferInfoEx { info } => Some(
            Request::SetConsoleScreenBufferInfoEx {
                handle,
                info: RawScreenBufferInfoEx::from(info),
            },
        ),
        Operation::SetScreenBufferSize { size } => Some(
            Request::SetConsoleScreenBufferSize { handle, size },
        ),
        Operation::SetWindowInfo { absolute, window } => Some(
            Request::SetConsoleWindowInfo { handle, absolute, window },
        ),
        Operation::SetCursorPosition { position } => Some(
            Request::SetConsoleCursorPosition { handle, position },
        ),
        Operation::ClearCharacters { length, .. } => Some(
            Request::FillConsoleOutputCharacter {
                handle,
                character: 0x20,
                length,
                start: Coord::zero(),
            },
        ),
        Operation::ClearAttributes { length, attributes } => Some(
            Request::FillConsoleOutputAttribute {
                handle,
                attribute: attributes,
                length,
                start: Coord::zero(),
            },
        ),
        Operation::ClearCursor => Some(
            Request::SetConsoleCursorPosition { handle, position: Coord::zero() },
        ),
        Operation::FillWithChar { start, length, value } => match crate::text::unit_from_char(
            value,
        ) {
            Some(character) => Some(
                Request::FillConsoleOutputCharacter { handle, character, length, start },
            ),
            None => None,
        },
        Operation::FillWithAttribute { start, length, attribute } => Some(
            Request::FillConsoleOutputAttribute { handle, attribute, length, start },
        ),
        Operation::SetTextAttribute { attribute } => Some(
            Request::SetConsoleTextAttribute { handle, attribute },
        ),
        Operation::GetLargestWindowSize => Some(Request::GetLargestConsoleWindowSize { handle }),
        Operation::GetNumberOfInputEvents => Some(
            Request::GetNumberOfConsoleInputEvents { handle },
        ),
        Operation::ScrollScreenBuffer { scroll, clip, destination, fill } => Some(
            Request::ScrollConsoleScreenBuffer { handle, scroll, clip, destination, fill },
        ),
        Operation::ReadCharBuffer { size, start, region, length } => Some(
            Request::ReadConsoleOutput { handle, size, start, region, length },
        ),
        Operation::FlushInput => Some(Request::FlushConsoleInputBuffer { handle }),
        _ => None,
    }
}

/// What an operation does once its handle is known.
pub enum Plan {
    /// It asks for this native call, and the reply is read as that of
    /// `awaiting`.
    Ask { request: RequestView, awaiting: Operation },
    /// It ends with this outcome, without a call.
    End(OutcomeView),
}

/// What an operation does once its handle is known, in executable form.
pub enum Prepared {
    Ask { request: Request, awaiting: Operation },
    End(Outcome),
}

impl View for Prepared {
    type V = Plan;

    open spec fn view(&self) -> Plan {
        match *self {
            Prepared::Ask { request, awaiting } => Plan::Ask { request: request@, awaiting },
            Prepared::End(outcome) => Plan::End(outcome@),
        }
    }
}

/// What an operation does once its handle is known, and known to be a
/// console or not.
///
/// Input events are read from a console alone: on another handle the
/// operation fails without a call. Text is read from a console as code
/// units and from a file or pipe as bytes.
///
/// A console is handed what is written as it is, and all of it in one
/// call: more than a 32-bit count can say fails without a call. A file or
/// pipe is handed bytes as they are, whatever they hold, and code units as
/// the UTF-8 of the text that they stand for, which they have to be
/// well-formed for; one call is handed as much as a 32-bit count can say,
/// and the count that comes back tells how far the write went.
pub open spec fn plan(op: Operation, data: PayloadView, handle: isize, interactive: bool) -> Plan {
    match op {
        Operation::ReadInput { capacity, .. } => if interactive {
            Plan::Ask {
                request: RequestView::Plain(Request::ReadConsoleInput { handle, capacity }),
                awaiting: op,
            }
        } else {
            Plan::End(OutcomeView::Failure(ConsoleError::InvalidHandle))
        },
        Operation::PeekInput { capacity } => if interactive {
            Plan::Ask {
                request: RequestView::Plain(Request::PeekConsoleInput { handle, capacity }),
                awaiting: op,
            }
        } else {
            Plan::End(OutcomeView::Failure(ConsoleError::InvalidHandle))
        },
        Operation::ReadText { capacity, control, .. } => if interactive {
            Plan::Ask {
                request: RequestView::Plain(Request::ReadConsole { handle, capacity, control }),
                awaiting: op,
            }
        } else {
            Plan::Ask {
                request: RequestView::Plain(Request::ReadFile { handle, capacity }),
                awaiting: op,
            }
        },
        Operation::WriteUtf8 => match data {
            PayloadView::Bytes(bytes) => if interactive {
                if bytes.len() > u32::MAX {
                    Plan::End(OutcomeView::Failure(ConsoleError::InvalidInput))
                } else {
                    Plan::Ask {
                        request: RequestView::WriteConsoleA { handle, data: bytes },
                        awaiting: Operation::Written { requested: bytes.len() as u32 },
                    }
                }
            } else {
                Plan::Ask {
                    request: RequestView::WriteFile { handle, data: clip(bytes) },
                    awaiting: Operation::Written { requested: clip(bytes).len() as u32 },
                }
            },
            _ => Plan::End(unexpected()),
        },
        Operation::WriteUtf16 => match data {
            PayloadView::Units(units) => if interactive {
                if units.len() > u32::MAX {
                    Plan::End(OutcomeView::Failure(ConsoleError::InvalidInput))
                } else {
                    Plan::Ask {
                        request: RequestView::WriteConsoleW { handle, data: units },
                        awaiting: Operation::Written { requested: units.len() as u32 },
                    }
                }
            } else if valid_utf16(units) {
                Plan::Ask {
                    request: RequestView::WriteFile {
                        handle,
                        data: clip(encode_utf8(decode_utf16(units).unwrap())),
                    },
                    awaiting: Operation::Written {
                        requested: clip(encode_utf8(decode_utf16(units).unwrap())).len() as u32,
                    },
                }
            } else {
                Plan::End(OutcomeView::Failure(ConsoleError::InvalidInput))
            },
            _ => Plan::End(unexpected()),
        },
        Operation::WriteCharBuffer { size, start, area } => match data {
            PayloadView::Cells(cells) => Plan::Ask {
                request: RequestView::WriteConsoleOutput {
                    handle,
                    cells,
                    size,
                    start,
                    region: area,
                },
                awaiting: op,
            },
            _ => Plan::End(unexpected()),
        },
        Operation::SetTitle => match data {
            PayloadView::Units(title) => Plan::Ask {
                request: RequestView::SetConsoleTitle { title },
                awaiting: op,
            },
            _ => Plan::End(unexpected()),
        },
        _ => match plain_request(op, handle) {
            Some(request) => Plan::Ask { request: RequestView::Plain(request), awaiting: op },
            None => Plan::End(unexpected()),
        },
    }
}

/// Says what an operation does once its handle is known, and known to be
/// a console or not.
pub fn prepare(op: Operation, data: Payload, handle: isize, interactive: bool) -> (r: Prepared)
    ensures
        r@ == plan(op, data@, handle, interactive),
{
    match op {
        Operation::ReadInput { capacity, .. } => if interactive {
            Prepared::Ask { request: Request::ReadConsoleInput { handle, capacity }, awaiting: op }
        } else {
            Prepared::End(Outcome::Failure(ConsoleError::InvalidHandle))
        },
        Operation::PeekInput { capacity } => if interactive {
            Prepared::Ask { request: Request::PeekConsoleInput { handle, capacity }, awaiting: op }
        } else {
            Prepared::End(Outcome::Failure(ConsoleError::InvalidHandle))
        },
        Operation::ReadText { capacity, control, .. } => if interactive {
            Prepared::Ask {
                request: Request::ReadConsole { handle, capacity, control },
                awaiting: op,
            }
        } else {
            Prepared::Ask { request: Request::ReadFile { handle, capacity }, awaiting: op }
        },
        Operation::WriteUtf8 => match data {
            Payload::Bytes(bytes) => if interactive {
                if bytes.len() > u32::MAX as usize {
                    Prepared::End(Outcome::Failure(ConsoleError::InvalidInput))
                } else {
                    let requested: u32 = bytes.len() as u32;
                    Prepared::Ask {
                        request: Request::WriteConsoleA { handle, data: bytes },
                        awaiting: Operation::Written { requested },
                    }
                }
            } else {
                let data = clipped(bytes);
                let requested: u32 = data.len() as u32;
                Prepared::Ask {
                    request: Request::WriteFile { handle, data },
                    awaiting: Operation::Written { requested },
                }
            },
            _ => Prepared::End(Outcome::Violation(Violation::UnexpectedReply)),
        },
        Operation::WriteUtf16 => match data {
            Payload::Units(units) => if interactive {
                if units.len() > u32::MAX as usize {
                    Prepared::End(Outcome::Failure(ConsoleError::InvalidInput))
                } else {
                    let requested: u32 = units.len() as u32;
                    Prepared::Ask {
                        request: Request::WriteConsoleW { handle, data: units },
                        awaiting: Operation::Written { requested },
                    }
                }
            } else {
                match crate::text::utf16_to_utf8(units.as_slice()) {
                    Some(bytes) => {
                        let data = clipped(bytes);
                        let requested: u32 = data.len() as u32;
                        Prepared::Ask {
                            request: Request::WriteFile { handle, data },
                            awaiting: Operation::Written { requested },
                        }
                    },
                    None => Prepared::End(Outcome::Failure(ConsoleError::InvalidInput)),
                }
            },
            _ => Prepared::End(Outcome::Violation(Violation::UnexpectedReply)),
        },
        Operation::WriteCharBuffer { size, start, area } => match data {
            Payload::Cells(cells) => Prepared::Ask {
                request: Request::WriteConsoleOutput { handle, cells, size, start, region: area },
                awaiting: op,
            },
            _ => Prepared::End(Outcome::Violation(Violation::UnexpectedReply)),
        },
        Operation::SetTitle => match data {
            Payload::Units(title) => Prepared::Ask {
                request: Request::SetConsoleTitle { title },
                awaiting: op,
            },
            _ => Prepared::End(Outcome::Violation(Violation::UnexpectedReply)),
        },
        _ => match plain_call(op, handle) {
            Some(request) => Prepared::Ask { request, awaiting: op },
            None => Prepared::End(Outcome::Violation(Violation::UnexpectedReply)),
        },
    }
}

} // verus!
