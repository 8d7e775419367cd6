//! What follows from the reply to a call of an operation.

use crate::error::ConsoleError;
use crate::error::Violation;
use crate::exchange::success;
use crate::exchange::unexpected;
use crate::exchange::EventForm;
use crate::exchange::Operation;
use crate::exchange::Outcome;
use crate::exchange::OutcomeView;
use crate::exchange::TextForm;
use crate::exchange::Value;
use crate::exchange::ValueView;
use crate::native::Output;
use crate::native::OutputView;
use crate::native::Reply;
use crate::native::ReplyView;
use crate::structs::char_info::CharInfo;
use crate::structs::char_info::RawCharInfo;
use crate::structs::console_color::ConsoleColor;
use crate::structs::console_history_info::ConsoleHistoryInfo;
use crate::structs::console_screen_buffer_info::ConsoleScreenBufferInfo;
use crate::structs::console_screen_buffer_info_ex::ConsoleScreenBufferInfoEx;
use crate::structs::handle::Handle;
use crate::structs::handle::HandleOwnership;
use crate::structs::input_record::InputRecord;
use crate::structs::input_record::RawInputRecord;
use crate::text::decode_utf16;
use crate::text::encode_utf16;
use crate::text::is_single_unit;
use crate::text::valid_utf16;
use vstd::prelude::*;
use vstd::utf8::decode_utf8;
use vstd::utf8::encode_utf8;
use vstd::utf8::valid_utf8;

verus! {

/// Whether the wake mask selects the code unit: whether the unit is a
/// control character below 32 whose bit is set in the mask.
pub open spec fn is_wake(unit: u16, mask: u32) -> bool {
    unit < 32 && (mask & (1u32 << (unit as u32))) != 0
}

/// Whether the wake mask selects the code unit.
pub fn wakes(unit: u16, mask: u32) -> (r: bool)
    ensures
        r == is_wake(unit, mask),
{
    unit < 32 && (mask & (1u32 << (unit as u32))) != 0
}

/// The number of code units before the first one that the wake mask
/// selects; the number of all of them where it selects none.
pub open spec fn wake_index(units: Seq<u16>, mask: u32) -> int
    decreases units.len(),
{
    if units.len() == 0 || is_wake(units[0], mask) {
        0
    } else {
        1 + wake_index(units.drop_first(), mask)
    }
}

/// The text of a console read: what was read before the first code unit
/// that the wake mask selects.
pub open spec fn before_wake(units: Seq<u16>, mask: u32) -> Seq<u16> {
    units.take(wake_index(units, mask))
}

/// The wake index is a place in the code units; none before it is
/// selected by the wake mask, and the one at it is, where there is one.
pub proof fn lemma_wake_index_is_first(units: Seq<u16>, mask: u32)
    ensures
        0 <= wake_index(units, mask) <= units.len(),
        forall|j: int| 0 <= j < wake_index(units, mask) ==> !is_wake(#[trigger] units[j], mask),
        wake_index(units, mask) < units.len() ==> is_wake(
            units[wake_index(units, mask)],
            mask,
        ),
    decreases units.len(),
{
    if units.len() > 0 && !is_wake(units[0], mask) {
        let rest = units.drop_first();
        lemma_wake_index_is_first(rest, mask);
        let cut = wake_index(rest, mask);
        assert forall|j: int| 0 <= j < cut + 1 implies !is_wake(#[trigger] units[j], mask) by {
            if j > 0 {
                assert(units[j] == rest[j - 1]);
            }
        }
        if cut + 1 < units.len() {
            assert(units[cut + 1] == rest[cut]);
        }
    }
}

/// The first `k` code units hold none that the wake mask selects, and
/// the next one is selected or there is none: then `k` is the wake index.
pub proof fn lemma_wake_index(units: Seq<u16>, mask: u32, k: int)
    requires
        0 <= k <= units.len(),
        forall|j: int| 0 <= j < k ==> !is_wake(#[trigger] units[j], mask),
        k == units.len() || is_wake(units[k], mask),
    ensures
        wake_index(units, mask) == k,
    decreases k,
{
    if k > 0 {
        let rest = units.drop_first();
        assert forall|j: int| 0 <= j < k - 1 implies !is_wake(#[trigger] rest[j], mask) by {
            assert(rest[j] == units[j + 1]);
        }
        lemma_wake_index(rest, mask, k - 1);
    }
}

/// Keeps the text of a console read: the first `count` code units, up to
/// the first one that the wake mask selects.
pub fn cut_before_wake(units: Vec<u16>, count: u32, mask: u32) -> (r: Vec<u16>)
    requires
        count <= units@.len(),
    ensures
        r@ == before_wake(units@.take(count as int), mask),
{
    let mut units = units;
    units.truncate(count as usize);
    let mut index: usize = 0;
    while index < units.len() && !wakes(units[index], mask)
        invariant
            index <= units@.len(),
            forall|j: int| 0 <= j < index ==> !is_wake(#[trigger] units@[j], mask),
        decreases units@.len() - index,
    {
        index = index + 1;
    }
    proof {
        lemma_wake_index(units@, mask, index as int);
    }
    units.truncate(index);
    units
}

/// The events that native records stand for; none where one of them
/// stands for none.
pub open spec fn events_of(records: Seq<RawInputRecord>) -> Option<Seq<InputRecord>> {
    if forall|i: int|
        0 <= i < records.len() ==> (#[trigger] InputRecord::of_raw(records[i])).is_some() {
        Some(Seq::new(records.len(), |i: int| InputRecord::of_raw(records[i]).unwrap()))
    } else {
        None
    }
}

/// Reads the first `count` native records.
pub fn read_events(records: Vec<RawInputRecord>, count: u32) -> (r: Option<Vec<InputRecord>>)
    requires
        count <= records@.len(),
    ensures
        match r {
            Some(events) => events_of(records@.take(count as int)) == Some(events@),
            None => events_of(records@.take(count as int)).is_none(),
        },
{
    let mut events: Vec<InputRecord> = Vec::new();
    let mut index: usize = 0;
    let ghost read = records@.take(count as int);
    while index < count as usize
        invariant
            index <= count,
            count <= records@.len(),
            read == records@.take(count as int),
            events@.len() == index,
            forall|j: int|
                0 <= j < index ==> (#[trigger] InputRecord::of_raw(read[j])) == Some(events@[j]),
        decreases count - index,
    {
        assert(read[index as int] == records@[index as int]);
        match InputRecord::from_raw(records[index]) {
            Some(event) => {
                events.push(event);
            },
            None => {
                return None;
            },
        }
        index = index + 1;
    }
    assert(events_of(read).unwrap() =~= events@);
    Some(events)
}

/// The cells that native cells stand for; none where the code unit of one
/// of them is half of a surrogate pair.
pub open spec fn cells_of(cells: Seq<RawCharInfo>) -> Option<Seq<CharInfo>> {
    if forall|i: int|
        0 <= i < cells.len() ==> is_single_unit((#[trigger] cells[i]).unicode_char) {
        Some(Seq::new(cells.len(), |i: int| CharInfo::of_raw(cells[i])))
    } else {
        None
    }
}

/// Reads native cells.
pub fn read_cells(cells: Vec<RawCharInfo>) -> (r: Option<Vec<CharInfo>>)
    ensures
        match r {
            Some(read) => cells_of(cells@) == Some(read@),
            None => cells_of(cells@).is_none(),
        },
{
    let mut read: Vec<CharInfo> = Vec::new();
    let mut index: usize = 0;
    while index < cells.len()
        invariant
            index <= cells@.len(),
            read@.len() == index,
            forall|j: int|
                0 <= j < index ==> is_single_unit((#[trigger] cells@[j]).unicode_char)
                    && read@[j] == CharInfo::of_raw(cells@[j]),
        decreases cells@.len() - index,
    {
        match CharInfo::from_raw(cells[index]) {
            Some(cell) => {
                read.push(cell);
            },
            None => {
                return None;
            },
        }
        index = index + 1;
    }
    assert(cells_of(cells@).unwrap() =~= read@);
    Some(read)
}

/// The outcome of a failed native call: the last error of the operating
/// system.
pub open spec fn os_failure(reply: ReplyView) -> OutcomeView {
    OutcomeView::Failure(ConsoleError::Os { code: reply.error })
}

/// The outcome of a call that gives nothing but its status.
pub open spec fn status_outcome(reply: ReplyView) -> OutcomeView {
    if reply.status == 0 {
        os_failure(reply)
    } else {
        success(Value::Unit)
    }
}

/// Judges a call that gives nothing but its status.
pub fn judge_status(reply: &Reply) -> (r: Outcome)
    ensures
        r@ == status_outcome(reply@),
{
    if reply.status == 0 {
        Outcome::Failure(ConsoleError::Os { code: reply.error })
    } else {
        Outcome::Success(Value::Unit)
    }
}

/// The outcome of a call that returns a handle: the invalid one is the
/// failure `invalid`, any other one comes with the ownership.
pub open spec fn handle_outcome(
    reply: ReplyView,
    ownership: HandleOwnership,
    invalid: ConsoleError,
) -> OutcomeView {
    match reply.output {
        OutputView::Plain(Output::Handle(raw)) => if raw == -1 {
            OutcomeView::Failure(invalid)
        } else {
            success(Value::Handle(Handle { raw, ownership }))
        },
        _ => unexpected(),
    }
}

/// Judges a call that returns a handle.
pub fn judge_handle(reply: &Reply, ownership: HandleOwnership, invalid: ConsoleError) -> (r:
    Outcome)
    ensures
        r@ == handle_outcome(reply@, ownership, invalid),
{
    match reply.output {
        Output::Handle(raw) => if raw == -1 {
            Outcome::Failure(invalid)
        } else {
            Outcome::Success(Value::Handle(Handle { raw, ownership }))
        },
        _ => Outcome::Violation(Violation::UnexpectedReply),
    }
}

/// The outcome of a call that writes a number besides its status.
pub open spec fn number_outcome(reply: ReplyView) -> OutcomeView {
    if reply.status == 0 {
        os_failure(reply)
    } else {
        match reply.output {
            OutputView::Plain(Output::Number(value)) => success(Value::Number(value)),
            _ => unexpected(),
        }
    }
}

/// Judges a call that writes a number besides its status.
pub fn judge_number(reply: &Reply) -> (r: Outcome)
    ensures
        r@ == number_outcome(reply@),
{
    if reply.status == 0 {
        Outcome::Failure(ConsoleError::Os { code: reply.error })
    } else {
        match reply.output {
            Output::Number(value) => Outcome::Success(Value::Number(value)),
            _ => Outcome::Violation(Violation::UnexpectedReply),
        }
    }
}

/// The outcome of a call that returns a code page: zero is its failure.
pub open spec fn code_page_outcome(reply: ReplyView) -> OutcomeView {
    match reply.output {
        OutputView::Plain(Output::Number(value)) => if value == 0 {
            os_failure(reply)
        } else {
            success(Value::Number(value))
        },
        _ => unexpected(),
    }
}

/// Judges a call that returns a code page.
pub fn judge_code_page(reply: &Reply) -> (r: Outcome)
    ensures
        r@ == code_page_outcome(reply@),
{
    match reply.output {
        Output::Number(value) => if value == 0 {
            Outcome::Failure(ConsoleError::Os { code: reply.error })
        } else {
            Outcome::Success(Value::Number(value))
        },
        _ => Outcome::Violation(Violation::UnexpectedReply),
    }
}

/// The code units of a title: those of the buffer up to the length that
/// the call reported, and all of the buffer where the title is longer.
pub open spec fn title_of(units: Seq<u16>, count: u32) -> Seq<u16> {
    if count <= units.len() {
        units.take(count as int)
    } else {
        units
    }
}

/// The outcome of a call that returns the length of a title and fills a
/// buffer with it: a length of zero is its failure, and the title is what
/// the buffer holds up to that length, which has to be well-formed.
pub open spec fn title_outcome(reply: ReplyView) -> OutcomeView {
    match reply.output {
        OutputView::Units { units, count } => if count == 0 {
            os_failure(reply)
        } else if valid_utf16(title_of(units, count)) {
            OutcomeView::Success(ValueView::Text(decode_utf16(title_of(units, count)).unwrap()))
        } else {
            OutcomeView::Failure(ConsoleError::InvalidData)
        },
        _ => unexpected(),
    }
}

/// Judges a call that returns the length of a title and fills a buffer
/// with it.
pub fn judge_title(reply: Reply) -> (r: Outcome)
    ensures
        r@ == title_outcome(reply@),
{
    match reply.output {
        Output::Units { units, count } => if count == 0 {
            Outcome::Failure(ConsoleError::Os { code: reply.error })
        } else {
            let mut title = units;
            title.truncate(count as usize);
            match crate::text::string_from_utf16(title.as_slice()) {
                Some(text) => Outcome::Success(Value::Text(text)),
                None => Outcome::Failure(ConsoleError::InvalidData),
            }
        },
        _ => Outcome::Violation(Violation::UnexpectedReply),
    }
}

/// What is made of the screen buffer information that a call gave.
pub open spec fn screen_buffer_next(op: Operation, info: ConsoleScreenBufferInfo) -> Next {
    match op {
        Operation::GetScreenBufferInfo => Next::Done(success(Value::ScreenBuffer(info))),
        Operation::GetCursorPosition => Next::Done(success(Value::Position(info.cursor_position))),
        Operation::GetTextAttribute => Next::Done(success(Value::Attribute(info.attributes))),
        Operation::GetForegroundColor => Next::Done(
            success(Value::Color(ConsoleColor::foreground_of(info.attributes))),
        ),
        Operation::GetBackgroundColor => Next::Done(
            success(Value::Color(ConsoleColor::background_of(info.attributes))),
        ),
        Operation::SetForegroundColor { color } => Next::Continue(
            Operation::SetTextAttribute { attribute: color.on_foreground(info.attributes) },
        ),
        Operation::SetBackgroundColor { color } => Next::Continue(
            Operation::SetTextAttribute { attribute: color.on_background(info.attributes) },
        ),
        Operation::Clear => if info.screen_buffer_size.x < 0 || info.screen_buffer_size.y < 0 {
            Next::Done(
                OutcomeView::Violation(Violation::InvalidSize { size: info.screen_buffer_size }),
            )
        } else {
            Next::Continue(
                Operation::ClearCharacters {
                    length: (info.screen_buffer_size.x * info.screen_buffer_size.y) as u32,
                    attributes: info.attributes,
                },
            )
        },
        _ => Next::Done(unexpected()),
    }
}

/// Makes of the screen buffer information what the operation asks for.
pub fn follow_screen_buffer(op: Operation, info: ConsoleScreenBufferInfo) -> (r: Followup)
    ensures
        r@ == screen_buffer_next(op, info),
{
    let attributes: u16 = info.attributes;
    match op {
        Operation::GetScreenBufferInfo => Followup::Done(
            Outcome::Success(Value::ScreenBuffer(info)),
        ),
        Operation::GetCursorPosition => Followup::Done(
            Outcome::Success(Value::Position(info.cursor_position)),
        ),
        Operation::GetTextAttribute => Followup::Done(
            Outcome::Success(Value::Attribute(attributes)),
        ),
        Operation::GetForegroundColor => Followup::Done(
            Outcome::Success(Value::Color(ConsoleColor::foreground(attributes))),
        ),
        Operation::GetBackgroundColor => Followup::Done(
            Outcome::Success(Value::Color(ConsoleColor::background(attributes))),
        ),
        Operation::SetForegroundColor { color } => Followup::Continue(
            Operation::SetTextAttribute { attribute: color.set_foreground(attributes) },
        ),
        Operation::SetBackgroundColor { color } => Followup::Continue(
            Operation::SetTextAttribute { attribute: color.set_background(attributes) },
        ),
        Operation::Clear => {
            let size = info.screen_buffer_size;
            if size.x < 0 || size.y < 0 {
                Followup::Done(Outcome::Violation(Violation::InvalidSize { size }))
            } else {
                let width: u32 = size.x as u32;
                let height: u32 = size.y as u32;
                assert(width * height <= 0x7FFF * 0x7FFF) by (nonlinear_arith)
                    requires
                        width <= 0x7FFF,
                        height <= 0x7FFF,
                ;
                Followup::Continue(
                    Operation::ClearCharacters { length: width * height, attributes },
                )
            }
        },
        _ => Followup::Done(Outcome::Violation(Violation::UnexpectedReply)),
    }
}

/// The outcome of a read of text on the console's way: the code units
/// that were read, up to the first one that the wake mask selects, in the
/// form that was asked for. Only the form of code units takes text that is
/// not well-formed.
pub open spec fn console_text_outcome(
    form: TextForm,
    mask: u32,
    units: Seq<u16>,
    count: u32,
) -> OutcomeView {
    if count > units.len() {
        OutcomeView::Violation(Violation::Overrun)
    } else {
        let text = before_wake(units.take(count as int), mask);
        match form {
            TextForm::Utf16 => OutcomeView::Success(ValueView::Units(text)),
            TextForm::Utf8 => if valid_utf16(text) {
                OutcomeView::Success(ValueView::Bytes(encode_utf8(decode_utf16(text).unwrap())))
            } else {
                OutcomeView::Failure(ConsoleError::InvalidData)
            },
            TextForm::Text => if valid_utf16(text) {
                OutcomeView::Success(ValueView::Text(decode_utf16(text).unwrap()))
            } else {
                OutcomeView::Failure(ConsoleError::InvalidData)
            },
        }
    }
}

/// Judges a read of text on the console's way.
pub fn judge_console_text(form: TextForm, mask: u32, units: Vec<u16>, count: u32) -> (r: Outcome)
    ensures
        r@ == console_text_outcome(form, mask, units@, count),
{
    if count as usize > units.len() {
        Outcome::Violation(Violation::Overrun)
    } else {
        let text = cut_before_wake(units, count, mask);
        match form {
            TextForm::Utf16 => Outcome::Success(Value::Units(text)),
            TextForm::Utf8 => match crate::text::utf16_to_utf8(text.as_slice()) {
                Some(bytes) => Outcome::Success(Value::Bytes(bytes)),
                None => Outcome::Failure(ConsoleError::InvalidData),
            },
            TextForm::Text => match crate::text::string_from_utf16(text.as_slice()) {
                Some(string) => Outcome::Success(Value::Text(string)),
                None => Outcome::Failure(ConsoleError::InvalidData),
            },
        }
    }
}

/// The outcome of a read of text on the way of files and pipes: the bytes
/// that were read, which have to be well-formed, in the form that was
/// asked for.
pub open spec fn stream_text_outcome(form: TextForm, bytes: Seq<u8>, count: u32) -> OutcomeView {
    if count > bytes.len() {
        OutcomeView::Violation(Violation::Overrun)
    } else {
        let read = bytes.take(count as int);
        if !valid_utf8(read) {
            OutcomeView::Failure(ConsoleError::InvalidData)
        } else {
            match form {
                TextForm::Utf16 => OutcomeView::Success(
                    ValueView::Units(encode_utf16(decode_utf8(read))),
                ),
                TextForm::Utf8 => OutcomeView::Success(ValueView::Bytes(read)),
                TextForm::Text => OutcomeView::Success(ValueView::Text(decode_utf8(read))),
            }
        }
    }
}

/// Judges a read of text on the way of files and pipes.
pub fn judge_stream_text(form: TextForm, bytes: Vec<u8>, count: u32) -> (r: Outcome)
    ensures
        r@ == stream_text_outcome(form, bytes@, count),
{
    if count as usize > bytes.len() {
        Outcome::Violation(Violation::Overrun)
    } else {
        let mut read = bytes;
        read.truncate(count as usize);
        match form {
            TextForm::Utf16 => match crate::text::utf8_to_utf16(read.as_slice()) {
                Some(units) => Outcome::Success(Value::Units(units)),
                None => Outcome::Failure(ConsoleError::InvalidData),
            },
            TextForm::Utf8 => match core::str::from_utf8(read.as_slice()) {
                Ok(_) => Outcome::Success(Value::Bytes(read)),
                Err(_) => Outcome::Failure(ConsoleError::InvalidData),
            },
            TextForm::Text => match crate::text::string_from_utf8(read.as_slice()) {
                Some(string) => Outcome::Success(Value::Text(string)),
                None => Outcome::Failure(ConsoleError::InvalidData),
            },
        }
    }
}

/// The outcome of a write. On the console's way anything but the whole is
/// a violation; on the way of files and pipes a part is a success, and
/// only more than the whole is a violation.
pub open spec fn write_outcome(interactive: bool, requested: u32, reply: ReplyView) -> OutcomeView {
    if reply.status == 0 {
        os_failure(reply)
    } else {
        match reply.output {
            OutputView::Plain(Output::Number(written)) => if interactive {
                if written == requested {
                    success(Value::Count(written as usize))
                } else {
                    OutcomeView::Violation(Violation::PartialConsoleWrite { requested, written })
                }
            } else if written > requested {
                OutcomeView::Violation(Violation::Overrun)
            } else {
                success(Value::Count(written as usize))
            },
            _ => unexpected(),
        }
    }
}

/// Judges a write.
pub fn judge_write(interactive: bool, requested: u32, reply: &Reply) -> (r: Outcome)
    ensures
        r@ == write_outcome(interactive, requested, reply@),
{
    if reply.status == 0 {
        Outcome::Failure(ConsoleError::Os { code: reply.error })
    } else {
        match reply.output {
            Output::Number(written) => if interactive {
                if written == requested {
                    Outcome::Success(Value::Count(written as usize))
                } else {
                    Outcome::Violation(Violation::PartialConsoleWrite { requested, written })
                }
            } else if written > requested {
                Outcome::Violation(Violation::Overrun)
            } else {
                Outcome::Success(Value::Count(written as usize))
            },
            _ => Outcome::Violation(Violation::UnexpectedReply),
        }
    }
}

/// The outcome of a read or a peek of input events: the events that the
/// call reported. A read gives at least one.
pub open spec fn events_outcome(
    at_least_one: bool,
    form: EventForm,
    reply: ReplyView,
) -> OutcomeView {
    if reply.status == 0 {
        os_failure(reply)
    } else {
        match reply.output {
            OutputView::Records { records, count } => if count == 0 && at_least_one {
                OutcomeView::Violation(Violation::NoEvent)
            } else if count > records.len() {
                OutcomeView::Violation(Violation::Overrun)
            } else {
                match events_of(records.take(count as int)) {
                    Some(events) => match form {
                        EventForm::Many => OutcomeView::Success(ValueView::Records(events)),
                        EventForm::Single => if events.len() > 0 {
                            success(Value::Record(events[0]))
                        } else {
                            OutcomeView::Violation(Violation::NoEvent)
                        },
                    },
                    None => OutcomeView::Violation(Violation::Unreadable),
                }
            },
            _ => unexpected(),
        }
    }
}

/// Judges a read or a peek of input events.
pub fn judge_events(at_least_one: bool, form: EventForm, reply: Reply) -> (r: Outcome)
    ensures
        r@ == events_outcome(at_least_one, form, reply@),
{
    if reply.status == 0 {
        Outcome::Failure(ConsoleError::Os { code: reply.error })
    } else {
        match reply.output {
            Output::Records { records, count } => if count == 0 && at_least_one {
                Outcome::Violation(Violation::NoEvent)
            } else if count as usize > records.len() {
                Outcome::Violation(Violation::Overrun)
            } else {
                match read_events(records, count) {
                    Some(events) => match form {
                        EventForm::Many => Outcome::Success(Value::Records(events)),
                        EventForm::Single => if events.len() > 0 {
                            Outcome::Success(Value::Record(events[0]))
                        } else {
                            Outcome::Violation(Violation::NoEvent)
                        },
                    },
                    None => Outcome::Violation(Violation::Unreadable),
                }
            },
            _ => Outcome::Violation(Violation::UnexpectedReply),
        }
    }
}

/// What follows from the reply to a call of an operation.
pub enum Next {
    /// The operation ends with this outcome.
    Done(OutcomeView),
    /// The operation goes on as this one, on the same handle.
    Continue(Operation),
}

/// What follows from a reply, in executable form.
pub enum Followup {
    Done(Outcome),
    Continue(Operation),
}

impl View for Followup {
    type V = Next;

    open spec fn view(&self) -> Next {
        match *self {
            Followup::Done(outcome) => Next::Done(outcome@),
            Followup::Continue(op) => Next::Continue(op),
        }
    }
}

/// What follows from the reply to a call of an operation.
pub open spec fn interpret(op: Operation, interactive: bool, reply: ReplyView) -> Next {
    match op {
        Operation::GetStdHandle { .. } => Next::Done(
            handle_outcome(reply, HandleOwnership::Shared, ConsoleError::InvalidHandle),
        ),
        Operation::OpenDevice { .. } => Next::Done(
            handle_outcome(reply, HandleOwnership::Owned, ConsoleError::InvalidHandle),
        ),
        Operation::CreateScreenBuffer { .. } => Next::Done(
            handle_outcome(reply, HandleOwnership::Owned, ConsoleError::NoScreenBuffer),
        ),
        Operation::Close { handle, .. } => Next::Done(
            if reply.status == 0 {
                OutcomeView::Violation(Violation::CloseFailed { handle })
            } else {
                success(Value::Unit)
            },
        ),
        Operation::SetStdHandle { .. }
        | Operation::AllocConsole
        | Operation::AttachConsole { .. }
        | Operation::FreeConsole
        | Operation::SetTitle
        | Operation::SetInputCode { .. }
        | Operation::SetOutputCode { .. }
        | Operation::SetActiveScreenBuffer { .. }
        | Operation::SetHistoryInfo { .. }
        | Operation::SetMode { .. }
        | Operation::SetFontInfoEx { .. }
        | Operation::SetScreenBufferInfoEx { .. }
        | Operation::SetScreenBufferSize { .. }
        | Operation::SetWindowInfo { .. }
        | Operation::SetCursorPosition { .. }
        | Operation::SetTextAttribute { .. }
        | Operation::ScrollScreenBuffer { .. }
        | Operation::FlushInput
        | Operation::WriteCharBuffer { .. }
        | Operation::ClearCursor => Next::Done(status_outcome(reply)),
        Operation::GetTitle | Operation::GetOriginalTitle => Next::Done(title_outcome(reply)),
        Operation::GetInputCodePage | Operation::GetOutputCodePage => Next::Done(
            code_page_outcome(reply),
        ),
        Operation::GetMode
        | Operation::FillWithChar { .. }
        | Operation::FillWithAttribute { .. }
        | Operation::GetNumberOfMouseButtons => Next::Done(number_outcome(reply)),
        Operation::HasMode { mode } => Next::Done(
            if reply.status == 0 {
                os_failure(reply)
            } else {
                match reply.output {
                    OutputView::Plain(Output::Number(state)) => success(
                        Value::Flag((state & mode) != 0),
                    ),
                    _ => unexpected(),
                }
            },
        ),
        Operation::GetNumberOfInputEvents => Next::Done(
            if reply.status == 0 {
                os_failure(reply)
            } else {
                match reply.output {
                    OutputView::Plain(Output::Number(events)) => success(
                        Value::Count(events as usize),
                    ),
                    _ => unexpected(),
                }
            },
        ),
        Operation::GetSelectionInfo => Next::Done(
            if reply.status == 0 {
                os_failure(reply)
            } else {
                match reply.output {
                    OutputView::Plain(Output::Selection(info)) => success(Value::Selection(info)),
                    _ => unexpected(),
                }
            },
        ),
        Operation::GetHistoryInfo => Next::Done(
            if reply.status == 0 {
                os_failure(reply)
            } else {
                match reply.output {
                    OutputView::Plain(Output::History(info)) => success(
                        Value::History(
                            ConsoleHistoryInfo {
                                size: info.size,
                                history_buffer_size: info.history_buffer_size,
                                number_of_history_buffers: info.number_of_history_buffers,
                                allow_duplicate_entries: info.flags != 0,
                            },
                        ),
                    ),
                    _ => unexpected(),
                }
            },
        ),
        Operation::GetFontInfo { .. } => Next::Done(
            if reply.status == 0 {
                os_failure(reply)
            } else {
                match reply.output {
                    OutputView::Plain(Output::Font(info)) => success(Value::Font(info)),
                    _ => unexpected(),
                }
            },
        ),
        Operation::GetFontInfoEx { .. } => Next::Done(
            if reply.status == 0 {
                os_failure(reply)
            } else {
                match reply.output {
                    OutputView::Plain(Output::FontEx(info)) => success(Value::FontEx(info)),
                    _ => unexpected(),
                }
            },
        ),
        Operation::GetScreenBufferInfoEx => Next::Done(
            if reply.status == 0 {
                os_failure(reply)
            } else {
                match reply.output {
                    OutputView::Plain(Output::ScreenBufferEx(info)) => success(
                        Value::ScreenBufferEx(
                            ConsoleScreenBufferInfoEx {
                                size: info.size,
                                screen_buffer_size: info.screen_buffer_size,
                                cursor_position: info.cursor_position,
                                attributes: info.attributes,
                                window: info.window,
                                maximum_window_size: info.maximum_window_size,
                                popup_attributes: info.popup_attributes,
                                full_screen_supported: info.full_screen_supported != 0,
                                color_table: info.color_table,
                            },
                        ),
                    ),
                    _ => unexpected(),
                }
            },
        ),
        Operation::GetScreenBufferInfo
        | Operation::GetCursorPosition
        | Operation::GetTextAttribute
        | Operation::GetForegroundColor
        | Operation::GetBackgroundColor
        | Operation::SetForegroundColor { .. }
        | Operation::SetBackgroundColor { .. }
        | Operation::Clear => if reply.status == 0 {
            Next::Done(os_failure(reply))
        } else {
            match reply.output {
                OutputView::Plain(Output::ScreenBuffer(info)) => screen_buffer_next(op, info),
                _ => Next::Done(unexpected()),
            }
        },
        Operation::ClearCharacters { length, attributes } => if reply.status == 0 {
            Next::Done(os_failure(reply))
        } else {
            Next::Continue(Operation::ClearAttributes { length, attributes })
        },
        Operation::ClearAttributes { .. } => if reply.status == 0 {
            Next::Done(os_failure(reply))
        } else {
            Next::Continue(Operation::ClearCursor)
        },
        Operation::GetLargestWindowSize => Next::Done(
            match reply.output {
                OutputView::Plain(Output::Size(size)) => if size.x == 0 && size.y == 0 {
                    os_failure(reply)
                } else {
                    success(Value::Position(size))
                },
                _ => unexpected(),
            },
        ),
        Operation::GetProcessList { capacity } => match reply.output {
            OutputView::Processes { ids, count } => if count == 0 {
                Next::Done(os_failure(reply))
            } else if count > capacity {
                Next::Continue(Operation::GetProcessList { capacity: count })
            } else if count > ids.len() {
                Next::Done(OutcomeView::Violation(Violation::Overrun))
            } else {
                Next::Done(OutcomeView::Success(ValueView::Processes(ids.take(count as int))))
            },
            _ => Next::Done(unexpected()),
        },
        Operation::ReadInput { form, .. } => Next::Done(events_outcome(true, form, reply)),
        Operation::PeekInput { .. } => Next::Done(events_outcome(false, EventForm::Many, reply)),
        Operation::ReadText { control, form, .. } => Next::Done(
            if reply.status == 0 {
                os_failure(reply)
            } else if interactive {
                match reply.output {
                    OutputView::Units { units, count } => console_text_outcome(
                        form,
                        control.ctrl_wakeup_mask,
                        units,
                        count,
                    ),
                    _ => unexpected(),
                }
            } else {
                match reply.output {
                    OutputView::Bytes { bytes, count } => stream_text_outcome(form, bytes, count),
                    _ => unexpected(),
                }
            },
        ),
        Operation::ReadCharBuffer { .. } => Next::Done(
            if reply.status == 0 {
                os_failure(reply)
            } else {
                match reply.output {
                    OutputView::Cells { cells, region } => match cells_of(cells) {
                        Some(read) => OutcomeView::Success(
                            ValueView::Cells { cells: read, region },
                        ),
                        None => OutcomeView::Violation(Violation::Unreadable),
                    },
                    _ => unexpected(),
                }
            },
        ),
        Operation::Written { requested } => Next::Done(
            write_outcome(interactive, requested, reply),
        ),
        Operation::GetHandle | Operation::WriteUtf8 | Operation::WriteUtf16 => Next::Done(
            unexpected(),
        ),
    }
}

/// Says what follows from the reply to a call of an operation.
pub fn follow(op: Operation, interactive: bool, reply: Reply) -> (r: Followup)
    ensures
        r@ == interpret(op, interactive, reply@),
{
    match op {
        Operation::GetStdHandle { .. } => Followup::Done(
            judge_handle(&reply, HandleOwnership::Shared, ConsoleError::InvalidHandle),
        ),
        Operation::OpenDevice { .. } => Followup::Done(
            judge_handle(&reply, HandleOwnership::Owned, ConsoleError::InvalidHandle),
        ),
        Operation::CreateScreenBuffer { .. } => Followup::Done(
            judge_handle(&reply, HandleOwnership::Owned, ConsoleError::NoScreenBuffer),
        ),
        Operation::Close { handle, .. } => Followup::Done(
            if reply.status == 0 {
                Outcome::Violation(Violation::CloseFailed { handle })
            } else {
                Outcome::Success(Value::Unit)
            },
        ),
        Operation::SetStdHandle { .. }
        | Operation::AllocConsole
        | Operation::AttachConsole { .. }
        | Operation::FreeConsole
        | Operation::SetTitle
        | Operation::SetInputCode { .. }
        | Operation::SetOutputCode { .. }
        | Operation::SetActiveScreenBuffer { .. }
        | Operation::SetHistoryInfo { .. }
        | Operation::SetMode { .. }
        | Operation::SetFontInfoEx { .. }
        | Operation::SetScreenBufferInfoEx { .. }
        | Operation::SetScreenBufferSize { .. }
        | Operation::SetWindowInfo { .. }
        | Operation::SetCursorPosition { .. }
        | Operation::SetTextAttribute { .. }
        | Operation::ScrollScreenBuffer { .. }
        | Operation::FlushInput
        | Operation::WriteCharBuffer { .. }
        | Operation::ClearCursor => Followup::Done(judge_status(&reply)),
        Operation::GetTitle | Operation::GetOriginalTitle => Followup::Done(judge_title(reply)),
        Operation::GetInputCodePage | Operation::GetOutputCodePage => Followup::Done(
            judge_code_page(&reply),
        ),
        Operation::GetMode
        | Operation::FillWithChar { .. }
        | Operation::FillWithAttribute { .. }
        | Operation::GetNumberOfMouseButtons => Followup::Done(judge_number(&reply)),
        Operation::HasMode { mode } => Followup::Done(
            if reply.status == 0 {
                Outcome::Failure(ConsoleError::Os { code: reply.error })
            } else {
                match reply.output {
                    Output::Number(state) => Outcome::Success(Value::Flag((state & mode) != 0)),
                    _ => Outcome::Violation(Violation::UnexpectedReply),
                }
            },
        ),
        Operation::GetNumberOfInputEvents => Followup::Done(
            if reply.status == 0 {
                Outcome::Failure(ConsoleError::Os { code: reply.error })
            } else {
                match reply.output {
                    Output::Number(events) => Outcome::Success(Value::Count(events as usize)),
                    _ => Outcome::Violation(Violation::UnexpectedReply),
                }
            },
        ),
        Operation::GetSelectionInfo => Followup::Done(
            if reply.status == 0 {
                Outcome::Failure(ConsoleError::Os { code: reply.error })
            } else {
                match reply.output {
                    Output::Selection(info) => Outcome::Success(Value::Selection(info)),
                    _ => Outcome::Violation(Violation::UnexpectedReply),
                }
            },
        ),
        Operation::GetHistoryInfo => Followup::Done(
            if reply.status == 0 {
                Outcome::Failure(ConsoleError::Os { code: reply.error })
            } else {
                match reply.output {
                    Output::History(info) => Outcome::Success(
                        Value::History(ConsoleHistoryInfo::from(info)),
                    ),
                    _ => Outcome::Violation(Violation::UnexpectedReply),
                }
            },
        ),
        Operation::GetFontInfo { .. } => Followup::Done(
            if reply.status == 0 {
                Outcome::Failure(ConsoleError::Os { code: reply.error })
            } else {
                match reply.output {
                    Output::Font(info) => Outcome::Success(Value::Font(info)),
                    _ => Outcome::Violation(Violation::UnexpectedReply),
                }
            },
        ),
        Operation::GetFontInfoEx { .. } => Followup::Done(
            if reply.status == 0 {
                Outcome::Failure(ConsoleError::Os { code: reply.error })
            } else {
                match reply.output {
                    Output::FontEx(info) => Outcome::Success(Value::FontEx(info)),
                    _ => Outcome::Violation(Violation::UnexpectedReply),
                }
            },
        ),
        Operation::GetScreenBufferInfoEx => Followup::Done(
            if reply.status == 0 {
                Outcome::Failure(ConsoleError::Os { code: reply.error })
            } else {
                match reply.output {
                    Output::ScreenBufferEx(info) => Outcome::Success(
                        Value::ScreenBufferEx(ConsoleScreenBufferInfoEx::from(info)),
                    ),
                    _ => Outcome::Violation(Violation::UnexpectedReply),
                }
            },
        ),
        Operation::GetScreenBufferInfo
        | Operation::GetCursorPosition
        | Operation::GetTextAttribute
        | Operation::GetForegroundColor
        | Operation::GetBackgroundColor
        | Operation::SetForegroundColor { .. }
        | Operation::SetBackgroundColor { .. }
        | Operation::Clear => if reply.status == 0 {
            Followup::Done(Outcome::Failure(ConsoleError::Os { code: reply.error }))
        } else {
            match reply.output {
                Output::ScreenBuffer(info) => follow_screen_buffer(op, info),
                _ => Followup::Done(Outcome::Violation(Violation::UnexpectedReply)),
            }
        },
        Operation::ClearCharacters { length, attributes } => if reply.status == 0 {
            Followup::Done(Outcome::Failure(ConsoleError::Os { code: reply.error }))
        } else {
            Followup::Continue(Operation::ClearAttributes { length, attributes })
        },
        Operation::ClearAttributes { .. } => if reply.status == 0 {
            Followup::Done(Outcome::Failure(ConsoleError::Os { code: reply.error }))
        } else {
            Followup::Continue(Operation::ClearCursor)
        },
        Operation::GetLargestWindowSize => Followup::Done(
            match reply.output {
                Output::Size(size) => if size.x == 0 && size.y == 0 {
                    Outcome::Failure(ConsoleError::Os { code: reply.error })
                } else {
                    Outcome::Success(Value::Position(size))
                },
                _ => Outcome::Violation(Violation::UnexpectedReply),
            },
        ),
        Operation::GetProcessList { capacity } => match reply.output {
            Output::Processes { ids, count } => if count == 0 {
                Followup::Done(Outcome::Failure(ConsoleError::Os { code: reply.error }))
            } else if count > capacity {
                Followup::Continue(Operation::GetProcessList { capacity: count })
            } else if count as usize > ids.len() {
                Followup::Done(Outcome::Violation(Violation::Overrun))
            } else {
                let mut ids = ids;
                ids.truncate(count as usize);
                Followup::Done(Outcome::Success(Value::Processes(ids)))
            },
            _ => Followup::Done(Outcome::Violation(Violation::UnexpectedReply)),
        },
        Operation::ReadInput { form, .. } => Followup::Done(judge_events(true, form, reply)),
        Operation::PeekInput { .. } => Followup::Done(judge_events(false, EventForm::Many, reply)),
        Operation::ReadText { control, form, .. } => Followup::Done(
            if reply.status == 0 {
                Outcome::Failure(ConsoleError::Os { code: reply.error })
            } else if interactive {
                match reply.output {
                    Output::Units { units, count } => judge_console_text(
                        form,
                        control.ctrl_wakeup_mask,
                        units,
                        count,
                    ),
                    _ => Outcome::Violation(Violation::UnexpectedReply),
                }
            } else {
                match reply.output {
                    Output::Bytes { bytes, count } => judge_stream_text(form, bytes, count),
                    _ => Outcome::Violation(Violation::UnexpectedReply),
                }
            },
        ),
        Operation::ReadCharBuffer { .. } => Followup::Done(
            if reply.status == 0 {
                Outcome::Failure(ConsoleError::Os { code: reply.error })
            } else {
                match reply.output {
                    Output::Cells { cells, region } => match read_cells(cells) {
                        Some(read) => Outcome::Success(Value::Cells { cells: read, region }),
                        None => Outcome::Violation(Violation::Unreadable),
                    },
                    _ => Outcome::Violation(Violation::UnexpectedReply),
                }
            },
        ),
        Operation::Written { requested } => Followup::Done(
            judge_write(interactive, requested, &reply),
        ),
        Operation::GetHandle | Operation::WriteUtf8 | Operation::WriteUtf16 => Followup::Done(
            Outcome::Violation(Violation::UnexpectedReply),
        ),
    }
}

} // verus!
