//! What holds of every exchange, whatever the operating system answers,
//! and of the conversions between values and their native forms.

use crate::console::HandleType;
use crate::error::ConsoleError;
use crate::error::Violation;
use crate::exchange::begin;
use crate::exchange::finish;
use crate::exchange::request::clip;
use crate::exchange::reply::before_wake;
use crate::exchange::reply::events_of;
use crate::exchange::reply::interpret;
use crate::exchange::reply::is_wake;
use crate::exchange::reply::lemma_wake_index_is_first;
use crate::exchange::reply::wake_index;
use crate::exchange::needs_probe;
use crate::exchange::on_endpoint;
use crate::exchange::request::plain_request;
use crate::exchange::request::plan;
use crate::exchange::shortcut;
use crate::exchange::start;
use crate::exchange::step;
use crate::exchange::success;
use crate::exchange::reply::write_outcome;
use crate::exchange::ActionView;
use crate::exchange::EventForm;
use crate::exchange::reply::Next;
use crate::exchange::Operation;
use crate::exchange::OutcomeView;
use crate::exchange::PayloadView;
use crate::exchange::request::Plan;
use crate::exchange::Source;
use crate::exchange::StageView;
use crate::exchange::TextForm;
use crate::exchange::Value;
use crate::exchange::ValueView;
use crate::native::Direction;
use crate::native::Output;
use crate::native::OutputView;
use crate::native::ReplyView;
use crate::native::Request;
use crate::native::RequestView;
use crate::structs::console_read_control::RawReadControl;
use crate::structs::console_color::ConsoleColor;
use crate::structs::console_cursor_info::ConsoleCursorInfo;
use crate::structs::console_cursor_info::RawCursorInfo;
use crate::structs::console_history_info::ConsoleHistoryInfo;
use crate::structs::console_history_info::RawHistoryInfo;
use crate::structs::console_screen_buffer_info::ConsoleScreenBufferInfo;
use crate::structs::console_screen_buffer_info_ex::ConsoleScreenBufferInfoEx;
use crate::structs::console_screen_buffer_info_ex::RawScreenBufferInfoEx;
use crate::structs::focus_event::FocusEventRecord;
use crate::structs::focus_event::RawFocusEvent;
use crate::structs::handle::Handle;
use crate::structs::handle::HandleOwnership;
use crate::structs::input_record::InputRecord;
use crate::structs::input_record::RawInputRecord;
use crate::structs::menu_event::MenuEventRecord;
use crate::structs::menu_event::RawMenuEvent;
use crate::structs::window_buffer_size_event::RawWindowBufferSize;
use crate::structs::window_buffer_size_event::WindowBufferSizeRecord;
use crate::text::decode_utf16;
use crate::text::encode_utf16;
use crate::text::valid_utf16;
use vstd::prelude::*;
use vstd::std_specs::convert::FromSpec;
use vstd::utf8::decode_utf8;
use vstd::utf8::encode_utf8;
use vstd::utf8::valid_utf8;

verus! {

/// Closing an owned handle releases its resource exactly once: the
/// closing asks for one call, which closes the raw value of the handle, and
/// whatever the reply is the exchange is over after it, so that no second
/// call follows. The closing takes the handle by value, so that there is no
/// handle left to close again.
pub proof fn law_owned_handle_is_released_once(handle: Handle, reply: ReplyView)
    requires
        handle.owned(),
    ensures
        start(Operation::Close { handle: handle.raw, owned: true }, PayloadView::Nothing).1
            == ActionView::Call(RequestView::Plain(Request::CloseHandle { handle: handle.raw })),
        step(
            start(Operation::Close { handle: handle.raw, owned: true }, PayloadView::Nothing).0,
            reply,
        ).0 == StageView::Finished,
        step(
            start(Operation::Close { handle: handle.raw, owned: true }, PayloadView::Nothing).0,
            reply,
        ).1 == ActionView::Return(
            if reply.status == 0 {
                OutcomeView::Violation(Violation::CloseFailed { handle: handle.raw })
            } else {
                success(Value::Unit)
            },
        ),
{
}

/// Closing a shared handle makes no call: the exchange is over at once,
/// with success.
pub proof fn law_shared_handle_is_never_released(handle: Handle)
    requires
        !handle.owned(),
    ensures
        start(Operation::Close { handle: handle.raw, owned: false }, PayloadView::Nothing) == (
            StageView::Finished,
            ActionView::Return(success(Value::Unit)),
        ),
{
}

/// The handle that an exchange has opened itself and has not yet asked to
/// be closed.
pub open spec fn owed(stage: StageView) -> Option<isize> {
    match stage {
        StageView::Probe { handle, release, .. } => if release {
            Some(handle)
        } else {
            None
        },
        StageView::Call { handle, release, .. } => if release {
            Some(handle)
        } else {
            None
        },
        _ => None,
    }
}

/// Whether the exchange waits for nothing but the closing of `handle`.
pub open spec fn closes(stage: StageView, handle: isize) -> bool {
    match stage {
        StageView::Release { handle: closing, .. } => closing == handle,
        _ => false,
    }
}

/// Whether the exchange waits for a handle that it has asked to be opened
/// for itself.
pub open spec fn opens(stage: StageView) -> bool {
    match stage {
        StageView::Resolve { release, .. } => release,
        _ => false,
    }
}

/// A handle that an exchange opens for itself is closed exactly once
/// before the outcome is given.
///
/// While the exchange owes the closing of a handle it does not end: the
/// next thing to do is a call, and either the handle is still owed after
/// it, or the call is the closing and the exchange waits for nothing but
/// that. Once the closing was asked for, the next reply ends the
/// exchange. An exchange that owes nothing never comes to owe a handle but
/// by opening one; and a handle that was opened is owed from then on, or
/// closed at once, or handed out as an owned handle where the operation
/// asked for the handle itself.
pub proof fn law_opened_handle_is_closed_once(stage: StageView, reply: ReplyView, opened: isize)
    ensures
        owed(stage) matches Some(handle) ==> step(stage, reply).1 is Call && (owed(
            step(stage, reply).0,
        ) == Some(handle) || (closes(step(stage, reply).0, handle) && step(stage, reply).1
            == ActionView::Call(RequestView::Plain(Request::CloseHandle { handle })))),
        stage is Release ==> step(stage, reply).0 == StageView::Finished && step(stage, reply).1
            is Return,
        stage is Finished ==> step(stage, reply).0 == StageView::Finished && step(stage, reply).1
            is Return,
        step(stage, reply).1 is Return ==> step(stage, reply).0 == StageView::Finished && owed(
            stage,
        ).is_none(),
        owed(stage).is_none() && owed(step(stage, reply).0).is_some() ==> opens(stage),
        opens(stage) && reply.output == OutputView::Plain(Output::Handle(opened)) && opened != -1
            ==> owed(step(stage, reply).0) == Some(opened) || (closes(step(stage, reply).0, opened)
            && step(stage, reply).1 == ActionView::Call(
            RequestView::Plain(Request::CloseHandle { handle: opened }),
        )) || step(stage, reply).1 == ActionView::Return(
            success(Value::Handle(Handle { raw: opened, ownership: HandleOwnership::Owned })),
        ),
{
}

/// A write of nothing succeeds with the count zero and makes no call,
/// whatever the endpoint is.
pub proof fn law_empty_write_makes_no_call(source: Source)
    ensures
        begin(source, Operation::WriteUtf8, PayloadView::Bytes(Seq::empty())) == (
            StageView::Finished,
            ActionView::Return(success(Value::Count(0))),
        ),
        begin(source, Operation::WriteUtf16, PayloadView::Units(Seq::empty())) == (
            StageView::Finished,
            ActionView::Return(success(Value::Count(0))),
        ),
{
}

/// An endpoint of a role acts on the handle that the role has at the time
/// of the operation.
///
/// Each operation that has something to do starts by asking for the
/// standard handle of the role, and goes on from the reply as the same
/// operation starts on an endpoint that holds the handle of the reply. The
/// endpoint keeps nothing from one operation to the next, so that after the
/// standard handle is set anew the next operation acts on the new handle.
pub proof fn law_role_endpoint_observes_rebinding(
    role: HandleType,
    op: Operation,
    data: PayloadView,
    reply: ReplyView,
    handle: isize,
)
    requires
        on_endpoint(op),
        shortcut(op, data).is_none(),
        reply.output == OutputView::Plain(Output::Handle(handle)),
        handle != -1,
    ensures
        begin(Source::Role { role }, op, data).1 == ActionView::Call(
            RequestView::Plain(Request::GetStdHandle { role, slot: role.spec_slot() }),
        ),
        step(begin(Source::Role { role }, op, data).0, reply) == begin(
            Source::Fixed { handle },
            op,
            data,
        ),
{
}

/// Input events are not read from a handle that is no console: once the
/// handle has answered that it is none, a read or a peek of one event or
/// more fails with `InvalidHandle`, and no call is made for the events.
pub proof fn law_events_need_a_console(op: Operation, handle: isize, reply: ReplyView)
    requires
        op is ReadInput || op is PeekInput,
        reply.status == 0,
    ensures
        needs_probe(op),
        step(StageView::Probe { op, data: PayloadView::Nothing, handle, release: false }, reply)
            == (
            StageView::Finished,
            ActionView::Return(OutcomeView::Failure(ConsoleError::InvalidHandle)),
        ),
{
}

/// A write to a console succeeds with the whole or not at all, and a
/// write to a file or pipe succeeds with whatever part was taken.
pub proof fn law_write_counts(interactive: bool, requested: u32, reply: ReplyView, written: u32)
    requires
        reply.status != 0,
        reply.output == OutputView::Plain(Output::Number(written)),
    ensures
        interactive ==> write_outcome(interactive, requested, reply) == if written == requested {
            success(Value::Count(written as usize))
        } else {
            OutcomeView::Violation(Violation::PartialConsoleWrite { requested, written })
        },
        !interactive && written <= requested ==> write_outcome(interactive, requested, reply)
            == success(Value::Count(written as usize)),
{
}

/// Text that is written to a file or pipe and read back from it is the
/// same text.
///
/// Code units that are well-formed UTF-16 are written as bytes, and a
/// read that is answered with just these bytes gives just these code
/// units. Bytes are written as they are, and where they are the UTF-8 of
/// a text a read that is answered with them gives them. The text is no
/// longer than one call can take.
pub proof fn law_byte_path_round_trip(
    units: Seq<u16>,
    handle: isize,
    capacity: u32,
    control: RawReadControl,
    reply: ReplyView,
    buffer: Seq<u8>,
    count: u32,
)
    requires
        valid_utf16(units),
        encode_utf8(decode_utf16(units).unwrap()).len() <= u32::MAX,
        reply.status != 0,
        reply.output == (OutputView::Bytes { bytes: buffer, count }),
        count <= buffer.len(),
        buffer.take(count as int) == encode_utf8(decode_utf16(units).unwrap()),
    ensures
        plan(Operation::WriteUtf16, PayloadView::Units(units), handle, false) == (Plan::Ask {
            request: RequestView::WriteFile { handle, data: buffer.take(count as int) },
            awaiting: Operation::Written { requested: count },
        }),
        plan(Operation::WriteUtf8, PayloadView::Bytes(buffer.take(count as int)), handle, false)
            == (Plan::Ask {
            request: RequestView::WriteFile { handle, data: buffer.take(count as int) },
            awaiting: Operation::Written { requested: count },
        }),
        interpret(Operation::ReadText { capacity, control, form: TextForm::Utf16 }, false, reply)
            == Next::Done(OutcomeView::Success(ValueView::Units(units))),
        interpret(Operation::ReadText { capacity, control, form: TextForm::Utf8 }, false, reply)
            == Next::Done(OutcomeView::Success(ValueView::Bytes(buffer.take(count as int)))),
        interpret(Operation::ReadText { capacity, control, form: TextForm::Text }, false, reply)
            == Next::Done(OutcomeView::Success(ValueView::Text(decode_utf16(units).unwrap()))),
{
    let text = decode_utf16(units).unwrap();
    let bytes = encode_utf8(text);
    crate::text::lemma_byte_path_round_trip(units);
    vstd::utf8::encode_utf8_decode_utf8(text);
    assert(clip(bytes) == bytes);
    assert(bytes.len() == count);
}

/// The calls that an exchange asks for when they are answered by
/// `replies`, in order, as far as the replies reach.
pub open spec fn calls_of(first: (StageView, ActionView), replies: Seq<ReplyView>) -> Seq<
    RequestView,
>
    decreases replies.len(),
{
    match first.1 {
        ActionView::Return(_) => Seq::empty(),
        ActionView::Call(request) => if replies.len() == 0 {
            seq![request]
        } else {
            seq![request] + calls_of(step(first.0, replies[0]), replies.drop_first())
        },
    }
}

/// The outcome of an exchange whose calls are answered by `replies`, in
/// order. There is none where the exchange asks for more calls than there
/// are replies, or for fewer.
pub open spec fn outcome_of(first: (StageView, ActionView), replies: Seq<ReplyView>) -> Option<
    OutcomeView,
>
    decreases replies.len(),
{
    match first.1 {
        ActionView::Return(outcome) => if replies.len() == 0 {
            Some(outcome)
        } else {
            None
        },
        ActionView::Call(_) => if replies.len() == 0 {
            None
        } else {
            outcome_of(step(first.0, replies[0]), replies.drop_first())
        },
    }
}

/// A write of bytes through an endpoint that holds its handle makes two
/// calls: the handle is asked whether it is a console, and the bytes are
/// written. Console or not, the bytes are handed over as they are, whatever
/// they hold. On a console anything but the whole of them written is a
/// violation; on a file or pipe the count that the call reports is the
/// outcome.
pub proof fn law_write_utf8(
    handle: isize,
    bytes: Seq<u8>,
    probe: ReplyView,
    reply: ReplyView,
    written: u32,
)
    requires
        0 < bytes.len() <= u32::MAX,
        reply.status != 0,
        reply.output == OutputView::Plain(Output::Number(written)),
    ensures
        probe.status != 0 ==> calls_of(
            begin(Source::Fixed { handle }, Operation::WriteUtf8, PayloadView::Bytes(bytes)),
            seq![probe, reply],
        ) == seq![
            RequestView::Plain(Request::GetConsoleMode { handle }),
            RequestView::WriteConsoleA { handle, data: bytes },
        ] && outcome_of(
            begin(Source::Fixed { handle }, Operation::WriteUtf8, PayloadView::Bytes(bytes)),
            seq![probe, reply],
        ) == Some(
            if written == bytes.len() {
                success(Value::Count(written as usize))
            } else {
                OutcomeView::Violation(
                    Violation::PartialConsoleWrite { requested: bytes.len() as u32, written },
                )
            },
        ),
        probe.status == 0 && written <= bytes.len() ==> calls_of(
            begin(Source::Fixed { handle }, Operation::WriteUtf8, PayloadView::Bytes(bytes)),
            seq![probe, reply],
        ) == seq![
            RequestView::Plain(Request::GetConsoleMode { handle }),
            RequestView::WriteFile { handle, data: bytes },
        ] && outcome_of(
            begin(Source::Fixed { handle }, Operation::WriteUtf8, PayloadView::Bytes(bytes)),
            seq![probe, reply],
        ) == Some(success(Value::Count(written as usize))),
{
    let first = begin(Source::Fixed { handle }, Operation::WriteUtf8, PayloadView::Bytes(bytes));
    let replies = seq![probe, reply];
    assert(replies.drop_first() =~= seq![reply]);
    assert(seq![reply].drop_first() =~= Seq::<ReplyView>::empty());
    assert(clip(bytes) == bytes);
    reveal_with_fuel(calls_of, 4);
    reveal_with_fuel(outcome_of, 4);
    if probe.status != 0 {
        assert(calls_of(first, replies) =~= seq![
            RequestView::Plain(Request::GetConsoleMode { handle }),
            RequestView::WriteConsoleA { handle, data: bytes },
        ]);
    } else {
        assert(calls_of(first, replies) =~= seq![
            RequestView::Plain(Request::GetConsoleMode { handle }),
            RequestView::WriteFile { handle, data: bytes },
        ]);
    }
}

/// A file or pipe is handed the bytes of a write as they are: whatever
/// the bytes hold, and whatever the endpoint is, the reply that the handle
/// is no console is followed by the write of the bytes, of as many as one
/// call can take, and by nothing else.
pub proof fn law_bytes_are_written_as_they_are(
    bytes: Seq<u8>,
    handle: isize,
    release: bool,
    probe: ReplyView,
)
    requires
        probe.status == 0,
    ensures
        plan(Operation::WriteUtf8, PayloadView::Bytes(bytes), handle, false) == (Plan::Ask {
            request: RequestView::WriteFile { handle, data: clip(bytes) },
            awaiting: Operation::Written { requested: clip(bytes).len() as u32 },
        }),
        step(
            StageView::Probe {
                op: Operation::WriteUtf8,
                data: PayloadView::Bytes(bytes),
                handle,
                release,
            },
            probe,
        ) == (
            StageView::Call {
                op: Operation::Written { requested: clip(bytes).len() as u32 },
                handle,
                release,
                interactive: false,
            },
            ActionView::Call(RequestView::WriteFile { handle, data: clip(bytes) }),
        ),
        bytes.len() <= u32::MAX ==> clip(bytes) == bytes,
{
}

/// A write to a console is whole or it is no success, whatever the
/// endpoint is and however long the data is.
///
/// Once the handle has answered that it is a console, data of more items
/// than a 32-bit count can say fails with `InvalidInput` and is not
/// written; any other data is handed over whole, in one call. The reply to
/// that call is a success only with the count of all the items: a
/// successful call that reports another count ends the operation with the
/// violation `PartialConsoleWrite`, after the closing of a handle that the
/// exchange opened itself.
pub proof fn law_console_write_is_whole(
    bytes: Seq<u8>,
    units: Seq<u16>,
    handle: isize,
    release: bool,
    probe: ReplyView,
    requested: u32,
    reply: ReplyView,
    written: u32,
)
    requires
        probe.status != 0,
    ensures
        step(
            StageView::Probe {
                op: Operation::WriteUtf8,
                data: PayloadView::Bytes(bytes),
                handle,
                release,
            },
            probe,
        ) == if bytes.len() > u32::MAX {
            finish(OutcomeView::Failure(ConsoleError::InvalidInput), handle, release)
        } else {
            (
                StageView::Call {
                    op: Operation::Written { requested: bytes.len() as u32 },
                    handle,
                    release,
                    interactive: true,
                },
                ActionView::Call(RequestView::WriteConsoleA { handle, data: bytes }),
            )
        },
        step(
            StageView::Probe {
                op: Operation::WriteUtf16,
                data: PayloadView::Units(units),
                handle,
                release,
            },
            probe,
        ) == if units.len() > u32::MAX {
            finish(OutcomeView::Failure(ConsoleError::InvalidInput), handle, release)
        } else {
            (
                StageView::Call {
                    op: Operation::Written { requested: units.len() as u32 },
                    handle,
                    release,
                    interactive: true,
                },
                ActionView::Call(RequestView::WriteConsoleW { handle, data: units }),
            )
        },
        step(
            StageView::Call {
                op: Operation::Written { requested },
                handle,
                release,
                interactive: true,
            },
            reply,
        ) == finish(write_outcome(true, requested, reply), handle, release),
        write_outcome(true, requested, reply) is Success ==> write_outcome(
            true,
            requested,
            reply,
        ) == success(Value::Count(requested as usize)),
        reply.status != 0 && reply.output == OutputView::Plain(Output::Number(written)) && written
            != requested ==> write_outcome(true, requested, reply) == OutcomeView::Violation(
            Violation::PartialConsoleWrite { requested, written },
        ),
{
}

/// A write of UTF-16 code units through an endpoint that holds its handle
/// makes two calls: the handle is asked whether it is a console, and the
/// text is written. A console is handed the code units as they are, and
/// anything but the whole of them written is a violation. A file or pipe
/// is handed the text in UTF-8 where the code units are well-formed, and
/// the count of bytes that it reports is the outcome; code units that are
/// not well-formed fail after the first call.
pub proof fn law_write_utf16(
    handle: isize,
    units: Seq<u16>,
    probe: ReplyView,
    reply: ReplyView,
    written: u32,
)
    requires
        0 < units.len() <= u32::MAX,
        reply.status != 0,
        reply.output == OutputView::Plain(Output::Number(written)),
    ensures
        probe.status != 0 ==> calls_of(
            begin(Source::Fixed { handle }, Operation::WriteUtf16, PayloadView::Units(units)),
            seq![probe, reply],
        ) == seq![
            RequestView::Plain(Request::GetConsoleMode { handle }),
            RequestView::WriteConsoleW { handle, data: units },
        ] && outcome_of(
            begin(Source::Fixed { handle }, Operation::WriteUtf16, PayloadView::Units(units)),
            seq![probe, reply],
        ) == Some(
            if written == units.len() {
                success(Value::Count(written as usize))
            } else {
                OutcomeView::Violation(
                    Violation::PartialConsoleWrite { requested: units.len() as u32, written },
                )
            },
        ),
        probe.status == 0 && valid_utf16(units) && encode_utf8(decode_utf16(units).unwrap()).len()
            <= u32::MAX && written <= encode_utf8(decode_utf16(units).unwrap()).len() ==> calls_of(
            begin(Source::Fixed { handle }, Operation::WriteUtf16, PayloadView::Units(units)),
            seq![probe, reply],
        ) == seq![
            RequestView::Plain(Request::GetConsoleMode { handle }),
            RequestView::WriteFile { handle, data: encode_utf8(decode_utf16(units).unwrap()) },
        ] && outcome_of(
            begin(Source::Fixed { handle }, Operation::WriteUtf16, PayloadView::Units(units)),
            seq![probe, reply],
        ) == Some(success(Value::Count(written as usize))),
        probe.status == 0 && !valid_utf16(units) ==> outcome_of(
            begin(Source::Fixed { handle }, Operation::WriteUtf16, PayloadView::Units(units)),
            seq![probe],
        ) == Some(OutcomeView::Failure(ConsoleError::InvalidInput)),
{
    let first = begin(Source::Fixed { handle }, Operation::WriteUtf16, PayloadView::Units(units));
    let replies = seq![probe, reply];
    assert(replies.drop_first() =~= seq![reply]);
    assert(seq![reply].drop_first() =~= Seq::<ReplyView>::empty());
    assert(seq![probe].drop_first() =~= Seq::<ReplyView>::empty());
    assert(clip(units) == units);
    reveal_with_fuel(calls_of, 4);
    reveal_with_fuel(outcome_of, 4);
    if probe.status != 0 {
        assert(calls_of(first, replies) =~= seq![
            RequestView::Plain(Request::GetConsoleMode { handle }),
            RequestView::WriteConsoleW { handle, data: units },
        ]);
    } else if valid_utf16(units) && encode_utf8(decode_utf16(units).unwrap()).len() <= u32::MAX {
        let bytes = encode_utf8(decode_utf16(units).unwrap());
        assert(clip(bytes) == bytes);
        assert(calls_of(first, replies) =~= seq![
            RequestView::Plain(Request::GetConsoleMode { handle }),
            RequestView::WriteFile { handle, data: bytes },
        ]);
    }
}

/// A read of text as code units through an endpoint that holds its handle
/// makes two calls: the handle is asked whether it is a console, and the
/// text is read. From a console the code units that were read are given up
/// to the first one that the wake mask of the control selects, which is
/// left out with all that follows it; from a file or pipe the bytes that
/// were read are given in UTF-16, and fail where they are not well-formed.
pub proof fn law_read_utf16(
    handle: isize,
    capacity: u32,
    control: RawReadControl,
    probe: ReplyView,
    reply: ReplyView,
)
    requires
        capacity > 0,
        reply.status != 0,
    ensures
        probe.status != 0 ==> calls_of(
            begin(
                Source::Fixed { handle },
                Operation::ReadText { capacity, control, form: TextForm::Utf16 },
                PayloadView::Nothing,
            ),
            seq![probe, reply],
        ) == seq![
            RequestView::Plain(Request::GetConsoleMode { handle }),
            RequestView::Plain(Request::ReadConsole { handle, capacity, control }),
        ],
        probe.status == 0 ==> calls_of(
            begin(
                Source::Fixed { handle },
                Operation::ReadText { capacity, control, form: TextForm::Utf16 },
                PayloadView::Nothing,
            ),
            seq![probe, reply],
        ) == seq![
            RequestView::Plain(Request::GetConsoleMode { handle }),
            RequestView::Plain(Request::ReadFile { handle, capacity }),
        ],
        probe.status != 0 ==> (reply.output matches OutputView::Units { units, count } ==> count
            <= units.len() ==> outcome_of(
            begin(
                Source::Fixed { handle },
                Operation::ReadText { capacity, control, form: TextForm::Utf16 },
                PayloadView::Nothing,
            ),
            seq![probe, reply],
        ) == Some(
            OutcomeView::Success(
                ValueView::Units(before_wake(units.take(count as int), control.ctrl_wakeup_mask)),
            ),
        )),
        probe.status == 0 ==> (reply.output matches OutputView::Bytes { bytes, count } ==> count
            <= bytes.len() ==> outcome_of(
            begin(
                Source::Fixed { handle },
                Operation::ReadText { capacity, control, form: TextForm::Utf16 },
                PayloadView::Nothing,
            ),
            seq![probe, reply],
        ) == Some(
            if valid_utf8(bytes.take(count as int)) {
                OutcomeView::Success(
                    ValueView::Units(encode_utf16(decode_utf8(bytes.take(count as int)))),
                )
            } else {
                OutcomeView::Failure(ConsoleError::InvalidData)
            },
        )),
{
    let first = begin(
        Source::Fixed { handle },
        Operation::ReadText { capacity, control, form: TextForm::Utf16 },
        PayloadView::Nothing,
    );
    let replies = seq![probe, reply];
    assert(replies.drop_first() =~= seq![reply]);
    assert(seq![reply].drop_first() =~= Seq::<ReplyView>::empty());
    reveal_with_fuel(calls_of, 4);
    reveal_with_fuel(outcome_of, 4);
    if probe.status != 0 {
        assert(calls_of(first, replies) =~= seq![
            RequestView::Plain(Request::GetConsoleMode { handle }),
            RequestView::Plain(Request::ReadConsole { handle, capacity, control }),
        ]);
    } else {
        assert(calls_of(first, replies) =~= seq![
            RequestView::Plain(Request::GetConsoleMode { handle }),
            RequestView::Plain(Request::ReadFile { handle, capacity }),
        ]);
    }
}

/// The text of a console read holds no code unit that the wake mask
/// selects, is the start of what was read, and ends just before the first
/// selected code unit where there is one.
pub proof fn law_text_ends_before_wake(units: Seq<u16>, mask: u32)
    ensures
        before_wake(units, mask).len() <= units.len(),
        before_wake(units, mask) == units.take(before_wake(units, mask).len() as int),
        forall|i: int|
            0 <= i < before_wake(units, mask).len() ==> !is_wake(
                #[trigger] before_wake(units, mask)[i],
                mask,
            ),
        before_wake(units, mask).len() < units.len() ==> is_wake(
            units[before_wake(units, mask).len() as int],
            mask,
        ),
{
    lemma_wake_index_is_first(units, mask);
    let cut = wake_index(units, mask);
    assert forall|i: int| 0 <= i < before_wake(units, mask).len() implies !is_wake(
        #[trigger] before_wake(units, mask)[i],
        mask,
    ) by {
        assert(before_wake(units, mask)[i] == units[i]);
    }
}

/// A read of input events through an endpoint that holds its handle asks
/// the handle whether it is a console, and reads from a console alone.
/// What is given are the events of the records that the call reported, in
/// their order, and a read that reports none is a violation.
pub proof fn law_read_input(
    handle: isize,
    capacity: u32,
    probe: ReplyView,
    reply: ReplyView,
    records: Seq<RawInputRecord>,
    count: u32,
)
    requires
        capacity > 0,
        reply.status != 0,
        reply.output == (OutputView::Records { records, count }),
        count <= records.len(),
    ensures
        probe.status == 0 ==> calls_of(
            begin(
                Source::Fixed { handle },
                Operation::ReadInput { capacity, form: EventForm::Many },
                PayloadView::Nothing,
            ),
            seq![probe],
        ) == seq![RequestView::Plain(Request::GetConsoleMode { handle })] && outcome_of(
            begin(
                Source::Fixed { handle },
                Operation::ReadInput { capacity, form: EventForm::Many },
                PayloadView::Nothing,
            ),
            seq![probe],
        ) == Some(OutcomeView::Failure(ConsoleError::InvalidHandle)),
        probe.status != 0 ==> calls_of(
            begin(
                Source::Fixed { handle },
                Operation::ReadInput { capacity, form: EventForm::Many },
                PayloadView::Nothing,
            ),
            seq![probe, reply],
        ) == seq![
            RequestView::Plain(Request::GetConsoleMode { handle }),
            RequestView::Plain(Request::ReadConsoleInput { handle, capacity }),
        ] && outcome_of(
            begin(
                Source::Fixed { handle },
                Operation::ReadInput { capacity, form: EventForm::Many },
                PayloadView::Nothing,
            ),
            seq![probe, reply],
        ) == Some(
            if count == 0 {
                OutcomeView::Violation(Violation::NoEvent)
            } else {
                match events_of(records.take(count as int)) {
                    Some(events) => OutcomeView::Success(ValueView::Records(events)),
                    None => OutcomeView::Violation(Violation::Unreadable),
                }
            },
        ),
{
    let first = begin(
        Source::Fixed { handle },
        Operation::ReadInput { capacity, form: EventForm::Many },
        PayloadView::Nothing,
    );
    let replies = seq![probe, reply];
    assert(replies.drop_first() =~= seq![reply]);
    assert(seq![reply].drop_first() =~= Seq::<ReplyView>::empty());
    assert(seq![probe].drop_first() =~= Seq::<ReplyView>::empty());
    reveal_with_fuel(calls_of, 4);
    reveal_with_fuel(outcome_of, 4);
    if probe.status != 0 {
        assert(calls_of(first, replies) =~= seq![
            RequestView::Plain(Request::GetConsoleMode { handle }),
            RequestView::Plain(Request::ReadConsoleInput { handle, capacity }),
        ]);
    } else {
        assert(calls_of(first, seq![probe]) =~= seq![
            RequestView::Plain(Request::GetConsoleMode { handle }),
        ]);
    }
}

/// An operation through the console's own file makes its calls between
/// the opening of the file and the closing of the handle that the opening
/// gave: a write to the console makes four calls, of which the last closes
/// what the first opened, and the outcome of the write is given after
/// that.
pub proof fn law_device_write(
    device: Direction,
    opened: isize,
    bytes: Seq<u8>,
    open: ReplyView,
    probe: ReplyView,
    reply: ReplyView,
    close: ReplyView,
)
    requires
        0 < bytes.len() <= u32::MAX,
        opened != -1,
        open.output == OutputView::Plain(Output::Handle(opened)),
        probe.status != 0,
        close.status != 0,
    ensures
        calls_of(
            begin(Source::Device { device }, Operation::WriteUtf8, PayloadView::Bytes(bytes)),
            seq![open, probe, reply, close],
        ) == seq![
            RequestView::Plain(
                Request::OpenDevice { device, desired_access: 0xC000_0000, share_mode: 3 },
            ),
            RequestView::Plain(Request::GetConsoleMode { handle: opened }),
            RequestView::WriteConsoleA { handle: opened, data: bytes },
            RequestView::Plain(Request::CloseHandle { handle: opened }),
        ],
        outcome_of(
            begin(Source::Device { device }, Operation::WriteUtf8, PayloadView::Bytes(bytes)),
            seq![open, probe, reply, close],
        ) == Some(write_outcome(true, bytes.len() as u32, reply)),
{
    let first = begin(Source::Device { device }, Operation::WriteUtf8, PayloadView::Bytes(bytes));
    let replies = seq![open, probe, reply, close];
    assert(replies.drop_first() =~= seq![probe, reply, close]);
    assert(seq![probe, reply, close].drop_first() =~= seq![reply, close]);
    assert(seq![reply, close].drop_first() =~= seq![close]);
    assert(seq![close].drop_first() =~= Seq::<ReplyView>::empty());
    assert(clip(bytes) == bytes);
    reveal_with_fuel(calls_of, 6);
    reveal_with_fuel(outcome_of, 6);
    assert(calls_of(first, replies) =~= seq![
        RequestView::Plain(
            Request::OpenDevice { device, desired_access: 0xC000_0000, share_mode: 3 },
        ),
        RequestView::Plain(Request::GetConsoleMode { handle: opened }),
        RequestView::WriteConsoleA { handle: opened, data: bytes },
        RequestView::Plain(Request::CloseHandle { handle: opened }),
    ]);
}

/// An operation that goes the same way on every handle makes one call
/// through an endpoint that holds its handle, unless the reply to that call
/// asks for another: the call is the one that the operation names for the
/// handle, and the outcome is what follows from the reply.
pub proof fn law_plain_operation(handle: isize, op: Operation, reply: ReplyView)
    requires
        on_endpoint(op),
        !needs_probe(op),
        op != Operation::GetHandle,
        shortcut(op, PayloadView::Nothing).is_none(),
        plain_request(op, handle).is_some(),
        interpret(op, false, reply) is Done,
    ensures
        calls_of(begin(Source::Fixed { handle }, op, PayloadView::Nothing), seq![reply]) == seq![
            RequestView::Plain(plain_request(op, handle).unwrap()),
        ],
        outcome_of(begin(Source::Fixed { handle }, op, PayloadView::Nothing), seq![reply]) == Some(
            interpret(op, false, reply)->Done_0,
        ),
{
    let first = begin(Source::Fixed { handle }, op, PayloadView::Nothing);
    assert(seq![reply].drop_first() =~= Seq::<ReplyView>::empty());
    reveal_with_fuel(calls_of, 3);
    reveal_with_fuel(outcome_of, 3);
    assert(calls_of(first, seq![reply]) =~= seq![
        RequestView::Plain(plain_request(op, handle).unwrap()),
    ]);
}

/// Whether a stage is one that an exchange comes to: the handle of an
/// endpoint is obtained for an operation on an endpoint alone, and a handle
/// is asked whether it is a console for a read or a write alone.
pub open spec fn reachable(stage: StageView) -> bool {
    match stage {
        StageView::Resolve { op, .. } => on_endpoint(op),
        StageView::Probe { op, .. } => needs_probe(op),
        StageView::Call { op, .. } => !(op is Close),
        _ => true,
    }
}

/// Whether the action is the call that closes `handle`.
pub open spec fn is_close_of(action: ActionView, handle: isize) -> bool {
    action == ActionView::Call(RequestView::Plain(Request::CloseHandle { handle }))
}

/// An exchange closes no handle but one that it was asked to close or
/// that it opened itself.
///
/// An exchange starts with the closing of a handle only where the
/// operation is the closing of that handle, which is owned. After its
/// start it closes a handle only where it owes the closing, or where the
/// handle was just opened for it: the handle that an endpoint holds and
/// the standard handle of a role are never closed by an operation on the
/// endpoint.
pub proof fn law_nothing_else_is_closed(
    source: Source,
    op: Operation,
    data: PayloadView,
    stage: StageView,
    reply: ReplyView,
    handle: isize,
)
    ensures
        reachable(begin(source, op, data).0) || op is Close,
        is_close_of(begin(source, op, data).1, handle) ==> op == (Operation::Close {
            handle,
            owned: true,
        }),
        reachable(stage) ==> reachable(step(stage, reply).0),
        reachable(stage) && is_close_of(step(stage, reply).1, handle) ==> owed(stage) == Some(
            handle,
        ) || (opens(stage) && reply.output == OutputView::Plain(Output::Handle(handle))),
{
}

/// The most calls that the operation still makes once its handle is
/// known, and known to be a console or not. The list of processes is asked
/// for again with more room each time, up to the most room that there is.
pub open spec fn calls_left(op: Operation) -> nat {
    match op {
        Operation::Clear => 4,
        Operation::ClearCharacters { .. } => 3,
        Operation::ClearAttributes { .. } => 2,
        Operation::SetForegroundColor { .. } | Operation::SetBackgroundColor { .. } => 2,
        Operation::GetProcessList { capacity } => (u32::MAX - capacity + 1) as nat,
        _ => 1,
    }
}

/// The most calls that an exchange at a stage still waits for.
pub open spec fn replies_left(stage: StageView) -> nat {
    match stage {
        StageView::Resolve { op, .. } => calls_left(op) + 3,
        StageView::Probe { op, .. } => calls_left(op) + 2,
        StageView::Call { op, .. } => calls_left(op) + 1,
        StageView::Release { .. } => 1,
        StageView::Finished => 0,
    }
}

/// Every exchange comes to its end: each reply brings it nearer. The list
/// of processes is asked for again only with more room than before, and
/// room has a limit; any other operation takes seven calls at most. An
/// exchange that asks for a call waits for its reply, and one that gives
/// its outcome waits for nothing.
pub proof fn law_exchange_ends(
    source: Source,
    op: Operation,
    data: PayloadView,
    stage: StageView,
    reply: ReplyView,
)
    ensures
        !(op is GetProcessList) ==> replies_left(begin(source, op, data).0) <= 7,
        begin(source, op, data).1 is Call <==> replies_left(begin(source, op, data).0) > 0,
        stage != StageView::Finished ==> replies_left(step(stage, reply).0) < replies_left(stage),
        step(stage, reply).1 is Call <==> replies_left(step(stage, reply).0) > 0,
{
}

/// An event that has a native record is the event that its native record
/// stands for.
pub proof fn law_record_round_trip(record: InputRecord)
    requires
        record.fits_raw(),
    ensures
        InputRecord::of_raw(record.raw()) == Some(record),
{
    match record {
        InputRecord::KeyEvent(event) => {
            let code = event.u_char as u32;
            vstd::utf8::char_is_scalar(event.u_char);
            vstd::utf8::char_u32_cast(event.u_char, code);
            assert(code as u16 as u32 == code);
        },
        InputRecord::MouseEvent(event) => {
            let bits: i32 = event.button_state.0;
            assert(bits as u32 as i32 == bits) by (bit_vector);
        },
        _ => {},
    }
}

/// Each color is the color of its number, and each number up to 15 is the
/// number of its color.
pub proof fn law_color_numbers(color: ConsoleColor, value: u16)
    ensures
        color.number() <= 15,
        ConsoleColor::with_number(color.number()) == color,
        value <= 15 ==> ConsoleColor::with_number(value).number() == value,
{
}

/// A color that is set is the color that is read, and setting one color
/// leaves the other and the rest of the text attributes as they are.
///
/// For the text: the attributes that `set_foreground_color` writes give
/// the color back as the color of the text, and give the background and
/// all bits above the low byte as before. For the background: the
/// attributes that `set_background_color` writes give the color back as
/// the color of the background, and give the color of the text and all
/// bits above the low byte as before.
pub proof fn law_color_is_read_as_it_was_set(color: ConsoleColor, attributes: u16)
    ensures
        ConsoleColor::foreground_of(color.on_foreground(attributes)) == color,
        ConsoleColor::background_of(color.on_foreground(attributes))
            == ConsoleColor::background_of(attributes),
        color.on_foreground(attributes) & 0xFF00 == attributes & 0xFF00,
        ConsoleColor::background_of(color.on_background(attributes)) == color,
        ConsoleColor::foreground_of(color.on_background(attributes))
            == ConsoleColor::foreground_of(attributes),
        color.on_background(attributes) & 0xFF00 == attributes & 0xFF00,
        ConsoleColor::foreground_of(attributes).on_foreground(attributes) == attributes,
        ConsoleColor::background_of(attributes).on_background(attributes) == attributes,
{
    let n: u16 = color.number();
    let a: u16 = attributes;
    let wide: u16 = (n * 16) as u16;
    assert(((a & !(a & 0xF)) | n) & 0xF == n) by (bit_vector)
        requires
            n <= 15,
    ;
    assert((((a & !(a & 0xF)) | n) >> 4) & 0xF == (a >> 4) & 0xF) by (bit_vector)
        requires
            n <= 15,
    ;
    assert(((a & !(a & 0xF)) | n) & 0xFF00 == a & 0xFF00) by (bit_vector)
        requires
            n <= 15,
    ;
    assert((((a & !(a & 0xF0)) | wide) >> 4) & 0xF == n) by (bit_vector)
        requires
            n <= 15,
            wide == n * 16,
    ;
    assert(((a & !(a & 0xF0)) | wide) & 0xF == a & 0xF) by (bit_vector)
        requires
            n <= 15,
            wide == n * 16,
    ;
    assert(((a & !(a & 0xF0)) | wide) & 0xFF00 == a & 0xFF00) by (bit_vector)
        requires
            n <= 15,
            wide == n * 16,
    ;
    law_color_numbers(color, 0);
    let low: u16 = a & 0xF;
    let high: u16 = (a >> 4) & 0xF;
    assert(low <= 15 && (a & !(a & 0xF)) | low == a) by (bit_vector)
        requires
            low == a & 0xF,
    ;
    assert(high <= 15 && (a & !(a & 0xF0)) | ((high * 16) as u16) == a) by (bit_vector)
        requires
            high == (a >> 4) & 0xF,
    ;
    law_color_numbers(color, low);
    law_color_numbers(color, high);
}

/// The colors through an endpoint: what follows from the reply with the
/// screen buffer information.
///
/// A read of a color ends with the color that the text attributes give. A
/// setting of a color goes on with the writing of the text attributes with
/// that color in them; and once these are the text attributes of the
/// screen buffer, a read of that color ends with the color that was set.
pub proof fn law_color_operations(
    color: ConsoleColor,
    info: ConsoleScreenBufferInfo,
    reply: ReplyView,
    interactive: bool,
)
    requires
        reply.status != 0,
        reply.output == OutputView::Plain(Output::ScreenBuffer(info)),
    ensures
        interpret(Operation::GetForegroundColor, interactive, reply) == Next::Done(
            success(Value::Color(ConsoleColor::foreground_of(info.attributes))),
        ),
        interpret(Operation::GetBackgroundColor, interactive, reply) == Next::Done(
            success(Value::Color(ConsoleColor::background_of(info.attributes))),
        ),
        interpret(Operation::SetForegroundColor { color }, interactive, reply) == Next::Continue(
            Operation::SetTextAttribute { attribute: color.on_foreground(info.attributes) },
        ),
        interpret(Operation::SetBackgroundColor { color }, interactive, reply) == Next::Continue(
            Operation::SetTextAttribute { attribute: color.on_background(info.attributes) },
        ),
        interpret(
            Operation::GetForegroundColor,
            interactive,
            ReplyView {
                output: OutputView::Plain(
                    Output::ScreenBuffer(
                        ConsoleScreenBufferInfo {
                            attributes: color.on_foreground(info.attributes),
                            ..info
                        },
                    ),
                ),
                ..reply
            },
        ) == Next::Done(success(Value::Color(color))),
        interpret(
            Operation::GetBackgroundColor,
            interactive,
            ReplyView {
                output: OutputView::Plain(
                    Output::ScreenBuffer(
                        ConsoleScreenBufferInfo {
                            attributes: color.on_background(info.attributes),
                            ..info
                        },
                    ),
                ),
                ..reply
            },
        ) == Next::Done(success(Value::Color(color))),
{
    law_color_is_read_as_it_was_set(color, info.attributes);
}

/// The outcome of a write that succeeded with the count `written` of
/// `requested` items, which is no more than they are.
pub open spec fn short_write_outcome(
    interactive: bool,
    requested: u32,
    written: u32,
) -> OutcomeView {
    if interactive && written != requested {
        OutcomeView::Violation(Violation::PartialConsoleWrite { requested, written })
    } else {
        success(Value::Count(written as usize))
    }
}

/// A short write, whatever the endpoint is: on a console it is a
/// violation, on a file or pipe it is the outcome.
///
/// The write of bytes that are no more than one call can take goes the
/// same way through an endpoint that holds its handle, through the
/// endpoint of a role and through the console's own file: after the handle
/// is obtained and has answered whether it is a console, the bytes are
/// written, and a handle that was opened for the write is closed. Where
/// the write succeeded with the count `written`, the outcome on a console
/// is the count where it is the count of all the bytes, and else the
/// violation `PartialConsoleWrite`; on a file or pipe it is the count,
/// however few bytes it counts.
pub proof fn law_short_write(
    bytes: Seq<u8>,
    role: HandleType,
    device: Direction,
    handle: isize,
    resolved: ReplyView,
    probe: ReplyView,
    reply: ReplyView,
    close: ReplyView,
    written: u32,
)
    requires
        0 < bytes.len() <= u32::MAX,
        handle != -1,
        resolved.output == OutputView::Plain(Output::Handle(handle)),
        reply.status != 0,
        reply.output == OutputView::Plain(Output::Number(written)),
        close.status != 0,
        written <= bytes.len(),
    ensures
        outcome_of(
            begin(Source::Fixed { handle }, Operation::WriteUtf8, PayloadView::Bytes(bytes)),
            seq![probe, reply],
        ) == Some(short_write_outcome(probe.status != 0, bytes.len() as u32, written)),
        outcome_of(
            begin(Source::Role { role }, Operation::WriteUtf8, PayloadView::Bytes(bytes)),
            seq![resolved, probe, reply],
        ) == Some(short_write_outcome(probe.status != 0, bytes.len() as u32, written)),
        outcome_of(
            begin(Source::Device { device }, Operation::WriteUtf8, PayloadView::Bytes(bytes)),
            seq![resolved, probe, reply, close],
        ) == Some(short_write_outcome(probe.status != 0, bytes.len() as u32, written)),
{
    assert(clip(bytes) == bytes);
    assert(seq![probe, reply].drop_first() =~= seq![reply]);
    assert(seq![reply].drop_first() =~= Seq::<ReplyView>::empty());
    assert(seq![resolved, probe, reply].drop_first() =~= seq![probe, reply]);
    assert(seq![resolved, probe, reply, close].drop_first() =~= seq![probe, reply, close]);
    assert(seq![probe, reply, close].drop_first() =~= seq![reply, close]);
    assert(seq![reply, close].drop_first() =~= seq![close]);
    assert(seq![close].drop_first() =~= Seq::<ReplyView>::empty());
    reveal_with_fuel(outcome_of, 6);
}

/// The native forms of the structures that hold a flag keep what the
/// structures hold: a structure that is written in its native form and
/// read back is the same structure.
pub proof fn law_native_forms_round_trip(
    history: ConsoleHistoryInfo,
    cursor: ConsoleCursorInfo,
    screen: ConsoleScreenBufferInfoEx,
    focus: FocusEventRecord,
    menu: MenuEventRecord,
    window: WindowBufferSizeRecord,
)
    ensures
        <ConsoleHistoryInfo as FromSpec<RawHistoryInfo>>::from_spec(
            <RawHistoryInfo as FromSpec<ConsoleHistoryInfo>>::from_spec(history),
        ) == history,
        <ConsoleCursorInfo as FromSpec<RawCursorInfo>>::from_spec(
            <RawCursorInfo as FromSpec<ConsoleCursorInfo>>::from_spec(cursor),
        ) == cursor,
        <ConsoleScreenBufferInfoEx as FromSpec<RawScreenBufferInfoEx>>::from_spec(
            <RawScreenBufferInfoEx as FromSpec<ConsoleScreenBufferInfoEx>>::from_spec(screen),
        ) == screen,
        <FocusEventRecord as FromSpec<RawFocusEvent>>::from_spec(
            <RawFocusEvent as FromSpec<FocusEventRecord>>::from_spec(focus),
        ) == focus,
        <MenuEventRecord as FromSpec<RawMenuEvent>>::from_spec(
            <RawMenuEvent as FromSpec<MenuEventRecord>>::from_spec(menu),
        ) == menu,
        <WindowBufferSizeRecord as FromSpec<RawWindowBufferSize>>::from_spec(
            <RawWindowBufferSize as FromSpec<WindowBufferSizeRecord>>::from_spec(window),
        ) == window,
{
}

/// The list of processes: a call that reports more processes than it had
/// room for is followed by a call with room for as many as it reported, and
/// a call that had room is followed by the outcome, which is the
/// identifiers that it reported and no others. The title: the text of the
/// code units up to the length that the call reported.
pub proof fn law_lists_end_at_their_count(
    capacity: u32,
    ids: Seq<u32>,
    units: Seq<u16>,
    count: u32,
    reply: ReplyView,
    title: ReplyView,
    interactive: bool,
)
    requires
        count > 0,
        reply.output == (OutputView::Processes { ids, count }),
        title.output == (OutputView::Units { units, count }),
        count <= units.len(),
    ensures
        count > capacity ==> interpret(Operation::GetProcessList { capacity }, interactive, reply)
            == Next::Continue(Operation::GetProcessList { capacity: count }),
        count <= capacity && count <= ids.len() ==> interpret(
            Operation::GetProcessList { capacity },
            interactive,
            reply,
        ) == Next::Done(OutcomeView::Success(ValueView::Processes(ids.take(count as int)))),
        interpret(Operation::GetTitle, interactive, title) == Next::Done(
            if valid_utf16(units.take(count as int)) {
                OutcomeView::Success(
                    ValueView::Text(decode_utf16(units.take(count as int)).unwrap()),
                )
            } else {
                OutcomeView::Failure(ConsoleError::InvalidData)
            },
        ),
{
}

} // verus!
