//! What holds of the controller in every state and over every run of messages.

use crate::app::{Command, Message, State};
use crate::memory::MemorySnapshot;
use crate::popup::{PopupRequest, PopupState, WindowHandle};
use vstd::prelude::*;

verus! {

/// A timer tick whose reading gives the snapshot that is held already, or gives none, leaves the
/// whole state as it is, and with it the label. A second tick with the same reading as the
/// first changes nothing any more.
pub proof fn lemma_refresh_is_idempotent(state: State, reading: Option<MemorySnapshot>)
    ensures
        reading == Some(state.memory) || reading is None ==> {
            &&& state.next(Message::UpdateMemory, reading) == state
            &&& state.next(Message::UpdateMemory, reading).label() == state.label()
        },
        state.next(Message::UpdateMemory, reading).next(Message::UpdateMemory, reading)
            == state.next(Message::UpdateMemory, reading),
        state.command(Message::UpdateMemory) == Command::Nothing,
{
}

/// With no popup open and a handle left, a press of the button asks for one popup, anchored to
/// the panel, under the fresh handle, and tracks it; a second press asks to destroy that popup
/// and leaves none open. Snapshot and settings stay as they are throughout.
pub proof fn lemma_toggle_opens_then_closes(state: State)
    requires
        state.popup is Closed,
        !state.exhausted(),
    ensures
        state.command(Message::TogglePopup) == Command::OpenPopup(
            PopupRequest::spec_anchored(state.fresh_handle()),
        ),
        state.toggled().popup == PopupState::Open(state.fresh_handle()),
        state.toggled().command(Message::TogglePopup) == Command::ClosePopup(
            state.fresh_handle(),
        ),
        state.toggled().toggled().popup is Closed,
        state.toggled().toggled().memory == state.memory,
        state.toggled().toggled().config == state.config,
{
}

/// Whatever handle the open popup has, a press of the button asks to destroy that popup and
/// leaves none open.
pub proof fn lemma_toggle_closes_open_popup(state: State, handle: WindowHandle)
    requires
        state.popup == PopupState::Open(handle),
    ensures
        state.command(Message::TogglePopup) == Command::ClosePopup(handle),
        state.toggled() == (State { popup: PopupState::Closed, ..state }),
{
}

/// A report that a surface was closed whose handle is not the one tracked changes nothing and
/// asks for nothing; a report for the tracked handle closes the popup and changes nothing else.
pub proof fn lemma_close_report(state: State, id: WindowHandle, reading: Option<MemorySnapshot>)
    ensures
        state.command(Message::PopupClosed(id)) == Command::Nothing,
        state.popup != PopupState::Open(id) ==> state.next(Message::PopupClosed(id), reading)
            == state,
        state.popup == PopupState::Open(id) ==> state.next(Message::PopupClosed(id), reading)
            == (State { popup: PopupState::Closed, ..state }),
{
}

/// The handle under which a popup is opened was never handed out before, is handed out from
/// then on, and is not the handle of the panel surface.
pub proof fn lemma_opened_handle_is_fresh(state: State)
    requires
        state.popup is Closed,
        !state.exhausted(),
    ensures
        !state.has_issued(state.fresh_handle()),
        state.toggled().has_issued(state.fresh_handle()),
        state.fresh_handle() != WindowHandle::spec_main(),
{
}

/// A popup is created exactly when the controller begins to track one, and destroyed exactly
/// when a press of the button ends the tracking. The request to create one names the handle
/// that is tracked from then on, and the request to destroy one names the handle that was
/// tracked until then.
pub proof fn lemma_commands_follow_the_popup(
    state: State,
    message: Message,
    reading: Option<MemorySnapshot>,
)
    requires
        state.wf(),
    ensures
        state.command(message) is OpenPopup <==> state.popup is Closed && state.next(
            message,
            reading,
        ).popup is Open,
        state.command(message) matches Command::OpenPopup(request) ==> {
            &&& request == PopupRequest::spec_anchored(request.id)
            &&& state.next(message, reading).popup == PopupState::Open(request.id)
        },
        state.command(message) is ClosePopup <==> message is TogglePopup && state.popup is Open,
        state.command(message) matches Command::ClosePopup(handle) ==> {
            &&& state.popup == PopupState::Open(handle)
            &&& state.next(message, reading).popup is Closed
        },
{
}

/// No message breaks the state: the open popup's handle stays one that was handed out, a handle
/// once handed out stays so, the settings never change, and only a timer tick touches the
/// snapshot.
pub proof fn lemma_next_keeps_order(
    state: State,
    message: Message,
    reading: Option<MemorySnapshot>,
)
    requires
        state.wf(),
    ensures
        state.next(message, reading).wf(),
        state.next(message, reading).config == state.config,
        state.issued <= state.next(message, reading).issued,
        forall|handle: WindowHandle|
            state.has_issued(handle) ==> #[trigger] state.next(message, reading).has_issued(
                handle,
            ),
        message !is UpdateMemory ==> state.next(message, reading).memory == state.memory,
        message is UpdateMemory ==> state.next(message, reading).popup == state.popup,
{
}

/// A run of messages keeps the state in order, as each single message does.
pub proof fn lemma_after_keeps_order(
    state: State,
    events: Seq<(Message, Option<MemorySnapshot>)>,
)
    requires
        state.wf(),
    ensures
        state.after(events).wf(),
        state.after(events).config == state.config,
        state.issued <= state.after(events).issued,
    decreases events.len(),
{
    if events.len() > 0 {
        lemma_after_keeps_order(state, events.drop_last());
        lemma_next_keeps_order(
            state.after(events.drop_last()),
            events.last().0,
            events.last().1,
        );
    }
}

/// A handle is used for one popup only. Take any run of messages from a state in order. If the
/// popup was open under `handle` after the first `opened` of them, and was not open under it
/// after the first `gone` of them, then it is never open under `handle` again.
pub proof fn lemma_handle_is_never_reused(
    start: State,
    events: Seq<(Message, Option<MemorySnapshot>)>,
    handle: WindowHandle,
    opened: int,
    gone: int,
    later: int,
)
    requires
        start.wf(),
        0 <= opened <= gone <= later <= events.len(),
        start.after(events.take(opened)).popup == PopupState::Open(handle),
        start.after(events.take(gone)).popup != PopupState::Open(handle),
    ensures
        start.after(events.take(later)).popup != PopupState::Open(handle),
{
    lemma_after_keeps_order(start, events.take(opened));
    lemma_issued_handle_stays_issued(start, events, handle, opened, gone);
    lemma_retired_handle_stays_retired(start, events, handle, gone, later);
}

/// A handle that was handed out after the first `from` messages of a run is still handed out
/// after the first `to` of them.
proof fn lemma_issued_handle_stays_issued(
    start: State,
    events: Seq<(Message, Option<MemorySnapshot>)>,
    handle: WindowHandle,
    from: int,
    to: int,
)
    requires
        start.wf(),
        0 <= from <= to <= events.len(),
        start.after(events.take(from)).has_issued(handle),
    ensures
        start.after(events.take(to)).has_issued(handle),
    decreases to - from,
{
    if from < to {
        lemma_issued_handle_stays_issued(start, events, handle, from, to - 1);
        lemma_after_keeps_order(start, events.take(to - 1));
        assert(events.take(to).drop_last() == events.take(to - 1));
        lemma_next_keeps_order(
            start.after(events.take(to - 1)),
            events.take(to).last().0,
            events.take(to).last().1,
        );
    }
}

/// A handle that was handed out and under which no popup is open after the first `from`
/// messages of a run has no popup open under it after the first `to` of them either.
proof fn lemma_retired_handle_stays_retired(
    start: State,
    events: Seq<(Message, Option<MemorySnapshot>)>,
    handle: WindowHandle,
    from: int,
    to: int,
)
    requires
        start.wf(),
        0 <= from <= to <= events.len(),
        start.after(events.take(from)).has_issued(handle),
        start.after(events.take(from)).popup != PopupState::Open(handle),
    ensures
        start.after(events.take(to)).has_issued(handle),
        start.after(events.take(to)).popup != PopupState::Open(handle),
    decreases to - from,
{
    if from < to {
        lemma_retired_handle_stays_retired(start, events, handle, from, to - 1);
        assert(events.take(to).drop_last() == events.take(to - 1));
    }
}

} // verus!
