//! The update streamer: from the response to the download request to the
//! restart into the new image.
//!
//! The streamer decides; its caller acts. The caller performs each action
//! on the network or the flash slot and reports what came of it as the next
//! event. The slot is opened only after the server has answered with
//! success, it is marked as the boot slot only after it has been finalized,
//! and the device restarts only after the slot has been marked.

use vstd::prelude::*;
use crate::http_status::{is_success, status_ok};

verus! {

/// The most bytes that one read of the image returns.
pub const CHUNK_CAPACITY: usize = 256;

/// Why an update was abandoned. The running firmware stays in charge.
#[derive(Clone, Copy, Debug, PartialEq, Eq, Structural)]
pub enum UpdateError {
    /// The request could not be made.
    Transport,
    /// The server answered with a status outside 200 to 299.
    Status(u16),
    /// No flash slot could be opened.
    SlotRefused,
    /// The image could not be read to its end.
    ReadFailed,
    /// A read reported more bytes than a chunk holds.
    Overrun,
    /// A chunk could not be appended to the slot.
    WriteFailed,
    /// The platform refused the image when the slot was finalized.
    FinalizeRefused,
    /// The slot could not be marked as the boot slot.
    MarkRefused,
    /// An event arrived that answers no action the streamer had asked for.
    OutOfOrder,
}

/// How far an update has come.
#[derive(Clone, Copy, Debug, PartialEq, Eq, Structural)]
pub enum StreamState {
    /// The download has been requested and the response is awaited.
    Requesting,
    /// The server has answered with success and a flash slot is being opened.
    OpeningSlot,
    /// The slot is open and the next chunk of the image is being read.
    Reading,
    /// A chunk has been read and is being appended to the slot.
    Writing,
    /// The image has ended and the slot is being finalized.
    Finalizing,
    /// The image has been accepted and the slot is being marked for boot.
    Marking,
    /// The slot is marked and the device is restarting into it.
    Restarting,
    /// The update has been abandoned.
    Failed(UpdateError),
}

/// What the caller reports back.
#[derive(Clone, Copy, Debug, PartialEq, Eq, Structural)]
pub enum StreamEvent {
    /// The server has answered with this status.
    Response(u16),
    /// The request could not be made.
    RequestFailed,
    /// A fresh flash slot is open.
    SlotOpened,
    /// No flash slot could be opened.
    SlotRefused,
    /// A read has returned this many bytes; none marks the end of the image.
    Chunk(usize),
    /// A read has failed.
    ReadFailed,
    /// The chunk has been appended to the slot.
    ChunkWritten,
    /// The chunk could not be appended.
    WriteFailed,
    /// The platform has accepted the image.
    Finalized,
    /// The platform has refused the image.
    FinalizeRefused,
    /// The slot is marked as the boot slot.
    Marked,
    /// The slot could not be marked.
    MarkRefused,
}

/// What the caller is to do next.
#[derive(Clone, Copy, Debug, PartialEq, Eq, Structural)]
pub enum StreamAction {
    /// Open a fresh inactive flash slot.
    OpenSlot,
    /// Read the next chunk of the image, of `CHUNK_CAPACITY` bytes at most.
    ReadChunk,
    /// Append the first bytes of the chunk just read, this many, to the slot.
    WriteChunk(usize),
    /// Finalize the slot.
    Finalize,
    /// Mark the slot as the one to boot next.
    MarkBootSlot,
    /// Restart the device.
    Restart,
    /// Give the update up with this error. Nothing is marked and the device
    /// does not restart.
    Abort(UpdateError),
}

/// The streamer and the action after an abandoned update.
pub open spec fn failed(error: UpdateError) -> (StreamState, StreamAction) {
    (StreamState::Failed(error), StreamAction::Abort(error))
}

/// The streamer and the action after one event.
pub open spec fn next(state: StreamState, event: StreamEvent) -> (StreamState, StreamAction) {
    match state {
        StreamState::Requesting => match event {
            StreamEvent::Response(status) => if is_success(status) {
                (StreamState::OpeningSlot, StreamAction::OpenSlot)
            } else {
                failed(UpdateError::Status(status))
            },
            StreamEvent::RequestFailed => failed(UpdateError::Transport),
            _ => failed(UpdateError::OutOfOrder),
        },
        StreamState::OpeningSlot => match event {
            StreamEvent::SlotOpened => (StreamState::Reading, StreamAction::ReadChunk),
            StreamEvent::SlotRefused => failed(UpdateError::SlotRefused),
            _ => failed(UpdateError::OutOfOrder),
        },
        StreamState::Reading => match event {
            StreamEvent::Chunk(len) => if len == 0 {
                (StreamState::Finalizing, StreamAction::Finalize)
            } else if len <= CHUNK_CAPACITY {
                (StreamState::Writing, StreamAction::WriteChunk(len))
            } else {
                failed(UpdateError::Overrun)
            },
            StreamEvent::ReadFailed => failed(UpdateError::ReadFailed),
            _ => failed(UpdateError::OutOfOrder),
        },
        StreamState::Writing => match event {
            StreamEvent::ChunkWritten => (StreamState::Reading, StreamAction::ReadChunk),
            StreamEvent::WriteFailed => failed(UpdateError::WriteFailed),
            _ => failed(UpdateError::OutOfOrder),
        },
        StreamState::Finalizing => match event {
            StreamEvent::Finalized => (StreamState::Marking, StreamAction::MarkBootSlot),
            StreamEvent::FinalizeRefused => failed(UpdateError::FinalizeRefused),
            _ => failed(UpdateError::OutOfOrder),
        },
        StreamState::Marking => match event {
            StreamEvent::Marked => (StreamState::Restarting, StreamAction::Restart),
            StreamEvent::MarkRefused => failed(UpdateError::MarkRefused),
            _ => failed(UpdateError::OutOfOrder),
        },
        StreamState::Restarting => (StreamState::Restarting, StreamAction::Restart),
        StreamState::Failed(error) => failed(error),
    }
}

/// The streamer after a run of events.
pub open spec fn run_state(state: StreamState, events: Seq<StreamEvent>) -> StreamState
    decreases events.len(),
{
    if events.len() == 0 {
        state
    } else {
        next(run_state(state, events.drop_last()), events.last()).0
    }
}

/// The actions that a run of events is answered with, one for each event.
pub open spec fn run_actions(state: StreamState, events: Seq<StreamEvent>) -> Seq<StreamAction>
    decreases events.len(),
{
    if events.len() == 0 {
        Seq::empty()
    } else {
        run_actions(state, events.drop_last()).push(
            next(run_state(state, events.drop_last()), events.last()).1,
        )
    }
}

/// Whether nothing is read from the image or appended to the slot any more
/// in `state`: the image has ended, or the update is abandoned.
pub open spec fn past_the_image(state: StreamState) -> bool {
    state == StreamState::Finalizing || state == StreamState::Marking || state
        == StreamState::Restarting || state is Failed
}

/// The update streamer.
#[derive(Clone, Copy, Debug)]
pub struct UpdateStreamer {
    state: StreamState,
}

impl View for UpdateStreamer {
    type V = StreamState;

    closed spec fn view(&self) -> StreamState {
        self.state
    }
}

impl UpdateStreamer {
    /// A streamer for an update whose download has just been requested.
    pub fn new() -> (streamer: UpdateStreamer)
        ensures
            streamer@ == StreamState::Requesting,
    {
        UpdateStreamer { state: StreamState::Requesting }
    }

    /// How far the update has come.
    pub fn state(&self) -> (state: StreamState)
        ensures
            state == self@,
    {
        self.state
    }

    /// The error of an abandoned update.
    pub fn error(&self) -> (error: Option<UpdateError>)
        ensures
            error == match self@ {
                StreamState::Failed(e) => Some(e),
                _ => None,
            },
    {
        match self.state {
            StreamState::Failed(e) => Some(e),
            _ => None,
        }
    }

    /// Takes what came of the last action and answers with the next one.
    pub fn step(&mut self, event: StreamEvent) -> (action: StreamAction)
        ensures
            (final(self)@, action) == next(old(self)@, event),
    {
        let (state, action) = match self.state {
            StreamState::Requesting => match event {
                StreamEvent::Response(status) => if status_ok(status) {
                    (StreamState::OpeningSlot, StreamAction::OpenSlot)
                } else {
                    abandon(UpdateError::Status(status))
                },
                StreamEvent::RequestFailed => abandon(UpdateError::Transport),
                _ => abandon(UpdateError::OutOfOrder),
            },
            StreamState::OpeningSlot => match event {
                StreamEvent::SlotOpened => (StreamState::Reading, StreamAction::ReadChunk),
                StreamEvent::SlotRefused => abandon(UpdateError::SlotRefused),
                _ => abandon(UpdateError::OutOfOrder),
            },
            StreamState::Reading => match event {
                StreamEvent::Chunk(len) => if len == 0 {
                    (StreamState::Finalizing, StreamAction::Finalize)
                } else if len <= CHUNK_CAPACITY {
                    (StreamState::Writing, StreamAction::WriteChunk(len))
                } else {
                    abandon(UpdateError::Overrun)
                },
                StreamEvent::ReadFailed => abandon(UpdateError::ReadFailed),
                _ => abandon(UpdateError::OutOfOrder),
            },
            StreamState::Writing => match event {
                StreamEvent::ChunkWritten => (StreamState::Reading, StreamAction::ReadChunk),
                StreamEvent::WriteFailed => abandon(UpdateError::WriteFailed),
                _ => abandon(UpdateError::OutOfOrder),
            },
            StreamState::Finalizing => match event {
                StreamEvent::Finalized => (StreamState::Marking, StreamAction::MarkBootSlot),
                StreamEvent::FinalizeRefused => abandon(UpdateError::FinalizeRefused),
                _ => abandon(UpdateError::OutOfOrder),
            },
            StreamState::Marking => match event {
                StreamEvent::Marked => (StreamState::Restarting, StreamAction::Restart),
                StreamEvent::MarkRefused => abandon(UpdateError::MarkRefused),
                _ => abandon(UpdateError::OutOfOrder),
            },
            StreamState::Restarting => (StreamState::Restarting, StreamAction::Restart),
            StreamState::Failed(error) => abandon(error),
        };
        self.state = state;
        action
    }
}

/// The state and the action of an update that is given up.
fn abandon(error: UpdateError) -> (outcome: (StreamState, StreamAction))
    ensures
        outcome == failed(error),
{
    (StreamState::Failed(error), StreamAction::Abort(error))
}

/// A response outside 200 to 299 abandons the update at once, before any
/// flash slot is opened.
pub proof fn lemma_bad_status_aborts(status: u16)
    requires
        !is_success(status),
    ensures
        next(StreamState::Requesting, StreamEvent::Response(status)) == failed(
            UpdateError::Status(status),
        ),
{
}

/// The slot is opened once the server has answered with success, and for no
/// other reason.
pub proof fn lemma_open_follows_success(state: StreamState, event: StreamEvent)
    requires
        next(state, event).1 == StreamAction::OpenSlot,
    ensures
        state == StreamState::Requesting,
        event matches StreamEvent::Response(status) && is_success(status),
{
}

/// What is appended to the slot is the chunk that was just read, never an
/// empty one and never more than a chunk holds.
pub proof fn lemma_write_follows_read(state: StreamState, event: StreamEvent, len: usize)
    requires
        next(state, event).1 == StreamAction::WriteChunk(len),
    ensures
        state == StreamState::Reading,
        event == StreamEvent::Chunk(len),
        0 < len <= CHUNK_CAPACITY,
{
}

/// The slot is marked as the boot slot only when the platform has accepted
/// the finalized image.
pub proof fn lemma_mark_follows_finalize(state: StreamState, event: StreamEvent)
    requires
        next(state, event).1 == StreamAction::MarkBootSlot,
    ensures
        state == StreamState::Finalizing,
        event == StreamEvent::Finalized,
{
}

/// The device restarts only once the slot has been marked.
pub proof fn lemma_restart_follows_mark(state: StreamState, event: StreamEvent)
    requires
        next(state, event).1 == StreamAction::Restart,
    ensures
        state == StreamState::Marking && event == StreamEvent::Marked || state
            == StreamState::Restarting,
{
}

/// Every event of a run is answered with one action.
pub proof fn lemma_actions_len(state: StreamState, events: Seq<StreamEvent>)
    ensures
        run_actions(state, events).len() == events.len(),
    decreases events.len(),
{
    if events.len() > 0 {
        lemma_actions_len(state, events.drop_last());
    }
}

/// A run of events followed by another is answered as the first run and
/// then the second, taken up where the first has left the streamer.
pub proof fn lemma_run_append(state: StreamState, first: Seq<StreamEvent>, then: Seq<StreamEvent>)
    ensures
        run_state(state, first + then) == run_state(run_state(state, first), then),
        run_actions(state, first + then) == run_actions(state, first) + run_actions(
            run_state(state, first),
            then,
        ),
    decreases then.len(),
{
    if then.len() == 0 {
        assert(first + then == first);
    } else {
        lemma_run_append(state, first, then.drop_last());
        assert((first + then).drop_last() == first + then.drop_last());
        assert((first + then).last() == then.last());
    }
}

/// What a run from the request on has seen, by the state it has reached:
/// a slot that is being marked has been finalized with the platform's
/// consent, and a device that restarts has had its slot marked after that.
pub proof fn lemma_progress(events: Seq<StreamEvent>)
    ensures
        run_state(StreamState::Requesting, events) == StreamState::Marking ==> exists|j: int|
            0 <= j < events.len() && events[j] == StreamEvent::Finalized,
        run_state(StreamState::Requesting, events) == StreamState::Restarting ==> exists|
            j: int,
            k: int,
        |
            0 <= j < k < events.len() && events[j] == StreamEvent::Finalized && events[k]
                == StreamEvent::Marked,
    decreases events.len(),
{
    if events.len() > 0 {
        let front = events.drop_last();
        lemma_progress(front);
        let before = run_state(StreamState::Requesting, front);
        let last = events.len() - 1;
        if run_state(StreamState::Requesting, events) == StreamState::Marking {
            assert(before == StreamState::Finalizing && events[last] == StreamEvent::Finalized);
        }
        if run_state(StreamState::Requesting, events) == StreamState::Restarting {
            if before == StreamState::Marking {
                let j = choose|j: int| 0 <= j < front.len() && front[j] == StreamEvent::Finalized;
                assert(events[j] == front[j]);
                assert(events[last] == StreamEvent::Marked);
                assert(0 <= j < last < events.len() && events[j] == StreamEvent::Finalized
                    && events[last] == StreamEvent::Marked);
            } else {
                assert(before == StreamState::Restarting);
                let (j, k) = choose|j: int, k: int|
                    0 <= j < k < front.len() && front[j] == StreamEvent::Finalized && front[k]
                        == StreamEvent::Marked;
                assert(events[j] == front[j] && events[k] == front[k]);
            }
        }
    }
}

/// An abandoned update stays abandoned: whatever is reported afterwards,
/// the streamer keeps its error, and it never again asks for the slot to be
/// opened, written, finalized or marked, nor for a restart.
pub proof fn lemma_failure_is_final(error: UpdateError, events: Seq<StreamEvent>)
    ensures
        run_state(StreamState::Failed(error), events) == StreamState::Failed(error),
        run_actions(StreamState::Failed(error), events).len() == events.len(),
        forall|i: int|
            0 <= i < events.len() ==> #[trigger] run_actions(StreamState::Failed(error), events)[i]
                == StreamAction::Abort(error),
    decreases events.len(),
{
    if events.len() > 0 {
        lemma_failure_is_final(error, events.drop_last());
        let before = run_actions(StreamState::Failed(error), events.drop_last());
        let all = run_actions(StreamState::Failed(error), events);
        assert forall|i: int| 0 <= i < events.len() implies #[trigger] all[i]
            == StreamAction::Abort(error) by {
            if i < events.len() - 1 {
                assert(all[i] == before[i]);
            }
        }
    }
}

/// A download that the server answers with a status outside 200 to 299 is
/// abandoned for good: no slot is opened, nothing is read or written, and
/// every answer of the streamer is the same refusal.
pub proof fn lemma_bad_status_never_touches_flash(status: u16, later: Seq<StreamEvent>)
    requires
        !is_success(status),
    ensures
        ({
            let events = seq![StreamEvent::Response(status)] + later;
            let actions = run_actions(StreamState::Requesting, events);
            &&& actions.len() == events.len()
            &&& forall|i: int|
                0 <= i < actions.len() ==> #[trigger] actions[i] == StreamAction::Abort(
                    UpdateError::Status(status),
                )
        }),
{
    let start = StreamState::Requesting;
    let error = UpdateError::Status(status);
    let one = seq![StreamEvent::Response(status)];
    assert(one.drop_last() == Seq::<StreamEvent>::empty());
    assert(run_state(start, one.drop_last()) == start);
    assert(run_actions(start, one.drop_last()) == Seq::<StreamAction>::empty());
    assert(run_state(start, one) == StreamState::Failed(error));
    assert(run_actions(start, one) == seq![StreamAction::Abort(error)]);
    lemma_run_append(start, one, later);
    lemma_failure_is_final(error, later);
    let tail = run_actions(StreamState::Failed(error), later);
    let actions = run_actions(start, one + later);
    assert forall|i: int| 0 <= i < actions.len() implies #[trigger] actions[i]
        == StreamAction::Abort(error) by {
        if i >= 1 {
            assert(actions[i] == tail[i - 1]);
        }
    }
}

/// An image that the platform refuses when the slot is finalized is never
/// booted: the slot is not marked, the device does not restart, and every
/// answer of the streamer from then on is the same refusal. The running
/// firmware stays in charge.
pub proof fn lemma_refused_image_is_never_booted(later: Seq<StreamEvent>)
    ensures
        ({
            let events = seq![StreamEvent::FinalizeRefused] + later;
            let actions = run_actions(StreamState::Finalizing, events);
            &&& actions.len() == events.len()
            &&& forall|i: int|
                0 <= i < actions.len() ==> #[trigger] actions[i] == StreamAction::Abort(
                    UpdateError::FinalizeRefused,
                )
        }),
{
    let start = StreamState::Finalizing;
    let error = UpdateError::FinalizeRefused;
    let one = seq![StreamEvent::FinalizeRefused];
    assert(one.drop_last() == Seq::<StreamEvent>::empty());
    assert(run_state(start, one.drop_last()) == start);
    assert(run_actions(start, one.drop_last()) == Seq::<StreamAction>::empty());
    assert(run_state(start, one) == StreamState::Failed(error));
    assert(run_actions(start, one) == seq![StreamAction::Abort(error)]);
    lemma_run_append(start, one, later);
    lemma_failure_is_final(error, later);
    let tail = run_actions(StreamState::Failed(error), later);
    let actions = run_actions(start, one + later);
    assert forall|i: int| 0 <= i < actions.len() implies #[trigger] actions[i]
        == StreamAction::Abort(error) by {
        if i >= 1 {
            assert(actions[i] == tail[i - 1]);
        }
    }
}

/// Once the image has ended nothing more is opened, read or appended,
/// whatever is reported afterwards. So an image that ends with its first
/// read is never written at all.
pub proof fn lemma_nothing_is_written_after_the_end(state: StreamState, events: Seq<StreamEvent>)
    requires
        past_the_image(state),
    ensures
        past_the_image(run_state(state, events)),
        run_actions(state, events).len() == events.len(),
        forall|i: int|
            0 <= i < events.len() ==> {
                let action = #[trigger] run_actions(state, events)[i];
                !(action is WriteChunk) && !(action is ReadChunk) && !(action is OpenSlot)
            },
    decreases events.len(),
{
    if events.len() > 0 {
        lemma_nothing_is_written_after_the_end(state, events.drop_last());
        let before = run_actions(state, events.drop_last());
        let all = run_actions(state, events);
        assert forall|i: int| 0 <= i < events.len() implies {
            let action = #[trigger] all[i];
            !(action is WriteChunk) && !(action is ReadChunk) && !(action is OpenSlot)
        } by {
            if i < events.len() - 1 {
                assert(all[i] == before[i]);
            }
        }
    }
}

/// An image that ends with its very first read is never written: the slot
/// that was opened for it receives no chunk, whatever is reported later.
/// The streamer asks for the empty slot to be finalized, and by
/// `lemma_restart_needs_accepted_image` the device restarts only if the
/// platform accepts it.
pub proof fn lemma_empty_image_is_never_written(status: u16, later: Seq<StreamEvent>)
    requires
        is_success(status),
    ensures
        ({
            let opening = seq![
                StreamEvent::Response(status),
                StreamEvent::SlotOpened,
                StreamEvent::Chunk(0),
            ];
            let actions = run_actions(StreamState::Requesting, opening + later);
            &&& actions.len() == 3 + later.len()
            &&& actions[0] == StreamAction::OpenSlot
            &&& actions[1] == StreamAction::ReadChunk
            &&& actions[2] == StreamAction::Finalize
            &&& forall|i: int| 0 <= i < actions.len() ==> !(#[trigger] actions[i] is WriteChunk)
        }),
{
    let start = StreamState::Requesting;
    let one = seq![StreamEvent::Response(status)];
    let two = one.push(StreamEvent::SlotOpened);
    let opening = two.push(StreamEvent::Chunk(0));
    assert(opening == seq![
        StreamEvent::Response(status),
        StreamEvent::SlotOpened,
        StreamEvent::Chunk(0),
    ]);
    assert(one.drop_last() == Seq::<StreamEvent>::empty());
    assert(run_state(start, one.drop_last()) == start);
    assert(run_actions(start, one.drop_last()) == Seq::<StreamAction>::empty());
    assert(run_state(start, one) == StreamState::OpeningSlot);
    assert(run_actions(start, one) == seq![StreamAction::OpenSlot]);
    assert(two.drop_last() == one);
    assert(run_state(start, two) == StreamState::Reading);
    assert(run_actions(start, two) == seq![StreamAction::OpenSlot, StreamAction::ReadChunk]);
    assert(opening.drop_last() == two);
    assert(run_state(start, opening) == StreamState::Finalizing);
    assert(run_actions(start, opening) == seq![
        StreamAction::OpenSlot,
        StreamAction::ReadChunk,
        StreamAction::Finalize,
    ]);
    lemma_run_append(start, opening, later);
    lemma_nothing_is_written_after_the_end(StreamState::Finalizing, later);
    let tail = run_actions(StreamState::Finalizing, later);
    let actions = run_actions(start, opening + later);
    assert forall|i: int| 0 <= i < actions.len() implies !(#[trigger] actions[i] is WriteChunk) by {
        if i >= 3 {
            assert(actions[i] == tail[i - 3]);
        }
    }
}

/// In any run from the request on, a restart is asked for only after the
/// platform has accepted the image and the slot has been marked: both
/// reports are among the events that came before it.
pub proof fn lemma_restart_needs_accepted_image(events: Seq<StreamEvent>, i: int)
    requires
        0 <= i < events.len(),
        run_actions(StreamState::Requesting, events)[i] == StreamAction::Restart,
    ensures
        exists|j: int, k: int|
            0 <= j < k <= i && events[j] == StreamEvent::Finalized && events[k]
                == StreamEvent::Marked,
{
    let start = StreamState::Requesting;
    let prefix = events.take(i + 1);
    assert(events == prefix + events.skip(i + 1));
    lemma_run_append(start, prefix, events.skip(i + 1));
    lemma_actions_len(start, prefix);
    assert(run_actions(start, prefix).last() == StreamAction::Restart);
    assert(run_state(start, prefix) == StreamState::Restarting);
    lemma_progress(prefix);
    let (j, k) = choose|j: int, k: int|
        0 <= j < k < prefix.len() && prefix[j] == StreamEvent::Finalized && prefix[k]
            == StreamEvent::Marked;
    assert(events[j] == prefix[j] && events[k] == prefix[k]);
}

} // verus!
