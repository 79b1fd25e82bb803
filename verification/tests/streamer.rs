use ota_provision::streamer::{
    StreamAction, StreamEvent, StreamState, UpdateError, UpdateStreamer, CHUNK_CAPACITY,
};

fn run(events: &[StreamEvent]) -> (UpdateStreamer, Vec<StreamAction>) {
    let mut streamer = UpdateStreamer::new();
    let mut actions = Vec::new();
    for event in events {
        actions.push(streamer.step(*event));
    }
    (streamer, actions)
}

#[test]
fn new_streamer_awaits_the_response() {
    let streamer = UpdateStreamer::new();
    assert_eq!(streamer.state(), StreamState::Requesting);
    assert_eq!(streamer.error(), None);
}

#[test]
fn image_of_two_chunks_is_written_finalized_marked_and_booted() {
    let (streamer, actions) = run(&[
        StreamEvent::Response(200),
        StreamEvent::SlotOpened,
        StreamEvent::Chunk(256),
        StreamEvent::ChunkWritten,
        StreamEvent::Chunk(17),
        StreamEvent::ChunkWritten,
        StreamEvent::Chunk(0),
        StreamEvent::Finalized,
        StreamEvent::Marked,
    ]);
    assert_eq!(
        actions,
        vec![
            StreamAction::OpenSlot,
            StreamAction::ReadChunk,
            StreamAction::WriteChunk(256),
            StreamAction::ReadChunk,
            StreamAction::WriteChunk(17),
            StreamAction::ReadChunk,
            StreamAction::Finalize,
            StreamAction::MarkBootSlot,
            StreamAction::Restart,
        ]
    );
    assert_eq!(streamer.state(), StreamState::Restarting);
    assert_eq!(streamer.error(), None);
}

#[test]
fn bad_status_aborts_before_any_slot_is_opened() {
    let (streamer, actions) = run(&[StreamEvent::Response(404)]);
    assert_eq!(actions, vec![StreamAction::Abort(UpdateError::Status(404))]);
    assert_eq!(streamer.state(), StreamState::Failed(UpdateError::Status(404)));
    assert_eq!(streamer.error(), Some(UpdateError::Status(404)));
}

#[test]
fn statuses_around_the_success_range() {
    assert_eq!(
        run(&[StreamEvent::Response(199)]).1,
        vec![StreamAction::Abort(UpdateError::Status(199))]
    );
    assert_eq!(run(&[StreamEvent::Response(200)]).1, vec![StreamAction::OpenSlot]);
    assert_eq!(run(&[StreamEvent::Response(299)]).1, vec![StreamAction::OpenSlot]);
    assert_eq!(
        run(&[StreamEvent::Response(300)]).1,
        vec![StreamAction::Abort(UpdateError::Status(300))]
    );
}

#[test]
fn empty_first_read_writes_nothing_and_refused_image_is_not_booted() {
    let (streamer, actions) = run(&[
        StreamEvent::Response(200),
        StreamEvent::SlotOpened,
        StreamEvent::Chunk(0),
        StreamEvent::FinalizeRefused,
        StreamEvent::Marked,
    ]);
    assert_eq!(
        actions,
        vec![
            StreamAction::OpenSlot,
            StreamAction::ReadChunk,
            StreamAction::Finalize,
            StreamAction::Abort(UpdateError::FinalizeRefused),
            StreamAction::Abort(UpdateError::FinalizeRefused),
        ]
    );
    for action in actions {
        assert!(!matches!(action, StreamAction::WriteChunk(_)));
        assert_ne!(action, StreamAction::MarkBootSlot);
        assert_ne!(action, StreamAction::Restart);
    }
    assert_eq!(streamer.error(), Some(UpdateError::FinalizeRefused));
}

#[test]
fn each_failure_aborts_with_its_error() {
    let cases: Vec<(Vec<StreamEvent>, UpdateError)> = vec![
        (vec![StreamEvent::RequestFailed], UpdateError::Transport),
        (vec![StreamEvent::Response(200), StreamEvent::SlotRefused], UpdateError::SlotRefused),
        (
            vec![StreamEvent::Response(200), StreamEvent::SlotOpened, StreamEvent::ReadFailed],
            UpdateError::ReadFailed,
        ),
        (
            vec![
                StreamEvent::Response(200),
                StreamEvent::SlotOpened,
                StreamEvent::Chunk(CHUNK_CAPACITY + 1),
            ],
            UpdateError::Overrun,
        ),
        (
            vec![
                StreamEvent::Response(200),
                StreamEvent::SlotOpened,
                StreamEvent::Chunk(8),
                StreamEvent::WriteFailed,
            ],
            UpdateError::WriteFailed,
        ),
        (
            vec![
                StreamEvent::Response(200),
                StreamEvent::SlotOpened,
                StreamEvent::Chunk(8),
                StreamEvent::ChunkWritten,
                StreamEvent::Chunk(0),
                StreamEvent::FinalizeRefused,
            ],
            UpdateError::FinalizeRefused,
        ),
        (
            vec![
                StreamEvent::Response(200),
                StreamEvent::SlotOpened,
                StreamEvent::Chunk(0),
                StreamEvent::Finalized,
                StreamEvent::MarkRefused,
            ],
            UpdateError::MarkRefused,
        ),
        (vec![StreamEvent::SlotOpened], UpdateError::OutOfOrder),
        (vec![StreamEvent::Response(200), StreamEvent::Marked], UpdateError::OutOfOrder),
        (
            vec![StreamEvent::Response(200), StreamEvent::SlotOpened, StreamEvent::Finalized],
            UpdateError::OutOfOrder,
        ),
    ];
    for (events, error) in cases {
        let (streamer, actions) = run(&events);
        assert_eq!(actions.last(), Some(&StreamAction::Abort(error)));
        assert_eq!(streamer.state(), StreamState::Failed(error));
        assert!(!actions.contains(&StreamAction::Restart));
    }
}

#[test]
fn abandoned_update_stays_abandoned() {
    let mut streamer = UpdateStreamer::new();
    streamer.step(StreamEvent::Response(500));
    for event in [
        StreamEvent::Response(200),
        StreamEvent::SlotOpened,
        StreamEvent::Chunk(4),
        StreamEvent::ChunkWritten,
        StreamEvent::Finalized,
        StreamEvent::Marked,
    ] {
        assert_eq!(streamer.step(event), StreamAction::Abort(UpdateError::Status(500)));
    }
    assert_eq!(streamer.state(), StreamState::Failed(UpdateError::Status(500)));
}

#[test]
fn chunk_of_full_capacity_is_written() {
    let (_, actions) = run(&[
        StreamEvent::Response(200),
        StreamEvent::SlotOpened,
        StreamEvent::Chunk(CHUNK_CAPACITY),
    ]);
    assert_eq!(actions[2], StreamAction::WriteChunk(256));
}

#[test]
fn restart_is_asked_again_once_reached() {
    let (mut streamer, _) = run(&[
        StreamEvent::Response(200),
        StreamEvent::SlotOpened,
        StreamEvent::Chunk(0),
        StreamEvent::Finalized,
        StreamEvent::Marked,
    ]);
    assert_eq!(streamer.step(StreamEvent::Marked), StreamAction::Restart);
    assert_eq!(streamer.state(), StreamState::Restarting);
}
