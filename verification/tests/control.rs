use waywire::clock::Instant;
use waywire::control::{
    audience, control_step, dispatch_control_event, feedback_event, finish_control_socket, pong,
    snapshot_messages, Audience, CleanupFailure, ControlAction, ControlSession, ControlStep,
    ControlWake, Dispatch, EventReceived, Incoming, InputPurpose, Lease, WriterEnd, WriterStatus,
    WriterWait,
};
use waywire::events::AppEvents;
use waywire::messages::{
    ClientEvent, ClientMessage, ClipboardText, Command, ControlState, FrameSize, RequestId,
    ResizeApplied, ScaleV120, TextAction,
};
use waywire::quality::{Feedback, Measurement, Quality};
use waywire::session::{
    AcquirePlan, FeedbackOutcome, InputOutcome, OwnershipBook, OwnershipState, ReleasePlan,
    SocketId,
};
use waywire::socket::SocketEnd;
use waywire::values::{Fps, Generation, InputSequence, Kbps, QualityLevels, ScalePercent};

const START: Instant = Instant {
    nanos: 100_000_000_000,
};

fn levels() -> QualityLevels {
    QualityLevels {
        bitrate: Kbps::new(8_000).expect("test bitrate should be valid"),
        fps: Fps::new(60).expect("test frame rate should be valid"),
        scale: ScalePercent::maximum(),
    }
}

fn holder() -> ControlSession {
    ControlSession { lease: Lease::Held }
}

#[test]
fn acquire_message_enqueues_active_state_and_reset_command() {
    let mut session = ControlSession::new();
    let mut book = OwnershipBook::new();
    let socket = SocketId::new(1);
    assert!(matches!(
        session.handle_text(ClientMessage::AcquireControl),
        ControlAction::Acquire
    ));
    assert_eq!(book.acquire(socket), AcquirePlan::ResetInput);
    let _ = book.acquired(socket);
    let events = session.acquired(OwnershipState::Active, None);
    assert_eq!(session.lease, Lease::Held);
    assert_eq!(events.len(), 1);
    assert!(matches!(
        events[0],
        ClientEvent::ControlState {
            state: ControlState::Active
        }
    ));
}

#[test]
fn release_message_enqueues_ready_state_and_reset_command() {
    let mut session = holder();
    let mut book = OwnershipBook::new();
    let socket = SocketId::new(1);
    let _ = book.acquired(socket);
    assert!(matches!(
        session.handle_text(ClientMessage::ReleaseControl),
        ControlAction::Release
    ));
    assert!(matches!(book.release(socket), ReleasePlan::ResetInput(_)));
    book.released();
    let event = session.released();
    assert_eq!(session.lease, Lease::NotHeld);
    assert!(matches!(
        event,
        ClientEvent::ControlState {
            state: ControlState::Ready
        }
    ));
}

#[test]
fn ping_message_enqueues_pong_without_a_command() {
    let session = ControlSession::new();
    assert!(matches!(
        session.handle_text(ClientMessage::Ping { id: 7 }),
        ControlAction::ReadClock { id: 7 }
    ));
    match pong(7, 12, 34) {
        ClientEvent::Pong { id, server_nanos } => {
            assert_eq!(id, 7);
            assert_eq!(server_nanos, "12000000034");
        }
        other => panic!("a ping should be answered by a pong: {other:?}"),
    }
}

#[test]
fn feedback_message_enqueues_quality_and_changed_quality_command() {
    let session = holder();
    let mut book = OwnershipBook::new();
    let mut quality = Quality::new(
        Kbps::new(8_000).expect("test bitrate should be valid"),
        Fps::new(60).expect("test frame rate should be valid"),
    );
    let socket = SocketId::new(1);
    let _ = book.acquired(socket);
    let feedback = Feedback {
        received: 50,
        presented: 50,
        dropped: 0,
        queue_peak: 5,
        queue_pressure: Measurement {
            bits: (200.0_f64 / 1000.0).to_bits(),
        },
        rtt: Measurement {
            bits: 20.0_f64.to_bits(),
        },
    };
    let mut commands = Vec::new();
    for _ in 0..2 {
        match session.handle_text(ClientMessage::Feedback(feedback)) {
            ControlAction::ApplyFeedback(applied) => {
                let plan = book.feedback(&mut quality, socket, &applied, START);
                commands.extend(plan.command);
                assert!(matches!(
                    feedback_event(plan.outcome),
                    Some(ClientEvent::Quality(_))
                ));
            }
            other => panic!("feedback should be applied: {other:?}"),
        }
    }
    assert_eq!(commands.len(), 1);
}

#[test]
fn text_message_sends_text_command_without_an_event() {
    let session = holder();
    let sequence = InputSequence::new(3).expect("test sequence should be valid");
    match session.handle_text(ClientMessage::Text {
        action: TextAction::Commit,
        text: "hi".to_owned(),
        sequence,
    }) {
        ControlAction::SendInput {
            command:
                Command::Text {
                    action,
                    text,
                    sequence: sent,
                },
            purpose,
        } => {
            assert_eq!(action, TextAction::Commit);
            assert_eq!(text, "hi");
            assert_eq!(sent, sequence);
            assert_eq!(purpose, InputPurpose::Text);
        }
        other => panic!("text should become a command: {other:?}"),
    }
}

#[test]
fn clipboard_message_sends_clipboard_command_without_an_event() {
    let session = holder();
    let clipboard =
        ClipboardText::new("copy".to_owned()).expect("test clipboard should be valid");
    match session.handle_text(ClientMessage::ClipboardWrite { clipboard }) {
        ControlAction::SendInput {
            command: Command::Clipboard(text),
            purpose,
        } => {
            assert_eq!(text.as_str(), "copy");
            assert_eq!(purpose, InputPurpose::Clipboard);
        }
        other => panic!("clipboard text should become a command: {other:?}"),
    }
}

#[test]
fn reset_video_message_uses_the_input_lease() {
    assert!(matches!(
        holder().handle_text(ClientMessage::ResetVideo),
        ControlAction::SendInput {
            command: Command::ResetVideo,
            purpose: InputPurpose::ResetVideo
        }
    ));
}

#[test]
fn nonowner_reset_video_message_sends_no_command() {
    let mut book = OwnershipBook::new();
    let _ = book.acquired(SocketId::new(1));
    assert!(matches!(
        ControlSession::new().handle_text(ClientMessage::ResetVideo),
        ControlAction::Ignore
    ));
    assert_eq!(book.epoch(SocketId::new(2)), None);
}

#[test]
fn lagged_events_enqueue_a_snapshot_and_deliver_the_retained_event() {
    let events = AppEvents::new();
    assert!(matches!(
        dispatch_control_event(Lease::NotHeld, EventReceived::Lagged),
        Dispatch::Resynchronise
    ));
    let snapshot = snapshot_messages(&events.snapshot(), levels(), Lease::NotHeld);
    assert_eq!(snapshot.len(), 2);
    assert!(matches!(snapshot[0], ClientEvent::Cursor(_)));
    assert!(matches!(snapshot[1], ClientEvent::Quality(found) if found == levels()));

    let applied = ResizeApplied {
        request_id: RequestId::new(7).expect("test request ID should be valid"),
        size: FrameSize::new(1280, 720).expect("test frame size should be valid"),
        scale_v120: ScaleV120::new(120).expect("test scale should be valid"),
        generation: Generation::new(2).expect("test generation should be valid"),
    };
    assert!(matches!(
        dispatch_control_event(
            Lease::NotHeld,
            EventReceived::Event(ClientEvent::ResizeApplied(applied))
        ),
        Dispatch::Send(ClientEvent::ResizeApplied(found)) if found == applied
    ));
}

#[test]
fn combined_cleanup_error_renders_release_and_writer_failures() {
    let error = CleanupFailure::Both {
        release: "release failed".to_owned(),
        writer: "writer failed".to_owned(),
    };
    let rendered = error.render();

    assert!(rendered.contains("release failed"));
    assert!(rendered.contains("writer failed"));
}

#[test]
fn private_events_go_to_the_holder_alone() {
    let text = ClipboardText::new("secret".to_owned()).expect("test clipboard should be valid");
    let event = ClientEvent::Clipboard { text };
    assert_eq!(audience(&event), Audience::LeaseOwner);
    assert!(matches!(
        dispatch_control_event(Lease::NotHeld, EventReceived::Event(event.clone())),
        Dispatch::Skip
    ));
    assert!(matches!(
        dispatch_control_event(Lease::Held, EventReceived::Event(event)),
        Dispatch::Send(ClientEvent::Clipboard { .. })
    ));
    assert!(matches!(
        dispatch_control_event(Lease::Held, EventReceived::Closed),
        Dispatch::End(_)
    ));
}

#[test]
fn sockets_without_the_lease_send_no_input() {
    assert!(matches!(
        ControlSession::new().handle_binary(Command::ReleaseAll),
        ControlAction::Ignore
    ));
    assert!(matches!(
        holder().handle_binary(Command::ReleaseAll),
        ControlAction::SendInput {
            purpose: InputPurpose::Binary,
            ..
        }
    ));
    let mut session = holder();
    assert!(!session.input_settled(InputOutcome::Sent));
    assert_eq!(session.lease, Lease::Held);
    assert!(session.input_settled(InputOutcome::NotInputOwner));
    assert_eq!(session.lease, Lease::NotHeld);
    assert!(feedback_event(FeedbackOutcome::NotInputOwner).is_none());
}

#[test]
fn busy_sockets_learn_nothing_of_the_clipboard() {
    let clipboard = ClipboardText::new("text".to_owned()).expect("test clipboard should be valid");
    let mut session = ControlSession::new();
    let events = session.acquired(OwnershipState::Busy, Some(clipboard.clone()));
    assert_eq!(session.lease, Lease::NotHeld);
    assert_eq!(events.len(), 1);
    let events = session.acquired(OwnershipState::Active, Some(clipboard));
    assert_eq!(session.lease, Lease::Held);
    assert_eq!(events.len(), 2);
}

#[test]
fn a_control_socket_ends_for_the_reason_that_came_first() {
    assert!(matches!(
        control_step(Lease::Held, ControlWake::Cancelled),
        ControlStep::End {
            reason: SocketEnd::Shutdown,
            writer: WriterStatus::Running
        }
    ));
    match control_step(
        Lease::Held,
        ControlWake::Writer(WriterEnd::Failed("broken".to_owned())),
    ) {
        ControlStep::End { reason, writer } => {
            assert!(reason.is_failure());
            assert_eq!(writer, WriterStatus::Finished);
        }
        other => panic!("a failed writer should end the socket: {other:?}"),
    }
    assert!(matches!(
        control_step(Lease::Held, ControlWake::Incoming(Incoming::Text)),
        ControlStep::HandleText
    ));
    assert!(matches!(
        control_step(Lease::Held, ControlWake::Incoming(Incoming::Binary)),
        ControlStep::HandleBinary
    ));
    assert!(matches!(
        control_step(Lease::Held, ControlWake::Incoming(Incoming::Heartbeat)),
        ControlStep::Continue
    ));
    assert!(matches!(
        control_step(Lease::Held, ControlWake::Incoming(Incoming::Ended)),
        ControlStep::End {
            reason: SocketEnd::Disconnected,
            ..
        }
    ));
}

#[test]
fn cleanup_failures_are_kept_beside_the_reason() {
    let (reason, logged) =
        finish_control_socket(SocketEnd::Shutdown, None, WriterWait::Stopped);
    assert!(!reason.is_failure());
    assert_eq!(logged, None);
    let (reason, _) = finish_control_socket(
        SocketEnd::failed("lost".to_owned()),
        Some("release failed".to_owned()),
        WriterWait::Failed("writer failed".to_owned()),
    );
    match reason {
        SocketEnd::Failed(failure) => {
            assert_eq!(failure.primary, "lost");
            let cleanup = failure.cleanup.expect("cleanup failures should be kept");
            assert!(cleanup.contains("release failed"));
            assert!(cleanup.contains("writer failed"));
        }
        other => panic!("the failure should stay the reason: {other:?}"),
    }
}
