use waywire::clock::Instant;
use waywire::events::{
    AppEvents, CursorPositionGate, EventEffect, EventReadError, EventReader,
    CURSOR_POSITION_PERIOD_NANOS, PARTIAL_EVENT_DEADLINE_NANOS,
};
use waywire::messages::{
    ClientEvent, ClipboardText, CursorPosition, CursorShape, CursorVisibility, Event, FrameSize,
    RequestId, ResizeApplied, ScaleV120,
};
use waywire::values::Generation;

const START: Instant = Instant { nanos: 1_000 };

fn event(x: i32) -> Event {
    Event::CursorPosition(CursorPosition { x, y: x + 1 })
}

fn is_event(found: &Event, x: i32) -> bool {
    matches!(found, Event::CursorPosition(position) if position.x == x && position.y == x + 1)
}

#[test]
fn split_record_across_two_writes() {
    let mut reader: EventReader<Event> = EventReader::new();
    reader.decoded(vec![], 0, 6, START);
    assert!(reader.next().is_none());
    reader.decoded(vec![event(1)], 6, 0, START);
    assert!(is_event(&reader.next().expect("split event should decode"), 1));
    assert_eq!(reader.read_deadline(), None);
}

#[test]
fn two_records_arrive_in_one_write() {
    let mut reader: EventReader<Event> = EventReader::new();
    reader.decoded(vec![event(1), event(2)], 0, 0, START);
    assert!(is_event(&reader.next().expect("first event should decode"), 1));
    assert!(is_event(&reader.next().expect("second event should decode"), 2));
    assert!(reader.next().is_none());
}

#[test]
fn completed_record_and_trailing_partial_get_separate_deadlines() {
    let mut reader: EventReader<Event> = EventReader::new();
    reader.decoded(vec![], 0, 6, START);
    let later = START.plus(1_000_000_000);
    reader.decoded(vec![event(1)], 6, 6, later);
    assert!(is_event(&reader.next().expect("first event should decode"), 1));
    assert_eq!(
        reader.read_deadline(),
        Some(later.plus(PARTIAL_EVENT_DEADLINE_NANOS))
    );
    let tail = later.plus(1_500_000_000);
    assert!(tail.nanos < later.plus(PARTIAL_EVENT_DEADLINE_NANOS).nanos);
    reader.decoded(vec![event(2)], 6, 0, tail);
    assert!(is_event(
        &reader
            .next()
            .expect("second event should get a fresh partial deadline"),
        2
    ));
}

#[test]
fn closed_at_record_boundary_is_typed() {
    assert!(matches!(
        EventReader::<Event>::ended(0),
        EventReadError::Closed
    ));
}

#[test]
fn partial_header_at_eof_is_truncated() {
    assert!(matches!(
        EventReader::<Event>::ended(1),
        EventReadError::Truncated
    ));
}

#[test]
fn partial_record_stalls_at_anchored_deadline() {
    let mut reader: EventReader<Event> = EventReader::new();
    assert_eq!(reader.read_deadline(), None);
    reader.decoded(vec![], 0, 1, START);
    let deadline = reader
        .read_deadline()
        .expect("partial record should have a deadline");
    assert_eq!(deadline.since(START), PARTIAL_EVENT_DEADLINE_NANOS);
    assert!(matches!(
        reader.stalled(deadline),
        EventReadError::Stalled { after_nanos } if after_nanos == PARTIAL_EVENT_DEADLINE_NANOS
    ));
}

#[test]
fn cancelling_next_does_not_reset_partial_deadline() {
    let mut reader: EventReader<Event> = EventReader::new();
    reader.decoded(vec![], 0, 1, START);
    assert!(reader.next().is_none());
    reader.decoded(vec![], 1, 2, START.plus(1_000_000_000));
    assert!(reader.next().is_none());
    assert_eq!(
        reader.read_deadline(),
        Some(START.plus(PARTIAL_EVENT_DEADLINE_NANOS))
    );
}

#[test]
fn cursor_position_gate_publishes_first_and_latest_without_idle_deadline() {
    let now = START;
    let first = CursorPosition { x: 1, y: 2 };
    let replaced = CursorPosition { x: 3, y: 4 };
    let latest = CursorPosition { x: 5, y: 6 };
    let mut gate = CursorPositionGate::Open;

    assert_eq!(gate.push(first, now), Some(first));
    assert_eq!(
        gate.deadline(),
        Some(now.plus(CURSOR_POSITION_PERIOD_NANOS))
    );
    assert_eq!(gate.push(replaced, now), None);
    assert_eq!(gate.push(latest, now), None);
    let first_deadline = gate.deadline().expect("quiet gate should have a deadline");
    assert_eq!(gate.flush(first_deadline), Some(latest));
    assert_eq!(
        gate.deadline(),
        Some(first_deadline.plus(CURSOR_POSITION_PERIOD_NANOS))
    );
    let final_deadline = gate
        .deadline()
        .expect("rearmed gate should have a deadline");
    assert_eq!(gate.flush(final_deadline), None);
    assert_eq!(gate.deadline(), None);
}

#[test]
fn snapshots_hold_the_latest_cursor_and_clipboard() {
    let mut events = AppEvents::new();
    let mut gate = CursorPositionGate::Open;
    assert_eq!(events.snapshot().len(), 1);
    assert!(matches!(
        events.handle(&mut gate, Event::CursorShape(CursorShape(4)), START),
        EventEffect::Publish(ClientEvent::Cursor(_))
    ));
    assert!(matches!(
        events.handle(
            &mut gate,
            Event::CursorVisibility(CursorVisibility::Hidden),
            START
        ),
        EventEffect::Publish(ClientEvent::Cursor(_))
    ));
    let text = ClipboardText::new("copied".to_owned()).expect("test clipboard should be valid");
    assert!(matches!(
        events.handle(&mut gate, Event::Clipboard(text), START),
        EventEffect::Publish(ClientEvent::Clipboard { .. })
    ));
    assert!(matches!(
        events.handle(&mut gate, event(1), START),
        EventEffect::Publish(ClientEvent::Cursor(_))
    ));
    assert!(matches!(
        events.handle(&mut gate, event(2), START),
        EventEffect::Nothing
    ));
    let flushed = events
        .flush(&mut gate, START.plus(CURSOR_POSITION_PERIOD_NANOS))
        .expect("the latest position should be published");
    match flushed {
        ClientEvent::Cursor(cursor) => {
            assert_eq!(cursor.position, Some(CursorPosition { x: 2, y: 3 }));
            assert_eq!(cursor.shape, CursorShape(4));
            assert_eq!(cursor.visibility, CursorVisibility::Hidden);
        }
        other => panic!("a cursor should be published: {other:?}"),
    }
    assert_eq!(
        events
            .latest_clipboard()
            .expect("the clipboard should be remembered")
            .as_str(),
        "copied"
    );
}

#[test]
fn applied_sizes_are_passed_on() {
    let mut events = AppEvents::new();
    let mut gate = CursorPositionGate::Open;
    let applied = ResizeApplied {
        request_id: RequestId::new(7).expect("test request ID should be valid"),
        size: FrameSize::new(1280, 720).expect("test frame size should be valid"),
        scale_v120: ScaleV120::new(120).expect("test scale should be valid"),
        generation: Generation::new(2).expect("test generation should be valid"),
    };
    assert!(matches!(
        events.handle(&mut gate, Event::ResizeApplied(applied), START),
        EventEffect::Publish(ClientEvent::ResizeApplied(found)) if found == applied
    ));
}
