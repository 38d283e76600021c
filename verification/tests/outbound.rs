use std::sync::Arc;

use tokio::sync::{mpsc, Semaphore};
use waywire::outbound::{
    budget_error, message_permits, message_size, queue_error, Message, Outbound, OutboundError,
    Refused, Unsent,
};
use waywire::queue::Refusal;

fn text(value: &str) -> Message {
    Message::Text(value.to_owned())
}

#[test]
fn outbound_queue_enforces_count_and_byte_bounds_independently() {
    let (tx, receiver_guard) = mpsc::channel(1);
    let outbound = Outbound {
        tx,
        bytes: Arc::new(Semaphore::new(10)),
    };
    assert!(outbound.enqueue(text("1")).is_ok());
    assert!(matches!(
        outbound.enqueue(text("2")),
        Err(OutboundError::MessageQueueFull)
    ));
    drop(receiver_guard);

    let (tx, receiver_guard) = mpsc::channel(2);
    let outbound = Outbound {
        tx,
        bytes: Arc::new(Semaphore::new(4)),
    };
    assert!(outbound.enqueue(text("123")).is_ok());
    assert!(matches!(
        outbound.enqueue(text("12")),
        Err(OutboundError::ByteBudgetExhausted)
    ));
    drop(receiver_guard);
}

#[test]
fn outbound_queue_returns_byte_permits_on_rejection_and_release() {
    let (tx, rx) = mpsc::channel(1);
    let bytes = Arc::new(Semaphore::new(4));
    let outbound = Outbound {
        tx,
        bytes: Arc::clone(&bytes),
    };
    drop(rx);
    assert!(matches!(
        outbound.enqueue(text("1234")),
        Err(OutboundError::MessageQueueClosed)
    ));
    assert_eq!(bytes.available_permits(), 4);

    let (tx, mut rx) = mpsc::channel(1);
    let outbound = Outbound {
        tx,
        bytes: Arc::clone(&bytes),
    };
    assert!(outbound.enqueue(text("123")).is_ok());
    assert_eq!(bytes.available_permits(), 1);
    let item = rx
        .try_recv()
        .expect("queued test message should remain available");
    assert!(matches!(&item.message, Message::Text(sent) if sent == "123"));
    drop(item);
    assert_eq!(bytes.available_permits(), 4);
}

#[test]
fn outbound_queue_reports_a_closed_byte_budget() {
    let (sender, receiver_guard) = mpsc::channel(1);
    let bytes = Arc::new(Semaphore::new(4));
    bytes.close();
    let outbound = Outbound { tx: sender, bytes };

    assert!(matches!(
        outbound.enqueue(text("1")),
        Err(OutboundError::ByteBudgetClosed)
    ));
    drop(receiver_guard);
}

fn refused(outbound: &Outbound, value: &str) -> Unsent {
    match outbound.offer(text(value)) {
        Ok(_) => panic!("the message should be refused"),
        Err(unsent) => unsent,
    }
}

#[test]
fn refused_messages_come_back_unchanged() {
    let (tx, mut rx) = mpsc::channel(1);
    let outbound = Outbound {
        tx,
        bytes: Arc::new(Semaphore::new(8)),
    };
    assert!(outbound.offer(text("1234")).is_ok());
    let unsent = refused(&outbound, "567");
    assert!(matches!(&unsent.refused, Refused::Queue(answer) if answer.reason() == Refusal::Exhausted));
    assert_eq!(unsent.error, OutboundError::MessageQueueFull);
    assert!(matches!(&unsent.message, Message::Text(back) if back == "567"));
    let unsent = refused(&outbound, "56789");
    assert!(matches!(&unsent.refused, Refused::Budget(answer) if answer.reason() == Refusal::Exhausted));
    assert_eq!(unsent.error, OutboundError::ByteBudgetExhausted);
    assert!(matches!(&unsent.message, Message::Text(back) if back == "56789"));
    let item = rx.try_recv().expect("the first message is queued");
    assert_eq!(item.bytes.count(), 4);
}

#[test]
fn empty_messages_need_no_bytes() {
    let (tx, mut rx) = mpsc::channel(2);
    let outbound = Outbound {
        tx,
        bytes: Arc::new(Semaphore::new(0)),
    };
    assert!(matches!(
        outbound.enqueue(text("1")),
        Err(OutboundError::ByteBudgetExhausted)
    ));
    assert!(outbound.enqueue(Message::Close(None)).is_ok());
    assert!(outbound.offer(text("")).is_ok());
    let item = rx.try_recv().expect("the close message is queued");
    assert!(matches!(item.message, Message::Close(None)));
    assert_eq!(item.bytes.count(), 0);
}

#[test]
fn messages_count_by_their_payload() {
    assert_eq!(message_size(&text("añb")), 4);
    assert_eq!(message_size(&Message::Binary(vec![1, 2, 3])), 3);
    assert_eq!(message_size(&Message::Close(None)), 0);
    assert_eq!(message_permits(7), 7);
    assert_eq!(budget_error(Refusal::Exhausted), OutboundError::ByteBudgetExhausted);
    assert_eq!(queue_error(Refusal::Closed), OutboundError::MessageQueueClosed);
}
