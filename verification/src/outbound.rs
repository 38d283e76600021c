//! The bounded queue of messages to one browser: it is limited in messages and, with
//! a separate budget, in bytes.

use crate::messages::MAX_CLIPBOARD_BYTES;
use crate::queue::{
    try_acquire, try_send, BudgetRefusal, HeldBytes, QueueRefusal, Receipt, Refusal,
};
use crate::socket::CloseFrame;
use std::sync::Arc;
use tokio::sync::mpsc::Sender;
use tokio::sync::Semaphore;
use vstd::prelude::*;

verus! {

// A byte can expand to a six-byte JSON escape.
pub const JSON_ESCAPE_WORST_CASE: usize = 6;

pub const MAX_CONTROL_MESSAGE_BYTES: usize = JSON_ESCAPE_WORST_CASE * MAX_CLIPBOARD_BYTES + 4096;

pub const OUTBOUND_MESSAGE_LIMIT: usize = 32;

pub const OUTBOUND_BYTE_LIMIT: usize = 2 * MAX_CONTROL_MESSAGE_BYTES;

/// One WebSocket message.
#[derive(Debug)]
pub enum Message {
    Text(String),
    Binary(Vec<u8>),
    Ping(Vec<u8>),
    Pong(Vec<u8>),
    Close(Option<CloseFrame>),
}

/// A queued message with its share of the byte budget.
#[derive(Debug)]
pub struct OutboundItem {
    pub message: Message,
    pub bytes: HeldBytes,
}

impl OutboundItem {
    /// The item holds a permit for each byte of its message.
    pub open spec fn wf(self) -> bool {
        self.bytes.spec_count() == spec_message_permits(spec_message_size(self.message))
    }
}

#[derive(Clone, Copy, Debug, PartialEq, Eq, Structural)]
pub enum OutboundError {
    ByteBudgetExhausted,
    ByteBudgetClosed,
    MessageQueueFull,
    MessageQueueClosed,
}

impl OutboundError {
    pub open spec fn spec_message(self) -> Seq<char> {
        match self {
            OutboundError::ByteBudgetExhausted => "outbound byte budget is exhausted"@,
            OutboundError::ByteBudgetClosed => "outbound byte budget is closed"@,
            OutboundError::MessageQueueFull => "outbound message queue is full"@,
            OutboundError::MessageQueueClosed => "outbound message queue is closed"@,
        }
    }

    pub fn message(self) -> (text: &'static str)
        ensures
            text@ == self.spec_message(),
    {
        match self {
            OutboundError::ByteBudgetExhausted => "outbound byte budget is exhausted",
            OutboundError::ByteBudgetClosed => "outbound byte budget is closed",
            OutboundError::MessageQueueFull => "outbound message queue is full",
            OutboundError::MessageQueueClosed => "outbound message queue is closed",
        }
    }
}

/// The payload of a message in bytes; a close frame carries a two-byte code.
pub open spec fn spec_message_size(message: Message) -> int {
    match message {
        Message::Text(text) => vstd::utf8::encode_utf8(text@).len() as int,
        Message::Binary(bytes) | Message::Ping(bytes) | Message::Pong(bytes) => bytes@.len() as int,
        Message::Close(Some(frame)) => vstd::utf8::encode_utf8(frame.reason@).len() as int + 2,
        Message::Close(None) => 0,
    }
}

pub fn message_size(message: &Message) -> (r: usize)
    ensures
        r == if spec_message_size(*message) <= usize::MAX {
            spec_message_size(*message)
        } else {
            usize::MAX as int
        },
{
    match message {
        Message::Text(text) => text.as_str().as_bytes().len(),
        Message::Binary(bytes) => bytes.len(),
        Message::Ping(bytes) => bytes.len(),
        Message::Pong(bytes) => bytes.len(),
        Message::Close(Some(frame)) => frame.reason.as_str().as_bytes().len().saturating_add(2),
        Message::Close(None) => 0,
    }
}

/// The permits that a message of the given size takes.
pub open spec fn spec_message_permits(size: int) -> int {
    if size <= u32::MAX {
        size
    } else {
        u32::MAX as int
    }
}

pub fn message_permits(size: usize) -> (r: u32)
    ensures
        r == spec_message_permits(size as int),
{
    if size as u64 <= u32::MAX as u64 {
        size as u32
    } else {
        u32::MAX
    }
}

pub open spec fn spec_budget_error(refusal: Refusal) -> OutboundError {
    match refusal {
        Refusal::Exhausted => OutboundError::ByteBudgetExhausted,
        Refusal::Closed => OutboundError::ByteBudgetClosed,
    }
}

pub fn budget_error(refusal: Refusal) -> (r: OutboundError)
    ensures
        r == spec_budget_error(refusal),
{
    match refusal {
        Refusal::Exhausted => OutboundError::ByteBudgetExhausted,
        Refusal::Closed => OutboundError::ByteBudgetClosed,
    }
}

pub open spec fn spec_queue_error(refusal: Refusal) -> OutboundError {
    match refusal {
        Refusal::Exhausted => OutboundError::MessageQueueFull,
        Refusal::Closed => OutboundError::MessageQueueClosed,
    }
}

pub fn queue_error(refusal: Refusal) -> (r: OutboundError)
    ensures
        r == spec_queue_error(refusal),
{
    match refusal {
        Refusal::Exhausted => OutboundError::MessageQueueFull,
        Refusal::Closed => OutboundError::MessageQueueClosed,
    }
}

/// Who refused a message.
pub enum Refused {
    Budget(BudgetRefusal),
    Queue(QueueRefusal),
}

impl Refused {
    pub open spec fn error(&self) -> OutboundError {
        match self {
            Refused::Budget(refused) => spec_budget_error(refused.spec_reason()),
            Refused::Queue(refused) => spec_queue_error(refused.spec_reason()),
        }
    }

    /// Whether it was this message that was refused: its permits by the budget, or
    /// the message with its permits by the queue.
    pub open spec fn concerns(&self, message: Message) -> bool {
        match self {
            Refused::Budget(refused) => refused.permits() == spec_message_permits(
                spec_message_size(message),
            ),
            Refused::Queue(refused) => refused.item().message == message && refused.item().wf(),
        }
    }
}

/// A message that was not queued, and why.
pub struct Unsent {
    pub error: OutboundError,
    pub message: Message,
    pub refused: Refused,
}

/// Puts a message together with the answer of the byte budget.
pub fn charge(message: Message, answer: Result<HeldBytes, BudgetRefusal>) -> (r: Result<
    OutboundItem,
    Unsent,
>)
    ensures
        r == match answer {
            Ok(bytes) => Ok::<OutboundItem, Unsent>(OutboundItem { message, bytes }),
            Err(refused) => Err(
                Unsent {
                    error: spec_budget_error(refused.spec_reason()),
                    message,
                    refused: Refused::Budget(refused),
                },
            ),
        },
{
    match answer {
        Ok(bytes) => Ok(OutboundItem { message, bytes }),
        Err(refused) => Err(
            Unsent {
                error: budget_error(refused.reason()),
                message,
                refused: Refused::Budget(refused),
            },
        ),
    }
}

/// The end of an offer, from the answer of the queue.
pub fn queued(answer: Result<Receipt, (QueueRefusal, OutboundItem)>) -> (r: Result<
    Receipt,
    Unsent,
>)
    ensures
        r == match answer {
            Ok(receipt) => Ok::<Receipt, Unsent>(receipt),
            Err((refused, item)) => Err(
                Unsent {
                    error: spec_queue_error(refused.spec_reason()),
                    message: item.message,
                    refused: Refused::Queue(refused),
                },
            ),
        },
{
    match answer {
        Ok(receipt) => Ok(receipt),
        Err((refused, item)) => Err(
            Unsent {
                error: queue_error(refused.reason()),
                message: item.message,
                refused: Refused::Queue(refused),
            },
        ),
    }
}

#[derive(Debug)]
pub struct Outbound {
    pub tx: Sender<OutboundItem>,
    pub bytes: Arc<Semaphore>,
}

impl Outbound {
    /// Queues a message at once, with a permit for each of its bytes, or hands it
    /// back unchanged with the answer that refused it. An empty message costs nothing,
    /// so no want of bytes stops it. For the rest, whether there is room is up to the
    /// reader, and the contract leaves open which of the two it is.
    pub fn offer(&self, message: Message) -> (r: Result<Receipt, Unsent>)
        requires
            spec_message_size(message) <= usize::MAX / 8,
        ensures
            match r {
                Ok(receipt) => receipt.item().message == message && receipt.item().wf(),
                Err(unsent) => {
                    &&& unsent.message == message
                    &&& unsent.refused.concerns(message)
                    &&& unsent.error == unsent.refused.error()
                    &&& unsent.error is ByteBudgetExhausted ==> spec_message_size(message) > 0
                },
            },
    {
        let size: usize = message_size(&message);
        let permits: u32 = message_permits(size);
        match charge(message, try_acquire(&self.bytes, permits)) {
            Ok(item) => queued(try_send(&self.tx, item)),
            Err(unsent) => Err(unsent),
        }
    }

    /// `offer` for a caller that has no use for a message that was refused.
    pub fn enqueue(&self, message: Message) -> (r: Result<Receipt, OutboundError>)
        requires
            spec_message_size(message) <= usize::MAX / 8,
        ensures
            match r {
                Ok(receipt) => receipt.item().message == message && receipt.item().wf(),
                Err(error) => {
                    &&& exists|refused: Refused| #[trigger]
                        refused.concerns(message) && error == refused.error()
                    &&& error is ByteBudgetExhausted ==> spec_message_size(message) > 0
                },
            },
    {
        match self.offer(message) {
            Ok(receipt) => Ok(receipt),
            Err(unsent) => Err(unsent.error),
        }
    }
}

/// A message costs what it carries, byte for byte: a text its encoding, a close frame
/// its reason and a code of two bytes, and one without a frame nothing.
pub proof fn law_messages_cost_what_they_carry(message: Message)
    ensures
        message matches Message::Text(text) ==> spec_message_size(message)
            == vstd::utf8::encode_utf8(text@).len(),
        message matches Message::Binary(bytes) ==> spec_message_size(message) == bytes@.len(),
        message matches Message::Ping(bytes) ==> spec_message_size(message) == bytes@.len(),
        message matches Message::Pong(bytes) ==> spec_message_size(message) == bytes@.len(),
        message matches Message::Close(Some(frame)) ==> spec_message_size(message)
            == vstd::utf8::encode_utf8(frame.reason@).len() + 2,
        message matches Message::Close(None) ==> spec_message_size(message) == 0,
        0 <= spec_message_size(message) <= u32::MAX ==> spec_message_permits(
            spec_message_size(message),
        ) == spec_message_size(message),
        spec_message_size(message) > u32::MAX ==> spec_message_permits(spec_message_size(message))
            == u32::MAX,
{
}

/// The error names who refused a message, the budget or the queue, and whether for want
/// of room or because there is no reader any more.
pub proof fn law_errors_name_who_refused(refusal: Refusal)
    ensures
        spec_budget_error(Refusal::Exhausted) == OutboundError::ByteBudgetExhausted,
        spec_budget_error(Refusal::Closed) == OutboundError::ByteBudgetClosed,
        spec_queue_error(Refusal::Exhausted) == OutboundError::MessageQueueFull,
        spec_queue_error(Refusal::Closed) == OutboundError::MessageQueueClosed,
        spec_budget_error(refusal) != spec_queue_error(refusal),
{
}

/// A refusal concerns the message that was offered: the budget was asked for a permit for
/// each of its bytes, or the queue for a place for that very message with its permits.
pub proof fn law_refusals_concern_the_message(refused: Refused, message: Message)
    requires
        refused.concerns(message),
        spec_message_size(message) <= u32::MAX,
    ensures
        refused matches Refused::Budget(answer) ==> answer.permits() == spec_message_size(message),
        refused matches Refused::Queue(answer) ==> answer.item().message == message
            && answer.item().bytes.spec_count() == spec_message_size(message),
        refused.error() is ByteBudgetExhausted || refused.error() is ByteBudgetClosed
            <==> refused is Budget,
{
}

} // verus!
