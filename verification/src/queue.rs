//! What the byte budget and the message queue answer.
//!
//! The answers can be made nowhere but here, so whoever holds one knows that the
//! budget or the queue gave it.

use crate::outbound::OutboundItem;
use std::sync::Arc;
use tokio::sync::mpsc::Sender;
use tokio::sync::{OwnedSemaphorePermit, Semaphore};
use vstd::prelude::*;

verus! {

/// `tokio::sync::Semaphore`: a count of permits shared between tasks. Nothing is
/// claimed of it; what it holds changes under other tasks' hands.
#[verifier::external_type_specification]
#[verifier::external_body]
pub struct ExSemaphore(tokio::sync::Semaphore);

/// `tokio::sync::mpsc::Sender`: the sending end of a bounded channel. Nothing is
/// claimed of it; the receiving end belongs to another task.
#[verifier::external_type_specification]
#[verifier::external_body]
#[verifier::reject_recursive_types(T)]
pub struct ExSender<T>(tokio::sync::mpsc::Sender<T>);

/// Why a budget or a queue did not take something.
#[derive(Clone, Copy, Debug, PartialEq, Eq, Structural)]
pub enum Refusal {
    Exhausted,
    Closed,
}

/// Permits taken from the byte budget; they go back when the value is dropped.
#[derive(Debug)]
pub struct HeldBytes {
    permit: OwnedSemaphorePermit,
    count: usize,
}

impl HeldBytes {
    pub closed spec fn spec_count(&self) -> int {
        self.count as int
    }

    pub fn count(&self) -> (r: usize)
        ensures
            r == self.spec_count(),
    {
        self.count
    }
}

/// The byte budget refused a number of permits.
#[derive(Debug)]
pub struct BudgetRefusal {
    reason: Refusal,
    permits: u32,
}

impl BudgetRefusal {
    pub closed spec fn spec_reason(&self) -> Refusal {
        self.reason
    }

    pub closed spec fn permits(&self) -> u32 {
        self.permits
    }

    pub fn reason(&self) -> (r: Refusal)
        ensures
            r == self.spec_reason(),
    {
        self.reason
    }
}

/// The queue refused an item.
pub struct QueueRefusal {
    reason: Refusal,
    item: Ghost<OutboundItem>,
}

impl QueueRefusal {
    pub closed spec fn spec_reason(&self) -> Refusal {
        self.reason
    }

    pub closed spec fn item(&self) -> OutboundItem {
        self.item@
    }

    pub fn reason(&self) -> (r: Refusal)
        ensures
            r == self.spec_reason(),
    {
        self.reason
    }
}

/// The queue took an item.
pub struct Receipt {
    item: Ghost<OutboundItem>,
}

impl Receipt {
    pub closed spec fn item(&self) -> OutboundItem {
        self.item@
    }
}

/// `tokio::sync::Semaphore::try_acquire_many_owned`: takes that many permits at once,
/// or says that there are too few or that the semaphore is closed. Claimed: what it
/// takes, or refuses, is as many permits as it was asked for, and there are never too
/// few to take none. For the rest, which of the three outcomes it is depends on the
/// other tasks and is left open. The function panics on more than `usize::MAX >> 3`
/// permits.
#[verifier::external_body]
pub(crate) fn try_acquire(bytes: &Arc<Semaphore>, permits: u32) -> (r: Result<
    HeldBytes,
    BudgetRefusal,
>)
    requires
        permits <= usize::MAX / 8,
    ensures
        r matches Ok(held) ==> held.spec_count() == permits,
        r matches Err(refused) ==> refused.permits() == permits,
        r matches Err(refused) ==> refused.spec_reason() is Exhausted ==> permits > 0,
{
    let reason = match Arc::clone(bytes).try_acquire_many_owned(permits) {
        Ok(permit) => {
            let count: usize = permit.num_permits();
            return Ok(HeldBytes { permit, count });
        },
        Err(tokio::sync::TryAcquireError::NoPermits) => Refusal::Exhausted,
        Err(tokio::sync::TryAcquireError::Closed) => Refusal::Closed,
    };
    Err(BudgetRefusal { reason, permits })
}

/// `tokio::sync::mpsc::Sender::try_send`: queues the item, or hands it back and says
/// that the channel is full or closed. Claimed: a receipt is of the item that was
/// queued, and a refusal of the item that is handed back. Which of the three outcomes
/// it is depends on the receiving task and is left open.
#[verifier::external_body]
pub(crate) fn try_send(tx: &Sender<OutboundItem>, item: OutboundItem) -> (r: Result<
    Receipt,
    (QueueRefusal, OutboundItem),
>)
    requires
        item.wf(),
    ensures
        r matches Ok(receipt) ==> receipt.item() == item,
        r matches Err((refused, back)) ==> refused.item() == item && back == item,
{
    let handed_over = Ghost(item);
    let (reason, back) = match tx.try_send(item) {
        Ok(()) => {
            return Ok(Receipt { item: handed_over });
        },
        Err(tokio::sync::mpsc::error::TrySendError::Full(back)) => (Refusal::Exhausted, back),
        Err(tokio::sync::mpsc::error::TrySendError::Closed(back)) => (Refusal::Closed, back),
    };
    Err((QueueRefusal { reason, item: handed_over }, back))
}

} // verus!
