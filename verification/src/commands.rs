//! Which queued commands reach the compositor, and why one could not be queued.

use crate::readiness::{Readiness, ReadinessState};
use crate::session::OwnershipEpoch;
use vstd::prelude::*;

verus! {

pub const COMMAND_COUNT: usize = 128;

pub const COMMAND_BYTES: usize = 0x20_0000;

/// On whose behalf a command was queued.
#[derive(Clone, Copy, Debug, PartialEq, Eq, Structural)]
pub enum Authority {
    System,
    Owner(OwnershipEpoch),
}

/// The epoch whose commands are obeyed, or zero.
#[derive(Clone, Copy, Debug, PartialEq, Eq, Structural)]
pub struct ActiveEpoch {
    pub value: u64,
}

impl ActiveEpoch {
    pub fn none() -> (r: Self)
        ensures
            r.value == 0,
    {
        ActiveEpoch { value: 0 }
    }

    pub fn set_active_ownership(&mut self, epoch: OwnershipEpoch)
        ensures
            final(self).value == epoch@,
    {
        self.value = epoch.get();
    }

    pub fn clear_active_ownership(&mut self)
        ensures
            final(self).value == 0,
    {
        self.value = 0;
    }

    /// The gateway's own commands always pass; an owner's only while it is the owner.
    pub open spec fn spec_authorizes(self, authority: Authority) -> bool {
        match authority {
            Authority::System => true,
            Authority::Owner(epoch) => epoch@ == self.value,
        }
    }

    pub fn authorizes(self, authority: Authority) -> (r: bool)
        ensures
            r == self.spec_authorizes(authority),
    {
        match authority {
            Authority::System => true,
            Authority::Owner(epoch) => epoch.get() == self.value,
        }
    }
}

#[derive(Clone, Copy, Debug, PartialEq, Eq, Structural)]
pub enum CommandSinkError {
    LengthOverflow { length: usize },
    ByteBudgetClosed,
    ByteBudgetStalled,
    WriterStopped,
    CountBudgetStalled,
}

/// How a wait with a deadline ended.
#[derive(Clone, Copy, Debug, PartialEq, Eq, Structural)]
pub enum Waited {
    Done,
    Closed,
    Elapsed,
}

pub open spec fn permits_of(length: usize) -> Result<u32, CommandSinkError> {
    if length <= u32::MAX {
        Ok(length as u32)
    } else {
        Err(CommandSinkError::LengthOverflow { length })
    }
}

pub open spec fn budget_result(waited: Waited) -> Result<(), CommandSinkError> {
    match waited {
        Waited::Done => Ok(()),
        Waited::Closed => Err(CommandSinkError::ByteBudgetClosed),
        Waited::Elapsed => Err(CommandSinkError::ByteBudgetStalled),
    }
}

pub open spec fn queue_result(waited: Waited) -> Result<(), CommandSinkError> {
    match waited {
        Waited::Done => Ok(()),
        Waited::Closed => Err(CommandSinkError::WriterStopped),
        Waited::Elapsed => Err(CommandSinkError::CountBudgetStalled),
    }
}

/// The share of the byte budget that an encoded command takes.
pub fn command_permits(length: usize) -> (r: Result<u32, CommandSinkError>)
    ensures
        r == if length <= u32::MAX {
            Ok::<u32, CommandSinkError>(length as u32)
        } else {
            Err(CommandSinkError::LengthOverflow { length })
        },
        r == permits_of(length),
{
    if length as u64 <= u32::MAX as u64 {
        Ok(length as u32)
    } else {
        Err(CommandSinkError::LengthOverflow { length })
    }
}

/// What the wait for a share of the byte budget means for the command.
pub fn byte_budget_outcome(waited: Waited) -> (r: Result<(), CommandSinkError>)
    ensures
        r == match waited {
            Waited::Done => Ok::<(), CommandSinkError>(()),
            Waited::Closed => Err(CommandSinkError::ByteBudgetClosed),
            Waited::Elapsed => Err(CommandSinkError::ByteBudgetStalled),
        },
        r == budget_result(waited),
{
    match waited {
        Waited::Done => Ok(()),
        Waited::Closed => Err(CommandSinkError::ByteBudgetClosed),
        Waited::Elapsed => Err(CommandSinkError::ByteBudgetStalled),
    }
}

/// What the wait for a place in the queue means for the command.
pub fn queue_outcome(waited: Waited) -> (r: Result<(), CommandSinkError>)
    ensures
        r == match waited {
            Waited::Done => Ok::<(), CommandSinkError>(()),
            Waited::Closed => Err(CommandSinkError::WriterStopped),
            Waited::Elapsed => Err(CommandSinkError::CountBudgetStalled),
        },
        r == queue_result(waited),
{
    match waited {
        Waited::Done => Ok(()),
        Waited::Closed => Err(CommandSinkError::WriterStopped),
        Waited::Elapsed => Err(CommandSinkError::CountBudgetStalled),
    }
}

/// Takes in how sending a command ended and says which error is fatal: the session
/// does not outlive a command that was not sent, and is not ready any more.
pub fn command_settled<E>(readiness: &mut Readiness, outcome: Result<(), E>) -> (fatal: Option<E>)
    ensures
        match outcome {
            Ok(()) => fatal is None && final(readiness)@ == old(readiness)@,
            Err(error) => fatal == Some(error) && final(readiness)@ == ReadinessState::Stopped,
        },
{
    match outcome {
        Ok(()) => None,
        Err(error) => {
            readiness.stop();
            Some(error)
        },
    }
}

/// A request that leaves the queue, with the epoch that is active at that moment.
pub struct Turn {
    pub authority: Authority,
    pub active: ActiveEpoch,
}

impl Turn {
    pub open spec fn obeyed(self) -> bool {
        self.active.spec_authorizes(self.authority)
    }
}

/// The requests that are delivered, in order: each is looked at when its turn comes.
pub open spec fn delivered(turns: Seq<Turn>) -> Seq<Turn> {
    turns.filter(|turn: Turn| turn.obeyed())
}

/// After a release nothing that an owner queued is delivered any more, and under a
/// new owner nothing that an earlier one queued.
pub proof fn law_stale_input_is_dropped(epoch: OwnershipEpoch, active: ActiveEpoch)
    requires
        epoch@ > 0,
        active.value != epoch@,
    ensures
        !active.spec_authorizes(Authority::Owner(epoch)),
        active.spec_authorizes(Authority::System),
{
}

proof fn lemma_delivered_were_queued(turns: Seq<Turn>, turn: Turn)
    requires
        delivered(turns).contains(turn),
    ensures
        turns.contains(turn),
    decreases turns.len(),
{
    reveal(Seq::filter);
    if turns.len() > 0 {
        let earlier = turns.drop_last();
        if delivered(earlier).contains(turn) {
            lemma_delivered_were_queued(earlier, turn);
            let i = choose|i: int| 0 <= i < earlier.len() && earlier[i] == turn;
            assert(turns[i] == turn);
        } else {
            let all = delivered(turns);
            let i = choose|i: int| 0 <= i < all.len() && all[i] == turn;
            if i < delivered(earlier).len() {
                assert(delivered(earlier)[i] == turn);
            }
            assert(turns[turns.len() - 1] == turn);
        }
    }
}

/// The order of the queue is kept, however the active epoch changes in between: what
/// is queued earlier is delivered earlier. Whatever is delivered is the gateway's own
/// or that of the owner at that moment, and nothing of that kind is left out.
pub proof fn law_delivery_is_in_order(earlier: Seq<Turn>, later: Seq<Turn>, turn: Turn)
    ensures
        delivered(earlier + later) == delivered(earlier) + delivered(later),
        delivered(earlier).contains(turn) <==> earlier.contains(turn) && turn.obeyed(),
{
    broadcast use vstd::seq_lib::group_filter_ensures;

    let obeyed = |turn: Turn| turn.obeyed();
    Seq::filter_distributes_over_add(earlier, later, obeyed);
    if delivered(earlier).contains(turn) {
        let i = choose|i: int| 0 <= i < delivered(earlier).len() && delivered(earlier)[i] == turn;
        assert(obeyed(earlier.filter(obeyed)[i]));
        lemma_delivered_were_queued(earlier, turn);
    }
    if earlier.contains(turn) && turn.obeyed() {
        assert(obeyed(turn));
        assert(earlier.filter(obeyed).contains(turn));
    }
}

/// The commands of the present owner, and of no other, are obeyed; while nobody owns the
/// input only the gateway's own are.
pub proof fn law_the_present_owner_is_obeyed(epoch: OwnershipEpoch, active: ActiveEpoch)
    requires
        epoch@ > 0,
    ensures
        active.spec_authorizes(Authority::Owner(epoch)) <==> active.value == epoch@,
        active.value == 0 ==> !active.spec_authorizes(Authority::Owner(epoch)),
        active.spec_authorizes(Authority::System),
{
}

/// A command takes a permit for each byte, if so many can be counted. A wait that ends in
/// time lets it pass; where it does not, the error tells what was waited for and whether
/// it is gone or only stalled.
pub proof fn law_waits_tell_what_stalled(length: usize)
    ensures
        length <= 0xffff_ffff ==> permits_of(length) == Ok::<u32, CommandSinkError>(length as u32),
        length > 0xffff_ffff ==> permits_of(length) == Err::<u32, CommandSinkError>(
            CommandSinkError::LengthOverflow { length },
        ),
        budget_result(Waited::Done) is Ok,
        queue_result(Waited::Done) is Ok,
        budget_result(Waited::Closed) == Err::<(), CommandSinkError>(
            CommandSinkError::ByteBudgetClosed,
        ),
        budget_result(Waited::Elapsed) == Err::<(), CommandSinkError>(
            CommandSinkError::ByteBudgetStalled,
        ),
        queue_result(Waited::Closed) == Err::<(), CommandSinkError>(
            CommandSinkError::WriterStopped,
        ),
        queue_result(Waited::Elapsed) == Err::<(), CommandSinkError>(
            CommandSinkError::CountBudgetStalled,
        ),
{
}

} // verus!
