//! Which socket controls the desktop, and what its feedback does to the quality.

use crate::clock::Instant;
use crate::messages::QualityCommand;
use crate::quality::{Feedback, Quality};
use crate::values::{NonZeroCount, QualityLevels};
use vstd::prelude::*;

verus! {

/// Numbers one tenure of an input owner; never zero.
#[derive(Clone, Copy, Debug, PartialEq, Eq, Structural)]
pub struct OwnershipEpoch(u64);

impl OwnershipEpoch {
    #[verifier::type_invariant]
    spec fn inv(self) -> bool {
        self.0 > 0
    }

    pub closed spec fn view(&self) -> u64 {
        self.0
    }

    pub open spec fn next_value(value: u64) -> int {
        if value == u64::MAX {
            1
        } else {
            value + 1
        }
    }

    pub fn first() -> (r: Self)
        ensures
            r@ == 1,
    {
        OwnershipEpoch(1)
    }

    pub fn get(self) -> (r: u64)
        ensures
            r == self@,
            r > 0,
    {
        proof {
            use_type_invariant(&self);
        }
        self.0
    }

    pub fn from_nonzero(value: NonZeroCount) -> (r: Self)
        ensures
            r@ == value@,
    {
        OwnershipEpoch(value.get())
    }

    /// The epoch that follows; zero is passed over when the counter wraps.
    pub fn next(self) -> (r: Self)
        ensures
            r@ == Self::next_value(self@),
    {
        match NonZeroCount::new(self.get().wrapping_add(1)) {
            Some(value) => OwnershipEpoch(value.get()),
            None => OwnershipEpoch::first(),
        }
    }
}

#[derive(Clone, Copy, Debug, PartialEq, Eq, Structural)]
pub struct SocketId(u64);

impl SocketId {
    pub closed spec fn view(&self) -> u64 {
        self.0
    }

    pub fn new(value: u64) -> (r: Self)
        ensures
            r@ == value,
    {
        SocketId(value)
    }

    pub fn get(self) -> (r: u64)
        ensures
            r == self@,
    {
        self.0
    }
}

#[derive(Clone, Copy, Debug, PartialEq, Eq, Structural)]
pub enum OwnershipAvailability {
    Available,
    OwnedBy(SocketId),
}

#[derive(Clone, Copy, Debug, PartialEq, Eq, Structural)]
pub struct InputOwnership {
    pub socket: SocketId,
    pub epoch: OwnershipEpoch,
}

#[derive(Clone, Copy, Debug, PartialEq, Eq, Structural)]
pub enum OwnershipState {
    Active,
    Busy,
}

#[derive(Clone, Copy, Debug, PartialEq, Eq, Structural)]
pub enum ReleaseOutcome {
    Released,
    NotInputOwner,
}

#[derive(Clone, Copy, Debug, PartialEq, Eq, Structural)]
pub enum InputOutcome {
    Sent,
    NotInputOwner,
}

#[derive(Clone, Copy, Debug, PartialEq, Eq, Structural)]
pub enum FeedbackOutcome {
    Applied(QualityLevels),
    NotInputOwner,
}

/// What an acquisition needs: nothing, or that held input is released first.
#[derive(Clone, Copy, Debug, PartialEq, Eq, Structural)]
pub enum AcquirePlan {
    Settled(OwnershipState),
    ResetInput,
}

#[derive(Clone, Copy, Debug, PartialEq, Eq, Structural)]
pub enum ReleasePlan {
    NotInputOwner,
    ResetInput(InputOwnership),
}

/// What feedback leads to; a command is sent before the outcome is reported.
#[derive(Clone, Copy, Debug, PartialEq, Eq, Structural)]
pub struct FeedbackPlan {
    pub outcome: FeedbackOutcome,
    pub command: Option<QualityCommand>,
}

/// The holder of the input and the epoch that the next holder gets. It is consulted
/// and changed under one lock, which is held while a reset is being queued.
#[derive(Clone, Copy, Debug, PartialEq, Eq, Structural)]
pub struct OwnershipBook {
    pub input_owner: Option<InputOwnership>,
    pub next_epoch: OwnershipEpoch,
}

/// Who holds the input under which epoch, and the epoch that the next holder gets.
pub struct Standing {
    pub owner: Option<(SocketId, u64)>,
    pub next: u64,
}

impl Standing {
    pub open spec fn acquired_by(self, socket: SocketId) -> Self {
        Standing {
            owner: Some((socket, self.next)),
            next: OwnershipEpoch::next_value(self.next) as u64,
        }
    }

    pub open spec fn freed(self) -> Self {
        Standing { owner: None, next: self.next }
    }
}

/// The settings that a quality asks the encoder for.
pub open spec fn settings_of(quality: Quality) -> QualityCommand {
    QualityCommand {
        bitrate_kbps: quality.levels.bitrate,
        fps: quality.levels.fps,
        scale_percent: quality.levels.scale,
        crf: quality.crf,
        chroma: quality.chroma,
    }
}

impl OwnershipBook {
    pub open spec fn owned_by(self, socket: SocketId) -> bool {
        self.input_owner is Some && self.input_owner->0.socket == socket
    }

    pub open spec fn spec_availability(self) -> OwnershipAvailability {
        match self.input_owner {
            Some(owner) => OwnershipAvailability::OwnedBy(owner.socket),
            None => OwnershipAvailability::Available,
        }
    }

    /// What a socket that asks for the input is told.
    pub open spec fn acquire_plan(self, socket: SocketId) -> AcquirePlan {
        match self.input_owner {
            Some(owner) if owner.socket == socket => AcquirePlan::Settled(OwnershipState::Active),
            Some(_) => AcquirePlan::Settled(OwnershipState::Busy),
            None => AcquirePlan::ResetInput,
        }
    }

    /// What a socket that gives the input up is told.
    pub open spec fn release_plan(self, socket: SocketId) -> ReleasePlan {
        match self.input_owner {
            Some(owner) if owner.socket == socket => ReleasePlan::ResetInput(owner),
            _ => ReleasePlan::NotInputOwner,
        }
    }

    pub open spec fn standing(self) -> Standing {
        Standing {
            owner: match self.input_owner {
                Some(owner) => Some((owner.socket, owner.epoch@)),
                None => None,
            },
            next: self.next_epoch@,
        }
    }

    pub fn new() -> (r: Self)
        ensures
            r.input_owner is None,
            r.next_epoch@ == 1,
    {
        OwnershipBook { input_owner: None, next_epoch: OwnershipEpoch::first() }
    }

    /// A free input is acquired once held input was released; one that is held stays
    /// with its owner.
    pub fn acquire(&self, socket: SocketId) -> (r: AcquirePlan)
        ensures
            r == match self.input_owner {
                Some(owner) => AcquirePlan::Settled(
                    if owner.socket == socket {
                        OwnershipState::Active
                    } else {
                        OwnershipState::Busy
                    },
                ),
                None => AcquirePlan::ResetInput,
            },
            r == self.acquire_plan(socket),
    {
        match self.input_owner {
            Some(owner) => {
                if owner.socket == socket {
                    AcquirePlan::Settled(OwnershipState::Active)
                } else {
                    AcquirePlan::Settled(OwnershipState::Busy)
                }
            },
            None => AcquirePlan::ResetInput,
        }
    }

    /// The reset was queued: the socket owns the input under a fresh epoch. The reset
    /// stands in the queue before the epoch becomes valid, so no command of the new
    /// owner can overtake it.
    pub fn acquired(&mut self, socket: SocketId) -> (epoch: OwnershipEpoch)
        requires
            old(self).input_owner is None,
        ensures
            epoch == old(self).next_epoch,
            final(self).input_owner == Some(InputOwnership { socket, epoch }),
            final(self).next_epoch@ == OwnershipEpoch::next_value(epoch@),
            final(self).standing() == old(self).standing().acquired_by(socket),
    {
        let epoch = self.next_epoch;
        self.next_epoch = epoch.next();
        self.input_owner = Some(InputOwnership { socket, epoch });
        epoch
    }

    /// Only the owner releases the input, and held input is released first.
    pub fn release(&self, socket: SocketId) -> (r: ReleasePlan)
        ensures
            r == if self.owned_by(socket) {
                ReleasePlan::ResetInput(self.input_owner->0)
            } else {
                ReleasePlan::NotInputOwner
            },
            r == self.release_plan(socket),
    {
        match self.input_owner {
            Some(owner) => {
                if owner.socket == socket {
                    ReleasePlan::ResetInput(owner)
                } else {
                    ReleasePlan::NotInputOwner
                }
            },
            None => ReleasePlan::NotInputOwner,
        }
    }

    /// The reset was queued: nobody owns the input.
    pub fn released(&mut self)
        ensures
            final(self).input_owner is None,
            final(self).next_epoch == old(self).next_epoch,
            final(self).standing() == old(self).standing().freed(),
    {
        self.input_owner = None;
    }

    pub fn availability(&self) -> (r: OwnershipAvailability)
        ensures
            r == self.spec_availability(),
    {
        match self.input_owner {
            Some(owner) => OwnershipAvailability::OwnedBy(owner.socket),
            None => OwnershipAvailability::Available,
        }
    }

    /// The epoch under which the socket may send input.
    pub open spec fn spec_epoch(self, socket: SocketId) -> Option<OwnershipEpoch> {
        if self.owned_by(socket) {
            Some(self.input_owner->0.epoch)
        } else {
            None
        }
    }

    pub fn epoch(&self, socket: SocketId) -> (r: Option<OwnershipEpoch>)
        ensures
            r == self.spec_epoch(socket),
    {
        match self.input_owner {
            Some(owner) => {
                if owner.socket == socket {
                    Some(owner.epoch)
                } else {
                    None
                }
            },
            None => None,
        }
    }

    /// Whether feedback of a socket has this effect on the quality and leads to this plan.
    pub open spec fn takes_feedback(
        self,
        socket: SocketId,
        feedback: Feedback,
        now: Instant,
        before: Quality,
        after: Quality,
        plan: FeedbackPlan,
    ) -> bool {
        if self.owned_by(socket) {
            &&& before.updated(feedback, now, after)
            &&& plan.outcome == FeedbackOutcome::Applied(after.levels)
            &&& plan.command == if after.rung() == before.rung() {
                None
            } else {
                Some(settings_of(after))
            }
        } else {
            &&& after == before
            &&& plan.outcome == FeedbackOutcome::NotInputOwner
            &&& plan.command is None
        }
    }

    /// The owner's feedback is applied to the quality, and a change becomes a command;
    /// anyone else's is ignored.
    pub fn feedback(
        &self,
        quality: &mut Quality,
        socket: SocketId,
        feedback: &Feedback,
        now: Instant,
    ) -> (r: FeedbackPlan)
        ensures
            !self.owned_by(socket) ==> *final(quality) == *old(quality) && r == (FeedbackPlan {
                outcome: FeedbackOutcome::NotInputOwner,
                command: None,
            }),
            self.owned_by(socket) ==> {
                &&& old(quality).updated(*feedback, now, *final(quality))
                &&& r.outcome == FeedbackOutcome::Applied(final(quality).levels)
                &&& r.command == if final(quality).rung() == old(quality).rung() {
                    None
                } else {
                    Some(
                        QualityCommand {
                            bitrate_kbps: final(quality).levels.bitrate,
                            fps: final(quality).levels.fps,
                            scale_percent: final(quality).levels.scale,
                            crf: final(quality).crf,
                            chroma: final(quality).chroma,
                        },
                    )
                }
            },
            self.takes_feedback(socket, *feedback, now, *old(quality), *final(quality), r),
    {
        let owned = match self.input_owner {
            Some(owner) => owner.socket == socket,
            None => false,
        };
        if !owned {
            return FeedbackPlan { outcome: FeedbackOutcome::NotInputOwner, command: None };
        }
        let command = match quality.update(feedback, now) {
            Some(_) => Some(
                QualityCommand {
                    bitrate_kbps: quality.levels.bitrate,
                    fps: quality.levels.fps,
                    scale_percent: quality.levels.scale,
                    crf: quality.crf,
                    chroma: quality.chroma,
                },
            ),
            None => None,
        };
        FeedbackPlan { outcome: FeedbackOutcome::Applied(quality.levels), command }
    }
}

/// Successive owners hold different epochs, and no epoch is zero.
pub proof fn law_epochs_differ(epoch: OwnershipEpoch)
    ensures
        OwnershipEpoch::next_value(epoch@) != epoch@,
        0 < OwnershipEpoch::next_value(epoch@) <= u64::MAX,
{
}

/// At most one socket may send input.
pub proof fn law_one_owner(book: OwnershipBook, a: SocketId, b: SocketId)
    requires
        book.spec_epoch(a) is Some,
        book.spec_epoch(b) is Some,
    ensures
        a == b,
{
}

/// The input goes to whoever asks for it while it is free and stays with its owner until
/// that one gives it up: another socket is told that it is busy and can release nothing.
pub proof fn law_the_owner_keeps_the_input(book: OwnershipBook, socket: SocketId)
    ensures
        book.acquire_plan(socket) == AcquirePlan::ResetInput <==> book.input_owner is None,
        book.acquire_plan(socket) == AcquirePlan::Settled(OwnershipState::Active)
            <==> book.input_owner is Some && book.input_owner->0.socket == socket,
        book.acquire_plan(socket) == AcquirePlan::Settled(OwnershipState::Busy)
            <==> book.input_owner is Some && book.input_owner->0.socket != socket,
        book.input_owner is Some && book.input_owner->0.socket == socket ==> book.release_plan(
            socket,
        ) == ReleasePlan::ResetInput(book.input_owner->0),
        book.input_owner is None || book.input_owner->0.socket != socket ==> book.release_plan(
            socket,
        ) == ReleasePlan::NotInputOwner,
        book.owned_by(socket) <==> book.input_owner is Some && book.input_owner->0.socket == socket,
        book.spec_epoch(socket) == if book.input_owner is Some && book.input_owner->0.socket
            == socket {
            Some(book.input_owner->0.epoch)
        } else {
            None
        },
        book.spec_availability() == OwnershipAvailability::Available <==> book.input_owner is None,
        book.input_owner is Some ==> book.spec_availability() == OwnershipAvailability::OwnedBy(
            book.input_owner->0.socket,
        ),
{
}

/// A socket that acquires the input holds it under the epoch that was next; releasing
/// it keeps the count, so that the next owner gets a later epoch. Zero is passed over.
pub proof fn law_each_tenure_has_an_epoch(standing: Standing, first: SocketId, second: SocketId)
    requires
        standing.next > 0,
    ensures
        standing.acquired_by(first).owner == Some((first, standing.next)),
        standing.acquired_by(first).freed().owner is None,
        standing.acquired_by(first).freed().acquired_by(second).owner is Some,
        standing.next < u64::MAX ==> standing.acquired_by(first).freed().acquired_by(second).owner
            == Some((second, (standing.next + 1) as u64)),
        standing.next == u64::MAX ==> standing.acquired_by(first).freed().acquired_by(second).owner
            == Some((second, 1u64)),
{
}

/// The owner's feedback moves the quality, is answered with the levels that follow, and
/// asks the encoder for new settings exactly where they differ; anybody else's feedback
/// changes nothing and is told so.
pub proof fn law_only_the_owner_moves_the_quality(
    book: OwnershipBook,
    socket: SocketId,
    feedback: Feedback,
    now: Instant,
    before: Quality,
    after: Quality,
    plan: FeedbackPlan,
)
    requires
        book.takes_feedback(socket, feedback, now, before, after, plan),
    ensures
        ({
            let owner = book.input_owner is Some && book.input_owner->0.socket == socket;
            &&& !owner ==> after == before && plan.command is None && plan.outcome
                == FeedbackOutcome::NotInputOwner
            &&& owner ==> before.updated(feedback, now, after) && plan.outcome
                == FeedbackOutcome::Applied(after.levels)
            &&& owner && (after.levels.bitrate@ != before.levels.bitrate@ || after.levels.fps@
                != before.levels.fps@ || after.levels.scale@ != before.levels.scale@
                || after.chroma != before.chroma) ==> plan.command is Some
            &&& owner && after.levels == before.levels && after.chroma == before.chroma
                ==> plan.command is None
            &&& plan.command matches Some(command) ==> {
                &&& command.bitrate_kbps == after.levels.bitrate
                &&& command.fps == after.levels.fps
                &&& command.scale_percent == after.levels.scale
                &&& command.crf == after.crf
                &&& command.chroma == after.chroma
            }
        }),
{
}

} // verus!
