//! From datagrams to viewers: what the receiving task does with each datagram, and
//! what the worker does each time it wakes.

use crate::assembler::{
    consumed, Assembler, AssemblerState, AssemblyOutcome, DroppedPackets, OutcomeView,
    PacketFailure, StreamCursor, Unit,
};
use crate::clock::Instant;
use crate::correlator::{
    metadata_pushed, resynced, unit_pushed, Correlated, Correlation, CorrelationOutcome,
    Correlator, CorrelatorState, PendingUnit, ResyncReason, TimestampAnchor,
};
use crate::drops::{
    drops_added, rejection_added, unmatched_added, MetadataDropReport, MetadataDropSummary,
    PacketDropReport, PacketDropSummary,
};
use crate::hub::{broadcasted, marked, queued_ids, resets, HubState, SubscriberId, VideoHub};
use crate::readiness::{awaiting_after, ready_after, Readiness, ReadinessState};
use crate::rtp::{decode_packet, packet_of, packet_rejection, Packet, PacketReject, PeerAddress};
use crate::values::{FrameMetadata, Generation, GopState, VideoSample};
use vstd::prelude::*;

verus! {

// ---------------------------------------------------------------------------
// Receiving
// ---------------------------------------------------------------------------

/// The receiving task's state.
#[derive(Debug)]
pub struct Intake {
    pub assembler: Assembler,
    pub summary: PacketDropSummary,
}

/// The report after a packet of the stream was consumed: first what it made the
/// assembler drop, then that it was rejected itself.
pub open spec fn report_after(
    pending: Option<PacketDropReport>,
    state: AssemblerState,
    packet: Packet,
) -> Option<PacketDropReport> {
    let step = consumed(state, packet);
    let with_drops = match step.drops {
        Some(dropped) => drops_added(
            pending,
            dropped.packets,
            PacketFailure::Drop(dropped.reason),
        ),
        None => pending,
    };
    match step.outcome {
        Ok(_) => with_drops,
        Err(reason) => rejection_added(with_drops, PacketFailure::Reject(reason)),
    }
}

/// Whether a datagram has this effect on the assembler and the report, and gives this
/// unit.
pub open spec fn takes_in(
    state: AssemblerState,
    pending: Option<PacketDropReport>,
    source: PeerAddress,
    datagram: Seq<u8>,
    state_after: AssemblerState,
    pending_after: Option<PacketDropReport>,
    unit: Option<Unit>,
) -> bool {
    if !source.spec_is_loopback() {
        &&& unit is None
        &&& state_after == state
        &&& pending_after == rejection_added(
            pending,
            PacketFailure::Reject(PacketReject::NonLoopbackSource { address: source }),
        )
    } else if packet_rejection(datagram) is Some {
        &&& unit is None
        &&& state_after == state
        &&& pending_after == rejection_added(
            pending,
            PacketFailure::Reject(packet_rejection(datagram)->0),
        )
    } else {
        exists|packet: Packet| #[trigger]
            packet_of(datagram, packet) && packet_taken_in(
                state,
                pending,
                packet,
                state_after,
                pending_after,
                unit,
            )
    }
}

/// The same of a packet that a datagram was read as.
pub open spec fn packet_taken_in(
    state: AssemblerState,
    pending: Option<PacketDropReport>,
    packet: Packet,
    state_after: AssemblerState,
    pending_after: Option<PacketDropReport>,
    unit: Option<Unit>,
) -> bool {
    let step = consumed(state, packet);
    &&& state_after == step.state
    &&& pending_after == report_after(pending, state, packet)
    &&& match unit {
        Some(unit) => step.outcome == Ok::<OutcomeView, PacketReject>(
            OutcomeView::Complete {
                data: unit.data@,
                kind: unit.kind,
                continuity: unit.continuity,
            },
        ) && unit.timestamp == packet.timestamp && unit.generation == packet.generation,
        None => !(step.outcome matches Ok(OutcomeView::Complete { .. })),
    }
}

impl Intake {
    pub fn new(now: Instant) -> (r: Self)
        ensures
            r.assembler@ == (AssemblerState {
                cursor: StreamCursor::Fresh,
                keyframe: GopState::KeyframeCached,
                unit: None,
            }),
            r.summary.pending is None,
            r.summary.last_report == now,
    {
        Intake { assembler: Assembler::default(), summary: PacketDropSummary::new(now) }
    }

    /// One datagram arrives. Only loopback sources and valid packets reach the
    /// assembler; a unit comes out exactly when the assembler completes one.
    pub fn receive(&mut self, source: PeerAddress, datagram: &[u8]) -> (r: Option<Unit>)
        ensures
            final(self).summary.last_report == old(self).summary.last_report,
            !source.spec_is_loopback() ==> {
                &&& r is None
                &&& final(self).assembler@ == old(self).assembler@
                &&& final(self).summary.pending == rejection_added(
                    old(self).summary.pending,
                    PacketFailure::Reject(PacketReject::NonLoopbackSource { address: source }),
                )
            },
            source.spec_is_loopback() && packet_rejection(datagram@) is Some ==> {
                &&& r is None
                &&& final(self).assembler@ == old(self).assembler@
                &&& final(self).summary.pending == rejection_added(
                    old(self).summary.pending,
                    PacketFailure::Reject(packet_rejection(datagram@)->0),
                )
            },
            source.spec_is_loopback() && packet_rejection(datagram@) is None ==> exists|
                packet: Packet,
            | #[trigger]
                packet_of(datagram@, packet) && {
                    let step = consumed(old(self).assembler@, packet);
                    &&& final(self).assembler@ == step.state
                    &&& final(self).summary.pending == report_after(
                        old(self).summary.pending,
                        old(self).assembler@,
                        packet,
                    )
                    &&& match r {
                        Some(unit) => step.outcome == Ok::<OutcomeView, PacketReject>(
                            OutcomeView::Complete {
                                data: unit.data@,
                                kind: unit.kind,
                                continuity: unit.continuity,
                            },
                        ) && unit.timestamp == packet.timestamp && unit.generation
                            == packet.generation,
                        None => !(step.outcome matches Ok(OutcomeView::Complete { .. })),
                    }
                },
            takes_in(
                old(self).assembler@,
                old(self).summary.pending,
                source,
                datagram@,
                final(self).assembler@,
                final(self).summary.pending,
                r,
            ),
    {
        if !source.is_loopback() {
            self.summary.record_rejection(
                PacketFailure::Reject(PacketReject::NonLoopbackSource { address: source }),
            );
            return None;
        }
        let packet = match decode_packet(datagram) {
            Ok(packet) => packet,
            Err(reason) => {
                self.summary.record_rejection(PacketFailure::Reject(reason));
                return None;
            },
        };
        assert(packet_of(datagram@, packet));
        let result = self.assembler.consume(packet);
        match result.drops {
            Some(dropped) => self.summary.record(
                dropped.packets,
                PacketFailure::Drop(dropped.reason),
            ),
            None => {},
        }
        match result.outcome {
            Ok(AssemblyOutcome::Complete(unit)) => Some(unit),
            Ok(AssemblyOutcome::Dropped) | Ok(AssemblyOutcome::Incomplete) => None,
            Err(reason) => {
                self.summary.record_rejection(PacketFailure::Reject(reason));
                None
            },
        }
    }
}

/// The share of the byte budget that a unit takes while it waits, if the budget can
/// count that far.
pub fn unit_permits(unit: &Unit) -> (r: Option<u32>)
    ensures
        r == if unit.data@.len() <= u32::MAX {
            Some(unit.data@.len() as u32)
        } else {
            None
        },
{
    let length: usize = unit.data.len();
    if length as u64 <= u32::MAX as u64 {
        Some(length as u32)
    } else {
        None
    }
}

// ---------------------------------------------------------------------------
// The worker
// ---------------------------------------------------------------------------

#[derive(Debug)]
pub enum PipelineMessage {
    Metadata(FrameMetadata),
    Unit(PendingUnit),
}

#[derive(Clone, Copy, Debug, PartialEq, Eq, Structural)]
pub enum Timer {
    CorrelatorDeadline,
    MetadataReportDeadline,
}

/// What ended the worker's sleep.
#[derive(Debug)]
pub enum WorkerWake {
    Message(PipelineMessage),
    PipelineClosed,
    CorrelatorDeadline,
    MetadataReportDeadline,
}

#[derive(Clone, Copy, Debug, PartialEq, Eq, Structural)]
pub enum KeyframeState {
    Cached,
    Missing,
}

/// Tells the compositor whether viewers can decode the named generation.
#[derive(Clone, Copy, Debug, PartialEq, Eq, Structural)]
pub struct KeyframeReadiness {
    pub generation: Generation,
    pub state: KeyframeState,
}

/// What the worker does before it sleeps.
#[derive(Debug)]
pub enum WorkerPlan {
    /// Pending correlation work is overdue: resynchronise before any further input.
    Expired(WorkerStep),
    /// Log the report, if any, and sleep until a message or the timer.
    Sleep { report: Option<MetadataDropReport>, timer: Option<(Instant, Timer)> },
}

/// What follows from a wake.
#[derive(Debug)]
pub enum WorkerStep {
    /// Nothing but to go round the loop again.
    Continue,
    /// The stream was resynchronised; the command, if any, is to be sent.
    Resync { reason: ResyncReason, command: Option<KeyframeReadiness> },
    /// These frames are to be delivered one after the other.
    Deliver(Vec<VideoSample>),
    /// There will be no more messages.
    Closed,
}

#[derive(Debug)]
pub struct Delivery {
    pub queued: Vec<SubscriberId>,
    pub command: Option<KeyframeReadiness>,
}

#[derive(Debug)]
pub struct VideoWorker {
    pub correlator: Correlator,
    pub metadata_summary: MetadataDropSummary,
    pub ready_generation: Option<Generation>,
}

/// The earlier of the two deadlines; a tie goes to the correlator.
pub open spec fn first_timer(
    correlation: Option<Instant>,
    metadata: Option<Instant>,
) -> Option<(Instant, Timer)> {
    match (correlation, metadata) {
        (Some(correlation), Some(metadata)) => if correlation.nanos <= metadata.nanos {
            Some((correlation, Timer::CorrelatorDeadline))
        } else {
            Some((metadata, Timer::MetadataReportDeadline))
        },
        (Some(correlation), None) => Some((correlation, Timer::CorrelatorDeadline)),
        (None, Some(metadata)) => Some((metadata, Timer::MetadataReportDeadline)),
        (None, None) => None,
    }
}

pub fn next_timer(correlation: Option<Instant>, metadata: Option<Instant>) -> (r: Option<
    (Instant, Timer),
>)
    ensures
        r == first_timer(correlation, metadata),
{
    match (correlation, metadata) {
        (Some(correlation), Some(metadata)) => {
            if correlation.nanos <= metadata.nanos {
                Some((correlation, Timer::CorrelatorDeadline))
            } else {
                Some((metadata, Timer::MetadataReportDeadline))
            }
        },
        (Some(correlation), None) => Some((correlation, Timer::CorrelatorDeadline)),
        (None, Some(metadata)) => Some((metadata, Timer::MetadataReportDeadline)),
        (None, None) => None,
    }
}

/// The generation announced as decodable after a frame of `generation`, and the
/// command that announces the change, if it is one.
pub open spec fn announced(
    ready: Option<Generation>,
    generation: Generation,
    state: GopState,
) -> (Option<Generation>, Option<KeyframeReadiness>) {
    match state {
        GopState::KeyframeCached => (
            Some(generation),
            if ready == Some(generation) {
                None
            } else {
                Some(KeyframeReadiness { generation, state: KeyframeState::Cached })
            },
        ),
        GopState::Recovering => (None, withdrawn(ready)),
    }
}

/// The command that takes back an announcement.
pub open spec fn withdrawn(ready: Option<Generation>) -> Option<KeyframeReadiness> {
    match ready {
        Some(generation) => Some(KeyframeReadiness { generation, state: KeyframeState::Missing }),
        None => None,
    }
}

/// Whether `step` is what the correlator's result asks for.
pub open spec fn step_follows(
    step: WorkerStep,
    expected: Correlated,
    ready: Option<Generation>,
) -> bool {
    match expected.outcome {
        crate::correlator::OutcomeView::Frames(frames) => step matches WorkerStep::Deliver(sent)
            && sent@ == frames,
        crate::correlator::OutcomeView::Resync(reason) => step == (WorkerStep::Resync {
            reason,
            command: withdrawn(ready),
        }),
    }
}

/// Whether a frame was delivered as it should be: to the hub's viewers, with what is
/// announced and how ready the desktop is after it.
pub open spec fn delivers(
    hub: HubState,
    hub_after: HubState,
    frame: VideoSample,
    ready: Option<Generation>,
    ready_later: Option<Generation>,
    state: ReadinessState,
    state_after: ReadinessState,
    delivery: Delivery,
) -> bool {
    let cached = hub_after.gop.len() > 0;
    &&& hub_after == broadcasted(hub, frame)
    &&& delivery.queued@ == queued_ids(
        hub.viewers,
        marked(frame, resets(hub.generation, frame)),
    )
    &&& (ready_later, delivery.command) == announced(
        ready,
        frame.metadata.generation,
        if cached {
            GopState::KeyframeCached
        } else {
            GopState::Recovering
        },
    )
    &&& state_after == if cached {
        ready_after(state)
    } else {
        awaiting_after(state)
    }
}

impl VideoWorker {
    pub fn new(now: Instant) -> (r: Self)
        ensures
            r.correlator@ == (CorrelatorState {
                metadata: Seq::empty(),
                units: Seq::empty(),
                last_generation: None,
                anchor: TimestampAnchor::Needed,
                keyframe: GopState::KeyframeCached,
            }),
            r.metadata_summary.pending is None,
            r.metadata_summary.last_report == now,
            r.ready_generation is None,
    {
        VideoWorker {
            correlator: Correlator::new(),
            metadata_summary: MetadataDropSummary::new(now),
            ready_generation: None,
        }
    }

    /// The effect of a correlator result that leaves `expected`, apart from the
    /// correlator itself.
    pub open spec fn follows(
        before: VideoWorker,
        after: VideoWorker,
        ready_before: Readiness,
        ready_after: Readiness,
        step: WorkerStep,
        expected: Correlated,
    ) -> bool {
        &&& after.correlator@ == expected.state
        &&& after.metadata_summary.pending == unmatched_added(
            before.metadata_summary.pending,
            expected.unmatched,
        )
        &&& after.metadata_summary.last_report == before.metadata_summary.last_report
        &&& step_follows(step, expected, before.ready_generation)
        &&& if expected.outcome is Resync {
            after.ready_generation is None && ready_after@ == awaiting_after(ready_before@)
        } else {
            after.ready_generation == before.ready_generation && ready_after@ == ready_before@
        }
    }

    /// Whether a plan is what the worker does at that time before it sleeps.
    pub open spec fn plans(
        before: VideoWorker,
        after: VideoWorker,
        state: ReadinessState,
        state_after: ReadinessState,
        now: Instant,
        plan: WorkerPlan,
    ) -> bool {
        let due = before.correlator.spec_deadline();
        let report = before.metadata_summary.spec_deadline();
        let reports = report is Some && report->0.nanos <= now.nanos;
        if due is Some && due->0.nanos <= now.nanos {
            &&& plan matches WorkerPlan::Expired(step)
            &&& step_follows(
                step,
                resynced(before.correlator@, ResyncReason::UnmatchedDeadline, 0),
                before.ready_generation,
            )
            &&& after.correlator@ == resynced(
                before.correlator@,
                ResyncReason::UnmatchedDeadline,
                0,
            ).state
            &&& after.ready_generation is None
            &&& state_after == awaiting_after(state)
        } else {
            &&& after.correlator == before.correlator
            &&& after.ready_generation == before.ready_generation
            &&& state_after == state
            &&& plan == (WorkerPlan::Sleep {
                report: if reports {
                    before.metadata_summary.pending
                } else {
                    None
                },
                timer: first_timer(
                    due,
                    if reports {
                        None
                    } else {
                        report
                    },
                ),
            })
            &&& after.metadata_summary.pending == if reports {
                None
            } else {
                before.metadata_summary.pending
            }
        }
    }

    fn settle(&mut self, readiness: &mut Readiness, correlation: Correlation) -> (step: WorkerStep)
        ensures
            final(self).correlator == old(self).correlator,
            forall|expected: Correlated|
                correlation.is(expected) && expected.state == old(self).correlator@
                    ==> #[trigger] Self::follows(
                    *old(self),
                    *final(self),
                    *old(readiness),
                    *final(readiness),
                    step,
                    expected,
                ),
    {
        self.metadata_summary.record_unmatched(correlation.unmatched_metadata);
        match correlation.outcome {
            CorrelationOutcome::Frames(frames) => WorkerStep::Deliver(frames),
            CorrelationOutcome::Resync(reason) => {
                readiness.await_keyframe();
                let command = match self.ready_generation.take() {
                    Some(generation) => Some(
                        KeyframeReadiness { generation, state: KeyframeState::Missing },
                    ),
                    None => None,
                };
                WorkerStep::Resync { reason, command }
            },
        }
    }

    /// Decides, before sleeping, what is already due.
    pub fn plan(&mut self, readiness: &mut Readiness, now: Instant) -> (plan: WorkerPlan)
        ensures
            ({
                let due = old(self).correlator.spec_deadline();
                if due is Some && due->0.nanos <= now.nanos {
                    plan matches WorkerPlan::Expired(step) && Self::follows(
                        *old(self),
                        *final(self),
                        *old(readiness),
                        *final(readiness),
                        step,
                        resynced(old(self).correlator@, ResyncReason::UnmatchedDeadline, 0),
                    )
                } else {
                    let summary = old(self).metadata_summary;
                    let report_due = summary.pending is Some && summary.spec_deadline()->0.nanos
                        <= now.nanos;
                    &&& final(self).correlator == old(self).correlator
                    &&& final(self).ready_generation == old(self).ready_generation
                    &&& final(readiness)@ == old(readiness)@
                    &&& final(self).metadata_summary.pending == if report_due {
                        None
                    } else {
                        summary.pending
                    }
                    &&& final(self).metadata_summary.last_report == if report_due {
                        now
                    } else {
                        summary.last_report
                    }
                    &&& plan == (WorkerPlan::Sleep {
                        report: if report_due {
                            summary.pending
                        } else {
                            None
                        },
                        timer: first_timer(due, final(self).metadata_summary.spec_deadline()),
                    })
                }
            }),
            Self::plans(
                *old(self),
                *final(self),
                old(readiness)@,
                final(readiness)@,
                now,
                plan,
            ),
    {
        let overdue = match self.correlator.deadline() {
            Some(deadline) => deadline.nanos <= now.nanos,
            None => false,
        };
        if overdue {
            let ghost before = self.correlator@;
            let correlation = self.correlator.deadline_expired();
            let step = self.settle(readiness, correlation);
            assert(Self::follows(
                VideoWorker { correlator: self.correlator, ..*old(self) },
                *self,
                *old(readiness),
                *readiness,
                step,
                resynced(before, ResyncReason::UnmatchedDeadline, 0),
            ));
            return WorkerPlan::Expired(step);
        }
        let report = self.metadata_summary.report_if_due(now);
        let timer = next_timer(self.correlator.deadline(), self.metadata_summary.deadline());
        WorkerPlan::Sleep { report, timer }
    }

    /// Handles what ended the sleep.
    pub fn wake(&mut self, readiness: &mut Readiness, wake: WorkerWake, now: Instant) -> (step:
        WorkerStep)
        requires
            wake is MetadataReportDeadline ==> now.nanos
                >= crate::drops::DROP_REPORT_INTERVAL_NANOS,
        ensures
            match wake {
                WorkerWake::Message(PipelineMessage::Metadata(value)) => Self::follows(
                    *old(self),
                    *final(self),
                    *old(readiness),
                    *final(readiness),
                    step,
                    metadata_pushed(old(self).correlator@, value, now),
                ),
                WorkerWake::Message(PipelineMessage::Unit(value)) => Self::follows(
                    *old(self),
                    *final(self),
                    *old(readiness),
                    *final(readiness),
                    step,
                    unit_pushed(old(self).correlator@, value, now),
                ),
                WorkerWake::CorrelatorDeadline => Self::follows(
                    *old(self),
                    *final(self),
                    *old(readiness),
                    *final(readiness),
                    step,
                    resynced(old(self).correlator@, ResyncReason::UnmatchedDeadline, 0),
                ),
                WorkerWake::PipelineClosed => step is Closed && *final(self) == *old(self)
                    && final(readiness)@ == old(readiness)@,
                WorkerWake::MetadataReportDeadline => {
                    &&& step is Continue
                    &&& final(readiness)@ == old(readiness)@
                    &&& final(self).correlator == old(self).correlator
                    &&& final(self).ready_generation == old(self).ready_generation
                    &&& final(self).metadata_summary.pending == old(self).metadata_summary.pending
                    &&& final(self).metadata_summary.last_report.nanos == now.nanos
                        - crate::drops::DROP_REPORT_INTERVAL_NANOS
                    &&& final(self).metadata_summary.pending is Some ==> final(self).metadata_summary.spec_deadline() == Some(now)
                },
            },
    {
        let ghost before = self.correlator@;
        let ghost mut expected: Correlated = resynced(before, ResyncReason::UnmatchedDeadline, 0);
        let correlation = match wake {
            WorkerWake::Message(PipelineMessage::Metadata(value)) => {
                proof {
                    expected = metadata_pushed(before, value, now);
                }
                self.correlator.push_metadata(value, now)
            },
            WorkerWake::Message(PipelineMessage::Unit(value)) => {
                proof {
                    expected = unit_pushed(before, value, now);
                }
                self.correlator.push_unit(value, now)
            },
            WorkerWake::PipelineClosed => {
                return WorkerStep::Closed;
            },
            WorkerWake::CorrelatorDeadline => self.correlator.deadline_expired(),
            WorkerWake::MetadataReportDeadline => {
                self.metadata_summary.force_due(now);
                return WorkerStep::Continue;
            },
        };
        let step = self.settle(readiness, correlation);
        assert(Self::follows(
            VideoWorker { correlator: self.correlator, ..*old(self) },
            *self,
            *old(readiness),
            *readiness,
            step,
            expected,
        ));
        step
    }

    /// Delivers one frame to the viewers and notes whether they can decode it.
    pub fn deliver(
        &mut self,
        hub: &mut VideoHub,
        readiness: &mut Readiness,
        frame: &VideoSample,
    ) -> (r: Delivery)
        requires
            old(hub).wf(),
        ensures
            final(hub).wf(),
            final(hub)@ == broadcasted(old(hub)@, *frame),
            r.queued@ == queued_ids(
                old(hub)@.viewers,
                marked(*frame, resets(old(hub)@.generation, *frame)),
            ),
            final(self).correlator == old(self).correlator,
            final(self).metadata_summary == old(self).metadata_summary,
            ({
                let cached = final(hub)@.gop.len() > 0;
                let state = if cached {
                    GopState::KeyframeCached
                } else {
                    GopState::Recovering
                };
                &&& (final(self).ready_generation, r.command) == announced(
                    old(self).ready_generation,
                    frame.metadata.generation,
                    state,
                )
                &&& final(readiness)@ == if cached {
                    ready_after(old(readiness)@)
                } else {
                    awaiting_after(old(readiness)@)
                }
            }),
            delivers(
                old(hub)@,
                final(hub)@,
                *frame,
                old(self).ready_generation,
                final(self).ready_generation,
                old(readiness)@,
                final(readiness)@,
                r,
            ),
    {
        let generation = frame.metadata.generation;
        let broadcast = hub.broadcast(frame);
        let command = match broadcast.state {
            GopState::KeyframeCached => {
                readiness.mark_video_ready();
                if self.ready_generation == Some(generation) {
                    None
                } else {
                    self.ready_generation = Some(generation);
                    Some(KeyframeReadiness { generation, state: KeyframeState::Cached })
                }
            },
            GopState::Recovering => {
                readiness.await_keyframe();
                match self.ready_generation.take() {
                    Some(generation) => Some(
                        KeyframeReadiness { generation, state: KeyframeState::Missing },
                    ),
                    None => None,
                }
            },
        };
        Delivery { queued: broadcast.queued, command }
    }
}

/// The compositor is told of a generation's readiness only when it changes: an
/// announcement is never repeated, and only what was announced is taken back.
pub proof fn law_announcements_alternate(
    ready: Option<Generation>,
    generation: Generation,
    state: GopState,
)
    ensures
        ({
            let (after, command) = announced(ready, generation, state);
            match command {
                Some(sent) => match sent.state {
                    KeyframeState::Cached => after == Some(sent.generation) && ready
                        != Some(sent.generation),
                    KeyframeState::Missing => after is None && ready == Some(sent.generation),
                },
                None => after == ready,
            }
        }),
{
}

/// What moves the announced generation.
pub enum ReadinessEvent {
    /// A frame was delivered.
    Delivered { generation: Generation, state: GopState },
    /// The stream was resynchronised.
    Resynced,
}

pub open spec fn announced_by(ready: Option<Generation>, event: ReadinessEvent) -> (
    Option<Generation>,
    Option<KeyframeReadiness>,
) {
    match event {
        ReadinessEvent::Delivered { generation, state } => announced(ready, generation, state),
        ReadinessEvent::Resynced => (None, withdrawn(ready)),
    }
}

/// The generation that a new worker has announced after a history, and the commands
/// that it has sent.
pub open spec fn announcements(events: Seq<ReadinessEvent>) -> (
    Option<Generation>,
    Seq<KeyframeReadiness>,
)
    decreases events.len(),
{
    if events.len() == 0 {
        (None, Seq::empty())
    } else {
        let (ready, sent) = announcements(events.drop_last());
        let (after, command) = announced_by(ready, events.last());
        (
            after,
            match command {
                Some(command) => sent.push(command),
                None => sent,
            },
        )
    }
}

/// Whether a command says something new after the one before it: an announcement
/// names another generation than one that still stands, and what is taken back is the
/// announcement just before.
pub open spec fn is_change(sent: Seq<KeyframeReadiness>, index: int) -> bool {
    let command = sent[index];
    match command.state {
        KeyframeState::Cached => index == 0 || sent[index - 1].state == KeyframeState::Missing
            || sent[index - 1].generation != command.generation,
        KeyframeState::Missing => index > 0 && sent[index - 1] == (KeyframeReadiness {
            generation: command.generation,
            state: KeyframeState::Cached,
        }),
    }
}

/// Over any history the compositor is told only of changes: the first command
/// announces a generation, each announcement names another one than the announcement
/// before it that still stands, and only the latest announcement is taken back, once.
pub proof fn law_announcement_history_alternates(events: Seq<ReadinessEvent>)
    ensures
        ({
            let (ready, sent) = announcements(events);
            &&& forall|i: int| 0 <= i < sent.len() ==> #[trigger] is_change(sent, i)
            &&& ready == if sent.len() > 0 && sent.last().state == KeyframeState::Cached {
                Some(sent.last().generation)
            } else {
                None
            }
        }),
    decreases events.len(),
{
    if events.len() > 0 {
        law_announcement_history_alternates(events.drop_last());
        let (_, earlier) = announcements(events.drop_last());
        let (_, sent) = announcements(events);
        assert forall|i: int| 0 <= i < sent.len() implies #[trigger] is_change(sent, i) by {
            if i < earlier.len() {
                assert(is_change(earlier, i));
            }
        }
    }
}

/// The worker sleeps until the earlier of its two deadlines, if it has one; at a tie the
/// stream comes before the report.
pub proof fn law_the_earlier_deadline_counts(
    correlation: Option<Instant>,
    metadata: Option<Instant>,
)
    ensures
        ({
            let timer = first_timer(correlation, metadata);
            &&& timer is None <==> correlation is None && metadata is None
            &&& timer matches Some((at, which)) ==> {
                &&& correlation matches Some(other) ==> at.nanos <= other.nanos
                &&& metadata matches Some(other) ==> at.nanos <= other.nanos
                &&& which == Timer::CorrelatorDeadline ==> correlation == Some(at)
                &&& which == Timer::MetadataReportDeadline ==> metadata == Some(at) && correlation
                    != Some(at)
            }
        }),
{
}

/// The compositor is told that viewers can decode a generation when its first frame is
/// cached, and that they cannot any more when what was announced is lost.
pub proof fn law_viewers_announce_what_they_can_decode(
    ready: Option<Generation>,
    generation: Generation,
)
    ensures
        announced(ready, generation, GopState::KeyframeCached).0 == Some(generation),
        ready == Some(generation) ==> announced(ready, generation, GopState::KeyframeCached).1
            is None,
        ready != Some(generation) ==> announced(ready, generation, GopState::KeyframeCached).1
            == Some(KeyframeReadiness { generation, state: KeyframeState::Cached }),
        announced(ready, generation, GopState::Recovering).0 is None,
        ready is None ==> announced(ready, generation, GopState::Recovering).1 is None,
        ready matches Some(lost) ==> announced(ready, generation, GopState::Recovering).1 == Some(
            KeyframeReadiness { generation: lost, state: KeyframeState::Missing },
        ),
        ready matches Some(lost) ==> withdrawn(ready) == Some(
            KeyframeReadiness { generation: lost, state: KeyframeState::Missing },
        ),
        ready is None ==> withdrawn(ready) is None,
{
}

/// The worker hands on the frames that were paired, all of them and in order. Where the
/// stream has to start over it says why, takes back what it had announced and makes a
/// ready desktop wait.
pub proof fn law_the_worker_hands_on_what_was_paired(
    before: VideoWorker,
    after: VideoWorker,
    ready_before: Readiness,
    ready_after: Readiness,
    step: WorkerStep,
    expected: Correlated,
)
    requires
        VideoWorker::follows(before, after, ready_before, ready_after, step, expected),
    ensures
        expected.outcome matches crate::correlator::OutcomeView::Frames(frames) ==> {
            &&& step matches WorkerStep::Deliver(sent)
            &&& sent@ == frames
            &&& after.ready_generation == before.ready_generation
            &&& ready_after@ == ready_before@
        },
        expected.outcome matches crate::correlator::OutcomeView::Resync(why) ==> {
            &&& step matches WorkerStep::Resync { reason, command }
            &&& reason == why
            &&& command is Some <==> before.ready_generation is Some
            &&& command matches Some(sent) ==> sent.generation == before.ready_generation->0
                && sent.state == KeyframeState::Missing
            &&& after.ready_generation is None
            &&& ready_before@ == crate::readiness::ReadinessState::Ready ==> ready_after@
                == crate::readiness::ReadinessState::WaitingForKeyframe
            &&& ready_before@ != crate::readiness::ReadinessState::Ready ==> ready_after@
                == ready_before@
        },
        after.correlator@ == expected.state,
        expected.unmatched == 0 ==> after.metadata_summary.pending
            == before.metadata_summary.pending,
        0 < expected.unmatched <= usize::MAX && before.metadata_summary.pending is None
            ==> after.metadata_summary.pending == Some(
            MetadataDropReport { unmatched: expected.unmatched as usize },
        ),
{
}

/// What a packet leaves in the report: the packets that it made the assembler drop, with
/// the reason, and one rejected packet with its reason where it was refused itself. A
/// packet that goes well leaves nothing.
pub proof fn law_packets_are_reported_once(
    pending: Option<PacketDropReport>,
    state: AssemblerState,
    packet: Packet,
)
    ensures
        ({
            let step = consumed(state, packet);
            let after = report_after(pending, state, packet);
            let counts: (u64, u64) = match pending {
                Some(report) => (report.dropped, report.rejected),
                None => (0, 0),
            };
            &&& step.drops is None && step.outcome is Ok ==> after == pending
            &&& step.drops is Some && step.outcome is Ok ==> after is Some && after->0.last_failure
                == PacketFailure::Drop(step.drops->0.reason) && after->0.rejected == counts.1
            &&& step.outcome is Err ==> after is Some && after->0.last_failure
                == PacketFailure::Reject(step.outcome->Err_0) && (counts.1 < u64::MAX
                ==> after->0.rejected == counts.1 + 1)
            &&& step.drops is None && after is Some ==> after->0.dropped == counts.0
            &&& step.drops is Some && 0 <= step.drops->0.packets && counts.0
                + step.drops->0.packets <= u64::MAX ==> after->0.dropped == counts.0
                + step.drops->0.packets
        }),
{
}

/// Only datagrams of the local host that are packets of the stream reach the assembler;
/// any other is counted with its reason and changes nothing else.
pub proof fn law_strangers_do_not_reach_the_assembler(
    state: AssemblerState,
    pending: Option<PacketDropReport>,
    source: PeerAddress,
    datagram: Seq<u8>,
    state_after: AssemblerState,
    pending_after: Option<PacketDropReport>,
    unit: Option<Unit>,
)
    requires
        takes_in(state, pending, source, datagram, state_after, pending_after, unit),
        !source.spec_is_loopback() || packet_rejection(datagram) is Some,
    ensures
        unit is None,
        state_after == state,
        pending_after is Some,
        !source.spec_is_loopback() ==> pending_after->0.last_failure == PacketFailure::Reject(
            PacketReject::NonLoopbackSource { address: source },
        ),
        source.spec_is_loopback() ==> pending_after->0.last_failure == PacketFailure::Reject(
            packet_rejection(datagram)->0,
        ),
        pending is None ==> pending_after->0.rejected == 1 && pending_after->0.dropped == 0,
        pending matches Some(report) ==> pending_after->0.dropped == report.dropped && (
        report.rejected < u64::MAX ==> pending_after->0.rejected == report.rejected + 1),
{
}

/// A datagram of the stream is assembled as the packet that it was made of: a unit comes
/// out exactly where that packet completes one, with its time and its generation.
pub proof fn law_datagrams_are_assembled(
    parts: crate::rtp::Parts,
    state: AssemblerState,
    pending: Option<PacketDropReport>,
    source: PeerAddress,
    state_after: AssemblerState,
    pending_after: Option<PacketDropReport>,
    unit: Option<Unit>,
)
    requires
        crate::rtp::valid_parts(parts),
        source.spec_is_loopback(),
        takes_in(
            state,
            pending,
            source,
            crate::rtp::datagram(parts),
            state_after,
            pending_after,
            unit,
        ),
    ensures
        exists|packet: Packet|
            {
                &&& packet.payload@ == parts.payload
                &&& packet.sequence.0 == 256 * parts.sequence.0 + parts.sequence.1
                &&& packet.end == crate::rtp::AccessUnitEnd::Final <==> parts.final_packet
                &&& state_after == (#[trigger] consumed(state, packet)).state
                &&& unit is Some <==> (consumed(state, packet).outcome matches Ok(
                    OutcomeView::Complete { .. },
                ))
                &&& unit matches Some(whole) ==> whole.timestamp == packet.timestamp
                    && whole.generation == packet.generation && consumed(state, packet).outcome
                    == Ok::<OutcomeView, PacketReject>(
                    OutcomeView::Complete {
                        data: whole.data@,
                        kind: whole.kind,
                        continuity: whole.continuity,
                    },
                )
            },
{
    let data = crate::rtp::datagram(parts);
    let any = arbitrary::<Packet>();
    crate::rtp::law_datagrams_are_read_back(parts, any);
    let packet = choose|packet: Packet| #[trigger]
        packet_of(data, packet) && packet_taken_in(
            state,
            pending,
            packet,
            state_after,
            pending_after,
            unit,
        );
    crate::rtp::law_datagrams_are_read_back(parts, packet);
    assert(state_after == consumed(state, packet).state);
}

/// Every frame that is delivered reaches the hub. While a group that can be decoded is
/// cached the desktop is ready and the frame's generation is announced; without one what
/// was announced is taken back, and a ready desktop waits.
pub proof fn law_delivery_tells_what_can_be_decoded(
    hub: HubState,
    hub_after: HubState,
    frame: VideoSample,
    ready: Option<Generation>,
    ready_later: Option<Generation>,
    state: ReadinessState,
    state_after: ReadinessState,
    delivery: Delivery,
)
    requires
        delivers(hub, hub_after, frame, ready, ready_later, state, state_after, delivery),
    ensures
        hub_after == broadcasted(hub, frame),
        hub_after.gop.len() > 0 ==> {
            &&& ready_later == Some(frame.metadata.generation)
            &&& state != ReadinessState::Stopped ==> state_after == ReadinessState::Ready
            &&& delivery.command is Some <==> ready != Some(frame.metadata.generation)
            &&& delivery.command matches Some(command) ==> command.generation
                == frame.metadata.generation && command.state == KeyframeState::Cached
        },
        hub_after.gop.len() == 0 ==> {
            &&& ready_later is None
            &&& state_after != ReadinessState::Ready
            &&& delivery.command is Some <==> ready is Some
            &&& delivery.command matches Some(command) ==> command.generation == ready->0
                && command.state == KeyframeState::Missing
        },
        state == ReadinessState::Stopped ==> state_after == ReadinessState::Stopped,
        frame.kind == crate::values::FrameKind::Key ==> hub_after.gop.len() > 0,
{
}

/// Before it sleeps the worker gives up what has waited for two seconds, and only that;
/// else it hands out a report that is a second old, and sleeps no longer than until the
/// next of the two is due.
pub proof fn law_nothing_waits_past_its_deadline(
    before: VideoWorker,
    after: VideoWorker,
    state: ReadinessState,
    state_after: ReadinessState,
    now: Instant,
    plan: WorkerPlan,
)
    requires
        VideoWorker::plans(before, after, state, state_after, now, plan),
    ensures
        ({
            let records = before.correlator@.metadata;
            let units = before.correlator@.units;
            let late = (records.len() > 0 && records[0].queued_at.nanos + 2_000_000_000
                <= now.nanos) || (units.len() > 0 && units[0].queued_at.nanos + 2_000_000_000
                <= now.nanos);
            &&& late ==> plan is Expired && after.correlator@.metadata.len() == 0
                && after.correlator@.units.len() == 0 && after.ready_generation is None
            &&& now.nanos < u64::MAX && !late ==> plan is Sleep && after.correlator
                == before.correlator && after.ready_generation == before.ready_generation
                && state_after == state
            &&& plan is Sleep && before.metadata_summary.pending is Some && now.nanos < u64::MAX
                ==> (if before.metadata_summary.last_report.nanos + 1_000_000_000 <= now.nanos {
                plan->report == before.metadata_summary.pending
                    && after.metadata_summary.pending is None
            } else {
                plan->report is None && after.metadata_summary.pending
                    == before.metadata_summary.pending && plan->timer is Some
            })
            &&& plan is Sleep && before.metadata_summary.pending is None ==> plan->report is None
            &&& plan is Sleep ==> (plan->timer matches Some((at, _)) ==> at.nanos > now.nanos)
            &&& plan is Sleep && (records.len() > 0 || units.len() > 0) ==> plan->timer is Some
        }),
{
}

} // verus!
