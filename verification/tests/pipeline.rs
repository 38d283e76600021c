use std::sync::Arc;

use tokio::sync::Semaphore;
use waywire::assembler::{AssemblyDrop, PacketFailure, Unit};
use waywire::clock::Instant;
use waywire::correlator::{PendingUnit, ResyncReason, PENDING_RECORD_CAPACITY};
use waywire::drops::{MetadataDropSummary, PacketDropSummary, DROP_REPORT_INTERVAL_NANOS};
use waywire::hub::{SubscriberId, VideoHub};
use waywire::pipeline::{
    next_timer, unit_permits, Intake, KeyframeReadiness, KeyframeState, PipelineMessage, Timer,
    VideoWorker, WorkerPlan, WorkerStep, WorkerWake,
};
use waywire::quality::{Feedback, Measurement, Quality};
use waywire::readiness::{Readiness, ReadinessState};
use waywire::rtp::{PacketReject, PeerAddress, RtpTimestamp};
use waywire::session::{FeedbackOutcome, OwnershipBook, SocketId};
use waywire::values::{
    Chroma, Continuity, Crf, Fps, FrameDimension, FrameKind, FrameMetadata, Generation, Kbps,
    NonZeroCount, ScalePercent,
};
use waywire::messages::QualityCommand;

const START: Instant = Instant {
    nanos: 10_000_000_000,
};

fn fps(value: u32) -> Fps {
    Fps::new(value).expect("test frame rate should be valid")
}

fn metadata(sequence: u64, generation: u32) -> FrameMetadata {
    FrameMetadata {
        generation: Generation::new(generation).expect("test metadata generation should be valid"),
        width: FrameDimension::new(1280).expect("test frame width should be valid"),
        height: FrameDimension::new(720).expect("test frame height should be valid"),
        capture_nanos: sequence,
        sequence,
        input_sequence: None,
        fps: fps(30),
        chroma: Chroma::Yuv444,
    }
}

fn unit(timestamp: u32, generation: u32) -> Unit {
    Unit {
        data: Arc::new(vec![1]),
        kind: FrameKind::Key,
        continuity: Continuity::Continuous,
        timestamp: RtpTimestamp(timestamp),
        generation: Generation::new(generation).expect("test unit generation should be valid"),
    }
}

fn drop_summary_keeps_counts() {
    let mut summary = PacketDropSummary::new(START);
    summary.record(
        NonZeroCount::new(3).expect("test count should be nonzero"),
        PacketFailure::Drop(AssemblyDrop::StaleGeneration),
    );
    summary.record_rejection(PacketFailure::Reject(PacketReject::InvalidHeader));

    let report = summary
        .report(START)
        .expect("recorded packet failures should report");
    assert_eq!(report.dropped, 3);
    assert_eq!(report.rejected, 1);
    assert_eq!(
        report.last_failure,
        PacketFailure::Reject(PacketReject::InvalidHeader)
    );
    assert!(summary.deadline().is_none());
}

#[test]
fn video_packet_drop_summary_keeps_packet_counts_and_the_last_reason() {
    drop_summary_keeps_counts();
}

#[test]
fn tests_packet_drop_summary_keeps_packet_counts_and_the_last_reason() {
    drop_summary_keeps_counts();
}

fn later_drop_while_idle() {
    let mut summary = MetadataDropSummary::new(START);
    summary.record_unmatched(1);
    let deadline = summary
        .deadline()
        .expect("pending metadata summary should have a deadline");
    let first = summary
        .report_if_due(deadline)
        .expect("initial unmatched metadata should become due");
    assert_eq!(first.unmatched, 1);

    summary.record_unmatched(2);
    let deadline = summary
        .deadline()
        .expect("pending metadata summary should have a deadline");
    let second = summary
        .report_if_due(deadline)
        .expect("metadata summary should become due without another record");
    assert_eq!(second.unmatched, 2);
}

#[test]
fn video_metadata_drop_summary_reports_a_later_drop_while_idle() {
    later_drop_while_idle();
}

#[test]
fn tests_metadata_drop_summary_reports_a_later_drop_while_idle() {
    later_drop_while_idle();
}

#[test]
fn summaries_wait_for_their_interval() {
    let mut summary = MetadataDropSummary::new(START);
    summary.record_unmatched(1);
    let early = Instant {
        nanos: START.nanos + DROP_REPORT_INTERVAL_NANOS - 1,
    };
    assert!(summary.report_if_due(early).is_none());
    summary.force_due(START);
    assert_eq!(
        summary
            .report_if_due(START)
            .expect("a forced report should be due")
            .unmatched,
        1
    );
}

/// The worker with everything that it works on.
struct Bench {
    worker: VideoWorker,
    hub: VideoHub,
    readiness: Readiness,
    budget: Arc<Semaphore>,
    commands: Vec<KeyframeReadiness>,
}

impl Bench {
    fn new() -> Self {
        Bench {
            worker: VideoWorker::new(START),
            hub: VideoHub::new(fps(60)),
            readiness: Readiness::new(),
            budget: Arc::new(Semaphore::new(1_000)),
            commands: Vec::new(),
        }
    }

    fn wake(&mut self, wake: WorkerWake) -> WorkerStep {
        self.worker.wake(&mut self.readiness, wake, START)
    }

    fn run(&mut self, wake: WorkerWake) {
        match self.wake(wake) {
            WorkerStep::Continue | WorkerStep::Closed => {}
            WorkerStep::Resync { command, .. } => self.commands.extend(command),
            WorkerStep::Deliver(frames) => {
                for frame in &frames {
                    let delivery = self
                        .worker
                        .deliver(&mut self.hub, &mut self.readiness, frame);
                    self.commands.extend(delivery.command);
                }
            }
        }
    }

    fn metadata(&mut self, value: FrameMetadata) {
        self.run(WorkerWake::Message(PipelineMessage::Metadata(value)));
    }

    fn unit(&mut self, value: Unit) {
        let permits = unit_permits(&value).expect("test units are small");
        let bytes = Arc::clone(&self.budget)
            .try_acquire_many_owned(permits)
            .expect("test byte budget should suffice");
        self.run(WorkerWake::Message(PipelineMessage::Unit(PendingUnit {
            unit: value,
            bytes,
        })));
    }

    fn next(&mut self, viewer: SubscriberId) -> Option<waywire::values::VideoSample> {
        self.hub.next(viewer)
    }
}

fn resync_waits_for_a_keyframe() {
    let mut bench = Bench::new();
    bench.metadata(metadata(1, 1));
    bench.unit(unit(1, 1));
    assert_eq!(bench.commands.len(), 1);
    assert_eq!(bench.commands[0].state, KeyframeState::Cached);
    assert_eq!(bench.readiness.state(), ReadinessState::Ready);
    let viewer = bench.hub.subscribe();
    assert_eq!(
        bench
            .next(viewer)
            .expect("the cached keyframe should be queued")
            .metadata
            .sequence,
        1
    );

    for sequence in 2..=(PENDING_RECORD_CAPACITY as u64 + 2) {
        bench.metadata(metadata(sequence, 1));
    }
    assert_eq!(bench.commands.len(), 2);
    assert_eq!(bench.commands[1].state, KeyframeState::Missing);
    assert_eq!(bench.readiness.state(), ReadinessState::WaitingForKeyframe);

    bench.metadata(metadata(500, 1));
    let mut delta = unit(2, 1);
    delta.kind = FrameKind::Delta;
    bench.unit(delta);
    assert_eq!(bench.commands.len(), 2);
    assert!(bench.next(viewer).is_none());

    bench.metadata(metadata(501, 1));
    bench.unit(unit(3, 1));
    assert_eq!(bench.commands.len(), 3);
    assert_eq!(bench.commands[2].state, KeyframeState::Cached);
    assert_eq!(bench.readiness.state(), ReadinessState::Ready);
    let frame = bench
        .next(viewer)
        .expect("the recovery keyframe should be queued");
    assert_eq!(frame.metadata.sequence, 501);
    assert_eq!(frame.kind, FrameKind::Key);
    assert_eq!(frame.continuity, Continuity::AfterGap);

    assert!(matches!(
        bench.wake(WorkerWake::PipelineClosed),
        WorkerStep::Closed
    ));
}

#[test]
fn video_worker_resync_waits_for_a_fresh_keyframe_before_resuming_delivery() {
    resync_waits_for_a_keyframe();
}

#[test]
fn tests_worker_resync_waits_for_a_fresh_keyframe_before_resuming_delivery() {
    resync_waits_for_a_keyframe();
}

#[test]
fn submitted_gaps_adapt_only_for_the_owner_before_rtp_correlation() {
    for step in [1, 2] {
        // A session that streams 4:2:0 already.
        let mut quality = Quality::new(Kbps::new(8_000).expect("bitrate"), fps(60));
        quality.chroma = Chroma::Yuv420;
        let mut book = OwnershipBook::new();
        let owner = SocketId::new(1);
        let _ = book.acquired(owner);
        let feedback = Feedback {
            received: 30,
            presented: 30,
            dropped: 0,
            queue_peak: 0,
            queue_pressure: Measurement {
                bits: (0.0_f64 / 1000.0).to_bits(),
            },
            rtt: Measurement {
                bits: 20.0_f64.to_bits(),
            },
        };
        let mut commands = Vec::new();
        let mut frame = metadata(1, 1);
        frame.chroma = Chroma::Yuv420;
        quality.submitted(&frame);
        frame.sequence += 1;
        frame.capture_nanos = 2_000_000_000;
        quality.submitted(&frame);
        for _ in 0..2 {
            for _ in 0..30 {
                frame.sequence += step;
                frame.capture_nanos += 33_000_000;
                quality.submitted(&frame);
            }
            let refused = book.feedback(&mut quality, SocketId::new(2), &feedback, START);
            assert_eq!(refused.outcome, FeedbackOutcome::NotInputOwner);
            assert_eq!(refused.command, None);
            let applied = book.feedback(&mut quality, owner, &feedback, START);
            commands.extend(applied.command);
        }
        assert_eq!(quality.chroma(), Chroma::Yuv420);
        assert_eq!(quality.levels().fps.get(), 60);
        assert_eq!(
            quality.levels().scale.get(),
            if step == 1 { 100 } else { 75 }
        );
        if step == 2 {
            assert_eq!(
                commands,
                vec![QualityCommand {
                    bitrate_kbps: Kbps::new(8_000).expect("bitrate"),
                    fps: fps(60),
                    scale_percent: ScalePercent::new(75).expect("scale"),
                    crf: Crf::new(23).expect("crf"),
                    chroma: Chroma::Yuv420,
                }]
            );
        } else {
            assert_eq!(commands, vec![]);
        }
    }
}

#[test]
fn overdue_records_are_given_up_before_anything_else() {
    let mut worker = VideoWorker::new(START);
    let mut readiness = Readiness::new();
    let _ = worker.wake(
        &mut readiness,
        WorkerWake::Message(PipelineMessage::Metadata(metadata(1, 1))),
        START,
    );
    let deadline = worker
        .correlator
        .deadline()
        .expect("pending metadata should have a deadline");
    match worker.plan(&mut readiness, deadline) {
        WorkerPlan::Expired(WorkerStep::Resync { reason, command }) => {
            assert_eq!(reason, ResyncReason::UnmatchedDeadline);
            assert_eq!(command, None);
        }
        other => panic!("overdue records should resynchronise: {other:?}"),
    }
    match worker.plan(&mut readiness, deadline) {
        WorkerPlan::Sleep { report, timer } => {
            assert!(report.is_some() || timer.is_some());
        }
        other => panic!("nothing should be overdue any more: {other:?}"),
    }
}

#[test]
fn the_earlier_timer_comes_first() {
    let early = Instant { nanos: 1 };
    let late = Instant { nanos: 2 };
    assert_eq!(
        next_timer(Some(early), Some(late)),
        Some((early, Timer::CorrelatorDeadline))
    );
    assert_eq!(
        next_timer(Some(late), Some(early)),
        Some((early, Timer::MetadataReportDeadline))
    );
    assert_eq!(next_timer(None, None), None);
}

#[test]
fn datagrams_from_other_hosts_are_refused() {
    let mut intake = Intake::new(START);
    let datagram = [0x80, 0xe0, 0, 1, 0, 0, 0, 1, 0, 0, 0, 7, 5, 1];
    let foreign = PeerAddress::V4 {
        octets: 0x0a00_0001,
        port: 7,
    };
    assert!(intake.receive(foreign, &datagram).is_none());
    let report = intake
        .summary
        .report(START)
        .expect("the refusal should be recorded");
    assert_eq!(
        report.last_failure,
        PacketFailure::Reject(PacketReject::NonLoopbackSource { address: foreign })
    );
    let local = PeerAddress::V4 {
        octets: 0x7f00_0001,
        port: 7,
    };
    let unit = intake
        .receive(local, &datagram)
        .expect("a local keyframe should complete a unit");
    assert_eq!(*unit.data, [0, 0, 0, 1, 5, 1]);
}
