use std::sync::Arc;

use tokio::sync::Semaphore;
use waywire::assembler::{Assembler, AssemblyOutcome, Unit};
use waywire::clock::Instant;
use waywire::correlator::{
    metadata_gap, CorrelationOutcome, Correlator, PendingUnit, ResyncReason,
    MAX_PENDING_UNIT_BYTES, PENDING_RECORD_CAPACITY, UNMATCHED_DEADLINE_NANOS,
};
use waywire::rtp::{AccessUnitEnd, Packet, RtpSequence, RtpTicks, RtpTimestamp};
use waywire::values::{
    Chroma, Continuity, Fps, FrameDimension, FrameKind, FrameMetadata, Generation, VideoSample,
};

const NOW: Instant = Instant { nanos: 5_000 };

fn packet(
    sequence: u16,
    timestamp: u32,
    generation: u32,
    end: AccessUnitEnd,
    payload: &[u8],
) -> Packet {
    Packet {
        end,
        sequence: RtpSequence(sequence),
        timestamp: RtpTimestamp(timestamp),
        generation: Generation::new(generation).expect("test RTP generation should be valid"),
        payload: payload.to_vec(),
    }
}

fn fps(value: u32) -> Fps {
    Fps::new(value).expect("test frame rate should be valid")
}

fn metadata(sequence: u64, generation: u32) -> FrameMetadata {
    FrameMetadata {
        generation: Generation::new(generation).expect("test metadata generation should be valid"),
        width: FrameDimension::new(1280).expect("test frame width should be valid"),
        height: FrameDimension::new(720).expect("test frame height should be valid"),
        capture_nanos: sequence,
        sequence,
        input_sequence: None,
        fps: fps(30),
        chroma: Chroma::Yuv444,
    }
}

fn unit(timestamp: u32, generation: u32) -> Unit {
    Unit {
        data: Arc::new(vec![1]),
        kind: FrameKind::Key,
        continuity: Continuity::Continuous,
        timestamp: RtpTimestamp(timestamp),
        generation: Generation::new(generation).expect("test unit generation should be valid"),
    }
}

fn consume(assembler: &mut Assembler, value: Packet) -> Option<Unit> {
    match assembler
        .consume(value)
        .outcome
        .expect("test RTP packet should assemble without a protocol error")
    {
        AssemblyOutcome::Complete(unit) => Some(unit),
        AssemblyOutcome::Incomplete | AssemblyOutcome::Dropped => None,
    }
}

fn push_metadata(correlator: &mut Correlator, value: FrameMetadata) {
    let correlation = correlator.push_metadata(value, NOW);
    let frames = match correlation.outcome {
        CorrelationOutcome::Frames(frames) => frames,
        CorrelationOutcome::Resync(reason) => {
            panic!("test metadata should not resynchronise the correlator: {reason:?}")
        }
    };
    assert!(frames.is_empty());
}

fn push_unit(correlator: &mut Correlator, value: PendingUnit) -> Vec<VideoSample> {
    let correlation = correlator.push_unit(value, NOW);
    match correlation.outcome {
        CorrelationOutcome::Frames(frames) => frames,
        CorrelationOutcome::Resync(reason) => {
            panic!("test unit should not resynchronise the correlator: {reason:?}")
        }
    }
}

fn pending(unit: Unit, budget: &Arc<Semaphore>) -> PendingUnit {
    PendingUnit {
        unit,
        bytes: Arc::clone(budget)
            .try_acquire_many_owned(1)
            .expect("test byte budget should have one available permit"),
    }
}

fn check_first_unit_uses_only_metadata_with_its_generation() {
    let budget = Arc::new(Semaphore::new(MAX_PENDING_UNIT_BYTES));
    let mut correlator = Correlator::new();
    push_metadata(&mut correlator, metadata(1, 1));
    push_metadata(&mut correlator, metadata(2, 2));

    let samples = push_unit(&mut correlator, pending(unit(1, 2), &budget));
    assert_eq!(samples.len(), 1);
    assert_eq!(samples[0].metadata.sequence, 2);
    assert_eq!(samples[0].metadata.generation.get(), 2);

    push_metadata(&mut correlator, metadata(3, 3));
    let correlation = correlator.push_unit(pending(unit(2, 2), &budget), NOW);
    assert!(matches!(
        correlation.outcome,
        CorrelationOutcome::Resync(ResyncReason::MetadataGenerationPassed)
    ));
    assert_eq!(correlation.unmatched_metadata, 1);
    assert!(correlator.deadline().is_none());
}

#[test]
fn correlator_first_unit_uses_only_metadata_with_its_generation() {
    check_first_unit_uses_only_metadata_with_its_generation();
}

#[test]
fn tests_first_unit_uses_only_metadata_with_its_generation() {
    check_first_unit_uses_only_metadata_with_its_generation();
}

fn check_reordered_replacements_never_exchange_metadata() {
    let budget = Arc::new(Semaphore::new(MAX_PENDING_UNIT_BYTES));
    let mut correlator = Correlator::new();
    push_metadata(&mut correlator, metadata(1, 1));
    let _ = push_unit(&mut correlator, pending(unit(3_000, 1), &budget));
    push_metadata(&mut correlator, metadata(2, 2));
    push_metadata(&mut correlator, metadata(3, 3));

    let samples = push_unit(&mut correlator, pending(unit(1, 3), &budget));
    assert_eq!(samples.len(), 1);
    assert_eq!(samples[0].metadata.sequence, 3);
    assert_eq!(samples[0].metadata.generation.get(), 3);

    push_metadata(&mut correlator, metadata(4, 4));
    let correlation = correlator.push_unit(pending(unit(2, 3), &budget), NOW);
    assert!(matches!(
        correlation.outcome,
        CorrelationOutcome::Resync(ResyncReason::MetadataGenerationPassed)
    ));
    assert_eq!(correlation.unmatched_metadata, 1);
    assert!(correlator.deadline().is_none());
}

#[test]
fn correlator_reordered_replacements_never_exchange_metadata() {
    check_reordered_replacements_never_exchange_metadata();
}

#[test]
fn tests_reordered_replacements_never_exchange_metadata() {
    check_reordered_replacements_never_exchange_metadata();
}

fn check_stale_generation_packet_cannot_poison_current_assembler_state() {
    let budget = Arc::new(Semaphore::new(MAX_PENDING_UNIT_BYTES));
    let mut assembler = Assembler::default();
    let mut correlator = Correlator::new();

    push_metadata(&mut correlator, metadata(1, 1));
    let first = consume(
        &mut assembler,
        packet(1, 3_000, 1, AccessUnitEnd::Final, &[5, 1]),
    )
    .expect("first generation packet should complete an access unit");
    let _ = push_unit(&mut correlator, pending(first, &budget));

    push_metadata(&mut correlator, metadata(2, 2));
    let replacement = consume(
        &mut assembler,
        packet(1, 3_000, 2, AccessUnitEnd::Final, &[5, 2]),
    )
    .expect("replacement generation packet should complete an access unit");
    let _ = push_unit(&mut correlator, pending(replacement, &budget));
    push_metadata(&mut correlator, metadata(3, 2));

    assert!(
        consume(
            &mut assembler,
            packet(2, 6_000, 1, AccessUnitEnd::Final, &[5, 3])
        )
        .is_none()
    );
    let current = consume(
        &mut assembler,
        packet(2, 6_000, 2, AccessUnitEnd::Final, &[5, 4]),
    )
    .expect("current generation packet should complete an access unit");
    assert_eq!(current.continuity, Continuity::Continuous);
    let samples = push_unit(&mut correlator, pending(current, &budget));
    assert_eq!(samples.len(), 1);
    assert_eq!(samples[0].metadata.sequence, 3);
    assert!(correlator.deadline().is_none());
}

#[test]
fn correlator_stale_generation_packet_cannot_poison_current_assembler_state() {
    check_stale_generation_packet_cannot_poison_current_assembler_state();
}

#[test]
fn tests_stale_generation_packet_cannot_poison_current_assembler_state() {
    check_stale_generation_packet_cannot_poison_current_assembler_state();
}

fn check_generation_change_does_not_apply_timestamp_gap_across_ssrcs() {
    let budget = Arc::new(Semaphore::new(MAX_PENDING_UNIT_BYTES));
    let mut correlator = Correlator::new();
    push_metadata(&mut correlator, metadata(1, 1));
    let _ = push_unit(&mut correlator, pending(unit(3_000, 1), &budget));
    push_metadata(&mut correlator, metadata(3, 2));

    let correlation = correlator.push_unit(pending(unit(u32::MAX, 2), &budget), NOW);
    let samples = match correlation.outcome {
        CorrelationOutcome::Frames(frames) => frames,
        CorrelationOutcome::Resync(reason) => {
            panic!("generation change should correlate without resync: {reason:?}")
        }
    };
    assert_eq!(samples.len(), 1);
    assert_eq!(samples[0].metadata.sequence, 3);
    assert_eq!(samples[0].continuity, Continuity::AfterGap);
    assert_eq!(correlation.unmatched_metadata, 0);
    assert!(correlator.deadline().is_none());
}

#[test]
fn correlator_generation_change_does_not_apply_timestamp_gap_across_ssrcs() {
    check_generation_change_does_not_apply_timestamp_gap_across_ssrcs();
}

#[test]
fn tests_generation_change_does_not_apply_timestamp_gap_across_ssrcs() {
    check_generation_change_does_not_apply_timestamp_gap_across_ssrcs();
}

fn check_huge_timestamp_gap_fails_instead_of_guessing() {
    assert!(
        metadata_gap(
            RtpTicks(u32::MAX),
            fps(60),
        )
        .is_none()
    );
}

#[test]
fn correlator_huge_timestamp_gap_fails_instead_of_guessing() {
    check_huge_timestamp_gap_fails_instead_of_guessing();
}

#[test]
fn tests_huge_timestamp_gap_fails_instead_of_guessing() {
    check_huge_timestamp_gap_fails_instead_of_guessing();
}

fn check_metadata_backlog_resync_counts_every_record_and_returns_unit_permits() {
    let budget = Arc::new(Semaphore::new(1));
    let mut correlator = Correlator::new();
    assert!(push_unit(&mut correlator, pending(unit(1, 2), &budget)).is_empty());
    for sequence in 0..PENDING_RECORD_CAPACITY {
        push_metadata(
            &mut correlator,
            metadata(
                u64::try_from(sequence).expect("test sequence should fit"),
                1,
            ),
        );
    }

    let correlation = correlator.push_metadata(metadata(999, 1), NOW);
    assert!(matches!(
        correlation.outcome,
        CorrelationOutcome::Resync(ResyncReason::MetadataBacklog)
    ));
    assert_eq!(budget.available_permits(), 1);
    assert!(correlator.deadline().is_none());
    assert_eq!(correlation.unmatched_metadata, PENDING_RECORD_CAPACITY + 1);
}

#[test]
fn correlator_metadata_backlog_resync_counts_every_record_and_returns_unit_permits() {
    check_metadata_backlog_resync_counts_every_record_and_returns_unit_permits();
}

#[test]
fn tests_metadata_backlog_resync_counts_every_record_and_returns_unit_permits() {
    check_metadata_backlog_resync_counts_every_record_and_returns_unit_permits();
}

fn check_unit_backlog_resync_returns_queued_and_rejected_unit_permits() {
    let budget = Arc::new(Semaphore::new(PENDING_RECORD_CAPACITY + 1));
    let mut correlator = Correlator::new();
    for timestamp in 0..PENDING_RECORD_CAPACITY {
        assert!(
            push_unit(
                &mut correlator,
                pending(
                    unit(
                        u32::try_from(timestamp).expect("test timestamp should fit"),
                        1
                    ),
                    &budget,
                ),
            )
            .is_empty()
        );
    }

    let correlation = correlator.push_unit(pending(unit(999, 1), &budget), NOW);
    assert!(matches!(
        correlation.outcome,
        CorrelationOutcome::Resync(ResyncReason::UnitBacklog)
    ));
    assert_eq!(correlation.unmatched_metadata, 0);
    assert_eq!(budget.available_permits(), PENDING_RECORD_CAPACITY + 1);
    assert!(correlator.deadline().is_none());
}

#[test]
fn correlator_unit_backlog_resync_returns_queued_and_rejected_unit_permits() {
    check_unit_backlog_resync_returns_queued_and_rejected_unit_permits();
}

#[test]
fn tests_unit_backlog_resync_returns_queued_and_rejected_unit_permits() {
    check_unit_backlog_resync_returns_queued_and_rejected_unit_permits();
}

fn check_unmatched_deadline_resync_clears_both_queues() {
    let budget = Arc::new(Semaphore::new(1));
    let mut correlator = Correlator::new();
    push_metadata(&mut correlator, metadata(1, 1));
    assert!(push_unit(&mut correlator, pending(unit(1, 2), &budget)).is_empty());

    let correlation = correlator.deadline_expired();
    assert!(matches!(
        correlation.outcome,
        CorrelationOutcome::Resync(ResyncReason::UnmatchedDeadline)
    ));
    assert_eq!(correlation.unmatched_metadata, 1);
    assert_eq!(budget.available_permits(), 1);
    assert!(correlator.deadline().is_none());
}

#[test]
fn correlator_unmatched_deadline_resync_clears_both_queues() {
    check_unmatched_deadline_resync_clears_both_queues();
}

#[test]
fn tests_unmatched_deadline_resync_clears_both_queues() {
    check_unmatched_deadline_resync_clears_both_queues();
}

fn check_timestamp_gap_resync_returns_the_triggering_unit_permit() {
    let budget = Arc::new(Semaphore::new(1));
    let mut correlator = Correlator::new();
    push_metadata(&mut correlator, metadata(1, 1));
    assert_eq!(
        push_unit(&mut correlator, pending(unit(1, 1), &budget)).len(),
        1
    );
    push_metadata(&mut correlator, metadata(2, 1));

    let correlation = correlator.push_unit(pending(unit(u32::MAX, 1), &budget), NOW);
    assert!(matches!(
        correlation.outcome,
        CorrelationOutcome::Resync(ResyncReason::TimestampGap { .. })
    ));
    assert_eq!(correlation.unmatched_metadata, 1);
    assert_eq!(budget.available_permits(), 1);
    assert!(correlator.deadline().is_none());
}

#[test]
fn correlator_timestamp_gap_resync_returns_the_triggering_unit_permit() {
    check_timestamp_gap_resync_returns_the_triggering_unit_permit();
}

#[test]
fn tests_timestamp_gap_resync_returns_the_triggering_unit_permit() {
    check_timestamp_gap_resync_returns_the_triggering_unit_permit();
}

fn check_delayed_metadata_correlates_pending_unit_and_releases_permit() {
    let budget = Arc::new(Semaphore::new(1));
    let mut correlator = Correlator::new();

    let waiting = correlator.push_unit(pending(unit(3_000, 1), &budget), NOW);
    let waiting_frames = match waiting.outcome {
        CorrelationOutcome::Frames(frames) => frames,
        CorrelationOutcome::Resync(reason) => {
            panic!("a unit awaiting metadata should not resynchronise: {reason:?}")
        }
    };
    assert!(waiting_frames.is_empty());
    assert_eq!(waiting.unmatched_metadata, 0);
    assert_eq!(budget.available_permits(), 0);

    let matched = correlator.push_metadata(metadata(42, 1), NOW);
    let matched_frames = match matched.outcome {
        CorrelationOutcome::Frames(frames) => frames,
        CorrelationOutcome::Resync(reason) => {
            panic!("matching metadata should not resynchronise: {reason:?}")
        }
    };
    assert_eq!(matched.unmatched_metadata, 0);
    assert_eq!(matched_frames.len(), 1);
    assert_eq!(matched_frames[0].metadata.sequence, 42);
    assert_eq!(matched_frames[0].metadata.generation.get(), 1);
    assert_eq!(budget.available_permits(), 1);
}

#[test]
fn correlator_delayed_metadata_correlates_pending_unit_and_releases_permit() {
    check_delayed_metadata_correlates_pending_unit_and_releases_permit();
}

#[test]
fn tests_delayed_metadata_correlates_pending_unit_and_releases_permit() {
    check_delayed_metadata_correlates_pending_unit_and_releases_permit();
}

fn check_resync_reanchors_so_a_wide_timestamp_gap_does_not_resync_again() {
    let budget = Arc::new(Semaphore::new(1));
    let mut correlator = Correlator::new();
    push_metadata(&mut correlator, metadata(1, 3));
    assert_eq!(
        push_unit(&mut correlator, pending(unit(3_000, 3), &budget)).len(),
        1
    );
    push_metadata(&mut correlator, metadata(2, 3));

    let correlation = correlator.deadline_expired();
    assert!(matches!(
        correlation.outcome,
        CorrelationOutcome::Resync(ResyncReason::UnmatchedDeadline)
    ));

    push_metadata(&mut correlator, metadata(3, 3));
    let recovered = push_unit(&mut correlator, pending(unit(u32::MAX, 3), &budget));
    assert_eq!(recovered.len(), 1);
    assert_eq!(recovered[0].kind, FrameKind::Key);
    assert_eq!(recovered[0].continuity, Continuity::AfterGap);
}

#[test]
fn correlator_resync_reanchors_so_a_wide_timestamp_gap_does_not_resync_again() {
    check_resync_reanchors_so_a_wide_timestamp_gap_does_not_resync_again();
}

#[test]
fn tests_resync_reanchors_so_a_wide_timestamp_gap_does_not_resync_again() {
    check_resync_reanchors_so_a_wide_timestamp_gap_does_not_resync_again();
}

fn check_post_resync_delta_is_dropped_until_keyframe_starts_a_gap() {
    let budget = Arc::new(Semaphore::new(1));
    let mut correlator = Correlator::new();
    push_metadata(&mut correlator, metadata(1, 1));
    assert_eq!(
        push_unit(&mut correlator, pending(unit(1, 1), &budget)).len(),
        1
    );
    push_metadata(&mut correlator, metadata(2, 1));
    let correlation = correlator.deadline_expired();
    assert!(matches!(
        correlation.outcome,
        CorrelationOutcome::Resync(ResyncReason::UnmatchedDeadline)
    ));

    push_metadata(&mut correlator, metadata(3, 1));
    let mut delta = unit(2, 1);
    delta.kind = FrameKind::Delta;
    assert!(push_unit(&mut correlator, pending(delta, &budget)).is_empty());

    push_metadata(&mut correlator, metadata(4, 1));
    let recovered = push_unit(&mut correlator, pending(unit(3, 1), &budget));
    assert_eq!(recovered.len(), 1);
    assert_eq!(recovered[0].continuity, Continuity::AfterGap);
}

#[test]
fn correlator_post_resync_delta_is_dropped_until_keyframe_starts_a_gap() {
    check_post_resync_delta_is_dropped_until_keyframe_starts_a_gap();
}

#[test]
fn tests_post_resync_delta_is_dropped_until_keyframe_starts_a_gap() {
    check_post_resync_delta_is_dropped_until_keyframe_starts_a_gap();
}

#[test]
fn pending_records_expire_after_two_seconds() {
    let mut correlator = Correlator::new();
    assert!(correlator.deadline().is_none());
    let _ = correlator.push_metadata(metadata(1, 1), Instant { nanos: 7 });
    let _ = correlator.push_metadata(metadata(2, 1), Instant { nanos: 9 });
    assert_eq!(
        correlator.deadline(),
        Some(Instant {
            nanos: 7 + UNMATCHED_DEADLINE_NANOS
        })
    );
}

#[test]
fn timestamps_skip_the_metadata_of_frames_that_were_not_sent() {
    // 90000 ticks a second at 30 frames a second are 3000 ticks a frame.
    assert_eq!(metadata_gap(RtpTicks(3_000), fps(30)), Some(1));
    assert_eq!(metadata_gap(RtpTicks(9_000), fps(30)), Some(3));
    assert_eq!(metadata_gap(RtpTicks(1), fps(30)), Some(1));
}
