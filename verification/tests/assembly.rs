use waywire::assembler::{Assembler, AssemblyDrop, AssemblyOutcome, DroppedPackets, Unit};
use waywire::rtp::{
    decode_packet, AccessUnitEnd, NalType, Packet, PacketReject, PeerAddress, RtpSequence,
    RtpTicks, RtpTimestamp,
};
use waywire::values::{Continuity, FrameKind, Generation, NonZeroCount};

fn generation(value: u32) -> Generation {
    Generation::new(value).expect("test RTP generation should be valid")
}

fn count(value: u64) -> NonZeroCount {
    NonZeroCount::new(value).expect("test count should be nonzero")
}

fn packet(
    sequence: u16,
    timestamp: u32,
    of: u32,
    end: AccessUnitEnd,
    payload: &[u8],
) -> Packet {
    Packet {
        end,
        sequence: RtpSequence(sequence),
        timestamp: RtpTimestamp(timestamp),
        generation: generation(of),
        payload: payload.to_vec(),
    }
}

fn consume(assembler: &mut Assembler, value: Packet) -> Option<Unit> {
    match assembler
        .consume(value)
        .outcome
        .expect("test RTP packet should assemble without a protocol error")
    {
        AssemblyOutcome::Complete(unit) => Some(unit),
        AssemblyOutcome::Incomplete | AssemblyOutcome::Dropped => None,
    }
}

fn ssrc_is_a_generation() {
    let mut bytes = vec![0x80, 96, 0, 1, 0, 0, 0, 1, 0, 0, 0, 7, 1];
    let decoded = decode_packet(&bytes).expect("positive RTP SSRC should be a valid generation");
    assert_eq!(decoded.generation.get(), 7);

    bytes[11] = 0;
    assert!(decode_packet(&bytes).is_err());
}

#[test]
fn rtp_rtp_decoder_parses_ssrc_as_a_generation() {
    ssrc_is_a_generation();
}

#[test]
fn tests_rtp_decoder_parses_ssrc_as_a_generation() {
    ssrc_is_a_generation();
}

fn final_access_unit() {
    let mut assembler = Assembler::default();
    assert!(consume(
        &mut assembler,
        packet(1, 90, 7, AccessUnitEnd::More, &[0x7c, 0x85, 1])
    )
    .is_none());
    let value = consume(
        &mut assembler,
        packet(2, 90, 7, AccessUnitEnd::Final, &[0x7c, 0x45, 2]),
    )
    .expect("marker packet should complete the fragmented test access unit");
    assert_eq!(value.kind, FrameKind::Key);
    assert_eq!(*value.data, [0, 0, 0, 1, 0x65, 1, 2]);
}

#[test]
fn assembler_emits_final_access_unit_at_marker() {
    final_access_unit();
}

#[test]
fn tests_emits_final_access_unit_at_marker() {
    final_access_unit();
}

fn generation_restart() {
    let mut assembler = Assembler::default();
    let _ = consume(
        &mut assembler,
        packet(1, 1, 1, AccessUnitEnd::Final, &[5, 1]),
    );
    assert!(consume(
        &mut assembler,
        packet(2, 2, 2, AccessUnitEnd::More, &[0x7c, 0x85, 2])
    )
    .is_none());
    let value = consume(
        &mut assembler,
        packet(3, 2, 2, AccessUnitEnd::Final, &[0x7c, 0x45, 3]),
    )
    .expect("final fragment should complete the replacement generation");
    assert_eq!(value.continuity, Continuity::AfterGap);
}

#[test]
fn assembler_generation_restart_stays_sticky_across_fragments() {
    generation_restart();
}

#[test]
fn tests_generation_restart_stays_sticky_across_fragments() {
    generation_restart();
}

#[test]
fn generation_change_drops_open_fragment_before_rejecting_continuation() {
    let mut assembler = Assembler::default();
    let started = assembler.consume(packet(1, 1, 1, AccessUnitEnd::More, &[0x7c, 0x81, 1]));
    assert!(matches!(started.outcome, Ok(AssemblyOutcome::Incomplete)));

    let changed = assembler.consume(packet(2, 1, 2, AccessUnitEnd::Final, &[0x7c, 0x41, 2]));
    assert!(matches!(
        changed.outcome,
        Err(PacketReject::InvalidFuSequence)
    ));
    assert_eq!(
        changed.drops,
        Some(DroppedPackets {
            packets: count(1),
            reason: AssemblyDrop::GenerationDiscontinuity,
        })
    );
}

#[test]
fn sequence_gap_drops_open_fragment_before_rejecting_continuation() {
    let mut assembler = Assembler::default();
    let started = assembler.consume(packet(1, 1, 1, AccessUnitEnd::More, &[0x7c, 0x81, 1]));
    assert!(matches!(started.outcome, Ok(AssemblyOutcome::Incomplete)));

    let changed = assembler.consume(packet(3, 1, 1, AccessUnitEnd::Final, &[0x7c, 0x41, 2]));
    assert!(matches!(
        changed.outcome,
        Err(PacketReject::InvalidFuSequence)
    ));
    assert_eq!(
        changed.drops,
        Some(DroppedPackets {
            packets: count(1),
            reason: AssemblyDrop::SequenceDiscontinuity,
        })
    );
}

fn invalid_fu_boundaries() {
    let mut assembler = Assembler::default();
    assert!(assembler
        .consume(packet(1, 1, 1, AccessUnitEnd::Final, &[0x7c, 0xc5, 1]))
        .outcome
        .is_err());
    assert!(consume(
        &mut assembler,
        packet(2, 2, 1, AccessUnitEnd::More, &[0x7c, 0x85, 1])
    )
    .is_none());
    assert!(assembler
        .consume(packet(3, 2, 1, AccessUnitEnd::Final, &[0x7c, 0x41, 2]))
        .outcome
        .is_err());
}

#[test]
fn assembler_rejects_invalid_fu_boundaries() {
    invalid_fu_boundaries();
}

#[test]
fn tests_rejects_invalid_fu_boundaries() {
    invalid_fu_boundaries();
}

fn incomplete_recovery_and_stale() {
    let mut assembler = Assembler::default();
    let incomplete = assembler.consume(packet(1, 1, 2, AccessUnitEnd::More, &[1, 1]));
    assert!(matches!(
        incomplete.outcome,
        Ok(AssemblyOutcome::Incomplete)
    ));

    let complete = assembler.consume(packet(2, 1, 2, AccessUnitEnd::Final, &[5, 2]));
    assert!(matches!(complete.outcome, Ok(AssemblyOutcome::Complete(_))));
    let stale = assembler.consume(packet(3, 2, 1, AccessUnitEnd::Final, &[5, 3]));
    assert!(matches!(stale.outcome, Ok(AssemblyOutcome::Dropped)));
    assert_eq!(
        stale
            .drops
            .expect("stale packet should be counted")
            .packets
            .get(),
        1
    );

    let recovering = assembler.consume(packet(4, 2, 2, AccessUnitEnd::Final, &[1, 4]));
    assert!(matches!(recovering.outcome, Ok(AssemblyOutcome::Dropped)));
    assert_eq!(
        recovering
            .drops
            .expect("recovery drop should be counted")
            .packets
            .get(),
        1
    );
}

#[test]
fn assembler_assembler_distinguishes_incomplete_recovery_and_stale_packets() {
    incomplete_recovery_and_stale();
}

#[test]
fn tests_assembler_distinguishes_incomplete_recovery_and_stale_packets() {
    incomplete_recovery_and_stale();
}

fn fragmented_recovery_drop() {
    let mut assembler = Assembler::default();
    assert!(consume(
        &mut assembler,
        packet(1, 1, 1, AccessUnitEnd::Final, &[5, 1])
    )
    .is_some());

    let first_fragment = assembler.consume(packet(3, 2, 1, AccessUnitEnd::More, &[0x7c, 0x81, 2]));
    assert!(matches!(
        first_fragment.outcome,
        Ok(AssemblyOutcome::Incomplete)
    ));
    assert_eq!(first_fragment.drops, None);

    let final_fragment = assembler.consume(packet(4, 2, 1, AccessUnitEnd::Final, &[0x7c, 0x41, 3]));
    assert!(matches!(
        final_fragment.outcome,
        Ok(AssemblyOutcome::Dropped)
    ));
    assert_eq!(
        final_fragment.drops,
        Some(DroppedPackets {
            packets: count(2),
            reason: AssemblyDrop::RecoveringWithoutKeyframe,
        })
    );
}

#[test]
fn assembler_fragmented_recovery_drop_counts_every_packet_in_the_access_unit() {
    fragmented_recovery_drop();
}

#[test]
fn tests_fragmented_recovery_drop_counts_every_packet_in_the_access_unit() {
    fragmented_recovery_drop();
}

fn discontinuities_count_packets() {
    let mut assembler = Assembler::default();
    let buffered = assembler.consume(packet(1, 1, 1, AccessUnitEnd::More, &[1, 1]));
    assert!(matches!(buffered.outcome, Ok(AssemblyOutcome::Incomplete)));

    let sequence_change = assembler.consume(packet(3, 1, 1, AccessUnitEnd::Final, &[5, 2]));
    assert!(matches!(
        sequence_change.outcome,
        Ok(AssemblyOutcome::Complete(_))
    ));
    assert_eq!(
        sequence_change.drops,
        Some(DroppedPackets {
            packets: count(1),
            reason: AssemblyDrop::SequenceDiscontinuity,
        })
    );

    let buffered = assembler.consume(packet(4, 2, 1, AccessUnitEnd::More, &[1, 3]));
    assert!(matches!(buffered.outcome, Ok(AssemblyOutcome::Incomplete)));

    let timestamp_change = assembler.consume(packet(5, 3, 1, AccessUnitEnd::Final, &[5, 4]));
    assert!(matches!(
        timestamp_change.outcome,
        Ok(AssemblyOutcome::Complete(_))
    ));
    assert_eq!(
        timestamp_change.drops,
        Some(DroppedPackets {
            packets: count(1),
            reason: AssemblyDrop::TimestampDiscontinuity,
        })
    );
}

#[test]
fn assembler_discontinuities_count_packets_cleared_from_the_access_unit() {
    discontinuities_count_packets();
}

#[test]
fn tests_discontinuities_count_packets_cleared_from_the_access_unit() {
    discontinuities_count_packets();
}

fn loss_and_wrap() {
    let mut assembler = Assembler::default();
    assert!(consume(
        &mut assembler,
        packet(u16::MAX, 1, 1, AccessUnitEnd::Final, &[1, 1]),
    )
    .is_some());
    assert!(consume(
        &mut assembler,
        packet(0, 2, 1, AccessUnitEnd::Final, &[1, 2])
    )
    .is_some());
    assert!(consume(
        &mut assembler,
        packet(2, 3, 1, AccessUnitEnd::Final, &[1, 3])
    )
    .is_none());
    assert_eq!(
        consume(
            &mut assembler,
            packet(3, 4, 1, AccessUnitEnd::Final, &[5, 4])
        )
        .expect("keyframe should complete sequence-loss recovery")
        .continuity,
        Continuity::AfterGap
    );
}

#[test]
fn assembler_loss_and_sequence_wrap_recover_at_keyframe() {
    loss_and_wrap();
}

#[test]
fn tests_loss_and_sequence_wrap_recover_at_keyframe() {
    loss_and_wrap();
}

#[test]
fn aggregated_units_are_separated_by_start_codes() {
    let mut assembler = Assembler::default();
    let value = consume(
        &mut assembler,
        packet(
            1,
            1,
            1,
            AccessUnitEnd::Final,
            &[24, 0, 2, 0x67, 1, 0, 3, 0x65, 2, 3],
        ),
    )
    .expect("aggregation packet should complete an access unit");
    assert_eq!(value.kind, FrameKind::Key);
    assert_eq!(
        *value.data,
        [0, 0, 0, 1, 0x67, 1, 0, 0, 0, 1, 0x65, 2, 3]
    );
}

#[test]
fn every_packet_rejection_has_an_input() {
    let header = |first: u8, second: u8| vec![first, second, 0, 1, 0, 0, 0, 1, 0, 0, 0, 7];
    let with = |mut head: Vec<u8>, tail: &[u8]| {
        head.extend_from_slice(tail);
        head
    };
    let cases: Vec<(Vec<u8>, PacketReject)> = vec![
        (vec![0x80, 96], PacketReject::InvalidHeader),
        (with(header(0x40, 96), &[1]), PacketReject::InvalidHeader),
        (with(header(0x81, 96), &[1]), PacketReject::TruncatedCsrc),
        (with(header(0x90, 96), &[1]), PacketReject::TruncatedExtension),
        (
            with(header(0x90, 96), &[0, 0, 0, 2, 1]),
            PacketReject::TruncatedExtensionPayload,
        ),
        (with(header(0xa0, 96), &[1, 9]), PacketReject::InvalidPadding),
        (
            with(header(0x80, 97), &[1]),
            PacketReject::WrongPayloadTypeOrEmptyPayload,
        ),
        (
            header(0x80, 96),
            PacketReject::WrongPayloadTypeOrEmptyPayload,
        ),
    ];
    for (bytes, expected) in cases {
        assert_eq!(
            decode_packet(&bytes).expect_err("datagram should be rejected"),
            expected
        );
    }
    let mut zero = with(header(0x80, 96), &[1]);
    zero[11] = 0;
    assert_eq!(
        decode_packet(&zero).expect_err("generation zero should be rejected"),
        PacketReject::ZeroGeneration
    );
}

#[test]
fn header_options_are_skipped() {
    // Two contributing sources, an extension of one word, and two bytes of padding.
    let mut bytes = vec![0xb2, 0xe0, 0, 9, 0, 0, 0, 5, 0, 0, 0, 7];
    bytes.extend_from_slice(&[1, 1, 1, 1, 2, 2, 2, 2]);
    bytes.extend_from_slice(&[0, 0, 0, 1, 3, 3, 3, 3]);
    bytes.extend_from_slice(&[0x65, 42, 0, 2]);
    let decoded = decode_packet(&bytes).expect("options should be skipped");
    assert_eq!(decoded.payload, [0x65, 42]);
    assert_eq!(decoded.sequence, RtpSequence(9));
    assert_eq!(decoded.timestamp, RtpTimestamp(5));
    assert_eq!(decoded.end, AccessUnitEnd::Final);
}

#[test]
fn malformed_payloads_are_rejected_by_kind() {
    let cases: Vec<(&[u8], PacketReject)> = vec![
        (&[], PacketReject::EmptyPayload),
        (&[24, 0], PacketReject::TruncatedStapLength),
        (&[24, 0, 0], PacketReject::InvalidStapNalLength),
        (&[24, 0, 9, 1], PacketReject::InvalidStapNalLength),
        (&[30, 1], PacketReject::UnsupportedPacketization { kind: 30 }),
        (&[0x7c, 0x85], PacketReject::TruncatedFuPayload),
        (&[0x7c, 0xa5, 1], PacketReject::InvalidFuHeader),
        (&[0x7c, 0x05, 1], PacketReject::InvalidFuSequence),
        (&[0x7c, 0x85, 1], PacketReject::MarkerEndedIncompleteFu),
    ];
    for (payload, expected) in cases {
        let mut assembler = Assembler::default();
        let result = assembler.consume(packet(1, 1, 1, AccessUnitEnd::Final, payload));
        match result.outcome {
            Err(reason) => assert_eq!(reason, expected),
            Ok(_) => panic!("payload should be rejected"),
        }
    }
}

#[test]
fn whole_units_do_not_interrupt_fragments() {
    let mut assembler = Assembler::default();
    let started = assembler.consume(packet(1, 1, 1, AccessUnitEnd::More, &[0x7c, 0x85, 1]));
    assert!(matches!(started.outcome, Ok(AssemblyOutcome::Incomplete)));
    let interleaved = assembler.consume(packet(2, 1, 1, AccessUnitEnd::Final, &[5, 1]));
    assert!(matches!(
        interleaved.outcome,
        Err(PacketReject::NalInterleavedWithFu)
    ));

    let mut assembler = Assembler::default();
    let started = assembler.consume(packet(1, 1, 1, AccessUnitEnd::More, &[0x7c, 0x85, 1]));
    assert!(matches!(started.outcome, Ok(AssemblyOutcome::Incomplete)));
    let moved = assembler.consume(packet(2, 2, 1, AccessUnitEnd::Final, &[5, 1]));
    assert!(matches!(
        moved.outcome,
        Err(PacketReject::TimestampChangedDuringFu)
    ));
}

#[test]
fn units_beyond_the_limit_are_rejected() {
    let mut assembler = Assembler::default();
    let piece = vec![1_u8; 0x80_0000];
    for (sequence, end) in [(1, AccessUnitEnd::More), (2, AccessUnitEnd::Final)] {
        let result = assembler.consume(packet(sequence, 1, 1, end, &piece));
        if sequence == 1 {
            assert!(matches!(result.outcome, Ok(AssemblyOutcome::Incomplete)));
        } else {
            assert!(matches!(
                result.outcome,
                Err(PacketReject::AccessUnitTooLarge)
            ));
        }
    }
}

#[test]
fn sequence_and_timestamp_arithmetic_wraps() {
    assert_eq!(RtpSequence(u16::MAX).next(), RtpSequence(0));
    assert_eq!(RtpSequence(7).next(), RtpSequence(8));
    assert_eq!(
        RtpTimestamp(2).elapsed_since(RtpTimestamp(u32::MAX)),
        RtpTicks(3)
    );
}

#[test]
fn nal_types_are_one_to_twenty_three() {
    assert!(NalType::new(0).is_none());
    assert!(NalType::new(24).is_none());
    let idr = NalType::new(5).expect("IDR slices are a NAL type");
    assert_eq!(idr.value(), 5);
    assert!(idr.is_keyframe());
    assert!(!NalType::new(1).expect("slices are a NAL type").is_keyframe());
}

#[test]
fn only_loopback_peers_are_loopback() {
    let local = PeerAddress::V4 {
        octets: 0x7f00_0001,
        port: 9,
    };
    let foreign = PeerAddress::V4 {
        octets: 0x0a00_0001,
        port: 9,
    };
    assert!(local.is_loopback());
    assert!(!foreign.is_loopback());
    assert!(PeerAddress::V6 { segments: 1, port: 9 }.is_loopback());
    assert!(!PeerAddress::V6 { segments: 2, port: 9 }.is_loopback());
}

#[test]
fn stale_generations_leave_the_stream_alone() {
    let mut assembler = Assembler::default();
    assert!(consume(
        &mut assembler,
        packet(1, 1, 5, AccessUnitEnd::Final, &[5, 1])
    )
    .is_some());
    assert!(consume(
        &mut assembler,
        packet(9, 9, 4, AccessUnitEnd::Final, &[5, 1])
    )
    .is_none());
    let next = consume(
        &mut assembler,
        packet(2, 2, 5, AccessUnitEnd::Final, &[1, 2]),
    )
    .expect("the stream should go on where it was");
    assert_eq!(next.continuity, Continuity::Continuous);
}
