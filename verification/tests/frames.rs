use std::io;

use waywire::clock::Instant;
use waywire::encoder::{EncoderConfig, VideoError};
use waywire::frames::{
    CapturedFrame, EncoderWorker, FramePlan, FrameSlot, FrameWrite, FrameWriteError, NotifyAttempt,
    NotifyStep, Pool, RawFrame, SpawnFailure, SubmitResult, WriteAttempt, WriteStep,
    MAX_CONSECUTIVE_SPAWN_FAILURES, MAX_MEDIA_GENERATION, SLOT_COUNT,
};
use waywire::values::{
    Chroma, Crf, Fps, FrameDimension, FrameMetadata, Generation, InputSequence, Kbps,
};

fn generation(value: u32) -> Generation {
    Generation::new(value).expect("valid test generation")
}

fn dimension(value: u16) -> FrameDimension {
    FrameDimension::new(value).expect("valid test frame dimension")
}

fn fps(value: u32) -> Fps {
    Fps::new(value).expect("valid test frame rate")
}

fn sized_frame(sequence: u64, of: u32, width: u16, height: u16) -> RawFrame {
    let config = EncoderConfig {
        raw_width: dimension(width),
        raw_height: dimension(height),
        encoded_width: dimension(width),
        encoded_height: dimension(height),
        fps: fps(60),
        bitrate_kbps: Kbps::new(8_000).expect("valid test bitrate"),
        crf: Crf::new(23).expect("valid test CRF"),
        chroma: Chroma::Yuv444,
    };
    RawFrame {
        pixels: vec![
            sequence.to_le_bytes()[0];
            config
                .validate()
                .expect("sized test frame should have a valid encoder config")
        ],
        metadata: FrameMetadata {
            generation: generation(of),
            width: config.encoded_width,
            height: config.encoded_height,
            capture_nanos: sequence,
            sequence,
            input_sequence: InputSequence::new(sequence).ok(),
            fps: config.fps,
            chroma: Chroma::Yuv444,
        },
        config,
    }
}

fn frame(sequence: u64, of: u32) -> RawFrame {
    sized_frame(sequence, of, 2, 2)
}

fn captured(frame: &RawFrame) -> CapturedFrame<'_> {
    CapturedFrame::new(&frame.pixels, frame.metadata, frame.config)
}

fn pool() -> Pool {
    Pool::new(generation(1))
}

fn pending(pool: &Pool) -> &RawFrame {
    let slot = pool.pending.expect("a frame should be pending");
    match &pool.slots[slot] {
        FrameSlot::Pending(frame) => frame,
        FrameSlot::Free(_) | FrameSlot::Encoding => {
            panic!("pending slot state disagrees with pool index")
        }
    }
}

/// Takes the pending frame and tries to start an encoder for it.
fn attempt(pool: &mut Pool, worker: &mut EncoderWorker, works: bool) -> Option<SpawnFailure> {
    let (slot, taken) = pool
        .take_pending_frame()
        .expect("a frame should be pending");
    assert_eq!(
        worker.frame(taken.config, taken.metadata.generation),
        FramePlan::Spawn
    );
    if works {
        worker.spawned(taken.config, taken.metadata.generation);
        pool.release_slot(slot, taken);
        None
    } else {
        let failure = worker.spawn_failed(10_000_000, "injected spawn failure");
        pool.requeue_after_spawn_failure(slot, taken);
        Some(failure)
    }
}

#[test]
fn spawn_failure_retries_queued_frame_without_another_submit() {
    let mut pool = pool();
    let mut worker = EncoderWorker::new();
    pool.submit(captured(&frame(1, 1)))
        .expect("test frame should be accepted by the encoder");
    assert!(matches!(
        attempt(&mut pool, &mut worker, false),
        Some(SpawnFailure::Retry {
            delay_nanos: 10_000_000
        })
    ));
    assert_eq!(pending(&pool).metadata.sequence, 1);
    assert!(attempt(&mut pool, &mut worker, true).is_none());
    assert!(pool.pending.is_none());
}

#[test]
fn newer_pending_frame_replaces_queued_spawn_retry() {
    let mut pool = pool();
    let mut worker = EncoderWorker::new();
    pool.submit(captured(&frame(1, 1)))
        .expect("test frame should be accepted by the encoder");
    let _ = attempt(&mut pool, &mut worker, false);
    assert_eq!(
        pool.submit(captured(&frame(2, 1)))
            .expect("test frame should be accepted by the encoder"),
        SubmitResult::ReplacedPending
    );
    assert_eq!(pending(&pool).metadata.sequence, 2);
    assert!(attempt(&mut pool, &mut worker, true).is_none());
}

#[test]
fn repeated_spawn_failures_publish_fatal_at_the_attempt_bound() {
    let mut pool = pool();
    let mut worker = EncoderWorker::new();
    pool.submit(captured(&frame(1, 1)))
        .expect("test frame should be accepted by the encoder");
    let mut attempts = 0;
    let error = loop {
        attempts += 1;
        match attempt(&mut pool, &mut worker, false) {
            Some(SpawnFailure::Retry { .. }) => {}
            Some(SpawnFailure::Fatal { reason }) => break reason,
            None => panic!("no encoder should have started"),
        }
    };
    assert!(error.contains("after 6 attempts"));
    assert_eq!(attempts, usize::from(MAX_CONSECUTIVE_SPAWN_FAILURES));
}

#[test]
fn generation_change_and_stop_discard_spawn_retry_frame() {
    for stop in [false, true] {
        let mut pool = pool();
        pool.submit(captured(&frame(1, 1)))
            .expect("test frame should be accepted by the encoder");
        let (slot, encoding) = pool
            .take_pending_frame()
            .expect("submitted test frame should occupy a pending slot");
        if stop {
            pool.stop();
        } else {
            pool.set_generation(generation(2))
                .expect("valid next media generation should be accepted");
        }

        pool.requeue_after_spawn_failure(slot, encoding);

        assert!(pool.pending.is_none());
        assert!(pool.encoding.is_none());
        assert!(matches!(pool.slots[slot], FrameSlot::Free(_)));
    }
}

#[test]
fn latest_pending_replacement_does_not_touch_encoding_buffers() {
    let mut pool = pool();
    let first = frame(1, 1);
    assert_eq!(
        pool.submit(captured(&first))
            .expect("test frame should be accepted by the encoder"),
        SubmitResult::Queued
    );
    let (first_slot, first_encoding) = pool
        .take_pending_frame()
        .expect("submitted test frame should occupy a pending slot");

    let second = frame(2, 1);
    assert_eq!(
        pool.submit(captured(&second))
            .expect("test frame should be accepted by the encoder"),
        SubmitResult::Queued
    );
    let pending_slot = pool
        .pending
        .expect("submitted test frame should have a pending slot index");
    let (pending_pointer, pending_capacity) = (
        pending(&pool).pixels.as_ptr() as usize,
        pending(&pool).pixels.capacity(),
    );

    for sequence in 4..=103 {
        let replacement = frame(sequence, 1);
        assert_eq!(
            pool.submit(captured(&replacement))
                .expect("test frame should be accepted by the encoder"),
            SubmitResult::ReplacedPending
        );
        let waiting = pending(&pool);
        assert_eq!(pool.pending, Some(pending_slot));
        assert_eq!(waiting.pixels.as_ptr() as usize, pending_pointer);
        assert_eq!(waiting.pixels.capacity(), pending_capacity);
        assert_eq!(waiting.metadata, replacement.metadata);
        assert_eq!(waiting.config, replacement.config);
        assert_eq!(waiting.pixels, replacement.pixels);
    }

    assert_eq!(first_encoding.metadata.sequence, 1);
    assert!(first_encoding.pixels.iter().all(|pixel| *pixel == 1));
    assert_ne!(first_encoding.pixels.as_ptr() as usize, pending_pointer);
    assert!(matches!(pool.slots[first_slot], FrameSlot::Encoding));
    assert!(matches!(pool.slots[pending_slot], FrameSlot::Pending(_)));
    assert_eq!(
        pool.slots
            .iter()
            .filter(|slot| matches!(slot, FrameSlot::Free(_)))
            .count(),
        0
    );

    pool.release_slot(first_slot, first_encoding);
    let (latest_slot, latest) = pool
        .take_pending_frame()
        .expect("submitted test frame should occupy a pending slot");
    assert_eq!(latest_slot, pending_slot);
    assert_eq!(latest.metadata.sequence, 103);
    assert!(latest.pixels.iter().all(|pixel| *pixel == 103));
    pool.release_slot(latest_slot, latest);
}

#[test]
fn generation_changes_reject_stale_input_without_replacing_pending_storage() {
    let mut pool = pool();
    let current = frame(1, 1);
    pool.submit(captured(&current))
        .expect("test frame should be accepted by the encoder");
    let pending_slot = pool
        .pending
        .expect("submitted test frame should have a pending slot index");
    let pending_pointer = pending(&pool).pixels.as_ptr() as usize;

    let future = frame(2, 2);
    assert!(matches!(
        pool.submit(captured(&future)),
        Err(VideoError::InvalidFrame)
    ));
    assert_eq!(pending(&pool).metadata.sequence, 1);
    assert_eq!(pending(&pool).pixels.as_ptr() as usize, pending_pointer);

    pool.set_generation(generation(2))
        .expect("valid next media generation should be accepted");
    assert!(pool.pending.is_none());
    match &pool.slots[pending_slot] {
        FrameSlot::Free(storage) => assert_eq!(storage.as_ptr() as usize, pending_pointer),
        FrameSlot::Pending(_) | FrameSlot::Encoding => {
            panic!("old-generation pending storage was not released")
        }
    }
}

#[test]
fn generation_changes_are_positive_checked_increments() {
    let mut pool = pool();
    assert!(matches!(
        pool.set_generation(generation(1)),
        Err(VideoError::InvalidFrame)
    ));
    assert!(matches!(
        pool.set_generation(generation(3)),
        Err(VideoError::InvalidFrame)
    ));
    pool.set_generation(generation(2))
        .expect("valid next media generation should be accepted");
    assert!(matches!(
        pool.set_generation(generation(2)),
        Err(VideoError::InvalidFrame)
    ));
    pool.generation = generation(MAX_MEDIA_GENERATION);
    assert!(matches!(
        pool.set_generation(generation(MAX_MEDIA_GENERATION + 1)),
        Err(VideoError::InvalidFrame)
    ));
    assert_eq!(pool.generation, generation(MAX_MEDIA_GENERATION));
    pool.generation = generation(u32::MAX);
    assert!(matches!(
        pool.set_generation(generation(1)),
        Err(VideoError::InvalidFrame)
    ));
}

#[test]
fn two_slot_storage_reallocates_for_a_larger_frame_then_stays_stable() {
    let mut pool = pool();
    for sequence in 1..=SLOT_COUNT as u64 {
        let small = sized_frame(sequence, 1, 2, 2);
        pool.submit(captured(&small))
            .expect("test frame should be accepted by the encoder");
        let (slot, stored) = pool
            .take_pending_frame()
            .expect("submitted test frame should occupy a pending slot");
        assert_eq!(
            slot,
            usize::try_from(sequence).expect("slot test sequence should fit usize") - 1
        );
        pool.release_slot(slot, stored);
    }

    let mut pointers = [0_usize; SLOT_COUNT];
    let mut capacities = [0; SLOT_COUNT];
    for sequence in 3..=4 {
        let large = sized_frame(sequence, 1, 64, 64);
        pool.submit(captured(&large))
            .expect("test frame should be accepted by the encoder");
        let (slot, stored) = pool
            .take_pending_frame()
            .expect("submitted test frame should occupy a pending slot");
        pointers[slot] = stored.pixels.as_ptr() as usize;
        capacities[slot] = stored.pixels.capacity();
        assert!(capacities[slot] >= large.pixels.len());
        pool.release_slot(slot, stored);
    }
    assert_ne!(pointers[0], pointers[1]);

    for sequence in 5..=104 {
        // Both slots must see both sizes, rather than each slot always receiving
        // the same size on alternating submissions.
        let source = if sequence % 4 < 2 {
            sized_frame(sequence, 1, 64, 64)
        } else {
            sized_frame(sequence, 1, 2, 2)
        };
        pool.submit(captured(&source))
            .expect("test frame should be accepted by the encoder");
        let (slot, reused) = pool
            .take_pending_frame()
            .expect("submitted test frame should occupy a pending slot");
        assert_eq!(reused.pixels.as_ptr() as usize, pointers[slot]);
        assert_eq!(reused.pixels.capacity(), capacities[slot]);
        assert_eq!(reused.pixels, source.pixels);
        pool.release_slot(slot, reused);
    }
}

#[test]
fn frame_write_io_error_retains_its_source() {
    let error = FrameWriteError::Io(io::Error::new(
        io::ErrorKind::BrokenPipe,
        "injected pipe failure",
    ));
    let source = error
        .source()
        .expect("frame write I/O failure should retain its source");
    assert_eq!(source.kind(), io::ErrorKind::BrokenPipe);
}

/// A pipe that takes a few bytes at a time and is full in between.
struct Pipe {
    capacity: usize,
    room: usize,
    received: Vec<u8>,
}

impl Pipe {
    fn new(capacity: usize) -> Self {
        Pipe {
            capacity,
            room: capacity,
            received: Vec::new(),
        }
    }

    fn write(&mut self, bytes: &[u8]) -> WriteAttempt<io::Error> {
        if self.room == 0 {
            return WriteAttempt::Blocked;
        }
        let count = bytes.len().min(self.room);
        self.received.extend_from_slice(&bytes[..count]);
        self.room -= count;
        WriteAttempt::Wrote(count)
    }

    fn drain(&mut self) {
        self.room = self.capacity;
    }
}

#[test]
fn partial_pipe_writes_finish_the_same_frame() {
    let capacity = 64;
    let bytes: Vec<u8> = (0..capacity * 3 + 17)
        .map(|index: usize| index.to_le_bytes()[0])
        .collect();
    let pool = pool();
    let mut pipe = Pipe::new(capacity);
    let mut write = FrameWrite::new(generation(1), bytes.len());
    let mut attempt = WriteAttempt::Start;
    loop {
        match write.advance(&pool, attempt) {
            WriteStep::Write { from } => attempt = pipe.write(&bytes[from..]),
            WriteStep::Wait => {
                pipe.drain();
                attempt = WriteAttempt::Start;
            }
            WriteStep::Done => break,
            WriteStep::Fail { error } => panic!("test frame write should complete: {error:?}"),
        }
    }
    assert_eq!(pipe.received, bytes);
}

#[test]
fn generation_change_abandons_a_partially_written_pipe_frame() {
    let capacity = 64;
    let bytes = vec![0x5a; capacity * 2];
    let mut pool = pool();
    let mut pipe = Pipe::new(capacity);
    let mut write = FrameWrite::new(generation(1), bytes.len());
    let mut attempt = WriteAttempt::Start;
    let error = loop {
        match write.advance(&pool, attempt) {
            WriteStep::Write { from } => attempt = pipe.write(&bytes[from..]),
            WriteStep::Wait => {
                pool.set_generation(generation(2))
                    .expect("valid next media generation should be accepted");
                attempt = WriteAttempt::Blocked;
            }
            WriteStep::Done => panic!("generation change should interrupt the frame write"),
            WriteStep::Fail { error } => break error,
        }
    };
    assert!(matches!(
        error,
        FrameWriteError::GenerationChanged { observed, frame }
            if observed == generation(2) && frame == generation(1)
    ));
    assert!(!pipe.received.is_empty());
    assert!(pipe.received.len() < bytes.len());
    assert!(pipe.received.iter().all(|byte| *byte == 0x5a));
}

#[test]
fn stop_interrupts_a_blocked_pipe_write_within_the_poll_interval() {
    let mut pool = pool();
    let mut pipe = Pipe::new(0);
    let mut write = FrameWrite::new(generation(1), 1);
    let first = match write.advance(&pool, WriteAttempt::<io::Error>::Start) {
        WriteStep::Write { from } => pipe.write(&[0x5a][from..]),
        other => panic!("the frame should be written: {other:?}"),
    };
    assert!(matches!(write.advance(&pool, first), WriteStep::Wait));
    pool.stop();
    let blocked: WriteAttempt<io::Error> = WriteAttempt::Blocked;
    assert!(matches!(
        write.advance(&pool, blocked),
        WriteStep::Fail {
            error: FrameWriteError::Stopping
        }
    ));
}

#[test]
fn full_notification_queue_wakes_for_fatal_side_channel() {
    let mut pool = pool();
    let now = Instant { nanos: 5 };
    assert_eq!(
        pool.notify(NotifyAttempt::Full, now, Instant { nanos: 6 }),
        NotifyStep::Retry
    );
    assert_eq!(
        pool.notify(NotifyAttempt::Full, now, now),
        NotifyStep::GiveUp { wake: true }
    );
    assert_eq!(
        pool.notification_failure,
        Some("video notification queue remained full")
    );
}

#[test]
fn a_full_notification_queue_cannot_block_shutdown() {
    let mut pool = pool();
    pool.stop();
    let now = Instant { nanos: 5 };
    assert_eq!(
        pool.notify(NotifyAttempt::Full, now, Instant { nanos: 600 }),
        NotifyStep::GiveUp { wake: false }
    );
    assert_eq!(pool.notification_failure, None);
    assert_eq!(
        pool.notify(NotifyAttempt::Sent, now, now),
        NotifyStep::Sent
    );
    assert_eq!(
        pool.notify(NotifyAttempt::Disconnected, now, now),
        NotifyStep::GiveUp { wake: false }
    );
}

#[test]
fn frames_of_the_wrong_size_are_refused() {
    let mut pool = pool();
    let mut short = frame(1, 1);
    short.pixels.pop();
    assert!(matches!(
        pool.submit(captured(&short)),
        Err(VideoError::InvalidFrame)
    ));
    assert!(pool.pending.is_none());
    assert!(pool.take_pending_frame().is_none());
}

#[test]
fn an_encoder_that_is_gone_waits_for_a_new_generation() {
    let config = frame(1, 1).config;
    let mut worker = EncoderWorker::new();
    assert_eq!(worker.frame(config, generation(1)), FramePlan::Spawn);
    worker.spawned(config, generation(1));
    assert_eq!(worker.frame(config, generation(1)), FramePlan::Write);
    assert_eq!(worker.exited(), Some(generation(1)));
    assert_eq!(worker.exited(), None);
    assert_eq!(worker.frame(config, generation(1)), FramePlan::Drop);
    assert_eq!(worker.frame(config, generation(2)), FramePlan::Spawn);

    worker.spawned(config, generation(2));
    let mut changed = config;
    changed.chroma = Chroma::Yuv420;
    assert_eq!(
        worker.frame(changed, generation(2)),
        FramePlan::RequestNewGeneration
    );
    assert_eq!(worker.frame(changed, generation(2)), FramePlan::Drop);
    assert_eq!(worker.frame(changed, generation(3)), FramePlan::Spawn);
}
