use std::sync::Arc;

use waywire::hub::{Pushed, SubscriberId, VideoHub, ViewerBounds, ViewerQueue};
use waywire::values::{
    Chroma, Continuity, Fps, FrameDimension, FrameKind, FrameMetadata, Generation, GopState,
    VideoSample,
};

fn fps(value: u32) -> Fps {
    Fps::new(value).expect("test frame rate should be valid")
}

fn video_hub() -> VideoHub {
    VideoHub::new(fps(60))
}

fn metadata(sequence: u64, generation: u32) -> FrameMetadata {
    FrameMetadata {
        generation: Generation::new(generation).expect("test metadata generation should be valid"),
        width: FrameDimension::new(1280).expect("test frame width should be valid"),
        height: FrameDimension::new(720).expect("test frame height should be valid"),
        capture_nanos: sequence,
        sequence,
        input_sequence: None,
        fps: fps(30),
        chroma: Chroma::Yuv444,
    }
}

fn sample(sequence: u64, bytes: usize, kind: FrameKind) -> VideoSample {
    VideoSample {
        data: Arc::new(vec![1; bytes]),
        kind,
        continuity: Continuity::Continuous,
        metadata: metadata(sequence, 1),
    }
}

fn next(hub: &mut VideoHub, viewer: SubscriberId) -> VideoSample {
    hub.next(viewer).expect("a frame should be queued")
}

fn every_frame_up_to_the_bound() {
    for (max_fps, frame_bound) in [(10, 6_u64), (30, 16), (60, 30), (120, 60)] {
        let mut hub = VideoHub::new(fps(max_fps));
        let _ = hub.broadcast(&sample(0, 1, FrameKind::Key));
        let frames = hub.subscribe();
        assert_eq!(next(&mut hub, frames).metadata.sequence, 0);

        for sequence in 1..=frame_bound {
            let _ = hub.broadcast(&sample(sequence, 1, FrameKind::Delta));
        }
        for expected in 1..=frame_bound {
            let frame = hub
                .next(frames)
                .expect("the literal frame bound should fit without overflow");
            assert_eq!(frame.metadata.sequence, expected);
        }
    }
}

#[test]
fn hub_viewer_queue_delivers_every_frame_up_to_its_bound() {
    every_frame_up_to_the_bound();
}

#[test]
fn tests_viewer_queue_delivers_every_frame_up_to_its_bound() {
    every_frame_up_to_the_bound();
}

fn first_frame_past_the_bound() {
    for (max_fps, frame_bound) in [(10, 6_u64), (30, 16), (60, 30), (120, 60)] {
        let mut hub = VideoHub::new(fps(max_fps));
        let _ = hub.broadcast(&sample(0, 1, FrameKind::Key));
        let frames = hub.subscribe();
        assert_eq!(next(&mut hub, frames).metadata.sequence, 0);

        for sequence in 1..=frame_bound {
            let _ = hub.broadcast(&sample(sequence, 1, FrameKind::Delta));
        }
        let _ = hub.broadcast(&sample(frame_bound + 1, 1, FrameKind::Delta));
        let recovery_sequence = frame_bound + 2;
        let _ = hub.broadcast(&sample(recovery_sequence, 1, FrameKind::Key));

        let recovered = next(&mut hub, frames);
        assert_eq!(recovered.metadata.sequence, recovery_sequence);
        assert_eq!(recovered.kind, FrameKind::Key);
        assert_eq!(recovered.continuity, Continuity::AfterGap);
    }
}

#[test]
fn hub_viewer_queue_clears_on_the_first_frame_past_its_bound() {
    first_frame_past_the_bound();
}

#[test]
fn tests_viewer_queue_clears_on_the_first_frame_past_its_bound() {
    first_frame_past_the_bound();
}

fn byte_overflow() {
    let mut queue = ViewerQueue::new(GopState::Recovering, None, ViewerBounds::new(8, 4));
    assert_eq!(queue.push(sample(0, 1, FrameKind::Key)), Pushed::Queued);
    assert_eq!(
        queue
            .pop()
            .expect("queued keyframe should be present")
            .metadata
            .sequence,
        0
    );

    assert_eq!(queue.push(sample(1, 4, FrameKind::Delta)), Pushed::Queued);
    assert_eq!(queue.push(sample(2, 1, FrameKind::Delta)), Pushed::Dropped);
    assert_eq!(queue.push(sample(3, 1, FrameKind::Delta)), Pushed::Dropped);
    assert_eq!(queue.push(sample(4, 1, FrameKind::Key)), Pushed::Queued);

    let recovered = queue.pop().expect("recovery keyframe should be queued");
    assert_eq!(recovered.metadata.sequence, 4);
    assert_eq!(recovered.kind, FrameKind::Key);
    assert_eq!(recovered.continuity, Continuity::AfterGap);
}

#[test]
fn hub_viewer_queue_recovers_after_byte_overflow_without_large_allocations() {
    byte_overflow();
}

#[test]
fn tests_viewer_queue_recovers_after_byte_overflow_without_large_allocations() {
    byte_overflow();
}

fn overflow_keeps_keyframe() {
    let mut hub = video_hub();
    let _ = hub.broadcast(&sample(0, 1, FrameKind::Key));
    let slow = hub.subscribe();
    let independent = hub.subscribe();
    let _ = next(&mut hub, slow);
    let _ = next(&mut hub, independent);
    for sequence in 1..=ViewerBounds::for_max_fps(fps(60)).frames {
        let _ = hub.broadcast(&sample(
            u64::try_from(sequence).expect("test sequence should fit"),
            1,
            FrameKind::Delta,
        ));
        let _ = next(&mut hub, independent);
    }

    let _ = hub.broadcast(&sample(20, 1, FrameKind::Delta));
    assert_eq!(next(&mut hub, independent).metadata.sequence, 20);
    let _ = hub.broadcast(&sample(21, 1, FrameKind::Key));
    let recovered = next(&mut hub, slow);
    assert_eq!(recovered.kind, FrameKind::Key);
    assert_eq!(recovered.continuity, Continuity::AfterGap);
}

#[test]
fn hub_overflow_keeps_arriving_keyframe_and_discards_delta() {
    overflow_keeps_keyframe();
}

#[test]
fn tests_overflow_keeps_arriving_keyframe_and_discards_delta() {
    overflow_keeps_keyframe();
}

fn waiter_rechecks() {
    let mut hub = video_hub();
    let subscription = hub.subscribe();
    assert!(hub.next(subscription).is_none());

    let _ = hub.broadcast(&sample(1, 1, FrameKind::Key));
    let frame = hub
        .next(subscription)
        .expect("replacement wait should be notified");
    assert_eq!(frame.metadata.sequence, 1);
}

#[test]
fn hub_cancelled_waiter_rechecks_durable_queue_state() {
    waiter_rechecks();
}

#[test]
fn tests_cancelled_waiter_rechecks_durable_queue_state() {
    waiter_rechecks();
}

fn generation_reset() {
    let mut hub = video_hub();
    let _ = hub.broadcast(&sample(0, 1, FrameKind::Key));
    let subscription = hub.subscribe();
    let _ = next(&mut hub, subscription);

    let _ = hub.broadcast(&sample(1, 1, FrameKind::Delta));
    let mut replacement_delta = sample(2, 1, FrameKind::Delta);
    replacement_delta.metadata.generation =
        Generation::new(2).expect("replacement generation should be valid");
    let _ = hub.broadcast(&replacement_delta);
    let mut replacement_key = sample(3, 1, FrameKind::Key);
    replacement_key.metadata.generation =
        Generation::new(2).expect("replacement generation should be valid");
    let _ = hub.broadcast(&replacement_key);

    let frame = next(&mut hub, subscription);
    assert_eq!(frame.metadata.sequence, 3);
    assert_eq!(frame.metadata.generation.get(), 2);
    assert_eq!(frame.continuity, Continuity::AfterGap);
}

#[test]
fn hub_generation_reset_discards_queued_deltas_until_a_new_keyframe() {
    generation_reset();
}

#[test]
fn tests_generation_reset_discards_queued_deltas_until_a_new_keyframe() {
    generation_reset();
}

fn empty_subscriber_map() {
    let mut hub = video_hub();
    let subscription = hub.subscribe();
    hub.unsubscribe(subscription);

    let _ = hub.broadcast(&sample(1, 1, FrameKind::Key));
    let replacement = hub.subscribe();
    assert_eq!(next(&mut hub, replacement).metadata.sequence, 1);
}

#[test]
fn hub_broadcast_survives_an_empty_subscriber_map() {
    empty_subscriber_map();
}

#[test]
fn tests_broadcast_survives_an_empty_subscriber_map() {
    empty_subscriber_map();
}

fn oversized_gop() {
    let bounds = ViewerBounds::for_max_fps(fps(60));
    let mut hub = video_hub();
    let _ = hub.broadcast(&sample(0, 1, FrameKind::Key));
    for sequence in 1..=bounds.frames {
        let _ = hub.broadcast(&sample(
            u64::try_from(sequence).expect("test sequence should fit"),
            1,
            FrameKind::Delta,
        ));
    }
    let subscription = hub.subscribe();

    assert!(hub.next(subscription).is_none());
    let delta_sequence = u64::try_from(bounds.frames + 1).expect("test sequence should fit");
    let key_sequence = u64::try_from(bounds.frames + 2).expect("test sequence should fit");
    let _ = hub.broadcast(&sample(delta_sequence, 1, FrameKind::Delta));
    let _ = hub.broadcast(&sample(key_sequence, 1, FrameKind::Key));
    assert_eq!(
        next(&mut hub, subscription).metadata.sequence,
        key_sequence
    );
}

#[test]
fn hub_oversized_cached_gop_is_not_bootstrapped() {
    oversized_gop();
}

#[test]
fn tests_oversized_cached_gop_is_not_bootstrapped() {
    oversized_gop();
}

fn fitting_gop() {
    let mut hub = video_hub();
    let _ = hub.broadcast(&sample(0, 1, FrameKind::Key));
    let _ = hub.broadcast(&sample(1, 1, FrameKind::Delta));
    let subscription = hub.subscribe();
    let _ = hub.broadcast(&sample(2, 1, FrameKind::Delta));

    for expected in 0..=2 {
        assert_eq!(next(&mut hub, subscription).metadata.sequence, expected);
    }
}

#[test]
fn hub_fitting_cached_gop_is_delivered_before_live_frames() {
    fitting_gop();
}

#[test]
fn tests_fitting_cached_gop_is_delivered_before_live_frames() {
    fitting_gop();
}

fn starts_and_recovers_at_keyframe() {
    let mut hub = video_hub();
    let subscription = hub.subscribe();
    for sequence in 0..10 {
        let _ = hub.broadcast(&VideoSample {
            data: Arc::new(vec![1]),
            kind: FrameKind::Delta,
            continuity: Continuity::Continuous,
            metadata: metadata(sequence, 1),
        });
    }
    let _ = hub.broadcast(&VideoSample {
        data: Arc::new(vec![1]),
        kind: FrameKind::Key,
        continuity: Continuity::Continuous,
        metadata: metadata(11, 1),
    });
    let value = next(&mut hub, subscription);
    assert_eq!(value.kind, FrameKind::Key);
    assert_eq!(value.continuity, Continuity::AfterGap);
}

#[test]
fn hub_viewer_starts_and_recovers_only_at_keyframe() {
    starts_and_recovers_at_keyframe();
}

#[test]
fn tests_viewer_starts_and_recovers_only_at_keyframe() {
    starts_and_recovers_at_keyframe();
}

#[test]
fn broadcasts_report_the_cache_and_the_viewers_they_reached() {
    let mut hub = video_hub();
    let first = hub.subscribe();
    let second = hub.subscribe();
    let lost = hub.broadcast(&sample(0, 1, FrameKind::Delta));
    assert_eq!(lost.state, GopState::Recovering);
    assert_eq!(lost.queued, vec![]);
    let found = hub.broadcast(&sample(1, 1, FrameKind::Key));
    assert_eq!(found.state, GopState::KeyframeCached);
    assert_eq!(found.queued, vec![first, second]);
    assert!(hub.next(SubscriberId(99)).is_none());
}

#[test]
fn viewer_bounds_hold_half_a_second_and_a_frame() {
    for (rate, frames) in [(10, 6), (30, 16), (60, 30), (120, 60)] {
        assert_eq!(ViewerBounds::for_max_fps(fps(rate)).frames, frames);
    }
}

#[test]
fn the_cached_group_ends_at_a_gap_a_generation_and_its_limit() {
    let mut hub = video_hub();
    let state = |hub: &mut VideoHub, frame: VideoSample| hub.broadcast(&frame).state;
    assert_eq!(
        state(&mut hub, sample(0, 1, FrameKind::Key)),
        GopState::KeyframeCached
    );
    // A viewer that comes and goes leaves the group alone.
    let viewer = hub.subscribe();
    hub.unsubscribe(viewer);
    assert_eq!(
        state(&mut hub, sample(1, 1, FrameKind::Delta)),
        GopState::KeyframeCached
    );
    let mut gap = sample(2, 1, FrameKind::Delta);
    gap.continuity = Continuity::AfterGap;
    assert_eq!(state(&mut hub, gap), GopState::Recovering);

    let _ = state(&mut hub, sample(3, 1, FrameKind::Key));
    let mut other = sample(4, 1, FrameKind::Delta);
    other.metadata = metadata(4, 2);
    assert_eq!(state(&mut hub, other), GopState::Recovering);

    let _ = state(&mut hub, sample(5, 1, FrameKind::Key));
    for sequence in 6..246 {
        assert_eq!(
            state(&mut hub, sample(sequence, 1, FrameKind::Delta)),
            GopState::KeyframeCached
        );
    }
    assert_eq!(
        state(&mut hub, sample(246, 1, FrameKind::Delta)),
        GopState::Recovering
    );
}
