use waywire::clock::Instant;
use waywire::quality::{
    EncoderPressure, Feedback, Measurement, Quality, QualityBounds, QualityChange, Streak,
    AUTOMATIC_CRF, BAD_RTT, GOOD_RTT, GOOD_STREAK_THRESHOLD, QUALITY_CHANGE_COOLDOWN_NANOS,
};
use waywire::values::{
    Chroma, Crf, Fps, FrameDimension, FrameMetadata, Generation, InvalidValue, Kbps, QualityLevels,
    QualityPreset, ScalePercent,
};

const SECOND: u64 = 1_000_000_000;

const START: Instant = Instant {
    nanos: 100_000_000_000,
};

fn value<T>(result: Result<T, InvalidValue>) -> T {
    result.expect("test quality value should be valid")
}

fn full_scale() -> ScalePercent {
    ScalePercent::maximum()
}

fn feedback(
    received: u32,
    presented: u32,
    queue_peak: u32,
    queue_busy_ms: f64,
    dropped: u32,
    rtt: f64,
) -> Feedback {
    Feedback {
        received,
        presented,
        dropped,
        queue_peak,
        queue_pressure: Measurement {
            bits: (queue_busy_ms / 1000.0).to_bits(),
        },
        rtt: Measurement {
            bits: rtt.to_bits(),
        },
    }
}

fn bad_feedback() -> Feedback {
    feedback(50, 50, 5, 200.0, 0, 20.0)
}

fn good_feedback() -> Feedback {
    feedback(50, 45, 0, 0.0, 0, 20.0)
}

fn warmed_encoder(quality: &mut Quality) -> FrameMetadata {
    let mut metadata = FrameMetadata {
        generation: value(Generation::new(1)),
        sequence: 1,
        capture_nanos: 0,
        width: value(FrameDimension::new(1280)),
        height: value(FrameDimension::new(720)),
        input_sequence: None,
        fps: value(Fps::new(60)),
        chroma: Chroma::Rgb,
    };
    quality.submitted(&metadata);
    metadata.sequence = 2;
    metadata.capture_nanos = 2_000_000_000;
    quality.submitted(&metadata);
    metadata
}

fn encoder_sample(
    quality: &mut Quality,
    metadata: &mut FrameMetadata,
    submitted: u64,
    dropped: u64,
) {
    metadata.sequence += dropped;
    for _ in 0..submitted {
        metadata.sequence += 1;
        metadata.capture_nanos += 20_000_000;
        quality.submitted(metadata);
    }
}

#[test]
fn healthy_browser_cannot_hide_sustained_encoder_drops() {
    for (submitted, dropped, changes) in [
        (30, 0, false),
        (30, 30, true),
        (18, 2, true),
        (19, 1, false),
        (17, 2, false),
    ] {
        let mut quality = Quality::new(value(Kbps::new(8_000)), value(Fps::new(60)));
        let mut metadata = warmed_encoder(&mut quality);
        let now = START;
        encoder_sample(&mut quality, &mut metadata, submitted, dropped);
        assert_eq!(quality.update(&good_feedback(), now), None);
        encoder_sample(&mut quality, &mut metadata, submitted, dropped);
        let change = quality.update(&good_feedback(), now);
        assert_eq!(
            change.is_some(),
            changes,
            "submitted={submitted}, dropped={dropped}"
        );
        assert_eq!(
            quality.levels(),
            QualityLevels {
                bitrate: value(Kbps::new(8_000)),
                fps: value(Fps::new(if changes { 50 } else { 60 })),
                scale: full_scale(),
            }
        );
        assert_eq!(quality.chroma, Chroma::Rgb);
    }
}

#[test]
fn encoder_only_preserves_rgb_resolution_at_the_floor_but_browser_pressure_uses_yuv() {
    let mut quality = Quality::new(value(Kbps::new(8_000)), value(Fps::new(60)));
    let mut metadata = warmed_encoder(&mut quality);
    let mut now = START;
    for expected in [50, 40, 30, 20, 20] {
        for _ in 0..2 {
            encoder_sample(&mut quality, &mut metadata, 30, 30);
            quality.update(&good_feedback(), now);
        }
        assert_eq!(quality.levels().fps.get(), expected);
        assert_eq!(quality.levels().scale, full_scale());
        assert_eq!(quality.levels().bitrate.get(), 8_000);
        assert_eq!(quality.chroma, Chroma::Rgb);
        now = now.plus(QUALITY_CHANGE_COOLDOWN_NANOS);
    }
    // Browser pressure must still get the more widely decoded format even
    // when the encoder is also overloaded. CPU pressure cannot mask it.
    for _ in 0..2 {
        encoder_sample(&mut quality, &mut metadata, 30, 30);
        quality.update(&bad_feedback(), now);
    }
    assert_eq!(quality.chroma, Chroma::Yuv420);
    assert_eq!(quality.levels().fps.get(), 20);
    assert_eq!(quality.levels().scale, full_scale());
}

#[test]
fn isolated_overload_idle_and_sparse_damage_do_not_lower_quality() {
    let mut quality = Quality::new(value(Kbps::new(8_000)), value(Fps::new(60)));
    let mut metadata = warmed_encoder(&mut quality);
    let now = START;
    for _ in 0..10 {
        encoder_sample(&mut quality, &mut metadata, 30, 30);
        assert_eq!(quality.update(&good_feedback(), now), None);
        assert_eq!(quality.update(&feedback(0, 0, 0, 0.0, 0, 20.0), now), None);
        // One damaged frame after a minute is not 3,599 lost frames.
        metadata.capture_nanos += 60_000_000_000;
        encoder_sample(&mut quality, &mut metadata, 1, 0);
        assert_eq!(quality.update(&feedback(1, 1, 0, 0.0, 0, 20.0), now), None);
    }
    assert_eq!(quality.chroma, Chroma::Rgb);
    assert_eq!(quality.levels().scale, full_scale());
    assert_eq!(quality.levels().fps.get(), 60);
}

#[test]
fn generation_and_startup_gaps_discard_pressure_and_streaks() {
    let mut quality = Quality::new(value(Kbps::new(8_000)), value(Fps::new(60)));
    let mut metadata = warmed_encoder(&mut quality);
    let now = START;
    encoder_sample(&mut quality, &mut metadata, 30, 30);
    assert_eq!(quality.update(&good_feedback(), now), None);
    encoder_sample(&mut quality, &mut metadata, 30, 30);
    metadata.generation = value(Generation::new(2));
    metadata.sequence += 10_000;
    quality.submitted(&metadata);
    encoder_sample(&mut quality, &mut metadata, 30, 300);
    assert_eq!(quality.update(&good_feedback(), now), None);
    // The interval crossing the grace boundary is also discarded.
    metadata.capture_nanos += 2_000_000_000;
    encoder_sample(&mut quality, &mut metadata, 1, 300);
    assert_eq!(quality.update(&good_feedback(), now), None);
    encoder_sample(&mut quality, &mut metadata, 30, 30);
    assert_eq!(quality.update(&good_feedback(), now), None);
    assert_eq!(quality.levels().fps.get(), 60);
    encoder_sample(&mut quality, &mut metadata, 30, 30);
    assert_eq!(
        quality
            .update(&good_feedback(), now)
            .expect("two fresh bad windows")
            .new
            .fps,
        value(Fps::new(50))
    );
    assert_eq!(quality.chroma, Chroma::Rgb);
}

#[test]
fn encoder_pressure_obeys_cooldown_and_healthy_recovery() {
    let mut quality = Quality::new(value(Kbps::new(8_000)), value(Fps::new(60)));
    let mut metadata = warmed_encoder(&mut quality);
    let now = START;
    encoder_sample(&mut quality, &mut metadata, 30, 30);
    assert_eq!(quality.update(&good_feedback(), now), None);
    encoder_sample(&mut quality, &mut metadata, 30, 30);
    assert_eq!(
        quality
            .update(&good_feedback(), now)
            .expect("lower frame rate without adding conversion or scaling")
            .new
            .fps,
        value(Fps::new(50))
    );
    for seconds in 1..5 {
        encoder_sample(&mut quality, &mut metadata, 30, 30);
        assert_eq!(
            quality.update(&good_feedback(), now.plus(seconds * SECOND)),
            None
        );
    }
    encoder_sample(&mut quality, &mut metadata, 30, 30);
    let change = quality
        .update(&good_feedback(), now.plus(5 * SECOND))
        .expect("next rung at five seconds");
    assert_eq!(change.new.scale, full_scale());
    assert_eq!(change.new.bitrate, value(Kbps::new(8_000)));
    assert_eq!(change.new.fps, value(Fps::new(40)));
    for seconds in 6..13 {
        encoder_sample(&mut quality, &mut metadata, 49, 1);
        assert_eq!(
            quality.update(&good_feedback(), now.plus(seconds * SECOND)),
            None
        );
    }
    // 3% replacement must block recovery even when the browser is healthy.
    encoder_sample(&mut quality, &mut metadata, 97, 3);
    assert_eq!(
        quality.update(&good_feedback(), now.plus(13 * SECOND)),
        None
    );
    for seconds in 14..21 {
        encoder_sample(&mut quality, &mut metadata, 49, 1);
        assert_eq!(
            quality.update(&good_feedback(), now.plus(seconds * SECOND)),
            None
        );
    }
    encoder_sample(&mut quality, &mut metadata, 49, 1);
    assert_eq!(
        quality
            .update(&good_feedback(), now.plus(21 * SECOND))
            .expect("eight healthy windows")
            .new
            .fps,
        value(Fps::new(50))
    );
    assert_eq!(quality.chroma, Chroma::Rgb);
}

fn trigger_bad(quality: &mut Quality, now: Instant) -> Option<QualityChange> {
    assert_eq!(quality.update(&bad_feedback(), now), None);
    quality.update(&bad_feedback(), now)
}

fn trigger_good(quality: &mut Quality, now: Instant) -> Option<QualityChange> {
    for _ in 0..7 {
        assert_eq!(quality.update(&good_feedback(), now), None);
    }
    quality.update(&good_feedback(), now)
}

#[test]
fn first_change_is_allowed_immediately() {
    let mut quality = Quality::new(value(Kbps::new(8_000)), value(Fps::new(60)));
    let now = START;

    let change = trigger_bad(&mut quality, now)
        .expect("second bad sample should change quality immediately");

    assert_eq!(
        change,
        QualityChange {
            old: QualityLevels {
                bitrate: value(Kbps::new(8_000)),
                fps: value(Fps::new(60)),
                scale: value(ScalePercent::new(100)),
            },
            new: QualityLevels {
                bitrate: value(Kbps::new(8_000)),
                fps: value(Fps::new(60)),
                scale: value(ScalePercent::new(100)),
            },
            old_crf: value(Crf::new(AUTOMATIC_CRF)),
            new_crf: value(Crf::new(AUTOMATIC_CRF)),
            old_chroma: Chroma::Rgb,
            new_chroma: Chroma::Yuv420,
        }
    );
}

#[test]
fn bad_ladder_changes_one_level_at_a_time_and_stops_at_every_floor() {
    let mut quality = Quality::new(value(Kbps::new(1_000)), value(Fps::new(30)));
    let mut now = START;
    let expected = [
        (1_000, 30, 100, Chroma::Yuv420),
        (1_000, 30, 75, Chroma::Yuv420),
        (1_000, 30, 50, Chroma::Yuv420),
        (800, 30, 50, Chroma::Yuv420),
        (640, 30, 50, Chroma::Yuv420),
        (512, 30, 50, Chroma::Yuv420),
        (500, 30, 50, Chroma::Yuv420),
        (500, 20, 50, Chroma::Yuv420),
    ];

    for (bitrate, frame_rate, scale, chroma) in expected {
        let change = trigger_bad(&mut quality, now)
            .expect("bad streak should move down one ladder level");
        assert_eq!(
            (change.new, change.new_chroma),
            (
                QualityLevels {
                    bitrate: value(Kbps::new(bitrate)),
                    fps: value(Fps::new(frame_rate)),
                    scale: value(ScalePercent::new(scale)),
                },
                chroma,
            )
        );
        now = now.plus(QUALITY_CHANGE_COOLDOWN_NANOS);
    }

    assert_eq!(trigger_bad(&mut quality, now), None);
    assert_eq!(
        (quality.levels(), quality.chroma),
        (
            QualityLevels {
                bitrate: value(Kbps::new(500)),
                fps: value(Fps::new(20)),
                scale: value(ScalePercent::new(50)),
            },
            Chroma::Yuv420,
        )
    );
}

#[test]
fn bitrate_floor_is_three_hundred_when_half_the_maximum_is_lower() {
    let mut quality = Quality::new(value(Kbps::new(500)), value(Fps::new(20)));
    let mut now = START;

    for expected_scale in [100, 75, 50] {
        let change = trigger_bad(&mut quality, now)
            .expect("chroma and scale steps should precede the bitrate floor");
        assert_eq!(change.new.scale, value(ScalePercent::new(expected_scale)));
        assert_eq!(change.new_chroma, Chroma::Yuv420);
        now = now.plus(QUALITY_CHANGE_COOLDOWN_NANOS);
    }
    for expected in [400, 320, 300] {
        let change = trigger_bad(&mut quality, now)
            .expect("bad streak should lower bitrate to its floor");
        assert_eq!(change.new.bitrate, value(Kbps::new(expected)));
        now = now.plus(QUALITY_CHANGE_COOLDOWN_NANOS);
    }

    assert_eq!(trigger_bad(&mut quality, now), None);
}

#[test]
fn good_ladder_reverses_the_bad_ladder_priority_exactly() {
    let mut quality = Quality::new(value(Kbps::new(1_000)), value(Fps::new(40)));
    quality.levels = QualityLevels {
        bitrate: value(Kbps::new(500)),
        fps: value(Fps::new(20)),
        scale: value(ScalePercent::new(50)),
    };
    quality.chroma = Chroma::Yuv420;
    let mut now = START;
    let expected = [
        (500, 30, 50, Chroma::Yuv420),
        (500, 40, 50, Chroma::Yuv420),
        (550, 40, 50, Chroma::Yuv420),
        (605, 40, 50, Chroma::Yuv420),
        (665, 40, 50, Chroma::Yuv420),
        (731, 40, 50, Chroma::Yuv420),
        (804, 40, 50, Chroma::Yuv420),
        (884, 40, 50, Chroma::Yuv420),
        (972, 40, 50, Chroma::Yuv420),
        (1_000, 40, 50, Chroma::Yuv420),
        (1_000, 40, 75, Chroma::Yuv420),
        (1_000, 40, 100, Chroma::Yuv420),
        (1_000, 40, 100, Chroma::Rgb),
    ];

    for (bitrate, frame_rate, scale, chroma) in expected {
        let change = trigger_good(&mut quality, now)
            .expect("good streak should move up one ladder level");
        assert_eq!(
            (change.new, change.new_chroma),
            (
                QualityLevels {
                    bitrate: value(Kbps::new(bitrate)),
                    fps: value(Fps::new(frame_rate)),
                    scale: value(ScalePercent::new(scale)),
                },
                chroma,
            )
        );
        now = now.plus(QUALITY_CHANGE_COOLDOWN_NANOS);
    }

    assert_eq!(trigger_good(&mut quality, now), None);
}

#[test]
fn presets_have_exact_bounds() {
    let quality = Quality::new(value(Kbps::new(8_000)), value(Fps::new(60)));
    let cases = [
        (
            QualityPreset::Automatic,
            (4_000, 8_000, 20, 60, 50, 100, 23),
        ),
        (QualityPreset::High, (4_000, 8_000, 20, 60, 50, 100, 18)),
        (QualityPreset::Medium, (2_000, 4_000, 20, 60, 50, 100, 28)),
        (QualityPreset::Low, (1_000, 2_000, 20, 60, 50, 100, 32)),
    ];

    for (
        preset,
        (
            bitrate_floor,
            bitrate_ceiling,
            fps_floor,
            fps_ceiling,
            scale_floor,
            scale_ceiling,
            crf,
        ),
    ) in cases
    {
        let bounds = QualityBounds::for_preset(preset, quality.max_bitrate, quality.max_fps);
        assert_eq!(
            bounds,
            QualityBounds {
                bitrate_floor: value(Kbps::new(bitrate_floor)),
                bitrate_ceiling: value(Kbps::new(bitrate_ceiling)),
                fps_floor: value(Fps::new(fps_floor)),
                fps_ceiling: value(Fps::new(fps_ceiling)),
                scale_floor: value(ScalePercent::new(scale_floor)),
                scale_ceiling: value(ScalePercent::new(scale_ceiling)),
                crf: value(Crf::new(crf)),
            },
            "wrong bounds for {preset:?}"
        );
    }
}

#[test]
fn preset_crf_values_follow_quality_ordering() {
    let max_bitrate = value(Kbps::new(8_000));
    let max_fps = value(Fps::new(60));
    let high = QualityBounds::for_preset(QualityPreset::High, max_bitrate, max_fps).crf;
    let automatic =
        QualityBounds::for_preset(QualityPreset::Automatic, max_bitrate, max_fps).crf;
    let medium = QualityBounds::for_preset(QualityPreset::Medium, max_bitrate, max_fps).crf;
    let low = QualityBounds::for_preset(QualityPreset::Low, max_bitrate, max_fps).crf;

    assert!(high.get() < automatic.get());
    assert!(automatic.get() < medium.get());
    assert!(medium.get() < low.get());
}

#[test]
fn every_preset_adapts_monotonically_within_its_bounds() {
    for preset in [
        QualityPreset::Automatic,
        QualityPreset::High,
        QualityPreset::Medium,
        QualityPreset::Low,
    ] {
        let mut quality = Quality::new(value(Kbps::new(8_000)), value(Fps::new(60)));
        quality.select_preset(preset);
        let bounds = quality.bounds();
        let mut now = START;

        while let Some(change) = trigger_bad(&mut quality, now) {
            assert!(change.new.bitrate <= change.old.bitrate);
            assert!(change.new.fps <= change.old.fps);
            assert!(change.new.scale <= change.old.scale);
            assert!(change.new.bitrate >= bounds.bitrate_floor);
            assert!(change.new.fps >= bounds.fps_floor);
            assert!(change.new.scale >= bounds.scale_floor);
            now = now.plus(QUALITY_CHANGE_COOLDOWN_NANOS);
        }
        assert_eq!(quality.levels().bitrate, bounds.bitrate_floor);
        assert_eq!(quality.levels().fps, bounds.fps_floor);
        assert_eq!(quality.levels().scale, bounds.scale_floor);
        assert_eq!(quality.chroma, Chroma::Yuv420);

        while let Some(change) = trigger_good(&mut quality, now) {
            assert!(change.new.bitrate >= change.old.bitrate);
            assert!(change.new.fps >= change.old.fps);
            assert!(change.new.scale >= change.old.scale);
            assert!(change.new.bitrate <= bounds.bitrate_ceiling);
            assert!(change.new.fps <= bounds.fps_ceiling);
            assert!(change.new.scale <= bounds.scale_ceiling);
            now = now.plus(QUALITY_CHANGE_COOLDOWN_NANOS);
        }
        assert_eq!(quality.levels().bitrate, bounds.bitrate_ceiling);
        assert_eq!(quality.levels().fps, bounds.fps_ceiling);
        assert_eq!(quality.levels().scale, bounds.scale_ceiling);
        assert_eq!(quality.chroma, Chroma::Rgb);
    }
}

#[test]
fn switching_back_to_automatic_restores_session_ceilings() {
    let mut quality = Quality::new(value(Kbps::new(8_000)), value(Fps::new(60)));
    quality.select_preset(QualityPreset::Low);
    assert_eq!(quality.bounds().bitrate_ceiling, value(Kbps::new(2_000)));
    assert_eq!(quality.bounds().fps_ceiling, value(Fps::new(60)));

    quality.select_preset(QualityPreset::Automatic);

    assert_eq!(quality.bounds().bitrate_ceiling, value(Kbps::new(8_000)));
    assert_eq!(quality.bounds().fps_ceiling, value(Fps::new(60)));
    let mut now = START;
    while trigger_good(&mut quality, now).is_some() {
        now = now.plus(QUALITY_CHANGE_COOLDOWN_NANOS);
    }
    assert_eq!(
        quality.levels(),
        QualityLevels {
            bitrate: value(Kbps::new(8_000)),
            fps: value(Fps::new(60)),
            scale: value(ScalePercent::new(100)),
        }
    );
}

#[test]
fn preset_switching_never_changes_chroma() {
    let mut quality = Quality::new(value(Kbps::new(8_000)), value(Fps::new(60)));
    let now = START;
    trigger_bad(&mut quality, now).expect("bad streak should lower chroma first");
    assert_eq!(quality.chroma, Chroma::Yuv420);

    for preset in [
        QualityPreset::Low,
        QualityPreset::Medium,
        QualityPreset::High,
        QualityPreset::Automatic,
    ] {
        let _ = quality.select_preset(preset);
        assert_eq!(quality.chroma, Chroma::Yuv420);
    }
}

#[test]
fn changed_preset_resets_streak_and_cooldown_but_same_preset_is_idempotent() {
    let mut quality = Quality::new(value(Kbps::new(8_000)), value(Fps::new(60)));
    let now = START;
    assert_eq!(quality.update(&bad_feedback(), now), None);
    assert_eq!(
        quality
            .select_preset(QualityPreset::Medium)
            .map(|change| change.new.bitrate),
        Some(value(Kbps::new(4_000)))
    );
    assert_eq!(quality.update(&bad_feedback(), now), None);
    assert!(quality.update(&bad_feedback(), now).is_some());

    assert_eq!(quality.update(&bad_feedback(), now), None);
    assert_eq!(quality.select_preset(QualityPreset::Medium), None);
    assert!(
        quality
            .update(&bad_feedback(), now.plus(QUALITY_CHANGE_COOLDOWN_NANOS))
            .is_some()
    );
}

#[test]
fn cooldown_spaces_changes_by_five_seconds() {
    let mut quality = Quality::new(value(Kbps::new(8_000)), value(Fps::new(60)));
    let now = START;
    assert!(trigger_bad(&mut quality, now).is_some());

    assert_eq!(
        trigger_bad(&mut quality, now.plus(4 * SECOND)),
        None
    );
    assert!(
        quality
            .update(&bad_feedback(), now.plus(QUALITY_CHANGE_COOLDOWN_NANOS))
            .is_some()
    );
    assert_eq!(quality.levels().bitrate, value(Kbps::new(8_000)));
    assert_eq!(quality.levels().scale, value(ScalePercent::new(75)));
    assert_eq!(quality.chroma, Chroma::Yuv420);
}

#[test]
fn mixed_samples_clear_the_streak() {
    let mut quality = Quality::new(value(Kbps::new(8_000)), value(Fps::new(60)));
    let now = START;
    assert_eq!(quality.update(&bad_feedback(), now), None);
    assert_eq!(
        quality.update(&feedback(50, 48, 0, 0.0, 2, 20.0), now),
        None
    );
    assert_eq!(quality.streak, Streak::Neither);
    assert_eq!(quality.update(&bad_feedback(), now), None);
    assert_eq!(quality.chroma, Chroma::Rgb);
}

#[test]
fn idle_feedback_preserves_streaks_without_advancing_or_changing_quality() {
    let mut quality = Quality::new(value(Kbps::new(8_000)), value(Fps::new(60)));
    let mut now = START;
    let idle = feedback(0, 0, 64, 1000.0, 10_000, 60_000.0);
    assert_eq!(quality.update(&idle, now), None);
    assert_eq!(quality.streak, Streak::Neither);
    assert_eq!(quality.update(&bad_feedback(), now), None);
    now = now.plus(60 * SECOND);
    assert_eq!(quality.update(&idle, now), None);
    assert_eq!(quality.streak, Streak::Bad(1));
    assert!(quality.update(&bad_feedback(), now).is_some());
    assert_eq!(quality.chroma, Chroma::Yuv420);
    let last_change = quality.last_change;
    let levels = quality.levels();

    for count in 1..GOOD_STREAK_THRESHOLD {
        now = now.plus(1 * SECOND);
        assert_eq!(quality.update(&good_feedback(), now), None);
        now = now.plus(60 * SECOND);
        assert_eq!(quality.update(&idle, now), None);
        assert_eq!(quality.streak, Streak::Good(count));
        assert_eq!(quality.levels(), levels);
        assert_eq!(quality.chroma, Chroma::Yuv420);
        assert_eq!(quality.last_change, last_change);
    }
    assert!(quality.update(&good_feedback(), now).is_some());
    assert_eq!(quality.chroma, Chroma::Rgb);
}

#[test]
fn recovery_accepts_drop_rates_up_to_two_percent() {
    for (received, dropped) in [(50, 1), (100, 2), (1, 0)] {
        let mut quality = Quality::new(value(Kbps::new(8_000)), value(Fps::new(60)));
        let now = START;
        assert!(trigger_bad(&mut quality, now).is_some());
        let now = now.plus(QUALITY_CHANGE_COOLDOWN_NANOS);
        for _ in 1..GOOD_STREAK_THRESHOLD {
            assert_eq!(quality.update(&good_feedback(), now), None);
        }
        let recovered = feedback(received, received - dropped, 0, 0.0, dropped, 20.0);
        assert!(quality.update(&recovered, now).is_some());
        assert_eq!(quality.chroma, Chroma::Rgb);
    }
}

#[test]
fn drop_rates_above_two_percent_discard_recovery_progress() {
    for (received, dropped) in [(49, 1), (100, 3), (1, 1)] {
        let mut quality = Quality::new(value(Kbps::new(8_000)), value(Fps::new(60)));
        let now = START;
        assert!(trigger_bad(&mut quality, now).is_some());
        let now = now.plus(QUALITY_CHANGE_COOLDOWN_NANOS);
        for _ in 1..GOOD_STREAK_THRESHOLD {
            assert_eq!(quality.update(&good_feedback(), now), None);
        }
        let lossy = feedback(received, received - dropped, 0, 0.0, dropped, 20.0);
        assert_eq!(quality.update(&lossy, now), None);
        assert_eq!(quality.streak, Streak::Neither);
        assert_eq!(quality.update(&good_feedback(), now), None);
        assert_eq!(quality.chroma, Chroma::Yuv420);
    }
}

#[test]
fn high_rtt_counts_as_bad() {
    let mut quality = Quality::new(value(Kbps::new(8_000)), value(Fps::new(60)));
    let now = START;
    let high_rtt = feedback(50, 50, 0, 0.0, 0, 251.0);

    assert_eq!(quality.update(&high_rtt, now), None);
    assert!(quality.update(&high_rtt, now).is_some());
}

#[test]
fn measurements_compare_as_the_numbers_that_they_encode() {
    let number = |value: f64| Measurement {
        bits: value.to_bits(),
    };
    for (value, threshold) in [
        (250.0_f64, 250.0_f64),
        (250.5, 250.0),
        (249.5, 250.0),
        (0.0, 0.05),
        (-1.0, 0.05),
        (1e300, 120.0),
        (f64::INFINITY, 120.0),
        (f64::NAN, 120.0),
        (-0.0, 0.1),
        (5e-324, 0.1),
    ] {
        let bits = threshold.to_bits();
        assert_eq!(number(value).at_least(bits), value >= threshold, "{value}");
        assert_eq!(number(value).above(bits), value > threshold, "{value}");
        assert_eq!(number(value).below(bits), value < threshold, "{value}");
    }
    assert_eq!(f64::from_bits(BAD_RTT), 250.0);
    assert_eq!(f64::from_bits(GOOD_RTT), 120.0);
}

#[test]
fn presets_and_pressure_keep_the_levels_in_range() {
    let mut quality = Quality::new(value(Kbps::new(8_000)), value(Fps::new(60)));
    let change = quality
        .select_preset(QualityPreset::Low)
        .expect("the low preset should lower the bitrate");
    assert_eq!(change.new.bitrate, value(Kbps::new(2_000)));
    assert_eq!(change.new_crf, value(Crf::new(32)));
    let bounds: QualityBounds = quality.bounds();
    assert!(quality.levels().bitrate >= bounds.bitrate_floor);
    assert!(quality.levels().bitrate <= bounds.bitrate_ceiling);
}

#[test]
fn resetting_the_samples_forgets_streaks_and_pressure() {
    let mut quality = Quality::new(value(Kbps::new(8_000)), value(Fps::new(60)));
    assert_eq!(quality.update(&bad_feedback(), START), None);
    quality.reset_samples();
    assert_eq!(quality.streak, Streak::Neither);
    assert_eq!(quality.update(&bad_feedback(), START), None);
    let mut pressure = EncoderPressure::default();
    assert_eq!(pressure.take(), (false, true));
}
