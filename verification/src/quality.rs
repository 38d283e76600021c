//! Adaptive quality: moves the encoder along a ladder of settings according to what
//! the controlling browser and the encoder report.

use crate::clock::Instant;
use crate::values::{
    group_values_ext, Chroma, Crf, Fps, FrameMetadata, Generation, Kbps, QualityLevels,
    QualityPreset, ScalePercent,
};
use vstd::prelude::*;

verus! {

pub const QUALITY_CHANGE_COOLDOWN_NANOS: u64 = 5_000_000_000;

pub const ENCODER_WARMUP_NANOS: u64 = 1_000_000_000;

pub const ENCODER_MIN_RENDERED: u64 = 20;

pub const ENCODER_BAD_DROP_PERCENT: u64 = 10;

pub const BAD_STREAK_THRESHOLD: u8 = 2;

pub const GOOD_STREAK_THRESHOLD: u8 = 8;

pub const GOOD_DROP_PERCENT: u64 = 2;

pub const FPS_FLOOR: u32 = 20;

pub const AUTOMATIC_CRF: u8 = 23;

pub const HIGH_CRF: u8 = 18;

pub const MEDIUM_CRF: u8 = 28;

pub const LOW_CRF: u8 = 32;

pub const DOWN_STEP_PERCENT: u8 = 80;

pub const UP_STEP_PERCENT: u8 = 110;

pub const FPS_STEP: u32 = 10;

pub const SCALE_STEP: u32 = 25;

pub const BAD_QUEUE_PEAK: u32 = 24;

/// The bits of the double 0.10.
pub const BAD_QUEUE_PRESSURE: u64 = 0x3fb9_9999_9999_999a;

/// The bits of the double 0.05.
pub const GOOD_QUEUE_PRESSURE: u64 = 0x3fa9_9999_9999_999a;

/// The bits of the double 250.0.
pub const BAD_RTT: u64 = 0x406f_4000_0000_0000;

/// The bits of the double 120.0.
pub const GOOD_RTT: u64 = 0x405e_0000_0000_0000;

/// A double-precision measurement, held as its IEEE 754 bits. Those of nonnegative
/// doubles are ordered as the doubles are; a negative double has the sign bit set,
/// and one that is not a number compares as neither less nor greater.
#[derive(Clone, Copy, Debug, PartialEq, Eq, Structural)]
pub struct Measurement {
    pub bits: u64,
}

impl Measurement {
    pub open spec fn is_negative(self) -> bool {
        self.bits >= 0x8000_0000_0000_0000
    }

    pub open spec fn is_nan(self) -> bool {
        self.bits % 0x8000_0000_0000_0000 > 0x7ff0_0000_0000_0000
    }

    /// Not below the positive double with the given bits.
    pub open spec fn spec_at_least(self, threshold: u64) -> bool {
        !self.is_nan() && !self.is_negative() && self.bits >= threshold
    }

    /// Above the positive double with the given bits.
    pub open spec fn spec_above(self, threshold: u64) -> bool {
        !self.is_nan() && !self.is_negative() && self.bits > threshold
    }

    /// Below the positive double with the given bits.
    pub open spec fn spec_below(self, threshold: u64) -> bool {
        !self.is_nan() && (self.is_negative() || self.bits < threshold)
    }

    pub fn at_least(self, threshold: u64) -> (r: bool)
        ensures
            r == self.spec_at_least(threshold),
    {
        self.bits % 0x8000_0000_0000_0000 <= 0x7ff0_0000_0000_0000 && self.bits
            < 0x8000_0000_0000_0000 && self.bits >= threshold
    }

    pub fn above(self, threshold: u64) -> (r: bool)
        ensures
            r == self.spec_above(threshold),
    {
        self.bits % 0x8000_0000_0000_0000 <= 0x7ff0_0000_0000_0000 && self.bits
            < 0x8000_0000_0000_0000 && self.bits > threshold
    }

    pub fn below(self, threshold: u64) -> (r: bool)
        ensures
            r == self.spec_below(threshold),
    {
        self.bits % 0x8000_0000_0000_0000 <= 0x7ff0_0000_0000_0000 && (self.bits
            >= 0x8000_0000_0000_0000 || self.bits < threshold)
    }
}

/// What the controlling browser reports of one sampling interval.
#[derive(Clone, Copy, Debug, PartialEq, Eq, Structural)]
pub struct Feedback {
    pub received: u32,
    pub presented: u32,
    pub dropped: u32,
    pub queue_peak: u32,
    /// The share of the interval for which the decoder queue was busy.
    pub queue_pressure: Measurement,
    /// The round-trip time in milliseconds.
    pub rtt: Measurement,
}

#[derive(Clone, Copy, Debug, PartialEq, Eq, Structural)]
pub enum Streak {
    Neither,
    Bad(u8),
    Good(u8),
}

// ---------------------------------------------------------------------------
// Encoder pressure
// ---------------------------------------------------------------------------

/// Counts frames that the compositor rendered and those among them that were
/// replaced before the encoder took them.
#[derive(Clone, Copy, Debug, PartialEq, Eq)]
pub struct EncoderPressure {
    pub previous: Option<(Generation, u64, u64)>,
    pub warmup_until: u64,
    pub rendered: u64,
    pub dropped: u64,
}

pub open spec fn u64_saturated(value: int) -> u64 {
    if value <= u64::MAX {
        value as u64
    } else {
        u64::MAX
    }
}

pub open spec fn no_pressure() -> EncoderPressure {
    EncoderPressure { previous: None, warmup_until: 0, rendered: 0, dropped: 0 }
}

/// Whether the frame does not continue the sequence of the frame before it.
pub open spec fn restarts(pressure: EncoderPressure, metadata: FrameMetadata) -> bool {
    match pressure.previous {
        None => true,
        Some((generation, sequence, _)) => generation != metadata.generation || metadata.sequence
            <= sequence,
    }
}

/// A frame that starts a sequence starts the counts over, with a second of grace. In
/// that second the baseline moves along, so that neither startup nor discarded frames
/// count; after it every gap in the sequence counts as frames dropped.
pub open spec fn observed(pressure: EncoderPressure, metadata: FrameMetadata) -> EncoderPressure {
    let moved = EncoderPressure {
        previous: Some((metadata.generation, metadata.sequence, metadata.capture_nanos)),
        ..pressure
    };
    if restarts(pressure, metadata) {
        EncoderPressure {
            warmup_until: u64_saturated(metadata.capture_nanos + ENCODER_WARMUP_NANOS),
            rendered: if pressure.previous is None {
                pressure.rendered
            } else {
                0
            },
            dropped: if pressure.previous is None {
                pressure.dropped
            } else {
                0
            },
            ..moved
        }
    } else {
        let (_, sequence, captured) = pressure.previous->0;
        if captured <= pressure.warmup_until {
            moved
        } else {
            let rendered = metadata.sequence - sequence;
            EncoderPressure {
                rendered: u64_saturated(pressure.rendered + rendered),
                dropped: u64_saturated(pressure.dropped + rendered - 1),
                ..moved
            }
        }
    }
}

/// Enough frames were rendered and too many of them dropped.
pub open spec fn encoder_bad(pressure: EncoderPressure) -> bool {
    pressure.rendered >= ENCODER_MIN_RENDERED && pressure.dropped * 100 >= pressure.rendered
        * ENCODER_BAD_DROP_PERCENT
}

pub open spec fn encoder_good(pressure: EncoderPressure) -> bool {
    pressure.dropped * 100 <= pressure.rendered * GOOD_DROP_PERCENT
}

impl Default for EncoderPressure {
    fn default() -> (r: Self)
        ensures
            r == no_pressure(),
    {
        EncoderPressure { previous: None, warmup_until: 0, rendered: 0, dropped: 0 }
    }
}

impl EncoderPressure {
    pub fn observe(&mut self, metadata: &FrameMetadata) -> (r: bool)
        ensures
            *final(self) == observed(*old(self), *metadata),
            r == restarts(*old(self), *metadata),
    {
        let previous = self.previous;
        self.previous =
        Some((metadata.generation, metadata.sequence, metadata.capture_nanos));
        let (generation, sequence, captured) = match previous {
            Some(previous) => previous,
            None => {
                self.warmup_until = metadata.capture_nanos.saturating_add(ENCODER_WARMUP_NANOS);
                return true;
            },
        };
        if generation != metadata.generation || metadata.sequence <= sequence {
            self.rendered = 0;
            self.dropped = 0;
            self.warmup_until = metadata.capture_nanos.saturating_add(ENCODER_WARMUP_NANOS);
            return true;
        }
        if captured <= self.warmup_until {
            return false;
        }
        let rendered: u64 = metadata.sequence - sequence;
        self.rendered = self.rendered.saturating_add(rendered);
        self.dropped = self.dropped.saturating_add(rendered - 1);
        false
    }

    /// Whether the encoder was overloaded, whether it kept up, and a fresh start.
    pub fn take(&mut self) -> (r: (bool, bool))
        ensures
            r == (encoder_bad(*old(self)), encoder_good(*old(self))),
            *final(self) == (EncoderPressure { rendered: 0, dropped: 0, ..*old(self) }),
    {
        let rendered: u64 = self.rendered;
        let dropped: u64 = self.dropped;
        self.rendered = 0;
        self.dropped = 0;
        assert(rendered * ENCODER_BAD_DROP_PERCENT <= u64::MAX * 10 && rendered
            * GOOD_DROP_PERCENT <= u64::MAX * 2) by (nonlinear_arith)
            requires
                rendered <= u64::MAX,
                ENCODER_BAD_DROP_PERCENT == 10,
                GOOD_DROP_PERCENT == 2,
        ;
        (
            rendered >= ENCODER_MIN_RENDERED && dropped as u128 * 100 >= rendered as u128
                * ENCODER_BAD_DROP_PERCENT as u128,
            dropped as u128 * 100 <= rendered as u128 * GOOD_DROP_PERCENT as u128,
        )
    }
}

// ---------------------------------------------------------------------------
// The ladder
// ---------------------------------------------------------------------------

/// The settings that adaptation moves, as numbers.
pub struct Rung {
    pub bitrate: int,
    pub fps: int,
    pub scale: int,
    pub chroma: Chroma,
}

/// The range that a preset allows.
pub struct Range {
    pub bitrate_floor: int,
    pub bitrate_ceiling: int,
    pub fps_floor: int,
    pub fps_ceiling: int,
    pub crf: int,
}

pub open spec fn preset_ceiling(preset: QualityPreset, max_bitrate: int) -> int {
    match preset {
        QualityPreset::Automatic | QualityPreset::High => max_bitrate,
        QualityPreset::Medium => Kbps::spec_scaled(max_bitrate, 50),
        QualityPreset::Low => Kbps::spec_scaled(max_bitrate, 25),
    }
}

pub open spec fn preset_crf(preset: QualityPreset) -> int {
    match preset {
        QualityPreset::Automatic => AUTOMATIC_CRF as int,
        QualityPreset::High => HIGH_CRF as int,
        QualityPreset::Medium => MEDIUM_CRF as int,
        QualityPreset::Low => LOW_CRF as int,
    }
}

/// A preset caps the bitrate, whose floor is half the cap; the frame rate goes down
/// to twenty, or stays where its maximum is lower.
pub open spec fn preset_range(preset: QualityPreset, max_bitrate: int, max_fps: int) -> Range {
    let ceiling = preset_ceiling(preset, max_bitrate);
    Range {
        bitrate_floor: Kbps::spec_scaled(ceiling, 50),
        bitrate_ceiling: ceiling,
        fps_floor: if max_fps < FPS_FLOOR {
            max_fps
        } else {
            FPS_FLOOR as int
        },
        fps_ceiling: max_fps,
        crf: preset_crf(preset),
    }
}

pub open spec fn at_least(value: int, floor: int) -> int {
    if value < floor {
        floor
    } else {
        value
    }
}

pub open spec fn at_most(value: int, ceiling: int) -> int {
    if value > ceiling {
        ceiling
    } else {
        value
    }
}

/// One level down. An overloaded encoder alone only slows the pace of an RGB stream;
/// otherwise the chroma goes first, then the scale, the bitrate and the frame rate.
pub open spec fn lowered(rung: Rung, range: Range, encoder_only: bool) -> Rung {
    let slower = Rung { fps: at_least(rung.fps - FPS_STEP, range.fps_floor), ..rung };
    if encoder_only && rung.chroma == Chroma::Rgb {
        slower
    } else if rung.chroma != Chroma::Yuv420 {
        Rung { chroma: Chroma::Yuv420, ..rung }
    } else if rung.scale > 50 {
        Rung { scale: at_least(rung.scale - SCALE_STEP, 50), ..rung }
    } else if rung.bitrate > range.bitrate_floor {
        Rung {
            bitrate: at_least(
                Kbps::spec_scaled(rung.bitrate, DOWN_STEP_PERCENT as int),
                range.bitrate_floor,
            ),
            ..rung
        }
    } else if rung.fps > range.fps_floor {
        slower
    } else {
        rung
    }
}

/// One level up, in the reverse order.
pub open spec fn raised(rung: Rung, range: Range) -> Rung {
    if rung.fps < range.fps_ceiling {
        Rung { fps: at_most(rung.fps + FPS_STEP, range.fps_ceiling), ..rung }
    } else if rung.bitrate < range.bitrate_ceiling {
        Rung {
            bitrate: at_most(
                Kbps::spec_scaled(rung.bitrate, UP_STEP_PERCENT as int),
                range.bitrate_ceiling,
            ),
            ..rung
        }
    } else if rung.scale < 100 {
        Rung { scale: at_most(rung.scale + SCALE_STEP, 100), ..rung }
    } else if rung.chroma == Chroma::Yuv420 {
        Rung { chroma: Chroma::Rgb, ..rung }
    } else {
        rung
    }
}

/// The settings brought into the range; the chroma is not a matter of presets.
pub open spec fn clamped(rung: Rung, range: Range) -> Rung {
    Rung {
        bitrate: at_most(at_least(rung.bitrate, range.bitrate_floor), range.bitrate_ceiling),
        fps: at_most(at_least(rung.fps, range.fps_floor), range.fps_ceiling),
        scale: at_most(at_least(rung.scale, 50), 100),
        ..rung
    }
}

// ---------------------------------------------------------------------------
// One sample
// ---------------------------------------------------------------------------

pub open spec fn browser_bad(feedback: Feedback) -> bool {
    feedback.received > 0 && (feedback.queue_pressure.spec_at_least(BAD_QUEUE_PRESSURE)
        || feedback.queue_peak >= BAD_QUEUE_PEAK || feedback.rtt.spec_above(BAD_RTT))
}

/// Up to two percent of drops are forgiven, so that one dropped frame does not erase
/// an otherwise healthy recovery.
pub open spec fn browser_good(feedback: Feedback) -> bool {
    &&& feedback.queue_pressure.spec_below(GOOD_QUEUE_PRESSURE)
    &&& feedback.queue_peak < BAD_QUEUE_PEAK
    &&& feedback.dropped * 100 <= feedback.received * GOOD_DROP_PERCENT
    &&& feedback.rtt.spec_below(GOOD_RTT)
    &&& feedback.presented * 10 >= feedback.received * 9
}

pub open spec fn u8_saturated(value: int) -> u8 {
    if value <= u8::MAX {
        value as u8
    } else {
        u8::MAX
    }
}

/// Bad and good samples make streaks of their own; any other sample ends both.
pub open spec fn streak_after(streak: Streak, bad: bool, good: bool) -> Streak {
    if bad {
        match streak {
            Streak::Bad(count) => Streak::Bad(u8_saturated(count + 1)),
            _ => Streak::Bad(1),
        }
    } else if good {
        match streak {
            Streak::Good(count) => Streak::Good(u8_saturated(count + 1)),
            _ => Streak::Good(1),
        }
    } else {
        Streak::Neither
    }
}

pub open spec fn cooling_down(last_change: Option<Instant>, now: Instant) -> bool {
    last_change is Some && now.nanos - last_change->0.nanos < QUALITY_CHANGE_COOLDOWN_NANOS
}

pub open spec fn streak_is_bad(streak: Streak) -> bool {
    streak matches Streak::Bad(count) && count >= BAD_STREAK_THRESHOLD
}

pub open spec fn streak_is_good(streak: Streak) -> bool {
    streak matches Streak::Good(count) && count >= GOOD_STREAK_THRESHOLD
}

#[derive(Clone, Copy, Debug, PartialEq, Eq, Structural)]
pub struct QualityChange {
    pub old: QualityLevels,
    pub new: QualityLevels,
    pub old_crf: Crf,
    pub new_crf: Crf,
    pub old_chroma: Chroma,
    pub new_chroma: Chroma,
}

#[derive(Clone, Copy, Debug, PartialEq, Eq, Structural)]
pub struct QualityBounds {
    pub bitrate_floor: Kbps,
    pub bitrate_ceiling: Kbps,
    pub fps_floor: Fps,
    pub fps_ceiling: Fps,
    pub scale_floor: ScalePercent,
    pub scale_ceiling: ScalePercent,
    pub crf: Crf,
}

impl QualityBounds {
    pub open spec fn view(&self) -> Range {
        Range {
            bitrate_floor: self.bitrate_floor@ as int,
            bitrate_ceiling: self.bitrate_ceiling@ as int,
            fps_floor: self.fps_floor@ as int,
            fps_ceiling: self.fps_ceiling@ as int,
            crf: self.crf@ as int,
        }
    }

    pub fn for_preset(preset: QualityPreset, max_bitrate: Kbps, max_fps: Fps) -> (r: Self)
        ensures
            r@ == preset_range(preset, max_bitrate@ as int, max_fps@ as int),
            r.scale_floor@ == 50,
            r.scale_ceiling@ == 100,
    {
        let (bitrate_ceiling, crf) = match preset {
            QualityPreset::Automatic => (max_bitrate, Crf::constant(AUTOMATIC_CRF)),
            QualityPreset::High => (max_bitrate, Crf::constant(HIGH_CRF)),
            QualityPreset::Medium => (max_bitrate.scaled(50), Crf::constant(MEDIUM_CRF)),
            QualityPreset::Low => (max_bitrate.scaled(25), Crf::constant(LOW_CRF)),
        };
        let fps_floor = match Fps::new(FPS_FLOOR) {
            Ok(floor) => if max_fps.get() < floor.get() {
                max_fps
            } else {
                floor
            },
            Err(_) => max_fps,
        };
        QualityBounds {
            bitrate_floor: bitrate_ceiling.scaled(50),
            bitrate_ceiling,
            fps_floor,
            fps_ceiling: max_fps,
            scale_floor: ScalePercent::minimum(),
            scale_ceiling: ScalePercent::maximum(),
            crf,
        }
    }
}

/// Bad samples move down one level of the ladder; good samples move up one. Changes
/// are rate-limited, and the first change may happen immediately.
#[derive(Debug)]
pub struct Quality {
    pub levels: QualityLevels,
    pub max_bitrate: Kbps,
    pub max_fps: Fps,
    pub crf: Crf,
    pub chroma: Chroma,
    pub preset: QualityPreset,
    pub streak: Streak,
    pub last_change: Option<Instant>,
    pub encoder: EncoderPressure,
    pub encoder_was_bad: bool,
}

pub open spec fn rung_of(levels: QualityLevels, chroma: Chroma) -> Rung {
    Rung {
        bitrate: levels.bitrate@ as int,
        fps: levels.fps@ as int,
        scale: levels.scale@ as int,
        chroma,
    }
}

/// The two rungs that a change went between; the rate factor is the same or new.
pub open spec fn change_between(
    change: QualityChange,
    old: Rung,
    new: Rung,
    old_crf: Crf,
    new_crf: Crf,
) -> bool {
    &&& rung_of(change.old, change.old_chroma) == old
    &&& rung_of(change.new, change.new_chroma) == new
    &&& change.old_crf == old_crf
    &&& change.new_crf == new_crf
}

impl Quality {
    pub open spec fn rung(self) -> Rung {
        rung_of(self.levels, self.chroma)
    }

    pub open spec fn range(self) -> Range {
        preset_range(self.preset, self.max_bitrate@ as int, self.max_fps@ as int)
    }

    /// The streak that a sample leaves before any change is considered.
    pub open spec fn next_streak(self, feedback: Feedback) -> Streak {
        streak_after(
            self.streak,
            encoder_bad(self.encoder) || browser_bad(feedback),
            encoder_good(self.encoder) && browser_good(feedback),
        )
    }

    /// The stream is driven by damage: absence of frames says nothing about its health.
    pub open spec fn sample_is_idle(self, feedback: Feedback) -> bool {
        feedback.received == 0 && !encoder_bad(self.encoder)
    }

    /// Whether a sample at `now` moves along the ladder.
    pub open spec fn moves(self, feedback: Feedback, now: Instant) -> bool {
        &&& !self.sample_is_idle(feedback)
        &&& !cooling_down(self.last_change, now)
        &&& streak_is_bad(self.next_streak(feedback)) || streak_is_good(self.next_streak(feedback))
    }

    /// The streak that the sample leaves: an idle sample keeps it unless the encoder
    /// was to blame for it, and a move starts a new one.
    pub open spec fn streak_left(self, feedback: Feedback, now: Instant) -> Streak {
        if self.sample_is_idle(feedback) {
            if self.encoder_was_bad {
                Streak::Neither
            } else {
                self.streak
            }
        } else if self.moves(feedback, now) {
            Streak::Neither
        } else {
            self.next_streak(feedback)
        }
    }

    /// Everything that a sample at `now` changes, but for what is reported.
    pub open spec fn updated(self, feedback: Feedback, now: Instant, after: Self) -> bool {
        &&& after.rung() == self.next_rung(feedback, now)
        &&& after.max_bitrate == self.max_bitrate
        &&& after.max_fps == self.max_fps
        &&& after.crf == self.crf
        &&& after.preset == self.preset
        &&& after.encoder == (EncoderPressure { rendered: 0, dropped: 0, ..self.encoder })
        &&& after.encoder_was_bad == encoder_bad(self.encoder)
        &&& after.streak == self.streak_left(feedback, now)
        &&& after.last_change == if after.rung() == self.rung() {
            self.last_change
        } else {
            Some(now)
        }
    }

    /// Where the sample moves to.
    pub open spec fn next_rung(self, feedback: Feedback, now: Instant) -> Rung {
        if !self.moves(feedback, now) {
            self.rung()
        } else if streak_is_bad(self.next_streak(feedback)) {
            lowered(
                self.rung(),
                self.range(),
                encoder_bad(self.encoder) && !browser_bad(feedback),
            )
        } else {
            raised(self.rung(), self.range())
        }
    }

    pub fn new(bitrate: Kbps, fps: Fps) -> (r: Self)
        ensures
            r.levels.bitrate == bitrate,
            r.levels.fps == fps,
            r.levels.scale@ == 100,
            r.max_bitrate == bitrate,
            r.max_fps == fps,
            r.crf@ == AUTOMATIC_CRF,
            r.crf@ == 23,
            r.chroma == Chroma::Rgb,
            r.preset == QualityPreset::Automatic,
            r.streak == Streak::Neither,
            r.last_change is None,
            r.encoder == no_pressure(),
            !r.encoder_was_bad,
    {
        Quality {
            levels: QualityLevels { bitrate, fps, scale: ScalePercent::maximum() },
            max_bitrate: bitrate,
            max_fps: fps,
            crf: Crf::constant(AUTOMATIC_CRF),
            chroma: Chroma::Rgb,
            preset: QualityPreset::Automatic,
            streak: Streak::Neither,
            last_change: None,
            encoder: EncoderPressure::default(),
            encoder_was_bad: false,
        }
    }

    pub fn levels(&self) -> (r: QualityLevels)
        ensures
            r == self.levels,
    {
        self.levels
    }

    pub fn chroma(&self) -> (r: Chroma)
        ensures
            r == self.chroma,
    {
        self.chroma
    }

    pub fn reset_samples(&mut self)
        ensures
            *final(self) == (Quality {
                encoder: no_pressure(),
                encoder_was_bad: false,
                streak: Streak::Neither,
                ..*old(self)
            }),
    {
        self.encoder = EncoderPressure::default();
        self.encoder_was_bad = false;
        self.streak = Streak::Neither;
    }

    /// Notes a frame that was handed to the encoder.
    pub fn submitted(&mut self, metadata: &FrameMetadata)
        ensures
            *final(self) == if restarts(old(self).encoder, *metadata) {
                Quality {
                    encoder: observed(old(self).encoder, *metadata),
                    encoder_was_bad: false,
                    streak: Streak::Neither,
                    ..*old(self)
                }
            } else {
                Quality { encoder: observed(old(self).encoder, *metadata), ..*old(self) }
            },
    {
        if self.encoder.observe(metadata) {
            self.streak = Streak::Neither;
            self.encoder_was_bad = false;
        }
    }

    /// Takes another preset's range: the levels are brought into it, and samples and
    /// rate limit start over. The preset in force leaves everything as it is.
    pub fn select_preset(&mut self, preset: QualityPreset) -> (r: Option<QualityChange>)
        ensures
            old(self).preset == preset ==> r is None && *final(self) == *old(self),
            old(self).preset != preset ==> {
                let range = preset_range(
                    preset,
                    old(self).max_bitrate@ as int,
                    old(self).max_fps@ as int,
                );
                &&& final(self).preset == preset
                &&& final(self).rung() == clamped(old(self).rung(), range)
                &&& final(self).crf@ == range.crf
                &&& final(self).max_bitrate == old(self).max_bitrate
                &&& final(self).max_fps == old(self).max_fps
                &&& final(self).streak == Streak::Neither
                &&& final(self).last_change is None
                &&& final(self).encoder == no_pressure()
                &&& !final(self).encoder_was_bad
                &&& match r {
                    Some(change) => change_between(
                        change,
                        old(self).rung(),
                        final(self).rung(),
                        old(self).crf,
                        final(self).crf,
                    ) && change.old == old(self).levels && change.new == final(self).levels
                        && change.old_chroma == old(self).chroma
                        && change.new_chroma == final(self).chroma && (final(self).rung() != old(self).rung() || final(self).crf
                        != old(self).crf),
                    None => final(self).rung() == old(self).rung() && final(self).crf
                        == old(self).crf,
                }
            },
    {
        broadcast use group_values_ext;

        if self.preset == preset {
            return None;
        }
        self.preset = preset;
        self.reset_samples();
        self.last_change = None;
        let old_levels = self.levels;
        let old_crf = self.crf;
        let old_chroma = self.chroma;
        self.clamp_to_bounds();
        if self.levels != old_levels || self.crf != old_crf {
            Some(
                QualityChange {
                    old: old_levels,
                    new: self.levels,
                    old_crf,
                    new_crf: self.crf,
                    old_chroma,
                    new_chroma: self.chroma,
                },
            )
        } else {
            None
        }
    }

    /// Takes one sample of the browser's feedback and moves at most one level.
    pub fn update(&mut self, feedback: &Feedback, now: Instant) -> (r: Option<QualityChange>)
        ensures
            old(self).updated(*feedback, now, *final(self)),
            match r {
                Some(change) => {
                    &&& final(self).rung() != old(self).rung()
                    &&& change_between(
                        change,
                        old(self).rung(),
                        final(self).rung(),
                        old(self).crf,
                        old(self).crf,
                    )
                    &&& change.old == old(self).levels
                    &&& change.new == final(self).levels
                    &&& change.old_chroma == old(self).chroma
                    &&& change.new_chroma == final(self).chroma
                },
                None => final(self).rung() == old(self).rung(),
            },
    {
        broadcast use group_values_ext;

        let (is_encoder_bad, is_encoder_good) = self.encoder.take();
        let encoder_was_bad = self.encoder_was_bad;
        self.encoder_was_bad = is_encoder_bad;
        if feedback.received == 0 && !is_encoder_bad {
            if encoder_was_bad {
                self.streak = Streak::Neither;
            }
            return None;
        }
        let is_browser_bad = feedback.received > 0 && (feedback.queue_pressure.at_least(
            BAD_QUEUE_PRESSURE,
        ) || feedback.queue_peak >= BAD_QUEUE_PEAK || feedback.rtt.above(BAD_RTT));
        let is_bad = is_encoder_bad || is_browser_bad;
        let is_good = is_encoder_good && feedback.queue_pressure.below(GOOD_QUEUE_PRESSURE)
            && feedback.queue_peak < BAD_QUEUE_PEAK && feedback.dropped as u64 * 100
            <= feedback.received as u64 * GOOD_DROP_PERCENT && feedback.rtt.below(GOOD_RTT)
            && feedback.presented as u64 * 10 >= feedback.received as u64 * 9;
        self.streak =
        match (is_bad, is_good, self.streak) {
            (true, _, Streak::Bad(count)) => Streak::Bad(count.saturating_add(1)),
            (true, _, _) => Streak::Bad(1),
            (false, true, Streak::Good(count)) => Streak::Good(count.saturating_add(1)),
            (false, true, _) => Streak::Good(1),
            (false, false, _) => Streak::Neither,
        };
        match self.last_change {
            Some(last_change) => {
                if now.since(last_change) < QUALITY_CHANGE_COOLDOWN_NANOS {
                    return None;
                }
            },
            None => {},
        }
        let old_levels = self.levels;
        let old_chroma = self.chroma;
        let (lower, raise) = match self.streak {
            Streak::Bad(count) => (count >= BAD_STREAK_THRESHOLD, false),
            Streak::Good(count) => (false, count >= GOOD_STREAK_THRESHOLD),
            Streak::Neither => (false, false),
        };
        if lower {
            self.lower_one_level(is_encoder_bad && !is_browser_bad);
        } else if raise {
            self.raise_one_level();
        } else {
            return None;
        }
        self.streak = Streak::Neither;
        if self.levels == old_levels && self.chroma == old_chroma {
            return None;
        }
        self.last_change = Some(now);
        Some(
            QualityChange {
                old: old_levels,
                new: self.levels,
                old_crf: self.crf,
                new_crf: self.crf,
                old_chroma,
                new_chroma: self.chroma,
            },
        )
    }

    pub fn bounds(&self) -> (r: QualityBounds)
        ensures
            r@ == self.range(),
            r.scale_floor@ == 50,
            r.scale_ceiling@ == 100,
    {
        QualityBounds::for_preset(self.preset, self.max_bitrate, self.max_fps)
    }

    fn clamp_to_bounds(&mut self)
        ensures
            final(self).rung() == clamped(old(self).rung(), old(self).range()),
            final(self).crf@ == old(self).range().crf,
            *final(self) == (Quality {
                levels: final(self).levels,
                crf: final(self).crf,
                ..*old(self)
            }),
    {
        let bounds = self.bounds();
        self.levels.bitrate =
        self.levels.bitrate.at_least(bounds.bitrate_floor).at_most(bounds.bitrate_ceiling);
        if self.levels.fps.get() < bounds.fps_floor.get() {
            self.levels.fps = bounds.fps_floor;
        }
        if self.levels.fps.get() > bounds.fps_ceiling.get() {
            self.levels.fps = bounds.fps_ceiling;
        }
        if self.levels.scale.get() < bounds.scale_floor.get() {
            self.levels.scale = bounds.scale_floor;
        }
        if self.levels.scale.get() > bounds.scale_ceiling.get() {
            self.levels.scale = bounds.scale_ceiling;
        }
        self.crf = bounds.crf;
    }

    // Every change of the encoder's configuration restarts it. Under pressure from
    // the browser or the network, chroma and scale soften the picture before a low
    // bitrate cap makes it blocky.
    fn lower_one_level(&mut self, encoder_only: bool)
        ensures
            final(self).rung() == lowered(old(self).rung(), old(self).range(), encoder_only),
            *final(self) == (Quality {
                levels: final(self).levels,
                chroma: final(self).chroma,
                ..*old(self)
            }),
    {
        let bounds = self.bounds();
        if encoder_only && self.chroma == Chroma::Rgb {
            // Converting to YUV or scaling packed RGB costs more than encoding
            // full-size RGB, so an overloaded encoder is relieved by pacing alone.
            self.levels.fps = self.levels.fps.lowered_by(FPS_STEP, bounds.fps_floor);
            return;
        }
        if self.chroma != Chroma::Yuv420 {
            self.chroma = Chroma::Yuv420;
        } else if self.levels.scale.get() > bounds.scale_floor.get() {
            self.levels.scale = self.levels.scale.lowered_by(SCALE_STEP, bounds.scale_floor);
        } else if self.levels.bitrate.get() > bounds.bitrate_floor.get() {
            self.levels.bitrate =
            self.levels.bitrate.scaled(DOWN_STEP_PERCENT).at_least(bounds.bitrate_floor);
        } else if self.levels.fps.get() > bounds.fps_floor.get() {
            self.levels.fps = self.levels.fps.lowered_by(FPS_STEP, bounds.fps_floor);
        }
    }

    fn raise_one_level(&mut self)
        ensures
            final(self).rung() == raised(old(self).rung(), old(self).range()),
            *final(self) == (Quality {
                levels: final(self).levels,
                chroma: final(self).chroma,
                ..*old(self)
            }),
    {
        let bounds = self.bounds();
        if self.levels.fps.get() < bounds.fps_ceiling.get() {
            self.levels.fps = self.levels.fps.raised_by(FPS_STEP, bounds.fps_ceiling);
        } else if self.levels.bitrate.get() < bounds.bitrate_ceiling.get() {
            self.levels.bitrate =
            self.levels.bitrate.scaled(UP_STEP_PERCENT).at_most(bounds.bitrate_ceiling);
        } else if self.levels.scale.get() < bounds.scale_ceiling.get() {
            self.levels.scale = self.levels.scale.raised_by(SCALE_STEP, bounds.scale_ceiling);
        } else if self.chroma == Chroma::Yuv420 {
            self.chroma = Chroma::Rgb;
        }
    }
}

// ---------------------------------------------------------------------------
// Laws
// ---------------------------------------------------------------------------

pub open spec fn valid_range(range: Range) -> bool {
    &&& crate::values::MIN_KBPS <= range.bitrate_floor <= range.bitrate_ceiling <= u32::MAX
    &&& range.fps_floor <= range.fps_ceiling
}

pub open spec fn within(rung: Rung, range: Range) -> bool {
    &&& range.bitrate_floor <= rung.bitrate <= range.bitrate_ceiling
    &&& range.fps_floor <= rung.fps <= range.fps_ceiling
    &&& 50 <= rung.scale <= 100
}

/// Every preset's range is one: its floors do not exceed its ceilings. A better
/// preset has a lower rate factor.
pub proof fn law_presets_have_ranges(preset: QualityPreset, max_bitrate: Kbps, max_fps: Fps)
    requires
        max_bitrate@ >= crate::values::MIN_KBPS,
    ensures
        valid_range(preset_range(preset, max_bitrate@ as int, max_fps@ as int)),
        preset_crf(QualityPreset::High) < preset_crf(QualityPreset::Automatic),
        preset_crf(QualityPreset::Automatic) < preset_crf(QualityPreset::Medium),
        preset_crf(QualityPreset::Medium) < preset_crf(QualityPreset::Low),
{
}

/// Selecting a preset brings the settings into its range and keeps the chroma.
pub proof fn law_preset_brings_into_range(rung: Rung, range: Range)
    requires
        valid_range(range),
    ensures
        within(clamped(rung, range), range),
        clamped(rung, range).chroma == rung.chroma,
        within(rung, range) ==> clamped(rung, range) == rung,
{
}

/// Adaptation never leaves the range of the preset.
pub proof fn law_adaptation_stays_in_range(rung: Rung, range: Range, encoder_only: bool)
    requires
        valid_range(range),
        within(rung, range),
    ensures
        within(lowered(rung, range, encoder_only), range),
        within(raised(rung, range), range),
{
}

pub open spec fn no_better(worse: Rung, better: Rung) -> bool {
    &&& worse.bitrate <= better.bitrate
    &&& worse.fps <= better.fps
    &&& worse.scale <= better.scale
}

pub open spec fn differences(a: Rung, b: Rung) -> int {
    (if a.bitrate != b.bitrate {
        1int
    } else {
        0
    }) + (if a.fps != b.fps {
        1int
    } else {
        0
    }) + (if a.scale != b.scale {
        1int
    } else {
        0
    }) + (if a.chroma != b.chroma {
        1int
    } else {
        0
    })
}

/// Adaptation moves one setting at a time, and in one direction: lowering raises no
/// level and raising lowers none.
pub proof fn law_one_level_at_a_time(rung: Rung, range: Range, encoder_only: bool)
    requires
        valid_range(range),
        within(rung, range),
    ensures
        differences(rung, lowered(rung, range, encoder_only)) <= 1,
        differences(rung, raised(rung, range)) <= 1,
        no_better(lowered(rung, range, encoder_only), rung),
        no_better(rung, raised(rung, range)),
{
}

/// Lowering stops only where every level is at its floor, and raising only where
/// every level is at its ceiling.
pub proof fn law_ladder_ends_at_the_bounds(rung: Rung, range: Range)
    requires
        valid_range(range),
        within(rung, range),
    ensures
        lowered(rung, range, false) == rung <==> rung == (Rung {
            bitrate: range.bitrate_floor,
            fps: range.fps_floor,
            scale: 50,
            chroma: Chroma::Yuv420,
        }),
        raised(rung, range) == rung <==> rung.bitrate == range.bitrate_ceiling && rung.fps
            == range.fps_ceiling && rung.scale == 100 && rung.chroma != Chroma::Yuv420,
{
}

/// An overloaded encoder alone costs an RGB stream neither resolution nor colour.
pub proof fn law_encoder_pressure_keeps_the_picture(rung: Rung, range: Range)
    requires
        rung.chroma == Chroma::Rgb,
    ensures
        lowered(rung, range, true).scale == rung.scale,
        lowered(rung, range, true).bitrate == rung.bitrate,
        lowered(rung, range, true).chroma == Chroma::Rgb,
{
}

/// Changes are at least five seconds apart.
pub proof fn law_changes_are_spaced(quality: Quality, feedback: Feedback, now: Instant)
    requires
        quality.last_change is Some,
        now.nanos < quality.last_change->0.nanos + QUALITY_CHANGE_COOLDOWN_NANOS,
    ensures
        quality.next_rung(feedback, now) == quality.rung(),
{
}

/// Without frames there is nothing to judge: an idle sample moves nothing.
pub proof fn law_idle_samples_move_nothing(quality: Quality, feedback: Feedback, now: Instant)
    requires
        feedback.received == 0,
        !encoder_bad(quality.encoder),
    ensures
        quality.next_rung(feedback, now) == quality.rung(),
{
}

/// The decoder's queue alone makes a sample bad: one that peaked at twenty-four frames
/// or more counts against the stream, whatever else the browser measured, and the
/// second in a row lowers it unless the last change is less than five seconds old.
pub proof fn law_full_queues_lower_the_stream(
    before: Quality,
    feedback: Feedback,
    now: Instant,
    after: Quality,
)
    requires
        before.updated(feedback, now, after),
        feedback.received > 0,
        feedback.queue_peak >= 24,
    ensures
        bad_sample_taken(before, now, after, false),
{
}

/// A decoder queue that was busy for a tenth of the interval or longer makes a sample
/// bad by itself. The bits are those of 0.10 and of infinity.
pub proof fn law_queue_pressure_lowers_the_stream(
    before: Quality,
    feedback: Feedback,
    now: Instant,
    after: Quality,
)
    requires
        before.updated(feedback, now, after),
        feedback.received > 0,
        0x3fb9_9999_9999_999a <= feedback.queue_pressure.bits <= 0x7ff0_0000_0000_0000,
    ensures
        bad_sample_taken(before, now, after, false),
{
}

/// A round trip of more than 250 milliseconds makes a sample bad by itself. The bits
/// are those of 250.0 and of infinity.
pub proof fn law_slow_round_trips_lower_the_stream(
    before: Quality,
    feedback: Feedback,
    now: Instant,
    after: Quality,
)
    requires
        before.updated(feedback, now, after),
        feedback.received > 0,
        0x406f_4000_0000_0000 < feedback.rtt.bits <= 0x7ff0_0000_0000_0000,
    ensures
        bad_sample_taken(before, now, after, false),
{
}

/// A browser in good health cannot hide an overloaded encoder: with twenty frames
/// rendered or more and a tenth of them dropped or more a sample is bad, even where the
/// browser received nothing.
pub proof fn law_overloaded_encoders_lower_the_stream(
    before: Quality,
    feedback: Feedback,
    now: Instant,
    after: Quality,
)
    requires
        before.updated(feedback, now, after),
        before.encoder.rendered >= 20,
        before.encoder.dropped * 10 >= before.encoder.rendered,
    ensures
        after.encoder_was_bad,
        feedback.received > 0 && feedback.queue_peak >= 24 ==> bad_sample_taken(
            before,
            now,
            after,
            false,
        ),
        feedback.received == 0 || feedback.queue_peak < 24 && feedback.queue_pressure.bits
            < 0x3fb9_9999_9999_999a && feedback.rtt.bits <= 0x406f_4000_0000_0000
            ==> bad_sample_taken(before, now, after, true),
{
}

/// What a bad sample does: outside the five seconds after a change the second in a row
/// moves one level down and starts a new streak; any other makes the streak longer.
pub open spec fn bad_sample_taken(
    before: Quality,
    now: Instant,
    after: Quality,
    encoder_only: bool,
) -> bool {
    let resting = before.last_change matches Some(last) && now.nanos < last.nanos + 5_000_000_000;
    match before.streak {
        Streak::Bad(count) => if !resting && count >= 1 {
            &&& after.rung() == lowered(before.rung(), before.range(), encoder_only)
            &&& after.streak == Streak::Neither
        } else {
            &&& after.rung() == before.rung()
            &&& after.streak == Streak::Bad(if count < 255 {
                (count + 1) as u8
            } else {
                255
            })
        },
        _ => after.rung() == before.rung() && after.streak == Streak::Bad(1),
    }
}

/// A sample with none of these signs is not bad: it ends a bad streak and lowers
/// nothing. A negative measurement has the sign bit set.
pub proof fn law_healthy_samples_lower_nothing(
    before: Quality,
    feedback: Feedback,
    now: Instant,
    after: Quality,
)
    requires
        before.updated(feedback, now, after),
        feedback.received > 0,
        feedback.queue_peak < 24,
        feedback.queue_pressure.bits < 0x3fb9_9999_9999_999a || feedback.queue_pressure.bits
            > 0x7ff0_0000_0000_0000,
        feedback.rtt.bits <= 0x406f_4000_0000_0000 || feedback.rtt.bits > 0x7ff0_0000_0000_0000,
        before.encoder.rendered < 20 || before.encoder.dropped * 10 < before.encoder.rendered,
    ensures
        !(after.streak is Bad),
        !after.encoder_was_bad,
        after.rung() == before.rung() || after.rung() == raised(before.rung(), before.range()),
{
}

/// A good sample has every sign of health: a queue busy for less than a twentieth of
/// the interval that held fewer than twenty-four frames, at most two percent of the
/// frames dropped by the browser and by the encoder, a round trip below 120
/// milliseconds, and nine tenths of the frames presented. A measurement below zero is
/// as good as any small one. Outside the five seconds
/// after a change the eighth in a row moves one level up and starts a new streak; any
/// other makes the streak longer.
pub proof fn law_good_samples_raise_the_stream(
    before: Quality,
    feedback: Feedback,
    now: Instant,
    after: Quality,
)
    requires
        before.updated(feedback, now, after),
        feedback.received > 0,
        feedback.queue_peak < 24,
        feedback.queue_pressure.bits < 0x3fa9_9999_9999_999a || 0x8000_0000_0000_0000
            <= feedback.queue_pressure.bits <= 0xfff0_0000_0000_0000,
        feedback.rtt.bits < 0x405e_0000_0000_0000 || 0x8000_0000_0000_0000 <= feedback.rtt.bits
            <= 0xfff0_0000_0000_0000,
        feedback.dropped * 50 <= feedback.received,
        feedback.presented * 10 >= feedback.received * 9,
        before.encoder.dropped * 50 <= before.encoder.rendered,
    ensures
        ({
            let resting = before.last_change matches Some(last) && now.nanos < last.nanos
                + 5_000_000_000;
            let count: int = match before.streak {
                Streak::Good(count) => count as int,
                _ => 0,
            };
            if !resting && count >= 7 {
                &&& after.rung() == raised(before.rung(), before.range())
                &&& after.streak == Streak::Neither
            } else {
                &&& after.rung() == before.rung()
                &&& after.streak == Streak::Good(if count < 255 {
                    (count + 1) as u8
                } else {
                    255
                })
            }
        }),
{
}

/// Each sign of health is needed: a sample with frames that lacks one of them is not
/// good, so it raises nothing and leaves no good streak.
pub proof fn law_recovery_needs_every_sign_of_health(
    before: Quality,
    feedback: Feedback,
    now: Instant,
    after: Quality,
)
    requires
        before.updated(feedback, now, after),
        feedback.received > 0,
        feedback.queue_peak >= 24 || 0x3fa9_9999_9999_999a <= feedback.queue_pressure.bits
            < 0x8000_0000_0000_0000 || 0x405e_0000_0000_0000 <= feedback.rtt.bits
            < 0x8000_0000_0000_0000 || feedback.dropped * 50 > feedback.received
            || feedback.presented * 10 < feedback.received * 9 || before.encoder.dropped * 50
            > before.encoder.rendered || feedback.queue_pressure.bits > 0xfff0_0000_0000_0000
            || feedback.rtt.bits > 0xfff0_0000_0000_0000,
    ensures
        !(after.streak is Good),
        after.rung() == before.rung() || after.rung() == lowered(
            before.rung(),
            before.range(),
            false,
        ) || after.rung() == lowered(before.rung(), before.range(), true),
{
}

/// A sample without frames from a browser whose encoder keeps up says nothing: the
/// settings and the time of the last change stay, and so does the streak unless the
/// encoder was overloaded in the sample before.
pub proof fn law_idle_samples_keep_the_recovery(
    before: Quality,
    feedback: Feedback,
    now: Instant,
    after: Quality,
)
    requires
        before.updated(feedback, now, after),
        feedback.received == 0,
        before.encoder.rendered < 20 || before.encoder.dropped * 10 < before.encoder.rendered,
    ensures
        after.rung() == before.rung(),
        after.last_change == before.last_change,
        after.streak == if before.encoder_was_bad {
            Streak::Neither
        } else {
            before.streak
        },
{
}

/// A stream stands where its levels and its chroma say, within what its preset makes
/// of the configured bitrate and frame rate.
pub proof fn law_settings_are_the_levels(quality: Quality)
    ensures
        quality.rung().bitrate == quality.levels.bitrate@,
        quality.rung().fps == quality.levels.fps@,
        quality.rung().scale == quality.levels.scale@,
        quality.rung().chroma == quality.chroma,
        quality.range() == preset_range(
            quality.preset,
            quality.max_bitrate@ as int,
            quality.max_fps@ as int,
        ),
{
}

/// Every sample starts the encoder's counts over and keeps preset, limits and rate
/// factor; a change is dated, and without one the date stays.
pub proof fn law_samples_start_the_counts_over(
    before: Quality,
    feedback: Feedback,
    now: Instant,
    after: Quality,
)
    requires
        before.updated(feedback, now, after),
    ensures
        after.encoder.rendered == 0,
        after.encoder.dropped == 0,
        after.encoder.previous == before.encoder.previous,
        after.encoder.warmup_until == before.encoder.warmup_until,
        after.preset == before.preset,
        after.crf == before.crf,
        after.max_bitrate == before.max_bitrate,
        after.max_fps == before.max_fps,
        after.rung() != before.rung() ==> after.last_change == Some(now),
        after.rung() == before.rung() ==> after.last_change == before.last_change,
{
}

/// The way down: colour detail first, then a quarter of the scale at a time to one
/// half, then a fifth of the bitrate at a time to its floor, and ten frames per second
/// at a time last.
pub proof fn law_the_way_down(rung: Rung, range: Range)
    requires
        valid_range(range),
        within(rung, range),
    ensures
        ({
            let next = lowered(rung, range, false);
            &&& rung.chroma != Chroma::Yuv420 ==> next == Rung { chroma: Chroma::Yuv420, ..rung }
            &&& rung.chroma == Chroma::Yuv420 && rung.scale >= 75 ==> next == Rung {
                scale: rung.scale - 25,
                ..rung
            }
            &&& rung.chroma == Chroma::Yuv420 && 50 < rung.scale < 75 ==> next == Rung {
                scale: 50,
                ..rung
            }
            &&& rung.chroma == Chroma::Yuv420 && rung.scale == 50 && rung.bitrate
                > range.bitrate_floor ==> {
                &&& next == Rung { bitrate: next.bitrate, ..rung }
                &&& next.bitrate < rung.bitrate
                &&& next.bitrate == range.bitrate_floor || 5 * next.bitrate <= 4 * rung.bitrate
                    < 5 * next.bitrate + 5
                &&& 5 * range.bitrate_floor + 5 <= 4 * rung.bitrate ==> next.bitrate
                    > range.bitrate_floor
            }
            &&& rung.chroma == Chroma::Yuv420 && rung.scale == 50 && rung.bitrate
                == range.bitrate_floor ==> next == Rung {
                fps: if rung.fps - 10 > range.fps_floor {
                    rung.fps - 10
                } else {
                    range.fps_floor
                },
                ..rung
            }
        }),
{
}

/// An overloaded encoder alone slows an RGB stream by ten frames per second, down to
/// the floor, and takes the common way down for any other.
pub proof fn law_overloaded_encoders_slow_the_pace(rung: Rung, range: Range)
    requires
        within(rung, range),
    ensures
        rung.chroma == Chroma::Rgb && rung.fps - 10 >= range.fps_floor ==> lowered(
            rung,
            range,
            true,
        ) == (Rung { fps: rung.fps - 10, ..rung }),
        rung.chroma == Chroma::Rgb && rung.fps - 10 < range.fps_floor ==> lowered(
            rung,
            range,
            true,
        ) == (Rung { fps: range.fps_floor, ..rung }),
        rung.chroma != Chroma::Rgb ==> lowered(rung, range, true) == lowered(rung, range, false),
{
}

/// The way up is the way down reversed: ten frames per second at a time, then a tenth
/// of the bitrate, then a quarter of the scale, and colour detail last.
pub proof fn law_the_way_up(rung: Rung, range: Range)
    requires
        valid_range(range),
        within(rung, range),
    ensures
        ({
            let next = raised(rung, range);
            &&& rung.fps < range.fps_ceiling ==> next == Rung {
                fps: if rung.fps + 10 < range.fps_ceiling {
                    rung.fps + 10
                } else {
                    range.fps_ceiling
                },
                ..rung
            }
            &&& rung.fps == range.fps_ceiling && rung.bitrate < range.bitrate_ceiling ==> {
                &&& next == Rung { bitrate: next.bitrate, ..rung }
                &&& rung.bitrate < next.bitrate
                &&& next.bitrate == range.bitrate_ceiling || 10 * next.bitrate <= 11 * rung.bitrate
                    < 10 * next.bitrate + 10
                &&& 11 * rung.bitrate < 10 * range.bitrate_ceiling ==> next.bitrate
                    < range.bitrate_ceiling
            }
            &&& rung.fps == range.fps_ceiling && rung.bitrate == range.bitrate_ceiling && rung.scale
                < 100 ==> next == Rung {
                scale: if rung.scale + 25 < 100 {
                    rung.scale + 25
                } else {
                    100
                },
                ..rung
            }
            &&& rung.fps == range.fps_ceiling && rung.bitrate == range.bitrate_ceiling && rung.scale
                == 100 && rung.chroma == Chroma::Yuv420 ==> next == Rung {
                chroma: Chroma::Rgb,
                ..rung
            }
        }),
{
}

/// What each preset allows: its share of the configured bitrate, of which half is the
/// floor (never less than 300 kbps), a frame rate of at least twenty where the
/// configured one is higher, and a rate factor of its own.
pub proof fn law_presets_share_out_the_bitrate(
    preset: QualityPreset,
    max_bitrate: int,
    max_fps: int,
)
    requires
        300 <= max_bitrate <= u32::MAX,
    ensures
        ({
            let range = preset_range(preset, max_bitrate, max_fps);
            let (share, crf): (int, int) = match preset {
                QualityPreset::Automatic => (100, 23),
                QualityPreset::High => (100, 18),
                QualityPreset::Medium => (50, 28),
                QualityPreset::Low => (25, 32),
            };
            &&& range.crf == crf
            &&& range.fps_ceiling == max_fps
            &&& range.fps_floor <= 20 && range.fps_floor <= max_fps
            &&& range.fps_floor == 20 || range.fps_floor == max_fps
            &&& 300 <= range.bitrate_floor <= range.bitrate_ceiling
            &&& range.bitrate_ceiling == 300 || 100 * range.bitrate_ceiling <= share * max_bitrate
                < 100 * range.bitrate_ceiling + 100
            &&& share * max_bitrate >= 30_100 ==> range.bitrate_ceiling > 300
            &&& range.bitrate_floor == 300 || 2 * range.bitrate_floor <= range.bitrate_ceiling < 2
                * range.bitrate_floor + 2
            &&& range.bitrate_ceiling >= 602 ==> range.bitrate_floor > 300
        }),
{
}

/// Bringing settings into a range moves each no further than needed: one that fits
/// stays, and one that does not becomes the nearest bound.
pub proof fn law_preset_moves_no_further_than_needed(rung: Rung, range: Range)
    requires
        valid_range(range),
    ensures
        ({
            let next = clamped(rung, range);
            &&& next.chroma == rung.chroma
            &&& rung.bitrate < range.bitrate_floor ==> next.bitrate == range.bitrate_floor
            &&& rung.bitrate > range.bitrate_ceiling ==> next.bitrate == range.bitrate_ceiling
            &&& range.bitrate_floor <= rung.bitrate <= range.bitrate_ceiling ==> next.bitrate
                == rung.bitrate
            &&& rung.fps < range.fps_floor ==> next.fps == range.fps_floor
            &&& rung.fps > range.fps_ceiling ==> next.fps == range.fps_ceiling
            &&& range.fps_floor <= rung.fps <= range.fps_ceiling ==> next.fps == rung.fps
            &&& 50 <= rung.scale <= 100 ==> next.scale == rung.scale
        }),
{
}

/// The counts after the given frames were handed to the encoder in turn.
pub open spec fn observed_all(
    pressure: EncoderPressure,
    frames: Seq<FrameMetadata>,
) -> EncoderPressure
    decreases frames.len(),
{
    if frames.len() == 0 {
        pressure
    } else {
        observed(observed_all(pressure, frames.drop_last()), frames.last())
    }
}

/// A run of frames of one generation whose sequence numbers grow.
pub open spec fn in_sequence(
    generation: Generation,
    sequence: u64,
    frames: Seq<FrameMetadata>,
) -> bool {
    &&& forall|i: int|
        0 <= i < frames.len() ==> (#[trigger] frames[i]).generation == generation
            && frames[i].sequence > sequence
    &&& forall|i: int, j: int|
        0 <= i < j < frames.len() ==> (#[trigger] frames[i]).sequence < (
        #[trigger] frames[j]).sequence
}

/// Past the warm-up the counts tell what became of the sequence numbers: every number
/// passed was rendered, and those that no frame handed to the encoder carries were
/// dropped.
pub proof fn law_missing_sequence_numbers_are_drops(
    pressure: EncoderPressure,
    generation: Generation,
    sequence: u64,
    captured: u64,
    frames: Seq<FrameMetadata>,
)
    requires
        pressure.previous == Some((generation, sequence, captured)),
        captured > pressure.warmup_until,
        in_sequence(generation, sequence, frames),
        forall|i: int|
            0 <= i < frames.len() ==> (#[trigger] frames[i]).capture_nanos > pressure.warmup_until,
        frames.len() > 0,
        pressure.rendered + (frames.last().sequence - sequence) <= u64::MAX,
        pressure.dropped <= pressure.rendered,
    ensures
        ({
            let after = observed_all(pressure, frames);
            &&& after.rendered == pressure.rendered + (frames.last().sequence - sequence)
            &&& after.dropped + frames.len() == pressure.dropped + (frames.last().sequence
                - sequence)
            &&& after.previous == Some(
                (generation, frames.last().sequence, frames.last().capture_nanos),
            )
            &&& after.warmup_until == pressure.warmup_until
            &&& after.dropped <= after.rendered
        }),
    decreases frames.len(),
{
    let earlier = frames.drop_last();
    if earlier.len() > 0 {
        assert(earlier.last() == frames[frames.len() - 2]);
        assert(frames.last() == frames[frames.len() - 1]);
        law_missing_sequence_numbers_are_drops(pressure, generation, sequence, captured, earlier);
        assert(observed_all(pressure, frames) == observed(
            observed_all(pressure, earlier),
            frames.last(),
        ));
    } else {
        assert(frames.last() == frames[0]);
        assert(observed_all(pressure, earlier) == pressure);
    }
}

/// Nothing is counted before the first frame, so a stream that has just started is
/// neither overloaded nor behind.
pub proof fn law_counts_start_at_nothing(frame: FrameMetadata)
    ensures
        no_pressure().previous is None,
        no_pressure().rendered == 0,
        no_pressure().dropped == 0,
        !encoder_bad(no_pressure()),
        encoder_good(no_pressure()),
        observed(no_pressure(), frame).rendered == 0,
        observed(no_pressure(), frame).dropped == 0,
{
}

/// A frame of another generation, or one that does not follow the frame before, starts
/// the counts over with a second of grace; a frame that follows one taken within that
/// second counts for nothing.
pub proof fn law_warm_up_counts_nothing(pressure: EncoderPressure, frame: FrameMetadata)
    ensures
        observed(pressure, frame).previous == Some(
            (frame.generation, frame.sequence, frame.capture_nanos),
        ),
        pressure.previous matches Some((generation, sequence, _)) ==> (generation
            != frame.generation || frame.sequence <= sequence) ==> {
            &&& restarts(pressure, frame)
            &&& observed(pressure, frame).rendered == 0
            &&& observed(pressure, frame).dropped == 0
            &&& frame.capture_nanos <= u64::MAX - 1_000_000_000 ==> observed(
                pressure,
                frame,
            ).warmup_until == frame.capture_nanos + 1_000_000_000
        },
        pressure.previous is None ==> restarts(pressure, frame) && (frame.capture_nanos <= u64::MAX
            - 1_000_000_000 ==> observed(pressure, frame).warmup_until == frame.capture_nanos
            + 1_000_000_000),
        pressure.previous matches Some((generation, sequence, captured)) ==> (generation
            == frame.generation && frame.sequence > sequence) ==> {
            &&& !restarts(pressure, frame)
            &&& observed(pressure, frame).warmup_until == pressure.warmup_until
            &&& captured <= pressure.warmup_until ==> observed(pressure, frame).rendered
                == pressure.rendered && observed(pressure, frame).dropped == pressure.dropped
        },
{
}

} // verus!
