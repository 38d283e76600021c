//! Pairs encoded access units with the frame metadata that the compositor sent.
//!
//! Both arrive in order but on separate paths. Units are matched by generation and,
//! within one, by how many frame intervals lie between their RTP timestamps.

use crate::assembler::Unit;
use crate::clock::Instant;
use crate::rtp::{RtpTicks, RtpTimestamp, RTP_CLOCK_HZ};
use crate::values::{Continuity, Fps, FrameKind, FrameMetadata, Generation, GopState, VideoSample};
use std::collections::VecDeque;
use tokio::sync::OwnedSemaphorePermit;
use vstd::prelude::*;

verus! {

pub const PENDING_RECORD_CAPACITY: usize = 120;

pub const MAX_PENDING_UNIT_BYTES: usize = 0x200_0000;

pub const UNMATCHED_DEADLINE_NANOS: u64 = 2_000_000_000;

/// `tokio::sync::OwnedSemaphorePermit`: a share of a byte budget that is given back
/// when the value is dropped. Nothing is claimed of it; it is only carried.
#[verifier::external_type_specification]
#[verifier::external_body]
pub struct ExOwnedSemaphorePermit(tokio::sync::OwnedSemaphorePermit);

#[derive(Debug)]
pub struct Pending<T> {
    pub value: T,
    pub queued_at: Instant,
}

/// A unit that waits for its metadata, with its share of the byte budget.
#[derive(Debug)]
pub struct PendingUnit {
    pub unit: Unit,
    pub bytes: OwnedSemaphorePermit,
}

#[derive(Clone, Copy, Debug, PartialEq, Eq, Structural)]
pub enum MetadataMatch {
    Matched { metadata: FrameMetadata, unmatched: usize },
    NotYetArrived,
    GenerationPassed,
}

/// Why everything that was pending had to be given up.
#[derive(Clone, Copy, Debug, PartialEq, Eq, Structural)]
pub enum ResyncReason {
    MetadataBacklog,
    UnitBacklog,
    UnmatchedDeadline,
    TimestampGap { ticks: RtpTicks, fps: Fps },
    MetadataGenerationPassed,
}

#[derive(Debug)]
pub struct Correlation {
    pub outcome: CorrelationOutcome,
    pub unmatched_metadata: usize,
}

#[derive(Debug)]
pub enum CorrelationOutcome {
    Frames(Vec<VideoSample>),
    Resync(ResyncReason),
}

#[derive(Clone, Copy, Debug, PartialEq, Eq, Structural)]
pub enum TimestampAnchor {
    Needed,
    Present { timestamp: RtpTimestamp, fps: Fps },
}

#[derive(Debug)]
pub struct Correlator {
    pub metadata: VecDeque<Pending<FrameMetadata>>,
    pub units: VecDeque<Pending<PendingUnit>>,
    pub last_generation: Option<Generation>,
    pub timestamp_anchor: TimestampAnchor,
    pub keyframe: GopState,
}

// ---------------------------------------------------------------------------
// The model
// ---------------------------------------------------------------------------

#[verifier::ext_equal]
pub struct CorrelatorState {
    pub metadata: Seq<Pending<FrameMetadata>>,
    pub units: Seq<Pending<PendingUnit>>,
    pub last_generation: Option<Generation>,
    pub anchor: TimestampAnchor,
    pub keyframe: GopState,
}

pub enum OutcomeView {
    Frames(Seq<VideoSample>),
    Resync(ResyncReason),
}

#[verifier::ext_equal]
pub struct Correlated {
    pub state: CorrelatorState,
    pub outcome: OutcomeView,
    pub unmatched: int,
}

pub open spec fn saturated(value: int) -> int {
    if value <= usize::MAX {
        value
    } else {
        usize::MAX as int
    }
}

/// How many frame intervals at `fps` lie in `ticks`, rounded to the nearest and at
/// least one; `None` if that is more than can be pending.
pub open spec fn frame_gap(ticks: RtpTicks, fps: Fps) -> Option<int> {
    let intervals = (ticks.0 * fps@ + RTP_CLOCK_HZ / 2) / RTP_CLOCK_HZ as int;
    if intervals > PENDING_RECORD_CAPACITY {
        None
    } else if intervals < 1 {
        Some(1)
    } else {
        Some(intervals)
    }
}

pub enum Search {
    At(int),
    NotYetArrived,
    GenerationPassed,
}

/// The `count`-th record of `generation` from index `from` on. Records of older
/// generations are passed over; one of a newer generation ends the search.
pub open spec fn nth_of_generation(
    metadata: Seq<Pending<FrameMetadata>>,
    generation: Generation,
    count: int,
    from: int,
) -> Search
    decreases metadata.len() - from,
{
    if from < 0 || from >= metadata.len() {
        Search::NotYetArrived
    } else {
        let found = metadata[from].value.generation@;
        if found > generation@ {
            Search::GenerationPassed
        } else if found < generation@ {
            nth_of_generation(metadata, generation, count, from + 1)
        } else if count <= 1 {
            Search::At(from)
        } else {
            nth_of_generation(metadata, generation, count - 1, from + 1)
        }
    }
}

/// How many records of its generation the unit stands behind the last matched one.
pub open spec fn records_ahead(state: CorrelatorState, unit: Unit) -> Option<int> {
    match state.anchor {
        TimestampAnchor::Present { timestamp, fps } if state.last_generation == Some(
            unit.generation,
        ) => frame_gap(ticks_between(unit.timestamp, timestamp), fps),
        _ => Some(1),
    }
}

pub open spec fn ticks_between(later: RtpTimestamp, earlier: RtpTimestamp) -> RtpTicks {
    RtpTicks(((later.0 - earlier.0) % 0x1_0000_0000) as u32)
}

/// Everything pending is given up and the stream waits for a keyframe.
pub open spec fn resynced(state: CorrelatorState, reason: ResyncReason, unmatched: int) -> Correlated {
    Correlated {
        state: CorrelatorState {
            metadata: Seq::empty(),
            units: Seq::empty(),
            anchor: TimestampAnchor::Needed,
            keyframe: GopState::Recovering,
            ..state
        },
        outcome: OutcomeView::Resync(reason),
        unmatched: saturated(unmatched + state.metadata.len()),
    }
}

/// A sample continues the previous one only if nothing came between them.
pub open spec fn sample_continuity(
    state: CorrelatorState,
    unit: Unit,
    metadata: FrameMetadata,
    skipped: int,
) -> Continuity {
    if state.keyframe == GopState::Recovering || unit.continuity == Continuity::AfterGap || skipped
        > 0 || state.last_generation != Some(metadata.generation) {
        Continuity::AfterGap
    } else {
        Continuity::Continuous
    }
}

/// The state after the first unit was paired with the record at `index`.
pub open spec fn paired(state: CorrelatorState, index: int) -> CorrelatorState {
    let unit = state.units[0].value.unit;
    let metadata = state.metadata[index].value;
    CorrelatorState {
        metadata: state.metadata.skip(index + 1),
        units: state.units.skip(1),
        last_generation: Some(metadata.generation),
        anchor: TimestampAnchor::Present { timestamp: unit.timestamp, fps: metadata.fps },
        keyframe: if unit.kind == FrameKind::Key {
            GopState::KeyframeCached
        } else {
            state.keyframe
        },
    }
}

/// The sample that the first unit and the record at `index` make.
pub open spec fn first_sample(state: CorrelatorState, index: int) -> VideoSample {
    let unit = state.units[0].value.unit;
    let metadata = state.metadata[index].value;
    VideoSample {
        data: unit.data,
        kind: unit.kind,
        continuity: sample_continuity(state, unit, metadata, index),
        metadata,
    }
}

/// What is paired while the stream waits for a keyframe is dropped unless it is one.
pub open spec fn delivered(
    state: CorrelatorState,
    samples: Seq<VideoSample>,
    index: int,
) -> Seq<VideoSample> {
    if state.keyframe == GopState::Recovering && state.units[0].value.unit.kind != FrameKind::Key {
        samples
    } else {
        samples.push(first_sample(state, index))
    }
}

/// Pairs units with records until one has to wait, in the order of the units.
pub open spec fn drained(
    state: CorrelatorState,
    samples: Seq<VideoSample>,
    unmatched: int,
) -> Correlated
    decreases state.units.len(),
{
    let waiting = Correlated { state, outcome: OutcomeView::Frames(samples), unmatched };
    if state.units.len() == 0 {
        waiting
    } else {
        let unit = state.units[0].value.unit;
        match records_ahead(state, unit) {
            None => {
                let anchor = state.anchor;
                resynced(
                    state,
                    ResyncReason::TimestampGap {
                        ticks: ticks_between(unit.timestamp, anchor->Present_timestamp),
                        fps: anchor->Present_fps,
                    },
                    unmatched,
                )
            },
            Some(count) => match nth_of_generation(state.metadata, unit.generation, count, 0) {
                Search::NotYetArrived => waiting,
                Search::GenerationPassed => resynced(
                    state,
                    ResyncReason::MetadataGenerationPassed,
                    unmatched,
                ),
                Search::At(index) => {
                    drained(
                        paired(state, index),
                        delivered(state, samples, index),
                        saturated(unmatched + index),
                    )
                },
            },
        }
    }
}

pub open spec fn metadata_pushed(
    state: CorrelatorState,
    value: FrameMetadata,
    now: Instant,
) -> Correlated {
    if state.metadata.len() == PENDING_RECORD_CAPACITY {
        resynced(state, ResyncReason::MetadataBacklog, 1)
    } else {
        drained(
            CorrelatorState {
                metadata: state.metadata.push(Pending { value, queued_at: now }),
                ..state
            },
            Seq::empty(),
            0,
        )
    }
}

pub open spec fn unit_pushed(
    state: CorrelatorState,
    value: PendingUnit,
    now: Instant,
) -> Correlated {
    if state.units.len() == PENDING_RECORD_CAPACITY {
        resynced(state, ResyncReason::UnitBacklog, 0)
    } else {
        drained(
            CorrelatorState { units: state.units.push(Pending { value, queued_at: now }), ..state },
            Seq::empty(),
            0,
        )
    }
}

/// What has waited too long is given up.
pub open spec fn given_up(state: CorrelatorState) -> Correlated {
    resynced(state, ResyncReason::UnmatchedDeadline, 0)
}

// ---------------------------------------------------------------------------
// The correlator
// ---------------------------------------------------------------------------

impl Correlation {
    pub open spec fn outcome_view(self) -> OutcomeView {
        match self.outcome {
            CorrelationOutcome::Frames(frames) => OutcomeView::Frames(frames@),
            CorrelationOutcome::Resync(reason) => OutcomeView::Resync(reason),
        }
    }

    /// Whether this is the result that `expected` gives.
    pub open spec fn is(self, expected: Correlated) -> bool {
        self.outcome_view() == expected.outcome && self.unmatched_metadata == expected.unmatched
    }
}

/// The number of frame intervals in `ticks`, if so many records can be pending.
pub fn metadata_gap(ticks: RtpTicks, fps: Fps) -> (r: Option<usize>)
    ensures
        match r {
            Some(count) => frame_gap(ticks, fps) == Some(count as int),
            None => frame_gap(ticks, fps) is None,
        },
{
    let rate: u32 = fps.get();
    assert(0 <= ticks.0 * rate <= u32::MAX * 120) by (nonlinear_arith)
        requires
            0 <= ticks.0 <= u32::MAX,
            0 <= rate <= 120,
    ;
    let intervals: u64 = (ticks.0 as u64 * rate as u64 + (RTP_CLOCK_HZ / 2) as u64)
        / RTP_CLOCK_HZ as u64;
    if intervals == 0 {
        return Some(1);
    }
    if intervals > PENDING_RECORD_CAPACITY as u64 {
        return None;
    }
    Some(intervals as usize)
}

impl Correlator {
    pub open spec fn view(&self) -> CorrelatorState {
        CorrelatorState {
            metadata: self.metadata@,
            units: self.units@,
            last_generation: self.last_generation,
            anchor: self.timestamp_anchor,
            keyframe: self.keyframe,
        }
    }

    pub fn new() -> (r: Self)
        ensures
            r@ == (CorrelatorState {
                metadata: Seq::empty(),
                units: Seq::empty(),
                last_generation: None,
                anchor: TimestampAnchor::Needed,
                keyframe: GopState::KeyframeCached,
            }),
    {
        Correlator {
            metadata: VecDeque::new(),
            units: VecDeque::new(),
            last_generation: None,
            timestamp_anchor: TimestampAnchor::Needed,
            keyframe: GopState::KeyframeCached,
        }
    }

    pub fn push_metadata(&mut self, value: FrameMetadata, now: Instant) -> (r: Correlation)
        ensures
            final(self)@ == metadata_pushed(old(self)@, value, now).state,
            r.is(metadata_pushed(old(self)@, value, now)),
    {
        if self.metadata.len() == PENDING_RECORD_CAPACITY {
            return self.resync(ResyncReason::MetadataBacklog, 1);
        }
        self.metadata.push_back(Pending { value, queued_at: now });
        self.drain()
    }

    pub fn push_unit(&mut self, value: PendingUnit, now: Instant) -> (r: Correlation)
        ensures
            final(self)@ == unit_pushed(old(self)@, value, now).state,
            r.is(unit_pushed(old(self)@, value, now)),
    {
        if self.units.len() == PENDING_RECORD_CAPACITY {
            return self.resync(ResyncReason::UnitBacklog, 0);
        }
        self.units.push_back(Pending { value, queued_at: now });
        self.drain()
    }

    pub fn deadline_expired(&mut self) -> (r: Correlation)
        ensures
            final(self)@ == resynced(old(self)@, ResyncReason::UnmatchedDeadline, 0).state,
            r.is(resynced(old(self)@, ResyncReason::UnmatchedDeadline, 0)),
            final(self)@ == given_up(old(self)@).state,
            r.is(given_up(old(self)@)),
    {
        self.resync(ResyncReason::UnmatchedDeadline, 0)
    }

    fn drain(&mut self) -> (r: Correlation)
        ensures
            final(self)@ == drained(old(self)@, Seq::empty(), 0).state,
            r.is(drained(old(self)@, Seq::empty(), 0)),
    {
        let mut samples: Vec<VideoSample> = Vec::new();
        let mut unmatched_metadata: usize = 0;
        let ghost goal = drained(self@, Seq::empty(), 0);
        while self.units.len() > 0
            invariant
                drained(self@, samples@, unmatched_metadata as int) == goal,
                goal == drained(old(self)@, Seq::empty(), 0),
            ensures
                self@ == goal.state,
                OutcomeView::Frames(samples@) == goal.outcome,
                unmatched_metadata == goal.unmatched,
            decreases self.units@.len(),
        {
            let ghost before = self@;
            let ghost delivered = samples@;
            let unit = &self.units[0].value.unit;
            let generation = unit.generation;
            let timestamp = unit.timestamp;
            let kind = unit.kind;
            let mut count: usize = 1;
            if self.last_generation == Some(generation) {
                match self.timestamp_anchor {
                    TimestampAnchor::Needed => {},
                    TimestampAnchor::Present { timestamp: anchor, fps } => {
                        let ticks = timestamp.elapsed_since(anchor);
                        assert(ticks == ticks_between(timestamp, anchor));
                        match metadata_gap(ticks, fps) {
                            Some(gap) => {
                                count = gap;
                            },
                            None => {
                                return self.resync(
                                    ResyncReason::TimestampGap { ticks, fps },
                                    unmatched_metadata,
                                );
                            },
                        }
                    },
                }
            }
            let (metadata, unmatched) = match self.take_nth_generation_metadata(
                generation,
                count,
            ) {
                MetadataMatch::Matched { metadata, unmatched } => (metadata, unmatched),
                MetadataMatch::NotYetArrived => {
                    break;
                },
                MetadataMatch::GenerationPassed => {
                    return self.resync(
                        ResyncReason::MetadataGenerationPassed,
                        unmatched_metadata,
                    );
                },
            };
            unmatched_metadata = unmatched_metadata.saturating_add(unmatched);
            let pending = match self.units.pop_front() {
                Some(pending) => pending,
                None => {
                    break;
                },
            };
            // The unit's share of the byte budget is returned here.
            let PendingUnit { unit, bytes: _ } = pending.value;
            let recovering = self.keyframe == GopState::Recovering;
            let continuity = if recovering || unit.continuity == Continuity::AfterGap || unmatched
                > 0 || self.last_generation != Some(metadata.generation) {
                Continuity::AfterGap
            } else {
                Continuity::Continuous
            };
            self.last_generation = Some(metadata.generation);
            self.timestamp_anchor =
            TimestampAnchor::Present { timestamp: unit.timestamp, fps: metadata.fps };
            if kind == FrameKind::Key {
                self.keyframe = GopState::KeyframeCached;
            }
            if !recovering || kind == FrameKind::Key {
                samples.push(VideoSample { data: unit.data, kind: unit.kind, continuity, metadata });
            }
            assert(self@ =~= paired(before, unmatched as int));
        }
        Correlation { outcome: CorrelationOutcome::Frames(samples), unmatched_metadata }
    }

    fn resync(&mut self, reason: ResyncReason, unmatched_metadata: usize) -> (r: Correlation)
        ensures
            final(self)@ == resynced(old(self)@, reason, unmatched_metadata as int).state,
            r.is(resynced(old(self)@, reason, unmatched_metadata as int)),
    {
        let unmatched_metadata: usize = unmatched_metadata.saturating_add(self.metadata.len());
        self.metadata.clear();
        self.units.clear();
        self.timestamp_anchor = TimestampAnchor::Needed;
        self.keyframe = GopState::Recovering;
        Correlation { outcome: CorrelationOutcome::Resync(reason), unmatched_metadata }
    }

    /// Takes the `count`-th record of `generation` and every record before it.
    fn take_nth_generation_metadata(&mut self, generation: Generation, count: usize) -> (r:
        MetadataMatch)
        requires
            count > 0,
        ensures
            match nth_of_generation(old(self)@.metadata, generation, count as int, 0) {
                Search::At(index) => {
                    &&& 0 <= index < old(self)@.metadata.len()
                    &&& r == (MetadataMatch::Matched {
                        metadata: old(self)@.metadata[index].value,
                        unmatched: index as usize,
                    })
                    &&& index <= usize::MAX
                    &&& final(self)@ == (CorrelatorState {
                        metadata: old(self)@.metadata.skip(index + 1),
                        ..old(self)@
                    })
                },
                Search::NotYetArrived => r == MetadataMatch::NotYetArrived && final(self)@ == old(
                    self,
                )@,
                Search::GenerationPassed => r == MetadataMatch::GenerationPassed && final(self)@
                    == old(self)@,
            },
    {
        let mut matches: usize = 0;
        let mut index: usize = 0;
        while index < self.metadata.len()
            invariant
                self@ == old(self)@,
                index <= self.metadata@.len(),
                matches < count,
                matches <= index,
                nth_of_generation(self.metadata@, generation, count as int, 0)
                    == nth_of_generation(
                    self.metadata@,
                    generation,
                    count - matches,
                    index as int,
                ),
            decreases self.metadata@.len() - index,
        {
            let metadata = self.metadata[index].value;
            let found: u32 = metadata.generation.get();
            if found > generation.get() {
                return MetadataMatch::GenerationPassed;
            }
            if found == generation.get() {
                matches = matches + 1;
                if matches == count {
                    self.discard_front(index + 1);
                    return MetadataMatch::Matched { metadata, unmatched: index };
                }
            }
            index = index + 1;
        }
        MetadataMatch::NotYetArrived
    }

    fn discard_front(&mut self, count: usize)
        requires
            count <= old(self)@.metadata.len(),
        ensures
            final(self)@ == (CorrelatorState {
                metadata: old(self)@.metadata.skip(count as int),
                ..old(self)@
            }),
    {
        let mut removed: usize = 0;
        while removed < count
            invariant
                removed <= count <= old(self)@.metadata.len(),
                self@ == (CorrelatorState {
                    metadata: old(self)@.metadata.skip(removed as int),
                    ..old(self)@
                }),
            decreases count - removed,
        {
            let _ = self.metadata.pop_front();
            removed = removed + 1;
            assert(self.metadata@ =~= old(self)@.metadata.skip(removed as int));
        }
    }

    /// When the oldest pending record or unit will have waited too long.
    pub open spec fn spec_deadline(self) -> Option<Instant> {
        let oldest = if self@.metadata.len() == 0 && self@.units.len() == 0 {
            None
        } else if self@.units.len() == 0 {
            Some(self@.metadata[0].queued_at)
        } else if self@.metadata.len() == 0 {
            Some(self@.units[0].queued_at)
        } else {
            Some(self@.metadata[0].queued_at.spec_earlier(self@.units[0].queued_at))
        };
        match oldest {
            Some(at) => Some(at.spec_plus(UNMATCHED_DEADLINE_NANOS as int)),
            None => None,
        }
    }

    pub fn deadline(&self) -> (r: Option<Instant>)
        ensures
            r == self.spec_deadline(),
    {
        if self.metadata.len() == 0 && self.units.len() == 0 {
            return None;
        }
        let oldest = if self.units.len() == 0 {
            self.metadata[0].queued_at
        } else if self.metadata.len() == 0 {
            self.units[0].queued_at
        } else {
            self.metadata[0].queued_at.earlier(self.units[0].queued_at)
        };
        Some(oldest.plus(UNMATCHED_DEADLINE_NANOS))
    }
}

// ---------------------------------------------------------------------------
// Laws
// ---------------------------------------------------------------------------

pub open spec fn generation_count(
    metadata: Seq<Pending<FrameMetadata>>,
    generation: Generation,
    from: int,
    to: int,
) -> int
    decreases to - from,
{
    if from >= to {
        0
    } else {
        generation_count(metadata, generation, from + 1, to) + if metadata[from].value.generation@
            == generation@ {
            1int
        } else {
            0
        }
    }
}

/// A unit is only ever paired with a record of its own generation: the record found
/// is the wanted one in number, and none of a newer generation stands before it.
pub proof fn law_match_keeps_the_generation(
    metadata: Seq<Pending<FrameMetadata>>,
    generation: Generation,
    count: int,
    from: int,
)
    requires
        count >= 1,
        0 <= from,
    ensures
        nth_of_generation(metadata, generation, count, from) matches Search::At(index) ==> {
            &&& from <= index < metadata.len()
            &&& metadata[index].value.generation@ == generation@
            &&& generation_count(metadata, generation, from, index + 1) == count
            &&& forall|i: int|
                from <= i < index ==> (#[trigger] metadata[i]).value.generation@ <= generation@
        },
    decreases metadata.len() - from,
{
    if from < metadata.len() {
        let found = metadata[from].value.generation@;
        if found < generation@ {
            law_match_keeps_the_generation(metadata, generation, count, from + 1);
        } else if found == generation@ {
            if count == 1 {
                assert(generation_count(metadata, generation, from + 1, from + 1) == 0);
            } else {
                law_match_keeps_the_generation(metadata, generation, count - 1, from + 1);
            }
        }
    }
}

/// The state that a resynchronisation leaves: nothing pending, no anchor, and the
/// stream waits for a keyframe. The unmatched count covers every pending record.
pub proof fn law_resync_gives_up_everything(
    state: CorrelatorState,
    reason: ResyncReason,
    unmatched: int,
)
    requires
        0 <= unmatched,
        unmatched + state.metadata.len() <= usize::MAX,
    ensures
        resynced(state, reason, unmatched).state.metadata.len() == 0,
        resynced(state, reason, unmatched).state.units.len() == 0,
        resynced(state, reason, unmatched).state.anchor == TimestampAnchor::Needed,
        resynced(state, reason, unmatched).state.keyframe == GopState::Recovering,
        resynced(state, reason, unmatched).unmatched == unmatched + state.metadata.len(),
{
}

proof fn lemma_drained_bounds(state: CorrelatorState, samples: Seq<VideoSample>, unmatched: int)
    ensures
        drained(state, samples, unmatched).state.metadata.len() <= state.metadata.len(),
        drained(state, samples, unmatched).state.units.len() <= state.units.len(),
        drained(state, samples, unmatched).outcome is Resync ==> drained(
            state,
            samples,
            unmatched,
        ).state.keyframe == GopState::Recovering,
    decreases state.units.len(),
{
    if state.units.len() > 0 {
        let unit = state.units[0].value.unit;
        if let Some(count) = records_ahead(state, unit) {
            law_match_keeps_the_generation(state.metadata, unit.generation, count, 0);
            if let Search::At(index) = nth_of_generation(
                state.metadata,
                unit.generation,
                count,
                0,
            ) {
                let sent = delivered(state, samples, index);
                lemma_drained_bounds(
                    paired(state, index),
                    sent,
                    saturated(unmatched + index),
                );
            }
        }
    }
}

/// Neither queue ever holds more than its capacity.
pub proof fn law_queues_stay_bounded(
    state: CorrelatorState,
    metadata: FrameMetadata,
    unit: PendingUnit,
    now: Instant,
)
    requires
        state.metadata.len() <= PENDING_RECORD_CAPACITY,
        state.units.len() <= PENDING_RECORD_CAPACITY,
    ensures
        metadata_pushed(state, metadata, now).state.metadata.len() <= PENDING_RECORD_CAPACITY,
        metadata_pushed(state, metadata, now).state.units.len() <= PENDING_RECORD_CAPACITY,
        unit_pushed(state, unit, now).state.metadata.len() <= PENDING_RECORD_CAPACITY,
        unit_pushed(state, unit, now).state.units.len() <= PENDING_RECORD_CAPACITY,
{
    let with_record = CorrelatorState {
        metadata: state.metadata.push(Pending { value: metadata, queued_at: now }),
        ..state
    };
    let with_unit = CorrelatorState {
        units: state.units.push(Pending { value: unit, queued_at: now }),
        ..state
    };
    lemma_drained_bounds(with_record, Seq::empty(), 0);
    lemma_drained_bounds(with_unit, Seq::empty(), 0);
}

proof fn lemma_drained_keeps_samples(
    state: CorrelatorState,
    samples: Seq<VideoSample>,
    unmatched: int,
)
    ensures
        drained(state, samples, unmatched).outcome matches OutcomeView::Frames(frames)
            ==> samples.len() <= frames.len() && frames.subrange(0, samples.len() as int)
            == samples,
    decreases state.units.len(),
{
    assert(samples.subrange(0, samples.len() as int) =~= samples);
    if state.units.len() > 0 {
        let unit = state.units[0].value.unit;
        if let Some(count) = records_ahead(state, unit) {
            if let Search::At(index) = nth_of_generation(
                state.metadata,
                unit.generation,
                count,
                0,
            ) {
                let sent = delivered(state, samples, index);
                lemma_drained_keeps_samples(
                    paired(state, index),
                    sent,
                    saturated(unmatched + index),
                );
                if let OutcomeView::Frames(frames) = drained(state, samples, unmatched).outcome {
                    assert(frames.subrange(0, samples.len() as int) =~= frames.subrange(
                        0,
                        sent.len() as int,
                    ).subrange(0, samples.len() as int));
                    assert(sent.subrange(0, samples.len() as int) =~= samples);
                }
            }
        }
    }
}

/// After a resynchronisation the first sample that is delivered is a keyframe and
/// is marked as coming after a gap; as long as none is, the stream keeps waiting.
pub proof fn law_recovery_starts_with_a_keyframe(
    state: CorrelatorState,
    samples: Seq<VideoSample>,
    unmatched: int,
)
    requires
        state.keyframe == GopState::Recovering,
    ensures
        match drained(state, samples, unmatched).outcome {
            OutcomeView::Resync(_) => drained(state, samples, unmatched).state.keyframe
                == GopState::Recovering,
            OutcomeView::Frames(frames) => if frames.len() > samples.len() {
                frames[samples.len() as int].kind == FrameKind::Key
                    && frames[samples.len() as int].continuity == Continuity::AfterGap
            } else {
                drained(state, samples, unmatched).state.keyframe == GopState::Recovering
            },
        },
    decreases state.units.len(),
{
    lemma_drained_keeps_samples(state, samples, unmatched);
    lemma_drained_bounds(state, samples, unmatched);
    if state.units.len() > 0 {
        let unit = state.units[0].value.unit;
        if let Some(count) = records_ahead(state, unit) {
            if let Search::At(index) = nth_of_generation(
                state.metadata,
                unit.generation,
                count,
                0,
            ) {
                let sample = first_sample(state, index);
                let next = paired(state, index);
                if unit.kind == FrameKind::Key {
                    lemma_drained_keeps_samples(
                        next,
                        samples.push(sample),
                        saturated(unmatched + index),
                    );
                    if let OutcomeView::Frames(frames) = drained(
                        state,
                        samples,
                        unmatched,
                    ).outcome {
                        assert(frames.subrange(0, samples.len() as int + 1)[samples.len() as int]
                            == sample);
                    }
                } else {
                    law_recovery_starts_with_a_keyframe(
                        next,
                        samples,
                        saturated(unmatched + index),
                    );
                }
            }
        }
    }
}

/// Every record is accounted for: it was paired with a unit, counted as unmatched,
/// or is still pending.
pub proof fn law_records_are_accounted_for(
    state: CorrelatorState,
    samples: Seq<VideoSample>,
    unmatched: int,
)
    requires
        0 <= unmatched,
        unmatched + state.metadata.len() <= usize::MAX,
        drained(state, samples, unmatched).outcome is Frames,
    ensures
        ({
            let done = drained(state, samples, unmatched);
            unmatched + state.metadata.len() == done.unmatched + done.state.metadata.len() + (
            state.units.len() - done.state.units.len())
        }),
    decreases state.units.len(),
{
    if state.units.len() > 0 {
        let unit = state.units[0].value.unit;
        if let Some(count) = records_ahead(state, unit) {
            law_match_keeps_the_generation(state.metadata, unit.generation, count, 0);
            if let Search::At(index) = nth_of_generation(
                state.metadata,
                unit.generation,
                count,
                0,
            ) {
                let sent = delivered(state, samples, index);
                law_records_are_accounted_for(
                    paired(state, index),
                    sent,
                    saturated(unmatched + index),
                );
            }
        }
    }
}

/// A call of the correlator.
pub enum CorrelatorCall {
    PushMetadata { record: FrameMetadata, now: Instant },
    PushUnit { unit: PendingUnit, now: Instant },
    DeadlineExpired,
}

pub open spec fn called(state: CorrelatorState, call: CorrelatorCall) -> Correlated {
    match call {
        CorrelatorCall::PushMetadata { record, now } => metadata_pushed(state, record, now),
        CorrelatorCall::PushUnit { unit, now } => unit_pushed(state, unit, now),
        CorrelatorCall::DeadlineExpired => resynced(state, ResyncReason::UnmatchedDeadline, 0),
    }
}

/// The state of a new correlator.
pub open spec fn nothing_seen() -> CorrelatorState {
    CorrelatorState {
        metadata: Seq::empty(),
        units: Seq::empty(),
        last_generation: None,
        anchor: TimestampAnchor::Needed,
        keyframe: GopState::KeyframeCached,
    }
}

/// The state of a new correlator after a history of calls.
pub open spec fn state_after(calls: Seq<CorrelatorCall>) -> CorrelatorState
    decreases calls.len(),
{
    if calls.len() == 0 {
        nothing_seen()
    } else {
        called(state_after(calls.drop_last()), calls.last()).state
    }
}

/// The samples that a history of calls on a new correlator gave, in order.
pub open spec fn emitted(calls: Seq<CorrelatorCall>) -> Seq<VideoSample>
    decreases calls.len(),
{
    if calls.len() == 0 {
        Seq::empty()
    } else {
        let earlier = emitted(calls.drop_last());
        match called(state_after(calls.drop_last()), calls.last()).outcome {
            OutcomeView::Frames(frames) => earlier + frames,
            OutcomeView::Resync(_) => earlier,
        }
    }
}

/// The units that a history pushed, in order.
pub open spec fn pushed_units(calls: Seq<CorrelatorCall>) -> Seq<Unit>
    decreases calls.len(),
{
    if calls.len() == 0 {
        Seq::empty()
    } else {
        let earlier = pushed_units(calls.drop_last());
        match calls.last() {
            CorrelatorCall::PushUnit { unit, .. } => earlier.push(unit.unit),
            _ => earlier,
        }
    }
}

/// The records that a history pushed, in order.
pub open spec fn pushed_records(calls: Seq<CorrelatorCall>) -> Seq<FrameMetadata>
    decreases calls.len(),
{
    if calls.len() == 0 {
        Seq::empty()
    } else {
        let earlier = pushed_records(calls.drop_last());
        match calls.last() {
            CorrelatorCall::PushMetadata { record, .. } => earlier.push(record),
            _ => earlier,
        }
    }
}

/// Whether a sample is made of a unit and a record of the unit's generation.
pub open spec fn pairs(sample: VideoSample, unit: Unit, record: FrameMetadata) -> bool {
    &&& sample.data == unit.data
    &&& sample.kind == unit.kind
    &&& sample.metadata == record
    &&& record.generation@ == unit.generation@
}

pub open spec fn increasing(indices: Seq<int>) -> bool {
    forall|i: int, j: int|
        0 <= i < j < indices.len() ==> #[trigger] indices[i] < #[trigger] indices[j]
}

pub open spec fn below(indices: Seq<int>, bound: int) -> bool {
    forall|i: int| 0 <= i < indices.len() ==> 0 <= #[trigger] indices[i] < bound
}

/// Whether each sample pairs the unit and the record that the indices name, each unit
/// and each record at most once and in the order in which they were pushed.
pub open spec fn paired_in_order(
    samples: Seq<VideoSample>,
    units: Seq<Unit>,
    records: Seq<FrameMetadata>,
    unit_indices: Seq<int>,
    record_indices: Seq<int>,
) -> bool {
    &&& unit_indices.len() == samples.len()
    &&& record_indices.len() == samples.len()
    &&& increasing(unit_indices)
    &&& increasing(record_indices)
    &&& below(unit_indices, units.len() as int)
    &&& below(record_indices, records.len() as int)
    &&& forall|i: int|
        0 <= i < samples.len() ==> pairs(
            #[trigger] samples[i],
            units[unit_indices[i]],
            records[record_indices[i]],
        )
}

/// Whether what is pending is what was pushed last.
pub open spec fn pending_last(
    state: CorrelatorState,
    units: Seq<Unit>,
    records: Seq<FrameMetadata>,
) -> bool {
    &&& state.units.len() <= units.len()
    &&& state.metadata.len() <= records.len()
    &&& forall|i: int|
        0 <= i < state.units.len() ==> (#[trigger] state.units[i]).value.unit == units[units.len()
            - state.units.len() + i]
    &&& forall|i: int|
        0 <= i < state.metadata.len() ==> (#[trigger] state.metadata[i]).value
            == records[records.len() - state.metadata.len() + i]
}

/// The samples come in order from what was pushed before everything that is pending.
pub open spec fn history_holds(
    state: CorrelatorState,
    samples: Seq<VideoSample>,
    units: Seq<Unit>,
    records: Seq<FrameMetadata>,
    unit_indices: Seq<int>,
    record_indices: Seq<int>,
) -> bool {
    &&& pending_last(state, units, records)
    &&& paired_in_order(samples, units, records, unit_indices, record_indices)
    &&& below(unit_indices, units.len() - state.units.len())
    &&& below(record_indices, records.len() - state.metadata.len())
}

/// One pairing keeps the order.
proof fn lemma_pairing_keeps_order(
    state: CorrelatorState,
    earlier: Seq<VideoSample>,
    samples: Seq<VideoSample>,
    units: Seq<Unit>,
    records: Seq<FrameMetadata>,
    unit_indices: Seq<int>,
    record_indices: Seq<int>,
    index: int,
) -> (r: (Seq<int>, Seq<int>))
    requires
        history_holds(state, earlier + samples, units, records, unit_indices, record_indices),
        state.units.len() > 0,
        0 <= index < state.metadata.len(),
        state.metadata[index].value.generation@ == state.units[0].value.unit.generation@,
    ensures
        history_holds(
            paired(state, index),
            earlier + delivered(state, samples, index),
            units,
            records,
            r.0,
            r.1,
        ),
{
    let next = paired(state, index);
    let unit_at = units.len() - state.units.len();
    let record_at = records.len() - state.metadata.len() + index;
    assert(state.units[0].value.unit == units[unit_at]);
    assert(state.metadata[index].value == records[record_at]);
    assert forall|i: int| 0 <= i < next.units.len() implies (#[trigger] next.units[i]).value.unit
        == units[units.len() - next.units.len() + i] by {
        assert(next.units[i] == state.units[i + 1]);
    }
    assert forall|i: int| 0 <= i < next.metadata.len() implies (#[trigger] next.metadata[i]).value
        == records[records.len() - next.metadata.len() + i] by {
        assert(next.metadata[i] == state.metadata[i + index + 1]);
    }
    let sent = delivered(state, samples, index);
    if sent.len() == samples.len() {
        (unit_indices, record_indices)
    } else {
        let longer = earlier + sent;
        assert(longer =~= (earlier + samples).push(first_sample(state, index)));
        let after = (unit_indices.push(unit_at), record_indices.push(record_at));
        assert forall|i: int| 0 <= i < longer.len() implies pairs(
            #[trigger] longer[i],
            units[after.0[i]],
            records[after.1[i]],
        ) by {
            if i < longer.len() - 1 {
                assert(longer[i] == (earlier + samples)[i]);
                assert(after.0[i] == unit_indices[i] && after.1[i] == record_indices[i]);
            }
        }
        after
    }
}

/// Draining keeps the order; a resynchronisation gives up what it had paired.
proof fn lemma_drained_in_order(
    state: CorrelatorState,
    earlier: Seq<VideoSample>,
    samples: Seq<VideoSample>,
    unmatched: int,
    units: Seq<Unit>,
    records: Seq<FrameMetadata>,
    unit_indices: Seq<int>,
    record_indices: Seq<int>,
) -> (r: (Seq<int>, Seq<int>))
    requires
        history_holds(state, earlier + samples, units, records, unit_indices, record_indices),
    ensures
        match drained(state, samples, unmatched).outcome {
            OutcomeView::Frames(frames) => history_holds(
                drained(state, samples, unmatched).state,
                earlier + frames,
                units,
                records,
                r.0,
                r.1,
            ),
            OutcomeView::Resync(_) => {
                &&& drained(state, samples, unmatched).state.units.len() == 0
                &&& drained(state, samples, unmatched).state.metadata.len() == 0
            },
        },
    decreases state.units.len(),
{
    let same = (unit_indices, record_indices);
    if state.units.len() == 0 {
        same
    } else {
        let unit = state.units[0].value.unit;
        match records_ahead(state, unit) {
            None => same,
            Some(count) => {
                law_match_keeps_the_generation(state.metadata, unit.generation, count, 0);
                match nth_of_generation(state.metadata, unit.generation, count, 0) {
                    Search::At(index) => {
                        let next = lemma_pairing_keeps_order(
                            state,
                            earlier,
                            samples,
                            units,
                            records,
                            unit_indices,
                            record_indices,
                            index,
                        );
                        lemma_drained_in_order(
                            paired(state, index),
                            earlier,
                            delivered(state, samples, index),
                            saturated(unmatched + index),
                            units,
                            records,
                            next.0,
                            next.1,
                        )
                    },
                    _ => same,
                }
            },
        }
    }
}

/// What was paired before stays paired when more is pushed.
proof fn lemma_pushing_keeps_order(
    samples: Seq<VideoSample>,
    units: Seq<Unit>,
    records: Seq<FrameMetadata>,
    more_units: Seq<Unit>,
    more_records: Seq<FrameMetadata>,
    unit_indices: Seq<int>,
    record_indices: Seq<int>,
)
    requires
        paired_in_order(samples, units, records, unit_indices, record_indices),
        units.is_prefix_of(more_units),
        records.is_prefix_of(more_records),
    ensures
        paired_in_order(samples, more_units, more_records, unit_indices, record_indices),
{
    assert forall|i: int| 0 <= i < samples.len() implies pairs(
        #[trigger] samples[i],
        more_units[unit_indices[i]],
        more_records[record_indices[i]],
    ) by {
        assert(units[unit_indices[i]] == more_units[unit_indices[i]]);
        assert(records[record_indices[i]] == more_records[record_indices[i]]);
    }
}

proof fn lemma_history_in_order(calls: Seq<CorrelatorCall>) -> (r: (Seq<int>, Seq<int>))
    ensures
        history_holds(
            state_after(calls),
            emitted(calls),
            pushed_units(calls),
            pushed_records(calls),
            r.0,
            r.1,
        ),
    decreases calls.len(),
{
    if calls.len() == 0 {
        (Seq::empty(), Seq::empty())
    } else {
        let earlier = calls.drop_last();
        let known = lemma_history_in_order(earlier);
        let state = state_after(earlier);
        let sent = emitted(earlier);
        let units = pushed_units(calls);
        let records = pushed_records(calls);
        assert(pushed_units(earlier).is_prefix_of(units));
        assert(pushed_records(earlier).is_prefix_of(records));
        lemma_pushing_keeps_order(
            sent,
            pushed_units(earlier),
            pushed_records(earlier),
            units,
            records,
            known.0,
            known.1,
        );
        assert(sent + Seq::<VideoSample>::empty() =~= sent);
        let loaded = match calls.last() {
            CorrelatorCall::PushMetadata { record, now } => CorrelatorState {
                metadata: state.metadata.push(Pending { value: record, queued_at: now }),
                ..state
            },
            CorrelatorCall::PushUnit { unit, now } => CorrelatorState {
                units: state.units.push(Pending { value: unit, queued_at: now }),
                ..state
            },
            CorrelatorCall::DeadlineExpired => state,
        };
        let step = called(state, calls.last());
        assert(history_holds(loaded, sent, units, records, known.0, known.1));
        let next = lemma_drained_in_order(
            loaded,
            sent,
            Seq::empty(),
            0,
            units,
            records,
            known.0,
            known.1,
        );
        match step.outcome {
            OutcomeView::Frames(_) => next,
            OutcomeView::Resync(_) => known,
        }
    }
}

/// Over any history of calls on a new correlator, every sample pairs a unit that was
/// pushed with a record of the unit's generation; the samples come in the order of
/// their units and of their records, and no unit and no record is used twice.
pub proof fn law_samples_pair_units_and_records_in_order(calls: Seq<CorrelatorCall>)
    ensures
        exists|unit_indices: Seq<int>, record_indices: Seq<int>| #[trigger]
            paired_in_order(
                emitted(calls),
                pushed_units(calls),
                pushed_records(calls),
                unit_indices,
                record_indices,
            ),
{
    let known = lemma_history_in_order(calls);
    assert(paired_in_order(
        emitted(calls),
        pushed_units(calls),
        pushed_records(calls),
        known.0,
        known.1,
    ));
}

/// How many frames lie between two units: as many as intervals of the frame rate lie
/// between their times on a clock of 90 kHz that wraps at 2^32, to the nearest, and one
/// at least. More than 120 cannot be told.
pub proof fn law_gaps_are_counted_in_frames(later: RtpTimestamp, earlier: RtpTimestamp, fps: Fps)
    ensures
        ({
            let ticks = ticks_between(later, earlier).0;
            let gap = frame_gap(ticks_between(later, earlier), fps);
            &&& later.0 >= earlier.0 ==> ticks == later.0 - earlier.0
            &&& later.0 < earlier.0 ==> ticks == later.0 + 0x1_0000_0000 - earlier.0
            &&& gap is None <==> ticks * fps@ >= 120 * 90_000 + 45_000
            &&& gap matches Some(frames) ==> {
                &&& 1 <= frames <= 120
                &&& ticks * fps@ < frames * 90_000 + 45_000
                &&& frames > 1 ==> ticks * fps@ >= frames * 90_000 - 45_000
            }
        }),
{
}

/// A unit of the generation of the unit before stands as many records behind as frames
/// lie between the two; the first unit of a generation, or after everything was given
/// up, takes the next record.
pub proof fn law_units_stand_behind_the_last_one(state: CorrelatorState, unit: Unit)
    ensures
        state.last_generation != Some(unit.generation) ==> records_ahead(state, unit) == Some(1int),
        state.anchor is Needed ==> records_ahead(state, unit) == Some(1int),
        state.last_generation == Some(unit.generation) ==> (state.anchor matches TimestampAnchor::Present {
            timestamp,
            fps,
        } ==> records_ahead(state, unit) == frame_gap(
            ticks_between(unit.timestamp, timestamp),
            fps,
        )),
{
}

/// The wanted record is found where it is there and none of a newer generation stands
/// before it; the search waits only while too few came, and is given up only at a newer
/// one.
pub proof fn law_the_search_is_complete(
    metadata: Seq<Pending<FrameMetadata>>,
    generation: Generation,
    count: int,
    from: int,
)
    requires
        count >= 1,
        0 <= from <= metadata.len(),
    ensures
        match nth_of_generation(metadata, generation, count, from) {
            Search::At(index) => true,
            Search::NotYetArrived => {
                &&& generation_count(metadata, generation, from, metadata.len() as int) < count
                &&& forall|i: int|
                    from <= i < metadata.len() ==> (#[trigger] metadata[i]).value.generation@
                        <= generation@
            },
            Search::GenerationPassed => exists|i: int|
                from <= i < metadata.len() && (#[trigger] metadata[i]).value.generation@
                    > generation@ && generation_count(metadata, generation, from, i) < count,
        },
    decreases metadata.len() - from,
{
    if from < metadata.len() {
        let found = metadata[from].value.generation@;
        if found > generation@ {
            assert(generation_count(metadata, generation, from, from) == 0);
        } else if found < generation@ || count > 1 {
            let left = if found < generation@ {
                count
            } else {
                count - 1
            };
            law_the_search_is_complete(metadata, generation, left, from + 1);
            if nth_of_generation(metadata, generation, count, from) is GenerationPassed {
                let i = choose|i: int|
                    from + 1 <= i < metadata.len() && (#[trigger] metadata[i]).value.generation@
                        > generation@ && generation_count(metadata, generation, from + 1, i) < left;
                assert(metadata[i].value.generation@ > generation@);
                assert(generation_count(metadata, generation, from, i) < count);
            }
        }
    } else {
        assert(generation_count(metadata, generation, from, metadata.len() as int) == 0);
    }
}

/// A sample follows the one before without a gap exactly where the stream was not
/// waiting for a keyframe, the unit itself follows without one, no record was passed
/// over, and the generation is the same.
pub proof fn law_gaps_are_marked(
    state: CorrelatorState,
    unit: Unit,
    metadata: FrameMetadata,
    skipped: int,
)
    ensures
        sample_continuity(state, unit, metadata, skipped) == Continuity::Continuous <==> {
            &&& state.keyframe == GopState::KeyframeCached
            &&& unit.continuity == Continuity::Continuous
            &&& skipped <= 0
            &&& state.last_generation == Some(metadata.generation)
        },
{
}

/// A unit whose record is the next one is delivered with it at once, unless the stream
/// waits for a keyframe that it is not; the record is used up and none is unmatched.
pub proof fn law_matching_units_are_delivered_at_once(
    state: CorrelatorState,
    value: PendingUnit,
    now: Instant,
)
    requires
        state.units.len() == 0,
        state.metadata.len() > 0,
        records_ahead(state, value.unit) == Some(1int),
        state.metadata[0].value.generation@ == value.unit.generation@,
    ensures
        ({
            let done = unit_pushed(state, value, now);
            let waits = state.keyframe == GopState::Recovering && value.unit.kind
                == FrameKind::Delta;
            &&& done.outcome is Frames
            &&& done.unmatched == 0
            &&& done.state.units.len() == 0
            &&& done.state.metadata == state.metadata.skip(1)
            &&& done.state.last_generation == Some(state.metadata[0].value.generation)
            &&& done.state.anchor == (TimestampAnchor::Present {
                timestamp: value.unit.timestamp,
                fps: state.metadata[0].value.fps,
            })
            &&& waits ==> done.outcome->Frames_0.len() == 0 && done.state.keyframe
                == GopState::Recovering
            &&& !waits ==> done.outcome->Frames_0.len() == 1 && pairs(
                done.outcome->Frames_0[0],
                value.unit,
                state.metadata[0].value,
            ) && done.state.keyframe == GopState::KeyframeCached
        }),
{
    lemma_single_unit_is_delivered(
        CorrelatorState {
            units: state.units.push(Pending { value, queued_at: now }),
            ..state
        },
    );
    assert(state.units.push(Pending { value, queued_at: now })[0].value == value);
}

/// A record whose unit waits for it is delivered with it at once, in the same way.
pub proof fn law_matching_records_are_delivered_at_once(
    state: CorrelatorState,
    record: FrameMetadata,
    now: Instant,
)
    requires
        state.units.len() == 1,
        state.metadata.len() == 0,
        records_ahead(state, state.units[0].value.unit) == Some(1int),
        record.generation@ == state.units[0].value.unit.generation@,
    ensures
        ({
            let unit = state.units[0].value.unit;
            let done = metadata_pushed(state, record, now);
            let waits = state.keyframe == GopState::Recovering && unit.kind == FrameKind::Delta;
            &&& done.outcome is Frames
            &&& done.unmatched == 0
            &&& done.state.units.len() == 0
            &&& done.state.metadata.len() == 0
            &&& waits ==> done.outcome->Frames_0.len() == 0
            &&& !waits ==> done.outcome->Frames_0.len() == 1 && pairs(
                done.outcome->Frames_0[0],
                unit,
                record,
            )
        }),
{
    lemma_single_unit_is_delivered(
        CorrelatorState {
            metadata: state.metadata.push(Pending { value: record, queued_at: now }),
            ..state
        },
    );
}

proof fn lemma_single_unit_is_delivered(state: CorrelatorState)
    requires
        state.units.len() == 1,
        state.metadata.len() > 0,
        records_ahead(state, state.units[0].value.unit) == Some(1int),
        state.metadata[0].value.generation@ == state.units[0].value.unit.generation@,
    ensures
        drained(state, Seq::empty(), 0) == (Correlated {
            state: paired(state, 0),
            outcome: OutcomeView::Frames(delivered(state, Seq::empty(), 0)),
            unmatched: 0,
        }),
        paired(state, 0).units.len() == 0,
        paired(state, 0).metadata == state.metadata.skip(1),
{
    let unit = state.units[0].value.unit;
    assert(nth_of_generation(state.metadata, unit.generation, 1, 0) == Search::At(0));
    let next = paired(state, 0);
    assert(next.units.len() == 0);
    assert(drained(next, delivered(state, Seq::empty(), 0), 0) == (Correlated {
        state: next,
        outcome: OutcomeView::Frames(delivered(state, Seq::empty(), 0)),
        unmatched: 0,
    }));
}

/// Nothing waits that could be delivered: where a unit is left pending, its record has
/// not come yet.
pub proof fn law_only_unmatched_units_wait(
    state: CorrelatorState,
    samples: Seq<VideoSample>,
    unmatched: int,
)
    ensures
        ({
            let done = drained(state, samples, unmatched);
            done.outcome is Frames && done.state.units.len() > 0 ==> {
                let unit = done.state.units[0].value.unit;
                &&& records_ahead(done.state, unit) is Some
                &&& nth_of_generation(
                    done.state.metadata,
                    unit.generation,
                    records_ahead(done.state, unit)->0,
                    0,
                ) is NotYetArrived
            }
        }),
    decreases state.units.len(),
{
    if state.units.len() > 0 {
        let unit = state.units[0].value.unit;
        if let Some(count) = records_ahead(state, unit) {
            if let Search::At(index) = nth_of_generation(
                state.metadata,
                unit.generation,
                count,
                0,
            ) {
                law_only_unmatched_units_wait(
                    paired(state, index),
                    delivered(state, samples, index),
                    saturated(unmatched + index),
                );
            }
        }
    }
}

/// Up to 120 records and 120 units wait; one more gives everything up and says which of
/// the two there were too many of. A record that is refused counts as unmatched.
pub proof fn law_backlogs_give_everything_up(
    state: CorrelatorState,
    record: FrameMetadata,
    unit: PendingUnit,
    now: Instant,
)
    requires
        state.metadata.len() <= 120,
        state.units.len() <= 120,
    ensures
        metadata_pushed(state, record, now).outcome == OutcomeView::Resync(
            ResyncReason::MetadataBacklog,
        ) <==> state.metadata.len() == 120,
        unit_pushed(state, unit, now).outcome == OutcomeView::Resync(ResyncReason::UnitBacklog)
            <==> state.units.len() == 120,
        state.metadata.len() == 120 ==> metadata_pushed(state, record, now).unmatched == 121,
        state.units.len() == 120 ==> unit_pushed(state, unit, now).unmatched
            == state.metadata.len(),
{
    lemma_drained_has_other_reasons(
        CorrelatorState {
            metadata: state.metadata.push(Pending { value: record, queued_at: now }),
            ..state
        },
        Seq::empty(),
        0,
    );
    lemma_drained_has_other_reasons(
        CorrelatorState {
            units: state.units.push(Pending { value: unit, queued_at: now }),
            ..state
        },
        Seq::empty(),
        0,
    );
}

proof fn lemma_drained_has_other_reasons(
    state: CorrelatorState,
    samples: Seq<VideoSample>,
    unmatched: int,
)
    ensures
        drained(state, samples, unmatched).outcome matches OutcomeView::Resync(reason)
            ==> reason is TimestampGap || reason is MetadataGenerationPassed,
    decreases state.units.len(),
{
    if state.units.len() > 0 {
        let unit = state.units[0].value.unit;
        if let Some(count) = records_ahead(state, unit) {
            if let Search::At(index) = nth_of_generation(
                state.metadata,
                unit.generation,
                count,
                0,
            ) {
                lemma_drained_has_other_reasons(
                    paired(state, index),
                    delivered(state, samples, index),
                    saturated(unmatched + index),
                );
            }
        }
    }
}

/// The oldest of what waits is given two seconds; with nothing waiting there is no
/// deadline.
pub proof fn law_the_oldest_is_given_two_seconds(correlator: Correlator)
    ensures
        correlator.spec_deadline() is None <==> correlator@.metadata.len() == 0
            && correlator@.units.len() == 0,
        correlator.spec_deadline() matches Some(deadline) ==> {
            &&& correlator@.metadata.len() > 0 ==> deadline.nanos
                <= correlator@.metadata[0].queued_at.nanos + 2_000_000_000
            &&& correlator@.units.len() > 0 ==> deadline.nanos <= correlator@.units[0].queued_at.nanos
                + 2_000_000_000
            &&& deadline.nanos == u64::MAX || (correlator@.metadata.len() > 0 && deadline.nanos
                == correlator@.metadata[0].queued_at.nanos + 2_000_000_000) || (
            correlator@.units.len() > 0 && deadline.nanos == correlator@.units[0].queued_at.nanos
                + 2_000_000_000)
        },
{
}

/// What has waited too long is given up as a whole, which is said, and every record that
/// waited counts as unmatched; the generation is remembered.
pub proof fn law_late_records_are_given_up(state: CorrelatorState)
    requires
        state.metadata.len() <= 120,
    ensures
        given_up(state).outcome == OutcomeView::Resync(ResyncReason::UnmatchedDeadline),
        given_up(state).unmatched == state.metadata.len(),
        given_up(state).state.metadata.len() == 0,
        given_up(state).state.units.len() == 0,
        given_up(state).state.keyframe == GopState::Recovering,
        given_up(state).state.anchor == TimestampAnchor::Needed,
        given_up(state).state.last_generation == state.last_generation,
{
}

} // verus!
