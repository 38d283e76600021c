//! The captured frames on their way to the encoder.
//!
//! Two buffers are enough: one frame is being encoded while the latest captured
//! one waits. A newer capture replaces the waiting frame in its own buffer.

use crate::clock::Instant;
use crate::encoder::{encoder_transition, EncoderConfig, EncoderTransition, VideoError};
use crate::text::{decimal, decimal_text};
use crate::values::{FrameMetadata, Generation};
use vstd::prelude::*;

verus! {

pub const SLOT_COUNT: usize = 2;

/// The largest generation: the encoder takes it as a signed 32-bit number.
pub const MAX_MEDIA_GENERATION: u32 = 0x7fff_ffff;

/// How often in a row an encoder may fail to start.
pub const MAX_CONSECUTIVE_SPAWN_FAILURES: u8 = 6;

/// A captured frame, still in the compositor's own memory.
#[derive(Debug)]
pub struct CapturedFrame<'a> {
    pub pixels: &'a [u8],
    pub metadata: FrameMetadata,
    pub config: EncoderConfig,
}

impl<'a> CapturedFrame<'a> {
    pub fn new(pixels: &'a [u8], metadata: FrameMetadata, config: EncoderConfig) -> (r: Self)
        ensures
            r.pixels@ == pixels@,
            r.metadata == metadata,
            r.config == config,
    {
        CapturedFrame { pixels, metadata, config }
    }

    pub open spec fn model(self) -> FrameModel {
        FrameModel { pixels: self.pixels@, metadata: self.metadata, config: self.config }
    }
}

/// A frame in a buffer of the pool.
#[derive(Debug)]
pub struct RawFrame {
    pub pixels: Vec<u8>,
    pub metadata: FrameMetadata,
    pub config: EncoderConfig,
}

#[verifier::ext_equal]
pub struct FrameModel {
    pub pixels: Seq<u8>,
    pub metadata: FrameMetadata,
    pub config: EncoderConfig,
}

impl RawFrame {
    pub open spec fn view(&self) -> FrameModel {
        FrameModel { pixels: self.pixels@, metadata: self.metadata, config: self.config }
    }
}

#[derive(Debug)]
pub enum FrameSlot {
    /// An unused buffer, kept for the next frame.
    Free(Vec<u8>),
    Pending(RawFrame),
    /// The encoder has taken the frame out.
    Encoding,
}

#[derive(Clone, Copy, Debug, PartialEq, Eq, Structural)]
pub enum SubmitResult {
    Queued,
    ReplacedPending,
}

#[derive(Debug)]
pub struct Pool {
    pub slots: Vec<FrameSlot>,
    pub pending: Option<usize>,
    pub encoding: Option<usize>,
    pub next_free: usize,
    pub generation: Generation,
    pub stopping: bool,
    /// Why the notifications of the encoder came to an end.
    pub notification_failure: Option<&'static str>,
}

/// What the encoder's thread and the compositor see of the pool.
#[verifier::ext_equal]
pub struct PoolModel {
    pub pending: Option<FrameModel>,
    pub pending_slot: Option<usize>,
    pub encoding: Option<usize>,
    pub next_free: int,
    pub generation: u32,
    pub stopping: bool,
    pub notification_failure: Option<&'static str>,
}

/// The first slot from `from` on, in turn, that holds no frame.
pub open spec fn free_slot(pending: Option<usize>, encoding: Option<usize>, from: int) -> int {
    if pending != Some(from as usize) && encoding != Some(from as usize) {
        from
    } else {
        1 - from
    }
}

impl PoolModel {
    pub open spec fn accepts(self, frame: FrameModel) -> bool {
        &&& frame.config.raw_pixels() <= crate::encoder::MAX_RAW_PIXELS
        &&& frame.pixels.len() == 4 * frame.config.raw_pixels()
        &&& frame.metadata.generation@ == self.generation
    }

    pub open spec fn submitted(self, frame: FrameModel) -> Self {
        match self.pending_slot {
            Some(slot) => PoolModel { pending: Some(frame), ..self },
            None => {
                let slot = free_slot(None, self.encoding, self.next_free);
                PoolModel {
                    pending: Some(frame),
                    pending_slot: Some(slot as usize),
                    next_free: (slot + 1) % 2,
                    ..self
                }
            },
        }
    }

    pub open spec fn taken(self) -> Self {
        PoolModel { pending: None, pending_slot: None, encoding: self.pending_slot, ..self }
    }

    pub open spec fn released(self) -> Self {
        PoolModel { encoding: None, ..self }
    }

    /// Whether a frame whose encoder could not be started is tried again: it must
    /// still be the latest one of the current generation.
    pub open spec fn retries(self, frame: FrameModel) -> bool {
        &&& !self.stopping
        &&& self.pending_slot is None
        &&& frame.metadata.generation@ == self.generation
    }

    pub open spec fn requeued(self, slot: usize, frame: FrameModel) -> Self {
        if self.retries(frame) {
            PoolModel {
                pending: Some(frame),
                pending_slot: Some(slot),
                encoding: None,
                ..self
            }
        } else {
            self.released()
        }
    }

    pub open spec fn follows(self, generation: u32) -> bool {
        generation == self.generation + 1 && generation <= MAX_MEDIA_GENERATION
    }

    pub open spec fn in_generation(self, generation: u32) -> Self {
        PoolModel { pending: None, pending_slot: None, generation, ..self }
    }
}

impl Pool {
    pub open spec fn wf(&self) -> bool {
        &&& self.slots.len() == SLOT_COUNT
        &&& self.next_free < SLOT_COUNT
        &&& self.pending matches Some(slot) ==> slot < SLOT_COUNT
        &&& self.encoding matches Some(slot) ==> slot < SLOT_COUNT
        &&& forall|i: int|
            0 <= i < SLOT_COUNT ==> ((#[trigger] self.slots[i]) is Pending <==> self.pending
                == Some(i as usize))
        &&& forall|i: int|
            0 <= i < SLOT_COUNT ==> ((#[trigger] self.slots[i]) is Encoding <==> self.encoding
                == Some(i as usize))
    }

    pub open spec fn view(&self) -> PoolModel {
        PoolModel {
            pending: match self.pending {
                Some(slot) => Some(self.slots[slot as int]->Pending_0@),
                None => None,
            },
            pending_slot: self.pending,
            encoding: self.encoding,
            next_free: self.next_free as int,
            generation: self.generation@,
            stopping: self.stopping,
            notification_failure: self.notification_failure,
        }
    }

    pub fn new(generation: Generation) -> (r: Self)
        ensures
            r.wf(),
            r@ == (PoolModel {
                pending: None,
                pending_slot: None,
                encoding: None,
                next_free: 0,
                generation: generation@,
                stopping: false,
                notification_failure: None,
            }),
    {
        let mut slots: Vec<FrameSlot> = Vec::new();
        slots.push(FrameSlot::Free(Vec::new()));
        slots.push(FrameSlot::Free(Vec::new()));
        Pool {
            slots,
            pending: None,
            encoding: None,
            next_free: 0,
            generation,
            stopping: false,
            notification_failure: None,
        }
    }

    /// Puts something else into a slot and hands out what it held.
    fn exchange(&mut self, slot: usize, value: FrameSlot) -> (previous: FrameSlot)
        requires
            slot < old(self).slots.len(),
        ensures
            previous == old(self).slots[slot as int],
            final(self).slots@ == old(self).slots@.update(slot as int, value),
            final(self).pending == old(self).pending,
            final(self).encoding == old(self).encoding,
            final(self).next_free == old(self).next_free,
            final(self).generation == old(self).generation,
            final(self).stopping == old(self).stopping,
            final(self).notification_failure == old(self).notification_failure,
    {
        let mut other: FrameSlot = value;
        std::mem::swap(&mut self.slots[slot], &mut other);
        other
    }

    /// Takes a captured frame in. It must belong to the current generation, be at
    /// most as large as a 4K picture, and come with as many pixels as its settings
    /// say. It replaces a frame that still waits, in the same buffer.
    pub fn submit(&mut self, frame: CapturedFrame<'_>) -> (r: Result<SubmitResult, VideoError>)
        requires
            old(self).wf(),
        ensures
            final(self).wf(),
            match r {
                Ok(result) => old(self)@.accepts(frame.model()) && final(self)@
                    == old(self)@.submitted(frame.model()) && result == if old(self).pending is Some {
                    SubmitResult::ReplacedPending
                } else {
                    SubmitResult::Queued
                },
                Err(VideoError::InvalidFrame) => !old(self)@.accepts(frame.model())
                    && *final(self) == *old(self),
            },
    {
        let bytes: usize = match frame.config.validate() {
            Ok(bytes) => bytes,
            Err(error) => return Err(error),
        };
        if frame.pixels.len() != bytes || frame.metadata.generation.get() != self.generation.get() {
            return Err(VideoError::InvalidFrame);
        }
        let (slot, result): (usize, SubmitResult) = match self.pending {
            Some(slot) => (slot, SubmitResult::ReplacedPending),
            None => {
                let first: usize = self.next_free;
                let busy: bool = match self.encoding {
                    Some(taken) => taken == first,
                    None => false,
                };
                let slot: usize = if busy {
                    1 - first
                } else {
                    first
                };
                self.next_free = (slot + 1) % 2;
                (slot, SubmitResult::Queued)
            },
        };
        assert(!(self.slots[slot as int] is Encoding));
        let ghost slots = self.slots@;
        let mut pixels: Vec<u8> = match self.exchange(slot, FrameSlot::Encoding) {
            FrameSlot::Free(storage) => storage,
            FrameSlot::Pending(waiting) => waiting.pixels,
            FrameSlot::Encoding => Vec::new(),
        };
        pixels.clear();
        pixels.extend_from_slice(frame.pixels);
        assert(pixels@ =~= frame.pixels@);
        self.exchange(
            slot,
            FrameSlot::Pending(
                RawFrame { pixels, metadata: frame.metadata, config: frame.config },
            ),
        );
        self.pending = Some(slot);
        assert(self.slots[slot as int]->Pending_0@ =~= frame.model());
        assert(self.slots[1 - slot as int] == slots[1 - slot as int]);
        assert(self@ =~= old(self)@.submitted(frame.model()));
        Ok(result)
    }

    /// Hands the waiting frame to the encoder, unless the encoder is to stop.
    pub fn take_pending_frame(&mut self) -> (r: Option<(usize, RawFrame)>)
        requires
            old(self).wf(),
            old(self).encoding is None,
        ensures
            final(self).wf(),
            match r {
                Some((slot, frame)) => !old(self).stopping && old(self).pending == Some(slot)
                    && old(self)@.pending == Some(frame@) && final(self)@ == old(self)@.taken(),
                None => (old(self).stopping || old(self).pending is None) && *final(self) == *old(self),
            },
    {
        if self.stopping {
            return None;
        }
        match self.pending {
            Some(slot) => {
                assert(self.slots[slot as int] is Pending);
                let ghost slots = self.slots@;
                match self.exchange(slot, FrameSlot::Encoding) {
                    FrameSlot::Pending(frame) => {
                        self.pending = None;
                        self.encoding = Some(slot);
                        assert(self.slots[1 - slot as int] == slots[1 - slot as int]);
                        Some((slot, frame))
                    },
                    FrameSlot::Free(storage) => None,
                    FrameSlot::Encoding => None,
                }
            },
            None => None,
        }
    }

    /// Gives back the buffer of a frame that the encoder is done with.
    pub fn release_slot(&mut self, slot: usize, frame: RawFrame)
        requires
            old(self).wf(),
            old(self).encoding == Some(slot),
        ensures
            final(self).wf(),
            final(self)@ == old(self)@.released(),
            final(self).slots[slot as int] == FrameSlot::Free(frame.pixels),
    {
        let ghost slots = self.slots@;
        self.exchange(slot, FrameSlot::Free(frame.pixels));
        self.encoding = None;
        assert(self.slots[1 - slot as int] == slots[1 - slot as int]);
        assert(self@ =~= old(self)@.released());
    }

    /// Lets a frame wait again after its encoder could not be started, unless a newer
    /// frame waits, the generation has changed or the encoder is to stop.
    pub fn requeue_after_spawn_failure(&mut self, slot: usize, frame: RawFrame)
        requires
            old(self).wf(),
            old(self).encoding == Some(slot),
        ensures
            final(self).wf(),
            final(self)@ == old(self)@.requeued(slot, frame@),
    {
        let retries: bool = !self.stopping && self.pending.is_none()
            && frame.metadata.generation.get() == self.generation.get();
        if !retries {
            self.release_slot(slot, frame);
            return ;
        }
        let ghost slots = self.slots@;
        self.exchange(slot, FrameSlot::Pending(frame));
        self.encoding = None;
        self.pending = Some(slot);
        assert(self.slots[1 - slot as int] == slots[1 - slot as int]);
        assert(self@ =~= old(self)@.requeued(slot, frame@));
    }

    /// Starts the next generation, which must be the current one's successor. A frame
    /// that waits belongs to the old one and is dropped; its buffer is kept.
    pub fn set_generation(&mut self, generation: Generation) -> (r: Result<(), VideoError>)
        requires
            old(self).wf(),
        ensures
            final(self).wf(),
            match r {
                Ok(()) => {
                    &&& old(self)@.follows(generation@)
                    &&& final(self)@ == old(self)@.in_generation(generation@)
                    &&& final(self).slots@ == match old(self).pending {
                        Some(slot) => old(self).slots@.update(
                            slot as int,
                            FrameSlot::Free(old(self).slots[slot as int]->Pending_0.pixels),
                        ),
                        None => old(self).slots@,
                    }
                },
                Err(VideoError::InvalidFrame) => !old(self)@.follows(generation@) && *final(self)
                    == *old(self),
            },
    {
        let current: u32 = self.generation.get();
        let next: u32 = generation.get();
        if next > MAX_MEDIA_GENERATION || current >= MAX_MEDIA_GENERATION || next != current + 1 {
            return Err(VideoError::InvalidFrame);
        }
        self.generation = generation;
        if let Some(slot) = self.pending {
            assert(self.slots[slot as int] is Pending);
            let ghost slots = self.slots@;
            let storage: Vec<u8> = match self.exchange(slot, FrameSlot::Encoding) {
                FrameSlot::Pending(frame) => frame.pixels,
                FrameSlot::Free(storage) => storage,
                FrameSlot::Encoding => Vec::new(),
            };
            self.exchange(slot, FrameSlot::Free(storage));
            self.pending = None;
            assert(self.slots[1 - slot as int] == slots[1 - slot as int]);
            assert(self.slots@ =~= slots.update(slot as int, self.slots[slot as int]));
        }
        assert(self@ =~= old(self)@.in_generation(generation@));
        Ok(())
    }

    /// Tells the encoder to stop.
    pub fn stop(&mut self)
        requires
            old(self).wf(),
        ensures
            final(self).wf(),
            final(self)@ == (PoolModel { stopping: true, ..old(self)@ }),
    {
        self.stopping = true;
        assert(self@ =~= (PoolModel { stopping: true, ..old(self)@ }));
    }
}

/// The encoder only ever sees the latest frame that was captured before it asked.
pub proof fn law_encoder_gets_the_latest_frame(
    pool: PoolModel,
    first: FrameModel,
    second: FrameModel,
)
    ensures
        pool.submitted(first).submitted(second).pending == Some(second),
        pool.submitted(first).submitted(second).encoding == pool.encoding,
        pool.submitted(first).submitted(second).pending_slot == pool.submitted(first).pending_slot,
{
}

/// A frame of an earlier generation is neither taken in nor tried again, and none
/// waits after the generation has changed.
pub proof fn law_old_generations_are_not_encoded(
    pool: PoolModel,
    frame: FrameModel,
    slot: usize,
    generation: u32,
)
    requires
        pool.follows(generation),
        frame.metadata.generation@ <= pool.generation,
    ensures
        !pool.in_generation(generation).accepts(frame),
        pool.in_generation(generation).pending is None,
        pool.in_generation(generation).requeued(slot, frame).pending is None,
{
}

/// Why a frame could not be written to the encoder.
#[derive(Debug)]
pub enum FrameWriteError<E> {
    Io(E),
    GenerationChanged { observed: Generation, frame: Generation },
    Stopping,
}

impl<E> FrameWriteError<E> {
    /// The error of the pipe, where that is what failed.
    pub fn source(&self) -> (r: Option<&E>)
        ensures
            match *self {
                FrameWriteError::Io(error) => r == Some(&error),
                _ => r is None,
            },
    {
        match self {
            FrameWriteError::Io(error) => Some(error),
            FrameWriteError::GenerationChanged { .. } => None,
            FrameWriteError::Stopping => None,
        }
    }
}

/// What an attempt to write to the encoder's pipe gave.
#[derive(Debug)]
pub enum WriteAttempt<E> {
    /// Nothing was tried yet.
    Start,
    Wrote(usize),
    /// The pipe is full, or a signal came in between.
    Blocked,
    Failed(E),
}

/// What to do next about a frame that is being written.
#[derive(Debug)]
pub enum WriteStep<E> {
    /// Write the frame's bytes from here on.
    Write { from: usize },
    /// Wait until the pipe takes bytes again, for one poll interval at most.
    Wait,
    Done,
    Fail { error: FrameWriteError<E> },
}

/// A frame that is being written to the encoder.
#[derive(Clone, Copy, Debug, PartialEq, Eq, Structural)]
pub struct FrameWrite {
    pub generation: Generation,
    pub written: usize,
    pub total: usize,
}

pub open spec fn interrupts<E>(pool: PoolModel, frame: Generation, error: FrameWriteError<E>) ->
    bool {
    if pool.stopping {
        error is Stopping
    } else {
        pool.generation != frame@ && (error matches FrameWriteError::GenerationChanged {
            observed,
            frame: of,
        } && observed@ == pool.generation && of == frame)
    }
}

/// How many bytes an attempt wrote.
pub open spec fn wrote<E>(attempt: WriteAttempt<E>) -> int {
    match attempt {
        WriteAttempt::Wrote(count) => count as int,
        _ => 0,
    }
}

/// Whether a step is what follows an attempt, given what is written after it.
pub open spec fn goes_on<E>(
    write: FrameWrite,
    pool: PoolModel,
    attempt: WriteAttempt<E>,
    step: WriteStep<E>,
) -> bool {
    match attempt {
        WriteAttempt::Failed(error) => step == (WriteStep::Fail {
            error: FrameWriteError::Io(error),
        }),
        _ => if write.written == write.total {
            step is Done
        } else if pool.stopping || pool.generation != write.generation@ {
            step matches WriteStep::Fail { error } && interrupts(pool, write.generation, error)
        } else if attempt is Blocked {
            step is Wait
        } else {
            step == (WriteStep::<E>::Write { from: write.written })
        },
    }
}

impl FrameWrite {
    pub open spec fn wf(self) -> bool {
        self.written <= self.total
    }

    pub fn new(generation: Generation, total: usize) -> (r: Self)
        ensures
            r == (FrameWrite { generation, written: 0, total }),
            r.wf(),
    {
        FrameWrite { generation, written: 0, total }
    }

    /// Counts what an attempt wrote, and says what follows: an error of the pipe ends
    /// the write, and so does a stop or a change of the generation, even in the
    /// middle of the frame.
    pub fn advance<E>(&mut self, pool: &Pool, attempt: WriteAttempt<E>) -> (step: WriteStep<E>)
        requires
            old(self).wf(),
            attempt matches WriteAttempt::Wrote(count) ==> old(self).written + count <= old(self).total,
        ensures
            final(self).wf(),
            final(self).generation == old(self).generation,
            final(self).total == old(self).total,
            final(self).written == match attempt {
                WriteAttempt::Wrote(count) => old(self).written + count,
                _ => old(self).written as int,
            },
            match attempt {
                WriteAttempt::Failed(error) => step == (WriteStep::Fail {
                    error: FrameWriteError::Io(error),
                }),
                _ => if final(self).written == final(self).total {
                    step is Done
                } else if pool@.stopping || pool@.generation != final(self).generation@ {
                    step matches WriteStep::Fail { error } && interrupts(
                        pool@,
                        final(self).generation,
                        error,
                    )
                } else if attempt is Blocked {
                    step is Wait
                } else {
                    step == (WriteStep::<E>::Write { from: final(self).written })
                },
            },
            final(self).written == old(self).written + wrote(attempt),
            goes_on(*final(self), pool@, attempt, step),
    {
        let blocked: bool = match attempt {
            WriteAttempt::Failed(error) => {
                return WriteStep::Fail { error: FrameWriteError::Io(error) };
            },
            WriteAttempt::Wrote(count) => {
                self.written = self.written + count;
                false
            },
            WriteAttempt::Blocked => true,
            WriteAttempt::Start => false,
        };
        if self.written == self.total {
            return WriteStep::Done;
        }
        if pool.stopping {
            return WriteStep::Fail { error: FrameWriteError::Stopping };
        }
        if pool.generation.get() != self.generation.get() {
            return WriteStep::Fail {
                error: FrameWriteError::GenerationChanged {
                    observed: pool.generation,
                    frame: self.generation,
                },
            };
        }
        if blocked {
            WriteStep::Wait
        } else {
            WriteStep::Write { from: self.written }
        }
    }
}

/// What an attempt to queue a notification gave.
#[derive(Clone, Copy, Debug, PartialEq, Eq, Structural)]
pub enum NotifyAttempt {
    Sent,
    Full,
    Disconnected,
}

/// What follows an attempt to queue a notification.
#[derive(Clone, Copy, Debug, PartialEq, Eq, Structural)]
pub enum NotifyStep {
    /// The compositor is woken: the notification is in the queue.
    Sent,
    /// The queue is full: try again after a pause.
    Retry,
    /// The notification is lost. The compositor is woken where `wake` says so.
    GiveUp { wake: bool },
}

/// What follows an attempt to queue a notification.
pub open spec fn notify_step(
    stopping: bool,
    attempt: NotifyAttempt,
    now: Instant,
    deadline: Instant,
) -> NotifyStep {
    match attempt {
        NotifyAttempt::Sent => NotifyStep::Sent,
        NotifyAttempt::Disconnected => NotifyStep::GiveUp { wake: false },
        NotifyAttempt::Full => if stopping {
            NotifyStep::GiveUp { wake: false }
        } else if now.nanos >= deadline.nanos {
            NotifyStep::GiveUp { wake: true }
        } else {
            NotifyStep::Retry
        },
    }
}

pub open spec fn queue_full_failure() -> Seq<char> {
    "video notification queue remained full"@
}

impl Pool {
    /// Decides about a notification for the compositor. A queue that stays full until
    /// the deadline is a failure of its own, which the compositor finds in the pool;
    /// a stop is never held up by it.
    pub fn notify(&mut self, attempt: NotifyAttempt, now: Instant, deadline: Instant) -> (step:
        NotifyStep)
        requires
            old(self).wf(),
        ensures
            final(self).wf(),
            step == match attempt {
                NotifyAttempt::Sent => NotifyStep::Sent,
                NotifyAttempt::Disconnected => NotifyStep::GiveUp { wake: false },
                NotifyAttempt::Full => if old(self).stopping {
                    NotifyStep::GiveUp { wake: false }
                } else if now.nanos >= deadline.nanos {
                    NotifyStep::GiveUp { wake: true }
                } else {
                    NotifyStep::Retry
                },
            },
            step == notify_step(old(self).stopping, attempt, now, deadline),
            step == (NotifyStep::GiveUp { wake: true }) ==> (final(self).notification_failure matches Some(text) && text@ == queue_full_failure()) && final(self)@ == (PoolModel { notification_failure: final(self).notification_failure, ..old(self)@ }),
            step != (NotifyStep::GiveUp { wake: true }) ==> *final(self) == *old(self),
    {
        match attempt {
            NotifyAttempt::Sent => NotifyStep::Sent,
            NotifyAttempt::Disconnected => NotifyStep::GiveUp { wake: false },
            NotifyAttempt::Full => {
                if self.stopping {
                    NotifyStep::GiveUp { wake: false }
                } else if now.nanos >= deadline.nanos {
                    self.notification_failure = Some("video notification queue remained full");
                    assert(self@ =~= (PoolModel {
                        notification_failure: self.notification_failure,
                        ..old(self)@
                    }));
                    NotifyStep::GiveUp { wake: true }
                } else {
                    NotifyStep::Retry
                }
            },
        }
    }
}

/// What the encoder's thread does with a frame that it took.
#[derive(Clone, Copy, Debug, PartialEq, Eq, Structural)]
pub enum FramePlan {
    /// The running process takes it.
    Write,
    /// A process is started for it, after the running one, if any, was stopped.
    Spawn,
    /// The running process is stopped, the compositor is asked for a new generation,
    /// and the frame is dropped.
    RequestNewGeneration,
    /// The frame is dropped: its generation has no encoder any more.
    Drop,
}

/// What follows when an encoder could not be started.
#[derive(Debug)]
pub enum SpawnFailure {
    /// The frame waits again, and the next attempt comes after this many
    /// nanoseconds.
    Retry { delay_nanos: u64 },
    /// The encoder is given up, with this reason.
    Fatal { reason: String },
}

pub open spec fn spawn_reason(error: Seq<char>) -> Seq<char> {
    "start video encoder after "@ + decimal(MAX_CONSECUTIVE_SPAWN_FAILURES as nat) + " attempts: "@
        + error
}

/// What a running encoder process was started with.
#[derive(Clone, Copy, Debug, PartialEq, Eq, Structural)]
pub struct ActiveEncoder {
    pub config: EncoderConfig,
    pub generation: Generation,
}

/// The encoder process of the present generation.
#[derive(Clone, Copy, Debug, PartialEq, Eq, Structural)]
pub struct EncoderWorker {
    pub active: Option<ActiveEncoder>,
    /// The generation whose process is gone and is not started again.
    pub retired: Option<Generation>,
    /// The failed starts since the last one that succeeded.
    pub failures: u8,
}

impl EncoderWorker {
    pub open spec fn wf(self) -> bool {
        self.failures < MAX_CONSECUTIVE_SPAWN_FAILURES
    }

    pub open spec fn is_retired(self, generation: Generation) -> bool {
        self.retired matches Some(retired) && retired@ == generation@
    }

    pub open spec fn plan_for(self, config: EncoderConfig, generation: Generation) -> FramePlan {
        match self.active {
            Some(active) => match crate::encoder::transition_of(
                active.config,
                active.generation,
                config,
                generation,
            ) {
                EncoderTransition::Reuse => FramePlan::Write,
                EncoderTransition::ReplaceForGeneration => FramePlan::Spawn,
                EncoderTransition::RequestNewGeneration => FramePlan::RequestNewGeneration,
            },
            None => if self.is_retired(generation) {
                FramePlan::Drop
            } else {
                FramePlan::Spawn
            },
        }
    }

    pub open spec fn after_frame(self, config: EncoderConfig, generation: Generation) -> Self {
        match self.plan_for(config, generation) {
            FramePlan::Spawn => EncoderWorker { active: None, ..self },
            FramePlan::RequestNewGeneration => self.without_process(),
            _ => self,
        }
    }

    /// The worker after a process was started.
    pub open spec fn started(self, config: EncoderConfig, generation: Generation) -> Self {
        EncoderWorker {
            active: Some(ActiveEncoder { config, generation }),
            failures: 0,
            ..self
        }
    }

    /// Whether one more failed start is one too many.
    pub open spec fn gives_up(self) -> bool {
        self.failures + 1 >= MAX_CONSECUTIVE_SPAWN_FAILURES
    }

    /// The worker after a process could not be started.
    pub open spec fn after_failed_start(self) -> Self {
        if self.gives_up() {
            self
        } else {
            EncoderWorker { failures: (self.failures + 1) as u8, ..self }
        }
    }

    /// The worker after its process has ended: its generation gets no other one.
    pub open spec fn without_process(self) -> Self {
        match self.active {
            Some(active) => EncoderWorker {
                active: None,
                retired: Some(active.generation),
                ..self
            },
            None => self,
        }
    }

    pub fn new() -> (r: Self)
        ensures
            r.wf(),
            r == (EncoderWorker { active: None, retired: None, failures: 0 }),
    {
        EncoderWorker { active: None, retired: None, failures: 0 }
    }

    /// Decides about a frame. A process serves one generation with one set of
    /// settings, and one that is gone is replaced only in a new generation.
    pub fn frame(&mut self, config: EncoderConfig, generation: Generation) -> (plan: FramePlan)
        requires
            old(self).wf(),
        ensures
            final(self).wf(),
            plan == old(self).plan_for(config, generation),
            *final(self) == match plan {
                FramePlan::Spawn => EncoderWorker { active: None, ..*old(self) },
                FramePlan::RequestNewGeneration => EncoderWorker {
                    active: None,
                    retired: Some(old(self).active->Some_0.generation),
                    ..*old(self)
                },
                _ => *old(self),
            },
            *final(self) == old(self).after_frame(config, generation),
    {
        match self.active {
            Some(active) => match encoder_transition(
                active.config,
                active.generation,
                config,
                generation,
            ) {
                EncoderTransition::Reuse => FramePlan::Write,
                EncoderTransition::ReplaceForGeneration => {
                    self.active = None;
                    FramePlan::Spawn
                },
                EncoderTransition::RequestNewGeneration => {
                    self.active = None;
                    self.retired = Some(active.generation);
                    FramePlan::RequestNewGeneration
                },
            },
            None => {
                let retired: bool = match self.retired {
                    Some(retired) => retired.get() == generation.get(),
                    None => false,
                };
                if retired {
                    FramePlan::Drop
                } else {
                    FramePlan::Spawn
                }
            },
        }
    }

    /// A process was started for a frame.
    pub fn spawned(&mut self, config: EncoderConfig, generation: Generation)
        requires
            old(self).wf(),
        ensures
            final(self).wf(),
            *final(self) == (EncoderWorker {
                active: Some(ActiveEncoder { config, generation }),
                retired: old(self).retired,
                failures: 0,
            }),
            *final(self) == old(self).started(config, generation),
    {
        self.active = Some(ActiveEncoder { config, generation });
        self.failures = 0;
    }

    /// A process could not be started. The attempts are bounded.
    pub fn spawn_failed(&mut self, delay_nanos: u64, error: &str) -> (r: SpawnFailure)
        requires
            old(self).wf(),
        ensures
            final(self).wf(),
            final(self).active == old(self).active,
            final(self).retired == old(self).retired,
            r is Fatal <==> old(self).failures >= 5,
            *final(self) == old(self).after_failed_start(),
            r is Fatal <==> old(self).gives_up(),
            if old(self).failures + 1 < MAX_CONSECUTIVE_SPAWN_FAILURES {
                r == (SpawnFailure::Retry { delay_nanos }) && final(self).failures == old(self).failures + 1
            } else {
                (r matches SpawnFailure::Fatal { reason } && reason@ == spawn_reason(error@))
                    && final(self).failures == old(self).failures
            },
    {
        if self.failures + 1 < MAX_CONSECUTIVE_SPAWN_FAILURES {
            self.failures = self.failures + 1;
            return SpawnFailure::Retry { delay_nanos };
        }
        let mut reason: String = "start video encoder after ".to_owned();
        reason.append(decimal_text(MAX_CONSECUTIVE_SPAWN_FAILURES as u128).as_str());
        reason.append(" attempts: ");
        reason.append(error);
        SpawnFailure::Fatal { reason }
    }

    /// The running process ended by itself. Returns the generation for which the
    /// compositor is asked to start a new one.
    pub fn exited(&mut self) -> (r: Option<Generation>)
        requires
            old(self).wf(),
        ensures
            final(self).wf(),
            r == match old(self).active {
                Some(active) => Some(active.generation),
                None => None,
            },
            *final(self) == match old(self).active {
                Some(active) => EncoderWorker {
                    active: None,
                    retired: Some(active.generation),
                    failures: old(self).failures,
                },
                None => *old(self),
            },
            *final(self) == old(self).without_process(),
    {
        match self.active {
            Some(active) => {
                self.active = None;
                self.retired = Some(active.generation);
                Some(active.generation)
            },
            None => None,
        }
    }
}

/// After a process has ended or was stopped for new settings, no frame of its
/// generation starts another one.
pub proof fn law_no_second_stream_in_a_generation(
    worker: EncoderWorker,
    config: EncoderConfig,
    generation: Generation,
)
    requires
        worker.active is None,
        worker.is_retired(generation),
    ensures
        worker.plan_for(config, generation) == FramePlan::Drop,
{
}

/// A frame is taken in if it is of the present generation, no larger than a picture of
/// 3840 by 2160 pixels, and as long as its rows of four bytes a pixel are; in no other
/// case.
pub proof fn law_frames_are_as_long_as_their_rows(pool: PoolModel, frame: FrameModel)
    ensures
        pool.accepts(frame) <==> {
            let width = frame.config.raw_width@;
            let height = frame.config.raw_height@;
            &&& width * height <= 3840 * 2160
            &&& frame.pixels.len() == 4 * (width * height)
            &&& frame.metadata.generation@ == pool.generation
        },
{
}

/// A frame that is taken in is the one that waits, in a buffer that the encoder does not
/// hold: that of the frame that it replaces, or a free one, the two in turn. Nothing
/// else changes.
pub proof fn law_frames_wait_beside_the_encoder(pool: PoolModel, frame: FrameModel)
    requires
        0 <= pool.next_free < 2,
        pool.pending_slot matches Some(slot) ==> slot < 2 && pool.encoding != Some(slot),
        pool.encoding matches Some(slot) ==> slot < 2,
    ensures
        ({
            let after = pool.submitted(frame);
            &&& after.pending == Some(frame)
            &&& after.pending_slot is Some && after.pending_slot->0 < 2
            &&& after.encoding == pool.encoding
            &&& after.encoding != after.pending_slot
            &&& pool.pending_slot is Some ==> after.pending_slot == pool.pending_slot
                && after.next_free == pool.next_free
            &&& pool.pending_slot is None ==> after.pending_slot->0 + after.next_free == 1
            &&& pool.pending_slot is None && pool.encoding is None ==> after.pending_slot->0
                == pool.next_free
            &&& after.generation == pool.generation
            &&& after.stopping == pool.stopping
            &&& after.notification_failure == pool.notification_failure
        }),
{
}

/// The encoder takes the waiting frame's buffer, so that another frame can wait; giving
/// it back frees the buffer and leaves a frame that waits alone.
pub proof fn law_buffers_pass_to_the_encoder_and_back(pool: PoolModel)
    ensures
        pool.taken().encoding == pool.pending_slot,
        pool.taken().pending is None && pool.taken().pending_slot is None,
        pool.taken().generation == pool.generation,
        pool.taken().next_free == pool.next_free,
        pool.taken().stopping == pool.stopping,
        pool.released().encoding is None,
        pool.released().pending == pool.pending,
        pool.released().pending_slot == pool.pending_slot,
        pool.released().generation == pool.generation,
{
}

/// A frame whose encoder could not be started waits again in its own buffer, unless a
/// newer one waits, its generation is over or the encoder is to stop: then it is gone.
pub proof fn law_unstarted_frames_wait_again(pool: PoolModel, slot: usize, frame: FrameModel)
    ensures
        ({
            let after = pool.requeued(slot, frame);
            let again = !pool.stopping && pool.pending_slot is None
                && frame.metadata.generation@ == pool.generation;
            &&& after.encoding is None
            &&& again ==> after.pending == Some(frame) && after.pending_slot == Some(slot)
            &&& !again ==> after.pending == pool.pending && after.pending_slot == pool.pending_slot
            &&& after.generation == pool.generation
        }),
{
}

/// Generations follow each other by one, up to the largest signed 32-bit number; a new
/// one drops the frame that waits and lets the encoder finish the one that it holds.
pub proof fn law_generations_follow_each_other(pool: PoolModel, generation: u32)
    ensures
        pool.follows(generation) <==> generation == pool.generation + 1 && generation
            <= 2_147_483_647,
        pool.in_generation(generation).generation == generation,
        pool.in_generation(generation).pending_slot is None,
        pool.in_generation(generation).encoding == pool.encoding,
        pool.in_generation(generation).next_free == pool.next_free,
        pool.in_generation(generation).stopping == pool.stopping,
{
}

/// What interrupts a write: a stop before anything else, or another generation, which
/// the error names together with the frame's own.
pub proof fn law_writes_are_interrupted_by_stops_and_generations<E>(
    pool: PoolModel,
    frame: Generation,
    error: FrameWriteError<E>,
)
    requires
        interrupts(pool, frame, error),
    ensures
        pool.stopping || pool.generation != frame@,
        error is Stopping <==> pool.stopping,
        !pool.stopping ==> (error matches FrameWriteError::GenerationChanged { observed, frame: of }
            && observed@ == pool.generation && of == frame),
        !(error is Io),
{
}

/// What becomes of a frame: the running process takes it if it is of its generation and
/// settings; one of its generation with other settings asks for a new generation; one of
/// another generation gets a process of its own. Without a process a frame gets one
/// unless its generation had one before.
pub proof fn law_frames_find_their_encoder(
    worker: EncoderWorker,
    config: EncoderConfig,
    generation: Generation,
)
    ensures
        worker.active matches Some(active) ==> {
            &&& worker.plan_for(config, generation) == FramePlan::Write <==> active.generation@
                == generation@ && active.config == config
            &&& worker.plan_for(config, generation) == FramePlan::RequestNewGeneration
                <==> active.generation@ == generation@ && active.config != config
            &&& worker.plan_for(config, generation) == FramePlan::Spawn <==> active.generation@
                != generation@
        },
        worker.active is None ==> {
            &&& worker.plan_for(config, generation) == FramePlan::Drop <==> worker.retired is Some
                && worker.retired->0@ == generation@
            &&& worker.plan_for(config, generation) == FramePlan::Spawn <==> worker.retired is None
                || worker.retired->0@ != generation@
        },
{
}

/// The encoder is given up after six starts that failed in a row, with the last error.
pub proof fn law_six_failures_end_the_encoder(error: Seq<char>)
    ensures
        spawn_reason(error) == "start video encoder after "@ + decimal(6) + " attempts: "@ + error,
        MAX_CONSECUTIVE_SPAWN_FAILURES == 6,
{
}

/// A frame is written from where the last attempt ended until its end, and no further.
/// A pipe that is full is waited for; a pipe that fails, a stop and another generation
/// end the write, but not once everything is written.
pub proof fn law_frames_are_written_to_their_end<E>(
    write: FrameWrite,
    pool: PoolModel,
    attempt: WriteAttempt<E>,
    step: WriteStep<E>,
)
    requires
        goes_on(write, pool, attempt, step),
    ensures
        attempt matches WriteAttempt::Failed(cause) ==> step == (WriteStep::Fail {
            error: FrameWriteError::Io(cause),
        }),
        !(attempt is Failed) ==> (step is Done <==> write.written == write.total),
        !(attempt is Failed) && write.written != write.total ==> {
            &&& pool.stopping || pool.generation != write.generation@ ==> step is Fail
            &&& !pool.stopping && pool.generation == write.generation@ && attempt is Blocked
                ==> step is Wait
            &&& !pool.stopping && pool.generation == write.generation@ && !(attempt is Blocked)
                ==> step is Write && step->from == write.written
        },
        wrote(attempt) == match attempt {
            WriteAttempt::Wrote(count) => count as int,
            WriteAttempt::Start | WriteAttempt::Blocked | WriteAttempt::Failed(_) => 0,
        },
{
}

/// A notification that finds room wakes the compositor; one that finds none is tried
/// until the deadline and then given up with a wake. A compositor that is gone or
/// stopping is not waited for.
pub proof fn law_notifications_are_tried_until_the_deadline(
    stopping: bool,
    now: Instant,
    deadline: Instant,
)
    ensures
        notify_step(stopping, NotifyAttempt::Sent, now, deadline) == NotifyStep::Sent,
        notify_step(stopping, NotifyAttempt::Disconnected, now, deadline) == (NotifyStep::GiveUp {
            wake: false,
        }),
        notify_step(true, NotifyAttempt::Full, now, deadline) == (NotifyStep::GiveUp {
            wake: false,
        }),
        now.nanos < deadline.nanos ==> notify_step(false, NotifyAttempt::Full, now, deadline)
            == NotifyStep::Retry,
        now.nanos >= deadline.nanos ==> notify_step(false, NotifyAttempt::Full, now, deadline) == (
        NotifyStep::GiveUp { wake: true }),
{
}

/// The worker's process: a frame for which one is started has none before; one that
/// started counts no failures; and when it ends, or new settings end it, its generation
/// is over.
pub proof fn law_processes_serve_until_they_end(
    worker: EncoderWorker,
    config: EncoderConfig,
    generation: Generation,
)
    ensures
        worker.started(config, generation).active == Some(ActiveEncoder { config, generation }),
        worker.started(config, generation).failures == 0,
        worker.started(config, generation).retired == worker.retired,
        worker.started(config, generation).plan_for(config, generation) == FramePlan::Write,
        worker.started(config, generation).without_process().plan_for(config, generation)
            == FramePlan::Drop,
        worker.plan_for(config, generation) == FramePlan::Spawn ==> worker.after_frame(
            config,
            generation,
        ) == (EncoderWorker { active: None, ..worker }),
        worker.plan_for(config, generation) == FramePlan::RequestNewGeneration
            ==> worker.after_frame(config, generation).active is None && worker.after_frame(
            config,
            generation,
        ).is_retired(generation),
        worker.plan_for(config, generation) == FramePlan::Write || worker.plan_for(
            config,
            generation,
        ) == FramePlan::Drop ==> worker.after_frame(config, generation) == worker,
{
}

/// The worker after as many failed starts.
pub open spec fn after_failures(worker: EncoderWorker, count: nat) -> EncoderWorker
    decreases count,
{
    if count == 0 {
        worker
    } else {
        after_failures(worker, (count - 1) as nat).after_failed_start()
    }
}

/// A worker that has just started a process survives five failed starts in a row and
/// gives up at the sixth; nothing else changes with them.
pub proof fn law_the_sixth_failure_is_the_last(
    worker: EncoderWorker,
    config: EncoderConfig,
    generation: Generation,
    count: nat,
)
    requires
        count <= 5,
    ensures
        ({
            let started = worker.started(config, generation);
            &&& after_failures(started, count) == (EncoderWorker {
                failures: count as u8,
                ..started
            })
            &&& after_failures(started, count).gives_up() <==> count == 5
        }),
    decreases count,
{
    if count > 0 {
        law_the_sixth_failure_is_the_last(worker, config, generation, (count - 1) as nat);
    }
}

} // verus!
