//! Fans encoded frames out to viewers and keeps the current group of pictures for
//! those who join later.

use crate::values::{Continuity, Fps, FrameKind, Generation, GopState, VideoSample};
use std::collections::VecDeque;
use vstd::prelude::*;

verus! {

// At the largest frame rate this spans two seconds plus their leading keyframe.
// Keyframes arrive four times per second, so an oversized group reaches the byte
// bound first.
pub const MAX_GOP_FRAMES: usize = 241;

pub const MAX_GOP_BYTES: usize = 0x200_0000;

pub const VIEWER_BYTES: usize = 0x200_0000;

#[derive(Clone, Copy, Debug, PartialEq, Eq, Structural)]
pub struct SubscriberId(pub u64);

/// A viewer can hold two groups of pictures at the configured maximum frame rate.
/// The byte bound exceeds the largest access unit.
#[derive(Clone, Copy, Debug, PartialEq, Eq, Structural)]
pub struct ViewerBounds {
    pub frames: usize,
    pub bytes: usize,
}

impl ViewerBounds {
    pub fn for_max_fps(fps: Fps) -> (r: Self)
        ensures
            r.frames == 2 * fps.spec_keyframe_interval(),
            r.bytes == VIEWER_BYTES,
            r.bytes == 33_554_432,
            fps@ <= 2 * r.frames < fps@ + 8,
    {
        let keyframe_interval: usize = fps.keyframe_interval() as usize;
        ViewerBounds { frames: keyframe_interval * 2, bytes: VIEWER_BYTES }
    }

    pub fn new(frames: usize, bytes: usize) -> (r: Self)
        ensures
            r.frames == frames,
            r.bytes == bytes,
    {
        ViewerBounds { frames, bytes }
    }
}

#[derive(Clone, Copy, Debug, PartialEq, Eq, Structural)]
pub enum Pushed {
    Queued,
    Dropped,
}

#[derive(Debug)]
pub struct ViewerQueue {
    pub frames: VecDeque<VideoSample>,
    pub bytes: usize,
    pub keyframe: GopState,
    pub generation: Option<Generation>,
    pub bounds: ViewerBounds,
}

#[derive(Debug)]
pub struct Subscriber {
    pub id: SubscriberId,
    pub queue: ViewerQueue,
}

#[derive(Debug)]
pub struct VideoHub {
    pub subscribers: Vec<Subscriber>,
    pub next_subscriber: u64,
    pub gop: Vec<VideoSample>,
    pub gop_bytes: usize,
    pub generation: Option<Generation>,
    pub viewer_bounds: ViewerBounds,
}

/// What a broadcast did: whether the current picture can be decoded from the cached
/// group, and which viewers got the frame.
#[derive(Debug)]
pub struct Broadcast {
    pub state: GopState,
    pub queued: Vec<SubscriberId>,
}

// ---------------------------------------------------------------------------
// The model of one viewer
// ---------------------------------------------------------------------------

pub open spec fn total_bytes(frames: Seq<VideoSample>) -> int
    decreases frames.len(),
{
    if frames.len() == 0 {
        0
    } else {
        total_bytes(frames.drop_last()) + frames.last().data@.len()
    }
}

#[verifier::ext_equal]
pub struct QueueState {
    pub frames: Seq<VideoSample>,
    pub keyframe: GopState,
    pub generation: Option<Generation>,
    pub bounds: ViewerBounds,
}

pub open spec fn marked(sample: VideoSample, gap: bool) -> VideoSample {
    if gap {
        VideoSample { continuity: Continuity::AfterGap, ..sample }
    } else {
        sample
    }
}

/// A sample after a gap, or of another generation, makes what came before useless.
pub open spec fn resets(generation: Option<Generation>, sample: VideoSample) -> bool {
    sample.continuity == Continuity::AfterGap || (generation is Some && generation
        != Some(sample.metadata.generation))
}

pub open spec fn cleared(queue: QueueState) -> QueueState {
    QueueState { frames: Seq::empty(), keyframe: GopState::Recovering, ..queue }
}

pub open spec fn overflows(queue: QueueState, sample: VideoSample) -> bool {
    queue.frames.len() >= queue.bounds.frames || total_bytes(queue.frames)
        + sample.data@.len() > queue.bounds.bytes
}

/// The queue as it stands when the sample is about to join it.
pub open spec fn before_joining(queue: QueueState, sample: VideoSample) -> QueueState {
    let current = QueueState { generation: Some(sample.metadata.generation), ..queue };
    if resets(queue.generation, sample) {
        cleared(current)
    } else {
        current
    }
}

/// One sample arrives. A keyframe always stays, if need be alone; a delta stays only
/// behind a keyframe and within the bounds, and otherwise the queue waits for one.
pub open spec fn pushed(queue: QueueState, sample: VideoSample) -> (QueueState, Pushed) {
    let current = before_joining(queue, sample);
    let key = sample.kind == FrameKind::Key;
    if current.keyframe == GopState::Recovering && !key {
        (current, Pushed::Dropped)
    } else if overflows(current, sample) && !key {
        (cleared(current), Pushed::Dropped)
    } else {
        let overflow = overflows(current, sample);
        let gap = resets(queue.generation, sample) || current.keyframe == GopState::Recovering
            || overflow;
        let kept = if overflow {
            Seq::empty()
        } else {
            current.frames
        };
        (
            QueueState {
                frames: kept.push(marked(sample, gap)),
                keyframe: if key {
                    GopState::KeyframeCached
                } else {
                    current.keyframe
                },
                ..current
            },
            Pushed::Queued,
        )
    }
}

/// A new viewer's queue is filled from the cached group until a frame does not fit.
pub open spec fn seeded(queue: QueueState, gop: Seq<VideoSample>, from: int) -> QueueState
    decreases gop.len() - from,
{
    if from < 0 || from >= gop.len() {
        queue
    } else {
        let (next, result) = pushed(queue, gop[from]);
        if result == Pushed::Dropped {
            next
        } else {
            seeded(next, gop, from + 1)
        }
    }
}

// ---------------------------------------------------------------------------
// The model of the hub
// ---------------------------------------------------------------------------

#[verifier::ext_equal]
pub struct ViewerState {
    pub id: SubscriberId,
    pub queue: QueueState,
}

#[verifier::ext_equal]
pub struct HubState {
    pub viewers: Seq<ViewerState>,
    pub next_subscriber: u64,
    pub gop: Seq<VideoSample>,
    pub generation: Option<Generation>,
    pub bounds: ViewerBounds,
}

/// The cached group after a sample: a keyframe starts a new one, a delta extends the
/// current one while that stays within the limits.
pub open spec fn gop_after(
    gop: Seq<VideoSample>,
    generation: Option<Generation>,
    sample: VideoSample,
) -> Seq<VideoSample> {
    if sample.kind == FrameKind::Key {
        seq![sample]
    } else if resets(generation, sample) || gop.len() == 0 || gop.len() >= MAX_GOP_FRAMES
        || total_bytes(gop) + sample.data@.len() > MAX_GOP_BYTES {
        Seq::empty()
    } else {
        gop.push(sample)
    }
}

/// Each viewer gets the sample, marked if the stream starts over.
pub open spec fn broadcasted(hub: HubState, sample: VideoSample) -> HubState {
    let outgoing = marked(sample, resets(hub.generation, sample));
    HubState {
        viewers: hub.viewers.map_values(
            |viewer: ViewerState|
                ViewerState { queue: pushed(viewer.queue, outgoing).0, ..viewer },
        ),
        gop: gop_after(hub.gop, hub.generation, sample),
        generation: Some(sample.metadata.generation),
        ..hub
    }
}

/// The viewers, in order, whose queues took the sample.
pub open spec fn queued_ids(viewers: Seq<ViewerState>, outgoing: VideoSample) -> Seq<SubscriberId>
    decreases viewers.len(),
{
    if viewers.len() == 0 {
        Seq::empty()
    } else {
        let earlier = queued_ids(viewers.drop_last(), outgoing);
        if pushed(viewers.last().queue, outgoing).1 == Pushed::Queued {
            earlier.push(viewers.last().id)
        } else {
            earlier
        }
    }
}

pub open spec fn new_viewer(hub: HubState) -> ViewerState {
    ViewerState {
        id: SubscriberId(hub.next_subscriber),
        queue: seeded(
            QueueState {
                frames: Seq::empty(),
                keyframe: GopState::Recovering,
                generation: hub.generation,
                bounds: hub.bounds,
            },
            hub.gop,
            0,
        ),
    }
}

/// The position of a viewer.
pub open spec fn viewer_index(viewers: Seq<ViewerState>, id: SubscriberId, from: int) -> Option<int>
    decreases viewers.len() - from,
{
    if from < 0 || from >= viewers.len() {
        None
    } else if viewers[from].id == id {
        Some(from)
    } else {
        viewer_index(viewers, id, from + 1)
    }
}

// ---------------------------------------------------------------------------
// One viewer
// ---------------------------------------------------------------------------

proof fn lemma_total_bytes_push(frames: Seq<VideoSample>, sample: VideoSample)
    ensures
        total_bytes(frames.push(sample)) == total_bytes(frames) + sample.data@.len(),
{
    assert(frames.push(sample).drop_last() =~= frames);
}

proof fn lemma_total_bytes_first(frames: Seq<VideoSample>)
    requires
        frames.len() > 0,
    ensures
        total_bytes(frames) == frames[0].data@.len() + total_bytes(
            frames.subrange(1, frames.len() as int),
        ),
    decreases frames.len(),
{
    let rest = frames.subrange(1, frames.len() as int);
    if frames.len() == 1 {
        assert(frames.drop_last() =~= Seq::empty());
        assert(total_bytes(frames.drop_last()) == 0);
        assert(total_bytes(rest) == 0);
    } else {
        lemma_total_bytes_first(frames.drop_last());
        assert(frames.drop_last().subrange(1, frames.len() - 1) =~= rest.drop_last());
        assert(rest.last() == frames.last());
    }
}

proof fn lemma_total_bytes_nonnegative(frames: Seq<VideoSample>)
    ensures
        total_bytes(frames) >= 0,
    decreases frames.len(),
{
    if frames.len() > 0 {
        lemma_total_bytes_nonnegative(frames.drop_last());
    }
}

impl ViewerQueue {
    pub open spec fn view(&self) -> QueueState {
        QueueState {
            frames: self.frames@,
            keyframe: self.keyframe,
            generation: self.generation,
            bounds: self.bounds,
        }
    }

    /// The byte count is that of the frames, and the bound leaves room to compare.
    pub open spec fn wf(self) -> bool {
        self.bytes == total_bytes(self.frames@) && self.bounds.bytes < usize::MAX
    }

    pub fn new(keyframe: GopState, generation: Option<Generation>, bounds: ViewerBounds) -> (r: Self)
        requires
            bounds.bytes < usize::MAX,
        ensures
            r.wf(),
            r@ == (QueueState { frames: Seq::empty(), keyframe, generation, bounds }),
    {
        ViewerQueue { frames: VecDeque::new(), bytes: 0, keyframe, generation, bounds }
    }

    pub fn push(&mut self, sample: VideoSample) -> (r: Pushed)
        requires
            old(self).wf(),
        ensures
            final(self).wf(),
            (final(self)@, r) == pushed(old(self)@, sample),
    {
        let mut sample = sample;
        let ghost arrived = sample;
        let generation_reset = match self.generation {
            Some(current) => current != sample.metadata.generation,
            None => false,
        };
        self.generation = Some(sample.metadata.generation);
        let stream_reset = sample.continuity == Continuity::AfterGap || generation_reset;
        if stream_reset {
            self.clear();
        }
        assert(self@ =~= before_joining(old(self)@, arrived));
        let recovering = self.keyframe == GopState::Recovering;
        if recovering && sample.kind != FrameKind::Key {
            return Pushed::Dropped;
        }
        if sample.kind == FrameKind::Key {
            self.keyframe = GopState::KeyframeCached;
        }
        let overflow = self.frames.len() >= self.bounds.frames || self.bytes.saturating_add(
            sample.data.len(),
        ) > self.bounds.bytes;
        if overflow {
            self.clear();
            if sample.kind != FrameKind::Key {
                return Pushed::Dropped;
            }
            self.keyframe = GopState::KeyframeCached;
        }
        if stream_reset || recovering || overflow {
            sample.continuity = Continuity::AfterGap;
        }
        proof {
            lemma_total_bytes_push(self.frames@, sample);
        }
        self.bytes = self.bytes + sample.data.len();
        self.frames.push_back(sample);
        Pushed::Queued
    }

    pub fn pop(&mut self) -> (r: Option<VideoSample>)
        requires
            old(self).wf(),
        ensures
            final(self).wf(),
            r == if old(self)@.frames.len() > 0 {
                Some(old(self)@.frames[0])
            } else {
                None
            },
            final(self)@ == (QueueState {
                frames: if old(self)@.frames.len() > 0 {
                    old(self)@.frames.skip(1)
                } else {
                    old(self)@.frames
                },
                ..old(self)@
            }),
    {
        match self.frames.pop_front() {
            Some(frame) => {
                proof {
                    lemma_total_bytes_first(old(self).frames@);
                    lemma_total_bytes_nonnegative(self.frames@);
                    assert(self.frames@ =~= old(self)@.frames.skip(1));
                }
                self.bytes = self.bytes - frame.data.len();
                Some(frame)
            },
            None => None,
        }
    }

    fn clear(&mut self)
        requires
            old(self).wf(),
        ensures
            final(self).wf(),
            final(self)@ == cleared(old(self)@),
    {
        self.frames.clear();
        self.bytes = 0;
        self.keyframe = GopState::Recovering;
    }
}

// ---------------------------------------------------------------------------
// The hub
// ---------------------------------------------------------------------------

pub open spec fn viewer_of(subscriber: Subscriber) -> ViewerState {
    ViewerState { id: subscriber.id, queue: subscriber.queue@ }
}

/// A cached group is one keyframe and the deltas that follow it without a gap.
pub open spec fn is_gop(gop: Seq<VideoSample>, generation: Option<Generation>) -> bool {
    forall|i: int|
        0 <= i < gop.len() ==> {
            &&& Some((#[trigger] gop[i]).metadata.generation) == generation
            &&& (gop[i].kind == FrameKind::Key) == (i == 0)
            &&& i > 0 ==> gop[i].continuity == Continuity::Continuous
        }
}

pub open spec fn distinct_ids(viewers: Seq<ViewerState>) -> bool {
    forall|i: int, j: int|
        0 <= i < j < viewers.len() ==> (#[trigger] viewers[i]).id != (#[trigger] viewers[j]).id
}

/// The viewers with the new one: it takes the place of one of the same identity.
pub open spec fn with_viewer(viewers: Seq<ViewerState>, viewer: ViewerState) -> Seq<ViewerState> {
    match viewer_index(viewers, viewer.id, 0) {
        Some(index) => viewers.update(index, viewer),
        None => viewers.push(viewer),
    }
}

/// The hub with a new viewer.
pub open spec fn subscribed(hub: HubState) -> HubState {
    HubState {
        viewers: with_viewer(hub.viewers, new_viewer(hub)),
        next_subscriber: ((hub.next_subscriber + 1) % 0x1_0000_0000_0000_0000) as u64,
        ..hub
    }
}

/// The hub without a viewer.
pub open spec fn unsubscribed(hub: HubState, id: SubscriberId) -> HubState {
    HubState {
        viewers: match viewer_index(hub.viewers, id, 0) {
            Some(index) => hub.viewers.remove(index),
            None => hub.viewers,
        },
        ..hub
    }
}

/// The next frame of a viewer.
pub open spec fn next_frame(hub: HubState, id: SubscriberId) -> Option<VideoSample> {
    match viewer_index(hub.viewers, id, 0) {
        Some(index) if hub.viewers[index].queue.frames.len() > 0 => Some(
            hub.viewers[index].queue.frames[0],
        ),
        _ => None,
    }
}

/// Whether the current picture can be decoded from the cached group.
pub open spec fn cache_state(hub: HubState) -> GopState {
    if hub.gop.len() > 0 {
        GopState::KeyframeCached
    } else {
        GopState::Recovering
    }
}

/// The hub after the next frame of a viewer was taken, if there was one.
pub open spec fn taken(hub: HubState, id: SubscriberId) -> HubState {
    match viewer_index(hub.viewers, id, 0) {
        Some(index) if hub.viewers[index].queue.frames.len() > 0 => {
            let queue = hub.viewers[index].queue;
            HubState {
                viewers: hub.viewers.update(
                    index,
                    ViewerState {
                        id,
                        queue: QueueState { frames: queue.frames.skip(1), ..queue },
                    },
                ),
                ..hub
            }
        },
        _ => hub,
    }
}

proof fn lemma_viewer_index(viewers: Seq<ViewerState>, id: SubscriberId, from: int)
    requires
        0 <= from,
    ensures
        match viewer_index(viewers, id, from) {
            Some(index) => from <= index < viewers.len() && viewers[index].id == id,
            None => forall|i: int| from <= i < viewers.len() ==> (#[trigger] viewers[i]).id != id,
        },
    decreases viewers.len() - from,
{
    if from < viewers.len() && viewers[from].id != id {
        lemma_viewer_index(viewers, id, from + 1);
    }
}

impl VideoHub {
    pub open spec fn view(&self) -> HubState {
        HubState {
            viewers: self.subscribers@.map_values(|subscriber: Subscriber| viewer_of(subscriber)),
            next_subscriber: self.next_subscriber,
            gop: self.gop@,
            generation: self.generation,
            bounds: self.viewer_bounds,
        }
    }

    pub open spec fn wf(self) -> bool {
        &&& self.gop_bytes == total_bytes(self.gop@)
        &&& is_gop(self.gop@, self.generation)
        &&& self.viewer_bounds.bytes < usize::MAX
        &&& distinct_ids(self@.viewers)
        &&& forall|i: int|
            0 <= i < self.subscribers@.len() ==> (#[trigger] self.subscribers@[i]).queue.wf()
    }

    pub fn new(max_fps: Fps) -> (r: Self)
        ensures
            r.wf(),
            r@.viewers == Seq::<ViewerState>::empty(),
            r@.next_subscriber == 1,
            r@.gop == Seq::<VideoSample>::empty(),
            r@.generation is None,
            r@.bounds.frames == 2 * max_fps.spec_keyframe_interval(),
            r@.bounds.bytes == VIEWER_BYTES,
    {
        let hub = VideoHub {
            subscribers: Vec::new(),
            next_subscriber: 1,
            gop: Vec::new(),
            gop_bytes: 0,
            generation: None,
            viewer_bounds: ViewerBounds::for_max_fps(max_fps),
        };
        assert(hub@.viewers =~= Seq::empty());
        hub
    }

    fn position(&self, id: SubscriberId) -> (r: Option<usize>)
        ensures
            match r {
                Some(index) => viewer_index(self@.viewers, id, 0) == Some(index as int) && index
                    < self.subscribers@.len(),
                None => viewer_index(self@.viewers, id, 0) is None,
            },
    {
        let mut index: usize = 0;
        while index < self.subscribers.len()
            invariant
                index <= self.subscribers@.len(),
                viewer_index(self@.viewers, id, 0) == viewer_index(
                    self@.viewers,
                    id,
                    index as int,
                ),
            decreases self.subscribers@.len() - index,
        {
            assert(self@.viewers[index as int].id == self.subscribers@[index as int].id);
            if self.subscribers[index].id == id {
                return Some(index);
            }
            index = index + 1;
        }
        None
    }

    /// Adds a viewer, whose queue starts with the cached group as far as it fits.
    ///
    /// A viewer that joins after a resynchronisation but before the recovery keyframe
    /// gets the group from before, a valid picture that the others saw too; the
    /// recovery keyframe clears it.
    pub fn subscribe(&mut self) -> (id: SubscriberId)
        requires
            old(self).wf(),
        ensures
            final(self).wf(),
            id == SubscriberId(old(self)@.next_subscriber),
            final(self)@ == subscribed(old(self)@),
    {
        let id = SubscriberId(self.next_subscriber);
        let position = self.position(id);
        let mut queue = ViewerQueue::new(
            GopState::Recovering,
            self.generation,
            self.viewer_bounds,
        );
        let ghost fresh = queue@;
        let mut index: usize = 0;
        while index < self.gop.len()
            invariant
                index <= self.gop@.len(),
                queue.wf(),
                seeded(fresh, self.gop@, 0) == seeded(queue@, self.gop@, index as int),
            ensures
                queue.wf(),
                seeded(fresh, self.gop@, 0) == queue@,
            decreases self.gop@.len() - index,
        {
            let frame = self.gop[index].clone();
            let result = queue.push(frame);
            if result == Pushed::Dropped {
                break;
            }
            index = index + 1;
        }
        let subscriber = Subscriber { id, queue };
        let ghost viewers = self@.viewers;
        let ghost viewer = new_viewer(self@);
        assert(viewer_of(subscriber) == viewer);
        proof {
            lemma_viewer_index(viewers, id, 0);
        }
        match position {
            Some(index) => {
                self.subscribers[index] = subscriber;
                assert(self@.viewers =~= viewers.update(index as int, viewer));
            },
            None => {
                self.subscribers.push(subscriber);
                assert(self@.viewers =~= viewers.push(viewer));
            },
        }
        self.next_subscriber = self.next_subscriber.wrapping_add(1);
        id
    }

    pub fn unsubscribe(&mut self, id: SubscriberId)
        requires
            old(self).wf(),
        ensures
            final(self).wf(),
            final(self)@ == unsubscribed(old(self)@, id),
    {
        match self.position(id) {
            Some(index) => {
                let ghost viewers = self@.viewers;
                let _ = self.subscribers.remove(index);
                assert(self@.viewers =~= viewers.remove(index as int));
            },
            None => {},
        }
    }

    /// Takes the next frame of one viewer.
    pub fn next(&mut self, id: SubscriberId) -> (r: Option<VideoSample>)
        requires
            old(self).wf(),
        ensures
            final(self).wf(),
            final(self)@ == taken(old(self)@, id),
            r == match viewer_index(old(self)@.viewers, id, 0) {
                Some(index) if old(self)@.viewers[index].queue.frames.len() > 0 => Some(
                    old(self)@.viewers[index].queue.frames[0],
                ),
                _ => None,
            },
            r == next_frame(old(self)@, id),
    {
        proof {
            lemma_viewer_index(self@.viewers, id, 0);
        }
        match self.position(id) {
            Some(index) => {
                let ghost viewers = self@.viewers;
                let frame = self.subscribers[index].queue.pop();
                proof {
                    if frame is None {
                        assert(self@.viewers =~= viewers);
                    } else {
                        assert(self@.viewers =~= viewers.update(
                            index as int,
                            ViewerState {
                                id,
                                queue: QueueState {
                                    frames: viewers[index as int].queue.frames.skip(1),
                                    ..viewers[index as int].queue
                                },
                            },
                        ));
                    }
                }
                frame
            },
            None => None,
        }
    }

    /// Caches a frame and hands it to every viewer.
    pub fn broadcast(&mut self, sample: &VideoSample) -> (r: Broadcast)
        requires
            old(self).wf(),
        ensures
            final(self).wf(),
            final(self)@ == broadcasted(old(self)@, *sample),
            r.state == if final(self)@.gop.len() > 0 {
                GopState::KeyframeCached
            } else {
                GopState::Recovering
            },
            r.queued@ == queued_ids(
                old(self)@.viewers,
                marked(*sample, resets(old(self)@.generation, *sample)),
            ),
            r.state == cache_state(final(self)@),
    {
        let generation = sample.metadata.generation;
        let stream_reset = sample.continuity == Continuity::AfterGap || match self.generation {
            Some(current) => current != generation,
            None => false,
        };
        let ghost viewers = self@.viewers;
        let ghost cached = self.gop@;
        self.generation = Some(generation);
        if stream_reset {
            self.gop.clear();
            self.gop_bytes = 0;
        }
        if sample.kind == FrameKind::Key {
            self.gop.clear();
            proof {
                lemma_total_bytes_push(self.gop@, *sample);
                assert(self.gop@.push(*sample) =~= seq![*sample]);
            }
            self.gop_bytes = sample.data.len();
            self.gop.push(sample.clone());
        } else if self.gop.len() > 0 {
            if self.gop.len() < MAX_GOP_FRAMES && self.gop_bytes <= MAX_GOP_BYTES
                && sample.data.len() <= MAX_GOP_BYTES - self.gop_bytes {
                proof {
                    lemma_total_bytes_push(self.gop@, *sample);
                }
                self.gop_bytes = self.gop_bytes + sample.data.len();
                self.gop.push(sample.clone());
            } else {
                self.gop.clear();
                self.gop_bytes = 0;
            }
        }
        assert(self.gop@ =~= gop_after(cached, old(self)@.generation, *sample));
        let state = if self.gop.len() > 0 && self.gop[0].kind == FrameKind::Key
            && self.gop[0].metadata.generation == generation {
            GopState::KeyframeCached
        } else {
            GopState::Recovering
        };
        let ghost outgoing = marked(*sample, stream_reset);
        let ghost subscribers = self.subscribers@;
        let ghost rest = self@;
        let mut queued: Vec<SubscriberId> = Vec::new();
        let mut index: usize = 0;
        assert(viewers.take(0) =~= Seq::empty());
        while index < self.subscribers.len()
            invariant
                index <= self.subscribers@.len(),
                self.subscribers@.len() == subscribers.len(),
                viewers == subscribers.map_values(|s: Subscriber| viewer_of(s)),
                forall|i: int|
                    0 <= i < self.subscribers@.len() ==> (#[trigger] self.subscribers@[i]).queue.wf(),
                forall|i: int|
                    index <= i < subscribers.len() ==> #[trigger] self.subscribers@[i]
                        == subscribers[i],
                forall|i: int|
                    0 <= i < index ==> viewer_of(#[trigger] self.subscribers@[i]) == (ViewerState {
                        queue: pushed(viewers[i].queue, outgoing).0,
                        ..viewers[i]
                    }),
                self.gop@ == rest.gop,
                self.generation == rest.generation,
                self.next_subscriber == rest.next_subscriber,
                self.viewer_bounds == rest.bounds,
                self.gop_bytes == total_bytes(self.gop@),
                outgoing == marked(*sample, stream_reset),
                queued@ == queued_ids(viewers.take(index as int), outgoing),
            decreases self.subscribers@.len() - index,
        {
            let mut frame = sample.clone();
            if stream_reset {
                frame.continuity = Continuity::AfterGap;
            }
            let id = self.subscribers[index].id;
            let result = self.subscribers[index].queue.push(frame);
            if result == Pushed::Queued {
                queued.push(id);
            }
            proof {
                let upto = viewers.take(index as int + 1);
                assert(upto.drop_last() =~= viewers.take(index as int));
                assert(upto.last() == viewers[index as int]);
            }
            index = index + 1;
        }
        proof {
            assert(viewers.take(index as int) =~= viewers);
            assert(self@.viewers =~= broadcasted(old(self)@, *sample).viewers);
        }
        Broadcast { state, queued }
    }
}

// ---------------------------------------------------------------------------
// Laws
// ---------------------------------------------------------------------------

/// What can be decoded from a queue: frames are of one generation, only the first may
/// follow a gap and is then a keyframe, and a queue that waits for one is empty.
pub open spec fn decodable(queue: QueueState) -> bool {
    &&& queue.keyframe == GopState::Recovering ==> queue.frames.len() == 0
    &&& forall|i: int|
        0 <= i < queue.frames.len() ==> {
            &&& Some((#[trigger] queue.frames[i]).metadata.generation) == queue.generation
            &&& queue.frames[i].continuity == Continuity::AfterGap ==> i == 0
                && queue.frames[i].kind == FrameKind::Key
        }
}

/// A queue holds no more frames and bytes than its bounds say, except that a single
/// keyframe may exceed them.
pub open spec fn bounded(queue: QueueState) -> bool {
    ||| queue.frames.len() <= queue.bounds.frames && total_bytes(queue.frames) <= queue.bounds.bytes
    ||| queue.frames.len() == 1 && queue.frames[0].kind == FrameKind::Key
}

/// Whatever arrives and whatever is taken, a viewer's queue stays decodable and
/// within its bounds.
pub proof fn law_viewer_queue_stays_decodable_and_bounded(queue: QueueState, sample: VideoSample)
    requires
        decodable(queue),
        bounded(queue),
    ensures
        decodable(pushed(queue, sample).0),
        bounded(pushed(queue, sample).0),
        queue.frames.len() > 0 ==> decodable(
            QueueState { frames: queue.frames.skip(1), ..queue },
        ) && bounded(QueueState { frames: queue.frames.skip(1), ..queue }),
{
    let current = before_joining(queue, sample);
    let overflow = overflows(current, sample);
    let kept = if overflow {
        Seq::<VideoSample>::empty()
    } else {
        current.frames
    };
    let gap = resets(queue.generation, sample) || current.keyframe == GopState::Recovering
        || overflow;
    lemma_total_bytes_push(kept, marked(sample, gap));
    let after = pushed(queue, sample).0;
    assert(decodable(after));
    if queue.frames.len() > 0 {
        lemma_total_bytes_first(queue.frames);
        lemma_total_bytes_nonnegative(queue.frames.skip(1));
        let rest = QueueState { frames: queue.frames.skip(1), ..queue };
        assert(rest.frames =~= queue.frames.subrange(1, queue.frames.len() as int));
        assert forall|i: int| 0 <= i < rest.frames.len() implies {
            &&& Some((#[trigger] rest.frames[i]).metadata.generation) == rest.generation
            &&& rest.frames[i].continuity == Continuity::AfterGap ==> i == 0
                && rest.frames[i].kind == FrameKind::Key
        } by {
            assert(rest.frames[i] == queue.frames[i + 1]);
        }
        if queue.frames.len() == 1 {
            assert(rest.frames =~= Seq::empty());
        }
    }
}

/// A keyframe ends every wait: it becomes the cached group, and each viewer's queue
/// takes it as its last frame.
pub proof fn law_keyframe_reaches_every_viewer(hub: HubState, sample: VideoSample, index: int)
    requires
        sample.kind == FrameKind::Key,
        0 <= index < hub.viewers.len(),
    ensures
        broadcasted(hub, sample).gop == seq![sample],
        ({
            let queue = broadcasted(hub, sample).viewers[index].queue;
            &&& queue.keyframe == GopState::KeyframeCached
            &&& queue.frames.len() > 0
            &&& queue.frames.last().data == sample.data
            &&& queue.frames.last().metadata == sample.metadata
        }),
{
}

/// A viewer that waits for a keyframe is given no delta, and when the keyframe comes
/// it is marked as following a gap.
pub proof fn law_viewer_recovers_only_at_a_keyframe(queue: QueueState, sample: VideoSample)
    requires
        queue.keyframe == GopState::Recovering,
    ensures
        sample.kind == FrameKind::Delta ==> pushed(queue, sample).1 == Pushed::Dropped
            && pushed(queue, sample).0.keyframe == GopState::Recovering,
        sample.kind == FrameKind::Key ==> pushed(queue, sample).1 == Pushed::Queued
            && pushed(queue, sample).0.frames.last().continuity == Continuity::AfterGap,
{
}

/// A call of the hub.
pub enum HubCall {
    Subscribe,
    Unsubscribe(SubscriberId),
    Next(SubscriberId),
    Broadcast(VideoSample),
}

pub open spec fn hub_called(hub: HubState, call: HubCall) -> HubState {
    match call {
        HubCall::Subscribe => subscribed(hub),
        HubCall::Unsubscribe(id) => unsubscribed(hub, id),
        HubCall::Next(id) => taken(hub, id),
        HubCall::Broadcast(sample) => broadcasted(hub, sample),
    }
}

/// The hub after a history of calls.
pub open spec fn hub_after(hub: HubState, calls: Seq<HubCall>) -> HubState
    decreases calls.len(),
{
    if calls.len() == 0 {
        hub
    } else {
        hub_called(hub_after(hub, calls.drop_last()), calls.last())
    }
}

/// The samples of a history that were broadcast, in order.
pub open spec fn broadcast_samples(calls: Seq<HubCall>) -> Seq<VideoSample>
    decreases calls.len(),
{
    if calls.len() == 0 {
        Seq::empty()
    } else {
        let earlier = broadcast_samples(calls.drop_last());
        match calls.last() {
            HubCall::Broadcast(sample) => earlier.push(sample),
            _ => earlier,
        }
    }
}

/// Whether the samples from `start` on are a group that can be decoded: a keyframe,
/// behind it only deltas of its generation without a gap, and, unless the keyframe
/// stands alone, no more of them than are cached.
pub open spec fn group_from(samples: Seq<VideoSample>, start: int) -> bool {
    &&& 0 <= start < samples.len()
    &&& samples[start].kind == FrameKind::Key
    &&& forall|i: int|
        start < i < samples.len() ==> {
            &&& (#[trigger] samples[i]).kind == FrameKind::Delta
            &&& samples[i].continuity == Continuity::Continuous
            &&& samples[i].metadata.generation == samples[start].metadata.generation
        }
    &&& start < samples.len() - 1 ==> samples.len() - start <= MAX_GOP_FRAMES && total_bytes(
        samples.skip(start),
    ) <= MAX_GOP_BYTES
}

proof fn lemma_group_grows(samples: Seq<VideoSample>, sample: VideoSample, start: int)
    requires
        0 <= start < samples.len(),
    ensures
        group_from(samples.push(sample), start) <==> {
            &&& group_from(samples, start)
            &&& sample.kind == FrameKind::Delta
            &&& sample.continuity == Continuity::Continuous
            &&& sample.metadata.generation == samples.last().metadata.generation
            &&& samples.len() - start < MAX_GOP_FRAMES
            &&& total_bytes(samples.skip(start)) + sample.data@.len() <= MAX_GOP_BYTES
        },
{
    let longer = samples.push(sample);
    assert(longer.skip(start) =~= samples.skip(start).push(sample));
    lemma_total_bytes_push(samples.skip(start), sample);
    assert(longer[longer.len() - 1] == sample);
    assert(forall|i: int| 0 <= i < samples.len() ==> longer[i] == samples[i]);
    let last = samples.len() - 1;
    if group_from(longer, start) {
        assert(forall|i: int|
            start < i < samples.len() ==> (#[trigger] samples[i]).kind == longer[i].kind);
        assert(longer[last] == samples[last]);
        assert(group_from(samples, start));
    }
    if group_from(samples, start) {
        assert(samples[last].metadata.generation == samples[start].metadata.generation);
    }
}

proof fn lemma_cached_group(hub: HubState, calls: Seq<HubCall>)
    requires
        hub.gop.len() == 0,
        hub.generation is None,
    ensures
        ({
            let samples = broadcast_samples(calls);
            let after = hub_after(hub, calls);
            &&& after.generation == if samples.len() == 0 {
                None
            } else {
                Some(samples.last().metadata.generation)
            }
            &&& after.gop.len() > 0 ==> group_from(samples, samples.len() - after.gop.len())
            &&& forall|start: int| #[trigger]
                group_from(samples, start) ==> after.gop == samples.skip(start)
        }),
    decreases calls.len(),
{
    if calls.len() > 0 {
        let earlier = calls.drop_last();
        lemma_cached_group(hub, earlier);
        if let HubCall::Broadcast(sample) = calls.last() {
            let before = broadcast_samples(earlier);
            let samples = broadcast_samples(calls);
            let cached = hub_after(hub, earlier);
            let after = hub_after(hub, calls);
            assert(samples == before.push(sample));
            assert(after.gop == gop_after(cached.gop, cached.generation, sample));
            if sample.kind == FrameKind::Key {
                assert(samples.skip(samples.len() - 1) =~= seq![sample]);
                assert(group_from(samples, samples.len() - 1));
                assert forall|start: int| #[trigger] group_from(samples, start) implies after.gop
                    == samples.skip(start) by {
                    if start < samples.len() - 1 {
                        assert(samples[samples.len() - 1].kind == FrameKind::Delta);
                    }
                }
            } else {
                if after.gop.len() > 0 {
                    let start = before.len() - cached.gop.len();
                    assert(group_from(before, start));
                    lemma_group_grows(before, sample, start);
                }
                assert forall|start: int| #[trigger] group_from(samples, start) implies after.gop
                    == samples.skip(start) by {
                    assert(start < before.len());
                    lemma_group_grows(before, sample, start);
                    assert(cached.gop == before.skip(start));
                    assert(samples.skip(start) =~= before.skip(start).push(sample));
                }
            }
        }
    }
}

/// Over any history of a hub that started empty, the current picture can be decoded
/// from the cached group exactly if the latest sample is a keyframe, or follows one
/// with nothing but continuous deltas of its generation in between, all of them
/// within the limits of the cache. What is cached is then that keyframe and
/// everything behind it.
pub proof fn law_cached_group_is_the_latest_decodable_run(hub: HubState, calls: Seq<HubCall>)
    requires
        hub.gop.len() == 0,
        hub.generation is None,
    ensures
        hub_after(hub, calls).gop.len() > 0 <==> exists|start: int|
            group_from(broadcast_samples(calls), start),
        forall|start: int| #[trigger]
            group_from(broadcast_samples(calls), start) ==> hub_after(hub, calls).gop
                == broadcast_samples(calls).skip(start),
{
    lemma_cached_group(hub, calls);
}

/// The cached group with its keyframe marked as the start of a stream.
pub open spec fn restarted(gop: Seq<VideoSample>, upto: int) -> Seq<VideoSample> {
    Seq::new(upto as nat, |i: int| marked(gop[i], i == 0))
}

proof fn lemma_total_bytes_monotone(gop: Seq<VideoSample>, upto: int)
    requires
        0 <= upto <= gop.len(),
    ensures
        total_bytes(gop.take(upto)) <= total_bytes(gop),
    decreases gop.len() - upto,
{
    if upto < gop.len() {
        lemma_total_bytes_monotone(gop, upto + 1);
        assert(gop.take(upto + 1).drop_last() =~= gop.take(upto));
    } else {
        assert(gop.take(upto) =~= gop);
    }
}

proof fn lemma_seed_rest(
    gop: Seq<VideoSample>,
    generation: Option<Generation>,
    bounds: ViewerBounds,
    from: int,
)
    requires
        is_gop(gop, generation),
        1 <= from <= gop.len(),
        gop.len() <= bounds.frames,
        total_bytes(gop) <= bounds.bytes,
        total_bytes(restarted(gop, from)) == total_bytes(gop.take(from)),
    ensures
        seeded(
            QueueState {
                frames: restarted(gop, from),
                keyframe: GopState::KeyframeCached,
                generation,
                bounds,
            },
            gop,
            from,
        ) == (QueueState {
            frames: restarted(gop, gop.len() as int),
            keyframe: GopState::KeyframeCached,
            generation,
            bounds,
        }),
    decreases gop.len() - from,
{
    if from < gop.len() {
        let queue = QueueState {
            frames: restarted(gop, from),
            keyframe: GopState::KeyframeCached,
            generation,
            bounds,
        };
        let sample = gop[from];
        assert(sample.continuity == Continuity::Continuous && sample.kind == FrameKind::Delta);
        assert(gop.take(from + 1).drop_last() =~= gop.take(from));
        assert(restarted(gop, from + 1) =~= restarted(gop, from).push(sample));
        lemma_total_bytes_push(restarted(gop, from), sample);
        lemma_total_bytes_monotone(gop, from + 1);
        assert(before_joining(queue, sample) =~= queue);
        assert(pushed(queue, sample).0 =~= QueueState {
            frames: restarted(gop, from + 1),
            ..queue
        });
        lemma_seed_rest(gop, generation, bounds, from + 1);
    }
}

/// A viewer that joins while a group of pictures is cached starts with exactly that
/// group, its keyframe marked as following a gap, provided that the group fits.
pub proof fn law_new_viewer_starts_with_the_cached_group(hub: HubState)
    requires
        is_gop(hub.gop, hub.generation),
        0 < hub.gop.len() <= hub.bounds.frames,
        total_bytes(hub.gop) <= hub.bounds.bytes,
    ensures
        new_viewer(hub).queue.frames == restarted(hub.gop, hub.gop.len() as int),
        new_viewer(hub).queue.keyframe == GopState::KeyframeCached,
{
    let gop = hub.gop;
    let first = gop[0];
    let fresh = QueueState {
        frames: Seq::empty(),
        keyframe: GopState::Recovering,
        generation: hub.generation,
        bounds: hub.bounds,
    };
    assert(first.kind == FrameKind::Key);
    lemma_total_bytes_monotone(gop, 1);
    assert(gop.take(1).drop_last() =~= Seq::empty());
    assert(total_bytes(gop.take(1)) == first.data@.len());
    lemma_total_bytes_push(Seq::empty(), marked(first, true));
    assert(restarted(gop, 1) =~= Seq::<VideoSample>::empty().push(marked(first, true)));
    assert(pushed(fresh, first).0 =~= QueueState {
        frames: restarted(gop, 1),
        keyframe: GopState::KeyframeCached,
        ..fresh
    });
    lemma_seed_rest(gop, hub.generation, hub.bounds, 1);
    assert(seeded(fresh, gop, 0) == seeded(pushed(fresh, first).0, gop, 1));
}

/// The bytes of frames add up.
pub proof fn law_bytes_add_up(first: Seq<VideoSample>, second: Seq<VideoSample>, one: VideoSample)
    ensures
        total_bytes(Seq::empty()) == 0,
        total_bytes(seq![one]) == one.data@.len(),
        total_bytes(first + second) == total_bytes(first) + total_bytes(second),
    decreases second.len(),
{
    assert(seq![one].drop_last() =~= Seq::<VideoSample>::empty());
    assert(total_bytes(seq![one].drop_last()) == 0);
    if second.len() == 0 {
        assert(first + second =~= first);
    } else {
        law_bytes_add_up(first, second.drop_last(), one);
        assert((first + second).drop_last() =~= first + second.drop_last());
        assert((first + second).last() == second.last());
    }
}

/// What the stream goes on with: a sample that follows the one before without a gap, of
/// the same generation or the first of all.
pub open spec fn goes_on(generation: Option<Generation>, sample: VideoSample) -> bool {
    sample.continuity == Continuity::Continuous && (generation is None || generation->0
        == sample.metadata.generation)
}

/// A viewer who keeps up gets every sample as it is: one that goes on and fits joins the
/// end of a queue that can be decoded.
pub proof fn law_samples_join_the_end_of_the_queue(queue: QueueState, sample: VideoSample)
    requires
        goes_on(queue.generation, sample),
        queue.keyframe == GopState::KeyframeCached,
        queue.frames.len() < queue.bounds.frames,
        total_bytes(queue.frames) + sample.data@.len() <= queue.bounds.bytes,
    ensures
        pushed(queue, sample).1 == Pushed::Queued,
        pushed(queue, sample).0 == (QueueState {
            frames: queue.frames.push(sample),
            generation: Some(sample.metadata.generation),
            ..queue
        }),
{
}

/// A viewer who falls behind loses everything that waits. A delta that does not fit is
/// lost too, and the viewer waits for a keyframe; a keyframe that does not fit starts
/// over alone, marked as following a gap.
pub proof fn law_viewers_who_fall_behind_start_over(queue: QueueState, sample: VideoSample)
    requires
        goes_on(queue.generation, sample),
        queue.keyframe == GopState::KeyframeCached,
        queue.frames.len() >= queue.bounds.frames || total_bytes(queue.frames)
            + sample.data@.len() > queue.bounds.bytes,
    ensures
        sample.kind == FrameKind::Delta ==> {
            &&& pushed(queue, sample).1 == Pushed::Dropped
            &&& pushed(queue, sample).0.frames.len() == 0
            &&& pushed(queue, sample).0.keyframe == GopState::Recovering
        },
        sample.kind == FrameKind::Key ==> {
            &&& pushed(queue, sample).1 == Pushed::Queued
            &&& pushed(queue, sample).0.frames == seq![
                VideoSample { continuity: Continuity::AfterGap, ..sample },
            ]
            &&& pushed(queue, sample).0.keyframe == GopState::KeyframeCached
        },
{
}

/// Where the stream starts over, what waits is lost; a keyframe starts a new run,
/// marked as following a gap, and a delta is of no use.
pub proof fn law_breaks_clear_the_queue(queue: QueueState, sample: VideoSample)
    requires
        !goes_on(queue.generation, sample),
    ensures
        pushed(queue, sample).0.generation == Some(sample.metadata.generation),
        pushed(queue, sample).0.bounds == queue.bounds,
        sample.kind == FrameKind::Delta ==> {
            &&& pushed(queue, sample).1 == Pushed::Dropped
            &&& pushed(queue, sample).0.frames.len() == 0
            &&& pushed(queue, sample).0.keyframe == GopState::Recovering
        },
        sample.kind == FrameKind::Key ==> {
            &&& pushed(queue, sample).1 == Pushed::Queued
            &&& pushed(queue, sample).0.frames == seq![
                VideoSample { continuity: Continuity::AfterGap, ..sample },
            ]
            &&& pushed(queue, sample).0.keyframe == GopState::KeyframeCached
        },
{
}

/// A broadcast reaches every viewer and touches nothing but their queues: each queue
/// takes the sample itself, or the sample marked as following a gap where the stream
/// starts over, and the viewers who got it are told in their order.
pub proof fn law_broadcasts_reach_every_viewer(hub: HubState, sample: VideoSample, index: int)
    requires
        0 <= index < hub.viewers.len(),
    ensures
        ({
            let outgoing = if goes_on(hub.generation, sample) {
                sample
            } else {
                VideoSample { continuity: Continuity::AfterGap, ..sample }
            };
            let after = broadcasted(hub, sample);
            let told = queued_ids(hub.viewers, outgoing);
            &&& marked(sample, resets(hub.generation, sample)) == outgoing
            &&& after.viewers.len() == hub.viewers.len()
            &&& after.viewers[index].id == hub.viewers[index].id
            &&& after.viewers[index].queue == pushed(hub.viewers[index].queue, outgoing).0
            &&& after.generation == Some(sample.metadata.generation)
            &&& after.next_subscriber == hub.next_subscriber
            &&& after.bounds == hub.bounds
            &&& pushed(hub.viewers[index].queue, outgoing).1 == Pushed::Queued ==> told.contains(
                hub.viewers[index].id,
            )
        }),
{
    let outgoing = marked(sample, resets(hub.generation, sample));
    if pushed(hub.viewers[index].queue, outgoing).1 == Pushed::Queued {
        lemma_queued_are_told(hub.viewers, outgoing, index);
    }
}

proof fn lemma_queued_are_told(viewers: Seq<ViewerState>, outgoing: VideoSample, index: int)
    requires
        0 <= index < viewers.len(),
        pushed(viewers[index].queue, outgoing).1 == Pushed::Queued,
    ensures
        queued_ids(viewers, outgoing).contains(viewers[index].id),
    decreases viewers.len(),
{
    let told = queued_ids(viewers, outgoing);
    if index == viewers.len() - 1 {
        assert(told.last() == viewers[index].id);
    } else {
        let below = viewers.drop_last();
        assert(below[index] == viewers[index]);
        lemma_queued_are_told(below, outgoing, index);
        let earlier = queued_ids(below, outgoing);
        let i = choose|i: int| 0 <= i < earlier.len() && earlier[i] == viewers[index].id;
        assert(told[i] == earlier[i]);
    }
}

/// The viewers who got a sample, in their order: those of the first viewers and then
/// those of the others, each of whom is told exactly if their queue took the sample.
pub proof fn law_queued_viewers_are_told_in_order(
    first: Seq<ViewerState>,
    second: Seq<ViewerState>,
    viewer: ViewerState,
    outgoing: VideoSample,
)
    ensures
        queued_ids(first + second, outgoing) == queued_ids(first, outgoing) + queued_ids(
            second,
            outgoing,
        ),
        pushed(viewer.queue, outgoing).1 == Pushed::Queued ==> queued_ids(seq![viewer], outgoing)
            == seq![viewer.id],
        pushed(viewer.queue, outgoing).1 == Pushed::Dropped ==> queued_ids(seq![viewer], outgoing)
            == Seq::<SubscriberId>::empty(),
    decreases second.len(),
{
    assert(seq![viewer].drop_last() =~= Seq::<ViewerState>::empty());
    assert(queued_ids(seq![viewer].drop_last(), outgoing) =~= Seq::<SubscriberId>::empty());
    assert(Seq::<SubscriberId>::empty().push(viewer.id) =~= seq![viewer.id]);
    if second.len() == 0 {
        assert(first + second =~= first);
        assert(queued_ids(first, outgoing) + queued_ids(second, outgoing) =~= queued_ids(
            first,
            outgoing,
        ));
    } else {
        law_queued_viewers_are_told_in_order(first, second.drop_last(), viewer, outgoing);
        assert((first + second).drop_last() =~= first + second.drop_last());
        assert((first + second).last() == second.last());
        assert(queued_ids(first + second, outgoing) =~= queued_ids(first, outgoing) + queued_ids(
            second,
            outgoing,
        ));
    }
}

/// The cached group as its limits have it: a keyframe starts one, and a sample that goes
/// on joins the one at hand while that holds no more than 241 frames and 32 MiB; any
/// other delta leaves none.
pub proof fn law_the_cache_keeps_one_group(
    gop: Seq<VideoSample>,
    generation: Option<Generation>,
    sample: VideoSample,
)
    ensures
        sample.kind == FrameKind::Key ==> gop_after(gop, generation, sample) == seq![sample],
        sample.kind == FrameKind::Delta && gop.len() > 0 && goes_on(generation, sample)
            && gop.len() + 1 <= 241 && total_bytes(gop) + sample.data@.len() <= 33_554_432
            ==> gop_after(gop, generation, sample) == gop.push(sample),
        sample.kind == FrameKind::Delta && (gop.len() == 0 || !goes_on(generation, sample)
            || gop.len() + 1 > 241 || total_bytes(gop) + sample.data@.len() > 33_554_432)
            ==> gop_after(gop, generation, sample).len() == 0,
        VIEWER_BYTES == 33_554_432,
{
}

/// A queue that takes samples which go on, while they fit, holds them all in the order
/// in which they came.
pub proof fn law_viewers_see_samples_in_order(
    queue: QueueState,
    generation: Generation,
    samples: Seq<VideoSample>,
)
    requires
        queue.keyframe == GopState::KeyframeCached,
        queue.generation == Some(generation),
        forall|i: int|
            0 <= i < samples.len() ==> (#[trigger] samples[i]).continuity == Continuity::Continuous
                && samples[i].metadata.generation == generation,
        queue.frames.len() + samples.len() <= queue.bounds.frames,
        total_bytes(queue.frames) + total_bytes(samples) <= queue.bounds.bytes,
    ensures
        all_pushed(queue, samples) == (QueueState { frames: queue.frames + samples, ..queue }),
    decreases samples.len(),
{
    if samples.len() == 0 {
        assert(queue.frames + samples =~= queue.frames);
        assert(all_pushed(queue, samples) =~= QueueState {
            frames: queue.frames + samples,
            ..queue
        });
    } else {
        let earlier = samples.drop_last();
        let last = samples[samples.len() - 1];
        assert forall|i: int| 0 <= i < earlier.len() implies (#[trigger] earlier[i]).continuity
            == Continuity::Continuous && earlier[i].metadata.generation == generation by {
            assert(earlier[i] == samples[i]);
        }
        law_viewers_see_samples_in_order(queue, generation, earlier);
        law_bytes_add_up(queue.frames, earlier, last);
        assert(last.continuity == Continuity::Continuous && last.metadata.generation
            == generation);
        let before = all_pushed(queue, earlier);
        assert(pushed(before, last).0 =~= QueueState {
            frames: queue.frames + samples,
            ..queue
        }) by {
            assert((queue.frames + earlier).push(last) =~= queue.frames + samples);
        }
    }
}

/// The queue after the samples came in turn.
pub open spec fn all_pushed(queue: QueueState, samples: Seq<VideoSample>) -> QueueState
    decreases samples.len(),
{
    if samples.len() == 0 {
        queue
    } else {
        pushed(all_pushed(queue, samples.drop_last()), samples.last()).0
    }
}

/// A viewer joins with the next number and leaves the other viewers, the cached group
/// and the stream as they are; taking a frame takes the first of that viewer's queue,
/// and leaving removes that viewer and no other.
pub proof fn law_viewers_come_and_go_alone(hub: HubState, id: SubscriberId, other: int)
    requires
        distinct_ids(hub.viewers),
        0 <= other < hub.viewers.len(),
        hub.viewers[other].id != id,
    ensures
        hub.next_subscriber < u64::MAX ==> subscribed(hub).next_subscriber == hub.next_subscriber
            + 1,
        hub.next_subscriber == u64::MAX ==> subscribed(hub).next_subscriber == 0,
        hub.viewers[other].id.0 != hub.next_subscriber ==> subscribed(hub).viewers.contains(
            hub.viewers[other],
        ),
        subscribed(hub).gop == hub.gop && subscribed(hub).generation == hub.generation,
        exists|i: int|
            0 <= i < subscribed(hub).viewers.len() && #[trigger] subscribed(hub).viewers[i].id
                == SubscriberId(hub.next_subscriber),
        unsubscribed(hub, id).viewers.contains(hub.viewers[other]),
        unsubscribed(hub, id).gop == hub.gop && unsubscribed(hub, id).generation == hub.generation,
        forall|i: int|
            0 <= i < unsubscribed(hub, id).viewers.len() ==> (#[trigger] unsubscribed(
                hub,
                id,
            ).viewers[i]).id != id,
        taken(hub, id).viewers.len() == hub.viewers.len(),
        taken(hub, id).viewers[other] == hub.viewers[other],
        taken(hub, id).gop == hub.gop && taken(hub, id).generation == hub.generation,
        forall|i: int|
            0 <= i < hub.viewers.len() && (#[trigger] hub.viewers[i]).id == id && hub.viewers[i].queue.frames.len()
                > 0 ==> hub.viewers[i].queue.frames == seq![hub.viewers[i].queue.frames[0]] + taken(
                hub,
                id,
            ).viewers[i].queue.frames,
{
    let viewers = hub.viewers;
    lemma_viewer_index(viewers, id, 0);
    lemma_viewer_index(viewers, SubscriberId(hub.next_subscriber), 0);
    let joined = subscribed(hub).viewers;
    let fresh = new_viewer(hub);
    match viewer_index(viewers, fresh.id, 0) {
        Some(index) => {
            assert(joined[index] == fresh);
            if other != index {
                assert(joined[other] == viewers[other]);
            }
        },
        None => {
            assert(joined[joined.len() - 1] == fresh);
            assert(joined[other] == viewers[other]);
        },
    }
    let left = unsubscribed(hub, id).viewers;
    match viewer_index(viewers, id, 0) {
        Some(index) => {
            assert(left[if other < index {
                other
            } else {
                other - 1
            }] == viewers[other]);
            assert forall|i: int| 0 <= i < left.len() implies (#[trigger] left[i]).id != id by {
                if i < index {
                    assert(left[i] == viewers[i]);
                    assert(viewers[i].id != viewers[index].id);
                } else {
                    assert(left[i] == viewers[i + 1]);
                    assert(viewers[index].id != viewers[i + 1].id);
                }
            }
            assert forall|i: int|
                0 <= i < viewers.len() && (#[trigger] viewers[i]).id == id
                    && viewers[i].queue.frames.len() > 0 implies viewers[i].queue.frames == seq![
                viewers[i].queue.frames[0],
            ] + taken(hub, id).viewers[i].queue.frames by {
                if i < index {
                    assert(viewers[i].id != viewers[index].id);
                } else if index < i {
                    assert(viewers[index].id != viewers[i].id);
                }
                assert(viewers[i].queue.frames =~= seq![viewers[i].queue.frames[0]] + taken(
                    hub,
                    id,
                ).viewers[i].queue.frames);
            }
        },
        None => {
            assert(left[other] == viewers[other]);
        },
    }
}

/// A viewer is handed the frame that waits first, and a viewer with none, or one that is
/// not there, is handed nothing; the picture can be decoded while a group is cached.
pub proof fn law_viewers_take_their_first_frame(hub: HubState, id: SubscriberId, index: int)
    requires
        distinct_ids(hub.viewers),
    ensures
        0 <= index < hub.viewers.len() && hub.viewers[index].id == id
            && hub.viewers[index].queue.frames.len() > 0 ==> next_frame(hub, id) == Some(
            hub.viewers[index].queue.frames[0],
        ),
        0 <= index < hub.viewers.len() && hub.viewers[index].id == id
            && hub.viewers[index].queue.frames.len() == 0 ==> next_frame(hub, id) is None,
        (forall|i: int| 0 <= i < hub.viewers.len() ==> (#[trigger] hub.viewers[i]).id != id)
            ==> next_frame(hub, id) is None,
        cache_state(hub) == GopState::KeyframeCached <==> hub.gop.len() > 0,
{
    lemma_viewer_index(hub.viewers, id, 0);
    if 0 <= index < hub.viewers.len() && hub.viewers[index].id == id {
        let found = viewer_index(hub.viewers, id, 0)->0;
        if found < index {
            assert(hub.viewers[found].id != hub.viewers[index].id);
        } else if index < found {
            assert(hub.viewers[index].id != hub.viewers[found].id);
        }
    }
}

} // verus!
