//! What the gateway does with the compositor's events.

use crate::clock::Instant;
use crate::messages::{
    initial_cursor, ClientEvent, ClipboardText, CursorPosition, CursorState, Event,
};
use crate::values::FrameMetadata;
use std::collections::VecDeque;
use vstd::prelude::*;

verus! {

pub const PARTIAL_EVENT_DEADLINE_NANOS: u64 = 2_000_000_000;

pub const CURSOR_POSITION_PERIOD_NANOS: u64 = 16_000_000;

// ---------------------------------------------------------------------------
// Cursor positions
// ---------------------------------------------------------------------------

/// Lets the first cursor position of a burst through at once and after that the
/// latest one per period.
#[derive(Clone, Copy, Debug, PartialEq, Eq, Structural)]
pub enum CursorPositionGate {
    Open,
    Quiet { until: Instant, pending: Option<CursorPosition> },
}

pub open spec fn quiet_from(now: Instant) -> CursorPositionGate {
    CursorPositionGate::Quiet {
        until: now.spec_plus(CURSOR_POSITION_PERIOD_NANOS as int),
        pending: None,
    }
}

/// The limiter after a position, and the position if it goes out at once.
pub open spec fn pushed(
    gate: CursorPositionGate,
    position: CursorPosition,
    now: Instant,
) -> (CursorPositionGate, Option<CursorPosition>) {
    match gate {
        CursorPositionGate::Open => (quiet_from(now), Some(position)),
        CursorPositionGate::Quiet { until, .. } => (
            CursorPositionGate::Quiet { until, pending: Some(position) },
            None,
        ),
    }
}

impl CursorPositionGate {
    pub fn push(&mut self, position: CursorPosition, now: Instant) -> (r: Option<CursorPosition>)
        ensures
            (*final(self), r) == pushed(*old(self), position, now),
    {
        match *self {
            CursorPositionGate::Open => {
                *self =
                CursorPositionGate::Quiet {
                    until: now.plus(CURSOR_POSITION_PERIOD_NANOS),
                    pending: None,
                };
                Some(position)
            },
            CursorPositionGate::Quiet { until, .. } => {
                *self = CursorPositionGate::Quiet { until, pending: Some(position) };
                None
            },
        }
    }

    pub fn deadline(&self) -> (r: Option<Instant>)
        ensures
            r == match *self {
                CursorPositionGate::Open => None,
                CursorPositionGate::Quiet { until, .. } => Some(until),
            },
    {
        match self {
            CursorPositionGate::Open => None,
            CursorPositionGate::Quiet { until, .. } => Some(*until),
        }
    }

    /// The period is over: what was held back goes out and starts another, and if
    /// nothing was, positions pass at once again.
    pub fn flush(&mut self, now: Instant) -> (r: Option<CursorPosition>)
        ensures
            match *old(self) {
                CursorPositionGate::Quiet { pending: Some(position), .. } => r == Some(position)
                    && *final(self) == quiet_from(now),
                _ => r is None && *final(self) == CursorPositionGate::Open,
            },
    {
        match *self {
            CursorPositionGate::Quiet { pending: Some(position), .. } => {
                *self =
                CursorPositionGate::Quiet {
                    until: now.plus(CURSOR_POSITION_PERIOD_NANOS),
                    pending: None,
                };
                Some(position)
            },
            _ => {
                *self = CursorPositionGate::Open;
                None
            },
        }
    }
}

// ---------------------------------------------------------------------------
// What viewers are told
// ---------------------------------------------------------------------------

/// The latest state that a new viewer has to be told.
#[derive(Debug)]
pub struct AppEvents {
    pub latest_clipboard: Option<ClipboardText>,
    pub latest_cursor: CursorState,
}

/// What an event calls for.
#[derive(Debug)]
pub enum EventEffect {
    /// Goes to the video pipeline.
    Frame(FrameMetadata),
    /// Goes to every control socket.
    Publish(ClientEvent),
    Nothing,
}

impl AppEvents {
    pub fn new() -> (r: Self)
        ensures
            r.latest_clipboard is None,
            r.latest_cursor == initial_cursor(),
    {
        AppEvents { latest_clipboard: None, latest_cursor: CursorState::default() }
    }

    pub open spec fn spec_snapshot(self) -> Seq<ClientEvent> {
        match self.latest_clipboard {
            Some(text) => seq![
                ClientEvent::Cursor(self.latest_cursor),
                ClientEvent::Clipboard { text },
            ],
            None => seq![ClientEvent::Cursor(self.latest_cursor)],
        }
    }

    pub fn snapshot(&self) -> (r: Vec<ClientEvent>)
        ensures
            r@ == self.spec_snapshot(),
    {
        let mut events: Vec<ClientEvent> = Vec::new();
        events.push(ClientEvent::Cursor(self.latest_cursor));
        match &self.latest_clipboard {
            Some(text) => {
                events.push(ClientEvent::Clipboard { text: text.clone() });
            },
            None => {},
        }
        events
    }

    pub fn latest_clipboard(&self) -> (r: Option<ClipboardText>)
        ensures
            r == self.latest_clipboard,
    {
        match &self.latest_clipboard {
            Some(text) => Some(text.clone()),
            None => None,
        }
    }

    /// The state after an event, apart from cursor positions.
    pub open spec fn noted(self, event: Event) -> AppEvents {
        match event {
            Event::Clipboard(text) => AppEvents { latest_clipboard: Some(text), ..self },
            Event::CursorShape(shape) => AppEvents {
                latest_cursor: CursorState { shape, ..self.latest_cursor },
                ..self
            },
            Event::CursorVisibility(visibility) => AppEvents {
                latest_cursor: CursorState { visibility, ..self.latest_cursor },
                ..self
            },
            _ => self,
        }
    }

    pub open spec fn moved(self, position: CursorPosition) -> AppEvents {
        AppEvents {
            latest_cursor: CursorState { position: Some(position), ..self.latest_cursor },
            ..self
        }
    }

    /// The state, the limiter and the effect after an event.
    pub open spec fn handled(self, gate: CursorPositionGate, event: Event, now: Instant) -> (
        AppEvents,
        CursorPositionGate,
        EventEffect,
    ) {
        match event {
            Event::CursorPosition(position) => match pushed(gate, position, now) {
                (after, Some(out)) => (
                    self.moved(out),
                    after,
                    EventEffect::Publish(ClientEvent::Cursor(self.moved(out).latest_cursor)),
                ),
                (after, None) => (self, after, EventEffect::Nothing),
            },
            Event::Frame(metadata) => (self.noted(event), gate, EventEffect::Frame(metadata)),
            Event::Clipboard(text) => (
                self.noted(event),
                gate,
                EventEffect::Publish(ClientEvent::Clipboard { text }),
            ),
            Event::ResizeApplied(applied) => (
                self.noted(event),
                gate,
                EventEffect::Publish(ClientEvent::ResizeApplied(applied)),
            ),
            _ => (
                self.noted(event),
                gate,
                EventEffect::Publish(ClientEvent::Cursor(self.noted(event).latest_cursor)),
            ),
        }
    }

    /// The state, the limiter and what is published after the quiet period.
    pub open spec fn flushed(self, gate: CursorPositionGate, now: Instant) -> (
        AppEvents,
        CursorPositionGate,
        Option<ClientEvent>,
    ) {
        match gate {
            CursorPositionGate::Quiet { pending: Some(position), .. } => (
                self.moved(position),
                quiet_from(now),
                Some(ClientEvent::Cursor(self.moved(position).latest_cursor)),
            ),
            _ => (self, CursorPositionGate::Open, None),
        }
    }

    fn move_cursor(&mut self, position: CursorPosition) -> (r: ClientEvent)
        ensures
            *final(self) == old(self).moved(position),
            r == ClientEvent::Cursor(final(self).latest_cursor),
    {
        self.latest_cursor.position = Some(position);
        ClientEvent::Cursor(self.latest_cursor)
    }

    /// Handles one event of the compositor.
    pub fn handle(&mut self, gate: &mut CursorPositionGate, event: Event, now: Instant) -> (r:
        EventEffect)
        ensures
            match event {
                Event::CursorPosition(position) => match *old(gate) {
                    CursorPositionGate::Open => {
                        &&& *final(self) == old(self).moved(position)
                        &&& *final(gate) == quiet_from(now)
                        &&& r == EventEffect::Publish(
                            ClientEvent::Cursor(final(self).latest_cursor),
                        )
                    },
                    CursorPositionGate::Quiet { until, .. } => {
                        &&& *final(self) == *old(self)
                        &&& *final(gate) == (CursorPositionGate::Quiet {
                            until,
                            pending: Some(position),
                        })
                        &&& r is Nothing
                    },
                },
                _ => {
                    &&& *final(gate) == *old(gate)
                    &&& *final(self) == old(self).noted(event)
                    &&& r == match event {
                        Event::Frame(metadata) => EventEffect::Frame(metadata),
                        Event::Clipboard(text) => EventEffect::Publish(
                            ClientEvent::Clipboard { text },
                        ),
                        Event::ResizeApplied(applied) => EventEffect::Publish(
                            ClientEvent::ResizeApplied(applied),
                        ),
                        _ => EventEffect::Publish(ClientEvent::Cursor(final(self).latest_cursor)),
                    }
                },
            },
            (*final(self), *final(gate), r) == old(self).handled(*old(gate), event, now),
    {
        match event {
            Event::Frame(metadata) => EventEffect::Frame(metadata),
            Event::Clipboard(text) => {
                self.latest_clipboard = Some(text.clone());
                EventEffect::Publish(ClientEvent::Clipboard { text })
            },
            Event::ResizeApplied(applied) => EventEffect::Publish(
                ClientEvent::ResizeApplied(applied),
            ),
            Event::CursorShape(shape) => {
                self.latest_cursor.shape = shape;
                EventEffect::Publish(ClientEvent::Cursor(self.latest_cursor))
            },
            Event::CursorVisibility(visibility) => {
                self.latest_cursor.visibility = visibility;
                EventEffect::Publish(ClientEvent::Cursor(self.latest_cursor))
            },
            Event::CursorPosition(position) => match gate.push(position, now) {
                Some(position) => EventEffect::Publish(self.move_cursor(position)),
                None => EventEffect::Nothing,
            },
        }
    }

    /// The quiet period is over.
    pub fn flush(&mut self, gate: &mut CursorPositionGate, now: Instant) -> (r: Option<ClientEvent>)
        ensures
            match *old(gate) {
                CursorPositionGate::Quiet { pending: Some(position), .. } => {
                    &&& *final(gate) == quiet_from(now)
                    &&& *final(self) == old(self).moved(position)
                    &&& r == Some(ClientEvent::Cursor(final(self).latest_cursor))
                },
                _ => {
                    &&& *final(gate) == CursorPositionGate::Open
                    &&& *final(self) == *old(self)
                    &&& r is None
                },
            },
            (*final(self), *final(gate), r) == old(self).flushed(*old(gate), now),
    {
        match gate.flush(now) {
            Some(position) => Some(self.move_cursor(position)),
            None => None,
        }
    }
}

// ---------------------------------------------------------------------------
// Reading the pipe
// ---------------------------------------------------------------------------

#[derive(Clone, Copy, Debug, PartialEq, Eq, Structural)]
pub enum EventReadError {
    Closed,
    Truncated,
    Stalled { after_nanos: u64 },
}

/// Events that were decoded but not taken yet, and since when a record is incomplete.
/// Both outlive a read that is given up, so giving one up loses nothing and does not
/// extend the deadline.
#[derive(Debug)]
pub struct EventReader<T> {
    pub ready: VecDeque<T>,
    pub partial_since: Option<Instant>,
}

/// Since when the record at the end of the buffer is incomplete. A record that follows
/// a completed one in the same read is a new one and gets a deadline of its own.
pub open spec fn partial_after(
    since: Option<Instant>,
    was_pending: int,
    completed: bool,
    pending: int,
    now: Instant,
) -> Option<Instant> {
    if pending == 0 {
        None
    } else if was_pending == 0 || completed {
        Some(now)
    } else {
        since
    }
}

/// Until when a record that is incomplete since then must be continued.
pub open spec fn continued_by(since: Option<Instant>) -> Option<Instant> {
    match since {
        Some(since) => Some(since.spec_plus(PARTIAL_EVENT_DEADLINE_NANOS as int)),
        None => None,
    }
}

/// How long a record has been incomplete.
pub open spec fn stalled_for(since: Option<Instant>, now: Instant) -> u64 {
    match since {
        Some(since) => if now.nanos >= since.nanos {
            (now.nanos - since.nanos) as u64
        } else {
            0
        },
        None => 0,
    }
}

/// What the end of the pipe means with so many bytes of an incomplete record.
pub open spec fn end_error(pending: int) -> EventReadError {
    if pending == 0 {
        EventReadError::Closed
    } else {
        EventReadError::Truncated
    }
}

impl<T> EventReader<T> {
    pub fn new() -> (r: Self)
        ensures
            r.ready@ == Seq::<T>::empty(),
            r.partial_since is None,
    {
        EventReader { ready: VecDeque::new(), partial_since: None }
    }

    /// The next event, if one is ready without reading.
    pub fn next(&mut self) -> (r: Option<T>)
        ensures
            final(self).partial_since == old(self).partial_since,
            if old(self).ready@.len() > 0 {
                r == Some(old(self).ready@[0]) && final(self).ready@ == old(self).ready@.skip(1)
            } else {
                r is None && final(self).ready@ == old(self).ready@
            },
    {
        let event = self.ready.pop_front();
        proof {
            if event is Some {
                assert(self.ready@ =~= old(self).ready@.skip(1));
            }
        }
        event
    }

    /// Until when the incomplete record must be continued.
    pub fn read_deadline(&self) -> (r: Option<Instant>)
        ensures
            r == match self.partial_since {
                Some(since) => Some(since.spec_plus(PARTIAL_EVENT_DEADLINE_NANOS as int)),
                None => None,
            },
            r == continued_by(self.partial_since),
    {
        match self.partial_since {
            Some(since) => Some(since.plus(PARTIAL_EVENT_DEADLINE_NANOS)),
            None => None,
        }
    }

    /// The deadline passed without input.
    pub fn stalled(&self, now: Instant) -> (r: EventReadError)
        ensures
            r == (EventReadError::Stalled {
                after_nanos: match self.partial_since {
                    Some(since) => if now.nanos >= since.nanos {
                        (now.nanos - since.nanos) as u64
                    } else {
                        0
                    },
                    None => 0,
                },
            }),
            r == (EventReadError::Stalled { after_nanos: stalled_for(self.partial_since, now) }),
    {
        let after_nanos: u64 = match self.partial_since {
            Some(since) => now.since(since),
            None => 0,
        };
        EventReadError::Stalled { after_nanos }
    }

    /// The pipe ended with so many bytes of an incomplete record.
    pub fn ended(pending: usize) -> (r: EventReadError)
        ensures
            r == if pending == 0 {
                EventReadError::Closed
            } else {
                EventReadError::Truncated
            },
            r == end_error(pending as int),
    {
        if pending == 0 {
            EventReadError::Closed
        } else {
            EventReadError::Truncated
        }
    }

    /// Input was decoded: `was_pending` and `pending` are the bytes of an incomplete
    /// record before and after it.
    pub fn decoded(&mut self, events: Vec<T>, was_pending: usize, pending: usize, now: Instant)
        ensures
            final(self).ready@ == old(self).ready@ + events@,
            final(self).partial_since == partial_after(
                old(self).partial_since,
                was_pending as int,
                events@.len() > 0,
                pending as int,
                now,
            ),
    {
        let completed = events.len() > 0;
        append_all(&mut self.ready, events);
        if pending == 0 {
            self.partial_since = None;
        } else if was_pending == 0 || completed {
            self.partial_since = Some(now);
        }
    }
}

fn append_all<T>(queue: &mut VecDeque<T>, events: Vec<T>)
    ensures
        final(queue)@ == old(queue)@ + events@,
{
    let mut reversed: Vec<T> = Vec::new();
    let mut events = events;
    let ghost all = events@;
    while events.len() > 0
        invariant
            events@ + reversed@.reverse() == all,
        decreases events@.len(),
    {
        let ghost before = events@;
        let ghost done = reversed@;
        match events.pop() {
            Some(event) => {
                reversed.push(event);
                proof {
                    assert(events@ + reversed@.reverse() =~= before + done.reverse());
                }
            },
            None => {},
        }
    }
    assert(reversed@.reverse() =~= all);
    while reversed.len() > 0
        invariant
            queue@ + reversed@.reverse() == old(queue)@ + all,
        decreases reversed@.len(),
    {
        let ghost before = queue@;
        let ghost rest = reversed@;
        match reversed.pop() {
            Some(event) => {
                queue.push_back(event);
                proof {
                    assert(queue@ + reversed@.reverse() =~= before + rest.reverse());
                }
            },
            None => {},
        }
    }
    assert(queue@ =~= old(queue)@ + all);
}

/// Where a gate stands after a burst of positions at the given times.
pub open spec fn gate_after(
    gate: CursorPositionGate,
    burst: Seq<(CursorPosition, Instant)>,
) -> CursorPositionGate
    decreases burst.len(),
{
    if burst.len() == 0 {
        gate
    } else {
        let (position, now) = burst.last();
        pushed(gate_after(gate, burst.drop_last()), position, now).0
    }
}

/// While a gate is quiet, positions only replace each other: after any burst what it
/// holds back is the latest, and the end of its period has not moved.
pub proof fn law_gate_keeps_the_latest(
    until: Instant,
    pending: Option<CursorPosition>,
    burst: Seq<(CursorPosition, Instant)>,
)
    ensures
        gate_after(CursorPositionGate::Quiet { until, pending }, burst) == (
        CursorPositionGate::Quiet {
            until,
            pending: if burst.len() > 0 {
                Some(burst.last().0)
            } else {
                pending
            },
        }),
    decreases burst.len(),
{
    if burst.len() > 0 {
        law_gate_keeps_the_latest(until, pending, burst.drop_last());
    }
}

/// A viewer who joins is told the cursor and the clipboard as the latest events left
/// them: each event changes what it says and nothing else, and is published as it is.
pub proof fn law_newcomers_are_told_the_latest(
    app: AppEvents,
    gate: CursorPositionGate,
    event: Event,
    now: Instant,
)
    ensures
        ({
            let (after, passed, effect) = app.handled(gate, event, now);
            let cursor = after.latest_cursor;
            &&& after.spec_snapshot()[0] == ClientEvent::Cursor(cursor)
            &&& event matches Event::Clipboard(text) ==> after.latest_clipboard == Some(text)
                && after.spec_snapshot().len() == 2 && after.spec_snapshot()[1] == (
            ClientEvent::Clipboard { text }) && effect == EventEffect::Publish(
                ClientEvent::Clipboard { text },
            )
            &&& !(event is Clipboard) ==> after.latest_clipboard == app.latest_clipboard
            &&& event matches Event::CursorShape(shape) ==> cursor.shape == shape
                && cursor.visibility == app.latest_cursor.visibility && cursor.position
                == app.latest_cursor.position
            &&& event matches Event::CursorVisibility(visibility) ==> cursor.visibility
                == visibility && cursor.shape == app.latest_cursor.shape && cursor.position
                == app.latest_cursor.position
            &&& event is CursorShape || event is CursorVisibility ==> effect
                == EventEffect::Publish(ClientEvent::Cursor(cursor))
            &&& event matches Event::Frame(metadata) ==> effect == EventEffect::Frame(metadata)
                && cursor == app.latest_cursor
            &&& event matches Event::ResizeApplied(applied) ==> effect == EventEffect::Publish(
                ClientEvent::ResizeApplied(applied),
            ) && cursor == app.latest_cursor
            &&& !(event is CursorPosition) ==> passed == gate
        }),
        app.latest_clipboard is None ==> app.spec_snapshot().len() == 1,
        initial_cursor() == (CursorState {
            shape: crate::messages::CursorShape(0),
            visibility: crate::messages::CursorVisibility::Visible,
            position: None,
        }),
{
}

/// The first position of a burst is published at once and starts a quiet period of 16
/// milliseconds; within it positions wait. At its end the one that waits is published
/// and starts another, and without one the next position passes at once.
pub proof fn law_positions_pass_once_a_period(
    app: AppEvents,
    position: CursorPosition,
    now: Instant,
    until: Instant,
    pending: Option<CursorPosition>,
)
    requires
        now.nanos <= u64::MAX - 16_000_000,
    ensures
        ({
            let (after, gate, effect) = app.handled(
                CursorPositionGate::Open,
                Event::CursorPosition(position),
                now,
            );
            &&& after.latest_cursor == (CursorState {
                position: Some(position),
                ..app.latest_cursor
            })
            &&& gate == (CursorPositionGate::Quiet {
                until: Instant { nanos: (now.nanos + 16_000_000) as u64 },
                pending: None,
            })
            &&& effect == EventEffect::Publish(ClientEvent::Cursor(after.latest_cursor))
        }),
        ({
            let (after, gate, effect) = app.handled(
                CursorPositionGate::Quiet { until, pending },
                Event::CursorPosition(position),
                now,
            );
            &&& after == app
            &&& gate == (CursorPositionGate::Quiet { until, pending: Some(position) })
            &&& effect is Nothing
        }),
        ({
            let (after, gate, published) = app.flushed(
                CursorPositionGate::Quiet { until, pending: Some(position) },
                now,
            );
            &&& after.latest_cursor == (CursorState {
                position: Some(position),
                ..app.latest_cursor
            })
            &&& after.latest_clipboard == app.latest_clipboard
            &&& gate == (CursorPositionGate::Quiet {
                until: Instant { nanos: (now.nanos + 16_000_000) as u64 },
                pending: None,
            })
            &&& published == Some(ClientEvent::Cursor(after.latest_cursor))
        }),
        app.flushed(CursorPositionGate::Quiet { until, pending: None }, now) == (
            app,
            CursorPositionGate::Open,
            None::<ClientEvent>,
        ),
{
}

/// An incomplete record is timed from the read that brought its first bytes, however
/// often it is continued; nothing is timed while none is incomplete.
pub proof fn law_incomplete_records_are_timed_once(
    since: Option<Instant>,
    was_pending: int,
    pending: int,
    now: Instant,
)
    ensures
        partial_after(since, was_pending, false, 0, now) is None,
        partial_after(since, was_pending, true, 0, now) is None,
        pending > 0 && was_pending > 0 ==> partial_after(since, was_pending, false, pending, now)
            == since,
        pending > 0 ==> partial_after(since, 0, false, pending, now) == Some(now),
        pending > 0 ==> partial_after(since, was_pending, true, pending, now) == Some(now),
{
}

/// An incomplete record must be continued within two seconds of its first bytes; how long
/// it stalled is told, and so is whether the pipe ended between two records.
pub proof fn law_incomplete_records_stall(since: Instant, now: Instant, pending: int)
    requires
        since.nanos <= u64::MAX - 2_000_000_000,
        pending > 0,
    ensures
        continued_by(Some(since)) == Some(Instant { nanos: (since.nanos + 2_000_000_000) as u64 }),
        continued_by(None) is None,
        now.nanos >= since.nanos ==> stalled_for(Some(since), now) + since.nanos == now.nanos,
        now.nanos < since.nanos ==> stalled_for(Some(since), now) == 0,
        stalled_for(None, now) == 0,
        end_error(0) == EventReadError::Closed,
        end_error(pending) == EventReadError::Truncated,
{
}

} // verus!
