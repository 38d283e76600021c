//! What a control socket does: the browser's messages, the events it is shown, and
//! how the connection ends.

use crate::messages::{
    ClientEvent, ClientMessage, ClipboardText, Command, ControlState,
};
use crate::quality::Feedback;
use crate::session::{FeedbackOutcome, InputOutcome, OwnershipState};
use crate::socket::{in_context, with_context, CloseFrame, SocketEnd, SocketFailure};
use crate::text::{signed_decimal, signed_decimal_text};
use crate::values::QualityLevels;
use vstd::prelude::*;

verus! {

#[derive(Clone, Copy, Debug, PartialEq, Eq, Structural)]
pub enum Audience {
    Everyone,
    LeaseOwner,
}

/// Whether the socket believes that it owns the input.
#[derive(Clone, Copy, Debug, PartialEq, Eq, Structural)]
pub enum Lease {
    Held,
    NotHeld,
}

/// Clipboard contents and refusals concern the owner alone.
pub open spec fn spec_audience(event: ClientEvent) -> Audience {
    match event {
        ClientEvent::Clipboard { .. } | ClientEvent::ResetVideoRefused => Audience::LeaseOwner,
        _ => Audience::Everyone,
    }
}

pub fn audience(event: &ClientEvent) -> (r: Audience)
    ensures
        r == spec_audience(*event),
{
    match event {
        ClientEvent::Clipboard { .. } | ClientEvent::ResetVideoRefused => Audience::LeaseOwner,
        _ => Audience::Everyone,
    }
}

pub open spec fn shown(event: ClientEvent, lease: Lease) -> bool {
    spec_audience(event) == Audience::Everyone || lease == Lease::Held
}

fn is_shown(event: &ClientEvent, lease: Lease) -> (r: bool)
    ensures
        r == shown(*event, lease),
{
    match audience(event) {
        Audience::Everyone => true,
        Audience::LeaseOwner => lease == Lease::Held,
    }
}

/// The events of a snapshot that a socket is shown, in order, up to `upto`.
pub open spec fn visible(snapshot: Seq<ClientEvent>, lease: Lease, upto: int) -> Seq<ClientEvent>
    decreases upto,
{
    if upto <= 0 {
        Seq::empty()
    } else {
        let earlier = visible(snapshot, lease, upto - 1);
        if shown(snapshot[upto - 1], lease) {
            earlier.push(snapshot[upto - 1])
        } else {
            earlier
        }
    }
}

/// What brings a socket up to date: what it may see of the snapshot, then the quality.
pub fn snapshot_messages(snapshot: &Vec<ClientEvent>, quality: QualityLevels, lease: Lease) -> (r:
    Vec<ClientEvent>)
    ensures
        r@ == visible(snapshot@, lease, snapshot@.len() as int).push(ClientEvent::Quality(quality)),
{
    let mut messages: Vec<ClientEvent> = Vec::new();
    let mut at: usize = 0;
    while at < snapshot.len()
        invariant
            at <= snapshot@.len(),
            messages@ == visible(snapshot@, lease, at as int),
        decreases snapshot@.len() - at,
    {
        if is_shown(&snapshot[at], lease) {
            messages.push(snapshot[at].clone());
        }
        at = at + 1;
    }
    messages.push(ClientEvent::Quality(quality));
    messages
}

/// What comes from the event channel.
#[derive(Debug)]
pub enum EventReceived {
    Event(ClientEvent),
    Lagged,
    Closed,
}

#[derive(Debug)]
pub enum Dispatch {
    Send(ClientEvent),
    Skip,
    /// Events were missed: send a fresh snapshot.
    Resynchronise,
    End(SocketEnd),
}

/// Whether a dispatch is what follows from what came.
pub open spec fn dispatches(lease: Lease, received: EventReceived, dispatch: Dispatch) -> bool {
    match received {
        EventReceived::Event(event) => if shown(event, lease) {
            dispatch == Dispatch::Send(event)
        } else {
            dispatch is Skip
        },
        EventReceived::Lagged => dispatch is Resynchronise,
        EventReceived::Closed => dispatch matches Dispatch::End(end) && end.is_failed_with(
            "control event broadcaster closed"@,
        ),
    }
}

/// An event is sent to those whom it concerns; a gap is made good by a snapshot.
pub fn dispatch_control_event(lease: Lease, received: EventReceived) -> (r: Dispatch)
    ensures
        match received {
            EventReceived::Event(event) => if shown(event, lease) {
                r == Dispatch::Send(event)
            } else {
                r is Skip
            },
            EventReceived::Lagged => r is Resynchronise,
            EventReceived::Closed => r matches Dispatch::End(end) && end.is_failed_with(
                "control event broadcaster closed"@,
            ),
        },
        dispatches(lease, received, r),
{
    match received {
        EventReceived::Event(event) => {
            if is_shown(&event, lease) {
                Dispatch::Send(event)
            } else {
                Dispatch::Skip
            }
        },
        EventReceived::Lagged => Dispatch::Resynchronise,
        EventReceived::Closed => Dispatch::End(
            SocketEnd::failed(String::from_str("control event broadcaster closed")),
        ),
    }
}

// ---------------------------------------------------------------------------
// Messages of the browser
// ---------------------------------------------------------------------------

/// What a command that is sent for the browser is for.
#[derive(Clone, Copy, Debug, PartialEq, Eq, Structural)]
pub enum InputPurpose {
    Text,
    Clipboard,
    ResetVideo,
    Binary,
}

impl InputPurpose {
    pub open spec fn spec_context(self) -> Seq<char> {
        match self {
            InputPurpose::Text => "send text input"@,
            InputPurpose::Clipboard => "send clipboard input"@,
            InputPurpose::ResetVideo => "reset video"@,
            InputPurpose::Binary => "send binary input"@,
        }
    }

    /// What was being done when sending fails.
    pub fn context(self) -> (r: &'static str)
        ensures
            r@ == self.spec_context(),
    {
        match self {
            InputPurpose::Text => "send text input",
            InputPurpose::Clipboard => "send clipboard input",
            InputPurpose::ResetVideo => "reset video",
            InputPurpose::Binary => "send binary input",
        }
    }
}

/// What a message asks to be done; each is followed by the session's answer to the
/// result.
#[derive(Debug)]
pub enum ControlAction {
    Acquire,
    Release,
    ReadClock { id: u64 },
    ApplyFeedback(Feedback),
    SendInput { command: Command, purpose: InputPurpose },
    Ignore,
}

/// Input of a socket that does not hold the lease is ignored; everything else is
/// decided by the session.
pub open spec fn action_of(lease: Lease, message: ClientMessage) -> ControlAction {
    match message {
        ClientMessage::AcquireControl => ControlAction::Acquire,
        ClientMessage::ReleaseControl => ControlAction::Release,
        ClientMessage::Ping { id } => ControlAction::ReadClock { id },
        ClientMessage::Feedback(feedback) => ControlAction::ApplyFeedback(feedback),
        ClientMessage::Text { action, text, sequence } => input_of(
            lease,
            Command::Text { action, sequence, text },
            InputPurpose::Text,
        ),
        ClientMessage::ClipboardWrite { clipboard } => input_of(
            lease,
            Command::Clipboard(clipboard),
            InputPurpose::Clipboard,
        ),
        ClientMessage::ResetVideo => input_of(
            lease,
            Command::ResetVideo,
            InputPurpose::ResetVideo,
        ),
    }
}

pub open spec fn input_of(lease: Lease, command: Command, purpose: InputPurpose) -> ControlAction {
    match lease {
        Lease::Held => ControlAction::SendInput { command, purpose },
        Lease::NotHeld => ControlAction::Ignore,
    }
}

/// The lease after an acquisition was settled.
pub open spec fn lease_after(state: OwnershipState) -> Lease {
    match state {
        OwnershipState::Active => Lease::Held,
        OwnershipState::Busy => Lease::NotHeld,
    }
}

/// What a socket is told when its acquisition was settled.
pub open spec fn acquisition_events(state: OwnershipState, clipboard: Option<ClipboardText>) -> Seq<
    ClientEvent,
> {
    match (state, clipboard) {
        (OwnershipState::Active, Some(text)) => seq![
            ClientEvent::ControlState { state: ControlState::Active },
            ClientEvent::Clipboard { text },
        ],
        (OwnershipState::Active, None) => seq![
            ClientEvent::ControlState { state: ControlState::Active },
        ],
        (OwnershipState::Busy, _) => seq![ClientEvent::ControlState { state: ControlState::Busy }],
    }
}

/// The lease after the session has said what became of input.
pub open spec fn lease_after_input(lease: Lease, outcome: InputOutcome) -> Lease {
    match outcome {
        InputOutcome::Sent => lease,
        InputOutcome::NotInputOwner => Lease::NotHeld,
    }
}

/// One control socket's side of the session.
#[derive(Debug)]
pub struct ControlSession {
    pub lease: Lease,
}

impl ControlSession {
    pub fn new() -> (r: Self)
        ensures
            r.lease == Lease::NotHeld,
    {
        ControlSession { lease: Lease::NotHeld }
    }

    fn input(&self, command: Command, purpose: InputPurpose) -> (r: ControlAction)
        ensures
            r == input_of(self.lease, command, purpose),
    {
        match self.lease {
            Lease::Held => ControlAction::SendInput { command, purpose },
            Lease::NotHeld => ControlAction::Ignore,
        }
    }

    /// What a message in text form asks for.
    pub fn handle_text(&self, message: ClientMessage) -> (r: ControlAction)
        ensures
            r == action_of(self.lease, message),
    {
        match message {
            ClientMessage::AcquireControl => ControlAction::Acquire,
            ClientMessage::ReleaseControl => ControlAction::Release,
            ClientMessage::Ping { id } => ControlAction::ReadClock { id },
            ClientMessage::Feedback(feedback) => ControlAction::ApplyFeedback(feedback),
            ClientMessage::Text { action, text, sequence } => self.input(
                Command::Text { action, sequence, text },
                InputPurpose::Text,
            ),
            ClientMessage::ClipboardWrite { clipboard } => self.input(
                Command::Clipboard(clipboard),
                InputPurpose::Clipboard,
            ),
            ClientMessage::ResetVideo => self.input(Command::ResetVideo, InputPurpose::ResetVideo),
        }
    }

    /// What a message in binary form asks for.
    pub fn handle_binary(&self, command: Command) -> (r: ControlAction)
        ensures
            r == input_of(self.lease, command, InputPurpose::Binary),
    {
        self.input(command, InputPurpose::Binary)
    }

    /// The acquisition was settled. A new owner is told so, and then what the clipboard
    /// holds.
    pub fn acquired(&mut self, state: OwnershipState, clipboard: Option<ClipboardText>) -> (r: Vec<
        ClientEvent,
    >)
        ensures
            match state {
                OwnershipState::Active => {
                    &&& final(self).lease == Lease::Held
                    &&& r@ == match clipboard {
                        Some(text) => seq![
                            ClientEvent::ControlState { state: ControlState::Active },
                            ClientEvent::Clipboard { text },
                        ],
                        None => seq![ClientEvent::ControlState { state: ControlState::Active }],
                    }
                },
                OwnershipState::Busy => {
                    &&& final(self).lease == Lease::NotHeld
                    &&& r@ == seq![ClientEvent::ControlState { state: ControlState::Busy }]
                },
            },
            final(self).lease == lease_after(state),
            r@ == acquisition_events(state, clipboard),
    {
        let mut events: Vec<ClientEvent> = Vec::new();
        match state {
            OwnershipState::Active => {
                self.lease = Lease::Held;
                events.push(ClientEvent::ControlState { state: ControlState::Active });
                match clipboard {
                    Some(text) => {
                        events.push(ClientEvent::Clipboard { text });
                    },
                    None => {},
                }
            },
            OwnershipState::Busy => {
                self.lease = Lease::NotHeld;
                events.push(ClientEvent::ControlState { state: ControlState::Busy });
            },
        }
        events
    }

    /// The release went through, whether or not the socket was the owner.
    pub fn released(&mut self) -> (r: ClientEvent)
        ensures
            final(self).lease == Lease::NotHeld,
            r == (ClientEvent::ControlState { state: ControlState::Ready }),
    {
        self.lease = Lease::NotHeld;
        ClientEvent::ControlState { state: ControlState::Ready }
    }

    /// Whether the session disagreed that this socket owns the input; the socket then
    /// gives up its belief.
    pub fn input_settled(&mut self, outcome: InputOutcome) -> (disagreed: bool)
        ensures
            disagreed == (outcome == InputOutcome::NotInputOwner),
            final(self).lease == if disagreed {
                Lease::NotHeld
            } else {
                old(self).lease
            },
            final(self).lease == lease_after_input(old(self).lease, outcome),
    {
        match outcome {
            InputOutcome::Sent => false,
            InputOutcome::NotInputOwner => {
                self.lease = Lease::NotHeld;
                true
            },
        }
    }
}

/// What a socket is told of its feedback.
pub open spec fn feedback_answer(outcome: FeedbackOutcome) -> Option<ClientEvent> {
    match outcome {
        FeedbackOutcome::Applied(levels) => Some(ClientEvent::Quality(levels)),
        FeedbackOutcome::NotInputOwner => None,
    }
}

/// The answer to feedback that was applied.
pub fn feedback_event(outcome: FeedbackOutcome) -> (r: Option<ClientEvent>)
    ensures
        r == match outcome {
            FeedbackOutcome::Applied(levels) => Some(ClientEvent::Quality(levels)),
            FeedbackOutcome::NotInputOwner => None,
        },
        r == feedback_answer(outcome),
{
    match outcome {
        FeedbackOutcome::Applied(levels) => Some(ClientEvent::Quality(levels)),
        FeedbackOutcome::NotInputOwner => None,
    }
}

pub open spec fn clock_nanos(seconds: int, nanos: int) -> int {
    seconds * 1_000_000_000 + nanos
}

/// The answer to a ping: the monotonic clock in nanoseconds, as text.
pub fn pong(id: u64, seconds: i64, nanos: i64) -> (r: ClientEvent)
    ensures
        r matches ClientEvent::Pong { id: answered, server_nanos } && answered == id
            && server_nanos@ == signed_decimal(seconds * 1_000_000_000 + nanos),
        r matches ClientEvent::Pong { id: answered, server_nanos } && answered == id
            && server_nanos@ == signed_decimal(clock_nanos(seconds as int, nanos as int)),
{
    let total: i128 = seconds as i128 * 1_000_000_000 + nanos as i128;
    ClientEvent::Pong { id, server_nanos: signed_decimal_text(total) }
}

// ---------------------------------------------------------------------------
// The connection
// ---------------------------------------------------------------------------

#[derive(Clone, Copy, Debug, PartialEq, Eq, Structural)]
pub enum WriterStatus {
    Running,
    Finished,
}

/// How the task that writes to the socket ended.
#[derive(Debug)]
pub enum WriterEnd {
    Stopped,
    Failed(String),
    TaskFailed(String),
}

/// What the socket receives.
#[derive(Debug)]
pub enum Incoming {
    Text,
    Binary,
    Close(Option<CloseFrame>),
    Heartbeat,
    Failed(String),
    Ended,
}

/// What a control socket wakes for. Where several are ready the first counts.
#[derive(Debug)]
pub enum ControlWake {
    Cancelled,
    Writer(WriterEnd),
    Incoming(Incoming),
    Event(EventReceived),
}

#[derive(Debug)]
pub enum ControlStep {
    End { reason: SocketEnd, writer: WriterStatus },
    HandleText,
    HandleBinary,
    Dispatch(Dispatch),
    Continue,
}

/// Whether a step is what a control socket does about what woke it.
pub open spec fn answers_wake(lease: Lease, wake: ControlWake, step: ControlStep) -> bool {
    match wake {
        ControlWake::Cancelled => step == (ControlStep::End {
            reason: SocketEnd::Shutdown,
            writer: WriterStatus::Running,
        }),
        ControlWake::Writer(end) => step is End && step->writer == WriterStatus::Finished
            && match end {
            WriterEnd::Stopped => step->reason == SocketEnd::Shutdown,
            WriterEnd::Failed(cause) => step->reason.is_failed_with(cause@),
            WriterEnd::TaskFailed(cause) => step->reason.is_failed_with(
                in_context("control writer task failed"@, cause@),
            ),
        },
        ControlWake::Incoming(Incoming::Text) => step is HandleText,
        ControlWake::Incoming(Incoming::Binary) => step is HandleBinary,
        ControlWake::Incoming(Incoming::Heartbeat) => step is Continue,
        ControlWake::Incoming(incoming) => step is End && step->writer == WriterStatus::Running
            && match incoming {
            Incoming::Close(frame) => step->reason == SocketEnd::ClientClosed(frame),
            Incoming::Failed(cause) => step->reason.is_failed_with(
                in_context("WebSocket read failed"@, cause@),
            ),
            _ => step->reason == SocketEnd::Disconnected,
        },
        ControlWake::Event(received) => step matches ControlStep::Dispatch(dispatch) && dispatches(
            lease,
            received,
            dispatch,
        ),
    }
}

/// What a control socket does next, and whether its writer still runs when it ends.
pub fn control_step(lease: Lease, wake: ControlWake) -> (r: ControlStep)
    ensures
        match wake {
            ControlWake::Cancelled => r == (ControlStep::End {
                reason: SocketEnd::Shutdown,
                writer: WriterStatus::Running,
            }),
            ControlWake::Writer(end) => r matches ControlStep::End { reason, writer } && writer
                == WriterStatus::Finished && match end {
                WriterEnd::Stopped => reason == SocketEnd::Shutdown,
                WriterEnd::Failed(cause) => reason.is_failed_with(cause@),
                WriterEnd::TaskFailed(cause) => reason.is_failed_with(
                    in_context("control writer task failed"@, cause@),
                ),
            },
            ControlWake::Incoming(incoming) => match incoming {
                Incoming::Text => r is HandleText,
                Incoming::Binary => r is HandleBinary,
                Incoming::Heartbeat => r is Continue,
                Incoming::Close(frame) => r == (ControlStep::End {
                    reason: SocketEnd::ClientClosed(frame),
                    writer: WriterStatus::Running,
                }),
                Incoming::Ended => r == (ControlStep::End {
                    reason: SocketEnd::Disconnected,
                    writer: WriterStatus::Running,
                }),
                Incoming::Failed(cause) => r matches ControlStep::End { reason, writer } && writer
                    == WriterStatus::Running && reason.is_failed_with(
                    in_context("WebSocket read failed"@, cause@),
                ),
            },
            ControlWake::Event(EventReceived::Event(event)) => r == ControlStep::Dispatch(
                if shown(event, lease) {
                    Dispatch::Send(event)
                } else {
                    Dispatch::Skip
                },
            ),
            ControlWake::Event(EventReceived::Lagged) => r == ControlStep::Dispatch(
                Dispatch::Resynchronise,
            ),
            ControlWake::Event(EventReceived::Closed) => r matches ControlStep::Dispatch(
                Dispatch::End(end),
            ) && end.is_failed_with("control event broadcaster closed"@),
        },
        answers_wake(lease, wake, r),
{
    match wake {
        ControlWake::Cancelled => ControlStep::End {
            reason: SocketEnd::Shutdown,
            writer: WriterStatus::Running,
        },
        ControlWake::Writer(end) => {
            let reason = match end {
                WriterEnd::Stopped => SocketEnd::Shutdown,
                WriterEnd::Failed(cause) => SocketEnd::failed(cause),
                WriterEnd::TaskFailed(cause) => SocketEnd::failed_in_context(
                    "control writer task failed",
                    cause.as_str(),
                ),
            };
            ControlStep::End { reason, writer: WriterStatus::Finished }
        },
        ControlWake::Incoming(incoming) => match incoming {
            Incoming::Text => ControlStep::HandleText,
            Incoming::Binary => ControlStep::HandleBinary,
            Incoming::Heartbeat => ControlStep::Continue,
            Incoming::Close(frame) => ControlStep::End {
                reason: SocketEnd::ClientClosed(frame),
                writer: WriterStatus::Running,
            },
            Incoming::Ended => ControlStep::End {
                reason: SocketEnd::Disconnected,
                writer: WriterStatus::Running,
            },
            Incoming::Failed(cause) => ControlStep::End {
                reason: SocketEnd::failed_in_context("WebSocket read failed", cause.as_str()),
                writer: WriterStatus::Running,
            },
        },
        ControlWake::Event(received) => ControlStep::Dispatch(
            dispatch_control_event(lease, received),
        ),
    }
}

/// How the wait for the writer to stop ended.
#[derive(Debug)]
pub enum WriterWait {
    /// The writer had ended before.
    Finished,
    Stopped,
    Failed(String),
    TaskFailed(String),
    Elapsed,
}

pub open spec fn writer_error(wait: WriterWait) -> Option<Seq<char>> {
    match wait {
        WriterWait::Finished | WriterWait::Stopped => None,
        WriterWait::Failed(cause) => Some(cause@),
        WriterWait::TaskFailed(cause) => Some(
            in_context("control writer task failed"@, cause@),
        ),
        WriterWait::Elapsed => Some("control writer did not stop within 5s"@),
    }
}

/// What failed while a connection was cleaned up.
#[derive(Debug)]
pub enum CleanupFailure {
    Release(String),
    Writer(String),
    Both { release: String, writer: String },
}

impl CleanupFailure {
    pub open spec fn spec_render(self) -> Seq<char> {
        match self {
            CleanupFailure::Release(cause) => in_context("release input lease"@, cause@),
            CleanupFailure::Writer(cause) => in_context("control writer cleanup"@, cause@),
            CleanupFailure::Both { release, writer } => in_context(
                in_context(
                    "release input lease; control writer cleanup also failed"@,
                    writer@,
                ),
                release@,
            ),
        }
    }

    pub fn render(&self) -> (r: String)
        ensures
            r@ == self.spec_render(),
    {
        match self {
            CleanupFailure::Release(cause) => with_context("release input lease", cause.as_str()),
            CleanupFailure::Writer(cause) => with_context("control writer cleanup", cause.as_str()),
            CleanupFailure::Both { release, writer } => {
                let context = with_context(
                    "release input lease; control writer cleanup also failed",
                    writer.as_str(),
                );
                with_context(context.as_str(), release.as_str())
            },
        }
    }
}

/// The text of what failed, if anything did.
pub open spec fn cleanup_text(release: Option<Seq<char>>, writer: Option<Seq<char>>) -> Option<
    Seq<char>,
> {
    match (release, writer) {
        (Some(release), Some(writer)) => Some(
            in_context(
                in_context("release input lease; control writer cleanup also failed"@, writer),
                release,
            ),
        ),
        (Some(release), None) => Some(in_context("release input lease"@, release)),
        (None, Some(writer)) => Some(in_context("control writer cleanup"@, writer)),
        (None, None) => None,
    }
}

pub open spec fn text_view(text: Option<String>) -> Option<Seq<char>> {
    match text {
        Some(text) => Some(text@),
        None => None,
    }
}

/// Whether an end and a line for the log are what is left of a connection, given why it
/// ended and what failed while it was cleaned up.
pub open spec fn finished_as(
    reason: SocketEnd,
    cleanup: Option<Seq<char>>,
    end: SocketEnd,
    log: Option<Seq<char>>,
) -> bool {
    match (reason, cleanup) {
        (_, None) => end == reason && log is None,
        (SocketEnd::Failed(failure), Some(text)) => {
            &&& log is None
            &&& end matches SocketEnd::Failed(finished)
            &&& finished.primary == failure.primary
            &&& text_view(finished.cleanup) == Some(text)
        },
        (_, Some(text)) => end == reason && log == Some(text),
    }
}

/// The connection's end after cleanup. What failed then is attached to a failure, and
/// otherwise returned for the log.
pub fn finish_control_socket(
    reason: SocketEnd,
    release_error: Option<String>,
    writer_wait: WriterWait,
) -> (r: (SocketEnd, Option<String>))
    ensures
        ({
            let cleanup = cleanup_text(text_view(release_error), writer_error(writer_wait));
            match (reason, cleanup) {
                (_, None) => r.0 == reason && r.1 is None,
                (SocketEnd::Failed(failure), Some(text)) => {
                    &&& r.1 is None
                    &&& r.0 matches SocketEnd::Failed(finished)
                    &&& finished.primary == failure.primary
                    &&& text_view(finished.cleanup) == Some(text)
                },
                (_, Some(text)) => r.0 == reason && text_view(r.1) == Some(text),
            }
        }),
        finished_as(
            reason,
            cleanup_text(text_view(release_error), writer_error(writer_wait)),
            r.0,
            text_view(r.1),
        ),
{
    let writer: Option<String> = match writer_wait {
        WriterWait::Finished | WriterWait::Stopped => None,
        WriterWait::Failed(cause) => Some(cause),
        WriterWait::TaskFailed(cause) => Some(
            with_context("control writer task failed", cause.as_str()),
        ),
        WriterWait::Elapsed => Some(String::from_str("control writer did not stop within 5s")),
    };
    let failure = match (release_error, writer) {
        (Some(release), Some(writer)) => CleanupFailure::Both { release, writer },
        (Some(cause), None) => CleanupFailure::Release(cause),
        (None, Some(cause)) => CleanupFailure::Writer(cause),
        (None, None) => {
            return (reason, None);
        },
    };
    let text = failure.render();
    match reason {
        SocketEnd::Failed(failure) => (
            SocketEnd::Failed(SocketFailure { primary: failure.primary, cleanup: Some(text) }),
            None,
        ),
        other => (other, Some(text)),
    }
}

/// A socket that does not hold the lease causes no input, whatever it says.
pub proof fn law_only_the_lease_holder_sends_input(message: ClientMessage)
    ensures
        !(action_of(Lease::NotHeld, message) is SendInput),
{
}

/// What concerns the owner alone is shown to nobody else: no snapshot that a socket
/// without the lease is sent holds it.
pub proof fn law_private_events_stay_private(snapshot: Seq<ClientEvent>, upto: int, i: int)
    requires
        0 <= upto <= snapshot.len(),
        0 <= i < visible(snapshot, Lease::NotHeld, upto).len(),
    ensures
        spec_audience(visible(snapshot, Lease::NotHeld, upto)[i]) == Audience::Everyone,
    decreases upto,
{
    let earlier = visible(snapshot, Lease::NotHeld, upto - 1);
    if upto > 0 && i < earlier.len() {
        law_private_events_stay_private(snapshot, upto - 1, i);
    }
}

/// The owner is shown the whole snapshot.
pub proof fn law_owner_sees_everything(snapshot: Seq<ClientEvent>, upto: int)
    requires
        0 <= upto <= snapshot.len(),
    ensures
        visible(snapshot, Lease::Held, upto) == snapshot.take(upto),
    decreases upto,
{
    if upto > 0 {
        law_owner_sees_everything(snapshot, upto - 1);
        assert(snapshot.take(upto) =~= snapshot.take(upto - 1).push(snapshot[upto - 1]));
    } else {
        assert(snapshot.take(0) =~= Seq::empty());
    }
}

/// What the clipboard holds and that a reset was refused concern the lease's holder
/// alone; everything else is for everyone.
pub proof fn law_the_clipboard_is_private(event: ClientEvent)
    ensures
        shown(event, Lease::Held),
        shown(event, Lease::NotHeld) <==> !(event is Clipboard) && !(event is ResetVideoRefused),
{
}

/// A snapshot shows a socket its events in order: those shown of a part, and then the
/// next one if it is shown itself.
pub proof fn law_snapshots_are_shown_in_order(snapshot: Seq<ClientEvent>, upto: int)
    requires
        0 < upto <= snapshot.len(),
    ensures
        visible(snapshot, Lease::NotHeld, 0).len() == 0,
        visible(snapshot, Lease::NotHeld, upto) == if snapshot[upto - 1] is Clipboard
            || snapshot[upto - 1] is ResetVideoRefused {
            visible(snapshot, Lease::NotHeld, upto - 1)
        } else {
            visible(snapshot, Lease::NotHeld, upto - 1).push(snapshot[upto - 1])
        },
{
}

/// The lease's holder has its text, its clipboard and its resets sent as it gave them;
/// control, pings and feedback are passed on for anybody.
pub proof fn law_messages_ask_for_what_they_say(lease: Lease, message: ClientMessage)
    ensures
        message is AcquireControl ==> action_of(lease, message) is Acquire,
        message is ReleaseControl ==> action_of(lease, message) is Release,
        message matches ClientMessage::Ping { id } ==> action_of(lease, message) == (
        ControlAction::ReadClock { id }),
        message matches ClientMessage::Feedback(feedback) ==> action_of(lease, message)
            == ControlAction::ApplyFeedback(feedback),
        message matches ClientMessage::Text { action, text, sequence } ==> lease == Lease::Held
            ==> action_of(lease, message) == (ControlAction::SendInput {
            command: Command::Text { action, sequence, text },
            purpose: InputPurpose::Text,
        }),
        message matches ClientMessage::ClipboardWrite { clipboard } ==> lease == Lease::Held
            ==> action_of(lease, message) == (ControlAction::SendInput {
            command: Command::Clipboard(clipboard),
            purpose: InputPurpose::Clipboard,
        }),
        message is ResetVideo && lease == Lease::Held ==> action_of(lease, message) == (
        ControlAction::SendInput {
            command: Command::ResetVideo,
            purpose: InputPurpose::ResetVideo,
        }),
        lease == Lease::NotHeld && (message is Text || message is ClipboardWrite
            || message is ResetVideo) ==> action_of(lease, message) is Ignore,
{
}

/// Binary input is sent for the lease's holder as it came, and ignored of anybody else.
pub proof fn law_binary_input_needs_the_lease(command: Command)
    ensures
        input_of(Lease::Held, command, InputPurpose::Binary) == (ControlAction::SendInput {
            command,
            purpose: InputPurpose::Binary,
        }),
        input_of(Lease::NotHeld, command, InputPurpose::Binary) is Ignore,
{
}

/// Nothing that failed while a connection was cleaned up goes unsaid, and nothing is
/// said where nothing failed.
pub proof fn law_cleanup_failures_are_told(
    release: Option<Seq<char>>,
    writer: Option<Seq<char>>,
    cause: String,
)
    ensures
        cleanup_text(release, writer) is None <==> release is None && writer is None,
        release is Some && writer is None ==> cleanup_text(release, writer) == Some(
            in_context("release input lease"@, release->0),
        ),
        release is None && writer is Some ==> cleanup_text(release, writer) == Some(
            in_context("control writer cleanup"@, writer->0),
        ),
        release is Some && writer is Some ==> cleanup_text(release, writer) == Some(
            in_context(
                in_context(
                    "release input lease; control writer cleanup also failed"@,
                    writer->0,
                ),
                release->0,
            ),
        ),
        writer_error(WriterWait::Finished) is None,
        writer_error(WriterWait::Stopped) is None,
        writer_error(WriterWait::Failed(cause)) == Some(cause@),
        writer_error(WriterWait::TaskFailed(cause)) == Some(
            in_context("control writer task failed"@, cause@),
        ),
        writer_error(WriterWait::Elapsed) == Some("control writer did not stop within 5s"@),
{
}

/// An event goes to those who may see it and to nobody else; a socket that missed some
/// is brought up to date, and one that has no more to expect ends with a failure.
pub proof fn law_events_go_to_whom_they_concern(
    lease: Lease,
    received: EventReceived,
    dispatch: Dispatch,
)
    requires
        dispatches(lease, received, dispatch),
    ensures
        received matches EventReceived::Event(event) ==> {
            let private = event is Clipboard || event is ResetVideoRefused;
            &&& !private || lease == Lease::Held ==> dispatch == Dispatch::Send(event)
            &&& private && lease == Lease::NotHeld ==> dispatch is Skip
        },
        received is Lagged ==> dispatch is Resynchronise,
        received is Closed ==> dispatch is End,
{
}

/// A socket that acquires the input holds the lease, is told so and then what the
/// clipboard holds; one that does not is told that it is busy and nothing private. A
/// lease that the session disagrees with is given up.
pub proof fn law_leases_follow_the_session(
    lease: Lease,
    text: ClipboardText,
    levels: QualityLevels,
    clipboard: Option<ClipboardText>,
)
    ensures
        lease_after(OwnershipState::Active) == Lease::Held,
        lease_after(OwnershipState::Busy) == Lease::NotHeld,
        acquisition_events(OwnershipState::Active, Some(text)) == seq![
            ClientEvent::ControlState { state: ControlState::Active },
            ClientEvent::Clipboard { text },
        ],
        acquisition_events(OwnershipState::Active, None) == seq![
            ClientEvent::ControlState { state: ControlState::Active },
        ],
        acquisition_events(OwnershipState::Busy, clipboard) == seq![
            ClientEvent::ControlState { state: ControlState::Busy },
        ],
        lease_after_input(lease, InputOutcome::Sent) == lease,
        lease_after_input(lease, InputOutcome::NotInputOwner) == Lease::NotHeld,
        feedback_answer(FeedbackOutcome::Applied(levels)) == Some(ClientEvent::Quality(levels)),
        feedback_answer(FeedbackOutcome::NotInputOwner) is None,
{
}

/// A control socket ends when it is cancelled, when its writer ends, and when its peer
/// closes, disappears or cannot be read, and in no other case; only the end of the writer
/// leaves none to be stopped.
pub proof fn law_control_sockets_end_with_a_reason(
    lease: Lease,
    wake: ControlWake,
    step: ControlStep,
)
    requires
        answers_wake(lease, wake, step),
    ensures
        wake is Cancelled ==> step is End && step->reason == SocketEnd::Shutdown,
        wake matches ControlWake::Incoming(Incoming::Text) ==> step is HandleText,
        wake matches ControlWake::Incoming(Incoming::Binary) ==> step is HandleBinary,
        wake matches ControlWake::Incoming(Incoming::Heartbeat) ==> step is Continue,
        wake matches ControlWake::Incoming(Incoming::Close(frame)) ==> step is End && step->reason
            == SocketEnd::ClientClosed(frame),
        wake matches ControlWake::Incoming(Incoming::Ended) ==> step is End && step->reason
            == SocketEnd::Disconnected,
        wake matches ControlWake::Incoming(Incoming::Failed(cause)) ==> step is End
            && step->reason.is_failed_with("WebSocket read failed"@ + ": "@ + cause@),
        wake matches ControlWake::Writer(WriterEnd::Stopped) ==> step is End && step->reason
            == SocketEnd::Shutdown,
        wake matches ControlWake::Writer(WriterEnd::Failed(cause)) ==> step is End
            && step->reason.is_failed_with(cause@),
        step is End ==> (step->writer == WriterStatus::Finished <==> wake is Writer),
        wake is Event ==> step is Dispatch,
{
}

/// What failed while a connection was cleaned up neither hides why it ended nor is lost:
/// it is kept with a failure and goes to the log of any other end.
pub proof fn law_cleanup_hides_no_reason(
    reason: SocketEnd,
    cleanup: Option<Seq<char>>,
    end: SocketEnd,
    log: Option<Seq<char>>,
)
    requires
        finished_as(reason, cleanup, end, log),
    ensures
        !(reason is Failed) ==> end == reason && log == cleanup,
        reason matches SocketEnd::Failed(failure) ==> {
            &&& log is None
            &&& end matches SocketEnd::Failed(finished)
            &&& finished.primary == failure.primary
            &&& cleanup is Some ==> text_view(finished.cleanup) == cleanup
            &&& cleanup is None ==> finished == failure
        },
{
}

/// A ping is answered with the clock in nanoseconds, a thousand million to the second.
pub proof fn law_clocks_count_nanoseconds(seconds: int, nanos: int)
    ensures
        clock_nanos(0, nanos) == nanos,
        clock_nanos(seconds + 1, nanos) == clock_nanos(seconds, nanos) + 1_000_000_000,
{
}

} // verus!
