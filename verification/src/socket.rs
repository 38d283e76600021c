//! How a WebSocket connection ended, and what is said of it in the log.

use crate::text::{decimal, push_decimal};
use vstd::prelude::*;

verus! {

pub const WRITE_LIMIT_SECONDS: u64 = 5;

/// What went wrong, outermost reason first, and what went wrong while cleaning up.
#[derive(Debug)]
pub struct SocketFailure {
    pub primary: String,
    pub cleanup: Option<String>,
}

impl SocketFailure {
    pub fn new(primary: String) -> (r: Self)
        ensures
            r.primary == primary,
            r.cleanup is None,
    {
        SocketFailure { primary, cleanup: None }
    }
}

/// The status that a peer closes a connection with.
#[derive(Debug)]
pub struct CloseFrame {
    pub code: u16,
    pub reason: String,
}

#[derive(Debug)]
pub enum SocketEnd {
    Shutdown,
    ClientClosed(Option<CloseFrame>),
    Disconnected,
    Failed(SocketFailure),
}

/// A reason with the cause behind it.
pub open spec fn in_context(context: Seq<char>, cause: Seq<char>) -> Seq<char> {
    context + ": "@ + cause
}

pub fn with_context(context: &str, cause: &str) -> (r: String)
    ensures
        r@ == in_context(context@, cause@),
{
    let mut text = String::from_str(context);
    text.append(": ");
    text.append(cause);
    text
}

impl SocketEnd {
    pub fn failed(primary: String) -> (r: Self)
        ensures
            r == SocketEnd::Failed(SocketFailure { primary, cleanup: None }),
    {
        SocketEnd::Failed(SocketFailure::new(primary))
    }

    /// The end with a failure and the cause behind it.
    pub open spec fn is_failed_with(self, text: Seq<char>) -> bool {
        self matches SocketEnd::Failed(failure) && failure.primary@ == text && failure.cleanup
            is None
    }

    pub fn failed_in_context(context: &str, cause: &str) -> (r: Self)
        ensures
            r.is_failed_with(in_context(context@, cause@)),
    {
        SocketEnd::failed(with_context(context, cause))
    }

    pub fn is_failure(&self) -> (r: bool)
        ensures
            r == (self is Failed),
    {
        match self {
            SocketEnd::Failed(_) => true,
            _ => false,
        }
    }

    pub open spec fn spec_describe(self) -> Seq<char> {
        match self {
            SocketEnd::Shutdown => "gateway shutdown"@,
            SocketEnd::ClientClosed(Some(frame)) => "client sent WebSocket close frame "@
                + decimal(frame.code as nat) + ": "@ + frame.reason@,
            SocketEnd::ClientClosed(None) =>
                "client sent a WebSocket close frame without a status"@,
            SocketEnd::Disconnected => "client disconnected without a close frame"@,
            SocketEnd::Failed(failure) => failure.primary@,
        }
    }

    pub fn describe(&self) -> (r: String)
        ensures
            r@ == self.spec_describe(),
    {
        match self {
            SocketEnd::Shutdown => String::from_str("gateway shutdown"),
            SocketEnd::ClientClosed(Some(frame)) => {
                let mut text = String::from_str("client sent WebSocket close frame ");
                push_decimal(&mut text, frame.code as u128);
                text.append(": ");
                text.append(frame.reason.as_str());
                text
            },
            SocketEnd::ClientClosed(None) => String::from_str(
                "client sent a WebSocket close frame without a status",
            ),
            SocketEnd::Disconnected => String::from_str(
                "client disconnected without a close frame",
            ),
            SocketEnd::Failed(failure) => failure.primary.clone(),
        }
    }
}

/// How a write to a socket ended.
#[derive(Debug)]
pub enum Written {
    Cancelled,
    Done,
    Failed(String),
    Elapsed,
}

/// Whether a connection ends this way, or not at all, after a write.
pub open spec fn ends_write(written: Written, end: Option<SocketEnd>) -> bool {
    match written {
        Written::Done => end is None,
        Written::Cancelled => end == Some(SocketEnd::Shutdown),
        Written::Failed(cause) => end is Some && end->0.is_failed_with(
            in_context("WebSocket write failed"@, cause@),
        ),
        Written::Elapsed => end is Some && end->0.is_failed_with(
            "WebSocket write timed out after 5s"@,
        ),
    }
}

/// Whether a connection ends this way, or not at all, after something came in.
pub open spec fn ends_read(incoming: StreamIncoming, end: Option<SocketEnd>) -> bool {
    match incoming {
        StreamIncoming::Close(frame) => end == Some(SocketEnd::ClientClosed(frame)),
        StreamIncoming::Other => end is None,
        StreamIncoming::Failed(cause) => end is Some && end->0.is_failed_with(
            in_context("WebSocket read failed"@, cause@),
        ),
        StreamIncoming::Ended => end == Some(SocketEnd::Disconnected),
    }
}

/// A write that did not go through ends the connection.
pub fn write_outcome(written: Written) -> (r: Result<(), SocketEnd>)
    ensures
        match written {
            Written::Done => r is Ok,
            Written::Cancelled => r == Err::<(), SocketEnd>(SocketEnd::Shutdown),
            Written::Failed(cause) => r matches Err(end) && end.is_failed_with(
                in_context("WebSocket write failed"@, cause@),
            ),
            Written::Elapsed => r matches Err(end) && end.is_failed_with(
                "WebSocket write timed out after 5s"@,
            ),
        },
        ends_write(
            written,
            match r {
                Ok(()) => None,
                Err(end) => Some(end),
            },
        ),
{
    match written {
        Written::Done => Ok(()),
        Written::Cancelled => Err(SocketEnd::Shutdown),
        Written::Failed(cause) => Err(
            SocketEnd::failed_in_context("WebSocket write failed", cause.as_str()),
        ),
        Written::Elapsed => Err(
            SocketEnd::failed(String::from_str("WebSocket write timed out after 5s")),
        ),
    }
}

/// What a stream socket receives.
#[derive(Debug)]
pub enum StreamIncoming {
    Close(Option<CloseFrame>),
    Other,
    Failed(String),
    Ended,
}

/// A viewer says nothing of interest but that it goes.
pub fn stream_incoming(incoming: StreamIncoming) -> (r: Option<SocketEnd>)
    ensures
        match incoming {
            StreamIncoming::Close(frame) => r == Some(SocketEnd::ClientClosed(frame)),
            StreamIncoming::Other => r is None,
            StreamIncoming::Failed(cause) => r matches Some(end) && end.is_failed_with(
                in_context("WebSocket read failed"@, cause@),
            ),
            StreamIncoming::Ended => r == Some(SocketEnd::Disconnected),
        },
        ends_read(incoming, r),
{
    match incoming {
        StreamIncoming::Close(frame) => Some(SocketEnd::ClientClosed(frame)),
        StreamIncoming::Other => None,
        StreamIncoming::Failed(cause) => Some(
            SocketEnd::failed_in_context("WebSocket read failed", cause.as_str()),
        ),
        StreamIncoming::Ended => Some(SocketEnd::Disconnected),
    }
}

/// What the log says of an end tells which it was, with the status that a peer gave and
/// the reason of a failure.
pub proof fn law_ends_are_told_apart(frame: CloseFrame, failure: SocketFailure)
    ensures
        SocketEnd::Shutdown.spec_describe() == "gateway shutdown"@,
        SocketEnd::Disconnected.spec_describe() == "client disconnected without a close frame"@,
        SocketEnd::ClientClosed(None).spec_describe()
            == "client sent a WebSocket close frame without a status"@,
        SocketEnd::ClientClosed(Some(frame)).spec_describe()
            == "client sent WebSocket close frame "@ + decimal(frame.code as nat) + ": "@
            + frame.reason@,
        SocketEnd::Failed(failure).spec_describe() == failure.primary@,
{
}

/// A cause stands behind its context, a colon and a space.
pub proof fn law_causes_stand_behind_their_context(context: Seq<char>, cause: Seq<char>)
    ensures
        in_context(context, cause) == context + ": "@ + cause,
{
}

/// A write that goes through keeps the connection; one that is cancelled ends it in
/// order, and one that fails or takes too long ends it with a failure that says so.
pub proof fn law_failed_writes_end_the_connection(written: Written, end: Option<SocketEnd>)
    requires
        ends_write(written, end),
    ensures
        written is Done <==> end is None,
        written is Cancelled <==> end == Some(SocketEnd::Shutdown),
        written is Failed || written is Elapsed <==> end is Some && end->0 is Failed,
        written matches Written::Failed(cause) ==> end->0.spec_describe()
            == "WebSocket write failed"@ + ": "@ + cause@,
        written is Elapsed ==> end->0.spec_describe() == "WebSocket write timed out after 5s"@,
{
}

/// A viewer's connection ends when the viewer closes it, disappears or cannot be read,
/// and goes on whatever else it says.
pub proof fn law_viewers_only_say_goodbye(incoming: StreamIncoming, end: Option<SocketEnd>)
    requires
        ends_read(incoming, end),
    ensures
        incoming is Other <==> end is None,
        incoming matches StreamIncoming::Close(frame) ==> end == Some(
            SocketEnd::ClientClosed(frame),
        ),
        incoming is Ended <==> end == Some(SocketEnd::Disconnected),
        incoming is Failed <==> end is Some && end->0 is Failed,
        incoming matches StreamIncoming::Failed(cause) ==> end->0.spec_describe()
            == "WebSocket read failed"@ + ": "@ + cause@,
{
}

} // verus!
