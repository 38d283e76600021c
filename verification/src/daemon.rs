//! Running the compositor as a child process: its arguments, and how its process group
//! is brought to an end.

use crate::clock::Instant;
use crate::messages::FrameSize;
use crate::options::XkbLayout;
use crate::socket::{in_context, with_context};
use crate::text::{decimal, decimal_text};
use crate::values::{Fps, Kbps};
use vstd::prelude::*;

verus! {

pub const STARTUP_DEADLINE_SECONDS: u64 = 15;

pub const GROUP_EXIT_DEADLINE_NANOS: u64 = 2_000_000_000;

pub const GROUP_PROBE_PERIOD_MILLIS: u64 = 25;

/// How the compositor is started. The session is the application's argument list, whose
/// elements are arbitrary bytes.
#[derive(Debug)]
pub struct Config {
    pub frame_rate: Fps,
    pub bitrate: Kbps,
    pub xkb_layout: XkbLayout,
    pub resolution: FrameSize,
    pub session: Vec<Vec<u8>>,
}

pub open spec fn utf8(text: Seq<char>) -> Seq<u8> {
    vstd::utf8::encode_utf8(text)
}

pub open spec fn resolution_text(size: FrameSize) -> Seq<char> {
    decimal(size.spec_width() as nat) + "x"@ + decimal(size.spec_height() as nat)
}

pub open spec fn bytes_of(args: Seq<Vec<u8>>) -> Seq<Seq<u8>> {
    args.map_values(|arg: Vec<u8>| arg@)
}

/// The compositor's own options, each followed by its value.
pub open spec fn daemon_options(config: Config, rtp_port: u16) -> Seq<Seq<u8>> {
    seq![
        utf8("--frame-rate"@),
        utf8(decimal(config.frame_rate@ as nat)),
        utf8("--bitrate"@),
        utf8(decimal(config.bitrate@ as nat)),
        utf8("--rtp-port"@),
        utf8(decimal(rtp_port as nat)),
        utf8("--xkb-layout"@),
        utf8(config.xkb_layout@),
        utf8("--resolution"@),
        utf8(resolution_text(config.resolution)),
    ]
}

/// The options, and behind a separator the session's arguments, if there are any.
pub open spec fn spec_daemon_args(config: Config, rtp_port: u16) -> Seq<Seq<u8>> {
    if config.session@.len() == 0 {
        daemon_options(config, rtp_port)
    } else {
        daemon_options(config, rtp_port).push(utf8("--"@)) + bytes_of(config.session@)
    }
}

fn text_bytes(text: &str) -> (r: Vec<u8>)
    ensures
        r@ == utf8(text@),
{
    vstd::slice::slice_to_vec(text.as_bytes())
}

pub fn daemon_args(config: &Config, rtp_port: u16) -> (r: Vec<Vec<u8>>)
    ensures
        bytes_of(r@) == spec_daemon_args(*config, rtp_port),
{
    let mut resolution = decimal_text(config.resolution.width() as u128);
    resolution.append("x");
    resolution.append(decimal_text(config.resolution.height() as u128).as_str());
    let frame_rate = decimal_text(config.frame_rate.get() as u128);
    let bitrate = decimal_text(config.bitrate.get() as u128);
    let port = decimal_text(rtp_port as u128);
    let mut args: Vec<Vec<u8>> = Vec::new();
    args.push(text_bytes("--frame-rate"));
    args.push(text_bytes(frame_rate.as_str()));
    args.push(text_bytes("--bitrate"));
    args.push(text_bytes(bitrate.as_str()));
    args.push(text_bytes("--rtp-port"));
    args.push(text_bytes(port.as_str()));
    args.push(text_bytes("--xkb-layout"));
    args.push(text_bytes(config.xkb_layout.as_str()));
    args.push(text_bytes("--resolution"));
    args.push(text_bytes(resolution.as_str()));
    assert(bytes_of(args@) =~= daemon_options(*config, rtp_port));
    if config.session.len() == 0 {
        return args;
    }
    args.push(text_bytes("--"));
    let ghost head = bytes_of(args@);
    assert(head =~= daemon_options(*config, rtp_port).push(utf8("--"@)));
    let mut at: usize = 0;
    while at < config.session.len()
        invariant
            at <= config.session@.len(),
            bytes_of(args@) == head + bytes_of(config.session@.take(at as int)),
        decreases config.session@.len() - at,
    {
        let ghost before = args@;
        args.push(vstd::slice::slice_to_vec(config.session[at].as_slice()));
        proof {
            let upto = config.session@.take(at as int + 1);
            assert(bytes_of(args@) =~= bytes_of(before).push(config.session@[at as int]@));
            assert(bytes_of(upto) =~= bytes_of(config.session@.take(at as int)).push(
                config.session@[at as int]@,
            ));
            assert(head + bytes_of(upto) =~= bytes_of(args@));
        }
        at = at + 1;
    }
    assert(config.session@.take(at as int) =~= config.session@);
    args
}

/// The application's arguments stand at the end of the compositor's, unchanged and in
/// order, and the compositor's own options do not depend on them.
pub proof fn law_session_arguments_pass_through(config: Config, rtp_port: u16)
    ensures
        ({
            let args = spec_daemon_args(config, rtp_port);
            let session = bytes_of(config.session@);
            &&& args.len() >= session.len()
            &&& args.skip(args.len() - session.len()) == session
            &&& args.take(10) == daemon_options(config, rtp_port)
        }),
{
    let args = spec_daemon_args(config, rtp_port);
    let session = bytes_of(config.session@);
    assert(args.skip(args.len() - session.len()) =~= session);
    assert(args.take(10) =~= daemon_options(config, rtp_port));
}

// ---------------------------------------------------------------------------
// The process group
// ---------------------------------------------------------------------------

/// An operating system's error number.
#[derive(Clone, Copy, Debug, PartialEq, Eq, Structural)]
pub struct Errno {
    pub code: i32,
}

/// No process has the given number.
pub const ESRCH: i32 = 3;

#[derive(Clone, Copy, Debug, PartialEq, Eq, Structural)]
pub enum ProcessGroupState {
    Alive,
    Gone,
}

/// What signalling a process group says about it.
pub open spec fn group_state(result: Result<(), Errno>) -> Result<ProcessGroupState, Errno> {
    match result {
        Ok(()) => Ok(ProcessGroupState::Alive),
        Err(error) => if error.code == ESRCH {
            Ok(ProcessGroupState::Gone)
        } else {
            Err(error)
        },
    }
}

pub fn process_group_state(result: Result<(), Errno>) -> (r: Result<ProcessGroupState, Errno>)
    ensures
        r == group_state(result),
{
    match result {
        Ok(()) => Ok(ProcessGroupState::Alive),
        Err(error) => {
            if error.code == ESRCH {
                Ok(ProcessGroupState::Gone)
            } else {
                Err(error)
            }
        },
    }
}

/// Which signal could not be sent.
#[derive(Clone, Copy, Debug, PartialEq, Eq, Structural)]
pub enum CleanupPhase {
    Terminate,
    Probe,
    Kill,
}

impl CleanupPhase {
    pub open spec fn spec_context(self) -> Seq<char> {
        match self {
            CleanupPhase::Terminate => "send SIGTERM to daemon process group"@,
            CleanupPhase::Probe => "probe daemon process group after SIGTERM"@,
            CleanupPhase::Kill => "send SIGKILL to daemon process group"@,
        }
    }

    pub fn context(self) -> (r: &'static str)
        ensures
            r@ == self.spec_context(),
    {
        match self {
            CleanupPhase::Terminate => "send SIGTERM to daemon process group",
            CleanupPhase::Probe => "probe daemon process group after SIGTERM",
            CleanupPhase::Kill => "send SIGKILL to daemon process group",
        }
    }
}

/// What to do next about the process group.
#[derive(Clone, Copy, Debug, PartialEq, Eq, Structural)]
pub enum CleanupStep {
    /// See whether the group is still there.
    Probe,
    /// Wait a little, then probe again.
    Sleep,
    /// Kill what is left of the group.
    Kill,
    /// Wait for the leader.
    Reap,
    Fail { phase: CleanupPhase, error: Errno },
}

/// The group was asked to terminate. One that exists is given until the deadline.
pub open spec fn terminate_step(result: Result<(), Errno>) -> CleanupStep {
    match group_state(result) {
        Ok(ProcessGroupState::Alive) => CleanupStep::Probe,
        Ok(ProcessGroupState::Gone) => CleanupStep::Reap,
        Err(error) => CleanupStep::Fail { phase: CleanupPhase::Terminate, error },
    }
}

/// The group was probed.
pub open spec fn probe_step(
    result: Result<(), Errno>,
    now: Instant,
    deadline: Instant,
) -> CleanupStep {
    match group_state(result) {
        Ok(ProcessGroupState::Gone) => CleanupStep::Reap,
        Ok(ProcessGroupState::Alive) => if now.nanos < deadline.nanos {
            CleanupStep::Sleep
        } else {
            CleanupStep::Kill
        },
        Err(error) => CleanupStep::Fail { phase: CleanupPhase::Probe, error },
    }
}

/// The group was killed.
pub open spec fn kill_step(result: Result<(), Errno>) -> CleanupStep {
    match group_state(result) {
        Ok(_) => CleanupStep::Reap,
        Err(error) => CleanupStep::Fail { phase: CleanupPhase::Kill, error },
    }
}

pub fn after_terminate(result: Result<(), Errno>) -> (r: CleanupStep)
    ensures
        r == terminate_step(result),
{
    match process_group_state(result) {
        Ok(ProcessGroupState::Alive) => CleanupStep::Probe,
        Ok(ProcessGroupState::Gone) => CleanupStep::Reap,
        Err(error) => CleanupStep::Fail { phase: CleanupPhase::Terminate, error },
    }
}

pub fn after_probe(result: Result<(), Errno>, now: Instant, deadline: Instant) -> (r: CleanupStep)
    ensures
        r == probe_step(result, now, deadline),
{
    match process_group_state(result) {
        Ok(ProcessGroupState::Gone) => CleanupStep::Reap,
        Ok(ProcessGroupState::Alive) => {
            if now.nanos < deadline.nanos {
                CleanupStep::Sleep
            } else {
                CleanupStep::Kill
            }
        },
        Err(error) => CleanupStep::Fail { phase: CleanupPhase::Probe, error },
    }
}

pub fn after_kill(result: Result<(), Errno>) -> (r: CleanupStep)
    ensures
        r == kill_step(result),
{
    match process_group_state(result) {
        Ok(_) => CleanupStep::Reap,
        Err(error) => CleanupStep::Fail { phase: CleanupPhase::Kill, error },
    }
}

/// Short of the kill, the leader is only waited for once the group is gone; and what
/// still runs at the deadline is killed.
pub proof fn law_survivors_are_killed(result: Result<(), Errno>, now: Instant, deadline: Instant)
    ensures
        terminate_step(result) == CleanupStep::Reap || probe_step(result, now, deadline)
            == CleanupStep::Reap ==> group_state(result) == Ok::<ProcessGroupState, Errno>(
            ProcessGroupState::Gone,
        ),
        now.nanos >= deadline.nanos && group_state(result) == Ok::<ProcessGroupState, Errno>(
            ProcessGroupState::Alive,
        ) ==> probe_step(result, now, deadline) == CleanupStep::Kill,
{
}

// ---------------------------------------------------------------------------
// The supervisor
// ---------------------------------------------------------------------------

/// What the supervisor runs until one of them ends.
#[derive(Clone, Copy, Debug, PartialEq, Eq, Structural)]
pub enum Worker {
    CommandWriter,
    EventReader,
    RtpReceiver,
    VideoPipeline,
}

impl Worker {
    pub open spec fn spec_context(self) -> Seq<char> {
        match self {
            Worker::CommandWriter => "daemon command writer"@,
            Worker::EventReader => "daemon event reader"@,
            Worker::RtpReceiver => "RTP receiver"@,
            Worker::VideoPipeline => "video pipeline"@,
        }
    }

    pub fn context(self) -> (r: &'static str)
        ensures
            r@ == self.spec_context(),
    {
        match self {
            Worker::CommandWriter => "daemon command writer",
            Worker::EventReader => "daemon event reader",
            Worker::RtpReceiver => "RTP receiver",
            Worker::VideoPipeline => "video pipeline",
        }
    }
}

/// What ended the supervisor's wait.
#[derive(Debug)]
pub enum SupervisorEnd {
    Worker { worker: Worker, error: Option<String> },
    WaitFailed(String),
    Exited { status: String },
    StartupDeadline,
    Fatal(Option<String>),
    ShutdownRequested,
}

pub open spec fn end_text(end: SupervisorEnd) -> Option<Seq<char>> {
    match end {
        SupervisorEnd::Worker { worker, error: Some(error) } => Some(
            in_context(worker.spec_context(), error@),
        ),
        SupervisorEnd::Worker { worker, error: None } => None,
        SupervisorEnd::WaitFailed(error) => Some(error@),
        SupervisorEnd::Exited { status } => Some("daemon exited with status "@ + status@),
        SupervisorEnd::StartupDeadline => Some(
            "daemon did not produce a correlated keyframe before startup deadline"@,
        ),
        SupervisorEnd::Fatal(Some(error)) => Some(error@),
        SupervisorEnd::Fatal(None) => Some("fatal command channel closed"@),
        SupervisorEnd::ShutdownRequested => None,
    }
}

pub open spec fn text_view(text: Option<String>) -> Option<Seq<char>> {
    match text {
        Some(text) => Some(text@),
        None => None,
    }
}

/// Why the supervisor stopped, if not because it was asked to.
fn terminal_error(end: SupervisorEnd) -> (r: Option<String>)
    ensures
        text_view(r) == end_text(end),
{
    match end {
        SupervisorEnd::Worker { worker, error: Some(error) } => Some(
            with_context(worker.context(), error.as_str()),
        ),
        SupervisorEnd::Worker { worker: _, error: None } => None,
        SupervisorEnd::WaitFailed(error) => Some(error),
        SupervisorEnd::Exited { status } => {
            let mut text = String::from_str("daemon exited with status ");
            text.append(status.as_str());
            Some(text)
        },
        SupervisorEnd::StartupDeadline => Some(
            String::from_str("daemon did not produce a correlated keyframe before startup deadline"),
        ),
        SupervisorEnd::Fatal(Some(error)) => Some(error),
        SupervisorEnd::Fatal(None) => Some(String::from_str("fatal command channel closed")),
        SupervisorEnd::ShutdownRequested => None,
    }
}

/// What the supervisor reports of why it stopped and of what cleaning up gave.
pub open spec fn result_text(terminal: Option<Seq<char>>, cleanup: Option<Seq<char>>) -> Option<
    Seq<char>,
> {
    match (terminal, cleanup) {
        (terminal, None) => terminal,
        (None, Some(cleanup)) => Some(in_context("clean up daemon process group"@, cleanup)),
        (Some(terminal), Some(cleanup)) => Some(
            in_context(
                in_context("daemon process group cleanup also failed"@, cleanup),
                terminal,
            ),
        ),
    }
}

/// The supervisor's result: a failure to clean up is reported too, and does not hide
/// why the daemon had to be stopped.
pub fn supervisor_result(end: SupervisorEnd, cleanup_error: Option<String>) -> (r: Option<String>)
    ensures
        text_view(r) == match (end_text(end), text_view(cleanup_error)) {
            (terminal, None) => terminal,
            (None, Some(cleanup)) => Some(in_context("clean up daemon process group"@, cleanup)),
            (Some(terminal), Some(cleanup)) => Some(
                in_context(
                    in_context("daemon process group cleanup also failed"@, cleanup),
                    terminal,
                ),
            ),
        },
        text_view(r) == result_text(end_text(end), text_view(cleanup_error)),
{
    let terminal = terminal_error(end);
    match cleanup_error {
        None => terminal,
        Some(cleanup) => match terminal {
            None => Some(with_context("clean up daemon process group", cleanup.as_str())),
            Some(terminal) => {
                let context = with_context(
                    "daemon process group cleanup also failed",
                    cleanup.as_str(),
                );
                Some(with_context(context.as_str(), terminal.as_str()))
            },
        },
    }
}

/// The compositor is started with each setting behind its option, and behind a separator
/// with the session's own arguments, which stand there only if there are any.
pub proof fn law_settings_stand_behind_their_options(config: Config, rtp_port: u16, i: int)
    requires
        0 <= i < config.session@.len(),
    ensures
        ({
            let args = spec_daemon_args(config, rtp_port);
            &&& args[0] == utf8("--frame-rate"@) && args[1] == utf8(
                decimal(config.frame_rate@ as nat),
            )
            &&& args[2] == utf8("--bitrate"@) && args[3] == utf8(decimal(config.bitrate@ as nat))
            &&& args[4] == utf8("--rtp-port"@) && args[5] == utf8(decimal(rtp_port as nat))
            &&& args[6] == utf8("--xkb-layout"@) && args[7] == utf8(config.xkb_layout@)
            &&& args[8] == utf8("--resolution"@) && args[9] == utf8(
                decimal(config.resolution.spec_width() as nat) + "x"@ + decimal(
                    config.resolution.spec_height() as nat,
                ),
            )
            &&& args[10] == utf8("--"@)
            &&& args[11 + i] == config.session@[i]@
            &&& args.len() == 11 + config.session@.len()
        }),
{
}

/// The same options without a session: nothing follows them.
pub proof fn law_nothing_follows_the_options(config: Config, rtp_port: u16)
    requires
        config.session@.len() == 0,
    ensures
        ({
            let args = spec_daemon_args(config, rtp_port);
            &&& args[1] == utf8(decimal(config.frame_rate@ as nat))
            &&& args[3] == utf8(decimal(config.bitrate@ as nat))
            &&& args[5] == utf8(decimal(rtp_port as nat))
            &&& args[7] == utf8(config.xkb_layout@)
            &&& args[9] == utf8(
                decimal(config.resolution.spec_width() as nat) + "x"@ + decimal(
                    config.resolution.spec_height() as nat,
                ),
            )
            &&& args.len() == 10
        }),
{
}

/// A group that takes a signal is alive, one that error 3 is reported of is gone, and
/// any other error tells nothing but itself.
pub proof fn law_signals_tell_whether_a_group_lives(error: Errno)
    ensures
        group_state(Ok(())) == Ok::<ProcessGroupState, Errno>(ProcessGroupState::Alive),
        error.code == 3 ==> group_state(Err(error)) == Ok::<ProcessGroupState, Errno>(
            ProcessGroupState::Gone,
        ),
        error.code != 3 ==> group_state(Err(error)) == Err::<ProcessGroupState, Errno>(error),
{
}

/// The way to the end of a process group: a group that was asked to terminate is probed
/// until it is gone or its time is up, then killed, and its leader is waited for in the
/// end. A signal that cannot be sent ends the way, and the error says which it was.
pub proof fn law_groups_are_brought_to_an_end(error: Errno, now: Instant, deadline: Instant)
    ensures
        terminate_step(Ok(())) == CleanupStep::Probe,
        now.nanos < deadline.nanos ==> probe_step(Ok(()), now, deadline) == CleanupStep::Sleep,
        now.nanos >= deadline.nanos ==> probe_step(Ok(()), now, deadline) == CleanupStep::Kill,
        kill_step(Ok(())) == CleanupStep::Reap,
        error.code == 3 ==> terminate_step(Err(error)) == CleanupStep::Reap && probe_step(
            Err(error),
            now,
            deadline,
        ) == CleanupStep::Reap && kill_step(Err(error)) == CleanupStep::Reap,
        error.code != 3 ==> {
            &&& terminate_step(Err(error)) == (CleanupStep::Fail {
                phase: CleanupPhase::Terminate,
                error,
            })
            &&& probe_step(Err(error), now, deadline) == (CleanupStep::Fail {
                phase: CleanupPhase::Probe,
                error,
            })
            &&& kill_step(Err(error)) == (CleanupStep::Fail { phase: CleanupPhase::Kill, error })
        },
{
}

/// Only a worker that ended in order and a shutdown that was asked for are no failure of
/// the supervisor; everything else is told.
pub proof fn law_supervisors_tell_why_they_stopped(
    end: SupervisorEnd,
    worker: Worker,
    error: String,
)
    ensures
        end_text(end) is None <==> end is ShutdownRequested || (end matches SupervisorEnd::Worker {
            error: None,
            ..
        }),
        end_text(SupervisorEnd::Worker { worker, error: Some(error) }) == Some(
            in_context(worker.spec_context(), error@),
        ),
        end_text(SupervisorEnd::WaitFailed(error)) == Some(error@),
        end_text(SupervisorEnd::Fatal(Some(error))) == Some(error@),
        end_text(SupervisorEnd::Exited { status: error }) == Some(
            "daemon exited with status "@ + error@,
        ),
{
}

/// A supervisor fails if it had to stop or could not clean up; where both happened both
/// are told, the reason for the stop behind the failure to clean up.
pub proof fn law_both_failures_are_reported(
    terminal: Option<Seq<char>>,
    cleanup: Option<Seq<char>>,
)
    ensures
        result_text(terminal, cleanup) is None <==> terminal is None && cleanup is None,
        cleanup is None ==> result_text(terminal, cleanup) == terminal,
        terminal is None && cleanup is Some ==> result_text(terminal, cleanup) == Some(
            "clean up daemon process group"@ + ": "@ + cleanup->0,
        ),
        terminal is Some && cleanup is Some ==> result_text(terminal, cleanup) == Some(
            "daemon process group cleanup also failed"@ + ": "@ + cleanup->0 + ": "@ + terminal->0,
        ),
{
}

} // verus!
