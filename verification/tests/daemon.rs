use waywire::clock::Instant;
use waywire::daemon::{
    after_kill, after_probe, after_terminate, daemon_args, process_group_state, supervisor_result,
    CleanupPhase, CleanupStep, Config, Errno, ProcessGroupState, SupervisorEnd, Worker, ESRCH,
};
use waywire::messages::FrameSize;
use waywire::options::XkbLayout;
use waywire::values::{Fps, Kbps};

const EPERM: i32 = 1;

#[test]
fn compositor_arguments_preserve_resolution_and_session_argv() {
    let mut config = Config {
        frame_rate: Fps::new(60).expect("valid frame rate"),
        bitrate: Kbps::new(16_000).expect("valid bitrate"),
        xkb_layout: XkbLayout::parse("us").expect("valid layout"),
        resolution: FrameSize::new(2560, 1440).expect("valid resolution"),
        session: Vec::new(),
    };

    let mut expected = [
        "--frame-rate",
        "60",
        "--bitrate",
        "16000",
        "--rtp-port",
        "5000",
        "--xkb-layout",
        "us",
        "--resolution",
        "2560x1440",
    ]
    .into_iter()
    .map(|argument| argument.as_bytes().to_vec())
    .collect::<Vec<_>>();
    assert_eq!(daemon_args(&config, 5000), expected);

    config.session = vec![
        b"foot".to_vec(),
        b"--title=A desktop terminal".to_vec(),
        b"non-UTF8-\xff".to_vec(),
    ];
    expected.extend([
        b"--".to_vec(),
        b"foot".to_vec(),
        b"--title=A desktop terminal".to_vec(),
        b"non-UTF8-\xff".to_vec(),
    ]);
    assert_eq!(daemon_args(&config, 5000), expected);
}

#[test]
fn only_esrch_means_a_process_group_is_gone() {
    assert_eq!(
        process_group_state(Err(Errno { code: ESRCH }))
            .expect("ESRCH should mean the group is gone"),
        ProcessGroupState::Gone
    );
    assert_eq!(
        process_group_state(Ok(())).expect("a successful probe should mean the group is alive"),
        ProcessGroupState::Alive
    );
    let error = process_group_state(Err(Errno { code: EPERM }))
        .expect_err("EPERM must remain a process-group cleanup error");
    assert_eq!(error, Errno { code: EPERM });
}

#[test]
fn survivors_of_a_group_are_killed_at_the_deadline() {
    let deadline = Instant { nanos: 2_000 };
    assert_eq!(after_terminate(Ok(())), CleanupStep::Probe);
    assert_eq!(
        after_terminate(Err(Errno { code: ESRCH })),
        CleanupStep::Reap
    );
    assert_eq!(
        after_probe(Ok(()), Instant { nanos: 1_999 }, deadline),
        CleanupStep::Sleep
    );
    assert_eq!(after_probe(Ok(()), deadline, deadline), CleanupStep::Kill);
    assert_eq!(
        after_probe(Err(Errno { code: ESRCH }), deadline, deadline),
        CleanupStep::Reap
    );
    assert_eq!(after_kill(Ok(())), CleanupStep::Reap);
    assert_eq!(
        after_kill(Err(Errno { code: EPERM })),
        CleanupStep::Fail {
            phase: CleanupPhase::Kill,
            error: Errno { code: EPERM }
        }
    );
}

#[test]
fn supervisors_report_what_ended_them() {
    assert_eq!(
        supervisor_result(SupervisorEnd::ShutdownRequested, None),
        None
    );
    let failed = supervisor_result(
        SupervisorEnd::Worker {
            worker: Worker::EventReader,
            error: Some("truncated".to_owned()),
        },
        None,
    )
    .expect("a failed worker should be reported");
    assert!(failed.contains("truncated"));
    let both = supervisor_result(
        SupervisorEnd::Exited {
            status: "exit status: 1".to_owned(),
        },
        Some("cleanup failed".to_owned()),
    )
    .expect("an exit should be reported");
    assert!(both.contains("exit status: 1"));
    assert!(both.contains("cleanup failed"));
    assert!(supervisor_result(SupervisorEnd::StartupDeadline, None).is_some());
}
