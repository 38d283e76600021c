use waywire::readiness::{Readiness, ReadinessState};

#[test]
fn video_ready_cannot_revive_a_stopped_runtime() {
    let mut readiness = Readiness::new();
    readiness.stop();
    readiness.mark_video_ready();
    assert_eq!(readiness.state(), ReadinessState::Stopped);
}

#[test]
fn recovery_wait_does_not_restore_the_startup_deadline() {
    let mut readiness = Readiness::new();
    readiness.mark_video_ready();
    readiness.await_keyframe();
    assert_eq!(readiness.state(), ReadinessState::WaitingForKeyframe);
    assert!(!readiness.needs_startup_frame());
    assert!(!readiness.is_ready());
}

#[test]
fn ready_runtime_stays_healthy_while_video_is_idle() {
    let mut readiness = Readiness::new();
    assert!(readiness.needs_startup_frame());
    readiness.mark_video_ready();
    assert_eq!(readiness.state(), ReadinessState::Ready);
    assert!(readiness.is_ready());
}
