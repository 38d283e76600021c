use waywire::commands::{
    byte_budget_outcome, command_permits, command_settled, queue_outcome, ActiveEpoch, Authority,
    CommandSinkError, Waited,
};
use waywire::messages::{Command, QualityCommand};
use waywire::pipeline::{KeyframeReadiness, KeyframeState};
use waywire::readiness::{Readiness, ReadinessState};
use waywire::session::OwnershipEpoch;
use waywire::values::{Chroma, Crf, Fps, Generation, Kbps, ScalePercent};

fn readiness(generation: u32, state: KeyframeState) -> Command {
    Command::KeyframeReadiness(KeyframeReadiness {
        generation: Generation::new(generation).expect("test generation should be valid"),
        state,
    })
}

#[test]
fn lease_transitions_keep_fifo_order_and_reject_stale_input() {
    let first = OwnershipEpoch::first();
    let second = first.next();
    let mut active = ActiveEpoch::none();
    let mut queue: Vec<(Authority, Command)> = Vec::new();

    active.set_active_ownership(first);
    queue.push((Authority::Owner(first), readiness(1, KeyframeState::Cached)));
    let (authority, command) = queue.remove(0);
    assert!(active.authorizes(authority));
    assert!(matches!(command, Command::KeyframeReadiness(written)
        if written.generation.get() == 1 && written.state == KeyframeState::Cached));

    active.set_active_ownership(second);
    queue.push((Authority::System, Command::ReleaseAll));
    queue.push((
        Authority::Owner(first),
        readiness(2, KeyframeState::Missing),
    ));
    queue.push((
        Authority::Owner(second),
        Command::Quality(QualityCommand {
            bitrate_kbps: Kbps::new(8_000).expect("test bitrate should be valid"),
            fps: Fps::new(60).expect("test frame rate should be valid"),
            scale_percent: ScalePercent::new(100).expect("test scale should be valid"),
            crf: Crf::new(23).expect("test CRF should be valid"),
            chroma: Chroma::Yuv444,
        }),
    ));
    let written: Vec<Command> = queue
        .into_iter()
        .filter(|(authority, _)| active.authorizes(*authority))
        .map(|(_, command)| command)
        .collect();
    assert_eq!(written.len(), 2);
    assert!(matches!(written[0], Command::ReleaseAll));
    assert!(matches!(written[1], Command::Quality(_)));
}

#[test]
fn closed_command_budget_keeps_its_typed_terminal_reason() {
    let mut readiness = Readiness::new();
    readiness.mark_video_ready();
    assert_eq!(
        command_settled(&mut readiness, byte_budget_outcome(Waited::Done)),
        None
    );
    assert_eq!(readiness.state(), ReadinessState::Ready);
    assert_eq!(
        command_settled(&mut readiness, byte_budget_outcome(Waited::Closed)),
        Some(CommandSinkError::ByteBudgetClosed)
    );
    assert_eq!(readiness.state(), ReadinessState::Stopped);
}

#[test]
fn every_refusal_of_a_command_has_its_reason() {
    assert_eq!(byte_budget_outcome(Waited::Done), Ok(()));
    assert_eq!(
        byte_budget_outcome(Waited::Elapsed),
        Err(CommandSinkError::ByteBudgetStalled)
    );
    assert_eq!(queue_outcome(Waited::Done), Ok(()));
    assert_eq!(
        queue_outcome(Waited::Closed),
        Err(CommandSinkError::WriterStopped)
    );
    assert_eq!(
        queue_outcome(Waited::Elapsed),
        Err(CommandSinkError::CountBudgetStalled)
    );
    assert_eq!(command_permits(12), Ok(12));
    let huge = usize::try_from(u64::from(u32::MAX) + 1).expect("64-bit sizes");
    assert_eq!(
        command_permits(huge),
        Err(CommandSinkError::LengthOverflow { length: huge })
    );
}

#[test]
fn owners_lose_their_authority_with_the_ownership() {
    let mut active = ActiveEpoch::none();
    let epoch = OwnershipEpoch::first();
    assert!(!active.authorizes(Authority::Owner(epoch)));
    assert!(active.authorizes(Authority::System));
    active.set_active_ownership(epoch);
    assert!(active.authorizes(Authority::Owner(epoch)));
    active.clear_active_ownership();
    assert!(!active.authorizes(Authority::Owner(epoch)));
}
