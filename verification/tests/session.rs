use waywire::clock::Instant;
use waywire::commands::{ActiveEpoch, Authority};
use waywire::quality::{Feedback, Measurement, Quality};
use waywire::session::{
    AcquirePlan, FeedbackOutcome, OwnershipAvailability, OwnershipBook, OwnershipEpoch,
    OwnershipState, ReleasePlan, SocketId,
};
use waywire::values::{Fps, Kbps, NonZeroCount};

const START: Instant = Instant {
    nanos: 100_000_000_000,
};

fn bad_feedback() -> Feedback {
    Feedback {
        received: 50,
        presented: 50,
        dropped: 0,
        queue_peak: 5,
        queue_pressure: Measurement {
            bits: (200.0_f64 / 1000.0).to_bits(),
        },
        rtt: Measurement {
            bits: 20.0_f64.to_bits(),
        },
    }
}

/// Acquires the input for a socket whose reset command was sent.
fn acquire(book: &mut OwnershipBook, socket: SocketId) -> OwnershipEpoch {
    assert_eq!(book.acquire(socket), AcquirePlan::ResetInput);
    book.acquired(socket)
}

#[test]
fn second_acquire_is_busy_and_keeps_the_input_owner() {
    let mut book = OwnershipBook::new();
    let input_owner = SocketId::new(1);
    let contender = SocketId::new(2);
    let epoch = acquire(&mut book, input_owner);

    assert_eq!(
        book.acquire(contender),
        AcquirePlan::Settled(OwnershipState::Busy)
    );
    assert_eq!(
        book.acquire(input_owner),
        AcquirePlan::Settled(OwnershipState::Active)
    );
    assert_eq!(book.epoch(input_owner), Some(epoch));
}

#[test]
fn non_input_owner_release_does_not_change_or_publish_ownership() {
    let mut book = OwnershipBook::new();
    let input_owner = SocketId::new(1);
    let epoch = acquire(&mut book, input_owner);
    assert_eq!(
        book.availability(),
        OwnershipAvailability::OwnedBy(input_owner)
    );

    assert_eq!(book.release(SocketId::new(2)), ReleasePlan::NotInputOwner);
    assert_eq!(
        book.availability(),
        OwnershipAvailability::OwnedBy(input_owner)
    );
    assert_eq!(book.epoch(input_owner), Some(epoch));
}

#[test]
fn input_owner_release_publishes_availability_to_all_subscribers() {
    let mut book = OwnershipBook::new();
    let input_owner = SocketId::new(1);
    let epoch = acquire(&mut book, input_owner);

    match book.release(input_owner) {
        ReleasePlan::ResetInput(ownership) => {
            assert_eq!(ownership.socket, input_owner);
            assert_eq!(ownership.epoch, epoch);
        }
        ReleasePlan::NotInputOwner => panic!("the owner should be able to release"),
    }
    book.released();
    assert_eq!(book.availability(), OwnershipAvailability::Available);
}

#[test]
fn non_input_owner_input_returns_not_owner_without_a_command() {
    let mut book = OwnershipBook::new();
    let _ = acquire(&mut book, SocketId::new(1));
    assert_eq!(book.epoch(SocketId::new(2)), None);
}

#[test]
fn non_input_owner_feedback_keeps_quality_and_sends_no_command() {
    let mut book = OwnershipBook::new();
    let mut quality = Quality::new(
        Kbps::new(8_000).expect("bitrate"),
        Fps::new(60).expect("frame rate"),
    );
    let _ = acquire(&mut book, SocketId::new(1));
    let before = quality.levels();

    let plan = book.feedback(&mut quality, SocketId::new(2), &bad_feedback(), START);
    assert_eq!(plan.outcome, FeedbackOutcome::NotInputOwner);
    assert_eq!(plan.command, None);
    assert_eq!(quality.levels(), before);
}

#[test]
fn each_ownership_has_an_epoch_of_its_own() {
    let mut book = OwnershipBook::new();
    let first = acquire(&mut book, SocketId::new(1));
    book.released();
    let second = acquire(&mut book, SocketId::new(1));
    assert_ne!(first, second);
    assert_eq!(second, first.next());
    assert_eq!(first, OwnershipEpoch::first());
    assert_eq!(
        OwnershipEpoch::from_nonzero(NonZeroCount::new(7).expect("nonzero")).get(),
        7
    );
    assert_eq!(SocketId::new(9).get(), 9);

    let mut active = ActiveEpoch::none();
    active.set_active_ownership(second);
    assert!(!active.authorizes(Authority::Owner(first)));
    assert!(active.authorizes(Authority::Owner(second)));
}

#[test]
fn bad_reports_of_the_owner_add_up_and_changes_are_spaced() {
    let mut book = OwnershipBook::new();
    let mut quality = Quality::new(
        Kbps::new(8_000).expect("bitrate"),
        Fps::new(60).expect("frame rate"),
    );
    let socket = SocketId::new(1);
    let _ = acquire(&mut book, socket);
    let at = |seconds: u64| START.plus(seconds * 1_000_000_000);

    assert_eq!(
        book.feedback(&mut quality, socket, &bad_feedback(), at(0)).command,
        None
    );
    assert!(book
        .feedback(&mut quality, socket, &bad_feedback(), at(1))
        .command
        .is_some());
    assert_eq!(quality.last_change, Some(at(1)));
    for seconds in 2..6 {
        assert_eq!(
            book.feedback(&mut quality, socket, &bad_feedback(), at(seconds)).command,
            None
        );
    }
    assert!(book
        .feedback(&mut quality, socket, &bad_feedback(), at(6))
        .command
        .is_some());
}
