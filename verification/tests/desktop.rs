use waywire::clock::Instant;
use waywire::desktop::{
    capture_time, cursor_image, output_mode, session_arguments, session_display, CommandError,
    CommandInput, CursorImage, Desktop, Effect, FrameClock, Notification, NotificationEffect,
    RenderError, SessionStatus, XwaylandEvent,
};
use waywire::encoder::VideoError;
use waywire::frames::Pool;
use waywire::messages::{
    ButtonState, ClipboardText, Command, CursorShape, CursorVisibility, Event, FrameSize, KeyState,
    QualityCommand, RequestId, ScaleV120, TextAction,
};
use waywire::pipeline::{KeyframeReadiness, KeyframeState};
use waywire::values::{Chroma, Crf, Fps, Generation, InputSequence, Kbps, ScalePercent};

fn fps(value: u32) -> Fps {
    Fps::new(value).expect("test frame rate should be valid")
}

fn generation(value: u32) -> Generation {
    Generation::new(value).expect("test generation should be valid")
}

fn sequence(value: u64) -> InputSequence {
    InputSequence::new(value).expect("test sequence should be valid")
}

fn desktop() -> Desktop {
    Desktop::new(
        fps(60),
        Kbps::new(8_000).expect("test bitrate should be valid"),
        FrameSize::new(4, 2).expect("test size should be valid"),
    )
}

fn acknowledge(desktop: &mut Desktop, of: u32, state: KeyframeState) {
    let result = desktop.apply_command(Command::KeyframeReadiness(KeyframeReadiness {
        generation: generation(of),
        state,
    }));
    assert!(matches!(result, Ok(Effect::Nothing)));
}

#[test]
fn desktops_start_with_a_picture_due() {
    let desktop = desktop();
    assert_eq!(desktop.quality.scale_percent, ScalePercent::maximum());
    assert_eq!(desktop.quality.crf, Crf::new(23).expect("test CRF"));
    assert_eq!(desktop.quality.chroma, Chroma::Rgb);
    assert_eq!(desktop.generation, generation(1));
    assert!(desktop.running && desktop.dirty);
    let plan = desktop.plan_render(4, 2);
    assert!(!plan.reallocate);
    assert_eq!(plan.age, 0);
    assert!(desktop.plan_render(2, 2).reallocate);
}

#[test]
fn input_commands_become_input() {
    let mut desktop = desktop();
    assert!(matches!(
        desktop.apply_command(Command::PointerAbsolute {
            x: 1,
            y: 2,
            sequence: sequence(5)
        }),
        Ok(Effect::MoveTo { x: 1, y: 2 })
    ));
    assert_eq!(desktop.latest_input_sequence, Some(sequence(5)));
    assert!(matches!(
        desktop.apply_command(Command::PointerRelative {
            dx: -3,
            dy: 4,
            sequence: sequence(6)
        }),
        Ok(Effect::MoveBy { dx: -3, dy: 4 })
    ));
    assert!(matches!(
        desktop.apply_command(Command::PointerScroll {
            dx: 1,
            dy: -1,
            sequence: sequence(7)
        }),
        Ok(Effect::Scroll { dx: 1, dy: -1 })
    ));
    assert!(matches!(
        desktop.apply_command(Command::PointerButton {
            button: 0x110,
            state: ButtonState::Pressed,
            sequence: sequence(8)
        }),
        Ok(Effect::Button {
            button: 0x110,
            state: ButtonState::Pressed
        })
    ));
    let mut key = |key_state| {
        desktop.apply_command(Command::KeyboardKey {
            key: 30,
            key_state,
            sequence: sequence(9),
        })
    };
    assert!(matches!(
        key(KeyState::Pressed),
        Ok(Effect::Key {
            key: 30,
            state: ButtonState::Pressed
        })
    ));
    assert!(matches!(
        key(KeyState::Released),
        Ok(Effect::Key {
            key: 30,
            state: ButtonState::Released
        })
    ));
    assert!(matches!(key(KeyState::Repeated), Ok(Effect::Nothing)));
    assert!(matches!(
        desktop.apply_command(Command::ReleaseAll),
        Ok(Effect::ReleaseInput)
    ));
}

#[test]
fn texts_are_committed_or_composed() {
    let mut desktop = desktop();
    let mut send = |action| {
        desktop.apply_command(Command::Text {
            action,
            sequence: sequence(1),
            text: "né".to_owned(),
        })
    };
    assert!(matches!(send(TextAction::Commit), Ok(Effect::CommitText { text }) if text == "né"));
    assert!(matches!(
        send(TextAction::Preedit),
        Ok(Effect::ComposeText { text, cursor: 3 }) if text == "né"
    ));
    let text = ClipboardText::new("copied".to_owned()).expect("test clipboard should be valid");
    assert!(matches!(
        desktop.apply_command(Command::Clipboard(text)),
        Ok(Effect::SetClipboard(found)) if found.as_str() == "copied"
    ));
}

#[test]
fn resizes_are_applied_in_a_new_generation() {
    let mut desktop = desktop();
    acknowledge(&mut desktop, 1, KeyframeState::Cached);
    let size = FrameSize::new(1280, 720).expect("test size should be valid");
    let scale_v120 = ScaleV120::new(150).expect("test scale should be valid");
    let request_id = RequestId::new(7).expect("test request ID should be valid");
    match desktop.apply_command(Command::Resize {
        request_id,
        size,
        scale_v120,
    }) {
        Ok(Effect::Resize {
            mode,
            scale_v120: scale,
            applied: Some(applied),
        }) => {
            assert_eq!(mode, output_mode(size, fps(60)));
            assert_eq!((mode.width, mode.height, mode.refresh), (1280, 720, 60_000));
            assert_eq!(scale, scale_v120);
            assert_eq!(applied.request_id, request_id);
            assert_eq!(applied.size, size);
            assert_eq!(applied.generation, generation(2));
        }
        other => panic!("the size should be applied: {other:?}"),
    }
    assert_eq!(desktop.acknowledged, None);
    assert_eq!(desktop.size, size);
}

#[test]
fn new_settings_start_a_generation_once() {
    let mut desktop = desktop();
    let mut quality: QualityCommand = desktop.quality;
    assert!(matches!(
        desktop.apply_command(Command::Quality(quality)),
        Ok(Effect::Nothing)
    ));
    quality.fps = fps(30);
    assert!(matches!(
        desktop.apply_command(Command::Quality(quality)),
        Ok(Effect::SetGeneration { generation: next }) if next == generation(2)
    ));
    assert!(matches!(
        desktop.apply_command(Command::ResetVideo),
        Ok(Effect::SetGeneration { generation: next }) if next == generation(3)
    ));
    desktop.generation = generation(u32::MAX);
    assert!(matches!(
        desktop.apply_command(Command::ResetVideo),
        Err(CommandError::GenerationExhausted)
    ));
}

#[test]
fn acknowledgements_count_for_their_generation() {
    let mut desktop = desktop();
    acknowledge(&mut desktop, 2, KeyframeState::Cached);
    assert_eq!(desktop.acknowledged, None);
    acknowledge(&mut desktop, 1, KeyframeState::Cached);
    assert_eq!(desktop.acknowledged, Some(generation(1)));
    acknowledge(&mut desktop, 2, KeyframeState::Missing);
    assert_eq!(desktop.acknowledged, Some(generation(1)));
    acknowledge(&mut desktop, 1, KeyframeState::Missing);
    assert_eq!(desktop.acknowledged, None);
}

#[test]
fn idle_desktops_send_no_pictures() {
    let mut desktop = desktop();
    let mut pool = Pool::new(generation(1));
    let pixels = vec![9; 32];
    for expected in 0..2 {
        assert_eq!(
            desktop.submit_picture(&mut pool, false, &pixels, 77),
            Ok(true)
        );
        let (slot, frame) = pool
            .take_pending_frame()
            .expect("the picture should be pending");
        assert_eq!(frame.metadata.sequence, expected);
        assert_eq!(frame.metadata.capture_nanos, 77);
        assert_eq!(frame.config.raw_width.get(), 4);
        assert_eq!(frame.metadata.height.get(), 2);
        assert_eq!(frame.pixels, pixels);
        pool.release_slot(slot, frame);
    }
    acknowledge(&mut desktop, 1, KeyframeState::Cached);
    assert_eq!(desktop.plan_render(4, 2).age, 1);
    assert_eq!(
        desktop.submit_picture(&mut pool, false, &pixels, 78),
        Ok(false)
    );
    assert_eq!(
        desktop.submit_picture(&mut pool, true, &pixels, 79),
        Ok(true)
    );
}

#[test]
fn pictures_fail_with_their_reason() {
    let mut desktop = desktop();
    let mut pool = Pool::new(generation(1));
    assert_eq!(
        desktop.submit_picture(&mut pool, true, &[1, 2, 3], 1),
        Err(RenderError::Video(VideoError::InvalidFrame))
    );
    desktop.sequence = u64::MAX;
    assert_eq!(
        desktop.submit_picture(&mut pool, true, &[0; 32], 1),
        Err(RenderError::SequenceExhausted)
    );
    assert_eq!(capture_time(2, 5), Some(2_000_000_005));
    assert_eq!(capture_time(-1, 5), None);
}

#[test]
fn encoders_are_restarted_in_a_new_generation() {
    let mut desktop = desktop();
    assert!(matches!(
        desktop.notification(Notification::RestartRequired {
            generation: generation(9)
        }),
        NotificationEffect::Nothing
    ));
    assert!(matches!(
        desktop.notification(Notification::RestartRequired {
            generation: generation(1)
        }),
        NotificationEffect::SetGeneration { generation: next } if next == generation(2)
    ));
    assert!(matches!(
        desktop.notification(Notification::Fatal("no encoder".to_owned())),
        NotificationEffect::Nothing
    ));
    desktop.fail("later".to_owned());
    assert!(!desktop.running);
    assert_eq!(desktop.finish(), Err("no encoder".to_owned()));
}

#[test]
fn pictures_are_paced_by_the_frame_rate() {
    let start = Instant { nanos: 500 };
    let mut clock = FrameClock::new(start);
    assert!(clock.due(start));
    clock.drawn(start, fps(60));
    assert_eq!(clock.wait(start), 16_666_667);
    assert!(!clock.due(start));
    for rate in 1..=120_u32 {
        clock.drawn(start, fps(rate));
        let exact = std::time::Duration::from_secs_f64(1.0 / f64::from(rate));
        assert_eq!(u128::from(clock.wait(start)), exact.as_nanos(), "{rate}");
    }
}

#[test]
fn runs_end_with_their_input_and_their_session() {
    let mut ended = desktop();
    assert!(ended.command_input(CommandInput::Blocked));
    assert!(!ended.command_input(CommandInput::End { unfinished: None }));
    assert!(!ended.running);
    assert_eq!(ended.finish(), Ok(()));

    let mut cut = desktop();
    assert!(!cut.command_input(CommandInput::End {
        unfinished: Some("truncated".to_owned())
    }));
    assert_eq!(cut.finish(), Err("truncated".to_owned()));

    let mut malformed = desktop();
    assert!(malformed.command_input(CommandInput::Malformed("bad".to_owned())));
    assert!(!malformed.running);

    let mut session = desktop();
    session.session_status(SessionStatus::Running);
    assert!(session.running);
    session.session_status(SessionStatus::Exited);
    assert!(!session.running);
    session.session_status(SessionStatus::Unknown("lost".to_owned()));
    assert_eq!(session.finish(), Err("lost".to_owned()));
}

#[test]
fn sessions_start_once_xwayland_is_ready() {
    assert_eq!(session_display(false, Some(3), 1), Some(3));
    assert_eq!(session_display(true, Some(3), 1), None);
    assert_eq!(session_display(false, None, 1), None);
    assert_eq!(session_display(false, Some(3), 0), None);
    assert_eq!(
        session_arguments(vec![b"foot".to_vec()], Some(b"xterm".to_vec())),
        vec![b"foot".to_vec()]
    );
    assert_eq!(
        session_arguments(vec![], Some(b"xterm".to_vec())),
        vec![b"xterm".to_vec()]
    );
    assert_eq!(
        session_arguments(vec![], Some(vec![])),
        Vec::<Vec<u8>>::new()
    );
}

#[test]
fn xwayland_must_become_ready_and_stay() {
    let deadline = Instant { nanos: 100 };
    let early = Instant { nanos: 99 };
    let mut waiting = desktop();
    assert!(waiting.monitor_xwayland(true, early, deadline));
    assert!(!waiting.monitor_xwayland(true, deadline, deadline));
    assert_eq!(
        waiting.finish(),
        Err("Xwayland did not become ready within 10 seconds".to_owned())
    );

    let mut ready = desktop();
    ready.xwayland(XwaylandEvent::Ready { display: 1 });
    assert!(ready.monitor_xwayland(true, deadline, deadline));
    assert!(!ready.monitor_xwayland(false, early, deadline));
    assert_eq!(ready.finish(), Err("Xwayland disconnected".to_owned()));

    let mut failed = desktop();
    failed.xwayland(XwaylandEvent::ManagerFailed {
        error: "no socket".to_owned(),
    });
    assert_eq!(
        failed.finish(),
        Err("Xwayland WM startup: no socket".to_owned())
    );

    let mut gone = desktop();
    gone.xwayland(XwaylandEvent::Ready { display: 1 });
    gone.xwayland(XwaylandEvent::Disconnected);
    assert_eq!(gone.display, None);
    assert_eq!(gone.finish(), Err("Xwayland WM disconnected".to_owned()));
}

#[test]
fn cursors_are_reported_by_shape_and_visibility() {
    assert!(matches!(
        cursor_image(CursorImage::Hidden).as_slice(),
        [Event::CursorVisibility(CursorVisibility::Hidden)]
    ));
    assert!(matches!(
        cursor_image(CursorImage::Named(Some(CursorShape(4)))).as_slice(),
        [
            Event::CursorShape(CursorShape(4)),
            Event::CursorVisibility(CursorVisibility::Visible)
        ]
    ));
    assert!(matches!(
        cursor_image(CursorImage::Named(None)).as_slice(),
        [Event::CursorShape(CursorShape(0)), _]
    ));
    assert!(matches!(
        cursor_image(CursorImage::Surface).as_slice(),
        [Event::CursorShape(CursorShape(0)), _]
    ));
}
