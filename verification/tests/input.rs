use waywire::geometry::DecorationAction;
use waywire::input::{
    xkb_code, AxisAmount, AxisStep, ButtonPlan, Buttons, EmulatedAction, EmulatedConnection,
    EmulatedEvent, InputSource, PointerState, SourceAllocator, LEFT_BUTTON,
};
use waywire::messages::ButtonState;
use waywire::windows::{DecorationHit, WindowId};

const FREE: Option<PointerState> = Some(PointerState {
    grabbed: false,
    decoration: None,
});

#[test]
fn a_button_is_released_by_its_last_holder() {
    let browser = InputSource::main();
    let device = SourceAllocator::new().allocate();
    assert_ne!(browser, device);
    let mut buttons = Buttons::new();
    let mut change =
        |source, state| buttons.pointer_button(source, LEFT_BUTTON, state, FREE);
    assert_eq!(
        change(browser, ButtonState::Pressed),
        ButtonPlan::Deliver { refocus: true }
    );
    assert_eq!(change(device, ButtonState::Pressed), ButtonPlan::Ignore);
    assert_eq!(change(browser, ButtonState::Released), ButtonPlan::Ignore);
    assert_eq!(
        change(device, ButtonState::Released),
        ButtonPlan::Deliver { refocus: false }
    );
    assert!(!buttons.down(LEFT_BUTTON));
}

#[test]
fn decorations_take_free_left_presses() {
    let pointer = |grabbed| {
        Some(PointerState {
            grabbed,
            decoration: Some(DecorationHit {
                window: WindowId { id: 9 },
                action: DecorationAction::Close,
            }),
        })
    };
    let source = InputSource::main();
    let press = |button, pointer| {
        Buttons::new().pointer_button(source, button, ButtonState::Pressed, pointer)
    };
    assert_eq!(
        press(LEFT_BUTTON, pointer(false)),
        ButtonPlan::Decoration {
            window: WindowId { id: 9 },
            action: DecorationAction::Close
        }
    );
    assert_eq!(
        press(LEFT_BUTTON, pointer(true)),
        ButtonPlan::Deliver { refocus: false }
    );
    assert_eq!(
        press(0x111, pointer(false)),
        ButtonPlan::Deliver { refocus: true }
    );
    assert_eq!(press(LEFT_BUTTON, None), ButtonPlan::Ignore);
}

#[test]
fn releasing_a_source_spares_the_others() {
    let browser = InputSource::main();
    let device = InputSource { id: 5 };
    let mut buttons = Buttons::new();
    for (source, button) in [(browser, 1), (browser, 2), (device, 2), (device, 3)] {
        let _ = buttons.pointer_button(source, button, ButtonState::Pressed, FREE);
    }
    assert_eq!(buttons.release_source(browser), vec![1]);
    assert!(!buttons.down(1));
    assert!(buttons.down(2));
    assert!(buttons.down(3));
    assert_eq!(buttons.release_source(browser), vec![]);
}

fn name(device: &str) -> String {
    device.to_owned()
}

#[test]
fn emulated_devices_are_sources_of_their_own() {
    let mut allocator = SourceAllocator::new();
    let mut connection = EmulatedConnection::new();
    assert!(matches!(
        connection.handle(&mut allocator, EmulatedEvent::Connected),
        EmulatedAction::AddSeat
    ));
    assert!(matches!(
        connection.handle(
            &mut allocator,
            EmulatedEvent::DeviceAdded { device: name("keyboard") }
        ),
        EmulatedAction::Nothing
    ));
    let keyboard = InputSource { id: 1 };
    assert!(matches!(
        connection.handle(
            &mut allocator,
            EmulatedEvent::Key {
                device: name("keyboard"),
                xkb_code: xkb_code(30),
                state: ButtonState::Pressed,
            }
        ),
        EmulatedAction::Key { source, key: 30, state: ButtonState::Pressed } if source == keyboard
    ));
    assert!(matches!(
        connection.handle(
            &mut allocator,
            EmulatedEvent::Button {
                device: name("pointer"),
                button: LEFT_BUTTON,
                state: ButtonState::Released,
            }
        ),
        EmulatedAction::Button { source: InputSource { id: 2 }, .. }
    ));
    assert!(matches!(
        connection.handle(
            &mut allocator,
            EmulatedEvent::DeviceRemoved { device: name("keyboard") }
        ),
        EmulatedAction::Release { source } if source == keyboard
    ));
    assert!(matches!(
        connection.handle(
            &mut allocator,
            EmulatedEvent::DeviceRemoved { device: name("keyboard") }
        ),
        EmulatedAction::Nothing
    ));
    match connection.handle(&mut allocator, EmulatedEvent::Disconnected) {
        EmulatedAction::RemoveSeat { release } => {
            assert_eq!(release, vec![InputSource { id: 2 }]);
        }
        other => panic!("a disconnect should remove the seat: {other:?}"),
    }
    assert!(connection.devices.is_empty());
}

#[test]
fn wheels_scroll_by_steps_or_by_amounts() {
    let mut allocator = SourceAllocator::new();
    let mut connection = EmulatedConnection::new();
    let amount = |v120, amount_is_zero| AxisAmount {
        v120,
        amount_is_zero,
    };
    for (given, step) in [
        (amount(Some(240), Some(true)), AxisStep::V120 { steps: 240 }),
        (amount(None, Some(true)), AxisStep::Stop),
        (amount(None, Some(false)), AxisStep::Value),
        (amount(None, None), AxisStep::Absent),
    ] {
        match connection.handle(
            &mut allocator,
            EmulatedEvent::Axis {
                horizontal: given,
                vertical: amount(None, None),
            },
        ) {
            EmulatedAction::Scroll {
                horizontal,
                vertical,
            } => {
                assert_eq!(horizontal, step);
                assert_eq!(vertical, AxisStep::Absent);
            }
            other => panic!("a wheel should scroll: {other:?}"),
        }
    }
    assert!(matches!(
        connection.handle(&mut allocator, EmulatedEvent::Motion),
        EmulatedAction::MoveBy
    ));
    assert!(matches!(
        connection.handle(&mut allocator, EmulatedEvent::MotionAbsolute),
        EmulatedAction::MoveTo
    ));
    assert!(matches!(
        connection.handle(&mut allocator, EmulatedEvent::Unsupported),
        EmulatedAction::Nothing
    ));
}

#[test]
fn disconnects_release_each_source_once() {
    let mut allocator = SourceAllocator::new();
    let mut connection = EmulatedConnection::new();
    for device in ["keyboard", "pointer", "keyboard"] {
        let _ = connection.handle(
            &mut allocator,
            EmulatedEvent::DeviceAdded {
                device: device.to_owned(),
            },
        );
    }
    match connection.handle(&mut allocator, EmulatedEvent::Disconnected) {
        EmulatedAction::RemoveSeat { release } => {
            assert_eq!(
                release,
                vec![InputSource { id: 1 }, InputSource { id: 2 }]
            );
        }
        other => panic!("a disconnect should remove the seat: {other:?}"),
    }
}
