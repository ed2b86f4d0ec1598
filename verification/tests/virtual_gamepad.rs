use tetanes::virtual_gamepad::{
    ButtonState, ButtonUpdate, DpadDirection, DpadPress, JoypadBtn, JoypadEvent, Player,
    VirtualGamepad,
};

fn event(button: JoypadBtn, state: ButtonState) -> JoypadEvent {
    JoypadEvent { player: Player::One, button, state }
}

fn memory_after<T>(stored: Option<T>, write: Option<T>) -> Option<T> {
    match write {
        Some(v) => Some(v),
        None => stored,
    }
}

#[test]
fn new_gamepad_is_the_default_one() {
    let pad = VirtualGamepad::new();
    assert_eq!(format!("{pad:?}"), format!("{:?}", VirtualGamepad::default()));
}

#[test]
fn button_first_press_sends_pressed() {
    let pad = VirtualGamepad::new();
    let update = pad.button(None, true, JoypadBtn::A);
    assert_eq!(
        update,
        ButtonUpdate { write: Some(true), event: Some(event(JoypadBtn::A, ButtonState::Pressed)) }
    );
}

#[test]
fn button_never_seen_and_up_is_quiet() {
    let pad = VirtualGamepad::new();
    let update = pad.button(None, false, JoypadBtn::Start);
    assert_eq!(update, ButtonUpdate { write: None, event: None });
}

#[test]
fn button_release_sends_released() {
    let pad = VirtualGamepad::new();
    let update = pad.button(Some(true), false, JoypadBtn::Select);
    assert_eq!(
        update,
        ButtonUpdate {
            write: Some(false),
            event: Some(event(JoypadBtn::Select, ButtonState::Released))
        }
    );
}

#[test]
fn button_held_is_quiet() {
    let pad = VirtualGamepad::new();
    assert_eq!(pad.button(Some(true), true, JoypadBtn::B), ButtonUpdate { write: None, event: None });
}

#[test]
fn button_tap_sends_press_then_release_in_separate_frames() {
    let pad = VirtualGamepad::new();
    let first = pad.button(None, true, JoypadBtn::B);
    assert_eq!(first.event, Some(event(JoypadBtn::B, ButtonState::Pressed)));
    let memory = memory_after(None, first.write);
    let second = pad.button(memory, false, JoypadBtn::B);
    assert_eq!(second.event, Some(event(JoypadBtn::B, ButtonState::Released)));
    let memory = memory_after(memory, second.write);
    assert_eq!(memory, Some(false));
    assert_eq!(pad.button(memory, false, JoypadBtn::B).event, None);
}

#[test]
fn dpad_press_from_direction() {
    assert_eq!(
        DpadPress::from_direction(Some(DpadDirection::Left)),
        DpadPress { up: false, down: false, left: true, right: false }
    );
    assert_eq!(
        DpadPress::from_direction(None),
        DpadPress { up: false, down: false, left: false, right: false }
    );
}

#[test]
fn dpad_masks() {
    assert_eq!(DpadPress::from_direction(Some(DpadDirection::Up)).mask(), 1);
    assert_eq!(DpadPress::from_direction(Some(DpadDirection::Down)).mask(), 2);
    assert_eq!(DpadPress::from_direction(Some(DpadDirection::Left)).mask(), 4);
    assert_eq!(DpadPress::from_direction(Some(DpadDirection::Right)).mask(), 8);
    assert_eq!(DpadPress::from_direction(None).mask(), 0);
    assert_eq!(DpadPress { up: true, down: true, left: true, right: true }.mask(), 15);
    assert_eq!(DpadPress { up: false, down: true, left: false, right: true }.mask(), 10);
}

#[test]
fn dpad_first_press_sends_pressed() {
    let pad = VirtualGamepad::new();
    let update = pad.dpad(None, DpadPress::from_direction(Some(DpadDirection::Up)));
    assert_eq!(update.write, Some(1));
    assert_eq!(update.events, vec![event(JoypadBtn::Up, ButtonState::Pressed)]);
}

#[test]
fn dpad_untouched_is_quiet() {
    let pad = VirtualGamepad::new();
    let update = pad.dpad(None, DpadPress::from_direction(None));
    assert_eq!(update.write, None);
    assert!(update.events.is_empty());
}

#[test]
fn dpad_held_is_quiet() {
    let pad = VirtualGamepad::new();
    let update = pad.dpad(Some(8), DpadPress::from_direction(Some(DpadDirection::Right)));
    assert_eq!(update.write, None);
    assert!(update.events.is_empty());
}

#[test]
fn dpad_turn_releases_then_presses_in_button_order() {
    let pad = VirtualGamepad::new();
    // From right to up: up comes first in the order up, down, left, right.
    let update = pad.dpad(Some(8), DpadPress::from_direction(Some(DpadDirection::Up)));
    assert_eq!(update.write, Some(1));
    assert_eq!(
        update.events,
        vec![event(JoypadBtn::Up, ButtonState::Pressed), event(JoypadBtn::Right, ButtonState::Released)]
    );
    // From up to left.
    let update = pad.dpad(Some(1), DpadPress::from_direction(Some(DpadDirection::Left)));
    assert_eq!(
        update.events,
        vec![event(JoypadBtn::Up, ButtonState::Released), event(JoypadBtn::Left, ButtonState::Pressed)]
    );
}

#[test]
fn dpad_release_sends_released() {
    let pad = VirtualGamepad::new();
    let update = pad.dpad(Some(2), DpadPress::from_direction(None));
    assert_eq!(update.write, Some(0));
    assert_eq!(update.events, vec![event(JoypadBtn::Down, ButtonState::Released)]);
}

#[test]
fn dpad_many_arrows_at_once() {
    let pad = VirtualGamepad::new();
    let update = pad.dpad(Some(0b0101), DpadPress { up: false, down: true, left: true, right: true });
    assert_eq!(update.write, Some(0b1110));
    assert_eq!(
        update.events,
        vec![
            event(JoypadBtn::Up, ButtonState::Released),
            event(JoypadBtn::Down, ButtonState::Pressed),
            event(JoypadBtn::Right, ButtonState::Pressed),
        ]
    );
}

#[test]
fn dpad_stored_high_bits_are_rewritten_without_events() {
    let pad = VirtualGamepad::new();
    let update = pad.dpad(Some(0x11), DpadPress::from_direction(Some(DpadDirection::Up)));
    assert_eq!(update.write, Some(1));
    assert!(update.events.is_empty());
}

#[test]
fn dpad_tap_and_repeat() {
    let pad = VirtualGamepad::new();
    let held = DpadPress::from_direction(Some(DpadDirection::Down));
    let first = pad.dpad(None, held);
    assert_eq!(first.events, vec![event(JoypadBtn::Down, ButtonState::Pressed)]);
    let memory = memory_after(None, first.write);
    // Holding on sends nothing more.
    let again = pad.dpad(memory, held);
    assert_eq!(again.write, None);
    assert!(again.events.is_empty());
    let memory = memory_after(memory, again.write);
    let released = pad.dpad(memory, DpadPress::from_direction(None));
    assert_eq!(released.events, vec![event(JoypadBtn::Down, ButtonState::Released)]);
    assert_eq!(memory_after(memory, released.write), Some(0));
}

#[test]
fn button_events_alternate_over_frames() {
    let pad = VirtualGamepad::new();
    let mut memory = None;
    let mut events = Vec::new();
    for down in [true, true, true, false, false, true, false] {
        let update = pad.button(memory, down, JoypadBtn::Start);
        events.extend(update.event);
        memory = memory_after(memory, update.write);
    }
    assert_eq!(
        events,
        vec![
            event(JoypadBtn::Start, ButtonState::Pressed),
            event(JoypadBtn::Start, ButtonState::Released),
            event(JoypadBtn::Start, ButtonState::Pressed),
            event(JoypadBtn::Start, ButtonState::Released),
        ]
    );
    assert_eq!(memory, Some(false));
}

#[test]
fn dpad_events_alternate_per_arrow_and_release_all() {
    let pad = VirtualGamepad::new();
    let mut memory = None;
    let mut events = Vec::new();
    let frames = [
        Some(DpadDirection::Up),
        Some(DpadDirection::Up),
        Some(DpadDirection::Left),
        Some(DpadDirection::Up),
        None,
    ];
    for dir in frames {
        let update = pad.dpad(memory, DpadPress::from_direction(dir));
        events.extend(update.events);
        memory = memory_after(memory, update.write);
    }
    let up: Vec<_> = events.iter().filter(|e| e.button == JoypadBtn::Up).map(|e| e.state).collect();
    let left: Vec<_> =
        events.iter().filter(|e| e.button == JoypadBtn::Left).map(|e| e.state).collect();
    assert_eq!(
        up,
        vec![ButtonState::Pressed, ButtonState::Released, ButtonState::Pressed, ButtonState::Released]
    );
    assert_eq!(left, vec![ButtonState::Pressed, ButtonState::Released]);
    assert_eq!(memory, Some(0));
}
