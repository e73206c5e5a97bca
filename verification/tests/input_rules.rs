use roids::input::{
    any_key_held, dpad_x, dpad_y, gamepad_triggers, read_keys, ButtonEdge, Direction, InputEventAction,
    InputEventType, InputTriggerMessage, Key, KeyBindings, KeyCommand, TouchTracker,
};

fn msg(action: InputEventAction, input_type: InputEventType) -> InputTriggerMessage {
    InputTriggerMessage::new(action, input_type)
}

#[test]
fn default_bindings() {
    let b = KeyBindings::default();
    assert_eq!(b.up_keys, vec![Key::KeyW, Key::ArrowUp]);
    assert_eq!(b.down_keys, vec![Key::KeyS, Key::ArrowDown]);
    assert_eq!(b.left_keys, vec![Key::KeyA, Key::ArrowLeft]);
    assert_eq!(b.right_keys, vec![Key::KeyD, Key::ArrowRight]);
    assert_eq!(b.commands.len(), 3);
    assert_eq!(b.commands[0].action, InputEventAction::Shoot);
    assert_eq!(b.commands[0].keys, vec![Key::Space, Key::ShiftRight]);
    assert_eq!(b.commands[1].action, InputEventAction::Shield);
    assert_eq!(b.commands[2].keys, vec![Key::Escape, Key::Pause]);
}

#[test]
fn key_command_keeps_its_keys() {
    let c = KeyCommand::new(InputEventAction::Pause, vec![Key::Escape]);
    assert_eq!(c.action, InputEventAction::Pause);
    assert_eq!(c.keys, vec![Key::Escape]);
}

#[test]
fn any_key_held_finds_one_of_the_keys() {
    assert!(any_key_held(&vec![Key::Other, Key::ArrowUp], &vec![Key::KeyW, Key::ArrowUp]));
    assert!(!any_key_held(&vec![Key::Other], &vec![Key::KeyW, Key::ArrowUp]));
    assert!(!any_key_held(&vec![Key::KeyW], &vec![]));
}

#[test]
fn thrust_and_turn_left() {
    let b = KeyBindings::default();
    let mut last = Direction { x: 0, y: 0 };
    let r = read_keys(&vec![Key::KeyW, Key::ArrowLeft], &vec![], &vec![], &b, &mut last);
    assert_eq!(r.movement, Some(Direction { x: -1, y: 1 }));
    assert_eq!(last, Direction { x: -1, y: 1 });
    assert!(r.triggers.is_empty());
}

#[test]
fn opposite_keys_cancel() {
    let b = KeyBindings::default();
    let mut last = Direction { x: 1, y: 0 };
    let held = vec![Key::KeyA, Key::KeyD, Key::KeyW, Key::ArrowDown];
    let r = read_keys(&held, &vec![], &vec![], &b, &mut last);
    // the direction went back to zero, which differs from the last one sent
    assert_eq!(r.movement, Some(Direction { x: 0, y: 0 }));
    assert_eq!(last, Direction { x: 0, y: 0 });
}

#[test]
fn idle_keyboard_sends_nothing_twice() {
    let b = KeyBindings::default();
    let mut last = Direction { x: 0, y: 0 };
    let r = read_keys(&vec![], &vec![], &vec![], &b, &mut last);
    assert_eq!(r.movement, None);
    assert_eq!(last, Direction { x: 0, y: 0 });
}

#[test]
fn held_direction_is_sent_every_frame() {
    let b = KeyBindings::default();
    let mut last = Direction { x: 0, y: 1 };
    let r = read_keys(&vec![Key::ArrowUp], &vec![], &vec![], &b, &mut last);
    assert_eq!(r.movement, Some(Direction { x: 0, y: 1 }));
}

#[test]
fn command_presses_and_releases_in_command_order() {
    let b = KeyBindings::default();
    let mut last = Direction { x: 0, y: 0 };
    let r = read_keys(
        &vec![],
        &vec![Key::Escape, Key::Space],
        &vec![Key::ShiftRight, Key::ControlLeft],
        &b,
        &mut last,
    );
    assert_eq!(
        r.triggers,
        vec![
            msg(InputEventAction::Shoot, InputEventType::Pressed),
            msg(InputEventAction::Shoot, InputEventType::Released),
            msg(InputEventAction::Shield, InputEventType::Released),
            msg(InputEventAction::Pause, InputEventType::Pressed),
        ]
    );
}

#[test]
fn first_finger_steers_second_finger_shoots() {
    let mut t = TouchTracker::new();
    let r = t.read_touch(&vec![7, 8], &vec![], &vec![7, 8]);
    assert_eq!(r.new_finger, Some(7));
    assert!(r.steering);
    assert_eq!(r.triggers, vec![msg(InputEventAction::Shoot, InputEventType::Pressed)]);
    assert_eq!(t.move_finger, Some(7));

    // lifting the shooting finger stops shooting, the steering one stays
    let r = t.read_touch(&vec![], &vec![8], &vec![7]);
    assert_eq!(r.new_finger, None);
    assert!(r.steering);
    assert_eq!(r.triggers, vec![msg(InputEventAction::Shoot, InputEventType::Released)]);

    // lifting the steering finger frees it, with no message
    let r = t.read_touch(&vec![], &vec![7], &vec![]);
    assert!(!r.steering);
    assert!(r.triggers.is_empty());
    assert_eq!(t.move_finger, None);
}

#[test]
fn vanished_steering_finger_is_forgotten() {
    let mut t = TouchTracker { move_finger: Some(3) };
    let r = t.read_touch(&vec![], &vec![], &vec![4]);
    assert!(!r.steering);
    assert_eq!(t.move_finger, None);
}

#[test]
fn gamepad_buttons() {
    let pressed = ButtonEdge { just_pressed: true, just_released: false };
    let released = ButtonEdge { just_pressed: false, just_released: true };
    let both = ButtonEdge { just_pressed: true, just_released: true };
    let idle = ButtonEdge { just_pressed: false, just_released: false };
    assert_eq!(
        gamepad_triggers(pressed, released),
        vec![
            msg(InputEventAction::Shield, InputEventType::Pressed),
            msg(InputEventAction::Shoot, InputEventType::Released),
        ]
    );
    assert_eq!(gamepad_triggers(idle, both), vec![msg(InputEventAction::Shoot, InputEventType::Pressed)]);
    assert!(gamepad_triggers(idle, idle).is_empty());
}

#[test]
fn dpad_overrides_the_stick() {
    // horizontal: (left, right), right wins
    assert_eq!(dpad_x(false, false), None);
    assert_eq!(dpad_x(true, false), Some(-1));
    assert_eq!(dpad_x(false, true), Some(1));
    assert_eq!(dpad_x(true, true), Some(1));
    // vertical: (up, down), down wins
    assert_eq!(dpad_y(false, false), None);
    assert_eq!(dpad_y(true, false), Some(1));
    assert_eq!(dpad_y(false, true), Some(-1));
    assert_eq!(dpad_y(true, true), Some(-1));
}
