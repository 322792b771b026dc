use three_d::control::{
    event_inputs, pointer_button, ui_event, ui_input, ControlInput, Coordinates, Event, Key,
    Modifiers, MouseButton, PointerButton, UiEvent,
};

fn no_mods() -> Modifiers {
    Modifiers { alt: false, ctrl: false, shift: false, command: false }
}

fn at(x: f64, y: f64) -> Coordinates {
    Coordinates { x: x.to_bits(), y: y.to_bits() }
}

#[test]
fn toolkit_modifiers_merge_command_keys() {
    let m = Modifiers::from_toolkit(true, false, true, false, true);
    assert_eq!(m, Modifiers { alt: true, ctrl: false, shift: true, command: true });
    let m = Modifiers::from_toolkit(false, true, false, false, false);
    assert!(!m.command);
    assert!(m.mac_cmd(false) == false);
    let c = Modifiers { command: true, ..no_mods() };
    assert!(c.mac_cmd(true));
    assert!(!c.mac_cmd(false));
}

#[test]
fn mouse_buttons_map_to_pointer_buttons() {
    assert_eq!(pointer_button(MouseButton::Left), PointerButton::Primary);
    assert_eq!(pointer_button(MouseButton::Right), PointerButton::Secondary);
    assert_eq!(pointer_button(MouseButton::Middle), PointerButton::Middle);
}

#[test]
fn handled_events_are_not_passed_on() {
    let e = Event::KeyPress { kind: Key::A, modifiers: no_mods(), handled: true };
    assert!(ui_event(e).is_none());
    let e = Event::MouseWheel {
        delta: at(0.0, 1.0),
        position: at(3.0, 4.0),
        modifiers: no_mods(),
        handled: true,
    };
    assert!(ui_event(e).is_none());
}

#[test]
fn key_release_becomes_key_up() {
    let e = Event::KeyRelease { kind: Key::Num3, modifiers: no_mods(), handled: false };
    match ui_event(e) {
        Some(UiEvent::Key { key, pressed, .. }) => {
            assert_eq!(key, Key::Num3);
            assert!(!pressed);
        }
        _ => panic!("expected a key event"),
    }
}

#[test]
fn ui_input_of_a_frame() {
    let ctrl = Modifiers { ctrl: true, command: true, ..no_mods() };
    let events = vec![
        Event::MousePress {
            button: MouseButton::Right,
            position: at(1.5, 2.5),
            modifiers: no_mods(),
            handled: false,
        },
        Event::MouseEnter,
        Event::ModifiersChange { modifiers: ctrl },
        Event::Text("hi".to_string()),
        Event::MouseMotion {
            button: None,
            delta: at(1.0, 1.0),
            position: at(7.0, 8.0),
            modifiers: ctrl,
            handled: false,
        },
        Event::KeyPress { kind: Key::Z, modifiers: ctrl, handled: true },
        Event::MouseLeave,
    ];
    let input = ui_input(events);
    assert_eq!(input.modifiers, ctrl);
    assert_eq!(input.events.len(), 4);
    assert!(matches!(
        input.events[0],
        UiEvent::PointerButton { button: PointerButton::Secondary, pressed: true, .. }
    ));
    match &input.events[0] {
        UiEvent::PointerButton { position, .. } => {
            assert_eq!(f64::from_bits(position.x), 1.5);
            assert_eq!(f64::from_bits(position.y), 2.5);
        }
        _ => panic!("expected a pointer event"),
    }
    assert!(matches!(&input.events[1], UiEvent::Text(t) if t == "hi"));
    assert!(matches!(input.events[2], UiEvent::PointerMoved(p) if p == at(7.0, 8.0)));
    assert!(matches!(input.events[3], UiEvent::PointerGone));
}

#[test]
fn ui_input_without_modifier_changes() {
    let input = ui_input(vec![Event::MouseWheel {
        delta: at(0.0, -2.0),
        position: at(0.0, 0.0),
        modifiers: no_mods(),
        handled: false,
    }]);
    assert_eq!(input.modifiers, no_mods());
    assert!(matches!(input.events[0], UiEvent::Scroll(d) if d == at(0.0, -2.0)));
    assert_eq!(ui_input(vec![]).events.len(), 0);
}

#[test]
fn camera_control_inputs_of_events() {
    let drag = Event::MouseMotion {
        button: Some(MouseButton::Middle),
        delta: at(2.0, -1.0),
        position: at(0.0, 0.0),
        modifiers: no_mods(),
        handled: false,
    };
    assert_eq!(
        event_inputs(&drag),
        Some((ControlInput::MiddleDragHorizontal, ControlInput::MiddleDragVertical, at(2.0, -1.0)))
    );
    let hover = Event::MouseMotion {
        button: None,
        delta: at(2.0, -1.0),
        position: at(0.0, 0.0),
        modifiers: no_mods(),
        handled: false,
    };
    assert_eq!(event_inputs(&hover), None);
    let scroll = Event::MouseWheel {
        delta: at(0.0, 3.0),
        position: at(0.0, 0.0),
        modifiers: no_mods(),
        handled: false,
    };
    assert_eq!(
        event_inputs(&scroll),
        Some((ControlInput::ScrollHorizontal, ControlInput::ScrollVertical, at(0.0, 3.0)))
    );
    let handled = Event::MouseMotion {
        button: Some(MouseButton::Left),
        delta: at(2.0, -1.0),
        position: at(0.0, 0.0),
        modifiers: no_mods(),
        handled: true,
    };
    assert_eq!(event_inputs(&handled), None);
    assert_eq!(event_inputs(&Event::Text("x".to_string())), None);
}
