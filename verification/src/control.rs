//! Input from the window: mouse buttons, keys and modifier keys.

use vstd::prelude::*;

verus! {

/// Type of mouse button.
#[derive(Clone, Copy, Debug, Eq, Ord, PartialEq, PartialOrd, Hash, Structural)]
pub enum MouseButton {
    /// Left mouse button or one finger on touch.
    Left,
    /// Right mouse button or two fingers on touch.
    Right,
    /// Middle mouse button.
    Middle,
}

/// Keyboard key input. The number keys are either from the main row or from the
/// numpad.
#[derive(Clone, Copy, Debug, Eq, Ord, PartialEq, PartialOrd, Hash, Structural)]
pub enum Key {
    ArrowDown,
    ArrowLeft,
    ArrowRight,
    ArrowUp,
    Escape,
    Tab,
    Backspace,
    Enter,
    Space,
    Insert,
    Delete,
    Home,
    End,
    PageUp,
    PageDown,
    Num0,
    Num1,
    Num2,
    Num3,
    Num4,
    Num5,
    Num6,
    Num7,
    Num8,
    Num9,
    A,
    B,
    C,
    D,
    E,
    F,
    G,
    H,
    I,
    J,
    K,
    L,
    M,
    N,
    O,
    P,
    Q,
    R,
    S,
    T,
    U,
    V,
    W,
    X,
    Y,
    Z,
}

/// State of modifiers (alt, ctrl, shift and command).
#[derive(Clone, Copy, Debug, Default, Eq, PartialEq, Structural)]
pub struct Modifiers {
    /// Either of the alt keys are down (option on Mac).
    pub alt: bool,
    /// Either of the control keys are down.
    pub ctrl: bool,
    /// Either of the shift keys are down.
    pub shift: bool,
    /// On Windows and Linux, the same as `ctrl`; on Mac, whether one of the command
    /// keys is down.
    pub command: bool,
}

impl Modifiers {
    /// The modifiers reported by a user interface toolkit that tells the platform
    /// command key apart from the Mac command key: either counts as command.
    pub fn from_toolkit(alt: bool, ctrl: bool, shift: bool, command: bool, mac_cmd: bool) -> (r: Modifiers)
        ensures
            r == (Modifiers { alt, ctrl, shift, command: command || mac_cmd }),
    {
        Modifiers { alt, ctrl, shift, command: command || mac_cmd }
    }

    /// Whether a user interface toolkit should see the Mac command key as down: only
    /// on Mac, and only when command is down.
    pub fn mac_cmd(&self, is_macos: bool) -> (r: bool)
        ensures
            r == (is_macos && self.command),
    {
        is_macos && self.command
    }
}


/// Two 64 bit floating point coordinates (horizontal, vertical), held by their bit
/// patterns (`f64::to_bits`).
#[derive(Clone, Copy, Debug, PartialEq, Eq, Structural)]
pub struct Coordinates {
    pub x: u64,
    pub y: u64,
}

/// An input event (from mouse, keyboard or similar).
///
/// Screen positions and movements are pairs of 64 bit floating point numbers,
/// held here as [Coordinates]: the logic of this crate passes them on and never
/// computes with them. A position is given in logical
/// pixels, the first value on the horizontal axis with zero at the left border of
/// the window, the second on the vertical axis with zero at the top edge.
#[derive(Clone, Debug)]
pub enum Event {
    /// Fired when a button is pressed or the screen is touched.
    MousePress { button: MouseButton, position: Coordinates, modifiers: Modifiers, handled: bool },
    /// Fired when a button is released or the screen is stopped being touched.
    MouseRelease { button: MouseButton, position: Coordinates, modifiers: Modifiers, handled: bool },
    /// Fired continuously when the mouse or a finger on the screen is moved; `delta`
    /// is the movement since the last such event.
    MouseMotion {
        button: Option<MouseButton>,
        delta: Coordinates,
        position: Coordinates,
        modifiers: Modifiers,
        handled: bool,
    },
    /// Fired continuously when the mouse wheel or equivalent is applied; `delta` is
    /// the scrolling since the last such event.
    MouseWheel { delta: Coordinates, position: Coordinates, modifiers: Modifiers, handled: bool },
    /// Fired when the mouse enters the window.
    MouseEnter,
    /// Fired when the mouse leaves the window.
    MouseLeave,
    /// Fired when a key is pressed.
    KeyPress { kind: Key, modifiers: Modifiers, handled: bool },
    /// Fired when a key is released.
    KeyRelease { kind: Key, modifiers: Modifiers, handled: bool },
    /// Fired when the modifiers change.
    ModifiersChange { modifiers: Modifiers },
    /// Fired when some text has been written.
    Text(String),
}

/// A pointer button as a user interface toolkit names it.
#[derive(Clone, Copy, Debug, PartialEq, Eq, Structural)]
pub enum PointerButton {
    Primary,
    Secondary,
    Middle,
}

/// An event handed on to a user interface toolkit. Positions and movements are
/// [Coordinates], as in [Event].
#[derive(Clone, Debug)]
pub enum UiEvent {
    /// A key went down (`pressed`) or up.
    Key { key: Key, pressed: bool, modifiers: Modifiers },
    /// A pointer button went down (`pressed`) or up at a position.
    PointerButton { position: Coordinates, button: PointerButton, pressed: bool, modifiers: Modifiers },
    /// The pointer moved to a position.
    PointerMoved(Coordinates),
    /// Text was written.
    Text(String),
    /// The pointer left the window.
    PointerGone,
    /// The view was scrolled by an amount.
    Scroll(Coordinates),
}

/// The input of one frame as a user interface toolkit reads it: the state of the
/// modifier keys and the events that were not handled yet.
#[derive(Clone, Debug)]
pub struct UiInput {
    pub modifiers: Modifiers,
    pub events: Vec<UiEvent>,
}

/// No modifier key down.
pub open spec fn no_modifiers() -> Modifiers {
    Modifiers { alt: false, ctrl: false, shift: false, command: false }
}

/// The toolkit's name of a mouse button.
pub open spec fn spec_pointer_button(b: MouseButton) -> PointerButton {
    match b {
        MouseButton::Left => PointerButton::Primary,
        MouseButton::Right => PointerButton::Secondary,
        MouseButton::Middle => PointerButton::Middle,
    }
}

/// The event a toolkit is handed for an input event, if any: key and pointer
/// events that were not handled yet, text, and the pointer leaving the window.
pub open spec fn spec_ui_event(e: Event) -> Option<UiEvent> {
    match e {
        Event::KeyPress { kind, modifiers, handled } => if !handled {
            Some(UiEvent::Key { key: kind, pressed: true, modifiers })
        } else {
            None
        },
        Event::KeyRelease { kind, modifiers, handled } => if !handled {
            Some(UiEvent::Key { key: kind, pressed: false, modifiers })
        } else {
            None
        },
        Event::MousePress { button, position, modifiers, handled } => if !handled {
            Some(
                UiEvent::PointerButton {
                    position,
                    button: spec_pointer_button(button),
                    pressed: true,
                    modifiers,
                },
            )
        } else {
            None
        },
        Event::MouseRelease { button, position, modifiers, handled } => if !handled {
            Some(
                UiEvent::PointerButton {
                    position,
                    button: spec_pointer_button(button),
                    pressed: false,
                    modifiers,
                },
            )
        } else {
            None
        },
        Event::MouseMotion { position, handled, .. } => if !handled {
            Some(UiEvent::PointerMoved(position))
        } else {
            None
        },
        Event::Text(text) => Some(UiEvent::Text(text)),
        Event::MouseLeave => Some(UiEvent::PointerGone),
        Event::MouseWheel { delta, handled, .. } => if !handled {
            Some(UiEvent::Scroll(delta))
        } else {
            None
        },
        Event::MouseEnter => None,
        Event::ModifiersChange { .. } => None,
    }
}

/// A press and a release are told apart: an unhandled press of a mouse button or
/// key is handed on as the button or key going down, an unhandled release as it
/// going up, each with the button or key, position and modifiers of the event.
pub proof fn lemma_press_and_release(
    button: MouseButton,
    position: Coordinates,
    modifiers: Modifiers,
    key: Key,
)
    ensures
        spec_ui_event(Event::MousePress { button, position, modifiers, handled: false }) matches Some(
            UiEvent::PointerButton { position: p, button: b, pressed, modifiers: m },
        ) && pressed && p == position && b == spec_pointer_button(button) && m == modifiers,
        spec_ui_event(Event::MouseRelease { button, position, modifiers, handled: false }) matches Some(
            UiEvent::PointerButton { position: p, button: b, pressed, modifiers: m },
        ) && !pressed && p == position && b == spec_pointer_button(button) && m == modifiers,
        spec_ui_event(Event::KeyPress { kind: key, modifiers, handled: false }) matches Some(
            UiEvent::Key { key: k, pressed, modifiers: m },
        ) && pressed && k == key && m == modifiers,
        spec_ui_event(Event::KeyRelease { kind: key, modifiers, handled: false }) matches Some(
            UiEvent::Key { key: k, pressed, modifiers: m },
        ) && !pressed && k == key && m == modifiers,
{
}

/// The events a toolkit is handed for a sequence of input events, in order.
pub open spec fn spec_ui_events(s: Seq<Event>) -> Seq<UiEvent>
    decreases s.len(),
{
    if s.len() == 0 {
        Seq::empty()
    } else {
        let rest = spec_ui_events(s.drop_last());
        match spec_ui_event(s.last()) {
            Some(u) => rest.push(u),
            None => rest,
        }
    }
}

/// The modifiers after a sequence of input events: those of the last modifier
/// change, or none down when there was no change.
pub open spec fn spec_ui_modifiers(s: Seq<Event>) -> Modifiers
    decreases s.len(),
{
    if s.len() == 0 {
        no_modifiers()
    } else {
        match s.last() {
            Event::ModifiersChange { modifiers } => modifiers,
            _ => spec_ui_modifiers(s.drop_last()),
        }
    }
}

/// The toolkit's name of a mouse button.
pub fn pointer_button(button: MouseButton) -> (r: PointerButton)
    ensures
        r == spec_pointer_button(button),
{
    match button {
        MouseButton::Left => PointerButton::Primary,
        MouseButton::Right => PointerButton::Secondary,
        MouseButton::Middle => PointerButton::Middle,
    }
}

/// The event a toolkit is handed for one input event, if any.
pub fn ui_event(event: Event) -> (r: Option<UiEvent>)
    ensures
        r == spec_ui_event(event),
{
    match event {
        Event::KeyPress { kind, modifiers, handled } => if !handled {
            Some(UiEvent::Key { key: kind, pressed: true, modifiers })
        } else {
            None
        },
        Event::KeyRelease { kind, modifiers, handled } => if !handled {
            Some(UiEvent::Key { key: kind, pressed: false, modifiers })
        } else {
            None
        },
        Event::MousePress { button, position, modifiers, handled } => if !handled {
            Some(
                UiEvent::PointerButton {
                    position,
                    button: pointer_button(button),
                    pressed: true,
                    modifiers,
                },
            )
        } else {
            None
        },
        Event::MouseRelease { button, position, modifiers, handled } => if !handled {
            Some(
                UiEvent::PointerButton {
                    position,
                    button: pointer_button(button),
                    pressed: false,
                    modifiers,
                },
            )
        } else {
            None
        },
        Event::MouseMotion { position, handled, .. } => if !handled {
            Some(UiEvent::PointerMoved(position))
        } else {
            None
        },
        Event::Text(text) => Some(UiEvent::Text(text)),
        Event::MouseLeave => Some(UiEvent::PointerGone),
        Event::MouseWheel { delta, handled, .. } => if !handled {
            Some(UiEvent::Scroll(delta))
        } else {
            None
        },
        Event::MouseEnter => None,
        Event::ModifiersChange { .. } => None,
    }
}

/// The input a user interface toolkit reads from the events of one frame: every
/// event that was not handled yet (key and pointer events), text and the pointer
/// leaving, in order, and the modifiers of the last modifier change.
pub fn ui_input(events: Vec<Event>) -> (r: UiInput)
    ensures
        r.events@ == spec_ui_events(events@),
        r.modifiers == spec_ui_modifiers(events@),
{
    let ghost all = events@;
    let mut modifiers = Modifiers { alt: false, ctrl: false, shift: false, command: false };
    let mut ui_events: Vec<UiEvent> = Vec::new();
    for event in it: events.into_iter()
        invariant
            it.seq() == all,
            ui_events@ == spec_ui_events(all.take(it.index() as int)),
            modifiers == spec_ui_modifiers(all.take(it.index() as int)),
    {
        let ghost i = it.index() as int;
        proof {
            assert(all.take(i + 1).drop_last() =~= all.take(i));
            assert(all.take(i + 1).last() == event);
        }
        match &event {
            Event::ModifiersChange { modifiers: m } => {
                modifiers = *m;
            },
            _ => {},
        }
        match ui_event(event) {
            Some(u) => {
                ui_events.push(u);
            },
            None => {},
        }
    }
    proof {
        assert(all.take(all.len() as int) =~= all);
    }
    UiInput { modifiers, events: ui_events }
}

/// The inputs a camera control maps to camera actions: dragging with each mouse
/// button along either axis, and scrolling along either axis.
#[derive(Clone, Copy, Debug, PartialEq, Eq, Structural)]
pub enum ControlInput {
    LeftDragHorizontal,
    LeftDragVertical,
    MiddleDragHorizontal,
    MiddleDragVertical,
    RightDragHorizontal,
    RightDragVertical,
    ScrollHorizontal,
    ScrollVertical,
}

/// The horizontal and vertical inputs that an event drives, with the movement that
/// goes with them: a mouse motion with a button down, or a scroll, that no one
/// handled yet.
pub open spec fn spec_event_inputs(e: Event) -> Option<(ControlInput, ControlInput, Coordinates)> {
    match e {
        Event::MouseMotion { button, delta, handled, .. } => if handled {
            None
        } else {
            match button {
                Some(MouseButton::Left) => Some(
                    (ControlInput::LeftDragHorizontal, ControlInput::LeftDragVertical, delta),
                ),
                Some(MouseButton::Middle) => Some(
                    (ControlInput::MiddleDragHorizontal, ControlInput::MiddleDragVertical, delta),
                ),
                Some(MouseButton::Right) => Some(
                    (ControlInput::RightDragHorizontal, ControlInput::RightDragVertical, delta),
                ),
                None => None,
            }
        },
        Event::MouseWheel { delta, handled, .. } => if handled {
            None
        } else {
            Some((ControlInput::ScrollHorizontal, ControlInput::ScrollVertical, delta))
        },
        _ => None,
    }
}

/// The mouse button of a drag input, or `None` for a scroll input.
pub open spec fn input_button(c: ControlInput) -> Option<MouseButton> {
    match c {
        ControlInput::LeftDragHorizontal | ControlInput::LeftDragVertical => Some(MouseButton::Left),
        ControlInput::MiddleDragHorizontal | ControlInput::MiddleDragVertical => Some(
            MouseButton::Middle,
        ),
        ControlInput::RightDragHorizontal | ControlInput::RightDragVertical => Some(
            MouseButton::Right,
        ),
        ControlInput::ScrollHorizontal | ControlInput::ScrollVertical => None,
    }
}

/// Whether an input is along the horizontal axis.
pub open spec fn is_horizontal(c: ControlInput) -> bool {
    match c {
        ControlInput::LeftDragHorizontal | ControlInput::MiddleDragHorizontal
        | ControlInput::RightDragHorizontal | ControlInput::ScrollHorizontal => true,
        _ => false,
    }
}

/// An unhandled drag with a button down drives that button's horizontal input
/// first and its vertical input second, with the drag's movement; an unhandled
/// scroll drives the horizontal then the vertical scroll input with the scroll's
/// movement; a handled event, or a motion without a button, drives nothing.
pub proof fn lemma_event_inputs_axes(e: Event)
    ensures
        match e {
            Event::MouseMotion { button, delta, handled, .. } => if !handled && button is Some {
                spec_event_inputs(e) matches Some((h, v, d)) && is_horizontal(h) && !is_horizontal(v)
                    && input_button(h) == button && input_button(v) == button && d == delta
            } else {
                spec_event_inputs(e) is None
            },
            Event::MouseWheel { delta, handled, .. } => if !handled {
                spec_event_inputs(e) matches Some((h, v, d)) && is_horizontal(h) && !is_horizontal(v)
                    && input_button(h) is None && input_button(v) is None && d == delta
            } else {
                spec_event_inputs(e) is None
            },
            _ => spec_event_inputs(e) is None,
        },
{
}

/// The inputs of a camera control that an event drives, and the movement along
/// each axis (see [spec_event_inputs]).
pub fn event_inputs(event: &Event) -> (r: Option<(ControlInput, ControlInput, Coordinates)>)
    ensures
        r == spec_event_inputs(*event),
{
    match event {
        Event::MouseMotion { button, delta, handled, .. } => {
            if *handled {
                None
            } else {
                match button {
                    Some(MouseButton::Left) => Some(
                        (ControlInput::LeftDragHorizontal, ControlInput::LeftDragVertical, *delta),
                    ),
                    Some(MouseButton::Middle) => Some(
                        (
                            ControlInput::MiddleDragHorizontal,
                            ControlInput::MiddleDragVertical,
                            *delta,
                        ),
                    ),
                    Some(MouseButton::Right) => Some(
                        (ControlInput::RightDragHorizontal, ControlInput::RightDragVertical, *delta),
                    ),
                    None => None,
                }
            }
        },
        Event::MouseWheel { delta, handled, .. } => {
            if *handled {
                None
            } else {
                Some((ControlInput::ScrollHorizontal, ControlInput::ScrollVertical, *delta))
            }
        },
        _ => None,
    }
}

} // verus!
