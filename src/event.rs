use vstd::prelude::*;

verus! {

/// Modifier keys held down, as tracked per window.
#[derive(Clone, Copy, Debug, PartialEq, Eq, Structural)]
pub struct Modifiers {
    pub shift: bool,
    pub control: bool,
    pub alt: bool,
    pub logo: bool,
}

impl Modifiers {
    /// No modifier held.
    pub fn empty() -> (r: Modifiers)
        ensures
            r == no_modifiers(),
    {
        Modifiers { shift: false, control: false, alt: false, logo: false }
    }
}

/// The modifier state with no key held.
pub open spec fn no_modifiers() -> Modifiers {
    Modifiers { shift: false, control: false, alt: false, logo: false }
}

/// Whether a key or button went down or came up.
#[derive(Clone, Copy, Debug, PartialEq, Eq, Structural)]
pub enum ElementState {
    Pressed,
    Released,
}

/// A pointer button as the host reports it. `Unsupported` stands for the
/// host's buttons that the toolkit has no name for.
#[derive(Clone, Copy, Debug, PartialEq, Eq, Structural)]
pub enum HostMouseButton {
    Left,
    Right,
    Middle,
    Other(u16),
    Unsupported,
}

/// A pointer button as the toolkit knows it.
#[derive(Clone, Copy, Debug, PartialEq, Eq, Structural)]
pub enum MouseButton {
    Left,
    Right,
    Middle,
    Other(u16),
}

/// A host window event, already normalised into the kinds this engine knows.
///
/// `P` is a logical pointer position, `K` a key description and `S` a scale
/// factor; the engine moves them around without reading them.
#[derive(Clone, Debug, PartialEq)]
pub enum HostEvent<P, K, S> {
    CursorMoved(P),
    MouseInput { button: HostMouseButton, state: ElementState },
    MouseWheel,
    ModifiersChanged(Modifiers),
    Resized { width: u32, height: u32 },
    ScaleFactorChanged(S),
    KeyboardInput { key: K, state: ElementState },
    Focused(bool),
    CloseRequested,
    Destroyed,
    Other,
}

/// An event in the toolkit's vocabulary, queued on a window until the next
/// redraw. `Resized` carries the physical size; the toolkit's logical size is
/// that divided by the window's scale factor.
#[derive(Clone, Debug, PartialEq)]
pub enum ToolkitEvent<P, K> {
    CursorMoved(P),
    ButtonPressed(MouseButton),
    ButtonReleased(MouseButton),
    ModifiersChanged(Modifiers),
    KeyPressed { key: K, modifiers: Modifiers },
    KeyReleased { key: K, modifiers: Modifiers },
    Resized { width: u32, height: u32 },
}

/// The host event kinds the engine looks at; all others are ignored.
pub open spec fn relevant<P, K, S>(e: HostEvent<P, K, S>) -> bool {
    match e {
        HostEvent::CursorMoved(_) | HostEvent::MouseInput { .. } | HostEvent::MouseWheel
        | HostEvent::ModifiersChanged(_) | HostEvent::Resized { .. }
        | HostEvent::ScaleFactorChanged(_) | HostEvent::KeyboardInput { .. }
        | HostEvent::Focused(_) => true,
        _ => false,
    }
}

/// The toolkit button for a host button, if the toolkit has one.
pub open spec fn button_of(b: HostMouseButton) -> Option<MouseButton> {
    match b {
        HostMouseButton::Left => Some(MouseButton::Left),
        HostMouseButton::Right => Some(MouseButton::Right),
        HostMouseButton::Middle => Some(MouseButton::Middle),
        HostMouseButton::Other(v) => Some(MouseButton::Other(v)),
        HostMouseButton::Unsupported => None,
    }
}

/// The toolkit event a host event becomes, keyboard events carrying the
/// modifier state `m`. Wheel, focus and scale-factor events are relevant to
/// the window but have no toolkit counterpart here.
pub open spec fn translate<P, K, S>(e: HostEvent<P, K, S>, m: Modifiers) -> Option<ToolkitEvent<P, K>> {
    match e {
        HostEvent::CursorMoved(p) => Some(ToolkitEvent::CursorMoved(p)),
        HostEvent::MouseInput { button, state } => match button_of(button) {
            Some(b) => match state {
                ElementState::Pressed => Some(ToolkitEvent::ButtonPressed(b)),
                ElementState::Released => Some(ToolkitEvent::ButtonReleased(b)),
            },
            None => None,
        },
        HostEvent::ModifiersChanged(n) => Some(ToolkitEvent::ModifiersChanged(n)),
        HostEvent::Resized { width, height } => Some(ToolkitEvent::Resized { width, height }),
        HostEvent::KeyboardInput { key, state } => match state {
            ElementState::Pressed => Some(ToolkitEvent::KeyPressed { key, modifiers: m }),
            ElementState::Released => Some(ToolkitEvent::KeyReleased { key, modifiers: m }),
        },
        _ => None,
    }
}

/// Whether the host event is one that becomes a toolkit event.
pub open spec fn translatable<P, K, S>(e: HostEvent<P, K, S>) -> bool {
    translate(e, no_modifiers()) is Some
}

/// Tells the host event kinds the engine handles from those it ignores.
pub fn is_relevant_event<P, K, S>(event: &HostEvent<P, K, S>) -> (r: bool)
    ensures
        r == relevant(*event),
{
    match event {
        HostEvent::CursorMoved(_) | HostEvent::MouseInput { .. } | HostEvent::MouseWheel
        | HostEvent::ModifiersChanged(_) | HostEvent::Resized { .. }
        | HostEvent::ScaleFactorChanged(_) | HostEvent::KeyboardInput { .. }
        | HostEvent::Focused(_) => true,
        _ => false,
    }
}

/// Maps a host pointer button to the toolkit's; buttons the toolkit cannot
/// name give `None`.
pub fn convert_mouse_button(button: HostMouseButton) -> (r: Option<MouseButton>)
    ensures
        r == button_of(button),
{
    match button {
        HostMouseButton::Left => Some(MouseButton::Left),
        HostMouseButton::Right => Some(MouseButton::Right),
        HostMouseButton::Middle => Some(MouseButton::Middle),
        HostMouseButton::Other(v) => Some(MouseButton::Other(v)),
        HostMouseButton::Unsupported => None,
    }
}

/// Translates a host event into a toolkit event; keyboard events carry
/// `modifiers`. Events with no toolkit counterpart give `None`.
pub fn convert_window_event<P, K, S>(event: HostEvent<P, K, S>, modifiers: Modifiers) -> (r: Option<ToolkitEvent<P, K>>)
    ensures
        r == translate(event, modifiers),
{
    match event {
        HostEvent::CursorMoved(p) => Some(ToolkitEvent::CursorMoved(p)),
        HostEvent::MouseInput { button, state } => match convert_mouse_button(button) {
            Some(b) => match state {
                ElementState::Pressed => Some(ToolkitEvent::ButtonPressed(b)),
                ElementState::Released => Some(ToolkitEvent::ButtonReleased(b)),
            },
            None => None,
        },
        HostEvent::ModifiersChanged(n) => Some(ToolkitEvent::ModifiersChanged(n)),
        HostEvent::Resized { width, height } => Some(ToolkitEvent::Resized { width, height }),
        HostEvent::KeyboardInput { key, state } => match state {
            ElementState::Pressed => Some(ToolkitEvent::KeyPressed { key, modifiers }),
            ElementState::Released => Some(ToolkitEvent::KeyReleased { key, modifiers }),
        },
        _ => None,
    }
}

} // verus!
