use vstd::prelude::*;

use crate::ids::{DeviceId, WindowId};

verus! {

/// Whether a key or button went down or up.
#[derive(Debug, Clone, Copy, PartialEq, Eq, Structural)]
pub enum ElementState {
    Pressed,
    Released,
}

/// A mouse button.
#[derive(Debug, Clone, Copy, PartialEq, Eq, Structural)]
pub enum MouseButton {
    Left,
    Right,
    Middle,
    Other(u8),
}

/// The modifier keys held during a key event.
#[derive(Debug, Clone, Copy, PartialEq, Eq, Structural)]
pub struct ModifiersState {
    pub shift: bool,
    pub ctrl: bool,
    pub alt: bool,
    pub logo: bool,
}

/// A key going down or up.
#[derive(Debug, Clone, Copy, PartialEq, Eq, Structural)]
pub struct KeyboardInput {
    /// Hardware scan code, counted from zero.
    pub scancode: u32,
    pub state: ElementState,
    /// The symbolic key, where the keysym maps to one.
    pub virtual_keycode: Option<u32>,
    pub modifiers: ModifiersState,
}

/// Phase of a touch contact or of a wheel motion.
#[derive(Debug, Clone, Copy, PartialEq, Eq, Structural)]
pub enum TouchPhase {
    Started,
    Moved,
    Ended,
    Cancelled,
}

/// A scroll amount in lines, as exact fractions: `x / unit` lines to the
/// right and `y / unit` lines up.
#[derive(Debug, Clone, Copy, PartialEq, Eq, Structural)]
pub struct LineDelta {
    pub x: i128,
    pub y: i128,
    pub unit: i64,
}

/// A position in fixed-point pixels with 16 fractional bits.
#[derive(Debug, Clone, Copy, PartialEq, Eq, Structural)]
pub struct Point {
    pub x: i64,
    pub y: i64,
}

/// A touch contact. Positions are fixed-point pixels with 16 fractional bits.
#[derive(Debug, Clone, Copy, PartialEq, Eq, Structural)]
pub struct Touch {
    pub device_id: DeviceId,
    pub phase: TouchPhase,
    pub location: Point,
    pub id: u64,
}

/// An event that concerns one window.
#[derive(Debug, Clone, Copy, PartialEq, Eq, Structural)]
pub enum WindowEvent {
    Closed,
    Resized(u32, u32),
    Moved(i32, i32),
    Refresh,
    KeyboardInput { device_id: DeviceId, input: KeyboardInput },
    ReceivedCharacter(char),
    /// Pointer position, fixed-point pixels with 16 fractional bits.
    MouseMoved { device_id: DeviceId, position: Point },
    MouseEntered { device_id: DeviceId },
    MouseLeft { device_id: DeviceId },
    MouseInput { device_id: DeviceId, state: ElementState, button: MouseButton },
    MouseWheel { device_id: DeviceId, delta: LineDelta, phase: TouchPhase },
    /// Raw valuator value, fixed-point with 32 fractional bits.
    AxisMotion { device_id: DeviceId, axis: u32, value: i64 },
    Touch(Touch),
    Focused(bool),
}

/// An event that concerns one input device rather than a window.
#[derive(Debug, Clone, Copy, PartialEq, Eq, Structural)]
pub enum DeviceEvent {
    Added,
    Removed,
    /// Raw valuator value, fixed-point with 32 fractional bits.
    Motion { axis: u32, value: i64 },
    Button { button: u32, state: ElementState },
    Key(KeyboardInput),
}

/// A normalized event.
#[derive(Debug, Clone, Copy, PartialEq, Eq, Structural)]
pub enum Event {
    WindowEvent { window_id: WindowId, event: WindowEvent },
    DeviceEvent { device_id: DeviceId, event: DeviceEvent },
    Awakened,
}

/// What a handler of events asks of a blocking loop after each event.
#[derive(Debug, Clone, Copy, PartialEq, Eq, Structural)]
pub enum ControlFlow {
    Continue,
    Break,
}

} // verus!
