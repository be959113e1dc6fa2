use vstd::prelude::*;

use crate::event::TouchPhase;

verus! {

/// XInput2 device use: a slave pointer.
pub const XI_SLAVE_POINTER: i32 = 3;
/// XInput2 device use: a slave keyboard.
pub const XI_SLAVE_KEYBOARD: i32 = 4;
/// XInput2 device use: a floating slave.
pub const XI_FLOATING_SLAVE: i32 = 5;

/// Hierarchy change flag: a master device was added.
pub const XI_MASTER_ADDED: i32 = 1;
/// Hierarchy change flag: a master device was removed.
pub const XI_MASTER_REMOVED: i32 = 2;
/// Hierarchy change flag: a slave device was added.
pub const XI_SLAVE_ADDED: i32 = 4;
/// Hierarchy change flag: a slave device was removed.
pub const XI_SLAVE_REMOVED: i32 = 8;

/// Core key state bit: shift.
pub const SHIFT_MASK: u32 = 1;
/// Core key state bit: control.
pub const CONTROL_MASK: u32 = 4;
/// Core key state bit: first modifier (alt).
pub const MOD1_MASK: u32 = 8;
/// Core key state bit: fourth modifier (logo).
pub const MOD4_MASK: u32 = 64;

/// Native keycodes start at this value; scan codes count from zero.
pub const KEYCODE_OFFSET: u32 = 8;

/// Orientation of a scroll axis.
#[derive(Debug, Clone, Copy, PartialEq, Eq, Structural)]
pub enum ScrollOrientation {
    Vertical,
    Horizontal,
}

/// One class descriptor of an input device. Valuator values and scroll
/// increments are fixed-point numbers with 32 fractional bits.
#[derive(Debug, Clone, Copy, PartialEq, Eq, Structural)]
pub enum DeviceClass {
    Scroll { number: i32, orientation: ScrollOrientation, increment: i64 },
    Valuator { number: i32, value: i64 },
    Other,
}

/// A device descriptor as the device query reports it.
#[derive(Debug, Clone)]
pub struct DeviceInfo {
    pub deviceid: i32,
    pub name: String,
    /// The device use (master, slave or floating).
    pub device_use: i32,
    pub classes: Vec<DeviceClass>,
}

/// One entry of a device hierarchy notification, with the descriptors that
/// the device query reports for that device.
#[derive(Debug, Clone)]
pub struct HierarchyChange {
    pub deviceid: i32,
    pub flags: i32,
    pub infos: Vec<DeviceInfo>,
}

/// The valuators carried by a device event: a bit mask of the active axes and
/// one value for each set bit, in increasing axis order.
#[derive(Debug, Clone)]
pub struct Valuators {
    pub mask: Vec<u8>,
    pub values: Vec<i64>,
}

/// An XInput2 event. Positions are fixed-point pixels with 16 fractional bits.
#[derive(Debug, Clone)]
pub enum XiEvent {
    Button { pressed: bool, window: u64, device: i32, detail: i32, emulated: bool },
    Motion { window: u64, device: i32, source: i32, x: i64, y: i64, valuators: Valuators },
    /// `infos` holds the descriptors of all devices, queried when the event arrived.
    Enter { window: u64, device: i32, source: i32, infos: Vec<DeviceInfo> },
    Leave { window: u64, device: i32 },
    FocusIn { window: u64 },
    FocusOut { window: u64 },
    Touch { phase: TouchPhase, window: u64, device: i32, detail: i32, x: i64, y: i64 },
    RawButton { pressed: bool, device: i32, detail: i32, emulated: bool },
    RawMotion { device: i32, valuators: Valuators },
    /// `symbol` is the symbolic key of the keysym in layout group 0.
    RawKey { pressed: bool, device: i32, detail: i32, symbol: Option<u32> },
    Hierarchy { changes: Vec<HierarchyChange> },
    Other,
}

/// A native event as the transport delivers it.
#[derive(Debug, Clone)]
pub enum NativeEvent {
    MappingNotify,
    /// `data0` is the first long of the message data.
    ClientMessage { window: u64, data0: u64 },
    Configure { window: u64, x: i32, y: i32, width: i32, height: i32 },
    Expose { window: u64 },
    /// `symbol` is the symbolic key of the event's keysym; `text` is what the
    /// window's input context composed for a press, as UTF-8 bytes.
    Key { window: u64, pressed: bool, keycode: u32, state: u32, symbol: Option<u32>, text: Vec<u8> },
    /// A generic event whose payload could be read, with its extension opcode.
    Generic { extension: i32, event: XiEvent },
    Other,
}

} // verus!
