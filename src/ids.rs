use vstd::prelude::*;

verus! {

/// Identifier of a window: the native window handle.
#[derive(Debug, Clone, Copy, PartialEq, Eq, Structural, PartialOrd, Ord, Hash)]
pub struct WindowId(pub u64);

/// Identifier of an input device: the native XInput2 device id.
#[derive(Debug, Clone, Copy, PartialEq, Eq, Structural, PartialOrd, Ord, Hash)]
pub struct DeviceId(pub i32);

/// The condition reported when an operation targets a loop that is gone.
#[derive(Debug, Clone, Copy, PartialEq, Eq, Structural)]
pub struct EventsLoopClosed;

/// Builds the identifier of a native window handle.
pub fn mkwid(w: u64) -> (r: WindowId)
    ensures
        r.0 == w,
{
    WindowId(w)
}

/// Builds the identifier of a native device id.
pub fn mkdid(d: i32) -> (r: DeviceId)
    ensures
        r.0 == d,
{
    DeviceId(d)
}

} // verus!
