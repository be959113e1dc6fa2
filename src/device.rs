use vstd::prelude::*;

use crate::native::{
    DeviceClass, DeviceInfo, ScrollOrientation, XI_FLOATING_SLAVE, XI_SLAVE_KEYBOARD,
    XI_SLAVE_POINTER,
};

verus! {

/// A calibrated scroll axis: native units per scroll step, orientation, and
/// the last observed raw position (fixed-point, 32 fractional bits).
#[derive(Debug, Clone, Copy, PartialEq, Eq, Structural)]
pub struct ScrollAxis {
    pub increment: i64,
    pub orientation: ScrollOrientation,
    pub position: i64,
}

/// What the registry keeps of one input device.
#[derive(Debug)]
pub struct Device {
    pub name: String,
    /// Scroll axes keyed by valuator number, in the order the device lists them.
    pub scroll_axes: Vec<(i32, ScrollAxis)>,
}

/// A device is physical when it is a slave or floating device.
pub open spec fn is_physical_use(device_use: i32) -> bool {
    device_use == XI_SLAVE_KEYBOARD || device_use == XI_SLAVE_POINTER || device_use
        == XI_FLOATING_SLAVE
}

/// The scroll axes declared by a list of classes, positions at zero.
pub open spec fn scroll_axes_of(classes: Seq<DeviceClass>) -> Seq<(i32, ScrollAxis)>
    decreases classes.len(),
{
    if classes.len() == 0 {
        Seq::empty()
    } else {
        let rest = scroll_axes_of(classes.drop_last());
        match classes.last() {
            DeviceClass::Scroll { number, orientation, increment } => rest.push(
                (number, ScrollAxis { increment, orientation, position: 0 }),
            ),
            _ => rest,
        }
    }
}

/// `j` is the first entry of `axes` numbered `n`.
pub open spec fn is_first_axis(axes: Seq<(i32, ScrollAxis)>, j: int, n: i32) -> bool {
    &&& 0 <= j < axes.len()
    &&& axes[j].0 == n
    &&& forall|k: int| 0 <= k < j ==> axes[k].0 != n
}

/// `axes` has an entry numbered `n`.
pub open spec fn has_axis(axes: Seq<(i32, ScrollAxis)>, n: i32) -> bool {
    exists|j: int| 0 <= j < axes.len() && axes[j].0 == n
}

/// `axes` with the position of the first entry numbered `n` set to `v`.
pub open spec fn with_position(axes: Seq<(i32, ScrollAxis)>, n: i32, v: i64) -> Seq<
    (i32, ScrollAxis),
> {
    Seq::new(
        axes.len(),
        |j: int|
            if is_first_axis(axes, j, n) {
                (axes[j].0, ScrollAxis { position: v, ..axes[j].1 })
            } else {
                axes[j]
            },
    )
}

/// The positions of `axes` re-read from the valuator classes, in order.
pub open spec fn reset_positions(axes: Seq<(i32, ScrollAxis)>, classes: Seq<DeviceClass>) -> Seq<
    (i32, ScrollAxis),
>
    decreases classes.len(),
{
    if classes.len() == 0 {
        axes
    } else {
        let rest = reset_positions(axes, classes.drop_last());
        match classes.last() {
            DeviceClass::Valuator { number, value } => with_position(rest, number, value),
            _ => rest,
        }
    }
}

/// The scroll axes after a resync with a descriptor.
pub open spec fn resynced(axes: Seq<(i32, ScrollAxis)>, info: DeviceInfo) -> Seq<
    (i32, ScrollAxis),
> {
    if is_physical_use(info.device_use) {
        reset_positions(axes, info.classes@)
    } else {
        axes
    }
}

/// The scroll axes of a newly discovered device.
pub open spec fn initial_axes(info: DeviceInfo) -> Seq<(i32, ScrollAxis)> {
    if is_physical_use(info.device_use) {
        reset_positions(scroll_axes_of(info.classes@), info.classes@)
    } else {
        Seq::empty()
    }
}

pub proof fn lemma_first_axis_unique(axes: Seq<(i32, ScrollAxis)>, j: int, k: int, n: i32)
    requires
        is_first_axis(axes, j, n),
        is_first_axis(axes, k, n),
    ensures
        j == k,
{
    if j < k {
        assert(axes[j].0 != n);
    } else if k < j {
        assert(axes[k].0 != n);
    }
}

/// Finds the first entry of `axes` numbered `n`.
pub fn find_axis(axes: &Vec<(i32, ScrollAxis)>, n: i32) -> (r: Option<usize>)
    ensures
        match r {
            Some(j) => is_first_axis(axes@, j as int, n),
            None => !has_axis(axes@, n),
        },
{
    let mut i: usize = 0;
    while i < axes.len()
        invariant
            i <= axes@.len(),
            forall|k: int| 0 <= k < i ==> axes@[k].0 != n,
        decreases axes@.len() - i,
    {
        if axes[i].0 == n {
            return Some(i);
        }
        i = i + 1;
    }
    None
}

/// Sets the position of the first entry of `axes` numbered `n`, if any.
pub fn set_position(axes: &mut Vec<(i32, ScrollAxis)>, n: i32, v: i64)
    ensures
        final(axes)@ == with_position(old(axes)@, n, v),
{
    match find_axis(axes, n) {
        Some(j) => {
            let (num, a) = axes[j];
            let updated = ScrollAxis { increment: a.increment, orientation: a.orientation, position: v };
            axes.set(j, (num, updated));
            proof {
                assert forall|k: int| 0 <= k < axes@.len() implies axes@[k] == with_position(
                    old(axes)@,
                    n,
                    v,
                )[k] by {
                    if is_first_axis(old(axes)@, k, n) {
                        lemma_first_axis_unique(old(axes)@, k, j as int, n);
                    }
                }
                assert(axes@ =~= with_position(old(axes)@, n, v));
            }
        },
        None => {
            assert(axes@ =~= with_position(old(axes)@, n, v));
        },
    }
}

impl Device {
    /// A device is physical when it is a slave or floating device.
    pub fn physical_device(info: &DeviceInfo) -> (r: bool)
        ensures
            r == is_physical_use(info.device_use),
    {
        info.device_use == XI_SLAVE_KEYBOARD || info.device_use == XI_SLAVE_POINTER
            || info.device_use == XI_FLOATING_SLAVE
    }

    /// Builds the registry entry of a discovered device: its name, and for a
    /// physical device its scroll axes seeded from the current valuator values.
    pub fn new(info: &DeviceInfo) -> (r: Device)
        ensures
            r.name@ == info.name@,
            r.scroll_axes@ == initial_axes(*info),
    {
        let mut scroll_axes: Vec<(i32, ScrollAxis)> = Vec::new();
        if Device::physical_device(info) {
            let mut i: usize = 0;
            while i < info.classes.len()
                invariant
                    i <= info.classes@.len(),
                    scroll_axes@ == scroll_axes_of(info.classes@.take(i as int)),
                decreases info.classes@.len() - i,
            {
                proof {
                    assert(info.classes@.take(i + 1).drop_last() =~= info.classes@.take(i as int));
                }
                match info.classes[i] {
                    DeviceClass::Scroll { number, orientation, increment } => {
                        scroll_axes.push((number, ScrollAxis { increment, orientation, position: 0 }));
                    },
                    _ => {},
                }
                i = i + 1;
            }
            assert(info.classes@.take(info.classes@.len() as int) =~= info.classes@);
        }
        let mut device = Device { name: info.name.clone(), scroll_axes };
        device.reset_scroll_position(info);
        device
    }

    /// Re-reads the positions of the known scroll axes from a fresh descriptor.
    pub fn reset_scroll_position(&mut self, info: &DeviceInfo)
        ensures
            final(self).name == old(self).name,
            final(self).scroll_axes@ == resynced(old(self).scroll_axes@, *info),
    {
        if Device::physical_device(info) {
            let ghost start = self.scroll_axes@;
            let mut i: usize = 0;
            while i < info.classes.len()
                invariant
                    i <= info.classes@.len(),
                    self.name == old(self).name,
                    start == old(self).scroll_axes@,
                    self.scroll_axes@ == reset_positions(start, info.classes@.take(i as int)),
                decreases info.classes@.len() - i,
            {
                proof {
                    assert(info.classes@.take(i + 1).drop_last() =~= info.classes@.take(i as int));
                }
                match info.classes[i] {
                    DeviceClass::Valuator { number, value } => {
                        set_position(&mut self.scroll_axes, number, value);
                    },
                    _ => {},
                }
                i = i + 1;
            }
            assert(info.classes@.take(info.classes@.len() as int) =~= info.classes@);
        }
    }
}

} // verus!
