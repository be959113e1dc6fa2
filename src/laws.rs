use vstd::prelude::*;

use crate::device::{is_first_axis, lemma_first_axis_unique, resynced, with_position, ScrollAxis};
use crate::dispatch::{hierarchy_fold, is_addition, is_removal};
use crate::event::{DeviceEvent, Event, LineDelta, TouchPhase, WindowEvent};
use crate::events_loop::{registered, DeviceModel, EventsLoop};
use crate::ids::{DeviceId, EventsLoopClosed, WindowId};
use crate::native::{DeviceClass, DeviceInfo, HierarchyChange, NativeEvent, ScrollOrientation, XiEvent};
use crate::proxy::wakeup_outcome;
use crate::translate::{dev, first_axis, motion_fold, scroll_delta, win};
use crate::window::{geometry_changes, WindowConfig};

verus! {

/// A geometry notification reports a resize exactly when there is no cached
/// geometry or the size differs from the cached one, and a move exactly when
/// there is none or the position differs; the notified geometry is cached.
pub proof fn resize_iff_size_changed(lp: EventsLoop, window: u64, x: i32, y: i32, width: i32, height: i32, pending: bool)
    requires
        lp.windows_view().contains_key(window),
    ensures
        ({
            let cached = lp.windows_view()[window].config;
            let o = lp.outcome(NativeEvent::Configure { window, x, y, width, height }, pending);
            &&& o.events.contains(win(window, WindowEvent::Resized(width as u32, height as u32)))
                <==> (cached is None || cached->0.width != width || cached->0.height != height)
            &&& o.events.contains(win(window, WindowEvent::Moved(x, y)))
                <==> (cached is None || cached->0.x != x || cached->0.y != y)
            &&& o.windows[window].config == Some(WindowConfig { width, height, x, y })
        }),
{
    let cached = lp.windows_view()[window].config;
    let c = WindowConfig { width, height, x, y };
    let o = lp.outcome(NativeEvent::Configure { window, x, y, width, height }, pending);
    let rs = win(window, WindowEvent::Resized(width as u32, height as u32));
    let mv = win(window, WindowEvent::Moved(x, y));
    let (resized, moved) = geometry_changes(cached, c);
    assert(rs != mv);
    if resized {
        assert(o.events[0] == rs);
    }
    if moved {
        assert(o.events[o.events.len() - 1] == mv);
    }
    if !resized {
        assert(!o.events.contains(rs)) by {
            if moved {
                assert(o.events =~= seq![mv]);
            } else {
                assert(o.events =~= Seq::<Event>::empty());
            }
        }
    }
    if !moved {
        assert(!o.events.contains(mv)) by {
            if resized {
                assert(o.events =~= seq![rs]);
            } else {
                assert(o.events =~= Seq::<Event>::empty());
            }
        }
    }
}

/// A geometry notification that repeats the cached geometry reports nothing.
pub proof fn repeated_geometry_is_silent(lp: EventsLoop, window: u64, x: i32, y: i32, width: i32, height: i32, pending: bool)
    requires
        lp.windows_view().contains_key(window),
        lp.windows_view()[window].config == Some(WindowConfig { width, height, x, y }),
    ensures
        lp.outcome(NativeEvent::Configure { window, x, y, width, height }, pending).events.len() == 0,
{
}

/// The wakeup flag after `n` wakeup requests on a loop whose flag was `flag`.
pub open spec fn after_wakeups(dummy: u64, flag: Option<bool>, display_open: bool, n: nat) -> Option<bool>
    decreases n,
{
    if n == 0 {
        flag
    } else {
        wakeup_outcome(dummy, after_wakeups(dummy, flag, display_open, (n - 1) as nat), display_open).1
    }
}

proof fn lemma_wakeups_set_flag(dummy: u64, flag: bool, n: nat)
    requires
        n >= 1,
    ensures
        after_wakeups(dummy, Some(flag), true, n) == Some(true),
    decreases n,
{
    reveal_with_fuel(after_wakeups, 2);
    if n > 1 {
        lemma_wakeups_set_flag(dummy, flag, (n - 1) as nat);
    }
}

/// Any number of wakeup requests on a live loop, however many, leave the flag
/// set; the next wakeup message then yields exactly one awakened event and
/// clears the flag, and a further message yields nothing.
pub proof fn wakeups_coalesce(lp: EventsLoop, flag: bool, n: nat, window: u64, data0: u64)
    requires
        n >= 1,
        data0 != lp.wm_delete_window,
    ensures
        ({
            let set = after_wakeups(lp.wakeup_dummy_window, Some(flag), true, n);
            let first = lp.outcome(NativeEvent::ClientMessage { window, data0 }, set->0);
            let second = lp.outcome(NativeEvent::ClientMessage { window, data0 }, first.pending);
            &&& set == Some(true)
            &&& first.events == seq![Event::Awakened]
            &&& !first.pending
            &&& second.events.len() == 0
            &&& !second.pending
        }),
{
    lemma_wakeups_set_flag(lp.wakeup_dummy_window, flag, n);
}

/// A wakeup request on a loop that is gone reports it closed and changes
/// nothing.
pub proof fn wakeup_after_teardown(dummy: u64, display_open: bool, flag: Option<bool>)
    requires
        flag is None || !display_open,
    ensures
        wakeup_outcome(dummy, flag, display_open) == (
            Err::<WindowId, EventsLoopClosed>(EventsLoopClosed),
            flag,
        ),
{
}

/// The wheel event of a calibrated scroll axis carries the change of raw
/// value over the increment: up positive on a vertical axis, right positive
/// on a horizontal one; the axis then records the new value.
pub proof fn scroll_delta_law(w: u64, d: i32, axes: Seq<(i32, ScrollAxis)>, j: int, v: i64)
    requires
        0 <= j < axes.len(),
        forall|k: int| 0 <= k < j ==> axes[k].0 != axes[j].0,
    ensures
        ({
            let (n, a) = axes[j];
            let (evs, after) = motion_fold(w, d, axes, seq![(n, v)]);
            let change = v - a.position;
            &&& evs == seq![
                win(w, WindowEvent::MouseWheel { device_id: DeviceId(d), delta: scroll_delta(a, v), phase: TouchPhase::Moved }),
            ]
            &&& scroll_delta(a, v).unit == a.increment
            &&& a.orientation == ScrollOrientation::Horizontal ==> scroll_delta(a, v).x == change && scroll_delta(a, v).y == 0
            &&& a.orientation == ScrollOrientation::Vertical ==> scroll_delta(a, v).y == -change && scroll_delta(a, v).x == 0
            &&& after[j].1.position == v
        }),
{
    reveal_with_fuel(motion_fold, 2);
    let n = axes[j].0;
    let pairs = seq![(n, v)];
    assert(pairs.drop_last() =~= Seq::<(i32, i64)>::empty());
    assert(is_first_axis(axes, j, n));
    let k = first_axis(axes, n);
    assert(is_first_axis(axes, k, n));
    lemma_first_axis_unique(axes, j, k, n);
    assert(with_position(axes, n, v)[j].1.position == v);
}

/// After a resync that reads raw value `b` for a scroll axis, the next wheel
/// delta of that axis is measured from `b`.
pub proof fn resync_sets_baseline(w: u64, d: i32, axes: Seq<(i32, ScrollAxis)>, j: int, info: DeviceInfo, b: i64, v: i64)
    requires
        0 <= j < axes.len(),
        forall|k: int| 0 <= k < j ==> axes[k].0 != axes[j].0,
        crate::device::is_physical_use(info.device_use),
        info.classes@ == seq![DeviceClass::Valuator { number: axes[j].0, value: b }],
    ensures
        ({
            let fresh = resynced(axes, info);
            let (evs, _) = motion_fold(w, d, fresh, seq![(axes[j].0, v)]);
            &&& fresh[j].1.position == b
            &&& evs == seq![
                win(
                    w,
                    WindowEvent::MouseWheel {
                        device_id: DeviceId(d),
                        delta: scroll_delta(ScrollAxis { position: b, ..axes[j].1 }, v),
                        phase: TouchPhase::Moved,
                    },
                ),
            ]
        }),
{
    reveal_with_fuel(crate::device::reset_positions, 2);
    let n = axes[j].0;
    let cls = info.classes@;
    assert(cls.drop_last() =~= Seq::<DeviceClass>::empty());
    let fresh = resynced(axes, info);
    assert(fresh == with_position(axes, n, b));
    assert(is_first_axis(axes, j, n));
    assert(fresh[j] == (n, ScrollAxis { position: b, ..axes[j].1 }));
    assert forall|k: int| 0 <= k < j implies fresh[k].0 != n by {
        assert(fresh[k].0 == axes[k].0);
    }
    scroll_delta_law(w, d, fresh, j, v);
}

/// The delta of a wheel button: 4 up, 5 down, 6 left, 7 right, one line.
pub open spec fn wheel_step(detail: i32) -> (i128, i128) {
    if detail == 4 {
        (0, 1)
    } else if detail == 5 {
        (0, -1i128)
    } else if detail == 6 {
        (-1i128, 0)
    } else {
        (1, 0)
    }
}

/// Buttons 4 to 7 give one wheel event of one line in their direction when
/// not emulated, and nothing when emulated.
pub proof fn wheel_buttons(lp: EventsLoop, pressed: bool, window: u64, device: i32, detail: i32, emulated: bool, pending: bool)
    requires
        4 <= detail <= 7,
        lp.accepts_xi(XiEvent::Button { pressed, window, device, detail, emulated }),
    ensures
        ({
            let o = lp.xi_outcome(XiEvent::Button { pressed, window, device, detail, emulated }, pending);
            &&& emulated ==> o.events.len() == 0
            &&& !emulated ==> o.events == seq![
                win(
                    window,
                    WindowEvent::MouseWheel {
                        device_id: DeviceId(device),
                        delta: LineDelta { x: wheel_step(detail).0, y: wheel_step(detail).1, unit: 1 },
                        phase: TouchPhase::Moved,
                    },
                ),
            ]
        }),
{
}

/// A removal of a device that is not registered leaves the registry as it
/// was, and is still announced.
pub proof fn removal_of_unknown_device(devs: Map<i32, DeviceModel>, c: HierarchyChange)
    requires
        !is_addition(c.flags),
        is_removal(c.flags),
        !devs.contains_key(c.deviceid),
    ensures
        hierarchy_fold(devs, seq![c]).2 == devs,
        hierarchy_fold(devs, seq![c]).0 == seq![dev(c.deviceid, DeviceEvent::Removed)],
{
    reveal_with_fuel(hierarchy_fold, 2);
    assert(seq![c].drop_last() =~= Seq::<HierarchyChange>::empty());
    assert(devs.remove(c.deviceid) =~= devs);
}

proof fn lemma_registered_contains(devs: Map<i32, DeviceModel>, infos: Seq<DeviceInfo>, k: int)
    requires
        0 <= k < infos.len(),
    ensures
        registered(devs, infos).contains_key(infos[k].deviceid),
    decreases infos.len(),
{
    if k < infos.len() - 1 {
        lemma_registered_contains(devs, infos.drop_last(), k);
    }
}

/// An addition leaves the registry holding the device, where the device
/// query reported it.
pub proof fn addition_registers_device(devs: Map<i32, DeviceModel>, c: HierarchyChange)
    requires
        is_addition(c.flags),
        exists|k: int| 0 <= k < c.infos@.len() && c.infos@[k].deviceid == c.deviceid,
    ensures
        hierarchy_fold(devs, seq![c]).2.contains_key(c.deviceid),
        hierarchy_fold(devs, seq![c]).0 == seq![dev(c.deviceid, DeviceEvent::Added)],
{
    reveal_with_fuel(hierarchy_fold, 2);
    assert(seq![c].drop_last() =~= Seq::<HierarchyChange>::empty());
    let k = choose|k: int| 0 <= k < c.infos@.len() && c.infos@[k].deviceid == c.deviceid;
    lemma_registered_contains(devs, c.infos@, k);
}

} // verus!
