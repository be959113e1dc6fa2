use std::collections::HashMap;

use vstd::prelude::*;

use crate::device::{initial_axes, resynced, Device, ScrollAxis};
use crate::ids::{DeviceId, WindowId};
use crate::native::DeviceInfo;
use crate::window::{WindowData, XimSpot};

verus! {

broadcast use vstd::std_specs::hash::group_hash_axioms;

/// What the registry knows of a device: its name and its scroll axes.
pub struct DeviceModel {
    pub name: Seq<char>,
    pub axes: Seq<(i32, ScrollAxis)>,
}

impl View for Device {
    type V = DeviceModel;

    open spec fn view(&self) -> DeviceModel {
        DeviceModel { name: self.name@, axes: self.scroll_axes@ }
    }
}

/// Work that the transport must carry out for the loop.
#[derive(Debug, Clone, Copy, PartialEq, Eq, Structural)]
pub enum Action {
    /// Refresh the cached keyboard mapping.
    RefreshKeyboardMapping,
    /// Give the window's input context the focus.
    SetIcFocus(WindowId),
    /// Take the focus from the window's input context.
    UnsetIcFocus(WindowId),
    /// Subscribe the device to raw motion, button and key events.
    SelectRawEvents(DeviceId),
}

/// The state of the event loop: the window table and the device registry,
/// with the values resolved once at startup.
pub struct EventsLoop {
    /// The atom of the window-deletion protocol.
    pub wm_delete_window: u64,
    /// The major opcode of the input extension.
    pub xi2_opcode: i32,
    /// The invisible window that receives wakeup messages.
    pub wakeup_dummy_window: u64,
    /// The window table, keyed by native window handle.
    pub windows: HashMap<u64, WindowData>,
    /// The device registry, keyed by native device id.
    pub devices: HashMap<i32, Device>,
}

/// The registry entry of a newly discovered device.
pub open spec fn new_device(info: DeviceInfo) -> DeviceModel {
    DeviceModel { name: info.name@, axes: initial_axes(info) }
}

/// The registry after discovering each device of `infos`, in order; an entry
/// already there is overwritten.
pub open spec fn registered(devs: Map<i32, DeviceModel>, infos: Seq<DeviceInfo>) -> Map<
    i32,
    DeviceModel,
>
    decreases infos.len(),
{
    if infos.len() == 0 {
        devs
    } else {
        registered(devs, infos.drop_last()).insert(
            infos.last().deviceid,
            new_device(infos.last()),
        )
    }
}

/// The physical devices of `infos`, in order: those subscribed to raw events.
pub open spec fn raw_selections(infos: Seq<DeviceInfo>) -> Seq<Action>
    decreases infos.len(),
{
    if infos.len() == 0 {
        Seq::empty()
    } else if crate::device::is_physical_use(infos.last().device_use) {
        raw_selections(infos.drop_last()).push(Action::SelectRawEvents(DeviceId(infos.last().deviceid)))
    } else {
        raw_selections(infos.drop_last())
    }
}

/// Scroll axes of device `source` after a resync with each descriptor of
/// `infos` that describes it.
pub open spec fn resync_all(axes: Seq<(i32, ScrollAxis)>, infos: Seq<DeviceInfo>, source: i32) -> Seq<
    (i32, ScrollAxis),
>
    decreases infos.len(),
{
    if infos.len() == 0 {
        axes
    } else if infos.last().deviceid == source {
        resynced(resync_all(axes, infos.drop_last(), source), infos.last())
    } else {
        resync_all(axes, infos.drop_last(), source)
    }
}

impl EventsLoop {
    /// The window table.
    pub open spec fn windows_view(&self) -> Map<u64, WindowData> {
        self.windows@
    }

    /// The device registry.
    pub open spec fn devices_view(&self) -> Map<i32, DeviceModel> {
        self.devices@.map_values(|d: Device| d@)
    }

    /// A loop with no window and no device yet.
    pub fn new(wm_delete_window: u64, xi2_opcode: i32, wakeup_dummy_window: u64) -> (r: EventsLoop)
        ensures
            r.wm_delete_window == wm_delete_window,
            r.xi2_opcode == xi2_opcode,
            r.wakeup_dummy_window == wakeup_dummy_window,
            r.windows_view() == Map::<u64, WindowData>::empty(),
            r.devices_view() == Map::<i32, DeviceModel>::empty(),
    {
        let r = EventsLoop {
            wm_delete_window,
            xi2_opcode,
            wakeup_dummy_window,
            windows: HashMap::new(),
            devices: HashMap::new(),
        };
        assert(r.devices_view() =~= Map::<i32, DeviceModel>::empty());
        r
    }

    /// Whether a window is registered.
    pub fn has_window(&self, id: WindowId) -> (r: bool)
        ensures
            r == self.windows_view().contains_key(id.0),
    {
        self.windows.contains_key(&id.0)
    }

    /// Whether a device is registered.
    pub fn has_device(&self, id: DeviceId) -> (r: bool)
        ensures
            r == self.devices_view().contains_key(id.0),
    {
        self.devices.contains_key(&id.0)
    }

    /// Registers a window, with no geometry or pointer position known yet.
    pub fn register_window(&mut self, id: WindowId, multitouch: bool)
        ensures
            final(self).windows_view() == old(self).windows_view().insert(id.0, WindowData {
                config: None,
                ic_spot: XimSpot { x: 0, y: 0 },
                multitouch,
                cursor_pos: None,
            }),
            final(self).devices_view() == old(self).devices_view(),
            final(self).wm_delete_window == old(self).wm_delete_window,
            final(self).xi2_opcode == old(self).xi2_opcode,
            final(self).wakeup_dummy_window == old(self).wakeup_dummy_window,
    {
        self.windows.insert(id.0, WindowData::new(multitouch));
    }

    /// Removes a window's state; says whether it was registered.
    pub fn unregister_window(&mut self, id: WindowId) -> (r: bool)
        ensures
            r == old(self).windows_view().contains_key(id.0),
            final(self).windows_view() == old(self).windows_view().remove(id.0),
            final(self).devices_view() == old(self).devices_view(),
            final(self).wm_delete_window == old(self).wm_delete_window,
            final(self).xi2_opcode == old(self).xi2_opcode,
            final(self).wakeup_dummy_window == old(self).wakeup_dummy_window,
    {
        self.windows.remove(&id.0).is_some()
    }

    /// Records a new text-composition anchor of a window; says whether it
    /// differs from the cached one, in which case the input method is to be told.
    pub fn send_xim_spot(&mut self, id: WindowId, x: i16, y: i16) -> (r: bool)
        requires
            old(self).windows_view().contains_key(id.0),
        ensures
            r == (old(self).windows_view()[id.0].ic_spot != XimSpot { x, y }),
            final(self).windows_view() == old(self).windows_view().insert(
                id.0,
                WindowData { ic_spot: XimSpot { x, y }, ..old(self).windows_view()[id.0] },
            ),
            final(self).devices_view() == old(self).devices_view(),
            final(self).wm_delete_window == old(self).wm_delete_window,
            final(self).xi2_opcode == old(self).xi2_opcode,
            final(self).wakeup_dummy_window == old(self).wakeup_dummy_window,
    {
        match self.windows.get(&id.0) {
            Some(d) => {
                let mut data = *d;
                let r = data.update_spot(x, y);
                self.windows.insert(id.0, data);
                r
            },
            None => false,
        }
    }

    /// Discovers devices: each descriptor gets a fresh registry entry, and
    /// the physical ones are returned as raw-event subscriptions to make.
    pub fn init_device(&mut self, infos: &Vec<DeviceInfo>) -> (r: Vec<Action>)
        ensures
            final(self).devices_view() == registered(old(self).devices_view(), infos@),
            r@ == raw_selections(infos@),
            final(self).windows_view() == old(self).windows_view(),
            final(self).wm_delete_window == old(self).wm_delete_window,
            final(self).xi2_opcode == old(self).xi2_opcode,
            final(self).wakeup_dummy_window == old(self).wakeup_dummy_window,
    {
        let mut r: Vec<Action> = Vec::new();
        let mut i: usize = 0;
        while i < infos.len()
            invariant
                i <= infos@.len(),
                self.devices_view() == registered(old(self).devices_view(), infos@.take(i as int)),
                r@ == raw_selections(infos@.take(i as int)),
                self.windows_view() == old(self).windows_view(),
                self.wm_delete_window == old(self).wm_delete_window,
                self.xi2_opcode == old(self).xi2_opcode,
                self.wakeup_dummy_window == old(self).wakeup_dummy_window,
            decreases infos@.len() - i,
        {
            proof {
                assert(infos@.take(i + 1).drop_last() =~= infos@.take(i as int));
            }
            let info = &infos[i];
            let device = Device::new(info);
            let ghost before = self.devices@;
            self.devices.insert(info.deviceid, device);
            proof {
                assert(self.devices_view() =~= before.map_values(|d: Device| d@).insert(
                    info.deviceid,
                    new_device(*info),
                ));
            }
            if Device::physical_device(info) {
                r.push(Action::SelectRawEvents(DeviceId(info.deviceid)));
            }
            i = i + 1;
        }
        assert(infos@.take(infos@.len() as int) =~= infos@);
        r
    }

    /// Re-reads the scroll positions of a registered device from the
    /// descriptors of `infos` that describe it.
    pub fn resync_device(&mut self, source: i32, infos: &Vec<DeviceInfo>)
        requires
            old(self).devices_view().contains_key(source),
        ensures
            final(self).devices_view() == old(self).devices_view().insert(
                source,
                DeviceModel {
                    axes: resync_all(old(self).devices_view()[source].axes, infos@, source),
                    ..old(self).devices_view()[source]
                },
            ),
            final(self).windows_view() == old(self).windows_view(),
            final(self).wm_delete_window == old(self).wm_delete_window,
            final(self).xi2_opcode == old(self).xi2_opcode,
            final(self).wakeup_dummy_window == old(self).wakeup_dummy_window,
    {
        let ghost before = self.devices@;
        match self.devices.remove(&source) {
            Some(mut device) => {
                let ghost start = device@;
                let mut i: usize = 0;
                while i < infos.len()
                    invariant
                        i <= infos@.len(),
                        device@.name == start.name,
                        device@.axes == resync_all(start.axes, infos@.take(i as int), source),
                    decreases infos@.len() - i,
                {
                    proof {
                        assert(infos@.take(i + 1).drop_last() =~= infos@.take(i as int));
                    }
                    if infos[i].deviceid == source {
                        device.reset_scroll_position(&infos[i]);
                    }
                    i = i + 1;
                }
                assert(infos@.take(infos@.len() as int) =~= infos@);
                self.devices.insert(source, device);
                proof {
                    assert(self.devices_view() =~= before.map_values(|d: Device| d@).insert(
                        source,
                        DeviceModel {
                            axes: resync_all(start.axes, infos@, source),
                            ..start
                        },
                    ));
                }
            },
            None => {},
        }
    }
}

} // verus!
