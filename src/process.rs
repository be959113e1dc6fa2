use vstd::prelude::*;

use crate::dispatch::{configure_events, hierarchy_fold, key_events, Dispatch, Outcome};
use crate::event::{DeviceEvent, ElementState, Event, KeyboardInput, ModifiersState, Point, Touch, WindowEvent};
use crate::events_loop::{Action, EventsLoop};
use crate::ids::{DeviceId, WindowId};
use crate::native::{
    HierarchyChange, NativeEvent, XiEvent, KEYCODE_OFFSET, XI_MASTER_ADDED, XI_MASTER_REMOVED,
    XI_SLAVE_ADDED, XI_SLAVE_REMOVED,
};
use crate::translate::{button_event, modifiers_of, motion_valuators, raw_motion, text_events_of};
use crate::valuators::axis_value_pairs;
use crate::window::WindowConfig;

verus! {

broadcast use vstd::std_specs::hash::group_hash_axioms;

/// A dispatch of the given events and no action.
fn only_events(events: Vec<Event>) -> (r: Dispatch)
    ensures
        r.events@ == events@,
        r.actions@ == Seq::<Action>::empty(),
{
    Dispatch { events, actions: Vec::new() }
}

/// A dispatch of one event.
fn one_event(e: Event) -> (r: Dispatch)
    ensures
        r.events@ == seq![e],
        r.actions@ == Seq::<Action>::empty(),
{
    let mut events: Vec<Event> = Vec::new();
    events.push(e);
    only_events(events)
}

impl EventsLoop {
    /// Translates a geometry notification.
    fn on_configure(&mut self, window: u64, c: WindowConfig) -> (r: Dispatch)
        requires
            old(self).windows_view().contains_key(window),
        ensures
            final(self).realizes(
                old(self),
                r,
                false,
                Outcome {
                    events: configure_events(window, old(self).windows_view()[window].config, c),
                    actions: seq![],
                    windows: old(self).windows_view().insert(
                        window,
                        crate::window::WindowData { config: Some(c), ..old(self).windows_view()[window] },
                    ),
                    devices: old(self).devices_view(),
                    pending: false,
                },
            ),
    {
        let mut events: Vec<Event> = Vec::new();
        match self.windows.get(&window) {
            Some(d) => {
                let mut data = *d;
                let (resized, moved) = data.update_config(c);
                self.windows.insert(window, data);
                if resized {
                    events.push(Event::WindowEvent { window_id: WindowId(window), event: WindowEvent::Resized(c.width as u32, c.height as u32) });
                }
                if moved {
                    events.push(Event::WindowEvent { window_id: WindowId(window), event: WindowEvent::Moved(c.x, c.y) });
                }
                assert(events@ =~= configure_events(window, old(self).windows_view()[window].config, c));
            },
            None => {},
        }
        only_events(events)
    }

    /// Translates a pointer motion.
    fn on_motion(&mut self, window: u64, device: i32, source: i32, p: Point, valuators: &crate::native::Valuators) -> (r: Dispatch)
        requires
            old(self).accepts_xi(XiEvent::Motion { window, device, source, x: p.x, y: p.y, valuators: *valuators }),
        ensures
            final(self).realizes(
                old(self),
                r,
                false,
                old(self).xi_outcome(XiEvent::Motion { window, device, source, x: p.x, y: p.y, valuators: *valuators }, false),
            ),
    {
        let mut events: Vec<Event> = Vec::new();
        match self.windows.get(&window) {
            Some(d) => {
                let mut data = *d;
                if data.update_cursor(p) {
                    events.push(Event::WindowEvent { window_id: WindowId(window), event: WindowEvent::MouseMoved { device_id: DeviceId(device), position: p } });
                }
                self.windows.insert(window, data);
            },
            None => {},
        }
        let pairs = axis_value_pairs(valuators);
        let ghost before = self.devices@;
        match self.devices.remove(&source) {
            Some(mut dv) => {
                let mut evs = motion_valuators(window, device, &mut dv.scroll_axes, &pairs);
                let ghost dm = dv@;
                self.devices.insert(source, dv);
                events.append(&mut evs);
                proof {
                    assert(self.devices_view() =~= before.map_values(|d: crate::device::Device| d@).insert(source, dm));
                }
            },
            None => {},
        }
        only_events(events)
    }

    /// Translates a device hierarchy notification.
    fn on_hierarchy(&mut self, changes: &Vec<HierarchyChange>) -> (r: Dispatch)
        ensures
            ({
                let (e, a, d) = hierarchy_fold(old(self).devices_view(), changes@);
                final(self).realizes(
                    old(self),
                    r,
                    false,
                    Outcome { events: e, actions: a, windows: old(self).windows_view(), devices: d, pending: false },
                )
            }),
    {
        let mut events: Vec<Event> = Vec::new();
        let mut actions: Vec<Action> = Vec::new();
        let mut i: usize = 0;
        while i < changes.len()
            invariant
                i <= changes@.len(),
                ({
                    let (e, a, d) = hierarchy_fold(old(self).devices_view(), changes@.take(i as int));
                    events@ == e && actions@ == a && self.devices_view() == d
                }),
                self.windows_view() == old(self).windows_view(),
                self.wm_delete_window == old(self).wm_delete_window,
                self.xi2_opcode == old(self).xi2_opcode,
                self.wakeup_dummy_window == old(self).wakeup_dummy_window,
            decreases changes@.len() - i,
        {
            proof {
                assert(changes@.take(i + 1).drop_last() =~= changes@.take(i as int));
            }
            let c = &changes[i];
            if c.flags & (XI_SLAVE_ADDED | XI_MASTER_ADDED) != 0 {
                let mut selected = self.init_device(&c.infos);
                actions.append(&mut selected);
                events.push(Event::DeviceEvent { device_id: DeviceId(c.deviceid), event: DeviceEvent::Added });
            } else if c.flags & (XI_SLAVE_REMOVED | XI_MASTER_REMOVED) != 0 {
                events.push(Event::DeviceEvent { device_id: DeviceId(c.deviceid), event: DeviceEvent::Removed });
                let ghost before = self.devices@;
                self.devices.remove(&c.deviceid);
                proof {
                    assert(self.devices_view() =~= before.map_values(|d: crate::device::Device| d@).remove(c.deviceid));
                }
            }
            i = i + 1;
        }
        assert(changes@.take(changes@.len() as int) =~= changes@);
        Dispatch { events, actions }
    }

    /// Translates an input-extension event.
    fn process_xi(&mut self, ev: &XiEvent) -> (r: Dispatch)
        requires
            old(self).accepts_xi(*ev),
        ensures
            final(self).realizes(old(self), r, false, old(self).xi_outcome(*ev, false)),
    {
        match ev {
            XiEvent::Button { pressed, window, device, detail, emulated } => {
                if *emulated {
                    match self.windows.get(window) {
                        Some(d) => {
                            if d.multitouch {
                                return only_events(Vec::new());
                            }
                        },
                        None => {},
                    }
                }
                only_events(button_event(*window, *device, *pressed, *detail, *emulated))
            },
            XiEvent::Motion { window, device, source, x, y, valuators } => {
                self.on_motion(*window, *device, *source, Point { x: *x, y: *y }, valuators)
            },
            XiEvent::Enter { window, device, source, infos } => {
                self.resync_device(*source, infos);
                one_event(Event::WindowEvent { window_id: WindowId(*window), event: WindowEvent::MouseEntered { device_id: DeviceId(*device) } })
            },
            XiEvent::Leave { window, device } => {
                one_event(Event::WindowEvent { window_id: WindowId(*window), event: WindowEvent::MouseLeft { device_id: DeviceId(*device) } })
            },
            XiEvent::FocusIn { window } => {
                let mut r = one_event(Event::WindowEvent { window_id: WindowId(*window), event: WindowEvent::Focused(true) });
                r.actions.push(Action::SetIcFocus(WindowId(*window)));
                r
            },
            XiEvent::FocusOut { window } => {
                let mut r = one_event(Event::WindowEvent { window_id: WindowId(*window), event: WindowEvent::Focused(false) });
                r.actions.push(Action::UnsetIcFocus(WindowId(*window)));
                r
            },
            XiEvent::Touch { phase, window, device, detail, x, y } => {
                one_event(Event::WindowEvent {
                    window_id: WindowId(*window),
                    event: WindowEvent::Touch(Touch { device_id: DeviceId(*device), phase: *phase, location: Point { x: *x, y: *y }, id: *detail as u64 }),
                })
            },
            XiEvent::RawButton { pressed, device, detail, emulated } => {
                if *emulated {
                    only_events(Vec::new())
                } else {
                    let state = if *pressed {
                        ElementState::Pressed
                    } else {
                        ElementState::Released
                    };
                    one_event(Event::DeviceEvent { device_id: DeviceId(*device), event: DeviceEvent::Button { button: *detail as u32, state } })
                }
            },
            XiEvent::RawMotion { device, valuators } => {
                let pairs = axis_value_pairs(valuators);
                only_events(raw_motion(*device, &pairs))
            },
            XiEvent::RawKey { pressed, device, detail, symbol } => {
                let state = if *pressed {
                    ElementState::Pressed
                } else {
                    ElementState::Released
                };
                let input = KeyboardInput {
                    scancode: (*detail - 8) as u32,
                    state,
                    virtual_keycode: *symbol,
                    modifiers: ModifiersState { shift: false, ctrl: false, alt: false, logo: false },
                };
                one_event(Event::DeviceEvent { device_id: DeviceId(*device), event: DeviceEvent::Key(input) })
            },
            XiEvent::Hierarchy { changes } => self.on_hierarchy(changes),
            XiEvent::Other => only_events(Vec::new()),
        }
    }

    /// Translates one native event into normalized events, in order, and
    /// work for the transport, updating the window table and the device
    /// registry. `pending_wakeup` is the flag that wakeup requests set; a
    /// wakeup message that finds it set clears it and is reported once.
    pub fn process_event(&mut self, ev: &NativeEvent, pending_wakeup: &mut bool) -> (r: Dispatch)
        requires
            old(self).accepts(*ev),
        ensures
            final(self).realizes(old(self), r, *final(pending_wakeup), old(self).outcome(*ev, *old(pending_wakeup))),
    {
        match ev {
            NativeEvent::MappingNotify => {
                let mut r = only_events(Vec::new());
                r.actions.push(Action::RefreshKeyboardMapping);
                r
            },
            NativeEvent::ClientMessage { window, data0 } => {
                if *data0 == self.wm_delete_window {
                    one_event(Event::WindowEvent { window_id: WindowId(*window), event: WindowEvent::Closed })
                } else if *pending_wakeup {
                    *pending_wakeup = false;
                    one_event(Event::Awakened)
                } else {
                    only_events(Vec::new())
                }
            },
            NativeEvent::Configure { window, x, y, width, height } => {
                self.on_configure(*window, WindowConfig::new(*width, *height, *x, *y))
            },
            NativeEvent::Expose { window } => {
                one_event(Event::WindowEvent { window_id: WindowId(*window), event: WindowEvent::Refresh })
            },
            NativeEvent::Key { window, pressed, keycode, state, symbol, text } => {
                let input = KeyboardInput {
                    scancode: *keycode - KEYCODE_OFFSET,
                    state: if *pressed {
                        ElementState::Pressed
                    } else {
                        ElementState::Released
                    },
                    virtual_keycode: *symbol,
                    modifiers: modifiers_of(*state),
                };
                let mut events: Vec<Event> = Vec::new();
                events.push(Event::WindowEvent { window_id: WindowId(*window), event: WindowEvent::KeyboardInput { device_id: DeviceId(3), input } });
                if *pressed {
                    let mut chars = text_events_of(*window, text);
                    events.append(&mut chars);
                }
                assert(events@ =~= key_events(*window, *pressed, *keycode, *state, *symbol, text@));
                only_events(events)
            },
            NativeEvent::Generic { extension, event } => {
                if *extension != self.xi2_opcode {
                    only_events(Vec::new())
                } else {
                    self.process_xi(event)
                }
            },
            NativeEvent::Other => only_events(Vec::new()),
        }
    }

    /// Whether the loop can take the event (see `accepts`): callers that
    /// cannot know it otherwise test this before `process_event`.
    pub fn accepts_event(&self, ev: &NativeEvent) -> (r: bool)
        ensures
            r == self.accepts(*ev),
    {
        match ev {
            NativeEvent::Configure { window, .. } => self.windows.contains_key(window),
            NativeEvent::Key { keycode, .. } => *keycode >= KEYCODE_OFFSET,
            NativeEvent::Generic { extension, event } => {
                if *extension != self.xi2_opcode {
                    return true;
                }
                match event {
                    XiEvent::Button { window, emulated, .. } => !*emulated || self.windows.contains_key(window),
                    XiEvent::Motion { window, source, valuators, .. } => {
                        self.windows.contains_key(window) && self.devices.contains_key(source)
                            && valuators.mask.len() < 0x1000_0000
                    },
                    XiEvent::Enter { source, .. } => self.devices.contains_key(source),
                    XiEvent::RawMotion { valuators, .. } => valuators.mask.len() < 0x1000_0000,
                    XiEvent::RawKey { detail, .. } => *detail >= 8,
                    _ => true,
                }
            },
            _ => true,
        }
    }
}

} // verus!
