use vstd::prelude::*;

use crate::event::{DeviceEvent, Event, KeyboardInput, ModifiersState, Point, Touch, WindowEvent};
use crate::events_loop::{raw_selections, registered, resync_all, Action, DeviceModel, EventsLoop};
use crate::ids::{DeviceId, WindowId};
use crate::native::{
    HierarchyChange, NativeEvent, XiEvent, KEYCODE_OFFSET, XI_MASTER_ADDED, XI_MASTER_REMOVED,
    XI_SLAVE_ADDED, XI_SLAVE_REMOVED,
};
use crate::translate::{
    button_events, dev, modifiers_spec, motion_fold, raw_motion_events, state_of, text_events, win,
};
use crate::valuators::{axis_values, mask_fits};
use crate::window::{geometry_changes, WindowConfig, WindowData};

verus! {

broadcast use vstd::std_specs::hash::group_hash_axioms;

/// What one native event produced: normalized events for the handler, in
/// order, and work for the transport.
pub struct Dispatch {
    pub events: Vec<Event>,
    pub actions: Vec<Action>,
}

/// The result of one native event over the model: events, actions, the new
/// window table and registry, and the new wakeup flag.
pub struct Outcome {
    pub events: Seq<Event>,
    pub actions: Seq<Action>,
    pub windows: Map<u64, WindowData>,
    pub devices: Map<i32, DeviceModel>,
    pub pending: bool,
}

/// A client message closes the window when it carries the deletion atom;
/// otherwise it is a wakeup, reported once while the flag is set, and the
/// flag is then clear.
pub open spec fn client_message_outcome(w: u64, data0: u64, delete_atom: u64, pending: bool) -> (
    Seq<Event>,
    bool,
) {
    if data0 == delete_atom {
        (seq![win(w, WindowEvent::Closed)], pending)
    } else if pending {
        (seq![Event::Awakened], false)
    } else {
        (seq![], false)
    }
}

/// The events of a geometry notification: a resize, then a move, each when
/// `geometry_changes` says so.
pub open spec fn configure_events(w: u64, cached: Option<WindowConfig>, c: WindowConfig) -> Seq<Event> {
    let (resized, moved) = geometry_changes(cached, c);
    (if resized {
        seq![win(w, WindowEvent::Resized(c.width as u32, c.height as u32))]
    } else {
        seq![]
    }) + (if moved {
        seq![win(w, WindowEvent::Moved(c.x, c.y))]
    } else {
        seq![]
    })
}

/// The keyboard device reported for core key events.
pub open spec fn core_keyboard() -> DeviceId {
    DeviceId(3)
}

/// The events of a core key event: the key itself, then on a press one
/// event for each composed character.
pub open spec fn key_events(
    w: u64,
    pressed: bool,
    keycode: u32,
    state: u32,
    symbol: Option<u32>,
    text: Seq<u8>,
) -> Seq<Event> {
    seq![
        win(
            w,
            WindowEvent::KeyboardInput {
                device_id: core_keyboard(),
                input: KeyboardInput {
                    scancode: (keycode - KEYCODE_OFFSET) as u32,
                    state: state_of(pressed),
                    virtual_keycode: symbol,
                    modifiers: modifiers_spec(state),
                },
            },
        ),
    ] + (if pressed {
        text_events(w, text)
    } else {
        seq![]
    })
}

/// A device change announces an addition.
pub open spec fn is_addition(flags: i32) -> bool {
    flags & (XI_SLAVE_ADDED | XI_MASTER_ADDED) != 0
}

/// A device change announces a removal.
pub open spec fn is_removal(flags: i32) -> bool {
    flags & (XI_SLAVE_REMOVED | XI_MASTER_REMOVED) != 0
}

/// The events, actions and registry after the changes of a hierarchy
/// notification, in order: an addition registers the device and is
/// announced; a removal is announced and erases the entry.
pub open spec fn hierarchy_fold(devs: Map<i32, DeviceModel>, changes: Seq<HierarchyChange>) -> (
    Seq<Event>,
    Seq<Action>,
    Map<i32, DeviceModel>,
)
    decreases changes.len(),
{
    if changes.len() == 0 {
        (seq![], seq![], devs)
    } else {
        let (e, a, d) = hierarchy_fold(devs, changes.drop_last());
        let c = changes.last();
        if is_addition(c.flags) {
            (
                e.push(dev(c.deviceid, DeviceEvent::Added)),
                a + raw_selections(c.infos@),
                registered(d, c.infos@),
            )
        } else if is_removal(c.flags) {
            (e.push(dev(c.deviceid, DeviceEvent::Removed)), a, d.remove(c.deviceid))
        } else {
            (e, a, d)
        }
    }
}

/// A keyboard input with no modifier held.
pub open spec fn unmodified() -> ModifiersState {
    ModifiersState { shift: false, ctrl: false, alt: false, logo: false }
}

impl EventsLoop {
    /// The loop can take the event: the window or device it concerns is
    /// registered where its translation reads the state, keycodes are at
    /// least the keycode offset, and valuator masks are of a sane length.
    pub open spec fn accepts(&self, ev: NativeEvent) -> bool {
        match ev {
            NativeEvent::Configure { window, .. } => self.windows_view().contains_key(window),
            NativeEvent::Key { keycode, .. } => keycode >= KEYCODE_OFFSET,
            NativeEvent::Generic { extension, event } => extension != self.xi2_opcode || self.accepts_xi(event),
            _ => true,
        }
    }

    /// The loop can take the input-extension event.
    pub open spec fn accepts_xi(&self, ev: XiEvent) -> bool {
        match ev {
            XiEvent::Button { window, emulated, .. } => emulated ==> self.windows_view().contains_key(window),
            XiEvent::Motion { window, source, valuators, .. } => {
                &&& self.windows_view().contains_key(window)
                &&& self.devices_view().contains_key(source)
                &&& mask_fits(valuators.mask@)
            },
            XiEvent::Enter { source, .. } => self.devices_view().contains_key(source),
            XiEvent::RawMotion { valuators, .. } => mask_fits(valuators.mask@),
            XiEvent::RawKey { detail, .. } => detail >= 8,
            _ => true,
        }
    }

    /// The loop, after producing `r` and leaving the flag at `pending`, is in
    /// the state that `o` describes, with its startup values kept from `before`.
    pub open spec fn realizes(&self, before: &EventsLoop, r: Dispatch, pending: bool, o: Outcome) -> bool {
        &&& r.events@ == o.events
        &&& r.actions@ == o.actions
        &&& self.windows_view() == o.windows
        &&& self.devices_view() == o.devices
        &&& pending == o.pending
        &&& self.wm_delete_window == before.wm_delete_window
        &&& self.xi2_opcode == before.xi2_opcode
        &&& self.wakeup_dummy_window == before.wakeup_dummy_window
    }

    /// What an input-extension event does.
    pub open spec fn xi_outcome(&self, ev: XiEvent, pending: bool) -> Outcome {
        let same = Outcome {
            events: seq![],
            actions: seq![],
            windows: self.windows_view(),
            devices: self.devices_view(),
            pending,
        };
        match ev {
            XiEvent::Button { pressed, window, device, detail, emulated } => {
                if emulated && self.windows_view()[window].multitouch {
                    same
                } else {
                    Outcome { events: button_events(window, device, pressed, detail, emulated), ..same }
                }
            },
            XiEvent::Motion { window, device, source, x, y, valuators } => {
                let data = self.windows_view()[window];
                let p = Point { x, y };
                let dm = self.devices_view()[source];
                let (evs, axes) = motion_fold(window, device, dm.axes, axis_values(valuators.mask@, valuators.values@));
                Outcome {
                    events: (if data.cursor_pos != Some(p) {
                        seq![win(window, WindowEvent::MouseMoved { device_id: DeviceId(device), position: p })]
                    } else {
                        seq![]
                    }) + evs,
                    windows: self.windows_view().insert(window, WindowData { cursor_pos: Some(p), ..data }),
                    devices: self.devices_view().insert(source, DeviceModel { axes, ..dm }),
                    ..same
                }
            },
            XiEvent::Enter { window, device, source, infos } => {
                let dm = self.devices_view()[source];
                Outcome {
                    events: seq![win(window, WindowEvent::MouseEntered { device_id: DeviceId(device) })],
                    devices: self.devices_view().insert(
                        source,
                        DeviceModel { axes: resync_all(dm.axes, infos@, source), ..dm },
                    ),
                    ..same
                }
            },
            XiEvent::Leave { window, device } => Outcome {
                events: seq![win(window, WindowEvent::MouseLeft { device_id: DeviceId(device) })],
                ..same
            },
            XiEvent::FocusIn { window } => Outcome {
                events: seq![win(window, WindowEvent::Focused(true))],
                actions: seq![Action::SetIcFocus(WindowId(window))],
                ..same
            },
            XiEvent::FocusOut { window } => Outcome {
                events: seq![win(window, WindowEvent::Focused(false))],
                actions: seq![Action::UnsetIcFocus(WindowId(window))],
                ..same
            },
            XiEvent::Touch { phase, window, device, detail, x, y } => Outcome {
                events: seq![
                    win(
                        window,
                        WindowEvent::Touch(
                            Touch { device_id: DeviceId(device), phase, location: Point { x, y }, id: detail as u64 },
                        ),
                    ),
                ],
                ..same
            },
            XiEvent::RawButton { pressed, device, detail, emulated } => {
                if emulated {
                    same
                } else {
                    Outcome {
                        events: seq![dev(device, DeviceEvent::Button { button: detail as u32, state: state_of(pressed) })],
                        ..same
                    }
                }
            },
            XiEvent::RawMotion { device, valuators } => Outcome {
                events: raw_motion_events(device, axis_values(valuators.mask@, valuators.values@)),
                ..same
            },
            XiEvent::RawKey { pressed, device, detail, symbol } => Outcome {
                events: seq![
                    dev(
                        device,
                        DeviceEvent::Key(
                            KeyboardInput {
                                scancode: (detail - 8) as u32,
                                state: state_of(pressed),
                                virtual_keycode: symbol,
                                modifiers: unmodified(),
                            },
                        ),
                    ),
                ],
                ..same
            },
            XiEvent::Hierarchy { changes } => {
                let (e, a, d) = hierarchy_fold(self.devices_view(), changes@);
                Outcome { events: e, actions: a, devices: d, ..same }
            },
            XiEvent::Other => same,
        }
    }

    /// What a native event does to the model, with wakeup flag `pending`.
    pub open spec fn outcome(&self, ev: NativeEvent, pending: bool) -> Outcome {
        let same = Outcome {
            events: seq![],
            actions: seq![],
            windows: self.windows_view(),
            devices: self.devices_view(),
            pending,
        };
        match ev {
            NativeEvent::MappingNotify => Outcome { actions: seq![Action::RefreshKeyboardMapping], ..same },
            NativeEvent::ClientMessage { window, data0 } => {
                let (e, p) = client_message_outcome(window, data0, self.wm_delete_window, pending);
                Outcome { events: e, pending: p, ..same }
            },
            NativeEvent::Configure { window, x, y, width, height } => {
                let data = self.windows_view()[window];
                let c = WindowConfig { width, height, x, y };
                Outcome {
                    events: configure_events(window, data.config, c),
                    windows: self.windows_view().insert(window, WindowData { config: Some(c), ..data }),
                    ..same
                }
            },
            NativeEvent::Expose { window } => Outcome { events: seq![win(window, WindowEvent::Refresh)], ..same },
            NativeEvent::Key { window, pressed, keycode, state, symbol, text } => Outcome {
                events: key_events(window, pressed, keycode, state, symbol, text@),
                ..same
            },
            NativeEvent::Generic { extension, event } => {
                if extension != self.xi2_opcode {
                    same
                } else {
                    self.xi_outcome(event, pending)
                }
            },
            NativeEvent::Other => same,
        }
    }
}

} // verus!
