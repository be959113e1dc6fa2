use x11_events::control::{lookup_step, stops_after, LookupStep, INIT_BUFF_SIZE};
use x11_events::device::{Device, ScrollAxis};
use x11_events::dispatch::Dispatch;
use x11_events::event::{
    ControlFlow, DeviceEvent, ElementState, Event, KeyboardInput, LineDelta, ModifiersState,
    MouseButton, Point, Touch, TouchPhase, WindowEvent,
};
use x11_events::events_loop::{Action, EventsLoop};
use x11_events::ids::{mkdid, mkwid, DeviceId, EventsLoopClosed, WindowId};
use x11_events::native::{
    DeviceClass, DeviceInfo, HierarchyChange, NativeEvent, ScrollOrientation, Valuators, XiEvent,
    XI_MASTER_ADDED, XI_SLAVE_ADDED, XI_SLAVE_POINTER, XI_SLAVE_REMOVED,
};

const DELETE: u64 = 99;
const OPCODE: i32 = 131;
const DUMMY: u64 = 7;
const WIN: u64 = 0x400001;
const ONE: i64 = 1 << 32;

fn new_loop() -> EventsLoop {
    let mut lp = EventsLoop::new(DELETE, OPCODE, DUMMY);
    lp.register_window(WindowId(WIN), false);
    lp
}

fn run(lp: &mut EventsLoop, ev: NativeEvent) -> Dispatch {
    let mut pending = false;
    lp.process_event(&ev, &mut pending)
}

fn xi(event: XiEvent) -> NativeEvent {
    NativeEvent::Generic { extension: OPCODE, event }
}

fn we(e: WindowEvent) -> Event {
    Event::WindowEvent { window_id: WindowId(WIN), event: e }
}

fn configure(x: i32, y: i32, width: i32, height: i32) -> NativeEvent {
    NativeEvent::Configure { window: WIN, x, y, width, height }
}

fn mouse(name: &str, vertical: i32, horizontal: i32, v: i64, h: i64) -> DeviceInfo {
    DeviceInfo {
        deviceid: 11,
        name: name.to_string(),
        device_use: XI_SLAVE_POINTER,
        classes: vec![
            DeviceClass::Scroll { number: vertical, orientation: ScrollOrientation::Vertical, increment: ONE },
            DeviceClass::Scroll { number: horizontal, orientation: ScrollOrientation::Horizontal, increment: 2 * ONE },
            DeviceClass::Valuator { number: vertical, value: v },
            DeviceClass::Valuator { number: horizontal, value: h },
        ],
    }
}

fn motion(mask: Vec<u8>, values: Vec<i64>) -> NativeEvent {
    xi(XiEvent::Motion { window: WIN, device: 2, source: 11, x: 5 << 16, y: 6 << 16, valuators: Valuators { mask, values } })
}

#[test]
fn first_geometry_reports_resize_then_move_and_repeat_is_silent() {
    let mut lp = new_loop();
    let r = run(&mut lp, configure(10, 10, 800, 600));
    assert_eq!(r.events, vec![we(WindowEvent::Resized(800, 600)), we(WindowEvent::Moved(10, 10))]);
    let r = run(&mut lp, configure(10, 10, 800, 600));
    assert!(r.events.is_empty());
}

#[test]
fn geometry_reports_only_what_changed() {
    let mut lp = new_loop();
    run(&mut lp, configure(10, 10, 800, 600));
    let r = run(&mut lp, configure(10, 10, 640, 600));
    assert_eq!(r.events, vec![we(WindowEvent::Resized(640, 600))]);
    let r = run(&mut lp, configure(20, 10, 640, 600));
    assert_eq!(r.events, vec![we(WindowEvent::Moved(20, 10))]);
}

#[test]
fn two_wakeups_give_one_awakened() {
    let mut lp = new_loop();
    let proxy = lp.create_proxy();
    let mut flag = Some(false);
    assert_eq!(proxy.wakeup(&mut flag, true), Ok(WindowId(DUMMY)));
    assert_eq!(proxy.wakeup(&mut flag, true), Ok(WindowId(DUMMY)));
    let mut pending = flag.unwrap();
    let msg = NativeEvent::ClientMessage { window: DUMMY, data0: 0 };
    let r = lp.process_event(&msg, &mut pending);
    assert_eq!(r.events, vec![Event::Awakened]);
    assert!(!pending);
    let r = lp.process_event(&msg, &mut pending);
    assert!(r.events.is_empty());
}

#[test]
fn wakeup_on_closed_loop_reports_closed() {
    let proxy = new_loop().create_proxy();
    let mut gone: Option<bool> = None;
    assert_eq!(proxy.wakeup(&mut gone, true), Err(EventsLoopClosed));
    assert_eq!(gone, None);
    let mut flag = Some(false);
    assert_eq!(proxy.wakeup(&mut flag, false), Err(EventsLoopClosed));
    assert_eq!(flag, Some(false));
}

#[test]
fn delete_message_closes_window() {
    let mut lp = new_loop();
    let mut pending = true;
    let r = lp.process_event(&NativeEvent::ClientMessage { window: WIN, data0: DELETE }, &mut pending);
    assert_eq!(r.events, vec![we(WindowEvent::Closed)]);
    assert!(pending);
}

#[test]
fn scroll_axes_give_line_deltas() {
    let mut lp = new_loop();
    let acts = lp.init_device(&vec![mouse("mouse", 2, 3, 10 * ONE, 4 * ONE)]);
    assert_eq!(acts, vec![Action::SelectRawEvents(DeviceId(11))]);
    // axes 2 and 3 set, then axis 0 (not a scroll axis)
    let r = run(&mut lp, motion(vec![0b0000_1101], vec![7, 13 * ONE, 8 * ONE]));
    let did = DeviceId(2);
    assert_eq!(
        r.events,
        vec![
            we(WindowEvent::MouseMoved { device_id: did, position: Point { x: 5 << 16, y: 6 << 16 } }),
            we(WindowEvent::AxisMotion { device_id: did, axis: 0, value: 7 }),
            we(WindowEvent::MouseWheel { device_id: did, delta: LineDelta { x: 0, y: -3 * ONE as i128, unit: ONE }, phase: TouchPhase::Moved }),
            we(WindowEvent::MouseWheel { device_id: did, delta: LineDelta { x: 4 * ONE as i128, y: 0, unit: 2 * ONE }, phase: TouchPhase::Moved }),
        ]
    );
    // same position: no pointer motion; delta from the recorded value
    let r = run(&mut lp, motion(vec![0b0000_0100], vec![12 * ONE]));
    assert_eq!(
        r.events,
        vec![we(WindowEvent::MouseWheel { device_id: did, delta: LineDelta { x: 0, y: ONE as i128, unit: ONE }, phase: TouchPhase::Moved })]
    );
}

#[test]
fn enter_resyncs_scroll_baseline() {
    let mut lp = new_loop();
    lp.init_device(&vec![mouse("mouse", 2, 3, 10 * ONE, 0)]);
    let infos = vec![mouse("mouse", 2, 3, 50 * ONE, 0)];
    let r = run(&mut lp, xi(XiEvent::Enter { window: WIN, device: 2, source: 11, infos }));
    assert_eq!(r.events, vec![we(WindowEvent::MouseEntered { device_id: DeviceId(2) })]);
    let r = run(&mut lp, motion(vec![0b0000_0100], vec![51 * ONE]));
    assert_eq!(
        r.events[1],
        we(WindowEvent::MouseWheel { device_id: DeviceId(2), delta: LineDelta { x: 0, y: -(ONE as i128), unit: ONE }, phase: TouchPhase::Moved })
    );
}

#[test]
fn wheel_buttons_map_to_line_steps() {
    let mut lp = new_loop();
    let steps = [(4, 0, 1), (5, 0, -1), (6, -1, 0), (7, 1, 0)];
    for (detail, x, y) in steps {
        let r = run(&mut lp, xi(XiEvent::Button { pressed: true, window: WIN, device: 2, detail, emulated: false }));
        assert_eq!(
            r.events,
            vec![we(WindowEvent::MouseWheel { device_id: DeviceId(2), delta: LineDelta { x, y, unit: 1 }, phase: TouchPhase::Moved })]
        );
        let r = run(&mut lp, xi(XiEvent::Button { pressed: true, window: WIN, device: 2, detail, emulated: true }));
        assert!(r.events.is_empty());
    }
}

#[test]
fn mouse_buttons_and_multitouch_suppression() {
    let mut lp = new_loop();
    let b = |detail: i32| xi(XiEvent::Button { pressed: false, window: WIN, device: 2, detail, emulated: false });
    let click = |button: MouseButton| we(WindowEvent::MouseInput { device_id: DeviceId(2), state: ElementState::Released, button });
    assert_eq!(run(&mut lp, b(1)).events, vec![click(MouseButton::Left)]);
    assert_eq!(run(&mut lp, b(2)).events, vec![click(MouseButton::Middle)]);
    assert_eq!(run(&mut lp, b(3)).events, vec![click(MouseButton::Right)]);
    assert_eq!(run(&mut lp, b(9)).events, vec![click(MouseButton::Other(9))]);
    lp.register_window(WindowId(WIN), true);
    let emulated = xi(XiEvent::Button { pressed: true, window: WIN, device: 2, detail: 1, emulated: true });
    assert!(run(&mut lp, emulated).events.is_empty());
}

#[test]
fn device_hotplug_updates_registry() {
    let mut lp = new_loop();
    let removed = HierarchyChange { deviceid: 11, flags: XI_SLAVE_REMOVED, infos: vec![] };
    let r = run(&mut lp, xi(XiEvent::Hierarchy { changes: vec![removed.clone()] }));
    assert_eq!(r.events, vec![Event::DeviceEvent { device_id: DeviceId(11), event: DeviceEvent::Removed }]);
    assert!(!lp.has_device(DeviceId(11)));
    let added = HierarchyChange { deviceid: 11, flags: XI_SLAVE_ADDED, infos: vec![mouse("m", 2, 3, 0, 0)] };
    let r = run(&mut lp, xi(XiEvent::Hierarchy { changes: vec![added] }));
    assert_eq!(r.events, vec![Event::DeviceEvent { device_id: DeviceId(11), event: DeviceEvent::Added }]);
    assert_eq!(r.actions, vec![Action::SelectRawEvents(DeviceId(11))]);
    assert!(lp.has_device(DeviceId(11)));
    run(&mut lp, xi(XiEvent::Hierarchy { changes: vec![removed] }));
    assert!(!lp.has_device(DeviceId(11)));
    let master = HierarchyChange { deviceid: 12, flags: XI_MASTER_ADDED, infos: vec![DeviceInfo { deviceid: 12, name: "core".to_string(), device_use: 1, classes: vec![] }] };
    let r = run(&mut lp, xi(XiEvent::Hierarchy { changes: vec![master] }));
    assert!(r.actions.is_empty());
    assert!(lp.has_device(DeviceId(12)));
}

#[test]
fn key_press_reports_key_then_text() {
    let mut lp = new_loop();
    let text = "hé".as_bytes().to_vec();
    let r = run(&mut lp, NativeEvent::Key { window: WIN, pressed: true, keycode: 38, state: 1 | 4 | 8 | 64, symbol: Some(97), text });
    let input = KeyboardInput {
        scancode: 30,
        state: ElementState::Pressed,
        virtual_keycode: Some(97),
        modifiers: ModifiersState { shift: true, ctrl: true, alt: true, logo: true },
    };
    assert_eq!(
        r.events,
        vec![
            we(WindowEvent::KeyboardInput { device_id: DeviceId(3), input }),
            we(WindowEvent::ReceivedCharacter('h')),
            we(WindowEvent::ReceivedCharacter('é')),
        ]
    );
}

#[test]
fn invalid_text_gives_no_characters_and_release_gives_none() {
    let mut lp = new_loop();
    let r = run(&mut lp, NativeEvent::Key { window: WIN, pressed: true, keycode: 8, state: 0, symbol: None, text: vec![0xff, 0x41] });
    assert_eq!(r.events.len(), 1);
    let r = run(&mut lp, NativeEvent::Key { window: WIN, pressed: false, keycode: 9, state: 2, symbol: None, text: vec![0x41] });
    let input = KeyboardInput { scancode: 1, state: ElementState::Released, virtual_keycode: None, modifiers: ModifiersState { shift: false, ctrl: false, alt: false, logo: false } };
    assert_eq!(r.events, vec![we(WindowEvent::KeyboardInput { device_id: DeviceId(3), input })]);
}

#[test]
fn simple_window_events() {
    let mut lp = new_loop();
    assert_eq!(run(&mut lp, NativeEvent::Expose { window: WIN }).events, vec![we(WindowEvent::Refresh)]);
    let r = run(&mut lp, NativeEvent::MappingNotify);
    assert!(r.events.is_empty());
    assert_eq!(r.actions, vec![Action::RefreshKeyboardMapping]);
    let r = run(&mut lp, xi(XiEvent::FocusIn { window: WIN }));
    assert_eq!((r.events, r.actions), (vec![we(WindowEvent::Focused(true))], vec![Action::SetIcFocus(WindowId(WIN))]));
    let r = run(&mut lp, xi(XiEvent::FocusOut { window: WIN }));
    assert_eq!((r.events, r.actions), (vec![we(WindowEvent::Focused(false))], vec![Action::UnsetIcFocus(WindowId(WIN))]));
    let r = run(&mut lp, xi(XiEvent::Leave { window: WIN, device: 2 }));
    assert_eq!(r.events, vec![we(WindowEvent::MouseLeft { device_id: DeviceId(2) })]);
    let r = run(&mut lp, xi(XiEvent::Touch { phase: TouchPhase::Started, window: WIN, device: 4, detail: 17, x: 1, y: 2 }));
    let touch = Touch { device_id: DeviceId(4), phase: TouchPhase::Started, location: Point { x: 1, y: 2 }, id: 17 };
    assert_eq!(r.events, vec![we(WindowEvent::Touch(touch))]);
    assert!(run(&mut lp, NativeEvent::Other).events.is_empty());
}

#[test]
fn other_extension_is_ignored() {
    let mut lp = new_loop();
    let ev = NativeEvent::Generic { extension: OPCODE + 1, event: XiEvent::FocusIn { window: WIN } };
    let r = run(&mut lp, ev);
    assert!(r.events.is_empty() && r.actions.is_empty());
}

#[test]
fn raw_device_events() {
    let mut lp = new_loop();
    let dev = |e: DeviceEvent| Event::DeviceEvent { device_id: DeviceId(5), event: e };
    let r = run(&mut lp, xi(XiEvent::RawButton { pressed: true, device: 5, detail: 3, emulated: false }));
    assert_eq!(r.events, vec![dev(DeviceEvent::Button { button: 3, state: ElementState::Pressed })]);
    assert!(run(&mut lp, xi(XiEvent::RawButton { pressed: true, device: 5, detail: 3, emulated: true })).events.is_empty());
    let r = run(&mut lp, xi(XiEvent::RawMotion { device: 5, valuators: Valuators { mask: vec![0b10, 0b1], values: vec![-4, 9] } }));
    assert_eq!(r.events, vec![dev(DeviceEvent::Motion { axis: 1, value: -4 }), dev(DeviceEvent::Motion { axis: 8, value: 9 })]);
    let r = run(&mut lp, xi(XiEvent::RawKey { pressed: false, device: 5, detail: 36, symbol: Some(13) }));
    let input = KeyboardInput { scancode: 28, state: ElementState::Released, virtual_keycode: Some(13), modifiers: ModifiersState { shift: false, ctrl: false, alt: false, logo: false } };
    assert_eq!(r.events, vec![dev(DeviceEvent::Key(input))]);
}

#[test]
fn device_discovery_reads_scroll_axes() {
    let d = Device::new(&mouse("pad", 2, 3, 5, 6));
    assert_eq!(d.name, "pad");
    assert_eq!(
        d.scroll_axes,
        vec![
            (2, ScrollAxis { increment: ONE, orientation: ScrollOrientation::Vertical, position: 5 }),
            (3, ScrollAxis { increment: 2 * ONE, orientation: ScrollOrientation::Horizontal, position: 6 }),
        ]
    );
    let mut virt = mouse("core", 2, 3, 5, 6);
    virt.device_use = 1;
    assert!(Device::new(&virt).scroll_axes.is_empty());
}

#[test]
fn xim_spot_updates_only_on_change() {
    let mut lp = new_loop();
    assert!(!lp.send_xim_spot(WindowId(WIN), 0, 0));
    assert!(lp.send_xim_spot(WindowId(WIN), 3, 4));
    assert!(!lp.send_xim_spot(WindowId(WIN), 3, 4));
    assert!(lp.unregister_window(WindowId(WIN)));
    assert!(!lp.has_window(WindowId(WIN)));
    assert!(!lp.unregister_window(WindowId(WIN)));
}

#[test]
fn text_buffer_is_retried_once() {
    assert_eq!(INIT_BUFF_SIZE, 16);
    assert_eq!(lookup_step(true, true, 40, 16), LookupStep::Retry(40));
    assert_eq!(lookup_step(false, true, 40, 40), LookupStep::Done(40));
    assert_eq!(lookup_step(true, false, 3, 16), LookupStep::Done(3));
    assert_eq!(lookup_step(false, false, 50, 40), LookupStep::Done(40));
    assert_eq!(lookup_step(true, false, -1, 16), LookupStep::Done(0));
}

#[test]
fn blocking_loop_stops_on_break() {
    assert!(!stops_after(&vec![]));
    assert!(!stops_after(&vec![ControlFlow::Continue]));
    assert!(stops_after(&vec![ControlFlow::Continue, ControlFlow::Break]));
}

#[test]
fn identifiers_wrap_native_values() {
    assert_eq!(mkwid(42), WindowId(42));
    assert_eq!(mkdid(-1), DeviceId(-1));
}
