use vstd::prelude::*;
use vstd::utf8::{decode_utf8, valid_utf8};

use crate::device::{find_axis, has_axis, is_first_axis, lemma_first_axis_unique, set_position, with_position, ScrollAxis};
use crate::event::{
    DeviceEvent, ElementState, Event, LineDelta, ModifiersState, MouseButton, TouchPhase,
    WindowEvent,
};
use crate::ids::{DeviceId, WindowId};
use crate::native::{ScrollOrientation, CONTROL_MASK, MOD1_MASK, MOD4_MASK, SHIFT_MASK};

verus! {

/// Pressed or released, from a flag.
pub open spec fn state_of(pressed: bool) -> ElementState {
    if pressed {
        ElementState::Pressed
    } else {
        ElementState::Released
    }
}

/// The modifiers held according to a core key state mask.
pub open spec fn modifiers_spec(state: u32) -> ModifiersState {
    ModifiersState {
        shift: state & SHIFT_MASK != 0,
        ctrl: state & CONTROL_MASK != 0,
        alt: state & MOD1_MASK != 0,
        logo: state & MOD4_MASK != 0,
    }
}

/// Decodes the modifiers held according to a core key state mask.
pub fn modifiers_of(state: u32) -> (r: ModifiersState)
    ensures
        r == modifiers_spec(state),
{
    ModifiersState {
        shift: state & SHIFT_MASK != 0,
        ctrl: state & CONTROL_MASK != 0,
        alt: state & MOD1_MASK != 0,
        logo: state & MOD4_MASK != 0,
    }
}

/// The line delta of a wheel button: 4 up, 5 down, 6 left, 7 right.
pub open spec fn wheel_button_delta(detail: i32) -> LineDelta {
    if detail == 4 {
        LineDelta { x: 0, y: 1, unit: 1 }
    } else if detail == 5 {
        LineDelta { x: 0, y: -1i128, unit: 1 }
    } else if detail == 6 {
        LineDelta { x: -1i128, y: 0, unit: 1 }
    } else {
        LineDelta { x: 1, y: 0, unit: 1 }
    }
}

/// A window event of the given window.
pub open spec fn win(w: u64, e: WindowEvent) -> Event {
    Event::WindowEvent { window_id: WindowId(w), event: e }
}

/// A device event of the given device.
pub open spec fn dev(d: i32, e: DeviceEvent) -> Event {
    Event::DeviceEvent { device_id: DeviceId(d), event: e }
}

/// The events of a pointer button, leaving aside the multi-touch suppression:
/// buttons 1, 2, 3 are left, middle, right; 4 to 7 are wheel steps unless
/// emulated; others are numbered buttons.
pub open spec fn button_events(w: u64, d: i32, pressed: bool, detail: i32, emulated: bool) -> Seq<
    Event,
> {
    let did = DeviceId(d);
    let state = state_of(pressed);
    if detail == 1 {
        seq![win(w, WindowEvent::MouseInput { device_id: did, state, button: MouseButton::Left })]
    } else if detail == 2 {
        seq![win(w, WindowEvent::MouseInput { device_id: did, state, button: MouseButton::Middle })]
    } else if detail == 3 {
        seq![win(w, WindowEvent::MouseInput { device_id: did, state, button: MouseButton::Right })]
    } else if 4 <= detail <= 7 {
        if emulated {
            seq![]
        } else {
            seq![
                win(
                    w,
                    WindowEvent::MouseWheel {
                        device_id: did,
                        delta: wheel_button_delta(detail),
                        phase: TouchPhase::Moved,
                    },
                ),
            ]
        }
    } else {
        seq![
            win(
                w,
                WindowEvent::MouseInput {
                    device_id: did,
                    state,
                    button: MouseButton::Other(detail as u8),
                },
            ),
        ]
    }
}

/// Translates a pointer button event.
pub fn button_event(w: u64, d: i32, pressed: bool, detail: i32, emulated: bool) -> (r: Vec<Event>)
    ensures
        r@ == button_events(w, d, pressed, detail, emulated),
{
    let did = DeviceId(d);
    let state = if pressed {
        ElementState::Pressed
    } else {
        ElementState::Released
    };
    let window_id = WindowId(w);
    let mut r: Vec<Event> = Vec::new();
    if detail == 1 {
        r.push(Event::WindowEvent { window_id, event: WindowEvent::MouseInput { device_id: did, state, button: MouseButton::Left } });
    } else if detail == 2 {
        r.push(Event::WindowEvent { window_id, event: WindowEvent::MouseInput { device_id: did, state, button: MouseButton::Middle } });
    } else if detail == 3 {
        r.push(Event::WindowEvent { window_id, event: WindowEvent::MouseInput { device_id: did, state, button: MouseButton::Right } });
    } else if 4 <= detail && detail <= 7 {
        if !emulated {
            let delta = if detail == 4 {
                LineDelta { x: 0, y: 1, unit: 1 }
            } else if detail == 5 {
                LineDelta { x: 0, y: -1, unit: 1 }
            } else if detail == 6 {
                LineDelta { x: -1, y: 0, unit: 1 }
            } else {
                LineDelta { x: 1, y: 0, unit: 1 }
            };
            r.push(Event::WindowEvent { window_id, event: WindowEvent::MouseWheel { device_id: did, delta, phase: TouchPhase::Moved } });
        }
    } else {
        r.push(Event::WindowEvent { window_id, event: WindowEvent::MouseInput { device_id: did, state, button: MouseButton::Other(detail as u8) } });
    }
    assert(r@ =~= button_events(w, d, pressed, detail, emulated));
    r
}

/// The wheel delta of a scroll axis moving to raw value `value`: the change
/// over the increment, up positive for vertical axes (the raw vertical
/// coordinate grows downwards), right positive for horizontal ones.
pub open spec fn scroll_delta(axis: ScrollAxis, value: i64) -> LineDelta {
    let d = value - axis.position;
    match axis.orientation {
        ScrollOrientation::Horizontal => LineDelta { x: d as i128, y: 0, unit: axis.increment },
        ScrollOrientation::Vertical => LineDelta { x: 0, y: (-d) as i128, unit: axis.increment },
    }
}

/// Computes the wheel delta of a scroll axis moving to raw value `value`.
pub fn scroll_delta_of(axis: ScrollAxis, value: i64) -> (r: LineDelta)
    ensures
        r == scroll_delta(axis, value),
{
    let d: i128 = value as i128 - axis.position as i128;
    match axis.orientation {
        ScrollOrientation::Horizontal => LineDelta { x: d, y: 0, unit: axis.increment },
        ScrollOrientation::Vertical => LineDelta { x: 0, y: -d, unit: axis.increment },
    }
}

/// The first entry of `axes` numbered `n`, where there is one.
pub open spec fn first_axis(axes: Seq<(i32, ScrollAxis)>, n: i32) -> int {
    choose|j: int| is_first_axis(axes, j, n)
}

/// The events of the valuators of a window-scoped motion, and the scroll axes
/// after it: a calibrated scroll axis gives a wheel event and records its new
/// position; any other axis gives a raw axis event.
pub open spec fn motion_fold(
    w: u64,
    d: i32,
    axes: Seq<(i32, ScrollAxis)>,
    pairs: Seq<(i32, i64)>,
) -> (Seq<Event>, Seq<(i32, ScrollAxis)>)
    decreases pairs.len(),
{
    if pairs.len() == 0 {
        (Seq::empty(), axes)
    } else {
        let (evs, ax) = motion_fold(w, d, axes, pairs.drop_last());
        let (n, v) = pairs.last();
        if has_axis(ax, n) {
            let a = ax[first_axis(ax, n)].1;
            (
                evs.push(
                    win(
                        w,
                        WindowEvent::MouseWheel {
                            device_id: DeviceId(d),
                            delta: scroll_delta(a, v),
                            phase: TouchPhase::Moved,
                        },
                    ),
                ),
                with_position(ax, n, v),
            )
        } else {
            (
                evs.push(
                    win(
                        w,
                        WindowEvent::AxisMotion { device_id: DeviceId(d), axis: n as u32, value: v },
                    ),
                ),
                ax,
            )
        }
    }
}

/// Translates the valuators of a window-scoped motion, updating the scroll
/// axes of the source device.
pub fn motion_valuators(
    w: u64,
    d: i32,
    axes: &mut Vec<(i32, ScrollAxis)>,
    pairs: &Vec<(i32, i64)>,
) -> (r: Vec<Event>)
    ensures
        (r@, final(axes)@) == motion_fold(w, d, old(axes)@, pairs@),
{
    let ghost start = axes@;
    let mut r: Vec<Event> = Vec::new();
    let mut i: usize = 0;
    while i < pairs.len()
        invariant
            i <= pairs@.len(),
            start == old(axes)@,
            (r@, axes@) == motion_fold(w, d, start, pairs@.take(i as int)),
        decreases pairs@.len() - i,
    {
        proof {
            assert(pairs@.take(i + 1).drop_last() =~= pairs@.take(i as int));
        }
        let (n, v) = pairs[i];
        match find_axis(axes, n) {
            Some(j) => {
                proof {
                    let k = first_axis(axes@, n);
                    assert(is_first_axis(axes@, k, n));
                    lemma_first_axis_unique(axes@, k, j as int, n);
                }
                let delta = scroll_delta_of(axes[j].1, v);
                r.push(Event::WindowEvent { window_id: WindowId(w), event: WindowEvent::MouseWheel { device_id: DeviceId(d), delta, phase: TouchPhase::Moved } });
                set_position(axes, n, v);
            },
            None => {
                r.push(Event::WindowEvent { window_id: WindowId(w), event: WindowEvent::AxisMotion { device_id: DeviceId(d), axis: n as u32, value: v } });
            },
        }
        i = i + 1;
    }
    assert(pairs@.take(pairs@.len() as int) =~= pairs@);
    r
}

/// The raw motion events of a device: one per active axis, with its value.
pub open spec fn raw_motion_events(d: i32, pairs: Seq<(i32, i64)>) -> Seq<Event> {
    Seq::new(
        pairs.len(),
        |k: int| dev(d, DeviceEvent::Motion { axis: pairs[k].0 as u32, value: pairs[k].1 }),
    )
}

/// Translates the valuators of a raw motion.
pub fn raw_motion(d: i32, pairs: &Vec<(i32, i64)>) -> (r: Vec<Event>)
    ensures
        r@ == raw_motion_events(d, pairs@),
{
    let mut r: Vec<Event> = Vec::new();
    let mut i: usize = 0;
    while i < pairs.len()
        invariant
            i <= pairs@.len(),
            r@ =~= raw_motion_events(d, pairs@.take(i as int)),
        decreases pairs@.len() - i,
    {
        let (n, v) = pairs[i];
        r.push(Event::DeviceEvent { device_id: DeviceId(d), event: DeviceEvent::Motion { axis: n as u32, value: v } });
        i = i + 1;
    }
    assert(pairs@.take(pairs@.len() as int) =~= pairs@);
    r
}

/// Relies on std::str::from_utf8: it accepts exactly the well-formed UTF-8
/// byte sequences, and the text it returns is their decoding.
#[verifier::external_body]
fn utf8_chars(b: &[u8]) -> (r: Option<Vec<char>>)
    ensures
        match r {
            Some(c) => valid_utf8(b@) && c@ == decode_utf8(b@),
            None => !valid_utf8(b@),
        },
{
    match std::str::from_utf8(b) {
        Ok(s) => Some(s.chars().collect()),
        Err(_) => None,
    }
}

/// Composed text: its decoding, or nothing where it is not valid UTF-8.
pub open spec fn composed_text(b: Seq<u8>) -> Seq<char> {
    if valid_utf8(b) {
        decode_utf8(b)
    } else {
        Seq::empty()
    }
}

/// One character event for each character, in order.
pub open spec fn char_events_spec(w: u64, t: Seq<char>) -> Seq<Event>
    decreases t.len(),
{
    if t.len() == 0 {
        Seq::empty()
    } else {
        char_events_spec(w, t.drop_last()).push(win(w, WindowEvent::ReceivedCharacter(t.last())))
    }
}

/// One character event for each character of the composed text, in order.
pub open spec fn text_events(w: u64, b: Seq<u8>) -> Seq<Event> {
    char_events_spec(w, composed_text(b))
}

/// The event of one received character.
fn char_event(w: u64, c: char) -> (e: Event)
    ensures
        e == win(w, WindowEvent::ReceivedCharacter(c)),
{
    Event::WindowEvent { window_id: WindowId(w), event: WindowEvent::ReceivedCharacter(c) }
}

/// One character event for each character, in order.
fn char_events(w: u64, chars: &Vec<char>) -> (r: Vec<Event>)
    ensures
        r@ == char_events_spec(w, chars@),
{
    let mut r: Vec<Event> = Vec::new();
    let mut i: usize = 0;
    while i < chars.len()
        invariant
            i <= chars@.len(),
            r@ == char_events_spec(w, chars@.take(i as int)),
        decreases chars@.len() - i,
    {
        let c: char = chars[i];
        proof {
            assert(chars@.take(i + 1).drop_last() =~= chars@.take(i as int));
        }
        let e = char_event(w, c);
        r.push(e);
        i = i + 1;
    }
    assert(chars@.take(chars@.len() as int) =~= chars@);
    r
}

/// Translates composed text into character events.
pub fn text_events_of(w: u64, b: &Vec<u8>) -> (r: Vec<Event>)
    ensures
        r@ == text_events(w, b@),
{
    let chars = match utf8_chars(b.as_slice()) {
        Some(c) => c,
        None => Vec::new(),
    };
    let r = char_events(w, &chars);
    assert(r@ =~= text_events(w, b@));
    r
}

} // verus!
