use vstd::prelude::*;

use crate::keyboard::{key_of_code, Key};

verus! {

/// Event tags of the engine; as a mask they select which events a poll
/// waits for.
pub const EVENT_NONE: u32 = 0x0000;
pub const EVENT_KEY_PRESS: u32 = 0x0001;
pub const EVENT_KEY_RELEASE: u32 = 0x0002;
pub const EVENT_MOUSE_PRESS: u32 = 0x0004;
pub const EVENT_MOUSE_RELEASE: u32 = 0x0008;
pub const EVENT_MOUSE_MOTION: u32 = 0x0010;
pub const EVENT_RESIZE: u32 = 0x0020;
pub const EVENT_QUIT: u32 = 0x0040;
pub const EVENT_ANY: u32 = 0xffff;

#[derive(Clone, Copy, Debug, PartialEq, Eq, Structural)]
pub enum MouseButton {
    NoButton,
    Left,
    Right,
    Middle,
    Other(i32),
}

#[derive(Clone, Copy, Debug, PartialEq, Eq, Structural)]
pub struct Mouse {
    pub button: MouseButton,
    pub x: i32,
    pub y: i32,
}

#[derive(Clone, Copy, Debug, PartialEq, Eq, Structural)]
pub enum Event {
    KeyPress(Key),
    KeyRelease(Key),
    MousePress(Mouse),
    MouseRelease(Mouse),
    MouseMotion(Mouse),
    Resize(i32, i32),
    Quit,
    Any,
    Unknown(u32),
}

/// An event record as the engine fills it: a tag, and a payload whose shape
/// the tag decides. A key record is a code, a UTF-32 value and eight UTF-8
/// bytes; a mouse record is x, y and a button; a resize record is a width
/// and a height. Each field is a 32-bit integer in the machine's byte order.
#[derive(Clone, Copy, Debug)]
pub struct RawEvent {
    pub type_: u32,
    pub data: [u8; 16],
}

/// The integer whose in-memory representation on this machine is `b`.
pub uninterp spec fn native_i32(b: Seq<u8>) -> i32;

/// Relies on `i32::from_ne_bytes`: the integer whose memory representation
/// in the machine's byte order is the four bytes given.
#[verifier::external_body]
fn i32_from_native(b: [u8; 4]) -> (r: i32)
    ensures
        r == native_i32(b@),
{
    i32::from_ne_bytes(b)
}

/// The 32-bit field that starts at byte `at` of a payload.
pub open spec fn field_at(data: Seq<u8>, at: int) -> i32 {
    native_i32(data.subrange(at, at + 4))
}

pub open spec fn button_of(code: i32) -> MouseButton {
    if code == 1 {
        MouseButton::Left
    } else if code == 2 {
        MouseButton::Right
    } else if code == 3 {
        MouseButton::Middle
    } else {
        MouseButton::Other(code)
    }
}

/// The event that a record with this tag and these first three payload
/// fields stands for. A key record is read by its code alone, a mouse
/// record by x, y and button, a resize record by width and height; an
/// empty record is no event.
pub open spec fn event_of_fields(tag: u32, first: i32, second: i32, third: i32) -> Option<Event> {
    let mouse = Mouse { button: button_of(third), x: first, y: second };
    if tag == EVENT_NONE {
        None
    } else if tag == EVENT_KEY_PRESS {
        Some(Event::KeyPress(key_of_code(first)))
    } else if tag == EVENT_KEY_RELEASE {
        Some(Event::KeyRelease(key_of_code(first)))
    } else if tag == EVENT_MOUSE_PRESS {
        Some(Event::MousePress(mouse))
    } else if tag == EVENT_MOUSE_RELEASE {
        Some(Event::MouseRelease(mouse))
    } else if tag == EVENT_MOUSE_MOTION {
        Some(Event::MouseMotion(mouse))
    } else if tag == EVENT_RESIZE {
        Some(Event::Resize(first, second))
    } else if tag == EVENT_QUIT {
        Some(Event::Quit)
    } else if tag == EVENT_ANY {
        Some(Event::Any)
    } else {
        Some(Event::Unknown(tag))
    }
}

/// The event that a raw record stands for.
pub open spec fn event_of_raw(tag: u32, data: Seq<u8>) -> Option<Event> {
    event_of_fields(tag, field_at(data, 0), field_at(data, 4), field_at(data, 8))
}

impl MouseButton {
    /// The button that the engine's button number stands for.
    pub fn from_code(code: i32) -> (r: MouseButton)
        ensures
            r == button_of(code),
    {
        match code {
            1 => MouseButton::Left,
            2 => MouseButton::Right,
            3 => MouseButton::Middle,
            _ => MouseButton::Other(code),
        }
    }
}

/// Builds the event from a record's tag and its first three payload fields,
/// already read as integers.
pub fn event_from_fields(tag: u32, first: i32, second: i32, third: i32) -> (r: Option<Event>)
    ensures
        r == event_of_fields(tag, first, second, third),
{
    if tag == EVENT_NONE {
        None
    } else if tag == EVENT_KEY_PRESS {
        Some(Event::KeyPress(Key::from_code(first)))
    } else if tag == EVENT_KEY_RELEASE {
        Some(Event::KeyRelease(Key::from_code(first)))
    } else if tag == EVENT_MOUSE_PRESS || tag == EVENT_MOUSE_RELEASE || tag == EVENT_MOUSE_MOTION {
        let mouse = Mouse { button: MouseButton::from_code(third), x: first, y: second };
        if tag == EVENT_MOUSE_PRESS {
            Some(Event::MousePress(mouse))
        } else if tag == EVENT_MOUSE_RELEASE {
            Some(Event::MouseRelease(mouse))
        } else {
            Some(Event::MouseMotion(mouse))
        }
    } else if tag == EVENT_RESIZE {
        Some(Event::Resize(first, second))
    } else if tag == EVENT_QUIT {
        Some(Event::Quit)
    } else if tag == EVENT_ANY {
        Some(Event::Any)
    } else {
        Some(Event::Unknown(tag))
    }
}

/// Reads the 32-bit field that starts at byte `at` of a payload.
fn read_field(data: &[u8; 16], at: usize) -> (r: i32)
    requires
        at <= 12,
    ensures
        r == field_at(data@, at as int),
{
    let bytes: [u8; 4] = [data[at], data[at + 1], data[at + 2], data[at + 3]];
    assert(bytes@ =~= data@.subrange(at as int, at as int + 4));
    i32_from_native(bytes)
}

/// Decodes a raw record into an event. Decoding never fails: a tag outside
/// the known set gives `Event::Unknown` with that tag.
pub fn unpack_event(event: &RawEvent) -> (r: Option<Event>)
    ensures
        r == event_of_raw(event.type_, event.data@),
{
    let first = read_field(&event.data, 0);
    let second = read_field(&event.data, 4);
    let third = read_field(&event.data, 8);
    event_from_fields(event.type_, first, second, third)
}

/// Decoding depends on the tag and the payload alone: two records that
/// agree on both decode to the same event.
pub proof fn lemma_decode_deterministic(a: RawEvent, b: RawEvent)
    requires
        a.type_ == b.type_,
        a.data@ == b.data@,
    ensures
        event_of_raw(a.type_, a.data@) == event_of_raw(b.type_, b.data@),
{
}

} // verus!
