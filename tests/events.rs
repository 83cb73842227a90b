use caca::{
    event_from_fields, unpack_event, Event, Key, Mouse, MouseButton, RawEvent, EVENT_ANY,
    EVENT_KEY_PRESS, EVENT_KEY_RELEASE, EVENT_MOUSE_MOTION, EVENT_MOUSE_PRESS,
    EVENT_MOUSE_RELEASE, EVENT_NONE, EVENT_QUIT, EVENT_RESIZE, KEY_UNKNOWN,
};

fn record(tag: u32, fields: [i32; 3]) -> RawEvent {
    let mut data = [0u8; 16];
    for (i, f) in fields.iter().enumerate() {
        data[4 * i..4 * i + 4].copy_from_slice(&f.to_ne_bytes());
    }
    RawEvent { type_: tag, data }
}

#[test]
fn key_press_of_printable_and_control() {
    let ev = record(EVENT_KEY_PRESS, [0x61, 0x61, 0]);
    assert_eq!(unpack_event(&ev), Some(Event::KeyPress(Key::Char('a'))));
    let ev = record(EVENT_KEY_PRESS, [0x01, 0, 0]);
    assert_eq!(unpack_event(&ev), Some(Event::KeyPress(Key::Ctrl('a'))));
    let ev = record(EVENT_KEY_RELEASE, [0x1b, 0, 0]);
    assert_eq!(unpack_event(&ev), Some(Event::KeyRelease(Key::Escape)));
}

#[test]
fn mouse_press_right_button() {
    let ev = record(EVENT_MOUSE_PRESS, [10, 20, 2]);
    let expected = Mouse { button: MouseButton::Right, x: 10, y: 20 };
    assert_eq!(unpack_event(&ev), Some(Event::MousePress(expected)));
}

#[test]
fn mouse_buttons_and_shapes() {
    let ev = record(EVENT_MOUSE_RELEASE, [1, 2, 1]);
    let m = Mouse { button: MouseButton::Left, x: 1, y: 2 };
    assert_eq!(unpack_event(&ev), Some(Event::MouseRelease(m)));
    let ev = record(EVENT_MOUSE_MOTION, [-3, 4, 3]);
    let m = Mouse { button: MouseButton::Middle, x: -3, y: 4 };
    assert_eq!(unpack_event(&ev), Some(Event::MouseMotion(m)));
    let ev = record(EVENT_MOUSE_PRESS, [0, 0, 0]);
    let m = Mouse { button: MouseButton::Other(0), x: 0, y: 0 };
    assert_eq!(unpack_event(&ev), Some(Event::MousePress(m)));
    assert_eq!(MouseButton::from_code(7), MouseButton::Other(7));
}

#[test]
fn resize_record() {
    let ev = record(EVENT_RESIZE, [80, 24, 0]);
    assert_eq!(unpack_event(&ev), Some(Event::Resize(80, 24)));
}

#[test]
fn tags_without_payload() {
    assert_eq!(unpack_event(&record(EVENT_NONE, [1, 2, 3])), None);
    assert_eq!(unpack_event(&record(EVENT_QUIT, [1, 2, 3])), Some(Event::Quit));
    assert_eq!(unpack_event(&record(EVENT_ANY, [1, 2, 3])), Some(Event::Any));
    assert_eq!(unpack_event(&record(0x0080, [1, 2, 3])), Some(Event::Unknown(0x0080)));
    assert_eq!(unpack_event(&record(0x0003, [1, 2, 3])), Some(Event::Unknown(0x0003)));
}

#[test]
fn decoding_twice_gives_equal_events() {
    for tag in [EVENT_KEY_PRESS, EVENT_MOUSE_MOTION, EVENT_RESIZE, 0x1234] {
        let ev = record(tag, [0x41, -7, 2]);
        let copy = RawEvent { type_: ev.type_, data: ev.data };
        assert_eq!(unpack_event(&ev), unpack_event(&copy));
        assert_eq!(unpack_event(&ev), unpack_event(&ev));
    }
}

#[test]
fn fields_decode_like_records() {
    let key = event_from_fields(EVENT_KEY_PRESS, 0x61, 0, 0);
    assert_eq!(key, Some(Event::KeyPress(Key::Char('a'))));
    assert_eq!(
        event_from_fields(EVENT_MOUSE_PRESS, 10, 20, 2),
        Some(Event::MousePress(Mouse { button: MouseButton::Right, x: 10, y: 20 }))
    );
    assert_eq!(event_from_fields(EVENT_RESIZE, 80, 24, 0), Some(Event::Resize(80, 24)));
    let ev = record(EVENT_RESIZE, [256, 1, 0]);
    assert_eq!(unpack_event(&ev), Some(Event::Resize(256, 1)));
}

#[test]
fn key_codes_from_table() {
    assert_eq!(Key::from_code(0x08), Key::Backspace);
    assert_eq!(Key::from_code(0x09), Key::Tab);
    assert_eq!(Key::from_code(0x0d), Key::Return);
    assert_eq!(Key::from_code(0x13), Key::Pause);
    assert_eq!(Key::from_code(0x1a), Key::Ctrl('z'));
    assert_eq!(Key::from_code(0x7f), Key::Delete);
    assert_eq!(Key::from_code(0x111), Key::Up);
    assert_eq!(Key::from_code(0x119), Key::PageDown);
    assert_eq!(Key::from_code(0x11a), Key::Function(1));
    assert_eq!(Key::from_code(0x128), Key::Function(15));
}

#[test]
fn key_codes_outside_table() {
    assert_eq!(Key::from_code(KEY_UNKNOWN), Key::Unknown(0));
    assert_eq!(Key::from_code(0x20), Key::Char(' '));
    assert_eq!(Key::from_code(0xe9), Key::Char('é'));
    assert_eq!(Key::from_code(0x129), Key::Char('\u{129}'));
    assert_eq!(Key::from_code(0xD800), Key::Unknown(0xD800));
    assert_eq!(Key::from_code(0x110000), Key::Unknown(0x110000));
    assert_eq!(Key::from_code(-1), Key::Unknown(-1));
}
