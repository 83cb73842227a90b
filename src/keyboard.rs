use vstd::prelude::*;

verus! {

/// A key as the engine reports it: a named key, a control chord, a function
/// key, a printable character, or a code with no meaning here.
#[derive(Clone, Copy, Debug, PartialEq, Eq, Hash, Structural)]
pub enum Key {
    Backspace,
    Tab,
    Return,
    Pause,
    Escape,
    Delete,
    Up,
    Down,
    Left,
    Right,
    Insert,
    Home,
    End,
    PageUp,
    PageDown,
    Char(char),
    Ctrl(char),
    Function(u32),
    Unknown(i32),
}

/// The engine's code for "no key".
pub const KEY_UNKNOWN: i32 = 0x00;

/// Whether `v` is a Unicode scalar value, that is, the value of some `char`.
pub open spec fn is_unicode_scalar(v: u32) -> bool {
    v <= 0xD7FF || (0xE000 <= v && v <= 0x10FFFF)
}

/// The engine's fixed table of key codes. Control chords take the codes 1 to
/// 26 that no named key uses; the arrows, the navigation keys and the
/// function keys 1 to 15 follow 0x110.
pub open spec fn table_key(code: i32) -> Option<Key> {
    match code {
        0x001 => Some(Key::Ctrl('a')),
        0x002 => Some(Key::Ctrl('b')),
        0x003 => Some(Key::Ctrl('c')),
        0x004 => Some(Key::Ctrl('d')),
        0x005 => Some(Key::Ctrl('e')),
        0x006 => Some(Key::Ctrl('f')),
        0x007 => Some(Key::Ctrl('g')),
        0x008 => Some(Key::Backspace),
        0x009 => Some(Key::Tab),
        0x00a => Some(Key::Ctrl('j')),
        0x00b => Some(Key::Ctrl('k')),
        0x00c => Some(Key::Ctrl('l')),
        0x00d => Some(Key::Return),
        0x00e => Some(Key::Ctrl('n')),
        0x00f => Some(Key::Ctrl('o')),
        0x010 => Some(Key::Ctrl('p')),
        0x011 => Some(Key::Ctrl('q')),
        0x012 => Some(Key::Ctrl('r')),
        0x013 => Some(Key::Pause),
        0x014 => Some(Key::Ctrl('t')),
        0x015 => Some(Key::Ctrl('u')),
        0x016 => Some(Key::Ctrl('v')),
        0x017 => Some(Key::Ctrl('w')),
        0x018 => Some(Key::Ctrl('x')),
        0x019 => Some(Key::Ctrl('y')),
        0x01a => Some(Key::Ctrl('z')),
        0x01b => Some(Key::Escape),
        0x07f => Some(Key::Delete),
        0x111 => Some(Key::Up),
        0x112 => Some(Key::Down),
        0x113 => Some(Key::Left),
        0x114 => Some(Key::Right),
        0x115 => Some(Key::Insert),
        0x116 => Some(Key::Home),
        0x117 => Some(Key::End),
        0x118 => Some(Key::PageUp),
        0x119 => Some(Key::PageDown),
        0x11a => Some(Key::Function(1)),
        0x11b => Some(Key::Function(2)),
        0x11c => Some(Key::Function(3)),
        0x11d => Some(Key::Function(4)),
        0x11e => Some(Key::Function(5)),
        0x11f => Some(Key::Function(6)),
        0x120 => Some(Key::Function(7)),
        0x121 => Some(Key::Function(8)),
        0x122 => Some(Key::Function(9)),
        0x123 => Some(Key::Function(10)),
        0x124 => Some(Key::Function(11)),
        0x125 => Some(Key::Function(12)),
        0x126 => Some(Key::Function(13)),
        0x127 => Some(Key::Function(14)),
        0x128 => Some(Key::Function(15)),
        _ => None,
    }
}

/// The key that `code` stands for: the table's entry where it has one;
/// otherwise the character with that value where the code is a Unicode
/// scalar value other than the "no key" code; otherwise `Unknown(code)`.
pub open spec fn key_of_code(code: i32) -> Key {
    match table_key(code) {
        Some(k) => k,
        None => if code != KEY_UNKNOWN && is_unicode_scalar(code as u32) {
            Key::Char((code as u32) as char)
        } else {
            Key::Unknown(code)
        },
    }
}

/// Relies on `char::from_u32`: it returns the `char` of that value exactly
/// when the value is a Unicode scalar value, and `None` otherwise.
#[verifier::external_body]
fn char_of_scalar(v: u32) -> (r: Option<char>)
    ensures
        r is Some <==> is_unicode_scalar(v),
        r matches Some(c) ==> c as u32 == v,
{
    char::from_u32(v)
}

fn table_lookup(code: i32) -> (r: Option<Key>)
    ensures
        r == table_key(code),
{
    match code {
        0x001 => Some(Key::Ctrl('a')),
        0x002 => Some(Key::Ctrl('b')),
        0x003 => Some(Key::Ctrl('c')),
        0x004 => Some(Key::Ctrl('d')),
        0x005 => Some(Key::Ctrl('e')),
        0x006 => Some(Key::Ctrl('f')),
        0x007 => Some(Key::Ctrl('g')),
        0x008 => Some(Key::Backspace),
        0x009 => Some(Key::Tab),
        0x00a => Some(Key::Ctrl('j')),
        0x00b => Some(Key::Ctrl('k')),
        0x00c => Some(Key::Ctrl('l')),
        0x00d => Some(Key::Return),
        0x00e => Some(Key::Ctrl('n')),
        0x00f => Some(Key::Ctrl('o')),
        0x010 => Some(Key::Ctrl('p')),
        0x011 => Some(Key::Ctrl('q')),
        0x012 => Some(Key::Ctrl('r')),
        0x013 => Some(Key::Pause),
        0x014 => Some(Key::Ctrl('t')),
        0x015 => Some(Key::Ctrl('u')),
        0x016 => Some(Key::Ctrl('v')),
        0x017 => Some(Key::Ctrl('w')),
        0x018 => Some(Key::Ctrl('x')),
        0x019 => Some(Key::Ctrl('y')),
        0x01a => Some(Key::Ctrl('z')),
        0x01b => Some(Key::Escape),
        0x07f => Some(Key::Delete),
        0x111 => Some(Key::Up),
        0x112 => Some(Key::Down),
        0x113 => Some(Key::Left),
        0x114 => Some(Key::Right),
        0x115 => Some(Key::Insert),
        0x116 => Some(Key::Home),
        0x117 => Some(Key::End),
        0x118 => Some(Key::PageUp),
        0x119 => Some(Key::PageDown),
        0x11a => Some(Key::Function(1)),
        0x11b => Some(Key::Function(2)),
        0x11c => Some(Key::Function(3)),
        0x11d => Some(Key::Function(4)),
        0x11e => Some(Key::Function(5)),
        0x11f => Some(Key::Function(6)),
        0x120 => Some(Key::Function(7)),
        0x121 => Some(Key::Function(8)),
        0x122 => Some(Key::Function(9)),
        0x123 => Some(Key::Function(10)),
        0x124 => Some(Key::Function(11)),
        0x125 => Some(Key::Function(12)),
        0x126 => Some(Key::Function(13)),
        0x127 => Some(Key::Function(14)),
        0x128 => Some(Key::Function(15)),
        _ => None,
    }
}

impl Key {
    /// Maps a raw key code from the engine to a key.
    pub fn from_code(code: i32) -> (r: Key)
        ensures
            r == key_of_code(code),
    {
        match table_lookup(code) {
            Some(k) => k,
            None => {
                if code == KEY_UNKNOWN {
                    return Key::Unknown(code);
                }
                match char_of_scalar(code as u32) {
                    Some(c) => {
                        proof {
                            vstd::utf8::char_u32_cast(c, code as u32);
                        }
                        Key::Char(c)
                    },
                    None => Key::Unknown(code),
                }
            },
        }
    }
}

} // verus!
