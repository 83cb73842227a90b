use vstd::prelude::*;

verus! {

/// One of the engine's sixteen ANSI colours, or its default or transparent
/// colour.
#[derive(Clone, Copy, Debug, PartialEq, Eq, Structural)]
pub enum AnsiColor {
    Black,
    Blue,
    Green,
    Cyan,
    Red,
    Magenta,
    Brown,
    LightGray,
    DarkGray,
    LightBlue,
    LightGreen,
    LightCyan,
    LightRed,
    LightMagenta,
    Yellow,
    White,
    Default,
    Transparent,
}

/// A colour given by its red, green, blue and alpha components.
#[derive(Clone, Copy, Debug, PartialEq, Eq, Structural)]
pub struct Color {
    pub r: u32,
    pub g: u32,
    pub b: u32,
    pub a: u32,
}

/// The engine's byte for each colour: the sixteen ANSI colours are 0 to 15,
/// the default colour 0x10 and the transparent one 0x20.
pub open spec fn byte_of_color(c: AnsiColor) -> u8 {
    match c {
        AnsiColor::Black => 0x00,
        AnsiColor::Blue => 0x01,
        AnsiColor::Green => 0x02,
        AnsiColor::Cyan => 0x03,
        AnsiColor::Red => 0x04,
        AnsiColor::Magenta => 0x05,
        AnsiColor::Brown => 0x06,
        AnsiColor::LightGray => 0x07,
        AnsiColor::DarkGray => 0x08,
        AnsiColor::LightBlue => 0x09,
        AnsiColor::LightGreen => 0x0a,
        AnsiColor::LightCyan => 0x0b,
        AnsiColor::LightRed => 0x0c,
        AnsiColor::LightMagenta => 0x0d,
        AnsiColor::Yellow => 0x0e,
        AnsiColor::White => 0x0f,
        AnsiColor::Default => 0x10,
        AnsiColor::Transparent => 0x20,
    }
}

/// Whether `b` is the engine's byte for some colour.
pub open spec fn is_color_byte(b: u8) -> bool {
    b <= 0x10 || b == 0x20
}

impl AnsiColor {
    /// The engine's byte for this colour.
    pub fn as_byte(&self) -> (r: u8)
        ensures
            r == byte_of_color(*self),
    {
        match self {
            AnsiColor::Black => 0x00,
            AnsiColor::Blue => 0x01,
            AnsiColor::Green => 0x02,
            AnsiColor::Cyan => 0x03,
            AnsiColor::Red => 0x04,
            AnsiColor::Magenta => 0x05,
            AnsiColor::Brown => 0x06,
            AnsiColor::LightGray => 0x07,
            AnsiColor::DarkGray => 0x08,
            AnsiColor::LightBlue => 0x09,
            AnsiColor::LightGreen => 0x0a,
            AnsiColor::LightCyan => 0x0b,
            AnsiColor::LightRed => 0x0c,
            AnsiColor::LightMagenta => 0x0d,
            AnsiColor::Yellow => 0x0e,
            AnsiColor::White => 0x0f,
            AnsiColor::Default => 0x10,
            AnsiColor::Transparent => 0x20,
        }
    }

    /// The colour that the engine's byte stands for. Only the engine's
    /// colour bytes are accepted.
    pub fn from_byte(byte: u8) -> (r: AnsiColor)
        requires
            is_color_byte(byte),
        ensures
            byte_of_color(r) == byte,
    {
        match byte {
            0x00 => AnsiColor::Black,
            0x01 => AnsiColor::Blue,
            0x02 => AnsiColor::Green,
            0x03 => AnsiColor::Cyan,
            0x04 => AnsiColor::Red,
            0x05 => AnsiColor::Magenta,
            0x06 => AnsiColor::Brown,
            0x07 => AnsiColor::LightGray,
            0x08 => AnsiColor::DarkGray,
            0x09 => AnsiColor::LightBlue,
            0x0a => AnsiColor::LightGreen,
            0x0b => AnsiColor::LightCyan,
            0x0c => AnsiColor::LightRed,
            0x0d => AnsiColor::LightMagenta,
            0x0e => AnsiColor::Yellow,
            0x0f => AnsiColor::White,
            0x10 => AnsiColor::Default,
            _ => AnsiColor::Transparent,
        }
    }
}

/// Each colour's byte reads back as that colour.
pub proof fn lemma_color_byte_round_trip(c: AnsiColor)
    ensures
        is_color_byte(byte_of_color(c)),
        forall|d: AnsiColor| byte_of_color(d) == byte_of_color(c) ==> d == c,
{
}

} // verus!
