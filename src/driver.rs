use vstd::prelude::*;

use crate::text::same_text;

verus! {

/// An output backend of the engine.
#[derive(Clone, Copy, Debug, PartialEq, Eq, Structural)]
pub enum Driver {
    Null,
    Raw,
    Cocoa,
    Conio,
    GL,
    NCurses,
    SLang,
    VGA,
    Win32,
    X11,
    Unknown,
}

/// The driver that the engine's token `s` names; any other token is
/// `Unknown`.
pub open spec fn driver_of_token(s: Seq<char>) -> Driver {
    if s == "null"@ {
        Driver::Null
    } else if s == "raw"@ {
        Driver::Raw
    } else if s == "cocoa"@ {
        Driver::Cocoa
    } else if s == "conio"@ {
        Driver::Conio
    } else if s == "gl"@ {
        Driver::GL
    } else if s == "ncurses"@ {
        Driver::NCurses
    } else if s == "slang"@ {
        Driver::SLang
    } else if s == "vga"@ {
        Driver::VGA
    } else if s == "win32"@ {
        Driver::Win32
    } else if s == "x11"@ {
        Driver::X11
    } else {
        Driver::Unknown
    }
}

/// The token that names a driver to the engine; `Unknown` asks for the null
/// driver.
pub open spec fn token_of_driver(d: Driver) -> Seq<char> {
    match d {
        Driver::Null | Driver::Unknown => "null"@,
        Driver::Raw => "raw"@,
        Driver::Cocoa => "cocoa"@,
        Driver::Conio => "conio"@,
        Driver::GL => "gl"@,
        Driver::NCurses => "ncurses"@,
        Driver::SLang => "slang"@,
        Driver::VGA => "vga"@,
        Driver::Win32 => "win32"@,
        Driver::X11 => "x11"@,
    }
}

/// Whether `s` is one of the engine's driver tokens.
pub open spec fn is_driver_token(s: Seq<char>) -> bool {
    driver_of_token(s) != Driver::Unknown
}

impl Driver {
    /// The driver that a token read from the engine names.
    pub fn from_token(s: &str) -> (r: Driver)
        ensures
            r == driver_of_token(s@),
    {
        if same_text(s, "null") {
            Driver::Null
        } else if same_text(s, "raw") {
            Driver::Raw
        } else if same_text(s, "cocoa") {
            Driver::Cocoa
        } else if same_text(s, "conio") {
            Driver::Conio
        } else if same_text(s, "gl") {
            Driver::GL
        } else if same_text(s, "ncurses") {
            Driver::NCurses
        } else if same_text(s, "slang") {
            Driver::SLang
        } else if same_text(s, "vga") {
            Driver::VGA
        } else if same_text(s, "win32") {
            Driver::Win32
        } else if same_text(s, "x11") {
            Driver::X11
        } else {
            Driver::Unknown
        }
    }

    /// The token to hand to the engine for this driver.
    pub fn to_token(&self) -> (r: &'static str)
        ensures
            r@ == token_of_driver(*self),
    {
        match self {
            Driver::Null | Driver::Unknown => "null",
            Driver::Raw => "raw",
            Driver::Cocoa => "cocoa",
            Driver::Conio => "conio",
            Driver::GL => "gl",
            Driver::NCurses => "ncurses",
            Driver::SLang => "slang",
            Driver::VGA => "vga",
            Driver::Win32 => "win32",
            Driver::X11 => "x11",
        }
    }
}

/// Reading a token and writing it back gives the same token when it names a
/// driver, and the null driver's token otherwise.
pub proof fn lemma_driver_token_round_trip(s: Seq<char>)
    ensures
        token_of_driver(driver_of_token(s)) == (if is_driver_token(s) {
            s
        } else {
            "null"@
        }),
{
}

/// Whether the mouse pointer or the cursor is shown.
#[derive(Clone, Copy, Debug, PartialEq, Eq, Structural)]
pub enum Visibility {
    Hide,
    Show,
}

impl Visibility {
    /// The flag that the engine takes for this visibility.
    pub fn as_flag(&self) -> (r: i32)
        ensures
            r == (if *self == Visibility::Show {
                1i32
            } else {
                0i32
            }),
    {
        match self {
            Visibility::Hide => 0,
            Visibility::Show => 1,
        }
    }
}

} // verus!
