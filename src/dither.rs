use vstd::prelude::*;

use crate::error::{translate, CacaError, Op, Signal};
use crate::text::same_text;

verus! {

/// The antialiasing mode of a dither.
#[derive(Clone, Copy, Debug, PartialEq, Eq, Structural)]
pub enum DitherAntialias {
    NoAntialias,
    Prefilter,
    Default,
    Unknown,
}

/// The value that the engine's token `s` names for the antialiasing mode; any
/// other token is `Unknown`.
pub open spec fn antialias_of_token(s: Seq<char>) -> DitherAntialias {
    if s == "none"@ {
        DitherAntialias::NoAntialias
    } else if s == "prefilter"@ {
        DitherAntialias::Prefilter
    } else if s == "default"@ {
        DitherAntialias::Default
    } else {
        DitherAntialias::Unknown
    }
}

/// The token that names the antialiasing mode to the engine; `Unknown` asks for
/// `"none"`.
pub open spec fn token_of_antialias(v: DitherAntialias) -> Seq<char> {
    match v {
        DitherAntialias::NoAntialias | DitherAntialias::Unknown => "none"@,
        DitherAntialias::Prefilter => "prefilter"@,
        DitherAntialias::Default => "default"@,
    }
}

impl DitherAntialias {
    /// The value that a token read from the engine names.
    pub fn from_token(s: &str) -> (r: DitherAntialias)
        ensures
            r == antialias_of_token(s@),
    {
        if same_text(s, "none") {
            DitherAntialias::NoAntialias
        } else if same_text(s, "prefilter") {
            DitherAntialias::Prefilter
        } else if same_text(s, "default") {
            DitherAntialias::Default
        } else {
            DitherAntialias::Unknown
        }
    }

    /// The token to hand to the engine for this value.
    pub fn to_token(&self) -> (r: &'static str)
        ensures
            r@ == token_of_antialias(*self),
    {
        match self {
            DitherAntialias::NoAntialias | DitherAntialias::Unknown => "none",
            DitherAntialias::Prefilter => "prefilter",
            DitherAntialias::Default => "default",
        }
    }
}

/// Reading a token for the antialiasing mode and writing it back gives the same
/// token when it names a value, and `"none"` otherwise.
pub proof fn lemma_antialias_token_round_trip(s: Seq<char>)
    ensures
        ({
            let v = antialias_of_token(s);
            token_of_antialias(v) == if v != DitherAntialias::Unknown {
                s
            } else {
                "none"@
            }
        }),
{
}

/// The colour mode of a dither.
#[derive(Clone, Copy, Debug, PartialEq, Eq, Structural)]
pub enum DitherColorMode {
    Mono,
    Gray,
    Ansi8,
    Ansi16,
    FullGray,
    Full8,
    Full16,
    Default,
    Unknown,
}

/// The value that the engine's token `s` names for the colour mode; any other
/// token is `Unknown`.
pub open spec fn color_mode_of_token(s: Seq<char>) -> DitherColorMode {
    if s == "mono"@ {
        DitherColorMode::Mono
    } else if s == "gray"@ {
        DitherColorMode::Gray
    } else if s == "8"@ {
        DitherColorMode::Ansi8
    } else if s == "16"@ {
        DitherColorMode::Ansi16
    } else if s == "fullgray"@ {
        DitherColorMode::FullGray
    } else if s == "full8"@ {
        DitherColorMode::Full8
    } else if s == "full16"@ {
        DitherColorMode::Full16
    } else if s == "default"@ {
        DitherColorMode::Default
    } else {
        DitherColorMode::Unknown
    }
}

/// The token that names the colour mode to the engine; `Unknown` asks for
/// `"default"`.
pub open spec fn token_of_color_mode(v: DitherColorMode) -> Seq<char> {
    match v {
        DitherColorMode::Mono => "mono"@,
        DitherColorMode::Gray => "gray"@,
        DitherColorMode::Ansi8 => "8"@,
        DitherColorMode::Ansi16 => "16"@,
        DitherColorMode::FullGray => "fullgray"@,
        DitherColorMode::Full8 => "full8"@,
        DitherColorMode::Full16 => "full16"@,
        DitherColorMode::Default | DitherColorMode::Unknown => "default"@,
    }
}

impl DitherColorMode {
    /// The value that a token read from the engine names.
    pub fn from_token(s: &str) -> (r: DitherColorMode)
        ensures
            r == color_mode_of_token(s@),
    {
        if same_text(s, "mono") {
            DitherColorMode::Mono
        } else if same_text(s, "gray") {
            DitherColorMode::Gray
        } else if same_text(s, "8") {
            DitherColorMode::Ansi8
        } else if same_text(s, "16") {
            DitherColorMode::Ansi16
        } else if same_text(s, "fullgray") {
            DitherColorMode::FullGray
        } else if same_text(s, "full8") {
            DitherColorMode::Full8
        } else if same_text(s, "full16") {
            DitherColorMode::Full16
        } else if same_text(s, "default") {
            DitherColorMode::Default
        } else {
            DitherColorMode::Unknown
        }
    }

    /// The token to hand to the engine for this value.
    pub fn to_token(&self) -> (r: &'static str)
        ensures
            r@ == token_of_color_mode(*self),
    {
        match self {
            DitherColorMode::Mono => "mono",
            DitherColorMode::Gray => "gray",
            DitherColorMode::Ansi8 => "8",
            DitherColorMode::Ansi16 => "16",
            DitherColorMode::FullGray => "fullgray",
            DitherColorMode::Full8 => "full8",
            DitherColorMode::Full16 => "full16",
            DitherColorMode::Default | DitherColorMode::Unknown => "default",
        }
    }
}

/// Reading a token for the colour mode and writing it back gives the same token
/// when it names a value, and `"default"` otherwise.
pub proof fn lemma_color_mode_token_round_trip(s: Seq<char>)
    ensures
        ({
            let v = color_mode_of_token(s);
            token_of_color_mode(v) == if v != DitherColorMode::Unknown {
                s
            } else {
                "default"@
            }
        }),
{
}

/// The character set of a dither.
#[derive(Clone, Copy, Debug, PartialEq, Eq, Structural)]
pub enum DitherCharset {
    Ascii,
    Shades,
    Blocks,
    Default,
    Unknown,
}

/// The value that the engine's token `s` names for the character set; any other
/// token is `Unknown`.
pub open spec fn charset_of_token(s: Seq<char>) -> DitherCharset {
    if s == "ascii"@ {
        DitherCharset::Ascii
    } else if s == "shades"@ {
        DitherCharset::Shades
    } else if s == "blocks"@ {
        DitherCharset::Blocks
    } else if s == "default"@ {
        DitherCharset::Default
    } else {
        DitherCharset::Unknown
    }
}

/// The token that names the character set to the engine; `Unknown` asks for
/// `"default"`.
pub open spec fn token_of_charset(v: DitherCharset) -> Seq<char> {
    match v {
        DitherCharset::Ascii => "ascii"@,
        DitherCharset::Shades => "shades"@,
        DitherCharset::Blocks => "blocks"@,
        DitherCharset::Default | DitherCharset::Unknown => "default"@,
    }
}

impl DitherCharset {
    /// The value that a token read from the engine names.
    pub fn from_token(s: &str) -> (r: DitherCharset)
        ensures
            r == charset_of_token(s@),
    {
        if same_text(s, "ascii") {
            DitherCharset::Ascii
        } else if same_text(s, "shades") {
            DitherCharset::Shades
        } else if same_text(s, "blocks") {
            DitherCharset::Blocks
        } else if same_text(s, "default") {
            DitherCharset::Default
        } else {
            DitherCharset::Unknown
        }
    }

    /// The token to hand to the engine for this value.
    pub fn to_token(&self) -> (r: &'static str)
        ensures
            r@ == token_of_charset(*self),
    {
        match self {
            DitherCharset::Ascii => "ascii",
            DitherCharset::Shades => "shades",
            DitherCharset::Blocks => "blocks",
            DitherCharset::Default | DitherCharset::Unknown => "default",
        }
    }
}

/// Reading a token for the character set and writing it back gives the same
/// token when it names a value, and `"default"` otherwise.
pub proof fn lemma_charset_token_round_trip(s: Seq<char>)
    ensures
        ({
            let v = charset_of_token(s);
            token_of_charset(v) == if v != DitherCharset::Unknown {
                s
            } else {
                "default"@
            }
        }),
{
}

/// The dithering algorithm of a dither.
#[derive(Clone, Copy, Debug, PartialEq, Eq, Structural)]
pub enum DitherAlgorithm {
    NoDither,
    Ordered2,
    Ordered4,
    Ordered8,
    Random,
    FloydSteinberg,
    Unknown,
}

/// The value that the engine's token `s` names for the dithering algorithm; any
/// other token is `Unknown`.
pub open spec fn algorithm_of_token(s: Seq<char>) -> DitherAlgorithm {
    if s == "none"@ {
        DitherAlgorithm::NoDither
    } else if s == "ordered2"@ {
        DitherAlgorithm::Ordered2
    } else if s == "ordered4"@ {
        DitherAlgorithm::Ordered4
    } else if s == "ordered8"@ {
        DitherAlgorithm::Ordered8
    } else if s == "random"@ {
        DitherAlgorithm::Random
    } else if s == "fstein"@ {
        DitherAlgorithm::FloydSteinberg
    } else {
        DitherAlgorithm::Unknown
    }
}

/// The token that names the dithering algorithm to the engine; `Unknown` asks
/// for `"fstein"`.
pub open spec fn token_of_algorithm(v: DitherAlgorithm) -> Seq<char> {
    match v {
        DitherAlgorithm::NoDither => "none"@,
        DitherAlgorithm::Ordered2 => "ordered2"@,
        DitherAlgorithm::Ordered4 => "ordered4"@,
        DitherAlgorithm::Ordered8 => "ordered8"@,
        DitherAlgorithm::Random => "random"@,
        DitherAlgorithm::FloydSteinberg | DitherAlgorithm::Unknown => "fstein"@,
    }
}

impl DitherAlgorithm {
    /// The value that a token read from the engine names.
    pub fn from_token(s: &str) -> (r: DitherAlgorithm)
        ensures
            r == algorithm_of_token(s@),
    {
        if same_text(s, "none") {
            DitherAlgorithm::NoDither
        } else if same_text(s, "ordered2") {
            DitherAlgorithm::Ordered2
        } else if same_text(s, "ordered4") {
            DitherAlgorithm::Ordered4
        } else if same_text(s, "ordered8") {
            DitherAlgorithm::Ordered8
        } else if same_text(s, "random") {
            DitherAlgorithm::Random
        } else if same_text(s, "fstein") {
            DitherAlgorithm::FloydSteinberg
        } else {
            DitherAlgorithm::Unknown
        }
    }

    /// The token to hand to the engine for this value.
    pub fn to_token(&self) -> (r: &'static str)
        ensures
            r@ == token_of_algorithm(*self),
    {
        match self {
            DitherAlgorithm::NoDither => "none",
            DitherAlgorithm::Ordered2 => "ordered2",
            DitherAlgorithm::Ordered4 => "ordered4",
            DitherAlgorithm::Ordered8 => "ordered8",
            DitherAlgorithm::Random => "random",
            DitherAlgorithm::FloydSteinberg | DitherAlgorithm::Unknown => "fstein",
        }
    }
}

/// Reading a token for the dithering algorithm and writing it back gives the
/// same token when it names a value, and `"fstein"` otherwise.
pub proof fn lemma_algorithm_token_round_trip(s: Seq<char>)
    ensures
        ({
            let v = algorithm_of_token(s);
            token_of_algorithm(v) == if v != DitherAlgorithm::Unknown {
                s
            } else {
                "fstein"@
            }
        }),
{
}

/// A dither made by the engine: how a bitmap is approximated by character
/// cells. It owns the engine's handle for it.
pub struct CacaDither<H> {
    dither: H,
}

impl<H> CacaDither<H> {
    /// The engine's handle that this dither owns.
    pub closed spec fn native(&self) -> H {
        self.dither
    }

    /// Takes over the dither that the engine made, or translates the signal
    /// read after it failed to make one.
    pub fn from_native(created: Result<H, Signal>) -> (r: Result<CacaDither<H>, CacaError>)
        ensures
            match created {
                Ok(h) => r matches Ok(d) && d.native() == h,
                Err(s) => r == Err::<CacaDither<H>, CacaError>(
                    crate::error::failure_of(Op::CreateDither, s),
                ),
            },
    {
        match created {
            Ok(h) => Ok(CacaDither { dither: h }),
            Err(s) => Err(translate(Op::CreateDither, s)),
        }
    }

    /// The engine's handle for this dither.
    pub fn handle(&self) -> (r: &H)
        ensures
            *r == self.native(),
    {
        &self.dither
    }

    /// Gives the engine's handle back, to be released.
    pub fn into_handle(self) -> (r: H)
        ensures
            r == self.native(),
    {
        self.dither
    }
}

} // verus!
