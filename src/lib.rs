//! A safety layer over the libcaca character-graphics engine.
//!
//! The engine itself is reached through raw calls that live outside this
//! library. What stands here is the logic around those calls: the ownership
//! relation between canvases and the displays that render them, the
//! translation of the engine's numeric failure signals into [`CacaError`],
//! the decoding of raw event records, and the closed vocabularies that are
//! exchanged with the engine as tokens.

pub mod canvas;
pub mod color;
pub mod dither;
pub mod display;
pub mod driver;
pub mod error;
pub mod event;
pub mod keyboard;
pub mod text;

pub use canvas::{Canvas, ResizePlan};
pub use color::{AnsiColor, Color};
pub use dither::{CacaDither, DitherAlgorithm, DitherAntialias, DitherCharset, DitherColorMode};
pub use display::{whole_millis, Display, InitOptions};
pub use driver::{Driver, Visibility};
pub use error::{check, translate, CacaError, CacaResult, Cause, Op, Signal};
pub use event::{
    event_from_fields, unpack_event, Event, Mouse, MouseButton, RawEvent, EVENT_ANY,
    EVENT_KEY_PRESS, EVENT_KEY_RELEASE, EVENT_MOUSE_MOTION, EVENT_MOUSE_PRESS,
    EVENT_MOUSE_RELEASE, EVENT_NONE, EVENT_QUIT, EVENT_RESIZE,
};
pub use keyboard::{Key, KEY_UNKNOWN};
