use vstd::prelude::*;

use crate::canvas::Canvas;
use crate::driver::{token_of_driver, Driver};
use crate::error::{failure_of, translate, CacaError, Op, Signal};

verus! {

/// What a display is opened with: the canvas to render (none lets the
/// engine make one of its own), the driver to ask for (none lets the engine
/// choose), and whether standard error is to be buffered meanwhile.
pub struct InitOptions<'a, H> {
    pub canvas: Option<&'a Canvas<H>>,
    pub driver: Option<Driver>,
    pub buffer_stderr: bool,
}

impl<'a, H> Default for InitOptions<'a, H> {
    fn default() -> (r: Self)
        ensures
            r.canvas is None,
            r.driver is None,
            !r.buffer_stderr,
    {
        InitOptions { canvas: None, driver: None, buffer_stderr: false }
    }
}

impl<'a, H> InitOptions<'a, H> {
    /// The token of the driver to ask the engine for, if one is asked for.
    pub fn driver_token(&self) -> (r: Option<&'static str>)
        ensures
            match self.driver {
                Some(d) => r matches Some(t) && t@ == token_of_driver(d),
                None => r is None,
            },
    {
        match self.driver {
            Some(d) => Some(d.to_token()),
            None => None,
        }
    }
}

/// A renderer that binds a canvas to an output driver, owned through the
/// engine's handle `D`. While it is registered on a canvas it must be
/// detached before it is closed, and the canvas cannot be released.
pub struct Display<D> {
    pub(crate) display: D,
    pub(crate) driver: Driver,
    pub(crate) attached: Option<u64>,
}

impl<D> Display<D> {
    /// The engine's handle that this display owns.
    pub open(crate) spec fn native(&self) -> D {
        self.display
    }

    /// The driver that the engine reports for this display.
    pub open(crate) spec fn spec_driver(&self) -> Driver {
        self.driver
    }

    /// The registration that this display holds on the canvas it renders.
    pub open(crate) spec fn registration(&self) -> Option<u64> {
        self.attached
    }

    /// Takes over the renderer that the engine opened with the driver it
    /// reports, or translates the signal read after it failed to open one.
    /// A new display renders no canvas of this library yet.
    pub fn open(created: Result<D, Signal>, driver: Driver) -> (r: Result<Display<D>, CacaError>)
        ensures
            match created {
                Ok(h) => r matches Ok(d) && d.native() == h && d.spec_driver() == driver
                    && d.registration() is None,
                Err(s) => r == Err::<Display<D>, CacaError>(failure_of(Op::CreateDisplay, s)),
            },
    {
        match created {
            Ok(h) => Ok(Display { display: h, driver, attached: None }),
            Err(s) => Err(translate(Op::CreateDisplay, s)),
        }
    }

    /// The driver that the engine reports for this display.
    pub fn display_driver(&self) -> (r: Driver)
        ensures
            r == self.spec_driver(),
    {
        self.driver
    }

    /// Records the end of a switch of driver: on success the display has
    /// the driver that the engine now reports.
    pub fn finish_set_display_driver(
        &mut self,
        reported: Driver,
        outcome: Result<(), Signal>,
    ) -> (r: Result<(), CacaError>)
        ensures
            r == crate::error::result_of(Op::SetDisplayDriver, outcome),
            final(self).spec_driver() == (if r is Ok {
                reported
            } else {
                old(self).spec_driver()
            }),
            final(self).native() == old(self).native(),
            final(self).registration() == old(self).registration(),
    {
        match outcome {
            Ok(()) => {
                self.driver = reported;
                Ok(())
            },
            Err(s) => Err(translate(Op::SetDisplayDriver, s)),
        }
    }

    /// Whether this display is registered on a canvas.
    pub fn is_attached(&self) -> (r: bool)
        ensures
            r == self.registration() is Some,
    {
        self.attached.is_some()
    }

    /// The engine's handle that this display owns.
    pub fn handle(&self) -> (r: &D)
        ensures
            *r == self.native(),
    {
        &self.display
    }

    /// Closes the display and gives back the engine's handle, to be freed.
    /// A display still registered on a canvas is handed back unchanged.
    pub fn close(self) -> (r: Result<D, Display<D>>)
        ensures
            self.registration() is None <==> r is Ok,
            r matches Ok(h) ==> h == self.native(),
            r matches Err(d) ==> d == self,
    {
        if self.attached.is_none() {
            Ok(self.display)
        } else {
            Err(self)
        }
    }
}

/// The whole milliseconds in a duration of `secs` seconds and `subsec_nanos`
/// nanoseconds, as the engine takes them; a duration too long for an `i32`
/// gives the largest `i32`.
pub open spec fn millis_of(secs: u64, subsec_nanos: u32) -> int {
    let ms = secs * 1000 + subsec_nanos / 1_000_000;
    if ms > i32::MAX {
        i32::MAX as int
    } else {
        ms
    }
}

/// Converts a duration, given as its whole seconds and the nanoseconds
/// beyond them, to whole milliseconds.
pub fn whole_millis(secs: u64, subsec_nanos: u32) -> (r: i32)
    ensures
        r == millis_of(secs, subsec_nanos),
{
    let limit: u64 = i32::MAX as u64;
    let extra: u64 = (subsec_nanos / 1_000_000) as u64;
    if secs > limit / 1000 {
        i32::MAX
    } else {
        let ms: u64 = secs * 1000 + extra;
        if ms > limit {
            i32::MAX
        } else {
            ms as i32
        }
    }
}

} // verus!
