use vstd::prelude::*;

use crate::display::Display;
use crate::error::{translate, CacaError, CacaResult, Cause, Op, Signal};

verus! {

/// What a resize request asks of the engine.
#[derive(Clone, Copy, Debug, PartialEq, Eq, Structural)]
pub enum ResizePlan {
    /// Refused here; the engine is not called.
    Reject(CacaError),
    /// The canvas has that size already; the engine is not called.
    Unchanged,
    /// The engine must resize its buffer.
    Native,
}

/// The local check of a requested size: a negative dimension is refused.
pub open spec fn size_check(width: int, height: int) -> CacaResult {
    if width < 0 || height < 0 {
        Err(CacaError::InvalidSize)
    } else {
        Ok(())
    }
}

/// What resizing a canvas of `cur_width` by `cur_height` to `width` by
/// `height` asks of the engine.
pub open spec fn resize_plan(
    cur_width: int,
    cur_height: int,
    width: int,
    height: int,
) -> ResizePlan {
    if width < 0 || height < 0 {
        ResizePlan::Reject(CacaError::InvalidSize)
    } else if width == cur_width && height == cur_height {
        ResizePlan::Unchanged
    } else {
        ResizePlan::Native
    }
}

/// The result of an engine resize that ended as `outcome`. Only a busy
/// canvas and a lack of memory count as failures; the engine's other
/// signals after a resize carry no meaning.
pub open spec fn resize_result(outcome: Result<(), Signal>) -> CacaResult {
    match outcome {
        Ok(()) => Ok(()),
        Err(s) => if s.cause == Cause::Busy {
            Err(CacaError::CanvasInUse)
        } else if s.cause == Cause::OutOfMemory {
            Err(CacaError::NotEnoughMemory)
        } else {
            Ok(())
        },
    }
}

/// An offscreen buffer of character cells, owned through the engine's
/// handle `H`. It knows its size, the handle offset that later draws start
/// from, and the displays that render it: it can be released only once none
/// does.
pub struct Canvas<H> {
    canvas: H,
    width: i32,
    height: i32,
    handle_x: i32,
    handle_y: i32,
    displays: Vec<u64>,
    next_display: u64,
}

impl<H> Canvas<H> {
    /// Well-formedness: the size is never negative, and each display
    /// registration is held once and was handed out by this canvas.
    pub closed spec fn wf(&self) -> bool {
        &&& self.width >= 0
        &&& self.height >= 0
        &&& self.displays@.no_duplicates()
        &&& forall|i: int| 0 <= i < self.displays@.len() ==> self.displays@[i] < self.next_display
    }

    /// The engine's handle that this canvas owns.
    pub closed spec fn native(&self) -> H {
        self.canvas
    }

    pub closed spec fn spec_width(&self) -> int {
        self.width as int
    }

    pub closed spec fn spec_height(&self) -> int {
        self.height as int
    }

    pub closed spec fn spec_handle_x(&self) -> int {
        self.handle_x as int
    }

    pub closed spec fn spec_handle_y(&self) -> int {
        self.handle_y as int
    }

    /// The registrations of the displays that render this canvas.
    pub closed spec fn attached(&self) -> Set<u64> {
        self.displays@.to_set()
    }

    /// This canvas is a new one made from handle `h` for `width` by
    /// `height`: the handle offset is at the origin and no display renders
    /// it.
    pub open spec fn fresh(&self, h: H, width: int, height: int) -> bool {
        &&& self.wf()
        &&& self.native() == h
        &&& self.spec_width() == width
        &&& self.spec_height() == height
        &&& self.spec_handle_x() == 0
        &&& self.spec_handle_y() == 0
        &&& self.attached().is_empty()
    }

    /// Everything but the registrations is the same in both canvases.
    pub open spec fn same_content(&self, other: &Self) -> bool {
        &&& self.native() == other.native()
        &&& self.spec_width() == other.spec_width()
        &&& self.spec_height() == other.spec_height()
        &&& self.spec_handle_x() == other.spec_handle_x()
        &&& self.spec_handle_y() == other.spec_handle_y()
    }

    /// Checks a requested size before the engine is asked for a buffer.
    pub fn check_size(width: i32, height: i32) -> (r: CacaResult)
        ensures
            r == size_check(width as int, height as int),
    {
        if width < 0 || height < 0 {
            Err(CacaError::InvalidSize)
        } else {
            Ok(())
        }
    }

    /// Takes over the buffer that the engine made for a canvas of `width` by
    /// `height`, or translates the signal read after it failed to make one.
    pub fn from_native(width: i32, height: i32, created: Result<H, Signal>) -> (r: Result<
        Canvas<H>,
        CacaError,
    >)
        requires
            size_check(width as int, height as int) is Ok,
        ensures
            match created {
                Ok(h) => r matches Ok(c) && c.fresh(h, width as int, height as int),
                Err(s) => r == Err::<Canvas<H>, CacaError>(
                    crate::error::failure_of(Op::CreateCanvas, s),
                ),
            },
    {
        match created {
            Ok(h) => {
                let c = Canvas {
                    canvas: h,
                    width,
                    height,
                    handle_x: 0,
                    handle_y: 0,
                    displays: Vec::new(),
                    next_display: 0,
                };
                assert(c.displays@.to_set() =~= Set::empty());
                Ok(c)
            },
            Err(s) => Err(translate(Op::CreateCanvas, s)),
        }
    }

    pub fn width(&self) -> (r: i32)
        requires
            self.wf(),
        ensures
            r == self.spec_width(),
            r >= 0,
    {
        self.width
    }

    pub fn height(&self) -> (r: i32)
        requires
            self.wf(),
        ensures
            r == self.spec_height(),
            r >= 0,
    {
        self.height
    }

    pub fn handle_x(&self) -> (r: i32)
        ensures
            r == self.spec_handle_x(),
    {
        self.handle_x
    }

    pub fn handle_y(&self) -> (r: i32)
        ensures
            r == self.spec_handle_y(),
    {
        self.handle_y
    }

    /// Moves the handle offset that later draws start from.
    pub fn set_handle(&mut self, x: i32, y: i32)
        requires
            old(self).wf(),
        ensures
            final(self).wf(),
            final(self).spec_handle_x() == x,
            final(self).spec_handle_y() == y,
            final(self).native() == old(self).native(),
            final(self).spec_width() == old(self).spec_width(),
            final(self).spec_height() == old(self).spec_height(),
            final(self).attached() == old(self).attached(),
    {
        self.handle_x = x;
        self.handle_y = y;
    }

    /// The engine's handle that this canvas owns.
    pub fn handle(&self) -> (r: &H)
        ensures
            *r == self.native(),
    {
        &self.canvas
    }

    /// Decides what a request to resize to `width` by `height` asks of the
    /// engine.
    pub fn plan_resize(&self, width: i32, height: i32) -> (r: ResizePlan)
        ensures
            r == resize_plan(self.spec_width(), self.spec_height(), width as int, height as int),
    {
        if width < 0 || height < 0 {
            ResizePlan::Reject(CacaError::InvalidSize)
        } else if width == self.width && height == self.height {
            ResizePlan::Unchanged
        } else {
            ResizePlan::Native
        }
    }

    /// Records the end of an engine resize to `width` by `height`: on
    /// success the canvas has the new size, on failure it keeps the old one.
    pub fn finish_resize(&mut self, width: i32, height: i32, outcome: Result<(), Signal>) -> (r:
        CacaResult)
        requires
            old(self).wf(),
            size_check(width as int, height as int) is Ok,
        ensures
            final(self).wf(),
            r == resize_result(outcome),
            r is Ok ==> final(self).spec_width() == width && final(self).spec_height() == height,
            r is Err ==> final(self).spec_width() == old(self).spec_width()
                && final(self).spec_height() == old(self).spec_height(),
            final(self).native() == old(self).native(),
            final(self).spec_handle_x() == old(self).spec_handle_x(),
            final(self).spec_handle_y() == old(self).spec_handle_y(),
            final(self).attached() == old(self).attached(),
    {
        let r = match outcome {
            Ok(()) => Ok(()),
            Err(s) => match s.cause {
                Cause::Busy => Err(CacaError::CanvasInUse),
                Cause::OutOfMemory => Err(CacaError::NotEnoughMemory),
                _ => Ok(()),
            },
        };
        if r.is_ok() {
            self.width = width;
            self.height = height;
        }
        r
    }

    /// Records a size that the engine reports for this canvas, after it
    /// changed the size on its own (new boundaries, a resized window).
    pub fn observe_size(&mut self, width: i32, height: i32)
        requires
            old(self).wf(),
            size_check(width as int, height as int) is Ok,
        ensures
            final(self).wf(),
            final(self).spec_width() == width,
            final(self).spec_height() == height,
            final(self).native() == old(self).native(),
            final(self).spec_handle_x() == old(self).spec_handle_x(),
            final(self).spec_handle_y() == old(self).spec_handle_y(),
            final(self).attached() == old(self).attached(),
    {
        self.width = width;
        self.height = height;
    }

    /// Whether another display can still be registered on this canvas.
    pub closed spec fn can_attach(&self) -> bool {
        self.next_display < u64::MAX
    }

    /// Registers `display` as rendering this canvas. A display that is
    /// registered already is refused, and so is every display once the
    /// canvas has handed out all its registrations; then nothing changes.
    pub fn attach<D>(&mut self, display: &mut Display<D>) -> (r: bool)
        requires
            old(self).wf(),
        ensures
            final(self).wf(),
            r == (old(display).registration() is None && old(self).can_attach()),
            r ==> (exists|t: u64|
                final(display).registration() == Some(t) && !old(self).attached().contains(t)
                    && final(self).attached() == old(self).attached().insert(t)),
            !r ==> final(self).attached() == old(self).attached() && final(display).registration()
                == old(display).registration(),
            final(self).same_content(&*old(self)),
            final(display).native() == old(display).native(),
            final(display).spec_driver() == old(display).spec_driver(),
    {
        if display.attached.is_some() || self.next_display == u64::MAX {
            return false;
        }
        let t = self.next_display;
        let ghost before = self.displays@;
        self.displays.push(t);
        self.next_display = t + 1;
        display.attached = Some(t);
        proof {
            assert(!before.contains(t));
            assert(self.displays@ == before.push(t));
            assert forall|x: u64| self.displays@.to_set().contains(x) == before.to_set().insert(
                t,
            ).contains(x) by {
                if x == t {
                    assert(self.displays@[before.len() as int] == t);
                } else if before.contains(x) {
                    let k = choose|k: int| 0 <= k < before.len() && before[k] == x;
                    assert(self.displays@[k] == x);
                } else if self.displays@.contains(x) {
                    let k = choose|k: int| 0 <= k < self.displays@.len() && self.displays@[k] == x;
                    assert(before[k] == x);
                }
            }
            assert(self.displays@.to_set() =~= before.to_set().insert(t));
            assert(!before.to_set().contains(t));
            assert(display.registration() == Some(t) && !old(self).attached().contains(t)
                && self.attached() == old(self).attached().insert(t));
        }
        true
    }

    /// Removes the registration of `display` from this canvas. A display
    /// that holds no registration here is refused; then nothing changes.
    pub fn detach<D>(&mut self, display: &mut Display<D>) -> (r: bool)
        requires
            old(self).wf(),
        ensures
            final(self).wf(),
            r == (old(display).registration() matches Some(t) && old(self).attached().contains(t)),
            r ==> final(display).registration() is None && final(self).attached() == old(
                self,
            ).attached().remove(old(display).registration()->0),
            !r ==> final(self).attached() == old(self).attached() && final(display).registration()
                == old(display).registration(),
            final(self).same_content(&*old(self)),
            final(display).native() == old(display).native(),
            final(display).spec_driver() == old(display).spec_driver(),
    {
        let t = match display.attached {
            Some(t) => t,
            None => return false,
        };
        let mut i: usize = 0;
        while i < self.displays.len()
            invariant
                0 <= i <= self.displays@.len(),
                forall|j: int| 0 <= j < i ==> self.displays@[j] != t,
            ensures
                i < self.displays@.len() ==> self.displays@[i as int] == t,
                forall|j: int| 0 <= j < i ==> self.displays@[j] != t,
            decreases self.displays@.len() - i,
        {
            if self.displays[i] == t {
                break;
            }
            i = i + 1;
        }
        if i == self.displays.len() {
            return false;
        }
        let ghost before = self.displays@;
        self.displays.remove(i);
        display.attached = None;
        proof {
            assert(self.displays@ == before.remove(i as int));
            assert forall|x: u64| self.displays@.to_set().contains(x) == before.to_set().remove(
                t,
            ).contains(x) by {
                if self.displays@.contains(x) {
                    let k = choose|k: int| 0 <= k < self.displays@.len() && self.displays@[k] == x;
                    if k < i {
                        assert(before[k] == x);
                    } else {
                        assert(before[k + 1] == x);
                    }
                }
                if before.contains(x) && x != t {
                    let k = choose|k: int| 0 <= k < before.len() && before[k] == x;
                    if k < i {
                        assert(self.displays@[k] == x);
                    } else {
                        assert(k != i);
                        assert(self.displays@[k - 1] == x);
                    }
                }
            }
            assert(self.displays@.to_set() =~= before.to_set().remove(t));
            assert(self.displays@.no_duplicates());
        }
        true
    }

    /// The number of displays that render this canvas.
    pub fn display_count(&self) -> (r: usize)
        requires
            self.wf(),
        ensures
            r == self.attached().len(),
    {
        proof {
            self.displays@.unique_seq_to_set();
        }
        self.displays.len()
    }

    /// Releases the canvas and gives back the engine's handle, to be freed.
    /// While a display still renders the canvas the release is refused and
    /// the canvas is handed back unchanged.
    pub fn release(self) -> (r: Result<H, Canvas<H>>)
        requires
            self.wf(),
        ensures
            self.attached().is_empty() <==> r is Ok,
            r matches Ok(h) ==> h == self.native(),
            r matches Err(c) ==> c == self,
    {
        if self.displays.len() == 0 {
            assert(self.displays@ =~= Seq::<u64>::empty());
            assert(self.attached() =~= Set::<u64>::empty());
            Ok(self.canvas)
        } else {
            assert(self.attached().contains(self.displays@[0]));
            Err(self)
        }
    }
}

/// A size without a negative dimension passes the local check, so the
/// engine is asked for the buffer, and the canvas made from what it hands
/// back reports exactly that size.
pub proof fn lemma_create_reports_size<H>(c: Canvas<H>, h: H, width: int, height: int)
    requires
        width >= 0,
        height >= 0,
        c.fresh(h, width, height),
    ensures
        size_check(width, height) == Ok::<(), CacaError>(()),
        c.spec_width() == width,
        c.spec_height() == height,
{
}

/// A size with a negative dimension is refused with `InvalidSize`, both
/// when a canvas is made and when one is resized, before the engine is
/// asked for anything.
pub proof fn lemma_negative_size_rejected(cur_width: int, cur_height: int, width: int, height: int)
    requires
        width < 0 || height < 0,
    ensures
        size_check(width, height) == Err::<(), CacaError>(CacaError::InvalidSize),
        resize_plan(cur_width, cur_height, width, height) == ResizePlan::Reject(
            CacaError::InvalidSize,
        ),
{
}

/// Resizing a canvas to the size it has is a success that changes nothing
/// and does not reach the engine.
pub proof fn lemma_resize_to_current_size<H>(c: Canvas<H>)
    requires
        c.wf(),
    ensures
        resize_plan(c.spec_width(), c.spec_height(), c.spec_width(), c.spec_height())
            == ResizePlan::Unchanged,
{
}

/// Once a display is registered on a canvas, the canvas cannot be released
/// (see `Canvas::attach` and `Canvas::release`).
pub proof fn lemma_attached_canvas_not_released<H>(before: Canvas<H>, after: Canvas<H>, t: u64)
    requires
        after.attached() == before.attached().insert(t),
    ensures
        !after.attached().is_empty(),
{
    assert(after.attached().contains(t));
}

} // verus!
