use caca::{CacaError, CacaResult, Canvas, Cause, Display, Driver, ResizePlan, Signal};

// The engine's part is played by plain values: a handle is a number, and
// each engine call succeeds unless a signal is given.

fn new_canvas(width: i32, height: i32) -> Result<Canvas<u32>, CacaError> {
    Canvas::<u32>::check_size(width, height)?;
    Canvas::from_native(width, height, Ok(7))
}

fn set_size(canvas: &mut Canvas<u32>, width: i32, height: i32) -> CacaResult {
    match canvas.plan_resize(width, height) {
        ResizePlan::Reject(e) => Err(e),
        ResizePlan::Unchanged => Ok(()),
        ResizePlan::Native => canvas.finish_resize(width, height, Ok(())),
    }
}

fn signal(cause: Cause, code: i32) -> Signal {
    Signal { code, cause }
}

#[test]
fn test_resize_canvas() {
    let canvas = new_canvas(100, 100);

    assert!(canvas.is_ok(), "{:?}", canvas.err());
    let mut canvas = canvas.unwrap();

    let result = set_size(&mut canvas, 50, 50);
    assert!(result.is_ok(), "{:?}", result.err());
    assert_eq!(canvas.width(), 50);
    assert_eq!(canvas.height(), 50);

    let result = set_size(&mut canvas, 100, 75);
    assert!(result.is_ok(), "{:?}", result.err());
    assert_eq!(canvas.width(), 100);
    assert_eq!(canvas.height(), 75);

    let result = set_size(&mut canvas, -100, -100);
    assert!(result.is_err());
}

#[test]
fn resize_scenario_keeps_size_after_rejection() {
    let mut canvas = new_canvas(100, 100).unwrap();
    assert_eq!(set_size(&mut canvas, 50, 50), Ok(()));
    assert_eq!((canvas.width(), canvas.height()), (50, 50));
    assert_eq!(set_size(&mut canvas, 100, 75), Ok(()));
    assert_eq!((canvas.width(), canvas.height()), (100, 75));
    assert_eq!(set_size(&mut canvas, -100, -100), Err(CacaError::InvalidSize));
    assert_eq!((canvas.width(), canvas.height()), (100, 75));
}

#[test]
fn create_reports_requested_size() {
    for (w, h) in [(0, 0), (1, 0), (0, 1), (80, 24), (i32::MAX, 3)] {
        let canvas = new_canvas(w, h).unwrap();
        assert_eq!(canvas.width(), w);
        assert_eq!(canvas.height(), h);
        assert_eq!(canvas.handle_x(), 0);
        assert_eq!(canvas.handle_y(), 0);
        assert_eq!(canvas.display_count(), 0);
        assert_eq!(*canvas.handle(), 7);
    }
}

#[test]
fn negative_size_is_rejected_locally() {
    for (w, h) in [(-1, 0), (0, -1), (-5, -5), (i32::MIN, 10)] {
        assert_eq!(Canvas::<u32>::check_size(w, h), Err(CacaError::InvalidSize));
        let canvas = new_canvas(10, 10).unwrap();
        assert_eq!(canvas.plan_resize(w, h), ResizePlan::Reject(CacaError::InvalidSize));
    }
}

#[test]
fn resize_to_current_size_is_noop() {
    let mut canvas = new_canvas(30, 40).unwrap();
    assert_eq!(canvas.plan_resize(30, 40), ResizePlan::Unchanged);
    assert_eq!(set_size(&mut canvas, 30, 40), Ok(()));
    assert_eq!((canvas.width(), canvas.height()), (30, 40));
    assert_eq!(canvas.plan_resize(31, 40), ResizePlan::Native);
}

#[test]
fn create_failure_is_translated() {
    let r = Canvas::<u32>::from_native(5, 5, Err(signal(Cause::OutOfMemory, 12)));
    assert_eq!(r.err(), Some(CacaError::NotEnoughMemory));
    let r = Canvas::<u32>::from_native(5, 5, Err(signal(Cause::InvalidArgument, 22)));
    assert_eq!(r.err(), Some(CacaError::InvalidSize));
    let r = Canvas::<u32>::from_native(5, 5, Err(signal(Cause::Busy, 16)));
    assert_eq!(r.err(), Some(CacaError::Unknown(16)));
}

#[test]
fn resize_failures_busy_and_memory_only() {
    let mut canvas = new_canvas(10, 10).unwrap();
    let r = canvas.finish_resize(20, 20, Err(signal(Cause::Busy, 16)));
    assert_eq!(r, Err(CacaError::CanvasInUse));
    assert_eq!((canvas.width(), canvas.height()), (10, 10));
    let r = canvas.finish_resize(20, 20, Err(signal(Cause::OutOfMemory, 12)));
    assert_eq!(r, Err(CacaError::NotEnoughMemory));
    assert_eq!((canvas.width(), canvas.height()), (10, 10));
    let r = canvas.finish_resize(20, 20, Err(signal(Cause::InvalidArgument, 22)));
    assert_eq!(r, Ok(()));
    assert_eq!((canvas.width(), canvas.height()), (20, 20));
}

#[test]
fn handle_offset_and_observed_size() {
    let mut canvas = new_canvas(10, 10).unwrap();
    canvas.set_handle(3, -4);
    assert_eq!((canvas.handle_x(), canvas.handle_y()), (3, -4));
    canvas.observe_size(12, 0);
    assert_eq!((canvas.width(), canvas.height()), (12, 0));
    assert_eq!((canvas.handle_x(), canvas.handle_y()), (3, -4));
}

#[test]
fn canvas_release_waits_for_displays() {
    let mut canvas = new_canvas(10, 10).unwrap();
    let mut display = Display::<u8>::open(Ok(3), Driver::Null).unwrap();
    assert!(!display.is_attached());
    assert!(canvas.attach(&mut display));
    assert!(display.is_attached());
    assert!(!canvas.attach(&mut display));
    assert_eq!(canvas.display_count(), 1);

    let canvas = match canvas.release() {
        Ok(_) => panic!("a rendered canvas was released"),
        Err(c) => c,
    };
    let display = match display.close() {
        Ok(_) => panic!("an attached display was closed"),
        Err(d) => d,
    };

    let mut canvas = canvas;
    let mut display = display;
    assert!(canvas.detach(&mut display));
    assert!(!canvas.detach(&mut display));
    assert_eq!(canvas.display_count(), 0);
    assert_eq!(display.close().ok(), Some(3));
    assert_eq!(canvas.release().ok(), Some(7));
}

#[test]
fn two_displays_on_one_canvas() {
    let mut canvas = new_canvas(10, 10).unwrap();
    let mut a = Display::<u8>::open(Ok(1), Driver::Raw).unwrap();
    let mut b = Display::<u8>::open(Ok(2), Driver::X11).unwrap();
    assert!(canvas.attach(&mut a));
    assert!(canvas.attach(&mut b));
    assert_eq!(canvas.display_count(), 2);
    assert!(canvas.detach(&mut a));
    assert_eq!(canvas.display_count(), 1);
    let canvas = canvas.release().err().unwrap();
    let mut canvas = canvas;
    assert!(canvas.detach(&mut b));
    assert!(canvas.release().is_ok());
}

#[test]
fn detach_from_other_canvas_is_refused() {
    let mut first = new_canvas(10, 10).unwrap();
    let mut second = new_canvas(10, 10).unwrap();
    let mut display = Display::<u8>::open(Ok(1), Driver::Raw).unwrap();
    assert!(first.attach(&mut display));
    assert!(!second.detach(&mut display));
    assert!(display.is_attached());
    assert_eq!(first.display_count(), 1);
}
