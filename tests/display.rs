use caca::{
    check, translate, whole_millis, CacaError, Cause, Display, Driver, InitOptions, Op, Signal,
    Visibility,
};

fn signal(cause: Cause, code: i32) -> Signal {
    Signal { code, cause }
}

#[test]
fn display_open_translates_in_priority_order() {
    let r = Display::<u8>::open(Err(signal(Cause::InvalidArgument, 22)), Driver::Null);
    assert_eq!(r.err(), Some(CacaError::InvalidSize));
    let r = Display::<u8>::open(Err(signal(Cause::OutOfMemory, 12)), Driver::Null);
    assert_eq!(r.err(), Some(CacaError::NotEnoughMemory));
    let r = Display::<u8>::open(Err(signal(Cause::NoDevice, 19)), Driver::Null);
    assert_eq!(r.err(), Some(CacaError::FailedToOpenGraphicsDevice));
    let r = Display::<u8>::open(Err(signal(Cause::Other, 99)), Driver::Null);
    assert_eq!(r.err(), Some(CacaError::Unknown(99)));
}

#[test]
fn display_open_keeps_driver_and_handle() {
    let d = Display::<u8>::open(Ok(9), Driver::NCurses).unwrap();
    assert_eq!(d.display_driver(), Driver::NCurses);
    assert_eq!(*d.handle(), 9);
    assert!(!d.is_attached());
    assert_eq!(d.close().ok(), Some(9));
}

#[test]
fn display_driver_switch() {
    let mut d = Display::<u8>::open(Ok(1), Driver::Null).unwrap();
    assert_eq!(d.finish_set_display_driver(Driver::SLang, Ok(())), Ok(()));
    assert_eq!(d.display_driver(), Driver::SLang);
    let r = d.finish_set_display_driver(Driver::X11, Err(signal(Cause::NoDevice, 19)));
    assert_eq!(r, Err(CacaError::Unknown(19)));
    assert_eq!(d.display_driver(), Driver::SLang);
}

#[test]
fn status_checks_per_operation() {
    assert_eq!(check(Op::SetDisplayTime, Ok(())), Ok(()));
    assert_eq!(
        check(Op::SetDisplayTime, Err(signal(Cause::InvalidArgument, 22))),
        Err(CacaError::InvalidRefreshDelay)
    );
    assert_eq!(
        check(Op::SetDisplayTitle, Err(signal(Cause::Unsupported, 38))),
        Err(CacaError::WindowTitleUnsupported)
    );
    assert_eq!(
        check(Op::SetMouse, Err(signal(Cause::Unsupported, 38))),
        Err(CacaError::MousePointerUnsupported)
    );
    assert_eq!(
        check(Op::SetCursor, Err(signal(Cause::Unsupported, 38))),
        Err(CacaError::MouseCursorUnsupported)
    );
    assert_eq!(
        check(Op::SetMouse, Err(signal(Cause::InvalidArgument, 22))),
        Err(CacaError::Unknown(22))
    );
}

#[test]
fn every_failure_kind_has_a_source() {
    let cases = [
        (Op::Blit, Cause::InvalidArgument, CacaError::InvalidMaskSize),
        (Op::SetBoundaries, Cause::InvalidArgument, CacaError::InvalidSize),
        (Op::SetBoundaries, Cause::Busy, CacaError::CanvasInUse),
        (Op::SetBoundaries, Cause::OutOfMemory, CacaError::NotEnoughMemory),
        (Op::SetFrame, Cause::InvalidArgument, CacaError::InvalidFrameIndex),
        (Op::FreeFrame, Cause::InvalidArgument, CacaError::InvalidFrameIndex),
        (Op::SetFrameName, Cause::OutOfMemory, CacaError::NotEnoughMemory),
        (Op::CreateFrame, Cause::OutOfMemory, CacaError::NotEnoughMemory),
        (Op::CreateDither, Cause::InvalidArgument, CacaError::InvalidDitherParams),
        (Op::CreateDither, Cause::OutOfMemory, CacaError::NotEnoughMemory),
        (Op::SetBrightness, Cause::InvalidArgument, CacaError::InvalidBrightness),
        (Op::SetGamma, Cause::InvalidArgument, CacaError::InvalidGamma),
        (Op::SetContrast, Cause::InvalidArgument, CacaError::InvalidContrast),
        (Op::CreateCanvas, Cause::OutOfMemory, CacaError::NotEnoughMemory),
        (Op::CreateDisplay, Cause::NoDevice, CacaError::FailedToOpenGraphicsDevice),
        (Op::SetDisplayDriver, Cause::InvalidArgument, CacaError::Unknown(5)),
        (Op::Blit, Cause::Busy, CacaError::Unknown(5)),
    ];
    for (op, cause, expected) in cases {
        assert_eq!(translate(op, signal(cause, 5)), expected);
    }
}

#[test]
fn whole_millis_of_durations() {
    assert_eq!(whole_millis(0, 0), 0);
    assert_eq!(whole_millis(1, 500_000_000), 1500);
    assert_eq!(whole_millis(0, 999_999), 0);
    assert_eq!(whole_millis(2, 1_000_000), 2001);
    assert_eq!(whole_millis(2_147_483, 647_000_000), i32::MAX);
    assert_eq!(whole_millis(2_147_483, 648_000_000), i32::MAX);
    assert_eq!(whole_millis(u64::MAX, 0), i32::MAX);
}

#[test]
fn init_options_default_and_driver_token() {
    let opts = InitOptions::<u32>::default();
    assert!(opts.canvas.is_none());
    assert!(opts.driver.is_none());
    assert!(!opts.buffer_stderr);
    assert_eq!(opts.driver_token(), None);
    let opts =
        InitOptions::<u32> { canvas: None, driver: Some(Driver::Unknown), buffer_stderr: true };
    assert_eq!(opts.driver_token(), Some("null"));
    let opts =
        InitOptions::<u32> { canvas: None, driver: Some(Driver::Win32), buffer_stderr: false };
    assert_eq!(opts.driver_token(), Some("win32"));
}

#[test]
fn visibility_flags() {
    assert_eq!(Visibility::Hide.as_flag(), 0);
    assert_eq!(Visibility::Show.as_flag(), 1);
}
