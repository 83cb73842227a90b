use vstd::prelude::*;

verus! {

/// A failure of the engine, translated into a closed set of kinds.
#[derive(Clone, Copy, Debug, PartialEq, Eq, Structural)]
pub enum CacaError {
    NotEnoughMemory,
    FailedToOpenGraphicsDevice,
    InvalidSize,
    InvalidMaskSize,
    CanvasInUse,
    InvalidRefreshDelay,
    WindowTitleUnsupported,
    MousePointerUnsupported,
    MouseCursorUnsupported,
    InvalidDitherParams,
    InvalidBrightness,
    InvalidGamma,
    InvalidContrast,
    InvalidFrameIndex,
    Unknown(i32),
}

pub type CacaResult = Result<(), CacaError>;

/// What the platform's error register says, sorted into the causes that the
/// engine is documented to report.
#[derive(Clone, Copy, Debug, PartialEq, Eq, Structural)]
pub enum Cause {
    InvalidArgument,
    OutOfMemory,
    NoDevice,
    Busy,
    Unsupported,
    Other,
}

/// A snapshot of the error register, taken right after an engine call that
/// reported failure: the raw code and its cause.
#[derive(Clone, Copy, Debug, PartialEq, Eq, Structural)]
pub struct Signal {
    pub code: i32,
    pub cause: Cause,
}

/// The engine operation whose failure is being diagnosed. The same raw code
/// means different things after different operations.
#[derive(Clone, Copy, Debug, PartialEq, Eq, Structural)]
pub enum Op {
    CreateCanvas,
    CreateDisplay,
    SetDisplayDriver,
    SetDisplayTime,
    SetDisplayTitle,
    SetMouse,
    SetCursor,
    Blit,
    SetBoundaries,
    SetFrame,
    SetFrameName,
    CreateFrame,
    FreeFrame,
    CreateDither,
    SetBrightness,
    SetGamma,
    SetContrast,
}

/// The kind of failure that `signal` stands for after `op` failed. Each
/// operation recognises its own causes, in the order listed; any other
/// signal is passed on as `Unknown` with its raw code.
pub open spec fn failure_of(op: Op, signal: Signal) -> CacaError {
    let c = signal.cause;
    match op {
        Op::CreateCanvas => if c == Cause::OutOfMemory {
            CacaError::NotEnoughMemory
        } else if c == Cause::InvalidArgument {
            CacaError::InvalidSize
        } else {
            CacaError::Unknown(signal.code)
        },
        Op::CreateDisplay => if c == Cause::InvalidArgument {
            CacaError::InvalidSize
        } else if c == Cause::OutOfMemory {
            CacaError::NotEnoughMemory
        } else if c == Cause::NoDevice {
            CacaError::FailedToOpenGraphicsDevice
        } else {
            CacaError::Unknown(signal.code)
        },
        Op::SetDisplayDriver => CacaError::Unknown(signal.code),
        Op::SetDisplayTime => if c == Cause::InvalidArgument {
            CacaError::InvalidRefreshDelay
        } else {
            CacaError::Unknown(signal.code)
        },
        Op::SetDisplayTitle => if c == Cause::Unsupported {
            CacaError::WindowTitleUnsupported
        } else {
            CacaError::Unknown(signal.code)
        },
        Op::SetMouse => if c == Cause::Unsupported {
            CacaError::MousePointerUnsupported
        } else {
            CacaError::Unknown(signal.code)
        },
        Op::SetCursor => if c == Cause::Unsupported {
            CacaError::MouseCursorUnsupported
        } else {
            CacaError::Unknown(signal.code)
        },
        Op::Blit => if c == Cause::InvalidArgument {
            CacaError::InvalidMaskSize
        } else {
            CacaError::Unknown(signal.code)
        },
        Op::SetBoundaries => if c == Cause::InvalidArgument {
            CacaError::InvalidSize
        } else if c == Cause::Busy {
            CacaError::CanvasInUse
        } else if c == Cause::OutOfMemory {
            CacaError::NotEnoughMemory
        } else {
            CacaError::Unknown(signal.code)
        },
        Op::SetFrame | Op::FreeFrame => if c == Cause::InvalidArgument {
            CacaError::InvalidFrameIndex
        } else {
            CacaError::Unknown(signal.code)
        },
        Op::SetFrameName | Op::CreateFrame => if c == Cause::OutOfMemory {
            CacaError::NotEnoughMemory
        } else {
            CacaError::Unknown(signal.code)
        },
        Op::CreateDither => if c == Cause::InvalidArgument {
            CacaError::InvalidDitherParams
        } else if c == Cause::OutOfMemory {
            CacaError::NotEnoughMemory
        } else {
            CacaError::Unknown(signal.code)
        },
        Op::SetBrightness => if c == Cause::InvalidArgument {
            CacaError::InvalidBrightness
        } else {
            CacaError::Unknown(signal.code)
        },
        Op::SetGamma => if c == Cause::InvalidArgument {
            CacaError::InvalidGamma
        } else {
            CacaError::Unknown(signal.code)
        },
        Op::SetContrast => if c == Cause::InvalidArgument {
            CacaError::InvalidContrast
        } else {
            CacaError::Unknown(signal.code)
        },
    }
}

/// The result of an engine call that ended as `outcome`: success passes
/// through, a failure is translated in the context of `op`.
pub open spec fn result_of<T>(op: Op, outcome: Result<T, Signal>) -> Result<T, CacaError> {
    match outcome {
        Ok(v) => Ok(v),
        Err(s) => Err(failure_of(op, s)),
    }
}

/// Translates the signal read after `op` failed.
pub fn translate(op: Op, signal: Signal) -> (r: CacaError)
    ensures
        r == failure_of(op, signal),
{
    let c = signal.cause;
    let unknown = CacaError::Unknown(signal.code);
    match op {
        Op::CreateCanvas => match c {
            Cause::OutOfMemory => CacaError::NotEnoughMemory,
            Cause::InvalidArgument => CacaError::InvalidSize,
            _ => unknown,
        },
        Op::CreateDisplay => match c {
            Cause::InvalidArgument => CacaError::InvalidSize,
            Cause::OutOfMemory => CacaError::NotEnoughMemory,
            Cause::NoDevice => CacaError::FailedToOpenGraphicsDevice,
            _ => unknown,
        },
        Op::SetDisplayDriver => unknown,
        Op::SetDisplayTime => match c {
            Cause::InvalidArgument => CacaError::InvalidRefreshDelay,
            _ => unknown,
        },
        Op::SetDisplayTitle => match c {
            Cause::Unsupported => CacaError::WindowTitleUnsupported,
            _ => unknown,
        },
        Op::SetMouse => match c {
            Cause::Unsupported => CacaError::MousePointerUnsupported,
            _ => unknown,
        },
        Op::SetCursor => match c {
            Cause::Unsupported => CacaError::MouseCursorUnsupported,
            _ => unknown,
        },
        Op::Blit => match c {
            Cause::InvalidArgument => CacaError::InvalidMaskSize,
            _ => unknown,
        },
        Op::SetBoundaries => match c {
            Cause::InvalidArgument => CacaError::InvalidSize,
            Cause::Busy => CacaError::CanvasInUse,
            Cause::OutOfMemory => CacaError::NotEnoughMemory,
            _ => unknown,
        },
        Op::SetFrame | Op::FreeFrame => match c {
            Cause::InvalidArgument => CacaError::InvalidFrameIndex,
            _ => unknown,
        },
        Op::SetFrameName | Op::CreateFrame => match c {
            Cause::OutOfMemory => CacaError::NotEnoughMemory,
            _ => unknown,
        },
        Op::CreateDither => match c {
            Cause::InvalidArgument => CacaError::InvalidDitherParams,
            Cause::OutOfMemory => CacaError::NotEnoughMemory,
            _ => unknown,
        },
        Op::SetBrightness => match c {
            Cause::InvalidArgument => CacaError::InvalidBrightness,
            _ => unknown,
        },
        Op::SetGamma => match c {
            Cause::InvalidArgument => CacaError::InvalidGamma,
            _ => unknown,
        },
        Op::SetContrast => match c {
            Cause::InvalidArgument => CacaError::InvalidContrast,
            _ => unknown,
        },
    }
}

/// The typed result of a status-returning engine call: success, or the
/// failure that the signal taken right after it stands for.
pub fn check(op: Op, outcome: Result<(), Signal>) -> (r: CacaResult)
    ensures
        r == result_of(op, outcome),
{
    match outcome {
        Ok(()) => Ok(()),
        Err(s) => Err(translate(op, s)),
    }
}

} // verus!
