//! The closed set of failures the capture core reports.

use vstd::prelude::*;

verus! {

/// Everything a public operation of this crate can fail with.
///
/// Platform-call failures are carried as `DirectxError` with the underlying
/// result code; conversion-layer failures arriving from adapters built on
/// top of the raw buffer are carried as `OpencvError` with their message.
#[derive(Debug, PartialEq, Eq)]
pub enum CaptureError {
    /// The session was never started or has already been closed.
    NotActive,
    /// No frame is currently available for readback.
    NoTexture,
    /// The staging texture was created without CPU read access.
    DeniedAccessCpuRead,
    /// A platform call failed; carries the platform's result code.
    DirectxError(i32),
    /// A downstream conversion layer failed; carries its message.
    OpencvError(String),
    /// The texture is not a staging resource and cannot be mapped directly.
    UnsupportedBufferType,
    /// The texture's pixel format is not the supported 32-bit BGRA format;
    /// carries the offending format code.
    UnsupportedPixelFormat(u32),
}

} // verus!
