//! The decision logic around the native tray handle.
//!
//! The handle itself is an OS resource that the shell owns for the
//! process lifetime; registering it can fail, and failure is non-fatal:
//! the application continues with the tray features disabled. This
//! module decides the outcome of a registration attempt from plain
//! values: whether the bitmap is acceptable, and whether the platform
//! accepted the icon.

use vstd::prelude::*;

use crate::icon::TrayIconBitmap;
use crate::icon::ICON_BYTES;

verus! {

/// Why a tray handle could not be created.
#[derive(Clone, Copy, Debug, PartialEq, Eq, Structural)]
pub enum TrayError {
    /// The OS refused to register a tray icon (no tray service running).
    PlatformUnsupported,
    /// The bitmap does not have the exact size the tray requires.
    IconRejected,
}

/// Checks a bitmap against the tray's requirement: exactly the fixed
/// icon dimensions, 4 bytes per pixel. This is the acceptance rule the
/// native icon constructor applies to a raw RGBA buffer.
pub fn check_icon(bitmap: &TrayIconBitmap) -> (r: Result<(), TrayError>)
    ensures
        (r is Ok) == bitmap.wf(),
        !bitmap.wf() ==> r == Err::<(), TrayError>(TrayError::IconRejected),
{
    if bitmap.len() == ICON_BYTES {
        Ok(())
    } else {
        Err(TrayError::IconRejected)
    }
}

/// The outcome of a tray registration attempt: a malformed bitmap is
/// rejected before the platform is asked at all, and a platform refusal
/// reports the missing tray support. Only when both steps pass does a
/// handle exist.
pub fn classify_registration(bitmap: &TrayIconBitmap, platform_accepted: bool) -> (r: Result<
    (),
    TrayError,
>)
    ensures
        !bitmap.wf() ==> r == Err::<(), TrayError>(TrayError::IconRejected),
        bitmap.wf() && !platform_accepted ==> r == Err::<(), TrayError>(
            TrayError::PlatformUnsupported,
        ),
        bitmap.wf() && platform_accepted ==> r is Ok,
        (r is Ok) == (bitmap.wf() && platform_accepted),
{
    match check_icon(bitmap) {
        Err(e) => Err(e),
        Ok(()) => {
            if platform_accepted {
                Ok(())
            } else {
                Err(TrayError::PlatformUnsupported)
            }
        },
    }
}

} // verus!
