//! The window a listener attaches to, and why a listener could not be made.
use raw_window_handle::HandleError;
use vstd::prelude::*;

use crate::registry::AttachError;

verus! {

/// Why the windowing library could not give a window handle.
#[verifier::external_type_specification]
#[verifier::external_body]
pub struct ExHandleError(HandleError);

/// Relies on the derived `Clone` of `raw_window_handle::HandleError`, whose
/// variants carry no data: the copy equals the original.
pub assume_specification[ <raw_window_handle::HandleError as std::clone::Clone>::clone ](
    e: &raw_window_handle::HandleError,
) -> (r: raw_window_handle::HandleError)
    ensures
        r == *e,
;

/// Why a listener could not be made.
#[derive(Clone, Debug)]
#[non_exhaustive]
pub enum ListenerError {
    /// The handle is not of a Win32 window.
    InvalidHandle,
    /// The windowing library could not give a handle.
    HandleError(HandleError),
    /// The window could not be attached.
    AttachError(AttachError),
}

/// The window a listener attaches to, given the `HWND` of a Win32 handle
/// (`None`: the handle is of another kind, which this platform refuses).
pub fn window_from_hwnd(hwnd: Option<isize>) -> (r: Result<isize, ListenerError>)
    ensures
        r == (match hwnd {
            Some(h) => Ok(h),
            None => Err(ListenerError::InvalidHandle),
        }),
{
    match hwnd {
        Some(h) => Ok(h),
        None => Err(ListenerError::InvalidHandle),
    }
}

} // verus!
