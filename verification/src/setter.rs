//! The request that goes to the wallpaper setter of the platform.

use vstd::prelude::*;
use crate::error::IoError;

verus! {

/// What the wallpaper setter of the platform is asked to do.
#[derive(Debug, PartialEq, Eq)]
pub struct SetterRequest {
    /// The image file, as text.
    pub path: String,
    /// Whether the 32-bit variant of the platform call is to be used, on
    /// platforms that have one.
    pub force_32bit: bool,
    /// The helper program that sets the wallpaper, on platforms that need
    /// one.
    pub feh_path: String,
}

/// Prepares the setting of `path` as wallpaper. The setter takes the path
/// as text, so a path that has no text form (`None`) is refused with
/// `IoError::PathNotText`; every other path gives the request to carry out,
/// with the path and the options unchanged.
pub fn set_wallpaper(path: Option<&str>, force_32bit: bool, feh_path: &str) -> (request: Result<
    SetterRequest,
    IoError,
>)
    ensures
        path is None ==> request == Err::<SetterRequest, IoError>(IoError::PathNotText),
        path matches Some(text) ==> request matches Ok(r) && r.path@ == text@ && r.force_32bit
            == force_32bit && r.feh_path@ == feh_path@,
{
    match path {
        None => Err(IoError::PathNotText),
        Some(text) => Ok(
            SetterRequest { path: text.to_string(), force_32bit, feh_path: feh_path.to_string() },
        ),
    }
}

} // verus!
