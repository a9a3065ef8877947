//! Selection, caching and fallback policy of a wallpaper changer.
//!
//! The library decides which image becomes the desktop background: a file
//! already present in the image cache, or a fresh download of one of the
//! configured URLs. It performs no input or output itself. Callers feed it
//! plain values (the text of the URL file, the names found in the cache
//! directory, the outcome of a probe or of a transfer) and carry out the
//! steps it hands back.
//!
//! - [`urls`] reads the URL list out of a text.
//! - [`hash`] gives each URL its cache key.
//! - [`cache`] lists the cache directory and names its files.
//! - [`fetch`] orders the steps of a download.
//! - [`select`] draws the candidates of a run.
//! - [`policy`] decides which file a run sets as wallpaper.
//! - [`setter`] prepares the request to the wallpaper setter.

pub mod cache;
pub mod error;
pub mod fetch;
pub mod hash;
pub mod policy;
pub mod select;
pub mod setter;
mod text;
pub mod urls;
