//! Decision core of a desktop sound player: resolving a bundled sound file
//! beneath the application's resource directory, choosing the operating
//! system's playback program and argument list, and phrasing the
//! acknowledgement and diagnostic strings handed back to the front-end.
//!
//! The host runtime queries (resource-directory lookup, the existence probe,
//! the process spawn) are performed by the surrounding application, which
//! feeds their plain results into the functions here; everything that decides
//! or formats is verified.

mod text;
pub mod dispatch;
pub mod errors;
pub mod platform;
pub mod quoting;
pub mod resolver;
