//! Core of a retained-mode window compositor: ownership of reference-counted
//! foreign objects, the device-creation dependency chain, a draw-session and
//! resize protocol for a virtual drawing surface, and the single-threaded
//! event dispatch that ties them together.
//!
//! The foreign world (drivers, the compositor service, the window system) is
//! represented by an explicit object table and by scripted status codes, so
//! that every rule of the protocol is stated and checked rather than assumed.

pub mod comptr;
pub mod dcomp;
pub mod draw;
pub mod load;
pub mod main_win;
pub mod util;
pub mod window;
pub mod wstr;
