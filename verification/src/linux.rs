//! The decisions of the StatusNotifierItem backend.
//!
//! On Linux a tray icon is an object on the session bus that the desktop
//! asks for its properties and tells of clicks. The bus itself is served by
//! the platform glue, on a thread of its own; what the object answers and
//! what a call means is decided here.

pub mod dbus_interface;
pub mod tray;
pub mod util;
