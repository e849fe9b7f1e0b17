//! The decisions of the AppKit backend.
//!
//! AppKit delivers input as messages to target objects and wants every call
//! on the main thread. The objects are made by the platform glue; which
//! event a message stands for, and what a click on a status item does, is
//! decided here.

pub mod context_menu;
pub mod menu_bar;
pub mod tray;
pub mod util;
