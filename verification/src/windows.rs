//! The decisions of the Win32 backend.
//!
//! Win32 delivers input as numbered messages to a window procedure, and takes
//! flags and command codes as integers. The functions here read those
//! messages and compute those integers; the calls themselves are made by the
//! platform glue.

pub mod menu;
pub mod menu_bar;
pub mod msg;
pub mod popup;
pub mod tray;
pub mod util;
