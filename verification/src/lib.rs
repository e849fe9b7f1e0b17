//! Verified core of a tray-icon, popup, menu-bar and context-menu bridge.
//!
//! Native user-interface objects deliver their input through callbacks whose
//! shape differs on every platform. This crate holds the parts of such a
//! bridge that are decisions rather than system calls: how identifiers of menu
//! items map to native command codes, how a menu tree is laid out and torn
//! down, when the record behind a native window may be freed, and in which
//! order queued events reach the application.

pub mod context_menu;
pub mod icon;
pub mod id_map;
pub mod input;
pub mod lifecycle;
pub mod linux;
pub mod macos;
pub mod manager;
pub mod menu;
pub mod menu_bar;
pub mod native_menu;
pub mod popup;
pub mod tray;
pub mod tray_id;
pub mod windows;

pub use context_menu::{
    ContextMenuAttributes, ContextMenuCloseReason, ContextMenuEvent, ContextMenuManager,
    ContextMenuWindowId,
};
pub use icon::{BadIcon, Icon};
pub use id_map::IdMap;
pub use input::{ElementState, MouseButton, PhysicalPosition, PhysicalSize, RawWindowHandle, Rect};
pub use lifecycle::{CreationError, Lifecycle, LifecycleState};
pub use manager::{
    EventQueue, Manager, MenuBarManager, PopupManager, Recv, RecvError, TrayManager, TryRecvError,
};
pub use menu::{MenuEntry, MenuItem, Submenu};
pub use menu_bar::{MenuBarAttributes, MenuBarEvent, MenuBarId, TopLevelMenu};
pub use native_menu::{build_menu, destruction_order, NativeEntry, NativeMenu};
pub use popup::{PopupAttributes, PopupCloseReason, PopupEvent, PopupId};
pub use tray::{TrayAttributes, TrayEvent};
pub use tray_id::TrayId;
