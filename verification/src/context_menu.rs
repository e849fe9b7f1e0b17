//! Context menus: transient menus shown at a pointer or at a given position.

use crate::input::{ElementState, MouseButton, PhysicalPosition, PhysicalSize};
use crate::menu::MenuEntry;
use core::cmp::Ordering;
use vstd::prelude::*;
use vstd::std_specs::cmp::PartialOrdSpecImpl;

verus! {

/// Identifier of a context-menu window, unique among the live ones of a process.
///
/// Every event that a context-menu window emits carries the identifier of
/// its source.
#[derive(Copy, Clone, Debug, PartialEq, Eq, Ord, Hash, Structural)]
pub struct ContextMenuWindowId(usize);

impl View for ContextMenuWindowId {
    type V = usize;

    /// The integer that the identifier stands for.
    closed spec fn view(&self) -> usize {
        self.0
    }
}

impl PartialOrd for ContextMenuWindowId {
    /// Identifiers are ordered by their integers.
    fn partial_cmp(&self, other: &Self) -> (r: Option<Ordering>) {
        if self.0 < other.0 {
            Some(Ordering::Less)
        } else if self.0 > other.0 {
            Some(Ordering::Greater)
        } else {
            Some(Ordering::Equal)
        }
    }
}

impl PartialOrdSpecImpl for ContextMenuWindowId {
    open spec fn obeys_partial_cmp_spec() -> bool {
        true
    }

    /// The order of two identifiers is the order of their integers.
    open spec fn partial_cmp_spec(&self, other: &Self) -> Option<Ordering> {
        if self@ < other@ {
            Some(Ordering::Less)
        } else if self@ > other@ {
            Some(Ordering::Greater)
        } else {
            Some(Ordering::Equal)
        }
    }
}

impl ContextMenuWindowId {
    /// The underlying integer, for passing across a native boundary or storing
    /// in an atomic.
    pub fn into_raw(self) -> (raw: usize)
        ensures
            raw == self@,
    {
        self.0
    }

    /// Rebuilds an identifier from an integer given out by [`ContextMenuWindowId::into_raw`].
    pub fn from_raw(id: usize) -> (this: Self)
        ensures
            this@ == id,
    {
        ContextMenuWindowId(id)
    }

    /// Two identifiers with the same integer are the same identifier.
    pub proof fn lemma_view_injective(a: Self, b: Self)
        ensures
            a@ == b@ <==> a == b,
    {
    }
}


/// Why a context-menu window was closed.
#[derive(Copy, Clone, Debug, PartialEq, Eq, Hash, Structural)]
pub enum ContextMenuCloseReason {
    /// The timer for automatic dismissal ran out.
    Timeout,
    /// The user clicked outside.
    ClickOutside,
    /// The application asked for it.
    Explicit,
}

/// What a context-menu window reports.
#[derive(Debug, Clone, PartialEq)]
pub enum ContextMenuEvent<T = ()> {
    /// A pointer button went down or came up.
    PointerButton {
        state: ElementState,
        /// Where the pointer was, in screen coordinates.
        position: PhysicalPosition,
        button: MouseButton,
    },
    /// The window was closed.
    Closed { reason: ContextMenuCloseReason },
    /// An item of the window's menu was clicked.
    MenuItemClicked {
        /// What the application calls the item.
        id: T,
    },
}

/// How a context-menu window is to be created.
#[derive(Debug, Clone)]
pub struct ContextMenuAttributes<T = ()> {
    /// Where the window appears, in screen coordinates.
    pub position: PhysicalPosition,
    /// The size of the window.
    pub size: PhysicalSize,
    /// After how many milliseconds the window closes by itself; `None` for
    /// never.
    pub auto_dismiss_ms: Option<u32>,
    /// Whether a click outside the window closes it.
    pub close_on_click_outside: bool,
    /// Whether the window stays above other windows.
    pub topmost: bool,
    /// The name of the window class, where the platform has such a thing.
    pub class_name: String,
    /// The menu that a right click inside the window opens.
    pub menu: Option<Vec<MenuEntry<T>>>,
}

impl<T> Default for ContextMenuAttributes<T> {
    /// A window of 200 by 100 pixels at the origin that stays on top, closes
    /// on a click outside and never by itself, and has no menu.
    fn default() -> (attr: Self)
        ensures
            attr.position == (PhysicalPosition { x: 0, y: 0 }),
            attr.size == (PhysicalSize { width: 200, height: 100 }),
            attr.auto_dismiss_ms is None,
            attr.close_on_click_outside,
            attr.topmost,
            attr.class_name@ == "WinitContextMenu"@,
            attr.menu is None,
    {
        ContextMenuAttributes {
            position: PhysicalPosition::new(0, 0),
            size: PhysicalSize::new(200, 100),
            auto_dismiss_ms: None,
            close_on_click_outside: true,
            topmost: true,
            class_name: "WinitContextMenu".to_owned(),
            menu: None,
        }
    }
}

impl<T> ContextMenuAttributes<T> {
    /// Sets where the window appears, in screen coordinates.
    pub fn with_position(self, position: PhysicalPosition) -> (attr: Self)
        ensures
            attr == (ContextMenuAttributes { position, ..self }),
    {
        ContextMenuAttributes { position, ..self }
    }

    /// Sets the size of the window.
    pub fn with_size(self, size: PhysicalSize) -> (attr: Self)
        ensures
            attr == (ContextMenuAttributes { size, ..self }),
    {
        ContextMenuAttributes { size, ..self }
    }

    /// Sets after how many milliseconds the window closes by itself; `None`
    /// switches this off.
    pub fn with_auto_dismiss_ms(self, ms: Option<u32>) -> (attr: Self)
        ensures
            attr == (ContextMenuAttributes { auto_dismiss_ms: ms, ..self }),
    {
        ContextMenuAttributes { auto_dismiss_ms: ms, ..self }
    }

    /// Sets whether a click outside the window closes it.
    pub fn with_close_on_click_outside(self, close: bool) -> (attr: Self)
        ensures
            attr == (ContextMenuAttributes { close_on_click_outside: close, ..self }),
    {
        ContextMenuAttributes { close_on_click_outside: close, ..self }
    }

    /// Sets whether the window stays above other windows.
    pub fn with_topmost(self, topmost: bool) -> (attr: Self)
        ensures
            attr == (ContextMenuAttributes { topmost, ..self }),
    {
        ContextMenuAttributes { topmost, ..self }
    }

    /// Sets the name of the window class. Two windows of different kinds
    /// must not share one.
    pub fn with_class_name(self, class_name: String) -> (attr: Self)
        ensures
            attr == (ContextMenuAttributes { class_name, ..self }),
    {
        ContextMenuAttributes { class_name, ..self }
    }

    /// Sets the menu that a right click inside the window opens.
    pub fn with_menu(self, menu: Vec<MenuEntry<T>>) -> (attr: Self)
        ensures
            attr == (ContextMenuAttributes { menu: Some(menu), ..self }),
    {
        ContextMenuAttributes { menu: Some(menu), ..self }
    }
}

/// The entry point for showing context menus on windows.
#[derive(Copy, Clone, Debug, PartialEq, Eq, Structural)]
pub struct ContextMenuManager;

impl ContextMenuManager {
    pub fn new() -> (manager: Self)
        ensures
            manager == ContextMenuManager,
    {
        ContextMenuManager
    }
}

impl Default for ContextMenuManager {
    fn default() -> (manager: Self)
        ensures
            manager == ContextMenuManager,
    {
        ContextMenuManager
    }
}

} // verus!
