//! Menu bars: the menu of an application or of a window.
//!
//! Where the platform has one menu bar for the application it is global;
//! elsewhere it is attached to a window.

use crate::input::RawWindowHandle;
use crate::menu::{MenuEntry, Submenu};
use core::cmp::Ordering;
use vstd::prelude::*;
use vstd::std_specs::cmp::PartialOrdSpecImpl;

verus! {

/// Identifier of a menu bar, unique among the live ones of a process.
///
/// Every event that a menu bar emits carries the identifier of its source.
#[derive(Copy, Clone, Debug, PartialEq, Eq, Ord, Hash, Structural)]
pub struct MenuBarId(usize);

impl View for MenuBarId {
    type V = usize;

    /// The integer that the identifier stands for.
    closed spec fn view(&self) -> usize {
        self.0
    }
}

impl PartialOrd for MenuBarId {
    /// Identifiers are ordered by their integers.
    fn partial_cmp(&self, other: &Self) -> (r: Option<Ordering>) {
        if self.0 < other.0 {
            Some(Ordering::Less)
        } else if self.0 > other.0 {
            Some(Ordering::Greater)
        } else {
            Some(Ordering::Equal)
        }
    }
}

impl PartialOrdSpecImpl for MenuBarId {
    open spec fn obeys_partial_cmp_spec() -> bool {
        true
    }

    /// The order of two identifiers is the order of their integers.
    open spec fn partial_cmp_spec(&self, other: &Self) -> Option<Ordering> {
        if self@ < other@ {
            Some(Ordering::Less)
        } else if self@ > other@ {
            Some(Ordering::Greater)
        } else {
            Some(Ordering::Equal)
        }
    }
}

impl MenuBarId {
    /// The underlying integer, for passing across a native boundary or storing
    /// in an atomic.
    pub fn into_raw(self) -> (raw: usize)
        ensures
            raw == self@,
    {
        self.0
    }

    /// Rebuilds an identifier from an integer given out by [`MenuBarId::into_raw`].
    pub fn from_raw(id: usize) -> (this: Self)
        ensures
            this@ == id,
    {
        MenuBarId(id)
    }

    /// Two identifiers with the same integer are the same identifier.
    pub proof fn lemma_view_injective(a: Self, b: Self)
        ensures
            a@ == b@ <==> a == b,
    {
    }
}


/// A top-level menu of a menu bar, for example "File" or "Edit".
#[derive(Debug, Clone)]
pub struct TopLevelMenu<T> {
    /// The text shown in the menu bar.
    pub label: String,
    /// The entries of the menu.
    pub items: Vec<MenuEntry<T>>,
}

impl<T> TopLevelMenu<T> {
    pub fn new(label: &str, items: Vec<MenuEntry<T>>) -> (menu: Self)
        ensures
            menu.label@ == label@,
            menu.items == items,
    {
        TopLevelMenu { label: label.to_owned(), items }
    }

    /// The top-level menu with the label and the entries of a submenu. The
    /// submenu's enabled flag has no place in a menu bar and is dropped.
    pub fn from(submenu: Submenu<T>) -> (menu: Self)
        ensures
            menu.label == submenu.label,
            menu.items == submenu.items,
    {
        TopLevelMenu { label: submenu.label, items: submenu.items }
    }
}

/// What a menu bar reports.
#[derive(Debug, Clone, PartialEq)]
pub enum MenuBarEvent<T = ()> {
    /// An item of the menu bar was clicked.
    MenuItemClicked {
        /// What the application calls the item.
        id: T,
    },
}

/// How a menu bar is to be created.
#[derive(Debug, Clone)]
pub struct MenuBarAttributes<T = ()> {
    /// The top-level menus, left to right.
    pub menus: Vec<TopLevelMenu<T>>,
    /// The window that the menu bar is attached to, where the platform
    /// attaches menu bars to windows.
    pub parent_window: Option<RawWindowHandle>,
}

impl<T> Default for MenuBarAttributes<T> {
    /// No menus and no parent window.
    fn default() -> (attr: Self)
        ensures
            attr.menus@ == Seq::<TopLevelMenu<T>>::empty(),
            attr.parent_window is None,
    {
        MenuBarAttributes { menus: Vec::new(), parent_window: None }
    }
}

impl<T> MenuBarAttributes<T> {
    /// A menu bar with the given menus and no parent window.
    pub fn new(menus: Vec<TopLevelMenu<T>>) -> (attr: Self)
        ensures
            attr.menus == menus,
            attr.parent_window is None,
    {
        MenuBarAttributes { menus, parent_window: None }
    }

    /// Sets the top-level menus.
    pub fn with_menus(self, menus: Vec<TopLevelMenu<T>>) -> (attr: Self)
        ensures
            attr == (MenuBarAttributes { menus, ..self }),
    {
        MenuBarAttributes { menus, ..self }
    }

    /// Sets the window that the menu bar is attached to.
    pub fn with_parent_window(self, parent_window: RawWindowHandle) -> (attr: Self)
        ensures
            attr == (MenuBarAttributes { parent_window: Some(parent_window), ..self }),
    {
        MenuBarAttributes { parent_window: Some(parent_window), ..self }
    }
}

} // verus!
