//! Tray icons: persistent icons in the notification area.

use crate::icon::Icon;
use crate::input::{ElementState, MouseButton, PhysicalPosition, RawWindowHandle};
use crate::menu::MenuEntry;
use vstd::prelude::*;

verus! {

/// What a tray icon reports.
#[derive(Debug, Clone, PartialEq)]
pub enum TrayEvent<T = ()> {
    /// A pointer button went down or came up over the icon.
    PointerButton {
        state: ElementState,
        /// Where the pointer was, in screen coordinates.
        position: PhysicalPosition,
        button: MouseButton,
    },
    /// An item of the icon's menu was clicked.
    MenuItemClicked {
        /// What the application calls the item.
        id: T,
    },
}

/// How a tray icon is to be created.
#[derive(Debug, Clone)]
pub struct TrayAttributes<T = ()> {
    /// The text shown when the pointer rests on the icon.
    pub tooltip: Option<String>,
    /// The name of the window class, where the platform has such a thing.
    pub class_name: String,
    pub icon: Option<Icon>,
    /// The window that owns the icon.
    pub parent_window: Option<RawWindowHandle>,
    /// The menu of the icon.
    pub menu: Option<Vec<MenuEntry<T>>>,
    /// The button that opens the menu.
    pub menu_on_button: MouseButton,
}

impl<T> Default for TrayAttributes<T> {
    /// An icon without tooltip, image, parent and menu, whose menu would open
    /// on the right button.
    fn default() -> (attr: Self)
        ensures
            attr.tooltip is None,
            attr.icon is None,
            attr.class_name@ == "Window Tray Class"@,
            attr.parent_window is None,
            attr.menu is None,
            attr.menu_on_button == MouseButton::Right,
    {
        TrayAttributes {
            tooltip: None,
            icon: None,
            class_name: "Window Tray Class".to_owned(),
            parent_window: None,
            menu: None,
            menu_on_button: MouseButton::Right,
        }
    }
}

impl<T> TrayAttributes<T> {
    /// Sets the text shown when the pointer rests on the icon.
    pub fn with_tooltip(self, title: String) -> (attr: Self)
        ensures
            attr == (TrayAttributes { tooltip: Some(title), ..self }),
    {
        TrayAttributes { tooltip: Some(title), ..self }
    }

    /// Sets or removes the image of the icon.
    pub fn with_icon(self, icon: Option<Icon>) -> (attr: Self)
        ensures
            attr == (TrayAttributes { icon, ..self }),
    {
        TrayAttributes { icon, ..self }
    }

    /// Sets the name of the window class. Two windows of different kinds
    /// must not share one.
    pub fn with_class_name(self, class_name: String) -> (attr: Self)
        ensures
            attr == (TrayAttributes { class_name, ..self }),
    {
        TrayAttributes { class_name, ..self }
    }

    /// Sets the window that owns the icon.
    pub fn with_parent_window(self, parent_window: RawWindowHandle) -> (attr: Self)
        ensures
            attr == (TrayAttributes { parent_window: Some(parent_window), ..self }),
    {
        TrayAttributes { parent_window: Some(parent_window), ..self }
    }

    /// Sets the menu of the icon. It opens on a click with the button set by
    /// [`TrayAttributes::with_menu_on_button`], the right one by default.
    pub fn with_menu(self, menu: Vec<MenuEntry<T>>) -> (attr: Self)
        ensures
            attr == (TrayAttributes { menu: Some(menu), ..self }),
    {
        TrayAttributes { menu: Some(menu), ..self }
    }

    /// Sets the button that opens the menu.
    pub fn with_menu_on_button(self, button: MouseButton) -> (attr: Self)
        ensures
            attr == (TrayAttributes { menu_on_button: button, ..self }),
    {
        TrayAttributes { menu_on_button: button, ..self }
    }
}

} // verus!
