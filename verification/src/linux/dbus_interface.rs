//! What a tray icon answers on the bus, and what the calls of the desktop
//! mean.

use crate::input::{ElementState, MouseButton, PhysicalPosition};
use crate::linux::util::SniIcon;
use crate::tray::TrayEvent;
use crate::tray_id::TrayId;
use vstd::prelude::*;
use vstd::string::StringExecFns;

verus! {

/// The state behind the `org.kde.StatusNotifierItem` interface of one tray
/// icon.
#[derive(Debug)]
pub struct StatusNotifierItemInterface {
    /// The name that is unique to this icon.
    pub id: String,
    /// The title, which is also the tooltip.
    pub title: String,
    /// The pixmaps of the icon.
    pub icon_pixmap: Vec<SniIcon>,
    /// The identifier that the icon's events carry.
    pub tray_id: TrayId,
    /// The object path of the icon's menu.
    pub menu: Option<String>,
}

/// The release of `button` at (`x`, `y`).
pub open spec fn released<T>(button: MouseButton, x: i32, y: i32) -> TrayEvent<T> {
    TrayEvent::PointerButton {
        state: ElementState::Released,
        position: PhysicalPosition { x, y },
        button,
    }
}

impl StatusNotifierItemInterface {
    /// The desktop activated the icon, which is what a click with the left
    /// button does: the left button was released at (`x`, `y`).
    pub fn activate<T>(&self, x: i32, y: i32) -> (report: (TrayId, TrayEvent<T>))
        ensures
            report == (self.tray_id, released::<T>(MouseButton::Left, x, y)),
    {
        (
            self.tray_id,
            TrayEvent::PointerButton {
                state: ElementState::Released,
                position: PhysicalPosition::new(x, y),
                button: MouseButton::Left,
            },
        )
    }

    /// The desktop activated the icon in the secondary way, which is what a
    /// click with the right button does: the right button was released at
    /// (`x`, `y`).
    pub fn secondary_activate<T>(&self, x: i32, y: i32) -> (report: (TrayId, TrayEvent<T>))
        ensures
            report == (self.tray_id, released::<T>(MouseButton::Right, x, y)),
    {
        (
            self.tray_id,
            TrayEvent::PointerButton {
                state: ElementState::Released,
                position: PhysicalPosition::new(x, y),
                button: MouseButton::Right,
            },
        )
    }

    /// The user scrolled over the icon. There is no event for scrolling; it is
    /// reported as a release of the middle button at the origin, whatever the
    /// amount and the direction.
    pub fn scroll<T>(&self, delta: i32, orientation: &str) -> (report: (TrayId, TrayEvent<T>))
        ensures
            report == (self.tray_id, released::<T>(MouseButton::Middle, 0, 0)),
    {
        (
            self.tray_id,
            TrayEvent::PointerButton {
                state: ElementState::Released,
                position: PhysicalPosition::new(0, 0),
                button: MouseButton::Middle,
            },
        )
    }

    /// The name that is unique to this icon.
    pub fn id(&self) -> (id: &str)
        ensures
            id@ == self.id@,
    {
        self.id.as_str()
    }

    /// The title of the icon.
    pub fn title(&self) -> (title: &str)
        ensures
            title@ == self.title@,
    {
        self.title.as_str()
    }

    /// The category: the icon shows the status of an application.
    pub fn category(&self) -> (category: &'static str)
        ensures
            category@ == "ApplicationStatus"@,
    {
        "ApplicationStatus"
    }

    /// The status: the icon is always active.
    pub fn status(&self) -> (status: &'static str)
        ensures
            status@ == "Active"@,
    {
        "Active"
    }

    /// The window of the icon, of which there is none.
    pub fn window_id(&self) -> (id: i32)
        ensures
            id == 0,
    {
        0
    }

    /// The name of a themed icon: empty, as the icon comes as pixmaps.
    pub fn icon_name(&self) -> (name: &'static str)
        ensures
            name@ == ""@,
    {
        ""
    }

    /// The pixmaps of the icon.
    pub fn icon_pixmap(&self) -> (pixmaps: &Vec<SniIcon>)
        ensures
            pixmaps == self.icon_pixmap,
    {
        &self.icon_pixmap
    }

    /// The name of an overlay icon, of which there is none.
    pub fn overlay_icon_name(&self) -> (name: &'static str)
        ensures
            name@ == ""@,
    {
        ""
    }

    /// The pixmaps of an overlay icon, of which there is none.
    pub fn overlay_icon_pixmap(&self) -> (pixmaps: Vec<SniIcon>)
        ensures
            pixmaps@.len() == 0,
    {
        Vec::new()
    }

    /// The name of an attention icon, of which there is none.
    pub fn attention_icon_name(&self) -> (name: &'static str)
        ensures
            name@ == ""@,
    {
        ""
    }

    /// The pixmaps of an attention icon, of which there is none.
    pub fn attention_icon_pixmap(&self) -> (pixmaps: Vec<SniIcon>)
        ensures
            pixmaps@.len() == 0,
    {
        Vec::new()
    }

    /// The name of an attention movie, of which there is none.
    pub fn attention_movie_name(&self) -> (name: &'static str)
        ensures
            name@ == ""@,
    {
        ""
    }

    /// The tooltip: no icon name, no pixmaps, the title, and no description.
    pub fn tool_tip(&self) -> (tip: (String, Vec<SniIcon>, String, String))
        ensures
            tip.0@.len() == 0,
            tip.1@.len() == 0,
            tip.2@ == self.title@,
            tip.3@.len() == 0,
    {
        (String::new(), Vec::new(), self.title.clone(), String::new())
    }

    /// The path where themed icons are looked for: none.
    pub fn icon_theme_path(&self) -> (path: &'static str)
        ensures
            path@ == ""@,
    {
        ""
    }

    /// The object path of the icon's menu, or the root path if it has none.
    pub fn menu(&self) -> (path: String)
        ensures
            path@ == match self.menu {
                Some(menu) => menu@,
                None => "/"@,
            },
    {
        match &self.menu {
            Some(menu) => menu.clone(),
            None => String::from_str("/"),
        }
    }

    /// Whether the icon is nothing but a menu: it is not.
    pub fn item_is_menu(&self) -> (is_menu: bool)
        ensures
            !is_menu,
    {
        false
    }
}

} // verus!
