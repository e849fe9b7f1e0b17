//! Status items: tray icons in the menu bar of the system.

use crate::id_map::{lookup, IdMap};
use crate::input::{ElementState, MouseButton, PhysicalPosition};
use crate::lifecycle::CreationError;
use crate::menu::{menu_ids, MenuEntry};
use crate::native_menu::{appended_clones, build_menu, menu_mirrors, NativeMenu};
use crate::tray::{TrayAttributes, TrayEvent};
use crate::tray_id::TrayId;
use vstd::pervasive::cloned;
use vstd::prelude::*;

verus! {

/// The number by which AppKit calls the middle button.
pub const MIDDLE_BUTTON_NUMBER: isize = 2;

/// A status item that has been created.
#[derive(Copy, Clone, Debug, PartialEq, Eq, Hash, Structural)]
pub struct Tray {
    internal_id: usize,
}

impl View for Tray {
    type V = usize;

    /// The number of the status item.
    closed spec fn view(&self) -> usize {
        self.internal_id
    }
}

/// How a status item is to be created.
#[derive(Debug)]
pub struct TrayPlan<T> {
    pub tray: Tray,
    /// The menu of the status item, if it has one with entries.
    pub menu: Option<NativeMenu>,
    /// The identifiers behind the command codes of the menu.
    pub id_map: IdMap<T>,
    /// The button that opens the menu.
    pub menu_on_button: MouseButton,
}

/// The menu that `attr` asks for, as a sequence of entries; none is the same
/// as one without entries.
pub open spec fn menu_of<T>(menu: Option<Vec<MenuEntry<T>>>) -> Seq<MenuEntry<T>> {
    match menu {
        Some(entries) => entries@,
        None => Seq::empty(),
    }
}

impl Tray {
    /// Lays out the status item with the number `internal_id` for `attr`.
    ///
    /// Status items are made on the main thread only; elsewhere nothing is
    /// laid out. The menu of `attr` is built with command codes from 1 on.
    pub fn new<T: Clone>(attr: &TrayAttributes<T>, internal_id: usize, on_main_thread: bool) -> (r:
        Result<TrayPlan<T>, CreationError>)
        requires
            menu_ids(menu_of(attr.menu)).len() <= u32::MAX,
        ensures
            !on_main_thread ==> (r matches Err(e) && e == CreationError::WrongThread),
            on_main_thread ==> {
                &&& r matches Ok(plan)
                &&& plan.tray@ == internal_id
                &&& plan.menu_on_button == attr.menu_on_button
                &&& menu_mirrors(menu_of(attr.menu), 1, plan.menu)
                &&& appended_clones(Seq::<T>::empty(), menu_ids(menu_of(attr.menu)), plan.id_map@)
            },
    {
        if !on_main_thread {
            return Err(CreationError::WrongThread);
        }
        let mut id_map: IdMap<T> = IdMap::new();
        let menu = match &attr.menu {
            Some(entries) => build_menu(entries, &mut id_map),
            None => {
                None
            },
        };
        Ok(TrayPlan { tray: Tray { internal_id }, menu, id_map, menu_on_button: attr.menu_on_button })
    }

    /// The identifier that the events of the status item carry.
    pub fn id(&self) -> (id: TrayId)
        ensures
            id@ == self@,
    {
        TrayId::from_raw(self.internal_id)
    }

    /// Whether the tooltip may be changed from the calling thread: only from
    /// the main thread.
    pub fn set_tooltip(&self, on_main_thread: bool) -> (r: Result<(), CreationError>)
        ensures
            r == (if on_main_thread {
                Ok::<(), CreationError>(())
            } else {
                Err::<(), CreationError>(CreationError::WrongThread)
            }),
    {
        if on_main_thread {
            Ok(())
        } else {
            Err(CreationError::WrongThread)
        }
    }
}

/// What a click on a status item does.
#[derive(Copy, Clone, Debug, PartialEq, Eq, Hash, Structural)]
pub enum TrayClick {
    /// The menu opens. The platform will not report the release of the button
    /// while the menu is open, so a release is reported first.
    ShowMenu,
    /// The button is one that opens the menu, but the menu has no entries:
    /// nothing happens.
    Nothing,
    /// The status item is highlighted.
    Highlight,
}

/// What a press of `button` on a status item does, given the button that
/// opens its menu and the number of entries of the menu, if it has one.
pub fn on_tray_click(button: MouseButton, menu_on_button: MouseButton, menu_items: Option<usize>) -> (click:
    TrayClick)
    ensures
        click == match menu_items {
            Some(count) if button == menu_on_button => if count > 0 {
                TrayClick::ShowMenu
            } else {
                TrayClick::Nothing
            },
            _ => TrayClick::Highlight,
        },
{
    match menu_items {
        Some(count) => {
            if button == menu_on_button {
                if count > 0 {
                    TrayClick::ShowMenu
                } else {
                    TrayClick::Nothing
                }
            } else {
                TrayClick::Highlight
            }
        },
        None => TrayClick::Highlight,
    }
}

/// The event for a button that went down or came up over the status item
/// `tray_id` while the pointer was at `position`.
pub fn send_mouse_event<T>(
    tray_id: TrayId,
    button: MouseButton,
    state: ElementState,
    position: PhysicalPosition,
) -> (report: (TrayId, TrayEvent<T>))
    ensures
        report == (tray_id, TrayEvent::<T>::PointerButton { state, position, button }),
{
    (tray_id, TrayEvent::PointerButton { state, position, button })
}

/// The release that is reported before the menu of a status item opens.
pub fn send_synthetic_release<T>(tray_id: TrayId, button: MouseButton, position: PhysicalPosition) -> (report:
    (TrayId, TrayEvent<T>))
    ensures
        report == (
            tray_id,
            TrayEvent::<T>::PointerButton { state: ElementState::Released, position, button },
        ),
{
    (tray_id, TrayEvent::PointerButton { state: ElementState::Released, position, button })
}

/// The button behind a message about another button than the left and the
/// right one: the middle button for number 2, and none that is reported for
/// other numbers.
pub fn other_mouse_button(button_number: isize) -> (button: Option<MouseButton>)
    ensures
        button == if button_number == MIDDLE_BUTTON_NUMBER {
            Some(MouseButton::Middle)
        } else {
            None
        },
{
    if button_number == MIDDLE_BUTTON_NUMBER {
        Some(MouseButton::Middle)
    } else {
        None
    }
}

/// Hands an event of a status item on to an application whose menu
/// identifiers have type `T`. Pointer events pass; a menu click cannot, as it
/// names no identifier of the application, and is dropped.
pub fn retype_event<T>(event: TrayEvent<()>) -> (typed: Option<TrayEvent<T>>)
    ensures
        typed == match event {
            TrayEvent::PointerButton { state, position, button } => Some(
                TrayEvent::<T>::PointerButton { state, position, button },
            ),
            TrayEvent::MenuItemClicked { .. } => None::<TrayEvent<T>>,
        },
{
    match event {
        TrayEvent::PointerButton { state, position, button } => Some(
            TrayEvent::PointerButton { state, position, button },
        ),
        TrayEvent::MenuItemClicked { .. } => None,
    }
}

/// The click behind the activation of a menu item that carries the command
/// code `code`: a click on the identifier that the code stands for, and
/// nothing for a code that stands for none.
pub fn menu_item_clicked<T: Clone>(tray_id: TrayId, id_map: &IdMap<T>, code: u32) -> (report:
    Option<(TrayId, TrayEvent<T>)>)
    ensures
        report is Some <==> lookup(id_map@, code as int) is Some,
        report matches Some((tray, event)) ==> {
            &&& tray == tray_id
            &&& event matches TrayEvent::MenuItemClicked { id }
            &&& cloned(lookup(id_map@, code as int)->0, id)
        },
{
    match id_map.get(code) {
        Some(id) => Some((tray_id, TrayEvent::MenuItemClicked { id })),
        None => None,
    }
}

} // verus!
