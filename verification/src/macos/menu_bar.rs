//! The menu bar of the application.

use crate::id_map::{lookup, IdMap};
use crate::lifecycle::CreationError;
use crate::menu_bar::{MenuBarAttributes, MenuBarEvent, MenuBarId};
use crate::native_menu::{appended_clones, bar_ids, bar_mirrors, build_menu_bar, NativeMenu};
use vstd::pervasive::cloned;
use vstd::prelude::*;

verus! {

/// The menu bar of the application, once it has been set.
#[derive(Copy, Clone, Debug, PartialEq, Eq, Hash, Structural)]
pub struct MenuBar {
    internal_id: usize,
}

impl View for MenuBar {
    type V = usize;

    /// The number of the menu bar.
    closed spec fn view(&self) -> usize {
        self.internal_id
    }
}

/// How the menu bar of the application is to be created.
#[derive(Debug)]
pub struct MenuBarPlan<T> {
    pub menu_bar: MenuBar,
    /// The main menu: one entry for each top-level menu.
    pub bar: NativeMenu,
    /// The identifiers behind the command codes of the menu bar.
    pub id_map: IdMap<T>,
}

impl MenuBar {
    /// Lays out the menu bar with the number `internal_id` for `attr`.
    ///
    /// The menu bar is made on the main thread only; elsewhere nothing is
    /// laid out. It gets one entry for each top-level menu, in order, and
    /// every item one command code, from 1 on through all menus. The parent
    /// window of `attr` has no meaning here.
    pub fn new<T: Clone>(attr: &MenuBarAttributes<T>, internal_id: usize, on_main_thread: bool) -> (r:
        Result<MenuBarPlan<T>, CreationError>)
        requires
            bar_ids(attr.menus@).len() <= u32::MAX,
        ensures
            !on_main_thread ==> (r matches Err(e) && e == CreationError::WrongThread),
            on_main_thread ==> {
                &&& r matches Ok(plan)
                &&& plan.menu_bar@ == internal_id
                &&& plan.bar.handle == 0
                &&& bar_mirrors(attr.menus@, plan.bar.entries@)
                &&& appended_clones(Seq::<T>::empty(), bar_ids(attr.menus@), plan.id_map@)
            },
    {
        if !on_main_thread {
            return Err(CreationError::WrongThread);
        }
        let mut id_map: IdMap<T> = IdMap::new();
        let bar = build_menu_bar(&attr.menus, &mut id_map);
        Ok(MenuBarPlan { menu_bar: MenuBar { internal_id }, bar, id_map })
    }

    /// The identifier that the events of the menu bar carry.
    pub fn id(&self) -> (id: MenuBarId)
        ensures
            id@ == self@,
    {
        MenuBarId::from_raw(self.internal_id)
    }

    /// Whether the menu bar is removed, which puts an empty menu in its
    /// place: it is when the call comes from the main thread, and nothing
    /// happens when it comes from elsewhere.
    pub fn remove(&self, on_main_thread: bool) -> (removed: bool)
        ensures
            removed == on_main_thread,
    {
        on_main_thread
    }
}

/// The click behind the activation of a menu item that carries the command
/// code `code`: a click on the identifier that the code stands for, and
/// nothing for a code that stands for none.
pub fn menu_item_clicked<T: Clone>(menu_bar_id: MenuBarId, id_map: &IdMap<T>, code: u32) -> (report:
    Option<(MenuBarId, MenuBarEvent<T>)>)
    ensures
        report is Some <==> lookup(id_map@, code as int) is Some,
        report matches Some((bar, event)) ==> {
            &&& bar == menu_bar_id
            &&& event matches MenuBarEvent::MenuItemClicked { id }
            &&& cloned(lookup(id_map@, code as int)->0, id)
        },
{
    match id_map.get(code) {
        Some(id) => Some((menu_bar_id, MenuBarEvent::MenuItemClicked { id })),
        None => None,
    }
}

} // verus!
