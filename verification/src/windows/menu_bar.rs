//! Menu bars of windows.
//!
//! A menu bar is attached to a window. The window procedure of that window
//! learns of a click as a command code; the table of this module finds the
//! menu bar of the window and the identifier behind the code.

use crate::id_map::lookup;
use crate::input::RawWindowHandle;
use crate::lifecycle::CreationError;
use crate::menu_bar::{MenuBarAttributes, MenuBarEvent, MenuBarId, TopLevelMenu};
use crate::native_menu::{appended_clones, bar_ids, bar_mirrors, build_menu_bar, NativeMenu};
use std::collections::HashMap;
use vstd::pervasive::cloned;
use vstd::prelude::*;

verus! {

/// The counter of the command codes of one menu bar.
#[derive(Debug)]
pub struct IdMap {
    next_id: u32,
}

impl View for IdMap {
    type V = u32;

    /// The code that is handed out next.
    closed spec fn view(&self) -> u32 {
        self.next_id
    }
}

impl IdMap {
    /// A counter whose first code is 1: code 0 means that nothing was
    /// selected.
    pub fn new() -> (counter: Self)
        ensures
            counter@ == 1,
    {
        IdMap { next_id: 1 }
    }

    /// The next code. Codes grow by one.
    pub fn next(&mut self) -> (id: u32)
        requires
            old(self)@ < u32::MAX,
        ensures
            id == old(self)@,
            final(self)@ == old(self)@ + 1,
    {
        let id: u32 = self.next_id;
        self.next_id = id + 1;
        id
    }
}

/// How the menu bar of a window is to be created.
#[derive(Debug)]
pub struct MenuBarPlan<T> {
    /// The window that the menu bar is attached to.
    pub hwnd: isize,
    /// The identifier that the events of the menu bar carry.
    pub id: MenuBarId,
    /// The menu bar: one popup for each top-level menu.
    pub bar: NativeMenu,
    /// The identifiers behind the command codes of the menu bar.
    pub id_map: crate::id_map::IdMap<T>,
}

/// A menu bar that has been created.
#[derive(Copy, Clone, Debug, PartialEq, Eq, Hash, Structural)]
pub struct MenuBar {
    internal_id: usize,
    hwnd: isize,
    hmenu: usize,
}

/// The window that a menu bar of these attributes is attached to, or why
/// there is none.
pub open spec fn parent_of(parent_window: Option<RawWindowHandle>) -> Result<isize, CreationError> {
    match parent_window {
        Some(RawWindowHandle::Win32 { hwnd }) => Ok(hwnd),
        Some(_) => Err(CreationError::InvalidParentWindow),
        None => Err(CreationError::MissingParentWindow),
    }
}

impl MenuBar {
    /// Lays out the menu bar of `attr`, to be known to the application by
    /// `internal_id`.
    ///
    /// A menu bar needs a parent window, and one of this platform; without
    /// it nothing is laid out. Otherwise the menu bar gets one popup for each
    /// top-level menu, in order, and every item one command code, from 1 on
    /// through all menus.
    pub fn new<T: Clone>(attr: &MenuBarAttributes<T>, internal_id: usize) -> (r: Result<
        MenuBarPlan<T>,
        CreationError,
    >)
        requires
            bar_ids(attr.menus@).len() <= u32::MAX,
        ensures
            match parent_of(attr.parent_window) {
                Ok(hwnd) => {
                    &&& r matches Ok(plan)
                    &&& plan.hwnd == hwnd
                    &&& plan.id@ == internal_id
                    &&& plan.bar.handle == 0
                    &&& bar_mirrors(attr.menus@, plan.bar.entries@)
                    &&& appended_clones(Seq::<T>::empty(), bar_ids(attr.menus@), plan.id_map@)
                },
                Err(e) => r matches Err(error) && error == e,
            },
    {
        let hwnd: isize = match attr.parent_window {
            Some(RawWindowHandle::Win32 { hwnd }) => hwnd,
            Some(_) => {
                return Err(CreationError::InvalidParentWindow);
            },
            None => {
                return Err(CreationError::MissingParentWindow);
            },
        };
        let mut id_map: crate::id_map::IdMap<T> = crate::id_map::IdMap::new();
        let bar = build_menu_bar(&attr.menus, &mut id_map);
        Ok(
            MenuBarPlan {
                hwnd,
                id: MenuBarId::from_raw(internal_id),
                bar,
                id_map,
            },
        )
    }

    /// Lays out a menu bar of `menus` for `window`, as [`MenuBar::new`] does
    /// for attributes with these menus and this parent.
    pub fn new_for_window<T: Clone>(
        window: RawWindowHandle,
        menus: Vec<TopLevelMenu<T>>,
        internal_id: usize,
    ) -> (r: Result<MenuBarPlan<T>, CreationError>)
        requires
            bar_ids(menus@).len() <= u32::MAX,
        ensures
            match parent_of(Some(window)) {
                Ok(hwnd) => {
                    &&& r matches Ok(plan)
                    &&& plan.hwnd == hwnd
                    &&& plan.id@ == internal_id
                    &&& plan.bar.handle == 0
                    &&& bar_mirrors(menus@, plan.bar.entries@)
                    &&& appended_clones(Seq::<T>::empty(), bar_ids(menus@), plan.id_map@)
                },
                Err(e) => r matches Err(error) && error == e,
            },
    {
        let attr = MenuBarAttributes { menus, parent_window: Some(window) };
        MenuBar::new(&attr, internal_id)
    }

    /// The menu bar that was created for `plan` as the native menu `hmenu`.
    pub fn created(internal_id: usize, hwnd: isize, hmenu: usize) -> (bar: Self)
        ensures
            bar.raw_id() == internal_id,
            bar.hwnd_spec() == hwnd,
            bar.hmenu_spec() == hmenu,
    {
        MenuBar { internal_id, hwnd, hmenu }
    }

    pub closed spec fn raw_id(self) -> usize {
        self.internal_id
    }

    pub closed spec fn hwnd_spec(self) -> isize {
        self.hwnd
    }

    pub closed spec fn hmenu_spec(self) -> usize {
        self.hmenu
    }

    /// The identifier that the events of the menu bar carry.
    pub fn id(&self) -> (id: MenuBarId)
        ensures
            id@ == self.raw_id(),
    {
        MenuBarId::from_raw(self.internal_id)
    }

    /// The window that the menu bar is attached to.
    pub fn hwnd(&self) -> (hwnd: isize)
        ensures
            hwnd == self.hwnd_spec(),
    {
        self.hwnd
    }

    /// The native menu of the menu bar.
    pub fn hmenu(&self) -> (hmenu: usize)
        ensures
            hmenu == self.hmenu_spec(),
    {
        self.hmenu
    }
}

/// The menu bar of one window, as the table of menu bars keeps it.
#[derive(Debug)]
pub struct RegisteredBar<T> {
    id: MenuBarId,
    ids: crate::id_map::IdMap<T>,
}

/// The table from windows to their menu bars.
///
/// A window has at most one menu bar. The table is owned by whoever owns the
/// windows; nothing in it outlives the removal of its window.
#[derive(Debug)]
pub struct MenuBarCallbacks<T> {
    bars: HashMap<isize, RegisteredBar<T>>,
}

impl<T> MenuBarCallbacks<T> {
    /// The menu bar of the window `hwnd`: its identifier and the identifiers
    /// behind its command codes.
    pub closed spec fn registered(&self, hwnd: isize) -> Option<(MenuBarId, Seq<T>)> {
        if self.bars@.contains_key(hwnd) {
            Some((self.bars@[hwnd].id, self.bars@[hwnd].ids@))
        } else {
            None
        }
    }
}

impl<T: Clone> MenuBarCallbacks<T> {
    /// A table without menu bars.
    pub fn new() -> (table: Self)
        ensures
            forall|hwnd: isize| table.registered(hwnd) is None,
    {
        MenuBarCallbacks { bars: HashMap::new() }
    }

    /// Makes the menu bar `id` with the identifiers `ids` the menu bar of
    /// the window `hwnd`, in place of the one that the window had.
    pub fn register(&mut self, hwnd: isize, id: MenuBarId, ids: crate::id_map::IdMap<T>)
        ensures
            final(self).registered(hwnd) == Some((id, ids@)),
            forall|other: isize|
                other != hwnd ==> final(self).registered(other) == old(self).registered(other),
    {
        broadcast use vstd::std_specs::hash::group_hash_axioms;

        let _ = self.bars.insert(hwnd, RegisteredBar { id, ids });
    }

    /// Takes the menu bar of the window `hwnd` out of the table. Other
    /// windows keep theirs.
    pub fn remove(&mut self, hwnd: isize)
        ensures
            final(self).registered(hwnd) is None,
            forall|other: isize|
                other != hwnd ==> final(self).registered(other) == old(self).registered(other),
    {
        broadcast use vstd::std_specs::hash::group_hash_axioms;

        let _ = self.bars.remove(&hwnd);
    }

    /// Finds the click behind a command of the window `hwnd`: the menu bar of
    /// the window and a click on the identifier that `command_id` stands for.
    /// Nothing if the window has no menu bar or the code is none of its
    /// codes; the command is then not one of a menu bar.
    pub fn handle_menu_command(&self, hwnd: isize, command_id: u32) -> (click: Option<
        (MenuBarId, MenuBarEvent<T>),
    >)
        ensures
            click is Some <==> (self.registered(hwnd) matches Some((_, ids)) && lookup(
                ids,
                command_id as int,
            ) is Some),
            click matches Some((bar, event)) ==> {
                &&& self.registered(hwnd) matches Some((registered_bar, ids))
                &&& bar == registered_bar
                &&& event matches MenuBarEvent::MenuItemClicked { id }
                &&& cloned(lookup(ids, command_id as int)->0, id)
            },
    {
        broadcast use vstd::std_specs::hash::group_hash_axioms;

        match self.bars.get(&hwnd) {
            Some(bar) => {
                match bar.ids.get(command_id) {
                    Some(id) => Some((bar.id, MenuBarEvent::MenuItemClicked { id })),
                    None => None,
                }
            },
            None => None,
        }
    }
}

} // verus!
