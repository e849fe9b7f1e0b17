//! Context menus that are shown at a position on the screen.

use crate::id_map::{lookup, IdMap};
use crate::menu::{menu_ids, MenuEntry};
use crate::native_menu::{appended_clones, build_menu, menu_mirrors, NativeMenu};
use vstd::pervasive::cloned;
use vstd::prelude::*;

verus! {

/// The state of a menu item with a check mark that is set.
pub const STATE_ON: isize = 1;

/// The state of a menu item with a check mark that is not set.
pub const STATE_OFF: isize = 0;

/// How a context menu is to be shown.
#[derive(Debug)]
pub struct PopupMenuPlan<T> {
    /// The menu that the platform creates. Every item carries its command
    /// code as its tag.
    pub menu: NativeMenu,
    /// The identifiers behind the tags of the menu.
    pub id_map: IdMap<T>,
}

/// Prepares a context menu of `items`. The menu is built with tags from 1
/// on. No items give no menu and nothing to show.
pub fn show_context_menu_at_location<T: Clone>(items: &Vec<MenuEntry<T>>) -> (plan: Option<
    PopupMenuPlan<T>,
>)
    requires
        menu_ids(items@).len() <= u32::MAX,
    ensures
        items@.len() == 0 <==> plan is None,
        plan matches Some(p) ==> {
            &&& menu_mirrors(items@, 1, Some(p.menu))
            &&& appended_clones(Seq::<T>::empty(), menu_ids(items@), p.id_map@)
        },
{
    let mut id_map: IdMap<T> = IdMap::new();
    match build_menu(items, &mut id_map) {
        Some(menu) => Some(PopupMenuPlan { menu, id_map }),
        None => None,
    }
}

/// The state that an item is given: on or off for an item with a check mark,
/// and none for an item without.
pub fn check_state(checked: Option<bool>) -> (state: Option<isize>)
    ensures
        state == match checked {
            Some(true) => Some(STATE_ON),
            Some(false) => Some(STATE_OFF),
            None => None,
        },
{
    match checked {
        Some(true) => Some(STATE_ON),
        Some(false) => Some(STATE_OFF),
        None => None,
    }
}

/// What the activation of a menu item leaves as the result of the menu: the
/// tag of the item if it is a tag of an item, which is larger than 0.
pub fn menu_item_clicked(tag: isize) -> (result: Option<usize>)
    ensures
        result == if tag > 0 {
            Some(tag as usize)
        } else {
            None
        },
{
    if tag > 0 {
        Some(tag as usize)
    } else {
        None
    }
}

/// The identifier that the user selected, from the result that the menu
/// left: the identifier behind the tag, and nothing if the menu was
/// dismissed or the tag is none of the menu.
pub fn selected_item<T: Clone>(id_map: &IdMap<T>, result: Option<usize>) -> (id: Option<T>)
    ensures
        id is Some <==> (result matches Some(tag) && lookup(id_map@, tag as int) is Some),
        id matches Some(found) ==> cloned(lookup(id_map@, result->0 as int)->0, found),
{
    match result {
        Some(tag) => {
            if tag > 0 && tag <= id_map.len() {
                id_map.get(tag as u32)
            } else {
                None
            }
        },
        None => None,
    }
}

} // verus!
