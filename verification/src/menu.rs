//! The portable description of a menu.
//!
//! A menu is a sequence of entries; an entry is a clickable item, a submenu
//! with entries of its own, or a separator. Items carry an identifier of a
//! type that the application chooses. Identifiers are never compared: two
//! items may carry the same one, and each is told apart by its position.

use crate::icon::{Icon, IconView};
use vstd::pervasive::cloned;
use vstd::prelude::*;

verus! {

/// A clickable menu item.
#[derive(Debug)]
pub struct MenuItem<T> {
    /// What the application calls this item.
    pub id: T,
    /// The text shown for the item.
    pub label: String,
    /// Whether the item can be clicked.
    pub enabled: bool,
    /// `None` for an item without a check mark, else whether it is checked.
    pub checked: Option<bool>,
    /// An icon shown beside the label.
    pub icon: Option<Icon>,
}

impl<T> MenuItem<T> {
    /// An enabled item without check mark and icon.
    pub fn new(id: T, label: &str) -> (item: Self)
        ensures
            item.id == id,
            item.label@ == label@,
            item.enabled,
            item.checked is None,
            item.icon is None,
    {
        MenuItem { id, label: label.to_owned(), enabled: true, checked: None, icon: None }
    }

    /// Sets whether the item can be clicked.
    pub fn enabled(self, enabled: bool) -> (item: Self)
        ensures
            item == (MenuItem { enabled, ..self }),
    {
        MenuItem { enabled, ..self }
    }

    /// Gives the item a check mark in the given state.
    pub fn checked(self, checked: bool) -> (item: Self)
        ensures
            item == (MenuItem { checked: Some(checked), ..self }),
    {
        MenuItem { checked: Some(checked), ..self }
    }

    /// Gives the item an icon.
    pub fn icon(self, icon: Icon) -> (item: Self)
        ensures
            item == (MenuItem { icon: Some(icon), ..self }),
    {
        MenuItem { icon: Some(icon), ..self }
    }
}

/// A submenu: a labelled entry that opens a menu of its own.
#[derive(Debug)]
pub struct Submenu<T> {
    /// The text shown for the submenu.
    pub label: String,
    /// Whether the submenu can be opened. Its items are enabled or disabled
    /// on their own.
    pub enabled: bool,
    /// The entries of the submenu.
    pub items: Vec<MenuEntry<T>>,
}

impl<T> Submenu<T> {
    /// An enabled submenu.
    pub fn new(label: &str, items: Vec<MenuEntry<T>>) -> (submenu: Self)
        ensures
            submenu.label@ == label@,
            submenu.enabled,
            submenu.items == items,
    {
        Submenu { label: label.to_owned(), enabled: true, items }
    }

    /// Sets whether the submenu can be opened.
    pub fn enabled(self, enabled: bool) -> (submenu: Self)
        ensures
            submenu == (Submenu { enabled, ..self }),
    {
        Submenu { enabled, ..self }
    }
}

/// One entry of a menu.
#[derive(Debug)]
pub enum MenuEntry<T> {
    /// A clickable item.
    Item(MenuItem<T>),
    /// A submenu with entries of its own.
    Submenu(Submenu<T>),
    /// A separator line.
    Separator,
}

/// What an optional icon holds.
pub open spec fn icon_view(icon: Option<Icon>) -> Option<IconView> {
    match icon {
        Some(icon) => Some(icon@),
        None => None,
    }
}

/// `copy` is a clone of `item`: the same label, flags and icon, and a clone
/// of the identifier.
pub open spec fn item_cloned<T: Clone>(item: MenuItem<T>, copy: MenuItem<T>) -> bool {
    &&& cloned(item.id, copy.id)
    &&& copy.label@ == item.label@
    &&& copy.enabled == item.enabled
    &&& copy.checked == item.checked
    &&& icon_view(copy.icon) == icon_view(item.icon)
}

/// `copy` is a clone of `entry`: an entry of the same kind whose parts are
/// clones of the parts of `entry`.
pub open spec fn entry_cloned<T: Clone>(entry: MenuEntry<T>, copy: MenuEntry<T>) -> bool
    decreases entry, 0nat,
{
    match entry {
        MenuEntry::Item(item) => copy matches MenuEntry::Item(other) && item_cloned(item, other),
        MenuEntry::Submenu(submenu) => {
            &&& copy matches MenuEntry::Submenu(other)
            &&& other.label@ == submenu.label@
            &&& other.enabled == submenu.enabled
            &&& entries_cloned(submenu.items@, other.items@)
        },
        MenuEntry::Separator => copy is Separator,
    }
}

/// `copies` are clones of `entries`, one for one.
pub open spec fn entries_cloned<T: Clone>(
    entries: Seq<MenuEntry<T>>,
    copies: Seq<MenuEntry<T>>,
) -> bool
    decreases entries, 1nat,
{
    &&& copies.len() == entries.len()
    &&& forall|i: int| 0 <= i < entries.len() ==> entry_cloned(entries[i], #[trigger] copies[i])
}

/// A copy of an optional icon.
pub fn clone_icon(icon: &Option<Icon>) -> (copy: Option<Icon>)
    ensures
        icon_view(copy) == icon_view(*icon),
{
    match icon {
        Some(icon) => Some(icon.clone()),
        None => None,
    }
}

/// Clones a menu with everything below it.
pub fn clone_entries<T: Clone>(entries: &Vec<MenuEntry<T>>) -> (copies: Vec<MenuEntry<T>>)
    ensures
        entries_cloned(entries@, copies@),
    decreases entries,
{
    let mut copies: Vec<MenuEntry<T>> = Vec::new();
    let mut i: usize = 0;
    while i < entries.len()
        invariant
            i <= entries.len(),
            copies.len() == i,
            forall|j: int| 0 <= j < i ==> entry_cloned(entries@[j], #[trigger] copies@[j]),
        decreases entries.len() - i,
    {
        let copy = match &entries[i] {
            MenuEntry::Item(item) => MenuEntry::Item(
                MenuItem {
                    id: item.id.clone(),
                    label: item.label.clone(),
                    enabled: item.enabled,
                    checked: item.checked,
                    icon: clone_icon(&item.icon),
                },
            ),
            MenuEntry::Submenu(submenu) => MenuEntry::Submenu(
                Submenu {
                    label: submenu.label.clone(),
                    enabled: submenu.enabled,
                    items: clone_entries(&submenu.items),
                },
            ),
            MenuEntry::Separator => MenuEntry::Separator,
        };
        copies.push(copy);
        i += 1;
    }
    copies
}

impl<T: Clone> Clone for MenuItem<T> {
    fn clone(&self) -> (copy: Self)
        ensures
            item_cloned(*self, copy),
    {
        MenuItem {
            id: self.id.clone(),
            label: self.label.clone(),
            enabled: self.enabled,
            checked: self.checked,
            icon: clone_icon(&self.icon),
        }
    }
}

impl<T: Clone> Clone for Submenu<T> {
    fn clone(&self) -> (copy: Self)
        ensures
            copy.label@ == self.label@,
            copy.enabled == self.enabled,
            entries_cloned(self.items@, copy.items@),
    {
        Submenu {
            label: self.label.clone(),
            enabled: self.enabled,
            items: clone_entries(&self.items),
        }
    }
}

impl<T: Clone> Clone for MenuEntry<T> {
    fn clone(&self) -> (copy: Self)
        ensures
            entry_cloned(*self, copy),
    {
        match self {
            MenuEntry::Item(item) => MenuEntry::Item(item.clone()),
            MenuEntry::Submenu(submenu) => MenuEntry::Submenu(submenu.clone()),
            MenuEntry::Separator => MenuEntry::Separator,
        }
    }
}

/// The identifiers below one entry, in the order in which a menu shows them.
pub open spec fn entry_ids<T>(entry: MenuEntry<T>) -> Seq<T>
    decreases entry,
{
    match entry {
        MenuEntry::Item(item) => seq![item.id],
        MenuEntry::Submenu(submenu) => menu_ids(submenu.items@),
        MenuEntry::Separator => Seq::empty(),
    }
}

/// The identifiers of a menu in pre-order: every item in the order in which
/// the menu shows it, the items of a submenu at the place of the submenu.
pub open spec fn menu_ids<T>(entries: Seq<MenuEntry<T>>) -> Seq<T>
    decreases entries,
{
    if entries.len() == 0 {
        Seq::empty()
    } else {
        menu_ids(entries.drop_last()) + entry_ids(entries.last())
    }
}

/// How many entries a menu has on all its levels together: one for every
/// item and separator, and for a submenu one more than its entries.
pub open spec fn entry_weight<T>(entry: MenuEntry<T>) -> nat
    decreases entry,
{
    match entry {
        MenuEntry::Item(_) => 1,
        MenuEntry::Submenu(submenu) => 1 + entry_count(submenu.items@),
        MenuEntry::Separator => 1,
    }
}

/// The sum of [`entry_weight`] over a menu.
pub open spec fn entry_count<T>(entries: Seq<MenuEntry<T>>) -> nat
    decreases entries,
{
    if entries.len() == 0 {
        0
    } else {
        entry_count(entries.drop_last()) + entry_weight(entries.last())
    }
}

/// The first `i + 1` entries are the first `i` and the one at `i`.
pub proof fn lemma_take_step<A>(s: Seq<A>, i: int)
    requires
        0 <= i < s.len(),
    ensures
        s.take(i + 1).drop_last() == s.take(i),
        s.take(i + 1).last() == s[i],
        s.take(s.len() as int) == s,
        s.take(0) == Seq::<A>::empty(),
{
}

/// `n`, or the largest `usize` where it does not fit.
pub open spec fn saturating(n: int) -> usize {
    if n <= usize::MAX {
        n as usize
    } else {
        usize::MAX
    }
}

/// Counts the entries of a menu on all its levels, for an estimate of its
/// size on screen. A count that does not fit is given as the largest `usize`.
pub fn count_items<T>(items: &Vec<MenuEntry<T>>) -> (n: usize)
    ensures
        n == saturating(entry_count(items@) as int),
    decreases items,
{
    let mut total: usize = 0;
    let mut i: usize = 0;
    while i < items.len()
        invariant
            i <= items.len(),
            total == saturating(entry_count(items@.take(i as int)) as int),
        decreases items.len() - i,
    {
        proof {
            lemma_take_step(items@, i as int);
        }
        let weight: usize = match &items[i] {
            MenuEntry::Submenu(submenu) => count_items(&submenu.items).saturating_add(1),
            _ => 1,
        };
        assert(entry_count(items@.take(i + 1)) == entry_count(items@.take(i as int))
            + entry_weight(items@[i as int]));
        total = total.saturating_add(weight);
        i += 1;
    }
    assert(items@.take(items.len() as int) =~= items@);
    total
}

/// `n`, or the largest `u64` where it does not fit.
pub open spec fn saturating_u64(n: int) -> u64 {
    if n <= u64::MAX {
        n as u64
    } else {
        u64::MAX
    }
}

/// Counts the items of a menu on all its levels, which is the number of
/// command codes that the menu needs. A count that does not fit is given as
/// the largest `u64`.
pub fn count_ids<T>(items: &Vec<MenuEntry<T>>) -> (n: u64)
    ensures
        n == saturating_u64(menu_ids(items@).len() as int),
    decreases items,
{
    let mut total: u64 = 0;
    let mut i: usize = 0;
    while i < items.len()
        invariant
            i <= items.len(),
            total == saturating_u64(menu_ids(items@.take(i as int)).len() as int),
        decreases items.len() - i,
    {
        proof {
            lemma_take_step(items@, i as int);
        }
        let below: u64 = match &items[i] {
            MenuEntry::Item(_) => 1,
            MenuEntry::Submenu(submenu) => count_ids(&submenu.items),
            MenuEntry::Separator => 0,
        };
        assert(menu_ids(items@.take(i + 1)).len() == menu_ids(items@.take(i as int)).len()
            + entry_ids(items@[i as int]).len());
        total = total.saturating_add(below);
        i += 1;
    }
    assert(items@.take(items.len() as int) =~= items@);
    total
}

/// The most entries that a menu may have on all its levels together for its
/// height to be estimated in 32 bits.
pub const MAX_ENTRIES: usize = 89_478_485;

/// Whether a menu can be shown: whether there is a command code for each of
/// its items, and whether the estimate of its height, 24 pixels for each
/// entry, fits into 32 bits.
pub fn menu_fits<T>(items: &Vec<MenuEntry<T>>) -> (fits: bool)
    ensures
        fits == (menu_ids(items@).len() <= u32::MAX && entry_count(items@) * 24 <= i32::MAX),
{
    let ids: u64 = count_ids(items);
    let entries: usize = count_items(items);
    ids <= 0xFFFF_FFFF && entries <= MAX_ENTRIES
}

} // verus!
