//! From the portable description of a menu to the menu that the platform
//! shows, and back down again.
//!
//! [`build_menu`] walks a menu in pre-order, gives every item a command code
//! and lays out what the platform is to create. [`destruction_order`] says in
//! which order the native menus are destroyed afterwards: a platform refuses
//! to free a menu that a live submenu still refers to, so submenus go first.

use crate::icon::Icon;
use crate::id_map::{lookup, IdMap};
use crate::menu::{
    clone_icon, count_ids, entry_ids, icon_view, lemma_take_step, menu_ids, saturating_u64,
    MenuEntry,
};
use crate::menu_bar::TopLevelMenu;
use vstd::pervasive::cloned;
use vstd::prelude::*;

verus! {

/// One entry of a native menu.
#[derive(Debug)]
pub enum NativeEntry {
    /// A leaf that reports `code` when it is activated.
    Item { code: u32, label: String, enabled: bool, checked: Option<bool>, icon: Option<Icon> },
    /// An entry that opens `menu`. A submenu without entries has no native
    /// menu: the entry is shown and opens nothing.
    Popup { label: String, enabled: bool, menu: Option<NativeMenu> },
    /// A separator. It has no code.
    Separator,
}

/// A native menu as it is to be created.
#[derive(Debug)]
pub struct NativeMenu {
    /// The handle that the platform gave the menu; 0 until the menu has been
    /// created.
    pub handle: usize,
    /// The entries in the order in which they are appended.
    pub entries: Vec<NativeEntry>,
}

/// `native` is what `entry` is built to when the next free command code is
/// `first_code`.
pub open spec fn entry_mirrors<T>(entry: MenuEntry<T>, first_code: int, native: NativeEntry) -> bool
    decreases entry, 0nat,
{
    match entry {
        MenuEntry::Item(item) => {
            &&& native matches NativeEntry::Item { code, label, enabled, checked, icon }
            &&& code == first_code
            &&& label@ == item.label@
            &&& enabled == item.enabled
            &&& checked == item.checked
            &&& icon_view(icon) == icon_view(item.icon)
        },
        MenuEntry::Submenu(submenu) => {
            &&& native matches NativeEntry::Popup { label, enabled, menu }
            &&& label@ == submenu.label@
            &&& enabled == submenu.enabled
            &&& menu_mirrors(submenu.items@, first_code, menu)
        },
        MenuEntry::Separator => native is Separator,
    }
}

/// `natives` are what `entries` are built to, one for one: the entry at `i`
/// gets the codes that follow those of the entries before it.
pub open spec fn entries_mirror<T>(
    entries: Seq<MenuEntry<T>>,
    first_code: int,
    natives: Seq<NativeEntry>,
) -> bool
    decreases entries, 0nat,
{
    &&& natives.len() == entries.len()
    &&& forall|i: int|
        0 <= i < entries.len() ==> entry_mirrors(
            entries[i],
            first_code + menu_ids(entries.take(i)).len(),
            #[trigger] natives[i],
        )
}

/// `native` is what the menu of `entries` is built to: no menu where there
/// are no entries, else a menu that has not been created yet and that holds
/// the entries one for one.
pub open spec fn menu_mirrors<T>(
    entries: Seq<MenuEntry<T>>,
    first_code: int,
    native: Option<NativeMenu>,
) -> bool
    decreases entries, 1nat,
{
    if entries.len() == 0 {
        native is None
    } else {
        &&& native matches Some(menu)
        &&& menu.handle == 0
        &&& entries_mirror(entries, first_code, menu.entries@)
    }
}

/// `after` is `before` with a clone of each of `ids` appended, in order.
pub open spec fn appended_clones<T: Clone>(before: Seq<T>, ids: Seq<T>, after: Seq<T>) -> bool {
    &&& after.len() == before.len() + ids.len()
    &&& forall|k: int| 0 <= k < before.len() ==> #[trigger] after[k] == before[k]
    &&& forall|k: int| 0 <= k < ids.len() ==> cloned(#[trigger] ids[k], after[before.len() + k])
}

/// Appending clones of `first` and then of `second` appends clones of both.
pub proof fn lemma_appended_clones_compose<T: Clone>(
    a: Seq<T>,
    first: Seq<T>,
    b: Seq<T>,
    second: Seq<T>,
    c: Seq<T>,
)
    requires
        appended_clones(a, first, b),
        appended_clones(b, second, c),
    ensures
        appended_clones(a, first + second, c),
{
    let both = first + second;
    assert forall|k: int| 0 <= k < both.len() implies cloned(
        #[trigger] both[k],
        c[a.len() + k],
    ) by {
        if k >= first.len() {
            assert(both[k] == second[k - first.len()]);
        }
    }
}

/// The identifiers of the first `k` entries start those of all entries.
pub proof fn lemma_ids_start<T>(entries: Seq<MenuEntry<T>>, k: int)
    requires
        0 <= k <= entries.len(),
    ensures
        menu_ids(entries.take(k)).len() <= menu_ids(entries).len(),
        menu_ids(entries).take(menu_ids(entries.take(k)).len() as int) == menu_ids(
            entries.take(k),
        ),
    decreases entries.len() - k,
{
    if k < entries.len() {
        lemma_take_step(entries, k);
        lemma_ids_start(entries, k + 1);
        let next = menu_ids(entries.take(k + 1));
        let here = menu_ids(entries.take(k));
        assert(menu_ids(entries).take(here.len() as int) =~= menu_ids(entries).take(
            next.len() as int,
        ).take(here.len() as int));
    } else {
        assert(entries.take(k) =~= entries);
    }
}

/// The identifiers below the entry at `i` stand together among those of all
/// entries, behind those of the entries before it.
pub proof fn lemma_ids_of_entry<T>(entries: Seq<MenuEntry<T>>, i: int)
    requires
        0 <= i < entries.len(),
    ensures
        menu_ids(entries.take(i)).len() + entry_ids(entries[i]).len() <= menu_ids(entries).len(),
        forall|j: int|
            0 <= j < entry_ids(entries[i]).len() ==> menu_ids(entries)[menu_ids(
                entries.take(i),
            ).len() + j] == #[trigger] entry_ids(entries[i])[j],
{
    let here = menu_ids(entries.take(i));
    let next = menu_ids(entries.take(i + 1));
    lemma_take_step(entries, i);
    lemma_ids_start(entries, i + 1);
    assert forall|j: int| 0 <= j < entry_ids(entries[i]).len() implies menu_ids(entries)[here.len()
        + j] == #[trigger] entry_ids(entries[i])[j] by {
        assert(menu_ids(entries).take(next.len() as int)[here.len() + j] == next[here.len() + j]);
    }
}

/// The code of `native` leads back to `entry`: if both are items, `table`
/// holds a clone of the item's identifier under the code; if both are
/// submenus, the same holds of everything below them.
pub open spec fn entry_resolves<T: Clone>(
    entry: MenuEntry<T>,
    native: NativeEntry,
    table: Seq<T>,
) -> bool
    decreases entry, 0nat,
{
    match entry {
        MenuEntry::Item(item) => native matches NativeEntry::Item { code, .. } ==> (lookup(
            table,
            code as int,
        ) matches Some(found) && cloned(item.id, found)),
        MenuEntry::Submenu(submenu) => native matches NativeEntry::Popup { menu: Some(menu), .. }
            ==> codes_resolve(submenu.items@, menu.entries@, table),
        MenuEntry::Separator => true,
    }
}

/// The codes of `natives` lead back to `entries`, entry for entry, on all
/// levels.
pub open spec fn codes_resolve<T: Clone>(
    entries: Seq<MenuEntry<T>>,
    natives: Seq<NativeEntry>,
    table: Seq<T>,
) -> bool
    decreases entries, 1nat,
{
    forall|i: int|
        0 <= i < entries.len() && i < natives.len() ==> entry_resolves(
            entries[i],
            #[trigger] natives[i],
            table,
        )
}

/// A click finds its item. Where a menu was built with codes from
/// `first_code` on, and the table holds clones of its identifiers from that
/// code on, the code of every native item, on every level, stands in the
/// table for a clone of the identifier of the item that it was built from.
/// This is what [`build_menu`] leaves behind: what the platform reports for a
/// click is looked up in the table and gives the identifier of the clicked
/// item, separators and submenus notwithstanding.
pub proof fn lemma_codes_resolve<T: Clone>(
    entries: Seq<MenuEntry<T>>,
    first_code: int,
    natives: Seq<NativeEntry>,
    table: Seq<T>,
)
    requires
        first_code >= 1,
        entries_mirror(entries, first_code, natives),
        first_code - 1 + menu_ids(entries).len() <= table.len(),
        forall|k: int|
            0 <= k < menu_ids(entries).len() ==> cloned(
                #[trigger] menu_ids(entries)[k],
                table[first_code - 1 + k],
            ),
    ensures
        codes_resolve(entries, natives, table),
    decreases entries,
{
    assert forall|i: int| 0 <= i < entries.len() && i < natives.len() implies entry_resolves(
        entries[i],
        #[trigger] natives[i],
        table,
    ) by {
        let before = menu_ids(entries.take(i)).len() as int;
        lemma_ids_of_entry(entries, i);
        match entries[i] {
            MenuEntry::Item(item) => {
                assert(entry_ids(entries[i])[0] == item.id);
            },
            MenuEntry::Submenu(submenu) => {
                match natives[i] {
                    NativeEntry::Popup { menu: Some(menu), .. } => {
                        let below = menu_ids(submenu.items@);
                        assert forall|k: int| 0 <= k < below.len() implies cloned(
                            #[trigger] below[k],
                            table[first_code + before - 1 + k],
                        ) by {
                            assert(cloned(
                                menu_ids(entries)[before + k],
                                table[first_code - 1 + (before + k)],
                            ));
                        }
                        lemma_codes_resolve(
                            submenu.items@,
                            first_code + before,
                            menu.entries@,
                            table,
                        );
                    },
                    _ => {},
                }
            },
            MenuEntry::Separator => {},
        }
    }
}

/// Lays out the native menu for `entries` and records their identifiers.
///
/// The walk is in pre-order. An item gets the next command code of `map` and
/// becomes a leaf with the item's label, flags and icon. A submenu becomes an
/// entry that opens the menu built from its own entries, and carries the
/// submenu's own enabled flag. A separator stays a separator. No entries give
/// no menu: some platforms show an empty menu as an empty box.
///
/// `map` receives a clone of every identifier, in pre-order, behind what it
/// held.
pub fn build_menu<T: Clone>(entries: &Vec<MenuEntry<T>>, map: &mut IdMap<T>) -> (menu: Option<
    NativeMenu,
>)
    requires
        old(map)@.len() + menu_ids(entries@).len() <= u32::MAX,
    ensures
        menu_mirrors(entries@, old(map)@.len() as int + 1, menu),
        appended_clones(old(map)@, menu_ids(entries@), final(map)@),
    decreases entries,
{
    let ghost before = map@;
    let ghost first_code: int = before.len() as int + 1;
    if entries.len() == 0 {
        return None;
    }
    let mut natives: Vec<NativeEntry> = Vec::new();
    let mut i: usize = 0;
    while i < entries.len()
        invariant
            i <= entries.len(),
            natives.len() == i,
            before.len() + menu_ids(entries@).len() <= u32::MAX,
            first_code == before.len() + 1,
            appended_clones(before, menu_ids(entries@.take(i as int)), map@),
            forall|j: int|
                0 <= j < i ==> entry_mirrors(
                    entries@[j],
                    first_code + menu_ids(entries@.take(j)).len(),
                    #[trigger] natives@[j],
                ),
        decreases entries.len() - i,
    {
        let ghost map_here = map@;
        let ghost ids_here = menu_ids(entries@.take(i as int));
        proof {
            lemma_take_step(entries@, i as int);
            lemma_ids_of_entry(entries@, i as int);
        }
        let native = match &entries[i] {
            MenuEntry::Item(item) => {
                let id = item.id.clone();
                let code = map.insert(id);
                assert(appended_clones(map_here, seq![item.id], map@));
                NativeEntry::Item {
                    code,
                    label: item.label.clone(),
                    enabled: item.enabled,
                    checked: item.checked,
                    icon: clone_icon(&item.icon),
                }
            },
            MenuEntry::Submenu(submenu) => {
                let menu = build_menu(&submenu.items, map);
                NativeEntry::Popup { label: submenu.label.clone(), enabled: submenu.enabled, menu }
            },
            MenuEntry::Separator => NativeEntry::Separator,
        };
        proof {
            lemma_appended_clones_compose(
                before,
                ids_here,
                map_here,
                entry_ids(entries@[i as int]),
                map@,
            );
        }
        natives.push(native);
        i += 1;
    }
    assert(entries@.take(entries.len() as int) =~= entries@);
    Some(NativeMenu { handle: 0, entries: natives })
}

/// The identifiers of all items of a menu bar, menu after menu, each menu in
/// pre-order.
pub open spec fn bar_ids<T>(menus: Seq<TopLevelMenu<T>>) -> Seq<T>
    decreases menus.len(),
{
    if menus.len() == 0 {
        Seq::empty()
    } else {
        bar_ids(menus.drop_last()) + menu_ids(menus.last().items@)
    }
}

/// `natives` are the entries of the menu bar of `menus`: one popup for each
/// menu, enabled, with the label of the menu, opening what the entries of the
/// menu are built to. The command codes start at 1 and run through all menus.
pub open spec fn bar_mirrors<T>(menus: Seq<TopLevelMenu<T>>, natives: Seq<NativeEntry>) -> bool {
    &&& natives.len() == menus.len()
    &&& forall|i: int|
        0 <= i < menus.len() ==> {
            &&& #[trigger] natives[i] matches NativeEntry::Popup { label, enabled, menu }
            &&& label@ == menus[i].label@
            &&& enabled
            &&& menu_mirrors(menus[i].items@, 1 + bar_ids(menus.take(i)).len() as int, menu)
        }
}

/// The identifiers of the first `i` menus are among those of all menus.
pub proof fn lemma_bar_ids_prefix<T>(menus: Seq<TopLevelMenu<T>>, i: int)
    requires
        0 <= i <= menus.len(),
    ensures
        bar_ids(menus.take(i)).len() <= bar_ids(menus).len(),
        i < menus.len() ==> bar_ids(menus.take(i)).len() + menu_ids(menus[i].items@).len()
            <= bar_ids(menus).len(),
    decreases menus.len() - i,
{
    if i < menus.len() {
        lemma_take_step(menus, i);
        lemma_bar_ids_prefix(menus, i + 1);
    } else {
        assert(menus.take(i) =~= menus);
    }
}

/// Whether there is a command code for each item of a menu bar.
pub fn menu_bar_fits<T>(menus: &Vec<TopLevelMenu<T>>) -> (fits: bool)
    ensures
        fits == (bar_ids(menus@).len() <= u32::MAX),
{
    let mut total: u64 = 0;
    let mut i: usize = 0;
    while i < menus.len()
        invariant
            i <= menus.len(),
            total == saturating_u64(bar_ids(menus@.take(i as int)).len() as int),
        decreases menus.len() - i,
    {
        proof {
            lemma_take_step(menus@, i as int);
        }
        let below: u64 = count_ids(&menus[i].items);
        assert(bar_ids(menus@.take(i + 1)).len() == bar_ids(menus@.take(i as int)).len()
            + menu_ids(menus@[i as int].items@).len());
        total = total.saturating_add(below);
        i += 1;
    }
    assert(menus@.take(menus.len() as int) =~= menus@);
    total <= 0xFFFF_FFFF
}

/// Lays out a menu bar: one popup for each top-level menu, in order, each
/// opening what the entries of its menu are built to. A menu bar exists even
/// without menus. `map` receives a clone of every identifier, menu after
/// menu, behind what it held, and must be empty before.
pub fn build_menu_bar<T: Clone>(menus: &Vec<TopLevelMenu<T>>, map: &mut IdMap<T>) -> (bar:
    NativeMenu)
    requires
        old(map)@.len() == 0,
        bar_ids(menus@).len() <= u32::MAX,
    ensures
        bar.handle == 0,
        bar_mirrors(menus@, bar.entries@),
        appended_clones(Seq::<T>::empty(), bar_ids(menus@), final(map)@),
{
    let mut natives: Vec<NativeEntry> = Vec::new();
    let mut i: usize = 0;
    while i < menus.len()
        invariant
            i <= menus.len(),
            natives.len() == i,
            bar_ids(menus@).len() <= u32::MAX,
            appended_clones(Seq::<T>::empty(), bar_ids(menus@.take(i as int)), map@),
            forall|j: int|
                0 <= j < i ==> {
                    &&& #[trigger] natives@[j] matches NativeEntry::Popup { label, enabled, menu }
                    &&& label@ == menus@[j].label@
                    &&& enabled
                    &&& menu_mirrors(
                        menus@[j].items@,
                        1 + bar_ids(menus@.take(j)).len() as int,
                        menu,
                    )
                },
        decreases menus.len() - i,
    {
        let ghost map_here = map@;
        proof {
            lemma_take_step(menus@, i as int);
            lemma_bar_ids_prefix(menus@, i as int);
        }
        let top_level = &menus[i];
        let menu = build_menu(&top_level.items, map);
        proof {
            lemma_appended_clones_compose(
                Seq::<T>::empty(),
                bar_ids(menus@.take(i as int)),
                map_here,
                menu_ids(top_level.items@),
                map@,
            );
        }
        natives.push(NativeEntry::Popup { label: top_level.label.clone(), enabled: true, menu });
        i += 1;
    }
    assert(menus@.take(menus.len() as int) =~= menus@);
    NativeMenu { handle: 0, entries: natives }
}

/// The handles below one entry, submenus before the menus that open them.
pub open spec fn entry_post_order(entry: NativeEntry) -> Seq<usize>
    decreases entry, 0nat,
{
    match entry {
        NativeEntry::Popup { menu: Some(menu), .. } => post_order(menu),
        _ => Seq::empty(),
    }
}

/// The handles below a sequence of entries, entry after entry.
pub open spec fn entries_post_order(entries: Seq<NativeEntry>) -> Seq<usize>
    decreases entries, 0nat,
{
    if entries.len() == 0 {
        Seq::empty()
    } else {
        entries_post_order(entries.drop_last()) + entry_post_order(entries.last())
    }
}

/// The handles of a menu and of all menus below it, bottom-up: for every
/// menu first what its entries open, in the order of the entries, then the
/// menu itself.
pub open spec fn post_order(menu: NativeMenu) -> Seq<usize>
    decreases menu, 1nat,
{
    entries_post_order(menu.entries@).push(menu.handle)
}

/// The handles below one entry, menus before the submenus that they open.
pub open spec fn entry_pre_order(entry: NativeEntry) -> Seq<usize>
    decreases entry, 0nat,
{
    match entry {
        NativeEntry::Popup { menu: Some(menu), .. } => pre_order(menu),
        _ => Seq::empty(),
    }
}

/// The handles below a sequence of entries, entry after entry, top-down.
pub open spec fn entries_pre_order(entries: Seq<NativeEntry>) -> Seq<usize>
    decreases entries, 0nat,
{
    if entries.len() == 0 {
        Seq::empty()
    } else {
        entries_pre_order(entries.drop_last()) + entry_pre_order(entries.last())
    }
}

/// The handles of a menu tree top-down, in the order in which the menus are
/// created: a menu first, then what its entries open.
pub open spec fn pre_order(menu: NativeMenu) -> Seq<usize>
    decreases menu, 1nat,
{
    seq![menu.handle] + entries_pre_order(menu.entries@)
}

/// What the first `k` entries open is destroyed before what the later
/// entries open: the order of the first `k` entries starts the order of all.
pub proof fn lemma_post_order_prefix(entries: Seq<NativeEntry>, k: int)
    requires
        0 <= k <= entries.len(),
    ensures
        entries_post_order(entries.take(k)).len() <= entries_post_order(entries).len(),
        entries_post_order(entries).take(entries_post_order(entries.take(k)).len() as int)
            == entries_post_order(entries.take(k)),
    decreases entries.len() - k,
{
    if k < entries.len() {
        lemma_take_step(entries, k);
        lemma_post_order_prefix(entries, k + 1);
        let next = entries_post_order(entries.take(k + 1));
        let here = entries_post_order(entries.take(k));
        assert(entries_post_order(entries).take(here.len() as int) =~= entries_post_order(
            entries,
        ).take(next.len() as int).take(here.len() as int));
    } else {
        assert(entries.take(k) =~= entries);
        assert(entries_post_order(entries).take(entries_post_order(entries).len() as int)
            =~= entries_post_order(entries));
    }
}

/// Destruction is bottom-up. In the destruction order of a menu, everything
/// that its entry at `i` opens stands together, in its own destruction
/// order, before the menu itself, which comes last. As this holds of every
/// menu of the tree, no menu is destroyed while a menu that it opens is left.
pub proof fn lemma_submenus_before_parent(menu: NativeMenu, i: int)
    requires
        0 <= i < menu.entries@.len(),
    ensures
        post_order(menu).last() == menu.handle,
        ({
            let start = entries_post_order(menu.entries@.take(i)).len() as int;
            let below = entry_post_order(menu.entries@[i]);
            &&& start + below.len() < post_order(menu).len()
            &&& post_order(menu).subrange(start, start + below.len()) == below
        }),
{
    let entries = menu.entries@;
    let here = entries_post_order(entries.take(i));
    let below = entry_post_order(entries[i]);
    let next = entries_post_order(entries.take(i + 1));
    lemma_take_step(entries, i);
    lemma_post_order_prefix(entries, i + 1);
    assert(post_order(menu).subrange(here.len() as int, here.len() as int + below.len()) =~= below) by {
        assert forall|k: int| 0 <= k < below.len() implies post_order(menu)[here.len() + k]
            == below[k] by {
            assert(entries_post_order(entries).take(next.len() as int)[here.len() + k]
                == next[here.len() + k]);
        }
    }
}

/// Destruction visits every menu of a tree exactly once: the destruction
/// order holds the same handles, each as often, as the order in which the
/// menus were created.
pub proof fn lemma_every_menu_destroyed_once(menu: NativeMenu)
    ensures
        post_order(menu).to_multiset() == pre_order(menu).to_multiset(),
        post_order(menu).len() == pre_order(menu).len(),
    decreases menu, 1nat,
{
    broadcast use vstd::multiset::group_multiset_axioms;

    let below_post = entries_post_order(menu.entries@);
    let below_pre = entries_pre_order(menu.entries@);
    lemma_entries_destroyed_once(menu.entries@);
    vstd::seq_lib::to_multiset_build(below_post, menu.handle);
    vstd::seq_lib::to_multiset_insert(below_pre, 0, menu.handle);
    assert(seq![menu.handle] + below_pre =~= below_pre.insert(0, menu.handle));
    vstd::seq_lib::to_multiset_len(post_order(menu));
    vstd::seq_lib::to_multiset_len(pre_order(menu));
}

/// What a sequence of entries opens is destroyed exactly once.
pub proof fn lemma_entries_destroyed_once(entries: Seq<NativeEntry>)
    ensures
        entries_post_order(entries).to_multiset() == entries_pre_order(entries).to_multiset(),
    decreases entries, 0nat,
{
    if entries.len() > 0 {
        lemma_entries_destroyed_once(entries.drop_last());
        match entries.last() {
            NativeEntry::Popup { menu: Some(menu), .. } => {
                lemma_every_menu_destroyed_once(menu);
            },
            _ => {},
        }
        vstd::seq_lib::lemma_multiset_commutative(
            entries_post_order(entries.drop_last()),
            entry_post_order(entries.last()),
        );
        vstd::seq_lib::lemma_multiset_commutative(
            entries_pre_order(entries.drop_last()),
            entry_pre_order(entries.last()),
        );
    }
}

/// How many native menus one entry stands for: those of its submenu, and
/// none for an item or a separator.
pub open spec fn entry_menus<T>(entry: MenuEntry<T>) -> nat
    decreases entry, 0nat,
{
    match entry {
        MenuEntry::Submenu(submenu) => menu_count(submenu.items@),
        _ => 0,
    }
}

/// How many native menus the submenus of `entries` stand for, on all levels.
pub open spec fn submenu_count<T>(entries: Seq<MenuEntry<T>>) -> nat
    decreases entries, 0nat,
{
    if entries.len() == 0 {
        0
    } else {
        submenu_count(entries.drop_last()) + entry_menus(entries.last())
    }
}

/// How many native menus a menu stands for: none if it has no entries, else
/// itself and what its submenus stand for.
pub open spec fn menu_count<T>(entries: Seq<MenuEntry<T>>) -> nat
    decreases entries, 1nat,
{
    if entries.len() == 0 {
        0
    } else {
        1 + submenu_count(entries)
    }
}

/// The first `k` entries of a built menu open as many native menus as the
/// first `k` entries of its description stand for.
pub proof fn lemma_built_entries_counted<T>(
    entries: Seq<MenuEntry<T>>,
    first_code: int,
    natives: Seq<NativeEntry>,
    k: int,
)
    requires
        entries_mirror(entries, first_code, natives),
        0 <= k <= entries.len(),
    ensures
        entries_pre_order(natives.take(k)).len() == submenu_count(entries.take(k)),
    decreases entries, k,
{
    if k > 0 {
        let i = k - 1;
        lemma_built_entries_counted(entries, first_code, natives, i);
        lemma_take_step(entries, i);
        lemma_take_step(natives, i);
        assert(entries_pre_order(natives.take(k)) == entries_pre_order(natives.take(i))
            + entry_pre_order(natives[i]));
        assert(submenu_count(entries.take(k)) == submenu_count(entries.take(i)) + entry_menus(
            entries[i],
        ));
        assert(entry_mirrors(
            entries[i],
            first_code + menu_ids(entries.take(i)).len(),
            natives[i],
        ));
        match entries[i] {
            MenuEntry::Submenu(submenu) => {
                match natives[i] {
                    NativeEntry::Popup { menu, .. } => {
                        lemma_built_menus_counted(
                            submenu.items@,
                            first_code + menu_ids(entries.take(i)).len(),
                            menu,
                        );
                    },
                    _ => {},
                }
            },
            _ => {},
        }
    }
}

/// Building and destroying agree. Destroying what a menu was built to visits
/// as many native menus as the menu stands for: one for the menu itself and
/// one for every submenu with entries, on all levels, and none for a menu
/// without entries.
pub proof fn lemma_built_menus_counted<T>(
    entries: Seq<MenuEntry<T>>,
    first_code: int,
    native: Option<NativeMenu>,
)
    requires
        menu_mirrors(entries, first_code, native),
    ensures
        match native {
            Some(menu) => post_order(menu).len() == menu_count(entries) && pre_order(menu).len()
                == menu_count(entries),
            None => menu_count(entries) == 0,
        },
    decreases entries, entries.len() + 1,
{
    match native {
        Some(menu) => {
            lemma_built_entries_counted(entries, first_code, menu.entries@, entries.len() as int);
            assert(entries.take(entries.len() as int) =~= entries);
            assert(menu.entries@.take(entries.len() as int) =~= menu.entries@);
            lemma_every_menu_destroyed_once(menu);
        },
        None => {},
    }
}

/// A menu without entries is built to no menu, and a menu with entries to a
/// menu with as many entries.
pub proof fn lemma_shape_preserved<T>(
    entries: Seq<MenuEntry<T>>,
    first_code: int,
    native: Option<NativeMenu>,
)
    requires
        menu_mirrors(entries, first_code, native),
    ensures
        entries.len() == 0 <==> native is None,
        native matches Some(menu) ==> menu.entries@.len() == entries.len(),
{
}

/// The order in which the menus of a tree are destroyed: every submenu
/// before the menu that opens it, the root last.
pub fn destruction_order(menu: &NativeMenu) -> (order: Vec<usize>)
    ensures
        order@ == post_order(*menu),
{
    let mut order: Vec<usize> = Vec::new();
    collect_post_order(menu, &mut order);
    order
}

/// Appends the destruction order of `menu` to `order`.
fn collect_post_order(menu: &NativeMenu, order: &mut Vec<usize>)
    ensures
        final(order)@ == old(order)@ + post_order(*menu),
    decreases menu,
{
    let ghost before = order@;
    let mut i: usize = 0;
    while i < menu.entries.len()
        invariant
            i <= menu.entries.len(),
            order@ == before + entries_post_order(menu.entries@.take(i as int)),
        decreases menu.entries.len() - i,
    {
        let ghost here = order@;
        proof {
            lemma_take_step(menu.entries@, i as int);
        }
        match &menu.entries[i] {
            NativeEntry::Popup { menu: Some(child), .. } => {
                collect_post_order(child, order);
            },
            _ => {},
        }
        assert(order@ =~= here + entry_post_order(menu.entries@[i as int]));
        i += 1;
    }
    assert(menu.entries@.take(menu.entries.len() as int) =~= menu.entries@);
    order.push(menu.handle);
}

} // verus!
