use winit_tray::id_map::IdMap;
use winit_tray::menu::{MenuEntry, MenuItem, Submenu};
use winit_tray::menu_bar::TopLevelMenu;
use winit_tray::native_menu::{build_menu, build_menu_bar, destruction_order, NativeEntry, NativeMenu};

fn item(id: u32, label: &str) -> MenuEntry<u32> {
    MenuEntry::Item(MenuItem::new(id, label))
}

fn code_of(entry: &NativeEntry) -> u32 {
    match entry {
        NativeEntry::Item { code, .. } => *code,
        _ => panic!("not an item"),
    }
}

fn submenu_of(entry: &NativeEntry) -> &NativeMenu {
    match entry {
        NativeEntry::Popup { menu: Some(menu), .. } => menu,
        _ => panic!("not a popup with a menu"),
    }
}

#[test]
fn no_entries_build_to_no_menu() {
    let mut map: IdMap<u32> = IdMap::new();
    assert!(build_menu(&Vec::new(), &mut map).is_none());
    assert_eq!(map.len(), 0);
}

#[test]
fn a_separator_takes_no_code() {
    let mut map = IdMap::new();
    let entries = vec![item(100, "Open"), MenuEntry::Separator, item(200, "Exit")];
    let menu = build_menu(&entries, &mut map).unwrap();
    assert_eq!(menu.handle, 0);
    assert_eq!(menu.entries.len(), 3);
    assert_eq!(code_of(&menu.entries[0]), 1);
    assert!(matches!(menu.entries[1], NativeEntry::Separator));
    assert_eq!(code_of(&menu.entries[2]), 2);
    assert_eq!(map.get(1), Some(100));
    assert_eq!(map.get(2), Some(200));
    assert_eq!(map.get(3), None);
}

#[test]
fn codes_are_given_in_pre_order() {
    let mut map = IdMap::new();
    let entries = vec![
        item(1, "a"),
        MenuEntry::Submenu(Submenu::new(
            "sub",
            vec![item(2, "b"), MenuEntry::Submenu(Submenu::new("deep", vec![item(3, "c")])), item(4, "d")],
        )),
        item(5, "e"),
    ];
    let menu = build_menu(&entries, &mut map).unwrap();
    assert_eq!(code_of(&menu.entries[0]), 1);
    let sub = submenu_of(&menu.entries[1]);
    assert_eq!(code_of(&sub.entries[0]), 2);
    let deep = submenu_of(&sub.entries[1]);
    assert_eq!(code_of(&deep.entries[0]), 3);
    assert_eq!(code_of(&sub.entries[2]), 4);
    assert_eq!(code_of(&menu.entries[2]), 5);
    for code in 1..=5u32 {
        assert_eq!(map.get(code), Some(code));
    }
}

#[test]
fn labels_and_flags_are_carried_over() {
    let mut map = IdMap::new();
    let entries = vec![
        MenuEntry::Item(MenuItem::new(7u32, "Dark").checked(true).enabled(false)),
        MenuEntry::Submenu(Submenu::new("Sub", vec![item(8, "x")]).enabled(false)),
    ];
    let menu = build_menu(&entries, &mut map).unwrap();
    match &menu.entries[0] {
        NativeEntry::Item { label, enabled, checked, icon, .. } => {
            assert_eq!(label, "Dark");
            assert!(!*enabled);
            assert_eq!(*checked, Some(true));
            assert!(icon.is_none());
        }
        _ => panic!("not an item"),
    }
    match &menu.entries[1] {
        NativeEntry::Popup { label, enabled, menu } => {
            assert_eq!(label, "Sub");
            assert!(!*enabled);
            assert!(menu.is_some());
        }
        _ => panic!("not a popup"),
    }
}

#[test]
fn an_empty_submenu_opens_nothing() {
    let mut map = IdMap::new();
    let entries: Vec<MenuEntry<u32>> = vec![MenuEntry::Submenu(Submenu::new("Empty", Vec::new()))];
    let menu = build_menu(&entries, &mut map).unwrap();
    assert!(matches!(menu.entries[0], NativeEntry::Popup { menu: None, .. }));
}

#[test]
fn codes_continue_behind_what_the_map_holds() {
    let mut map = IdMap::new();
    map.insert(900u32);
    let menu = build_menu(&vec![item(901, "x")], &mut map).unwrap();
    assert_eq!(code_of(&menu.entries[0]), 2);
    assert_eq!(map.get(1), Some(900));
    assert_eq!(map.get(2), Some(901));
}

#[test]
fn items_with_the_same_id_get_codes_of_their_own() {
    let mut map = IdMap::new();
    let menu = build_menu(&vec![item(5, "a"), item(5, "b")], &mut map).unwrap();
    assert_eq!(code_of(&menu.entries[0]), 1);
    assert_eq!(code_of(&menu.entries[1]), 2);
    assert_eq!(map.get(1), map.get(2));
}

fn popup(handle: usize, entries: Vec<NativeEntry>) -> NativeEntry {
    NativeEntry::Popup { label: String::new(), enabled: true, menu: Some(NativeMenu { handle, entries }) }
}

#[test]
fn submenus_are_destroyed_before_their_parents() {
    let tree = NativeMenu {
        handle: 1,
        entries: vec![
            popup(2, vec![popup(3, Vec::new()), NativeEntry::Separator, popup(4, Vec::new())]),
            NativeEntry::Separator,
            popup(5, Vec::new()),
        ],
    };
    assert_eq!(destruction_order(&tree), vec![3, 4, 2, 5, 1]);
}

#[test]
fn a_menu_without_submenus_is_destroyed_alone() {
    let tree = NativeMenu { handle: 42, entries: vec![NativeEntry::Separator] };
    assert_eq!(destruction_order(&tree), vec![42]);
}

#[test]
fn every_built_menu_is_destroyed_exactly_once() {
    let mut map = IdMap::new();
    let entries = vec![
        MenuEntry::Submenu(Submenu::new("a", vec![item(1, "x"), MenuEntry::Submenu(Submenu::new("b", vec![item(2, "y")]))])),
        MenuEntry::Submenu(Submenu::new("c", vec![item(3, "z")])),
        MenuEntry::Submenu(Submenu::new("none", Vec::new())),
    ];
    let mut menu = build_menu(&entries, &mut map).unwrap();
    // Give the menus handles in the order of their creation.
    fn number(menu: &mut NativeMenu, next: &mut usize) {
        menu.handle = *next;
        *next += 1;
        for entry in menu.entries.iter_mut() {
            if let NativeEntry::Popup { menu: Some(child), .. } = entry {
                number(child, next);
            }
        }
    }
    let mut next = 1;
    number(&mut menu, &mut next);
    assert_eq!(next, 5);
    let order = destruction_order(&menu);
    assert_eq!(order, vec![3, 2, 4, 1]);
    let mut sorted = order.clone();
    sorted.sort();
    assert_eq!(sorted, vec![1, 2, 3, 4]);
}

#[test]
fn a_menu_bar_numbers_its_items_through_all_menus() {
    let mut map = IdMap::new();
    let menus = vec![
        TopLevelMenu::new("File", vec![item(10, "New"), MenuEntry::Separator, item(11, "Quit")]),
        TopLevelMenu::new("Empty", Vec::new()),
        TopLevelMenu::new("Edit", vec![item(12, "Undo")]),
    ];
    let bar = build_menu_bar(&menus, &mut map);
    assert_eq!(bar.handle, 0);
    assert_eq!(bar.entries.len(), 3);
    let file = submenu_of(&bar.entries[0]);
    assert_eq!(code_of(&file.entries[0]), 1);
    assert_eq!(code_of(&file.entries[2]), 2);
    assert!(matches!(&bar.entries[1], NativeEntry::Popup { menu: None, enabled: true, .. }));
    let edit = submenu_of(&bar.entries[2]);
    assert_eq!(code_of(&edit.entries[0]), 3);
    assert_eq!(map.get(3), Some(12));
    match &bar.entries[2] {
        NativeEntry::Popup { label, .. } => assert_eq!(label, "Edit"),
        _ => panic!("not a popup"),
    }
}

#[test]
fn a_menu_bar_without_menus_is_still_a_menu() {
    let mut map: IdMap<u32> = IdMap::new();
    let bar = build_menu_bar(&Vec::new(), &mut map);
    assert_eq!(bar.entries.len(), 0);
    assert_eq!(destruction_order(&bar), vec![0]);
}
