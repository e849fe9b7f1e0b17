use winit_tray::icon::Icon;
use winit_tray::menu::{clone_entries, count_ids, count_items, menu_fits, MenuEntry, MenuItem, Submenu};
use winit_tray::native_menu::menu_bar_fits;
use winit_tray::menu_bar::{MenuBarAttributes, TopLevelMenu};
use winit_tray::input::{MouseButton, PhysicalPosition, PhysicalSize, RawWindowHandle};
use winit_tray::popup::PopupAttributes;
use winit_tray::context_menu::ContextMenuAttributes;
use winit_tray::tray::TrayAttributes;

fn sample() -> Vec<MenuEntry<u32>> {
    vec![
        MenuEntry::Item(MenuItem::new(10, "Open")),
        MenuEntry::Separator,
        MenuEntry::Submenu(Submenu::new(
            "More",
            vec![
                MenuEntry::Item(MenuItem::new(20, "A").checked(true)),
                MenuEntry::Item(MenuItem::new(30, "B").enabled(false)),
            ],
        )),
        MenuEntry::Item(MenuItem::new(40, "Exit")),
    ]
}

#[test]
fn a_new_item_is_enabled_and_plain() {
    let item = MenuItem::new(1u8, "Open");
    assert_eq!(item.id, 1);
    assert_eq!(item.label, "Open");
    assert!(item.enabled);
    assert_eq!(item.checked, None);
    assert!(item.icon.is_none());
}

#[test]
fn item_builders_set_one_field_each() {
    let icon = Icon::from_rgba(vec![9, 9, 9, 9], 1, 1).unwrap();
    let item = MenuItem::new(1u8, "x").enabled(false).checked(false).icon(icon.clone());
    assert!(!item.enabled);
    assert_eq!(item.checked, Some(false));
    assert_eq!(item.icon, Some(icon));
    assert_eq!(item.label, "x");
}

#[test]
fn a_new_submenu_is_enabled() {
    let submenu: Submenu<u8> = Submenu::new("More", Vec::new());
    assert!(submenu.enabled);
    assert_eq!(submenu.label, "More");
    assert_eq!(submenu.items.len(), 0);
    assert!(!submenu.enabled(false).enabled);
}

#[test]
fn entries_are_counted_on_all_levels() {
    assert_eq!(count_items(&sample()), 6);
    assert_eq!(count_items(&Vec::<MenuEntry<u32>>::new()), 0);
    let nested: Vec<MenuEntry<u32>> =
        vec![MenuEntry::Submenu(Submenu::new("a", vec![MenuEntry::Submenu(Submenu::new("b", Vec::new()))]))];
    assert_eq!(count_items(&nested), 2);
}

#[test]
fn a_clone_has_the_same_shape_and_values() {
    let menu = sample();
    let copy = clone_entries(&menu);
    assert_eq!(copy.len(), 4);
    match (&copy[0], &copy[2]) {
        (MenuEntry::Item(open), MenuEntry::Submenu(more)) => {
            assert_eq!(open.id, 10);
            assert_eq!(open.label, "Open");
            assert_eq!(more.label, "More");
            assert_eq!(more.items.len(), 2);
            match &more.items[0] {
                MenuEntry::Item(a) => assert_eq!(a.checked, Some(true)),
                _ => panic!("not an item"),
            }
        }
        _ => panic!("shape changed"),
    }
    assert!(matches!(copy[1], MenuEntry::Separator));
    let again = menu[2].clone();
    assert!(matches!(again, MenuEntry::Submenu(_)));
}

#[test]
fn a_top_level_menu_takes_label_and_items_of_a_submenu() {
    let top = TopLevelMenu::from(Submenu::new("File", sample()).enabled(false));
    assert_eq!(top.label, "File");
    assert_eq!(top.items.len(), 4);
    let direct: TopLevelMenu<u32> = TopLevelMenu::new("Edit", Vec::new());
    assert_eq!(direct.label, "Edit");
}

#[test]
fn popup_attributes_have_their_defaults() {
    let attr: PopupAttributes<u32> = PopupAttributes::default();
    assert_eq!(attr.position, PhysicalPosition::new(0, 0));
    assert_eq!(attr.size, PhysicalSize::new(200, 100));
    assert_eq!(attr.auto_dismiss_ms, None);
    assert!(attr.close_on_click_outside);
    assert!(attr.topmost);
    assert_eq!(attr.class_name, "WinitPopup");
    assert!(attr.menu.is_none());
}

#[test]
fn popup_attribute_builders_set_one_field_each() {
    let attr: PopupAttributes<u32> = PopupAttributes::default()
        .with_position(PhysicalPosition::new(3, -4))
        .with_size(PhysicalSize::new(5, 6))
        .with_auto_dismiss_ms(Some(1500))
        .with_close_on_click_outside(false)
        .with_topmost(false)
        .with_class_name("Mine".to_string())
        .with_menu(sample());
    assert_eq!(attr.position, PhysicalPosition { x: 3, y: -4 });
    assert_eq!(attr.size, PhysicalSize { width: 5, height: 6 });
    assert_eq!(attr.auto_dismiss_ms, Some(1500));
    assert!(!attr.close_on_click_outside);
    assert!(!attr.topmost);
    assert_eq!(attr.class_name, "Mine");
    assert_eq!(attr.menu.map(|m| m.len()), Some(4));
}

#[test]
fn context_menu_attributes_have_their_defaults() {
    let attr: ContextMenuAttributes<u32> = ContextMenuAttributes::default();
    assert_eq!(attr.class_name, "WinitContextMenu");
    assert_eq!(attr.size, PhysicalSize::new(200, 100));
    assert!(attr.close_on_click_outside);
    let attr = attr.with_auto_dismiss_ms(Some(10)).with_topmost(false);
    assert_eq!(attr.auto_dismiss_ms, Some(10));
    assert!(!attr.topmost);
}

#[test]
fn tray_attributes_have_their_defaults() {
    let attr: TrayAttributes<u32> = TrayAttributes::default();
    assert!(attr.tooltip.is_none());
    assert!(attr.icon.is_none());
    assert_eq!(attr.class_name, "Window Tray Class");
    assert!(attr.parent_window.is_none());
    assert!(attr.menu.is_none());
    assert_eq!(attr.menu_on_button, MouseButton::Right);
}

#[test]
fn tray_attribute_builders_set_one_field_each() {
    let icon = Icon::from_rgba(vec![1, 2, 3, 4], 1, 1).unwrap();
    let attr: TrayAttributes<u32> = TrayAttributes::default()
        .with_tooltip("Tip".to_string())
        .with_icon(Some(icon.clone()))
        .with_class_name("Cls".to_string())
        .with_parent_window(RawWindowHandle::Win32 { hwnd: 77 })
        .with_menu(sample())
        .with_menu_on_button(MouseButton::Left);
    assert_eq!(attr.tooltip.as_deref(), Some("Tip"));
    assert_eq!(attr.icon, Some(icon));
    assert_eq!(attr.class_name, "Cls");
    assert_eq!(attr.parent_window, Some(RawWindowHandle::Win32 { hwnd: 77 }));
    assert_eq!(attr.menu.map(|m| m.len()), Some(4));
    assert_eq!(attr.menu_on_button, MouseButton::Left);
}

#[test]
fn menu_bar_attributes_start_without_parent() {
    let attr: MenuBarAttributes<u32> = MenuBarAttributes::default();
    assert_eq!(attr.menus.len(), 0);
    assert!(attr.parent_window.is_none());
    let attr = MenuBarAttributes::new(vec![TopLevelMenu::new("File", sample())]);
    assert_eq!(attr.menus.len(), 1);
    assert!(attr.parent_window.is_none());
    let attr = attr.with_menus(Vec::new()).with_parent_window(RawWindowHandle::Other);
    assert_eq!(attr.menus.len(), 0);
    assert_eq!(attr.parent_window, Some(RawWindowHandle::Other));
}

#[test]
fn items_are_counted_without_separators_and_submenus() {
    assert_eq!(count_ids(&sample()), 4);
    assert_eq!(count_ids(&Vec::<MenuEntry<u32>>::new()), 0);
    assert!(menu_fits(&sample()));
    assert!(menu_fits(&Vec::<MenuEntry<u32>>::new()));
    assert!(menu_bar_fits(&vec![TopLevelMenu::new("File", sample()), TopLevelMenu::new("Edit", sample())]));
    assert!(menu_bar_fits(&Vec::<TopLevelMenu<u32>>::new()));
}
