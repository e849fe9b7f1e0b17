use winit_tray::icon::Icon;
use winit_tray::id_map::IdMap;
use winit_tray::input::{ElementState, MouseButton, PhysicalPosition};
use winit_tray::lifecycle::CreationError;
use winit_tray::macos::context_menu::{check_state, menu_item_clicked, selected_item, show_context_menu_at_location};
use winit_tray::macos::menu_bar::MenuBar;
use winit_tray::macos::tray::{
    on_tray_click, other_mouse_button, retype_event, send_mouse_event, send_synthetic_release, Tray, TrayClick,
};
use winit_tray::macos::util::icon_to_png;
use winit_tray::menu::{MenuEntry, MenuItem};
use winit_tray::menu_bar::{MenuBarAttributes, MenuBarEvent, MenuBarId, TopLevelMenu};
use winit_tray::native_menu::NativeEntry;
use winit_tray::tray::{TrayAttributes, TrayEvent};
use winit_tray::tray_id::TrayId;

fn items() -> Vec<MenuEntry<char>> {
    vec![MenuEntry::Item(MenuItem::new('a', "A")), MenuEntry::Separator, MenuEntry::Item(MenuItem::new('b', "B"))]
}

#[test]
fn a_status_item_is_made_on_the_main_thread_only() {
    let attr = TrayAttributes::default().with_menu(items()).with_menu_on_button(MouseButton::Left);
    assert!(matches!(Tray::new(&attr, 1, false), Err(CreationError::WrongThread)));
    let plan = Tray::new(&attr, 5, true).ok().unwrap();
    assert_eq!(plan.tray.id(), TrayId::from_raw(5));
    assert_eq!(plan.menu_on_button, MouseButton::Left);
    assert_eq!(plan.menu.unwrap().entries.len(), 3);
    assert_eq!(plan.id_map.get(2), Some('b'));
}

#[test]
fn a_status_item_without_menu_has_none() {
    let attr: TrayAttributes<char> = TrayAttributes::default();
    let plan = Tray::new(&attr, 1, true).ok().unwrap();
    assert!(plan.menu.is_none());
    assert_eq!(plan.id_map.len(), 0);
    let empty: TrayAttributes<char> = TrayAttributes::default().with_menu(Vec::new());
    assert!(Tray::new(&empty, 1, true).ok().unwrap().menu.is_none());
}

#[test]
fn the_tooltip_is_set_on_the_main_thread_only() {
    let attr: TrayAttributes<char> = TrayAttributes::default();
    let tray = Tray::new(&attr, 1, true).ok().unwrap().tray;
    assert_eq!(tray.set_tooltip(true), Ok(()));
    assert_eq!(tray.set_tooltip(false), Err(CreationError::WrongThread));
}

#[test]
fn a_click_opens_the_menu_only_with_its_button_and_with_entries() {
    assert_eq!(on_tray_click(MouseButton::Right, MouseButton::Right, Some(3)), TrayClick::ShowMenu);
    assert_eq!(on_tray_click(MouseButton::Right, MouseButton::Right, Some(0)), TrayClick::Nothing);
    assert_eq!(on_tray_click(MouseButton::Left, MouseButton::Right, Some(3)), TrayClick::Highlight);
    assert_eq!(on_tray_click(MouseButton::Right, MouseButton::Right, None), TrayClick::Highlight);
    assert_eq!(on_tray_click(MouseButton::Left, MouseButton::Left, Some(1)), TrayClick::ShowMenu);
}

#[test]
fn mouse_messages_become_pointer_events() {
    let id = TrayId::from_raw(2);
    let at = PhysicalPosition::new(30, 40);
    assert_eq!(
        send_mouse_event::<char>(id, MouseButton::Left, ElementState::Pressed, at),
        (id, TrayEvent::PointerButton { state: ElementState::Pressed, position: at, button: MouseButton::Left })
    );
    assert_eq!(
        send_synthetic_release::<char>(id, MouseButton::Right, at),
        (id, TrayEvent::PointerButton { state: ElementState::Released, position: at, button: MouseButton::Right })
    );
    assert_eq!(other_mouse_button(2), Some(MouseButton::Middle));
    assert_eq!(other_mouse_button(3), None);
    assert_eq!(other_mouse_button(0), None);
}

#[test]
fn only_pointer_events_pass_the_untyped_handler() {
    let at = PhysicalPosition::new(1, 2);
    let pointer = TrayEvent::<()>::PointerButton { state: ElementState::Pressed, position: at, button: MouseButton::Left };
    assert_eq!(
        retype_event::<char>(pointer),
        Some(TrayEvent::PointerButton { state: ElementState::Pressed, position: at, button: MouseButton::Left })
    );
    assert_eq!(retype_event::<char>(TrayEvent::MenuItemClicked { id: () }), None);
}

#[test]
fn an_activated_item_reports_its_identifier() {
    let mut map = IdMap::new();
    map.insert('x');
    map.insert('y');
    let id = TrayId::from_raw(8);
    assert_eq!(
        winit_tray::macos::tray::menu_item_clicked(id, &map, 2),
        Some((id, TrayEvent::MenuItemClicked { id: 'y' }))
    );
    assert_eq!(winit_tray::macos::tray::menu_item_clicked(id, &map, 0), None);
    assert_eq!(winit_tray::macos::tray::menu_item_clicked(id, &map, 3), None);
}

#[test]
fn a_context_menu_tags_its_items_from_one() {
    assert!(show_context_menu_at_location(&Vec::<MenuEntry<char>>::new()).is_none());
    let plan = show_context_menu_at_location(&items()).unwrap();
    assert!(matches!(plan.menu.entries[0], NativeEntry::Item { code: 1, .. }));
    assert!(matches!(plan.menu.entries[2], NativeEntry::Item { code: 2, .. }));
    assert_eq!(selected_item(&plan.id_map, menu_item_clicked(2)), Some('b'));
    assert_eq!(selected_item(&plan.id_map, menu_item_clicked(1)), Some('a'));
    assert_eq!(selected_item(&plan.id_map, menu_item_clicked(0)), None);
    assert_eq!(selected_item(&plan.id_map, menu_item_clicked(-4)), None);
    assert_eq!(selected_item(&plan.id_map, Some(3)), None);
    assert_eq!(selected_item(&plan.id_map, Some(0)), None);
    assert_eq!(selected_item(&plan.id_map, None), None);
}

#[test]
fn tags_that_are_no_tags_of_items_leave_no_result() {
    assert_eq!(menu_item_clicked(1), Some(1));
    assert_eq!(menu_item_clicked(17), Some(17));
    assert_eq!(menu_item_clicked(0), None);
    assert_eq!(menu_item_clicked(-1), None);
}

#[test]
fn check_marks_have_a_state() {
    assert_eq!(check_state(Some(true)), Some(1));
    assert_eq!(check_state(Some(false)), Some(0));
    assert_eq!(check_state(None), None);
}

#[test]
fn the_menu_bar_is_made_on_the_main_thread_only() {
    let attr = MenuBarAttributes::new(vec![TopLevelMenu::new("File", items()), TopLevelMenu::new("Edit", items())]);
    assert!(matches!(MenuBar::new(&attr, 1, false), Err(CreationError::WrongThread)));
    let plan = MenuBar::new(&attr, 4, true).ok().unwrap();
    assert_eq!(plan.menu_bar.id(), MenuBarId::from_raw(4));
    assert_eq!(plan.bar.entries.len(), 2);
    assert_eq!(plan.id_map.len(), 4);
    assert_eq!(
        winit_tray::macos::menu_bar::menu_item_clicked(plan.menu_bar.id(), &plan.id_map, 3),
        Some((MenuBarId::from_raw(4), MenuBarEvent::MenuItemClicked { id: 'a' }))
    );
    assert_eq!(winit_tray::macos::menu_bar::menu_item_clicked(plan.menu_bar.id(), &plan.id_map, 5), None);
    assert!(plan.menu_bar.remove(true));
    assert!(!plan.menu_bar.remove(false));
}

#[test]
fn an_icon_is_encoded_as_png() {
    let rgba = vec![255, 0, 0, 255, 0, 255, 0, 255, 0, 0, 255, 255, 255, 255, 255, 0];
    let icon = Icon::from_rgba(rgba.clone(), 2, 2).unwrap();
    let png = icon_to_png(&icon).unwrap();
    assert_ne!(png, rgba);
    assert_eq!(&png[0..8], &[137, 80, 78, 71, 13, 10, 26, 10]);
    // The header chunk follows the signature: its length, its name, width and height.
    assert_eq!(&png[8..16], &[0, 0, 0, 13, b'I', b'H', b'D', b'R']);
    assert_eq!(&png[16..24], &[0, 0, 0, 2, 0, 0, 0, 2]);
    // Eight bits of depth, color type 6 (RGBA).
    assert_eq!(&png[24..26], &[8, 6]);
    assert_eq!(&png[png.len() - 8..png.len() - 4], b"IEND");
    assert_eq!(icon_to_png(&icon), Some(png));
}

#[test]
fn an_icon_wider_than_the_encoder_takes_has_no_png() {
    assert_eq!(winit_tray::macos::util::MAX_PNG_WIDTH, 0x3FFF_FFFF);
    let widest = Icon::from_rgba(Vec::new(), 0x3FFF_FFFF, 0).unwrap();
    assert_eq!(icon_to_png(&widest), None);
    let wider = Icon::from_rgba(Vec::new(), 0x4000_0002, 0).unwrap();
    assert_eq!(icon_to_png(&wider), None);
}

#[test]
fn an_icon_without_pixels_has_no_png() {
    let icon = Icon::from_rgba(Vec::new(), 0, 0).unwrap();
    assert_eq!(icon_to_png(&icon), None);
    let flat = Icon::from_rgba(Vec::new(), 3, 0).unwrap();
    assert_eq!(icon_to_png(&flat), None);
}
