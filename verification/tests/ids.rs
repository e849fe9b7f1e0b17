use winit_tray::context_menu::{ContextMenuManager, ContextMenuWindowId};
use winit_tray::menu_bar::MenuBarId;
use winit_tray::popup::PopupId;
use winit_tray::tray_id::TrayId;

#[test]
fn tray_id_round_trips() {
    assert_eq!(TrayId::from_raw(7).into_raw(), 7);
    assert_eq!(TrayId::from_raw(0).into_raw(), 0);
    assert_eq!(TrayId::from_raw(usize::MAX).into_raw(), usize::MAX);
}

#[test]
fn ids_of_other_kinds_round_trip() {
    assert_eq!(PopupId::from_raw(3).into_raw(), 3);
    assert_eq!(MenuBarId::from_raw(4).into_raw(), 4);
    assert_eq!(ContextMenuWindowId::from_raw(5).into_raw(), 5);
}

#[test]
fn ids_are_ordered_by_their_integer() {
    assert!(TrayId::from_raw(1) < TrayId::from_raw(2));
    assert!(PopupId::from_raw(9) > PopupId::from_raw(2));
    assert!(ContextMenuWindowId::from_raw(0) <= ContextMenuWindowId::from_raw(0));
    assert!(MenuBarId::from_raw(usize::MAX) > MenuBarId::from_raw(0));
    assert_eq!(TrayId::from_raw(3).partial_cmp(&TrayId::from_raw(3)), Some(std::cmp::Ordering::Equal));
    assert_eq!(TrayId::from_raw(3).cmp(&TrayId::from_raw(4)), std::cmp::Ordering::Less);
    let mut ids = vec![PopupId::from_raw(3), PopupId::from_raw(1), PopupId::from_raw(2)];
    ids.sort();
    assert_eq!(ids, vec![PopupId::from_raw(1), PopupId::from_raw(2), PopupId::from_raw(3)]);
    assert_eq!(MenuBarId::from_raw(6), MenuBarId::from_raw(6));
    assert_ne!(MenuBarId::from_raw(6), MenuBarId::from_raw(7));
}

#[test]
fn context_menu_manager_is_one_value() {
    assert_eq!(ContextMenuManager::new(), ContextMenuManager::default());
}
