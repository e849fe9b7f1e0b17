use winit_tray::icon::Icon;
use winit_tray::input::{ElementState, MouseButton, PhysicalPosition};
use winit_tray::linux::dbus_interface::StatusNotifierItemInterface;
use winit_tray::linux::tray::{
    drop_step, run_dbus_service, tray_service_id, watcher_service_name, ServicePhase, ShutdownStep, Tray,
};
use winit_tray::linux::util::icon_to_sni_icon;
use winit_tray::tray::{TrayAttributes, TrayEvent};
use winit_tray::tray_id::TrayId;

#[test]
fn test_rgba_to_argb32_conversion() {
    // Create a simple 2x2 red icon
    // RGBA format: R=255, G=0, B=0, A=255
    let rgba_data = vec![
        255, 0, 0, 255, // Red pixel
        255, 0, 0, 255, // Red pixel
        255, 0, 0, 255, // Red pixel
        255, 0, 0, 255, // Red pixel
    ];

    let icon = Icon::from_rgba(rgba_data.clone(), 2, 2).unwrap();
    let sni_icon = icon_to_sni_icon(&icon);

    assert_eq!(sni_icon.width, 2);
    assert_eq!(sni_icon.height, 2);
    assert_eq!(sni_icon.data.len(), 16); // 2x2 pixels * 4 bytes per pixel

    // Check first pixel is ARGB format: A=255, R=255, G=0, B=0
    assert_eq!(&sni_icon.data[0..4], &[255, 255, 0, 0]);
}

#[test]
fn alpha_moves_to_the_front_of_every_pixel() {
    let icon = Icon::from_rgba(vec![1, 2, 3, 4, 10, 20, 30, 40], 1, 2).unwrap();
    let sni = icon_to_sni_icon(&icon);
    assert_eq!(sni.data, vec![4, 1, 2, 3, 40, 10, 20, 30]);
    assert_eq!((sni.width, sni.height), (1, 2));
}

#[test]
fn an_empty_icon_has_an_empty_pixmap() {
    let icon = Icon::from_rgba(Vec::new(), 0, 0).unwrap();
    let sni = icon_to_sni_icon(&icon);
    assert_eq!(sni.data.len(), 0);
    assert_eq!((sni.width, sni.height), (0, 0));
}

#[test]
fn large_dimensions_are_handed_on_bit_for_bit() {
    let icon = Icon::from_rgba(Vec::new(), 0, 4_000_000_000).unwrap();
    let sni = icon_to_sni_icon(&icon);
    assert_eq!(sni.height, 4_000_000_000u32 as i32);
    assert_eq!(sni.height, -294_967_296);
}

#[test]
fn the_service_id_is_the_prefix_and_the_number() {
    assert_eq!(tray_service_id(0), "winit_tray_0");
    assert_eq!(tray_service_id(7), "winit_tray_7");
    assert_eq!(tray_service_id(10), "winit_tray_10");
    assert_eq!(tray_service_id(1234567890), "winit_tray_1234567890");
    assert_eq!(tray_service_id(usize::MAX), format!("winit_tray_{}", usize::MAX));
}

#[test]
fn the_watcher_knows_an_icon_by_connection_and_path() {
    assert_eq!(watcher_service_name(":1.42"), ":1.42/StatusNotifierItem");
    assert_eq!(watcher_service_name(""), "/StatusNotifierItem");
}

fn interface() -> StatusNotifierItemInterface {
    let attr: TrayAttributes<u32> = TrayAttributes::default().with_tooltip("Tip".to_string());
    Tray::new(3, attr).1
}

#[test]
fn a_new_tray_answers_with_its_attributes() {
    let icon = Icon::from_rgba(vec![9, 8, 7, 6], 1, 1).unwrap();
    let attr: TrayAttributes<u32> = TrayAttributes::default().with_icon(Some(icon));
    let (tray, item) = Tray::new(12, attr);
    assert_eq!(tray.id(), TrayId::from_raw(12));
    assert_eq!(item.tray_id, TrayId::from_raw(12));
    assert_eq!(item.id(), "winit_tray_12");
    assert_eq!(item.title(), "Tray Icon");
    assert_eq!(item.icon_pixmap().len(), 1);
    assert_eq!(item.icon_pixmap()[0].data, vec![6, 9, 8, 7]);
    assert_eq!(item.menu(), "/MenuBar");
}

#[test]
fn a_tray_without_image_has_no_pixmap_and_its_tooltip_as_title() {
    let item = interface();
    assert_eq!(item.title(), "Tip");
    assert_eq!(item.icon_pixmap().len(), 0);
    assert_eq!(item.tool_tip(), (String::new(), Vec::new(), "Tip".to_string(), String::new()));
}

#[test]
fn the_fixed_properties_are_fixed() {
    let mut item = interface();
    assert_eq!(item.category(), "ApplicationStatus");
    assert_eq!(item.status(), "Active");
    assert_eq!(item.window_id(), 0);
    assert_eq!(item.icon_name(), "");
    assert_eq!(item.overlay_icon_name(), "");
    assert_eq!(item.overlay_icon_pixmap().len(), 0);
    assert_eq!(item.attention_icon_name(), "");
    assert_eq!(item.attention_icon_pixmap().len(), 0);
    assert_eq!(item.attention_movie_name(), "");
    assert_eq!(item.icon_theme_path(), "");
    assert!(!item.item_is_menu());
    item.menu = None;
    assert_eq!(item.menu(), "/");
}

#[test]
fn calls_of_the_desktop_are_button_releases() {
    let item = interface();
    let id = TrayId::from_raw(3);
    let release = |button, x, y| TrayEvent::<u32>::PointerButton {
        state: ElementState::Released,
        position: PhysicalPosition::new(x, y),
        button,
    };
    assert_eq!(item.activate::<u32>(10, 20), (id, release(MouseButton::Left, 10, 20)));
    assert_eq!(item.secondary_activate::<u32>(-1, 2), (id, release(MouseButton::Right, -1, 2)));
    assert_eq!(item.scroll::<u32>(120, "vertical"), (id, release(MouseButton::Middle, 0, 0)));
}

#[test]
fn the_service_goes_on_without_the_watcher_but_not_without_the_bus() {
    assert_eq!(run_dbus_service(ServicePhase::Connect, true), ServicePhase::RegisterInterface);
    assert_eq!(run_dbus_service(ServicePhase::Connect, false), ServicePhase::Failed);
    assert_eq!(run_dbus_service(ServicePhase::RegisterInterface, true), ServicePhase::RegisterWithWatcher);
    assert_eq!(run_dbus_service(ServicePhase::RegisterInterface, false), ServicePhase::Failed);
    assert_eq!(run_dbus_service(ServicePhase::RegisterWithWatcher, false), ServicePhase::WaitForShutdown);
    assert_eq!(run_dbus_service(ServicePhase::RegisterWithWatcher, true), ServicePhase::WaitForShutdown);
    assert_eq!(run_dbus_service(ServicePhase::WaitForShutdown, false), ServicePhase::UnregisterFromWatcher);
    assert_eq!(run_dbus_service(ServicePhase::UnregisterFromWatcher, false), ServicePhase::RemoveInterface);
    assert_eq!(run_dbus_service(ServicePhase::RemoveInterface, false), ServicePhase::Finished);
    assert_eq!(run_dbus_service(ServicePhase::Finished, true), ServicePhase::Finished);
    assert_eq!(run_dbus_service(ServicePhase::Failed, true), ServicePhase::Failed);
}

#[test]
fn the_service_thread_is_waited_for_half_a_second() {
    assert_eq!(drop_step(true, 0), ShutdownStep::Join);
    assert_eq!(drop_step(true, 9999), ShutdownStep::Join);
    assert_eq!(drop_step(false, 0), ShutdownStep::Sleep(10));
    assert_eq!(drop_step(false, 499), ShutdownStep::Sleep(10));
    assert_eq!(drop_step(false, 500), ShutdownStep::GiveUp);
}
