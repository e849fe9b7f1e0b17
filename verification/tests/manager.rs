use winit_tray::id_map::IdMap;
use winit_tray::input::{ElementState, MouseButton, PhysicalPosition};
use winit_tray::manager::{
    EventQueue, IdAllocator, MenuBarManager, PopupManager, Recv, RecvError, TrayManager, TryRecvError,
};
use winit_tray::popup::{PopupCloseReason, PopupEvent, PopupId};
use winit_tray::menu::{MenuEntry, MenuItem};
use winit_tray::menu_bar::{MenuBarEvent, MenuBarId};
use winit_tray::native_menu::{build_menu, NativeEntry};
use winit_tray::tray::TrayEvent;
use winit_tray::tray_id::TrayId;

#[test]
fn events_of_one_object_arrive_in_the_order_sent() {
    let mut queue = EventQueue::new();
    for event in ["A", "B", "C"] {
        queue.send((1u8, event));
    }
    assert_eq!(queue.len(), 3);
    assert_eq!(queue.try_recv(), Ok((1, "A")));
    assert_eq!(queue.try_recv(), Ok((1, "B")));
    assert_eq!(queue.try_recv(), Ok((1, "C")));
    assert_eq!(queue.try_recv(), Err(TryRecvError::Empty));
}

#[test]
fn interleaved_objects_each_keep_their_order() {
    let mut queue = EventQueue::new();
    let sent = vec![(1u8, 'a'), (2, 'x'), (1, 'b'), (2, 'y'), (2, 'z'), (1, 'c')];
    for message in sent.iter() {
        queue.send(*message);
    }
    let mut received = Vec::new();
    while let Ok(message) = queue.try_recv() {
        received.push(message);
    }
    assert_eq!(received, sent);
    let of_one: Vec<char> = received.iter().filter(|m| m.0 == 1).map(|m| m.1).collect();
    let of_two: Vec<char> = received.iter().filter(|m| m.0 == 2).map(|m| m.1).collect();
    assert_eq!(of_one, vec!['a', 'b', 'c']);
    assert_eq!(of_two, vec!['x', 'y', 'z']);
}

#[test]
fn an_empty_queue_is_empty_while_a_writer_exists() {
    let mut queue: EventQueue<u8> = EventQueue::new();
    assert_eq!(queue.writers(), 1);
    assert_eq!(queue.try_recv(), Err(TryRecvError::Empty));
    assert_eq!(queue.recv(), Recv::Wait);
}

#[test]
fn an_empty_queue_is_disconnected_once_the_last_writer_is_gone() {
    let mut queue: EventQueue<u8> = EventQueue::new();
    queue.add_writer();
    assert_eq!(queue.writers(), 2);
    queue.send(5);
    queue.remove_writer();
    queue.remove_writer();
    queue.remove_writer();
    assert_eq!(queue.writers(), 0);
    // What was sent is still delivered.
    assert_eq!(queue.recv(), Recv::Ready(5));
    assert_eq!(queue.try_recv(), Err(TryRecvError::Disconnected));
    assert_eq!(queue.recv(), Recv::Disconnected(RecvError));
}

#[test]
fn a_tray_manager_hands_out_events_with_their_source() {
    let mut manager: TrayManager<u32> = TrayManager::new();
    let press = TrayEvent::PointerButton {
        state: ElementState::Pressed,
        position: PhysicalPosition::new(4, 5),
        button: MouseButton::Left,
    };
    manager.send(TrayId::from_raw(1), press.clone());
    manager.send(TrayId::from_raw(2), TrayEvent::MenuItemClicked { id: 9 });
    assert_eq!(manager.try_recv(), Ok((TrayId::from_raw(1), press)));
    assert_eq!(manager.recv(), Recv::Ready((TrayId::from_raw(2), TrayEvent::MenuItemClicked { id: 9 })));
    assert_eq!(manager.try_recv(), Err(TryRecvError::Empty));
    assert_eq!(manager.recv(), Recv::Wait);
    manager.remove_writer();
    assert_eq!(manager.try_recv(), Err(TryRecvError::Disconnected));
    manager.add_writer();
    assert_eq!(manager.try_recv(), Err(TryRecvError::Empty));
}

#[test]
fn a_menu_bar_manager_hands_out_events_with_their_source() {
    let mut manager: MenuBarManager<&'static str> = MenuBarManager::new();
    manager.send(MenuBarId::from_raw(3), MenuBarEvent::MenuItemClicked { id: "quit" });
    assert_eq!(manager.try_recv(), Ok((MenuBarId::from_raw(3), MenuBarEvent::MenuItemClicked { id: "quit" })));
    assert_eq!(manager.try_recv(), Err(TryRecvError::Empty));
    manager.remove_writer();
    assert_eq!(manager.recv(), Recv::Disconnected(RecvError));
}

#[test]
fn a_popup_manager_hands_out_events_with_their_source() {
    let mut manager: PopupManager<u8> = PopupManager::new();
    let closed = PopupEvent::Closed { reason: PopupCloseReason::Timeout };
    assert!(manager.send(PopupId::from_raw(1), PopupEvent::MenuItemClicked { id: 4 }));
    assert!(manager.send(PopupId::from_raw(2), closed.clone()));
    assert_eq!(manager.try_recv(), Ok((PopupId::from_raw(1), PopupEvent::MenuItemClicked { id: 4 })));
    assert_eq!(manager.try_recv(), Ok((PopupId::from_raw(2), closed)));
    assert_eq!(manager.try_recv(), Err(TryRecvError::Empty));
}

#[derive(Clone, Debug, PartialEq)]
enum Action {
    Open,
    Exit,
}

#[test]
fn a_click_on_the_second_item_of_a_menu_reaches_the_application() {
    let mut manager: TrayManager<Action> = TrayManager::new();
    let tray = TrayId::from_raw(1);
    let menu = vec![
        MenuEntry::Item(MenuItem::new(Action::Open, "Open")),
        MenuEntry::Separator,
        MenuEntry::Item(MenuItem::new(Action::Exit, "Exit")),
    ];
    let mut map = IdMap::new();
    let native = build_menu(&menu, &mut map).unwrap();
    assert!(matches!(native.entries[2], NativeEntry::Item { code: 2, .. }));
    // The platform reports command code 2.
    assert_eq!(map.get(2), Some(Action::Exit));
    assert_eq!(map.get(1), Some(Action::Open));
    let id = map.get(2).unwrap();
    manager.send(tray, TrayEvent::MenuItemClicked { id });
    assert_eq!(manager.try_recv(), Ok((tray, TrayEvent::MenuItemClicked { id: Action::Exit })));
    assert_eq!(manager.try_recv(), Err(TryRecvError::Empty));
}

#[test]
fn every_send_signals_the_loop_and_the_signals_collapse() {
    let mut queue = EventQueue::new();
    assert!(!queue.wake_pending());
    assert!(queue.send('a'));
    assert!(queue.wake_pending());
    assert!(queue.send('b'));
    assert!(queue.send('c'));
    assert!(queue.wake_pending());
    // The loop wakes up and starts to receive.
    assert_eq!(queue.try_recv(), Ok('a'));
    assert!(!queue.wake_pending());
    // What arrives while it receives signals it again.
    assert!(queue.send('d'));
    assert!(queue.wake_pending());
    assert_eq!(queue.try_recv(), Ok('b'));
    assert_eq!(queue.try_recv(), Ok('c'));
    assert_eq!(queue.try_recv(), Ok('d'));
    assert_eq!(queue.try_recv(), Err(TryRecvError::Empty));
    assert!(!queue.wake_pending());
    // A receive that finds nothing is a receive too.
    let mut idle: EventQueue<char> = EventQueue::new();
    assert!(idle.send('x'));
    assert_eq!(idle.recv(), Recv::Ready('x'));
    assert_eq!(idle.recv(), Recv::Wait);
    assert!(!idle.wake_pending());
    assert!(idle.send('y'));
    assert!(idle.send('z'));
}

#[test]
fn managers_signal_the_loop_on_every_send() {
    let mut trays: TrayManager<u8> = TrayManager::new();
    assert_eq!(trays.len(), 0);
    assert_eq!(trays.writers(), 1);
    assert!(trays.send(TrayId::from_raw(1), TrayEvent::MenuItemClicked { id: 1 }));
    assert!(trays.send(TrayId::from_raw(1), TrayEvent::MenuItemClicked { id: 2 }));
    assert!(trays.wake_pending());
    assert_eq!(trays.len(), 2);
    let mut bars: MenuBarManager<u8> = MenuBarManager::new();
    assert!(bars.send(MenuBarId::from_raw(1), MenuBarEvent::MenuItemClicked { id: 1 }));
    assert!(bars.send(MenuBarId::from_raw(1), MenuBarEvent::MenuItemClicked { id: 2 }));
    assert_eq!(bars.len(), 2);
    assert_eq!(bars.writers(), 1);
}

#[test]
fn identifiers_only_grow() {
    let mut allocator = IdAllocator::new();
    assert_eq!(allocator.allocate(), Some(1));
    assert_eq!(allocator.allocate(), Some(2));
    assert_eq!(allocator.allocate(), Some(3));
    let mut other = IdAllocator::new();
    let first = other.allocate().unwrap();
    assert!(first >= 1);
    assert!(other.allocate().unwrap() > first);
}
