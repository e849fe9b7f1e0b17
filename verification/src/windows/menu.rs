//! Context menus of tray icons, popups and windows.

use crate::icon::Icon;
use crate::id_map::{lookup, IdMap};
use crate::input::{PhysicalPosition, RawWindowHandle, Rect};
use crate::menu::{count_items, entry_count, menu_ids, MenuEntry};
use crate::native_menu::{appended_clones, build_menu, menu_mirrors, NativeMenu};
use vstd::pervasive::cloned;
use vstd::prelude::*;

verus! {

pub const MF_STRING: u32 = 0x0000;

pub const MF_GRAYED: u32 = 0x0001;

pub const MF_CHECKED: u32 = 0x0008;

pub const MF_POPUP: u32 = 0x0010;

pub const MF_SEPARATOR: u32 = 0x0800;

pub const TPM_LEFTALIGN: u32 = 0x0000;

pub const TPM_TOPALIGN: u32 = 0x0000;

pub const TPM_RIGHTBUTTON: u32 = 0x0002;

pub const TPM_RIGHTALIGN: u32 = 0x0008;

pub const TPM_BOTTOMALIGN: u32 = 0x0020;

pub const TPM_RETURNCMD: u32 = 0x0100;

/// The mode that makes the menus of the application dark.
pub const APP_MODE_FORCE_DARK: i32 = 2;

/// The mode that makes the menus of the application light.
pub const APP_MODE_FORCE_LIGHT: i32 = 3;

/// The height that a menu item is taken to have, in pixels.
pub const ITEM_HEIGHT: i32 = 24;

/// The width that a menu is taken to have, in pixels.
pub const EST_WIDTH: i32 = 300;

/// Whether the context menus of the application are dark.
#[derive(Copy, Clone, Debug, PartialEq, Eq, Hash, Structural)]
pub struct DarkMode {
    enabled: bool,
}

impl View for DarkMode {
    type V = bool;

    closed spec fn view(&self) -> bool {
        self.enabled
    }
}

impl DarkMode {
    /// Menus are light to begin with.
    pub fn new() -> (mode: Self)
        ensures
            !mode@,
    {
        DarkMode { enabled: false }
    }
}

/// Switches dark menus on or off, and gives the mode that the platform is
/// asked for: dark or light, each overriding the choice of the system.
pub fn set_dark_mode(mode: &mut DarkMode, enabled: bool) -> (app_mode: i32)
    ensures
        final(mode)@ == enabled,
        app_mode == if enabled {
            APP_MODE_FORCE_DARK
        } else {
            APP_MODE_FORCE_LIGHT
        },
{
    mode.enabled = enabled;
    if enabled {
        APP_MODE_FORCE_DARK
    } else {
        APP_MODE_FORCE_LIGHT
    }
}

/// Whether dark menus were switched on last.
pub fn is_dark_mode_enabled(mode: &DarkMode) -> (enabled: bool)
    ensures
        enabled == mode@,
{
    mode.enabled
}

/// Where a context menu appears relative to the position it is shown at.
#[derive(Copy, Clone, Debug, PartialEq, Eq, Hash, Structural)]
pub enum MenuAlignment {
    /// Below and to the right: the menu's top-left corner is at the
    /// position. This is what menus of windows do.
    BottomRight,
    /// Above and to the left: the bottom-right corner is at the position.
    /// This is what menus of tray icons do.
    TopLeft,
    /// Below and to the left: the top-right corner is at the position.
    BottomLeft,
    /// Above and to the right: the bottom-left corner is at the position.
    TopRight,
    /// Whatever keeps the menu on the screen.
    Auto,
}

impl Default for MenuAlignment {
    fn default() -> (alignment: Self)
        ensures
            alignment == MenuAlignment::BottomRight,
    {
        MenuAlignment::BottomRight
    }
}

/// The work area that is taken where the platform cannot tell it.
pub open spec fn default_work_area() -> Rect {
    Rect { left: 0, top: 0, right: 1920, bottom: 1080 }
}

/// The work area of the monitor as the platform told it, or a common screen
/// size where it could not.
pub fn work_area_or_default(work_area: Option<Rect>) -> (area: Rect)
    ensures
        area == match work_area {
            Some(area) => area,
            None => default_work_area(),
        },
{
    match work_area {
        Some(area) => area,
        None => Rect { left: 0, top: 0, right: 1920, bottom: 1080 },
    }
}

/// The height that a menu of `item_count` entries is taken to have: that of
/// its entries, and at least that of one.
pub open spec fn estimated_height(item_count: int) -> int {
    if item_count * ITEM_HEIGHT > ITEM_HEIGHT {
        item_count * ITEM_HEIGHT
    } else {
        ITEM_HEIGHT as int
    }
}

/// Estimates the size of a menu from the number of its entries, as width and
/// height. The true size depends on the labels and icons; this is a rough
/// guess that errs on the wide side.
pub fn estimate_menu_size(item_count: usize) -> (size: (i32, i32))
    requires
        item_count * ITEM_HEIGHT <= i32::MAX,
    ensures
        size.0 == EST_WIDTH,
        size.1 == estimated_height(item_count as int),
{
    let count: i32 = item_count as i32;
    let height: i32 = if count * ITEM_HEIGHT > ITEM_HEIGHT {
        count * ITEM_HEIGHT
    } else {
        ITEM_HEIGHT
    };
    (EST_WIDTH, height)
}

/// The alignment that keeps a menu of `item_count` entries, shown at
/// (`x`, `y`), inside `work_area`: to the left if it would cross the right
/// edge, upwards if it would cross the bottom edge.
pub open spec fn smart_alignment(x: int, y: int, item_count: int, work_area: Rect) -> MenuAlignment {
    let overflows_right = x + EST_WIDTH > work_area.right;
    let overflows_bottom = y + estimated_height(item_count) > work_area.bottom;
    if overflows_right && overflows_bottom {
        MenuAlignment::TopLeft
    } else if overflows_right {
        MenuAlignment::BottomLeft
    } else if overflows_bottom {
        MenuAlignment::TopRight
    } else {
        MenuAlignment::BottomRight
    }
}

/// Chooses the alignment that keeps a menu on the screen.
pub fn determine_smart_alignment(x: i32, y: i32, item_count: usize, work_area: Rect) -> (alignment:
    MenuAlignment)
    requires
        item_count * ITEM_HEIGHT <= i32::MAX,
    ensures
        alignment == smart_alignment(x as int, y as int, item_count as int, work_area),
{
    let (est_width, est_height) = estimate_menu_size(item_count);
    let would_overflow_right = x as i64 + est_width as i64 > work_area.right as i64;
    let would_overflow_bottom = y as i64 + est_height as i64 > work_area.bottom as i64;
    if would_overflow_right && would_overflow_bottom {
        MenuAlignment::TopLeft
    } else if would_overflow_right {
        MenuAlignment::BottomLeft
    } else if would_overflow_bottom {
        MenuAlignment::TopRight
    } else {
        MenuAlignment::BottomRight
    }
}

/// The flags with which the platform tracks a menu of the given alignment.
/// The menu follows the right button too, and the selection is returned
/// rather than posted.
pub open spec fn track_flags_of(alignment: MenuAlignment) -> u32 {
    match alignment {
        MenuAlignment::BottomRight => TPM_LEFTALIGN | TPM_TOPALIGN | TPM_RIGHTBUTTON
            | TPM_RETURNCMD,
        MenuAlignment::TopLeft => TPM_RIGHTALIGN | TPM_BOTTOMALIGN | TPM_RIGHTBUTTON
            | TPM_RETURNCMD,
        MenuAlignment::BottomLeft => TPM_RIGHTALIGN | TPM_TOPALIGN | TPM_RIGHTBUTTON
            | TPM_RETURNCMD,
        MenuAlignment::TopRight => TPM_LEFTALIGN | TPM_BOTTOMALIGN | TPM_RIGHTBUTTON
            | TPM_RETURNCMD,
        MenuAlignment::Auto => 0,
    }
}

/// The flags for tracking a menu of a resolved alignment.
pub fn track_flags(alignment: MenuAlignment) -> (flags: u32)
    requires
        alignment != MenuAlignment::Auto,
    ensures
        flags == track_flags_of(alignment),
{
    match alignment {
        MenuAlignment::BottomRight => TPM_LEFTALIGN | TPM_TOPALIGN | TPM_RIGHTBUTTON
            | TPM_RETURNCMD,
        MenuAlignment::TopLeft => TPM_RIGHTALIGN | TPM_BOTTOMALIGN | TPM_RIGHTBUTTON
            | TPM_RETURNCMD,
        MenuAlignment::BottomLeft => TPM_RIGHTALIGN | TPM_TOPALIGN | TPM_RIGHTBUTTON
            | TPM_RETURNCMD,
        _ => TPM_LEFTALIGN | TPM_BOTTOMALIGN | TPM_RIGHTBUTTON | TPM_RETURNCMD,
    }
}

/// The flags with which an item is appended: a string, grayed if it is
/// disabled, with a check mark if it is checked.
pub open spec fn item_flags_of(enabled: bool, checked: Option<bool>) -> u32 {
    MF_STRING | (if enabled {
        0
    } else {
        MF_GRAYED
    }) | (if checked == Some(true) {
        MF_CHECKED
    } else {
        0
    })
}

/// The flags with which an item is appended to a native menu.
pub fn item_flags(enabled: bool, checked: Option<bool>) -> (flags: u32)
    ensures
        flags == item_flags_of(enabled, checked),
{
    let grayed: u32 = if enabled {
        0
    } else {
        MF_GRAYED
    };
    let check: u32 = match checked {
        Some(true) => MF_CHECKED,
        _ => 0,
    };
    MF_STRING | grayed | check
}

/// The flags with which a submenu is appended: a popup, grayed if it is
/// disabled.
pub fn submenu_flags(enabled: bool) -> (flags: u32)
    ensures
        flags == MF_POPUP | (if enabled {
            0
        } else {
            MF_GRAYED
        }),
{
    let grayed: u32 = if enabled {
        0
    } else {
        MF_GRAYED
    };
    MF_POPUP | grayed
}

/// How a context menu is to be shown.
#[derive(Debug)]
pub struct ContextMenuPlan<T> {
    /// The menu that the platform creates.
    pub menu: NativeMenu,
    /// The identifiers behind the command codes of the menu.
    pub id_map: IdMap<T>,
    /// The flags with which the platform tracks the menu.
    pub flags: u32,
}

/// The alignment that a menu is shown with: the one asked for, or for
/// `Auto` the one that keeps the menu on the screen.
pub open spec fn resolved_alignment(
    alignment: MenuAlignment,
    x: int,
    y: int,
    item_count: int,
    work_area: Option<Rect>,
) -> MenuAlignment {
    if alignment == MenuAlignment::Auto {
        smart_alignment(
            x,
            y,
            item_count,
            match work_area {
                Some(area) => area,
                None => default_work_area(),
            },
        )
    } else {
        alignment
    }
}

/// Prepares a context menu of `items` that is shown at the screen position
/// (`x`, `y`).
///
/// The menu is built with command codes from 1 on. No items give no menu and
/// nothing to show. An alignment of `Auto` is resolved against `work_area`,
/// the work area of the monitor at the position, with the number of all
/// entries of the menu as the estimate of its height.
pub fn show_context_menu_with_alignment<T: Clone>(
    items: &Vec<MenuEntry<T>>,
    x: i32,
    y: i32,
    alignment: MenuAlignment,
    work_area: Option<Rect>,
) -> (plan: Option<ContextMenuPlan<T>>)
    requires
        menu_ids(items@).len() <= u32::MAX,
        alignment == MenuAlignment::Auto ==> entry_count(items@) * ITEM_HEIGHT <= i32::MAX,
    ensures
        items@.len() == 0 <==> plan is None,
        plan matches Some(p) ==> {
            &&& menu_mirrors(items@, 1, Some(p.menu))
            &&& appended_clones(Seq::<T>::empty(), menu_ids(items@), p.id_map@)
            &&& p.flags == track_flags_of(
                resolved_alignment(
                    alignment,
                    x as int,
                    y as int,
                    entry_count(items@) as int,
                    work_area,
                ),
            )
        },
{
    let mut id_map: IdMap<T> = IdMap::new();
    let menu = match build_menu(items, &mut id_map) {
        Some(menu) => menu,
        None => {
            return None;
        },
    };
    let resolved = match alignment {
        MenuAlignment::Auto => determine_smart_alignment(
            x,
            y,
            count_items(items),
            work_area_or_default(work_area),
        ),
        other => other,
    };
    Some(ContextMenuPlan { menu, id_map, flags: track_flags(resolved) })
}

/// Prepares the context menu of a tray icon, which appears above and to the
/// left of the position.
pub fn show_context_menu<T: Clone>(items: &Vec<MenuEntry<T>>, x: i32, y: i32) -> (plan: Option<
    ContextMenuPlan<T>,
>)
    requires
        menu_ids(items@).len() <= u32::MAX,
    ensures
        items@.len() == 0 <==> plan is None,
        plan matches Some(p) ==> {
            &&& menu_mirrors(items@, 1, Some(p.menu))
            &&& appended_clones(Seq::<T>::empty(), menu_ids(items@), p.id_map@)
            &&& p.flags == track_flags_of(MenuAlignment::TopLeft)
        },
{
    show_context_menu_with_alignment(items, x, y, MenuAlignment::TopLeft, None)
}

/// The identifier that the user selected, from what tracking the menu
/// returned: the command code of the selected item, or 0 or less if the menu
/// was dismissed.
pub fn selected_item<T: Clone>(id_map: &IdMap<T>, selected: i32) -> (id: Option<T>)
    ensures
        id is Some <==> lookup(id_map@, selected as int) is Some,
        id matches Some(found) ==> cloned(lookup(id_map@, selected as int)->0, found),
{
    if selected > 0 {
        id_map.get(selected as u32)
    } else {
        None
    }
}

/// The Win32 window behind a handle; nothing for a window of another
/// windowing system.
pub open spec fn win32_window_of(window: RawWindowHandle) -> Option<isize> {
    match window {
        RawWindowHandle::Win32 { hwnd } => Some(hwnd),
        _ => None,
    }
}

/// Picks the Win32 window out of a handle.
pub fn win32_window(window: RawWindowHandle) -> (hwnd: Option<isize>)
    ensures
        hwnd == win32_window_of(window),
{
    match window {
        RawWindowHandle::Win32 { hwnd } => Some(hwnd),
        _ => None,
    }
}

/// How a context menu is to be shown for a window.
#[derive(Debug)]
pub struct WindowMenuPlan<T> {
    /// The window that owns the menu.
    pub hwnd: isize,
    pub plan: ContextMenuPlan<T>,
}

/// Prepares a context menu for a window, shown at a position in screen
/// coordinates and kept on the screen.
///
/// Nothing is shown for a window of another windowing system, nor for a menu
/// without items.
pub fn show_context_menu_for_window_at_screen_pos<T: Clone>(
    window: RawWindowHandle,
    items: &Vec<MenuEntry<T>>,
    screen_position: PhysicalPosition,
    work_area: Option<Rect>,
) -> (shown: Option<WindowMenuPlan<T>>)
    requires
        menu_ids(items@).len() <= u32::MAX,
        entry_count(items@) * ITEM_HEIGHT <= i32::MAX,
    ensures
        shown is Some <==> win32_window_of(window) is Some && items@.len() > 0,
        shown matches Some(w) ==> {
            &&& Some(w.hwnd) == win32_window_of(window)
            &&& menu_mirrors(items@, 1, Some(w.plan.menu))
            &&& appended_clones(Seq::<T>::empty(), menu_ids(items@), w.plan.id_map@)
            &&& w.plan.flags == track_flags_of(
                smart_alignment(
                    screen_position.x as int,
                    screen_position.y as int,
                    entry_count(items@) as int,
                    match work_area {
                        Some(area) => area,
                        None => default_work_area(),
                    },
                ),
            )
        },
{
    match win32_window(window) {
        Some(hwnd) => {
            match show_context_menu_with_alignment(
                items,
                screen_position.x,
                screen_position.y,
                MenuAlignment::Auto,
                work_area,
            ) {
                Some(plan) => Some(WindowMenuPlan { hwnd, plan }),
                None => None,
            }
        },
        None => None,
    }
}

/// Prepares a context menu for a window, shown at a position inside the
/// window. `screen_position` is that position as the platform converted it to
/// screen coordinates; the rest is as in
/// [`show_context_menu_for_window_at_screen_pos`].
pub fn show_context_menu_for_window<T: Clone>(
    window: RawWindowHandle,
    items: &Vec<MenuEntry<T>>,
    screen_position: PhysicalPosition,
    work_area: Option<Rect>,
) -> (shown: Option<WindowMenuPlan<T>>)
    requires
        menu_ids(items@).len() <= u32::MAX,
        entry_count(items@) * ITEM_HEIGHT <= i32::MAX,
    ensures
        shown is Some <==> win32_window_of(window) is Some && items@.len() > 0,
        shown matches Some(w) ==> {
            &&& Some(w.hwnd) == win32_window_of(window)
            &&& menu_mirrors(items@, 1, Some(w.plan.menu))
            &&& appended_clones(Seq::<T>::empty(), menu_ids(items@), w.plan.id_map@)
            &&& w.plan.flags == track_flags_of(
                smart_alignment(
                    screen_position.x as int,
                    screen_position.y as int,
                    entry_count(items@) as int,
                    match work_area {
                        Some(area) => area,
                        None => default_work_area(),
                    },
                ),
            )
        },
{
    show_context_menu_for_window_at_screen_pos(window, items, screen_position, work_area)
}

/// The two planes from which the platform makes an icon.
#[derive(Debug, PartialEq, Eq)]
pub struct IconPlanes {
    /// The pixels as blue, green, red, alpha.
    pub bgra: Vec<u8>,
    /// One byte for each pixel: 0 for an opaque pixel, and the alpha plus one
    /// for any other.
    pub and_mask: Vec<u8>,
}

/// The BGRA bytes of RGBA pixels: every whole pixel with red and blue
/// exchanged.
pub open spec fn bgra_of(rgba: Seq<u8>) -> Seq<u8> {
    Seq::new(
        4 * (rgba.len() / 4),
        |i: int|
            if i % 4 == 0 {
                rgba[i + 2]
            } else if i % 4 == 2 {
                rgba[i - 2]
            } else {
                rgba[i]
            },
    )
}

/// The mask bytes of RGBA pixels: for every whole pixel its alpha less 255,
/// in eight bits.
pub open spec fn and_mask_of(rgba: Seq<u8>) -> Seq<u8> {
    Seq::new(
        rgba.len() / 4,
        |p: int|
            if rgba[4 * p + 3] == 255 {
                0u8
            } else {
                (rgba[4 * p + 3] + 1) as u8
            },
    )
}

/// Converts the pixels of an icon to the color plane and the mask that the
/// platform makes an icon from.
pub fn icon_planes(icon: &Icon) -> (planes: IconPlanes)
    ensures
        planes.bgra@ == bgra_of(icon@.rgba),
        planes.and_mask@ == and_mask_of(icon@.rgba),
{
    let buffer = icon.buffer();
    let pixels: usize = buffer.len() / 4;
    let mut bgra: Vec<u8> = Vec::new();
    let mut and_mask: Vec<u8> = Vec::new();
    let mut p: usize = 0;
    while p < pixels
        invariant
            p <= pixels,
            pixels == buffer@.len() / 4,
            4 * pixels <= buffer@.len() <= usize::MAX,
            bgra@.len() == 4 * p,
            and_mask@.len() == p,
            forall|i: int| 0 <= i < 4 * p ==> #[trigger] bgra@[i] == bgra_of(buffer@)[i],
            forall|q: int| 0 <= q < p ==> #[trigger] and_mask@[q] == and_mask_of(buffer@)[q],
        decreases pixels - p,
    {
        let r: u8 = buffer[4 * p];
        let g: u8 = buffer[4 * p + 1];
        let b: u8 = buffer[4 * p + 2];
        let a: u8 = buffer[4 * p + 3];
        bgra.push(b);
        bgra.push(g);
        bgra.push(r);
        bgra.push(a);
        and_mask.push(if a == 255 {
            0
        } else {
            a + 1
        });
        p += 1;
    }
    IconPlanes { bgra, and_mask }
}

} // verus!
