//! The window behind a tray icon, and its window procedure.

use crate::input::RawWindowHandle;
use crate::lifecycle::{CreationFailure, Lifecycle, LifecycleModel, LifecycleState};
use crate::tray::TrayAttributes;
use crate::tray_id::TrayId;
use crate::windows::popup::{route_of, ProcResult, Route, WM_CREATE, WM_NCCREATE};
use vstd::prelude::*;

verus! {

pub const WS_OVERLAPPEDWINDOW: u32 = 0x00CF_0000;

/// The platform chooses the position or the size of the window.
pub const CW_USEDEFAULT: i32 = -0x8000_0000;

/// A tray icon that has been created.
#[derive(Copy, Clone, Debug, PartialEq, Eq, Hash, Structural)]
pub struct Tray {
    window_handle: usize,
    internal_id: usize,
}

/// What a [`Tray`] holds.
pub struct TrayView {
    /// The handle of the window behind the icon.
    pub hwnd: usize,
    /// The number of the icon, which its identifier stands for. It comes from
    /// a counter that only grows, not from the window: the platform gives the
    /// handle of a destroyed window to a later one.
    pub id: usize,
}

impl View for Tray {
    type V = TrayView;

    closed spec fn view(&self) -> TrayView {
        TrayView { hwnd: self.window_handle, id: self.internal_id }
    }
}

impl Tray {
    /// The tray icon with the number `internal_id` behind the window
    /// `window_handle`.
    pub fn new(window_handle: usize, internal_id: usize) -> (tray: Self)
        ensures
            tray@ == (TrayView { hwnd: window_handle, id: internal_id }),
    {
        Tray { window_handle, internal_id }
    }

    /// The handle of the window.
    pub fn hwnd(&self) -> (handle: usize)
        ensures
            handle == self@.hwnd,
    {
        self.window_handle
    }

    /// The identifier that the icon's events carry. It stands for the number
    /// of the icon, whatever the handle of its window is.
    pub fn id(&self) -> (id: TrayId)
        ensures
            id@ == self@.id,
    {
        TrayId::from_raw(self.internal_id)
    }
}

/// What the platform is asked for when the window behind a tray icon is
/// created.
#[derive(Copy, Clone, Debug, PartialEq, Eq, Hash, Structural)]
pub struct TrayCreateParams {
    /// The style of the window.
    pub style: u32,
    /// The position and the size, each left to the platform.
    pub x: i32,
    pub y: i32,
    pub width: i32,
    pub height: i32,
    /// The window that owns the new one.
    pub parent: Option<isize>,
}

/// The Win32 window behind `handle`, if it is one.
pub open spec fn win32_handle_of(handle: Option<RawWindowHandle>) -> Option<isize> {
    match handle {
        Some(RawWindowHandle::Win32 { hwnd }) => Some(hwnd),
        _ => None,
    }
}

/// What the platform is asked for when the tray icon of `attr` is created: an
/// ordinary top-level window that is never shown, owned by the parent window
/// if there is one.
pub fn tray_create_params<T>(attr: &TrayAttributes<T>) -> (params: TrayCreateParams)
    requires
        attr.parent_window matches Some(parent) ==> parent is Win32,
    ensures
        params == (TrayCreateParams {
            style: WS_OVERLAPPEDWINDOW,
            x: CW_USEDEFAULT,
            y: CW_USEDEFAULT,
            width: CW_USEDEFAULT,
            height: CW_USEDEFAULT,
            parent: win32_handle_of(attr.parent_window),
        }),
{
    let parent = match attr.parent_window {
        Some(RawWindowHandle::Win32 { hwnd }) => Some(hwnd),
        _ => None,
    };
    TrayCreateParams {
        style: WS_OVERLAPPEDWINDOW,
        x: CW_USEDEFAULT,
        y: CW_USEDEFAULT,
        width: CW_USEDEFAULT,
        height: CW_USEDEFAULT,
        parent,
    }
}

/// The first construction hook has run, before the platform has handed out
/// the window. If it succeeded the glue stores the record with the window and
/// lets the default handling answer. If it failed the failure is kept for
/// [`init`] and the answer is -1, which makes the platform give the window up.
pub fn on_nccreate(lifecycle: &mut Lifecycle, hook_succeeded: bool, wparam: usize) -> (result:
    ProcResult)
    requires
        old(lifecycle)@.state == LifecycleState::Creating,
        !old(lifecycle)@.installed,
    ensures
        hook_succeeded ==> result == ProcResult::DefWindowProc(wparam),
        hook_succeeded ==> final(lifecycle)@ == (LifecycleModel {
            installed: true,
            ..old(lifecycle)@
        }),
        !hook_succeeded ==> result == ProcResult::Value(-1isize),
        !hook_succeeded ==> final(lifecycle)@ == (LifecycleModel {
            panicked: true,
            ..old(lifecycle)@
        }),
{
    if lifecycle.install_record(hook_succeeded) {
        ProcResult::DefWindowProc(wparam)
    } else {
        ProcResult::Value(-1isize)
    }
}

/// What the window procedure behind a tray icon answers.
pub open spec fn tray_result_of(
    userdata_present: bool,
    msg: u32,
    wparam: usize,
    hook_succeeded: bool,
) -> ProcResult {
    match route_of(userdata_present, msg) {
        Route::NcCreate => if hook_succeeded {
            ProcResult::DefWindowProc(wparam)
        } else {
            ProcResult::Value(-1isize)
        },
        Route::RejectCreate => ProcResult::Value(-1isize),
        Route::Create => ProcResult::DefWindowProc(wparam),
        Route::PassThrough => ProcResult::DefWindowProc(wparam),
        Route::Dispatch => ProcResult::Value(0isize),
    }
}

/// The window procedure behind a tray icon.
///
/// The first message of a window without record runs the first construction
/// hook, whose outcome is `hook_succeeded`: the window is created if it
/// succeeded and given up with -1 if not. `WM_CREATE` without a record also
/// gives the window up. With a record, `WM_CREATE` goes to the default
/// handling, as does every message of a window that has lost its record; all
/// other messages are answered with 0.
pub fn public_window_callback(
    userdata_present: bool,
    msg: u32,
    wparam: usize,
    hook_succeeded: bool,
) -> (result: ProcResult)
    ensures
        result == tray_result_of(userdata_present, msg, wparam, hook_succeeded),
{
    if !userdata_present && msg == WM_NCCREATE {
        if hook_succeeded {
            ProcResult::DefWindowProc(wparam)
        } else {
            ProcResult::Value(-1isize)
        }
    } else if !userdata_present && msg == WM_CREATE {
        ProcResult::Value(-1isize)
    } else if msg == WM_CREATE || !userdata_present {
        ProcResult::DefWindowProc(wparam)
    } else {
        ProcResult::Value(0isize)
    }
}

/// Ends the creation of the tray icon with the number `internal_id` once the
/// native call has returned with `window_handle`, which is 0 if no window was
/// created.
///
/// A failure that was captured in a construction hook comes first and is
/// re-raised by the caller; then a missing window, with the platform's error
/// code. Otherwise the icon is live.
pub fn init(lifecycle: &mut Lifecycle, window_handle: usize, internal_id: usize, os_error: i32) -> (r:
    Result<Tray, CreationFailure>)
    requires
        old(lifecycle)@.state == LifecycleState::Creating || old(lifecycle)@.state
            == LifecycleState::Destroyed,
        old(lifecycle)@.depth == 0,
    ensures
        final(lifecycle)@ == old(lifecycle)@.finish_create(window_handle != 0, os_error).0,
        match old(lifecycle)@.finish_create(window_handle != 0, os_error).1 {
            Ok(_) => r matches Ok(tray) && tray@ == (TrayView {
                hwnd: window_handle,
                id: internal_id,
            }),
            Err(failure) => r == Err::<Tray, CreationFailure>(failure),
        },
{
    match lifecycle.finish_create(window_handle != 0, os_error) {
        Ok(_) => Ok(Tray::new(window_handle, internal_id)),
        Err(failure) => Err(failure),
    }
}

} // verus!
