//! The window procedure of a popup window, and what is asked of the window.

use crate::input::{wrap_to_i32, wrapping_i32, ElementState, MouseButton, PhysicalPosition, PhysicalSize};
use crate::lifecycle::{CreationFailure, DestroyStep, Lifecycle, LifecycleModel, LifecycleState};
use crate::popup::{PopupAttributes, PopupCloseReason, PopupEvent, PopupId};
use crate::windows::msg::{is_registered, RegisteredMessage};
use vstd::prelude::*;

verus! {

pub const WM_CREATE: u32 = 0x0001;

pub const WM_ACTIVATE: u32 = 0x0006;

pub const WM_NCCREATE: u32 = 0x0081;

pub const WM_TIMER: u32 = 0x0113;

pub const WM_LBUTTONDOWN: u32 = 0x0201;

pub const WM_LBUTTONUP: u32 = 0x0202;

pub const WM_RBUTTONDOWN: u32 = 0x0204;

pub const WM_RBUTTONUP: u32 = 0x0205;

pub const WM_MBUTTONDOWN: u32 = 0x0207;

pub const WM_MBUTTONUP: u32 = 0x0208;

pub const WM_XBUTTONDOWN: u32 = 0x020B;

pub const WM_XBUTTONUP: u32 = 0x020C;

/// The low word of `WM_ACTIVATE`'s `wparam` when the window is deactivated.
pub const WA_INACTIVE: u32 = 0;

/// The first extended button, as the high word of `wparam` names it.
pub const XBUTTON1: u32 = 1;

/// The timer that dismisses a popup by itself.
pub const AUTO_DISMISS_TIMER_ID: usize = 1;

pub const SWP_NOSIZE: u32 = 0x0001;

pub const SWP_NOMOVE: u32 = 0x0002;

pub const SWP_NOACTIVATE: u32 = 0x0010;

pub const SWP_SHOWWINDOW: u32 = 0x0040;

pub const SW_HIDE: i32 = 0;

pub const SW_SHOWNOACTIVATE: i32 = 4;

pub const WS_EX_TOPMOST: u32 = 0x0000_0008;

pub const WS_EX_TOOLWINDOW: u32 = 0x0000_0080;

pub const WS_POPUP: u32 = 0x8000_0000;

pub const CS_VREDRAW: u32 = 0x0001;

pub const CS_HREDRAW: u32 = 0x0002;

/// What a window procedure answers.
#[derive(Copy, Clone, Debug, PartialEq, Eq, Hash, Structural)]
pub enum ProcResult {
    /// The answer of the platform's default handling, called with this
    /// `wparam`.
    DefWindowProc(usize),
    /// This value.
    Value(isize),
}

/// Where a message goes before any record is looked at.
#[derive(Copy, Clone, Debug, PartialEq, Eq, Hash, Structural)]
pub enum Route {
    /// The first message of a window that has no record yet: the first
    /// construction hook runs. If it succeeds the record is stored with the
    /// window and the default handling answers; else the answer is -1 and the
    /// window is not created.
    NcCreate,
    /// `WM_CREATE` without a record. The answer is -1: the window is not
    /// created.
    RejectCreate,
    /// `WM_CREATE` with a record: the second construction hook runs, then the
    /// default handling answers.
    Create,
    /// Any other message without a record: the default handling answers.
    PassThrough,
    /// Any other message with a record: the message is dispatched to it.
    Dispatch,
}

/// Where `msg` goes, given whether the window has a record.
pub open spec fn route_of(userdata_present: bool, msg: u32) -> Route {
    if !userdata_present && msg == WM_NCCREATE {
        Route::NcCreate
    } else if !userdata_present && msg == WM_CREATE {
        Route::RejectCreate
    } else if msg == WM_CREATE {
        Route::Create
    } else if !userdata_present {
        Route::PassThrough
    } else {
        Route::Dispatch
    }
}

/// Routes a message of a popup or tray window.
pub fn route_message(userdata_present: bool, msg: u32) -> (route: Route)
    ensures
        route == route_of(userdata_present, msg),
{
    if !userdata_present && msg == WM_NCCREATE {
        Route::NcCreate
    } else if !userdata_present && msg == WM_CREATE {
        Route::RejectCreate
    } else if msg == WM_CREATE {
        Route::Create
    } else if !userdata_present {
        Route::PassThrough
    } else {
        Route::Dispatch
    }
}

/// What a message means to a popup window.
#[derive(Copy, Clone, Debug, PartialEq, Eq, Hash, Structural)]
pub enum PopupMessage {
    /// The timer for automatic dismissal ran out.
    AutoDismiss,
    /// The window lost activation: the user clicked elsewhere.
    Deactivated,
    /// A pointer button went down or came up inside the window.
    Pointer { state: ElementState, button: MouseButton },
    /// The application asked the window to close.
    CloseRequest,
    /// Anything else.
    Other,
}

/// The low 16 bits of `wparam`.
pub open spec fn low_word(wparam: usize) -> int {
    wparam as int % 0x1_0000
}

/// Bits 16 to 31 of `wparam`.
pub open spec fn high_word(wparam: usize) -> int {
    (wparam as int / 0x1_0000) % 0x1_0000
}

/// The button that a message about an extended button speaks of.
pub open spec fn xbutton_of(wparam: usize) -> MouseButton {
    if high_word(wparam) == XBUTTON1 {
        MouseButton::Back
    } else {
        MouseButton::Forward
    }
}

/// The button and the direction that a pointer message speaks of; nothing
/// for other messages.
pub open spec fn pointer_of(msg: u32, wparam: usize) -> Option<(ElementState, MouseButton)> {
    if msg == WM_LBUTTONDOWN {
        Some((ElementState::Pressed, MouseButton::Left))
    } else if msg == WM_LBUTTONUP {
        Some((ElementState::Released, MouseButton::Left))
    } else if msg == WM_RBUTTONDOWN {
        Some((ElementState::Pressed, MouseButton::Right))
    } else if msg == WM_RBUTTONUP {
        Some((ElementState::Released, MouseButton::Right))
    } else if msg == WM_MBUTTONDOWN {
        Some((ElementState::Pressed, MouseButton::Middle))
    } else if msg == WM_MBUTTONUP {
        Some((ElementState::Released, MouseButton::Middle))
    } else if msg == WM_XBUTTONDOWN {
        Some((ElementState::Pressed, xbutton_of(wparam)))
    } else if msg == WM_XBUTTONUP {
        Some((ElementState::Released, xbutton_of(wparam)))
    } else {
        None
    }
}

/// What `msg` means to a popup whose close message is `close_msg_id`. The
/// timer and the deactivation are looked at first, then the pointer, then
/// the close message.
pub open spec fn classify(msg: u32, wparam: usize, close_msg_id: u32) -> PopupMessage {
    if msg == WM_TIMER && wparam == AUTO_DISMISS_TIMER_ID {
        PopupMessage::AutoDismiss
    } else if msg == WM_ACTIVATE && low_word(wparam) == WA_INACTIVE {
        PopupMessage::Deactivated
    } else {
        match pointer_of(msg, wparam) {
            Some((state, button)) => PopupMessage::Pointer { state, button },
            None => if msg == close_msg_id {
                PopupMessage::CloseRequest
            } else {
                PopupMessage::Other
            },
        }
    }
}

/// The low 16 bits of `wparam`.
fn low_word_of(wparam: usize) -> (word: u64)
    ensures
        word == low_word(wparam),
{
    let wide: u64 = wparam as u64;
    assert(wide & 0xFFFF == wide % 0x1_0000) by (bit_vector);
    wide & 0xFFFF
}

/// Bits 16 to 31 of `wparam`.
fn high_word_of(wparam: usize) -> (word: u64)
    ensures
        word == high_word(wparam),
{
    let wide: u64 = wparam as u64;
    assert((wide >> 16) & 0xFFFF == (wide / 0x1_0000) % 0x1_0000) by (bit_vector);
    (wide >> 16) & 0xFFFF
}

/// Reads the button and the direction out of a pointer message.
pub fn decode_pointer(msg: u32, wparam: usize) -> (pointer: Option<(ElementState, MouseButton)>)
    ensures
        pointer == pointer_of(msg, wparam),
{
    if msg == WM_LBUTTONDOWN {
        Some((ElementState::Pressed, MouseButton::Left))
    } else if msg == WM_LBUTTONUP {
        Some((ElementState::Released, MouseButton::Left))
    } else if msg == WM_RBUTTONDOWN {
        Some((ElementState::Pressed, MouseButton::Right))
    } else if msg == WM_RBUTTONUP {
        Some((ElementState::Released, MouseButton::Right))
    } else if msg == WM_MBUTTONDOWN {
        Some((ElementState::Pressed, MouseButton::Middle))
    } else if msg == WM_MBUTTONUP {
        Some((ElementState::Released, MouseButton::Middle))
    } else if msg == WM_XBUTTONDOWN || msg == WM_XBUTTONUP {
        let button = if high_word_of(wparam) == 1 {
            MouseButton::Back
        } else {
            MouseButton::Forward
        };
        if msg == WM_XBUTTONDOWN {
            Some((ElementState::Pressed, button))
        } else {
            Some((ElementState::Released, button))
        }
    } else {
        None
    }
}

/// Says what a message means to a popup window. The platform glue asks
/// before it dispatches, because only a pointer message needs the position
/// of the cursor.
pub fn classify_message(msg: u32, wparam: usize, close_msg_id: u32) -> (message: PopupMessage)
    ensures
        message == classify(msg, wparam, close_msg_id),
{
    if msg == WM_TIMER && wparam == AUTO_DISMISS_TIMER_ID {
        return PopupMessage::AutoDismiss;
    }
    if msg == WM_ACTIVATE && low_word_of(wparam) == 0 {
        return PopupMessage::Deactivated;
    }
    match decode_pointer(msg, wparam) {
        Some((state, button)) => PopupMessage::Pointer { state, button },
        None => {
            if msg == close_msg_id {
                PopupMessage::CloseRequest
            } else {
                PopupMessage::Other
            }
        },
    }
}

/// The record that a popup window keeps for its window procedure.
#[derive(Debug)]
pub struct PopupWindowData {
    /// The recursion depth and the removal flag of the record.
    pub lifecycle: Lifecycle,
    pub popup_id: PopupId,
    /// Whether losing activation closes the popup.
    pub close_on_click_outside: bool,
    /// Whether a right click opens a menu.
    pub has_menu: bool,
}

/// What the platform glue does for one dispatched message, in this order:
/// stop the timer, send the event, destroy the window, open the menu, and
/// answer.
#[derive(Debug, PartialEq)]
pub struct PopupOutcome {
    /// Whether the timer for automatic dismissal is stopped.
    pub kill_timer: bool,
    /// The event that is handed to the application.
    pub event: Option<PopupEvent<()>>,
    /// Whether the window is destroyed: its record is taken out of the window
    /// first, so that no later message reaches it.
    pub destroy_window: bool,
    /// Where the popup's menu is opened.
    pub show_menu_at: Option<PhysicalPosition>,
    /// The answer of the window procedure.
    pub result: ProcResult,
}

/// What closing a popup for `reason` asks of the glue, if the request is
/// taken: the close event, then the destruction of the window.
pub open spec fn close_outcome(
    taken: bool,
    reason: PopupCloseReason,
    kill_timer: bool,
) -> PopupOutcome {
    PopupOutcome {
        kill_timer,
        event: if taken {
            Some(PopupEvent::Closed { reason })
        } else {
            None
        },
        destroy_window: taken,
        show_menu_at: None,
        result: ProcResult::Value(0),
    }
}

/// What a popup does on `message`, given its settings, whether a request to
/// close is taken now, and the position of the cursor where the platform
/// could tell it.
pub open spec fn outcome_of(
    message: PopupMessage,
    wparam: usize,
    close_on_click_outside: bool,
    has_menu: bool,
    close_taken: bool,
    cursor: Option<PhysicalPosition>,
) -> PopupOutcome {
    let untouched = PopupOutcome {
        kill_timer: false,
        event: None,
        destroy_window: false,
        show_menu_at: None,
        result: ProcResult::DefWindowProc(wparam),
    };
    match message {
        PopupMessage::AutoDismiss => close_outcome(close_taken, PopupCloseReason::Timeout, true),
        PopupMessage::Deactivated => if close_on_click_outside {
            close_outcome(close_taken, PopupCloseReason::ClickOutside, false)
        } else {
            untouched
        },
        PopupMessage::Pointer { state, button } => PopupOutcome {
            kill_timer: false,
            event: match cursor {
                Some(position) => Some(PopupEvent::PointerButton { state, position, button }),
                None => None,
            },
            destroy_window: false,
            show_menu_at: if has_menu && state == ElementState::Released && button
                == MouseButton::Right {
                cursor
            } else {
                None
            },
            result: ProcResult::Value(0),
        },
        PopupMessage::CloseRequest => close_outcome(close_taken, PopupCloseReason::Explicit, false),
        PopupMessage::Other => untouched,
    }
}

/// Whether `message` asks a popup with this setting to close.
pub open spec fn asks_to_close(message: PopupMessage, close_on_click_outside: bool) -> bool {
    match message {
        PopupMessage::AutoDismiss => true,
        PopupMessage::Deactivated => close_on_click_outside,
        PopupMessage::CloseRequest => true,
        _ => false,
    }
}

impl PopupWindowData {
    /// The record of a popup that is about to be created.
    pub fn new(popup_id: PopupId, close_on_click_outside: bool, has_menu: bool) -> (data: Self)
        ensures
            data.lifecycle@ == LifecycleModel::initial(),
            data.popup_id == popup_id,
            data.close_on_click_outside == close_on_click_outside,
            data.has_menu == has_menu,
    {
        PopupWindowData { lifecycle: Lifecycle::new(), popup_id, close_on_click_outside, has_menu }
    }

    /// An event of this popup as it is handed to the application: together
    /// with the identifier of the popup.
    pub fn send_event(&self, event: PopupEvent<()>) -> (report: (PopupId, PopupEvent<()>))
        ensures
            report == (self.popup_id, event),
    {
        (self.popup_id, event)
    }

    /// Where the menu of this popup opens for a right click at (`x`, `y`):
    /// there, if the popup has a menu, and nowhere if it has none.
    pub fn show_menu(&self, x: i32, y: i32) -> (at: Option<PhysicalPosition>)
        ensures
            at == if self.has_menu {
                Some(PhysicalPosition { x, y })
            } else {
                None
            },
    {
        if self.has_menu {
            Some(PhysicalPosition::new(x, y))
        } else {
            None
        }
    }
}

/// What the window procedure of a popup does with a message for its record.
#[derive(Debug, PartialEq)]
pub enum PopupDispatch {
    /// The record no longer takes messages: the default handling answers.
    PassThrough,
    /// The message was handled. The glue does what the outcome says and then
    /// calls [`popup_window_callback_exit`].
    Handled(PopupOutcome),
}

/// The record of a popup after its window procedure was entered for
/// `message`: untouched if it no longer takes messages; else one call deeper,
/// and marked as removed if the message closes the popup.
pub open spec fn entered_record(
    record: LifecycleModel,
    message: PopupMessage,
    close_on_click_outside: bool,
) -> LifecycleModel {
    if !record.dispatchable() {
        record
    } else if asks_to_close(message, close_on_click_outside) {
        record.enter().request_destroy()
    } else {
        record.enter()
    }
}

/// What the window procedure of a popup does with `message` for a record:
/// nothing if the record no longer takes messages, else what
/// [`outcome_of`] says of a popup that is not closing yet.
pub open spec fn dispatch_of(
    record: LifecycleModel,
    message: PopupMessage,
    wparam: usize,
    close_on_click_outside: bool,
    has_menu: bool,
    cursor: Option<PhysicalPosition>,
) -> PopupDispatch {
    if record.dispatchable() {
        PopupDispatch::Handled(
            outcome_of(message, wparam, close_on_click_outside, has_menu, true, cursor),
        )
    } else {
        PopupDispatch::PassThrough
    }
}

/// A registered message is none of the messages that a popup reads
/// otherwise: as the close message of a popup it is a request to close.
pub proof fn lemma_registered_message_closes(wparam: usize, close_msg_id: u32)
    requires
        is_registered(close_msg_id),
    ensures
        classify(close_msg_id, wparam, close_msg_id) == PopupMessage::CloseRequest,
{
}

/// Destruction from inside a nested call is deferred. When a message that
/// closes the popup is handled while another call of the window procedure is
/// on the stack, the record is marked as removed and stays: it is not freed
/// when the nested call is left, the outer call finds it at the depth that
/// it had, and it no longer takes messages.
pub proof fn lemma_nested_close_is_deferred(
    record: LifecycleModel,
    message: PopupMessage,
    close_on_click_outside: bool,
)
    requires
        record.wf(),
        record.dispatchable(),
        record.depth >= 1,
        asks_to_close(message, close_on_click_outside),
    ensures
        ({
            let entered = entered_record(record, message, close_on_click_outside);
            let left = entered.exit();
            &&& entered.removed
            &&& entered.installed
            &&& entered.depth == record.depth + 1
            &&& !entered.exit_frees()
            &&& left.installed
            &&& left.removed
            &&& left.state == LifecycleState::PendingDestroy
            &&& left.depth == record.depth
            &&& !left.dispatchable()
        }),
{
}

/// The record of a nested close is freed when the outermost call returns,
/// and only then: of the calls that are left one after the other, the one
/// that brings the depth to 0 is the one that frees.
pub proof fn lemma_nested_close_frees_at_the_outermost_exit(record: LifecycleModel)
    requires
        record.wf(),
        record.installed,
        record.removed,
    ensures
        record.exit_frees() <==> record.depth == 1,
        record.exit_frees() <==> record.exit().state == LifecycleState::Destroyed,
        !record.exit_frees() ==> record.exit().installed && record.exit().removed
            && record.exit().depth == record.depth - 1,
{
}

/// Closing is idempotent. The close message is dispatched twice to a live
/// popup with no call of its window procedure on the stack. The first time
/// the popup sends the close event, for the reason that the application
/// asked, and is destroyed, and its record is freed when the window procedure
/// is left. The second time the message finds no record: it is passed
/// through, sends nothing, changes nothing and frees nothing.
pub proof fn lemma_close_twice(
    record: LifecycleModel,
    close_msg: RegisteredMessage,
    wparam: usize,
    close_on_click_outside: bool,
    has_menu: bool,
    cursor: Option<PhysicalPosition>,
)
    requires
        record.wf(),
        record.dispatchable(),
        record.depth == 0,
        is_registered(close_msg@),
    ensures
        ({
            let message = classify(close_msg@, wparam, close_msg@);
            let first = dispatch_of(
                record,
                message,
                wparam,
                close_on_click_outside,
                has_menu,
                cursor,
            );
            let entered = entered_record(record, message, close_on_click_outside);
            let left = entered.exit();
            let second = dispatch_of(
                left,
                message,
                wparam,
                close_on_click_outside,
                has_menu,
                cursor,
            );
            &&& first == PopupDispatch::Handled(
                PopupOutcome {
                    kill_timer: false,
                    event: Some(PopupEvent::Closed { reason: PopupCloseReason::Explicit }),
                    destroy_window: true,
                    show_menu_at: None,
                    result: ProcResult::Value(0),
                },
            )
            &&& entered.exit_frees()
            &&& left.state == LifecycleState::Destroyed
            &&& second == PopupDispatch::PassThrough
            &&& entered_record(left, message, close_on_click_outside) == left
            &&& !left.exit_frees()
            &&& left.exit() == left
        }),
{
    lemma_registered_message_closes(wparam, close_msg@);
}

/// Handles one message of a popup window that has been dispatched to its
/// record.
///
/// A timer that ran out, a lost activation on a popup that closes on a click
/// outside, and the close message each close the popup: the close event is
/// sent with the reason, the record is marked as removed, and the window is
/// destroyed. Only the first of them is taken; a popup that is closing
/// already sends nothing more. A pointer message is reported with the
/// position of the cursor, if the platform could tell it, and a right button
/// that comes up opens the popup's menu there. Everything else is left to the
/// default handling.
pub fn popup_window_callback_inner(
    data: &mut PopupWindowData,
    msg: u32,
    wparam: usize,
    close_msg: RegisteredMessage,
    cursor: Option<PhysicalPosition>,
) -> (outcome: PopupOutcome)
    ensures
        final(data).popup_id == old(data).popup_id,
        final(data).close_on_click_outside == old(data).close_on_click_outside,
        final(data).has_menu == old(data).has_menu,
        final(data).lifecycle@ == (if asks_to_close(
            classify(msg, wparam, close_msg@),
            old(data).close_on_click_outside,
        ) {
            old(data).lifecycle@.request_destroy()
        } else {
            old(data).lifecycle@
        }),
        outcome == outcome_of(
            classify(msg, wparam, close_msg@),
            wparam,
            old(data).close_on_click_outside,
            old(data).has_menu,
            old(data).lifecycle@.destroy_step() != DestroyStep::Ignored,
            cursor,
        ),
{
    let untouched = PopupOutcome {
        kill_timer: false,
        event: None,
        destroy_window: false,
        show_menu_at: None,
        result: ProcResult::DefWindowProc(wparam),
    };
    match classify_message(msg, wparam, close_msg.id()) {
        PopupMessage::AutoDismiss => close_popup(data, PopupCloseReason::Timeout, true),
        PopupMessage::Deactivated => {
            if data.close_on_click_outside {
                close_popup(data, PopupCloseReason::ClickOutside, false)
            } else {
                untouched
            }
        },
        PopupMessage::Pointer { state, button } => {
            let opens_menu = data.has_menu && state == ElementState::Released && button
                == MouseButton::Right;
            PopupOutcome {
                kill_timer: false,
                event: match cursor {
                    Some(position) => Some(PopupEvent::PointerButton { state, position, button }),
                    None => None,
                },
                destroy_window: false,
                show_menu_at: if opens_menu {
                    cursor
                } else {
                    None
                },
                result: ProcResult::Value(0),
            }
        },
        PopupMessage::CloseRequest => close_popup(data, PopupCloseReason::Explicit, false),
        PopupMessage::Other => untouched,
    }
}

/// Takes a request to close, if the popup is not closing already.
fn close_popup(data: &mut PopupWindowData, reason: PopupCloseReason, kill_timer: bool) -> (outcome:
    PopupOutcome)
    ensures
        final(data).popup_id == old(data).popup_id,
        final(data).close_on_click_outside == old(data).close_on_click_outside,
        final(data).has_menu == old(data).has_menu,
        final(data).lifecycle@ == old(data).lifecycle@.request_destroy(),
        outcome == close_outcome(
            old(data).lifecycle@.destroy_step() != DestroyStep::Ignored,
            reason,
            kill_timer,
        ),
{
    let taken = match data.lifecycle.request_destroy() {
        DestroyStep::Ignored => false,
        _ => true,
    };
    PopupOutcome {
        kill_timer,
        event: if taken {
            Some(PopupEvent::Closed { reason })
        } else {
            None
        },
        destroy_window: taken,
        show_menu_at: None,
        result: ProcResult::Value(0),
    }
}

/// What the window procedure answers to a message that is not dispatched
/// to a record, and nothing for a message that is.
///
/// The first message of a window without record is answered by the default
/// handling if the first construction hook succeeded, and with -1 if it
/// failed, which makes the platform give the window up. `WM_CREATE` without a
/// record is answered with -1 too. `WM_CREATE` with a record, and every
/// message of a window that has lost its record, go to the default handling.
pub open spec fn route_result_of(route: Route, wparam: usize, hook_succeeded: bool) -> Option<
    ProcResult,
> {
    match route {
        Route::NcCreate => if hook_succeeded {
            Some(ProcResult::DefWindowProc(wparam))
        } else {
            Some(ProcResult::Value(-1isize))
        },
        Route::RejectCreate => Some(ProcResult::Value(-1isize)),
        Route::Create => Some(ProcResult::DefWindowProc(wparam)),
        Route::PassThrough => Some(ProcResult::DefWindowProc(wparam)),
        Route::Dispatch => None,
    }
}

/// Answers a message that is not dispatched to a record.
pub fn route_result(route: Route, wparam: usize, hook_succeeded: bool) -> (result: Option<
    ProcResult,
>)
    ensures
        result == route_result_of(route, wparam, hook_succeeded),
{
    match route {
        Route::NcCreate => if hook_succeeded {
            Some(ProcResult::DefWindowProc(wparam))
        } else {
            Some(ProcResult::Value(-1))
        },
        Route::RejectCreate => Some(ProcResult::Value(-1)),
        Route::Create => Some(ProcResult::DefWindowProc(wparam)),
        Route::PassThrough => Some(ProcResult::DefWindowProc(wparam)),
        Route::Dispatch => None,
    }
}

/// The first construction hook of a popup has run, before the platform has
/// handed out the window. If it succeeded the record is installed: the glue
/// stores it with the window and lets the default handling answer. If it
/// failed nothing is installed, the failure is kept for [`init_popup`], and
/// the answer is -1, which makes the platform give the window up.
pub fn on_nccreate(data: &mut PopupWindowData, hook_succeeded: bool, wparam: usize) -> (result:
    ProcResult)
    requires
        old(data).lifecycle@.state == LifecycleState::Creating,
        !old(data).lifecycle@.installed,
    ensures
        final(data).popup_id == old(data).popup_id,
        final(data).close_on_click_outside == old(data).close_on_click_outside,
        final(data).has_menu == old(data).has_menu,
        Some(result) == route_result_of(Route::NcCreate, wparam, hook_succeeded),
        final(data).lifecycle@ == (if hook_succeeded {
            LifecycleModel { installed: true, ..old(data).lifecycle@ }
        } else {
            LifecycleModel { panicked: true, ..old(data).lifecycle@ }
        }),
        final(data).lifecycle@.installed == hook_succeeded,
{
    if data.lifecycle.install_record(hook_succeeded) {
        ProcResult::DefWindowProc(wparam)
    } else {
        ProcResult::Value(-1)
    }
}

/// Enters the window procedure of a popup for one message.
///
/// A record that has been removed is left alone. Otherwise the recursion
/// depth goes up by one and the message is handled as
/// [`popup_window_callback_inner`] says.
pub fn popup_window_callback(
    data: &mut PopupWindowData,
    msg: u32,
    wparam: usize,
    close_msg: RegisteredMessage,
    cursor: Option<PhysicalPosition>,
) -> (dispatch: PopupDispatch)
    requires
        old(data).lifecycle@.depth < u32::MAX,
    ensures
        final(data).popup_id == old(data).popup_id,
        final(data).close_on_click_outside == old(data).close_on_click_outside,
        final(data).has_menu == old(data).has_menu,
        final(data).lifecycle@ == entered_record(
            old(data).lifecycle@,
            classify(msg, wparam, close_msg@),
            old(data).close_on_click_outside,
        ),
        dispatch == dispatch_of(
            old(data).lifecycle@,
            classify(msg, wparam, close_msg@),
            wparam,
            old(data).close_on_click_outside,
            old(data).has_menu,
            cursor,
        ),
{
    if data.lifecycle.enter() {
        PopupDispatch::Handled(popup_window_callback_inner(data, msg, wparam, close_msg, cursor))
    } else {
        PopupDispatch::PassThrough
    }
}

/// What the window procedure answers after a message was handled: what the
/// outcome says, and -1 if a handler failed while the glue did what the
/// outcome asked.
pub open spec fn handled_result_of(result: ProcResult, handling_failed: bool) -> ProcResult {
    if handling_failed {
        ProcResult::Value(-1isize)
    } else {
        result
    }
}

/// Ends the handling of a message whose outcome asked for the answer
/// `result`. If a handler failed meanwhile, which the glue has caught so that
/// nothing unwinds into the platform, the failure is kept with the record and
/// the answer is -1; otherwise the answer is `result` and the record is as
/// it was.
pub fn popup_window_callback_result(
    data: &mut PopupWindowData,
    result: ProcResult,
    handling_failed: bool,
) -> (answer: ProcResult)
    ensures
        final(data).popup_id == old(data).popup_id,
        final(data).close_on_click_outside == old(data).close_on_click_outside,
        final(data).has_menu == old(data).has_menu,
        answer == handled_result_of(result, handling_failed),
        final(data).lifecycle@ == (if handling_failed && old(data).lifecycle@.state
            != LifecycleState::Uninitialized {
            LifecycleModel { panicked: true, ..old(data).lifecycle@ }
        } else {
            old(data).lifecycle@
        }),
{
    if handling_failed {
        match data.lifecycle.state() {
            LifecycleState::Uninitialized => {},
            _ => {
                data.lifecycle.capture_panic();
            },
        }
        ProcResult::Value(-1)
    } else {
        result
    }
}

/// Leaves the window procedure of a popup after a handled message. The
/// recursion depth goes down by one. The result says whether the glue frees
/// the record now: it does when the popup was closed and no other call of the
/// window procedure is on the stack.
pub fn popup_window_callback_exit(data: &mut PopupWindowData) -> (free: bool)
    ensures
        final(data).popup_id == old(data).popup_id,
        final(data).close_on_click_outside == old(data).close_on_click_outside,
        final(data).has_menu == old(data).has_menu,
        final(data).lifecycle@ == old(data).lifecycle@.exit(),
        free == old(data).lifecycle@.exit_frees(),
{
    data.lifecycle.exit()
}

/// Hands an event of a popup on to an application whose menu identifiers
/// have type `T`. Pointer and close events pass; a menu click cannot, as it
/// names no identifier of the application, and is dropped.
pub fn retype_event<T>(event: PopupEvent<()>) -> (typed: Option<PopupEvent<T>>)
    ensures
        typed == match event {
            PopupEvent::PointerButton { state, position, button } => Some(
                PopupEvent::<T>::PointerButton { state, position, button },
            ),
            PopupEvent::Closed { reason } => Some(PopupEvent::<T>::Closed { reason }),
            PopupEvent::MenuItemClicked { .. } => None::<PopupEvent<T>>,
        },
{
    match event {
        PopupEvent::PointerButton { state, position, button } => Some(
            PopupEvent::PointerButton { state, position, button },
        ),
        PopupEvent::Closed { reason } => Some(PopupEvent::Closed { reason }),
        PopupEvent::MenuItemClicked { .. } => None,
    }
}

/// The event for a selection in the popup's menu: a click on `id` if an item
/// was selected, nothing if the menu was dismissed.
pub fn menu_event<T>(selected: Option<T>) -> (event: Option<PopupEvent<T>>)
    ensures
        event == match selected {
            Some(id) => Some(PopupEvent::MenuItemClicked { id }),
            None => None,
        },
{
    match selected {
        Some(id) => Some(PopupEvent::MenuItemClicked { id }),
        None => None,
    }
}

/// What the platform is asked for when a popup window is created.
#[derive(Copy, Clone, Debug, PartialEq, Eq, Hash, Structural)]
pub struct PopupCreateParams {
    /// The style of the window class.
    pub class_style: u32,
    /// The extended style of the window.
    pub ex_style: u32,
    /// The style of the window.
    pub style: u32,
    pub x: i32,
    pub y: i32,
    pub width: i32,
    pub height: i32,
}

/// A popup is a tool window without frame, redrawn when its size changes,
/// and above other windows if it is to be topmost.
pub open spec fn create_params_of(
    position: PhysicalPosition,
    size: PhysicalSize,
    topmost: bool,
) -> PopupCreateParams {
    PopupCreateParams {
        class_style: CS_HREDRAW | CS_VREDRAW,
        ex_style: WS_EX_TOOLWINDOW | (if topmost {
            WS_EX_TOPMOST
        } else {
            0
        }),
        style: WS_POPUP,
        x: position.x,
        y: position.y,
        width: wrap_to_i32(size.width) as i32,
        height: wrap_to_i32(size.height) as i32,
    }
}

/// What the platform is asked for when the popup of `attr` is created.
pub fn popup_create_params<T>(attr: &PopupAttributes<T>) -> (params: PopupCreateParams)
    ensures
        params == create_params_of(attr.position, attr.size, attr.topmost),
{
    PopupCreateParams {
        class_style: CS_HREDRAW | CS_VREDRAW,
        ex_style: WS_EX_TOOLWINDOW | (if attr.topmost {
            WS_EX_TOPMOST
        } else {
            0
        }),
        style: WS_POPUP,
        x: attr.position.x,
        y: attr.position.y,
        width: wrapping_i32(attr.size.width),
        height: wrapping_i32(attr.size.height),
    }
}

/// What is done with a popup window right after its creation.
#[derive(Copy, Clone, Debug, PartialEq, Eq, Hash, Structural)]
pub struct PopupStartup {
    /// The interval of the timer for automatic dismissal, in milliseconds, if
    /// one is started.
    pub timer_ms: Option<u32>,
    /// How the window is shown: without taking activation.
    pub show_command: i32,
}

/// Ends the creation of a popup window once the native call has returned.
///
/// A failure that was captured in a construction hook comes first and is
/// re-raised by the caller; then a missing handle, with the platform's error
/// code. Otherwise the popup is live: the timer for automatic dismissal is
/// started if the popup has one, and the window is shown without activation.
pub fn init_popup(
    lifecycle: &mut Lifecycle,
    auto_dismiss_ms: Option<u32>,
    handle_valid: bool,
    os_error: i32,
) -> (r: Result<PopupStartup, CreationFailure>)
    requires
        old(lifecycle)@.state == LifecycleState::Creating || old(lifecycle)@.state
            == LifecycleState::Destroyed,
        old(lifecycle)@.depth == 0,
    ensures
        final(lifecycle)@ == old(lifecycle)@.finish_create(handle_valid, os_error).0,
        r == match old(lifecycle)@.finish_create(handle_valid, os_error).1 {
            Ok(_) => Ok(PopupStartup { timer_ms: auto_dismiss_ms, show_command: SW_SHOWNOACTIVATE }),
            Err(failure) => Err(failure),
        },
{
    match lifecycle.finish_create(handle_valid, os_error) {
        Ok(_) => Ok(PopupStartup { timer_ms: auto_dismiss_ms, show_command: SW_SHOWNOACTIVATE }),
        Err(failure) => Err(failure),
    }
}

/// A request to place a window, as `SetWindowPos` takes it. The window is
/// put above all others.
#[derive(Copy, Clone, Debug, PartialEq, Eq, Hash, Structural)]
pub struct WindowPlacement {
    pub x: i32,
    pub y: i32,
    pub width: i32,
    pub height: i32,
    pub flags: u32,
}

/// A message that is posted to a window, without parameters.
#[derive(Copy, Clone, Debug, PartialEq, Eq, Hash, Structural)]
pub struct PostedMessage {
    pub hwnd: isize,
    pub msg: u32,
}

/// A popup window that has been created.
#[derive(Copy, Clone, Debug, PartialEq, Eq, Hash, Structural)]
pub struct Popup {
    window_handle: isize,
    internal_id: usize,
}

impl Popup {
    /// The popup behind the window `window_handle`, known to the application
    /// by `internal_id`.
    pub fn new(window_handle: isize, internal_id: usize) -> (popup: Self)
        ensures
            popup.hwnd_spec() == window_handle,
            popup.raw_id() == internal_id,
    {
        Popup { window_handle, internal_id }
    }

    pub closed spec fn hwnd_spec(self) -> isize {
        self.window_handle
    }

    pub closed spec fn raw_id(self) -> usize {
        self.internal_id
    }

    /// The handle of the window.
    pub fn hwnd(&self) -> (handle: isize)
        ensures
            handle == self.hwnd_spec(),
    {
        self.window_handle
    }

    /// The identifier that the popup's events carry.
    pub fn id(&self) -> (id: PopupId)
        ensures
            id@ == self.raw_id(),
    {
        PopupId::from_raw(self.internal_id)
    }

    /// The message that closes the popup, to be posted to its window. The
    /// popup closes when its window procedure gets to the message; posting it
    /// twice closes the popup once.
    pub fn close(&self, close_msg: RegisteredMessage) -> (posted: PostedMessage)
        ensures
            posted == (PostedMessage { hwnd: self.hwnd_spec(), msg: close_msg@ }),
            is_registered(posted.msg),
    {
        PostedMessage { hwnd: self.window_handle, msg: close_msg.id() }
    }

    /// Moves the popup: its size stays, it is shown and not activated.
    pub fn set_position(&self, position: PhysicalPosition) -> (placement: WindowPlacement)
        ensures
            placement == (WindowPlacement {
                x: position.x,
                y: position.y,
                width: 0,
                height: 0,
                flags: SWP_NOSIZE | SWP_NOACTIVATE | SWP_SHOWWINDOW,
            }),
    {
        WindowPlacement {
            x: position.x,
            y: position.y,
            width: 0,
            height: 0,
            flags: SWP_NOSIZE | SWP_NOACTIVATE | SWP_SHOWWINDOW,
        }
    }

    /// Resizes the popup: its position stays, it is shown and not activated.
    pub fn set_size(&self, size: PhysicalSize) -> (placement: WindowPlacement)
        ensures
            placement == (WindowPlacement {
                x: 0,
                y: 0,
                width: wrap_to_i32(size.width) as i32,
                height: wrap_to_i32(size.height) as i32,
                flags: SWP_NOMOVE | SWP_NOACTIVATE | SWP_SHOWWINDOW,
            }),
    {
        WindowPlacement {
            x: 0,
            y: 0,
            width: wrapping_i32(size.width),
            height: wrapping_i32(size.height),
            flags: SWP_NOMOVE | SWP_NOACTIVATE | SWP_SHOWWINDOW,
        }
    }

    /// The command that shows the popup without activating it, or hides it.
    pub fn set_visible(&self, visible: bool) -> (command: i32)
        ensures
            command == if visible {
                SW_SHOWNOACTIVATE
            } else {
                SW_HIDE
            },
    {
        if visible {
            SW_SHOWNOACTIVATE
        } else {
            SW_HIDE
        }
    }
}

} // verus!
