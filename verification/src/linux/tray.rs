//! A tray icon as an object on the session bus.

use crate::linux::dbus_interface::StatusNotifierItemInterface;
use crate::linux::util::{argb_of, icon_to_sni_icon, SniIcon};
use crate::input::wrap_to_i32;
use crate::tray::TrayAttributes;
use crate::tray_id::TrayId;
use vstd::prelude::*;
use vstd::string::StringExecFns;

verus! {

/// The object path under which every icon is served.
pub const SNI_OBJECT_PATH: &'static str = "/StatusNotifierItem";

/// The service that keeps track of the tray icons of a session.
pub const SNI_WATCHER_SERVICE: &'static str = "org.kde.StatusNotifierWatcher";

/// The object path of that service.
pub const SNI_WATCHER_PATH: &'static str = "/StatusNotifierWatcher";

/// The object path under which the menu of an icon is served.
pub const MENU_OBJECT_PATH: &'static str = "/MenuBar";

/// How long the service thread is waited for when an icon is dropped, in
/// milliseconds.
pub const SHUTDOWN_TIMEOUT_MS: u64 = 500;

/// How long each look at the service thread is apart from the next, in
/// milliseconds.
pub const SHUTDOWN_POLL_MS: u64 = 10;

/// The character of the digit `d`.
pub open spec fn digit(d: int) -> char {
    if d == 0 {
        '0'
    } else if d == 1 {
        '1'
    } else if d == 2 {
        '2'
    } else if d == 3 {
        '3'
    } else if d == 4 {
        '4'
    } else if d == 5 {
        '5'
    } else if d == 6 {
        '6'
    } else if d == 7 {
        '7'
    } else if d == 8 {
        '8'
    } else {
        '9'
    }
}

/// The decimal digits of `n`, without leading zeros.
pub open spec fn decimal(n: nat) -> Seq<char>
    decreases n,
{
    if n < 10 {
        seq![digit(n as int)]
    } else {
        decimal(n / 10).push(digit((n % 10) as int))
    }
}

fn digit_str(d: usize) -> (s: &'static str)
    requires
        d < 10,
    ensures
        s@ == seq![digit(d as int)],
{
    proof {
        reveal_strlit("0");
        reveal_strlit("1");
        reveal_strlit("2");
        reveal_strlit("3");
        reveal_strlit("4");
        reveal_strlit("5");
        reveal_strlit("6");
        reveal_strlit("7");
        reveal_strlit("8");
        reveal_strlit("9");
    }
    let s = if d == 0 {
        "0"
    } else if d == 1 {
        "1"
    } else if d == 2 {
        "2"
    } else if d == 3 {
        "3"
    } else if d == 4 {
        "4"
    } else if d == 5 {
        "5"
    } else if d == 6 {
        "6"
    } else if d == 7 {
        "7"
    } else if d == 8 {
        "8"
    } else {
        "9"
    };
    s
}

fn push_decimal(n: usize, out: &mut String)
    ensures
        final(out)@ == old(out)@ + decimal(n as nat),
    decreases n,
{
    if n >= 10 {
        push_decimal(n / 10, out);
    }
    out.append(digit_str(n % 10));
}

/// The name of the icon with the number `internal_id` on the bus:
/// `winit_tray_` and the number in decimal digits.
pub fn tray_service_id(internal_id: usize) -> (id: String)
    ensures
        id@ == "winit_tray_"@ + decimal(internal_id as nat),
{
    let mut id = String::from_str("winit_tray_");
    push_decimal(internal_id, &mut id);
    id
}

/// The name under which an icon registers with the watcher: the unique name
/// of its connection and the object path of the icon.
pub fn watcher_service_name(unique_name: &str) -> (name: String)
    ensures
        name@ == unique_name@ + SNI_OBJECT_PATH@,
{
    String::from_str(unique_name).concat(SNI_OBJECT_PATH)
}

/// A tray icon that is served on the bus.
#[derive(Copy, Clone, Debug, PartialEq, Eq, Hash, Structural)]
pub struct Tray {
    internal_id: usize,
}

impl View for Tray {
    type V = usize;

    /// The number of the icon.
    closed spec fn view(&self) -> usize {
        self.internal_id
    }
}

impl Tray {
    /// Lays out the icon with the number `internal_id` for `attr`: the icon
    /// itself and what it answers on the bus.
    ///
    /// The pixmaps are the image of `attr` as ARGB, or none without image.
    /// The title is the tooltip, or "Tray Icon" without one. The menu is
    /// served under its own object path.
    pub fn new<T>(internal_id: usize, attr: TrayAttributes<T>) -> (created: (
        Tray,
        StatusNotifierItemInterface,
    ))
        ensures
            created.0@ == internal_id,
            created.1.tray_id@ == internal_id,
            created.1.id@ == "winit_tray_"@ + decimal(internal_id as nat),
            created.1.title@ == match attr.tooltip {
                Some(tooltip) => tooltip@,
                None => "Tray Icon"@,
            },
            created.1.menu matches Some(path) && path@ == MENU_OBJECT_PATH@,
            match attr.icon {
                Some(icon) => {
                    &&& created.1.icon_pixmap@.len() == 1
                    &&& created.1.icon_pixmap@[0].width == wrap_to_i32(icon@.width)
                    &&& created.1.icon_pixmap@[0].height == wrap_to_i32(icon@.height)
                    &&& created.1.icon_pixmap@[0].data@ == argb_of(icon@.rgba)
                },
                None => created.1.icon_pixmap@.len() == 0,
            },
    {
        let mut icon_pixmap: Vec<SniIcon> = Vec::new();
        match &attr.icon {
            Some(icon) => {
                icon_pixmap.push(icon_to_sni_icon(icon));
            },
            None => {},
        }
        let title = match attr.tooltip {
            Some(tooltip) => tooltip,
            None => String::from_str("Tray Icon"),
        };
        let interface = StatusNotifierItemInterface {
            id: tray_service_id(internal_id),
            title,
            icon_pixmap,
            tray_id: TrayId::from_raw(internal_id),
            menu: Some(String::from_str(MENU_OBJECT_PATH)),
        };
        (Tray { internal_id }, interface)
    }

    /// The identifier that the icon's events carry.
    pub fn id(&self) -> (id: TrayId)
        ensures
            id@ == self@,
    {
        TrayId::from_raw(self.internal_id)
    }
}

/// A step in the life of the thread that serves an icon on the bus.
#[derive(Copy, Clone, Debug, PartialEq, Eq, Hash, Structural)]
pub enum ServicePhase {
    /// Connect to the session bus.
    Connect,
    /// Put the icon's interface at its object path.
    RegisterInterface,
    /// Tell the watcher of the icon.
    RegisterWithWatcher,
    /// Serve until the icon is dropped.
    WaitForShutdown,
    /// Tell the watcher that the icon is gone.
    UnregisterFromWatcher,
    /// Take the icon's interface off the bus.
    RemoveInterface,
    /// The thread ends without error.
    Finished,
    /// The thread ends with the error of the step that failed.
    Failed,
}

/// The step that follows `phase`, given whether `phase` succeeded.
///
/// Without a connection or without the interface on the bus there is no
/// icon, and the thread fails. A watcher that cannot be reached is no reason
/// to give up: some desktops show the icon all the same. The wait ends when
/// the icon is dropped, whether that was signalled or only noticed. Taking
/// the icon off the bus is done as well as it goes.
pub open spec fn next_phase(phase: ServicePhase, succeeded: bool) -> ServicePhase {
    match phase {
        ServicePhase::Connect => if succeeded {
            ServicePhase::RegisterInterface
        } else {
            ServicePhase::Failed
        },
        ServicePhase::RegisterInterface => if succeeded {
            ServicePhase::RegisterWithWatcher
        } else {
            ServicePhase::Failed
        },
        ServicePhase::RegisterWithWatcher => ServicePhase::WaitForShutdown,
        ServicePhase::WaitForShutdown => ServicePhase::UnregisterFromWatcher,
        ServicePhase::UnregisterFromWatcher => ServicePhase::RemoveInterface,
        ServicePhase::RemoveInterface => ServicePhase::Finished,
        ServicePhase::Finished => ServicePhase::Finished,
        ServicePhase::Failed => ServicePhase::Failed,
    }
}

/// Says what the service thread does after `phase` has succeeded or failed.
pub fn run_dbus_service(phase: ServicePhase, succeeded: bool) -> (next: ServicePhase)
    ensures
        next == next_phase(phase, succeeded),
{
    match phase {
        ServicePhase::Connect => if succeeded {
            ServicePhase::RegisterInterface
        } else {
            ServicePhase::Failed
        },
        ServicePhase::RegisterInterface => if succeeded {
            ServicePhase::RegisterWithWatcher
        } else {
            ServicePhase::Failed
        },
        ServicePhase::RegisterWithWatcher => ServicePhase::WaitForShutdown,
        ServicePhase::WaitForShutdown => ServicePhase::UnregisterFromWatcher,
        ServicePhase::UnregisterFromWatcher => ServicePhase::RemoveInterface,
        ServicePhase::RemoveInterface => ServicePhase::Finished,
        ServicePhase::Finished => ServicePhase::Finished,
        ServicePhase::Failed => ServicePhase::Failed,
    }
}

/// What is done about the service thread while an icon is dropped.
#[derive(Copy, Clone, Debug, PartialEq, Eq, Hash, Structural)]
pub enum ShutdownStep {
    /// The thread has ended: it is joined.
    Join,
    /// The thread still runs: sleep for this many milliseconds and look
    /// again.
    Sleep(u64),
    /// The thread still runs after the timeout: it is left behind.
    GiveUp,
}

/// Says what is done about the service thread, given whether it has ended
/// and how many milliseconds have passed since it was told to.
pub fn drop_step(finished: bool, elapsed_ms: u64) -> (step: ShutdownStep)
    ensures
        step == if finished {
            ShutdownStep::Join
        } else if elapsed_ms < SHUTDOWN_TIMEOUT_MS {
            ShutdownStep::Sleep(SHUTDOWN_POLL_MS)
        } else {
            ShutdownStep::GiveUp
        },
{
    if finished {
        ShutdownStep::Join
    } else if elapsed_ms < SHUTDOWN_TIMEOUT_MS {
        ShutdownStep::Sleep(SHUTDOWN_POLL_MS)
    } else {
        ShutdownStep::GiveUp
    }
}

} // verus!
