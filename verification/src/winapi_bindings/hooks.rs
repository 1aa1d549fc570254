use crate::app::{KEY_EXIT, KEY_PAUSE, KEY_RUN};
use crate::global_states::EventType;
use crate::winapi_bindings::bindings::WM_KEYDOWN;
use vstd::prelude::*;

verus! {

/// Hook code of a keyboard notification that carries a key.
pub const HC_ACTION: i32 = 0;

/// What the console control handler returns to say that it took the signal.
pub const SIGNAL_HANDLED: i32 = 1;

/// The hooks of the event source, one per kind of notification.
#[derive(Clone, Copy, Debug, PartialEq, Eq, Structural)]
pub enum HookKind {
    Keyboard,
    ForegroundWindow,
    DestroyWindow,
}

/// Whether a low-level keyboard notification reports a key going down. Only
/// then does its payload hold a key to read.
pub fn is_key_down(code: i32, w_param: usize) -> (down: bool)
    ensures
        down == (code == HC_ACTION && w_param == WM_KEYDOWN),
{
    code == HC_ACTION && w_param == WM_KEYDOWN as usize
}

/// Whether the orchestrator acts on the key with this virtual-key code.
pub open spec fn is_tracked(vk_code: u32) -> bool {
    vk_code == KEY_RUN || vk_code == KEY_PAUSE || vk_code == KEY_EXIT
}

/// The event for a key that went down: a key press for a tracked key,
/// nothing for any other.
pub fn key_event(vk_code: u32) -> (event: Option<EventType>)
    ensures
        event == if is_tracked(vk_code) {
            Some(EventType::KeyPress(vk_code))
        } else {
            None
        },
{
    if vk_code == KEY_RUN || vk_code == KEY_PAUSE || vk_code == KEY_EXIT {
        Some(EventType::KeyPress(vk_code))
    } else {
        None
    }
}

/// The console control handler's part of the event source.
#[derive(Clone, Copy, Debug)]
pub struct ApplicationShutdown;

impl ApplicationShutdown {
    /// What the handler does with a control signal, whichever it is: it emits
    /// one shutdown event and tells the system that the signal was taken, so
    /// that the process is not ended before the orchestrator has left its
    /// loop.
    pub fn on_signal(ctrl_type: u32) -> (r: (EventType, i32))
        ensures
            r.0 == EventType::Shutdown,
            r.1 == SIGNAL_HANDLED,
    {
        (EventType::Shutdown, SIGNAL_HANDLED)
    }
}

} // verus!
