use crate::winapi_bindings::hooks::HookKind;
use vstd::prelude::*;

verus! {

/// The conditions that the event listener reports before it stops.
#[derive(Clone, Copy, Debug, PartialEq, Eq, Structural)]
pub enum ListenerFault {
    /// A hook could not be installed.
    Hook(HookKind),
    /// Nobody took the report that the hooks are in place.
    ReadyNotTaken,
    /// A message could not be translated.
    Translate,
}

impl ListenerFault {
    /// The message that heads the error report.
    pub fn describe(&self) -> (text: &'static str)
        ensures
            text@ == match *self {
                ListenerFault::Hook(HookKind::Keyboard) => "Error installing the keyboard hook"@,
                ListenerFault::Hook(HookKind::ForegroundWindow) =>
                    "Error installing the foreground window hook"@,
                ListenerFault::Hook(HookKind::DestroyWindow) =>
                    "Error installing the window destruction hook"@,
                ListenerFault::ReadyNotTaken => "Error reporting that the hooks are installed"@,
                ListenerFault::Translate => "Error translating a message"@,
            },
    {
        match self {
            ListenerFault::Hook(HookKind::Keyboard) => "Error installing the keyboard hook",
            ListenerFault::Hook(HookKind::ForegroundWindow) =>
                "Error installing the foreground window hook",
            ListenerFault::Hook(HookKind::DestroyWindow) =>
                "Error installing the window destruction hook",
            ListenerFault::ReadyNotTaken => "Error reporting that the hooks are installed",
            ListenerFault::Translate => "Error translating a message",
        }
    }
}

/// What the event listener asks its driver to do next. The driver answers
/// each with whether it succeeded.
#[derive(Clone, Copy, Debug, PartialEq, Eq, Structural)]
pub enum ListenerRequest {
    /// Install the hook of this kind and keep it until the thread ends.
    Install(HookKind),
    /// Report to the orchestrator that the hooks are in place.
    ReportReady,
    /// Wait for the next message of the thread's queue.
    GetMessage,
    /// Translate the message that was retrieved.
    TranslateMessage,
    /// Dispatch the message that was retrieved.
    DispatchMessage,
    /// Report this fault to the orchestrator.
    ReportFailure(ListenerFault),
    /// Leave. Nothing is asked after this.
    Exit,
}

/// The event listener: it installs the three hooks, reports once that it is
/// ready, and then pumps messages until one cannot be retrieved.
#[derive(Clone, Copy, Debug, PartialEq, Eq, Structural)]
pub struct Listener {
    pub request: ListenerRequest,
}

impl Listener {
    /// The listener at its start: the keyboard hook comes first.
    pub open spec fn initial() -> Listener {
        Listener { request: ListenerRequest::Install(HookKind::Keyboard) }
    }

    /// What follows the installation of the hook `kind`.
    pub open spec fn after_install(kind: HookKind) -> ListenerRequest {
        match kind {
            HookKind::Keyboard => ListenerRequest::Install(HookKind::ForegroundWindow),
            HookKind::ForegroundWindow => ListenerRequest::Install(HookKind::DestroyWindow),
            HookKind::DestroyWindow => ListenerRequest::ReportReady,
        }
    }

    /// The state that follows this one when the pending request succeeded
    /// (`ok`) or failed.
    pub open spec fn next(self, ok: bool) -> Listener {
        Listener {
            request: match self.request {
                ListenerRequest::Install(kind) => if ok {
                    Listener::after_install(kind)
                } else {
                    ListenerRequest::ReportFailure(ListenerFault::Hook(kind))
                },
                ListenerRequest::ReportReady => if ok {
                    ListenerRequest::GetMessage
                } else {
                    ListenerRequest::ReportFailure(ListenerFault::ReadyNotTaken)
                },
                ListenerRequest::GetMessage => if ok {
                    ListenerRequest::TranslateMessage
                } else {
                    ListenerRequest::Exit
                },
                ListenerRequest::TranslateMessage => if ok {
                    ListenerRequest::DispatchMessage
                } else {
                    ListenerRequest::ReportFailure(ListenerFault::Translate)
                },
                ListenerRequest::DispatchMessage => ListenerRequest::GetMessage,
                ListenerRequest::ReportFailure(_) => ListenerRequest::Exit,
                ListenerRequest::Exit => ListenerRequest::Exit,
            },
        }
    }

    /// The event listener before anything was done.
    pub fn new() -> (listener: Listener)
        ensures
            listener == Listener::initial(),
    {
        Listener { request: ListenerRequest::Install(HookKind::Keyboard) }
    }

    /// Takes the outcome of the pending request and decides what is asked
    /// next.
    pub fn step(&mut self, ok: bool)
        ensures
            *final(self) == old(self).next(ok),
    {
        self.request = match self.request {
            ListenerRequest::Install(kind) => if ok {
                match kind {
                    HookKind::Keyboard => ListenerRequest::Install(HookKind::ForegroundWindow),
                    HookKind::ForegroundWindow => ListenerRequest::Install(
                        HookKind::DestroyWindow,
                    ),
                    HookKind::DestroyWindow => ListenerRequest::ReportReady,
                }
            } else {
                ListenerRequest::ReportFailure(ListenerFault::Hook(kind))
            },
            ListenerRequest::ReportReady => if ok {
                ListenerRequest::GetMessage
            } else {
                ListenerRequest::ReportFailure(ListenerFault::ReadyNotTaken)
            },
            ListenerRequest::GetMessage => if ok {
                ListenerRequest::TranslateMessage
            } else {
                ListenerRequest::Exit
            },
            ListenerRequest::TranslateMessage => if ok {
                ListenerRequest::DispatchMessage
            } else {
                ListenerRequest::ReportFailure(ListenerFault::Translate)
            },
            ListenerRequest::DispatchMessage => ListenerRequest::GetMessage,
            ListenerRequest::ReportFailure(_) => ListenerRequest::Exit,
            ListenerRequest::Exit => ListenerRequest::Exit,
        };
    }
}

} // verus!
