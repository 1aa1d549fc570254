use vstd::prelude::*;

verus! {

/// A notification of the event source, in the form the orchestrator consumes.
#[derive(Clone, Copy, Debug, PartialEq, Eq, Structural)]
pub enum EventType {
    /// A key went down; the payload is its virtual-key code.
    KeyPress(u32),
    /// Some window was destroyed.
    DestroyWindow,
    /// Another window came to the foreground.
    ChangeForegroundWindow,
    /// The process was asked to shut down.
    Shutdown,
}

} // verus!
