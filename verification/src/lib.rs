//! Decision logic of a dialog auto-skipper for one target window.
//!
//! The crate holds everything that is decided or computed: how window
//! coordinates scale, what the sampled pixels say about the dialog, which
//! synthetic input follows, and the three state machines (orchestrator,
//! automation worker, event listener) that say what to do next. It performs
//! no I/O itself. A driver performs each request a machine makes and hands
//! the outcome back.

pub mod app;
pub mod genshin;
pub mod global_states;
pub mod listener;
pub mod random;
pub mod winapi_bindings;
pub mod worker;
