//! The value-level half of the Win32 bindings: how the parameters of a call
//! are packed and how a raw notification is decoded. The calls themselves are
//! made by the driver.

pub mod bindings;
pub mod hooks;
pub mod utils;
