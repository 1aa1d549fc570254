[package]
name = "autoskip"
version = "0.1.0"
edition = "2021"
publish = false

[dependencies]
rand = "0.8"
color-eyre = "0.6"
once_cell = "1"
thiserror = "1"
winapi = { version = "0.3", features = ["consoleapi", "minwindef", "wincon", "windef", "wingdi", "winnt", "winuser"] }
