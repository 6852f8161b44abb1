[package]
name = "win_event_log"
version = "0.1.0"
edition = "2021"
publish = false

[dependencies]
lazy_static = "1"
serde = "1"
serde-xml-rs = "0.4"
winapi = { version = "0.3", features = ["errhandlingapi", "handleapi", "libloaderapi", "minwindef", "synchapi", "winbase", "winevt", "winnt"] }
