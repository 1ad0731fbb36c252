[package]
name = "vibrance_monitor"
version = "0.1.0"
edition = "2021"
publish = false

[dependencies]
anyhow = "1"
log = "0.4"
nvapi = "0.1"
serde = { version = "1", features = ["derive"] }
sysinfo = { version = "0.33", default-features = false, features = ["system"] }
winapi = { version = "0.3", features = ["winuser", "processthreadsapi", "handleapi", "winbase", "winnt", "minwindef"] }
