[package]
name = "setup_assistant"
version = "0.1.0"
edition = "2021"
publish = false

[dependencies]
log = "0.4"
log4rs = { version = "1", default-features = false, features = ["file_appender"] }
serde = { version = "1", features = ["derive"] }
serde_json = "1"
winapi = { version = "0.3", features = ["winuser", "wow64apiset", "processthreadsapi"] }
winreg = "*"
