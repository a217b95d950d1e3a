[package]
name = "ipc-ring"
version = "0.1.0"
edition = "2021"
publish = false

[dependencies]
arc-swap = "=1.9.3"
libc = "=0.2.191"
rustix = { version = "=1.1.6", features = ["fs", "mm", "net", "param", "shm", "thread"] }
scopeguard = "=1.2.0"
shm_open_anonymous = "=1.0.2"
tokio = { version = "=1.54.1", features = ["io-util", "macros", "net", "rt", "sync", "time"] }
windows = { version = "0.58", features = ["Win32_Foundation", "Win32_Security", "Win32_System_Memory", "Win32_System_SystemInformation", "Win32_System_Threading"] }
