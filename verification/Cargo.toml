[package]
name = "fd-lock"
version = "0.1.0"
edition = "2021"
publish = false

[dependencies]
rustix = { version = "*", features = ["fs"] }
tokio = { version = "1", features = ["rt", "rt-multi-thread", "sync", "time", "fs", "io-util"] }
async-trait = "0.1"
pin-project = "1"
thiserror = "*"
cfg-if = "1"
windows-sys = { version = "*", features = ["Win32_Foundation", "Win32_Storage_FileSystem", "Win32_System_IO"] }

[dev-dependencies]
tempfile = "3"
