[package]
name = "remit"
version = "0.1.0"
edition = "2021"
publish = false

[dependencies]
mdns-sd = "*"
hostname = "*"
local-ip-address = "*"
serde = { version = "1", features = ["derive"] }
rusqlite = { version = "*", features = ["bundled"] }
suppaftp = "*"
notify = "*"
libunftp = "*"
unftp-sbe-fs = "*"
tokio = { version = "1", features = ["rt-multi-thread"] }
