[package]
name = "tokio-tfo"
version = "0.1.0"
edition = "2021"
publish = false

[dependencies]
cfg-if = "=1.0.5"
futures = "=0.3.34"
libc = "=0.2.191"
log = "=0.4.35"
once_cell = "=1.21.4"
socket2 = { version = "=0.4.10", features = ["all"] }
tokio = { version = "=1.54.1", features = ["net"] }
winapi = { version = "=0.3.9", features = ["mswsock", "winsock2", "ws2def", "minwindef", "minwinbase", "winerror", "winnt"] }
