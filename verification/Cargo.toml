[package]
name = "asyncritty"
version = "0.1.0"
edition = "2021"
publish = false

[dependencies]
alacritty_terminal = "*"
tokio = { version = "1", features = ["rt", "macros", "sync", "time", "process", "io-util", "net"] }
rustix-openpty = "*"
libc = "0.2"
cfg-if = "1"
