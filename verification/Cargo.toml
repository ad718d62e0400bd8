[package]
name = "pty_process"
version = "0.1.0"
edition = "2021"
publish = false

[dependencies]
rustix = { version = "*", features = ["fs", "pty", "termios", "process"] }
tokio = { version = "*", features = ["rt", "net", "process", "io-util"] }
