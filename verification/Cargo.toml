[package]
name = "microtun-telnet"
version = "0.1.0"
edition = "2021"
publish = false

[dependencies]
clap = "4"
crossterm = { version = "0.28", features = ["event-stream"] }
embedded-io-async = { version = "0.7", features = ["std"] }
futures-util = "0.3"
ratatui = "0.29"
tokio = { version = "1", features = ["fs", "io-util", "macros", "net", "rt", "time"] }
tui-term = "0.2"
