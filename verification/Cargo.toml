[package]
name = "hyprnote"
version = "0.1.0"
edition = "2021"
publish = false

[dependencies]
url = "2"
urlencoding = "2"
uuid = { version = "1", features = ["v4"] }
serde = { version = "1", features = ["derive"] }
serde_json = "1"
strum = { version = "0.27", features = ["derive"] }
clap = { version = "4", features = ["derive", "env"] }
chrono = "0.4"
dirs = "6"
open = "5"
colored = "3"
anyhow = "1"
thiserror = "2"
tempfile = "3"
xshell = "0.2"
textwrap = "0.16"
tokio = { version = "1", features = ["rt-multi-thread", "macros", "time", "sync"] }
