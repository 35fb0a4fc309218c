[package]
name = "moltbook_cli"
version = "0.7.2"
edition = "2021"
publish = false

[dependencies]
serde_json = "*"
serde = { version = "*", features = ["derive"] }
reqwest = { version = "*", default-features = false, features = ["json", "multipart"] }
tokio = { version = "*", features = ["rt-multi-thread", "macros"] }
clap = { version = "*", features = ["derive"] }
colored = "*"
dirs = "*"
mime_guess = "*"
chrono = "*"
urlencoding = "*"
thiserror = "*"
dialoguer = "*"
textwrap = "*"
terminal_size = "*"
