[package]
name = "echidna"
version = "0.1.0"
edition = "2021"
publish = false

[dependencies]
clap = { version = "4", features = ["derive", "env"] }
clap_complete = "4"
dirs = "*"
notify = "*"
open = "*"
serde = { version = "1", features = ["derive"] }
serde_json = "1"
thiserror = "*"
toml = "*"
urlencoding = "2"
which = "*"
