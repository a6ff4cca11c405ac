[package]
name = "xplorer"
version = "0.1.0"
edition = "2021"
publish = false

[dependencies]
dirs = "=7.0.0"
serde = { version = "=1.0.229", features = ["derive"] }
serde_json = "=1.0.154"
chrono = "=0.4.45"
trash = "=5.2.9"
open = "=5.4.5"
git2 = { version = "=0.21.0", default-features = false }
tokio = { version = "=1.54.1", features = ["rt", "rt-multi-thread"] }
rayon = "=1.12.0"
notify = "7"
notify-debouncer-full = "0.4"
arboard = { version = "3", default-features = false }
