[package]
name = "tenuto"
version = "0.1.0"
edition = "2021"
publish = false

[dependencies]
clap = { version = "4", features = ["derive"] }
crossbeam-channel = "0.5"
crossterm = "*"
directories = "*"
image = { version = "0.25", default-features = false, features = ["jpeg", "png"] }
ratatui = "*"
ratatui-image = { version = "*", default-features = false, features = ["crossterm"] }
serde = { version = "1", features = ["derive"] }
serde_json = "1"
thiserror = "2"
time = { version = "0.3", features = ["serde", "parsing", "formatting"] }
tracing = "0.1"
unicode-width = "0.2"
url = { version = "2", features = ["serde"] }
