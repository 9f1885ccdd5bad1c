[package]
name = "babycancer"
version = "0.4.0"
edition = "2021"
publish = false

[dependencies]
chrono = "0.4"
clap = { version = "4", features = ["derive"] }
dirs = "*"
flate2 = "1"
nix = { version = "*", features = ["fs", "user"] }
notify = "*"
regex = "1"
serde = { version = "1", features = ["derive"] }
tar = "0.4"
toml = "*"
toml_edit = "*"
