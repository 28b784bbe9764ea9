[package]
name = "reprise"
version = "0.1.0"
edition = "2021"
publish = false

[dependencies]
url = "*"
chrono = "*"
clap = { version = "*", features = ["derive"] }
colored = "*"
ctrlc = "*"
is-terminal = "*"
notify-rust = "*"
reqwest = { version = "*", default-features = false, features = ["blocking", "json"] }
rpassword = "*"
serde = { version = "*", features = ["derive"] }
serde_json = "*"
toml = "*"
