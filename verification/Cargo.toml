[package]
name = "codesnap"
version = "0.1.0"
edition = "2021"
publish = false

[dependencies]
ansi_term = "0.12"
anyhow = "1"
arboard = "3"
base64 = "0.22"
cansi = "2"
chrono = "0.4"
clap = { version = "4", features = ["derive"] }
cosmic-text = "0.14"
derive_builder = "0.20"
ferris-says = "0.3"
home = "0.5"
hyperpolyglot = "0.1"
include_dir = "0.7"
indicatif = "0.17"
mime_guess = "2"
once_cell = "1"
plist = "1"
rand = "0.8"
regex = "1"
reqwest = "0.12"
rgb = "0.8"
schemars = "0.8"
serde = { version = "1", features = ["derive"] }
serde_json = "1"
syntect = "5"
thiserror = "1"
tiny-skia = "0.11"
tokio = { version = "1", features = ["macros", "rt-multi-thread"] }
two-face = "0.4"
url = "2"
