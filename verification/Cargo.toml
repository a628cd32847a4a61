[package]
name = "mirudi"
version = "0.1.0"
edition = "2021"
publish = false

[dependencies]
axum = "0.8"
clap = { version = "4", features = ["derive"] }
dialoguer = { version = "*", features = ["fuzzy-select"] }
dirs = "*"
git2 = "*"
mime_guess = "2"
once_cell = "1"
prettydiff = "*"
serde = { version = "1", features = ["derive"] }
serde_yaml = "0.9"
tokio = { version = "1", features = ["full"] }
tower-http = { version = "0.6", features = ["cors"] }
webbrowser = "1"
