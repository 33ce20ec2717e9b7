[package]
name = "discord_tui"
version = "0.1.0"
edition = "2021"
publish = false

[dependencies]
chrono = "0.4"
comparable = "0.5"
crossterm = { version = "0.28", features = ["event-stream"] }
futures-util = "0.3"
image = { version = "0.25", default-features = false, features = ["png", "jpeg", "gif", "webp"] }
rand = "0.8"
ratatui = "0.29"
ratatui-image = { version = "*", default-features = false, features = ["crossterm"] }
regex = "1"
reqwest = { version = "0.12", default-features = false, features = ["json", "multipart", "rustls-tls"] }
serde = { version = "1", features = ["derive"] }
serde_derive = "1"
serde_json = "1"
tokio = { version = "1", features = ["full"] }
tokio-tungstenite = { version = "0.26", features = ["rustls-tls-webpki-roots"] }
tungstenite = "0.26"
viuer = { version = "*", default-features = false }
