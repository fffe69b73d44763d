[package]
name = "bbc_news_cli"
version = "0.1.0"
edition = "2021"
publish = false

[dependencies]
anyhow = "1"
bincode = "=1.3.3"
chrono = "=0.4.45"
clap = { version = "4", default-features = false, features = ["derive", "std", "help", "usage", "error-context"] }
crossterm = "0.29"
dirs = "5"
dom_smoothie = "=0.18.2"
html2text = "=0.12.5"
image = { version = "0.25", default-features = false, features = ["png", "jpeg"] }
lazy_static = "1"
quick-xml = "=0.37.5"
ratatui = "0.30"
ratatui-image = { version = "=1.0.5", default-features = false, features = ["rustix"] }
reqwest = { version = "0.12", default-features = false, features = ["blocking", "default-tls"] }
serde = { version = "1", features = ["derive"] }
toml = "0.8"
webbrowser = "1"
