[package]
name = "ironbar"
version = "0.1.0"
edition = "2021"
publish = false

[dependencies]
color-eyre = "0.6"
gtk = "0.18"
hyprland = "0.4.0-beta.2"
tokio = { version = "1", features = ["rt", "rt-multi-thread", "sync"] }
tracing = "0.1"
