[package]
name = "dioxus_shell"
version = "0.1.0"
edition = "2021"
publish = false

[dependencies]
blitz-dom = { version = ">=0.3.0-alpha.0, <0.4", default-features = false }
global-hotkey = { version = "0.7", default-features = false }
libc = "0.2"
serde = { version = "1", features = ["derive"] }
serde_json = "=1.0.154"
signal-hook = { version = "0.3", default-features = false, features = ["iterator"] }
tracing = "0.1"
webbrowser = "1"
winit = ">=0.31.0-beta.0, <0.32"
