[package]
name = "tinyinstallj"
version = "0.1.0"
edition = "2021"
publish = false

[dependencies]
bytes = "1"
dirs = "5"
isatty = "0.1"
nix = { version = "0.29", features = ["user"] }
platform-dirs = "0.3"
reqwest = { version = "0.12", default-features = false, features = ["blocking", "rustls-tls"] }
webbrowser = "1"
winreg = "0.52"
