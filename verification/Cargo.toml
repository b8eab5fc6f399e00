[package]
name = "glycin"
version = "0.1.0"
edition = "2021"
publish = false

[dependencies]
async-std = "1"
gio = "0.18"
nix = "=0.26.4"
serde = { version = "1", features = ["derive"] }
zbus = "=3.15.2"
zvariant = "=3.15.2"
