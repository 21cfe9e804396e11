[package]
name = "almagro"
version = "0.1.0"
edition = "2021"
publish = false

[dependencies]
crossterm = "0.25"
home = "*"
jfs = "*"
reqwest = { version = "0.11", features = ["blocking"] }
serde = { version = "1", features = ["derive"] }
tui = "0.19"
tui-input = "0.6"
