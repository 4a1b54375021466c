[package]
name = "human_exception"
version = "0.1.0"
edition = "2021"
publish = false

[dependencies]
clap = { version = "*", features = ["derive"] }
crossterm = "*"
ratatui = "*"
ratatui-code-editor = "*"
mlua = { version = "*", features = ["lua54", "vendored"] }
