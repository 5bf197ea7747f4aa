[package]
name = "iced_tabs"
version = "0.1.0"
edition = "2021"
publish = false

[dependencies]
iced = { version = "=0.14.0", default-features = false, features = ["advanced", "tiny-skia", "svg", "x11", "crisp", "thread-pool"] }
iced_fonts = { version = "=0.3.0", features = ["codicon"] }
