[package]
name = "ui"
version = "0.1.0"
edition = "2021"
publish = false

[dependencies]
egui = { version = "=0.36.2", default-features = false, features = ["default_fonts"] }
eframe = { version = "=0.36.2", default-features = false, features = ["default_fonts", "glow", "x11"] }
egui_extras = { version = "=0.36.2", default-features = false }
egui-phosphor = "=0.14.0"
rfd = "=0.17.2"
serde = { version = "=1.0.229", features = ["derive"] }
snafu = "=0.9.2"
sysinfo = { version = "=0.40.1", default-features = false, features = ["system"] }
tokio = { version = "=1.54.1", features = ["rt", "sync", "time", "macros"] }
tracing = "=0.1.44"
