[package]
name = "can_viewer"
version = "0.1.0"
edition = "2021"
publish = false

[dependencies]
can-dbc = "=6.0.0"
chrono = "=0.4.45"
socketcan = "=3.6.2"
tokio = { version = "=1.54.1", features = ["rt-multi-thread", "macros"] }
plotters = { version = "=0.3.7", default-features = false, features = ["bitmap_backend", "line_series"] }
