[package]
name = "item_list"
version = "0.1.0"
edition = "2021"
publish = false

[dependencies]
async-once-cell = "=0.5.4"
eframe = { version = "=0.36.2", default-features = false, features = ["glow", "x11"] }
egui = "=0.36.2"
sqlx = { version = "=0.9.0", default-features = false, features = ["sqlite", "runtime-tokio", "migrate"] }
tokio = { version = "=1.53.2", default-features = false, features = ["rt-multi-thread", "time"] }
