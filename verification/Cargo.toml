[package]
name = "notes"
version = "0.1.0"
edition = "2021"
publish = false

[dependencies]
chrono = "0.4"
rusqlite = { version = "0.31", features = ["bundled"] }
glib = "0.18"
gtk4 = "0.7"
libadwaita = { version = "0.5", features = ["v1_4"] }
