[package]
name = "alumnimap"
version = "0.1.0"
edition = "2021"
publish = false

[dependencies]
actix-files = "0.6"
actix-web = { version = "4", default-features = false, features = ["macros"] }
async-trait = "0.1"
catppuccin-egui = { version = "5", default-features = false, features = ["egui31"] }
clap = { version = "4", features = ["derive"] }
config = { version = "0.15", default-features = false, features = ["toml"] }
egui = "0.31"
egui_extras = "0.31"
ehttp = { version = "0.5", features = ["json"] }
mime_guess = "2"
rust-embed = "8"
sea-orm = { version = "1", default-features = false, features = ["sqlx-sqlite", "runtime-tokio-rustls", "macros"] }
sea-orm-migration = { version = "1", default-features = false, features = ["sqlx-sqlite", "runtime-tokio-rustls"] }
serde = { version = "1", features = ["derive"] }
serde_json = "1"
web-sys = { version = "0.3", features = ["Location", "Window"] }
