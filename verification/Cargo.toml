[package]
name = "service_observer"
version = "0.1.0"
edition = "2021"
publish = false

[dependencies]
serde_json = "1"
regex = "1"
serde = { version = "1", features = ["derive"] }
rayon = "1"
thiserror = "1"
async-trait = "0.1"
tokio = { version = "1", features = ["full"] }
clokwerk = "0.4"
crossterm = "0.26"
ratatui = { version = "0.21", features = ["serde"] }
clap = { version = "4", features = ["derive"] }
dirs = "4"
config = "0.13"
sea-orm = { version = "0.11", default-features = false, features = ["sqlx-sqlite", "runtime-tokio-rustls", "macros"] }
sea-orm-migration = { version = "0.11", default-features = false, features = ["sqlx-sqlite", "runtime-tokio-rustls"] }
