[package]
name = "terminalviva"
version = "0.1.0"
edition = "2021"
publish = false

[dependencies]
chrono = "0.4"
clap = { version = "4", features = ["derive"] }
config = { version = "0.13", default-features = false, features = ["toml"] }
lazy_static = "1"
reqwest = { version = "0.11", features = ["json"] }
serde = { version = "1", features = ["derive"] }
serde_json = "1"
tabled = "0.12"
tokio = { version = "1", features = ["macros", "rt-multi-thread"] }
