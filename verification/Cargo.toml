[package]
name = "tcg_fetch"
version = "0.1.0"
edition = "2021"
publish = false

[dependencies]
image = "*"
serde_json = "*"
serde = { version = "*", features = ["derive"] }
clap = { version = "*", features = ["derive"] }
tokio = { version = "*", features = ["macros", "rt-multi-thread", "fs", "sync"] }
reqwest = { version = "*", default-features = false, features = ["json"] }
futures = "*"
indicatif = "*"
rayon = "*"
rand = "*"
imageproc = "*"
