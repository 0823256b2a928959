[package]
name = "backup_sync"
version = "0.1.0"
edition = "2021"
publish = false

[dependencies]
anyhow = "*"
clap = { version = "*", features = ["derive"] }
jwalk = "*"
mimalloc = "*"
rayon = "*"
