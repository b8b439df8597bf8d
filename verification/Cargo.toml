[package]
name = "psx_core"
version = "0.1.0"
edition = "2021"
publish = false

[dependencies]
lru = "*"
hashbrown = "*"
capstone = "*"
ansi_term = "*"
log = "*"
serde = { version = "*", features = ["derive"] }
