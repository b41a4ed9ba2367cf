[package]
name = "obsidian_index"
version = "0.1.0"
edition = "2021"
publish = false

[dependencies]
anyhow = "1"
dateparser = "0.2"
gray_matter = "0.2"
grep = "0.3"
serde = { version = "1", features = ["derive"] }
thiserror = "1"
walkdir = "2"
