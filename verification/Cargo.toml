[package]
name = "maxmind_db_rust"
version = "0.1.0"
edition = "2021"
publish = false

[dependencies]
ipnetwork = "=0.21.1"
maxminddb = { version = "=0.26.0", features = ["mmap"] }
memmap2 = "=0.9.12"
serde = "=1.0.229"
