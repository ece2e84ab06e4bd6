[package]
name = "ariel_os_core"
version = "0.1.0"
edition = "2021"
publish = false

[dependencies]
crc = "=3.4.0"
heapless = "=0.8.0"
rbi = "=0.1.1"
argh = "0.1.12"
embedded-storage-async = "0.4"
miette = { version = "7.2.0", features = ["fancy"] }
minijinja = "2.0.3"
serde = { version = "1.0.0", features = ["derive"] }
serde_yaml = "0.9.34"
slipmux = "*"
thiserror = "1.0.61"
