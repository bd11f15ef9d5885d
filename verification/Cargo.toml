[package]
name = "deluge_kit_gen"
version = "0.1.0"
edition = "2021"
publish = false

[dependencies]
bwavfile = "=2.0.1"
clap = { version = "=4.6.7", features = ["derive"] }
thiserror = "=2.0.21"
