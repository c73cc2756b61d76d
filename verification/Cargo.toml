[package]
name = "chess_binpack_utils"
version = "0.1.0"
edition = "2021"
publish = false

[dependencies]
anyhow = "=1.0.104"
bulletformat = "=1.8.0"
clap = { version = "=4.6.7", features = ["derive"] }
ctrlc = "=3.5.2"
rand = "=0.8.8"
sfbinpack = "=0.6.5"
shakmaty = "=0.29.4"
thiserror = "=2.0.21"
viriformat = "=3.0.0"
