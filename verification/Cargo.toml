[package]
name = "sunflower"
version = "0.1.0"
edition = "2021"
publish = false

[dependencies]
pc-keyboard = "*"
ps2 = "*"
uart_16550 = "*"
clap = { version = "4", features = ["cargo"] }
thiserror = "2"
bitflags = "2"
